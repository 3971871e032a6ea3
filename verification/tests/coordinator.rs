use toggler::coordinator::TogglerState;
use toggler::messages::CommandConfig;
use toggler::messages::CloseRequest;
use toggler::messages::Effect;
use toggler::messages::ErrorKind;
use toggler::messages::HostCommand;
use toggler::messages::OpenRequest;
use toggler::messages::Response;
use toggler::messages::ToggleAction;
use toggler::messages::ToggleRequest;
use toggler::messages::WarningKind;
use toggler::registry::TogglerPaneState;

fn bash_config() -> CommandConfig {
    CommandConfig { cmd: "bash".to_string(), args: Vec::new(), cwd: None }
}

fn open_req(pane_id: &str) -> OpenRequest {
    OpenRequest { pane_id: pane_id.to_string(), command: bash_config() }
}

fn toggle_req(pane_id: &str, cmd: &str) -> ToggleRequest {
    ToggleRequest {
        pane_id: pane_id.to_string(),
        command: CommandConfig { cmd: cmd.to_string(), args: Vec::new(), cwd: None },
    }
}

fn close_req(pane_id: &str) -> CloseRequest {
    CloseRequest { pane_id: pane_id.to_string() }
}

#[test]
fn open_scenario_end_to_end() {
    let mut state = TogglerState::new();
    let eff = state.handle_open_pipe("pipe-1", &open_req("a"));
    match eff {
        Effect::Dispatch(HostCommand::OpenCommandPane { config, context_pane_id }) => {
            assert_eq!(config.cmd, "bash");
            assert_eq!(config.args, Vec::<String>::new());
            assert_eq!(config.cwd, None);
            assert_eq!(context_pane_id, "a");
        }
        other => panic!("expected a create command, got {:?}", other),
    }
    let key = "a".to_string();
    assert!(matches!(state.panes.get(&key), Some(TogglerPaneState::Opening { is_toggle: false, .. })));

    let delivered = state.handle_pane_opened_event(7, Some(&key));
    assert_eq!(delivered, Some(("pipe-1".to_string(), Response::Success)));
    assert!(matches!(state.panes.get(&key), Some(TogglerPaneState::Opened { zellij_pane_id: 7 })));
}

#[test]
fn close_scenario_end_to_end() {
    let mut state = TogglerState::new();
    let key = "a".to_string();
    state.panes.insert(key.clone(), TogglerPaneState::Opened { zellij_pane_id: 7 });

    let eff = state.handle_close_pipe("pipe-2", &close_req("a"));
    assert_eq!(eff, Effect::Dispatch(HostCommand::CloseTerminalPane { zellij_pane_id: 7 }));
    assert!(matches!(
        state.panes.get(&key),
        Some(TogglerPaneState::Closing { zellij_pane_id: 7, is_toggle: false, .. })
    ));

    let delivered = state.handle_pane_exited_event(7);
    assert_eq!(delivered, Some(("pipe-2".to_string(), Response::Success)));
    assert!(state.panes.get(&key).is_none());
}

#[test]
fn toggle_scenario_end_to_end() {
    let mut state = TogglerState::new();
    let key = "b".to_string();

    let eff = state.handle_toggle_pipe("pipe-3", &toggle_req("b", "top"));
    assert!(matches!(eff, Effect::Dispatch(HostCommand::OpenCommandPane { .. })));
    assert!(matches!(state.panes.get(&key), Some(TogglerPaneState::Opening { is_toggle: true, .. })));

    let delivered = state.handle_pane_opened_event(9, Some(&key));
    assert_eq!(delivered, Some(("pipe-3".to_string(), Response::Toggled(ToggleAction::Opened))));
    assert!(matches!(state.panes.get(&key), Some(TogglerPaneState::Opened { zellij_pane_id: 9 })));

    let eff = state.handle_toggle_pipe("pipe-4", &toggle_req("b", "top"));
    assert_eq!(eff, Effect::Dispatch(HostCommand::CloseTerminalPane { zellij_pane_id: 9 }));
    assert!(matches!(
        state.panes.get(&key),
        Some(TogglerPaneState::Closing { zellij_pane_id: 9, is_toggle: true, .. })
    ));

    let delivered = state.handle_pane_exited_event(9);
    assert_eq!(delivered, Some(("pipe-4".to_string(), Response::Toggled(ToggleAction::Closed))));
    assert!(state.panes.get(&key).is_none());
}

#[test]
fn close_before_completion_is_refused_without_terminate() {
    let mut state = TogglerState::new();
    let eff = state.handle_open_pipe("pipe-1", &open_req("a"));
    assert!(matches!(eff, Effect::Dispatch(_)));

    let eff = state.handle_close_pipe("pipe-2", &close_req("a"));
    assert_eq!(eff, Effect::Reply(Response::Error(ErrorKind::PaneIsOpening)));
    let key = "a".to_string();
    assert!(matches!(state.panes.get(&key), Some(TogglerPaneState::Opening { .. })));
}

#[test]
fn close_on_absent_pane_warns() {
    let mut state = TogglerState::new();
    let eff = state.handle_close_pipe("pipe-1", &close_req("ghost"));
    assert_eq!(eff, Effect::Reply(Response::Warning(WarningKind::PaneNotFound)));
    let key = "ghost".to_string();
    assert!(state.panes.get(&key).is_none());
}

#[test]
fn second_open_warns_and_issues_no_second_create() {
    let mut state = TogglerState::new();
    let first = state.handle_open_pipe("pipe-1", &open_req("a"));
    assert!(matches!(first, Effect::Dispatch(_)));

    let second = state.handle_open_pipe("pipe-2", &open_req("a"));
    assert_eq!(second, Effect::Reply(Response::Warning(WarningKind::AlreadyOpening)));
}

#[test]
fn open_on_opened_pane_warns() {
    let mut state = TogglerState::new();
    state.panes.insert("a".to_string(), TogglerPaneState::Opened { zellij_pane_id: 7 });
    let eff = state.handle_open_pipe("pipe-1", &open_req("a"));
    assert_eq!(eff, Effect::Reply(Response::Warning(WarningKind::AlreadyOpened)));
}

#[test]
fn open_on_closing_pane_is_an_error() {
    let mut state = TogglerState::new();
    state.panes.insert(
        "a".to_string(),
        TogglerPaneState::Closing { zellij_pane_id: 7, pipe_id: "old".to_string(), is_toggle: false },
    );
    let eff = state.handle_open_pipe("pipe-1", &open_req("a"));
    assert_eq!(eff, Effect::Reply(Response::Error(ErrorKind::PaneIsClosing)));
}

#[test]
fn close_on_closing_pane_warns() {
    let mut state = TogglerState::new();
    state.panes.insert(
        "a".to_string(),
        TogglerPaneState::Closing { zellij_pane_id: 7, pipe_id: "old".to_string(), is_toggle: false },
    );
    let eff = state.handle_close_pipe("pipe-1", &close_req("a"));
    assert_eq!(eff, Effect::Reply(Response::Warning(WarningKind::AlreadyClosing)));
}

#[test]
fn toggle_during_transition_warns() {
    let mut state = TogglerState::new();
    state.handle_open_pipe("pipe-1", &open_req("a"));
    let eff = state.handle_toggle_pipe("pipe-2", &toggle_req("a", "bash"));
    assert_eq!(eff, Effect::Reply(Response::Warning(WarningKind::Transitioning)));

    state.panes.insert(
        "b".to_string(),
        TogglerPaneState::Closing { zellij_pane_id: 7, pipe_id: "old".to_string(), is_toggle: false },
    );
    let eff = state.handle_toggle_pipe("pipe-3", &toggle_req("b", "bash"));
    assert_eq!(eff, Effect::Reply(Response::Warning(WarningKind::Transitioning)));
}

#[test]
fn uncorrelated_opened_notification_is_ignored() {
    let mut state = TogglerState::new();
    state.panes.insert("a".to_string(), TogglerPaneState::Opened { zellij_pane_id: 7 });

    // No correlation context at all.
    assert_eq!(state.handle_pane_opened_event(8, None), None);

    // Context names an identifier the registry does not track.
    let unknown = "zzz".to_string();
    assert_eq!(state.handle_pane_opened_event(8, Some(&unknown)), None);

    // Context names an identifier that is not Opening: nothing changes.
    let key = "a".to_string();
    assert_eq!(state.handle_pane_opened_event(8, Some(&key)), None);
    assert!(matches!(state.panes.get(&key), Some(TogglerPaneState::Opened { zellij_pane_id: 7 })));
}

#[test]
fn unmatched_exited_notification_is_ignored() {
    let mut state = TogglerState::new();
    state.panes.insert("a".to_string(), TogglerPaneState::Opened { zellij_pane_id: 7 });

    // Unknown handle: nothing to reconcile.
    assert_eq!(state.handle_pane_exited_event(99), None);

    // The handle matches an entry that is not Closing: ignored, entry kept.
    assert_eq!(state.handle_pane_exited_event(7), None);
    let key = "a".to_string();
    assert!(matches!(state.panes.get(&key), Some(TogglerPaneState::Opened { zellij_pane_id: 7 })));
}

#[test]
fn find_pane_id_by_zellij_id_scans_current_entries() {
    let mut state = TogglerState::new();
    state.handle_open_pipe("pipe-1", &open_req("a"));
    state.panes.insert("b".to_string(), TogglerPaneState::Opened { zellij_pane_id: 7 });
    state.panes.insert(
        "c".to_string(),
        TogglerPaneState::Closing { zellij_pane_id: 8, pipe_id: "pipe-2".to_string(), is_toggle: false },
    );

    assert_eq!(state.find_pane_id_by_zellij_id(7), Some(&"b".to_string()));
    assert_eq!(state.find_pane_id_by_zellij_id(8), Some(&"c".to_string()));
    // An Opening entry has no host handle yet; an unknown handle finds nothing.
    assert_eq!(state.find_pane_id_by_zellij_id(99), None);
}

#[test]
fn pipe_dispatch_routes_by_request_name() {
    let mut state = TogglerState::new();
    let eff = state.handle_pipe("pipe-1", "toggler::open", "{\"pane_id\":\"a\",\"cmd\":\"bash\"}");
    assert!(matches!(eff, Effect::Dispatch(HostCommand::OpenCommandPane { .. })));

    let mut state = TogglerState::new();
    state.panes.insert("a".to_string(), TogglerPaneState::Opened { zellij_pane_id: 7 });
    let eff = state.handle_pipe("pipe-2", "toggler::close", "{\"pane_id\":\"a\"}");
    assert_eq!(eff, Effect::Dispatch(HostCommand::CloseTerminalPane { zellij_pane_id: 7 }));

    let mut state = TogglerState::new();
    let eff = state.handle_pipe("pipe-3", "toggler::toggle", "{\"pane_id\":\"b\",\"cmd\":\"top\"}");
    assert!(matches!(eff, Effect::Dispatch(HostCommand::OpenCommandPane { .. })));
}

#[test]
fn unknown_request_name_is_an_error() {
    let mut state = TogglerState::new();
    let eff = state.handle_pipe("pipe-1", "toggler::frob", "{}");
    assert_eq!(
        eff,
        Effect::Reply(Response::Error(ErrorKind::UnknownCommand("toggler::frob".to_string())))
    );
    let key = "frob".to_string();
    assert!(state.panes.get(&key).is_none());
}

#[test]
fn malformed_payload_never_touches_the_registry() {
    for name in ["toggler::open", "toggler::close", "toggler::toggle"] {
        let mut state = TogglerState::new();
        let eff = state.handle_pipe("pipe-1", name, "not-json");
        match eff {
            Effect::Reply(Response::Error(ErrorKind::InvalidJson(detail))) => {
                assert!(!detail.is_empty());
                let message = ErrorKind::InvalidJson(detail).message();
                assert!(message.starts_with("invalid json: "));
            }
            other => panic!("expected an invalid-json error, got {:?}", other),
        }
        let key = "a".to_string();
        assert!(state.panes.get(&key).is_none());
    }
}

#[test]
fn response_texts_match_the_contract() {
    assert_eq!(WarningKind::AlreadyOpened.message(), "pane is already opened");
    assert_eq!(WarningKind::AlreadyOpening.message(), "pane is already opening");
    assert_eq!(WarningKind::AlreadyClosing.message(), "pane is already closing");
    assert_eq!(WarningKind::PaneNotFound.message(), "pane not found");
    assert_eq!(WarningKind::Transitioning.message(), "pane is transitioning");
    assert_eq!(ErrorKind::PaneIsClosing.message(), "pane is closing");
    assert_eq!(ErrorKind::PaneIsOpening.message(), "pane is opening");
    assert_eq!(
        ErrorKind::InvalidJson("boom".to_string()).message(),
        "invalid json: boom"
    );
    assert_eq!(
        ErrorKind::UnknownCommand("nope".to_string()).message(),
        "unknown command: nope"
    );
}

#[test]
fn context_key_names_the_embedded_identifier() {
    assert_eq!(toggler::coordinator::pane_id_context_key(), "__toggler_pane_id");
}

#[test]
fn registry_insert_get_remove() {
    let mut registry = toggler::registry::Registry::new();
    let a = "a".to_string();
    let b = "b".to_string();
    assert!(registry.get(&a).is_none());

    registry.insert(a.clone(), TogglerPaneState::Opened { zellij_pane_id: 1 });
    registry.insert(b.clone(), TogglerPaneState::Opened { zellij_pane_id: 2 });
    assert!(matches!(registry.get(&a), Some(TogglerPaneState::Opened { zellij_pane_id: 1 })));
    assert!(matches!(registry.get(&b), Some(TogglerPaneState::Opened { zellij_pane_id: 2 })));

    // Inserting under an existing identifier replaces its entry.
    registry.insert(a.clone(), TogglerPaneState::Opened { zellij_pane_id: 3 });
    assert!(matches!(registry.get(&a), Some(TogglerPaneState::Opened { zellij_pane_id: 3 })));

    let removed = registry.remove(&a);
    assert!(matches!(removed, Some(TogglerPaneState::Opened { zellij_pane_id: 3 })));
    assert!(registry.get(&a).is_none());
    assert!(registry.remove(&a).is_none());
    assert!(matches!(registry.get(&b), Some(TogglerPaneState::Opened { zellij_pane_id: 2 })));
}
