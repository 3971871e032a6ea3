//! The transition coordinator: given an inbound request (open/close/toggle)
//! or a completion notification from the host (pane opened / pane exited),
//! it decides the next registry state and what response, if any, to emit.
//!
//! Each transition is written twice: once as a `spec` step function over the
//! registry's map view — the contract — and once as executable code proved
//! to implement it.

use vstd::prelude::*;
use vstd::string::StringExecFns;

use crate::messages::CommandConfig;
use crate::messages::CommandConfigV;
use crate::messages::CloseRequest;
use crate::messages::Effect;
use crate::messages::EffectV;
use crate::messages::ErrorKind;
use crate::messages::ErrorKindV;
use crate::messages::HostCommand;
use crate::messages::HostCommandV;
use crate::messages::OpenRequest;
use crate::messages::Response;
use crate::messages::ResponseV;
use crate::messages::ToggleAction;
use crate::messages::ToggleRequest;
use crate::messages::WarningKind;
use crate::registry::PaneStateV;
use crate::registry::Registry;
use crate::registry::TogglerPaneState;
use crate::registry::state_handle;

verus! {

/// Record that an open is in flight and ask the host to create the pane,
/// carrying the logical identifier as correlation context.
pub open spec fn start_open_step(
    m: Map<Seq<char>, PaneStateV>,
    pipe_id: Seq<char>,
    pane_id: Seq<char>,
    config: CommandConfigV,
    is_toggle: bool,
) -> (Map<Seq<char>, PaneStateV>, EffectV) {
    (
        m.insert(pane_id, PaneStateV::Opening { pipe_id, is_toggle }),
        EffectV::Dispatch(HostCommandV::OpenCommandPane { config, context_pane_id: pane_id }),
    )
}

/// Record that a close is in flight and ask the host to terminate the pane.
pub open spec fn start_close_step(
    m: Map<Seq<char>, PaneStateV>,
    pipe_id: Seq<char>,
    pane_id: Seq<char>,
    zellij_pane_id: u32,
    is_toggle: bool,
) -> (Map<Seq<char>, PaneStateV>, EffectV) {
    (
        m.insert(pane_id, PaneStateV::Closing { zellij_pane_id, pipe_id, is_toggle }),
        EffectV::Dispatch(HostCommandV::CloseTerminalPane { zellij_pane_id }),
    )
}

/// The open row of the request table: start opening when no entry exists,
/// otherwise answer at once with the conflict.
pub open spec fn open_step(
    m: Map<Seq<char>, PaneStateV>,
    pipe_id: Seq<char>,
    pane_id: Seq<char>,
    config: CommandConfigV,
) -> (Map<Seq<char>, PaneStateV>, EffectV) {
    if m.contains_key(pane_id) {
        match m[pane_id] {
            PaneStateV::Opening { .. } => (
                m,
                EffectV::Reply(ResponseV::Warning(WarningKind::AlreadyOpening)),
            ),
            PaneStateV::Opened { .. } => (
                m,
                EffectV::Reply(ResponseV::Warning(WarningKind::AlreadyOpened)),
            ),
            PaneStateV::Closing { .. } => (
                m,
                EffectV::Reply(ResponseV::Error(ErrorKindV::PaneIsClosing)),
            ),
        }
    } else {
        start_open_step(m, pipe_id, pane_id, config, false)
    }
}

/// The close row of the request table: start closing an `Opened` pane,
/// otherwise answer at once with the conflict.
pub open spec fn close_step(
    m: Map<Seq<char>, PaneStateV>,
    pipe_id: Seq<char>,
    pane_id: Seq<char>,
) -> (Map<Seq<char>, PaneStateV>, EffectV) {
    if m.contains_key(pane_id) {
        match m[pane_id] {
            PaneStateV::Opening { .. } => (
                m,
                EffectV::Reply(ResponseV::Error(ErrorKindV::PaneIsOpening)),
            ),
            PaneStateV::Opened { zellij_pane_id } => start_close_step(
                m,
                pipe_id,
                pane_id,
                zellij_pane_id,
                false,
            ),
            PaneStateV::Closing { .. } => (
                m,
                EffectV::Reply(ResponseV::Warning(WarningKind::AlreadyClosing)),
            ),
        }
    } else {
        (m, EffectV::Reply(ResponseV::Warning(WarningKind::PaneNotFound)))
    }
}

/// The toggle row of the request table: open when absent, close when opened,
/// warn while a transition is already in flight.
pub open spec fn toggle_step(
    m: Map<Seq<char>, PaneStateV>,
    pipe_id: Seq<char>,
    pane_id: Seq<char>,
    config: CommandConfigV,
) -> (Map<Seq<char>, PaneStateV>, EffectV) {
    if m.contains_key(pane_id) {
        match m[pane_id] {
            PaneStateV::Opened { zellij_pane_id } => start_close_step(
                m,
                pipe_id,
                pane_id,
                zellij_pane_id,
                true,
            ),
            _ => (m, EffectV::Reply(ResponseV::Warning(WarningKind::Transitioning))),
        }
    } else {
        start_open_step(m, pipe_id, pane_id, config, true)
    }
}

/// The deferred response owed once an open or close completes.
pub open spec fn completion_response(is_toggle: bool, action: ToggleAction) -> ResponseV {
    if is_toggle {
        ResponseV::Toggled(action)
    } else {
        ResponseV::Success
    }
}

/// Reconciliation of a pane-opened notification, which carries the host
/// handle and the logical identifier embedded in the correlation context.
/// Anything that does not correlate to an `Opening` entry is ignored.
pub open spec fn pane_opened_step(
    m: Map<Seq<char>, PaneStateV>,
    context_pane_id: Option<Seq<char>>,
    zellij_pane_id: u32,
) -> (Map<Seq<char>, PaneStateV>, Option<(Seq<char>, ResponseV)>) {
    match context_pane_id {
        Option::None => (m, Option::None),
        Option::Some(pane_id) => {
            if m.contains_key(pane_id) {
                match m[pane_id] {
                    PaneStateV::Opening { pipe_id, is_toggle } => (
                        m.insert(pane_id, PaneStateV::Opened { zellij_pane_id }),
                        Option::Some(
                            (pipe_id, completion_response(is_toggle, ToggleAction::Opened)),
                        ),
                    ),
                    _ => (m, Option::None),
                }
            } else {
                (m, Option::None)
            }
        },
    }
}

/// The key under which a create command's correlation context embeds the
/// logical pane identifier, for the pane-opened notification to carry back.
pub fn pane_id_context_key() -> (r: String)
    ensures
        r@ == "__toggler_pane_id"@,
{
    String::from_str("__toggler_pane_id")
}

/// The request names the transport dispatches on.
pub open spec fn known_pipe_name(name: Seq<char>) -> bool {
    name == "toggler::open"@ || name == "toggler::close"@ || name == "toggler::toggle"@
}

pub open spec fn opt_str_view(o: Option<&String>) -> Option<Seq<char>> {
    match o {
        Option::None => Option::None,
        Option::Some(s) => Option::Some(s@),
    }
}

/// The coordinator together with its registry: the whole in-memory state of
/// the system.
pub struct TogglerState {
    pub panes: Registry,
}

impl View for TogglerState {
    type V = Map<Seq<char>, PaneStateV>;

    open spec fn view(&self) -> Map<Seq<char>, PaneStateV> {
        self.panes@
    }
}

impl TogglerState {
    pub open spec fn wf(&self) -> bool {
        self.panes.wf()
    }

    /// A coordinator tracking no panes.
    pub fn new() -> (r: TogglerState)
        ensures
            r.wf(),
            r@ == Map::<Seq<char>, PaneStateV>::empty(),
    {
        TogglerState { panes: Registry::new() }
    }

    fn start_opening_pane(
        &mut self,
        pipe_id: &str,
        pane_id: &String,
        is_toggle: bool,
        config: &CommandConfig,
    ) -> (eff: Effect)
        requires
            old(self).wf(),
        ensures
            final(self).wf(),
            final(self)@ == start_open_step(old(self)@, pipe_id@, pane_id@, config@, is_toggle).0,
            eff@ == start_open_step(old(self)@, pipe_id@, pane_id@, config@, is_toggle).1,
    {
        let state = TogglerPaneState::Opening { pipe_id: String::from_str(pipe_id), is_toggle };
        self.panes.insert(pane_id.clone(), state);
        Effect::Dispatch(
            HostCommand::OpenCommandPane {
                config: config.duplicate(),
                context_pane_id: pane_id.clone(),
            },
        )
    }

    fn start_closing_pane(
        &mut self,
        pipe_id: &str,
        pane_id: &String,
        zellij_pane_id: u32,
        is_toggle: bool,
    ) -> (eff: Effect)
        requires
            old(self).wf(),
        ensures
            final(self).wf(),
            final(self)@ == start_close_step(
                old(self)@,
                pipe_id@,
                pane_id@,
                zellij_pane_id,
                is_toggle,
            ).0,
            eff@ == start_close_step(old(self)@, pipe_id@, pane_id@, zellij_pane_id, is_toggle).1,
    {
        let state = TogglerPaneState::Closing {
            zellij_pane_id,
            pipe_id: String::from_str(pipe_id),
            is_toggle,
        };
        self.panes.insert(pane_id.clone(), state);
        Effect::Dispatch(HostCommand::CloseTerminalPane { zellij_pane_id })
    }

    /// Handle an open request: the open row of the table in the design.
    pub fn handle_open_pipe(&mut self, pipe_id: &str, payload: &OpenRequest) -> (eff: Effect)
        requires
            old(self).wf(),
        ensures
            final(self).wf(),
            final(self)@ == open_step(
                old(self)@,
                pipe_id@,
                payload.pane_id@,
                payload.command@,
            ).0,
            eff@ == open_step(old(self)@, pipe_id@, payload.pane_id@, payload.command@).1,
    {
        match self.panes.get(&payload.pane_id) {
            Option::Some(TogglerPaneState::Opened { .. }) => Effect::Reply(
                Response::Warning(WarningKind::AlreadyOpened),
            ),
            Option::Some(TogglerPaneState::Opening { .. }) => Effect::Reply(
                Response::Warning(WarningKind::AlreadyOpening),
            ),
            Option::Some(TogglerPaneState::Closing { .. }) => Effect::Reply(
                Response::Error(ErrorKind::PaneIsClosing),
            ),
            Option::None => self.start_opening_pane(
                pipe_id,
                &payload.pane_id,
                false,
                &payload.command,
            ),
        }
    }

    /// Handle a close request: the close row of the table in the design.
    pub fn handle_close_pipe(&mut self, pipe_id: &str, payload: &CloseRequest) -> (eff: Effect)
        requires
            old(self).wf(),
        ensures
            final(self).wf(),
            final(self)@ == close_step(old(self)@, pipe_id@, payload.pane_id@).0,
            eff@ == close_step(old(self)@, pipe_id@, payload.pane_id@).1,
    {
        match self.panes.get(&payload.pane_id) {
            Option::Some(TogglerPaneState::Opened { zellij_pane_id }) => {
                let handle: u32 = *zellij_pane_id;
                self.start_closing_pane(pipe_id, &payload.pane_id, handle, false)
            },
            Option::Some(TogglerPaneState::Opening { .. }) => Effect::Reply(
                Response::Error(ErrorKind::PaneIsOpening),
            ),
            Option::Some(TogglerPaneState::Closing { .. }) => Effect::Reply(
                Response::Warning(WarningKind::AlreadyClosing),
            ),
            Option::None => Effect::Reply(Response::Warning(WarningKind::PaneNotFound)),
        }
    }

    /// Handle a toggle request: the toggle row of the table in the design.
    pub fn handle_toggle_pipe(&mut self, pipe_id: &str, payload: &ToggleRequest) -> (eff: Effect)
        requires
            old(self).wf(),
        ensures
            final(self).wf(),
            final(self)@ == toggle_step(
                old(self)@,
                pipe_id@,
                payload.pane_id@,
                payload.command@,
            ).0,
            eff@ == toggle_step(old(self)@, pipe_id@, payload.pane_id@, payload.command@).1,
    {
        match self.panes.get(&payload.pane_id) {
            Option::Some(TogglerPaneState::Opened { zellij_pane_id }) => {
                let handle: u32 = *zellij_pane_id;
                self.start_closing_pane(pipe_id, &payload.pane_id, handle, true)
            },
            Option::Some(_) => Effect::Reply(Response::Warning(WarningKind::Transitioning)),
            Option::None => self.start_opening_pane(
                pipe_id,
                &payload.pane_id,
                true,
                &payload.command,
            ),
        }
    }

    /// Reconcile a pane-opened notification.  `context_pane_id` is the
    /// logical identifier recovered from the correlation context of the
    /// original create command, if the context carried one.  The returned
    /// pair is the deferred response and the channel it is owed on.
    pub fn handle_pane_opened_event(
        &mut self,
        zellij_pane_id: u32,
        context_pane_id: Option<&String>,
    ) -> (r: Option<(String, Response)>)
        requires
            old(self).wf(),
        ensures
            final(self).wf(),
            final(self)@ == pane_opened_step(
                old(self)@,
                opt_str_view(context_pane_id),
                zellij_pane_id,
            ).0,
            match r {
                Option::None => pane_opened_step(
                    old(self)@,
                    opt_str_view(context_pane_id),
                    zellij_pane_id,
                ).1 is None,
                Option::Some((pipe_id, response)) => pane_opened_step(
                    old(self)@,
                    opt_str_view(context_pane_id),
                    zellij_pane_id,
                ).1 == Option::Some((pipe_id@, response@)),
            },
    {
        let pane_id = match context_pane_id {
            Option::None => {
                return Option::None;
            },
            Option::Some(pane_id) => pane_id,
        };
        let (pipe_id, is_toggle) = match self.panes.get(pane_id) {
            Option::Some(TogglerPaneState::Opening { pipe_id, is_toggle }) => (
                pipe_id.clone(),
                *is_toggle,
            ),
            _ => {
                return Option::None;
            },
        };
        self.panes.insert(pane_id.clone(), TogglerPaneState::Opened { zellij_pane_id });
        let response = if is_toggle {
            Response::Toggled(ToggleAction::Opened)
        } else {
            Response::Success
        };
        Option::Some((pipe_id, response))
    }

    /// Reconcile a pane-exited notification, which carries only the host
    /// handle: reverse-look the identifier up, and finish the close if one
    /// is pending.  Anything else — an unknown handle, or a pane this
    /// coordinator is not closing — is ignored.
    pub fn handle_pane_exited_event(&mut self, zellij_pane_id: u32) -> (r: Option<
        (String, Response),
    >)
        requires
            old(self).wf(),
        ensures
            final(self).wf(),
            r is None ==> final(self)@ == old(self)@,
            (forall|k: Seq<char>|
                old(self)@.contains_key(k) ==> state_handle(old(self)@[k]) != Option::Some(
                    zellij_pane_id,
                )) ==> r is None,
            match r {
                Option::Some((pipe_id, response)) => exists|k: Seq<char>|
                    {
                        &&& #[trigger] old(self)@.contains_key(k)
                        &&& old(self)@[k] matches PaneStateV::Closing {
                            zellij_pane_id: handle,
                            pipe_id: stored_pipe,
                            is_toggle,
                        }
                        &&& handle == zellij_pane_id
                        &&& pipe_id@ == stored_pipe
                        &&& response@ == completion_response(is_toggle, ToggleAction::Closed)
                        &&& final(self)@ == old(self)@.remove(k)
                    },
                Option::None => true,
            },
            forall|k: Seq<char>|
                {
                    &&& crate::registry::handles_unique(old(self)@)
                    &&& old(self)@.contains_key(k)
                    &&& old(self)@[k] matches PaneStateV::Closing { zellij_pane_id: handle, .. }
                    &&& handle == zellij_pane_id
                } ==> {
                    &&& r is Some
                    &&& final(self)@ == old(self)@.remove(k)
                },
    {
        let pane_id: String = match self.panes.find_by_handle(zellij_pane_id) {
            Option::None => {
                return Option::None;
            },
            Option::Some(pane_id) => pane_id.clone(),
        };
        let (pipe_id, is_toggle) = match self.panes.get(&pane_id) {
            Option::Some(TogglerPaneState::Closing { pipe_id, is_toggle, .. }) => (
                pipe_id.clone(),
                *is_toggle,
            ),
            _ => {
                return Option::None;
            },
        };
        self.panes.remove(&pane_id);
        let response = if is_toggle {
            Response::Toggled(ToggleAction::Closed)
        } else {
            Response::Success
        };
        Option::Some((pipe_id, response))
    }

    /// Route one inbound transport message by its request name, decode its
    /// payload, and apply the matching table row.  An unknown name or a
    /// payload the decoder rejects is answered at once and leaves the
    /// registry untouched.
    pub fn handle_pipe(&mut self, pipe_id: &str, pipe_name: &str, payload: &str) -> (eff: Effect)
        requires
            old(self).wf(),
        ensures
            final(self).wf(),
            !known_pipe_name(pipe_name@) ==> final(self)@ == old(self)@ && eff@ == EffectV::Reply(
                ResponseV::Error(ErrorKindV::UnknownCommand(pipe_name@)),
            ),
            pipe_name@ == "toggler::open"@ ==> match crate::decode::spec_decode_command_request(
                payload@,
            ) {
                Result::Err(detail) => final(self)@ == old(self)@ && eff@ == EffectV::Reply(
                    ResponseV::Error(ErrorKindV::InvalidJson(detail)),
                ),
                Result::Ok(decoded) => final(self)@ == open_step(
                    old(self)@,
                    pipe_id@,
                    decoded.0,
                    decoded.1,
                ).0 && eff@ == open_step(old(self)@, pipe_id@, decoded.0, decoded.1).1,
            },
            pipe_name@ == "toggler::close"@ ==> match crate::decode::spec_decode_close_request(
                payload@,
            ) {
                Result::Err(detail) => final(self)@ == old(self)@ && eff@ == EffectV::Reply(
                    ResponseV::Error(ErrorKindV::InvalidJson(detail)),
                ),
                Result::Ok(pane_id) => final(self)@ == close_step(old(self)@, pipe_id@, pane_id).0
                    && eff@ == close_step(old(self)@, pipe_id@, pane_id).1,
            },
            pipe_name@ == "toggler::toggle"@ ==> match crate::decode::spec_decode_command_request(
                payload@,
            ) {
                Result::Err(detail) => final(self)@ == old(self)@ && eff@ == EffectV::Reply(
                    ResponseV::Error(ErrorKindV::InvalidJson(detail)),
                ),
                Result::Ok(decoded) => final(self)@ == toggle_step(
                    old(self)@,
                    pipe_id@,
                    decoded.0,
                    decoded.1,
                ).0 && eff@ == toggle_step(old(self)@, pipe_id@, decoded.0, decoded.1).1,
            },
    {
        proof {
            // The revealed lengths tell the three request names apart.
            reveal_strlit("toggler::open");
            reveal_strlit("toggler::close");
            reveal_strlit("toggler::toggle");
            assert("toggler::open"@.len() == 13);
            assert("toggler::close"@.len() == 14);
            assert("toggler::toggle"@.len() == 15);
        }
        let name = String::from_str(pipe_name);
        if name == String::from_str("toggler::open") {
            match crate::decode::decode_open(payload) {
                Result::Err(message) => Effect::Reply(
                    Response::Error(ErrorKind::InvalidJson(message)),
                ),
                Result::Ok(request) => self.handle_open_pipe(pipe_id, &request),
            }
        } else if name == String::from_str("toggler::close") {
            match crate::decode::decode_close(payload) {
                Result::Err(message) => Effect::Reply(
                    Response::Error(ErrorKind::InvalidJson(message)),
                ),
                Result::Ok(request) => self.handle_close_pipe(pipe_id, &request),
            }
        } else if name == String::from_str("toggler::toggle") {
            match crate::decode::decode_toggle(payload) {
                Result::Err(message) => Effect::Reply(
                    Response::Error(ErrorKind::InvalidJson(message)),
                ),
                Result::Ok(request) => self.handle_toggle_pipe(pipe_id, &request),
            }
        } else {
            Effect::Reply(Response::Error(ErrorKind::UnknownCommand(name)))
        }
    }

    /// The identifier the coordinator tracks under this host handle, if
    /// any; the reverse lookup behind pane-exited reconciliation.
    pub fn find_pane_id_by_zellij_id(&self, zellij_pane_id: u32) -> (r: Option<&String>)
        requires
            self.wf(),
        ensures
            match r {
                Option::Some(pane_id) => self@.contains_key(pane_id@) && state_handle(
                    self@[pane_id@],
                ) == Option::Some(zellij_pane_id),
                Option::None => forall|k: Seq<char>|
                    self@.contains_key(k) ==> state_handle(self@[k]) != Option::Some(
                        zellij_pane_id,
                    ),
            },
    {
        self.panes.find_by_handle(zellij_pane_id)
    }
}

} // verus!
