use toggler::decode::decode_close;
use toggler::decode::decode_open;
use toggler::decode::decode_toggle;

#[test]
fn open_payload_with_all_members() {
    let request = decode_open(
        "{\"pane_id\":\"a\",\"cmd\":\"bash\",\"args\":[\"-c\",\"ls\"],\"cwd\":\"/tmp/somewhere\"}",
    )
    .unwrap();
    assert_eq!(request.pane_id, "a");
    assert_eq!(request.command.cmd, "bash");
    assert_eq!(request.command.args, vec!["-c".to_string(), "ls".to_string()]);
    assert_eq!(request.command.cwd, Some("/tmp/somewhere".to_string()));
}

#[test]
fn open_payload_defaults_args_and_cwd() {
    let request = decode_open("{\"pane_id\":\"a\",\"cmd\":\"bash\"}").unwrap();
    assert_eq!(request.command.args, Vec::<String>::new());
    assert_eq!(request.command.cwd, None);
}

#[test]
fn open_payload_accepts_null_cwd_as_absent() {
    let request = decode_open("{\"pane_id\":\"a\",\"cmd\":\"bash\",\"cwd\":null}").unwrap();
    assert_eq!(request.command.cwd, None);
}

#[test]
fn open_payload_ignores_unknown_members() {
    let request = decode_open("{\"pane_id\":\"a\",\"cmd\":\"bash\",\"extra\":42}").unwrap();
    assert_eq!(request.pane_id, "a");
}

#[test]
fn open_payload_requires_pane_id() {
    assert_eq!(
        decode_open("{\"cmd\":\"bash\"}"),
        Err("missing field pane_id".to_string())
    );
}

#[test]
fn open_payload_requires_textual_pane_id() {
    assert_eq!(
        decode_open("{\"pane_id\":5,\"cmd\":\"bash\"}"),
        Err("pane_id is not a string".to_string())
    );
    assert_eq!(
        decode_open("{\"pane_id\":null,\"cmd\":\"bash\"}"),
        Err("pane_id is not a string".to_string())
    );
}

#[test]
fn open_payload_requires_cmd() {
    assert_eq!(
        decode_open("{\"pane_id\":\"a\"}"),
        Err("missing field cmd".to_string())
    );
    assert_eq!(
        decode_open("{\"pane_id\":\"a\",\"cmd\":[]}"),
        Err("cmd is not a string".to_string())
    );
}

#[test]
fn open_payload_rejects_malformed_args() {
    assert_eq!(
        decode_open("{\"pane_id\":\"a\",\"cmd\":\"bash\",\"args\":\"-c\"}"),
        Err("args is not an array of strings".to_string())
    );
    assert_eq!(
        decode_open("{\"pane_id\":\"a\",\"cmd\":\"bash\",\"args\":[\"-c\",5]}"),
        Err("args is not an array of strings".to_string())
    );
    assert_eq!(
        decode_open("{\"pane_id\":\"a\",\"cmd\":\"bash\",\"args\":null}"),
        Err("args is not an array of strings".to_string())
    );
}

#[test]
fn open_payload_rejects_malformed_cwd() {
    assert_eq!(
        decode_open("{\"pane_id\":\"a\",\"cmd\":\"bash\",\"cwd\":7}"),
        Err("cwd is not a string".to_string())
    );
}

#[test]
fn open_payload_rejects_non_json() {
    let result = decode_open("not-json");
    let message = result.unwrap_err();
    assert!(!message.is_empty());

    let result = decode_open("");
    assert!(result.is_err());
}

#[test]
fn open_payload_first_offending_member_decides() {
    // pane_id is checked before cmd.
    assert_eq!(
        decode_open("{}"),
        Err("missing field pane_id".to_string())
    );
    // A payload that is valid JSON but no object has every member absent.
    assert_eq!(
        decode_open("[1,2,3]"),
        Err("missing field pane_id".to_string())
    );
}

#[test]
fn toggle_payload_has_the_open_shape() {
    let request = decode_toggle("{\"pane_id\":\"b\",\"cmd\":\"top\"}").unwrap();
    assert_eq!(request.pane_id, "b");
    assert_eq!(request.command.cmd, "top");
    assert!(decode_toggle("{\"pane_id\":\"b\"}").is_err());
}

#[test]
fn close_payload_needs_only_pane_id() {
    let request = decode_close("{\"pane_id\":\"a\"}").unwrap();
    assert_eq!(request.pane_id, "a");

    assert_eq!(decode_close("{}"), Err("missing field pane_id".to_string()));
    assert_eq!(
        decode_close("{\"pane_id\":17}"),
        Err("pane_id is not a string".to_string())
    );
    assert!(decode_close("not-json").is_err());
}
