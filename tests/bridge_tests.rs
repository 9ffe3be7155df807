use notebooklm_runner::bridge::process::{
    BridgeClient, BridgeError, PendingCall, Skipped, WaitEvent, WaitStep,
};
use notebooklm_runner::bridge::protocol::{BridgeRequest, BridgeResponse};

fn reply_line(text: &str) -> Option<BridgeResponse> {
    let v: serde_json::Value = match serde_json::from_str(text) {
        Ok(v) => v,
        Err(_) => return None,
    };
    let s = |k: &str| v.get(k).and_then(|x| x.as_str()).map(|x| x.to_string());
    let n = |k: &str| v.get(k).and_then(|x| x.as_u64()).map(|x| x as usize);
    Some(BridgeResponse {
        id: s("id"),
        ok: v.get("ok").and_then(|x| x.as_bool()),
        error: s("error"),
        data: v.get("data").cloned(),
        event: s("event"),
        phase: s("phase"),
        message: s("message"),
        current: n("current"),
        total: n("total"),
    })
}

fn line(text: &str) -> WaitEvent {
    WaitEvent::Line(reply_line(text))
}

fn expect_data(step: WaitStep) -> serde_json::Value {
    match step {
        WaitStep::Settled(Ok(v)) => v,
        other => panic!("expected success, got {other:?}"),
    }
}

#[test]
fn ids_start_at_one_and_increase_across_failures() {
    let mut client = BridgeClient::new(10);
    let a = client.begin_command("connect").unwrap();
    let b = client.begin_command("ask").unwrap();
    assert!(matches!(b.step(WaitEvent::TimedOut), WaitStep::Settled(Err(_))));
    let c = client.begin_command("ask").unwrap();
    assert_eq!((a.id.as_str(), b.id.as_str(), c.id.as_str()), ("1", "2", "3"));
    assert_eq!(client.next_id(), 4);
}

#[test]
fn timeout_is_at_least_one_second() {
    assert_eq!(BridgeClient::new(0).timeout_ms(), 1000);
    assert_eq!(BridgeClient::new(10).timeout_ms(), 10_000);
    let client = BridgeClient::new(1);
    assert_eq!(client.remaining_ms(0), Some(1000));
    assert_eq!(client.remaining_ms(999), Some(1));
    assert_eq!(client.remaining_ms(1000), None);
    assert_eq!(client.remaining_ms(5000), None);
}

#[test]
fn connect_reply_settles_with_data() {
    let mut client = BridgeClient::new(10);
    let call = client.begin_command("connect").unwrap();
    let data = expect_data(call.step(line(r#"{"id":"1","ok":true,"data":{"status":"connected"}}"#)));
    assert_eq!(data["status"], "connected");
}

#[test]
fn progress_then_reply_settles_on_reply() {
    let mut client = BridgeClient::new(10);
    let _ = client.begin_command("connect").unwrap();
    let call = client.begin_command("import_urls").unwrap();
    assert_eq!(call.id, "2");
    let progress = call.step(line(r#"{"event":"progress","phase":"importing","current":1,"total":2}"#));
    assert!(matches!(progress, WaitStep::Skip(Skipped::Progress)));
    let data = expect_data(call.step(line(r#"{"id":"2","ok":true,"data":{"imported":2}}"#)));
    assert_eq!(data["imported"], 2);
}

#[test]
fn progress_with_matching_id_still_skipped() {
    let call = PendingCall { cmd: "ask".to_string(), id: "7".to_string() };
    let step = call.step(line(r#"{"id":"7","ok":true,"event":"progress"}"#));
    assert!(matches!(step, WaitStep::Skip(Skipped::Progress)));
}

#[test]
fn stale_and_malformed_lines_are_skipped() {
    let call = PendingCall { cmd: "ask".to_string(), id: "3".to_string() };
    assert!(matches!(call.step(line(r#"{"id":"2","ok":true}"#)), WaitStep::Skip(Skipped::Stale)));
    assert!(matches!(call.step(line(r#"{"ok":true}"#)), WaitStep::Skip(Skipped::Stale)));
    assert!(matches!(call.step(line(r#"{"id":"3","ok":tr"#)), WaitStep::Skip(Skipped::Malformed)));
    assert!(matches!(call.step(line("not json at all")), WaitStep::Skip(Skipped::Malformed)));
}

#[test]
fn silent_sidecar_times_out() {
    let client = BridgeClient::new(1);
    let call = PendingCall { cmd: "ask".to_string(), id: "1".to_string() };
    assert_eq!(client.remaining_ms(1500), None);
    match call.step(WaitEvent::TimedOut) {
        WaitStep::Settled(Err(BridgeError::Timeout { cmd, id })) => {
            assert_eq!((cmd.as_str(), id.as_str()), ("ask", "1"));
        }
        other => panic!("expected timeout, got {other:?}"),
    }
}

#[test]
fn exited_sidecar_disconnects_with_status() {
    let mut client = BridgeClient::new(5);
    let call = client.begin_command("connect").unwrap();
    match call.step(WaitEvent::Disconnected(Some("exit status: 3".to_string()))) {
        WaitStep::Settled(Err(BridgeError::Disconnected { cmd, id, status })) => {
            assert_eq!(cmd, "connect");
            assert_eq!(id, "1");
            assert_eq!(status.as_deref(), Some("exit status: 3"));
        }
        other => panic!("expected disconnection, got {other:?}"),
    }
}

#[test]
fn failed_reply_carries_sidecar_error() {
    let call = PendingCall { cmd: "ask".to_string(), id: "4".to_string() };
    match call.step(line(r#"{"id":"4","ok":false,"error":"boom"}"#)) {
        WaitStep::Settled(Err(BridgeError::Sidecar { message, .. })) => assert_eq!(message, "boom"),
        other => panic!("unexpected {other:?}"),
    }
    match call.step(line(r#"{"id":"4"}"#)) {
        WaitStep::Settled(Err(BridgeError::Sidecar { message, .. })) => {
            assert_eq!(message, "unknown sidecar error")
        }
        other => panic!("unexpected {other:?}"),
    }
    let data = expect_data(call.step(line(r#"{"id":"4","ok":true}"#)));
    assert_eq!(data, serde_json::Value::Object(serde_json::Map::new()));
}

#[test]
fn close_twice_needs_one_handshake() {
    let mut client = BridgeClient::new(5);
    assert!(client.needs_close_handshake());
    let _ = client.begin_command("close").unwrap();
    client.mark_closed();
    assert!(!client.needs_close_handshake());
    client.mark_closed();
    assert!(!client.needs_close_handshake());
    assert_eq!(client.next_id(), 2);
    match client.begin_command("ask") {
        Err(BridgeError::Closed { cmd }) => assert_eq!(cmd, "ask"),
        other => panic!("unexpected {other:?}"),
    }
    assert_eq!(client.next_id(), 2);
}

#[test]
fn request_keeps_object_payload() {
    let payload: serde_json::Value = serde_json::from_str(r#"{"title":"N"}"#).unwrap();
    let req = BridgeRequest::new("5".to_string(), "create_notebook", payload);
    assert_eq!(req.id, "5");
    assert_eq!(req.cmd, "create_notebook");
    assert_eq!(req.payload.get("title").and_then(|v| v.as_str()), Some("N"));
    let other = BridgeRequest::new("6".to_string(), "x", serde_json::Value::Bool(true));
    assert!(other.payload.is_empty());
}

#[test]
fn progress_event_detection() {
    assert!(reply_line(r#"{"event":"progress"}"#).unwrap().is_progress_event());
    assert!(!reply_line(r#"{"event":"Progress"}"#).unwrap().is_progress_event());
    assert!(!reply_line(r#"{"id":"1"}"#).unwrap().is_progress_event());
}

#[test]
fn each_call_settles_on_its_own_reply() {
    let mut client = BridgeClient::new(10);
    let script: Vec<(&str, Vec<&str>)> = vec![
        ("connect", vec![r#"{"event":"progress","phase":"boot"}"#, r#"{"id":"1","ok":true,"data":{"n":1}}"#]),
        ("create_notebook", vec![
            r#"{"id":"1","ok":true,"data":{"n":99}}"#,
            "garbage",
            r#"{"event":"progress","message":"working","current":1,"total":3}"#,
            r#"{"id":"2","ok":true,"data":{"n":2}}"#,
        ]),
        ("ask", vec![r#"{"id":"2","ok":false}"#, r#"{"id":"3","ok":true,"data":{"n":3}}"#]),
    ];
    for (k, (cmd, lines)) in script.into_iter().enumerate() {
        let call = client.begin_command(cmd).unwrap();
        let last = lines.len() - 1;
        for (i, text) in lines.into_iter().enumerate() {
            match call.step(line(text)) {
                WaitStep::Skip(_) => assert!(i < last, "call {k} never settled"),
                WaitStep::Settled(Ok(data)) => {
                    assert_eq!(i, last);
                    assert_eq!(data["n"], k as u64 + 1);
                }
                WaitStep::Settled(Err(e)) => panic!("unexpected error {}", e.message()),
            }
        }
    }
}

#[test]
fn error_messages_name_command_and_id() {
    let call = PendingCall { cmd: "ask".to_string(), id: "9".to_string() };
    let msg = match call.step(WaitEvent::TimedOut) {
        WaitStep::Settled(Err(e)) => e.message(),
        _ => unreachable!(),
    };
    assert_eq!(msg, "timeout waiting for response: cmd=ask, id=9");
    let t = call.transport_error("broken pipe".to_string());
    assert_eq!(t.message(), "failed to send request: cmd=ask, id=9: broken pipe");
}

#[test]
fn error_texts_name_command_and_id() {
    let e = BridgeError::Disconnected { cmd: "ask".to_string(), id: "4".to_string(), status: None };
    assert_eq!(e.message(), "bridge output channel disconnected: cmd=ask, id=4, sidecar status=unknown");
    let s = BridgeError::Sidecar { cmd: "ask".to_string(), id: "4".to_string(), message: "boom".to_string() };
    assert_eq!(s.message(), "boom (cmd=ask, id=4)");
}
