use hopcoder_shell::ipc::{
    HopEvent, HopNotificationMessage, HopRequest, HopRequestMessage, HopResponse,
    HopResponseMessage, HOP_EVENT_CHANNEL, HOP_IPC_VERSION,
};

fn resize_request(v: u8, id: &str) -> HopRequestMessage {
    HopRequestMessage {
        v,
        id: id.to_string(),
        request: HopRequest::TerminalResize { id: "t1".to_string(), cols: 80, rows: 24 },
    }
}

#[test]
fn protocol_constants() {
    assert_eq!(HOP_IPC_VERSION, 1);
    assert_eq!(HOP_EVENT_CHANNEL, "hop://event");
}

#[test]
fn supported_version_passes_with_its_id() {
    let passed = resize_request(1, "req-1").accept();
    assert_eq!(
        passed,
        Ok((
            "req-1".to_string(),
            HopRequest::TerminalResize { id: "t1".to_string(), cols: 80, rows: 24 }
        ))
    );
}

#[test]
fn version_255_is_answered_with_version_mismatch() {
    let refused = resize_request(255, "corr-42").accept();
    assert_eq!(
        refused,
        Err(HopResponseMessage {
            v: 1,
            id: "corr-42".to_string(),
            response: HopResponse::Error {
                ok: false,
                code: Some("version_mismatch".to_string()),
                error: "IPC version mismatch".to_string(),
            },
        })
    );
}

#[test]
fn every_other_version_is_refused() {
    for v in [0u8, 2, 3, 127, 128, 254] {
        match resize_request(v, "x").accept() {
            Err(reply) => {
                assert_eq!(reply.v, 1);
                assert_eq!(reply.id, "x");
                assert!(matches!(reply.response, HopResponse::Error { ok: false, .. }));
            }
            Ok(_) => panic!("version {} passed", v),
        }
    }
}

#[test]
fn reply_echoes_the_correlation_id() {
    let message = HopResponseMessage::reply(
        "abc".to_string(),
        HopResponse::TerminalWrite { ok: true, error: None },
    );
    assert_eq!(
        message,
        HopResponseMessage {
            v: 1,
            id: "abc".to_string(),
            response: HopResponse::TerminalWrite { ok: true, error: None },
        }
    );
}

#[test]
fn notification_carries_the_version_and_no_id() {
    let event = HopEvent::TerminalExit { id: "t1".to_string(), code: Some(0), signal: None };
    let message = HopNotificationMessage::new(event.clone());
    assert_eq!(message, HopNotificationMessage { v: 1, event });
}
