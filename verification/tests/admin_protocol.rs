use traderd::codec::{decode_response, encode_response};
use traderd::protocol::{decode_request, encode_request, handle_request, process_line};
use traderd::{AdminRequest, AdminResponse, AdminStatus, RiskGate, RiskState};

#[test]
fn status_request_reports_run_id_and_state() {
    let mut gate = RiskGate::new();
    let resp = process_line("{\"type\":\"Status\"}", &mut gate, "run-123").unwrap();
    assert_eq!(
        resp,
        "{\"type\":\"Status\",\"payload\":{\"run_id\":\"run-123\",\"risk_state\":\"Active\"}}"
    );
}

#[test]
fn pause_acknowledges_and_status_shows_paused() {
    let mut gate = RiskGate::new();
    let resp = process_line("{\"type\":\"Pause\"}", &mut gate, "run-123").unwrap();
    assert_eq!(resp, "{\"type\":\"Ack\"}");
    let resp = process_line("{\"type\":\"Status\"}", &mut gate, "run-123").unwrap();
    assert_eq!(
        resp,
        "{\"type\":\"Status\",\"payload\":{\"run_id\":\"run-123\",\"risk_state\":\"Paused\"}}"
    );
}

#[test]
fn status_pause_resume_cycle() {
    let mut gate = RiskGate::new();
    let run_id = "run-123";

    let initial = process_line("{\"type\":\"Status\"}", &mut gate, run_id).expect("initial status");
    assert!(initial.contains("\"risk_state\":\"Active\""));

    let pause_resp = process_line("{\"type\":\"Pause\"}", &mut gate, run_id).expect("pause resp");
    assert_eq!(pause_resp, "{\"type\":\"Ack\"}");

    let paused = process_line("{\"type\":\"Status\"}", &mut gate, run_id).expect("paused status");
    assert!(paused.contains("\"risk_state\":\"Paused\""));

    let resume_resp =
        process_line("{\"type\":\"Resume\"}", &mut gate, run_id).expect("resume resp");
    assert_eq!(resume_resp, "{\"type\":\"Ack\"}");

    let resumed = process_line("{\"type\":\"Status\"}", &mut gate, run_id).expect("resumed status");
    assert!(resumed.contains("\"risk_state\":\"Active\""));
}

#[test]
fn two_pauses_both_acknowledge_and_leave_paused() {
    let mut gate = RiskGate::new();
    let first = process_line("{\"type\":\"Pause\"}", &mut gate, "r").unwrap();
    let second = process_line("{\"type\":\"Pause\"}", &mut gate, "r").unwrap();
    assert_eq!(first, "{\"type\":\"Ack\"}");
    assert_eq!(second, "{\"type\":\"Ack\"}");
    assert_eq!(gate.status(), RiskState::Paused);
}

#[test]
fn malformed_line_is_dropped_without_reply_or_effect() {
    let mut gate = RiskGate::new();
    gate.pause();
    assert_eq!(process_line("not json", &mut gate, "r"), None);
    assert_eq!(process_line("{\"type\":\"pause\"}", &mut gate, "r"), None);
    assert_eq!(process_line("{\"type\":\"Shutdown\"}", &mut gate, "r"), None);
    assert_eq!(process_line("", &mut gate, "r"), None);
    assert_eq!(gate.status(), RiskState::Paused);
}

#[test]
fn request_lines_tolerate_surrounding_whitespace() {
    assert_eq!(
        decode_request("  {\"type\":\"Pause\"}\r\n"),
        Some(AdminRequest::Pause)
    );
    assert_eq!(
        decode_request("{\"type\":\"Status\"}\n"),
        Some(AdminRequest::Status)
    );
    assert_eq!(
        decode_request("\t{\"type\":\"Resume\"}\t"),
        Some(AdminRequest::Resume)
    );
    assert_eq!(decode_request("{\"type\":\"Status\" }"), None);
}

#[test]
fn request_encoding_round_trips() {
    for req in [
        AdminRequest::Status,
        AdminRequest::Pause,
        AdminRequest::Resume,
    ] {
        let line = encode_request(&req);
        assert_eq!(decode_request(&line), Some(req));
    }
    assert_eq!(encode_request(&AdminRequest::Pause), "{\"type\":\"Pause\"}");
}

#[test]
fn handle_request_dispatches_on_the_gate() {
    let mut gate = RiskGate::new();
    let resp = handle_request(&AdminRequest::Pause, &mut gate, "run-9");
    assert!(matches!(resp, AdminResponse::Ack));
    assert_eq!(gate.status(), RiskState::Paused);
    let resp = handle_request(&AdminRequest::Status, &mut gate, "run-9");
    match resp {
        AdminResponse::Status(AdminStatus { run_id, risk_state }) => {
            assert_eq!(run_id, "run-9");
            assert_eq!(risk_state, "Paused");
        }
        _ => panic!("expected status response"),
    }
    let resp = handle_request(&AdminRequest::Resume, &mut gate, "run-9");
    assert!(matches!(resp, AdminResponse::Ack));
    assert_eq!(gate.status(), RiskState::Active);
}

#[test]
fn response_codec_round_trips_plain_fields() {
    let resp = AdminResponse::Status(AdminStatus {
        run_id: "run-123".to_string(),
        risk_state: "Active".to_string(),
    });
    let line = encode_response(&resp);
    match decode_response(&line) {
        Some(AdminResponse::Status(st)) => {
            assert_eq!(st.run_id, "run-123");
            assert_eq!(st.risk_state, "Active");
        }
        other => panic!("expected status response, got {:?}", other),
    }
}

#[test]
fn response_codec_round_trips_escaped_fields() {
    let message = "quote \" backslash \\ newline \n tab \t nul \u{0} unit \u{1f} end";
    let line = encode_response(&AdminResponse::Error(message.to_string()));
    assert_eq!(
        line,
        "{\"type\":\"Error\",\"payload\":\"quote \\\" backslash \\\\ newline \\n tab \\t nul \\u0000 unit \\u001f end\"}"
    );
    match decode_response(&line) {
        Some(AdminResponse::Error(m)) => assert_eq!(m, message),
        other => panic!("expected error response, got {:?}", other),
    }
}

#[test]
fn response_decoding_is_strict() {
    assert!(matches!(
        decode_response("{\"type\":\"Ack\"}\n"),
        Some(AdminResponse::Ack)
    ));
    // trailing garbage after a complete object
    assert!(decode_response("{\"type\":\"Ack\"}}").is_none());
    // a non-canonical escape for a character that needs none
    assert!(decode_response("{\"type\":\"Error\",\"payload\":\"\\u0041\"}").is_none());
    // upper-case hex digits are not canonical
    assert!(decode_response("{\"type\":\"Error\",\"payload\":\"\\u001F\"}").is_none());
    // a bare control character inside a string body
    assert!(decode_response("{\"type\":\"Error\",\"payload\":\"a\u{1}b\"}").is_none());
    // an unterminated string body
    assert!(decode_response("{\"type\":\"Error\",\"payload\":\"abc").is_none());
    assert!(decode_response("").is_none());
}
