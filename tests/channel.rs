use std::io::{BufWriter, Cursor, ErrorKind, Read, Write};

use plato_hook_helper::{
    decode_network_event, event_from_members, frame_notification, line_step, notification_json,
    wifi_json, LineStep, NetworkEvent, PlatoHelper, WifiStatus,
};

fn event(kind: &str, status: &str) -> NetworkEvent {
    NetworkEvent {
        kind: kind.to_string(),
        status: status.to_string(),
    }
}

struct BrokenPipe;

impl Write for BrokenPipe {
    fn write(&mut self, _buf: &[u8]) -> std::io::Result<usize> {
        Err(std::io::Error::new(ErrorKind::BrokenPipe, "closed"))
    }

    fn flush(&mut self) -> std::io::Result<()> {
        Ok(())
    }
}

struct FailingReader;

impl Read for FailingReader {
    fn read(&mut self, _buf: &mut [u8]) -> std::io::Result<usize> {
        Err(std::io::Error::new(ErrorKind::ConnectionReset, "gone"))
    }
}

#[test]
fn notification_formatting() {
    let mut buffer = Vec::new();
    let writer = BufWriter::new(&mut buffer);
    {
        let mut plato = PlatoHelper::new(writer, std::io::stdin());
        plato.display_notification("Hello, World!").unwrap();
    }

    let event = r#"{"type":"notify","message":"Hello, World!"}"#.to_string();
    let output = String::from_utf8(buffer).unwrap();

    assert_eq!(event, output);
}

#[test]
fn wait_for_network_blocking_deserializes_correctly() {
    let json = r#"{"type": "network", "status": "up"}"#;
    let reader = Cursor::new(json);
    let mut plato = PlatoHelper::new(Vec::new(), reader);
    let result: Result<NetworkEvent, std::io::Error> = plato.wait_for_network_blocking();

    assert_eq!(
        result.unwrap(),
        NetworkEvent {
            kind: "network".to_string(),
            status: "up".to_string()
        }
    );
}

#[test]
fn notification_escapes_the_message() {
    let mut buffer = Vec::new();
    {
        let mut plato = PlatoHelper::new(&mut buffer, std::io::stdin());
        plato.display_notification("say \"hi\"\n\\ok").unwrap();
    }
    assert_eq!(
        String::from_utf8(buffer).unwrap(),
        r#"{"type":"notify","message":"say \"hi\"\n\\ok"}"#
    );
}

#[test]
fn notification_of_empty_message() {
    let mut buffer = Vec::new();
    {
        let mut plato = PlatoHelper::new(&mut buffer, std::io::stdin());
        plato.display_notification("").unwrap();
    }
    assert_eq!(buffer, br#"{"type":"notify","message":""}"#.to_vec());
}

#[test]
fn requests_follow_one_another_without_separator() {
    let mut buffer = Vec::new();
    {
        let mut plato = PlatoHelper::new(&mut buffer, std::io::stdin());
        plato.set_wifi(WifiStatus::Enabled).unwrap();
        plato.display_notification("x").unwrap();
    }
    assert_eq!(
        String::from_utf8(buffer).unwrap(),
        r#"{"type":"setWifi","enable":true}{"type":"notify","message":"x"}"#
    );
}

#[test]
fn set_wifi_enabled_writes_true() {
    let mut buffer = Vec::new();
    {
        let mut plato = PlatoHelper::new(&mut buffer, std::io::stdin());
        plato.set_wifi(WifiStatus::Enabled).unwrap();
    }
    assert_eq!(buffer, br#"{"type":"setWifi","enable":true}"#.to_vec());
}

#[test]
fn set_wifi_disabled_writes_false() {
    let mut buffer = Vec::new();
    {
        let mut plato = PlatoHelper::new(&mut buffer, std::io::stdin());
        plato.set_wifi(WifiStatus::Disabled).unwrap();
    }
    assert_eq!(buffer, br#"{"type":"setWifi","enable":false}"#.to_vec());
}

#[test]
fn write_failure_is_reported() {
    let mut plato = PlatoHelper::new(BrokenPipe, std::io::stdin());
    let err = plato.display_notification("hello").unwrap_err();
    assert_eq!(err.kind(), ErrorKind::BrokenPipe);
    let err = plato.set_wifi(WifiStatus::Disabled).unwrap_err();
    assert_eq!(err.kind(), ErrorKind::BrokenPipe);
}

#[test]
fn malformed_lines_are_skipped_and_consumed() {
    let input = "not json\n{}\n{\"type\":\"network\",\"status\":\"up\"}\n";
    let mut cursor = Cursor::new(format!("{}{}", input, "{\"type\":\"network\",\"status\":\"down\"}\n"));
    {
        let mut plato = PlatoHelper::new(Vec::new(), &mut cursor);
        assert_eq!(plato.wait_for_network_blocking().unwrap(), event("network", "up"));
    }
    assert_eq!(cursor.position(), input.len() as u64);
    let mut plato = PlatoHelper::new(Vec::new(), &mut cursor);
    assert_eq!(plato.wait_for_network_blocking().unwrap(), event("network", "down"));
}

#[test]
fn empty_lines_are_skipped() {
    let reader = Cursor::new("\n\n\r\n{\"type\":\"net\",\"status\":\"down\"}\r\n");
    let mut plato = PlatoHelper::new(Vec::new(), reader);
    assert_eq!(plato.wait_for_network_blocking().unwrap(), event("net", "down"));
}

#[test]
fn closed_source_is_an_error() {
    let reader = Cursor::new("");
    let mut plato = PlatoHelper::new(Vec::new(), reader);
    let err = plato.wait_for_network_blocking().unwrap_err();
    assert_eq!(err.kind(), ErrorKind::UnexpectedEof);
}

#[test]
fn source_closing_after_malformed_lines_is_an_error() {
    let reader = Cursor::new("garbage\n{\"type\":\"network\"}");
    let mut plato = PlatoHelper::new(Vec::new(), reader);
    let err = plato.wait_for_network_blocking().unwrap_err();
    assert_eq!(err.kind(), ErrorKind::UnexpectedEof);
}

#[test]
fn read_failure_is_reported() {
    let mut plato = PlatoHelper::new(Vec::new(), FailingReader);
    let err = plato.wait_for_network_blocking().unwrap_err();
    assert_eq!(err.kind(), ErrorKind::ConnectionReset);
}

#[test]
fn encoded_event_decodes_to_itself() {
    let pairs = [("network", "up"), ("wifi", "a \"quoted\" \\ status\n"), ("", "")];
    for (kind, status) in pairs {
        let mut map = serde_json::Map::new();
        map.insert("type".to_string(), serde_json::Value::String(kind.to_string()));
        map.insert("status".to_string(), serde_json::Value::String(status.to_string()));
        let line = serde_json::to_string(&serde_json::Value::Object(map)).unwrap();
        assert_eq!(decode_network_event(line.as_bytes()), Some(event(kind, status)));

        let mut plato = PlatoHelper::new(Vec::new(), Cursor::new(format!("{}\n", line)));
        assert_eq!(plato.wait_for_network_blocking().unwrap(), event(kind, status));
    }
}

#[test]
fn decode_rejects_other_shapes() {
    assert_eq!(decode_network_event(b"not json"), None);
    assert_eq!(decode_network_event(b"{}"), None);
    assert_eq!(decode_network_event(b"{\"type\":\"network\"}"), None);
    assert_eq!(decode_network_event(b"{\"type\":\"network\",\"status\":1}"), None);
    assert_eq!(decode_network_event(b""), None);
    assert_eq!(
        decode_network_event(b"{\"status\":\"up\",\"extra\":[1,2],\"type\":\"network\"}\n"),
        Some(event("network", "up"))
    );
}

#[test]
fn frame_wraps_a_quoted_string() {
    assert_eq!(
        frame_notification("\"Hello\""),
        r#"{"type":"notify","message":"Hello"}"#
    );
}

#[test]
fn notification_json_quotes_the_message() {
    assert_eq!(
        notification_json("Hello, World!").unwrap(),
        r#"{"type":"notify","message":"Hello, World!"}"#
    );
    assert_eq!(
        notification_json("tab\there").unwrap(),
        r#"{"type":"notify","message":"tab\there"}"#
    );
}

#[test]
fn wifi_json_for_each_status() {
    assert_eq!(wifi_json(WifiStatus::Enabled), r#"{"type":"setWifi","enable":true}"#);
    assert_eq!(wifi_json(WifiStatus::Disabled), r#"{"type":"setWifi","enable":false}"#);
}

#[test]
fn wifi_status_as_bool() {
    assert!(bool::from(WifiStatus::Enabled));
    assert!(!bool::from(WifiStatus::Disabled));
}

#[test]
fn default_helper_builds() {
    let _plato: PlatoHelper<std::io::Stdout, std::io::Stdin> = PlatoHelper::default();
}

#[test]
fn event_needs_both_members() {
    let some = |t: &str| Some(t.to_string());
    assert_eq!(event_from_members(some("network"), some("up")), Some(event("network", "up")));
    assert_eq!(event_from_members(some("network"), None), None);
    assert_eq!(event_from_members(None, some("up")), None);
    assert_eq!(event_from_members(None, None), None);
}

#[test]
fn notification_escapes_control_characters() {
    assert_eq!(
        notification_json("a\u{1}b\u{1f}\u{8}\u{c}\r").unwrap(),
        r#"{"type":"notify","message":"a\u0001b\u001f\b\f\r"}"#
    );
    assert_eq!(
        notification_json("é/ü").unwrap(),
        r#"{"type":"notify","message":"é/ü"}"#
    );
}

#[test]
fn line_step_extends_the_line() {
    let mut line = b"ab".to_vec();
    assert!(matches!(line_step(&mut line, Some(b'c')), LineStep::More));
    assert_eq!(line, b"abc".to_vec());
}

#[test]
fn line_step_skips_a_malformed_line() {
    let mut line = b"{}".to_vec();
    assert!(matches!(line_step(&mut line, Some(b'\n')), LineStep::Skip));
    assert!(line.is_empty());
}

#[test]
fn line_step_returns_the_event_at_newline() {
    let mut line = b"{\"type\":\"a\",\"status\":\"b\"}".to_vec();
    match line_step(&mut line, Some(b'\n')) {
        LineStep::Event(e) => assert_eq!(e, event("a", "b")),
        _ => panic!("expected an event"),
    }
    assert!(line.is_empty());
}

#[test]
fn line_step_at_end_decodes_the_last_line() {
    let mut line = b"{\"type\":\"a\",\"status\":\"b\"}".to_vec();
    match line_step(&mut line, None) {
        LineStep::Event(e) => assert_eq!(e, event("a", "b")),
        _ => panic!("expected an event"),
    }
    let mut empty = Vec::new();
    assert!(matches!(line_step(&mut empty, None), LineStep::End));
    let mut garbage = b"nope".to_vec();
    assert!(matches!(line_step(&mut garbage, None), LineStep::End));
    assert_eq!(garbage, b"nope".to_vec());
}

#[test]
fn any_type_text_is_accepted_after_skipped_lines() {
    let reader = Cursor::new(
        "{\"type\":\"network\"}\n{\"type\":\"x\",\"status\":1}\n{\"type\":\"battery\",\"status\":\"\"}\n",
    );
    let mut plato = PlatoHelper::new(Vec::new(), reader);
    assert_eq!(plato.wait_for_network_blocking().unwrap(), event("battery", ""));
}

#[test]
fn many_malformed_lines_are_skipped() {
    let mut input = "junk\n".repeat(10_000);
    input.push_str("{\"type\":\"network\",\"status\":\"up\"}\n");
    let mut plato = PlatoHelper::new(Vec::new(), Cursor::new(input));
    assert_eq!(plato.wait_for_network_blocking().unwrap(), event("network", "up"));
}
