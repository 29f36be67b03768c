use hello_ockam::tracing_subscriber::EmbeddedVisitor;

#[test]
fn record_str_message_field_prints_value_alone() {
    let v = EmbeddedVisitor::new();
    assert_eq!(v.record_str("message", "hello world"), "hello world");
}

#[test]
fn record_str_other_field_prints_name_and_value() {
    let v = EmbeddedVisitor::new();
    assert_eq!(v.record_str("level", "info"), "level: info");
}

#[test]
fn record_str_name_close_to_message_is_not_message() {
    let v = EmbeddedVisitor::new();
    assert_eq!(v.record_str("messages", "x"), "messages: x");
    assert_eq!(v.record_str("Message", "x"), "Message: x");
    assert_eq!(v.record_str("", "x"), ": x");
}

#[test]
fn record_debug_message_field() {
    let v = EmbeddedVisitor::new();
    let rendered = format!("{:?}", 42u32);
    assert_eq!(v.record_debug("message", &rendered), "d: 42");
}

#[test]
fn record_debug_other_field() {
    let v = EmbeddedVisitor::new();
    let rendered = format!("{:?}", "abc");
    assert_eq!(v.record_debug("peer", &rendered), "d:peer: \"abc\"");
}

#[test]
fn debug_line_is_prefixed_str_line_on_values() {
    let v = EmbeddedVisitor::new();
    for (name, value) in [("message", "m"), ("k", "v"), ("", "")] {
        let prefix = if name == "message" { "d: " } else { "d:" };
        assert_eq!(
            v.record_debug(name, value),
            format!("{}{}", prefix, v.record_str(name, value))
        );
    }
}
