use lastsignal::message::{FileMessageAdapter, MessageAdapterFactory, DEFAULT_MESSAGE};
use lastsignal::timestamp::Timestamp;

fn now() -> Timestamp {
    let since_epoch = std::time::SystemTime::now().duration_since(std::time::UNIX_EPOCH).unwrap();
    Timestamp::from_micros(since_epoch.as_micros() as i64)
}

#[test]
fn test_file_message_adapter_existing_file() {
    let adapter = FileMessageAdapter::new("/tmp/message.txt");
    let template = adapter.template(Some("Custom message with {timestamp}"));
    let message = adapter.generate_last_signal_message(&template, now());

    assert!(message.contains("Custom message"));
    assert!(message.contains("{timestamp}") == false); // Should be replaced with actual timestamp
}

#[test]
fn test_file_message_adapter_checkin_message() {
    let adapter = FileMessageAdapter::new("message.txt");
    let message = adapter.generate_checkin_message();

    assert!(message.contains("check-in reminder"));
    assert!(message.contains("LastSignal"));
}

#[test]
fn test_message_adapter_factory() {
    let adapter = MessageAdapterFactory::create_adapter("file", "message.txt").unwrap();
    let message = adapter.generate_checkin_message();

    assert!(message.contains("check-in reminder"));
}

#[test]
fn test_message_adapter_factory_unknown_type() {
    let result = MessageAdapterFactory::create_adapter("unknown", "message.txt");
    assert!(result.is_err());
}

#[test]
fn test_timestamp_replacement() {
    let adapter = FileMessageAdapter::new("/tmp/message.txt");
    let template = adapter.template(Some("Message sent at: {timestamp}"));
    let message = adapter.generate_last_signal_message(&template, now());

    assert!(message.contains("Message sent at: "));
    assert!(message.contains("UTC"));
    assert!(!message.contains("{timestamp}"));
}

#[test]
fn default_template_is_used_without_a_file() {
    let adapter = FileMessageAdapter::new("message.txt");
    let template = adapter.template(None);
    assert_eq!(template, DEFAULT_MESSAGE);
    assert_eq!(adapter.get_default_message(), DEFAULT_MESSAGE);
    let message = adapter.generate_last_signal_message(&template, Timestamp::from_micros(0));
    assert!(message.contains("LastSignal"));
    assert!(message.contains("Generated at: 1970-01-01 00:00:00 UTC"));
}

#[test]
fn rendering_replaces_every_placeholder_and_trims_files() {
    let adapter = FileMessageAdapter::new("m");
    let template = adapter.template(Some("  \n{timestamp} and {timestamp}\n\n"));
    assert_eq!(template, "{timestamp} and {timestamp}");
    assert_eq!(adapter.render_last_signal_message(&template, "T"), "T and T");
    assert_eq!(adapter.render_last_signal_message("{timestamp", "T"), "{timestamp");
    let day = Timestamp::from_micros(86_400_000_000 + 3_661_000_000);
    assert_eq!(
        adapter.generate_last_signal_message("sent {timestamp}", day),
        "sent 1970-01-02 01:01:01 UTC"
    );
}
