use lastsignal::config::OutputConfig;
use lastsignal::outputs::{
    generate_recipient_id, BidirectionalEmailOutput, BidirectionalOutputFactory, CheckinChannel,
    EmailOutput, FacebookMessengerOutput, OutputChannel, OutputError, OutputFactory, SettingError,
    SettingKey,
};
use lastsignal::settings::ChannelSettings;

fn settings(pairs: &[(&str, &str)]) -> ChannelSettings {
    let mut config = ChannelSettings::new();
    for (k, v) in pairs {
        config.insert(k.to_string(), v.to_string());
    }
    config
}

fn smtp_settings() -> ChannelSettings {
    settings(&[
        ("to", "test@example.com"),
        ("smtp_host", "smtp.example.com"),
        ("smtp_port", "587"),
        ("username", "user@example.com"),
        ("password", "password"),
    ])
}

#[test]
fn test_email_output_creation() {
    let mut config = ChannelSettings::new();
    config.insert("to".to_string(), "test@example.com".to_string());
    config.insert("smtp_host".to_string(), "smtp.example.com".to_string());
    config.insert("smtp_port".to_string(), "587".to_string());
    config.insert("username".to_string(), "user@example.com".to_string());
    config.insert("password".to_string(), "password".to_string());

    let output = EmailOutput::new(&config).unwrap();
    assert_eq!(output.to, "test@example.com");
    assert_eq!(output.smtp_host, "smtp.example.com");
    assert_eq!(output.smtp_port, 587);
    assert_eq!(output.username, "user@example.com");
    assert_eq!(output.from, "user@example.com"); // defaults to username
}

#[test]
fn test_email_output_creation_with_from() {
    let mut config = ChannelSettings::new();
    config.insert("to".to_string(), "test@example.com".to_string());
    config.insert("from".to_string(), "from@example.com".to_string());
    config.insert("smtp_host".to_string(), "smtp.example.com".to_string());
    config.insert("smtp_port".to_string(), "587".to_string());
    config.insert("username".to_string(), "user@example.com".to_string());
    config.insert("password".to_string(), "password".to_string());

    let output = EmailOutput::new(&config).unwrap();
    assert_eq!(output.from, "from@example.com");
}

#[test]
fn test_email_output_missing_config() {
    let config = ChannelSettings::new();
    let result = EmailOutput::new(&config);
    assert!(result.is_err());
}

#[test]
fn test_bidirectional_email_output_creation() {
    let mut config = ChannelSettings::new();
    config.insert("to".to_string(), "test@example.com".to_string());
    config.insert("smtp_host".to_string(), "smtp.example.com".to_string());
    config.insert("smtp_port".to_string(), "587".to_string());
    config.insert("username".to_string(), "user@example.com".to_string());
    config.insert("password".to_string(), "password".to_string());

    let output = BidirectionalEmailOutput::new(&config).unwrap();
    assert_eq!(output.to, "test@example.com");
    assert_eq!(output.smtp_host, "smtp.example.com");
    assert_eq!(output.smtp_port, 587);
    assert_eq!(output.username, "user@example.com");
    assert_eq!(output.from, "user@example.com");
    assert_eq!(output.imap_host, "imap.example.com"); // auto-converted
    assert_eq!(output.imap_port, 993); // default IMAP SSL port
    assert_eq!(output.subject_prefix, "LastSignal"); // default
}

#[test]
fn test_bidirectional_email_output_with_custom_imap() {
    let mut config = ChannelSettings::new();
    config.insert("to".to_string(), "test@example.com".to_string());
    config.insert("smtp_host".to_string(), "smtp.example.com".to_string());
    config.insert("smtp_port".to_string(), "587".to_string());
    config.insert("imap_host".to_string(), "mail.example.com".to_string());
    config.insert("imap_port".to_string(), "143".to_string());
    config.insert("username".to_string(), "user@example.com".to_string());
    config.insert("password".to_string(), "password".to_string());
    config.insert("subject_prefix".to_string(), "MyApp".to_string());

    let output = BidirectionalEmailOutput::new(&config).unwrap();
    assert_eq!(output.imap_host, "mail.example.com");
    assert_eq!(output.imap_port, 143);
    assert_eq!(output.subject_prefix, "MyApp");
}

#[test]
fn test_facebook_messenger_output_creation() {
    let mut config = ChannelSettings::new();
    config.insert("user_id".to_string(), "123456789".to_string());
    config.insert("access_token".to_string(), "test_token".to_string());

    let output = FacebookMessengerOutput::new(&config).unwrap();
    assert_eq!(output.user_id, "123456789");
    assert_eq!(output.access_token, "test_token");
}

#[test]
fn test_facebook_messenger_output_missing_config() {
    let config = ChannelSettings::new();
    let result = FacebookMessengerOutput::new(&config);
    assert!(result.is_err());
}

#[test]
fn test_facebook_messenger_urls() {
    let mut config = ChannelSettings::new();
    config.insert("user_id".to_string(), "123456789".to_string());
    config.insert("access_token".to_string(), "test_token".to_string());

    let output = FacebookMessengerOutput::new(&config).unwrap();
    assert_eq!(
        output.get_send_url(),
        "https://graph.facebook.com/v18.0/me/messages?access_token=test_token"
    );
    assert_eq!(
        output.get_profile_url(),
        "https://graph.facebook.com/v18.0/me?access_token=test_token"
    );
}

#[test]
fn email_errors_name_the_first_missing_or_bad_setting() {
    let mut config = smtp_settings();
    config.insert("smtp_port".to_string(), "70000".to_string());
    assert!(matches!(
        EmailOutput::new(&config),
        Err(OutputError::Setting(SettingError::InvalidPort(SettingKey::SmtpPort)))
    ));
    let config = settings(&[("to", "a@b.c")]);
    assert!(matches!(
        EmailOutput::new(&config),
        Err(OutputError::Setting(SettingError::Missing(SettingKey::SmtpHost)))
    ));
    let mut config = smtp_settings();
    config.insert("imap_port".to_string(), "imap".to_string());
    assert!(matches!(
        BidirectionalEmailOutput::new(&config),
        Err(OutputError::Setting(SettingError::InvalidPort(SettingKey::ImapPort)))
    ));
    let mut config = smtp_settings();
    config.insert("smtp_port".to_string(), "+25".to_string());
    assert_eq!(EmailOutput::new(&config).unwrap().smtp_port, 25);
}

#[test]
fn imap_host_replaces_every_smtp() {
    let mut config = smtp_settings();
    config.insert("smtp_host".to_string(), "smtp.smtp-relay.net".to_string());
    let output = BidirectionalEmailOutput::new(&config).unwrap();
    assert_eq!(output.imap_host, "imap.imap-relay.net");
    assert_eq!(output.subject(), "LastSignal Notification");
    assert_eq!(
        output.reply_search_criteria(Some("01-Jan-2024")),
        "SINCE 01-Jan-2024 SUBJECT \"RE: LastSignal Notification\""
    );
    assert_eq!(
        output.reply_search_criteria(None),
        "SUBJECT \"RE: LastSignal Notification\""
    );
}

#[test]
fn later_setting_supersedes_earlier() {
    let mut config = smtp_settings();
    config.insert("to".to_string(), "other@example.com".to_string());
    assert_eq!(config.get("to").unwrap(), "other@example.com");
    assert!(config.get("from").is_none());
}

#[test]
fn factories_pick_the_channel_kind() {
    let config = smtp_settings();
    assert!(matches!(
        OutputFactory::create_output("email", &config, None),
        Ok(OutputChannel::Email(_))
    ));
    assert!(matches!(
        OutputFactory::create_output("whoop", &config, None),
        Err(OutputError::DataDirectoryRequired)
    ));
    match OutputFactory::create_output("pager", &config, None) {
        Err(OutputError::UnknownOutputType(t)) => assert_eq!(t, "pager"),
        _ => panic!("expected an unknown type"),
    }
    assert!(matches!(
        BidirectionalOutputFactory::create_bidirectional_output("email", &config, true, None),
        Ok(CheckinChannel::ReplyEmail(_))
    ));
    match BidirectionalOutputFactory::create_bidirectional_output("email", &config, false, None) {
        Ok(CheckinChannel::Wrapped(w)) => assert!(matches!(w.inner(), OutputChannel::Email(_))),
        _ => panic!("expected a wrapped e-mail channel"),
    }
    match BidirectionalOutputFactory::create_bidirectional_output("whoop", &config, false, Some("/data")) {
        Ok(CheckinChannel::Whoop(w)) => assert_eq!(w.data_directory, "/data"),
        _ => panic!("expected the device feed"),
    }
}

#[test]
fn recipient_ids_follow_type_and_destination() {
    let email = OutputConfig {
        output_type: "email".to_string(),
        config: smtp_settings(),
        bidirectional: false,
    };
    assert_eq!(generate_recipient_id(&email), "email:test@example.com");
    let mut other = smtp_settings();
    other.insert("smtp_host".to_string(), "smtp.other.org".to_string());
    let email2 = OutputConfig { output_type: "email".to_string(), config: other, bidirectional: true };
    assert_eq!(generate_recipient_id(&email), generate_recipient_id(&email2));
    let fb = OutputConfig {
        output_type: "facebook_messenger".to_string(),
        config: settings(&[("user_id", "42")]),
        bidirectional: false,
    };
    assert_eq!(generate_recipient_id(&fb), "facebook_messenger:42");
    let fb_none = OutputConfig {
        output_type: "facebook_messenger".to_string(),
        config: ChannelSettings::new(),
        bidirectional: false,
    };
    assert_eq!(generate_recipient_id(&fb_none), "facebook_messenger:unknown");
    let whoop = OutputConfig { output_type: "whoop".to_string(), config: ChannelSettings::new(), bidirectional: false };
    assert_eq!(generate_recipient_id(&whoop), "whoop:device");
    let sms = OutputConfig { output_type: "sms".to_string(), config: ChannelSettings::new(), bidirectional: false };
    assert_eq!(generate_recipient_id(&sms), "sms:unknown");
    let no_to = OutputConfig { output_type: "email".to_string(), config: ChannelSettings::new(), bidirectional: false };
    assert_eq!(generate_recipient_id(&no_to), "email:unknown");
}

#[test]
fn wrapped_channels_report_no_replies() {
    let channel = OutputFactory::create_output("email", &smtp_settings(), None).unwrap();
    let wrapper = lastsignal::outputs::BidirectionalWrapper::new(channel);
    let since = Some(lastsignal::timestamp::Timestamp::from_micros(5));
    assert!(wrapper.check_for_responses(since).is_empty());
    assert!(wrapper.check_for_responses(None).is_empty());
    wrapper.mark_processed_until(lastsignal::timestamp::Timestamp::from_micros(9));
    assert!(matches!(wrapper.into_inner(), OutputChannel::Email(_)));
}
