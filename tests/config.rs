use lastsignal::config::{
    default_check_interval, default_false, AppConfig, CheckinConfig, Config, ConfigError,
    DurationField, LastSignalConfig, OutputConfig, OutputProblem, RecipientConfig, Section,
};
use lastsignal::duration::ConfigDuration;
use lastsignal::outputs::{SettingError, SettingKey};
use lastsignal::settings::ChannelSettings;

fn email(to: &str) -> OutputConfig {
    let mut config = ChannelSettings::new();
    for (k, v) in [
        ("to", to),
        ("smtp_host", "smtp.gmail.com"),
        ("smtp_port", "587"),
        ("username", "sender@example.com"),
        ("password", "password"),
    ] {
        config.insert(k.to_string(), v.to_string());
    }
    OutputConfig { output_type: "email".to_string(), config, bidirectional: default_false() }
}

fn config() -> Config {
    Config {
        checkin: CheckinConfig {
            duration_between_checkins: "7d".parse().unwrap(),
            output_retry_delay: "24h".parse().unwrap(),
            outputs: vec![email("admin@example.com")],
        },
        recipient: RecipientConfig {
            duration_before_last_signal: "14d".parse().unwrap(),
            output_retry_delay: "12h".parse().unwrap(),
            last_signal_outputs: vec![email("recipient@example.com")],
        },
        last_signal: LastSignalConfig {
            adapter_type: "file".to_string(),
            message_file: "message.txt".to_string(),
        },
        app: AppConfig {
            data_directory: "~/.lastsignal/".to_string(),
            log_level: "info".to_string(),
            check_interval: default_check_interval(),
        },
    }
}

#[test]
fn valid_configuration_passes() {
    let c = config();
    assert_eq!(c.validate(), Ok(()));
    assert_eq!(c.checkin.duration_between_checkins.as_days(), 7);
    assert_eq!(c.recipient.duration_before_last_signal.as_days(), 14);
    assert_eq!(c.app.check_interval.as_hours(), 1);
}

#[test]
fn configuration_errors_in_order() {
    let mut c = config();
    c.app.log_level = "loud".to_string();
    assert_eq!(c.validate(), Err(ConfigError::InvalidLogLevel));
    c.recipient.last_signal_outputs[0].config.insert("smtp_port".to_string(), "x".to_string());
    assert_eq!(
        c.validate(),
        Err(ConfigError::InvalidOutput(
            Section::LastSignal,
            OutputProblem::Setting(SettingError::InvalidPort(SettingKey::SmtpPort))
        ))
    );
    c.checkin.outputs.push(OutputConfig {
        output_type: "pager".to_string(),
        config: ChannelSettings::new(),
        bidirectional: false,
    });
    assert_eq!(
        c.validate(),
        Err(ConfigError::InvalidOutput(Section::Checkin, OutputProblem::UnknownType))
    );
    c.recipient.last_signal_outputs.clear();
    assert_eq!(c.validate(), Err(ConfigError::NoLastSignalOutputs));
    c.checkin.outputs.clear();
    assert_eq!(c.validate(), Err(ConfigError::NoCheckinOutputs));
    c.app.check_interval = ConfigDuration::from_seconds(0);
    assert_eq!(c.validate(), Err(ConfigError::ZeroDuration(DurationField::CheckInterval)));
    c.checkin.duration_between_checkins = ConfigDuration::from_seconds(0);
    assert_eq!(
        c.validate(),
        Err(ConfigError::ZeroDuration(DurationField::DurationBetweenCheckins))
    );
}

#[test]
fn output_validation_checks_reply_port_only_for_replying_email() {
    let c = config();
    let mut o = email("a@b.c");
    o.config.insert("imap_port".to_string(), "bad".to_string());
    assert_eq!(c.validate_output(&o, Section::Checkin), Ok(()));
    o.bidirectional = true;
    assert_eq!(
        c.validate_output(&o, Section::Checkin),
        Err(ConfigError::InvalidOutput(
            Section::Checkin,
            OutputProblem::Setting(SettingError::InvalidPort(SettingKey::ImapPort))
        ))
    );
    let mut fb = OutputConfig {
        output_type: "facebook_messenger".to_string(),
        config: ChannelSettings::new(),
        bidirectional: false,
    };
    fb.config.insert("user_id".to_string(), "1".to_string());
    assert_eq!(
        c.validate_output(&fb, Section::LastSignal),
        Err(ConfigError::InvalidOutput(
            Section::LastSignal,
            OutputProblem::Setting(SettingError::Missing(SettingKey::AccessToken))
        ))
    );
}
