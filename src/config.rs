//! The typed configuration: thresholds, the channels of each tier, and the
//! rules a configuration must meet before the program starts.

use vstd::prelude::*;
use crate::duration::ConfigDuration;
use crate::outputs::{at, has_key, SettingError, SettingKey};
use crate::settings::ChannelSettings;
use crate::text::{parse_u16, text_eq, u16_text};

verus! {

/// One configured channel: its type, its settings, and whether it reads replies.
#[derive(Clone, Debug)]
pub struct OutputConfig {
    pub output_type: String,
    pub config: ChannelSettings,
    pub bidirectional: bool,
}

#[derive(Clone, Debug)]
pub struct CheckinConfig {
    pub duration_between_checkins: ConfigDuration,
    pub output_retry_delay: ConfigDuration,
    pub outputs: Vec<OutputConfig>,
}

#[derive(Clone, Debug)]
pub struct RecipientConfig {
    pub duration_before_last_signal: ConfigDuration,
    pub output_retry_delay: ConfigDuration,
    pub last_signal_outputs: Vec<OutputConfig>,
}

#[derive(Clone, Debug)]
pub struct LastSignalConfig {
    pub adapter_type: String,
    pub message_file: String,
}

#[derive(Clone, Debug)]
pub struct AppConfig {
    pub data_directory: String,
    pub log_level: String,
    pub check_interval: ConfigDuration,
}

#[derive(Clone, Debug)]
pub struct Config {
    pub checkin: CheckinConfig,
    pub recipient: RecipientConfig,
    pub last_signal: LastSignalConfig,
    pub app: AppConfig,
}

/// A channel reads replies only when asked to.
pub fn default_false() -> (r: bool)
    ensures
        !r,
{
    false
}

/// The default pause between two cycles: one hour.
pub fn default_check_interval() -> (r: ConfigDuration)
    ensures
        r@ == 3600,
{
    ConfigDuration::from_hours(1)
}

/// The duration settings that must be positive.
#[derive(Clone, Copy, Debug, PartialEq, Eq, Structural)]
pub enum DurationField {
    DurationBetweenCheckins,
    DurationBeforeLastSignal,
    CheckinRetryDelay,
    RecipientRetryDelay,
    CheckInterval,
}

/// The tier a channel is configured in.
#[derive(Clone, Copy, Debug, PartialEq, Eq, Structural)]
pub enum Section {
    Checkin,
    LastSignal,
}

/// What is wrong with one configured channel.
#[derive(Clone, Copy, Debug, PartialEq, Eq, Structural)]
pub enum OutputProblem {
    Setting(SettingError),
    UnknownType,
}

/// Why a configuration was refused.
#[derive(Clone, Copy, Debug, PartialEq, Eq, Structural)]
pub enum ConfigError {
    ZeroDuration(DurationField),
    NoCheckinOutputs,
    NoLastSignalOutputs,
    InvalidOutput(Section, OutputProblem),
    InvalidLogLevel,
}

/// The first problem with one channel's configuration.
pub open spec fn output_problem(o: OutputConfig) -> Option<OutputProblem> {
    let m = o.config@;
    if o.output_type@ == "facebook_messenger"@ {
        if !has_key(m, SettingKey::UserId) {
            Some(OutputProblem::Setting(SettingError::Missing(SettingKey::UserId)))
        } else if !has_key(m, SettingKey::AccessToken) {
            Some(OutputProblem::Setting(SettingError::Missing(SettingKey::AccessToken)))
        } else {
            None
        }
    } else if o.output_type@ == "email"@ {
        if !has_key(m, SettingKey::To) {
            Some(OutputProblem::Setting(SettingError::Missing(SettingKey::To)))
        } else if !has_key(m, SettingKey::SmtpHost) {
            Some(OutputProblem::Setting(SettingError::Missing(SettingKey::SmtpHost)))
        } else if !has_key(m, SettingKey::SmtpPort) {
            Some(OutputProblem::Setting(SettingError::Missing(SettingKey::SmtpPort)))
        } else if !has_key(m, SettingKey::Username) {
            Some(OutputProblem::Setting(SettingError::Missing(SettingKey::Username)))
        } else if !has_key(m, SettingKey::Password) {
            Some(OutputProblem::Setting(SettingError::Missing(SettingKey::Password)))
        } else if u16_text(at(m, SettingKey::SmtpPort)) is None {
            Some(OutputProblem::Setting(SettingError::InvalidPort(SettingKey::SmtpPort)))
        } else if o.bidirectional && has_key(m, SettingKey::ImapPort) && u16_text(
            at(m, SettingKey::ImapPort),
        ) is None {
            Some(OutputProblem::Setting(SettingError::InvalidPort(SettingKey::ImapPort)))
        } else {
            None
        }
    } else {
        Some(OutputProblem::UnknownType)
    }
}

/// The first problem among a tier's channels, in order.
pub open spec fn first_problem(outputs: Seq<OutputConfig>) -> Option<OutputProblem>
    decreases outputs.len(),
{
    if outputs.len() == 0 {
        None
    } else if output_problem(outputs[0]) is Some {
        output_problem(outputs[0])
    } else {
        first_problem(outputs.subrange(1, outputs.len() as int))
    }
}

pub open spec fn log_level_known(l: Seq<char>) -> bool {
    l == "trace"@ || l == "debug"@ || l == "info"@ || l == "warn"@ || l == "error"@
}

/// The first rule that `c` breaks, in the order they are checked.
pub open spec fn config_error(c: Config) -> Option<ConfigError> {
    if c.checkin.duration_between_checkins@ == 0 {
        Some(ConfigError::ZeroDuration(DurationField::DurationBetweenCheckins))
    } else if c.recipient.duration_before_last_signal@ == 0 {
        Some(ConfigError::ZeroDuration(DurationField::DurationBeforeLastSignal))
    } else if c.checkin.output_retry_delay@ == 0 {
        Some(ConfigError::ZeroDuration(DurationField::CheckinRetryDelay))
    } else if c.recipient.output_retry_delay@ == 0 {
        Some(ConfigError::ZeroDuration(DurationField::RecipientRetryDelay))
    } else if c.app.check_interval@ == 0 {
        Some(ConfigError::ZeroDuration(DurationField::CheckInterval))
    } else if c.checkin.outputs@.len() == 0 {
        Some(ConfigError::NoCheckinOutputs)
    } else if c.recipient.last_signal_outputs@.len() == 0 {
        Some(ConfigError::NoLastSignalOutputs)
    } else if first_problem(c.checkin.outputs@) is Some {
        Some(ConfigError::InvalidOutput(Section::Checkin, first_problem(c.checkin.outputs@)->0))
    } else if first_problem(c.recipient.last_signal_outputs@) is Some {
        Some(
            ConfigError::InvalidOutput(
                Section::LastSignal,
                first_problem(c.recipient.last_signal_outputs@)->0,
            ),
        )
    } else if !log_level_known(c.app.log_level@) {
        Some(ConfigError::InvalidLogLevel)
    } else {
        None
    }
}

fn missing(config: &ChannelSettings, key: SettingKey) -> (r: bool)
    ensures
        r == !has_key(config@, key),
{
    !config.contains_key(key.name())
}

fn check_output(output: &OutputConfig) -> (r: Option<OutputProblem>)
    ensures
        r == output_problem(*output),
{
    let m = &output.config;
    if text_eq(output.output_type.as_str(), "facebook_messenger") {
        if missing(m, SettingKey::UserId) {
            return Some(OutputProblem::Setting(SettingError::Missing(SettingKey::UserId)));
        }
        if missing(m, SettingKey::AccessToken) {
            return Some(OutputProblem::Setting(SettingError::Missing(SettingKey::AccessToken)));
        }
        None
    } else if text_eq(output.output_type.as_str(), "email") {
        if missing(m, SettingKey::To) {
            return Some(OutputProblem::Setting(SettingError::Missing(SettingKey::To)));
        }
        if missing(m, SettingKey::SmtpHost) {
            return Some(OutputProblem::Setting(SettingError::Missing(SettingKey::SmtpHost)));
        }
        if missing(m, SettingKey::SmtpPort) {
            return Some(OutputProblem::Setting(SettingError::Missing(SettingKey::SmtpPort)));
        }
        if missing(m, SettingKey::Username) {
            return Some(OutputProblem::Setting(SettingError::Missing(SettingKey::Username)));
        }
        if missing(m, SettingKey::Password) {
            return Some(OutputProblem::Setting(SettingError::Missing(SettingKey::Password)));
        }
        match m.get("smtp_port") {
            Some(p) => {
                if parse_u16(p.as_str()).is_none() {
                    return Some(
                        OutputProblem::Setting(SettingError::InvalidPort(SettingKey::SmtpPort)),
                    );
                }
            },
            None => {},
        }
        if output.bidirectional {
            match m.get("imap_port") {
                Some(p) => {
                    if parse_u16(p.as_str()).is_none() {
                        return Some(
                            OutputProblem::Setting(SettingError::InvalidPort(SettingKey::ImapPort)),
                        );
                    }
                },
                None => {},
            }
        }
        None
    } else {
        Some(OutputProblem::UnknownType)
    }
}

fn check_outputs(outputs: &Vec<OutputConfig>) -> (r: Option<OutputProblem>)
    ensures
        r == first_problem(outputs@),
{
    let mut i: usize = 0;
    assert(outputs@.subrange(0, outputs@.len() as int) =~= outputs@);
    while i < outputs.len()
        invariant
            i <= outputs@.len(),
            first_problem(outputs@) == first_problem(outputs@.subrange(i as int, outputs@.len() as int)),
        decreases outputs@.len() - i,
    {
        let ghost rest = outputs@.subrange(i as int, outputs@.len() as int);
        assert(rest[0] == outputs@[i as int]);
        assert(rest.subrange(1, rest.len() as int) =~= outputs@.subrange(i + 1, outputs@.len() as int));
        let p = check_output(&outputs[i]);
        if p.is_some() {
            return p;
        }
        i = i + 1;
    }
    None
}

fn log_level_ok(level: &str) -> (r: bool)
    ensures
        r == log_level_known(level@),
{
    text_eq(level, "trace") || text_eq(level, "debug") || text_eq(level, "info") || text_eq(
        level,
        "warn",
    ) || text_eq(level, "error")
}

impl Config {
    /// Checks the rules a configuration must meet, reporting the first one broken.
    pub fn validate(&self) -> (r: Result<(), ConfigError>)
        ensures
            match r {
                Ok(()) => config_error(*self) is None,
                Err(e) => config_error(*self) == Some(e),
            },
    {
        if self.checkin.duration_between_checkins.as_secs() == 0 {
            return Err(ConfigError::ZeroDuration(DurationField::DurationBetweenCheckins));
        }
        if self.recipient.duration_before_last_signal.as_secs() == 0 {
            return Err(ConfigError::ZeroDuration(DurationField::DurationBeforeLastSignal));
        }
        if self.checkin.output_retry_delay.as_secs() == 0 {
            return Err(ConfigError::ZeroDuration(DurationField::CheckinRetryDelay));
        }
        if self.recipient.output_retry_delay.as_secs() == 0 {
            return Err(ConfigError::ZeroDuration(DurationField::RecipientRetryDelay));
        }
        if self.app.check_interval.as_secs() == 0 {
            return Err(ConfigError::ZeroDuration(DurationField::CheckInterval));
        }
        if self.checkin.outputs.len() == 0 {
            return Err(ConfigError::NoCheckinOutputs);
        }
        if self.recipient.last_signal_outputs.len() == 0 {
            return Err(ConfigError::NoLastSignalOutputs);
        }
        match check_outputs(&self.checkin.outputs) {
            Some(p) => {
                return Err(ConfigError::InvalidOutput(Section::Checkin, p));
            },
            None => {},
        }
        match check_outputs(&self.recipient.last_signal_outputs) {
            Some(p) => {
                return Err(ConfigError::InvalidOutput(Section::LastSignal, p));
            },
            None => {},
        }
        if !log_level_ok(self.app.log_level.as_str()) {
            return Err(ConfigError::InvalidLogLevel);
        }
        Ok(())
    }

    /// Checks one channel of the tier `section`.
    pub fn validate_output(&self, output: &OutputConfig, section: Section) -> (r: Result<(), ConfigError>)
        ensures
            match r {
                Ok(()) => output_problem(*output) is None,
                Err(e) => output_problem(*output) is Some && e == ConfigError::InvalidOutput(
                    section,
                    output_problem(*output)->0,
                ),
            },
    {
        match check_output(output) {
            Some(p) => Err(ConfigError::InvalidOutput(section, p)),
            None => Ok(()),
        }
    }
}

} // verus!
