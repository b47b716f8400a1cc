//! Typed descriptors of the configured notification channels, built from
//! their key/value settings, and the recipient identity used to deduplicate
//! the emergency broadcast.

use vstd::prelude::*;
use crate::config::OutputConfig;
use crate::detector::CheckinResponse;
use crate::timestamp::Timestamp;
use crate::settings::ChannelSettings;
use crate::text::{replace_all, replace_text, text_eq, u16_text, parse_u16};

verus! {

/// The settings keys that channels read.
#[derive(Clone, Copy, Debug, PartialEq, Eq, Structural)]
pub enum SettingKey {
    To,
    From,
    SmtpHost,
    SmtpPort,
    Username,
    Password,
    ImapHost,
    ImapPort,
    SubjectPrefix,
    UserId,
    AccessToken,
}

impl SettingKey {
    pub open spec fn spec_name(self) -> Seq<char> {
        match self {
            SettingKey::To => "to"@,
            SettingKey::From => "from"@,
            SettingKey::SmtpHost => "smtp_host"@,
            SettingKey::SmtpPort => "smtp_port"@,
            SettingKey::Username => "username"@,
            SettingKey::Password => "password"@,
            SettingKey::ImapHost => "imap_host"@,
            SettingKey::ImapPort => "imap_port"@,
            SettingKey::SubjectPrefix => "subject_prefix"@,
            SettingKey::UserId => "user_id"@,
            SettingKey::AccessToken => "access_token"@,
        }
    }

    /// The key as written in the settings.
    pub fn name(&self) -> (r: &'static str)
        ensures
            r@ == self.spec_name(),
    {
        match self {
            SettingKey::To => "to",
            SettingKey::From => "from",
            SettingKey::SmtpHost => "smtp_host",
            SettingKey::SmtpPort => "smtp_port",
            SettingKey::Username => "username",
            SettingKey::Password => "password",
            SettingKey::ImapHost => "imap_host",
            SettingKey::ImapPort => "imap_port",
            SettingKey::SubjectPrefix => "subject_prefix",
            SettingKey::UserId => "user_id",
            SettingKey::AccessToken => "access_token",
        }
    }
}

/// A setting that is missing or unusable.
#[derive(Clone, Copy, Debug, PartialEq, Eq, Structural)]
pub enum SettingError {
    Missing(SettingKey),
    InvalidPort(SettingKey),
}

/// Why a channel could not be built.
#[derive(Clone, Debug)]
pub enum OutputError {
    Setting(SettingError),
    UnknownOutputType(String),
    DataDirectoryRequired,
}

pub open spec fn has_key(m: Map<Seq<char>, Seq<char>>, k: SettingKey) -> bool {
    m.contains_key(k.spec_name())
}

pub open spec fn at(m: Map<Seq<char>, Seq<char>>, k: SettingKey) -> Seq<char> {
    m[k.spec_name()]
}

/// The first problem with the SMTP settings, in the order they are read.
pub open spec fn smtp_error(m: Map<Seq<char>, Seq<char>>) -> Option<SettingError> {
    if !has_key(m, SettingKey::To) {
        Some(SettingError::Missing(SettingKey::To))
    } else if !has_key(m, SettingKey::SmtpHost) {
        Some(SettingError::Missing(SettingKey::SmtpHost))
    } else if !has_key(m, SettingKey::SmtpPort) {
        Some(SettingError::Missing(SettingKey::SmtpPort))
    } else if u16_text(at(m, SettingKey::SmtpPort)) is None {
        Some(SettingError::InvalidPort(SettingKey::SmtpPort))
    } else if !has_key(m, SettingKey::Username) {
        Some(SettingError::Missing(SettingKey::Username))
    } else if !has_key(m, SettingKey::Password) {
        Some(SettingError::Missing(SettingKey::Password))
    } else {
        None
    }
}

/// The sender address: `from` when set, else the user name.
pub open spec fn sender_of(m: Map<Seq<char>, Seq<char>>) -> Seq<char> {
    if has_key(m, SettingKey::From) {
        at(m, SettingKey::From)
    } else {
        at(m, SettingKey::Username)
    }
}

/// An outgoing e-mail channel (SMTP).
#[derive(Clone, Debug)]
pub struct EmailOutput {
    pub to: String,
    pub from: String,
    pub smtp_host: String,
    pub smtp_port: u16,
    pub username: String,
    pub password: String,
}

/// `e` holds the SMTP settings of `m`.
pub open spec fn email_fields(e: EmailOutput, m: Map<Seq<char>, Seq<char>>) -> bool {
    &&& e.to@ == at(m, SettingKey::To)
    &&& e.smtp_host@ == at(m, SettingKey::SmtpHost)
    &&& Some(e.smtp_port) == u16_text(at(m, SettingKey::SmtpPort))
    &&& e.username@ == at(m, SettingKey::Username)
    &&& e.password@ == at(m, SettingKey::Password)
    &&& e.from@ == sender_of(m)
}

/// `r` is what building an e-mail channel from `m` gives.
pub open spec fn email_built(m: Map<Seq<char>, Seq<char>>, r: Result<EmailOutput, OutputError>) -> bool {
    match r {
        Ok(e) => smtp_error(m) is None && email_fields(e, m),
        Err(OutputError::Setting(k)) => smtp_error(m) == Some(k),
        Err(_) => false,
    }
}

fn required(config: &ChannelSettings, key: SettingKey) -> (r: Result<String, OutputError>)
    ensures
        match r {
            Ok(v) => has_key(config@, key) && v@ == at(config@, key),
            Err(OutputError::Setting(k)) => !has_key(config@, key) && k == SettingError::Missing(key),
            Err(_) => false,
        },
{
    match config.get(key.name()) {
        Some(v) => Ok(v.clone()),
        None => Err(OutputError::Setting(SettingError::Missing(key))),
    }
}

fn read_smtp(config: &ChannelSettings) -> (r: Result<EmailOutput, OutputError>)
    ensures
        email_built(config@, r),
{
    let to = required(config, SettingKey::To)?;
    let smtp_host = required(config, SettingKey::SmtpHost)?;
    let port_text = required(config, SettingKey::SmtpPort)?;
    let smtp_port = match parse_u16(port_text.as_str()) {
        Some(p) => p,
        None => {
            return Err(OutputError::Setting(SettingError::InvalidPort(SettingKey::SmtpPort)));
        },
    };
    let username = required(config, SettingKey::Username)?;
    let password = required(config, SettingKey::Password)?;
    let from = match config.get("from") {
        Some(f) => f.clone(),
        None => username.clone(),
    };
    Ok(EmailOutput { to, from, smtp_host, smtp_port, username, password })
}

impl EmailOutput {
    pub fn new(config: &ChannelSettings) -> (r: Result<EmailOutput, OutputError>)
        ensures
            email_built(config@, r),
    {
        read_smtp(config)
    }
}

pub const DEFAULT_IMAP_PORT: u16 = 993;

pub const DEFAULT_SUBJECT_PREFIX: &'static str = "LastSignal";

/// An e-mail channel that also reads replies over IMAP.
#[derive(Clone, Debug)]
pub struct BidirectionalEmailOutput {
    pub to: String,
    pub from: String,
    pub smtp_host: String,
    pub smtp_port: u16,
    pub username: String,
    pub password: String,
    pub imap_host: String,
    pub imap_port: u16,
    pub subject_prefix: String,
}

/// The IMAP host: `imap_host` when set, else the SMTP host with `smtp` turned into `imap`.
pub open spec fn imap_host_of(m: Map<Seq<char>, Seq<char>>) -> Seq<char> {
    if has_key(m, SettingKey::ImapHost) {
        at(m, SettingKey::ImapHost)
    } else {
        replace_all(at(m, SettingKey::SmtpHost), "smtp"@, "imap"@)
    }
}

/// The first problem with the settings of a replying e-mail channel.
pub open spec fn reply_email_error(m: Map<Seq<char>, Seq<char>>) -> Option<SettingError> {
    if smtp_error(m) is Some {
        smtp_error(m)
    } else if has_key(m, SettingKey::ImapPort) && u16_text(at(m, SettingKey::ImapPort)) is None {
        Some(SettingError::InvalidPort(SettingKey::ImapPort))
    } else {
        None
    }
}

/// `r` is what building a replying e-mail channel from `m` gives.
pub open spec fn reply_email_built(
    m: Map<Seq<char>, Seq<char>>,
    r: Result<BidirectionalEmailOutput, OutputError>,
) -> bool {
    match r {
        Ok(e) => {
            &&& reply_email_error(m) is None
            &&& e.to@ == at(m, SettingKey::To)
            &&& e.smtp_host@ == at(m, SettingKey::SmtpHost)
            &&& Some(e.smtp_port) == u16_text(at(m, SettingKey::SmtpPort))
            &&& e.username@ == at(m, SettingKey::Username)
            &&& e.password@ == at(m, SettingKey::Password)
            &&& e.from@ == sender_of(m)
            &&& e.imap_host@ == imap_host_of(m)
            &&& e.imap_port == if has_key(m, SettingKey::ImapPort) {
                u16_text(at(m, SettingKey::ImapPort))->0
            } else {
                DEFAULT_IMAP_PORT
            }
            &&& e.subject_prefix@ == if has_key(m, SettingKey::SubjectPrefix) {
                at(m, SettingKey::SubjectPrefix)
            } else {
                DEFAULT_SUBJECT_PREFIX@
            }
        },
        Err(OutputError::Setting(k)) => reply_email_error(m) == Some(k),
        Err(_) => false,
    }
}

impl BidirectionalEmailOutput {
    pub fn new(config: &ChannelSettings) -> (r: Result<BidirectionalEmailOutput, OutputError>)
        ensures
            reply_email_built(config@, r),
    {
        let smtp = read_smtp(config)?;
        let imap_host = match config.get("imap_host") {
            Some(h) => h.clone(),
            None => {
                proof {
                    reveal_strlit("smtp");
                }
                replace_text(smtp.smtp_host.as_str(), "smtp", "imap")
            },
        };
        let imap_port = match config.get("imap_port") {
            Some(p) => match parse_u16(p.as_str()) {
                Some(v) => v,
                None => {
                    return Err(OutputError::Setting(SettingError::InvalidPort(SettingKey::ImapPort)));
                },
            },
            None => DEFAULT_IMAP_PORT,
        };
        let subject_prefix = match config.get("subject_prefix") {
            Some(s) => s.clone(),
            None => DEFAULT_SUBJECT_PREFIX.to_string(),
        };
        Ok(
            BidirectionalEmailOutput {
                to: smtp.to,
                from: smtp.from,
                smtp_host: smtp.smtp_host,
                smtp_port: smtp.smtp_port,
                username: smtp.username,
                password: smtp.password,
                imap_host,
                imap_port,
                subject_prefix,
            },
        )
    }

    /// The subject of outgoing messages: the prefix followed by ` Notification`.
    pub fn subject(&self) -> (r: String)
        ensures
            r@ == self.subject_prefix@ + " Notification"@,
    {
        self.subject_prefix.clone().concat(" Notification")
    }

    /// The IMAP search for replies to this channel's messages, with the
    /// `SINCE` date (`DD-Mon-YYYY`) when one is given.
    pub fn reply_search_criteria(&self, since_date: Option<&str>) -> (r: String)
        ensures
            r@ == match since_date {
                Some(d) => "SINCE "@ + d@ + " SUBJECT \"RE: "@ + self.subject_prefix@
                    + " Notification\""@,
                None => "SUBJECT \"RE: "@ + self.subject_prefix@ + " Notification\""@,
            },
    {
        let tail = "SUBJECT \"RE: ".to_string().concat(self.subject_prefix.as_str()).concat(
            " Notification\"",
        );
        match since_date {
            Some(d) => {
                let r = "SINCE ".to_string().concat(d).concat(" ").concat(tail.as_str());
                assert(r@ =~= "SINCE "@ + d@ + " SUBJECT \"RE: "@ + self.subject_prefix@
                    + " Notification\""@) by {
                    reveal_strlit("SINCE ");
                    reveal_strlit(" ");
                    reveal_strlit(" SUBJECT \"RE: ");
                    reveal_strlit("SUBJECT \"RE: ");
                };
                r
            },
            None => tail,
        }
    }
}

/// A Facebook Messenger channel.
#[derive(Clone, Debug)]
pub struct FacebookMessengerOutput {
    pub user_id: String,
    pub access_token: String,
}

pub const GRAPH_API: &'static str = "https://graph.facebook.com/v18.0/me";

impl FacebookMessengerOutput {
    pub fn new(config: &ChannelSettings) -> (r: Result<FacebookMessengerOutput, OutputError>)
        ensures
            match r {
                Ok(f) => has_key(config@, SettingKey::UserId) && has_key(config@, SettingKey::AccessToken)
                    && f.user_id@ == at(config@, SettingKey::UserId) && f.access_token@ == at(
                    config@,
                    SettingKey::AccessToken,
                ),
                Err(OutputError::Setting(k)) => if !has_key(config@, SettingKey::UserId) {
                    k == SettingError::Missing(SettingKey::UserId)
                } else {
                    !has_key(config@, SettingKey::AccessToken) && k == SettingError::Missing(
                        SettingKey::AccessToken,
                    )
                },
                Err(_) => false,
            },
    {
        let user_id = required(config, SettingKey::UserId)?;
        let access_token = required(config, SettingKey::AccessToken)?;
        Ok(FacebookMessengerOutput { user_id, access_token })
    }

    /// The endpoint that messages are posted to.
    pub fn get_send_url(&self) -> (r: String)
        ensures
            r@ == GRAPH_API@ + "/messages?access_token="@ + self.access_token@,
    {
        GRAPH_API.to_string().concat("/messages?access_token=").concat(self.access_token.as_str())
    }

    /// The endpoint that the health check reads.
    pub fn get_profile_url(&self) -> (r: String)
        ensures
            r@ == GRAPH_API@ + "?access_token="@ + self.access_token@,
    {
        GRAPH_API.to_string().concat("?access_token=").concat(self.access_token.as_str())
    }
}

/// A detection-only channel fed by a wearable device's activity.
#[derive(Clone, Debug)]
pub struct WhoopSettings {
    pub data_directory: String,
}

/// A channel that sends notifications.
#[derive(Clone, Debug)]
pub enum OutputChannel {
    Email(EmailOutput),
    FacebookMessenger(FacebookMessengerOutput),
    Whoop(WhoopSettings),
}

/// Adapts a channel without reply support to the reply-polling interface:
/// it reports no replies and ignores consumption marks.
#[derive(Clone, Debug)]
pub struct BidirectionalWrapper<T> {
    inner: T,
}

impl<T> BidirectionalWrapper<T> {
    pub fn new(inner: T) -> (r: BidirectionalWrapper<T>)
        ensures
            r.spec_inner() == inner,
    {
        BidirectionalWrapper { inner }
    }

    pub closed spec fn spec_inner(&self) -> T {
        self.inner
    }

    pub fn inner(&self) -> (r: &T)
        ensures
            *r == self.spec_inner(),
    {
        &self.inner
    }

    pub fn into_inner(self) -> (r: T)
        ensures
            r == self.spec_inner(),
    {
        self.inner
    }

    /// A channel without reply support never reports a reply, whatever the watermark.
    pub fn check_for_responses(&self, _since: Option<Timestamp>) -> (r: Vec<CheckinResponse>)
        ensures
            r@.len() == 0,
    {
        Vec::new()
    }

    /// Consumption marks mean nothing to a channel without replies.
    pub fn mark_processed_until(&self, _timestamp: Timestamp) {
    }
}

/// A channel used for check-in requests and reply polling.
#[derive(Clone, Debug)]
pub enum CheckinChannel {
    /// E-mail that reads replies.
    ReplyEmail(BidirectionalEmailOutput),
    /// A channel without reply support.
    Wrapped(BidirectionalWrapper<OutputChannel>),
    /// Device activity, polled as replies.
    Whoop(WhoopSettings),
}

proof fn lemma_type_names_distinct()
    ensures
        "email"@ != "facebook_messenger"@,
        "email"@ != "whoop"@,
        "facebook_messenger"@ != "whoop"@,
{
    reveal_strlit("email");
    reveal_strlit("facebook_messenger");
    reveal_strlit("whoop");
    assert("email"@.len() != "facebook_messenger"@.len());
    assert("email"@[0] != "whoop"@[0]);
    assert("whoop"@.len() != "facebook_messenger"@.len());
}

pub struct OutputFactory;

impl OutputFactory {
    /// Builds the channel of type `output_type` from its settings.
    pub fn create_output(
        output_type: &str,
        config: &ChannelSettings,
        data_directory: Option<&str>,
    ) -> (r: Result<OutputChannel, OutputError>)
        ensures
            output_type@ == "email"@ ==> match r {
                Ok(OutputChannel::Email(e)) => email_built(config@, Ok(e)),
                Ok(_) => false,
                Err(e) => email_built(config@, Err(e)),
            },
            output_type@ == "facebook_messenger"@ ==> match r {
                Ok(OutputChannel::FacebookMessenger(f)) => f.user_id@ == at(
                    config@,
                    SettingKey::UserId,
                ) && f.access_token@ == at(config@, SettingKey::AccessToken),
                Ok(_) => false,
                Err(OutputError::Setting(_)) => !has_key(config@, SettingKey::UserId) || !has_key(
                    config@,
                    SettingKey::AccessToken,
                ),
                Err(_) => false,
            },
            output_type@ == "whoop"@ ==> match r {
                Ok(OutputChannel::Whoop(w)) => data_directory is Some && w.data_directory@
                    == data_directory->0@,
                Ok(_) => false,
                Err(OutputError::DataDirectoryRequired) => data_directory is None,
                Err(_) => false,
            },
            output_type@ != "email"@ && output_type@ != "facebook_messenger"@ && output_type@
                != "whoop"@ ==> match r {
                Err(OutputError::UnknownOutputType(t)) => t@ == output_type@,
                _ => false,
            },
    {
        proof {
            lemma_type_names_distinct();
        }
        if text_eq(output_type, "email") {
            match EmailOutput::new(config) {
                Ok(e) => Ok(OutputChannel::Email(e)),
                Err(e) => Err(e),
            }
        } else if text_eq(output_type, "facebook_messenger") {
            match FacebookMessengerOutput::new(config) {
                Ok(f) => Ok(OutputChannel::FacebookMessenger(f)),
                Err(e) => Err(e),
            }
        } else if text_eq(output_type, "whoop") {
            match data_directory {
                Some(d) => Ok(OutputChannel::Whoop(WhoopSettings { data_directory: d.to_string() })),
                None => Err(OutputError::DataDirectoryRequired),
            }
        } else {
            Err(OutputError::UnknownOutputType(output_type.to_string()))
        }
    }
}

pub struct BidirectionalOutputFactory;

impl BidirectionalOutputFactory {
    /// Builds a check-in channel: e-mail reads replies when `is_bidirectional`,
    /// the device feed is polled natively, and other channels are wrapped.
    pub fn create_bidirectional_output(
        output_type: &str,
        config: &ChannelSettings,
        is_bidirectional: bool,
        data_directory: Option<&str>,
    ) -> (r: Result<CheckinChannel, OutputError>)
        ensures
            output_type@ == "email"@ && is_bidirectional ==> match r {
                Ok(CheckinChannel::ReplyEmail(e)) => reply_email_built(config@, Ok(e)),
                Ok(_) => false,
                Err(e) => reply_email_built(config@, Err(e)),
            },
            output_type@ == "email"@ && !is_bidirectional ==> match r {
                Ok(CheckinChannel::Wrapped(w)) => w.spec_inner() matches OutputChannel::Email(e)
                    && email_built(config@, Ok(e)),
                Ok(_) => false,
                Err(e) => email_built(config@, Err(e)),
            },
            output_type@ == "facebook_messenger"@ ==> match r {
                Ok(CheckinChannel::Wrapped(w)) => w.spec_inner() is FacebookMessenger,
                Ok(_) => false,
                Err(OutputError::Setting(_)) => !has_key(config@, SettingKey::UserId) || !has_key(
                    config@,
                    SettingKey::AccessToken,
                ),
                Err(_) => false,
            },
            output_type@ == "whoop"@ ==> match r {
                Ok(CheckinChannel::Whoop(w)) => data_directory is Some && w.data_directory@
                    == data_directory->0@,
                Ok(_) => false,
                Err(OutputError::DataDirectoryRequired) => data_directory is None,
                Err(_) => false,
            },
            output_type@ != "email"@ && output_type@ != "facebook_messenger"@ && output_type@
                != "whoop"@ ==> match r {
                Err(OutputError::UnknownOutputType(t)) => t@ == output_type@,
                _ => false,
            },
    {
        proof {
            lemma_type_names_distinct();
        }
        if text_eq(output_type, "email") && is_bidirectional {
            match BidirectionalEmailOutput::new(config) {
                Ok(e) => Ok(CheckinChannel::ReplyEmail(e)),
                Err(e) => Err(e),
            }
        } else if text_eq(output_type, "whoop") {
            match data_directory {
                Some(d) => Ok(CheckinChannel::Whoop(WhoopSettings { data_directory: d.to_string() })),
                None => Err(OutputError::DataDirectoryRequired),
            }
        } else {
            match OutputFactory::create_output(output_type, config, data_directory) {
                Ok(c) => Ok(CheckinChannel::Wrapped(BidirectionalWrapper::new(c))),
                Err(e) => Err(e),
            }
        }
    }
}

/// The recipient identity of a channel of type `t` with settings `m`: the
/// type and its destination field, which deduplicates the broadcast.
pub open spec fn recipient_id_spec(t: Seq<char>, m: Map<Seq<char>, Seq<char>>) -> Seq<char> {
    if t == "email"@ {
        "email:"@ + if has_key(m, SettingKey::To) {
            at(m, SettingKey::To)
        } else {
            "unknown"@
        }
    } else if t == "facebook_messenger"@ {
        "facebook_messenger:"@ + if has_key(m, SettingKey::UserId) {
            at(m, SettingKey::UserId)
        } else {
            "unknown"@
        }
    } else if t == "whoop"@ {
        "whoop:device"@
    } else {
        t + ":unknown"@
    }
}

/// The recipient identity of a configured channel: its type and destination.
pub fn generate_recipient_id(output_config: &OutputConfig) -> (r: String)
    ensures
        r@ == recipient_id_spec(output_config.output_type@, output_config.config@),
{
    let t = output_config.output_type.as_str();
    let m = &output_config.config;
    proof {
        lemma_type_names_distinct();
    }
    if text_eq(t, "email") {
        match m.get("to") {
            Some(to) => "email:".to_string().concat(to.as_str()),
            None => "email:".to_string().concat("unknown"),
        }
    } else if text_eq(t, "facebook_messenger") {
        match m.get("user_id") {
            Some(id) => "facebook_messenger:".to_string().concat(id.as_str()),
            None => "facebook_messenger:".to_string().concat("unknown"),
        }
    } else if text_eq(t, "whoop") {
        "whoop:device".to_string()
    } else {
        output_config.output_type.clone().concat(":unknown")
    }
}

/// Two channels of the same type and destination have the same recipient
/// identity, whatever their other settings.
pub proof fn lemma_recipient_id_by_destination(
    t: Seq<char>,
    m1: Map<Seq<char>, Seq<char>>,
    m2: Map<Seq<char>, Seq<char>>,
)
    requires
        has_key(m1, SettingKey::To) == has_key(m2, SettingKey::To),
        has_key(m1, SettingKey::To) ==> at(m1, SettingKey::To) == at(m2, SettingKey::To),
        has_key(m1, SettingKey::UserId) == has_key(m2, SettingKey::UserId),
        has_key(m1, SettingKey::UserId) ==> at(m1, SettingKey::UserId) == at(m2, SettingKey::UserId),
    ensures
        recipient_id_spec(t, m1) == recipient_id_spec(t, m2),
{
}

} // verus!
