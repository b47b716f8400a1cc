//! The texts of the check-in request and of the emergency message.

use vstd::prelude::*;
use crate::text::{replace_all, replace_text, text_eq, trim, trim_text};
use crate::timestamp::{utc_text, Timestamp};

verus! {

/// The placeholder that the emergency message template may hold for the send time.
pub const TIMESTAMP_PLACEHOLDER: &'static str = "{timestamp}";

pub const CHECKIN_MESSAGE: &'static str = "Hello! This is your scheduled check-in reminder from LastSignal.\n\nPlease respond to confirm you're okay. If you don't respond within the configured timeframe, the emergency contacts will be notified.\n\nTo check in, you can reply to this message or use any of the configured response methods.";

pub const DEFAULT_MESSAGE: &'static str = "This is an automated message from LastSignal.

I have not received a check-in from my designated contact within the expected timeframe. 
This message is being sent as a precautionary measure to ensure my wellbeing.

If you are receiving this message, please:
1. Try to contact me through normal means
2. If you cannot reach me, consider checking on me in person
3. Contact emergency services if necessary

This system was set up to ensure my safety and peace of mind.

Generated at: {timestamp}

LastSignal - Automated Safety System";

/// Messages taken from a template file at `message_file_path`.
#[derive(Clone, Debug)]
pub struct FileMessageAdapter {
    pub message_file_path: String,
}

/// Why a message adapter could not be made.
#[derive(Clone, Debug)]
pub enum MessageError {
    UnknownAdapterType(String),
}

/// The emergency message made from `template` at the time written `stamp`.
pub open spec fn rendered(template: Seq<char>, stamp: Seq<char>) -> Seq<char> {
    replace_all(template, TIMESTAMP_PLACEHOLDER@, stamp)
}

impl FileMessageAdapter {
    pub fn new(message_file_path: &str) -> (r: FileMessageAdapter)
        ensures
            r.message_file_path@ == message_file_path@,
    {
        FileMessageAdapter { message_file_path: message_file_path.to_string() }
    }

    /// The template written to the message file when there is none yet.
    pub fn get_default_message(&self) -> (r: String)
        ensures
            r@ == DEFAULT_MESSAGE@,
    {
        DEFAULT_MESSAGE.to_string()
    }

    /// The check-in request.
    pub fn generate_checkin_message(&self) -> (r: String)
        ensures
            r@ == CHECKIN_MESSAGE@,
    {
        CHECKIN_MESSAGE.to_string()
    }

    /// The template to use: the file's text without surrounding white space,
    /// or the default template when there is no file.
    pub fn template(&self, file_content: Option<&str>) -> (r: String)
        ensures
            r@ == match file_content {
                Some(c) => trim(c@),
                None => DEFAULT_MESSAGE@,
            },
    {
        match file_content {
            Some(c) => trim_text(c),
            None => self.get_default_message(),
        }
    }

    /// The emergency message: every placeholder in `template` replaced by `stamp`.
    pub fn render_last_signal_message(&self, template: &str, stamp: &str) -> (r: String)
        ensures
            r@ == rendered(template@, stamp@),
    {
        proof {
            reveal_strlit("{timestamp}");
        }
        replace_text(template, TIMESTAMP_PLACEHOLDER, stamp)
    }

    /// The emergency message sent at `now`.
    pub fn generate_last_signal_message(&self, template: &str, now: Timestamp) -> (r: String)
        requires
            now.renderable(),
        ensures
            r@ == rendered(template@, utc_text(now.micros as int)),
    {
        let stamp = now.to_utc_text();
        self.render_last_signal_message(template, stamp.as_str())
    }
}

pub struct MessageAdapterFactory;

impl MessageAdapterFactory {
    /// The adapter of type `adapter_type`; only `file` is known.
    pub fn create_adapter(adapter_type: &str, message_file_path: &str) -> (r: Result<
        FileMessageAdapter,
        MessageError,
    >)
        ensures
            match r {
                Ok(a) => adapter_type@ == "file"@ && a.message_file_path@ == message_file_path@,
                Err(MessageError::UnknownAdapterType(t)) => adapter_type@ != "file"@ && t@
                    == adapter_type@,
            },
    {
        if text_eq(adapter_type, "file") {
            Ok(FileMessageAdapter::new(message_file_path))
        } else {
            Err(MessageError::UnknownAdapterType(adapter_type.to_string()))
        }
    }
}

} // verus!
