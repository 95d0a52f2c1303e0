//! The error type shared by the configuration store and the command
//! pipeline, with plain-data payloads and an exactly specified message for
//! each variant.

use vstd::prelude::*;
use vstd::string::*;

use crate::text::{spec_i32_dec, i32_dec_chars, chars_to_string};

verus! {

/// Everything that can go wrong in the plugin.
///
/// Payloads are plain values; the host maps its own error types into these
/// at the boundary.
#[derive(Debug, PartialEq, Eq)]
pub enum AichatError {
    /// An editor API call failed; the payload is the host's message.
    NvimApi(String),
    /// The external process could not be spawned.
    SpawnFailed(String),
    /// Writing the input to the external process's standard input failed.
    StdinWriteFailed(String),
    /// The external process exited with a non-zero status. `status_code`
    /// is its exit code, or `None` when it was ended by a signal;
    /// `stderr` is everything it wrote to standard error.
    CommandFailed { status_code: Option<i32>, stderr: String },
    /// A configuration operation failed.
    Config(String),
    /// An option category that does not exist was named.
    InvalidOptionType(String),
    /// A value this operation needs was not supplied.
    MissingValue(String),
    /// The tool's output holds no fenced code block.
    NoCodeBlock,
    /// The buffer selection holds no lines.
    NoLines,
    /// Bytes that were expected to be UTF-8 were not.
    Utf8Conversion(String),
    /// A string conversion failed.
    StringConversion(String),
    /// Any other application fault.
    Application(String),
}

/// The user-facing message of an error, one rendering per variant.
pub open spec fn message_spec(e: AichatError) -> Seq<char> {
    match e {
        AichatError::NvimApi(s) => "Neovim API error: "@ + s@,
        AichatError::SpawnFailed(s) => "Failed to spawn aichat command: "@ + s@,
        AichatError::StdinWriteFailed(s) => "Failed to write to aichat stdin: "@ + s@,
        AichatError::CommandFailed { status_code, stderr } => "Aichat command failed with exit status: "@
            + status_part_spec(status_code) + ". stderr: "@ + stderr@,
        AichatError::Config(s) => "Configuration error: "@ + s@,
        AichatError::InvalidOptionType(s) => "Invalid option type: "@ + s@,
        AichatError::MissingValue(s) => "Missing required value: "@ + s@,
        AichatError::NoCodeBlock => "No code block found in aichat output"@,
        AichatError::NoLines => "No lines found in the current buffer selection"@,
        AichatError::Utf8Conversion(s) => "UTF-8 conversion error: "@ + s@,
        AichatError::StringConversion(s) => "String conversion error: "@ + s@,
        AichatError::Application(s) => "Application error: "@ + s@,
    }
}

/// How an exit status reads: its code in decimal, or a note that a signal
/// ended the process.
pub open spec fn status_part_spec(status_code: Option<i32>) -> Seq<char> {
    match status_code {
        Some(c) => spec_i32_dec(c as int),
        None => "terminated by signal"@,
    }
}

impl AichatError {
    /// Creates a configuration error.
    pub fn config(msg: &str) -> (e: AichatError)
        ensures
            e matches AichatError::Config(m) && m@ == msg@,
    {
        AichatError::Config(msg.to_owned())
    }

    /// Creates an invalid-option-type error naming the category.
    pub fn invalid_option_type(option_type: &str) -> (e: AichatError)
        ensures
            e matches AichatError::InvalidOptionType(m) && m@ == option_type@,
    {
        AichatError::InvalidOptionType(option_type.to_owned())
    }

    /// Creates a missing-value error with a description.
    pub fn missing_value(description: &str) -> (e: AichatError)
        ensures
            e matches AichatError::MissingValue(m) && m@ == description@,
    {
        AichatError::MissingValue(description.to_owned())
    }

    /// Creates a generic application error.
    pub fn application(msg: &str) -> (e: AichatError)
        ensures
            e matches AichatError::Application(m) && m@ == msg@,
    {
        AichatError::Application(msg.to_owned())
    }

    /// Creates a non-zero-exit error from what the process left behind.
    pub fn command_failed(status_code: Option<i32>, stderr: String) -> (e: AichatError)
        ensures
            e == (AichatError::CommandFailed { status_code, stderr }),
    {
        AichatError::CommandFailed { status_code, stderr }
    }

    /// Creates a string conversion error.
    pub fn string_conversion(msg: &str) -> (e: AichatError)
        ensures
            e matches AichatError::StringConversion(m) && m@ == msg@,
    {
        AichatError::StringConversion(msg.to_owned())
    }

    /// The user-facing message for this error, ready for the notification
    /// channel.
    pub fn message(&self) -> (m: String)
        ensures
            m@ == message_spec(*self),
    {
        match self {
            AichatError::NvimApi(s) => concat_str("Neovim API error: ", s.as_str()),
            AichatError::SpawnFailed(s) => concat_str("Failed to spawn aichat command: ", s.as_str()),
            AichatError::StdinWriteFailed(s) => concat_str(
                "Failed to write to aichat stdin: ",
                s.as_str(),
            ),
            AichatError::CommandFailed { status_code, stderr } => {
                let mut m = String::from_str("Aichat command failed with exit status: ");
                match status_code {
                    Some(c) => {
                        let digits = i32_dec_chars(*c);
                        let digits_str = chars_to_string(&digits);
                        m.append(digits_str.as_str());
                    },
                    None => {
                        m.append("terminated by signal");
                    },
                }
                m.append(". stderr: ");
                m.append(stderr.as_str());
                assert(m@ =~= message_spec(*self));
                m
            },
            AichatError::Config(s) => concat_str("Configuration error: ", s.as_str()),
            AichatError::InvalidOptionType(s) => concat_str("Invalid option type: ", s.as_str()),
            AichatError::MissingValue(s) => concat_str("Missing required value: ", s.as_str()),
            AichatError::NoCodeBlock => String::from_str("No code block found in aichat output"),
            AichatError::NoLines => String::from_str(
                "No lines found in the current buffer selection",
            ),
            AichatError::Utf8Conversion(s) => concat_str("UTF-8 conversion error: ", s.as_str()),
            AichatError::StringConversion(s) => concat_str("String conversion error: ", s.as_str()),
            AichatError::Application(s) => concat_str("Application error: ", s.as_str()),
        }
    }
}

/// The concatenation of two string slices.
fn concat_str(a: &str, b: &str) -> (r: String)
    ensures
        r@ == a@ + b@,
{
    let mut r = String::from_str(a);
    r.append(b);
    r
}

} // verus!
