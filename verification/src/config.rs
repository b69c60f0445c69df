//! The configuration store's logic: the well-known per-user location and
//! the default contents.  The store is an opaque text blob; reading and
//! writing the file is the platform layer's job.

use vstd::prelude::*;

verus! {

/// What can go wrong reading or writing the configuration file.
#[derive(Debug, Clone, PartialEq, Eq)]
pub enum ConfigError {
    /// The per-user configuration directory could not be found.
    NoConfigDir,
    /// A file operation failed; the payload is the OS message.
    Io(String),
}

impl ConfigError {
    /// The user-presentable rendering of this error.
    pub open spec fn spec_message(self) -> Seq<char> {
        match self {
            ConfigError::NoConfigDir => "Failed to get config directory"@,
            ConfigError::Io(s) => "IO error: "@ + s@,
        }
    }

    /// Render the error as the string handed to the UI.
    pub fn message(&self) -> (r: String)
        ensures
            r@ == self.spec_message(),
    {
        match self {
            ConfigError::NoConfigDir => "Failed to get config directory".to_owned(),
            ConfigError::Io(s) => {
                let mut r = "IO error: ".to_owned();
                r.append(s.as_str());
                r
            },
        }
    }
}

/// The application directory under the per-user configuration directory.
pub fn config_dir_name() -> (r: &'static str)
    ensures
        r@ == "quanthub"@,
{
    "quanthub"
}

/// The configuration file's name inside the application directory.
pub fn config_file_name() -> (r: &'static str)
    ensures
        r@ == "config.json"@,
{
    "config.json"
}

/// The configuration text to hand to the UI, given the file contents (or
/// `None` when the file does not exist): an absent file reads as the empty
/// JSON object.
pub fn config_text_or_default(contents: Option<String>) -> (r: String)
    ensures
        match contents {
            Some(text) => r == text,
            None => r@ == "{}"@,
        },
{
    match contents {
        Some(text) => text,
        None => "{}".to_owned(),
    }
}

} // verus!
