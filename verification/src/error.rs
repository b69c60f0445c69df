//! Error taxonomy for the command surface.
//!
//! Every error reaches the UI as a human-readable string; `message` renders
//! one.  Context carried by a variant (an API name, a path, a coordinate) is
//! already a plain string when the variant is built.

use vstd::prelude::*;

verus! {

/// What can go wrong while serving a command.
#[derive(Debug, Clone, PartialEq, Eq)]
pub enum HudError {
    /// No monitor could be resolved for the caller.
    NoMonitor,
    /// A monitor index was given but no monitor has it.
    MonitorIndexOutOfRange,
    /// The per-user configuration directory could not be found.
    ConfigDirUnavailable,
    /// A file operation failed; the payload is the OS message.
    Io(String),
    /// The operation exists only on one platform; the payload names it.
    PlatformUnsupported(String),
    /// A native call failed; the payloads are the API name and context.
    NativeCallFailed(String, String),
    /// The clipboard could not be opened.
    ClipboardBusy,
    /// A memory block could not be allocated, or a size left the
    /// representable range.
    AllocationFailed,
    /// An image could not be decoded; the payload is the codec message.
    ImageDecodeFailed(String),
    /// The command is recognised but not implemented.
    NotImplemented,
}

impl HudError {
    /// The user-presentable rendering of this error.
    pub open spec fn spec_message(self) -> Seq<char> {
        match self {
            HudError::NoMonitor => "No monitor found"@,
            HudError::MonitorIndexOutOfRange => "Monitor index out of range"@,
            HudError::ConfigDirUnavailable => "Failed to get config directory"@,
            HudError::Io(s) => "IO error: "@ + s@,
            HudError::PlatformUnsupported(s) => "Only supported on: "@ + s@,
            HudError::NativeCallFailed(api, ctx) => api@ + " failed: "@ + ctx@,
            HudError::ClipboardBusy => "Failed to open clipboard"@,
            HudError::AllocationFailed => "Failed to allocate memory"@,
            HudError::ImageDecodeFailed(s) => "Failed to open image: "@ + s@,
            HudError::NotImplemented => "Not implemented"@,
        }
    }

    /// Render the error as the string handed to the UI.
    pub fn message(&self) -> (r: String)
        ensures
            r@ == self.spec_message(),
    {
        match self {
            HudError::NoMonitor => "No monitor found".to_owned(),
            HudError::MonitorIndexOutOfRange => "Monitor index out of range".to_owned(),
            HudError::ConfigDirUnavailable => "Failed to get config directory".to_owned(),
            HudError::Io(s) => {
                let mut r = "IO error: ".to_owned();
                r.append(s.as_str());
                r
            },
            HudError::PlatformUnsupported(s) => {
                let mut r = "Only supported on: ".to_owned();
                r.append(s.as_str());
                r
            },
            HudError::NativeCallFailed(api, ctx) => {
                let mut r = api.clone();
                r.append(" failed: ");
                r.append(ctx.as_str());
                r
            },
            HudError::ClipboardBusy => "Failed to open clipboard".to_owned(),
            HudError::AllocationFailed => "Failed to allocate memory".to_owned(),
            HudError::ImageDecodeFailed(s) => {
                let mut r = "Failed to open image: ".to_owned();
                r.append(s.as_str());
                r
            },
            HudError::NotImplemented => "Not implemented".to_owned(),
        }
    }
}

} // verus!
