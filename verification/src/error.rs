//! The one error type of the bootstrap.

use std::fmt::Display;
use vstd::prelude::*;
use vstd::string::to_string_from_display_ensures;

verus! {

/// Why the bootstrap stopped. Every failure ends the bootstrap at once;
/// nothing is retried.
#[derive(Clone, Debug, PartialEq, Eq)]
pub enum BootstrapError {
    /// A step outside this crate failed (layer enumeration, instance, window,
    /// surface, logical device or image creation). The payload is the text
    /// that the failure displays.
    Other(String),
    /// No enumerated device meets the selection requirements.
    NoSuitableDevice,
    /// The selected device has no queue family that can both draw and present.
    NoQueueFamily,
}

impl BootstrapError {
    /// The human-readable message that the error carries.
    pub open spec fn message_text(&self) -> Seq<char> {
        match self {
            BootstrapError::Other(text) => text@,
            BootstrapError::NoSuitableDevice => "no suitable device found"@,
            BootstrapError::NoQueueFamily => "no queue family found"@,
        }
    }

    /// Returns the human-readable message of the error.
    pub fn message(&self) -> (text: String)
        ensures
            text@ == self.message_text(),
    {
        match self {
            BootstrapError::Other(text) => text.clone(),
            BootstrapError::NoSuitableDevice => "no suitable device found".to_owned(),
            BootstrapError::NoQueueFamily => "no queue family found".to_owned(),
        }
    }
}

/// Folds any displayable failure into the bootstrap's error type, keeping
/// exactly the text that the failure displays.
pub fn normalize_error<E: Display>(error: E) -> (normalized: BootstrapError)
    ensures
        normalized matches BootstrapError::Other(text) && to_string_from_display_ensures::<E>(
            &error,
            text,
        ),
{
    BootstrapError::Other(error.to_string())
}

} // verus!
