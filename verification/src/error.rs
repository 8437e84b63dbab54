//! The error kinds of window operations and their human-readable text.

use vstd::prelude::*;
use vstd::string::*;

verus! {

/// Why a window operation did not succeed.
#[derive(Clone, Debug, PartialEq, Eq)]
pub enum WindowError {
    /// The platform refused to create a window; the payload is its reason.
    CreationFailed(String),
    /// A window was registered but could not be brought to the front.
    FocusFailed(String),
    /// Click-through regions were sent to a window that does not take them.
    InvalidTarget,
    /// A rectangle has a width or a height of zero.
    InvalidRegion,
}

impl WindowError {
    /// The text that callers on the string-typed error channel receive.
    pub open spec fn spec_message(self) -> Seq<char> {
        match self {
            WindowError::CreationFailed(reason) => "Failed to create window: "@ + reason@,
            WindowError::FocusFailed(reason) => "Failed to focus window: "@ + reason@,
            WindowError::InvalidTarget => "Window does not support click-through regions"@,
            WindowError::InvalidRegion => "Region width and height must be positive"@,
        }
    }

    /// Renders the error as text.
    pub fn message(&self) -> (text: String)
        ensures
            text@ == self.spec_message(),
    {
        match self {
            WindowError::CreationFailed(reason) => {
                let mut text = String::from_str("Failed to create window: ");
                text.append(reason.as_str());
                text
            },
            WindowError::FocusFailed(reason) => {
                let mut text = String::from_str("Failed to focus window: ");
                text.append(reason.as_str());
                text
            },
            WindowError::InvalidTarget => String::from_str(
                "Window does not support click-through regions",
            ),
            WindowError::InvalidRegion => String::from_str(
                "Region width and height must be positive",
            ),
        }
    }
}

} // verus!
