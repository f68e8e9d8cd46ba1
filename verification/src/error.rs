//! What can stop a run before rsync is started.

use vstd::prelude::*;

verus! {

/// A fault in the setup of the run. None of them is worth a second try.
#[derive(Clone, Copy, Debug, PartialEq, Eq, Structural)]
pub enum SetupError {
    /// The user's home directory is unknown, or its path is no valid text.
    HomeDirectoryUnknown,
    /// The path helper wrote bytes that are no valid UTF-8.
    HelperOutputNotText,
}

impl SetupError {
    /// The message for the user.
    pub fn message(&self) -> (text: String)
        ensures
            text@ == match *self {
                SetupError::HomeDirectoryUnknown => "get home dir failed"@,
                SetupError::HelperOutputNotText => "convert path failed: not a valid utf8 sequence"@,
            },
    {
        match self {
            SetupError::HomeDirectoryUnknown => "get home dir failed".to_owned(),
            SetupError::HelperOutputNotText => {
                "convert path failed: not a valid utf8 sequence".to_owned()
            },
        }
    }
}

} // verus!
