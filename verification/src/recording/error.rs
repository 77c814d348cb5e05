//! Errors of the recording subsystem.

use vstd::prelude::*;
use vstd::string::*;

verus! {

pub enum RecordingError {
    CodecNotFound(String),
}

impl RecordingError {
    /// The diagnostic line printed for this error.
    pub fn message(&self) -> (r: String)
        ensures
            self matches RecordingError::CodecNotFound(codec) ==> r@ == "Codec not found: "@
                + codec@,
    {
        match self {
            RecordingError::CodecNotFound(codec) => {
                let mut m = ("Codec not found: ").to_owned();
                m.append(codec.as_str());
                m
            },
        }
    }
}

} // verus!
