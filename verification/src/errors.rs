use vstd::prelude::*;
use vstd::string::StringExecFns;
use crate::digits::{dec_of, u16_dec};

verus! {

/// The failure kinds of the pipeline, one per stage that can go wrong.
/// The run stops at the first of them; there is no retry anywhere.
#[derive(Debug)]
pub enum UploadError {
    /// Standard input could not be read.
    Io(String),
    /// The confirmation dialog could not be shown.
    Dialog(String),
    /// The image bytes match no known file signature.
    Recognition,
    /// The endpoint is missing from the environment or is not a valid URL.
    Config(String),
    /// The upload response had a non-success HTTP status.
    Status(u16),
    /// The upload request failed in transport.
    Network(String),
    /// The response body is not well-formed JSON.
    Parse(String),
    /// The response JSON has no string field `id`.
    MissingField,
    /// A desktop notification could not be shown.
    Notification(String),
    /// The clipboard could not be written.
    Clipboard(String),
}

/// The textual description of an error, as surfaced to the user in the
/// failure notification.
pub open spec fn message_of(e: UploadError) -> Seq<char> {
    match e {
        UploadError::Io(m) => m@,
        UploadError::Dialog(m) => m@,
        UploadError::Recognition => "Couldn't recognize file type"@,
        UploadError::Config(m) => m@,
        UploadError::Status(s) => "upload failed with HTTP status "@ + dec_of(s as nat),
        UploadError::Network(m) => m@,
        UploadError::Parse(m) => m@,
        UploadError::MissingField => "Couldn't find id in server response"@,
        UploadError::Notification(m) => m@,
        UploadError::Clipboard(m) => m@,
    }
}

impl UploadError {
    /// The error's textual description.
    pub fn message(&self) -> (m: String)
        ensures
            m@ == message_of(*self),
    {
        match self {
            UploadError::Io(m) => m.clone(),
            UploadError::Dialog(m) => m.clone(),
            UploadError::Recognition => String::from_str("Couldn't recognize file type"),
            UploadError::Config(m) => m.clone(),
            UploadError::Status(s) => {
                let mut t = String::from_str("upload failed with HTTP status ");
                let digits = u16_dec(*s);
                t.append(digits.as_str());
                t
            },
            UploadError::Network(m) => m.clone(),
            UploadError::Parse(m) => m.clone(),
            UploadError::MissingField => String::from_str("Couldn't find id in server response"),
            UploadError::Notification(m) => m.clone(),
            UploadError::Clipboard(m) => m.clone(),
        }
    }
}

} // verus!
