use vstd::prelude::*;

verus! {

/// Errors of the camera engine.
///
/// `Windows` carries an operating-system error: its numeric code and its
/// message. The other two variants carry a message of the engine's own.
#[derive(Debug)]
pub enum CameraError {
    Windows { code: i32, msg: String },
    StreamError { msg: String },
    CommonError { msg: String },
}

/// The text that prefixes the message of an operating-system error.
pub open spec fn windows_prefix() -> Seq<char> {
    seq!['W', 'i', 'n', ' ', 'E', 'r', 'r', 'o', 'r', ':', ' ']
}

/// The text that prefixes the message of a stream or common error.
pub open spec fn stream_prefix() -> Seq<char> {
    seq!['S', 't', 'r', 'e', 'a', 'm', ' ', 'E', 'r', 'r', 'o', 'r', ':', ' ']
}

impl CameraError {
    /// The message that the error carries, whatever its variant.
    pub open spec fn msg_view(&self) -> Seq<char> {
        match self {
            CameraError::Windows { msg, .. } => msg@,
            CameraError::StreamError { msg } => msg@,
            CameraError::CommonError { msg } => msg@,
        }
    }

    /// How the error reads: a prefix naming its kind, then its message.
    /// A common error reads like a stream error.
    pub open spec fn text(&self) -> Seq<char> {
        match self {
            CameraError::Windows { msg, .. } => windows_prefix() + msg@,
            CameraError::StreamError { msg } => stream_prefix() + msg@,
            CameraError::CommonError { msg } => stream_prefix() + msg@,
        }
    }

    /// The error for an operating-system failure with result code `code`
    /// and message `msg`.
    pub fn from_windows(code: i32, msg: String) -> (e: CameraError)
        ensures
            e matches CameraError::Windows { code: c, msg: m } && c == code && m@ == msg@,
    {
        CameraError::Windows { code, msg }
    }

    /// A common error with the message `msg`.
    pub fn common(msg: &str) -> (e: CameraError)
        ensures
            e is CommonError,
            e.msg_view() == msg@,
    {
        CameraError::CommonError { msg: String::from_str(msg) }
    }

    /// A stream error with the message `msg`.
    pub fn stream(msg: &str) -> (e: CameraError)
        ensures
            e is StreamError,
            e.msg_view() == msg@,
    {
        CameraError::StreamError { msg: String::from_str(msg) }
    }

    /// The error as text: its prefix followed by its message.
    pub fn to_text(&self) -> (s: String)
        ensures
            s@ == self.text(),
    {
        let (prefix, msg) = match self {
            CameraError::Windows { msg, .. } => ("Win Error: ", msg),
            CameraError::StreamError { msg } => ("Stream Error: ", msg),
            CameraError::CommonError { msg } => ("Stream Error: ", msg),
        };
        proof {
            reveal_strlit("Win Error: ");
            reveal_strlit("Stream Error: ");
        }
        String::from_str(prefix).concat(msg.as_str())
    }
}

} // verus!
