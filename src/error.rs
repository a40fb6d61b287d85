use vstd::prelude::*;

verus! {

/// No error: used when closing a connection that has nothing left to do.
pub const H3_NO_ERROR: u64 = 0x100;

/// An internal failure of this side.
pub const H3_INTERNAL_ERROR: u64 = 0x102;

/// A frame was received that is not permitted in the current state or on the stream.
pub const H3_FRAME_UNEXPECTED: u64 = 0x105;

/// A frame does not satisfy its layout requirements.
pub const H3_FRAME_ERROR: u64 = 0x106;

/// An identifier was used incorrectly, such as a shutdown boundary that grows.
pub const H3_ID_ERROR: u64 = 0x108;

/// A settings payload is invalid, or a required setting is missing.
pub const H3_SETTINGS_ERROR: u64 = 0x109;

/// A request stream was rejected without any application processing.
pub const H3_REQUEST_REJECTED: u64 = 0x10b;

/// A request stream ended before a complete request was received.
pub const H3_REQUEST_INCOMPLETE: u64 = 0x10d;

/// A request or response is malformed.
pub const H3_MESSAGE_ERROR: u64 = 0x10e;

/// How far the damage of an error reaches.
#[derive(Clone, Copy, Debug, PartialEq, Eq, Structural)]
pub enum ErrorLevel {
    /// The whole connection is closed.
    ConnectionError,
    /// Only the offending stream is stopped; the connection goes on.
    StreamError,
}

/// An error of the HTTP/3 layer.
#[derive(Clone, Debug)]
pub enum Error {
    /// A protocol error, with its wire code and a human-readable reason.
    Application { code: u64, reason: String, level: ErrorLevel },
    /// A header block is larger than the configured maximum.
    HeaderTooBig { actual_size: u64, max_size: u64 },
    /// The connection was already closed.
    Closed,
}

/// An error with its reason left out.
pub enum ErrorModel {
    Application { code: u64, level: ErrorLevel },
    HeaderTooBig { actual_size: u64, max_size: u64 },
    Closed,
}

impl View for Error {
    type V = ErrorModel;

    open spec fn view(&self) -> ErrorModel {
        match self {
            Error::Application { code, level, .. } => ErrorModel::Application {
                code: *code,
                level: *level,
            },
            Error::HeaderTooBig { actual_size, max_size } => ErrorModel::HeaderTooBig {
                actual_size: *actual_size,
                max_size: *max_size,
            },
            Error::Closed => ErrorModel::Closed,
        }
    }
}

impl Error {
    pub open spec fn spec_level(&self) -> ErrorLevel {
        match self {
            Error::Application { level, .. } => *level,
            Error::HeaderTooBig { .. } => ErrorLevel::StreamError,
            Error::Closed => ErrorLevel::ConnectionError,
        }
    }

    /// Builds a protocol error of the given code, reason and level.
    pub fn application(code: u64, reason: &str, level: ErrorLevel) -> (r: Error)
        ensures
            r matches Error::Application { code: c, reason: s, level: l } && c == code && s@
                == reason@ && l == level,
    {
        Error::Application { code, reason: reason.to_owned(), level }
    }

    /// Builds the error for a header block of `actual_size` bytes over a limit of `max_size`.
    pub fn header_too_big(actual_size: u64, max_size: u64) -> (r: Error)
        ensures
            r == (Error::HeaderTooBig { actual_size, max_size }),
    {
        Error::HeaderTooBig { actual_size, max_size }
    }

    /// Whether the error ends the connection or only one stream.
    pub fn get_error_level(&self) -> (r: ErrorLevel)
        ensures
            r == self.spec_level(),
    {
        match self {
            Error::Application { level, .. } => *level,
            Error::HeaderTooBig { .. } => ErrorLevel::StreamError,
            Error::Closed => ErrorLevel::ConnectionError,
        }
    }

    /// Whether the error reports a connection that had already ended.
    pub fn is_closed(&self) -> (r: bool)
        ensures
            r == (*self is Closed),
    {
        matches!(self, Error::Closed)
    }

    /// The wire code of a protocol error.
    pub fn try_get_code(&self) -> (r: Option<u64>)
        ensures
            match self {
                Error::Application { code, .. } => r == Some(*code),
                _ => r is None,
            },
    {
        match self {
            Error::Application { code, .. } => Some(*code),
            _ => None,
        }
    }
}

} // verus!
