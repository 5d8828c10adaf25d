//! Error classification for the FFI layer: the numeric status codes handed
//! across the C boundary, and the conversion of this client's errors into
//! the error object the boundary exposes.

use vstd::prelude::*;
use vstd::string::*;

verus! {

/// The numeric status type exposed across the FFI boundary.
pub type ArtiStatus = u32;

/// View of the FFI status as an enumeration, so it can be treated
/// exhaustively; only its numeric code crosses the boundary.
#[derive(Debug, Clone, Copy, PartialEq, Eq, Structural)]
pub enum FfiStatus {
    /// The function has returned successfully.
    Success,
    /// One or more of the inputs to the function was invalid.
    InvalidInput,
    /// Tried to use some functionality that is not available on this
    /// platform or build.
    NotSupported,
    /// Tried to connect to Arti, but an IO error occurred.
    ConnectIo,
    /// We tried to authenticate with Arti, but it rejected our attempt.
    BadAuth,
    /// Our peer has, in some way, violated the RPC protocol.
    PeerProtocolViolation,
    /// The peer has closed our connection, possibly because it is shutting
    /// down.
    Shutdown,
    /// An internal error occurred in the RPC client.
    Internal,
    /// The peer reports that one of our requests has failed.
    RequestFailed,
    /// Tried to check the status of a request and found that it was no
    /// longer running.
    RequestCancelled,
}

/// The numeric code of each status.
pub open spec fn status_code_spec(status: FfiStatus) -> ArtiStatus {
    match status {
        FfiStatus::Success => 0,
        FfiStatus::InvalidInput => 1,
        FfiStatus::NotSupported => 2,
        FfiStatus::ConnectIo => 3,
        FfiStatus::BadAuth => 4,
        FfiStatus::PeerProtocolViolation => 5,
        FfiStatus::Shutdown => 6,
        FfiStatus::Internal => 7,
        FfiStatus::RequestFailed => 8,
        FfiStatus::RequestCancelled => 9,
    }
}

/// Return the numeric code of `status`.
pub fn status_code(status: FfiStatus) -> (r: ArtiStatus)
    ensures
        r == status_code_spec(status),
{
    match status {
        FfiStatus::Success => 0,
        FfiStatus::InvalidInput => 1,
        FfiStatus::NotSupported => 2,
        FfiStatus::ConnectIo => 3,
        FfiStatus::BadAuth => 4,
        FfiStatus::PeerProtocolViolation => 5,
        FfiStatus::Shutdown => 6,
        FfiStatus::Internal => 7,
        FfiStatus::RequestFailed => 8,
        FfiStatus::RequestCancelled => 9,
    }
}

/// The text describing each status code; codes outside the enumeration get
/// a fixed fallback.
pub open spec fn status_message_spec(status: ArtiStatus) -> Seq<char> {
    if status == 0 {
        "Success"@
    } else if status == 1 {
        "Invalid input"@
    } else if status == 2 {
        "Not supported"@
    } else if status == 3 {
        "An IO error ocurred while connecting to Arti"@
    } else if status == 4 {
        "Authenticationrejected"@
    } else if status == 5 {
        "Peer violated he RPC protocol"@
    } else if status == 6 {
        "Peer has shut own"@
    } else if status == 7 {
        "Internal error possible bug?"@
    } else if status == 8 {
        "Request has failed"@
    } else if status == 9 {
        "Request was cancelled"@
    } else {
        "(unrecognized status)"@
    }
}

/// Return a string representing the meaning of a given status code. The
/// result is meaningful even if the status is unrecognized.
pub fn arti_status_to_str(status: ArtiStatus) -> (r: &'static str)
    ensures
        r@ == status_message_spec(status),
{
    if status == 0 {
        "Success"
    } else if status == 1 {
        "Invalid input"
    } else if status == 2 {
        "Not supported"
    } else if status == 3 {
        "An IO error ocurred while connecting to Arti"
    } else if status == 4 {
        "Authenticationrejected"
    } else if status == 5 {
        "Peer violated he RPC protocol"
    } else if status == 6 {
        "Peer has shut own"
    } else if status == 7 {
        "Internal error possible bug?"
    } else if status == 8 {
        "Request has failed"
    } else if status == 9 {
        "Request was cancelled"
    } else {
        "(unrecognized status)"
    }
}

/// A JSON-formatted error response from the RPC peer, kept as text.
pub struct ErrorResponse(String);

impl View for ErrorResponse {
    type V = Seq<char>;

    closed spec fn view(&self) -> Seq<char> {
        self.0@
    }
}

impl ErrorResponse {
    /// Wrap a response message received from the peer.
    pub fn new(text: String) -> (r: Self)
        ensures
            r@ == text@,
    {
        Self(text)
    }

    /// The text of this response.
    pub fn as_str(&self) -> (r: &str)
        ensures
            r@ == self@,
    {
        self.0.as_str()
    }
}

/// Convenience trait for errors that convert into an [`FfiError`]: each
/// maps to a status, a message, and possibly a peer response.
pub trait IntoFfiError: Sized {
    /// The status this error maps to.
    spec fn spec_status(&self) -> FfiStatus;

    /// The message text of this error.
    spec fn spec_message(&self) -> Seq<char>;

    /// The peer response this error carries, if any.
    spec fn spec_error_response(&self) -> Option<Seq<char>>;

    /// Return the status.
    fn status(&self) -> (r: FfiStatus)
        ensures
            r == self.spec_status(),
    ;

    /// Return a message for this error.
    fn message(&self) -> (r: String)
        ensures
            r@ == self.spec_message(),
    ;

    /// Consume this error and return the peer response it represents.
    fn into_error_response(self) -> (r: Option<ErrorResponse>)
        ensures
            match r {
                Some(e) => self.spec_error_response() == Some(e@),
                None => self.spec_error_response() is None,
            },
    ;
}

/// Tried to call an FFI function with a not-permitted null pointer
/// argument.
pub struct NullPointer;

impl IntoFfiError for NullPointer {
    open spec fn spec_status(&self) -> FfiStatus {
        FfiStatus::InvalidInput
    }

    open spec fn spec_message(&self) -> Seq<char> {
        "One of the arguments was NULL"@
    }

    open spec fn spec_error_response(&self) -> Option<Seq<char>> {
        None
    }

    fn status(&self) -> FfiStatus {
        FfiStatus::InvalidInput
    }

    fn message(&self) -> String {
        String::from_str("One of the arguments was NULL")
    }

    fn into_error_response(self) -> Option<ErrorResponse> {
        None
    }
}

/// An error occurring while opening a connection to Arti.
pub enum ProtoError {
    /// The peer is shutting down.
    Shutdown(String),
    /// Our request was invalid.
    InvalidRequest(String),
    /// The chosen request id was already in use.
    RequestIdInUse,
    /// The request was cancelled.
    RequestCancelled,
    /// Waited for the same request twice.
    DuplicateWait,
    /// A request could not be encoded.
    CouldNotEncode(String),
}

impl IntoFfiError for ProtoError {
    open spec fn spec_status(&self) -> FfiStatus {
        match self {
            ProtoError::Shutdown(_) => FfiStatus::Shutdown,
            ProtoError::InvalidRequest(_) => FfiStatus::InvalidInput,
            ProtoError::RequestIdInUse => FfiStatus::InvalidInput,
            ProtoError::RequestCancelled => FfiStatus::RequestCancelled,
            ProtoError::DuplicateWait => FfiStatus::Internal,
            ProtoError::CouldNotEncode(_) => FfiStatus::Internal,
        }
    }

    open spec fn spec_message(&self) -> Seq<char> {
        "protocol error"@
    }

    open spec fn spec_error_response(&self) -> Option<Seq<char>> {
        None
    }

    fn status(&self) -> FfiStatus {
        match self {
            ProtoError::Shutdown(_) => FfiStatus::Shutdown,
            ProtoError::InvalidRequest(_) => FfiStatus::InvalidInput,
            ProtoError::RequestIdInUse => FfiStatus::InvalidInput,
            ProtoError::RequestCancelled => FfiStatus::RequestCancelled,
            ProtoError::DuplicateWait => FfiStatus::Internal,
            ProtoError::CouldNotEncode(_) => FfiStatus::Internal,
        }
    }

    fn message(&self) -> String {
        String::from_str("protocol error")
    }

    fn into_error_response(self) -> Option<ErrorResponse> {
        None
    }
}

/// An error while connecting to Arti.
pub enum ConnectError {
    /// The connection scheme was not supported.
    SchemeNotSupported,
    /// An IO error occurred while connecting.
    CannotConnect(String),
    /// The peer rejected our authentication, with its response.
    AuthenticationRejected(ErrorResponse),
    /// The peer sent a message we could not understand.
    BadMessage(String),
    /// A protocol error occurred on the new connection.
    ProtoError(ProtoError),
}

impl IntoFfiError for ConnectError {
    open spec fn spec_status(&self) -> FfiStatus {
        match self {
            ConnectError::SchemeNotSupported => FfiStatus::NotSupported,
            ConnectError::CannotConnect(_) => FfiStatus::ConnectIo,
            ConnectError::AuthenticationRejected(_) => FfiStatus::BadAuth,
            ConnectError::BadMessage(_) => FfiStatus::PeerProtocolViolation,
            ConnectError::ProtoError(e) => e.spec_status(),
        }
    }

    open spec fn spec_message(&self) -> Seq<char> {
        "connect error"@
    }

    open spec fn spec_error_response(&self) -> Option<Seq<char>> {
        match self {
            ConnectError::AuthenticationRejected(msg) => Some(msg@),
            _ => None,
        }
    }

    fn status(&self) -> FfiStatus {
        match self {
            ConnectError::SchemeNotSupported => FfiStatus::NotSupported,
            ConnectError::CannotConnect(_) => FfiStatus::ConnectIo,
            ConnectError::AuthenticationRejected(_) => FfiStatus::BadAuth,
            ConnectError::BadMessage(_) => FfiStatus::PeerProtocolViolation,
            ConnectError::ProtoError(e) => e.status(),
        }
    }

    fn message(&self) -> String {
        String::from_str("connect error")
    }

    fn into_error_response(self) -> Option<ErrorResponse> {
        match self {
            ConnectError::AuthenticationRejected(msg) => Some(msg),
            _ => None,
        }
    }
}

/// An error while building a connection description.
pub enum BuilderError {
    /// The connect string was invalid.
    InvalidConnectString,
}

impl IntoFfiError for BuilderError {
    open spec fn spec_status(&self) -> FfiStatus {
        FfiStatus::InvalidInput
    }

    open spec fn spec_message(&self) -> Seq<char> {
        "Invalid connect string"@
    }

    open spec fn spec_error_response(&self) -> Option<Seq<char>> {
        None
    }

    fn status(&self) -> FfiStatus {
        FfiStatus::InvalidInput
    }

    fn message(&self) -> String {
        String::from_str("Invalid connect string")
    }

    fn into_error_response(self) -> Option<ErrorResponse> {
        None
    }
}

impl IntoFfiError for ErrorResponse {
    open spec fn spec_status(&self) -> FfiStatus {
        FfiStatus::RequestFailed
    }

    open spec fn spec_message(&self) -> Seq<char> {
        "Request has failed"@
    }

    open spec fn spec_error_response(&self) -> Option<Seq<char>> {
        Some(self@)
    }

    fn status(&self) -> FfiStatus {
        FfiStatus::RequestFailed
    }

    fn message(&self) -> String {
        String::from_str("Request has failed")
    }

    fn into_error_response(self) -> Option<ErrorResponse> {
        Some(self)
    }
}

/// An error as exposed by the FFI boundary: a numeric status, a
/// human-readable message, and — when the error stems from a response sent
/// by the RPC peer — that response, as JSON text.
pub struct FfiError {
    /// The status of this error.
    status: ArtiStatus,
    /// A human-readable message describing this error.
    message: String,
    /// If present, the JSON-formatted message from our peer that this error
    /// represents.
    error_response: Option<ErrorResponse>,
}

impl FfiError {
    /// The numeric status of this error.
    pub closed spec fn spec_status(&self) -> ArtiStatus {
        self.status
    }

    /// The message this error carries.
    pub closed spec fn spec_message(&self) -> Seq<char> {
        self.message@
    }

    /// The peer response this error carries, if any.
    pub closed spec fn spec_error_response(&self) -> Option<Seq<char>> {
        match self.error_response {
            Some(ref e) => Some(e@),
            None => None,
        }
    }

    /// Convert any error that classifies itself into the FFI error object:
    /// the numeric form of its status, its message, and the peer response
    /// it represents, if any.
    pub fn from_error<T: IntoFfiError>(value: T) -> (r: FfiError)
        ensures
            r.spec_status() == status_code_spec(value.spec_status()),
            r.spec_message() == value.spec_message(),
            r.spec_error_response() == value.spec_error_response(),
    {
        let status = status_code(value.status());
        let message = value.message();
        let error_response = value.into_error_response();
        Self { status, message, error_response }
    }

    /// The numeric status of this error.
    pub fn status(&self) -> (r: ArtiStatus)
        ensures
            r == self.spec_status(),
    {
        self.status
    }

    /// The message of this error, as text.
    pub fn message(&self) -> (r: &str)
        ensures
            r@ == self.spec_message(),
    {
        self.message.as_str()
    }

    /// The response from the RPC peer that this error represents, if any.
    pub fn error_response(&self) -> (r: Option<&ErrorResponse>)
        ensures
            match r {
                Some(e) => self.spec_error_response() == Some(e@),
                None => self.spec_error_response() is None,
            },
    {
        match &self.error_response {
            Some(e) => Some(e),
            None => None,
        }
    }
}

} // verus!
