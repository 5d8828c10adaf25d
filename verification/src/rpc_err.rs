//! Error classification for RPC methods: an error type carrying a message,
//! a backward-compatible numeric code, and the kind of fault it reports.

use vstd::prelude::*;

verus! {

/// The kinds of fault an error can report, as the RPC layer distinguishes
/// them.
#[derive(Debug, Clone, Copy, PartialEq, Eq, Structural)]
pub enum ErrorKind {
    /// The request was not a valid RPC request.
    RpcInvalidRequest,
    /// The requested method does not exist.
    RpcMethodNotFound,
    /// The method exists but is not implemented on this object.
    RpcNoMethodImpl,
    /// The method parameters were invalid.
    RpcInvalidMethodParameters,
    /// The requested object was not found.
    RpcObjectNotFound,
    /// An internal problem in this program.
    Internal,
    /// The program was used incorrectly through its interface.
    BadApiUsage,
    /// A requested feature was disabled at build or run time.
    FeatureDisabled,
    /// Some other fault.
    Other,
}

/// Error codes for backward compatibility with json-rpc.
#[derive(Debug, Clone, Copy, PartialEq, Eq, Structural)]
pub enum RpcCode {
    /// "The JSON sent is not a valid Request object."
    InvalidRequest,
    /// "The method does not exist."
    MethodNotFound,
    /// "Invalid method parameter(s)."
    InvalidParams,
    /// "The server suffered some kind of internal problem."
    InternalError,
    /// "Some requested object was not valid."
    ObjectError,
    /// "Some other error occurred."
    RequestError,
    /// This method exists, but was not implemented on this object.
    NoMethodImpl,
}

/// The numeric value each code puts on the wire.
pub open spec fn code_value_spec(code: RpcCode) -> i32 {
    match code {
        RpcCode::InvalidRequest => -32600i32,
        RpcCode::MethodNotFound => -32601i32,
        RpcCode::InvalidParams => -32602i32,
        RpcCode::InternalError => -32603i32,
        RpcCode::ObjectError => 1i32,
        RpcCode::RequestError => 2i32,
        RpcCode::NoMethodImpl => 3i32,
    }
}

/// The code assigned to each error kind; kinds with no specific code fall
/// back to the catch-all request error.
pub open spec fn kind_to_code_spec(kind: ErrorKind) -> RpcCode {
    match kind {
        ErrorKind::RpcInvalidRequest => RpcCode::InvalidRequest,
        ErrorKind::RpcMethodNotFound => RpcCode::MethodNotFound,
        ErrorKind::RpcNoMethodImpl => RpcCode::NoMethodImpl,
        ErrorKind::RpcInvalidMethodParameters => RpcCode::InvalidParams,
        ErrorKind::Internal => RpcCode::InternalError,
        ErrorKind::BadApiUsage => RpcCode::InternalError,
        ErrorKind::RpcObjectNotFound => RpcCode::ObjectError,
        _ => RpcCode::RequestError,
    }
}

/// Return the numeric wire value of `code`.
pub fn code_value(code: RpcCode) -> (r: i32)
    ensures
        r == code_value_spec(code),
{
    match code {
        RpcCode::InvalidRequest => -32600,
        RpcCode::MethodNotFound => -32601,
        RpcCode::InvalidParams => -32602,
        RpcCode::InternalError => -32603,
        RpcCode::ObjectError => 1,
        RpcCode::RequestError => 2,
        RpcCode::NoMethodImpl => 3,
    }
}

/// Return an error code, for backward compatibility with json-rpc, for an
/// error kind.
pub fn kind_to_code(kind: ErrorKind) -> (r: RpcCode)
    ensures
        r == kind_to_code_spec(kind),
{
    match kind {
        ErrorKind::RpcInvalidRequest => RpcCode::InvalidRequest,
        ErrorKind::RpcMethodNotFound => RpcCode::MethodNotFound,
        ErrorKind::RpcNoMethodImpl => RpcCode::NoMethodImpl,
        ErrorKind::RpcInvalidMethodParameters => RpcCode::InvalidParams,
        ErrorKind::Internal => RpcCode::InternalError,
        ErrorKind::BadApiUsage => RpcCode::InternalError,
        ErrorKind::RpcObjectNotFound => RpcCode::ObjectError,
        ErrorKind::FeatureDisabled => RpcCode::RequestError,
        ErrorKind::Other => RpcCode::RequestError,
    }
}

/// An error type returned by failing RPC methods.
#[derive(Debug)]
pub struct RpcError {
    /// A human-readable message.
    message: String,
    /// An error code inspired by json-rpc.
    code: RpcCode,
    /// The kind of this error.
    kinds: ErrorKind,
}

impl RpcError {
    /// The message this error carries.
    pub closed spec fn spec_message(&self) -> Seq<char> {
        self.message@
    }

    /// The wire code this error carries.
    pub closed spec fn spec_code(&self) -> RpcCode {
        self.code
    }

    /// The kind this error carries.
    pub closed spec fn spec_kind(&self) -> ErrorKind {
        self.kinds
    }

    /// Build an error from a report message and the kind of the underlying
    /// fault; the code follows from the kind.
    pub fn from_parts(message: String, kind: ErrorKind) -> (r: RpcError)
        ensures
            r.spec_message() == message@,
            r.spec_kind() == kind,
            r.spec_code() == kind_to_code_spec(kind),
    {
        let code = kind_to_code(kind);
        RpcError { message, code, kinds: kind }
    }

    /// Return true if this is an internal error.
    pub fn is_internal(&self) -> (r: bool)
        ensures
            r == (self.spec_kind() == ErrorKind::Internal),
    {
        matches!(self.kinds, ErrorKind::Internal)
    }

    /// The message this error carries, as text.
    pub fn message(&self) -> (r: &str)
        ensures
            r@ == self.spec_message(),
    {
        self.message.as_str()
    }

    /// The numeric wire code of this error.
    pub fn code(&self) -> (r: i32)
        ensures
            r == code_value_spec(self.spec_code()),
    {
        code_value(self.code)
    }

    /// The kind of this error.
    pub fn kind(&self) -> (r: ErrorKind)
        ensures
            r == self.spec_kind(),
    {
        self.kinds
    }
}

} // verus!
