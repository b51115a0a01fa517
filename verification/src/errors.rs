//! The failure taxonomy of the authorization-code flow, and how each failure
//! is classed when it is reported to the visitor.

use vstd::prelude::*;

verus! {

/// Failure of a provider lookup.
#[derive(Debug, Clone, Copy, PartialEq, Eq, Structural)]
pub enum RegistryError {
    /// No client is configured under the requested provider name.
    UnknownProvider,
}

/// Failure of the anti-forgery check on a callback.
#[derive(Debug, Clone, Copy, PartialEq, Eq, Structural)]
pub enum CsrfError {
    /// The session holds no bound token.
    Missing,
    /// The session holds a token, and the supplied state differs from it.
    Mismatch,
}

/// Failure of the code exchange or of the profile fetch that follows it.
#[derive(Debug, Clone, Copy, PartialEq, Eq, Structural)]
pub enum FlowError {
    /// The provider rejected the authorization code.
    InvalidGrant,
    /// The token endpoint could not be reached.
    Network,
    /// The token was issued, and the profile request failed.
    ProfileFetch,
}

/// Failure to build the credential cookie.
#[derive(Debug, Clone, Copy, PartialEq, Eq, Structural)]
pub enum EncodingError {
    /// The expiry instant, issue time plus time to live, does not fit in 64 bits.
    ExpiryOutOfRange,
}

/// Failure of the guard in front of the protected resource.
#[derive(Debug, Clone, Copy, PartialEq, Eq, Structural)]
pub enum AuthError {
    /// The request carries no credential cookie.
    MissingCredential,
    /// The cookie value is not a credential that this library issued.
    MalformedCredential,
    /// The credential's time to live has elapsed.
    Expired,
}

/// Why a callback was rejected.
#[derive(Debug, Clone, Copy, PartialEq, Eq, Structural)]
pub enum RejectReason {
    UnknownProvider,
    Csrf(CsrfError),
    Flow(FlowError),
    /// The profile payload does not decode into the caller's profile shape.
    Deserialization,
    /// The user or the session record could not be written.
    Persistence,
    CookieEncoding,
}

/// Who is at fault for a rejection, which decides the response status.
#[derive(Debug, Clone, Copy, PartialEq, Eq, Structural)]
pub enum ErrorClass {
    /// A malformed or replayed request.
    Client,
    /// The provider misbehaved or could not be reached.
    Upstream,
    /// This server failed.
    Server,
}

/// What a visitor is told of a client error.
pub const CLIENT_MESSAGE: &'static str = "the sign-in request is not valid";

/// What a visitor is told of an upstream error.
pub const UPSTREAM_MESSAGE: &'static str = "the sign-in provider could not be reached";

/// What a visitor is told of a server error.
pub const SERVER_MESSAGE: &'static str = "internal server error";

impl ErrorClass {
    /// 400 for the client's faults, 502 for the provider's, 500 for this
    /// server's.
    pub open spec fn spec_status_code(self) -> u16 {
        match self {
            ErrorClass::Client => 400,
            ErrorClass::Upstream => 502,
            ErrorClass::Server => 500,
        }
    }

    /// The HTTP status that reports a failure of this class.
    pub fn status_code(self) -> (code: u16)
        ensures
            code == self.spec_status_code(),
    {
        match self {
            ErrorClass::Client => 400,
            ErrorClass::Upstream => 502,
            ErrorClass::Server => 500,
        }
    }

    /// One fixed sentence per class.
    pub open spec fn spec_message(self) -> Seq<char> {
        match self {
            ErrorClass::Client => CLIENT_MESSAGE@,
            ErrorClass::Upstream => UPSTREAM_MESSAGE@,
            ErrorClass::Server => SERVER_MESSAGE@,
        }
    }

    /// What the visitor is told of a failure of this class. The sentence goes
    /// by the class alone, so it gives away nothing of the cause.
    pub fn message(self) -> (text: &'static str)
        ensures
            text@ == self.spec_message(),
    {
        match self {
            ErrorClass::Client => CLIENT_MESSAGE,
            ErrorClass::Upstream => UPSTREAM_MESSAGE,
            ErrorClass::Server => SERVER_MESSAGE,
        }
    }
}

impl RejectReason {
    /// Unknown providers, anti-forgery failures and rejected grants are the
    /// client's fault; an unreachable provider is an upstream fault; the rest
    /// are server faults.
    pub open spec fn spec_class(self) -> ErrorClass {
        match self {
            RejectReason::UnknownProvider => ErrorClass::Client,
            RejectReason::Csrf(_) => ErrorClass::Client,
            RejectReason::Flow(FlowError::InvalidGrant) => ErrorClass::Client,
            RejectReason::Flow(FlowError::Network) => ErrorClass::Upstream,
            RejectReason::Flow(FlowError::ProfileFetch) => ErrorClass::Upstream,
            RejectReason::Deserialization => ErrorClass::Server,
            RejectReason::Persistence => ErrorClass::Server,
            RejectReason::CookieEncoding => ErrorClass::Server,
        }
    }

    /// Who is at fault for this rejection.
    pub fn class(self) -> (class: ErrorClass)
        ensures
            class == self.spec_class(),
    {
        match self {
            RejectReason::UnknownProvider => ErrorClass::Client,
            RejectReason::Csrf(_) => ErrorClass::Client,
            RejectReason::Flow(FlowError::InvalidGrant) => ErrorClass::Client,
            RejectReason::Flow(FlowError::Network) => ErrorClass::Upstream,
            RejectReason::Flow(FlowError::ProfileFetch) => ErrorClass::Upstream,
            RejectReason::Deserialization => ErrorClass::Server,
            RejectReason::Persistence => ErrorClass::Server,
            RejectReason::CookieEncoding => ErrorClass::Server,
        }
    }

    /// The status of the rejection's class.
    pub open spec fn spec_status_code(self) -> u16 {
        self.spec_class().spec_status_code()
    }

    /// The HTTP status of the error response for this rejection.
    pub fn status_code(self) -> (code: u16)
        ensures
            code == self.spec_status_code(),
    {
        self.class().status_code()
    }
}

} // verus!
