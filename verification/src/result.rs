use vstd::prelude::*;

use crate::grant_type::GrantType;
use crate::validation::ValidationState;

verus! {

/// A request parameter that could not be read into a single value.
#[derive(Clone, Debug, PartialEq, Eq)]
pub enum ParamError {
    /// The named key appeared with more than one value where exactly one
    /// was expected; ambiguous input is an error, never resolved silently.
    MultipleValues(String),
}

/// Closed taxonomy of every failure this core can report. Each variant
/// carries enough context to log internally; the wire sees only the status
/// class given by [`error_status_code`].
#[derive(Clone, Debug, PartialEq, Eq)]
pub enum OpenIdConnectError {
    IoError(String),
    UnknownResponseMode(String),
    UnknownResponseType(String),
    UnknownGrantType(String),
    UnsupportedGrantType(GrantType),
    ScopeNotFound(String),
    NotImplemented,
    UrlDecodingError(String),
    ParamError(ParamError),
    UrlError(String),
    UrlParseError(String),
    UserAlreadyExists,
    UserNotFound,
    ClientApplicationAlreadyExists,
    ClientApplicationNotFound,
    InvalidRedirectUri,
    ValidationError(ValidationState),
    EmptyPostBody,
    JsonError(String),
    PostBodyParseError(String),
    PersistentError(String),
    InvalidUsernameOrPassword,
    ConfigError(String),
    NoSessionLoaded,
    JwtError(String),
    RoutingError(String),
    GrantNotFound,
    ResponseModeUnavailable,
    ParseIntError(String),
    DateError,
    AuthCodeError,
    Base64Error(String),
    SslError(String),
    Utf8Error(String),
    CastError(String),
    UnknownTokenEndpointAuthMethod(String),
    MiddlewareError(String),
}

/// The two wire-visible status classes, with the concrete success and
/// redirect statuses the handlers use.
#[derive(Copy, Clone, Debug, PartialEq, Eq, Structural)]
pub enum HttpStatus {
    Okay,
    Found,
    BadRequest,
    InternalServerError,
}

impl HttpStatus {
    pub open spec fn spec_code(self) -> u16 {
        match self {
            HttpStatus::Okay => 200,
            HttpStatus::Found => 302,
            HttpStatus::BadRequest => 400,
            HttpStatus::InternalServerError => 500,
        }
    }

    pub fn code(self) -> (c: u16)
        ensures
            c == self.spec_code(),
    {
        match self {
            HttpStatus::Okay => 200,
            HttpStatus::Found => 302,
            HttpStatus::BadRequest => 400,
            HttpStatus::InternalServerError => 500,
        }
    }
}

/// Whether the error is the caller's fault: a malformed or unauthorized
/// request. Everything else (I/O, persistence, signing, internal
/// inconsistency) is a server fault.
pub open spec fn spec_is_client_fault(e: OpenIdConnectError) -> bool {
    match e {
        OpenIdConnectError::UrlDecodingError(_) => true,
        OpenIdConnectError::UnknownResponseType(_) => true,
        OpenIdConnectError::UnknownGrantType(_) => true,
        OpenIdConnectError::UnsupportedGrantType(_) => true,
        OpenIdConnectError::ParamError(_) => true,
        OpenIdConnectError::ScopeNotFound(_) => true,
        OpenIdConnectError::JsonError(_) => true,
        OpenIdConnectError::PostBodyParseError(_) => true,
        OpenIdConnectError::EmptyPostBody => true,
        OpenIdConnectError::ValidationError(_) => true,
        _ => false,
    }
}

/// Total mapping of the error taxonomy into a wire status class: client
/// faults answer with a 4xx status, everything else with a 5xx status.
pub fn error_status_code(oic_err: &OpenIdConnectError) -> (s: HttpStatus)
    ensures
        s == (if spec_is_client_fault(*oic_err) {
            HttpStatus::BadRequest
        } else {
            HttpStatus::InternalServerError
        }),
{
    match *oic_err {
        OpenIdConnectError::UrlDecodingError(_) => HttpStatus::BadRequest,
        OpenIdConnectError::UnknownResponseType(_) => HttpStatus::BadRequest,
        OpenIdConnectError::UnknownGrantType(_) => HttpStatus::BadRequest,
        OpenIdConnectError::UnsupportedGrantType(_) => HttpStatus::BadRequest,
        OpenIdConnectError::ParamError(_) => HttpStatus::BadRequest,
        OpenIdConnectError::ScopeNotFound(_) => HttpStatus::BadRequest,
        OpenIdConnectError::JsonError(_) => HttpStatus::BadRequest,
        OpenIdConnectError::PostBodyParseError(_) => HttpStatus::BadRequest,
        OpenIdConnectError::EmptyPostBody => HttpStatus::BadRequest,
        OpenIdConnectError::ValidationError(_) => HttpStatus::BadRequest,
        _ => HttpStatus::InternalServerError,
    }
}

impl OpenIdConnectError {
    /// The log representation of each variant.
    pub open spec fn spec_description(self) -> Seq<char> {
        match self {
            OpenIdConnectError::IoError(_) => "io error"@,
            OpenIdConnectError::UnknownResponseMode(_) => "unknown response_mode"@,
            OpenIdConnectError::UnknownResponseType(_) => "unknown response_type"@,
            OpenIdConnectError::UnknownGrantType(_) => "unknown grant_type"@,
            OpenIdConnectError::UnsupportedGrantType(_) => "unsupported grant_type"@,
            OpenIdConnectError::ScopeNotFound(_) => "scope not found"@,
            OpenIdConnectError::NotImplemented => "not implemented"@,
            OpenIdConnectError::UrlDecodingError(_) => "url decoding error"@,
            OpenIdConnectError::ParamError(_) => "param error"@,
            OpenIdConnectError::UrlError(_) => "url parse error"@,
            OpenIdConnectError::UrlParseError(_) => "url parse error"@,
            OpenIdConnectError::UserAlreadyExists => "user already exists"@,
            OpenIdConnectError::UserNotFound => "user not found"@,
            OpenIdConnectError::ClientApplicationAlreadyExists => "application already exists"@,
            OpenIdConnectError::ClientApplicationNotFound => "application not found"@,
            OpenIdConnectError::InvalidRedirectUri => "redirect uri is not recognised"@,
            OpenIdConnectError::ValidationError(_) => "validation error"@,
            OpenIdConnectError::EmptyPostBody => "empty post body"@,
            OpenIdConnectError::JsonError(_) => "json error"@,
            OpenIdConnectError::PostBodyParseError(_) => "error parsing post body"@,
            OpenIdConnectError::PersistentError(_) => "persistence error"@,
            OpenIdConnectError::InvalidUsernameOrPassword => "invalid username or password"@,
            OpenIdConnectError::ConfigError(_) => "server config error"@,
            OpenIdConnectError::NoSessionLoaded => "server didn't load user session"@,
            OpenIdConnectError::JwtError(_) => "jwt error"@,
            OpenIdConnectError::RoutingError(_) => "routing error"@,
            OpenIdConnectError::GrantNotFound => "grant not found"@,
            OpenIdConnectError::ResponseModeUnavailable => (
            "the chosen response mode is unavailable for this authorize request"@),
            OpenIdConnectError::ParseIntError(_) => "parse error"@,
            OpenIdConnectError::DateError => "date error"@,
            OpenIdConnectError::AuthCodeError => "the auth code was invalid"@,
            OpenIdConnectError::Base64Error(_) => "error deserialising base64"@,
            OpenIdConnectError::SslError(_) => "ssl error"@,
            OpenIdConnectError::Utf8Error(_) => "utf8 error"@,
            OpenIdConnectError::CastError(_) => "cast error"@,
            OpenIdConnectError::UnknownTokenEndpointAuthMethod(_) => (
            "unknown token_endpoint_auth_method"@),
            OpenIdConnectError::MiddlewareError(_) => "middleware error"@,
        }
    }

    /// Short, constant log text for this error; never carries credentials
    /// or other request contents.
    pub fn description(&self) -> (r: &'static str)
        ensures
            r@ == self.spec_description(),
    {
        match *self {
            OpenIdConnectError::IoError(_) => "io error",
            OpenIdConnectError::UnknownResponseMode(_) => "unknown response_mode",
            OpenIdConnectError::UnknownResponseType(_) => "unknown response_type",
            OpenIdConnectError::UnknownGrantType(_) => "unknown grant_type",
            OpenIdConnectError::UnsupportedGrantType(_) => "unsupported grant_type",
            OpenIdConnectError::ScopeNotFound(_) => "scope not found",
            OpenIdConnectError::NotImplemented => "not implemented",
            OpenIdConnectError::UrlDecodingError(_) => "url decoding error",
            OpenIdConnectError::ParamError(_) => "param error",
            OpenIdConnectError::UrlError(_) => "url parse error",
            OpenIdConnectError::UrlParseError(_) => "url parse error",
            OpenIdConnectError::UserAlreadyExists => "user already exists",
            OpenIdConnectError::UserNotFound => "user not found",
            OpenIdConnectError::ClientApplicationAlreadyExists => "application already exists",
            OpenIdConnectError::ClientApplicationNotFound => "application not found",
            OpenIdConnectError::InvalidRedirectUri => "redirect uri is not recognised",
            OpenIdConnectError::ValidationError(_) => "validation error",
            OpenIdConnectError::EmptyPostBody => "empty post body",
            OpenIdConnectError::JsonError(_) => "json error",
            OpenIdConnectError::PostBodyParseError(_) => "error parsing post body",
            OpenIdConnectError::PersistentError(_) => "persistence error",
            OpenIdConnectError::InvalidUsernameOrPassword => "invalid username or password",
            OpenIdConnectError::ConfigError(_) => "server config error",
            OpenIdConnectError::NoSessionLoaded => "server didn't load user session",
            OpenIdConnectError::JwtError(_) => "jwt error",
            OpenIdConnectError::RoutingError(_) => "routing error",
            OpenIdConnectError::GrantNotFound => "grant not found",
            OpenIdConnectError::ResponseModeUnavailable => "the chosen response mode is unavailable for this authorize request",
            OpenIdConnectError::ParseIntError(_) => "parse error",
            OpenIdConnectError::DateError => "date error",
            OpenIdConnectError::AuthCodeError => "the auth code was invalid",
            OpenIdConnectError::Base64Error(_) => "error deserialising base64",
            OpenIdConnectError::SslError(_) => "ssl error",
            OpenIdConnectError::Utf8Error(_) => "utf8 error",
            OpenIdConnectError::CastError(_) => "cast error",
            OpenIdConnectError::UnknownTokenEndpointAuthMethod(_) => "unknown token_endpoint_auth_method",
            OpenIdConnectError::MiddlewareError(_) => "middleware error",
        }
    }
}

} // verus!
