use vstd::prelude::*;

use crate::result::OpenIdConnectError;

verus! {

/// The three legitimate outcomes of checking credentials. The value never
/// carries the password or its hash, and the distinction between the two
/// failures exists for internal logic only.
#[derive(Copy, Clone, Debug, PartialEq, Eq, Structural)]
pub enum AuthenticationStatus {
    UserNotFound,
    IncorrectPassword,
    Success,
}

/// A way of authenticating users against a repository of users. An
/// implementation looks the user up and compares the supplied password
/// against the stored credential securely; it fails with an error, not a
/// status, only on collaborator faults — never for a wrong password.
pub trait Authenticator {
    fn authenticate(&self, username: &str, password: &str) -> Result<
        AuthenticationStatus,
        OpenIdConnectError,
    >;
}

/// The wire-visible outcome of an authentication status: success passes,
/// and both failure statuses collapse into the one generic credentials
/// error, so the boundary never reveals whether the user exists.
pub open spec fn spec_wire_outcome(status: AuthenticationStatus) -> Option<OpenIdConnectError> {
    match status {
        AuthenticationStatus::Success => None,
        AuthenticationStatus::UserNotFound => Some(OpenIdConnectError::InvalidUsernameOrPassword),
        AuthenticationStatus::IncorrectPassword => Some(
            OpenIdConnectError::InvalidUsernameOrPassword,
        ),
    }
}

/// Map an authentication status to what the caller may see: nothing on
/// success, the generic credentials error otherwise.
pub fn authentication_wire_error(status: AuthenticationStatus) -> (r: Option<OpenIdConnectError>)
    ensures
        r == spec_wire_outcome(status),
{
    match status {
        AuthenticationStatus::Success => None,
        AuthenticationStatus::UserNotFound => Some(OpenIdConnectError::InvalidUsernameOrPassword),
        AuthenticationStatus::IncorrectPassword => Some(
            OpenIdConnectError::InvalidUsernameOrPassword,
        ),
    }
}

/// Credential opacity: a missing user and a wrong password are
/// indistinguishable at the boundary — one and the same error value,
/// hence one and the same wire status class.
pub proof fn lemma_credential_opacity()
    ensures
        spec_wire_outcome(AuthenticationStatus::UserNotFound) == spec_wire_outcome(
            AuthenticationStatus::IncorrectPassword,
        ),
        spec_wire_outcome(AuthenticationStatus::UserNotFound) == Some(
            OpenIdConnectError::InvalidUsernameOrPassword,
        ),
{
}

} // verus!
