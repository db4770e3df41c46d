use vstd::prelude::*;

use crate::result::OpenIdConnectError;
use crate::strutil::str_eq;

verus! {

/// Closed enumeration of the OAuth2 grant mechanisms this core understands.
#[derive(Copy, Clone, Debug, PartialEq, Eq, Structural)]
pub enum GrantType {
    AuthorizationCode,
    ClientCredentials,
}

/// Case-sensitive reading of a grant type from its wire string; an unknown
/// string parses to nothing, never to a default.
pub open spec fn spec_parse_grant_type(s: Seq<char>) -> Option<GrantType> {
    if s == "authorization_code"@ {
        Some(GrantType::AuthorizationCode)
    } else if s == "client_credentials"@ {
        Some(GrantType::ClientCredentials)
    } else {
        None
    }
}

impl GrantType {
    /// The exact string this grant type takes on the wire.
    pub open spec fn spec_wire_str(self) -> Seq<char> {
        match self {
            GrantType::AuthorizationCode => "authorization_code"@,
            GrantType::ClientCredentials => "client_credentials"@,
        }
    }

    pub fn wire_str(self) -> (r: &'static str)
        ensures
            r@ == self.spec_wire_str(),
    {
        match self {
            GrantType::AuthorizationCode => "authorization_code",
            GrantType::ClientCredentials => "client_credentials",
        }
    }

    /// Parse the case-sensitive wire string; unknown strings are an
    /// `UnknownGrantType` error carrying the offending input.
    pub fn from_str(s: &str) -> (r: Result<GrantType, OpenIdConnectError>)
        ensures
            match spec_parse_grant_type(s@) {
                Some(gt) => r matches Ok(g) && g == gt,
                None => r matches Err(e) && (e matches OpenIdConnectError::UnknownGrantType(
                    raw,
                ) && raw@ == s@),
            },
    {
        if str_eq(s, "authorization_code") {
            Ok(GrantType::AuthorizationCode)
        } else if str_eq(s, "client_credentials") {
            Ok(GrantType::ClientCredentials)
        } else {
            Err(OpenIdConnectError::UnknownGrantType(s.to_owned()))
        }
    }
}

} // verus!
