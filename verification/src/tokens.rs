use vstd::prelude::*;

use crate::strutil::str_eq;

verus! {

/// The only token type this server issues.
#[derive(Copy, Clone, Debug, PartialEq, Eq, Structural)]
pub enum TokenType {
    Bearer,
}

impl TokenType {
    /// The exact name this token type takes on the wire.
    pub open spec fn spec_wire_str(self) -> Seq<char> {
        match self {
            TokenType::Bearer => "Bearer"@,
        }
    }

    pub fn wire_str(self) -> (r: &'static str)
        ensures
            r@ == self.spec_wire_str(),
    {
        match self {
            TokenType::Bearer => "Bearer",
        }
    }

    /// Read a token type back from its wire name; anything but the exact
    /// name is rejected.
    pub fn from_wire(s: &str) -> (r: Option<TokenType>)
        ensures
            r == (if s@ == TokenType::Bearer.spec_wire_str() {
                Some(TokenType::Bearer)
            } else {
                None::<TokenType>
            }),
    {
        if str_eq(s, "Bearer") {
            Some(TokenType::Bearer)
        } else {
            None
        }
    }
}

/// The artifact of one successful exchange: created once, never mutated,
/// serialized verbatim to the client.
#[derive(Clone, Debug)]
pub struct Token {
    pub access_token: String,
    pub token_type: TokenType,
    pub refresh_token: Option<String>,
    /// Lifetime of the access token, in whole seconds.
    pub expires_in: u64,
    pub id_token: Option<String>,
}

impl Token {
    /// A freshly issued bearer token with exactly the given parts.
    pub fn new(
        access_token: String,
        refresh_token: Option<String>,
        expires_in: u64,
        id_token: Option<String>,
    ) -> (t: Token)
        ensures
            t.access_token == access_token,
            t.token_type == TokenType::Bearer,
            t.refresh_token == refresh_token,
            t.expires_in == expires_in,
            t.id_token == id_token,
    {
        Token {
            access_token: access_token,
            token_type: TokenType::Bearer,
            refresh_token: refresh_token,
            expires_in: expires_in,
            id_token: id_token,
        }
    }
}

} // verus!
