//! Core of an OAuth2 / OpenID-Connect authorization server: request
//! validation, grant-type policy and token exchange, signed-session login
//! management, and a closed error taxonomy with a total mapping to wire
//! status classes.

pub mod authentication;
pub mod encode;
pub mod form;
pub mod grant_type;
pub mod login;
pub mod params;
pub mod register;
pub mod result;
pub mod strutil;
pub mod token_endpoint;
pub mod tokens;
pub mod validation;

pub use grant_type::GrantType;
pub use result::OpenIdConnectError;
