use oidc_core::authentication::{authentication_wire_error, AuthenticationStatus, Authenticator};
use oidc_core::grant_type::GrantType;
use oidc_core::login::{Login, LoginConfig, LoginManager, LoginSession};
use oidc_core::params::{multimap_get_maybe_one, ParamMap};
use oidc_core::register::{new_register_form, RegisterRequestBuilder};
use oidc_core::result::{error_status_code, HttpStatus, OpenIdConnectError, ParamError};
use oidc_core::tokens::TokenType;
use oidc_core::validation::RejectionReason;

#[test]
fn grant_type_parse_is_case_sensitive_and_total() {
    assert_eq!(
        GrantType::from_str("authorization_code").expect("known grant"),
        GrantType::AuthorizationCode
    );
    assert_eq!(
        GrantType::from_str("client_credentials").expect("known grant"),
        GrantType::ClientCredentials
    );
    assert_eq!(
        GrantType::from_str("Authorization_Code").expect_err("case matters"),
        OpenIdConnectError::UnknownGrantType("Authorization_Code".to_owned())
    );
    assert_eq!(
        GrantType::from_str("").expect_err("empty is unknown"),
        OpenIdConnectError::UnknownGrantType("".to_owned())
    );
    assert_eq!(GrantType::AuthorizationCode.wire_str(), "authorization_code");
    assert_eq!(GrantType::ClientCredentials.wire_str(), "client_credentials");
}

#[test]
fn token_type_wire_names() {
    assert_eq!(TokenType::Bearer.wire_str(), "Bearer");
    assert_eq!(TokenType::from_wire("Bearer"), Some(TokenType::Bearer));
    assert_eq!(TokenType::from_wire("bearer"), None);
    assert_eq!(TokenType::from_wire(""), None);
}

#[test]
fn status_mapping_separates_client_and_server_faults() {
    let client_faults = [
        OpenIdConnectError::UrlDecodingError("x".to_owned()),
        OpenIdConnectError::UnknownResponseType("x".to_owned()),
        OpenIdConnectError::UnknownGrantType("x".to_owned()),
        OpenIdConnectError::UnsupportedGrantType(GrantType::AuthorizationCode),
        OpenIdConnectError::ParamError(ParamError::MultipleValues("x".to_owned())),
        OpenIdConnectError::ScopeNotFound("x".to_owned()),
        OpenIdConnectError::JsonError("x".to_owned()),
        OpenIdConnectError::PostBodyParseError("x".to_owned()),
        OpenIdConnectError::EmptyPostBody,
    ];
    for e in client_faults {
        assert_eq!(error_status_code(&e), HttpStatus::BadRequest, "{:?}", e);
        assert_eq!(error_status_code(&e).code(), 400);
    }
    let server_faults = [
        OpenIdConnectError::IoError("x".to_owned()),
        OpenIdConnectError::NotImplemented,
        OpenIdConnectError::PersistentError("x".to_owned()),
        OpenIdConnectError::InvalidUsernameOrPassword,
        OpenIdConnectError::AuthCodeError,
        OpenIdConnectError::ConfigError("x".to_owned()),
        OpenIdConnectError::NoSessionLoaded,
        OpenIdConnectError::DateError,
        OpenIdConnectError::UnknownResponseMode("x".to_owned()),
        OpenIdConnectError::MiddlewareError("x".to_owned()),
    ];
    for e in server_faults {
        assert_eq!(error_status_code(&e), HttpStatus::InternalServerError, "{:?}", e);
        assert_eq!(error_status_code(&e).code(), 500);
    }
    assert_eq!(HttpStatus::Okay.code(), 200);
    assert_eq!(HttpStatus::Found.code(), 302);
}

#[test]
fn descriptions_are_constant_and_content_free() {
    let e = OpenIdConnectError::UnknownGrantType("s3cret".to_owned());
    assert_eq!(e.description(), "unknown grant_type");
    assert!(!e.description().contains("s3cret"));
    assert_eq!(OpenIdConnectError::NotImplemented.description(), "not implemented");
    assert_eq!(
        OpenIdConnectError::InvalidUsernameOrPassword.description(),
        "invalid username or password"
    );
    assert_eq!(OpenIdConnectError::EmptyPostBody.description(), "empty post body");
}

struct StoredUsers {
    users: Vec<(String, String)>,
    broken: bool,
}

impl Authenticator for StoredUsers {
    fn authenticate(
        &self,
        username: &str,
        password: &str,
    ) -> Result<AuthenticationStatus, OpenIdConnectError> {
        if self.broken {
            return Err(OpenIdConnectError::PersistentError("store offline".to_owned()));
        }
        match self.users.iter().find(|(u, _)| u == username) {
            None => Ok(AuthenticationStatus::UserNotFound),
            Some((_, stored)) => {
                if stored == password {
                    Ok(AuthenticationStatus::Success)
                } else {
                    Ok(AuthenticationStatus::IncorrectPassword)
                }
            }
        }
    }
}

#[test]
fn credential_failures_are_indistinguishable_on_the_wire() {
    let store = StoredUsers {
        users: vec![("real-user".to_owned(), "right".to_owned())],
        broken: false,
    };
    let missing = store.authenticate("nonexistent", "x").expect("status, not error");
    let wrong = store.authenticate("real-user", "wrong-password").expect("status, not error");
    assert_eq!(missing, AuthenticationStatus::UserNotFound);
    assert_eq!(wrong, AuthenticationStatus::IncorrectPassword);
    let wire_missing = authentication_wire_error(missing).expect("a failure maps to an error");
    let wire_wrong = authentication_wire_error(wrong).expect("a failure maps to an error");
    assert_eq!(wire_missing, wire_wrong);
    assert_eq!(wire_missing, OpenIdConnectError::InvalidUsernameOrPassword);
    assert_eq!(error_status_code(&wire_missing), error_status_code(&wire_wrong));
    let ok = store.authenticate("real-user", "right").expect("status, not error");
    assert_eq!(authentication_wire_error(ok), None);
}

#[test]
fn collaborator_faults_are_errors_not_statuses() {
    let store = StoredUsers { users: vec![], broken: true };
    let err = store.authenticate("any", "any").expect_err("broken store is an error");
    assert!(matches!(err, OpenIdConnectError::PersistentError(_)));
}

#[derive(Clone, Debug, PartialEq)]
struct Principal {
    id: Option<String>,
}

impl LoginSession for Principal {
    fn get_id(&self) -> Option<String> {
        self.id.clone()
    }
}

fn unseal(cookie: &str) -> Option<Principal> {
    // stands in for the signed-cookie codec: only the well-signed cookie
    // decodes, anything tampered with yields nothing
    if cookie == "signed:alice" {
        Some(Principal { id: Some("alice".to_owned()) })
    } else {
        None
    }
}

#[test]
fn tampered_cookie_behaves_like_no_session() {
    let config = LoginConfig::defaults();
    let from_tampered: Login<Principal> = Login::new(&config, unseal("signed:alice-forged"));
    let from_absent: Login<Principal> = Login::new(&config, None);
    assert!(from_tampered.session.is_none());
    assert_eq!(from_tampered.effective_id(), None);
    assert_eq!(from_tampered.effective_id(), from_absent.effective_id());
    assert_eq!(from_tampered.session, from_absent.session);
    assert_eq!(from_tampered.config, from_absent.config);
}

#[test]
fn valid_cookie_yields_the_identity() {
    let config = LoginConfig::defaults();
    let login: Login<Principal> = Login::new(&config, unseal("signed:alice"));
    assert_eq!(login.effective_id(), Some("alice".to_owned()));
}

#[test]
fn session_without_identifier_counts_as_not_logged_in() {
    let config = LoginConfig::defaults();
    let login: Login<Principal> = Login::new(&config, Some(Principal { id: None }));
    assert_eq!(login.effective_id(), None);
}

#[test]
fn login_manager_defaults_are_secure() {
    let manager = LoginManager::new(vec![1u8, 2, 3]);
    assert_eq!(manager.signing_key(), &vec![1u8, 2, 3]);
    let cookie = &manager.config.cookie_base;
    assert_eq!(cookie.name, "logged_in_user");
    assert_eq!(cookie.value, "");
    assert!(cookie.http_only);
    assert!(cookie.secure);
    assert_eq!(cookie.path, "/");
}

#[test]
fn register_builder_accumulates_missing_fields() {
    let empty = ParamMap::new();
    let err = RegisterRequestBuilder::build_from_params(&empty).expect_err("nothing was given");
    match err {
        OpenIdConnectError::ValidationError(st) => {
            assert!(st.rejects_field("username"));
            assert!(st.rejects_field("password"));
            assert_eq!(st.rejections.len(), 2);
            assert_eq!(
                st.rejections[0].1,
                RejectionReason::MissingRequiredValue("username".to_owned())
            );
        }
        other => panic!("expected a validation error, got {:?}", other),
    }
}

#[test]
fn register_builder_builds_complete_requests() {
    let mut m = ParamMap::new();
    m.append("username", "carol");
    m.append("password", "hunter2");
    let req = RegisterRequestBuilder::build_from_params(&m).expect("complete request");
    assert_eq!(req.username(), "carol");
    assert_eq!(req.password(), "hunter2");
}

#[test]
fn register_form_starts_empty() {
    let form = new_register_form();
    assert_eq!(form.len(), 2);
    assert_eq!(form[0], ("username".to_owned(), String::new()));
    assert_eq!(form[1], ("password".to_owned(), String::new()));
}

#[test]
fn multimap_distinguishes_absent_single_and_repeated_keys() {
    let mut m = ParamMap::new();
    m.append("a", "1");
    m.append("b", "2");
    m.append("b", "3");
    assert_eq!(m.key_count(), 2);
    assert_eq!(multimap_get_maybe_one(&m, "missing"), Ok(None));
    assert_eq!(multimap_get_maybe_one(&m, "a"), Ok(Some("1".to_owned())));
    assert_eq!(
        multimap_get_maybe_one(&m, "b"),
        Err(ParamError::MultipleValues("b".to_owned()))
    );
}
