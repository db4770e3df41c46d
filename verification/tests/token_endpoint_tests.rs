use oidc_core::grant_type::GrantType;
use oidc_core::params::ParamMap;
use oidc_core::result::{error_status_code, HttpStatus, OpenIdConnectError, ParamError};
use oidc_core::token_endpoint::{
    handle_token_request, token_post_flow, SiteConfig, TokenRequest, TokenRequestBuilder,
    TokenRepo,
};
use oidc_core::tokens::{Token, TokenType};
use oidc_core::validation::RejectionReason;

struct FakeRepo {
    calls: usize,
    fail: bool,
}

impl TokenRepo for FakeRepo {
    fn exchange_auth_code(&mut self, code: &str) -> Result<Token, OpenIdConnectError> {
        self.calls += 1;
        if self.fail {
            Err(OpenIdConnectError::AuthCodeError)
        } else {
            Ok(Token::new(
                format!("access-for-{}", code),
                None,
                3600,
                Some("id-token".to_owned()),
            ))
        }
    }
}

fn both_grants() -> SiteConfig {
    SiteConfig::new(true, true)
}

fn params(entries: &[(&str, &str)]) -> ParamMap {
    let mut m = ParamMap::new();
    for (k, v) in entries {
        m.append(k, v);
    }
    m
}

#[test]
fn exchange_succeeds_for_valid_authorization_code_request() {
    let mut repo = FakeRepo { calls: 0, fail: false };
    let site = both_grants();
    let body = "grant_type=authorization_code&code=ABC123&redirect_uri=https%3A%2F%2Fclient%2Fcb";
    let r = token_post_flow(&mut repo, &site, body);
    let token = r.expect("exchange should succeed");
    assert_eq!(repo.calls, 1);
    assert_eq!(token.token_type, TokenType::Bearer);
    assert_eq!(token.access_token, "access-for-ABC123");
    assert!(!token.access_token.is_empty());
    assert_eq!(token.expires_in, 3600);
}

#[test]
fn missing_code_is_reported_as_missing_code() {
    let mut repo = FakeRepo { calls: 0, fail: false };
    let site = both_grants();
    let body = "grant_type=authorization_code&redirect_uri=https%3A%2F%2Fclient%2Fcb";
    let r = token_post_flow(&mut repo, &site, body);
    let err = r.expect_err("missing code must fail");
    assert_eq!(repo.calls, 0);
    match &err {
        OpenIdConnectError::ValidationError(st) => {
            assert!(st.rejects_field("code"));
            assert!(!st.rejects_field("grant_type"));
            assert!(!st.rejects_field("redirect_uri"));
            assert_eq!(st.rejections.len(), 1);
            assert_eq!(st.rejections[0].0, "code");
            assert_eq!(
                st.rejections[0].1,
                RejectionReason::MissingRequiredValue("code".to_owned())
            );
        }
        other => panic!("expected a validation error, got {:?}", other),
    }
    assert_eq!(error_status_code(&err), HttpStatus::BadRequest);
    assert_eq!(error_status_code(&err).code(), 400);
}

#[test]
fn disabled_grant_fails_without_consulting_the_exchange() {
    let mut repo = FakeRepo { calls: 0, fail: false };
    let site = SiteConfig::new(true, false);
    let body = "grant_type=client_credentials&code=x";
    let r = token_post_flow(&mut repo, &site, body);
    let err = r.expect_err("disabled grant must fail");
    assert_eq!(repo.calls, 0, "the exchange collaborator must never be called");
    assert_eq!(
        err,
        OpenIdConnectError::UnsupportedGrantType(GrantType::ClientCredentials)
    );
    assert_eq!(error_status_code(&err).code(), 400);
}

#[test]
fn unknown_grant_type_is_identified() {
    let mut repo = FakeRepo { calls: 0, fail: false };
    let site = both_grants();
    let body = "grant_type=bogus&redirect_uri=https%3A%2F%2Fclient%2Fcb";
    let r = token_post_flow(&mut repo, &site, body);
    let err = r.expect_err("bogus grant type must fail");
    assert_eq!(repo.calls, 0);
    match &err {
        OpenIdConnectError::ValidationError(st) => {
            assert_eq!(st.rejections.len(), 1);
            assert_eq!(st.rejections[0].0, "grant_type");
            assert_eq!(
                st.rejections[0].1,
                RejectionReason::UnknownGrantType("bogus".to_owned())
            );
        }
        other => panic!("expected a validation error, got {:?}", other),
    }
    assert_eq!(error_status_code(&err).code(), 400);
}

#[test]
fn unknown_grant_type_error_from_direct_parse() {
    let err = GrantType::from_str("bogus").expect_err("bogus must not parse");
    assert_eq!(err, OpenIdConnectError::UnknownGrantType("bogus".to_owned()));
    assert_eq!(error_status_code(&err).code(), 400);
}

#[test]
fn validation_reports_all_missing_fields_at_once() {
    let mut builder = TokenRequestBuilder::new();
    let empty = ParamMap::new();
    builder.load_params(&empty).expect("loading empty params succeeds");
    let valid = builder.validate().expect("validation itself never fails");
    assert!(!valid);
    assert!(builder.validation_state.rejects_field("grant_type"));
    assert!(builder.validation_state.rejects_field("redirect_uri"));
    assert_eq!(builder.validation_state.rejections.len(), 2);
}

#[test]
fn builder_yields_complete_request_or_complete_error() {
    let m = params(&[
        ("grant_type", "authorization_code"),
        ("code", "ABC123"),
        ("redirect_uri", "https://client/cb"),
    ]);
    let req = TokenRequestBuilder::build_from_params(&m).expect("complete request expected");
    assert_eq!(req.grant_type(), GrantType::AuthorizationCode);
    assert_eq!(req.code().as_deref(), Some("ABC123"));
    assert_eq!(req.redirect_uri().as_deref(), Some("https://client/cb"));

    let fresh = TokenRequestBuilder::new();
    let err = fresh.build().expect_err("an unpopulated builder cannot build");
    match err {
        OpenIdConnectError::ValidationError(st) => {
            assert!(st.rejects_field("grant_type"));
        }
        other => panic!("expected a validation error, got {:?}", other),
    }
}

#[test]
fn client_credentials_exchange_fails_loudly_as_unimplemented() {
    let mut repo = FakeRepo { calls: 0, fail: false };
    let site = both_grants();
    let body = "grant_type=client_credentials";
    let r = token_post_flow(&mut repo, &site, body);
    assert_eq!(repo.calls, 0);
    assert_eq!(r.expect_err("must fail loudly"), OpenIdConnectError::NotImplemented);
}

#[test]
fn repeated_key_is_ambiguous_input() {
    let m = params(&[
        ("grant_type", "authorization_code"),
        ("grant_type", "client_credentials"),
        ("code", "A"),
        ("redirect_uri", "https://client/cb"),
    ]);
    let err = TokenRequestBuilder::build_from_params(&m).expect_err("ambiguous input must fail");
    assert_eq!(
        err,
        OpenIdConnectError::ParamError(ParamError::MultipleValues("grant_type".to_owned()))
    );
    assert_eq!(error_status_code(&err).code(), 400);
}

#[test]
fn empty_body_is_rejected_outright() {
    let mut repo = FakeRepo { calls: 0, fail: false };
    let site = both_grants();
    let r = token_post_flow(&mut repo, &site, "");
    let err = r.expect_err("empty body must fail");
    assert!(matches!(err, OpenIdConnectError::UrlDecodingError(_)));
    assert_eq!(error_status_code(&err).code(), 400);
}

#[test]
fn form_body_is_percent_decoded() {
    let req = TokenRequestBuilder::build_from_body(
        "grant_type=authorization_code&code=A%20B%2B&redirect_uri=https%3A%2F%2Fclient%2Fcb%3Fx%3D1",
    )
    .expect("request should build");
    assert_eq!(req.code().as_deref(), Some("A B+"));
    assert_eq!(req.redirect_uri().as_deref(), Some("https://client/cb?x=1"));
}

#[test]
fn exchange_failure_propagates_once() {
    let mut repo = FakeRepo { calls: 0, fail: true };
    let site = both_grants();
    let body = "grant_type=authorization_code&code=USED&redirect_uri=https%3A%2F%2Fclient%2Fcb";
    let r = token_post_flow(&mut repo, &site, body);
    assert_eq!(repo.calls, 1, "a failed exchange is reported once, never retried");
    assert_eq!(r.expect_err("consumed code fails"), OpenIdConnectError::AuthCodeError);
    assert_eq!(error_status_code(&OpenIdConnectError::AuthCodeError).code(), 500);
}

#[test]
fn handle_accepts_directly_constructed_request() {
    let mut repo = FakeRepo { calls: 0, fail: false };
    let site = both_grants();
    let req = TokenRequest::new(
        GrantType::AuthorizationCode,
        Some("XYZ".to_owned()),
        Some("https://client/cb".to_owned()),
    );
    let token = handle_token_request(&mut repo, &site, &req).expect("exchange succeeds");
    assert_eq!(token.access_token, "access-for-XYZ");
    assert_eq!(repo.calls, 1);
}

#[test]
fn malformed_request_reports_malformation_even_when_grant_is_disabled() {
    // the policy gate comes strictly after syntactic validation: a
    // disabled-but-malformed request reports the malformation, not the
    // policy denial
    let mut repo = FakeRepo { calls: 0, fail: false };
    let site = SiteConfig::new(false, false);
    let body = "grant_type=authorization_code&code=ABC123";
    let err = token_post_flow(&mut repo, &site, body).expect_err("malformed request fails");
    assert_eq!(repo.calls, 0);
    match &err {
        OpenIdConnectError::ValidationError(st) => {
            assert!(st.rejects_field("redirect_uri"));
        }
        other => panic!("expected the validation error first, got {:?}", other),
    }
}

#[test]
fn disabled_authorization_code_grant_is_unsupported() {
    let mut repo = FakeRepo { calls: 0, fail: false };
    let site = SiteConfig::new(false, true);
    let body = "grant_type=authorization_code&code=ABC123&redirect_uri=https%3A%2F%2Fclient%2Fcb";
    let err = token_post_flow(&mut repo, &site, body).expect_err("disabled grant fails");
    assert_eq!(repo.calls, 0);
    assert_eq!(
        err,
        OpenIdConnectError::UnsupportedGrantType(GrantType::AuthorizationCode)
    );
}

#[test]
fn validate_keeps_fields_and_is_rerunnable() {
    let m = params(&[("grant_type", "authorization_code"), ("code", "C")]);
    let mut builder = TokenRequestBuilder::new();
    builder.load_params(&m).expect("load succeeds");
    let first = builder.validate().expect("validation never fails");
    assert!(!first, "missing redirect_uri must invalidate");
    assert!(builder.validation_state.rejects_field("redirect_uri"));
    assert!(!builder.validation_state.rejects_field("code"));
    // a second pass resets the state and finds the same violations
    let second = builder.validate().expect("validation never fails");
    assert!(!second);
    assert_eq!(builder.validation_state.rejections.len(), 1);
}
