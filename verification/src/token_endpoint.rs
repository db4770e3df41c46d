use vstd::prelude::*;

use crate::form::{form_pairs_of, params_from_body};
use crate::grant_type::{spec_parse_grant_type, GrantType};
use crate::params::{
    model_ambiguous, model_group, model_one_value, multimap_get_maybe_one, ParamMap,
};
use crate::result::{OpenIdConnectError, ParamError};
use crate::strutil::opt_view;
use crate::tokens::Token;
use crate::validation::{ReasonModel, RejectionReason, ValidationState};

verus! {

/// Read-only per-deployment policy: which grant types the token endpoint
/// serves. Injected once at startup and passed by reference into every
/// request-handling call.
#[derive(Copy, Clone, Debug, PartialEq, Eq, Structural)]
pub struct SiteConfig {
    pub authorization_code_grant: bool,
    pub client_credentials_grant: bool,
}

impl SiteConfig {
    pub open spec fn spec_grant_enabled(self, grant_type: GrantType) -> bool {
        match grant_type {
            GrantType::AuthorizationCode => self.authorization_code_grant,
            GrantType::ClientCredentials => self.client_credentials_grant,
        }
    }

    pub fn new(authorization_code_grant: bool, client_credentials_grant: bool) -> (c: SiteConfig)
        ensures
            c.authorization_code_grant == authorization_code_grant,
            c.client_credentials_grant == client_credentials_grant,
    {
        SiteConfig { authorization_code_grant, client_credentials_grant }
    }

    /// Whether site policy serves the grant type at all.
    pub fn grant_enabled(&self, grant_type: GrantType) -> (r: bool)
        ensures
            r == self.spec_grant_enabled(grant_type),
    {
        match grant_type {
            GrantType::AuthorizationCode => self.authorization_code_grant,
            GrantType::ClientCredentials => self.client_credentials_grant,
        }
    }
}

/// A validated token request: it cannot exist unless construction-time
/// validation succeeded, so its shape always fits its grant type.
#[derive(Clone, Debug)]
pub struct TokenRequest {
    grant_type: GrantType,
    code: Option<String>,
    redirect_uri: Option<String>,
}

impl TokenRequest {
    pub closed spec fn spec_grant_type(self) -> GrantType {
        self.grant_type
    }

    pub closed spec fn spec_code(self) -> Option<Seq<char>> {
        opt_view(self.code)
    }

    pub closed spec fn spec_redirect_uri(self) -> Option<Seq<char>> {
        opt_view(self.redirect_uri)
    }

    /// The per-grant-type field requirements: a code whenever the grant is
    /// an authorization-code exchange, a redirect URI for every grant type
    /// but client credentials.
    pub open spec fn wf(self) -> bool {
        &&& self.spec_grant_type() == GrantType::AuthorizationCode ==> self.spec_code() is Some
        &&& self.spec_grant_type() != GrantType::ClientCredentials
            ==> self.spec_redirect_uri() is Some
    }

    /// Direct construction; the caller owes the same shape the builder
    /// would have enforced.
    pub fn new(grant_type: GrantType, code: Option<String>, redirect_uri: Option<String>) -> (r:
        TokenRequest)
        requires
            grant_type == GrantType::AuthorizationCode ==> code is Some,
            grant_type != GrantType::ClientCredentials ==> redirect_uri is Some,
        ensures
            r.spec_grant_type() == grant_type,
            r.spec_code() == opt_view(code),
            r.spec_redirect_uri() == opt_view(redirect_uri),
            r.wf(),
    {
        TokenRequest { grant_type, code, redirect_uri }
    }

    pub fn grant_type(&self) -> (r: GrantType)
        ensures
            r == self.spec_grant_type(),
    {
        self.grant_type
    }

    pub fn code(&self) -> (r: &Option<String>)
        ensures
            opt_view(*r) == self.spec_code(),
    {
        &self.code
    }

    pub fn redirect_uri(&self) -> (r: &Option<String>)
        ensures
            opt_view(*r) == self.spec_redirect_uri(),
    {
        &self.redirect_uri
    }
}

/// The grant type the raw string field denotes, if any.
pub open spec fn spec_parsed_grant_opt(gt: Option<Seq<char>>) -> Option<GrantType> {
    match gt {
        Some(s) => spec_parse_grant_type(s),
        None => None,
    }
}

/// Every violation one validation pass finds in the three raw fields, in
/// checking order. The pass never stops at the first failure.
pub open spec fn spec_token_rejections(
    gt: Option<Seq<char>>,
    code: Option<Seq<char>>,
    ru: Option<Seq<char>>,
) -> Seq<(Seq<char>, ReasonModel)> {
    let parsed = spec_parsed_grant_opt(gt);
    let r0 = Seq::<(Seq<char>, ReasonModel)>::empty();
    let r1 = match gt {
        None => r0.push(("grant_type"@, ReasonModel::MissingRequiredValue("grant_type"@))),
        Some(s) => if spec_parse_grant_type(s) is None {
            r0.push(("grant_type"@, ReasonModel::UnknownGrantType(s)))
        } else {
            r0
        },
    };
    let r2 = if parsed == Some(GrantType::AuthorizationCode) && code is None {
        r1.push(("code"@, ReasonModel::MissingRequiredValue("code"@)))
    } else {
        r1
    };
    let r3 = if parsed != Some(GrantType::ClientCredentials) && ru is None {
        r2.push(("redirect_uri"@, ReasonModel::MissingRequiredValue("redirect_uri"@)))
    } else {
        r2
    };
    r3
}

/// Mutable accumulator for the token endpoint's raw fields, populated
/// from the untyped parameter multimap, validated in one pass, and
/// consumed by `build`.
#[derive(Clone, Debug)]
pub struct TokenRequestBuilder {
    pub grant_type: Option<String>,
    pub code: Option<String>,
    pub redirect_uri: Option<String>,
    pub validation_state: ValidationState,
}

/// The grant type a builder's raw field denotes, if any.
pub open spec fn spec_parsed_grant(b: TokenRequestBuilder) -> Option<GrantType> {
    spec_parsed_grant_opt(opt_view(b.grant_type))
}

/// When `build` succeeds: the state records no violation, the grant type
/// parses, and the per-grant-type required fields are present.
pub open spec fn spec_buildable(b: TokenRequestBuilder) -> bool {
    &&& b.validation_state.valid
    &&& spec_parsed_grant(b) is Some
    &&& spec_parsed_grant(b) == Some(GrantType::AuthorizationCode) ==> b.code is Some
    &&& spec_parsed_grant(b) != Some(GrantType::ClientCredentials) ==> b.redirect_uri is Some
}

/// Exactly which error `build` reports when it fails.
pub open spec fn spec_build_error(b: TokenRequestBuilder, e: OpenIdConnectError) -> bool {
    if !b.validation_state.valid {
        e == OpenIdConnectError::ValidationError(b.validation_state)
    } else if b.grant_type is None {
        &&& e matches OpenIdConnectError::ValidationError(st)
        &&& st@ == seq![(("grant_type"@, ReasonModel::MissingRequiredValue("grant_type"@)))]
        &&& !st.valid
    } else if spec_parsed_grant(b) is None {
        e matches OpenIdConnectError::UnknownGrantType(s) && (match b.grant_type {
            Some(raw) => s@ == raw@,
            None => false,
        })
    } else if spec_parsed_grant(b) == Some(GrantType::AuthorizationCode) && b.code is None {
        &&& e matches OpenIdConnectError::ValidationError(st)
        &&& st@ == seq![(("code"@, ReasonModel::MissingRequiredValue("code"@)))]
        &&& !st.valid
    } else {
        &&& e matches OpenIdConnectError::ValidationError(st)
        &&& st@ == seq![(("redirect_uri"@, ReasonModel::MissingRequiredValue("redirect_uri"@)))]
        &&& !st.valid
    }
}

impl TokenRequestBuilder {
    pub fn new() -> (b: TokenRequestBuilder)
        ensures
            b.grant_type is None,
            b.code is None,
            b.redirect_uri is None,
            b.validation_state@ == Seq::<(Seq<char>, ReasonModel)>::empty(),
            b.validation_state.valid,
            b.validation_state.wf(),
    {
        TokenRequestBuilder {
            grant_type: None,
            code: None,
            redirect_uri: None,
            validation_state: ValidationState::new(),
        }
    }

    /// Copy at most one value per recognized key out of the raw multimap;
    /// a key that appeared more than once is ambiguous input and an
    /// error, never resolved by taking the first value.
    pub fn load_params(&mut self, params: &ParamMap) -> (r: Result<(), OpenIdConnectError>)
        requires
            params.wf(),
        ensures
            final(self).validation_state == old(self).validation_state,
            match r {
                Ok(_) => {
                    &&& !model_ambiguous(params@, "grant_type"@)
                    &&& !model_ambiguous(params@, "code"@)
                    &&& !model_ambiguous(params@, "redirect_uri"@)
                    &&& opt_view(final(self).grant_type) == model_one_value(
                        params@,
                        "grant_type"@,
                    )
                    &&& opt_view(final(self).code) == model_one_value(params@, "code"@)
                    &&& opt_view(final(self).redirect_uri) == model_one_value(
                        params@,
                        "redirect_uri"@,
                    )
                },
                Err(e) => {
                    &&& e matches OpenIdConnectError::ParamError(pe)
                    &&& pe matches ParamError::MultipleValues(k)
                    &&& (if model_ambiguous(params@, "grant_type"@) {
                        k@ == "grant_type"@
                    } else if model_ambiguous(params@, "code"@) {
                        k@ == "code"@
                    } else {
                        k@ == "redirect_uri"@ && model_ambiguous(params@, "redirect_uri"@)
                    })
                },
            },
    {
        self.grant_type = match multimap_get_maybe_one(params, "grant_type") {
            Ok(v) => v,
            Err(pe) => {
                return Err(OpenIdConnectError::ParamError(pe));
            },
        };
        self.code = match multimap_get_maybe_one(params, "code") {
            Ok(v) => v,
            Err(pe) => {
                return Err(OpenIdConnectError::ParamError(pe));
            },
        };
        self.redirect_uri = match multimap_get_maybe_one(params, "redirect_uri") {
            Ok(v) => v,
            Err(pe) => {
                return Err(OpenIdConnectError::ParamError(pe));
            },
        };
        Ok(())
    }

    /// One full validation pass: reset the state, then record every
    /// field-presence and cross-field violation found, never stopping at
    /// the first.
    pub fn validate(&mut self) -> (r: Result<bool, OpenIdConnectError>)
        ensures
            final(self).grant_type == old(self).grant_type,
            final(self).code == old(self).code,
            final(self).redirect_uri == old(self).redirect_uri,
            final(self).validation_state@ == spec_token_rejections(
                opt_view(old(self).grant_type),
                opt_view(old(self).code),
                opt_view(old(self).redirect_uri),
            ),
            final(self).validation_state.wf(),
            r matches Ok(b) && b == final(self).validation_state.valid,
    {
        self.validation_state = ValidationState::new();
        let parsed: Option<GrantType> = match &self.grant_type {
            Some(s) => match GrantType::from_str(s.as_str()) {
                Ok(g) => Some(g),
                Err(_) => None,
            },
            None => None,
        };
        match &self.grant_type {
            None => {
                self.validation_state.reject(
                    "grant_type",
                    RejectionReason::MissingRequiredValue("grant_type".to_owned()),
                );
            },
            Some(s) => {
                if parsed.is_none() {
                    self.validation_state.reject(
                        "grant_type",
                        RejectionReason::UnknownGrantType(s.clone()),
                    );
                }
            },
        }
        let requires_code: bool = match parsed {
            Some(GrantType::AuthorizationCode) => true,
            _ => false,
        };
        let exempt_from_redirect: bool = match parsed {
            Some(GrantType::ClientCredentials) => true,
            _ => false,
        };
        if requires_code && self.code.is_none() {
            self.validation_state.reject(
                "code",
                RejectionReason::MissingRequiredValue("code".to_owned()),
            );
        }
        if !exempt_from_redirect && self.redirect_uri.is_none() {
            self.validation_state.reject(
                "redirect_uri",
                RejectionReason::MissingRequiredValue("redirect_uri".to_owned()),
            );
        }
        proof {
            assert(self.validation_state@ =~= spec_token_rejections(
                opt_view(old(self).grant_type),
                opt_view(old(self).code),
                opt_view(old(self).redirect_uri),
            ));
        }
        Ok(self.validation_state.valid)
    }

    /// The single gate out of the builder: a fully-populated, well-formed
    /// request exactly when nothing was rejected and every required field
    /// is present; otherwise one complete error.
    pub fn build(self) -> (r: Result<TokenRequest, OpenIdConnectError>)
        ensures
            r is Ok <==> spec_buildable(self),
            (r matches Ok(req) ==> {
                &&& Some(req.spec_grant_type()) == spec_parsed_grant(self)
                &&& req.spec_code() == opt_view(self.code)
                &&& req.spec_redirect_uri() == opt_view(self.redirect_uri)
                &&& req.wf()
            }),
            (r matches Err(e) ==> spec_build_error(self, e)),
    {
        if !self.validation_state.valid {
            return Err(OpenIdConnectError::ValidationError(self.validation_state));
        }
        match self.grant_type {
            None => {
                let mut st = ValidationState::new();
                st.reject(
                    "grant_type",
                    RejectionReason::MissingRequiredValue("grant_type".to_owned()),
                );
                proof {
                    assert(st@ =~= seq![
                        (("grant_type"@, ReasonModel::MissingRequiredValue("grant_type"@))),
                    ]);
                }
                Err(OpenIdConnectError::ValidationError(st))
            },
            Some(gt_str) => {
                match GrantType::from_str(gt_str.as_str()) {
                    Err(e) => Err(e),
                    Ok(grant_type) => {
                        if grant_type == GrantType::AuthorizationCode && self.code.is_none() {
                            let mut st = ValidationState::new();
                            st.reject(
                                "code",
                                RejectionReason::MissingRequiredValue("code".to_owned()),
                            );
                            proof {
                                assert(st@ =~= seq![
                                    (("code"@, ReasonModel::MissingRequiredValue("code"@))),
                                ]);
                            }
                            Err(OpenIdConnectError::ValidationError(st))
                        } else if grant_type != GrantType::ClientCredentials
                            && self.redirect_uri.is_none() {
                            let mut st = ValidationState::new();
                            st.reject(
                                "redirect_uri",
                                RejectionReason::MissingRequiredValue("redirect_uri".to_owned()),
                            );
                            proof {
                                assert(st@ =~= seq![
                                    ((
                                    "redirect_uri"@,
                                    ReasonModel::MissingRequiredValue("redirect_uri"@),
                                    )),
                                ]);
                            }
                            Err(OpenIdConnectError::ValidationError(st))
                        } else {
                            Ok(TokenRequest {
                                grant_type,
                                code: self.code,
                                redirect_uri: self.redirect_uri,
                            })
                        }
                    },
                }
            },
        }
    }

    /// The canonical pipeline from raw parameters to a typed request: an
    /// empty builder, loaded, validated in one pass, built.
    pub fn build_from_params(params: &ParamMap) -> (r: Result<TokenRequest, OpenIdConnectError>)
        requires
            params.wf(),
        ensures
            spec_build_outcome(params@, r),
    {
        let mut builder = TokenRequestBuilder::new();
        match builder.load_params(params) {
            Err(e) => {
                return Err(e);
            },
            Ok(_) => {},
        }
        match builder.validate() {
            Err(e) => {
                return Err(e);
            },
            Ok(_) => {},
        }
        proof {
            let gt = model_one_value(params@, "grant_type"@);
            let code = model_one_value(params@, "code"@);
            let ru = model_one_value(params@, "redirect_uri"@);
            if spec_token_rejections(gt, code, ru).len() == 0 {
                lemma_no_rejections_buildable(gt, code, ru);
            }
        }
        builder.build()
    }

    /// Read a whole form-encoded request body into a typed request: an
    /// empty body is rejected outright, anything else goes through the
    /// parameter pipeline.
    pub fn build_from_body(body: &str) -> (r: Result<TokenRequest, OpenIdConnectError>)
        ensures
            (model_group(form_pairs_of(body@)).len() == 0 ==> (r matches Err(e) && (
            e matches OpenIdConnectError::UrlDecodingError(_)))),
            (model_group(form_pairs_of(body@)).len() > 0 ==> spec_build_outcome(
                model_group(form_pairs_of(body@)),
                r,
            )),
    {
        let params = params_from_body(body);
        if params.key_count() == 0 {
            return Err(OpenIdConnectError::UrlDecodingError("empty query string".to_owned()));
        }
        TokenRequestBuilder::build_from_params(&params)
    }
}

/// What the parameter pipeline answers for a given multimap: the first
/// ambiguous key's error, else the complete rejection record, else the
/// typed request.
pub open spec fn spec_build_outcome(
    m: Seq<(Seq<char>, Seq<Seq<char>>)>,
    r: Result<TokenRequest, OpenIdConnectError>,
) -> bool {
    if model_ambiguous(m, "grant_type"@) {
        r matches Err(e) && (e matches OpenIdConnectError::ParamError(pe) && (
        pe matches ParamError::MultipleValues(k) && k@ == "grant_type"@))
    } else if model_ambiguous(m, "code"@) {
        r matches Err(e) && (e matches OpenIdConnectError::ParamError(pe) && (
        pe matches ParamError::MultipleValues(k) && k@ == "code"@))
    } else if model_ambiguous(m, "redirect_uri"@) {
        r matches Err(e) && (e matches OpenIdConnectError::ParamError(pe) && (
        pe matches ParamError::MultipleValues(k) && k@ == "redirect_uri"@))
    } else {
        let gt = model_one_value(m, "grant_type"@);
        let code = model_one_value(m, "code"@);
        let ru = model_one_value(m, "redirect_uri"@);
        let rejections = spec_token_rejections(gt, code, ru);
        if rejections.len() > 0 {
            r matches Err(e) && (e matches OpenIdConnectError::ValidationError(st) && st@
                == rejections && !st.valid)
        } else {
            r matches Ok(req) && Some(req.spec_grant_type()) == spec_parsed_grant_opt(gt)
                && req.spec_code() == code && req.spec_redirect_uri() == ru && req.wf()
        }
    }
}

/// An empty rejection record means the raw fields were complete: the
/// grant type parses and every field it requires is present.
proof fn lemma_no_rejections_buildable(
    gt: Option<Seq<char>>,
    code: Option<Seq<char>>,
    ru: Option<Seq<char>>,
)
    requires
        spec_token_rejections(gt, code, ru).len() == 0,
    ensures
        gt is Some,
        spec_parsed_grant_opt(gt) is Some,
        spec_parsed_grant_opt(gt) == Some(GrantType::AuthorizationCode) ==> code is Some,
        spec_parsed_grant_opt(gt) != Some(GrantType::ClientCredentials) ==> ru is Some,
{
}

/// The exchange collaborator behind the token endpoint: consumes a
/// single-use authorization code, checks redirect-URI consistency, and
/// mints the token artifacts. Implemented by the hosting application over
/// its persistence layer.
pub trait TokenRepo {
    fn exchange_auth_code(&mut self, code: &str) -> Result<Token, OpenIdConnectError>;
}

/// What the token endpoint decides to do for one validated request,
/// before any exchange work happens.
pub enum ExchangePlan {
    /// Hand this authorization code to the exchange collaborator.
    ExchangeAuthCode { code: String },
    /// Answer with this error; the collaborator is never consulted.
    Fail { error: OpenIdConnectError },
}

/// Mathematical model of an exchange plan.
pub ghost enum PlanModel {
    ExchangeAuthCode(Seq<char>),
    Fail(OpenIdConnectError),
}

impl View for ExchangePlan {
    type V = PlanModel;

    open spec fn view(&self) -> PlanModel {
        match self {
            ExchangePlan::ExchangeAuthCode { code } => PlanModel::ExchangeAuthCode(code@),
            ExchangePlan::Fail { error } => PlanModel::Fail(*error),
        }
    }
}

/// The endpoint's decision for a validated request: the policy gate comes
/// strictly after validation and strictly before any exchange work, a
/// disabled grant type fails with `UnsupportedGrantType`, the
/// client-credentials exchange fails loudly as unimplemented, and a
/// missing code despite validation is an internal-consistency fault.
pub open spec fn spec_exchange_plan(site: SiteConfig, request: TokenRequest) -> PlanModel {
    if !site.spec_grant_enabled(request.spec_grant_type()) {
        PlanModel::Fail(OpenIdConnectError::UnsupportedGrantType(request.spec_grant_type()))
    } else {
        match request.spec_grant_type() {
            GrantType::AuthorizationCode => match request.spec_code() {
                Some(c) => PlanModel::ExchangeAuthCode(c),
                None => PlanModel::Fail(OpenIdConnectError::AuthCodeError),
            },
            GrantType::ClientCredentials => PlanModel::Fail(OpenIdConnectError::NotImplemented),
        }
    }
}

/// Decide, without side effects, what one validated request leads to.
pub fn plan_token_exchange(site: &SiteConfig, request: &TokenRequest) -> (p: ExchangePlan)
    ensures
        p@ == spec_exchange_plan(*site, *request),
{
    if site.grant_enabled(request.grant_type()) {
        match request.grant_type() {
            GrantType::AuthorizationCode => match request.code() {
                Some(code) => (ExchangePlan::ExchangeAuthCode { code: code.clone() }),
                None => (ExchangePlan::Fail { error: OpenIdConnectError::AuthCodeError }),
            },
            GrantType::ClientCredentials => (ExchangePlan::Fail {
                error: OpenIdConnectError::NotImplemented,
            }),
        }
    } else {
        ExchangePlan::Fail {
            error: OpenIdConnectError::UnsupportedGrantType(request.grant_type()),
        }
    }
}

/// Carry out the endpoint's decision: at most one exchange call, and none
/// at all unless the plan asks for one.
pub fn handle_token_request<R: TokenRepo>(
    repo: &mut R,
    site: &SiteConfig,
    request: &TokenRequest,
) -> (r: Result<Token, OpenIdConnectError>)
    ensures
        (spec_exchange_plan(*site, *request) matches PlanModel::Fail(e) ==> r == Err::<
            Token,
            OpenIdConnectError,
        >(e)),
        (r is Ok ==> spec_exchange_plan(*site, *request) is ExchangeAuthCode),
        (r is Ok ==> site.spec_grant_enabled(request.spec_grant_type())
            && request.spec_grant_type() == GrantType::AuthorizationCode),
{
    let plan = plan_token_exchange(site, request);
    match plan {
        ExchangePlan::ExchangeAuthCode { code } => repo.exchange_auth_code(code.as_str()),
        ExchangePlan::Fail { error } => Err(error),
    }
}

/// Gating precedes exchange: a request for a grant type that site policy
/// disables is answered with `UnsupportedGrantType` naming that grant
/// type, and the plan never asks for an exchange.
pub proof fn lemma_grant_gating(site: SiteConfig, request: TokenRequest)
    requires
        !site.spec_grant_enabled(request.spec_grant_type()),
    ensures
        spec_exchange_plan(site, request) == PlanModel::Fail(
            OpenIdConnectError::UnsupportedGrantType(request.spec_grant_type()),
        ),
{
}

/// Validation is complete, never fail-fast: an input missing both its
/// grant type and its redirect URI is rejected for both fields in the
/// same pass, whatever else it holds.
pub proof fn lemma_validation_completeness(
    gt: Option<Seq<char>>,
    code: Option<Seq<char>>,
    ru: Option<Seq<char>>,
)
    requires
        gt is None,
        ru is None,
    ensures
        spec_token_rejections(gt, code, ru) == seq![
            (("grant_type"@, ReasonModel::MissingRequiredValue("grant_type"@))),
            (("redirect_uri"@, ReasonModel::MissingRequiredValue("redirect_uri"@))),
        ],
{
    assert(spec_token_rejections(gt, code, ru) =~= seq![
        (("grant_type"@, ReasonModel::MissingRequiredValue("grant_type"@))),
        (("redirect_uri"@, ReasonModel::MissingRequiredValue("redirect_uri"@))),
    ]);
}

/// The success and error body shapes the wire format fixes.
#[derive(Clone, Debug)]
pub struct TokenResponse {
    pub access_token: String,
    pub token_type: crate::tokens::TokenType,
    pub refresh_token: String,
    pub expires_in: u32,
    pub id_token: String,
}

#[derive(Clone, Debug)]
pub struct TokenErrorResponse;

/// The whole token endpoint for one request body: parse, validate, gate,
/// exchange. Everything but the exchange call itself is decided here.
pub fn token_post_flow<R: TokenRepo>(repo: &mut R, site: &SiteConfig, body: &str) -> (r: Result<
    Token,
    OpenIdConnectError,
>)
    ensures
        (model_group(form_pairs_of(body@)).len() == 0 ==> (r matches Err(e) && (
        e matches OpenIdConnectError::UrlDecodingError(_)))),
        (r is Ok ==> {
            let m = model_group(form_pairs_of(body@));
            let gt = spec_parsed_grant_opt(model_one_value(m, "grant_type"@));
            &&& gt is Some
            &&& gt matches Some(g) ==> (site.spec_grant_enabled(g) && g
                == GrantType::AuthorizationCode)
        }),
        ({
            let m = model_group(form_pairs_of(body@));
            let rejections = spec_token_rejections(
                model_one_value(m, "grant_type"@),
                model_one_value(m, "code"@),
                model_one_value(m, "redirect_uri"@),
            );
            &&& (m.len() > 0 && !model_ambiguous(m, "grant_type"@) && !model_ambiguous(m, "code"@)
                && !model_ambiguous(m, "redirect_uri"@) && rejections.len() > 0 ==> (
            r matches Err(e) && (e matches OpenIdConnectError::ValidationError(st) && st@
                == rejections && !st.valid)))
            &&& (m.len() > 0 && !model_ambiguous(m, "grant_type"@) && !model_ambiguous(m, "code"@)
                && !model_ambiguous(m, "redirect_uri"@) && rejections.len() == 0 ==> (
            match spec_parsed_grant_opt(model_one_value(m, "grant_type"@)) {
                Some(g) => {
                    &&& (!site.spec_grant_enabled(g) ==> r == Err::<Token, OpenIdConnectError>(
                        OpenIdConnectError::UnsupportedGrantType(g),
                    ))
                    &&& (site.spec_grant_enabled(g) && g == GrantType::ClientCredentials ==> r
                        == Err::<Token, OpenIdConnectError>(OpenIdConnectError::NotImplemented))
                },
                None => false,
            }))
        }),
{
    let request = match TokenRequestBuilder::build_from_body(body) {
        Ok(req) => req,
        Err(e) => {
            return Err(e);
        },
    };
    handle_token_request(repo, site, &request)
}

} // verus!
