use vstd::prelude::*;

use crate::params::{model_ambiguous, model_one_value, multimap_get_maybe_one, ParamMap};
use crate::result::{OpenIdConnectError, ParamError};
use crate::strutil::opt_view;
use crate::validation::{ReasonModel, RejectionReason, ValidationState};

verus! {

/// A validated registration request: both credentials present by
/// construction.
#[derive(Clone, Debug)]
pub struct RegisterRequest {
    username: String,
    password: String,
}

impl RegisterRequest {
    pub closed spec fn spec_username(self) -> Seq<char> {
        self.username@
    }

    pub closed spec fn spec_password(self) -> Seq<char> {
        self.password@
    }

    pub fn username(&self) -> (r: &String)
        ensures
            r@ == self.spec_username(),
    {
        &self.username
    }

    pub fn password(&self) -> (r: &String)
        ensures
            r@ == self.spec_password(),
    {
        &self.password
    }
}

/// Every violation loading the registration fields records, in checking
/// order.
pub open spec fn spec_register_rejections(
    username: Option<Seq<char>>,
    password: Option<Seq<char>>,
) -> Seq<(Seq<char>, ReasonModel)> {
    let r0 = Seq::<(Seq<char>, ReasonModel)>::empty();
    let r1 = if username is None {
        r0.push(("username"@, ReasonModel::MissingRequiredValue("username"@)))
    } else {
        r0
    };
    let r2 = if password is None {
        r1.push(("password"@, ReasonModel::MissingRequiredValue("password"@)))
    } else {
        r1
    };
    r2
}

/// Exactly which error `build` reports when it fails.
pub open spec fn spec_register_build_error(
    b: RegisterRequestBuilder,
    e: OpenIdConnectError,
) -> bool {
    if !b.validation_state.valid {
        e == OpenIdConnectError::ValidationError(b.validation_state)
    } else if b.username is None {
        &&& e matches OpenIdConnectError::ValidationError(st)
        &&& st@ == seq![(("username"@, ReasonModel::MissingRequiredValue("username"@)))]
        &&& !st.valid
    } else {
        &&& e matches OpenIdConnectError::ValidationError(st)
        &&& st@ == seq![(("password"@, ReasonModel::MissingRequiredValue("password"@)))]
        &&& !st.valid
    }
}

/// What the registration pipeline answers for a given multimap.
pub open spec fn spec_register_outcome(
    m: Seq<(Seq<char>, Seq<Seq<char>>)>,
    r: Result<RegisterRequest, OpenIdConnectError>,
) -> bool {
    if model_ambiguous(m, "username"@) {
        r matches Err(e) && (e matches OpenIdConnectError::ParamError(pe) && (
        pe matches ParamError::MultipleValues(k) && k@ == "username"@))
    } else if model_ambiguous(m, "password"@) {
        r matches Err(e) && (e matches OpenIdConnectError::ParamError(pe) && (
        pe matches ParamError::MultipleValues(k) && k@ == "password"@))
    } else {
        let u = model_one_value(m, "username"@);
        let p = model_one_value(m, "password"@);
        let rejections = spec_register_rejections(u, p);
        if rejections.len() > 0 {
            r matches Err(e) && (e matches OpenIdConnectError::ValidationError(st) && st@
                == rejections && !st.valid)
        } else {
            r matches Ok(req) && Some(req.spec_username()) == u && Some(req.spec_password()) == p
        }
    }
}

/// Mutable accumulator for the registration form's fields; rejections are
/// recorded while loading, and `build` is the single gate out.
#[derive(Clone, Debug)]
pub struct RegisterRequestBuilder {
    pub username: Option<String>,
    pub password: Option<String>,
    pub validation_state: ValidationState,
}

impl RegisterRequestBuilder {
    pub fn new() -> (b: RegisterRequestBuilder)
        ensures
            b.username is None,
            b.password is None,
            b.validation_state@ == Seq::<(Seq<char>, ReasonModel)>::empty(),
            b.validation_state.valid,
            b.validation_state.wf(),
    {
        RegisterRequestBuilder {
            username: None,
            password: None,
            validation_state: ValidationState::new(),
        }
    }

    /// Copy at most one value per field out of the raw multimap,
    /// recording a rejection for each missing field; an ambiguous key is
    /// an error.
    pub fn load_params(&mut self, params: &ParamMap) -> (r: Result<bool, OpenIdConnectError>)
        requires
            params.wf(),
        ensures
            match r {
                Ok(b) => {
                    &&& !model_ambiguous(params@, "username"@)
                    &&& !model_ambiguous(params@, "password"@)
                    &&& (model_one_value(params@, "username"@) matches Some(u) ==> opt_view(
                        final(self).username,
                    ) == Some(u))
                    &&& (model_one_value(params@, "username"@) is None ==> final(self).username
                        == old(self).username)
                    &&& (model_one_value(params@, "password"@) matches Some(p) ==> opt_view(
                        final(self).password,
                    ) == Some(p))
                    &&& (model_one_value(params@, "password"@) is None ==> final(self).password
                        == old(self).password)
                    &&& final(self).validation_state@ == old(self).validation_state@
                        + spec_register_rejections(
                        model_one_value(params@, "username"@),
                        model_one_value(params@, "password"@),
                    )
                    &&& final(self).validation_state.valid == (old(self).validation_state.valid
                        && spec_register_rejections(
                        model_one_value(params@, "username"@),
                        model_one_value(params@, "password"@),
                    ).len() == 0)
                    &&& (old(self).validation_state.wf() ==> final(self).validation_state.wf())
                    &&& b == final(self).validation_state.valid
                },
                Err(e) => {
                    &&& e matches OpenIdConnectError::ParamError(pe)
                    &&& pe matches ParamError::MultipleValues(k)
                    &&& (if model_ambiguous(params@, "username"@) {
                        k@ == "username"@ && *final(self) == *old(self)
                    } else {
                        k@ == "password"@ && model_ambiguous(params@, "password"@)
                    })
                },
            },
    {
        let ghost st0 = self.validation_state@;
        let username = match multimap_get_maybe_one(params, "username") {
            Ok(v) => v,
            Err(pe) => {
                return Err(OpenIdConnectError::ParamError(pe));
            },
        };
        match username {
            Some(u) => {
                self.username = Some(u);
            },
            None => {
                self.validation_state.reject(
                    "username",
                    RejectionReason::MissingRequiredValue("username".to_owned()),
                );
            },
        }
        let password = match multimap_get_maybe_one(params, "password") {
            Ok(v) => v,
            Err(pe) => {
                return Err(OpenIdConnectError::ParamError(pe));
            },
        };
        match password {
            Some(p) => {
                self.password = Some(p);
            },
            None => {
                self.validation_state.reject(
                    "password",
                    RejectionReason::MissingRequiredValue("password".to_owned()),
                );
            },
        }
        proof {
            assert(self.validation_state@ =~= st0 + spec_register_rejections(
                model_one_value(params@, "username"@),
                model_one_value(params@, "password"@),
            ));
        }
        Ok(self.validation_state.valid)
    }

    /// The single gate out of the builder: a complete request exactly
    /// when nothing was rejected and both fields are present; otherwise
    /// one complete error.
    pub fn build(self) -> (r: Result<RegisterRequest, OpenIdConnectError>)
        ensures
            r is Ok <==> (self.validation_state.valid && self.username is Some && self.password
                is Some),
            (r matches Ok(req) ==> (match (self.username, self.password) {
                (Some(u), Some(p)) => req.spec_username() == u@ && req.spec_password() == p@,
                _ => false,
            })),
            (r matches Err(e) ==> spec_register_build_error(self, e)),
    {
        if !self.validation_state.valid {
            return Err(OpenIdConnectError::ValidationError(self.validation_state));
        }
        match (self.username, self.password) {
            (Some(username), Some(password)) => Ok(RegisterRequest { username, password }),
            (None, _) => {
                let mut st = ValidationState::new();
                st.reject(
                    "username",
                    RejectionReason::MissingRequiredValue("username".to_owned()),
                );
                proof {
                    assert(st@ =~= seq![
                        (("username"@, ReasonModel::MissingRequiredValue("username"@))),
                    ]);
                }
                Err(OpenIdConnectError::ValidationError(st))
            },
            (Some(_), None) => {
                let mut st = ValidationState::new();
                st.reject(
                    "password",
                    RejectionReason::MissingRequiredValue("password".to_owned()),
                );
                proof {
                    assert(st@ =~= seq![
                        (("password"@, ReasonModel::MissingRequiredValue("password"@))),
                    ]);
                }
                Err(OpenIdConnectError::ValidationError(st))
            },
        }
    }

    /// The canonical pipeline from raw parameters to a typed request.
    pub fn build_from_params(params: &ParamMap) -> (r: Result<
        RegisterRequest,
        OpenIdConnectError,
    >)
        requires
            params.wf(),
        ensures
            spec_register_outcome(params@, r),
    {
        let mut builder = RegisterRequestBuilder::new();
        match builder.load_params(params) {
            Err(e) => {
                return Err(e);
            },
            Ok(_) => {},
        }
        proof {
            let u = model_one_value(params@, "username"@);
            let p = model_one_value(params@, "password"@);
            if spec_register_rejections(u, p).len() == 0 {
                assert(u is Some && p is Some);
            }
        }
        builder.build()
    }
}

/// The empty registration form's fields, in display order, each with an
/// empty value.
pub fn new_register_form() -> (form: Vec<(String, String)>)
    ensures
        form@.len() == 2,
        form@[0].0@ == "username"@ && form@[0].1@.len() == 0,
        form@[1].0@ == "password"@ && form@[1].1@.len() == 0,
{
    let mut form: Vec<(String, String)> = Vec::new();
    form.push(("username".to_owned(), String::new()));
    form.push(("password".to_owned(), String::new()));
    form
}

} // verus!
