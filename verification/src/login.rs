use vstd::prelude::*;

verus! {

/// The session cookie as this core models it: its name, value, and the
/// policy attributes the login configuration fixes.
#[derive(Debug, PartialEq, Eq)]
pub struct CookieAttributes {
    pub name: String,
    pub value: String,
    pub http_only: bool,
    pub secure: bool,
    pub path: String,
}

impl Clone for CookieAttributes {
    fn clone(&self) -> (r: Self)
        ensures
            r == *self,
    {
        CookieAttributes {
            name: self.name.clone(),
            value: self.value.clone(),
            http_only: self.http_only,
            secure: self.secure,
            path: self.path.clone(),
        }
    }
}

/// Configuration for login handling: the base cookie every session
/// cookie starts from.
#[derive(Debug, PartialEq, Eq)]
pub struct LoginConfig {
    pub cookie_base: CookieAttributes,
}

impl Clone for LoginConfig {
    fn clone(&self) -> (r: Self)
        ensures
            r == *self,
    {
        LoginConfig { cookie_base: self.cookie_base.clone() }
    }
}

/// The default cookie policy: named for the logged-in user, empty value,
/// HTTP-only, secure, scoped to the site root.
pub open spec fn spec_is_default_config(c: LoginConfig) -> bool {
    &&& c.cookie_base.name@ == "logged_in_user"@
    &&& c.cookie_base.value@.len() == 0
    &&& c.cookie_base.http_only
    &&& c.cookie_base.secure
    &&& c.cookie_base.path@ == "/"@
}

impl LoginConfig {
    /// The default configuration: a secure, HTTP-only, root-scoped
    /// session cookie.
    pub fn defaults() -> (c: LoginConfig)
        ensures
            spec_is_default_config(c),
    {
        LoginConfig {
            cookie_base: CookieAttributes {
                name: "logged_in_user".to_owned(),
                value: String::new(),
                http_only: true,
                secure: true,
                path: "/".to_owned(),
            },
        }
    }
}

/// Login middleware state: the signing key handed to the cookie codec,
/// and the configuration every handler reads.
#[derive(Debug)]
pub struct LoginManager {
    signing_key: Vec<u8>,
    /// Configuration for this manager.
    pub config: LoginConfig,
}

impl LoginManager {
    pub closed spec fn spec_signing_key(self) -> Seq<u8> {
        self.signing_key@
    }

    pub closed spec fn spec_config(self) -> LoginConfig {
        self.config
    }

    /// A new login manager around the provided signing key, with the
    /// default cookie policy.
    pub fn new(signing_key: Vec<u8>) -> (m: LoginManager)
        ensures
            m.spec_signing_key() == signing_key@,
            spec_is_default_config(m.spec_config()),
    {
        LoginManager { signing_key, config: LoginConfig::defaults() }
    }

    /// The key the cookie codec signs and verifies with.
    pub fn signing_key(&self) -> (k: &Vec<u8>)
        ensures
            k@ == self.spec_signing_key(),
    {
        &self.signing_key
    }
}

/// A session principal: anything that can yield a stable identifier.
pub trait LoginSession: Sized + Clone + Send + Sync {
    /// The principal's stable identifier, if it has one.
    fn get_id(&self) -> Option<String>;
}

/// The login state of one request: the session the verified cookie
/// decoded to, if any, paired with the cookie policy in force. Built per
/// request, discarded at its end.
#[derive(Clone, Debug)]
pub struct Login<U: LoginSession> {
    pub session: Option<U>,
    pub config: LoginConfig,
}

impl<U: LoginSession> Login<U> {
    /// Pure constructor with no side effects: it pairs the decoded
    /// session, if any, with the configuration, and never touches the
    /// cookie itself.
    pub fn new(config: &LoginConfig, session: Option<U>) -> (l: Login<U>)
        ensures
            l.session == session,
            l.config == *config,
    {
        Login { session, config: config.clone() }
    }

    /// The identity this login stands for: nothing unless a session is
    /// present and yields an identifier. A session with no retrievable
    /// identifier counts as not logged in.
    pub fn effective_id(&self) -> (r: Option<String>)
        ensures
            self.session is None ==> r is None,
    {
        match &self.session {
            Some(session) => session.get_id(),
            None => None,
        }
    }
}

/// Session identity cannot be conjured from a bad cookie: a cookie the
/// codec rejects decodes to no session, and any two logins without a
/// session under one configuration are the same value — indistinguishable
/// from never having been logged in.
pub proof fn lemma_no_session_is_anonymous<U: LoginSession>(a: Login<U>, b: Login<U>)
    requires
        a.session is None,
        b.session is None,
        a.config == b.config,
    ensures
        a == b,
{
}

} // verus!
