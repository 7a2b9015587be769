//! The token manager: the credential-exchange request and response, and
//! the bearer token's lifecycle as an explicit state machine with a
//! single-flight refresh discipline.

use vstd::prelude::*;

use crate::codec::{spec_i64_field, spec_str_field, spec_u64_field};
use crate::error::{ApiError, ApiErrorV, AuthError, AuthErrorV};
use crate::json::{JsonV, JsonValue};

verus! {

broadcast use vstd::string::group_string_axioms;

/// The URL of the provider's token endpoint.
pub fn token_endpoint() -> (r: &'static str)
    ensures
        r@ == "https://www.reddit.com/api/v1/access_token"@,
{
    "https://www.reddit.com/api/v1/access_token"
}

/// The body of a password-grant exchange for the given resource owner.
pub fn login_body(username: &str, password: &str) -> (r: String)
    ensures
        r@ == "grant_type=password&username="@ + username@ + "&password="@ + password@,
{
    let mut s = "grant_type=password&username=".to_owned();
    s.append(username);
    s.append("&password=");
    s.append(password);
    proof {
        assert(s@ =~= "grant_type=password&username="@ + username@ + "&password="@ + password@);
    }
    s
}

/// What the token endpoint's JSON answer means: an `error`/`message` pair
/// is a provider failure; otherwise `access_token` and `expires_in` carry
/// the new credential; any other shape is malformed.
pub open spec fn spec_parse_login(j: JsonV) -> Result<(Seq<char>, u64), AuthErrorV> {
    match j {
        JsonV::Obj(pairs) => {
            if spec_i64_field(pairs, "error"@) is Some && spec_str_field(pairs, "message"@)
                is Some {
                Err(
                    AuthErrorV::Provider(
                        ApiErrorV {
                            code: spec_i64_field(pairs, "error"@)->Some_0,
                            message: spec_str_field(pairs, "message"@)->Some_0,
                        },
                    ),
                )
            } else if spec_str_field(pairs, "access_token"@) is Some && spec_u64_field(
                pairs,
                "expires_in"@,
            ) is Some {
                Ok(
                    (
                        spec_str_field(pairs, "access_token"@)->Some_0,
                        spec_u64_field(pairs, "expires_in"@)->Some_0,
                    ),
                )
            } else {
                Err(AuthErrorV::Malformed)
            }
        },
        _ => Err(AuthErrorV::Malformed),
    }
}

/// Reads the token endpoint's answer: the new token and its lifetime in
/// seconds, or the provider's reported failure.
pub fn parse_login_response(j: &JsonValue) -> (r: Result<(String, u64), AuthError>)
    ensures
        match r {
            Ok(p) => spec_parse_login(j@) == Ok::<(Seq<char>, u64), AuthErrorV>((p.0@, p.1)),
            Err(e) => spec_parse_login(j@) == Err::<(Seq<char>, u64), AuthErrorV>(e@),
        },
{
    let fields = match j {
        JsonValue::Obj(fields) => fields,
        _ => {
            return Err(AuthError::Malformed);
        },
    };
    let code = crate::codec::i64_field(fields, "error");
    let message = crate::codec::str_field(fields, "message");
    match (code, message) {
        (Some(code), Some(message)) => {
            return Err(AuthError::Provider(ApiError { code, message }));
        },
        _ => {},
    }
    let token = crate::codec::str_field(fields, "access_token");
    let expires = crate::codec::u64_field(fields, "expires_in");
    match (token, expires) {
        (Some(token), Some(expires)) => Ok((token, expires)),
        _ => Err(AuthError::Malformed),
    }
}

/// What a token check decides.
#[derive(Clone, Copy, Debug, PartialEq, Eq, Structural)]
pub enum TokenDecision {
    /// The stored token is valid: use it.
    UseToken,
    /// No valid token and no refresh under way: this caller logs in.
    StartLogin,
    /// A refresh is already under way: wait for its result.
    Wait,
}

/// The bearer token's state: the token itself with its expiry instant, and
/// whether a refresh is in flight.
#[derive(Debug, Clone)]
pub struct TokenState {
    /// The bearer token, once one was obtained.
    pub token: Option<String>,
    /// The instant the token expires, as seconds of epoch time.
    pub expires_at: u64,
    /// Whether a login is under way.
    pub refreshing: bool,
}

/// The mathematical mirror of [`TokenState`].
#[verifier::ext_equal]
pub struct TokenStateV {
    /// The bearer token, once one was obtained.
    pub token: Option<Seq<char>>,
    /// The instant the token expires.
    pub expires_at: u64,
    /// Whether a login is under way.
    pub refreshing: bool,
}

impl View for TokenState {
    type V = TokenStateV;

    open spec fn view(&self) -> TokenStateV {
        TokenStateV {
            token: match self.token {
                Some(t) => Some(t@),
                None => None,
            },
            expires_at: self.expires_at,
            refreshing: self.refreshing,
        }
    }
}

/// A token may be attached to a request only while `now` has not passed
/// its expiry.
pub open spec fn spec_token_valid(s: TokenStateV, now: u64) -> bool {
    s.token is Some && now <= s.expires_at
}

/// What one `ensure_valid` check does to the state, and what it decides.
pub open spec fn spec_token_step(s: TokenStateV, now: u64) -> (TokenStateV, TokenDecision) {
    if spec_token_valid(s, now) {
        (s, TokenDecision::UseToken)
    } else if s.refreshing {
        (s, TokenDecision::Wait)
    } else {
        (TokenStateV { refreshing: true, ..s }, TokenDecision::StartLogin)
    }
}

impl TokenState {
    /// The state before any login.
    pub fn new() -> (r: TokenState)
        ensures
            r@ == (TokenStateV { token: None, expires_at: 0, refreshing: false }),
    {
        TokenState { token: None, expires_at: 0, refreshing: false }
    }

    /// One `ensure_valid` check: decides whether the stored token can be
    /// used, whether this caller must log in, or whether a login already
    /// under way must be awaited; marks the refresh in the last case.
    pub fn ensure_valid_step(&mut self, now: u64) -> (d: TokenDecision)
        ensures
            final(self)@ == spec_token_step(old(self)@, now).0,
            d == spec_token_step(old(self)@, now).1,
            d is UseToken ==> spec_token_valid(old(self)@, now),
    {
        let valid = match &self.token {
            Some(_) => now <= self.expires_at,
            None => false,
        };
        if valid {
            TokenDecision::UseToken
        } else if self.refreshing {
            TokenDecision::Wait
        } else {
            self.refreshing = true;
            TokenDecision::StartLogin
        }
    }

    /// The token the state holds, for attaching to a request.
    pub fn current_token(&self) -> (r: Option<&String>)
        ensures
            match r {
                Some(t) => self@.token == Some(t@),
                None => self@.token is None,
            },
    {
        self.token.as_ref()
    }

    /// Installs the result of a successful login: the whole pair is
    /// replaced and the refresh is over.
    pub fn apply_login(&mut self, token: String, expires_in: u64, now: u64)
        requires
            now + expires_in <= u64::MAX,
        ensures
            final(self)@ == (TokenStateV {
                token: Some(token@),
                expires_at: (now + expires_in) as u64,
                refreshing: false,
            }),
    {
        self.token = Some(token);
        self.expires_at = now + expires_in;
        self.refreshing = false;
    }

    /// Records that the login under way failed: the refresh is over and
    /// the stored pair is unchanged.
    pub fn login_failed(&mut self)
        ensures
            final(self)@ == (TokenStateV { refreshing: false, ..old(self)@ }),
    {
        self.refreshing = false;
    }
}

/// Single flight: while a login is under way, a further check never starts
/// a second one — it waits, and leaves the state unchanged.
pub proof fn lemma_single_flight(s: TokenStateV, now: u64)
    requires
        s.refreshing,
    ensures
        spec_token_step(s, now).1 != TokenDecision::StartLogin,
        !spec_token_valid(s, now) ==> spec_token_step(s, now) == (s, TokenDecision::Wait),
{
}

/// Of any number of checks made before the first login resolves, only the
/// first starts a login: every later one, at any instant without a valid
/// token, waits on the one under way.
pub proof fn lemma_concurrent_checks_collapse(s: TokenStateV, now1: u64, now2: u64)
    requires
        !spec_token_valid(s, now1),
        !s.refreshing,
        !spec_token_valid(spec_token_step(s, now1).0, now2),
    ensures
        spec_token_step(s, now1).1 == TokenDecision::StartLogin,
        spec_token_step(spec_token_step(s, now1).0, now2).1 == TokenDecision::Wait,
        spec_token_step(spec_token_step(s, now1).0, now2).0 == spec_token_step(s, now1).0,
{
}

/// All callers that find the refreshed state valid observe the very token
/// that the one login installed.
pub proof fn lemma_all_observe_login_result(s: TokenStateV, tok: Seq<char>, expiry: u64, now: u64)
    requires
        now <= expiry,
    ensures
        spec_token_step(
            TokenStateV { token: Some(tok), expires_at: expiry, refreshing: false },
            now,
        ) == (
            TokenStateV { token: Some(tok), expires_at: expiry, refreshing: false },
            TokenDecision::UseToken,
        ),
{
}


/// What the token endpoint's body means, from text.
pub open spec fn spec_login_from_body(s: Seq<char>) -> Result<(Seq<char>, u64), crate::error::ErrorV> {
    match crate::json::json_of_text(s) {
        None => Err(crate::error::ErrorV::JsonSyntax),
        Some(j) => match spec_parse_login(j) {
            Ok(p) => Ok(p),
            Err(e) => Err(crate::error::ErrorV::Auth(e)),
        },
    }
}

/// Reads the token endpoint's answer out of its body text.
pub fn login_from_body(s: &str) -> (r: Result<(String, u64), crate::error::Error>)
    ensures
        match r {
            Ok(p) => spec_login_from_body(s@) == Ok::<(Seq<char>, u64), crate::error::ErrorV>(
                (p.0@, p.1),
            ),
            Err(e) => spec_login_from_body(s@) == Err::<
                (Seq<char>, u64),
                crate::error::ErrorV,
            >(e@),
        },
{
    match crate::json::parse_json(s) {
        None => Err(crate::error::Error::JsonSyntax),
        Some(j) => match parse_login_response(&j) {
            Ok(p) => Ok(p),
            Err(e) => Err(crate::error::Error::Auth(e)),
        },
    }
}

} // verus!
