//! The credential cookie: a short-lived container for the token response,
//! issued when a callback completes and checked by the guard in front of the
//! protected resource. Signing and encryption of the value happen where the
//! response is built; this module fixes what goes into the value and reads it
//! back.

use vstd::prelude::*;
use crate::codec::{
    has_at_concat, has_at_start, number_field, number_field_at, number_field_round_trip,
    optional_number_field, optional_number_field_at, optional_number_field_round_trip,
    optional_text_field, optional_text_field_at, optional_text_field_round_trip,
    read_number_field, read_optional_number_field, read_optional_text_field, read_text_field,
    text_field, text_field_at, text_field_round_trip, write_number_field,
    write_optional_number_field, write_optional_text_field, write_text_field,
};
use crate::errors::{AuthError, EncodingError};
use crate::text::{clone_optional_text, from_chars, optional_str, optional_text, to_chars};
use crate::token::{TokenResponse, TokenView};

verus! {

/// The name of the credential cookie.
pub const CREDENTIAL_COOKIE_NAME: &'static str = "oauth2_credential";

/// Where a visitor is sent after sign-in when the policy names no place.
pub const DEFAULT_PROTECTED_URL: &'static str = "/oauth2/protected";

/// The cookie policy of a provider client.
#[derive(Debug, Clone, PartialEq, Eq)]
pub struct CookieConfig {
    /// The protected resource to which a signed-in visitor is redirected.
    pub protected_url: Option<String>,
    pub domain: Option<String>,
    pub path: String,
    /// The time to live of the credential cookie, in seconds.
    pub ttl_seconds: u64,
    pub secure: bool,
    pub http_only: bool,
}

/// A cookie policy as plain values.
pub struct CookieConfigView {
    pub protected_url: Option<Seq<char>>,
    pub domain: Option<Seq<char>>,
    pub path: Seq<char>,
    pub ttl_seconds: u64,
    pub secure: bool,
    pub http_only: bool,
}

impl View for CookieConfig {
    type V = CookieConfigView;

    open spec fn view(&self) -> CookieConfigView {
        CookieConfigView {
            protected_url: optional_text(self.protected_url),
            domain: optional_text(self.domain),
            path: self.path@,
            ttl_seconds: self.ttl_seconds,
            secure: self.secure,
            http_only: self.http_only,
        }
    }
}

/// A cookie to attach to the redirect response. `value` is the plain
/// credential text, before it is sealed.
#[derive(Debug, Clone, PartialEq, Eq)]
pub struct CookieAttachment {
    pub name: String,
    pub value: String,
    pub domain: Option<String>,
    pub path: String,
    pub max_age_seconds: u64,
    pub secure: bool,
    pub http_only: bool,
}

/// A cookie as plain values.
pub struct CookieAttachmentView {
    pub name: Seq<char>,
    pub value: Seq<char>,
    pub domain: Option<Seq<char>>,
    pub path: Seq<char>,
    pub max_age_seconds: u64,
    pub secure: bool,
    pub http_only: bool,
}

impl View for CookieAttachment {
    type V = CookieAttachmentView;

    open spec fn view(&self) -> CookieAttachmentView {
        CookieAttachmentView {
            name: self.name@,
            value: self.value@,
            domain: optional_text(self.domain),
            path: self.path@,
            max_age_seconds: self.max_age_seconds,
            secure: self.secure,
            http_only: self.http_only,
        }
    }
}

/// A token response and the instant, in seconds, from which it is no longer
/// honoured.
#[derive(Debug, Clone, PartialEq, Eq)]
pub struct Credential {
    pub expires_at: u64,
    pub token: TokenResponse,
}

/// A credential as plain values.
pub struct CredentialView {
    pub expires_at: u64,
    pub token: TokenView,
}

impl View for Credential {
    type V = CredentialView;

    open spec fn view(&self) -> CredentialView {
        CredentialView { expires_at: self.expires_at, token: self.token@ }
    }
}

/// The text of a credential: the expiry instant, then the fields of the
/// token response, each framed so that it says where it ends.
pub open spec fn credential_text(c: CredentialView) -> Seq<char> {
    number_field(c.expires_at) + text_field(c.token.access_token) + optional_text_field(
        c.token.refresh_token,
    ) + optional_number_field(c.token.expires_in) + optional_text_field(c.token.scope)
        + text_field(c.token.raw)
}

/// The credential that a text spells, if it spells one: the six fields in
/// order, and nothing behind them.
pub open spec fn credential_of_text(s: Seq<char>) -> Option<CredentialView> {
    match number_field_at(s, 0) {
        None => None,
        Some((expires_at, p1)) => match text_field_at(s, p1) {
            None => None,
            Some((access_token, p2)) => match optional_text_field_at(s, p2) {
                None => None,
                Some((refresh_token, p3)) => match optional_number_field_at(s, p3) {
                    None => None,
                    Some((expires_in, p4)) => match optional_text_field_at(s, p4) {
                        None => None,
                        Some((scope, p5)) => match text_field_at(s, p5) {
                            None => None,
                            Some((raw, p6)) => if p6 == s.len() {
                                Some(
                                    CredentialView {
                                        expires_at,
                                        token: TokenView {
                                            access_token,
                                            refresh_token,
                                            expires_in,
                                            scope,
                                            raw,
                                        },
                                    },
                                )
                            } else {
                                None
                            },
                        },
                    },
                },
            },
        },
    }
}

/// Where a signed-in visitor is sent: the policy's protected URL, or the
/// default where the policy names none.
pub open spec fn redirect_target(config: CookieConfigView) -> Seq<char> {
    match config.protected_url {
        Some(url) => url,
        None => DEFAULT_PROTECTED_URL@,
    }
}

/// The cookie issued for `token` at the instant `now` under `config`. It
/// lives for the policy's time to live, whatever the lifetime of the token
/// itself, and carries the policy's domain, path and flags. There is none
/// where the expiry instant does not fit in 64 bits.
pub open spec fn issued_cookie(config: CookieConfigView, token: TokenView, now: u64) -> Result<
    CookieAttachmentView,
    EncodingError,
> {
    if now + config.ttl_seconds > u64::MAX {
        Err(EncodingError::ExpiryOutOfRange)
    } else {
        Ok(
            CookieAttachmentView {
                name: CREDENTIAL_COOKIE_NAME@,
                value: credential_text(
                    CredentialView { expires_at: (now + config.ttl_seconds) as u64, token },
                ),
                domain: config.domain,
                path: config.path,
                max_age_seconds: config.ttl_seconds,
                secure: config.secure,
                http_only: config.http_only,
            },
        )
    }
}

/// What the guard answers to a request that carries `value` as its
/// credential cookie at the instant `now`.
pub open spec fn guard_verdict(value: Option<Seq<char>>, now: u64) -> Result<TokenView, AuthError> {
    match value {
        None => Err(AuthError::MissingCredential),
        Some(text) => match credential_of_text(text) {
            None => Err(AuthError::MalformedCredential),
            Some(c) => if now < c.expires_at {
                Ok(c.token)
            } else {
                Err(AuthError::Expired)
            },
        },
    }
}

/// A text reads back as the credential it was written from.
pub proof fn credential_round_trip(c: CredentialView)
    requires
        c.token.fits(),
    ensures
        credential_of_text(credential_text(c)) == Some(c),
{
    let f1 = number_field(c.expires_at);
    let f2 = text_field(c.token.access_token);
    let f3 = optional_text_field(c.token.refresh_token);
    let f4 = optional_number_field(c.token.expires_in);
    let f5 = optional_text_field(c.token.scope);
    let f6 = text_field(c.token.raw);
    let s = credential_text(c);
    has_at_start(s, Seq::<char>::empty());
    assert(s + Seq::<char>::empty() =~= s);
    has_at_concat(s, 0, f1 + f2 + f3 + f4 + f5, f6);
    has_at_concat(s, 0, f1 + f2 + f3 + f4, f5);
    has_at_concat(s, 0, f1 + f2 + f3, f4);
    has_at_concat(s, 0, f1 + f2, f3);
    has_at_concat(s, 0, f1, f2);
    let p1 = f1.len() as int;
    let p2 = p1 + f2.len();
    let p3 = p2 + f3.len();
    let p4 = p3 + f4.len();
    let p5 = p4 + f5.len();
    number_field_round_trip(s, 0, c.expires_at);
    text_field_round_trip(s, p1, c.token.access_token);
    optional_text_field_round_trip(s, p2, c.token.refresh_token);
    optional_number_field_round_trip(s, p3, c.token.expires_in);
    optional_text_field_round_trip(s, p4, c.token.scope);
    text_field_round_trip(s, p5, c.token.raw);
}

/// The value of an issued cookie reads back as the token response it was
/// issued for. The guard honours it, answering with that token response,
/// until its time to live has elapsed, and rejects it as expired from then
/// on.
pub proof fn issued_cookie_round_trip_and_expiry(
    config: CookieConfigView,
    token: TokenView,
    issued_at: u64,
    now: u64,
)
    requires
        token.fits(),
        issued_cookie(config, token, issued_at) is Ok,
    ensures
        ({
            let cookie = issued_cookie(config, token, issued_at)->Ok_0;
            &&& credential_of_text(cookie.value) matches Some(c) && c.token == token
            &&& now - issued_at < config.ttl_seconds ==> guard_verdict(Some(cookie.value), now)
                == Ok::<TokenView, AuthError>(token)
            &&& now - issued_at >= config.ttl_seconds ==> guard_verdict(Some(cookie.value), now)
                == Err::<TokenView, AuthError>(AuthError::Expired)
        }),
{
    credential_round_trip(
        CredentialView { expires_at: (issued_at + config.ttl_seconds) as u64, token },
    );
}

impl CookieConfig {
    /// A copy of the policy.
    pub fn duplicate(&self) -> (copy: CookieConfig)
        ensures
            copy@ == self@,
    {
        CookieConfig {
            protected_url: clone_optional_text(&self.protected_url),
            domain: clone_optional_text(&self.domain),
            path: self.path.clone(),
            ttl_seconds: self.ttl_seconds,
            secure: self.secure,
            http_only: self.http_only,
        }
    }

    /// Where a signed-in visitor is sent.
    pub fn redirect_target(&self) -> (target: String)
        ensures
            target@ == redirect_target(self@),
    {
        match &self.protected_url {
            Some(url) => url.clone(),
            None => DEFAULT_PROTECTED_URL.to_owned(),
        }
    }
}

/// Builds credential cookies and reads them back.
pub struct CredentialCookieIssuer;

impl CredentialCookieIssuer {
    /// The credential cookie for `token`, issued at `now` (in seconds) under
    /// the policy `config`.
    pub fn issue(config: &CookieConfig, token: &TokenResponse, now: u64) -> (issued: Result<
        CookieAttachment,
        EncodingError,
    >)
        ensures
            match issued {
                Ok(cookie) => issued_cookie(config@, token@, now) == Ok::<
                    CookieAttachmentView,
                    EncodingError,
                >(cookie@),
                Err(e) => issued_cookie(config@, token@, now) == Err::<
                    CookieAttachmentView,
                    EncodingError,
                >(e),
            },
    {
        if config.ttl_seconds > u64::MAX - now {
            return Err(EncodingError::ExpiryOutOfRange);
        }
        let expires_at: u64 = now + config.ttl_seconds;
        let mut out: Vec<char> = Vec::new();
        write_number_field(&mut out, expires_at);
        write_text_field(&mut out, token.access_token.as_str());
        write_optional_text_field(&mut out, &token.refresh_token);
        write_optional_number_field(&mut out, token.expires_in);
        write_optional_text_field(&mut out, &token.scope);
        write_text_field(&mut out, token.raw.as_str());
        let size: usize = out.len();
        let value = from_chars(&out, 0, size);
        assert(value@ =~= credential_text(CredentialView { expires_at, token: token@ }));
        Ok(
            CookieAttachment {
                name: CREDENTIAL_COOKIE_NAME.to_owned(),
                value,
                domain: clone_optional_text(&config.domain),
                path: config.path.clone(),
                max_age_seconds: config.ttl_seconds,
                secure: config.secure,
                http_only: config.http_only,
            },
        )
    }

    /// Reads a cookie value back into the credential it was issued for.
    pub fn decode(value: &str) -> (decoded: Option<Credential>)
        ensures
            match decoded {
                Some(c) => credential_of_text(value@) == Some(c@),
                None => credential_of_text(value@) is None,
            },
    {
        let s = to_chars(value);
        let (expires_at, p1) = match read_number_field(&s, 0) {
            Some(read) => read,
            None => { return None; },
        };
        let (access_token, p2) = match read_text_field(&s, p1) {
            Some(read) => read,
            None => { return None; },
        };
        let (refresh_token, p3) = match read_optional_text_field(&s, p2) {
            Some(read) => read,
            None => { return None; },
        };
        let (expires_in, p4) = match read_optional_number_field(&s, p3) {
            Some(read) => read,
            None => { return None; },
        };
        let (scope, p5) = match read_optional_text_field(&s, p4) {
            Some(read) => read,
            None => { return None; },
        };
        let (raw, p6) = match read_text_field(&s, p5) {
            Some(read) => read,
            None => { return None; },
        };
        if p6 != s.len() {
            return None;
        }
        Some(
            Credential {
                expires_at,
                token: TokenResponse { access_token, refresh_token, expires_in, scope, raw },
            },
        )
    }

    /// The guard in front of the protected resource: the token response of the
    /// credential that the request carries, if it carries one that this
    /// library issued and whose time to live has not elapsed at `now`.
    pub fn authenticate(cookie_value: Option<&str>, now: u64) -> (outcome: Result<
        TokenResponse,
        AuthError,
    >)
        ensures
            match outcome {
                Ok(token) => guard_verdict(optional_str(cookie_value), now) == Ok::<
                    TokenView,
                    AuthError,
                >(token@),
                Err(e) => guard_verdict(optional_str(cookie_value), now) == Err::<
                    TokenView,
                    AuthError,
                >(e),
            },
    {
        match cookie_value {
            None => Err(AuthError::MissingCredential),
            Some(value) => match Self::decode(value) {
                None => Err(AuthError::MalformedCredential),
                Some(credential) => {
                    if now < credential.expires_at {
                        Ok(credential.token)
                    } else {
                        Err(AuthError::Expired)
                    }
                },
            },
        }
    }
}

} // verus!
