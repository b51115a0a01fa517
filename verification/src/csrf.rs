//! The anti-forgery token of the flow: generated at initiation, bound to the
//! visitor's session, and checked once against the `state` that the provider
//! hands back.

use vstd::prelude::*;
use crate::errors::CsrfError;
use crate::session::SessionStore;
use crate::text::str_eq;

verus! {

/// The session key under which the live token is filed.
pub const CSRF_TOKEN_KEY: &'static str = "CSRF_TOKEN";

/// The number of characters of a generated token.
pub const CSRF_TOKEN_LENGTH: usize = 32;

/// An ASCII letter or digit.
pub open spec fn is_alphanumeric(c: char) -> bool {
    ('0' <= c && c <= '9') || ('a' <= c && c <= 'z') || ('A' <= c && c <= 'Z')
}

/// The shape of every generated token.
pub open spec fn is_generated_token(token: Seq<char>) -> bool {
    &&& token.len() == CSRF_TOKEN_LENGTH
    &&& forall|i: int| 0 <= i < token.len() ==> is_alphanumeric(#[trigger] token[i])
}

/// The token that is live in a session, if any.
pub open spec fn bound_token(session: Map<Seq<char>, Seq<char>>) -> Option<Seq<char>> {
    if session.contains_key(CSRF_TOKEN_KEY@) {
        Some(session[CSRF_TOKEN_KEY@])
    } else {
        None
    }
}

/// The session after `token` was bound to it.
pub open spec fn session_after_bind(
    session: Map<Seq<char>, Seq<char>>,
    token: Seq<char>,
) -> Map<Seq<char>, Seq<char>> {
    session.insert(CSRF_TOKEN_KEY@, token)
}

/// What a check of `supplied` against a session answers.
pub open spec fn verdict(session: Map<Seq<char>, Seq<char>>, supplied: Seq<char>) -> Result<
    (),
    CsrfError,
> {
    match bound_token(session) {
        None => Err(CsrfError::Missing),
        Some(token) => if token == supplied {
            Ok(())
        } else {
            Err(CsrfError::Mismatch)
        },
    }
}

/// The session after a check of `supplied`: the token is dropped when the
/// check passed, and only then.
pub open spec fn session_after_verify(
    session: Map<Seq<char>, Seq<char>>,
    supplied: Seq<char>,
) -> Map<Seq<char>, Seq<char>> {
    if verdict(session, supplied) is Ok {
        session.remove(CSRF_TOKEN_KEY@)
    } else {
        session
    }
}

/// `loco_rs::hash::random_string`: `length` characters, each drawn from the
/// ASCII letters and digits by the thread's random generator.
#[verifier::external_body]
fn random_alphanumeric(length: usize) -> (text: String)
    ensures
        text@.len() == length,
        forall|i: int| 0 <= i < text@.len() ==> is_alphanumeric(#[trigger] text@[i]),
{
    loco_rs::hash::random_string(length)
}

/// Generates, binds and checks anti-forgery tokens.
pub struct CsrfBinder;

impl CsrfBinder {
    /// A fresh random token.
    pub fn generate() -> (token: String)
        ensures
            is_generated_token(token@),
    {
        random_alphanumeric(CSRF_TOKEN_LENGTH)
    }

    /// Makes `token` the one live token of the session, in place of any
    /// earlier one.
    pub fn bind(session: &mut SessionStore, token: String)
        ensures
            final(session)@ == session_after_bind(old(session)@, token@),
    {
        session.set(CSRF_TOKEN_KEY, token);
    }

    /// Checks the `state` of a callback against the live token. A passed
    /// check uses the token up; a failed one leaves the session as it was.
    pub fn verify(session: &mut SessionStore, supplied_state: &str) -> (checked: Result<
        (),
        CsrfError,
    >)
        ensures
            checked == verdict(old(session)@, supplied_state@),
            final(session)@ == session_after_verify(old(session)@, supplied_state@),
    {
        match session.get(CSRF_TOKEN_KEY) {
            None => Err(CsrfError::Missing),
            Some(token) => {
                if str_eq(token.as_str(), supplied_state) {
                    session.remove(CSRF_TOKEN_KEY);
                    Ok(())
                } else {
                    Err(CsrfError::Mismatch)
                }
            },
        }
    }
}

/// A check passes exactly when the supplied state is the token that was bound
/// last, whatever was bound before it.
pub proof fn verify_accepts_only_the_last_bound_token(
    session: Map<Seq<char>, Seq<char>>,
    earlier: Seq<char>,
    token: Seq<char>,
    supplied: Seq<char>,
)
    ensures
        verdict(session_after_bind(session, token), supplied) is Ok <==> supplied == token,
        verdict(session_after_bind(session_after_bind(session, earlier), token), supplied) is Ok
            <==> supplied == token,
        supplied != token ==> verdict(session_after_bind(session, token), supplied) == Err::<
            (),
            CsrfError,
        >(CsrfError::Mismatch),
{
}

/// A token is good for one check: once a check has passed, the same state is
/// answered with `Missing`.
pub proof fn verified_token_is_spent(session: Map<Seq<char>, Seq<char>>, supplied: Seq<char>)
    requires
        verdict(session, supplied) is Ok,
    ensures
        verdict(session_after_verify(session, supplied), supplied) == Err::<(), CsrfError>(
            CsrfError::Missing,
        ),
{
}

/// A failed check changes nothing, so the live token stays good for the
/// genuine callback.
pub proof fn failed_check_keeps_the_token(session: Map<Seq<char>, Seq<char>>, supplied: Seq<char>)
    requires
        verdict(session, supplied) is Err,
    ensures
        session_after_verify(session, supplied) == session,
{
}

} // verus!
