//! The three requests of a sign-in: the visitor asks for the provider's
//! authorization URL, the provider sends the visitor back with a code, and the
//! visitor, now holding a credential cookie, asks for the protected resource.
//!
//! Nothing here touches the network or a database. The callback is driven
//! through the state machine of [`crate::flow`]: `callback` takes it as far
//! as the code exchange, and `resume` takes it on from each report of the
//! caller until the response is due.

use vstd::pervasive::unreached;
use vstd::prelude::*;
use crate::client::{authorization_url, exchange_request, AuthorizationCodeClient, ClientView};
use crate::cookie::{
    guard_verdict, issued_cookie, redirect_target, CookieConfigView, CredentialCookieIssuer,
};
use crate::csrf::{
    bound_token, is_generated_token, session_after_bind, session_after_verify, verdict, CsrfBinder,
};
use crate::errors::{AuthError, CsrfError, RegistryError, RejectReason};
use crate::flow::{
    rejection, step, transition, FlowAction, FlowActionView, FlowEvent, FlowEventView, FlowState,
    FlowStateView,
};
use crate::registry::ClientRegistry;
use crate::session::SessionStore;
use crate::text::optional_str;
use crate::token::TokenView;

verus! {

/// The provider that the `google_` entry points serve.
pub const GOOGLE: &'static str = "google";

/// What the protected resource answers to a visitor it lets in.
pub const PROTECTED_GREETING: &'static str = "You are protected!";

/// The query parameters of a callback. Both are present and not empty.
#[derive(Debug)]
pub struct AuthParams {
    code: String,
    state: String,
}

/// Callback parameters as plain values.
pub struct AuthParamsView {
    pub code: Seq<char>,
    pub state: Seq<char>,
}

impl View for AuthParams {
    type V = AuthParamsView;

    closed spec fn view(&self) -> AuthParamsView {
        AuthParamsView { code: self.code@, state: self.state@ }
    }
}

impl AuthParams {
    #[verifier::type_invariant]
    spec fn filled(self) -> bool {
        self.code@.len() > 0 && self.state@.len() > 0
    }

    /// The parameters of a callback, where neither is empty.
    pub fn new(code: String, state: String) -> (params: Option<AuthParams>)
        ensures
            match params {
                Some(p) => p@ == (AuthParamsView { code: code@, state: state@ }) && code@.len() > 0
                    && state@.len() > 0,
                None => code@.len() == 0 || state@.len() == 0,
            },
    {
        if code.as_str().is_empty() || state.as_str().is_empty() {
            None
        } else {
            Some(AuthParams { code, state })
        }
    }

    /// The authorization code that the provider issued.
    pub fn code(&self) -> (code: &String)
        ensures
            code@ == self@.code,
            code@.len() > 0,
    {
        proof {
            use_type_invariant(self);
        }
        &self.code
    }

    /// The state that the provider handed back.
    pub fn state(&self) -> (state: &String)
        ensures
            state@ == self@.state,
            state@.len() > 0,
    {
        proof {
            use_type_invariant(self);
        }
        &self.state
    }
}

/// What `callback` answers: the callback is checked against the session and,
/// where the check passes, stands at `CsrfVerified` with the code exchange
/// due; where it fails, it is rejected and no request to the provider is due.
pub open spec fn callback_outcome(
    session: Map<Seq<char>, Seq<char>>,
    params: AuthParamsView,
    client: ClientView,
) -> (FlowStateView, FlowActionView) {
    match verdict(session, params.state) {
        Ok(_) => (
            FlowStateView::CsrfVerified { policy: client.cookie_config },
            FlowActionView::ExchangeCode(exchange_request(client, params.code)),
        ),
        Err(e) => rejection(RejectReason::Csrf(e)),
    }
}

/// What `google_callback` answers: a rejection where no client serves the
/// provider, and the outcome of `callback` with that client otherwise.
pub open spec fn google_callback_outcome(
    registry: Map<Seq<char>, ClientView>,
    session: Map<Seq<char>, Seq<char>>,
    params: AuthParamsView,
) -> (FlowStateView, FlowActionView) {
    if registry.contains_key(GOOGLE@) {
        callback_outcome(session, params, registry[GOOGLE@])
    } else {
        rejection(RejectReason::UnknownProvider)
    }
}

/// Takes a state on through the transitions that need nothing from outside:
/// once the records are written the cookie is issued at `now`, and the
/// redirect is handed out with it.
pub open spec fn settled(state: FlowStateView, action: FlowActionView, now: u64) -> (
    FlowStateView,
    FlowActionView,
) {
    match state {
        FlowStateView::Reconciled { policy, token } => match issued_cookie(policy, token, now) {
            Ok(cookie) => (
                FlowStateView::Redirected,
                FlowActionView::Redirect { cookie, location: redirect_target(policy) },
            ),
            Err(_) => rejection(RejectReason::CookieEncoding),
        },
        FlowStateView::CookieIssued { policy, cookie } => (
            FlowStateView::Redirected,
            FlowActionView::Redirect { cookie, location: redirect_target(policy) },
        ),
        _ => (state, action),
    }
}

/// What `resume` answers.
pub open spec fn resumed(state: FlowStateView, event: FlowEventView, now: u64) -> Option<
    (FlowStateView, FlowActionView),
> {
    match transition(state, event) {
        None => None,
        Some((next, action)) => Some(settled(next, action, now)),
    }
}

/// What the initiation of a sign-in leaves behind: a freshly generated token
/// is bound to the session, in place of any earlier one, and `url` is the
/// client's authorization URL with that token as its state.
pub open spec fn authorization_issued(
    before: Map<Seq<char>, Seq<char>>,
    after: Map<Seq<char>, Seq<char>>,
    client: ClientView,
    url: Seq<char>,
) -> bool {
    &&& bound_token(after) matches Some(token)
    &&& is_generated_token(token)
    &&& url == authorization_url(client, token)
    &&& after == session_after_bind(before, token)
}

/// The authorization URL of `client` with a fresh state, which is bound to
/// the session in place of any earlier one.
pub fn get_authorization_url(
    session: &mut SessionStore,
    client: &AuthorizationCodeClient,
) -> (url: String)
    ensures
        authorization_issued(old(session)@, final(session)@, client@, url@),
{
    let (url, csrf_token) = client.get_authorization_url();
    CsrfBinder::bind(session, csrf_token);
    url
}

/// The authorization URL of the Google client, as `get_authorization_url`
/// gives it. Fails, leaving the session alone, where the registry holds no
/// such client.
pub fn google_authorization_url(session: &mut SessionStore, store: &ClientRegistry) -> (url: Result<
    String,
    RegistryError,
>)
    ensures
        match url {
            Ok(url) => store@.contains_key(GOOGLE@) && authorization_issued(
                old(session)@,
                final(session)@,
                store@[GOOGLE@],
                url@,
            ),
            Err(e) => !store@.contains_key(GOOGLE@) && e == RegistryError::UnknownProvider
                && final(session)@ == old(session)@,
        },
{
    match store.get(GOOGLE) {
        Ok(client) => Ok(get_authorization_url(session, client)),
        Err(e) => Err(e),
    }
}

/// Receives a callback for `client`: checks its state against the token bound
/// to the session, which a passed check uses up, and answers with the state of
/// the flow and the action that is due.
pub fn callback(
    session: &mut SessionStore,
    params: AuthParams,
    client: &AuthorizationCodeClient,
) -> (next: (FlowState, FlowAction))
    ensures
        (next.0@, next.1@) == callback_outcome(old(session)@, params@, client@),
        final(session)@ == session_after_verify(old(session)@, params@.state),
{
    let policy = client.get_cookie_config().duplicate();
    let exchange = client.exchange_request_for(params.code().as_str());
    match step(FlowState::Initiated, FlowEvent::ClientFound { policy, exchange }) {
        Some((awaiting, _)) => {
            let event = match CsrfBinder::verify(session, params.state().as_str()) {
                Ok(_) => FlowEvent::CsrfPassed,
                Err(e) => FlowEvent::CsrfFailed(e),
            };
            match step(awaiting, event) {
                Some(next) => next,
                None => unreached(),
            }
        },
        None => unreached(),
    }
}

/// Receives a callback for the Google client. Where the registry holds no
/// such client the callback is rejected before the session is looked at.
pub fn google_callback(
    session: &mut SessionStore,
    params: AuthParams,
    store: &ClientRegistry,
) -> (next: (FlowState, FlowAction))
    ensures
        (next.0@, next.1@) == google_callback_outcome(store@, old(session)@, params@),
        final(session)@ == if store@.contains_key(GOOGLE@) {
            session_after_verify(old(session)@, params@.state)
        } else {
            old(session)@
        },
{
    match store.get(GOOGLE) {
        Ok(client) => callback(session, params, client),
        Err(_) => match step(FlowState::Initiated, FlowEvent::ClientUnknown) {
            Some(next) => next,
            None => unreached(),
        },
    }
}

/// Takes a callback on after the caller has carried out the action that was
/// due and reports how it went. Where the report completes the
/// reconciliation, the credential cookie is issued at `now` and the redirect
/// is answered. `None`, where the event does not answer what the state waits
/// for.
pub fn resume(state: FlowState, event: FlowEvent, now: u64) -> (next: Option<
    (FlowState, FlowAction),
>)
    ensures
        match next {
            Some((s, a)) => resumed(state@, event@, now) == Some((s@, a@)),
            None => resumed(state@, event@, now) is None,
        },
{
    match step(state, event) {
        None => None,
        Some((FlowState::Reconciled { policy, token }, _)) => {
            let encoded = match CredentialCookieIssuer::issue(&policy, &token, now) {
                Ok(cookie) => FlowEvent::CookieEncoded(cookie),
                Err(e) => FlowEvent::CookieEncodingFailed(e),
            };
            match step(FlowState::Reconciled { policy, token }, encoded) {
                Some((FlowState::CookieIssued { policy, cookie }, _)) => step(
                    FlowState::CookieIssued { policy, cookie },
                    FlowEvent::Emit,
                ),
                other => other,
            }
        },
        Some((FlowState::CookieIssued { policy, cookie }, _)) => step(
            FlowState::CookieIssued { policy, cookie },
            FlowEvent::Emit,
        ),
        Some(next) => Some(next),
    }
}

/// The protected resource: greets the visitor whose request carries a
/// credential that the guard honours at `now`, and rejects every other.
pub fn protected(cookie_value: Option<&str>, now: u64) -> (answer: Result<String, AuthError>)
    ensures
        match answer {
            Ok(text) => guard_verdict(optional_str(cookie_value), now) is Ok && text@
                == PROTECTED_GREETING@,
            Err(e) => guard_verdict(optional_str(cookie_value), now) == Err::<TokenView, AuthError>(
                e,
            ),
        },
{
    match CredentialCookieIssuer::authenticate(cookie_value, now) {
        Ok(_) => Ok(PROTECTED_GREETING.to_owned()),
        Err(e) => Err(e),
    }
}

/// `callback` follows the state machine: its outcome is where the machine
/// stands after the client was found and the anti-forgery check was
/// reported.
pub proof fn callback_follows_the_machine(
    session: Map<Seq<char>, Seq<char>>,
    params: AuthParamsView,
    client: ClientView,
)
    ensures
        ({
            let found = FlowEventView::ClientFound {
                policy: client.cookie_config,
                exchange: exchange_request(client, params.code),
            };
            let checked = match verdict(session, params.state) {
                Ok(_) => FlowEventView::CsrfPassed,
                Err(e) => FlowEventView::CsrfFailed(e),
            };
            &&& transition(FlowStateView::Initiated, found) is Some
            &&& transition(transition(FlowStateView::Initiated, found)->Some_0.0, checked) == Some(
                callback_outcome(session, params, client),
            )
        }),
{
}

/// `resume` follows the state machine: from `Reconciled` its outcome is
/// where the machine stands after the issuing of the cookie was reported and
/// the redirect was handed out.
pub proof fn settling_follows_the_machine(
    policy: CookieConfigView,
    token: TokenView,
    action: FlowActionView,
    now: u64,
)
    ensures
        ({
            let reconciled = FlowStateView::Reconciled { policy, token };
            let encoded = match issued_cookie(policy, token, now) {
                Ok(cookie) => FlowEventView::CookieEncoded(cookie),
                Err(e) => FlowEventView::CookieEncodingFailed(e),
            };
            let after = transition(reconciled, encoded);
            &&& after is Some
            &&& settled(reconciled, action, now) == if after->Some_0.0 is CookieIssued {
                transition(after->Some_0.0, FlowEventView::Emit)->Some_0
            } else {
                after->Some_0
            }
        }),
{
}

/// What `callback` and `resume` hand out is for the caller to carry out or to
/// answer with: the steps that this library takes itself, the issuing of the
/// cookie and the handing out of the redirect, are never left to the caller.
pub proof fn drivers_leave_no_inner_step_to_the_caller(
    session: Map<Seq<char>, Seq<char>>,
    params: AuthParamsView,
    client: ClientView,
    state: FlowStateView,
    event: FlowEventView,
    now: u64,
)
    ensures
        callback_outcome(session, params, client).1 is ExchangeCode || callback_outcome(
            session,
            params,
            client,
        ).1 is Fail,
        resumed(state, event, now) matches Some((_, action)) ==> {
            &&& !(action is IssueCookie)
            &&& !(action is EmitRedirect)
            &&& (action is VerifyCsrf ==> state is Initiated)
        },
{
}

/// A callback cannot be played twice. Once a callback has passed the
/// anti-forgery check, every further callback on that session, the same one
/// or another, is rejected for want of a token, and no exchange is due for it.
pub proof fn replayed_callback_is_rejected(
    session: Map<Seq<char>, Seq<char>>,
    params: AuthParamsView,
    replay: AuthParamsView,
    client: ClientView,
)
    requires
        verdict(session, params.state) is Ok,
    ensures
        callback_outcome(session_after_verify(session, params.state), replay, client) == rejection(
            RejectReason::Csrf(CsrfError::Missing),
        ),
{
}

/// A callback whose state does not pass the anti-forgery check is answered
/// with a client error and leaves the session as it was; a request to the
/// provider is due exactly where the check passes.
pub proof fn forged_callback_reaches_no_provider(
    session: Map<Seq<char>, Seq<char>>,
    params: AuthParamsView,
    client: ClientView,
)
    ensures
        callback_outcome(session, params, client).1 is ExchangeCode <==> verdict(
            session,
            params.state,
        ) is Ok,
        verdict(session, params.state) matches Err(e) ==> {
            &&& callback_outcome(session, params, client) == rejection(RejectReason::Csrf(e))
            &&& RejectReason::Csrf(e).spec_status_code() == 400
            &&& session_after_verify(session, params.state) == session
        },
{
}

} // verus!
