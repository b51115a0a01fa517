//! The callback state machine. A callback runs through
//!
//! `Initiated -> AwaitingCallback -> CsrfVerified -> TokenExchanged ->
//! ProfileResolved -> Reconciled -> CookieIssued -> Redirected`
//!
//! and any failure on the way ends it in `Rejected`. Each transition is
//! answered with the action that is due next. The machine itself performs
//! nothing: the exchange, the decoding of the profile and the two upserts are
//! carried out by the caller, who reports how they went.

use vstd::prelude::*;
use crate::client::{ExchangeRequest, ExchangeRequestView};
use crate::cookie::{
    redirect_target, CookieAttachment, CookieAttachmentView, CookieConfig, CookieConfigView,
};
use crate::errors::{CsrfError, EncodingError, FlowError, RejectReason};
use crate::token::{TokenResponse, TokenView};

verus! {

/// Where a callback stands.
#[derive(Debug, Clone, PartialEq, Eq)]
pub enum FlowState {
    /// Nothing is known yet but the provider's name.
    Initiated,
    /// The provider's client was found.
    AwaitingCallback { policy: CookieConfig, exchange: ExchangeRequest },
    /// The callback's state matched the token bound to the session.
    CsrfVerified { policy: CookieConfig },
    /// The provider issued a token and handed out the profile.
    TokenExchanged { policy: CookieConfig, token: TokenResponse },
    /// The profile decoded. `user_stored` tells whether the user record has
    /// been written; the session record follows it.
    ProfileResolved { policy: CookieConfig, token: TokenResponse, user_stored: bool },
    /// User and session records are written.
    Reconciled { policy: CookieConfig, token: TokenResponse },
    /// The credential cookie is built.
    CookieIssued { policy: CookieConfig, cookie: CookieAttachment },
    /// The redirect with the cookie was handed out. Final.
    Redirected,
    /// The callback failed. Final.
    Rejected(RejectReason),
}

/// What moves a callback on: the outcome of the step that was due. The
/// lookup of the client, the anti-forgery check, the building of the cookie
/// and the handing out of the redirect are steps of this library; the others
/// are carried out by the caller.
#[derive(Debug, Clone, PartialEq, Eq)]
pub enum FlowEvent {
    /// The registry holds a client for the provider.
    ClientFound { policy: CookieConfig, exchange: ExchangeRequest },
    /// The registry holds no client for the provider.
    ClientUnknown,
    /// The callback's state is the token bound to the session.
    CsrfPassed,
    /// The session holds no token, or another one.
    CsrfFailed(CsrfError),
    /// The provider issued a token and handed out the profile.
    CodeExchanged { token: TokenResponse, raw_profile: String },
    /// The exchange or the profile fetch failed.
    ExchangeFailed(FlowError),
    /// The profile payload decoded into the caller's profile shape.
    ProfileDecoded,
    /// The profile payload did not decode.
    ProfileMalformed,
    /// The user record is written.
    UserUpserted,
    /// The user record could not be written.
    UserUpsertFailed,
    /// The session record is written.
    SessionUpserted,
    /// The session record could not be written.
    SessionUpsertFailed,
    /// The credential cookie is built.
    CookieEncoded(CookieAttachment),
    /// The credential cookie could not be built.
    CookieEncodingFailed(EncodingError),
    /// The response is put together.
    Emit,
}

/// What is due after a transition.
#[derive(Debug, Clone, PartialEq, Eq)]
pub enum FlowAction {
    /// Check the callback's state against the session.
    VerifyCsrf,
    /// Exchange the code at the provider and fetch the profile.
    ExchangeCode(ExchangeRequest),
    /// Decode the profile payload.
    DecodeProfile { raw_profile: String },
    /// Create or update the user record for the profile.
    UpsertUser,
    /// Create or refresh the session record for the token and the user.
    UpsertSession,
    /// Build the credential cookie.
    IssueCookie,
    /// Hand out the redirect.
    EmitRedirect,
    /// Answer with a redirect to `location` that sets `cookie`.
    Redirect { cookie: CookieAttachment, location: String },
    /// Answer with the error response for the reason.
    Fail(RejectReason),
}

/// A state as plain values.
pub enum FlowStateView {
    Initiated,
    AwaitingCallback { policy: CookieConfigView, exchange: ExchangeRequestView },
    CsrfVerified { policy: CookieConfigView },
    TokenExchanged { policy: CookieConfigView, token: TokenView },
    ProfileResolved { policy: CookieConfigView, token: TokenView, user_stored: bool },
    Reconciled { policy: CookieConfigView, token: TokenView },
    CookieIssued { policy: CookieConfigView, cookie: CookieAttachmentView },
    Redirected,
    Rejected(RejectReason),
}

/// An event as plain values.
pub enum FlowEventView {
    ClientFound { policy: CookieConfigView, exchange: ExchangeRequestView },
    ClientUnknown,
    CsrfPassed,
    CsrfFailed(CsrfError),
    CodeExchanged { token: TokenView, raw_profile: Seq<char> },
    ExchangeFailed(FlowError),
    ProfileDecoded,
    ProfileMalformed,
    UserUpserted,
    UserUpsertFailed,
    SessionUpserted,
    SessionUpsertFailed,
    CookieEncoded(CookieAttachmentView),
    CookieEncodingFailed(EncodingError),
    Emit,
}

/// An action as plain values.
pub enum FlowActionView {
    VerifyCsrf,
    ExchangeCode(ExchangeRequestView),
    DecodeProfile { raw_profile: Seq<char> },
    UpsertUser,
    UpsertSession,
    IssueCookie,
    EmitRedirect,
    Redirect { cookie: CookieAttachmentView, location: Seq<char> },
    Fail(RejectReason),
}

impl View for FlowState {
    type V = FlowStateView;

    open spec fn view(&self) -> FlowStateView {
        match *self {
            FlowState::Initiated => FlowStateView::Initiated,
            FlowState::AwaitingCallback { policy, exchange } => FlowStateView::AwaitingCallback {
                policy: policy@,
                exchange: exchange@,
            },
            FlowState::CsrfVerified { policy } => FlowStateView::CsrfVerified { policy: policy@ },
            FlowState::TokenExchanged { policy, token } => FlowStateView::TokenExchanged {
                policy: policy@,
                token: token@,
            },
            FlowState::ProfileResolved {
                policy,
                token,
                user_stored,
            } => FlowStateView::ProfileResolved { policy: policy@, token: token@, user_stored },
            FlowState::Reconciled { policy, token } => FlowStateView::Reconciled {
                policy: policy@,
                token: token@,
            },
            FlowState::CookieIssued { policy, cookie } => FlowStateView::CookieIssued {
                policy: policy@,
                cookie: cookie@,
            },
            FlowState::Redirected => FlowStateView::Redirected,
            FlowState::Rejected(reason) => FlowStateView::Rejected(reason),
        }
    }
}

impl View for FlowEvent {
    type V = FlowEventView;

    open spec fn view(&self) -> FlowEventView {
        match *self {
            FlowEvent::ClientFound { policy, exchange } => FlowEventView::ClientFound {
                policy: policy@,
                exchange: exchange@,
            },
            FlowEvent::ClientUnknown => FlowEventView::ClientUnknown,
            FlowEvent::CsrfPassed => FlowEventView::CsrfPassed,
            FlowEvent::CsrfFailed(e) => FlowEventView::CsrfFailed(e),
            FlowEvent::CodeExchanged { token, raw_profile } => FlowEventView::CodeExchanged {
                token: token@,
                raw_profile: raw_profile@,
            },
            FlowEvent::ExchangeFailed(e) => FlowEventView::ExchangeFailed(e),
            FlowEvent::ProfileDecoded => FlowEventView::ProfileDecoded,
            FlowEvent::ProfileMalformed => FlowEventView::ProfileMalformed,
            FlowEvent::UserUpserted => FlowEventView::UserUpserted,
            FlowEvent::UserUpsertFailed => FlowEventView::UserUpsertFailed,
            FlowEvent::SessionUpserted => FlowEventView::SessionUpserted,
            FlowEvent::SessionUpsertFailed => FlowEventView::SessionUpsertFailed,
            FlowEvent::CookieEncoded(cookie) => FlowEventView::CookieEncoded(cookie@),
            FlowEvent::CookieEncodingFailed(e) => FlowEventView::CookieEncodingFailed(e),
            FlowEvent::Emit => FlowEventView::Emit,
        }
    }
}

impl View for FlowAction {
    type V = FlowActionView;

    open spec fn view(&self) -> FlowActionView {
        match *self {
            FlowAction::VerifyCsrf => FlowActionView::VerifyCsrf,
            FlowAction::ExchangeCode(request) => FlowActionView::ExchangeCode(request@),
            FlowAction::DecodeProfile { raw_profile } => FlowActionView::DecodeProfile {
                raw_profile: raw_profile@,
            },
            FlowAction::UpsertUser => FlowActionView::UpsertUser,
            FlowAction::UpsertSession => FlowActionView::UpsertSession,
            FlowAction::IssueCookie => FlowActionView::IssueCookie,
            FlowAction::EmitRedirect => FlowActionView::EmitRedirect,
            FlowAction::Redirect { cookie, location } => FlowActionView::Redirect {
                cookie: cookie@,
                location: location@,
            },
            FlowAction::Fail(reason) => FlowActionView::Fail(reason),
        }
    }
}

/// The end of a failed callback: the final state and the error response.
pub open spec fn rejection(reason: RejectReason) -> (FlowStateView, FlowActionView) {
    (FlowStateView::Rejected(reason), FlowActionView::Fail(reason))
}

/// The transition that `event` causes in `state`, with the action that is due
/// after it; `None` where the event does not answer what the state waits for.
pub open spec fn transition(state: FlowStateView, event: FlowEventView) -> Option<
    (FlowStateView, FlowActionView),
> {
    match (state, event) {
        (FlowStateView::Initiated, FlowEventView::ClientFound { policy, exchange }) => Some(
            (FlowStateView::AwaitingCallback { policy, exchange }, FlowActionView::VerifyCsrf),
        ),
        (FlowStateView::Initiated, FlowEventView::ClientUnknown) => Some(
            rejection(RejectReason::UnknownProvider),
        ),
        (FlowStateView::AwaitingCallback { policy, exchange }, FlowEventView::CsrfPassed) => Some(
            (FlowStateView::CsrfVerified { policy }, FlowActionView::ExchangeCode(exchange)),
        ),
        (FlowStateView::AwaitingCallback { .. }, FlowEventView::CsrfFailed(e)) => Some(
            rejection(RejectReason::Csrf(e)),
        ),
        (
            FlowStateView::CsrfVerified { policy },
            FlowEventView::CodeExchanged { token, raw_profile },
        ) => Some(
            (
                FlowStateView::TokenExchanged { policy, token },
                FlowActionView::DecodeProfile { raw_profile },
            ),
        ),
        (FlowStateView::CsrfVerified { .. }, FlowEventView::ExchangeFailed(e)) => Some(
            rejection(RejectReason::Flow(e)),
        ),
        (FlowStateView::TokenExchanged { policy, token }, FlowEventView::ProfileDecoded) => Some(
            (
                FlowStateView::ProfileResolved { policy, token, user_stored: false },
                FlowActionView::UpsertUser,
            ),
        ),
        (FlowStateView::TokenExchanged { .. }, FlowEventView::ProfileMalformed) => Some(
            rejection(RejectReason::Deserialization),
        ),
        (
            FlowStateView::ProfileResolved { policy, token, user_stored: false },
            FlowEventView::UserUpserted,
        ) => Some(
            (
                FlowStateView::ProfileResolved { policy, token, user_stored: true },
                FlowActionView::UpsertSession,
            ),
        ),
        (
            FlowStateView::ProfileResolved { user_stored: false, .. },
            FlowEventView::UserUpsertFailed,
        ) => Some(rejection(RejectReason::Persistence)),
        (
            FlowStateView::ProfileResolved { policy, token, user_stored: true },
            FlowEventView::SessionUpserted,
        ) => Some((FlowStateView::Reconciled { policy, token }, FlowActionView::IssueCookie)),
        (
            FlowStateView::ProfileResolved { user_stored: true, .. },
            FlowEventView::SessionUpsertFailed,
        ) => Some(rejection(RejectReason::Persistence)),
        (FlowStateView::Reconciled { policy, .. }, FlowEventView::CookieEncoded(cookie)) => Some(
            (FlowStateView::CookieIssued { policy, cookie }, FlowActionView::EmitRedirect),
        ),
        (FlowStateView::Reconciled { .. }, FlowEventView::CookieEncodingFailed(_)) => Some(
            rejection(RejectReason::CookieEncoding),
        ),
        (FlowStateView::CookieIssued { policy, cookie }, FlowEventView::Emit) => Some(
            (
                FlowStateView::Redirected,
                FlowActionView::Redirect { cookie, location: redirect_target(policy) },
            ),
        ),
        _ => None,
    }
}

fn reject(reason: RejectReason) -> (ended: Option<(FlowState, FlowAction)>)
    ensures
        ended matches Some((s, a)) && (s@, a@) == rejection(reason),
{
    Some((FlowState::Rejected(reason), FlowAction::Fail(reason)))
}

/// Makes the transition that `event` causes in `state`.
pub fn step(state: FlowState, event: FlowEvent) -> (next: Option<(FlowState, FlowAction)>)
    ensures
        match next {
            Some((s, a)) => transition(state@, event@) == Some((s@, a@)),
            None => transition(state@, event@) is None,
        },
{
    match (state, event) {
        (FlowState::Initiated, FlowEvent::ClientFound { policy, exchange }) => Some(
            (FlowState::AwaitingCallback { policy, exchange }, FlowAction::VerifyCsrf),
        ),
        (FlowState::Initiated, FlowEvent::ClientUnknown) => reject(RejectReason::UnknownProvider),
        (FlowState::AwaitingCallback { policy, exchange }, FlowEvent::CsrfPassed) => Some(
            (FlowState::CsrfVerified { policy }, FlowAction::ExchangeCode(exchange)),
        ),
        (FlowState::AwaitingCallback { .. }, FlowEvent::CsrfFailed(e)) => reject(
            RejectReason::Csrf(e),
        ),
        (FlowState::CsrfVerified { policy }, FlowEvent::CodeExchanged { token, raw_profile }) => Some(
            (FlowState::TokenExchanged { policy, token }, FlowAction::DecodeProfile { raw_profile }),
        ),
        (FlowState::CsrfVerified { .. }, FlowEvent::ExchangeFailed(e)) => reject(
            RejectReason::Flow(e),
        ),
        (FlowState::TokenExchanged { policy, token }, FlowEvent::ProfileDecoded) => Some(
            (
                FlowState::ProfileResolved { policy, token, user_stored: false },
                FlowAction::UpsertUser,
            ),
        ),
        (FlowState::TokenExchanged { .. }, FlowEvent::ProfileMalformed) => reject(
            RejectReason::Deserialization,
        ),
        (
            FlowState::ProfileResolved { policy, token, user_stored: false },
            FlowEvent::UserUpserted,
        ) => Some(
            (
                FlowState::ProfileResolved { policy, token, user_stored: true },
                FlowAction::UpsertSession,
            ),
        ),
        (
            FlowState::ProfileResolved { user_stored: false, .. },
            FlowEvent::UserUpsertFailed,
        ) => reject(RejectReason::Persistence),
        (
            FlowState::ProfileResolved { policy, token, user_stored: true },
            FlowEvent::SessionUpserted,
        ) => Some((FlowState::Reconciled { policy, token }, FlowAction::IssueCookie)),
        (
            FlowState::ProfileResolved { user_stored: true, .. },
            FlowEvent::SessionUpsertFailed,
        ) => reject(RejectReason::Persistence),
        (FlowState::Reconciled { policy, .. }, FlowEvent::CookieEncoded(cookie)) => Some(
            (FlowState::CookieIssued { policy, cookie }, FlowAction::EmitRedirect),
        ),
        (FlowState::Reconciled { .. }, FlowEvent::CookieEncodingFailed(_)) => reject(
            RejectReason::CookieEncoding,
        ),
        (FlowState::CookieIssued { policy, cookie }, FlowEvent::Emit) => {
            let location = policy.redirect_target();
            Some((FlowState::Redirected, FlowAction::Redirect { cookie, location }))
        },
        _ => None,
    }
}

/// How far a callback has come.
pub open spec fn progress(state: FlowStateView) -> nat {
    match state {
        FlowStateView::Initiated => 0,
        FlowStateView::AwaitingCallback { .. } => 1,
        FlowStateView::CsrfVerified { .. } => 2,
        FlowStateView::TokenExchanged { .. } => 3,
        FlowStateView::ProfileResolved { user_stored: false, .. } => 4,
        FlowStateView::ProfileResolved { user_stored: true, .. } => 5,
        FlowStateView::Reconciled { .. } => 6,
        FlowStateView::CookieIssued { .. } => 7,
        FlowStateView::Redirected => 8,
        FlowStateView::Rejected(_) => 9,
    }
}

/// `Redirected` and `Rejected` are where a callback ends.
pub open spec fn is_final(state: FlowStateView) -> bool {
    state is Redirected || state is Rejected
}

/// An action that answers the visitor.
pub open spec fn is_response(action: FlowActionView) -> bool {
    action is Redirect || action is Fail
}

/// The number of code exchanges that fall due when `events` arrive one after
/// the other in `state`. An event that does not answer what the state waits
/// for changes nothing.
pub open spec fn exchanges_due(state: FlowStateView, events: Seq<FlowEventView>) -> nat
    decreases events.len(),
{
    if events.len() == 0 {
        0
    } else {
        match transition(state, events[0]) {
            None => exchanges_due(state, events.drop_first()),
            Some((next, action)) => (if action is ExchangeCode {
                1nat
            } else {
                0nat
            }) + exchanges_due(next, events.drop_first()),
        }
    }
}

/// The number of responses that fall due when `events` arrive one after the
/// other in `state`.
pub open spec fn responses_due(state: FlowStateView, events: Seq<FlowEventView>) -> nat
    decreases events.len(),
{
    if events.len() == 0 {
        0
    } else {
        match transition(state, events[0]) {
            None => responses_due(state, events.drop_first()),
            Some((next, action)) => (if is_response(action) {
                1nat
            } else {
                0nat
            }) + responses_due(next, events.drop_first()),
        }
    }
}

/// A callback that has ended is not taken up again: no event moves a final
/// state.
pub proof fn final_states_accept_no_event(state: FlowStateView, event: FlowEventView)
    requires
        is_final(state),
    ensures
        transition(state, event) is None,
{
}

/// Every transition leads one state further or into `Rejected`, never back
/// and never past a state.
pub proof fn transitions_move_forward(state: FlowStateView, event: FlowEventView)
    requires
        transition(state, event) is Some,
    ensures
        ({
            let next = transition(state, event)->Some_0.0;
            next is Rejected || progress(next) == progress(state) + 1
        }),
{
}

/// The response goes with the end of the flow, and with nothing else: an
/// error response is due exactly on entering `Rejected`, and the redirect
/// with the cookie exactly on entering `Redirected`, which is entered from
/// `CookieIssued` alone. So a flow that fails sets no cookie.
pub proof fn responses_go_with_final_states(state: FlowStateView, event: FlowEventView)
    requires
        transition(state, event) is Some,
    ensures
        ({
            let (next, action) = transition(state, event)->Some_0;
            &&& action is Fail <==> next is Rejected
            &&& action is Fail ==> action == FlowActionView::Fail(next->Rejected_0)
            &&& action is Redirect <==> next is Redirected
            &&& action is Redirect ==> state is CookieIssued
            &&& action is ExchangeCode <==> next is CsrfVerified
        }),
{
}

/// Whatever events arrive, and in whatever order, the code is exchanged at
/// most once in a callback, and not at all once the anti-forgery check is
/// behind it: a failed exchange is not tried again.
pub proof fn exchange_is_due_at_most_once(state: FlowStateView, events: Seq<FlowEventView>)
    ensures
        exchanges_due(state, events) <= 1,
        progress(state) >= 2 ==> exchanges_due(state, events) == 0,
    decreases events.len(),
{
    if events.len() > 0 {
        match transition(state, events[0]) {
            None => {
                exchange_is_due_at_most_once(state, events.drop_first());
            },
            Some((next, action)) => {
                exchange_is_due_at_most_once(next, events.drop_first());
            },
        }
    }
}

/// Whatever events arrive, a callback is answered at most once: with the
/// redirect that sets the cookie or with an error, never with both.
pub proof fn response_is_due_at_most_once(state: FlowStateView, events: Seq<FlowEventView>)
    ensures
        responses_due(state, events) <= 1,
        is_final(state) ==> responses_due(state, events) == 0,
    decreases events.len(),
{
    if events.len() > 0 {
        match transition(state, events[0]) {
            None => {
                response_is_due_at_most_once(state, events.drop_first());
            },
            Some((next, action)) => {
                response_is_due_at_most_once(next, events.drop_first());
            },
        }
    }
}

} // verus!
