use oauth2_flow::client::{AuthorizationCodeClient, ExchangeRequest};
use oauth2_flow::controllers::oauth2::{
    callback, get_authorization_url, google_authorization_url, google_callback, resume,
    AuthParams, GOOGLE,
};
use oauth2_flow::cookie::{CookieAttachment, CookieConfig, CredentialCookieIssuer};
use oauth2_flow::csrf::{CsrfBinder, CSRF_TOKEN_KEY};
use oauth2_flow::errors::{
    CsrfError, EncodingError, ErrorClass, FlowError, RegistryError, RejectReason,
};
use oauth2_flow::flow::{step, FlowAction, FlowEvent, FlowState};
use oauth2_flow::registry::ClientRegistry;
use oauth2_flow::session::SessionStore;
use oauth2_flow::token::TokenResponse;

fn policy() -> CookieConfig {
    CookieConfig {
        protected_url: None,
        domain: Some("localhost".to_string()),
        path: "/".to_string(),
        ttl_seconds: 60,
        secure: true,
        http_only: true,
    }
}

fn google() -> AuthorizationCodeClient {
    AuthorizationCodeClient {
        provider_id: "google".to_string(),
        client_id: "cid".to_string(),
        client_secret: "secret".to_string(),
        authorize_endpoint: "https://accounts.google.com/o/oauth2/auth".to_string(),
        token_endpoint: "https://www.googleapis.com/oauth2/v3/token".to_string(),
        redirect_uri: "http://localhost/cb".to_string(),
        scopes: vec!["email".to_string()],
        cookie_config: policy(),
    }
}

fn registry() -> ClientRegistry {
    let mut registry = ClientRegistry::new();
    registry.register(google());
    registry
}

fn session_bound_to(token: &str) -> SessionStore {
    let mut session = SessionStore::new();
    CsrfBinder::bind(&mut session, token.to_string());
    session
}

fn params(code: &str, state: &str) -> AuthParams {
    AuthParams::new(code.to_string(), state.to_string()).unwrap()
}

fn token() -> TokenResponse {
    TokenResponse {
        access_token: "tok".to_string(),
        refresh_token: None,
        expires_in: Some(3600),
        scope: Some("email".to_string()),
        raw: "{}".to_string(),
    }
}

fn exchange_of(code: &str) -> ExchangeRequest {
    ExchangeRequest {
        token_endpoint: "https://www.googleapis.com/oauth2/v3/token".to_string(),
        form: format!(
            "grant_type=authorization_code&code={}&redirect_uri=http%3A%2F%2Flocalhost%2Fcb\
             &client_id=cid&client_secret=secret",
            code
        ),
    }
}

fn exchanged() -> FlowEvent {
    FlowEvent::CodeExchanged { token: token(), raw_profile: "{\"email\":\"a@b.c\"}".to_string() }
}

fn cookie_issued_at_1000() -> CookieAttachment {
    CookieAttachment {
        name: "oauth2_credential".to_string(),
        value: "1060;3:tok-+3600;+5:email2:{}".to_string(),
        domain: Some("localhost".to_string()),
        path: "/".to_string(),
        max_age_seconds: 60,
        secure: true,
        http_only: true,
    }
}

fn rejected(reason: RejectReason) -> (FlowState, FlowAction) {
    (FlowState::Rejected(reason), FlowAction::Fail(reason))
}

fn reconciled_up_to_the_session() -> FlowState {
    FlowState::ProfileResolved { policy: policy(), token: token(), user_stored: true }
}

/// A provider that honours each code once.
struct Provider {
    used: Vec<String>,
}

impl Provider {
    fn exchange(&mut self, request: &ExchangeRequest) -> FlowEvent {
        if self.used.contains(&request.form) {
            FlowEvent::ExchangeFailed(FlowError::InvalidGrant)
        } else {
            self.used.push(request.form.clone());
            exchanged()
        }
    }
}

#[test]
fn callback_params_need_a_code_and_a_state() {
    assert!(AuthParams::new("".to_string(), "xyz".to_string()).is_none());
    assert!(AuthParams::new("abc123".to_string(), "".to_string()).is_none());
    assert!(AuthParams::new("".to_string(), "".to_string()).is_none());
    let p = AuthParams::new("abc123".to_string(), "xyz".to_string()).unwrap();
    assert_eq!(p.code(), "abc123");
    assert_eq!(p.state(), "xyz");
}

#[test]
fn a_matching_callback_reaches_redirected_with_cookie_and_location() {
    let mut session = session_bound_to("xyz");
    let (state, action) = google_callback(&mut session, params("abc123", "xyz"), &registry());
    assert_eq!(state, FlowState::CsrfVerified { policy: policy() });
    assert_eq!(action, FlowAction::ExchangeCode(exchange_of("abc123")));
    assert_eq!(session.get(CSRF_TOKEN_KEY), None);

    let (state, action) = resume(state, exchanged(), 1000).unwrap();
    assert_eq!(state, FlowState::TokenExchanged { policy: policy(), token: token() });
    assert_eq!(
        action,
        FlowAction::DecodeProfile { raw_profile: "{\"email\":\"a@b.c\"}".to_string() }
    );

    let (state, action) = resume(state, FlowEvent::ProfileDecoded, 1000).unwrap();
    assert_eq!(
        state,
        FlowState::ProfileResolved { policy: policy(), token: token(), user_stored: false }
    );
    assert_eq!(action, FlowAction::UpsertUser);

    let (state, action) = resume(state, FlowEvent::UserUpserted, 1000).unwrap();
    assert_eq!(state, reconciled_up_to_the_session());
    assert_eq!(action, FlowAction::UpsertSession);

    let (state, action) = resume(state, FlowEvent::SessionUpserted, 1000).unwrap();
    assert_eq!(state, FlowState::Redirected);
    assert_eq!(
        action,
        FlowAction::Redirect {
            cookie: cookie_issued_at_1000(),
            location: "/oauth2/protected".to_string(),
        }
    );
}

#[test]
fn the_redirect_goes_to_the_configured_protected_url() {
    let mut config = policy();
    config.protected_url = Some("https://app.example/home".to_string());
    let state = FlowState::ProfileResolved { policy: config, token: token(), user_stored: true };
    let (state, action) = resume(state, FlowEvent::SessionUpserted, 1000).unwrap();
    assert_eq!(state, FlowState::Redirected);
    assert_eq!(
        action,
        FlowAction::Redirect {
            cookie: cookie_issued_at_1000(),
            location: "https://app.example/home".to_string(),
        }
    );
}

#[test]
fn the_issued_cookie_opens_the_protected_resource() {
    let next = resume(reconciled_up_to_the_session(), FlowEvent::SessionUpserted, 1000);
    match next {
        Some((FlowState::Redirected, FlowAction::Redirect { cookie, .. })) => {
            assert_eq!(CredentialCookieIssuer::authenticate(Some(&cookie.value), 1001), Ok(token()));
        },
        other => panic!("no redirect: {:?}", other),
    }
}

#[test]
fn a_callback_with_another_state_is_a_client_error_without_exchange_or_cookie() {
    let mut session = session_bound_to("different");
    let (state, action) = google_callback(&mut session, params("abc123", "xyz"), &registry());
    assert_eq!((state, action.clone()), rejected(RejectReason::Csrf(CsrfError::Mismatch)));
    assert_eq!(RejectReason::Csrf(CsrfError::Mismatch).status_code(), 400);
    assert_eq!(RejectReason::Csrf(CsrfError::Mismatch).class(), ErrorClass::Client);
    assert!(!matches!(action, FlowAction::ExchangeCode(_)));
    assert!(!matches!(action, FlowAction::Redirect { .. }));
    assert_eq!(session.get(CSRF_TOKEN_KEY), Some("different".to_string()));
}

#[test]
fn a_rejected_callback_is_not_taken_up_again() {
    let state = FlowState::Rejected(RejectReason::Csrf(CsrfError::Mismatch));
    assert_eq!(resume(state.clone(), exchanged(), 1000), None);
    assert_eq!(resume(state.clone(), FlowEvent::ProfileDecoded, 1000), None);
    assert_eq!(resume(state.clone(), FlowEvent::UserUpserted, 1000), None);
    assert_eq!(resume(state.clone(), FlowEvent::SessionUpserted, 1000), None);
    assert_eq!(step(state.clone(), FlowEvent::CsrfPassed), None);
    assert_eq!(step(state, FlowEvent::Emit), None);
}

#[test]
fn a_callback_without_a_bound_token_is_missing() {
    let mut session = SessionStore::new();
    let outcome = google_callback(&mut session, params("abc123", "xyz"), &registry());
    assert_eq!(outcome, rejected(RejectReason::Csrf(CsrfError::Missing)));
    assert_eq!(RejectReason::Csrf(CsrfError::Missing).status_code(), 400);
}

#[test]
fn an_unknown_provider_is_rejected_before_the_session_is_looked_at() {
    let mut session = session_bound_to("xyz");
    let empty = ClientRegistry::new();
    let outcome = google_callback(&mut session, params("abc123", "xyz"), &empty);
    assert_eq!(outcome, rejected(RejectReason::UnknownProvider));
    assert_eq!(RejectReason::UnknownProvider.status_code(), 400);
    assert_eq!(RejectReason::UnknownProvider.class(), ErrorClass::Client);
    assert_eq!(session.get(CSRF_TOKEN_KEY), Some("xyz".to_string()));
}

#[test]
fn a_registry_without_google_serves_only_its_own_providers() {
    let mut github = google();
    github.provider_id = "github".to_string();
    let mut only_github = ClientRegistry::new();
    only_github.register(github.clone());
    assert_eq!(GOOGLE, "google");
    assert_eq!(only_github.get(GOOGLE), Err(RegistryError::UnknownProvider));
    let mut session = session_bound_to("xyz");
    let outcome = google_callback(&mut session, params("abc123", "xyz"), &only_github);
    assert_eq!(outcome, rejected(RejectReason::UnknownProvider));
    let mut session = session_bound_to("xyz");
    let (state, _) = callback(&mut session, params("abc123", "xyz"), &github);
    assert_eq!(state, FlowState::CsrfVerified { policy: policy() });
}

#[test]
fn a_failed_user_upsert_is_a_server_error_and_sets_no_cookie() {
    let mut session = session_bound_to("xyz");
    let (state, _) = google_callback(&mut session, params("abc123", "xyz"), &registry());
    let (state, _) = resume(state, exchanged(), 1000).unwrap();
    let (state, _) = resume(state, FlowEvent::ProfileDecoded, 1000).unwrap();
    let (state, action) = resume(state, FlowEvent::UserUpsertFailed, 1000).unwrap();
    assert_eq!((state.clone(), action.clone()), rejected(RejectReason::Persistence));
    assert_eq!(RejectReason::Persistence.status_code(), 500);
    assert_eq!(RejectReason::Persistence.class(), ErrorClass::Server);
    assert!(!matches!(action, FlowAction::Redirect { .. }));
    assert_eq!(resume(state, FlowEvent::SessionUpserted, 1000), None);
}

#[test]
fn a_failed_session_upsert_is_a_server_error_and_sets_no_cookie() {
    let outcome = resume(reconciled_up_to_the_session(), FlowEvent::SessionUpsertFailed, 1000);
    assert_eq!(outcome, Some(rejected(RejectReason::Persistence)));
}

#[test]
fn the_session_is_stored_only_after_the_user() {
    let state = FlowState::ProfileResolved { policy: policy(), token: token(), user_stored: false };
    assert_eq!(resume(state.clone(), FlowEvent::SessionUpserted, 1000), None);
    assert_eq!(resume(state, FlowEvent::SessionUpsertFailed, 1000), None);
    assert_eq!(resume(reconciled_up_to_the_session(), FlowEvent::UserUpserted, 1000), None);
    assert_eq!(resume(reconciled_up_to_the_session(), FlowEvent::UserUpsertFailed, 1000), None);
}

#[test]
fn a_rejected_grant_is_a_client_error() {
    let state = FlowState::CsrfVerified { policy: policy() };
    let outcome = resume(state, FlowEvent::ExchangeFailed(FlowError::InvalidGrant), 1000);
    assert_eq!(outcome, Some(rejected(RejectReason::Flow(FlowError::InvalidGrant))));
    assert_eq!(RejectReason::Flow(FlowError::InvalidGrant).status_code(), 400);
}

#[test]
fn an_unreachable_provider_is_an_upstream_error() {
    let state = FlowState::CsrfVerified { policy: policy() };
    let outcome = resume(state.clone(), FlowEvent::ExchangeFailed(FlowError::Network), 1000);
    assert_eq!(outcome, Some(rejected(RejectReason::Flow(FlowError::Network))));
    let outcome = resume(state, FlowEvent::ExchangeFailed(FlowError::ProfileFetch), 1000);
    assert_eq!(outcome, Some(rejected(RejectReason::Flow(FlowError::ProfileFetch))));
    assert_eq!(RejectReason::Flow(FlowError::Network).status_code(), 502);
    assert_eq!(RejectReason::Flow(FlowError::ProfileFetch).status_code(), 502);
    assert_eq!(RejectReason::Flow(FlowError::Network).class(), ErrorClass::Upstream);
}

#[test]
fn a_malformed_profile_is_a_server_error() {
    let state = FlowState::TokenExchanged { policy: policy(), token: token() };
    let outcome = resume(state, FlowEvent::ProfileMalformed, 1000);
    assert_eq!(outcome, Some(rejected(RejectReason::Deserialization)));
    assert_eq!(RejectReason::Deserialization.status_code(), 500);
}

#[test]
fn a_cookie_that_cannot_be_built_is_a_server_error() {
    let outcome = resume(reconciled_up_to_the_session(), FlowEvent::SessionUpserted, u64::MAX);
    assert_eq!(outcome, Some(rejected(RejectReason::CookieEncoding)));
    assert_eq!(RejectReason::CookieEncoding.status_code(), 500);
}

#[test]
fn status_codes_go_by_the_class_of_the_error() {
    assert_eq!(ErrorClass::Client.status_code(), 400);
    assert_eq!(ErrorClass::Upstream.status_code(), 502);
    assert_eq!(ErrorClass::Server.status_code(), 500);
}

#[test]
fn the_visitor_is_told_the_class_of_a_failure_and_no_more() {
    assert_eq!(ErrorClass::Client.message(), "the sign-in request is not valid");
    assert_eq!(ErrorClass::Upstream.message(), "the sign-in provider could not be reached");
    assert_eq!(ErrorClass::Server.message(), "internal server error");
    assert_eq!(
        RejectReason::Csrf(CsrfError::Missing).class().message(),
        RejectReason::UnknownProvider.class().message()
    );
    assert_eq!(
        RejectReason::Persistence.class().message(),
        RejectReason::CookieEncoding.class().message()
    );
}

#[test]
fn the_machine_makes_one_transition_per_event() {
    let found = FlowEvent::ClientFound { policy: policy(), exchange: exchange_of("abc123") };
    let (state, action) = step(FlowState::Initiated, found).unwrap();
    assert_eq!(
        state,
        FlowState::AwaitingCallback { policy: policy(), exchange: exchange_of("abc123") }
    );
    assert_eq!(action, FlowAction::VerifyCsrf);
    let (state, action) = step(state, FlowEvent::CsrfPassed).unwrap();
    assert_eq!(state, FlowState::CsrfVerified { policy: policy() });
    assert_eq!(action, FlowAction::ExchangeCode(exchange_of("abc123")));
    let (state, _) = step(state, exchanged()).unwrap();
    let (state, _) = step(state, FlowEvent::ProfileDecoded).unwrap();
    let (state, _) = step(state, FlowEvent::UserUpserted).unwrap();
    let (state, action) = step(state, FlowEvent::SessionUpserted).unwrap();
    assert_eq!(state, FlowState::Reconciled { policy: policy(), token: token() });
    assert_eq!(action, FlowAction::IssueCookie);
    let (state, action) = step(state, FlowEvent::CookieEncoded(cookie_issued_at_1000())).unwrap();
    assert_eq!(
        state,
        FlowState::CookieIssued { policy: policy(), cookie: cookie_issued_at_1000() }
    );
    assert_eq!(action, FlowAction::EmitRedirect);
    let (state, action) = step(state, FlowEvent::Emit).unwrap();
    assert_eq!(state, FlowState::Redirected);
    assert_eq!(
        action,
        FlowAction::Redirect {
            cookie: cookie_issued_at_1000(),
            location: "/oauth2/protected".to_string(),
        }
    );
    assert_eq!(step(state, FlowEvent::Emit), None);
}

#[test]
fn the_machine_rejects_at_the_first_two_steps() {
    assert_eq!(
        step(FlowState::Initiated, FlowEvent::ClientUnknown),
        Some(rejected(RejectReason::UnknownProvider))
    );
    let awaiting = FlowState::AwaitingCallback { policy: policy(), exchange: exchange_of("c") };
    assert_eq!(
        step(awaiting.clone(), FlowEvent::CsrfFailed(CsrfError::Missing)),
        Some(rejected(RejectReason::Csrf(CsrfError::Missing)))
    );
    assert_eq!(
        step(awaiting, FlowEvent::CsrfFailed(CsrfError::Mismatch)),
        Some(rejected(RejectReason::Csrf(CsrfError::Mismatch)))
    );
    let reconciled = FlowState::Reconciled { policy: policy(), token: token() };
    assert_eq!(
        step(reconciled, FlowEvent::CookieEncodingFailed(EncodingError::ExpiryOutOfRange)),
        Some(rejected(RejectReason::CookieEncoding))
    );
}

#[test]
fn an_event_out_of_turn_moves_nothing() {
    assert_eq!(step(FlowState::Initiated, FlowEvent::CsrfPassed), None);
    assert_eq!(step(FlowState::Initiated, exchanged()), None);
    let verified = FlowState::CsrfVerified { policy: policy() };
    assert_eq!(step(verified.clone(), FlowEvent::CsrfPassed), None);
    assert_eq!(step(verified.clone(), FlowEvent::ProfileDecoded), None);
    assert_eq!(step(verified.clone(), FlowEvent::SessionUpserted), None);
    assert_eq!(step(verified, FlowEvent::Emit), None);
    let exchanged_state = FlowState::TokenExchanged { policy: policy(), token: token() };
    assert_eq!(step(exchanged_state.clone(), exchanged()), None);
    assert_eq!(step(exchanged_state, FlowEvent::UserUpserted), None);
    assert_eq!(step(FlowState::Redirected, FlowEvent::SessionUpserted), None);
}

#[test]
fn a_code_is_not_exchanged_twice() {
    let mut provider = Provider { used: vec![] };
    let mut session = SessionStore::new();

    let _ = get_authorization_url(&mut session, &google());
    let state_param = session.get(CSRF_TOKEN_KEY).unwrap();
    let (state, action) = google_callback(&mut session, params("abc123", &state_param), &registry());
    let request = match action {
        FlowAction::ExchangeCode(request) => request,
        other => panic!("no exchange: {:?}", other),
    };
    let (state, _) = resume(state, provider.exchange(&request), 1000).unwrap();
    assert_eq!(state, FlowState::TokenExchanged { policy: policy(), token: token() });

    // The same callback again: the token is spent, the provider is not asked.
    let replay = google_callback(&mut session, params("abc123", &state_param), &registry());
    assert_eq!(replay, rejected(RejectReason::Csrf(CsrfError::Missing)));
    assert_eq!(provider.used.len(), 1);

    // The same code under a new sign-in: the provider refuses it.
    let _ = get_authorization_url(&mut session, &google());
    let state_param = session.get(CSRF_TOKEN_KEY).unwrap();
    let (state, action) = google_callback(&mut session, params("abc123", &state_param), &registry());
    let request = match action {
        FlowAction::ExchangeCode(request) => request,
        other => panic!("no exchange: {:?}", other),
    };
    let outcome = resume(state, provider.exchange(&request), 1000).unwrap();
    assert_eq!(outcome.clone(), rejected(RejectReason::Flow(FlowError::InvalidGrant)));

    // And the failed exchange is not tried again.
    assert_eq!(resume(outcome.0, provider.exchange(&request), 1000), None);
}

#[test]
fn the_authorization_url_binds_its_state_to_the_session() {
    let mut session = session_bound_to("stale");
    session.set("cart", "3 items".to_string());
    let url = get_authorization_url(&mut session, &google());
    let bound = session.get(CSRF_TOKEN_KEY).unwrap();
    assert_ne!(bound, "stale");
    assert_eq!(bound.chars().count(), 32);
    assert_eq!(url, google().authorization_url_for(&bound));
    assert_eq!(
        url,
        format!(
            "https://accounts.google.com/o/oauth2/auth?response_type=code&client_id=cid\
             &state={}&redirect_uri=http%3A%2F%2Flocalhost%2Fcb&scope=email",
            bound
        )
    );
    assert_eq!(session.get("cart"), Some("3 items".to_string()));
}

#[test]
fn each_initiation_binds_a_new_state() {
    let mut session = SessionStore::new();
    let first = get_authorization_url(&mut session, &google());
    let first_state = session.get(CSRF_TOKEN_KEY).unwrap();
    let second = get_authorization_url(&mut session, &google());
    let second_state = session.get(CSRF_TOKEN_KEY).unwrap();
    assert_ne!(first, second);
    assert_ne!(first_state, second_state);
    assert_eq!(CsrfBinder::verify(&mut session, &first_state), Err(CsrfError::Mismatch));
    assert_eq!(CsrfBinder::verify(&mut session, &second_state), Ok(()));
}

#[test]
fn the_google_authorization_url_comes_from_the_google_client() {
    let mut session = SessionStore::new();
    let url = google_authorization_url(&mut session, &registry()).unwrap();
    let bound = session.get(CSRF_TOKEN_KEY).unwrap();
    assert_eq!(url, google().authorization_url_for(&bound));
}

#[test]
fn the_google_authorization_url_needs_a_google_client() {
    let mut session = session_bound_to("kept");
    let empty = ClientRegistry::new();
    assert_eq!(
        google_authorization_url(&mut session, &empty),
        Err(RegistryError::UnknownProvider)
    );
    assert_eq!(session.get(CSRF_TOKEN_KEY), Some("kept".to_string()));
}

#[test]
fn a_whole_sign_in_from_the_url_to_the_protected_resource() {
    let mut session = SessionStore::new();
    let url = google_authorization_url(&mut session, &registry()).unwrap();
    let state_param = url.split("&state=").nth(1).unwrap().split('&').next().unwrap().to_string();
    let (mut state, mut action) =
        google_callback(&mut session, params("abc123", &state_param), &registry());
    let mut rounds = 0;
    let cookie = loop {
        rounds += 1;
        assert!(rounds < 10);
        let event = match action {
            FlowAction::ExchangeCode(_) => exchanged(),
            FlowAction::DecodeProfile { .. } => FlowEvent::ProfileDecoded,
            FlowAction::UpsertUser => FlowEvent::UserUpserted,
            FlowAction::UpsertSession => FlowEvent::SessionUpserted,
            FlowAction::Redirect { cookie, location } => {
                assert_eq!(location, "/oauth2/protected");
                break cookie;
            },
            other => panic!("not expected: {:?}", other),
        };
        let next = resume(state, event, 5000).unwrap();
        state = next.0;
        action = next.1;
    };
    assert_eq!(state, FlowState::Redirected);
    assert_eq!(rounds, 5);
    assert_eq!(CredentialCookieIssuer::authenticate(Some(&cookie.value), 5059), Ok(token()));
}
