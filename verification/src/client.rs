//! One provider's client: its endpoints, credentials, scopes and cookie
//! policy, and the two requests that the flow addresses to the provider, the
//! authorization URL and the form of the code exchange.

use vstd::prelude::*;
use vstd::utf8::{encode_utf8, is_ascii_chars, is_ascii_chars_encode_utf8};
use crate::cookie::{CookieConfig, CookieConfigView};
use crate::csrf::{is_alphanumeric, is_generated_token, CsrfBinder};
use crate::text::{push_char, to_chars};

verus! {

/// The bytes that a form-encoded value holds as they are: ASCII letters and
/// digits, `*`, `-`, `.` and `_`.
pub open spec fn is_unreserved(b: u8) -> bool {
    ||| 0x30 <= b <= 0x39
    ||| 0x41 <= b <= 0x5A
    ||| 0x61 <= b <= 0x7A
    ||| b == 0x2A
    ||| b == 0x2D
    ||| b == 0x2E
    ||| b == 0x5F
}

/// The upper-case hexadecimal digit of a value below sixteen.
pub open spec fn hex_digit(n: u8) -> char {
    if n < 10 {
        ((n + 48) as u8) as char
    } else {
        ((n + 55) as u8) as char
    }
}

/// One byte of a form-encoded value: itself where it is unreserved, `+` for
/// a space, and `%` with two hexadecimal digits otherwise.
pub open spec fn encoded_byte(b: u8) -> Seq<char> {
    if is_unreserved(b) {
        seq![b as char]
    } else if b == 0x20 {
        seq!['+']
    } else {
        seq!['%', hex_digit(b / 16), hex_digit(b % 16)]
    }
}

/// The bytes of a value, encoded one by one.
pub open spec fn form_encoded(bytes: Seq<u8>) -> Seq<char>
    decreases bytes.len(),
{
    if bytes.len() == 0 {
        Seq::empty()
    } else {
        form_encoded(bytes.drop_last()) + encoded_byte(bytes.last())
    }
}

/// A text as the value of a query or form parameter: its UTF-8 bytes,
/// form-encoded.
pub open spec fn encoded_component(text: Seq<char>) -> Seq<char> {
    form_encoded(encode_utf8(text))
}

/// The scopes, each encoded, with `+` (an encoded space) between them.
pub open spec fn scope_list(scopes: Seq<Seq<char>>) -> Seq<char>
    decreases scopes.len(),
{
    if scopes.len() == 0 {
        Seq::empty()
    } else if scopes.len() == 1 {
        encoded_component(scopes[0])
    } else {
        scope_list(scopes.drop_last()) + seq!['+'] + encoded_component(scopes.last())
    }
}

/// What joins the parameters to the endpoint: `&` where the endpoint has a
/// query already, `?` where it has none.
pub open spec fn query_separator(endpoint: Seq<char>) -> char {
    if endpoint.contains('?') {
        '&'
    } else {
        '?'
    }
}

/// The scope parameter of an authorization URL; nothing, where the client
/// asks for no scope.
pub open spec fn scope_parameter(scopes: Seq<Seq<char>>) -> Seq<char> {
    if scopes.len() == 0 {
        Seq::empty()
    } else {
        "&scope="@ + scope_list(scopes)
    }
}

/// The configuration of one provider's client.
#[derive(Debug, Clone, PartialEq, Eq)]
pub struct AuthorizationCodeClient {
    pub provider_id: String,
    pub client_id: String,
    pub client_secret: String,
    pub authorize_endpoint: String,
    pub token_endpoint: String,
    pub redirect_uri: String,
    pub scopes: Vec<String>,
    pub cookie_config: CookieConfig,
}

/// A client as plain values.
pub struct ClientView {
    pub provider_id: Seq<char>,
    pub client_id: Seq<char>,
    pub client_secret: Seq<char>,
    pub authorize_endpoint: Seq<char>,
    pub token_endpoint: Seq<char>,
    pub redirect_uri: Seq<char>,
    pub scopes: Seq<Seq<char>>,
    pub cookie_config: CookieConfigView,
}

/// The views of a list of strings.
pub open spec fn texts(list: Seq<String>) -> Seq<Seq<char>> {
    Seq::new(list.len(), |i: int| list[i]@)
}

impl View for AuthorizationCodeClient {
    type V = ClientView;

    open spec fn view(&self) -> ClientView {
        ClientView {
            provider_id: self.provider_id@,
            client_id: self.client_id@,
            client_secret: self.client_secret@,
            authorize_endpoint: self.authorize_endpoint@,
            token_endpoint: self.token_endpoint@,
            redirect_uri: self.redirect_uri@,
            scopes: texts(self.scopes@),
            cookie_config: self.cookie_config@,
        }
    }
}

/// What is sent to the token endpoint to exchange a code.
#[derive(Debug, Clone, PartialEq, Eq)]
pub struct ExchangeRequest {
    pub token_endpoint: String,
    /// The form-encoded body of the request.
    pub form: String,
}

/// An exchange request as plain values.
pub struct ExchangeRequestView {
    pub token_endpoint: Seq<char>,
    pub form: Seq<char>,
}

impl View for ExchangeRequest {
    type V = ExchangeRequestView;

    open spec fn view(&self) -> ExchangeRequestView {
        ExchangeRequestView { token_endpoint: self.token_endpoint@, form: self.form@ }
    }
}

/// The provider's authorize endpoint with the parameters of an
/// authorization request: the response type `code`, the client id, the
/// state, the redirect URI and, where the client asks for any, the scopes.
pub open spec fn authorization_url(client: ClientView, state: Seq<char>) -> Seq<char> {
    client.authorize_endpoint + seq![query_separator(client.authorize_endpoint)]
        + "response_type=code&client_id="@ + encoded_component(client.client_id) + "&state="@
        + encoded_component(state) + "&redirect_uri="@ + encoded_component(client.redirect_uri)
        + scope_parameter(client.scopes)
}

/// The form that exchanges `code` for a token: the grant type, the code,
/// the redirect URI and the client's credentials.
pub open spec fn exchange_form(client: ClientView, code: Seq<char>) -> Seq<char> {
    "grant_type=authorization_code&code="@ + encoded_component(code) + "&redirect_uri="@
        + encoded_component(client.redirect_uri) + "&client_id="@ + encoded_component(
        client.client_id,
    ) + "&client_secret="@ + encoded_component(client.client_secret)
}

/// The request that exchanges `code`: the form, addressed to the client's
/// token endpoint.
pub open spec fn exchange_request(client: ClientView, code: Seq<char>) -> ExchangeRequestView {
    ExchangeRequestView {
        token_endpoint: client.token_endpoint,
        form: exchange_form(client, code),
    }
}

fn hex_char(n: u8) -> (c: char)
    requires
        n < 16,
    ensures
        c == hex_digit(n),
{
    if n < 10 {
        (n + 48) as char
    } else {
        (n + 55) as char
    }
}

/// Appends `text` as the value of a parameter.
pub fn append_encoded(out: &mut String, text: &str)
    ensures
        final(out)@ == old(out)@ + encoded_component(text@),
{
    let ghost before = out@;
    let bytes = text.as_bytes();
    let n: usize = bytes.len();
    let mut i: usize = 0;
    while i < n
        invariant
            i <= n,
            n == bytes@.len(),
            out@ == before + form_encoded(bytes@.subrange(0, i as int)),
        decreases n - i,
    {
        let b: u8 = bytes[i];
        let ghost so_far = out@;
        if (0x30 <= b && b <= 0x39) || (0x41 <= b && b <= 0x5A) || (0x61 <= b && b <= 0x7A) || b
            == 0x2A || b == 0x2D || b == 0x2E || b == 0x5F {
            push_char(out, b as char);
        } else if b == 0x20 {
            push_char(out, '+');
        } else {
            push_char(out, '%');
            push_char(out, hex_char(b / 16));
            push_char(out, hex_char(b % 16));
        }
        proof {
            let next = bytes@.subrange(0, i as int + 1);
            assert(next.drop_last() =~= bytes@.subrange(0, i as int));
            assert(next.last() == b);
            assert(out@ =~= so_far + encoded_byte(b));
        }
        i = i + 1;
    }
    assert(bytes@.subrange(0, n as int) =~= bytes@);
}

fn append_scopes(out: &mut String, scopes: &Vec<String>)
    ensures
        final(out)@ == old(out)@ + scope_parameter(texts(scopes@)),
{
    let ghost before = out@;
    let ghost all = texts(scopes@);
    let n: usize = scopes.len();
    if n == 0 {
        assert(out@ =~= before + scope_parameter(all));
        return ;
    }
    out.append("&scope=");
    append_encoded(out, scopes[0].as_str());
    assert(all.subrange(0, 1)[0] == all[0]);
    let mut i: usize = 1;
    while i < n
        invariant
            1 <= i <= n,
            n == scopes@.len(),
            all == texts(scopes@),
            out@ == before + "&scope="@ + scope_list(all.subrange(0, i as int)),
        decreases n - i,
    {
        let ghost so_far = out@;
        push_char(out, '+');
        append_encoded(out, scopes[i].as_str());
        proof {
            let next = all.subrange(0, i as int + 1);
            assert(next.drop_last() =~= all.subrange(0, i as int));
            assert(next.last() == scopes@[i as int]@);
            assert(out@ =~= before + "&scope="@ + scope_list(next));
        }
        i = i + 1;
    }
    assert(all.subrange(0, n as int) =~= all);
    assert(out@ =~= before + scope_parameter(all));
}

fn has_query(endpoint: &str) -> (found: bool)
    ensures
        found == endpoint@.contains('?'),
{
    let chars = to_chars(endpoint);
    let n: usize = chars.len();
    let mut i: usize = 0;
    while i < n
        invariant
            i <= n,
            n == chars@.len(),
            chars@ == endpoint@,
            forall|j: int| 0 <= j < i ==> chars@[j] != '?',
        decreases n - i,
    {
        if chars[i] == '?' {
            assert(endpoint@[i as int] == '?');
            return true;
        }
        i = i + 1;
    }
    false
}

impl AuthorizationCodeClient {
    /// The authorization URL that carries `state`.
    pub fn authorization_url_for(&self, state: &str) -> (url: String)
        ensures
            url@ == authorization_url(self@, state@),
    {
        let mut url = self.authorize_endpoint.clone();
        if has_query(self.authorize_endpoint.as_str()) {
            push_char(&mut url, '&');
        } else {
            push_char(&mut url, '?');
        }
        url.append("response_type=code&client_id=");
        append_encoded(&mut url, self.client_id.as_str());
        url.append("&state=");
        append_encoded(&mut url, state);
        url.append("&redirect_uri=");
        append_encoded(&mut url, self.redirect_uri.as_str());
        append_scopes(&mut url, &self.scopes);
        assert(url@ =~= authorization_url(self@, state@));
        url
    }

    /// An authorization URL with a freshly generated state, and that state,
    /// which the caller binds to the visitor's session.
    pub fn get_authorization_url(&self) -> (issued: (String, String))
        ensures
            is_generated_token(issued.1@),
            issued.0@ == authorization_url(self@, issued.1@),
    {
        let state = CsrfBinder::generate();
        let url = self.authorization_url_for(state.as_str());
        (url, state)
    }

    /// The request that exchanges `code` at the token endpoint.
    pub fn exchange_request_for(&self, code: &str) -> (request: ExchangeRequest)
        ensures
            request@ == exchange_request(self@, code@),
    {
        let mut form = String::new();
        form.append("grant_type=authorization_code&code=");
        append_encoded(&mut form, code);
        form.append("&redirect_uri=");
        append_encoded(&mut form, self.redirect_uri.as_str());
        form.append("&client_id=");
        append_encoded(&mut form, self.client_id.as_str());
        form.append("&client_secret=");
        append_encoded(&mut form, self.client_secret.as_str());
        assert(form@ =~= exchange_form(self@, code@));
        ExchangeRequest { token_endpoint: self.token_endpoint.clone(), form }
    }

    /// The client's cookie policy.
    pub fn get_cookie_config(&self) -> (config: &CookieConfig)
        ensures
            *config == self.cookie_config,
    {
        &self.cookie_config
    }
}

proof fn unreserved_bytes_are_unchanged(bytes: Seq<u8>)
    requires
        forall|i: int| 0 <= i < bytes.len() ==> is_unreserved(#[trigger] bytes[i]),
    ensures
        form_encoded(bytes).len() == bytes.len(),
        forall|i: int|
            0 <= i < bytes.len() ==> #[trigger] form_encoded(bytes)[i] == bytes[i] as char,
    decreases bytes.len(),
{
    if bytes.len() > 0 {
        let front = bytes.drop_last();
        unreserved_bytes_are_unchanged(front);
        assert(is_unreserved(bytes.last()));
        assert forall|i: int| 0 <= i < bytes.len() implies #[trigger] form_encoded(bytes)[i]
            == bytes[i] as char by {
            if i < front.len() {
                assert(form_encoded(bytes)[i] == form_encoded(front)[i]);
                assert(front[i] == bytes[i]);
            } else {
                assert(form_encoded(bytes)[i] == encoded_byte(bytes.last())[0]);
            }
        }
    }
}

/// Letters and digits stand for themselves in a parameter value.
pub proof fn alphanumeric_text_is_unchanged(text: Seq<char>)
    requires
        forall|i: int| 0 <= i < text.len() ==> is_alphanumeric(#[trigger] text[i]),
    ensures
        encoded_component(text) == text,
{
    assert(is_ascii_chars(text));
    is_ascii_chars_encode_utf8(text);
    let bytes = encode_utf8(text);
    assert forall|i: int| 0 <= i < bytes.len() implies is_unreserved(#[trigger] bytes[i]) by {
        assert(is_alphanumeric(text[i]));
        assert(text[i] as u8 == bytes[i]);
    }
    unreserved_bytes_are_unchanged(bytes);
    assert forall|i: int| 0 <= i < text.len() implies form_encoded(bytes)[i] == text[i] by {
        assert(is_alphanumeric(text[i]));
        assert(text[i] as u8 == bytes[i]);
    }
    assert(form_encoded(bytes) =~= text);
}

/// A generated state goes into the authorization URL as it is, so the state
/// that the provider hands back is, character for character, the token that
/// was bound to the session.
pub proof fn generated_state_is_sent_unchanged(client: ClientView, state: Seq<char>)
    requires
        is_generated_token(state),
    ensures
        authorization_url(client, state) == client.authorize_endpoint + seq![
            query_separator(client.authorize_endpoint),
        ] + "response_type=code&client_id="@ + encoded_component(client.client_id) + "&state="@
            + state + "&redirect_uri="@ + encoded_component(client.redirect_uri)
            + scope_parameter(client.scopes),
{
    alphanumeric_text_is_unchanged(state);
}

} // verus!
