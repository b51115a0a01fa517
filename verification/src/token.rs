//! What the provider answers to a successful code exchange.

use vstd::prelude::*;
use crate::text::optional_text;

verus! {

/// The token response of the provider, with the payload it came in.
#[derive(Debug, Clone, PartialEq, Eq)]
pub struct TokenResponse {
    pub access_token: String,
    pub refresh_token: Option<String>,
    /// The lifetime of the access token, in seconds.
    pub expires_in: Option<u64>,
    pub scope: Option<String>,
    /// The provider's payload as it was received.
    pub raw: String,
}

/// A token response as plain values.
pub struct TokenView {
    pub access_token: Seq<char>,
    pub refresh_token: Option<Seq<char>>,
    pub expires_in: Option<u64>,
    pub scope: Option<Seq<char>>,
    pub raw: Seq<char>,
}

impl View for TokenResponse {
    type V = TokenView;

    open spec fn view(&self) -> TokenView {
        TokenView {
            access_token: self.access_token@,
            refresh_token: optional_text(self.refresh_token),
            expires_in: self.expires_in,
            scope: optional_text(self.scope),
            raw: self.raw@,
        }
    }
}

impl TokenView {
    /// Every text of the response has a length of 64 bits, as every string
    /// in memory has.
    pub open spec fn fits(self) -> bool {
        &&& self.access_token.len() <= u64::MAX
        &&& (self.refresh_token matches Some(t) ==> t.len() <= u64::MAX)
        &&& (self.scope matches Some(t) ==> t.len() <= u64::MAX)
        &&& self.raw.len() <= u64::MAX
    }
}

} // verus!
