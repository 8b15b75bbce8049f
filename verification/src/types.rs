//! Secrets and the bearer tokens that carry them.

use crate::error::Error;
use crate::text::{signed_decimal, signed_to_decimal};
use crate::time::{Timestamp, NANOS_PER_SEC};
use std::sync::Arc;
use vstd::prelude::*;
use vstd::string::*;
use zeroize::Zeroize;

verus! {

/// Seconds before its expiry from which a token counts as expired.
pub const EXPIRY_MARGIN_SECS: u32 = 20;

/// What every diagnostic rendering of a [`SecretString`] shows.
pub open spec fn redacted() -> Seq<char> {
    "(redacted)"@
}

/// Whether the text `part` stands somewhere in the text `whole`.
pub open spec fn occurs_in(part: Seq<char>, whole: Seq<char>) -> bool {
    exists|at: int|
        0 <= at && at + part.len() <= whole.len() && #[trigger] whole.subrange(
            at,
            at + part.len(),
        ) == part
}

/// A string that holds a secret.
///
/// The secret is read only through [`SecretString::secret`]; the diagnostic
/// rendering shows a fixed placeholder, and the memory is overwritten when the
/// value is dropped.
pub struct SecretString(String);

impl Clone for SecretString {
    /// A second string with the same secret.
    fn clone(&self) -> (copy: SecretString)
        ensures
            copy@ == self@,
    {
        SecretString(self.0.clone())
    }
}

impl View for SecretString {
    type V = Seq<char>;

    closed spec fn view(&self) -> Seq<char> {
        self.0@
    }
}

impl Drop for SecretString {
    fn drop(&mut self)
        opens_invariants none
        no_unwind
    {
        zeroize_string(&mut self.0);
    }
}

impl SecretString {
    /// Wraps `secret`.
    pub fn new(secret: String) -> (wrapped: SecretString)
        ensures
            wrapped@ == secret@,
    {
        SecretString(secret)
    }

    /// The secret itself.
    pub fn secret(&self) -> (plain: &str)
        ensures
            plain@ == self@,
    {
        self.0.as_str()
    }

    /// Overwrites the secret in memory, ahead of the drop that would do it,
    /// and leaves the empty string in its place.
    pub fn wipe(&mut self)
        ensures
            final(self)@.len() == 0,
    {
        zeroize_string(&mut self.0);
    }

    /// What the diagnostic rendering shows: the placeholder, whatever the
    /// secret is.
    pub open spec fn rendering(&self) -> Seq<char> {
        redacted()
    }

    /// The diagnostic rendering.
    pub fn debug_string(&self) -> (shown: String)
        ensures
            shown@ == self.rendering(),
    {
        "(redacted)".to_owned()
    }
}

/// The diagnostic rendering never shows the secret: a secret that is not by
/// chance a piece of the placeholder itself, as every secret of more than ten
/// characters is not, stands nowhere in its rendering.
pub proof fn rendering_hides_secret(secret: SecretString)
    requires
        secret@.len() > 10 || !occurs_in(secret@, redacted()),
    ensures
        !occurs_in(secret@, secret.rendering()),
{
    reveal_strlit("(redacted)");
}

/// The diagnostic rendering is the same for every secret.
pub proof fn rendering_ignores_secret(first: SecretString, second: SecretString)
    ensures
        first.rendering() == second.rendering(),
{
}

impl From<String> for SecretString {
    fn from(secret: String) -> (wrapped: SecretString)
        ensures
            wrapped@ == secret@,
    {
        SecretString(secret)
    }
}

impl vstd::std_specs::convert::FromSpecImpl<String> for SecretString {
    open spec fn obeys_from_spec() -> bool {
        true
    }

    closed spec fn from_spec(secret: String) -> SecretString {
        SecretString(secret)
    }
}

/// What a [`Token`] is: the secret it carries and the instant it expires, in
/// nanoseconds since the Unix epoch.
pub struct TokenView {
    pub secret: Seq<char>,
    pub expires_at: int,
}

impl TokenView {
    /// Whether the token counts as expired at `now`: from
    /// [`EXPIRY_MARGIN_SECS`] seconds before its expiry on.
    pub open spec fn expired_at(self, now: int) -> bool {
        now >= self.expires_at - EXPIRY_MARGIN_SECS * NANOS_PER_SEC
    }

    /// For how long the token is still good at `now`, in nanoseconds: nothing
    /// once its expiry has passed.
    pub open spec fn valid_for(self, now: int) -> int {
        if self.expires_at >= now {
            self.expires_at - now
        } else {
            0
        }
    }
}

/// What the diagnostic rendering of a token that expires at `expires_at`
/// shows: a placeholder where the secret would stand, and the expiry.
pub open spec fn token_rendering(expires_at: int) -> Seq<char> {
    "Token { access_token: \"****\", expires_at: Timestamp { nanos: "@ + signed_decimal(expires_at)
        + " } }"@
}

/// The string that `serde_json` finds under `name` in the JSON object
/// `document`: `None` where the bytes are not one JSON value, the value is not
/// an object, it has no such member, or the member is not a string.
pub uninterp spec fn json_text_member(document: Seq<u8>, name: Seq<char>) -> Option<Seq<char>>;

/// The number that `serde_json` finds under `name` in the JSON object
/// `document`: `None` where the bytes are not one JSON value, the value is not
/// an object, it has no such member, or the member is not an integer from 0 to
/// `u64::MAX`.
pub uninterp spec fn json_unsigned_member(document: Seq<u8>, name: Seq<char>) -> Option<u64>;

/// The token that the two members of a token payload give at `now`, where
/// both are there.
pub open spec fn token_of_members(
    access_token: Option<Seq<char>>,
    expires_in: Option<u64>,
    now: int,
) -> Option<TokenView> {
    match (access_token, expires_in) {
        (Some(secret), Some(secs)) => Some(
            TokenView { secret, expires_at: now + secs * NANOS_PER_SEC },
        ),
        _ => None,
    }
}

/// The token that the JSON payload `document` gives at `now`: the access
/// token is its member `access_token`, a string, and it expires as many
/// seconds after `now` as its member `expires_in` says.
pub open spec fn token_in(document: Seq<u8>, now: int) -> Option<TokenView> {
    token_of_members(
        json_text_member(document, "access_token"@),
        json_unsigned_member(document, "expires_in"@),
        now,
    )
}

/// Whether `decoded` is what decoding gives when `found` is the token that
/// the payload holds: that token, or a `ParsingError`, which says nothing of
/// the payload.
pub open spec fn decodes_to(found: Option<TokenView>, decoded: Result<Token, Error>) -> bool {
    match found {
        Some(token) => decoded matches Ok(made) && made@ == token,
        None => decoded matches Err(error) && error == Error::ParsingError,
    }
}

struct InnerToken {
    access_token: SecretString,
    expires_at: Timestamp,
}

/// An access token: a bearer secret and the instant at which it expires.
///
/// A token never changes. Clones share one value, so cloning is cheap and
/// copies the secret nowhere.
pub struct Token {
    inner: Arc<InnerToken>,
}

impl Clone for Token {
    /// The same token once more: both share one value.
    fn clone(&self) -> (copy: Token)
        ensures
            copy == *self,
    {
        Token { inner: share(&self.inner) }
    }
}

impl View for Token {
    type V = TokenView;

    closed spec fn view(&self) -> TokenView {
        TokenView { secret: self.inner.access_token@, expires_at: self.inner.expires_at@ }
    }
}

impl Token {
    /// A token that expires `expires_in_secs` seconds after `now`.
    pub fn from_string_at(access_token: SecretString, expires_in_secs: u64, now: Timestamp) -> (token:
        Token)
        requires
            now@ + expires_in_secs * NANOS_PER_SEC <= i128::MAX,
        ensures
            token@.secret == access_token@,
            token@.expires_at == now@ + expires_in_secs * NANOS_PER_SEC,
    {
        let expires_at = now.plus_secs(expires_in_secs);
        Token { inner: Arc::new(InnerToken { access_token, expires_at }) }
    }

    /// A token that expires `expires_in_secs` seconds after the present
    /// instant, read from the system clock at this call.
    pub fn from_string(access_token: SecretString, expires_in_secs: u64) -> (token: Token)
        ensures
            token@.secret == access_token@,
            exists|now: Timestamp|
                #[trigger] now.in_clock_range() && token@.expires_at == now@ + expires_in_secs
                    * NANOS_PER_SEC,
    {
        let now = Timestamp::now();
        Token::from_string_at(access_token, expires_in_secs, now)
    }

    /// Makes a token of the two members of a token payload, read at `now`:
    /// the access token and the seconds until it expires. Where one is
    /// missing there is no token, and the error says nothing of the payload.
    pub fn from_members_at(access_token: Option<String>, expires_in: Option<u64>, now: Timestamp) -> (decoded:
        Result<Token, Error>)
        requires
            expires_in matches Some(secs) ==> now@ + secs * NANOS_PER_SEC <= i128::MAX,
        ensures
            decodes_to(token_of_members(access_token.deep_view(), expires_in, now@), decoded),
    {
        match (access_token, expires_in) {
            (Some(secret), Some(secs)) => Ok(
                Token::from_string_at(SecretString::new(secret), secs, now),
            ),
            _ => Err(Error::ParsingError),
        }
    }

    /// Decodes the JSON payload `document`, read at `now`.
    pub fn from_json_at(document: &[u8], now: Timestamp) -> (decoded: Result<Token, Error>)
        requires
            now.in_clock_range(),
        ensures
            decodes_to(token_in(document@, now@), decoded),
    {
        let access_token = text_member(document, "access_token");
        let expires_in = unsigned_member(document, "expires_in");
        Token::from_members_at(access_token, expires_in, now)
    }

    /// Decodes the JSON payload `document`. The seconds until expiry count
    /// from the present instant, read from the system clock at this call.
    pub fn from_json(document: &[u8]) -> (decoded: Result<Token, Error>)
        ensures
            exists|now: Timestamp| #[trigger]
                now.in_clock_range() && decodes_to(token_in(document@, now@), decoded),
    {
        let now = Timestamp::now();
        Token::from_json_at(document, now)
    }

    /// Whether the token counts as expired at `now`.
    pub fn has_expired_at(&self, now: Timestamp) -> (expired: bool)
        ensures
            expired == self@.expired_at(now@),
    {
        self.inner.expires_at.at_most_secs_after(&now, EXPIRY_MARGIN_SECS)
    }

    /// Whether the token counts as expired at the present instant, read from
    /// the system clock at this call.
    pub fn has_expired(&self) -> (expired: bool)
        ensures
            exists|now: Timestamp| #[trigger]
                now.in_clock_range() && expired == self@.expired_at(now@),
    {
        let now = Timestamp::now();
        self.has_expired_at(now)
    }

    /// The secret that the token carries.
    pub fn secret(&self) -> (plain: &str)
        ensures
            plain@ == self@.secret,
    {
        self.inner.access_token.secret()
    }

    /// The diagnostic rendering: the expiry, and a placeholder in place of
    /// the secret.
    pub fn debug_string(&self) -> (shown: String)
        ensures
            shown@ == token_rendering(self@.expires_at),
    {
        let expiry = signed_to_decimal(self.inner.expires_at.as_nanos());
        "Token { access_token: \"****\", expires_at: Timestamp { nanos: ".to_owned().concat(
            expiry.as_str(),
        ).concat(" } }")
    }

    /// The instant at which the token expires.
    pub fn expires_at(&self) -> (instant: Timestamp)
        ensures
            instant@ == self@.expires_at,
    {
        self.inner.expires_at
    }
}

/// Calls `Arc::clone`, which makes one more pointer to the same value and
/// copies nothing of it.
#[verifier::external_body]
fn share(inner: &Arc<InnerToken>) -> (shared: Arc<InnerToken>)
    ensures
        shared == *inner,
{
    Arc::clone(inner)
}

/// Parses `document` with `serde_json::from_slice` into a `serde_json::Value`,
/// looks `name` up in it with `Value::get`, which finds members of objects
/// only, and takes the string out of a `Value::String`. What comes back
/// depends on the two arguments alone.
#[verifier::external_body]
fn text_member(document: &[u8], name: &str) -> (text: Option<String>)
    ensures
        text.deep_view() == json_text_member(document@, name@),
{
    match serde_json::from_slice::<serde_json::Value>(document).ok()?.get(name)? {
        serde_json::Value::String(text) => Some(text.clone()),
        _ => None,
    }
}

/// Parses `document` with `serde_json::from_slice` into a `serde_json::Value`,
/// looks `name` up in it with `Value::get`, which finds members of objects
/// only, and reads it with `Value::as_u64`, which gives the number where the
/// member is an integer that is not negative. What comes back depends on the
/// two arguments alone.
#[verifier::external_body]
fn unsigned_member(document: &[u8], name: &str) -> (number: Option<u64>)
    ensures
        number == json_unsigned_member(document@, name@),
{
    serde_json::from_slice::<serde_json::Value>(document).ok()?.get(name)?.as_u64()
}

/// Overwrites the bytes of `text` with zeros through `zeroize`'s `Zeroize` for
/// `String`, which then clears it: the string is empty afterwards.
#[verifier::external_body]
fn zeroize_string(text: &mut String)
    ensures
        final(text)@.len() == 0,
    opens_invariants none
    no_unwind
{
    text.zeroize();
}

} // verus!
