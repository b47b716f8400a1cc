//! Credentials of the device feed's OAuth2 account: the authorization link
//! and the bookkeeping of access-token expiry.

use vstd::prelude::*;
use crate::timestamp::Timestamp;

verus! {

pub const AUTHORIZE_URL: &'static str = "https://api.prod.whoop.com/oauth/oauth2/auth";

pub const SCOPES: &'static str = "read:cycles read:sleep read:recovery read:profile offline";

pub const AUTH_STATE: &'static str = "lastsignal_auth";

/// Minutes before expiry at which a token is refreshed when it is used.
pub const REFRESH_MARGIN_MINUTES: u32 = 5;

/// Minutes before expiry at which the periodic task refreshes a token.
pub const BACKGROUND_REFRESH_MARGIN_MINUTES: u32 = 35;

pub const TOKENS_FILE: &'static str = "whoop_tokens.json";

pub open spec fn unreserved(c: char) -> bool {
    ('0' <= c && c <= '9') || ('A' <= c && c <= 'Z') || ('a' <= c && c <= 'z') || c == '-' || c
        == '.' || c == '_' || c == '~'
}

pub open spec fn hex_digit(d: int) -> char {
    if d == 0 {
        '0'
    } else if d == 1 {
        '1'
    } else if d == 2 {
        '2'
    } else if d == 3 {
        '3'
    } else if d == 4 {
        '4'
    } else if d == 5 {
        '5'
    } else if d == 6 {
        '6'
    } else if d == 7 {
        '7'
    } else if d == 8 {
        '8'
    } else if d == 9 {
        '9'
    } else if d == 10 {
        'A'
    } else if d == 11 {
        'B'
    } else if d == 12 {
        'C'
    } else if d == 13 {
        'D'
    } else if d == 14 {
        'E'
    } else {
        'F'
    }
}

pub open spec fn ascii_text(s: Seq<char>) -> bool {
    forall|i: int| 0 <= i < s.len() ==> (#[trigger] s[i] as int) < 128
}

/// Percent-encoding of an ASCII text: unreserved characters stay, every
/// other one becomes `%` and two upper-case hex digits.
pub open spec fn percent_encoded(s: Seq<char>) -> Seq<char>
    decreases s.len(),
{
    if s.len() == 0 {
        Seq::empty()
    } else {
        let c = s[0];
        let head = if unreserved(c) {
            seq![c]
        } else {
            seq!['%', hex_digit(c as int / 16), hex_digit(c as int % 16)]
        };
        head + percent_encoded(s.subrange(1, s.len() as int))
    }
}

/// The percent-encoding of the UTF-8 bytes of a text.
pub uninterp spec fn url_encoded(s: Seq<char>) -> Seq<char>;

/// Relies on `urlencoding::encode`: every byte of the UTF-8 text but
/// alphanumerics and `-`, `_`, `.`, `~` is written as `%XX`.
#[verifier::external_body]
fn url_encode(s: &str) -> (r: String)
    ensures
        r@ == url_encoded(s@),
        ascii_text(s@) ==> r@ == percent_encoded(s@),
{
    urlencoding::encode(s).into_owned()
}

/// The tokens of an authorized account.
#[derive(Clone, Debug)]
pub struct WhoopTokens {
    pub access_token: String,
    pub refresh_token: String,
    pub expires_at: Timestamp,
    pub token_type: String,
}

/// Why a token response was refused.
#[derive(Clone, Copy, Debug, PartialEq, Eq, Structural)]
pub enum TokenError {
    NoRefreshToken,
    ExpiryOutOfRange,
}

/// The client registration used to authorize an account.
#[derive(Clone, Debug)]
pub struct WhoopOAuth {
    pub client_id: String,
    pub client_secret: String,
    pub redirect_uri: String,
    pub data_directory: String,
}

/// The expiry `expires_in` seconds after `now`, when it is representable.
pub open spec fn expiry_after(now: Timestamp, expires_in: u64) -> Option<Timestamp> {
    let t = now.micros + expires_in * 1_000_000;
    if t <= i64::MAX {
        Some(Timestamp { micros: t as i64 })
    } else {
        None
    }
}

impl WhoopOAuth {
    pub fn new(
        client_id: String,
        client_secret: String,
        redirect_uri: String,
        data_directory: String,
    ) -> (r: WhoopOAuth)
        ensures
            r.client_id == client_id,
            r.client_secret == client_secret,
            r.redirect_uri == redirect_uri,
            r.data_directory == data_directory,
    {
        WhoopOAuth { client_id, client_secret, redirect_uri, data_directory }
    }

    /// The link the account holder opens to grant access.
    pub fn get_authorization_url(&self) -> (r: String)
        ensures
            r@ == AUTHORIZE_URL@ + "?response_type=code&client_id="@ + self.client_id@
                + "&redirect_uri="@ + url_encoded(self.redirect_uri@) + "&scope="@ + url_encoded(
                SCOPES@,
            ) + "&state="@ + AUTH_STATE@,
    {
        let redirect = url_encode(self.redirect_uri.as_str());
        let scope = url_encode(SCOPES);
        AUTHORIZE_URL.to_string().concat("?response_type=code&client_id=").concat(
            self.client_id.as_str(),
        ).concat("&redirect_uri=").concat(redirect.as_str()).concat("&scope=").concat(
            scope.as_str(),
        ).concat("&state=").concat(AUTH_STATE)
    }

    /// The tokens of a token response received at `now`; a first
    /// authorization must come with a refresh token.
    pub fn tokens_from_response(
        access_token: String,
        refresh_token: String,
        expires_in: u64,
        token_type: String,
        now: Timestamp,
        require_refresh_token: bool,
    ) -> (r: Result<WhoopTokens, TokenError>)
        ensures
            match r {
                Ok(t) => !(require_refresh_token && refresh_token@.len() == 0) && expiry_after(
                    now,
                    expires_in,
                ) == Some(t.expires_at) && t.access_token == access_token && t.refresh_token
                    == refresh_token && t.token_type == token_type,
                Err(TokenError::NoRefreshToken) => require_refresh_token && refresh_token@.len()
                    == 0,
                Err(TokenError::ExpiryOutOfRange) => !(require_refresh_token
                    && refresh_token@.len() == 0) && expiry_after(now, expires_in) is None,
            },
    {
        if require_refresh_token && refresh_token.as_str().unicode_len() == 0 {
            return Err(TokenError::NoRefreshToken);
        }
        let t: i128 = now.micros as i128 + expires_in as i128 * 1_000_000;
        if t > i64::MAX as i128 {
            return Err(TokenError::ExpiryOutOfRange);
        }
        Ok(
            WhoopTokens {
                access_token,
                refresh_token,
                expires_at: Timestamp { micros: t as i64 },
                token_type,
            },
        )
    }
}

/// Whether tokens expiring at `expires_at` are due for refresh at `now`,
/// `margin_minutes` ahead of expiry.
pub fn needs_refresh(expires_at: Timestamp, now: Timestamp, margin_minutes: u32) -> (r: bool)
    ensures
        r == (expires_at.micros <= now.micros + margin_minutes * 60_000_000),
{
    (expires_at.micros as i128) <= now.micros as i128 + margin_minutes as i128 * 60_000_000
}

} // verus!
