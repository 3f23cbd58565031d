//! The authorization code flow with PKCE used by cloud drive vaults: the
//! address the browser is sent to, the port of the local callback server,
//! what a callback must carry, and the token request.
use crate::client::CloudApiError;
use crate::oauth::{utf8_lossy, utf8_lossy_text, OAuthCallback};
use crate::text::{
    decimal_text, has_prefix, i64_to_string, index_of_char, index_of_char_exec, push_str,
    slice_chars, starts_with_str, str_eq, string_from_chars, to_chars,
};
use vstd::prelude::*;
use vstd::utf8::*;

verus! {

/// How a cloud drive is reached for sign-in.
#[derive(Debug)]
pub struct OAuthConfig {
    /// The provider's authorization endpoint.
    pub auth_url: String,
    /// The provider's token endpoint.
    pub token_url: String,
    pub client_id: String,
    pub client_secret: Option<String>,
    /// Where the provider sends the browser back (the local server).
    pub redirect_uri: String,
    /// Space-separated scopes.
    pub scopes: String,
}

// ---------------------------------------------------------------------------
// Percent-encoding
// ---------------------------------------------------------------------------
/// A byte that stays as it is: ASCII letters and digits, `-`, `.`, `_`, `~`.
pub open spec fn url_safe(b: u8) -> bool {
    (48 <= b <= 57) || (65 <= b <= 90) || (97 <= b <= 122) || b == 45 || b == 46 || b == 95
        || b == 126
}

/// An upper-case hexadecimal digit of `d` (0 to 15).
pub open spec fn hex_digit_upper(d: int) -> char {
    if d < 10 {
        (48 + d) as char
    } else {
        (55 + d) as char
    }
}

/// `bytes` percent-encoded: safe bytes as their characters, every other
/// byte as `%` and two upper-case hexadecimal digits.
pub open spec fn percent_encoded(bytes: Seq<u8>) -> Seq<char>
    decreases bytes.len(),
{
    if bytes.len() == 0 {
        Seq::empty()
    } else {
        let b = bytes.last();
        percent_encoded(bytes.drop_last()) + if url_safe(b) {
            seq![b as char]
        } else {
            seq!['%', hex_digit_upper((b / 16) as int), hex_digit_upper((b % 16) as int)]
        }
    }
}

/// The text `s` percent-encoded over its UTF-8 bytes.
pub open spec fn url_encoded(s: Seq<char>) -> Seq<char> {
    percent_encoded(encode_utf8(s))
}

/// Percent-encodes `s` with `urlencoding::encode`, which keeps ASCII
/// letters, digits, `-`, `.`, `_` and `~` and writes every other byte of
/// the UTF-8 text as `%` with two upper-case hexadecimal digits.
#[verifier::external_body]
pub(crate) fn url_encode(s: &str) -> (r: String)
    ensures
        r@ == url_encoded(s@),
{
    urlencoding::encode(s).into_owned()
}

// ---------------------------------------------------------------------------
// The sign-in request
// ---------------------------------------------------------------------------
/// The state sent with a sign-in started at `now_ms`.
pub open spec fn state_text(now_ms: i64) -> Seq<char> {
    "ONetCli_"@ + decimal_text(now_ms as int)
}

/// The state for a sign-in started at `now_ms`.
pub fn oauth_state_at(now_ms: i64) -> (r: String)
    ensures
        r@ == state_text(now_ms),
{
    let mut v = to_chars("ONetCli_");
    let n = i64_to_string(now_ms);
    push_str(&mut v, &to_chars(n.as_str()));
    string_from_chars(&v)
}

/// Milliseconds since the epoch by chrono's `Utc::now().timestamp_millis()`
/// (any value may come).
#[verifier::external_body]
fn utc_now_millis() -> (r: i64) {
    chrono::Utc::now().timestamp_millis()
}

/// The state for a sign-in started now.
pub fn oauth_state() -> (r: String)
    ensures
        exists|t: i64| r@ == state_text(t),
{
    let t = utc_now_millis();
    oauth_state_at(t)
}

/// `key=value` with the value percent-encoded.
pub open spec fn param(key: Seq<char>, value: Seq<char>) -> Seq<char> {
    key + "="@ + url_encoded(value)
}

/// The address the browser is sent to: the authorization endpoint with the
/// client id, response type `code`, redirect address, scopes, state, code
/// challenge and challenge method `S256`, each value percent-encoded.
pub open spec fn authorization_url_text(
    config: OAuthConfig,
    state: Seq<char>,
    challenge: Seq<char>,
) -> Seq<char> {
    config.auth_url@ + "?"@ + param("client_id"@, config.client_id@) + "&"@ + param(
        "response_type"@,
        "code"@,
    ) + "&"@ + param("redirect_uri"@, config.redirect_uri@) + "&"@ + param(
        "scope"@,
        config.scopes@,
    ) + "&"@ + param("state"@, state) + "&"@ + param("code_challenge"@, challenge) + "&"@
        + param("code_challenge_method"@, "S256"@)
}

fn push_param(v: &mut Vec<char>, key: &str, value: &str)
    ensures
        final(v)@ == old(v)@ + param(key@, value@),
{
    push_str(v, &to_chars(key));
    push_str(v, &to_chars("="));
    let e = url_encode(value);
    push_str(v, &to_chars(e.as_str()));
}

/// Builds the address the browser is sent to; see `authorization_url_text`.
pub fn authorization_url(config: &OAuthConfig, state: &str, challenge: &str) -> (r: String)
    ensures
        r@ == authorization_url_text(*config, state@, challenge@),
{
    let mut v = to_chars(config.auth_url.as_str());
    push_str(&mut v, &to_chars("?"));
    push_param(&mut v, "client_id", config.client_id.as_str());
    push_str(&mut v, &to_chars("&"));
    push_param(&mut v, "response_type", "code");
    push_str(&mut v, &to_chars("&"));
    push_param(&mut v, "redirect_uri", config.redirect_uri.as_str());
    push_str(&mut v, &to_chars("&"));
    push_param(&mut v, "scope", config.scopes.as_str());
    push_str(&mut v, &to_chars("&"));
    push_param(&mut v, "state", state);
    push_str(&mut v, &to_chars("&"));
    push_param(&mut v, "code_challenge", challenge);
    push_str(&mut v, &to_chars("&"));
    push_param(&mut v, "code_challenge_method", "S256");
    proof {
        assert(v@ =~= authorization_url_text(*config, state@, challenge@));
    }
    string_from_chars(&v)
}

// ---------------------------------------------------------------------------
// The callback port
// ---------------------------------------------------------------------------
/// A decimal digit.
pub open spec fn is_digit(c: char) -> bool {
    '0' <= c && c <= '9'
}

/// The value of a run of decimal digits.
pub open spec fn digits_value(s: Seq<char>) -> int
    decreases s.len(),
{
    if s.len() == 0 {
        0
    } else {
        digits_value(s.drop_last()) * 10 + (s.last() as int - 48)
    }
}

/// What `str::parse::<u16>` gives: an optional `+`, then one or more
/// decimal digits whose value fits in 16 bits.
pub open spec fn parsed_u16(s: Seq<char>) -> Option<u16> {
    let d = digits_part(s);
    if d.len() > 0 && (forall|i: int| 0 <= i < d.len() ==> is_digit(#[trigger] d[i]))
        && digits_value(d) <= 65535 {
        Some(digits_value(d) as u16)
    } else {
        None
    }
}

proof fn lemma_digits_value_nonneg(s: Seq<char>)
    requires
        forall|i: int| 0 <= i < s.len() ==> is_digit(#[trigger] s[i]),
    ensures
        digits_value(s) >= 0,
    decreases s.len(),
{
    if s.len() > 0 {
        lemma_digits_value_nonneg(s.drop_last());
    }
}

proof fn lemma_digits_value_grows(s: Seq<char>, n: int)
    requires
        0 <= n <= s.len(),
        forall|i: int| 0 <= i < s.len() ==> is_digit(#[trigger] s[i]),
    ensures
        digits_value(s.take(n)) <= digits_value(s),
    decreases s.len() - n,
{
    if n < s.len() {
        lemma_digits_value_grows(s, n + 1);
        assert(s.take(n + 1).drop_last() =~= s.take(n));
        lemma_digits_value_nonneg(s.take(n));
    } else {
        assert(s.take(n) =~= s);
    }
}

/// The digits part of a port text: after a leading `+`, if any.
pub open spec fn digits_part(s: Seq<char>) -> Seq<char> {
    if s.len() > 0 && s[0] == '+' {
        s.drop_first()
    } else {
        s
    }
}

proof fn lemma_not_all_digits(s: Seq<char>, k: int)
    requires
        0 <= k < digits_part(s).len(),
        !is_digit(digits_part(s)[k]),
    ensures
        parsed_u16(s) is None,
{
    let d = digits_part(s);
    assert(!(forall|i: int| 0 <= i < d.len() ==> is_digit(#[trigger] d[i])));
}

proof fn lemma_too_big(s: Seq<char>, n: int)
    requires
        0 < n <= digits_part(s).len(),
        forall|k: int| 0 <= k < n ==> is_digit(#[trigger] digits_part(s)[k]),
        digits_value(digits_part(s).take(n)) > 65535,
    ensures
        parsed_u16(s) is None,
{
    let d = digits_part(s);
    if forall|i: int| 0 <= i < d.len() ==> is_digit(#[trigger] d[i]) {
        lemma_digits_value_grows(d, n);
    }
}

/// Reads a port number as `str::parse::<u16>` does; see `parsed_u16`.
pub fn parse_u16(s: &Vec<char>) -> (r: Option<u16>)
    ensures
        r == parsed_u16(s@),
{
    let start: usize = if s.len() > 0 && s[0] == '+' {
        1
    } else {
        0
    };
    let ghost d = digits_part(s@);
    assert(d =~= s@.skip(start as int));
    if start >= s.len() {
        return None;
    }
    let mut value: u32 = 0;
    let mut i: usize = start;
    while i < s.len()
        invariant
            start <= i <= s@.len(),
            start < s@.len(),
            d == s@.skip(start as int),
            d == digits_part(s@),
            forall|k: int| 0 <= k < i - start ==> is_digit(#[trigger] d[k]),
            value as int == digits_value(d.take(i - start)),
            value <= 65535,
        decreases s@.len() - i,
    {
        let c = s[i];
        if !('0' <= c && c <= '9') {
            proof {
                assert(d[i - start] == c);
                lemma_not_all_digits(s@, i - start);
            }
            return None;
        }
        let ghost t = d.take(i - start + 1);
        assert(t.drop_last() =~= d.take(i - start));
        let digit = (c as u32) - 48;
        let next = value * 10 + digit;
        if next > 65535 {
            proof {
                assert(d[i - start] == c);
                assert(forall|k: int| 0 <= k < i - start + 1 ==> is_digit(#[trigger] d[k]));
                lemma_too_big(s@, i - start + 1);
            }
            return None;
        }
        value = next;
        i = i + 1;
    }
    assert(d.take(d.len() as int) =~= d);
    Some(value as u16)
}

/// The port of the local callback server: the port of a
/// `http://localhost:PORT/...` redirect address where it reads as one,
/// else 8787.
pub open spec fn redirect_port_of(uri: Seq<char>) -> u16 {
    let prefix = "http://localhost:"@;
    if has_prefix(uri, prefix) {
        let rest = uri.skip(prefix.len() as int);
        let head = match index_of_char(rest, '/', 0) {
            Some(k) => rest.take(k),
            None => rest,
        };
        match parsed_u16(head) {
            Some(p) => p,
            None => 8787,
        }
    } else {
        8787
    }
}

/// The port the local callback server listens on; see `redirect_port_of`.
pub fn redirect_port(redirect_uri: &str) -> (r: u16)
    ensures
        r == redirect_port_of(redirect_uri@),
{
    let v = to_chars(redirect_uri);
    if !starts_with_str(&v, "http://localhost:") {
        return 8787;
    }
    let plen = to_chars("http://localhost:").len();
    assert(plen == "http://localhost:"@.len());
    let rest = slice_chars(&v, plen, v.len());
    assert(rest@ =~= v@.skip(plen as int));
    let head = match index_of_char_exec(&rest, '/', 0) {
        Some(k) => {
            proof {
                crate::text::lemma_index_of_char(rest@, '/', 0);
            }
            slice_chars(&rest, 0, k)
        },
        None => slice_chars(&rest, 0, rest.len()),
    };
    proof {
        assert(rest@.subrange(0, rest@.len() as int) =~= rest@);
        match index_of_char(rest@, '/', 0) {
            Some(k) => assert(head@ =~= rest@.take(k)),
            None => {},
        }
    }
    match parse_u16(&head) {
        Some(p) => p,
        None => 8787,
    }
}

// ---------------------------------------------------------------------------
// The callback and the token request
// ---------------------------------------------------------------------------
/// Checks what the provider sent back: a failed callback is a failed
/// sign-in carrying its description ("授权失败" where it gives none); a
/// callback whose state is not the one sent is refused; otherwise the
/// authorization code comes out.
pub fn accept_callback(callback: OAuthCallback, expected_state: &str) -> (r: Result<String, CloudApiError>)
    ensures
        !(callback.error is None && callback.code@.len() != 0) ==> (r matches Err(
            CloudApiError::AuthenticationFailed(m),
        ) && m@ == match callback.error_description {
            Some(d) => d@,
            None => "授权失败"@,
        }),
        (callback.error is None && callback.code@.len() != 0) && !(callback.state matches Some(s)
            && s@ == expected_state@) ==> (r matches Err(CloudApiError::AuthenticationFailed(m))
            && m@ == "State 不匹配"@),
        (callback.error is None && callback.code@.len() != 0) && (callback.state matches Some(s)
            && s@ == expected_state@) ==> r == Ok::<String, CloudApiError>(callback.code),
{
    if !callback.is_success() {
        let m = match callback.error_description {
            Some(d) => d,
            None => String::from_str("授权失败"),
        };
        return Err(CloudApiError::AuthenticationFailed(m));
    }
    let same = match &callback.state {
        Some(s) => str_eq(s.as_str(), expected_state),
        None => false,
    };
    if !same {
        return Err(CloudApiError::AuthenticationFailed(String::from_str("State 不匹配")));
    }
    Ok(callback.code)
}

/// The form body exchanging the code for tokens: grant type, client id,
/// code, redirect address and code verifier (values percent-encoded), then
/// the client secret where there is one.
pub open spec fn token_body_text(config: OAuthConfig, code: Seq<char>, verifier: Seq<char>) -> Seq<char> {
    "grant_type=authorization_code"@ + "&"@ + param("client_id"@, config.client_id@) + "&"@
        + param("code"@, code) + "&"@ + param("redirect_uri"@, config.redirect_uri@) + "&"@
        + param("code_verifier"@, verifier) + match config.client_secret {
        Some(s) => "&"@ + param("client_secret"@, s@),
        None => Seq::empty(),
    }
}

/// Builds the token request body; see `token_body_text`.
pub fn token_request_body(config: &OAuthConfig, code: &str, verifier: &str) -> (r: String)
    ensures
        r@ == token_body_text(*config, code@, verifier@),
{
    let mut v = to_chars("grant_type=authorization_code");
    push_str(&mut v, &to_chars("&"));
    push_param(&mut v, "client_id", config.client_id.as_str());
    push_str(&mut v, &to_chars("&"));
    push_param(&mut v, "code", code);
    push_str(&mut v, &to_chars("&"));
    push_param(&mut v, "redirect_uri", config.redirect_uri.as_str());
    push_str(&mut v, &to_chars("&"));
    push_param(&mut v, "code_verifier", verifier);
    let ghost before = v@;
    match &config.client_secret {
        Some(s) => {
            push_str(&mut v, &to_chars("&"));
            push_param(&mut v, "client_secret", s.as_str());
        },
        None => {},
    }
    proof {
        assert(v@ =~= token_body_text(*config, code@, verifier@));
    }
    string_from_chars(&v)
}

/// The error for a token request the provider refused, quoting its reply.
pub fn token_request_failure(body: &[u8]) -> (r: CloudApiError)
    ensures
        r matches CloudApiError::ServerError(m) && m@ == "Google token 请求失败: "@
            + utf8_lossy_text(body@),
{
    let text = utf8_lossy(body);
    let mut v = to_chars("Google token 请求失败: ");
    push_str(&mut v, &to_chars(text.as_str()));
    CloudApiError::ServerError(string_from_chars(&v))
}

} // verus!
