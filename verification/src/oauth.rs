//! OAuth pieces of cloud sync: the callback that the browser sends to the
//! local server and how it is read, PKCE verifier and challenge, and the
//! token record.
use crate::crypto::{sha256_digest, sha256_of, str_bytes};
use crate::text::{index_of_char, index_of_char_exec, lemma_index_of_char, slice_chars, string_from_chars, to_chars};
use rand::Rng;
use base64::Engine;
use vstd::prelude::*;
use vstd::utf8::*;

verus! {

// ---------------------------------------------------------------------------
// Percent decoding
// ---------------------------------------------------------------------------
/// Whether `c` is a hexadecimal digit.
pub open spec fn is_hex(c: char) -> bool {
    ('0' <= c && c <= '9') || ('a' <= c && c <= 'f') || ('A' <= c && c <= 'F')
}

/// Value of a hexadecimal digit.
pub open spec fn hex_val(c: char) -> int {
    if '0' <= c && c <= '9' {
        (c as int) - ('0' as int)
    } else if 'a' <= c && c <= 'f' {
        (c as int) - ('a' as int) + 10
    } else {
        (c as int) - ('A' as int) + 10
    }
}

/// Whether the two characters after a `%` parse as a byte with
/// `u8::from_str_radix(.., 16)`: two hex digits, or `+` and one.
pub open spec fn hex_pair(a: char, b: char) -> bool {
    (is_hex(a) || a == '+') && is_hex(b)
}

/// The byte two such characters stand for.
pub open spec fn pair_value(a: char, b: char) -> int {
    if a == '+' {
        hex_val(b)
    } else {
        hex_val(a) * 16 + hex_val(b)
    }
}

/// Percent decoding: `%` and two characters that parse as a byte give the
/// character with that code; a `%` without them stays, followed by up to
/// two characters as they are; `+` gives a space.
pub open spec fn percent_decoded(s: Seq<char>) -> Seq<char>
    decreases s.len(),
{
    if s.len() == 0 {
        Seq::empty()
    } else if s[0] == '%' {
        if s.len() >= 3 && hex_pair(s[1], s[2]) {
            seq![(pair_value(s[1], s[2]) as u8) as char] + percent_decoded(s.skip(3))
        } else if s.len() >= 3 {
            seq!['%', s[1], s[2]] + percent_decoded(s.skip(3))
        } else {
            s
        }
    } else if s[0] == '+' {
        seq![' '] + percent_decoded(s.skip(1))
    } else {
        seq![s[0]] + percent_decoded(s.skip(1))
    }
}

/// Text without `%` or `+` decodes to itself.
pub proof fn law_percent_decode_plain_text(s: Seq<char>)
    requires
        forall|i: int| 0 <= i < s.len() ==> s[i] != '%' && s[i] != '+',
    ensures
        percent_decoded(s) == s,
    decreases s.len(),
{
    if s.len() > 0 {
        law_percent_decode_plain_text(s.skip(1));
        assert(seq![s[0]] + s.skip(1) =~= s);
    }
}

fn is_hex_exec(c: char) -> (r: bool)
    ensures
        r == is_hex(c),
{
    ('0' <= c && c <= '9') || ('a' <= c && c <= 'f') || ('A' <= c && c <= 'F')
}

fn hex_val_exec(c: char) -> (r: u8)
    requires
        is_hex(c),
    ensures
        r as int == hex_val(c),
        r < 16,
{
    if '0' <= c && c <= '9' {
        ((c as u32) - ('0' as u32)) as u8
    } else if 'a' <= c && c <= 'f' {
        ((c as u32) - ('a' as u32) + 10) as u8
    } else {
        ((c as u32) - ('A' as u32) + 10) as u8
    }
}

/// Decodes `%XX` escapes and `+` in a query value; see `percent_decoded`.
pub fn percent_decode(s: &str) -> (r: String)
    ensures
        r@ == percent_decoded(s@),
{
    let v = to_chars(s);
    let n = v.len();
    let mut out: Vec<char> = Vec::new();
    let mut i: usize = 0;
    assert(v@.skip(0) =~= v@);
    while i < n
        invariant
            n == v@.len(),
            i <= n,
            percent_decoded(v@) == out@ + percent_decoded(v@.skip(i as int)),
        decreases n - i,
    {
        let ghost rest = v@.skip(i as int);
        let c = v[i];
        if c == '%' {
            if n - i > 2 && (is_hex_exec(v[i + 1]) || v[i + 1] == '+') && is_hex_exec(v[i + 2]) {
                let lo = hex_val_exec(v[i + 2]);
                let value: u8 = if v[i + 1] == '+' {
                    lo
                } else {
                    hex_val_exec(v[i + 1]) * 16 + lo
                };
                out.push(value as char);
                proof {
                    assert(rest.skip(3) =~= v@.skip(i + 3));
                    assert(value as int == pair_value(rest[1], rest[2]));
                }
                i = i + 3;
            } else if n - i > 2 {
                out.push('%');
                out.push(v[i + 1]);
                out.push(v[i + 2]);
                proof {
                    assert(rest.skip(3) =~= v@.skip(i + 3));
                }
                i = i + 3;
            } else {
                let ghost before = out@;
                let mut j = i;
                while j < n
                    invariant
                        i <= j <= n,
                        n == v@.len(),
                        out@ == before + v@.subrange(i as int, j as int),
                    decreases n - j,
                {
                    out.push(v[j]);
                    j = j + 1;
                    proof {
                        assert(v@.subrange(i as int, j as int) =~= v@.subrange(i as int, j - 1)
                            + seq![v@[j - 1]]);
                    }
                }
                proof {
                    assert(v@.subrange(i as int, n as int) =~= rest);
                    assert(v@.skip(n as int) =~= Seq::<char>::empty());
                    assert(rest + Seq::<char>::empty() =~= rest);
                }
                i = n;
            }
        } else if c == '+' {
            out.push(' ');
            proof {
                assert(rest.skip(1) =~= v@.skip(i + 1));
            }
            i = i + 1;
        } else {
            out.push(c);
            proof {
                assert(rest.skip(1) =~= v@.skip(i + 1));
            }
            i = i + 1;
        }
    }
    proof {
        assert(v@.skip(n as int) =~= Seq::<char>::empty());
        assert(out@ + Seq::<char>::empty() =~= out@);
    }
    string_from_chars(&out)
}

// ---------------------------------------------------------------------------
// The callback request
// ---------------------------------------------------------------------------
/// The pieces of `s` between occurrences of `c`, as `str::split` gives them.
pub open spec fn split_at_char(s: Seq<char>, c: char) -> Seq<Seq<char>>
    decreases s.len(),
{
    match index_of_char(s, c, 0) {
        None => seq![s],
        Some(k) => if 0 <= k < s.len() {
            seq![s.take(k)] + split_at_char(s.skip(k + 1), c)
        } else {
            seq![s]
        },
    }
}

/// Views a list of character vectors as sequences.
pub open spec fn pieces_view(v: Seq<Vec<char>>) -> Seq<Seq<char>> {
    v.map_values(|x: Vec<char>| x@)
}

/// Splits `v` at every `c`; see `split_at_char`.
pub fn split_char(v: &Vec<char>, c: char) -> (r: Vec<Vec<char>>)
    ensures
        pieces_view(r@) == split_at_char(v@, c),
{
    let mut out: Vec<Vec<char>> = Vec::new();
    let mut rest = slice_chars(v, 0, v.len());
    let mut done = false;
    proof {
        assert(rest@ =~= v@);
        assert(pieces_view(out@) =~= Seq::<Seq<char>>::empty());
    }
    while !done
        invariant
            !done ==> split_at_char(v@, c) == pieces_view(out@) + split_at_char(rest@, c),
            done ==> split_at_char(v@, c) == pieces_view(out@),
        decreases rest@.len() + if done { 0int } else { 1int },
    {
        proof {
            lemma_index_of_char(rest@, c, 0);
        }
        match index_of_char_exec(&rest, c, 0) {
            None => {
                let ghost before = out@;
                out.push(rest.clone());
                proof {
                    assert(pieces_view(out@) =~= pieces_view(before) + seq![rest@]);
                }
                done = true;
            },
            Some(k) => {
                let ghost before = out@;
                let ghost old_rest = rest@;
                let piece = slice_chars(&rest, 0, k);
                out.push(piece);
                rest = slice_chars(&rest, k + 1, rest.len());
                proof {
                    assert(piece@ =~= old_rest.take(k as int));
                    assert(rest@ =~= old_rest.skip(k + 1));
                    assert(pieces_view(out@) =~= pieces_view(before) + seq![old_rest.take(k as int)]);
                    assert(split_at_char(old_rest, c) == seq![old_rest.take(k as int)]
                        + split_at_char(rest@, c));
                }
            },
        }
    }
    out
}

/// The key of a `key=value` pair: all of it where there is no `=`.
pub open spec fn pair_key(p: Seq<char>) -> Seq<char> {
    match index_of_char(p, '=', 0) {
        Some(k) => p.take(k),
        None => p,
    }
}

/// The raw value of a `key=value` pair: empty where there is no `=`.
pub open spec fn raw_value(p: Seq<char>) -> Seq<char> {
    match index_of_char(p, '=', 0) {
        Some(k) => p.skip(k + 1),
        None => Seq::empty(),
    }
}

/// The decoded value of the last pair with key `key`.
pub open spec fn query_param(pairs: Seq<Seq<char>>, key: Seq<char>) -> Option<Seq<char>>
    decreases pairs.len(),
{
    if pairs.len() == 0 {
        None
    } else if pair_key(pairs.last()) == key {
        Some(percent_decoded(raw_value(pairs.last())))
    } else {
        query_param(pairs.drop_last(), key)
    }
}

/// The query of a request line: from after the first `?` to the next space.
pub open spec fn query_of(req: Seq<char>) -> Option<Seq<char>> {
    match index_of_char(req, '?', 0) {
        None => None,
        Some(p) => {
            let rest = req.skip(p + 1);
            match index_of_char(rest, ' ', 0) {
                Some(e) => Some(rest.take(e)),
                None => Some(rest),
            }
        },
    }
}

/// Fields of a callback: code, state, error, error description.
pub type CallbackParts = (Seq<char>, Option<Seq<char>>, Option<Seq<char>>, Option<Seq<char>>);

/// The callback that a request `req` carries: an error where the provider
/// sent one (with the state and description), else the code (with the
/// state), else an error naming what is missing.
pub open spec fn callback_of(req: Seq<char>) -> CallbackParts {
    match query_of(req) {
        None => (
            Seq::empty(),
            None,
            Some("missing_params"@),
            Some("Missing query parameters"@),
        ),
        Some(q) => {
            let pairs = split_at_char(q, '&');
            match query_param(pairs, "error"@) {
                Some(e) => (
                    Seq::empty(),
                    query_param(pairs, "state"@),
                    Some(e),
                    query_param(pairs, "error_description"@),
                ),
                None => match query_param(pairs, "code"@) {
                    Some(c) => (c, query_param(pairs, "state"@), None, None),
                    None => (
                        Seq::empty(),
                        None,
                        Some("missing_code"@),
                        Some("Authorization code not found in callback"@),
                    ),
                },
            }
        },
    }
}

/// What `String::from_utf8_lossy` gives for `bytes`.
pub uninterp spec fn utf8_lossy_text(bytes: Seq<u8>) -> Seq<char>;

/// Decodes `bytes` as UTF-8 with `String::from_utf8_lossy` (invalid
/// sequences become U+FFFD; valid text comes out as it is).
#[verifier::external_body]
pub(crate) fn utf8_lossy(bytes: &[u8]) -> (r: String)
    ensures
        r@ == utf8_lossy_text(bytes@),
        valid_utf8(bytes@) ==> r@ == decode_utf8(bytes@),
{
    String::from_utf8_lossy(bytes).into_owned()
}

/// What the OAuth provider sent back to the local server.
#[derive(Debug)]
pub struct OAuthCallback {
    /// The authorization code (empty on error).
    pub code: String,
    /// The state, as sent.
    pub state: Option<String>,
    /// The error, if any.
    pub error: Option<String>,
    /// The error's description, if any.
    pub error_description: Option<String>,
}

impl OAuthCallback {
    /// The fields as plain values.
    pub open spec fn parts(&self) -> CallbackParts {
        (
            self.code@,
            crate::models::opt_view(self.state),
            crate::models::opt_view(self.error),
            crate::models::opt_view(self.error_description),
        )
    }

    /// A failed callback with error `code` and description `desc`.
    pub fn error(code: &str, desc: &str) -> (r: Self)
        ensures
            r.parts() == (Seq::<char>::empty(), None::<Seq<char>>, Some(code@), Some(desc@)),
    {
        OAuthCallback {
            code: String::new(),
            state: None,
            error: Some(String::from_str(code)),
            error_description: Some(String::from_str(desc)),
        }
    }

    /// Whether the callback carries a code and no error.
    pub fn is_success(&self) -> (r: bool)
        ensures
            r == (self.error is None && self.code@.len() != 0),
    {
        self.error.is_none() && !self.code.as_str().is_empty()
    }
}

fn chars_to_string(v: &Vec<char>) -> (r: String)
    ensures
        r@ == v@,
{
    string_from_chars(v)
}

/// Reads the OAuth callback from the bytes of an HTTP request; see
/// `callback_of`.
pub fn parse_callback_from_request(buffer: &[u8]) -> (r: OAuthCallback)
    ensures
        r.parts() == callback_of(utf8_lossy_text(buffer@)),
{
    let request = utf8_lossy(buffer);
    let req = to_chars(request.as_str());
    proof {
        lemma_index_of_char(req@, '?', 0);
    }
    let q = match index_of_char_exec(&req, '?', 0) {
        Some(p) => p,
        None => return OAuthCallback::error("missing_params", "Missing query parameters"),
    };
    let rest = slice_chars(&req, q + 1, req.len());
    proof {
        assert(rest@ =~= req@.skip(q + 1));
        lemma_index_of_char(rest@, ' ', 0);
    }
    let query = match index_of_char_exec(&rest, ' ', 0) {
        Some(e) => slice_chars(&rest, 0, e),
        None => rest,
    };
    proof {
        assert(Some(query@) == query_of(req@));
    }
    let pairs = split_char(&query, '&');
    let ghost pv = pieces_view(pairs@);
    let mut code: Option<String> = None;
    let mut state: Option<String> = None;
    let mut error: Option<String> = None;
    let mut error_description: Option<String> = None;
    let k_code = to_chars("code");
    let k_state = to_chars("state");
    let k_error = to_chars("error");
    let k_desc = to_chars("error_description");
    let mut i: usize = 0;
    while i < pairs.len()
        invariant
            i <= pairs@.len(),
            pv == pieces_view(pairs@),
            k_code@ == "code"@,
            k_state@ == "state"@,
            k_error@ == "error"@,
            k_desc@ == "error_description"@,
            crate::models::opt_view(code) == query_param(pv.take(i as int), "code"@),
            crate::models::opt_view(state) == query_param(pv.take(i as int), "state"@),
            crate::models::opt_view(error) == query_param(pv.take(i as int), "error"@),
            crate::models::opt_view(error_description) == query_param(
                pv.take(i as int),
                "error_description"@,
            ),
        decreases pairs@.len() - i,
    {
        let pair = &pairs[i];
        proof {
            lemma_index_of_char(pair@, '=', 0);
        }
        let (key, raw) = match index_of_char_exec(pair, '=', 0) {
            Some(k) => (slice_chars(pair, 0, k), slice_chars(pair, k + 1, pair.len())),
            None => (slice_chars(pair, 0, pair.len()), Vec::new()),
        };
        proof {
            assert(pv[i as int] == pair@);
            assert(key@ =~= pair_key(pair@));
            assert(raw@ =~= raw_value(pair@));
            assert(pv.take(i + 1).drop_last() =~= pv.take(i as int));
            assert(pv.take(i + 1).last() == pair@);
        }
        proof {
            reveal_strlit("code");
            reveal_strlit("state");
            reveal_strlit("error");
            reveal_strlit("error_description");
            assert("state"@ != "error"@) by {
                assert("state"@[0] != "error"@[0]);
            }
        }
        let raw_text = chars_to_string(&raw);
        if crate::text::chars_eq(&key, &k_code) {
            code = Some(percent_decode(raw_text.as_str()));
        } else if crate::text::chars_eq(&key, &k_state) {
            state = Some(percent_decode(raw_text.as_str()));
        } else if crate::text::chars_eq(&key, &k_error) {
            error = Some(percent_decode(raw_text.as_str()));
        } else if crate::text::chars_eq(&key, &k_desc) {
            error_description = Some(percent_decode(raw_text.as_str()));
        }
        proof {
            if key@ != "error"@ {
                assert(query_param(pv.take(i + 1), "error"@) == query_param(
                    pv.take(i as int),
                    "error"@,
                ));
            }
        }
        i = i + 1;
    }
    proof {
        assert(pv.take(pairs@.len() as int) =~= pv);
    }
    match error {
        Some(e) => OAuthCallback { code: String::new(), state, error: Some(e), error_description },
        None => match code {
            Some(c) => OAuthCallback { code: c, state, error: None, error_description: None },
            None => OAuthCallback::error(
                "missing_code",
                "Authorization code not found in callback",
            ),
        },
    }
}

/// Why the local callback server failed.
#[derive(Debug)]
pub enum CallbackServerError {
    /// No free port was found.
    NoAvailablePort,
    /// The server could not start.
    StartFailed(String),
    /// No callback came in time.
    Timeout,
    /// The connection failed.
    ConnectionError(String),
}

impl CallbackServerError {
    /// The message shown for this error.
    pub fn message(&self) -> (r: String)
        ensures
            r@ == match self {
                CallbackServerError::NoAvailablePort => "找不到可用端口"@,
                CallbackServerError::StartFailed(m) => "服务器启动失败: "@ + m@,
                CallbackServerError::Timeout => "回调超时"@,
                CallbackServerError::ConnectionError(m) => "连接错误: "@ + m@,
            },
    {
        match self {
            CallbackServerError::NoAvailablePort => String::from_str("找不到可用端口"),
            CallbackServerError::StartFailed(m) => {
                let mut v = to_chars("服务器启动失败: ");
                crate::text::push_str(&mut v, &to_chars(m.as_str()));
                string_from_chars(&v)
            },
            CallbackServerError::Timeout => String::from_str("回调超时"),
            CallbackServerError::ConnectionError(m) => {
                let mut v = to_chars("连接错误: ");
                crate::text::push_str(&mut v, &to_chars(m.as_str()));
                string_from_chars(&v)
            },
        }
    }
}

/// The page sent back to the browser after a callback: success where the
/// callback has no error.
pub fn callback_response(callback: &OAuthCallback) -> (r: &'static str)
    ensures
        callback.error is None ==> r@ == "HTTP/1.1 200 OK\r\nContent-Type: text/html\r\nContent-Length: 60\r\n\r\n<html><body>授权成功，可以关闭此页面。</body></html>"@,
        callback.error is Some ==> r@ == "HTTP/1.1 400 Bad Request\r\nContent-Type: text/html\r\nContent-Length: 80\r\n\r\n<html><body>授权失败，请关闭页面重试。</body></html>"@,
{
    if callback.error.is_none() {
        "HTTP/1.1 200 OK\r\nContent-Type: text/html\r\nContent-Length: 60\r\n\r\n<html><body>授权成功，可以关闭此页面。</body></html>"
    } else {
        "HTTP/1.1 400 Bad Request\r\nContent-Type: text/html\r\nContent-Length: 80\r\n\r\n<html><body>授权失败，请关闭页面重试。</body></html>"
    }
}

// ---------------------------------------------------------------------------
// PKCE
// ---------------------------------------------------------------------------
/// Characters a code verifier is drawn from, by index: `A`-`Z`, `a`-`z`,
/// `0`-`9`, then `-`, `.`, `_`, `~`.
pub open spec fn pkce_char(idx: int) -> char {
    if idx < 26 {
        ((65 + idx) as u8) as char
    } else if idx < 52 {
        ((97 + idx - 26) as u8) as char
    } else if idx < 62 {
        ((48 + idx - 52) as u8) as char
    } else if idx == 62 {
        '-'
    } else if idx == 63 {
        '.'
    } else if idx == 64 {
        '_'
    } else {
        '~'
    }
}

fn pkce_char_exec(idx: u32) -> (r: char)
    requires
        idx < 66,
    ensures
        r == pkce_char(idx as int),
{
    if idx < 26 {
        ((65 + idx) as u8) as char
    } else if idx < 52 {
        ((97 + idx - 26) as u8) as char
    } else if idx < 62 {
        ((48 + idx - 52) as u8) as char
    } else if idx == 62 {
        '-'
    } else if idx == 63 {
        '.'
    } else if idx == 64 {
        '_'
    } else {
        '~'
    }
}

/// A number in `lo..hi` from rand's `thread_rng().gen_range` (any such may come).
#[verifier::external_body]
fn random_below(lo: u32, hi: u32) -> (r: u32)
    requires
        lo < hi,
    ensures
        lo <= r < hi,
{
    rand::thread_rng().gen_range(lo..hi)
}

/// A random 16-bit number from rand's `random::<u16>()` (any may come).
#[verifier::external_body]
fn random_u16() -> (r: u16) {
    rand::random::<u16>()
}

/// The port tried for the callback server for the random draw `r`: 15000
/// plus `r` modulo 50000.
pub fn callback_port_for(r: u16) -> (p: u16)
    ensures
        p == 15000 + r % 50000,
{
    15000 + r % 50000
}

/// A random port to try for the callback server, in 15000..65000.
pub fn random_callback_port() -> (p: u16)
    ensures
        15000 <= p < 65000,
{
    callback_port_for(random_u16())
}

/// Whether `s` is the characters of indices `idx`, each below 66.
pub open spec fn drawn_from(s: Seq<char>, idx: Seq<int>) -> bool {
    idx.len() == s.len() && forall|i: int|
        0 <= i < idx.len() ==> 0 <= idx[i] < 66 && s[i] == pkce_char(#[trigger] idx[i])
}

/// A PKCE code verifier (RFC 7636): 43 to 128 characters, each drawn from
/// the 66 unreserved ones.
pub fn generate_code_verifier() -> (r: String)
    ensures
        43 <= r@.len() <= 128,
        exists|idx: Seq<int>| #[trigger] drawn_from(r@, idx),
{
    let len = random_below(43, 129);
    let mut out: Vec<char> = Vec::new();
    let ghost mut idx: Seq<int> = Seq::empty();
    let mut i: u32 = 0;
    while i < len
        invariant
            i <= len,
            out@.len() == i,
            idx.len() == i,
            forall|k: int| 0 <= k < i ==> 0 <= idx[k] < 66 && out@[k] == pkce_char(#[trigger] idx[k]),
        decreases len - i,
    {
        let n = random_below(0, 66);
        out.push(pkce_char_exec(n));
        proof {
            idx = idx.push(n as int);
        }
        i = i + 1;
    }
    let r = string_from_chars(&out);
    assert(drawn_from(r@, idx));
    r
}

/// URL-safe Base64 without padding of `bytes`.
pub uninterp spec fn base64url_text(bytes: Seq<u8>) -> Seq<char>;

/// Encodes with base64's `URL_SAFE_NO_PAD` engine.
#[verifier::external_body]
fn base64url_encode(bytes: &[u8]) -> (r: String)
    ensures
        r@ == base64url_text(bytes@),
{
    base64::engine::general_purpose::URL_SAFE_NO_PAD.encode(bytes)
}

/// The PKCE code challenge of a verifier: `BASE64URL(SHA256(verifier))`.
pub fn generate_code_challenge(verifier: &str) -> (r: String)
    ensures
        r@ == base64url_text(sha256_of(encode_utf8(verifier@))),
{
    let bytes = str_bytes(verifier);
    let digest = sha256_digest(bytes.as_slice());
    base64url_encode(digest.as_slice())
}

// ---------------------------------------------------------------------------
// Tokens
// ---------------------------------------------------------------------------
/// OAuth tokens of a storage provider.
#[derive(Debug)]
pub struct OAuthTokens {
    pub access_token: String,
    pub refresh_token: Option<String>,
    pub token_type: String,
    /// Lifetime in seconds, as granted.
    pub expires_in: Option<u64>,
    /// Expiry in seconds since the epoch.
    pub expires_at: Option<i64>,
}

impl Clone for OAuthTokens {
    fn clone(&self) -> (r: Self)
        ensures
            r == *self,
    {
        OAuthTokens {
            access_token: self.access_token.clone(),
            refresh_token: crate::models::clone_opt_string(&self.refresh_token),
            token_type: self.token_type.clone(),
            expires_in: self.expires_in,
            expires_at: self.expires_at,
        }
    }
}

/// GitHub's answer to a token request.
#[derive(Debug)]
pub struct GithubTokenResponse {
    pub access_token: String,
    pub token_type: String,
    pub scope: String,
    pub refresh_token: Option<String>,
}

impl GithubTokenResponse {
    /// The tokens it grants; GitHub gives no lifetime.
    pub fn into_tokens(self) -> (r: OAuthTokens)
        ensures
            r.access_token == self.access_token,
            r.refresh_token == self.refresh_token,
            r.token_type == self.token_type,
            r.expires_in is None,
            r.expires_at is None,
    {
        OAuthTokens {
            access_token: self.access_token,
            refresh_token: self.refresh_token,
            token_type: self.token_type,
            expires_in: None,
            expires_at: None,
        }
    }
}

/// Google's answer to a token request.
#[derive(Debug)]
pub struct GoogleTokenResponse {
    pub access_token: String,
    pub refresh_token: Option<String>,
    pub expires_in: u64,
    pub token_type: String,
    pub id_token: Option<String>,
}

/// Expiry `now + lifetime` in wrapping 64-bit arithmetic.
pub open spec fn expiry(now: i64, lifetime: u64) -> i64 {
    now.wrapping_add(lifetime as i64)
}

/// Seconds since the epoch by chrono's `Utc::now().timestamp()` (any value may come).
#[verifier::external_body]
fn utc_now_secs() -> (r: i64) {
    chrono::Utc::now().timestamp()
}

impl GoogleTokenResponse {
    /// The tokens it grants at `now`: they expire `expires_in` seconds
    /// later (in wrapping 64-bit arithmetic, as the conversion is written).
    pub fn into_tokens_at(self, now: i64) -> (r: OAuthTokens)
        ensures
            r.access_token == self.access_token,
            r.refresh_token == self.refresh_token,
            r.token_type == self.token_type,
            r.expires_in == Some(self.expires_in),
            r.expires_at == Some(expiry(now, self.expires_in)),
    {
        let lifetime = self.expires_in as i64;
        let expires_at = now.wrapping_add(lifetime);
        assert(expires_at == expiry(now, self.expires_in));
        OAuthTokens {
            access_token: self.access_token,
            refresh_token: self.refresh_token,
            token_type: self.token_type,
            expires_in: Some(self.expires_in),
            expires_at: Some(expires_at),
        }
    }

    /// The tokens it grants now; see `into_tokens_at`.
    pub fn into_tokens(self) -> (r: OAuthTokens)
        ensures
            r.access_token == self.access_token,
            r.refresh_token == self.refresh_token,
            r.token_type == self.token_type,
            r.expires_in == Some(self.expires_in),
            exists|now: i64| r.expires_at == Some(#[trigger] expiry(now, self.expires_in)),
    {
        let now = utc_now_secs();
        self.into_tokens_at(now)
    }
}

} // verus!
