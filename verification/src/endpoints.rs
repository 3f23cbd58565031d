//! Where sync data goes: the sync server's base URL and API paths, the
//! WebDAV vault's file URLs and credentials, and which backend a setting
//! selects.
use crate::crypto::{base64_encode, base64_text, str_bytes};
use crate::remote_guard::{url_parse, UrlHost};
use crate::text::{push_str, slice_chars, string_from_chars, to_chars, trim};
use vstd::prelude::*;
use vstd::utf8::*;

verus! {

/// `s` without all of its trailing `c`.
pub open spec fn strip_trailing(s: Seq<char>, c: char) -> Seq<char>
    decreases s.len(),
{
    if s.len() > 0 && s.last() == c {
        strip_trailing(s.drop_last(), c)
    } else {
        s
    }
}

/// `s` without all of its leading `c`.
pub open spec fn strip_leading(s: Seq<char>, c: char) -> Seq<char>
    decreases s.len(),
{
    if s.len() > 0 && s[0] == c {
        strip_leading(s.skip(1), c)
    } else {
        s
    }
}

/// Removes every trailing `c` (`str::trim_end_matches`).
pub fn trim_end_matches(v: &Vec<char>, c: char) -> (r: Vec<char>)
    ensures
        r@ == strip_trailing(v@, c),
{
    let mut n = v.len();
    assert(v@.take(n as int) =~= v@);
    while n > 0 && v[n - 1] == c
        invariant
            n <= v@.len(),
            strip_trailing(v@, c) == strip_trailing(v@.take(n as int), c),
        decreases n,
    {
        proof {
            assert(v@.take(n as int).drop_last() =~= v@.take(n - 1));
        }
        n = n - 1;
    }
    proof {
        if n > 0 {
            assert(v@.take(n as int).last() == v@[n - 1]);
        }
    }
    slice_chars(v, 0, n)
}

/// Removes every leading `c` (`str::trim_start_matches`).
pub fn trim_start_matches(v: &Vec<char>, c: char) -> (r: Vec<char>)
    ensures
        r@ == strip_leading(v@, c),
{
    let mut i: usize = 0;
    assert(v@.skip(0) =~= v@);
    while i < v.len() && v[i] == c
        invariant
            i <= v@.len(),
            strip_leading(v@, c) == strip_leading(v@.skip(i as int), c),
        decreases v@.len() - i,
    {
        proof {
            assert(v@.skip(i as int).skip(1) =~= v@.skip(i + 1));
        }
        i = i + 1;
    }
    slice_chars(v, i, v.len())
}

/// The sync server's address.
#[derive(Debug)]
pub struct SyncServerConfig {
    /// Root address, such as `http://127.0.0.1:8787`.
    pub base_url: String,
}

/// A base URL as kept: trimmed, without trailing slashes.
pub open spec fn normalized_url(value: Seq<char>) -> Seq<char> {
    strip_trailing(trim(value), '/')
}

/// Whether a base URL, once normalized, is a non-empty `http` or `https`
/// URL with a host.
pub open spec fn valid_base_url(value: Seq<char>) -> bool {
    let n = normalized_url(value);
    n.len() != 0 && match url_parse(n) {
        Ok(u) => (u.0 == "http"@ || u.0 == "https"@) && !(u.2 is NoHost),
        Err(_) => false,
    }
}

/// URL of API `path` under `base`: one slash between them.
pub open spec fn api_url_of(base: Seq<char>, path: Seq<char>) -> Seq<char> {
    strip_trailing(base, '/') + seq!['/'] + strip_leading(path, '/')
}

/// URL of API `path` under `base`; see `api_url_of`.
pub fn api_url(base: &str, path: &str) -> (r: String)
    ensures
        r@ == api_url_of(base@, path@),
{
    let mut v = trim_end_matches(&to_chars(base), '/');
    v.push('/');
    let p = trim_start_matches(&to_chars(path), '/');
    push_str(&mut v, &p);
    proof {
        assert(v@ =~= api_url_of(base@, path@));
    }
    string_from_chars(&v)
}

/// Whether an access token expiring at `expires_at` (0: unknown) should be
/// refreshed at `now`: within a minute of expiry.
pub open spec fn expiring_soon(expires_at: i64, now: i64) -> bool {
    expires_at != 0 && expires_at <= now + 60
}

/// Whether the token should be refreshed; see `expiring_soon`.
pub fn is_token_expiring_soon(expires_at: i64, now: i64) -> (r: bool)
    ensures
        r == expiring_soon(expires_at, now),
{
    if expires_at == 0 {
        return false;
    }
    now > i64::MAX - 60 || expires_at <= now + 60
}

/// How the WebDAV vault signs in.
#[derive(Debug)]
pub enum WebDavAuth {
    Basic { username: String, password: String },
    Bearer { token: String },
}

/// Where the WebDAV vault keeps its files.
#[derive(Debug)]
pub struct WebDavConfig {
    /// Server address.
    pub endpoint: String,
    pub auth: WebDavAuth,
    /// Path of the vault on the server, without a trailing slash.
    pub vault_path: String,
}

impl WebDavConfig {
    /// URL of file `key`: `"{endpoint}/{vault_path}/{key}"`, trailing slashes
    /// of the endpoint dropped.
    pub fn build_url(&self, key: &str) -> (r: String)
        ensures
            r@ == strip_trailing(self.endpoint@, '/') + seq!['/'] + self.vault_path@ + seq!['/']
                + key@,
    {
        let mut v = trim_end_matches(&to_chars(self.endpoint.as_str()), '/');
        v.push('/');
        push_str(&mut v, &to_chars(self.vault_path.as_str()));
        v.push('/');
        push_str(&mut v, &to_chars(key));
        string_from_chars(&v)
    }

    /// The `Authorization` header: `Basic base64(user:password)` or
    /// `Bearer token`.
    pub fn auth_header(&self) -> (r: String)
        ensures
            match &self.auth {
                WebDavAuth::Basic { username, password } => r@ == "Basic "@ + base64_text(
                    encode_utf8(username@ + seq![':'] + password@),
                ),
                WebDavAuth::Bearer { token } => r@ == "Bearer "@ + token@,
            },
    {
        match &self.auth {
            WebDavAuth::Basic { username, password } => {
                let mut cred = to_chars(username.as_str());
                cred.push(':');
                push_str(&mut cred, &to_chars(password.as_str()));
                let text = string_from_chars(&cred);
                let encoded = base64_encode(str_bytes(text.as_str()).as_slice());
                let mut out = to_chars("Basic ");
                push_str(&mut out, &to_chars(encoded.as_str()));
                proof {
                    assert(cred@ =~= username@ + seq![':'] + password@);
                }
                string_from_chars(&out)
            },
            WebDavAuth::Bearer { token } => {
                let mut out = to_chars("Bearer ");
                push_str(&mut out, &to_chars(token.as_str()));
                string_from_chars(&out)
            },
        }
    }
}

/// The backend that talks to the sync server: it needs a sign-in and an address.
#[derive(Debug)]
pub struct SyncServerBackend;

/// The backend that keeps one encrypted blob in a vault (Gist, WebDAV): no
/// sign-in or address of its own.
#[derive(Debug)]
pub struct BlobVaultBackend;

impl SyncServerBackend {
    pub fn backend_type(&self) -> (r: &'static str)
        ensures
            r@ == "sync_server"@,
    {
        "sync_server"
    }

    pub fn requires_login(&self) -> (r: bool)
        ensures
            r,
    {
        true
    }

    pub fn requires_url(&self) -> (r: bool)
        ensures
            r,
    {
        true
    }
}

impl BlobVaultBackend {
    pub fn backend_type(&self) -> (r: &'static str)
        ensures
            r@ == "blob_vault"@,
    {
        "blob_vault"
    }

    pub fn requires_login(&self) -> (r: bool)
        ensures
            !r,
    {
        false
    }

    pub fn requires_url(&self) -> (r: bool)
        ensures
            !r,
    {
        false
    }
}

/// Which backend a sync setting selects.
#[derive(Debug, Clone, Copy, PartialEq, Eq, Structural)]
pub enum BackendChoice {
    SyncServer,
    BlobVault,
}

/// The backend for setting `sync_backend_type`: `github_gist` and `webdav`
/// keep a blob, everything else uses the sync server.
pub fn create_backend(sync_backend_type: &str) -> (r: BackendChoice)
    ensures
        r == if sync_backend_type@ == "github_gist"@ || sync_backend_type@ == "webdav"@ {
            BackendChoice::BlobVault
        } else {
            BackendChoice::SyncServer
        },
{
    if crate::text::str_eq(sync_backend_type, "github_gist") || crate::text::str_eq(
        sync_backend_type,
        "webdav",
    ) {
        BackendChoice::BlobVault
    } else {
        BackendChoice::SyncServer
    }
}

} // verus!
