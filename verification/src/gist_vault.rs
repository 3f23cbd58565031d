//! The GitHub gist vault: the one gist that holds the sync data, the
//! requests made on it, and what their replies mean.
use crate::blob_vault::{Blob, BlobMeta};
use crate::client::CloudApiError;
use crate::crypto::{str_bytes, utf8_to_string};
use crate::oauth::{utf8_lossy, utf8_lossy_text, OAuthTokens};
use crate::text::{decimal_text, i64_to_string, push_str, str_eq, string_from_chars, to_chars};
use vstd::prelude::*;
use vstd::utf8::*;

verus! {

/// The file of the vault gist that holds the data.
pub open spec fn vault_file() -> Seq<char> {
    "ONetCli-vault.json"@
}

/// The name of the vault gist's file.
pub fn vault_file_name() -> (r: &'static str)
    ensures
        r@ == vault_file(),
{
    "ONetCli-vault.json"
}

/// `prefix` followed by `rest`.
fn prefixed(prefix: &str, rest: &str) -> (r: String)
    ensures
        r@ == prefix@ + rest@,
{
    let mut v = to_chars(prefix);
    push_str(&mut v, &to_chars(rest));
    string_from_chars(&v)
}

/// The address of the user's gists.
pub fn gists_url() -> (r: &'static str)
    ensures
        r@ == "https://api.github.com/gists"@,
{
    "https://api.github.com/gists"
}

/// The address of one gist.
pub fn gist_url(gist_id: &str) -> (r: String)
    ensures
        r@ == "https://api.github.com/gists/"@ + gist_id@,
{
    prefixed("https://api.github.com/gists/", gist_id)
}

/// The authorization header value for `tokens`.
pub fn bearer(tokens: &OAuthTokens) -> (r: String)
    ensures
        r@ == "Bearer "@ + tokens.access_token@,
{
    prefixed("Bearer ", tokens.access_token.as_str())
}

// ---------------------------------------------------------------------------
// Replies
// ---------------------------------------------------------------------------
/// A 2xx status.
pub open spec fn ok_status(status: u16) -> bool {
    200 <= status <= 299
}

/// `message` followed by the status.
fn with_status(message: &str, status: u16) -> (r: String)
    ensures
        r@ == message@ + decimal_text(status as int),
{
    let code = i64_to_string(status as i64);
    let mut v = to_chars(message);
    push_str(&mut v, &to_chars(code.as_str()));
    string_from_chars(&v)
}

/// The error for a failed listing of the user's gists.
pub fn list_gists_status_error(status: u16) -> (r: Option<CloudApiError>)
    ensures
        ok_status(status) ==> r is None,
        !ok_status(status) ==> (r matches Some(CloudApiError::ServerError(m)) && m@
            == "列出 gists 失败: HTTP "@ + decimal_text(status as int)),
{
    if 200 <= status && status <= 299 {
        None
    } else {
        Some(CloudApiError::ServerError(with_status("列出 gists 失败: HTTP ", status)))
    }
}

/// The error for a failed creation of the vault gist (201 Created is
/// success).
pub fn create_gist_status_error(status: u16) -> (r: Option<CloudApiError>)
    ensures
        (ok_status(status) || status == 201) ==> r is None,
        !(ok_status(status) || status == 201) ==> (r matches Some(CloudApiError::ServerError(m))
            && m@ == "创建 gist 失败: HTTP "@ + decimal_text(status as int)),
{
    if (200 <= status && status <= 299) || status == 201 {
        None
    } else {
        Some(CloudApiError::ServerError(with_status("创建 gist 失败: HTTP ", status)))
    }
}

/// What the status of a gist read means: 404 is an absent gist
/// (`Ok(false)`), another failure a server error, success `Ok(true)`.
pub fn get_gist_status(status: u16) -> (r: Result<bool, CloudApiError>)
    ensures
        status == 404 ==> r == Ok::<bool, CloudApiError>(false),
        status != 404 && ok_status(status) ==> r == Ok::<bool, CloudApiError>(true),
        status != 404 && !ok_status(status) ==> (r matches Err(CloudApiError::ServerError(m)) && m@
            == "获取 gist 失败: HTTP "@ + decimal_text(status as int)),
{
    if status == 404 {
        Ok(false)
    } else if 200 <= status && status <= 299 {
        Ok(true)
    } else {
        Err(CloudApiError::ServerError(with_status("获取 gist 失败: HTTP ", status)))
    }
}

/// The error for a refused update of the gist, with the status and the
/// reply.
pub fn update_gist_failure(status: u16, body: &[u8]) -> (r: Option<CloudApiError>)
    ensures
        ok_status(status) ==> r is None,
        !ok_status(status) ==> (r matches Some(CloudApiError::ServerError(m)) && m@
            == "更新 gist 失败: HTTP "@ + decimal_text(status as int) + " - "@ + utf8_lossy_text(
            body@,
        )),
{
    if 200 <= status && status <= 299 {
        return None;
    }
    let head = with_status("更新 gist 失败: HTTP ", status);
    let text = utf8_lossy(body);
    let mut v = to_chars(head.as_str());
    push_str(&mut v, &to_chars(" - "));
    push_str(&mut v, &to_chars(text.as_str()));
    Some(CloudApiError::ServerError(string_from_chars(&v)))
}

/// The error for a failed deletion of the gist (404, already gone, is
/// fine).
pub fn delete_gist_status_error(status: u16) -> (r: Option<CloudApiError>)
    ensures
        (ok_status(status) || status == 404) ==> r is None,
        !(ok_status(status) || status == 404) ==> (r matches Some(CloudApiError::ServerError(m))
            && m@ == "删除 gist 失败: HTTP "@ + decimal_text(status as int)),
{
    if (200 <= status && status <= 299) || status == 404 {
        None
    } else {
        Some(CloudApiError::ServerError(with_status("删除 gist 失败: HTTP ", status)))
    }
}

/// Whether a gist (its file names) holds the vault file.
pub open spec fn holds_vault(files: Seq<String>) -> bool {
    exists|i: int| 0 <= i < files.len() && (#[trigger] files[i])@ == vault_file()
}

/// The first gist (id and file names) that holds the vault file.
pub open spec fn first_vault_gist(gists: Seq<(String, Vec<String>)>) -> Option<String>
    decreases gists.len(),
{
    if gists.len() == 0 {
        None
    } else if holds_vault(gists[0].1@) {
        Some(gists[0].0)
    } else {
        first_vault_gist(gists.drop_first())
    }
}

fn holds_vault_exec(files: &Vec<String>) -> (r: bool)
    ensures
        r == holds_vault(files@),
{
    let mut i: usize = 0;
    while i < files.len()
        invariant
            i <= files@.len(),
            forall|k: int| 0 <= k < i ==> (#[trigger] files@[k])@ != vault_file(),
        decreases files@.len() - i,
    {
        if str_eq(files[i].as_str(), "ONetCli-vault.json") {
            return true;
        }
        i = i + 1;
    }
    false
}

/// The id of the first listed gist that holds the vault file.
pub fn find_vault_gist_id(gists: &Vec<(String, Vec<String>)>) -> (r: Option<String>)
    ensures
        r == first_vault_gist(gists@),
{
    let mut i: usize = 0;
    assert(gists@.skip(0) =~= gists@);
    while i < gists.len()
        invariant
            i <= gists@.len(),
            first_vault_gist(gists@) == first_vault_gist(gists@.skip(i as int)),
        decreases gists@.len() - i,
    {
        let ghost rest = gists@.skip(i as int);
        assert(rest.drop_first() =~= gists@.skip(i + 1));
        if holds_vault_exec(&gists[i].1) {
            return Some(gists[i].0.clone());
        }
        i = i + 1;
    }
    None
}

// ---------------------------------------------------------------------------
// The vault
// ---------------------------------------------------------------------------
/// The gist vault's state: the OAuth application, the gist once found or
/// made, and the tokens once signed in.
#[derive(Debug)]
pub struct GithubGistVault {
    client_id: String,
    gist_id: Option<String>,
    tokens: Option<OAuthTokens>,
}

impl GithubGistVault {
    /// The OAuth application's client id.
    pub closed spec fn client_id_view(&self) -> Seq<char> {
        self.client_id@
    }

    /// The vault gist's id, once known.
    pub closed spec fn gist_id_view(&self) -> Option<Seq<char>> {
        match self.gist_id {
            Some(g) => Some(g@),
            None => None,
        }
    }

    /// The tokens, once signed in.
    pub closed spec fn tokens_view(&self) -> Option<OAuthTokens> {
        self.tokens
    }

    /// A vault for the OAuth application `client_id`, without a gist or
    /// tokens yet.
    pub fn new(client_id: String) -> (r: Self)
        ensures
            r.client_id_view() == client_id@,
            r.gist_id_view() is None,
            r.tokens_view() is None,
    {
        GithubGistVault { client_id, gist_id: None, tokens: None }
    }

    /// The same vault using gist `gist_id`.
    pub fn with_gist_id(self, gist_id: String) -> (r: Self)
        ensures
            r.client_id_view() == self.client_id_view(),
            r.gist_id_view() == Some(gist_id@),
            r.tokens_view() == self.tokens_view(),
    {
        GithubGistVault { gist_id: Some(gist_id), ..self }
    }

    /// The same vault signed in with `tokens`.
    pub fn with_tokens(self, tokens: OAuthTokens) -> (r: Self)
        ensures
            r.client_id_view() == self.client_id_view(),
            r.gist_id_view() == self.gist_id_view(),
            r.tokens_view() == Some(tokens),
    {
        GithubGistVault { tokens: Some(tokens), ..self }
    }

    /// The vault gist's id, once known.
    pub fn gist_id(&self) -> (r: Option<&str>)
        ensures
            match r {
                Some(s) => self.gist_id_view() == Some(s@),
                None => self.gist_id_view() is None,
            },
    {
        match &self.gist_id {
            Some(g) => Some(g.as_str()),
            None => None,
        }
    }

    /// Records the vault gist found or made at sign-in.
    pub fn set_gist_id(&mut self, gist_id: String)
        ensures
            final(self).client_id_view() == old(self).client_id_view(),
            final(self).gist_id_view() == Some(gist_id@),
            final(self).tokens_view() == old(self).tokens_view(),
    {
        self.gist_id = Some(gist_id);
    }

    /// Records the tokens of a sign-in.
    pub fn set_tokens(&mut self, tokens: OAuthTokens)
        ensures
            final(self).client_id_view() == old(self).client_id_view(),
            final(self).gist_id_view() == old(self).gist_id_view(),
            final(self).tokens_view() == Some(tokens),
    {
        self.tokens = Some(tokens);
    }

    /// The tokens, refused before sign-in.
    pub fn tokens(&self) -> (r: Result<&OAuthTokens, CloudApiError>)
        ensures
            match self.tokens_view() {
                Some(t) => r matches Ok(x) && *x == t,
                None => r matches Err(CloudApiError::NotAuthenticated),
            },
    {
        match &self.tokens {
            Some(t) => Ok(t),
            None => Err(CloudApiError::NotAuthenticated),
        }
    }

    /// The name of this kind of vault.
    pub fn backend_type(&self) -> (r: &'static str)
        ensures
            r@ == "github_gist"@,
    {
        "github_gist"
    }

    /// The gist to read or write, refused before the vault is set up.
    pub fn require_gist(&self) -> (r: Result<String, CloudApiError>)
        ensures
            match self.gist_id_view() {
                Some(g) => r matches Ok(s) && s@ == g,
                None => r matches Err(CloudApiError::AuthenticationFailed(m)) && m@
                    == "尚未初始化 Gist，请先完成 GitHub 授权"@,
            },
    {
        match &self.gist_id {
            Some(g) => Ok(g.clone()),
            None => Err(
                CloudApiError::AuthenticationFailed(
                    String::from_str("尚未初始化 Gist，请先完成 GitHub 授权"),
                ),
            ),
        }
    }

    /// Whether the vault exists, as far as this state tells (a known gist);
    /// otherwise a search for the gist decides.
    pub fn known_to_exist(&self) -> (r: bool)
        ensures
            r == (self.gist_id_view() is Some),
    {
        self.gist_id.is_some()
    }

    /// What listing the vault gives at `now_ms`: the single vault entry
    /// once the gist is known, nothing before.
    pub fn listing_at(&self, now_ms: i64) -> (r: Vec<BlobMeta>)
        ensures
            self.gist_id_view() is Some ==> r@.len() == 1 && r@[0].key@ == "vault"@ && r@[0].size
                == 0 && r@[0].updated_at == now_ms,
            self.gist_id_view() is None ==> r@.len() == 0,
    {
        let mut v: Vec<BlobMeta> = Vec::new();
        if self.gist_id.is_some() {
            v.push(BlobMeta { key: String::from_str("vault"), size: 0, updated_at: now_ms });
        }
        v
    }
}

/// The text a gist upload stores: the data as UTF-8 text, refused where it
/// is not valid UTF-8.
pub fn upload_content(data: Vec<u8>) -> (r: Result<String, CloudApiError>)
    ensures
        valid_utf8(data@) ==> (r matches Ok(s) && s@ == decode_utf8(data@)),
        !valid_utf8(data@) ==> (r matches Err(CloudApiError::DataFormatError(m)) && m@
            == "加密数据不是有效的 UTF-8"@),
{
    match utf8_to_string(data) {
        Some(s) => Ok(s),
        None => Err(CloudApiError::DataFormatError(String::from_str("加密数据不是有效的 UTF-8"))),
    }
}

/// The record of an upload of `content` under `key` at `now_ms`: its size
/// in bytes.
pub fn uploaded_gist_meta(key: &str, content: &str, now_ms: i64) -> (r: BlobMeta)
    ensures
        r.key@ == key@,
        r.size == encode_utf8(content@).len(),
        r.updated_at == now_ms,
{
    let bytes = str_bytes(content);
    BlobMeta { key: String::from_str(key), size: bytes.len() as u64, updated_at: now_ms }
}

/// The blob a download gives: the vault file's text as bytes, refused
/// where the gist or its vault file is missing.
pub fn downloaded_gist_blob(key: &str, content: Option<String>, now_ms: i64) -> (r: Result<
    Blob,
    CloudApiError,
>)
    ensures
        content is None ==> (r matches Err(CloudApiError::NotFound(m)) && m@ == "vault gist 不存在"@),
        content matches Some(c) ==> (r matches Ok(b) && b.key@ == key@ && b.data@ == encode_utf8(
            c@,
        ) && b.updated_at == now_ms),
{
    match content {
        None => Err(CloudApiError::NotFound(String::from_str("vault gist 不存在"))),
        Some(c) => Ok(Blob { key: String::from_str(key), data: str_bytes(c.as_str()), updated_at: now_ms }),
    }
}

} // verus!
