//! Files kept in a blob vault (a gist, WebDAV, cloud drives), the settings
//! of the GitHub gist vault, and how a failed bundle download is reported.
use crate::client::{api_error_text, CloudApiError};
use crate::models::clone_opt_string;
use crate::sync_plan::SyncError;
use crate::text::{contains_seq, contains_str, to_chars};
use vstd::prelude::*;

verus! {

/// Name of the blob that holds the sync bundle.
pub const BUNDLE_KEY: &'static str = "onetcli-vault.bundle";

/// What a vault knows of a stored file.
#[derive(Debug)]
pub struct BlobMeta {
    /// File name, with its path.
    pub key: String,
    /// Size in bytes.
    pub size: u64,
    /// Last change, milliseconds since the epoch.
    pub updated_at: i64,
}

impl Clone for BlobMeta {
    fn clone(&self) -> (r: Self)
        ensures
            r == *self,
    {
        BlobMeta { key: self.key.clone(), size: self.size, updated_at: self.updated_at }
    }
}

/// A stored file with its contents.
#[derive(Debug)]
pub struct Blob {
    pub key: String,
    pub data: Vec<u8>,
    pub updated_at: i64,
}

impl Clone for Blob {
    fn clone(&self) -> (r: Self)
        ensures
            r.key == self.key,
            r.data@ == self.data@,
            r.updated_at == self.updated_at,
    {
        Blob { key: self.key.clone(), data: self.data.clone(), updated_at: self.updated_at }
    }
}

/// The settings of the GitHub gist vault, kept with the application's
/// settings.
#[derive(Debug)]
pub struct GithubGistSettings {
    /// The OAuth application's client id.
    pub client_id: String,
    /// The gist that holds the vault, once found or made.
    pub gist_id: Option<String>,
}

impl Clone for GithubGistSettings {
    fn clone(&self) -> (r: Self)
        ensures
            r == *self,
    {
        GithubGistSettings {
            client_id: self.client_id.clone(),
            gist_id: clone_opt_string(&self.gist_id),
        }
    }
}

impl Default for GithubGistSettings {
    fn default() -> (r: Self)
        ensures
            r.client_id@.len() == 0,
            r.gist_id is None,
    {
        GithubGistSettings { client_id: String::new(), gist_id: None }
    }
}

/// A download failure whose message says the bundle does not exist.
pub open spec fn bundle_missing(msg: Seq<char>) -> bool {
    contains_seq(msg, "不存在"@) || contains_seq(msg, "not found"@) || contains_seq(msg, "404"@)
}

/// How a failed bundle download is reported: a missing bundle as the
/// network error `not_found`, anything else as a network error carrying
/// the vault's message.
pub fn bundle_download_error(e: &CloudApiError) -> (r: SyncError)
    ensures
        bundle_missing(api_error_text(*e)) ==> (r matches SyncError::NetworkError(m) && m@
            == "not_found"@),
        !bundle_missing(api_error_text(*e)) ==> (r matches SyncError::NetworkError(m) && m@
            == api_error_text(*e)),
{
    let msg = e.message();
    let chars = to_chars(msg.as_str());
    if contains_str(&chars, "不存在") || contains_str(&chars, "not found") || contains_str(
        &chars,
        "404",
    ) {
        SyncError::NetworkError(String::from_str("not_found"))
    } else {
        SyncError::NetworkError(msg)
    }
}

} // verus!
