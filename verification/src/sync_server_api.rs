//! The sync server's REST API as the client uses it: the addresses of the
//! sync items, the request bodies sent for an item, and what a refused
//! reply of each call becomes.
use crate::client::CloudApiError;
use crate::endpoints::{api_url, api_url_of};
use crate::models::{opt_view, CloudSyncData};
use crate::session_auth::extract_error_message;
use crate::text::{decimal_text, i64_to_string, push_str, string_from_chars, to_chars, trim};
use vstd::prelude::*;

verus! {

// ---------------------------------------------------------------------------
// Addresses
// ---------------------------------------------------------------------------
/// The query of a listing: the data type and the time to list from, where
/// given, joined by `&`.
pub open spec fn items_query(data_type: Option<Seq<char>>, since: Option<i64>) -> Seq<char> {
    match (data_type, since) {
        (Some(t), Some(s)) => "?"@ + "dataType="@ + t + "&"@ + "since="@ + decimal_text(s as int),
        (Some(t), None) => "?"@ + "dataType="@ + t,
        (None, Some(s)) => "?"@ + "since="@ + decimal_text(s as int),
        (None, None) => Seq::empty(),
    }
}

/// The address listing the sync items under `base`.
pub fn sync_items_url(base: &str, data_type: Option<&str>, since: Option<i64>) -> (r: String)
    ensures
        r@ == api_url_of(base@, "/api/v1/sync/items"@) + items_query(
            match data_type {
                Some(t) => Some(t@),
                None => None,
            },
            since,
        ),
{
    let url = api_url(base, "/api/v1/sync/items");
    let mut v = to_chars(url.as_str());
    let ghost base_url = v@;
    match data_type {
        Some(t) => {
            push_str(&mut v, &to_chars("?"));
            push_str(&mut v, &to_chars("dataType="));
            push_str(&mut v, &to_chars(t));
            match since {
                Some(s) => {
                    let n = i64_to_string(s);
                    push_str(&mut v, &to_chars("&"));
                    push_str(&mut v, &to_chars("since="));
                    push_str(&mut v, &to_chars(n.as_str()));
                },
                None => {},
            }
        },
        None => {
            match since {
                Some(s) => {
                    let n = i64_to_string(s);
                    push_str(&mut v, &to_chars("?"));
                    push_str(&mut v, &to_chars("since="));
                    push_str(&mut v, &to_chars(n.as_str()));
                },
                None => {},
            }
        },
    }
    proof {
        assert(v@ =~= base_url + items_query(
            match data_type {
                Some(t) => Some(t@),
                None => None,
            },
            since,
        ));
    }
    string_from_chars(&v)
}

/// The address of one sync item under `base`.
pub fn sync_item_url(base: &str, id: &str) -> (r: String)
    ensures
        r@ == api_url_of(base@, "/api/v1/sync/items/"@ + id@),
{
    let mut p = to_chars("/api/v1/sync/items/");
    push_str(&mut p, &to_chars(id));
    let path = string_from_chars(&p);
    api_url(base, path.as_str())
}

// ---------------------------------------------------------------------------
// Request bodies
// ---------------------------------------------------------------------------
/// The body creating a sync item: its id (left out where empty, so the
/// server picks one), kind, encrypted data, key version and checksum.
#[derive(Debug)]
pub struct CreateSyncItemRequest {
    pub id: Option<String>,
    pub data_type: String,
    pub encrypted_data: String,
    pub key_version: u32,
    pub checksum: String,
}

/// The body updating a sync item: encrypted data, key version, checksum,
/// the version it replaces, and the deletion time where it was deleted.
#[derive(Debug)]
pub struct UpdateSyncItemRequest {
    pub encrypted_data: String,
    pub key_version: u32,
    pub checksum: String,
    pub version: i64,
    /// RFC 3339.
    pub deleted_at: Option<String>,
}

/// The body creating the sync item for `data`.
pub fn create_item_request(data: &CloudSyncData) -> (r: CreateSyncItemRequest)
    ensures
        opt_view(r.id) == if data.id@.len() == 0 {
            None
        } else {
            Some(data.id@)
        },
        r.data_type == data.data_type,
        r.encrypted_data == data.encrypted_data,
        r.key_version == data.key_version,
        r.checksum == data.checksum,
{
    CreateSyncItemRequest {
        id: if data.id.as_str().is_empty() {
            None
        } else {
            Some(data.id.clone())
        },
        data_type: data.data_type.clone(),
        encrypted_data: data.encrypted_data.clone(),
        key_version: data.key_version,
        checksum: data.checksum.clone(),
    }
}

/// What `DateTime::from_timestamp_millis(ms)` followed by `to_rfc3339`
/// gives: the UTC time `ms` in RFC 3339, where chrono can represent it.
pub uninterp spec fn millis_rfc3339(ms: int) -> Option<Seq<char>>;

/// Writes the UTC time `ms` (milliseconds since the epoch) in RFC 3339 with
/// chrono, where chrono can represent it.
#[verifier::external_body]
fn rfc3339_of_millis(ms: i64) -> (r: Option<String>)
    ensures
        match r {
            Some(s) => millis_rfc3339(ms as int) == Some(s@),
            None => millis_rfc3339(ms as int) is None,
        },
{
    chrono::DateTime::from_timestamp_millis(ms).map(|dt| dt.to_rfc3339())
}

/// The current UTC time in RFC 3339 by chrono (any value may come).
#[verifier::external_body]
fn utc_now_rfc3339() -> (r: String) {
    chrono::Utc::now().to_rfc3339()
}

/// A deletion time as the server takes it: the time in RFC 3339, or the
/// current time where chrono cannot represent it.
pub fn deletion_time_text(ms: i64) -> (r: String)
    ensures
        millis_rfc3339(ms as int) matches Some(s) ==> r@ == s,
{
    match rfc3339_of_millis(ms) {
        Some(s) => s,
        None => utc_now_rfc3339(),
    }
}

/// The body updating the sync item for `data`.
pub fn update_item_request(data: &CloudSyncData) -> (r: UpdateSyncItemRequest)
    ensures
        r.encrypted_data == data.encrypted_data,
        r.key_version == data.key_version,
        r.checksum == data.checksum,
        r.version == data.version,
        data.deleted_at is None ==> r.deleted_at is None,
        data.deleted_at matches Some(d) ==> (r.deleted_at is Some && (millis_rfc3339(d as int)
            matches Some(s) ==> r.deleted_at->0@ == s)),
{
    UpdateSyncItemRequest {
        encrypted_data: data.encrypted_data.clone(),
        key_version: data.key_version,
        checksum: data.checksum.clone(),
        version: data.version,
        deleted_at: match data.deleted_at {
            Some(d) => Some(deletion_time_text(d)),
            None => None,
        },
    }
}

// ---------------------------------------------------------------------------
// Refused replies
// ---------------------------------------------------------------------------
/// A call to the sync server.
#[derive(Debug, Clone, Copy, PartialEq, Eq, Structural)]
pub enum ServerCall {
    SignIn,
    SignUp,
    CurrentUser,
    GetConfig,
    SaveConfig,
    ListItems,
    CreateItem,
    UpdateItem,
    DeleteItem,
}

/// The message of a refused call when the server gives none.
pub open spec fn call_default(c: ServerCall) -> Seq<char> {
    match c {
        ServerCall::SignIn => "登录失败"@,
        ServerCall::SignUp => "注册失败"@,
        ServerCall::CurrentUser => "获取当前用户失败"@,
        ServerCall::GetConfig => "获取用户配置失败"@,
        ServerCall::SaveConfig => "保存用户配置失败"@,
        ServerCall::ListItems => "获取同步数据失败"@,
        ServerCall::CreateItem => "创建同步数据失败"@,
        ServerCall::UpdateItem => "更新同步数据失败"@,
        ServerCall::DeleteItem => "删除同步数据失败"@,
    }
}

fn default_text(c: ServerCall) -> (r: &'static str)
    ensures
        r@ == call_default(c),
{
    match c {
        ServerCall::SignIn => "登录失败",
        ServerCall::SignUp => "注册失败",
        ServerCall::CurrentUser => "获取当前用户失败",
        ServerCall::GetConfig => "获取用户配置失败",
        ServerCall::SaveConfig => "保存用户配置失败",
        ServerCall::ListItems => "获取同步数据失败",
        ServerCall::CreateItem => "创建同步数据失败",
        ServerCall::UpdateItem => "更新同步数据失败",
        ServerCall::DeleteItem => "删除同步数据失败",
    }
}

/// Whether a reply status means the call succeeded: a 2xx status (201
/// Created for a new item included).
pub open spec fn call_succeeded(status: u16) -> bool {
    200 <= status <= 299
}

/// Whether the call succeeded, by its reply status.
pub fn call_ok(status: u16) -> (r: bool)
    ensures
        r == call_succeeded(status),
{
    200 <= status && status <= 299
}

/// The message of a refused reply: the server's message where the body
/// carried one, else the body where not blank, else the call's default.
pub open spec fn failure_text(c: ServerCall, raw: Option<Seq<char>>, parsed: Option<Seq<char>>) -> Seq<char> {
    match raw {
        None => call_default(c),
        Some(b) => match parsed {
            Some(m) => m,
            None => if trim(b).len() == 0 {
                call_default(c)
            } else {
                b
            },
        },
    }
}

/// The error a refused call becomes: a failed sign-in for signing in or up;
/// a conflict for an update (with its own default, a version conflict) or a
/// deletion refused with 409; a server error otherwise. `raw` is the reply
/// body where there was one, `parsed` the server's message where the body
/// carried one.
pub fn call_failure(c: ServerCall, status: u16, raw: Option<String>, parsed: Option<String>) -> (r:
    CloudApiError)
    ensures
        (c == ServerCall::SignIn || c == ServerCall::SignUp) ==> (r matches CloudApiError::AuthenticationFailed(m)
            && m@ == failure_text(c, opt_view(raw), opt_view(parsed))),
        c == ServerCall::UpdateItem && status == 409 ==> (r matches CloudApiError::Conflict(m) && m@
            == match opt_view(raw) {
            None => "同步数据版本冲突"@,
            Some(b) => match opt_view(parsed) {
                Some(p) => p,
                None => if trim(b).len() == 0 {
                    "同步数据版本冲突"@
                } else {
                    b
                },
            },
        }),
        c == ServerCall::DeleteItem && status == 409 ==> (r matches CloudApiError::Conflict(m) && m@
            == failure_text(c, opt_view(raw), opt_view(parsed))),
        !(c == ServerCall::SignIn || c == ServerCall::SignUp) && !((c == ServerCall::UpdateItem
            || c == ServerCall::DeleteItem) && status == 409) ==> (r matches CloudApiError::ServerError(m)
            && m@ == failure_text(c, opt_view(raw), opt_view(parsed))),
{
    match c {
        ServerCall::SignIn | ServerCall::SignUp => CloudApiError::AuthenticationFailed(
            extract_error_message(raw, parsed, default_text(c)),
        ),
        ServerCall::UpdateItem => {
            if status == 409 {
                CloudApiError::Conflict(extract_error_message(raw, parsed, "同步数据版本冲突"))
            } else {
                CloudApiError::ServerError(extract_error_message(raw, parsed, default_text(c)))
            }
        },
        ServerCall::DeleteItem => {
            if status == 409 {
                CloudApiError::Conflict(extract_error_message(raw, parsed, default_text(c)))
            } else {
                CloudApiError::ServerError(extract_error_message(raw, parsed, default_text(c)))
            }
        },
        _ => CloudApiError::ServerError(extract_error_message(raw, parsed, default_text(c))),
    }
}

/// The error for an operation the sync server does not offer: a server
/// error carrying `message`.
pub fn unsupported(message: &str) -> (r: CloudApiError)
    ensures
        r matches CloudApiError::ServerError(m) && m@ == message@,
{
    CloudApiError::ServerError(String::from_str(message))
}

} // verus!
