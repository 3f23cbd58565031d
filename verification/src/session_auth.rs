//! The sync server client's state: the address it talks to, the tokens it
//! holds and when they are refreshed, what an unauthorised reply leads to,
//! and how the server's replies become the library's records.
use crate::client::{AuthResponse, CloudApiError, UserInfo};
use crate::endpoints::{
    api_url, api_url_of, expiring_soon, is_token_expiring_soon, normalized_url, trim_end_matches,
    valid_base_url, SyncServerConfig,
};
use crate::remote_guard::{parse_url, UrlHost};
use crate::models::{opt_view, CloudSyncData};
use crate::service::CloudUserConfig;
use crate::text::{push_str, string_from_chars, to_chars, trim, trim_chars};
use vstd::prelude::*;

verus! {

/// The tokens of the signed-in session.
#[derive(Debug)]
pub struct AuthState {
    pub access_token: Option<String>,
    pub refresh_token: Option<String>,
    pub user_id: Option<String>,
    /// Expiry of the access token in seconds since the epoch; 0 where unknown.
    pub expires_at: i64,
}

/// The sync server client's own state: the address it talks to and the
/// session it holds. Sending requests, the refresh lock and the callbacks
/// belong to the transport around it.
#[derive(Debug)]
pub struct SyncServerClient {
    base_url: String,
    auth_state: AuthState,
}

/// The address and session a client is made with from `config`.
pub open spec fn fresh_client(config_url: Seq<char>, address: Seq<char>, session: AuthState) -> bool {
    &&& address == normalized_url(config_url)
    &&& session.access_token is None
    &&& session.refresh_token is None
    &&& session.user_id is None
    &&& session.expires_at == 0
}

/// The headers of every request: a JSON body.
pub open spec fn common_headers_of(h: Seq<(&'static str, String)>) -> bool {
    &&& h.len() == 1
    &&& h[0].0@ == "Content-Type"@
    &&& h[0].1@ == "application/json"@
}

impl SyncServerClient {
    /// The address kept, normalized.
    pub closed spec fn address(&self) -> Seq<char> {
        self.base_url@
    }

    /// The session held.
    pub closed spec fn session(&self) -> AuthState {
        self.auth_state
    }

    /// A client for `config`'s address, with no session.
    pub fn new(config: SyncServerConfig) -> (r: Self)
        ensures
            fresh_client(config.base_url@, r.address(), r.session()),
    {
        SyncServerClient {
            base_url: Self::normalize_base_url(config.base_url.as_str()),
            auth_state: AuthState { access_token: None, refresh_token: None, user_id: None, expires_at: 0 },
        }
    }

    /// Trims `value` and drops its trailing slashes.
    pub fn normalize_base_url(value: &str) -> (r: String)
        ensures
            r@ == normalized_url(value@),
    {
        let t = trim_chars(&to_chars(value));
        string_from_chars(&trim_end_matches(&t, '/'))
    }

    /// Whether `value` is a usable sync server address; see `valid_base_url`.
    pub fn is_valid_base_url(value: &str) -> (r: bool)
        ensures
            r == valid_base_url(value@),
    {
        let n = Self::normalize_base_url(value);
        if n.as_str().is_empty() {
            return false;
        }
        match parse_url(n.as_str()) {
            Ok(u) => {
                let scheme_ok = crate::text::str_eq(u.scheme.as_str(), "http")
                    || crate::text::str_eq(u.scheme.as_str(), "https");
                let has_host = match u.host {
                    UrlHost::NoHost => false,
                    _ => true,
                };
                scheme_ok && has_host
            },
            Err(_) => false,
        }
    }

    /// The address kept.
    pub fn base_url(&self) -> (r: String)
        ensures
            r@ == self.address(),
    {
        self.base_url.clone()
    }

    /// Whether the address kept is usable (it is normalized once more
    /// before the check).
    pub fn has_valid_base_url(&self) -> (r: bool)
        ensures
            r == valid_base_url(self.address()),
    {
        Self::is_valid_base_url(self.base_url.as_str())
    }

    /// Keeps `value`, normalized; says whether the address changed. The
    /// session stays.
    pub fn set_base_url(&mut self, value: &str) -> (r: bool)
        ensures
            r == (normalized_url(value@) != old(self).address()),
            final(self).address() == normalized_url(value@),
            final(self).session() == old(self).session(),
    {
        let n = Self::normalize_base_url(value);
        if crate::text::str_eq(n.as_str(), self.base_url.as_str()) {
            false
        } else {
            self.base_url = n;
            true
        }
    }

    /// Holds a new session; the address stays.
    pub fn set_auth_with_expiry(
        &mut self,
        access_token: String,
        refresh_token: String,
        user_id: String,
        expires_at: i64,
    )
        ensures
            final(self).session() == (AuthState {
                access_token: Some(access_token),
                refresh_token: Some(refresh_token),
                user_id: Some(user_id),
                expires_at,
            }),
            final(self).address() == old(self).address(),
    {
        self.auth_state = AuthState {
            access_token: Some(access_token),
            refresh_token: Some(refresh_token),
            user_id: Some(user_id),
            expires_at,
        };
    }

    /// Forgets the session; the address stays.
    pub fn clear_auth(&mut self)
        ensures
            final(self).session() == (AuthState {
                access_token: None,
                refresh_token: None,
                user_id: None,
                expires_at: 0,
            }),
            final(self).address() == old(self).address(),
    {
        self.auth_state = AuthState { access_token: None, refresh_token: None, user_id: None, expires_at: 0 };
    }

    /// The access token held, if any.
    pub fn get_access_token(&self) -> (r: Option<String>)
        ensures
            opt_view(r) == opt_view(self.session().access_token),
    {
        clone_opt(&self.auth_state.access_token)
    }

    /// The refresh token held, if any.
    pub fn get_refresh_token(&self) -> (r: Option<String>)
        ensures
            opt_view(r) == opt_view(self.session().refresh_token),
    {
        clone_opt(&self.auth_state.refresh_token)
    }

    /// The signed-in user's id, if any.
    pub fn get_user_id(&self) -> (r: Option<String>)
        ensures
            opt_view(r) == opt_view(self.session().user_id),
    {
        clone_opt(&self.auth_state.user_id)
    }

    /// URL of API `path` under the address kept.
    pub fn api_url(&self, path: &str) -> (r: String)
        ensures
            r@ == api_url_of(self.address(), path@),
    {
        api_url(self.base_url.as_str(), path)
    }

    /// The headers of every request.
    pub fn common_headers(&self) -> (r: Vec<(&'static str, String)>)
        ensures
            common_headers_of(r@),
    {
        let ct = "Content-Type";
        let json = "application/json".to_string();
        proof {
            reveal_strlit("Content-Type");
        }
        vec![(ct, json)]
    }

    /// The headers of an authenticated request: the common ones and the
    /// bearer token; refused where nobody is signed in.
    pub fn auth_headers(&self) -> (r: Result<Vec<(&'static str, String)>, CloudApiError>)
        ensures
            match opt_view(self.session().access_token) {
                Some(t) => r matches Ok(h) && h.len() == 2 && common_headers_of(h@.take(1))
                    && h@[1].0@ == "Authorization"@ && h@[1].1@ == "Bearer "@ + t,
                None => r matches Err(CloudApiError::NotAuthenticated),
            },
    {
        match &self.auth_state.access_token {
            Some(t) => {
                let mut headers = self.common_headers();
                let mut v = to_chars("Bearer ");
                push_str(&mut v, &to_chars(t.as_str()));
                headers.push(("Authorization", string_from_chars(&v)));
                proof {
                    reveal_strlit("Authorization");
                    assert(headers@.take(1) =~= seq![headers@[0]]);
                }
                Ok(headers)
            },
            None => Err(CloudApiError::NotAuthenticated),
        }
    }

    /// Whether the access token should be refreshed at `now`: within a
    /// minute of a known expiry.
    pub fn is_token_expiring_soon_at(&self, now: i64) -> (r: bool)
        ensures
            r == expiring_soon(self.session().expires_at, now),
    {
        is_token_expiring_soon(self.auth_state.expires_at, now)
    }
}

fn clone_opt(o: &Option<String>) -> (r: Option<String>)
    ensures
        opt_view(r) == opt_view(*o),
{
    match o {
        Some(s) => Some(s.clone()),
        None => None,
    }
}

/// What follows a reply with HTTP status `status` to an authenticated request.
#[derive(Debug, Clone, Copy, PartialEq, Eq, Structural)]
pub enum UnauthorizedStep {
    /// Keep the reply.
    Accept,
    /// Refresh the session and send the request once more.
    RefreshAndRetry,
    /// The session is gone: forget it, tell the user, report `NotAuthenticated`.
    SessionExpired,
}

/// The step after status `status`: a first 401 refreshes and retries, a
/// 401 on the retry ends the session, anything else is kept.
pub fn unauthorized_step(status: u16, is_retry: bool) -> (r: UnauthorizedStep)
    ensures
        status != 401 ==> r == UnauthorizedStep::Accept,
        status == 401 && !is_retry ==> r == UnauthorizedStep::RefreshAndRetry,
        status == 401 && is_retry ==> r == UnauthorizedStep::SessionExpired,
{
    if status != 401 {
        UnauthorizedStep::Accept
    } else if is_retry {
        UnauthorizedStep::SessionExpired
    } else {
        UnauthorizedStep::RefreshAndRetry
    }
}

/// Whether a failed refresh ends the session: only an authentication error does.
pub fn refresh_failure_ends_session(error: &CloudApiError) -> (r: bool)
    ensures
        r == (error is NotAuthenticated || error is AuthenticationFailed),
{
    error.is_auth_error()
}

/// Seconds and milliseconds since the epoch that chrono's
/// `DateTime::parse_from_rfc3339` reads from `text`; `None` where it does
/// not parse.
pub uninterp spec fn rfc3339_instant(text: Seq<char>) -> Option<(i64, i64)>;

/// Parses an RFC 3339 time with chrono: its seconds and milliseconds since
/// the epoch.
#[verifier::external_body]
fn parse_rfc3339(text: &str) -> (r: Option<(i64, i64)>)
    ensures
        r == rfc3339_instant(text@),
{
    chrono::DateTime::parse_from_rfc3339(text).ok().map(|dt| (dt.timestamp(), dt.timestamp_millis()))
}

/// Seconds since the epoch of an RFC 3339 time; 0 where it does not parse.
pub fn parse_rfc3339_to_seconds(text: &str) -> (r: i64)
    ensures
        r == match rfc3339_instant(text@) {
            Some(t) => t.0,
            None => 0,
        },
{
    match parse_rfc3339(text) {
        Some(t) => t.0,
        None => 0,
    }
}

/// Milliseconds since the epoch of an RFC 3339 time; 0 where it does not parse.
pub fn parse_rfc3339_to_millis(text: &str) -> (r: i64)
    ensures
        r == match rfc3339_instant(text@) {
            Some(t) => t.1,
            None => 0,
        },
{
    match parse_rfc3339(text) {
        Some(t) => t.1,
        None => 0,
    }
}

/// The user the server describes: a blank nickname is dropped, no user
/// name or avatar, created at the given time (0 where it does not parse).
pub fn map_user_info(id: String, email: String, nickname: Option<String>, created_at: &str) -> (r:
    UserInfo)
    ensures
        r.id == id,
        r.email == email,
        opt_view(r.nickname) == match opt_view(nickname) {
            Some(n) => if trim(n).len() != 0 {
                Some(n)
            } else {
                None
            },
            None => None,
        },
        r.username is None,
        r.avatar_url is None,
        r.created_at == match rfc3339_instant(created_at@) {
            Some(t) => t.0,
            None => 0,
        },
{
    let nickname = match nickname {
        Some(n) => {
            let t = trim_chars(&to_chars(n.as_str()));
            if t.len() != 0 {
                Some(n)
            } else {
                None
            }
        },
        None => None,
    };
    UserInfo {
        id,
        email,
        nickname,
        username: None,
        avatar_url: None,
        created_at: parse_rfc3339_to_seconds(created_at),
    }
}

/// A session the server granted, its expiry read from RFC 3339.
pub fn map_auth_response(
    user_id: String,
    email: String,
    token: String,
    refresh_token: String,
    expires_at: &str,
) -> (r: AuthResponse)
    ensures
        r.user_id == user_id,
        r.email == email,
        r.access_token == token,
        r.refresh_token == refresh_token,
        r.expires_at == match rfc3339_instant(expires_at@) {
            Some(t) => t.0,
            None => 0,
        },
{
    AuthResponse {
        user_id,
        email,
        access_token: token,
        refresh_token,
        expires_at: parse_rfc3339_to_seconds(expires_at),
    }
}

/// The key settings the server keeps for `user_id`.
pub fn map_user_config(key_verification: String, key_version: u32, updated_at: &str, user_id: String) -> (r:
    CloudUserConfig)
    ensures
        r.user_id == user_id,
        r.key_verification == key_verification,
        r.key_version == key_version,
        r.updated_at == match rfc3339_instant(updated_at@) {
            Some(t) => t.1,
            None => 0,
        },
{
    CloudUserConfig {
        user_id,
        key_verification,
        key_version,
        updated_at: parse_rfc3339_to_millis(updated_at),
    }
}

/// The message of a failed reply: the server's own message where the
/// body (`raw`) carried one (`parsed`), else the body where it is not
/// blank, else `default`.
pub fn extract_error_message(raw: Option<String>, parsed: Option<String>, default: &str) -> (r: String)
    ensures
        r@ == match opt_view(raw) {
            None => default@,
            Some(b) => match opt_view(parsed) {
                Some(m) => m,
                None => if trim(b).len() == 0 {
                    default@
                } else {
                    b
                },
            },
        },
{
    let body = match raw {
        Some(b) => b,
        None => return String::from_str(default),
    };
    if let Some(m) = parsed {
        return m;
    }
    let t = trim_chars(&to_chars(body.as_str()));
    if t.len() == 0 {
        String::from_str(default)
    } else {
        body
    }
}

/// The cloud record a sync item of the server describes: the server keeps
/// no plain name (it stays empty until filled in), times are read from
/// RFC 3339 in milliseconds (0 where one does not parse), and a deletion
/// time is kept where the item has one.
pub fn map_sync_item(
    id: String,
    owner_id: String,
    data_type: String,
    encrypted_data: String,
    key_version: u32,
    checksum: String,
    version: u32,
    updated_at: &str,
    deleted_at: Option<String>,
) -> (r: CloudSyncData)
    ensures
        r.id == id,
        r.owner_id == owner_id,
        r.data_type == data_type,
        r.name@.len() == 0,
        r.encrypted_data == encrypted_data,
        r.key_version == key_version,
        r.checksum == checksum,
        r.version == version,
        r.updated_at == match rfc3339_instant(updated_at@) {
            Some(t) => t.1,
            None => 0,
        },
        r.deleted_at == match deleted_at {
            Some(d) => Some(
                match rfc3339_instant(d@) {
                    Some(t) => t.1,
                    None => 0,
                },
            ),
            None => None,
        },
{
    let deleted = match &deleted_at {
        Some(d) => Some(parse_rfc3339_to_millis(d.as_str())),
        None => None,
    };
    CloudSyncData {
        id,
        owner_id,
        data_type,
        name: String::new(),
        encrypted_data,
        key_version,
        checksum,
        version: version as i64,
        updated_at: parse_rfc3339_to_millis(updated_at),
        deleted_at: deleted,
    }
}

} // verus!
