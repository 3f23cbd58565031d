//! What the cloud API client reports: its errors, and the signed-in user
//! with the names shown for them.
use crate::models::opt_view;
use crate::text::{index_of_char, index_of_char_exec, lemma_index_of_char, push_str, slice_chars, str_eq, string_from_chars, to_chars, trim, trim_chars};
use vstd::prelude::*;

verus! {

/// Why a call to the cloud API failed.
#[derive(Debug, PartialEq, Eq)]
pub enum CloudApiError {
    /// Not signed in.
    NotAuthenticated,
    /// Sign-in refused.
    AuthenticationFailed(String),
    /// Signed up; the e-mail address must be confirmed first.
    EmailConfirmationRequired(String),
    /// The network failed.
    NetworkError(String),
    /// The server failed.
    ServerError(String),
    /// A reply could not be read.
    ParseError(String),
    /// Not found.
    NotFound(String),
    /// Conflict.
    Conflict(String),
    /// Not supported.
    NotSupported(String),
    /// Data in the wrong format.
    DataFormatError(String),
    /// Anything else.
    Unknown(String),
}

/// `prefix` followed by `msg`.
fn prefixed(prefix: &str, msg: &String) -> (r: String)
    ensures
        r@ == prefix@ + msg@,
{
    let mut v = to_chars(prefix);
    push_str(&mut v, &to_chars(msg.as_str()));
    string_from_chars(&v)
}

/// The message shown for an error.
pub open spec fn api_error_text(e: CloudApiError) -> Seq<char> {
    match e {
        CloudApiError::NotAuthenticated => "未登录"@,
        CloudApiError::AuthenticationFailed(m) => "认证失败: "@ + m@,
        CloudApiError::EmailConfirmationRequired(m) => "需要邮箱确认: "@ + m@,
        CloudApiError::NetworkError(m) => "网络错误: "@ + m@,
        CloudApiError::ServerError(m) => "服务端错误: "@ + m@,
        CloudApiError::ParseError(m) => "数据解析错误: "@ + m@,
        CloudApiError::NotFound(m) => "资源未找到: "@ + m@,
        CloudApiError::Conflict(m) => "冲突: "@ + m@,
        CloudApiError::NotSupported(m) => "不支持: "@ + m@,
        CloudApiError::DataFormatError(m) => "数据格式错误: "@ + m@,
        CloudApiError::Unknown(m) => "未知错误: "@ + m@,
    }
}

impl CloudApiError {
    /// Whether the error is about signing in.
    pub fn is_auth_error(&self) -> (r: bool)
        ensures
            r == (self is NotAuthenticated || self is AuthenticationFailed),
    {
        match self {
            CloudApiError::NotAuthenticated => true,
            CloudApiError::AuthenticationFailed(_) => true,
            _ => false,
        }
    }

    /// The message shown for this error.
    pub fn message(&self) -> (r: String)
        ensures
            r@ == api_error_text(*self),
    {
        match self {
            CloudApiError::NotAuthenticated => String::from_str("未登录"),
            CloudApiError::AuthenticationFailed(m) => prefixed("认证失败: ", m),
            CloudApiError::EmailConfirmationRequired(m) => prefixed("需要邮箱确认: ", m),
            CloudApiError::NetworkError(m) => prefixed("网络错误: ", m),
            CloudApiError::ServerError(m) => prefixed("服务端错误: ", m),
            CloudApiError::ParseError(m) => prefixed("数据解析错误: ", m),
            CloudApiError::NotFound(m) => prefixed("资源未找到: ", m),
            CloudApiError::Conflict(m) => prefixed("冲突: ", m),
            CloudApiError::NotSupported(m) => prefixed("不支持: ", m),
            CloudApiError::DataFormatError(m) => prefixed("数据格式错误: ", m),
            CloudApiError::Unknown(m) => prefixed("未知错误: ", m),
        }
    }
}

/// A successful sign-in.
#[derive(Debug)]
pub struct AuthResponse {
    pub user_id: String,
    pub email: String,
    pub access_token: String,
    pub refresh_token: String,
    /// Expiry of the access token, seconds since the epoch.
    pub expires_at: i64,
}

/// Where to send the browser for an OAuth sign-in.
#[derive(Debug)]
pub struct OAuthResponse {
    pub auth_url: String,
}

/// The signed-in user.
#[derive(Debug)]
pub struct UserInfo {
    pub id: String,
    pub email: String,
    pub nickname: Option<String>,
    pub username: Option<String>,
    pub avatar_url: Option<String>,
    pub created_at: i64,
}

/// An optional name as shown: trimmed, and missing where blank.
pub open spec fn shown(name: Option<Seq<char>>) -> Option<Seq<char>> {
    match name {
        Some(n) => if trim(n).len() != 0 {
            Some(trim(n))
        } else {
            None
        },
        None => None,
    }
}

/// The part of an e-mail address before its first `@` (all of it where
/// there is none).
pub open spec fn mailbox(email: Seq<char>) -> Seq<char> {
    match index_of_char(email, '@', 0) {
        Some(k) => email.take(k),
        None => email,
    }
}

/// The name shown for a user: the nickname, else the user name, else the
/// mailbox of the e-mail address.
pub open spec fn display_name_of(email: Seq<char>, nickname: Option<Seq<char>>, username: Option<Seq<char>>) -> Seq<char> {
    match shown(nickname) {
        Some(n) => n,
        None => match shown(username) {
            Some(n) => n,
            None => mailbox(email),
        },
    }
}

fn shown_exec(name: &Option<String>) -> (r: Option<String>)
    ensures
        opt_view(r) == shown(opt_view(*name)),
{
    match name {
        Some(n) => {
            let t = trim_chars(&to_chars(n.as_str()));
            if t.len() != 0 {
                Some(string_from_chars(&t))
            } else {
                None
            }
        },
        None => None,
    }
}

impl UserInfo {
    /// The name shown for the user; see `display_name_of`.
    pub fn display_name(&self) -> (r: String)
        ensures
            r@ == display_name_of(self.email@, opt_view(self.nickname), opt_view(self.username)),
    {
        if let Some(n) = shown_exec(&self.nickname) {
            return n;
        }
        if let Some(n) = shown_exec(&self.username) {
            return n;
        }
        let e = to_chars(self.email.as_str());
        proof {
            lemma_index_of_char(e@, '@', 0);
        }
        match index_of_char_exec(&e, '@', 0) {
            Some(k) => string_from_chars(&slice_chars(&e, 0, k)),
            None => self.email.clone(),
        }
    }

    /// The e-mail address, where it is not already the name shown.
    pub fn secondary_identity(&self) -> (r: Option<String>)
        ensures
            display_name_of(self.email@, opt_view(self.nickname), opt_view(self.username))
                == self.email@ ==> r is None,
            display_name_of(self.email@, opt_view(self.nickname), opt_view(self.username))
                != self.email@ ==> opt_view(r) == Some(self.email@),
    {
        let shown_name = self.display_name();
        if str_eq(shown_name.as_str(), self.email.as_str()) {
            None
        } else {
            Some(self.email.clone())
        }
    }
}

} // verus!
