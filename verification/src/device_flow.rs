//! GitHub's device flow: the form bodies sent to GitHub, and what each of
//! its answers means for the sign-in.
use crate::client::CloudApiError;
use crate::oauth::{utf8_lossy, utf8_lossy_text, GithubTokenResponse, OAuthTokens};
use crate::text::{decimal_text, i64_to_string, push_str, str_eq, string_from_chars, to_chars};
use vstd::prelude::*;

verus! {

/// What the sign-in page shows the user: where to go and which code to
/// enter, with the device code to poll with.
#[derive(Debug)]
pub struct DeviceFlowResponse {
    pub verification_uri: String,
    pub user_code: String,
    pub device_code: String,
}

/// GitHub's answer to a device code request.
#[derive(Debug)]
pub struct GithubDeviceCodeResponse {
    pub device_code: String,
    pub user_code: String,
    pub verification_uri: String,
    /// Seconds to wait between polls.
    pub interval: u64,
    /// Seconds the device code stays valid.
    pub expires_in: u64,
}

/// An error answer of GitHub's device flow.
#[derive(Debug)]
pub struct GithubDeviceError {
    pub error: String,
    pub error_description: Option<String>,
}

// ---------------------------------------------------------------------------
// Requests
// ---------------------------------------------------------------------------
/// The form body asking GitHub for a device code with the gist scope.
pub open spec fn device_code_body_text(client_id: Seq<char>) -> Seq<char> {
    "client_id="@ + client_id + "&scope=gist"@
}

/// Builds the form body asking for a device code.
pub fn device_code_request_body(client_id: &str) -> (r: String)
    ensures
        r@ == device_code_body_text(client_id@),
{
    let mut v = to_chars("client_id=");
    push_str(&mut v, &to_chars(client_id));
    push_str(&mut v, &to_chars("&scope=gist"));
    string_from_chars(&v)
}

/// The form body polling GitHub for the token of a device code.
pub open spec fn token_poll_body_text(client_id: Seq<char>, device_code: Seq<char>) -> Seq<char> {
    "client_id="@ + client_id + "&device_code="@ + device_code
        + "&grant_type=urn:ietf:params:oauth:grant-type:device_code"@
}

/// Builds the form body polling for the token.
pub fn token_poll_request_body(client_id: &str, device_code: &str) -> (r: String)
    ensures
        r@ == token_poll_body_text(client_id@, device_code@),
{
    let mut v = to_chars("client_id=");
    push_str(&mut v, &to_chars(client_id));
    push_str(&mut v, &to_chars("&device_code="));
    push_str(&mut v, &to_chars(device_code));
    push_str(&mut v, &to_chars("&grant_type=urn:ietf:params:oauth:grant-type:device_code"));
    string_from_chars(&v)
}

// ---------------------------------------------------------------------------
// Answers
// ---------------------------------------------------------------------------
/// `error - description` of an error answer (an absent description is
/// empty).
pub open spec fn device_error_text(e: GithubDeviceError) -> Seq<char> {
    e.error@ + " - "@ + match e.error_description {
        Some(d) => d@,
        None => Seq::empty(),
    }
}

fn device_error_message(e: &GithubDeviceError) -> (r: String)
    ensures
        r@ == device_error_text(*e),
{
    let mut v = to_chars(e.error.as_str());
    push_str(&mut v, &to_chars(" - "));
    match &e.error_description {
        Some(d) => push_str(&mut v, &to_chars(d.as_str())),
        None => {},
    }
    string_from_chars(&v)
}

/// `prefix` followed by `rest`.
fn prefixed(prefix: &str, rest: &str) -> (r: String)
    ensures
        r@ == prefix@ + rest@,
{
    let mut v = to_chars(prefix);
    push_str(&mut v, &to_chars(rest));
    string_from_chars(&v)
}

/// Reads GitHub's answer to a device code request: its HTTP status, the
/// body read as a device code answer and as an error answer (where it
/// reads as one), and the raw body. A status other than 200 is a server
/// error naming it; otherwise a device code answer gives the codes to show,
/// an error answer is a server error carrying it, and anything else is a
/// parse error quoting the body.
pub fn device_code_outcome(
    status: u16,
    code: Option<GithubDeviceCodeResponse>,
    err: Option<GithubDeviceError>,
    body: &[u8],
) -> (r: Result<DeviceFlowResponse, CloudApiError>)
    ensures
        status != 200 ==> (r matches Err(CloudApiError::ServerError(m)) && m@
            == "GitHub device code 请求失败: HTTP "@ + decimal_text(status as int)),
        status == 200 && code is Some ==> (r matches Ok(d) && d.verification_uri
            == code->0.verification_uri && d.user_code == code->0.user_code && d.device_code
            == code->0.device_code),
        status == 200 && code is None && err is Some ==> (r matches Err(
            CloudApiError::ServerError(m),
        ) && m@ == "GitHub device code 错误: "@ + device_error_text(err->0)),
        status == 200 && code is None && err is None ==> (r matches Err(
            CloudApiError::ParseError(m),
        ) && m@ == "无法解析 GitHub device code 响应: "@ + utf8_lossy_text(body@)),
{
    if status != 200 {
        let s = i64_to_string(status as i64);
        return Err(
            CloudApiError::ServerError(prefixed("GitHub device code 请求失败: HTTP ", s.as_str())),
        );
    }
    match code {
        Some(c) => Ok(
            DeviceFlowResponse {
                verification_uri: c.verification_uri,
                user_code: c.user_code,
                device_code: c.device_code,
            },
        ),
        None => match err {
            Some(e) => {
                let m = device_error_message(&e);
                Err(CloudApiError::ServerError(prefixed("GitHub device code 错误: ", m.as_str())))
            },
            None => {
                let text = utf8_lossy(body);
                Err(
                    CloudApiError::ParseError(
                        prefixed("无法解析 GitHub device code 响应: ", text.as_str()),
                    ),
                )
            },
        },
    }
}

/// The next step of polling for the device flow's token.
#[derive(Debug)]
pub enum DevicePollStep {
    /// The sign-in ended, with the tokens or with an error.
    Finished(Result<OAuthTokens, CloudApiError>),
    /// The user has not answered yet: poll again after the interval.
    Wait,
}

/// What a poll answer comes to.
#[derive(Debug, Clone, Copy, PartialEq, Eq, Structural)]
pub enum PollVerdict {
    /// A token answer: the sign-in succeeded.
    Tokens,
    /// The user has not answered yet.
    Wait,
    /// The user refused.
    Denied,
    /// The device code expired.
    Expired,
    /// Another error answer.
    OtherError,
    /// Neither a token nor a handled error (a request to slow down included).
    Unreadable,
}

/// The verdict on a poll answer read as a token answer and as an error
/// answer (where it reads as one).
pub open spec fn poll_verdict(token: Option<GithubTokenResponse>, err: Option<GithubDeviceError>) -> PollVerdict {
    match token {
        Some(_) => PollVerdict::Tokens,
        None => match err {
            Some(e) => if e.error@ == "authorization_pending"@ {
                PollVerdict::Wait
            } else if e.error@ == "slow_down"@ {
                PollVerdict::Unreadable
            } else if e.error@ == "access_denied"@ {
                PollVerdict::Denied
            } else if e.error@ == "expired_token"@ {
                PollVerdict::Expired
            } else {
                PollVerdict::OtherError
            },
            None => PollVerdict::Unreadable,
        },
    }
}

/// Reads one answer to polling for the token: the body read as a token
/// answer and as an error answer (where it reads as one), and the raw body.
pub fn device_poll_step(
    token: Option<GithubTokenResponse>,
    err: Option<GithubDeviceError>,
    body: &[u8],
) -> (r: DevicePollStep)
    ensures
        match poll_verdict(token, err) {
            PollVerdict::Tokens => r matches DevicePollStep::Finished(Ok(t)) && t.access_token
                == token->0.access_token && t.refresh_token == token->0.refresh_token
                && t.token_type == token->0.token_type && t.expires_in is None
                && t.expires_at is None,
            PollVerdict::Wait => r is Wait,
            PollVerdict::Denied => r matches DevicePollStep::Finished(
                Err(CloudApiError::AuthenticationFailed(m)),
            ) && m@ == "用户拒绝了授权请求"@,
            PollVerdict::Expired => r matches DevicePollStep::Finished(
                Err(CloudApiError::AuthenticationFailed(m)),
            ) && m@ == "device_code 已过期，请重新发起授权"@,
            PollVerdict::OtherError => r matches DevicePollStep::Finished(
                Err(CloudApiError::ServerError(m)),
            ) && m@ == "GitHub token 错误: "@ + device_error_text(err->0),
            PollVerdict::Unreadable => r matches DevicePollStep::Finished(
                Err(CloudApiError::ParseError(m)),
            ) && m@ == "无法解析 GitHub token 响应: "@ + utf8_lossy_text(body@),
        },
{
    let unreadable = |body: &[u8]| -> (r: DevicePollStep)
        ensures
            r matches DevicePollStep::Finished(Err(CloudApiError::ParseError(m))) && m@
                == "无法解析 GitHub token 响应: "@ + utf8_lossy_text(body@),
        {
            let text = utf8_lossy(body);
            DevicePollStep::Finished(
                Err(CloudApiError::ParseError(prefixed("无法解析 GitHub token 响应: ", text.as_str()))),
            )
        };
    match token {
        Some(t) => DevicePollStep::Finished(Ok(t.into_tokens())),
        None => match err {
            Some(e) => {
                if str_eq(e.error.as_str(), "authorization_pending") {
                    DevicePollStep::Wait
                } else if str_eq(e.error.as_str(), "slow_down") {
                    unreadable(body)
                } else if str_eq(e.error.as_str(), "access_denied") {
                    DevicePollStep::Finished(
                        Err(CloudApiError::AuthenticationFailed(String::from_str("用户拒绝了授权请求"))),
                    )
                } else if str_eq(e.error.as_str(), "expired_token") {
                    DevicePollStep::Finished(
                        Err(
                            CloudApiError::AuthenticationFailed(
                                String::from_str("device_code 已过期，请重新发起授权"),
                            ),
                        ),
                    )
                } else {
                    let m = device_error_message(&e);
                    DevicePollStep::Finished(
                        Err(CloudApiError::ServerError(prefixed("GitHub token 错误: ", m.as_str()))),
                    )
                }
            },
            None => unreadable(body),
        },
    }
}

/// The error when the user has not answered within the allowed polls.
pub fn device_flow_timed_out() -> (r: CloudApiError)
    ensures
        r matches CloudApiError::AuthenticationFailed(m) && m@ == "授权超时，请重试"@,
{
    CloudApiError::AuthenticationFailed(String::from_str("授权超时，请重试"))
}

} // verus!
