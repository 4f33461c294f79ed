use vstd::prelude::*;
use vstd::string::StringExecFns;
use crate::github::opt_view;

verus! {

/// The OAuth scopes Pullbell asks for: private repositories, organization
/// teams and notifications.
pub const DEFAULT_SCOPES: &'static str = "repo read:org notifications";

/// Where a device code is requested.
pub const DEVICE_CODE_URL: &'static str = "https://github.com/login/device/code";

/// Where the device flow is polled for a token.
pub const ACCESS_TOKEN_URL: &'static str = "https://github.com/login/oauth/access_token";

/// The OAuth grant type of the device flow.
pub const DEVICE_GRANT_TYPE: &'static str = "urn:ietf:params:oauth:grant-type:device_code";

/// Seconds between polls when GitHub does not say.
pub const DEFAULT_POLL_INTERVAL: u64 = 5;

/// Seconds added to the poll interval when GitHub asks to slow down.
pub const SLOW_DOWN_STEP: u64 = 5;

/// A GitHub device code and how to use it.
#[derive(Debug, Clone)]
pub struct DeviceCode {
    pub device_code: String,
    pub user_code: String,
    pub verification_uri: String,
    pub expires_in: u64,
    pub interval: u64,
}

/// A granted OAuth token.
#[derive(Debug, Clone)]
pub struct AccessToken {
    pub token: String,
    pub scope: String,
    pub token_type: String,
}

/// Why polling gave no token yet.
#[derive(Debug, Clone, Copy, PartialEq, Eq, Structural)]
pub enum PollOutcome {
    Pending,
    SlowDown,
    AccessDenied,
    Expired,
}

/// The device code from GitHub's answer; the poll interval defaults to
/// `DEFAULT_POLL_INTERVAL` seconds.
pub fn device_code_from_response(
    device_code: String,
    user_code: String,
    verification_uri: String,
    expires_in: u64,
    interval: Option<u64>,
) -> (r: DeviceCode)
    ensures
        r.device_code == device_code,
        r.user_code == user_code,
        r.verification_uri == verification_uri,
        r.expires_in == expires_in,
        r.interval == match interval {
            Some(i) => i,
            None => DEFAULT_POLL_INTERVAL,
        },
{
    DeviceCode {
        device_code,
        user_code,
        verification_uri,
        expires_in,
        interval: match interval {
            Some(i) => i,
            None => DEFAULT_POLL_INTERVAL,
        },
    }
}

/// What one poll of the device flow means, from the fields of GitHub's
/// answer: a token, a reason to wait, or an error text.
pub open spec fn poll_meaning(
    access_token: Option<Seq<char>>,
    token_type: Option<Seq<char>>,
    scope: Option<Seq<char>>,
    error: Option<Seq<char>>,
    error_description: Option<Seq<char>>,
) -> Result<Result<(Seq<char>, Seq<char>, Seq<char>), PollOutcome>, Seq<char>> {
    match access_token {
        Some(t) => Ok(
            Ok(
                (
                    t,
                    match scope {
                        Some(s) => s,
                        None => Seq::empty(),
                    },
                    match token_type {
                        Some(k) => k,
                        None => "bearer"@,
                    },
                ),
            ),
        ),
        None => match error {
            Some(e) => if e == "authorization_pending"@ {
                Ok(Err(PollOutcome::Pending))
            } else if e == "slow_down"@ {
                Ok(Err(PollOutcome::SlowDown))
            } else if e == "access_denied"@ {
                Ok(Err(PollOutcome::AccessDenied))
            } else if e == "expired_token"@ {
                Ok(Err(PollOutcome::Expired))
            } else {
                Err(
                    "GitHub OAuth error: "@ + e + " "@ + match error_description {
                        Some(d) => d,
                        None => Seq::empty(),
                    },
                )
            },
            None => Err("GitHub OAuth response did not include a token or error"@),
        },
    }
}

/// The view of a poll's result.
pub open spec fn poll_result_view(r: Result<Result<AccessToken, PollOutcome>, String>) -> Result<
    Result<(Seq<char>, Seq<char>, Seq<char>), PollOutcome>,
    Seq<char>,
> {
    match r {
        Ok(Ok(t)) => Ok(Ok((t.token@, t.scope@, t.token_type@))),
        Ok(Err(o)) => Ok(Err(o)),
        Err(e) => Err(e@),
    }
}

/// Interprets GitHub's answer to one poll of the device flow.
pub fn interpret_poll_response(
    access_token: Option<String>,
    token_type: Option<String>,
    scope: Option<String>,
    error: Option<String>,
    error_description: Option<String>,
) -> (r: Result<Result<AccessToken, PollOutcome>, String>)
    ensures
        poll_result_view(r) == poll_meaning(
            opt_view(access_token),
            opt_view(token_type),
            opt_view(scope),
            opt_view(error),
            opt_view(error_description),
        ),
{
    if let Some(token) = access_token {
        return Ok(
            Ok(
                AccessToken {
                    token,
                    scope: match scope {
                        Some(s) => s,
                        None => String::new(),
                    },
                    token_type: match token_type {
                        Some(k) => k,
                        None => "bearer".to_string(),
                    },
                },
            ),
        );
    }
    match error {
        Some(e) => {
            if e == "authorization_pending".to_string() {
                Ok(Err(PollOutcome::Pending))
            } else if e == "slow_down".to_string() {
                Ok(Err(PollOutcome::SlowDown))
            } else if e == "access_denied".to_string() {
                Ok(Err(PollOutcome::AccessDenied))
            } else if e == "expired_token".to_string() {
                Ok(Err(PollOutcome::Expired))
            } else {
                let mut message = "GitHub OAuth error: ".to_string();
                message.append(e.as_str());
                message.append(" ");
                if let Some(d) = error_description {
                    message.append(d.as_str());
                }
                Err(message)
            }
        },
        None => Err("GitHub OAuth response did not include a token or error".to_string()),
    }
}

/// The message when the device code ran out before approval.
pub const DEVICE_CODE_EXPIRED: &'static str = "GitHub OAuth device code expired";

/// The message when the user denied the authorization.
pub const AUTHORIZATION_DENIED: &'static str = "GitHub OAuth authorization was denied";

/// What waiting for the token does after a poll.
#[derive(Debug, Clone)]
pub enum WaitStep {
    /// The token was granted.
    Granted(AccessToken),
    /// Poll again after `interval` seconds.
    PollAgain { interval: u64 },
    /// Give up with this message.
    Failed(String),
}

/// The next step of waiting for a token, after a poll gave `outcome` while
/// polling every `interval` seconds: a slow-down adds `SLOW_DOWN_STEP`
/// seconds; a denial or expiry ends the wait.
pub fn next_wait_step(outcome: Result<AccessToken, PollOutcome>, interval: u64) -> (r: WaitStep)
    requires
        outcome matches Err(PollOutcome::SlowDown) ==> interval <= u64::MAX - SLOW_DOWN_STEP,
    ensures
        match outcome {
            Ok(t) => r matches WaitStep::Granted(g) && g.token == t.token && g.scope == t.scope && g.token_type == t.token_type,
            Err(PollOutcome::Pending) => r matches WaitStep::PollAgain { interval: i } && i == interval,
            Err(PollOutcome::SlowDown) => r matches WaitStep::PollAgain { interval: i } && i == interval + SLOW_DOWN_STEP,
            Err(PollOutcome::AccessDenied) => r matches WaitStep::Failed(m) && m@ == AUTHORIZATION_DENIED@,
            Err(PollOutcome::Expired) => r matches WaitStep::Failed(m) && m@ == DEVICE_CODE_EXPIRED@,
        },
{
    match outcome {
        Ok(token) => WaitStep::Granted(token),
        Err(PollOutcome::Pending) => WaitStep::PollAgain { interval },
        Err(PollOutcome::SlowDown) => WaitStep::PollAgain { interval: interval + SLOW_DOWN_STEP },
        Err(PollOutcome::AccessDenied) => WaitStep::Failed(AUTHORIZATION_DENIED.to_string()),
        Err(PollOutcome::Expired) => WaitStep::Failed(DEVICE_CODE_EXPIRED.to_string()),
    }
}

} // verus!
