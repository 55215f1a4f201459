//! Shapes of the REST calls: endpoints, the authorization header, and how a
//! response status is judged.

use vstd::prelude::*;
use vstd::string::*;
use crate::error::ClientError;
use crate::text::{decimal, decimal_text};

verus! {

/// Base of the message and gateway endpoints.
pub open spec fn api_base() -> Seq<char> {
    "https://api.sgroup.qq.com"@
}

/// The access-token endpoint.
pub fn auth_url() -> (r: String)
    ensures
        r@ == "https://bots.qq.com/app/getAppAccessToken"@,
{
    String::from_str("https://bots.qq.com/app/getAppAccessToken")
}

/// The endpoint that gives the gateway URL.
pub fn gateway_url() -> (r: String)
    ensures
        r@ == api_base() + "/gateway"@,
{
    let mut r = String::from_str("https://api.sgroup.qq.com");
    r.append("/gateway");
    r
}

/// `/v2/groups/{group_openid}/messages`.
pub fn group_messages_url(group_openid: &str) -> (r: String)
    ensures
        r@ == api_base() + "/v2/groups/"@ + group_openid@ + "/messages"@,
{
    let mut r = String::from_str("https://api.sgroup.qq.com");
    r.append("/v2/groups/");
    r.append(group_openid);
    r.append("/messages");
    r
}

/// `/v2/users/{user_openid}/messages`.
pub fn c2c_messages_url(user_openid: &str) -> (r: String)
    ensures
        r@ == api_base() + "/v2/users/"@ + user_openid@ + "/messages"@,
{
    let mut r = String::from_str("https://api.sgroup.qq.com");
    r.append("/v2/users/");
    r.append(user_openid);
    r.append("/messages");
    r
}

/// The value of the `Authorization` header: `QQBot <token>`.
pub fn authorization(token: &str) -> (r: String)
    ensures
        r@ == "QQBot "@ + token@,
{
    let mut r = String::from_str("QQBot ");
    r.append(token);
    r
}

pub open spec fn success_status(status: u16) -> bool {
    200 <= status <= 299
}

/// A 2xx status.
pub fn is_success(status: u16) -> (r: bool)
    ensures
        r == success_status(status),
{
    200 <= status && status <= 299
}

/// `status: <status>, response: <body>`.
pub open spec fn failure_text(status: u16, body: Seq<char>) -> Seq<char> {
    "status: "@ + decimal(status as nat) + ", response: "@ + body
}

fn failure_line(status: u16, body: &String) -> (r: String)
    ensures
        r@ == failure_text(status, body@),
{
    let mut r = String::from_str("status: ");
    r.append(decimal_text(status as u64).as_str());
    r.append(", response: ");
    r.append(body.as_str());
    r
}

/// Judges the access-token response: any status but 2xx is `AuthFailed`.
pub fn check_auth(status: u16, body: String) -> (r: Result<(), ClientError>)
    ensures
        success_status(status) ==> r is Ok,
        !success_status(status) ==> (r matches Err(ClientError::AuthFailed { status: s, response })
            && s == status && response@ == body@),
{
    if is_success(status) {
        Ok(())
    } else {
        Err(ClientError::AuthFailed { status, response: body })
    }
}

/// Judges a message POST response: any status but 2xx is `PostMessageFailed`.
pub fn check_post(status: u16, body: String) -> (r: Result<(), ClientError>)
    ensures
        success_status(status) ==> r is Ok,
        !success_status(status) ==> (r matches Err(ClientError::PostMessageFailed(m)) && m@ == failure_text(status, body@)),
{
    if is_success(status) {
        Ok(())
    } else {
        Err(ClientError::PostMessageFailed(failure_line(status, &body)))
    }
}

/// Judges the gateway URL response: any status but 2xx is `GetWssEndpointFailed`.
pub fn check_gateway(status: u16, body: String) -> (r: Result<(), ClientError>)
    ensures
        success_status(status) ==> r is Ok,
        !success_status(status) ==> (r matches Err(ClientError::GetWssEndpointFailed(m)) && m@ == failure_text(status, body@)),
{
    if is_success(status) {
        Ok(())
    } else {
        Err(ClientError::GetWssEndpointFailed(failure_line(status, &body)))
    }
}

/// The stored access token, or `Unknown` when none has been acquired.
pub fn access_token(stored: Option<String>) -> (r: Result<String, ClientError>)
    ensures
        stored matches Some(t) ==> (r matches Ok(u) && u@ == t@),
        stored is None ==> (r matches Err(ClientError::Unknown(m)) && m@ == "No access token available"@),
{
    match stored {
        Some(t) => Ok(t),
        None => Err(ClientError::Unknown(String::from_str("No access token available"))),
    }
}

/// The token endpoint's answer.
#[derive(Debug, Clone)]
pub struct AuthToken {
    pub access_token: String,
    /// Lifetime in seconds, as the platform writes it (a decimal string).
    pub expires_in: String,
}

} // verus!
