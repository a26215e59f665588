use vstd::prelude::*;

use crate::json::{json_text, json_text_of};
use crate::text::{decimal, decimal_text};

verus! {

/// Root of the Twitch Helix API.
pub const API_BASE: &'static str = "https://api.twitch.tv/helix";

/// Twitch API error type
#[derive(Debug)]
pub enum TwitchApiError {
    /// The HTTP exchange failed; the text describes the transport error.
    Http(String),
    /// 401 Unauthorized — token is invalid or revoked; caller should refresh or re-auth
    Unauthorized,
    Api { status: u16, message: String },
}

/// The text with which a [`TwitchApiError`] is shown.
pub open spec fn api_error_text(e: TwitchApiError) -> Seq<char> {
    match e {
        TwitchApiError::Http(t) => "HTTP error: "@ + t@,
        TwitchApiError::Unauthorized => "Unauthorized (token expired or revoked)"@,
        TwitchApiError::Api { status, message } => "API error ("@ + decimal(status as nat) + "): "@ + message@,
    }
}

impl TwitchApiError {
    /// The text with which the error is shown.
    pub fn message(&self) -> (r: String)
        ensures
            r@ == api_error_text(*self),
    {
        match self {
            TwitchApiError::Http(t) => {
                let mut r = "HTTP error: ".to_owned();
                r.append(t.as_str());
                r
            },
            TwitchApiError::Unauthorized => "Unauthorized (token expired or revoked)".to_owned(),
            TwitchApiError::Api { status, message } => {
                let mut r = "API error (".to_owned();
                let code = decimal_text(*status as u128);
                r.append(code.as_str());
                r.append("): ");
                r.append(message.as_str());
                r
            },
        }
    }
}

/// Chat settings of a channel.
#[derive(Clone, Debug)]
pub struct ChatSettings {
    pub emote_mode: bool,
    pub follower_mode: bool,
    pub follower_mode_duration: Option<u32>,
    pub slow_mode: bool,
    pub slow_mode_wait_time: Option<u32>,
    pub subscriber_mode: bool,
}

/// A created clip.
#[derive(Clone, Debug)]
pub struct ClipResponse {
    pub id: String,
    pub edit_url: String,
}

/// Shield mode status of a channel.
#[derive(Clone, Debug)]
pub struct ShieldModeResponse {
    pub is_active: bool,
}

/// A live stream.
#[derive(Clone, Debug)]
pub struct StreamInfo {
    pub viewer_count: u32,
    pub title: String,
    pub game_name: String,
}

/// Body of a chat message request.
pub struct SendChatMessageBody {
    pub broadcaster_id: String,
    pub sender_id: String,
    pub message: String,
}

/// Body of a stream marker request.
pub struct CreateStreamMarkerBody {
    pub user_id: String,
    pub description: String,
}

/// Body of a commercial request.
pub struct StartCommercialBody {
    pub broadcaster_id: String,
    pub length: u32,
}

/// Body of a shield mode update.
pub struct UpdateShieldModeBody {
    pub is_active: bool,
}

/// The header values sent with every API request.
pub struct AuthHeaders {
    /// `Authorization`
    pub authorization: String,
    /// `Client-Id`
    pub client_id: String,
    /// `Content-Type`
    pub content_type: String,
}

/// Header values for an API request made with `token` on behalf of `client_id`.
pub fn auth_headers(token: &str, client_id: &str) -> (r: AuthHeaders)
    ensures
        r.authorization@ == "Bearer "@ + token@,
        r.client_id@ == client_id@,
        r.content_type@ == "application/json"@,
{
    let mut authorization = "Bearer ".to_owned();
    authorization.append(token);
    AuthHeaders {
        authorization,
        client_id: client_id.to_owned(),
        content_type: "application/json".to_owned(),
    }
}

fn api_url(path: &str) -> (r: String)
    ensures
        r@ == API_BASE@ + path@,
{
    let mut r = API_BASE.to_owned();
    r.append(path);
    r
}

/// `{API_BASE}{path}?{first}={a}&{second}={b}`
fn api_url_with_two(path: &str, first: &str, a: &str, second: &str, b: &str) -> (r: String)
    ensures
        r@ == API_BASE@ + path@ + "?"@ + first@ + "="@ + a@ + "&"@ + second@ + "="@ + b@,
{
    let mut r = api_url(path);
    r.append("?");
    r.append(first);
    r.append("=");
    r.append(a);
    r.append("&");
    r.append(second);
    r.append("=");
    r.append(b);
    r
}

/// `{API_BASE}{path}?{first}={a}`
fn api_url_with_one(path: &str, first: &str, a: &str) -> (r: String)
    ensures
        r@ == API_BASE@ + path@ + "?"@ + first@ + "="@ + a@,
{
    let mut r = api_url(path);
    r.append("?");
    r.append(first);
    r.append("=");
    r.append(a);
    r
}

/// Address of the chat settings of a channel, read or changed by a moderator.
pub fn chat_settings_url(broadcaster_id: &str, moderator_id: &str) -> (r: String)
    ensures
        r@ == API_BASE@ + "/chat/settings?broadcaster_id="@ + broadcaster_id@ + "&moderator_id="@
            + moderator_id@,
{
    let r = api_url_with_two("/chat/settings", "broadcaster_id", broadcaster_id, "moderator_id", moderator_id);
    proof {
        reveal_strlit("/chat/settings");
        reveal_strlit("broadcaster_id");
        reveal_strlit("moderator_id");
        reveal_strlit("?");
        reveal_strlit("=");
        reveal_strlit("&");
        reveal_strlit("/chat/settings?broadcaster_id=");
        reveal_strlit("&moderator_id=");
    }
    assert(r@ =~= API_BASE@ + "/chat/settings?broadcaster_id="@ + broadcaster_id@ + "&moderator_id="@
        + moderator_id@);
    r
}

/// Address for sending chat messages.
pub fn chat_messages_url() -> (r: String)
    ensures
        r@ == API_BASE@ + "/chat/messages"@,
{
    api_url("/chat/messages")
}

/// Address for deleting the chat messages of a channel.
pub fn clear_chat_url(broadcaster_id: &str, moderator_id: &str) -> (r: String)
    ensures
        r@ == API_BASE@ + "/chat/messages?broadcaster_id="@ + broadcaster_id@ + "&moderator_id="@
            + moderator_id@,
{
    let r = api_url_with_two("/chat/messages", "broadcaster_id", broadcaster_id, "moderator_id", moderator_id);
    proof {
        reveal_strlit("/chat/messages");
        reveal_strlit("broadcaster_id");
        reveal_strlit("moderator_id");
        reveal_strlit("?");
        reveal_strlit("=");
        reveal_strlit("&");
        reveal_strlit("/chat/messages?broadcaster_id=");
        reveal_strlit("&moderator_id=");
    }
    assert(r@ =~= API_BASE@ + "/chat/messages?broadcaster_id="@ + broadcaster_id@ + "&moderator_id="@
        + moderator_id@);
    r
}

/// Address for creating stream markers.
pub fn stream_markers_url() -> (r: String)
    ensures
        r@ == API_BASE@ + "/streams/markers"@,
{
    api_url("/streams/markers")
}

/// Address for creating a clip of a channel.
pub fn clips_url(broadcaster_id: &str) -> (r: String)
    ensures
        r@ == API_BASE@ + "/clips?broadcaster_id="@ + broadcaster_id@,
{
    let r = api_url_with_one("/clips", "broadcaster_id", broadcaster_id);
    proof {
        reveal_strlit("/clips");
        reveal_strlit("broadcaster_id");
        reveal_strlit("?");
        reveal_strlit("=");
        reveal_strlit("/clips?broadcaster_id=");
    }
    assert(r@ =~= API_BASE@ + "/clips?broadcaster_id="@ + broadcaster_id@);
    r
}

/// Address for starting a commercial.
pub fn commercial_url() -> (r: String)
    ensures
        r@ == API_BASE@ + "/channels/commercial"@,
{
    api_url("/channels/commercial")
}

/// Address of the shield mode status of a channel.
pub fn shield_mode_url(broadcaster_id: &str, moderator_id: &str) -> (r: String)
    ensures
        r@ == API_BASE@ + "/moderation/shield_mode?broadcaster_id="@ + broadcaster_id@
            + "&moderator_id="@ + moderator_id@,
{
    let r = api_url_with_two("/moderation/shield_mode", "broadcaster_id", broadcaster_id, "moderator_id", moderator_id);
    proof {
        reveal_strlit("/moderation/shield_mode");
        reveal_strlit("broadcaster_id");
        reveal_strlit("moderator_id");
        reveal_strlit("?");
        reveal_strlit("=");
        reveal_strlit("&");
        reveal_strlit("/moderation/shield_mode?broadcaster_id=");
        reveal_strlit("&moderator_id=");
    }
    assert(r@ =~= API_BASE@ + "/moderation/shield_mode?broadcaster_id="@ + broadcaster_id@
        + "&moderator_id="@ + moderator_id@);
    r
}

/// Address of the live stream of a user.
pub fn streams_url(user_id: &str) -> (r: String)
    ensures
        r@ == API_BASE@ + "/streams?user_id="@ + user_id@,
{
    let r = api_url_with_one("/streams", "user_id", user_id);
    proof {
        reveal_strlit("/streams");
        reveal_strlit("user_id");
        reveal_strlit("?");
        reveal_strlit("=");
        reveal_strlit("/streams?user_id=");
    }
    assert(r@ =~= API_BASE@ + "/streams?user_id="@ + user_id@);
    r
}

/// How an answer is handled, by its status code.
pub enum ResponseClass {
    /// 401: the token is invalid or revoked.
    Unauthorized,
    /// 2xx: the request succeeded.
    Success,
    /// Any other status: the request failed.
    Failure,
}

pub open spec fn response_class(status: u16) -> ResponseClass {
    if status == 401 {
        ResponseClass::Unauthorized
    } else if 200 <= status < 300 {
        ResponseClass::Success
    } else {
        ResponseClass::Failure
    }
}

/// How an answer with status code `status` is handled.
pub fn classify_status(status: u16) -> (r: ResponseClass)
    ensures
        r == response_class(status),
        r is Unauthorized <==> status == 401,
        r is Success <==> 200 <= status <= 299,
        r is Failure <==> status != 401 && !(200 <= status <= 299),
{
    if status == 401 {
        ResponseClass::Unauthorized
    } else if status >= 200 && status < 300 {
        ResponseClass::Success
    } else {
        ResponseClass::Failure
    }
}

/// The message of a failed request: the string member `message` of the JSON
/// body, else the whole body.
pub open spec fn failure_message(body: Seq<char>) -> Seq<char> {
    match json_text(body, "message"@) {
        Some(m) => m,
        None => body,
    }
}

/// The error for a failed request with status `status` whose body reads `body`.
pub fn api_failure(status: u16, body: &str) -> (r: TwitchApiError)
    ensures
        r matches TwitchApiError::Api { status: s, message } && s == status && message@ == failure_message(body@),
{
    let message = match json_text_of(body, "message") {
        Some(m) => m,
        None => body.to_owned(),
    };
    TwitchApiError::Api { status, message }
}

/// The error for a successful answer whose body could not be read as the expected data.
pub fn unreadable_body(status: u16) -> (r: TwitchApiError)
    ensures
        r matches TwitchApiError::Api { status: s, message } && s == status
            && message@ == "Failed to parse response body"@,
{
    TwitchApiError::Api { status, message: "Failed to parse response body".to_owned() }
}

/// The kinds of data an answer must hold at least one of.
pub enum Expected {
    ChatSettings,
    Clip,
    ShieldMode,
}

pub open spec fn missing_text(e: Expected) -> Seq<char> {
    match e {
        Expected::ChatSettings => "No chat settings in response"@,
        Expected::Clip => "No clip data in response"@,
        Expected::ShieldMode => "No shield mode data in response"@,
    }
}

/// The first entry of the `data` list of an answer; an error with status 200
/// when the list is empty.
pub fn first_entry<T>(data: Vec<T>, expected: Expected) -> (r: Result<T, TwitchApiError>)
    ensures
        data@.len() > 0 ==> r == Ok::<T, TwitchApiError>(data@[0]),
        data@.len() == 0 ==> (r matches Err(TwitchApiError::Api { status, message }) && status == 200
            && message@ == missing_text(expected)),
{
    let mut data = data;
    if data.len() > 0 {
        Ok(data.remove(0))
    } else {
        let message = match expected {
            Expected::ChatSettings => "No chat settings in response".to_owned(),
            Expected::Clip => "No clip data in response".to_owned(),
            Expected::ShieldMode => "No shield mode data in response".to_owned(),
        };
        Err(TwitchApiError::Api { status: 200, message })
    }
}

/// The first entry of the `data` list of an answer, if any.
pub fn first_or_none<T>(data: Vec<T>) -> (r: Option<T>)
    ensures
        data@.len() > 0 ==> r == Some(data@[0]),
        data@.len() == 0 ==> r is None,
{
    let mut data = data;
    if data.len() > 0 {
        Some(data.remove(0))
    } else {
        None
    }
}

} // verus!
