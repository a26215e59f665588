use twitch_opendeck::twitch_api::{
    api_failure, auth_headers, chat_messages_url, chat_settings_url, classify_status, clear_chat_url, clips_url,
    commercial_url, first_entry, first_or_none, shield_mode_url, stream_markers_url, streams_url, unreadable_body,
    Expected, ResponseClass, TwitchApiError, API_BASE,
};

fn api(e: &TwitchApiError) -> Option<(u16, &str)> {
    match e {
        TwitchApiError::Api { status, message } => Some((*status, message.as_str())),
        _ => None,
    }
}

#[test]
fn addresses_of_the_helix_endpoints() {
    assert_eq!(API_BASE, "https://api.twitch.tv/helix");
    assert_eq!(chat_settings_url("1", "2"), "https://api.twitch.tv/helix/chat/settings?broadcaster_id=1&moderator_id=2");
    assert_eq!(chat_messages_url(), "https://api.twitch.tv/helix/chat/messages");
    assert_eq!(clear_chat_url("b", "m"), "https://api.twitch.tv/helix/chat/messages?broadcaster_id=b&moderator_id=m");
    assert_eq!(stream_markers_url(), "https://api.twitch.tv/helix/streams/markers");
    assert_eq!(clips_url("9"), "https://api.twitch.tv/helix/clips?broadcaster_id=9");
    assert_eq!(commercial_url(), "https://api.twitch.tv/helix/channels/commercial");
    assert_eq!(shield_mode_url("b", "m"), "https://api.twitch.tv/helix/moderation/shield_mode?broadcaster_id=b&moderator_id=m");
    assert_eq!(streams_url("u"), "https://api.twitch.tv/helix/streams?user_id=u");
}

#[test]
fn request_headers() {
    let h = auth_headers("tok", "cid");
    assert_eq!(h.authorization, "Bearer tok");
    assert_eq!(h.client_id, "cid");
    assert_eq!(h.content_type, "application/json");
}

#[test]
fn statuses_are_classified() {
    assert!(matches!(classify_status(401), ResponseClass::Unauthorized));
    assert!(matches!(classify_status(200), ResponseClass::Success));
    assert!(matches!(classify_status(204), ResponseClass::Success));
    assert!(matches!(classify_status(299), ResponseClass::Success));
    assert!(matches!(classify_status(300), ResponseClass::Failure));
    assert!(matches!(classify_status(199), ResponseClass::Failure));
    assert!(matches!(classify_status(400), ResponseClass::Failure));
    assert!(matches!(classify_status(403), ResponseClass::Failure));
    assert!(matches!(classify_status(500), ResponseClass::Failure));
}

#[test]
fn failures_take_the_json_message() {
    let e = api_failure(400, r#"{"error":"Bad Request","status":400,"message":"Missing required parameter"}"#);
    assert_eq!(api(&e), Some((400, "Missing required parameter")));
}

#[test]
fn failures_without_a_json_message_keep_the_body() {
    assert_eq!(api(&api_failure(503, "Service Unavailable")), Some((503, "Service Unavailable")));
    assert_eq!(api(&api_failure(400, r#"{"message":5}"#)), Some((400, r#"{"message":5}"#)));
    assert_eq!(api(&api_failure(404, r#"{"error":"x"}"#)), Some((404, r#"{"error":"x"}"#)));
    assert_eq!(api(&api_failure(500, "")), Some((500, "")));
}

#[test]
fn unreadable_success_body() {
    assert_eq!(api(&unreadable_body(200)), Some((200, "Failed to parse response body")));
}

#[test]
fn first_entry_or_a_missing_data_error() {
    assert_eq!(first_entry(vec![3, 4], Expected::Clip).ok(), Some(3));
    assert_eq!(api(&first_entry::<u8>(vec![], Expected::ChatSettings).err().unwrap()), Some((200, "No chat settings in response")));
    assert_eq!(api(&first_entry::<u8>(vec![], Expected::Clip).err().unwrap()), Some((200, "No clip data in response")));
    assert_eq!(api(&first_entry::<u8>(vec![], Expected::ShieldMode).err().unwrap()), Some((200, "No shield mode data in response")));
    assert_eq!(first_or_none(vec!["a", "b"]), Some("a"));
    assert_eq!(first_or_none::<u8>(vec![]), None);
}

#[test]
fn api_error_messages() {
    assert_eq!(TwitchApiError::Http("connection reset".to_string()).message(), "HTTP error: connection reset");
    assert_eq!(TwitchApiError::Unauthorized.message(), "Unauthorized (token expired or revoked)");
    assert_eq!(TwitchApiError::Api { status: 429, message: "Too Many Requests".to_string() }.message(), "API error (429): Too Many Requests");
    assert_eq!(TwitchApiError::Api { status: 0, message: String::new() }.message(), "API error (0): ");
}
