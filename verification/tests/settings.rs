use twitch_opendeck::settings::{
    default_duration_seconds, default_follow_duration_minutes, default_wait_seconds, ChatMessageSettings,
    EmptySettings, FollowerChatSettings, GlobalSettings, PlayAdSettings, SlowChatSettings, TitleCache,
    BUTTON_LABEL_MAX,
};

fn settings(client: &str, access: Option<&str>, user: Option<&str>) -> GlobalSettings {
    GlobalSettings {
        client_id: client.to_string(),
        access_token: access.map(|s| s.to_string()),
        user_id: user.map(|s| s.to_string()),
        ..GlobalSettings::default()
    }
}

#[test]
fn authenticated_needs_token_user_and_client() {
    assert!(settings("cid", Some("tok"), Some("1")).is_authenticated());
    assert!(!settings("", Some("tok"), Some("1")).is_authenticated());
    assert!(!settings("cid", None, Some("1")).is_authenticated());
    assert!(!settings("cid", Some("tok"), None).is_authenticated());
    assert!(!GlobalSettings::default().is_authenticated());
}

#[test]
fn default_settings() {
    let g = GlobalSettings::default();
    assert_eq!(g.client_id, "");
    assert_eq!(g.client_secret, "");
    assert_eq!(g.token_expires_at, None);
    assert_eq!(default_duration_seconds(), 30);
    assert_eq!(default_wait_seconds(), 30);
    assert_eq!(default_follow_duration_minutes(), 10);
    assert_eq!(PlayAdSettings::default().duration_seconds, 30);
    assert_eq!(SlowChatSettings::default().wait_seconds, 30);
    assert_eq!(FollowerChatSettings::default().follow_duration_minutes, 10);
    let c = ChatMessageSettings::default();
    assert_eq!(c.message, "");
    assert_eq!(c.button_label, None);
    let e = EmptySettings::default();
    assert_eq!(e.button_label, None);
    assert_eq!(e.button_image, None);
    assert_eq!(BUTTON_LABEL_MAX, 10);
}

#[test]
fn title_cache_reads_back_what_was_cached() {
    let mut c = TitleCache::new();
    assert_eq!(c.get_cached_title("a"), None);
    c.cache_title("a", "First");
    c.cache_title("b", "Second");
    assert_eq!(c.get_cached_title("a").as_deref(), Some("First"));
    assert_eq!(c.get_cached_title("b").as_deref(), Some("Second"));
    c.cache_title("a", "Again");
    assert_eq!(c.get_cached_title("a").as_deref(), Some("Again"));
    assert_eq!(c.get_cached_title("b").as_deref(), Some("Second"));
    assert_eq!(c.get_cached_title("c"), None);
}
