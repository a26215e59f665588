use vstd::prelude::*;

use crate::text::same_text;

verus! {

/// Most characters a line of a button label holds.
pub const BUTTON_LABEL_MAX: usize = 10;

/// Abstract view of an optional piece of text.
pub open spec fn opt_text(o: Option<String>) -> Option<Seq<char>> {
    match o {
        Some(s) => Some(s@),
        None => None,
    }
}

/// Global plugin settings persisted in OpenDeck.
#[derive(Clone, Debug)]
pub struct GlobalSettings {
    /// Twitch application Client ID (user must register their own app)
    pub client_id: String,
    /// Twitch application Client Secret
    pub client_secret: String,
    /// OAuth2 access token
    pub access_token: Option<String>,
    /// OAuth2 refresh token (one-time use)
    pub refresh_token: Option<String>,
    /// Unix timestamp when access_token expires
    pub token_expires_at: Option<i64>,
    /// Broadcaster's Twitch user ID
    pub user_id: Option<String>,
    /// Broadcaster's Twitch username (for display)
    pub username: Option<String>,
}

/// The mathematical content of [`GlobalSettings`].
pub struct GlobalSettingsView {
    pub client_id: Seq<char>,
    pub client_secret: Seq<char>,
    pub access_token: Option<Seq<char>>,
    pub refresh_token: Option<Seq<char>>,
    pub token_expires_at: Option<i64>,
    pub user_id: Option<Seq<char>>,
    pub username: Option<Seq<char>>,
}

impl View for GlobalSettings {
    type V = GlobalSettingsView;

    open spec fn view(&self) -> GlobalSettingsView {
        GlobalSettingsView {
            client_id: self.client_id@,
            client_secret: self.client_secret@,
            access_token: opt_text(self.access_token),
            refresh_token: opt_text(self.refresh_token),
            token_expires_at: self.token_expires_at,
            user_id: opt_text(self.user_id),
            username: opt_text(self.username),
        }
    }
}

impl GlobalSettingsView {
    /// Authenticated: an access token and a user id are held and a client id is set.
    pub open spec fn authenticated(self) -> bool {
        &&& self.access_token is Some
        &&& self.user_id is Some
        &&& self.client_id.len() > 0
    }
}

impl GlobalSettings {
    /// Check if the plugin is authenticated with Twitch
    pub fn is_authenticated(&self) -> (r: bool)
        ensures
            r == self@.authenticated(),
    {
        self.access_token.is_some() && self.user_id.is_some() && !self.client_id.as_str().is_empty()
    }
}

impl Default for GlobalSettings {
    fn default() -> (r: Self)
        ensures
            r@ == (GlobalSettingsView {
                client_id: Seq::empty(),
                client_secret: Seq::empty(),
                access_token: None,
                refresh_token: None,
                token_expires_at: None,
                user_id: None,
                username: None,
            }),
    {
        GlobalSettings {
            client_id: String::new(),
            client_secret: String::new(),
            access_token: None,
            refresh_token: None,
            token_expires_at: None,
            user_id: None,
            username: None,
        }
    }
}

/// Settings for Send Chat Message action
#[derive(Clone, Debug)]
pub struct ChatMessageSettings {
    pub message: String,
    pub button_label: Option<String>,
    pub button_image: Option<String>,
}

impl Default for ChatMessageSettings {
    fn default() -> (r: Self)
        ensures
            r.message@ == Seq::<char>::empty(),
            r.button_label is None,
            r.button_image is None,
    {
        ChatMessageSettings { message: String::new(), button_label: None, button_image: None }
    }
}

/// Ad length used when the settings give none.
pub fn default_duration_seconds() -> (r: u32)
    ensures
        r == 30,
{
    30
}

/// Slow mode delay used when the settings give none.
pub fn default_wait_seconds() -> (r: u32)
    ensures
        r == 30,
{
    30
}

/// Minimum follow time used when the settings give none.
pub fn default_follow_duration_minutes() -> (r: u32)
    ensures
        r == 10,
{
    10
}

/// Settings for Play Ad action
#[derive(Clone, Debug)]
pub struct PlayAdSettings {
    pub duration_seconds: u32,
    pub button_label: Option<String>,
    pub button_image: Option<String>,
}

impl Default for PlayAdSettings {
    fn default() -> (r: Self)
        ensures
            r.duration_seconds == 30,
            r.button_label is None,
            r.button_image is None,
    {
        PlayAdSettings { duration_seconds: default_duration_seconds(), button_label: None, button_image: None }
    }
}

/// Settings for Slow Chat action
#[derive(Clone, Debug)]
pub struct SlowChatSettings {
    pub wait_seconds: u32,
    pub button_label: Option<String>,
    pub button_image: Option<String>,
}

impl Default for SlowChatSettings {
    fn default() -> (r: Self)
        ensures
            r.wait_seconds == 30,
            r.button_label is None,
            r.button_image is None,
    {
        SlowChatSettings { wait_seconds: default_wait_seconds(), button_label: None, button_image: None }
    }
}

/// Settings for Follower-Only Chat action
#[derive(Clone, Debug)]
pub struct FollowerChatSettings {
    pub follow_duration_minutes: u32,
    pub button_label: Option<String>,
    pub button_image: Option<String>,
}

impl Default for FollowerChatSettings {
    fn default() -> (r: Self)
        ensures
            r.follow_duration_minutes == 10,
            r.button_label is None,
            r.button_image is None,
    {
        FollowerChatSettings {
            follow_duration_minutes: default_follow_duration_minutes(),
            button_label: None,
            button_image: None,
        }
    }
}

/// Settings for actions with no configuration
/// Used by: clear_chat, emote_chat, sub_chat, shield_mode, marker, clip, viewers
#[derive(Clone, Debug)]
pub struct EmptySettings {
    pub button_label: Option<String>,
    pub button_image: Option<String>,
}

impl Default for EmptySettings {
    fn default() -> (r: Self)
        ensures
            r.button_label is None,
            r.button_image is None,
    {
        EmptySettings { button_label: None, button_image: None }
    }
}

/// The map that a list of (key, value) pairs describes; a later pair wins.
pub open spec fn map_of(s: Seq<(String, String)>) -> Map<Seq<char>, Seq<char>>
    decreases s.len(),
{
    if s.len() == 0 {
        Map::empty()
    } else {
        map_of(s.drop_last()).insert(s.last().0@, s.last().1@)
    }
}

/// No key occurs twice.
pub open spec fn distinct_keys(s: Seq<(String, String)>) -> bool {
    forall|i: int, j: int| 0 <= i < s.len() && 0 <= j < s.len() && i != j ==> s[i].0@ != s[j].0@
}

proof fn lemma_map_of_lookup(s: Seq<(String, String)>, k: Seq<char>)
    requires
        distinct_keys(s),
    ensures
        map_of(s).dom().contains(k) <==> exists|i: int| 0 <= i < s.len() && s[i].0@ == k,
        forall|i: int| 0 <= i < s.len() && s[i].0@ == k ==> map_of(s)[k] == s[i].1@,
    decreases s.len(),
{
    if s.len() > 0 {
        let t = s.drop_last();
        assert(distinct_keys(t));
        lemma_map_of_lookup(t, k);
        if exists|i: int| 0 <= i < t.len() && t[i].0@ == k {
            let i = choose|i: int| 0 <= i < t.len() && t[i].0@ == k;
            assert(s[i] == t[i]);
        }
        if exists|i: int| 0 <= i < s.len() && s[i].0@ == k {
            let i = choose|i: int| 0 <= i < s.len() && s[i].0@ == k;
            if i < s.len() - 1 {
                assert(t[i] == s[i]);
            }
        }
        if map_of(s).dom().contains(k) {
            if s.last().0@ == k {
                assert(s[s.len() - 1].0@ == k);
            } else {
                assert(map_of(t).dom().contains(k));
                let i = choose|i: int| 0 <= i < t.len() && t[i].0@ == k;
                assert(s[i] == t[i]);
            }
        }
        assert forall|i: int| 0 <= i < s.len() && s[i].0@ == k implies map_of(s)[k] == s[i].1@ by {
            if i < s.len() - 1 {
                assert(s[i] == t[i]);
            }
        }
    }
}

proof fn lemma_map_of_update(s: Seq<(String, String)>, i: int, p: (String, String))
    requires
        distinct_keys(s),
        0 <= i < s.len(),
        p.0@ == s[i].0@,
    ensures
        map_of(s.update(i, p)) == map_of(s).insert(p.0@, p.1@),
        distinct_keys(s.update(i, p)),
    decreases s.len(),
{
    let u = s.update(i, p);
    let t = s.drop_last();
    if i == s.len() - 1 {
        assert(u.drop_last() =~= t);
        assert(map_of(u) =~= map_of(s).insert(p.0@, p.1@));
    } else {
        assert(distinct_keys(t));
        lemma_map_of_update(t, i, p);
        assert(u.drop_last() =~= t.update(i, p));
        assert(s.last().0@ != p.0@);
        assert(map_of(u) =~= map_of(s).insert(p.0@, p.1@));
    }
}

/// The last title shown on each button, kept so that it can be restored.
pub struct TitleCache {
    entries: Vec<(String, String)>,
}

impl View for TitleCache {
    type V = Map<Seq<char>, Seq<char>>;

    closed spec fn view(&self) -> Map<Seq<char>, Seq<char>> {
        map_of(self.entries@)
    }
}

impl TitleCache {
    #[verifier::type_invariant]
    spec fn well_formed(self) -> bool {
        distinct_keys(self.entries@)
    }

    /// An empty cache.
    pub fn new() -> (r: Self)
        ensures
            r@ == Map::<Seq<char>, Seq<char>>::empty(),
    {
        let r = TitleCache { entries: Vec::new() };
        assert(r@ =~= Map::<Seq<char>, Seq<char>>::empty());
        r
    }

    /// Position of the entry of `instance_id`.
    fn position(&self, instance_id: &str) -> (r: Option<usize>)
        ensures
            match r {
                Some(i) => i < self.entries@.len() && self.entries@[i as int].0@ == instance_id@,
                None => forall|i: int| 0 <= i < self.entries@.len() ==> self.entries@[i].0@ != instance_id@,
            },
    {
        let mut i: usize = 0;
        while i < self.entries.len()
            invariant
                i <= self.entries@.len(),
                forall|j: int| 0 <= j < i ==> self.entries@[j].0@ != instance_id@,
            decreases self.entries@.len() - i,
        {
            if same_text(self.entries[i].0.as_str(), instance_id) {
                return Some(i);
            }
            i = i + 1;
        }
        None
    }

    /// Remembers `title` as the title of button `instance_id`.
    pub fn cache_title(&mut self, instance_id: &str, title: &str)
        ensures
            final(self)@ == old(self)@.insert(instance_id@, title@),
    {
        proof {
            use_type_invariant(&*self);
        }
        let entry = (instance_id.to_owned(), title.to_owned());
        let found = self.position(instance_id);
        let mut entries: Vec<(String, String)> = Vec::new();
        std::mem::swap(&mut entries, &mut self.entries);
        let ghost old_entries = entries@;
        match found {
            Some(i) => {
                proof {
                    lemma_map_of_update(old_entries, i as int, entry);
                }
                entries.set(i, entry);
            },
            None => {
                entries.push(entry);
                assert(entries@.drop_last() =~= old_entries);
            },
        }
        self.entries = entries;
    }

    /// The cached title of button `instance_id`.
    pub fn get_cached_title(&self, instance_id: &str) -> (r: Option<String>)
        ensures
            match r {
                Some(t) => self@.dom().contains(instance_id@) && self@[instance_id@] == t@,
                None => !self@.dom().contains(instance_id@),
            },
    {
        proof {
            use_type_invariant(self);
            lemma_map_of_lookup(self.entries@, instance_id@);
        }
        match self.position(instance_id) {
            Some(i) => Some(self.entries[i].1.clone()),
            None => None,
        }
    }
}

} // verus!
