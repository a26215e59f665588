use vstd::prelude::*;

use crate::settings::ChatMessageSettings;
use crate::twitch_api::ChatSettings;
use crate::viewers::{format_viewers, viewer_label};

verus! {

/// Sends a preset message to chat.
pub struct ChatMessageAction;

/// Clears the chat.
pub struct ClearChatAction;

/// Runs an advertisement.
pub struct PlayAdAction;

/// Shows whether the plugin is logged in.
pub struct SetupAction;

/// Settings of the setup action: none.
#[derive(Clone, Debug, Default)]
pub struct SetupSettings {}

/// Toggles Shield Mode.
pub struct ShieldModeAction;

/// Toggles slow mode.
pub struct SlowChatAction;


/// Shows the live viewer count.
pub struct ViewersAction;

/// The button state that shows a mode: 1 when on, 0 when off.
pub fn state_index(on: bool) -> (r: u16)
    ensures
        r == (if on { 1u16 } else { 0u16 }),
{
    if on {
        1
    } else {
        0
    }
}

/// Whether button state `index` shows the mode on.
pub fn shows_on(index: u16) -> (r: bool)
    ensures
        r == (index == 1),
{
    index == 1
}

/// The chat modes a button toggles.
pub enum ChatMode {
    /// Emote-only chat.
    Emote,
    /// Followers-only chat, for followers of at least this many minutes.
    Followers(u32),
    /// Subscribers-only chat.
    Subscribers,
    /// Slow mode, with this many seconds between messages.
    Slow(u32),
}

/// A change of chat settings: the members that are `Some` are sent.
pub struct ChatSettingsPatch {
    pub emote_mode: Option<bool>,
    pub follower_mode: Option<bool>,
    pub follower_mode_duration: Option<u32>,
    pub slow_mode: Option<bool>,
    pub slow_mode_wait_time: Option<u32>,
    pub subscriber_mode: Option<bool>,
}

/// The patch a press sends: the mode becomes the opposite of what the button
/// shows (`state` 1 shows it on), with its duration for followers-only and
/// slow mode; nothing else changes.
pub fn chat_mode_patch(mode: ChatMode, state: u16) -> (r: ChatSettingsPatch)
    ensures
        r.emote_mode == (if mode is Emote { Some(state != 1) } else { None::<bool> }),
        r.follower_mode == (if mode is Followers { Some(state != 1) } else { None::<bool> }),
        r.follower_mode_duration == (match mode {
            ChatMode::Followers(m) => Some(m),
            _ => None::<u32>,
        }),
        r.slow_mode == (if mode is Slow { Some(state != 1) } else { None::<bool> }),
        r.slow_mode_wait_time == (match mode {
            ChatMode::Slow(w) => Some(w),
            _ => None::<u32>,
        }),
        r.subscriber_mode == (if mode is Subscribers { Some(state != 1) } else { None::<bool> }),
{
    let on = !shows_on(state);
    let none = ChatSettingsPatch {
        emote_mode: None,
        follower_mode: None,
        follower_mode_duration: None,
        slow_mode: None,
        slow_mode_wait_time: None,
        subscriber_mode: None,
    };
    match mode {
        ChatMode::Emote => ChatSettingsPatch { emote_mode: Some(on), ..none },
        ChatMode::Followers(m) => ChatSettingsPatch { follower_mode: Some(on), follower_mode_duration: Some(m), ..none },
        ChatMode::Subscribers => ChatSettingsPatch { subscriber_mode: Some(on), ..none },
        ChatMode::Slow(w) => ChatSettingsPatch { slow_mode: Some(on), slow_mode_wait_time: Some(w), ..none },
    }
}

/// Whether chat settings `s` have `mode` on.
pub fn mode_is_on(mode: &ChatMode, s: &ChatSettings) -> (r: bool)
    ensures
        r == match mode {
            ChatMode::Emote => s.emote_mode,
            ChatMode::Followers(_) => s.follower_mode,
            ChatMode::Subscribers => s.subscriber_mode,
            ChatMode::Slow(_) => s.slow_mode,
        },
{
    match mode {
        ChatMode::Emote => s.emote_mode,
        ChatMode::Followers(_) => s.follower_mode,
        ChatMode::Subscribers => s.subscriber_mode,
        ChatMode::Slow(_) => s.slow_mode,
    }
}

/// What an action's API call returned.
#[derive(Clone, Copy)]
pub enum CallResult {
    /// The call succeeded.
    Done,
    /// The token was refused (status 401).
    Unauthorized,
    /// The call failed otherwise.
    Failed,
}

/// Where a key press stands.
#[derive(Clone, Copy)]
pub enum PressStage {
    /// Waiting for the credentials.
    AwaitingCredentials,
    /// The first API call is under way.
    AwaitingCall,
    /// The token was refused; a refresh is under way.
    AwaitingRefresh,
    /// The call is retried with the refreshed token.
    AwaitingRetry,
    /// The press is handled.
    Finished,
}

/// What happened since the last step.
pub enum PressEvent {
    /// The credentials, if any could be had.
    Credentials(Option<(String, String, String)>),
    /// The API call returned.
    Called(CallResult),
    /// The refresh after a refused token returned these credentials, if it succeeded.
    Refreshed(Option<(String, String, String)>),
}

/// What to do next.
pub enum PressAction {
    /// Make the API call with these credentials.
    Call((String, String, String)),
    /// Refresh the refused token.
    Refresh,
    /// The press succeeded: show it.
    Succeed,
    /// The press failed: show an alert.
    Alert,
    /// No credentials could be had: show an alert (after asking for a login).
    NoCredentials,
    /// The event does not belong to this stage: nothing to do.
    Ignore,
}

/// The kinds of events, without their data.
pub enum EventKind {
    CredentialsFound,
    CredentialsMissing,
    Called(CallResult),
    RefreshSucceeded,
    RefreshFailed,
}

/// The kinds of actions, without their data.
pub enum ActionKind {
    Call,
    Refresh,
    Succeed,
    Alert,
    NoCredentials,
    Ignore,
}

pub open spec fn event_kind(e: PressEvent) -> EventKind {
    match e {
        PressEvent::Credentials(Some(_)) => EventKind::CredentialsFound,
        PressEvent::Credentials(None) => EventKind::CredentialsMissing,
        PressEvent::Called(c) => EventKind::Called(c),
        PressEvent::Refreshed(Some(_)) => EventKind::RefreshSucceeded,
        PressEvent::Refreshed(None) => EventKind::RefreshFailed,
    }
}

pub open spec fn action_kind(a: PressAction) -> ActionKind {
    match a {
        PressAction::Call(_) => ActionKind::Call,
        PressAction::Refresh => ActionKind::Refresh,
        PressAction::Succeed => ActionKind::Succeed,
        PressAction::Alert => ActionKind::Alert,
        PressAction::NoCredentials => ActionKind::NoCredentials,
        PressAction::Ignore => ActionKind::Ignore,
    }
}

/// The transition of a key press: from `stage`, on an event of kind `e`, to the
/// next stage, with the kind of action to take. A refused token is refreshed
/// and the call retried once when `retry` is set; otherwise it fails the press.
pub open spec fn press_step(stage: PressStage, retry: bool, e: EventKind) -> (PressStage, ActionKind) {
    match (stage, e) {
        (PressStage::AwaitingCredentials, EventKind::CredentialsFound) => (PressStage::AwaitingCall, ActionKind::Call),
        (PressStage::AwaitingCredentials, EventKind::CredentialsMissing) => (PressStage::Finished, ActionKind::NoCredentials),
        (PressStage::AwaitingCall, EventKind::Called(CallResult::Done)) => (PressStage::Finished, ActionKind::Succeed),
        (PressStage::AwaitingCall, EventKind::Called(CallResult::Unauthorized)) => if retry {
            (PressStage::AwaitingRefresh, ActionKind::Refresh)
        } else {
            (PressStage::Finished, ActionKind::Alert)
        },
        (PressStage::AwaitingCall, EventKind::Called(CallResult::Failed)) => (PressStage::Finished, ActionKind::Alert),
        (PressStage::AwaitingRefresh, EventKind::RefreshSucceeded) => (PressStage::AwaitingRetry, ActionKind::Call),
        (PressStage::AwaitingRefresh, EventKind::RefreshFailed) => (PressStage::Finished, ActionKind::Alert),
        (PressStage::AwaitingRetry, EventKind::Called(CallResult::Done)) => (PressStage::Finished, ActionKind::Succeed),
        (PressStage::AwaitingRetry, EventKind::Called(_)) => (PressStage::Finished, ActionKind::Alert),
        (s, _) => (s, ActionKind::Ignore),
    }
}

/// A key press of an action that calls the Twitch API.
pub struct KeyPress {
    pub stage: PressStage,
    /// Whether a refused token is refreshed and the call retried once.
    pub retry: bool,
}

impl KeyPress {
    /// A press that waits for its credentials.
    pub fn new(retry: bool) -> (r: Self)
        ensures
            r.stage == PressStage::AwaitingCredentials,
            r.retry == retry,
    {
        KeyPress { stage: PressStage::AwaitingCredentials, retry }
    }

    /// Takes the event into account and says what to do next. A call is made
    /// with the credentials the event brought.
    pub fn step(&mut self, event: PressEvent) -> (r: PressAction)
        ensures
            (final(self).stage, action_kind(r)) == press_step(old(self).stage, old(self).retry, event_kind(event)),
            final(self).retry == old(self).retry,
            r matches PressAction::Call(c) ==> (event == PressEvent::Credentials(Some(c))
                || event == PressEvent::Refreshed(Some(c))),
            (old(self).stage is AwaitingCall || old(self).stage is AwaitingRetry) && event
                == PressEvent::Called(CallResult::Failed) ==> r is Alert && final(self).stage is Finished,
            old(self).stage is AwaitingCall && event == PressEvent::Called(CallResult::Done) ==> r is Succeed
                && final(self).stage is Finished,
            old(self).stage is Finished ==> r is Ignore && final(self).stage is Finished,
    {
        let stage = self.stage;
        self.stage = PressStage::Finished;
        match (stage, event) {
            (PressStage::AwaitingCredentials, PressEvent::Credentials(Some(c))) => {
                self.stage = PressStage::AwaitingCall;
                PressAction::Call(c)
            },
            (PressStage::AwaitingCredentials, PressEvent::Credentials(None)) => PressAction::NoCredentials,
            (PressStage::AwaitingCall, PressEvent::Called(CallResult::Done)) => PressAction::Succeed,
            (PressStage::AwaitingCall, PressEvent::Called(CallResult::Unauthorized)) => {
                if self.retry {
                    self.stage = PressStage::AwaitingRefresh;
                    PressAction::Refresh
                } else {
                    PressAction::Alert
                }
            },
            (PressStage::AwaitingCall, PressEvent::Called(CallResult::Failed)) => PressAction::Alert,
            (PressStage::AwaitingRefresh, PressEvent::Refreshed(Some(c))) => {
                self.stage = PressStage::AwaitingRetry;
                PressAction::Call(c)
            },
            (PressStage::AwaitingRefresh, PressEvent::Refreshed(None)) => PressAction::Alert,
            (PressStage::AwaitingRetry, PressEvent::Called(CallResult::Done)) => PressAction::Succeed,
            (PressStage::AwaitingRetry, PressEvent::Called(_)) => PressAction::Alert,
            (s, _) => {
                self.stage = s;
                PressAction::Ignore
            },
        }
    }
}

impl ChatMessageAction {
    pub const UUID: &'static str = "io.pngz.twitch.chatmessage";

    /// The message a press sends; `None` (an alert) when none is configured.
    pub fn message_to_send(settings: &ChatMessageSettings) -> (r: Option<String>)
        ensures
            settings.message@.len() == 0 ==> r is None,
            settings.message@.len() > 0 ==> (r matches Some(m) && m@ == settings.message@),
    {
        if settings.message.as_str().is_empty() {
            None
        } else {
            Some(settings.message.clone())
        }
    }

    /// A press: a refused token is refreshed and the message sent again.
    pub fn key_press() -> (r: KeyPress)
        ensures
            r.stage == PressStage::AwaitingCredentials,
            r.retry,
    {
        KeyPress::new(true)
    }
}

impl ClearChatAction {
    pub const UUID: &'static str = "io.pngz.twitch.clearchat";

    /// A press: a refused token fails it.
    pub fn key_press() -> (r: KeyPress)
        ensures
            r.stage == PressStage::AwaitingCredentials,
            !r.retry,
    {
        KeyPress::new(false)
    }
}

impl PlayAdAction {
    pub const UUID: &'static str = "io.pngz.twitch.playad";

    /// A press: a refused token fails it.
    pub fn key_press() -> (r: KeyPress)
        ensures
            r.stage == PressStage::AwaitingCredentials,
            !r.retry,
    {
        KeyPress::new(false)
    }
}

impl SetupAction {
    pub const UUID: &'static str = "io.pngz.twitch.setup";
}

impl ShieldModeAction {
    pub const UUID: &'static str = "io.pngz.twitch.shieldmode";

    /// The Shield Mode a press asks for: the opposite of what the button shows.
    pub fn target(state: u16) -> (r: bool)
        ensures
            r == (state != 1),
    {
        !shows_on(state)
    }

    /// A press: a refused token is refreshed and the change asked again.
    pub fn key_press() -> (r: KeyPress)
        ensures
            r.stage == PressStage::AwaitingCredentials,
            r.retry,
    {
        KeyPress::new(true)
    }
}

impl SlowChatAction {
    pub const UUID: &'static str = "dev.penguin.twitch.slowchat";

    /// A press: a refused token fails it.
    pub fn key_press() -> (r: KeyPress)
        ensures
            r.stage == PressStage::AwaitingCredentials,
            !r.retry,
    {
        KeyPress::new(false)
    }
}

impl ViewersAction {
    pub const UUID: &'static str = "io.pngz.twitch.viewers";

    /// Seconds between two updates of the count.
    pub const REFRESH_SECONDS: u64 = 30;
}

/// What a viewer count lookup found.
pub enum ViewerLookup {
    /// No credentials could be had.
    NoCredentials,
    /// The API call failed.
    Failed,
    /// The channel is not live.
    Offline,
    /// The channel is live with this many viewers.
    Live(u32),
}

/// The title the viewer button gets after a lookup, if it changes: when the
/// button appears, "N/A" without credentials or on failure; on a periodic
/// update, no change then. A count of 0 when the channel is offline, else the
/// count label.
pub fn viewer_title(lookup: ViewerLookup, periodic: bool) -> (r: Option<String>)
    ensures
        match lookup {
            ViewerLookup::NoCredentials | ViewerLookup::Failed => if periodic {
                r is None
            } else {
                r matches Some(t) && t@ == "N/A"@
            },
            ViewerLookup::Offline => r matches Some(t) && t@ == viewer_label(0),
            ViewerLookup::Live(n) => r matches Some(t) && t@ == viewer_label(n as nat),
        },
{
    match lookup {
        ViewerLookup::NoCredentials | ViewerLookup::Failed => {
            if periodic {
                None
            } else {
                Some("N/A".to_owned())
            }
        },
        ViewerLookup::Offline => Some(format_viewers(0)),
        ViewerLookup::Live(n) => Some(format_viewers(n)),
    }
}

} // verus!
