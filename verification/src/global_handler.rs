use vstd::prelude::*;

use crate::settings::{GlobalSettings, GlobalSettingsView};

verus! {

/// Handles the plugin-wide events: start-up and the global settings.
pub struct TwitchGlobalHandler;

impl TwitchGlobalHandler {
    /// The settings to hold after OpenDeck sent its global settings: the ones
    /// that could be read, else the defaults.
    pub fn received_settings(read: Option<GlobalSettings>) -> (r: GlobalSettings)
        ensures
            read matches Some(s) ==> r == s,
            read is None ==> r@ == (GlobalSettingsView {
                client_id: Seq::empty(),
                client_secret: Seq::empty(),
                access_token: None,
                refresh_token: None,
                token_expires_at: None,
                user_id: None,
                username: None,
            }),
    {
        match read {
            Some(s) => s,
            None => GlobalSettings::default(),
        }
    }
}

} // verus!
