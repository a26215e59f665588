use vstd::prelude::*;

use crate::auth::{
    apply_refreshed_token, checked_token_expiry, cleared, cleared_tokens, credentials_view, expiry_fits, refreshed,
    settings_with_token, stored, TokenResponse, ValidateResponse,
};
use crate::settings::{opt_text, GlobalSettings, GlobalSettingsView, BUTTON_LABEL_MAX};
use crate::text::{has_char, same_text};

verus! {

/// Index of the first `'\n'` of `s` at or after `from`; the length of `s` when there is none.
pub open spec fn next_newline(s: Seq<char>, from: int) -> int
    decreases s.len() - from,
{
    if from >= s.len() || from < 0 {
        s.len() as int
    } else if s[from] == '\n' {
        from
    } else {
        next_newline(s, from + 1)
    }
}

/// A line without the `'\r'` that stood before its `'\n'`.
pub open spec fn strip_cr(l: Seq<char>) -> Seq<char> {
    if l.len() > 0 && l.last() == '\r' {
        l.drop_last()
    } else {
        l
    }
}

pub proof fn lemma_next_newline_bounds(s: Seq<char>, from: int)
    requires
        0 <= from,
    ensures
        from <= next_newline(s, from) <= s.len() || (from > s.len() && next_newline(s, from) == s.len()),
        next_newline(s, from) < s.len() ==> s[next_newline(s, from)] == '\n',
        forall|j: int| from <= j < next_newline(s, from) ==> s[j] != '\n',
    decreases s.len() - from,
{
    if from < s.len() && s[from] != '\n' {
        lemma_next_newline_bounds(s, from + 1);
    }
}

/// The lines of `s` as `str::lines` yields them: split after each `'\n'`,
/// without the `'\n'` or a `'\r'` just before it; the text after the last
/// `'\n'` is a line when it is not empty.
pub open spec fn text_lines(s: Seq<char>) -> Seq<Seq<char>>
    decreases s.len(),
{
    if s.len() == 0 {
        seq![]
    } else {
        let i = next_newline(s, 0);
        if i >= s.len() {
            seq![s]
        } else {
            proof {
                lemma_next_newline_bounds(s, 0);
            }
            seq![strip_cr(s.take(i))] + text_lines(s.skip(i + 1))
        }
    }
}

/// At most the first `BUTTON_LABEL_MAX` characters of a line.
pub open spec fn clip_line(l: Seq<char>) -> Seq<char> {
    if l.len() <= BUTTON_LABEL_MAX {
        l
    } else {
        l.take(BUTTON_LABEL_MAX as int)
    }
}

/// The button label made of a raw title: its first two lines, each cut to
/// `BUTTON_LABEL_MAX` characters, joined by `'\n'`.
pub open spec fn label_of(raw: Seq<char>) -> Seq<char> {
    let ls = text_lines(raw);
    if ls.len() == 0 {
        seq![]
    } else if ls.len() == 1 {
        clip_line(ls[0])
    } else {
        clip_line(ls[0]) + seq!['\n'] + clip_line(ls[1])
    }
}

proof fn lemma_next_newline_skip(s: Seq<char>, k: int, j: int)
    requires
        0 <= k <= s.len(),
        0 <= j,
    ensures
        next_newline(s.skip(k), j) == next_newline(s, k + j) - k,
    decreases s.len() - (k + j),
{
    if k + j < s.len() && s[k + j] != '\n' {
        lemma_next_newline_skip(s, k, j + 1);
    }
}

/// `next_newline(s@, from)`.
fn find_newline(s: &str, n: usize, from: usize) -> (r: usize)
    requires
        n == s@.len(),
        from <= n,
    ensures
        r == next_newline(s@, from as int),
        from <= r <= n,
{
    let mut i = from;
    while i < n
        invariant
            n == s@.len(),
            from <= i <= n,
            next_newline(s@, from as int) == next_newline(s@, i as int),
        decreases n - i,
    {
        if s.get_char(i) == '\n' {
            return i;
        }
        i = i + 1;
    }
    i
}

/// End of the line that starts at `start` and stops before the `'\n'` at
/// `stop` (or at the end): a `'\r'` just before that `'\n'` is left out.
fn line_end(s: &str, n: usize, start: usize, stop: usize) -> (r: usize)
    requires
        n == s@.len(),
        start <= stop <= n,
    ensures
        start <= r <= stop,
        s@.subrange(start as int, r as int) == (if stop < n {
            strip_cr(s@.subrange(start as int, stop as int))
        } else {
            s@.subrange(start as int, stop as int)
        }),
{
    if stop < n && stop > start && s.get_char(stop - 1) == '\r' {
        assert(s@.subrange(start as int, (stop - 1) as int) =~= s@.subrange(start as int, stop as int).drop_last());
        stop - 1
    } else {
        stop
    }
}

/// Appends the line `s[start..end]`, cut to `BUTTON_LABEL_MAX` characters.
fn push_clipped(out: &mut String, s: &str, n: usize, start: usize, end: usize)
    requires
        n == s@.len(),
        start <= end <= n,
    ensures
        final(out)@ == old(out)@ + clip_line(s@.subrange(start as int, end as int)),
{
    let len = end - start;
    let stop = if len <= BUTTON_LABEL_MAX { end } else { start + BUTTON_LABEL_MAX };
    let piece = s.substring_char(start, stop);
    assert(piece@ =~= clip_line(s@.subrange(start as int, end as int)));
    out.append(piece);
}

/// The button label for a raw title typed in the property inspector: the first
/// two lines, each cut to `BUTTON_LABEL_MAX` characters, joined by a newline.
pub fn normalize_title(raw: &str) -> (r: String)
    ensures
        r@ == label_of(raw@),
{
    let n = raw.unicode_len();
    let mut out = String::new();
    if n == 0 {
        assert(text_lines(raw@) =~= seq![]);
        return out;
    }
    let ghost s = raw@;
    let i1 = find_newline(raw, n, 0);
    let e1 = line_end(raw, n, 0, i1);
    push_clipped(&mut out, raw, n, 0, e1);
    proof {
        lemma_next_newline_bounds(s, 0);
        assert(s.take(i1 as int) =~= s.subrange(0, i1 as int));
        assert(s.subrange(0, n as int) =~= s);
    }
    if i1 < n - 1 {
        let start = i1 + 1;
        let i2 = find_newline(raw, n, start);
        let e2 = line_end(raw, n, start, i2);
        out.append("\n");
        proof {
            reveal_strlit("\n");
        }
        push_clipped(&mut out, raw, n, start, e2);
        proof {
            let rest = s.skip(start as int);
            lemma_next_newline_skip(s, start as int, 0);
            assert(next_newline(rest, 0) == i2 - start);
            if i2 < n {
                assert(rest.take(i2 - start) =~= s.subrange(start as int, i2 as int));
            } else {
                assert(rest =~= s.subrange(start as int, n as int));
            }
            assert(text_lines(s)[1] == text_lines(rest)[0]);
        }
    } else {
        proof {
            if i1 < n {
                assert(s.skip(i1 + 1) =~= Seq::<char>::empty());
                assert(text_lines(s.skip(i1 + 1)) =~= Seq::<Seq<char>>::empty());
                assert(text_lines(s) =~= seq![strip_cr(s.take(i1 as int))]);
            }
        }
    }
    out
}

/// How a button title is shown.
pub enum TitlePlan {
    /// No title: the title is cleared.
    Clear,
    /// The title in bold white, 10 points and centred when it has several
    /// lines, else 14 points at the bottom.
    Styled { text: String, font_size: u32, alignment: String },
}

/// How `title` is shown: cleared when absent or empty, else styled by its line count.
pub fn title_plan(title: Option<&str>) -> (r: TitlePlan)
    ensures
        match title {
            None => r is Clear,
            Some(t) => if t@.len() == 0 {
                r is Clear
            } else {
                r matches TitlePlan::Styled { text, font_size, alignment } && text@ == t@ && if t@.contains('\n') {
                    font_size == 10 && alignment@ == "middle"@
                } else {
                    font_size == 14 && alignment@ == "bottom"@
                }
            },
        },
{
    match title {
        None => TitlePlan::Clear,
        Some(t) => {
            if t.is_empty() {
                TitlePlan::Clear
            } else if has_char(t, '\n') {
                TitlePlan::Styled { text: t.to_owned(), font_size: 10, alignment: "middle".to_owned() }
            } else {
                TitlePlan::Styled { text: t.to_owned(), font_size: 14, alignment: "bottom".to_owned() }
            }
        },
    }
}

/// `Some` of a non-empty text, `None` of the empty one.
pub open spec fn non_empty(t: Seq<char>) -> Option<Seq<char>> {
    if t.len() == 0 {
        None
    } else {
        Some(t)
    }
}

/// The text itself unless it is empty.
pub fn optional_text(t: &str) -> (r: Option<String>)
    ensures
        opt_text(r) == non_empty(t@),
{
    if t.is_empty() {
        None
    } else {
        Some(t.to_owned())
    }
}

/// The title restored when a button appears: the label of its settings when
/// it is not empty, else the cached title when it is not empty.
pub fn restored_title(label: Option<&str>, cached: Option<&str>) -> (r: Option<String>)
    ensures
        match label {
            Some(l) if l@.len() > 0 => opt_text(r) == Some(l@),
            _ => match cached {
                Some(c) => opt_text(r) == non_empty(c@),
                None => r is None,
            },
        },
{
    if let Some(l) = label {
        if !l.is_empty() {
            return Some(l.to_owned());
        }
    }
    match cached {
        Some(c) => optional_text(c),
        None => None,
    }
}

/// The image data sent for a button: the given data, else the empty text.
pub fn image_data(image: Option<&str>) -> (r: String)
    ensures
        r@ == match image {
            Some(i) => i@,
            None => Seq::empty(),
        },
{
    match image {
        Some(i) => i.to_owned(),
        None => String::new(),
    }
}

/// The messages the property inspector sends about authentication and the button.
pub enum AuthMessage {
    StartAuth,
    SaveCredentials,
    GetAuthStatus,
    Logout,
    SetTitle,
    SetImage,
    /// Any other event, or none: ignored.
    Other,
}

pub open spec fn auth_message_of(event: Seq<char>) -> AuthMessage {
    if event == "start_auth"@ {
        AuthMessage::StartAuth
    } else if event == "save_credentials"@ {
        AuthMessage::SaveCredentials
    } else if event == "get_auth_status"@ {
        AuthMessage::GetAuthStatus
    } else if event == "force_reauth"@ || event == "logout"@ {
        AuthMessage::Logout
    } else if event == "set_title"@ {
        AuthMessage::SetTitle
    } else if event == "set_image"@ {
        AuthMessage::SetImage
    } else {
        AuthMessage::Other
    }
}

/// The message named by the `event` member of a payload (the empty text when absent).
pub fn classify_auth_message(event: Option<&str>) -> (r: AuthMessage)
    ensures
        r == auth_message_of(match event {
            Some(e) => e@,
            None => Seq::empty(),
        }),
{
    let e = match event {
        Some(e) => e,
        None => "",
    };
    proof {
        reveal_strlit("");
        assert(e@ =~= match event {
            Some(e) => e@,
            None => Seq::empty(),
        });
    }
    if same_text(e, "start_auth") {
        AuthMessage::StartAuth
    } else if same_text(e, "save_credentials") {
        AuthMessage::SaveCredentials
    } else if same_text(e, "get_auth_status") {
        AuthMessage::GetAuthStatus
    } else if same_text(e, "force_reauth") || same_text(e, "logout") {
        AuthMessage::Logout
    } else if same_text(e, "set_title") {
        AuthMessage::SetTitle
    } else if same_text(e, "set_image") {
        AuthMessage::SetImage
    } else {
        AuthMessage::Other
    }
}

/// Saves new client credentials; `None` (nothing saved) when the client id is empty.
pub fn credentials_update(settings: GlobalSettings, client_id: &str, client_secret: &str) -> (r: Option<GlobalSettings>)
    ensures
        client_id@.len() == 0 ==> r is None,
        client_id@.len() > 0 ==> (r matches Some(u) && u@ == GlobalSettingsView {
            client_id: client_id@,
            client_secret: client_secret@,
            ..settings@
        }),
{
    if client_id.is_empty() {
        None
    } else {
        Some(GlobalSettings { client_id: client_id.to_owned(), client_secret: client_secret.to_owned(), ..settings })
    }
}

/// Checks that the client credentials needed for a login are set.
pub fn check_flow_credentials(client_id: &str, client_secret: &str) -> (r: Result<(), String>)
    ensures
        client_id@.len() == 0 ==> (r matches Err(m)
            && m@ == "Client ID not set. Enter your Twitch Application credentials first."@),
        client_id@.len() > 0 && client_secret@.len() == 0 ==> (r matches Err(m)
            && m@ == "Client Secret not set. Enter your Twitch Application credentials first."@),
        client_id@.len() > 0 && client_secret@.len() > 0 ==> r is Ok,
{
    if client_id.is_empty() {
        return Err("Client ID not set. Enter your Twitch Application credentials first.".to_owned());
    }
    if client_secret.is_empty() {
        return Err("Client Secret not set. Enter your Twitch Application credentials first.".to_owned());
    }
    Ok(())
}

/// The authentication status shown in the property inspector.
pub struct AuthStatus {
    pub authenticated: bool,
    pub username: Option<String>,
    pub client_id: String,
}

/// Whether `st` reports the given values.
pub open spec fn reports(st: AuthStatus, authenticated: bool, username: Option<Seq<char>>, client_id: Seq<char>) -> bool {
    st.authenticated == authenticated && opt_text(st.username) == username && st.client_id@ == client_id
}

/// Logs out: forgets the tokens, keeping the client credentials, and gives the
/// status to show.
pub fn logged_out(settings: GlobalSettings) -> (r: (GlobalSettings, AuthStatus))
    ensures
        r.0@ == cleared(settings@),
        reports(r.1, false, None, settings@.client_id),
{
    let client_id = settings.client_id.clone();
    (cleared_tokens(settings), AuthStatus { authenticated: false, username: None, client_id })
}

/// The next step of the status check that the property inspector asks for.
pub enum StatusStep {
    /// Validate this access token.
    Validate(String),
    /// Validation failed: refresh with this refresh token.
    Refresh(String),
    /// Validate the access token of this freshly refreshed token.
    Revalidate(TokenResponse),
    /// Send this status.
    Report(AuthStatus),
    /// Forget the tokens, then send this status.
    ClearAndReport(AuthStatus),
    /// Save these settings, then send this status.
    SaveAndReport(GlobalSettings, AuthStatus),
}

/// First step of the status check: validate the stored token when authenticated.
pub fn status_check_start(settings: &GlobalSettings) -> (r: StatusStep)
    ensures
        settings@.authenticated() ==> (r matches StatusStep::Validate(t) && settings@.access_token == Some(t@)),
        !settings@.authenticated() ==> (r matches StatusStep::Report(st) && reports(st, false, None, settings@.client_id)),
{
    if settings.is_authenticated() {
        if let Some(t) = &settings.access_token {
            return StatusStep::Validate(t.clone());
        }
    }
    StatusStep::Report(AuthStatus { authenticated: false, username: None, client_id: settings.client_id.clone() })
}

/// Step after validating the stored token: report the user on success, else
/// refresh when a refresh token is held, else forget the tokens.
pub fn status_after_validation(settings: &GlobalSettings, validated: Option<ValidateResponse>) -> (r: StatusStep)
    ensures
        validated matches Some(v) ==> (r matches StatusStep::Report(st) && reports(st, true, Some(v.login@), settings@.client_id)),
        validated is None ==> match settings@.refresh_token {
            Some(rt) => r matches StatusStep::Refresh(t) && t@ == rt,
            None => r matches StatusStep::ClearAndReport(st) && reports(st, false, None, settings@.client_id),
        },
{
    match validated {
        Some(v) => StatusStep::Report(AuthStatus { authenticated: true, username: Some(v.login), client_id: settings.client_id.clone() }),
        None => match &settings.refresh_token {
            Some(rt) => StatusStep::Refresh(rt.clone()),
            None => StatusStep::ClearAndReport(AuthStatus { authenticated: false, username: None, client_id: settings.client_id.clone() }),
        },
    }
}

/// Step after the refresh: validate the new token, else forget the tokens.
pub fn status_after_refresh(settings: &GlobalSettings, token: Option<TokenResponse>) -> (r: StatusStep)
    ensures
        token matches Some(t) ==> r == StatusStep::Revalidate(t),
        token is None ==> (r matches StatusStep::ClearAndReport(st) && reports(st, false, None, settings@.client_id)),
{
    match token {
        Some(t) => StatusStep::Revalidate(t),
        None => StatusStep::ClearAndReport(AuthStatus { authenticated: false, username: None, client_id: settings.client_id.clone() }),
    }
}

/// Step after validating the refreshed token, with the clock reading `now`:
/// on success store it with the user, expiring `now` plus its lifetime, and
/// report the user; otherwise forget the tokens. The tokens are forgotten too
/// when the clock could not be read or the expiry does not fit an `i64`.
pub fn status_after_revalidation(
    settings: GlobalSettings,
    token: TokenResponse,
    validated: Option<ValidateResponse>,
    now: Option<i64>,
) -> (r: StatusStep)
    ensures
        match (validated, now) {
            (Some(v), Some(t)) if expiry_fits(t, token.expires_in) => r matches StatusStep::SaveAndReport(u, st)
                && u@ == stored(settings@, token, v, t) && reports(st, true, Some(v.login@), settings@.client_id),
            _ => r matches StatusStep::ClearAndReport(st) && reports(st, false, None, settings@.client_id),
        },
{
    let client_id = settings.client_id.clone();
    let failed = AuthStatus { authenticated: false, username: None, client_id: settings.client_id.clone() };
    match (validated, now) {
        (Some(v), Some(t)) => {
            if checked_token_expiry(t, token.expires_in).is_some() {
                let login = v.login.clone();
                let u = settings_with_token(settings, token, v, t);
                StatusStep::SaveAndReport(u, AuthStatus { authenticated: true, username: Some(login), client_id })
            } else {
                StatusStep::ClearAndReport(failed)
            }
        },
        _ => StatusStep::ClearAndReport(failed),
    }
}

/// The steps of renewing credentials after the API refused a token.
pub enum RefreshStep {
    /// Refresh with this refresh token.
    Refresh(String),
    /// Save these settings and retry with these credentials.
    Renewed(GlobalSettings, (String, String, String)),
    /// The credentials cannot be renewed: forget the tokens and ask for a login.
    GiveUp,
}

/// First step after a refused token: refresh when a refresh token is held.
pub fn refresh_after_refusal(settings: &GlobalSettings) -> (r: RefreshStep)
    ensures
        match settings@.refresh_token {
            Some(rt) => r matches RefreshStep::Refresh(t) && t@ == rt,
            None => r is GiveUp,
        },
{
    match &settings.refresh_token {
        Some(rt) => RefreshStep::Refresh(rt.clone()),
        None => RefreshStep::GiveUp,
    }
}

/// Step after the refresh, with the clock reading `now`: store the new token
/// and hand out the renewed credentials (new access token, stored user id or
/// the empty text, client id); give up when the refresh failed, the clock
/// could not be read, or the expiry does not fit an `i64`.
pub fn refresh_result(settings: GlobalSettings, token: Option<TokenResponse>, now: Option<i64>) -> (r: RefreshStep)
    ensures
        match (token, now) {
            (Some(tok), Some(t)) if expiry_fits(t, tok.expires_in) => r matches RefreshStep::Renewed(u, c)
                && u@ == refreshed(settings@, tok, t)
                && credentials_view(c) == (tok.access_token@, settings@.user_id.unwrap_or(Seq::empty()), settings@.client_id),
            _ => r is GiveUp,
        },
{
    match (token, now) {
        (Some(tok), Some(t)) => {
            if checked_token_expiry(t, tok.expires_in).is_some() {
                let (u, c) = apply_refreshed_token(settings, tok, t);
                RefreshStep::Renewed(u, c)
            } else {
                RefreshStep::GiveUp
            }
        },
        _ => RefreshStep::GiveUp,
    }
}

} // verus!
