use vstd::prelude::*;

use crate::clock::{unix_time, TIMESTAMP_BOUND};
use crate::json::{json_text, json_text_member, json_text_of, read_json_text_member};
use crate::settings::{opt_text, GlobalSettings, GlobalSettingsView};
use crate::text::same_text;

verus! {

/// The OAuth scopes the plugin asks for.
pub const SCOPES: &'static str = "moderator:manage:chat_settings user:write:chat moderator:manage:chat_messages user:edit:broadcast clips:edit channel:edit:commercial moderator:manage:shield_mode";

/// Answer of the device authorization endpoint.
#[derive(Clone, Debug)]
pub struct DeviceCodeResponse {
    pub device_code: String,
    pub user_code: String,
    pub verification_uri: String,
    pub expires_in: u64,
    pub interval: u64,
}

/// Answer of the token endpoint.
#[derive(Clone, Debug)]
pub struct TokenResponse {
    pub access_token: String,
    pub refresh_token: Option<String>,
    pub expires_in: Option<i64>,
    pub scope: Option<Vec<String>>,
    pub token_type: Option<String>,
}

/// Answer of the token validation endpoint.
#[derive(Clone, Debug)]
pub struct ValidateResponse {
    pub user_id: String,
    pub login: String,
    pub expires_in: i64,
}

/// Failures of the authentication flow.
#[derive(Debug)]
pub enum AuthError {
    /// The HTTP exchange failed; the text describes the transport error.
    Http(String),
    Api(String),
    Pending,
    SlowDown,
    Expired,
}

/// The text with which an [`AuthError`] is shown.
pub open spec fn auth_error_text(e: AuthError) -> Seq<char> {
    match e {
        AuthError::Http(t) => "HTTP error: "@ + t@,
        AuthError::Api(m) => "API error: "@ + m@,
        AuthError::Pending => "Authorization pending"@,
        AuthError::SlowDown => "Slow down"@,
        AuthError::Expired => "Token expired"@,
    }
}

impl AuthError {
    /// The text with which the error is shown.
    pub fn message(&self) -> (r: String)
        ensures
            r@ == auth_error_text(*self),
    {
        match self {
            AuthError::Http(t) => {
                let mut r = "HTTP error: ".to_owned();
                r.append(t.as_str());
                r
            },
            AuthError::Api(m) => {
                let mut r = "API error: ".to_owned();
                r.append(m.as_str());
                r
            },
            AuthError::Pending => "Authorization pending".to_owned(),
            AuthError::SlowDown => "Slow down".to_owned(),
            AuthError::Expired => "Token expired".to_owned(),
        }
    }
}

/// The requests of the flow whose refusal is reported with the body text.
pub enum AuthRequest {
    DeviceFlow,
    Refresh,
    Validate,
}

pub open spec fn refusal_prefix(req: AuthRequest) -> Seq<char> {
    match req {
        AuthRequest::DeviceFlow => "Failed to start device flow: "@,
        AuthRequest::Refresh => "Failed to refresh token: "@,
        AuthRequest::Validate => "Failed to validate token: "@,
    }
}

/// The error for a non-success answer to `req` whose body reads `body`.
pub fn refusal(req: AuthRequest, body: &str) -> (r: AuthError)
    ensures
        r matches AuthError::Api(m) && m@ == refusal_prefix(req) + body@,
{
    let mut m = match req {
        AuthRequest::DeviceFlow => "Failed to start device flow: ".to_owned(),
        AuthRequest::Refresh => "Failed to refresh token: ".to_owned(),
        AuthRequest::Validate => "Failed to validate token: ".to_owned(),
    };
    m.append(body);
    AuthError::Api(m)
}

/// The view of a form: its name-value pairs in order.
pub open spec fn form_view(f: Vec<(String, String)>) -> Seq<(Seq<char>, Seq<char>)> {
    f@.map_values(|p: (String, String)| (p.0@, p.1@))
}

fn pair(name: &str, value: &str) -> (r: (String, String))
    ensures
        r.0@ == name@,
        r.1@ == value@,
{
    (name.to_owned(), value.to_owned())
}

/// Form that starts the device code flow.
pub fn device_flow_form(client_id: &str) -> (r: Vec<(String, String)>)
    ensures
        form_view(r) == seq![("client_id"@, client_id@), ("scopes"@, SCOPES@)],
{
    let mut f = Vec::new();
    f.push(pair("client_id", client_id));
    f.push(pair("scopes", SCOPES));
    assert(form_view(f) =~= seq![("client_id"@, client_id@), ("scopes"@, SCOPES@)]);
    f
}

/// The grant type of the device code flow.
pub const DEVICE_GRANT: &'static str = "urn:ietf:params:oauth:grant-type:device_code";

/// Form that asks the token endpoint whether the device code was authorized.
pub fn device_token_form(client_id: &str, client_secret: &str, device_code: &str) -> (r: Vec<(String, String)>)
    ensures
        form_view(r) == seq![
            ("client_id"@, client_id@),
            ("client_secret"@, client_secret@),
            ("device_code"@, device_code@),
            ("grant_type"@, DEVICE_GRANT@),
        ],
{
    let mut f = Vec::new();
    f.push(pair("client_id", client_id));
    f.push(pair("client_secret", client_secret));
    f.push(pair("device_code", device_code));
    f.push(pair("grant_type", DEVICE_GRANT));
    assert(form_view(f) =~= seq![
        ("client_id"@, client_id@),
        ("client_secret"@, client_secret@),
        ("device_code"@, device_code@),
        ("grant_type"@, DEVICE_GRANT@),
    ]);
    f
}

/// Form that exchanges a refresh token for a new access token.
pub fn refresh_form(client_id: &str, refresh_token: &str) -> (r: Vec<(String, String)>)
    ensures
        form_view(r) == seq![
            ("client_id"@, client_id@),
            ("refresh_token"@, refresh_token@),
            ("grant_type"@, "refresh_token"@),
        ],
{
    let mut f = Vec::new();
    f.push(pair("client_id", client_id));
    f.push(pair("refresh_token", refresh_token));
    f.push(pair("grant_type", "refresh_token"));
    assert(form_view(f) =~= seq![
        ("client_id"@, client_id@),
        ("refresh_token"@, refresh_token@),
        ("grant_type"@, "refresh_token"@),
    ]);
    f
}

/// The `Authorization` header value of a validation request.
pub fn validation_authorization(access_token: &str) -> (r: String)
    ensures
        r@ == "OAuth "@ + access_token@,
{
    let mut r = "OAuth ".to_owned();
    r.append(access_token);
    r
}

/// The error code of a refused poll, from the string members `error` and
/// `message` of its body: the first of them that is present, else the empty text.
pub open spec fn refusal_code(error: Option<Seq<char>>, message: Option<Seq<char>>) -> Seq<char> {
    match error {
        Some(c) => c,
        None => match message {
            Some(m) => m,
            None => Seq::empty(),
        },
    }
}

/// What a refused poll means, from the members of its body: whether the body
/// was JSON at all, and its string members `error`, `message` and
/// `error_description`. The description defaults to the code.
pub open spec fn refusal_meaning(
    parsed: bool,
    error: Option<Seq<char>>,
    message: Option<Seq<char>>,
    description: Option<Seq<char>>,
    r: PollOutcome,
) -> bool {
    if !parsed {
        r matches PollOutcome::Fail(AuthError::Api(m)) && m@ == "Failed to parse error response"@
    } else {
        let code = refusal_code(error, message);
        if code == "authorization_pending"@ {
            r is KeepPolling
        } else if code == "slow_down"@ {
            r is SlowDown
        } else if code == "expired_token"@ || code == "device_code_expired"@ {
            r matches PollOutcome::Fail(AuthError::Expired)
        } else if code == "access_denied"@ {
            r matches PollOutcome::Fail(AuthError::Api(m)) && m@ == "Access denied by user"@
        } else {
            r matches PollOutcome::Fail(AuthError::Api(m))
                && m@ == code + " \u{2014} "@ + description.unwrap_or(code)
        }
    }
}

/// The view of an optional text argument.
pub open spec fn opt_str(o: Option<&str>) -> Option<Seq<char>> {
    match o {
        Some(t) => Some(t@),
        None => None,
    }
}

/// What a refused poll means, given what its body holds: `parsed` tells
/// whether it was JSON; the others are its string members `error`, `message`
/// and `error_description`.
pub fn refusal_outcome(parsed: bool, error: Option<&str>, message: Option<&str>, description: Option<&str>) -> (r: PollOutcome)
    ensures
        refusal_meaning(parsed, opt_str(error), opt_str(message), opt_str(description), r),
{
    if !parsed {
        return PollOutcome::Fail(AuthError::Api("Failed to parse error response".to_owned()));
    }
    let code: &str = match error {
        Some(c) => c,
        None => match message {
            Some(m) => m,
            None => "",
        },
    };
    proof {
        reveal_strlit("");
        assert(code@ =~= refusal_code(opt_str(error), opt_str(message)));
    }
    if same_text(code, "authorization_pending") {
        PollOutcome::KeepPolling
    } else if same_text(code, "slow_down") {
        PollOutcome::SlowDown
    } else if same_text(code, "expired_token") || same_text(code, "device_code_expired") {
        PollOutcome::Fail(AuthError::Expired)
    } else if same_text(code, "access_denied") {
        PollOutcome::Fail(AuthError::Api("Access denied by user".to_owned()))
    } else {
        let mut m = code.to_owned();
        m.append(" \u{2014} ");
        match description {
            Some(d) => m.append(d),
            None => m.append(code),
        }
        PollOutcome::Fail(AuthError::Api(m))
    }
}

/// State of the loop that polls the token endpoint during the device code flow.
pub struct DevicePoll {
    /// Seconds to wait between two polls.
    pub interval: u64,
    /// Seconds after the start at which the device code expires.
    pub expires_in: u64,
    /// Unix time of the start, as an unsigned count.
    pub start_time: u64,
    /// Whether a poll has been sent already.
    pub polled: bool,
}

/// What to do before the next poll.
pub enum PollWait {
    /// The device code expired: the flow ends with [`AuthError::Expired`].
    Expired,
    /// Sleep this many seconds, then poll.
    WaitThenRequest(u64),
    /// Poll at once.
    RequestNow,
}

/// What a refused poll means.
pub enum PollOutcome {
    /// The user has not answered yet: poll again.
    KeepPolling,
    /// The server asks to poll less often: widen the interval, poll again.
    SlowDown,
    /// The flow ends with this error.
    Fail(AuthError),
}

/// The poll after a slow-down answer: the interval is five seconds longer.
pub open spec fn slowed(p: DevicePoll) -> DevicePoll {
    DevicePoll { interval: (p.interval + 5) as u64, ..p }
}

/// The poll after deciding at Unix time `now`: once a poll is sent, every
/// later one waits.
pub open spec fn after_decision(p: DevicePoll, now: i64) -> DevicePoll {
    DevicePoll { polled: p.polled || !(p.wait_at(now) is Expired), ..p }
}

impl DevicePoll {
    /// Starts polling at Unix time `now`.
    pub fn new(interval: u64, expires_in: u64, now: i64) -> (r: Self)
        ensures
            r.interval == interval,
            r.expires_in == expires_in,
            r.start_time == now as u64,
            !r.polled,
    {
        DevicePoll { interval, expires_in, start_time: now as u64, polled: false }
    }

    /// Starts polling now; `None` when the clock cannot be read.
    pub fn start_now(interval: u64, expires_in: u64) -> (r: Option<Self>)
        ensures
            r matches Some(p) ==> p.interval == interval && p.expires_in == expires_in && !p.polled
                && p.start_time < TIMESTAMP_BOUND,
    {
        match unix_time() {
            Some(now) => Some(DevicePoll::new(interval, expires_in, now)),
            None => None,
        }
    }

    /// Seconds elapsed at Unix time `now`.
    pub open spec fn elapsed(self, now: i64) -> int {
        (now as u64) - self.start_time
    }

    /// The decision taken at Unix time `now` before polling: expired once the
    /// elapsed time reaches `expires_in`; else the first poll goes at once and
    /// every later one waits the interval.
    pub open spec fn wait_at(self, now: i64) -> PollWait {
        if self.elapsed(now) >= self.expires_in {
            PollWait::Expired
        } else if self.polled {
            PollWait::WaitThenRequest(self.interval)
        } else {
            PollWait::RequestNow
        }
    }

    /// The decision before polling, at Unix time `now`.
    pub fn before_request(&mut self, now: i64) -> (r: PollWait)
        requires
            now as u64 >= old(self).start_time,
        ensures
            r == old(self).wait_at(now),
            *final(self) == after_decision(*old(self), now),
    {
        let elapsed = now as u64 - self.start_time;
        if elapsed >= self.expires_in {
            PollWait::Expired
        } else if self.polled {
            PollWait::WaitThenRequest(self.interval)
        } else {
            self.polled = true;
            PollWait::RequestNow
        }
    }

    /// The decision before polling, at the present time. `None`, with the
    /// poll unchanged, when the clock cannot be read or reads before the start.
    pub fn before_request_now(&mut self) -> (r: Option<PollWait>)
        ensures
            r is None ==> *final(self) == *old(self),
            r matches Some(w) ==> exists|now: i64|
                #![trigger old(self).wait_at(now)]
                0 <= now < TIMESTAMP_BOUND && now as u64 >= old(self).start_time && w == old(self).wait_at(now)
                    && *final(self) == after_decision(*old(self), now),
    {
        let now = match unix_time() {
            Some(t) => t,
            None => return None,
        };
        if (now as u64) < self.start_time {
            return None;
        }
        let ghost before = *self;
        let w = self.before_request(now);
        assert(0 <= now < TIMESTAMP_BOUND && now as u64 >= before.start_time && w == before.wait_at(now)
            && *self == after_decision(before, now));
        Some(w)
    }

    /// What a refused poll whose body reads `body` means.
    pub fn after_refusal(&self, body: &str) -> (r: PollOutcome)
        ensures
            refusal_meaning(
                json_text_member(body@, "error"@) is Some,
                json_text(body@, "error"@),
                json_text(body@, "message"@),
                json_text(body@, "error_description"@),
                r,
            ),
    {
        let parsed = read_json_text_member(body, "error");
        let error = json_text_of(body, "error");
        let message = json_text_of(body, "message");
        let description = json_text_of(body, "error_description");
        refusal_outcome(
            parsed.is_some(),
            match &error {
                Some(e) => Some(e.as_str()),
                None => None,
            },
            match &message {
                Some(m) => Some(m.as_str()),
                None => None,
            },
            match &description {
                Some(d) => Some(d.as_str()),
                None => None,
            },
        )
    }

    /// Widens the interval after the server asked to slow down.
    pub fn slow_down(&mut self)
        requires
            old(self).interval <= u64::MAX - 5,
        ensures
            *final(self) == slowed(*old(self)),
            final(self).interval == old(self).interval + 5,
    {
        self.interval = self.interval + 5;
    }
}

/// Lifetime of a fresh token in seconds: the one the answer gives, else four hours.
pub open spec fn token_lifetime(expires_in: Option<i64>) -> int {
    match expires_in {
        Some(s) => s as int,
        None => 14400,
    }
}

/// Whether the expiry `now + lifetime` of a fresh token fits an `i64`.
pub open spec fn expiry_fits(now: i64, expires_in: Option<i64>) -> bool {
    i64::MIN <= now + token_lifetime(expires_in) <= i64::MAX
}

/// Whether a token lifetime fits an `i64` expiry for every clock reading.
pub open spec fn lifetime_fits_any_time(expires_in: Option<i64>) -> bool {
    token_lifetime(expires_in) <= i64::MAX - TIMESTAMP_BOUND
}

/// Unix time at which a token obtained at `now` expires.
pub fn token_expiry(now: i64, expires_in: Option<i64>) -> (r: i64)
    requires
        expiry_fits(now, expires_in),
    ensures
        r == now + token_lifetime(expires_in),
{
    match expires_in {
        Some(s) => now + s,
        None => now + 14400,
    }
}

/// Unix time at which a token obtained at `now` expires; `None` when it does not fit an `i64`.
pub fn checked_token_expiry(now: i64, expires_in: Option<i64>) -> (r: Option<i64>)
    ensures
        match r {
            Some(e) => expiry_fits(now, expires_in) && e == now + token_lifetime(expires_in),
            None => !expiry_fits(now, expires_in),
        },
{
    match expires_in {
        Some(s) => now.checked_add(s),
        None => now.checked_add(14400),
    }
}

/// The view of the credentials handed to an action: access token, user id, client id.
pub open spec fn credentials_view(c: (String, String, String)) -> (Seq<char>, Seq<char>, Seq<char>) {
    (c.0@, c.1@, c.2@)
}

/// Settings after storing the token of a completed login.
pub open spec fn stored(s: GlobalSettingsView, token: TokenResponse, validate: ValidateResponse, now: i64) -> GlobalSettingsView {
    GlobalSettingsView {
        access_token: Some(token.access_token@),
        refresh_token: opt_text(token.refresh_token),
        token_expires_at: Some((now + token_lifetime(token.expires_in)) as i64),
        user_id: Some(validate.user_id@),
        username: Some(validate.login@),
        ..s
    }
}

/// Settings after storing a refreshed token; user and client stay.
pub open spec fn refreshed(s: GlobalSettingsView, token: TokenResponse, now: i64) -> GlobalSettingsView {
    GlobalSettingsView {
        access_token: Some(token.access_token@),
        refresh_token: opt_text(token.refresh_token),
        token_expires_at: Some((now + token_lifetime(token.expires_in)) as i64),
        ..s
    }
}

/// Settings with every token and the user forgotten; the client credentials stay.
pub open spec fn cleared(s: GlobalSettingsView) -> GlobalSettingsView {
    GlobalSettingsView {
        access_token: None,
        refresh_token: None,
        token_expires_at: None,
        user_id: None,
        username: None,
        ..s
    }
}

/// Why a token could not be stored at the present time.
#[derive(Debug)]
pub enum TimeError {
    /// The clock could not be read.
    ClockUnreadable,
    /// The expiry does not fit an `i64`.
    ExpiryOutOfRange,
}

/// Stores the token and user of a completed login, obtained at Unix time `now`.
pub fn settings_with_token(settings: GlobalSettings, token: TokenResponse, validate: ValidateResponse, now: i64) -> (r: GlobalSettings)
    requires
        expiry_fits(now, token.expires_in),
    ensures
        r@ == stored(settings@, token, validate, now),
{
    let expires_at = token_expiry(now, token.expires_in);
    GlobalSettings {
        access_token: Some(token.access_token),
        refresh_token: token.refresh_token,
        token_expires_at: Some(expires_at),
        user_id: Some(validate.user_id),
        username: Some(validate.login),
        ..settings
    }
}

/// Stores the token and user of a completed login, obtained now. Fails when
/// the clock cannot be read, or when the expiry does not fit an `i64`, which
/// no lifetime up to `i64::MAX - TIMESTAMP_BOUND` causes.
pub fn settings_with_token_now(settings: GlobalSettings, token: TokenResponse, validate: ValidateResponse) -> (r: Result<GlobalSettings, TimeError>)
    ensures
        r matches Ok(u) ==> exists|now: i64|
            #![trigger expiry_fits(now, token.expires_in)]
            0 <= now < TIMESTAMP_BOUND && expiry_fits(now, token.expires_in)
                && u@ == stored(settings@, token, validate, now),
        r matches Err(TimeError::ExpiryOutOfRange) ==> !lifetime_fits_any_time(token.expires_in),
{
    let now = match unix_time() {
        Some(t) => t,
        None => return Err(TimeError::ClockUnreadable),
    };
    match checked_token_expiry(now, token.expires_in) {
        Some(_) => {
            let ghost t = token;
            let ghost s0 = settings@;
            let ghost v = validate;
            let u = settings_with_token(settings, token, validate, now);
            assert(0 <= now < TIMESTAMP_BOUND && expiry_fits(now, t.expires_in) && u@ == stored(s0, t, v, now));
            Ok(u)
        },
        None => Err(TimeError::ExpiryOutOfRange),
    }
}

/// Stores a refreshed token, obtained at Unix time `now`, and returns the
/// settings with the credentials to use: the new access token, the stored user
/// id (empty when there is none) and the client id.
pub fn apply_refreshed_token(settings: GlobalSettings, token: TokenResponse, now: i64) -> (r: (GlobalSettings, (String, String, String)))
    requires
        expiry_fits(now, token.expires_in),
    ensures
        r.0@ == refreshed(settings@, token, now),
        credentials_view(r.1) == (token.access_token@, settings@.user_id.unwrap_or(Seq::empty()), settings@.client_id),
{
    let expires_at = token_expiry(now, token.expires_in);
    let access = token.access_token.clone();
    let user_id = match &settings.user_id {
        Some(u) => u.clone(),
        None => String::new(),
    };
    let client_id = settings.client_id.clone();
    let updated = GlobalSettings {
        access_token: Some(token.access_token),
        refresh_token: token.refresh_token,
        token_expires_at: Some(expires_at),
        ..settings
    };
    (updated, (access, user_id, client_id))
}

/// What holds of a refreshed token stored at Unix time `now`.
pub open spec fn refresh_applied(
    s: GlobalSettingsView,
    token: TokenResponse,
    now: i64,
    p: (GlobalSettings, (String, String, String)),
) -> bool {
    &&& expiry_fits(now, token.expires_in)
    &&& p.0@ == refreshed(s, token, now)
    &&& credentials_view(p.1) == (token.access_token@, s.user_id.unwrap_or(Seq::empty()), s.client_id)
}

/// Stores a refreshed token obtained now. Fails when the clock cannot be read,
/// or when the expiry does not fit an `i64`, which no lifetime up to
/// `i64::MAX - TIMESTAMP_BOUND` causes.
pub fn apply_refreshed_token_now(settings: GlobalSettings, token: TokenResponse) -> (r: Result<(GlobalSettings, (String, String, String)), TimeError>)
    ensures
        r matches Ok(p) ==> exists|now: i64|
            #![trigger expiry_fits(now, token.expires_in)]
            0 <= now < TIMESTAMP_BOUND && refresh_applied(settings@, token, now, p),
        r matches Err(TimeError::ExpiryOutOfRange) ==> !lifetime_fits_any_time(token.expires_in),
{
    let now = match unix_time() {
        Some(t) => t,
        None => return Err(TimeError::ClockUnreadable),
    };
    match checked_token_expiry(now, token.expires_in) {
        Some(_) => {
            let ghost s0 = settings@;
            let ghost t = token;
            let p = apply_refreshed_token(settings, token, now);
            assert(0 <= now < TIMESTAMP_BOUND && refresh_applied(s0, t, now, p) && expiry_fits(now, t.expires_in));
            Ok(p)
        },
        None => Err(TimeError::ExpiryOutOfRange),
    }
}

/// Forgets every token and the user, keeping the client credentials.
pub fn cleared_tokens(settings: GlobalSettings) -> (r: GlobalSettings)
    ensures
        r@ == cleared(settings@),
{
    GlobalSettings {
        access_token: None,
        refresh_token: None,
        token_expires_at: None,
        user_id: None,
        username: None,
        ..settings
    }
}

/// How the stored token can serve an action.
pub enum TokenPlan {
    /// Not authenticated, or the token expired and cannot be refreshed: there
    /// is no valid token to use.
    Unauthenticated,
    /// Use these credentials (access token, user id, client id).
    Ready((String, String, String)),
    /// The token expires within a minute: refresh it with this refresh token first.
    Refresh(String),
}

/// Whether the token must be refreshed at Unix time `now`: it expires within
/// 60 seconds and a refresh token is held.
pub open spec fn needs_refresh(s: GlobalSettingsView, now: i64) -> bool {
    &&& s.token_expires_at matches Some(e) && e - now < 60
    &&& s.refresh_token is Some
}

/// Whether the token has expired at Unix time `now`.
pub open spec fn token_expired(s: GlobalSettingsView, now: i64) -> bool {
    s.token_expires_at matches Some(e) && e <= now
}

/// The plan for settings `s` at Unix time `now`: refresh a token that expires
/// within a minute when a refresh token is held; never hand out an expired token.
pub open spec fn token_plan_is(s: GlobalSettingsView, now: i64, r: TokenPlan) -> bool {
    if !s.authenticated() {
        r is Unauthenticated
    } else if needs_refresh(s, now) {
        r matches TokenPlan::Refresh(t) && s.refresh_token == Some(t@)
    } else if token_expired(s, now) {
        r is Unauthenticated
    } else {
        r matches TokenPlan::Ready(c) && s.access_token == Some(c.0@) && s.user_id == Some(c.1@)
            && c.2@ == s.client_id
    }
}

/// How the stored token serves an action at Unix time `now`.
pub fn plan_token_use(settings: &GlobalSettings, now: i64) -> (r: TokenPlan)
    ensures
        token_plan_is(settings@, now, r),
{
    if !settings.is_authenticated() {
        return TokenPlan::Unauthenticated;
    }
    if let Some(expires_at) = settings.token_expires_at {
        if (expires_at as i128) - (now as i128) < 60 {
            if let Some(rt) = &settings.refresh_token {
                return TokenPlan::Refresh(rt.clone());
            }
        }
        if expires_at <= now {
            return TokenPlan::Unauthenticated;
        }
    }
    let access = match &settings.access_token {
        Some(a) => a.clone(),
        None => String::new(),
    };
    let user_id = match &settings.user_id {
        Some(u) => u.clone(),
        None => String::new(),
    };
    TokenPlan::Ready((access, user_id, settings.client_id.clone()))
}

/// How the stored token serves an action now; `None` when the clock cannot be read.
pub fn plan_token_use_now(settings: &GlobalSettings) -> (r: Option<TokenPlan>)
    ensures
        r matches Some(p) ==> exists|now: i64| 0 <= now < TIMESTAMP_BOUND && #[trigger] token_plan_is(settings@, now, p),
{
    match unix_time() {
        Some(now) => Some(plan_token_use(settings, now)),
        None => None,
    }
}

} // verus!
