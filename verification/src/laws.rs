use vstd::prelude::*;

use crate::actions::{press_step, ActionKind, CallResult, EventKind, PressStage};
use crate::auth::{
    after_decision, cleared, expiry_fits, refreshed, slowed, stored, token_expired, token_lifetime, token_plan_is,
    DevicePoll, PollWait, TokenPlan, TokenResponse, ValidateResponse,
};
use crate::auth_handler::{
    clip_line, label_of, lemma_next_newline_bounds, next_newline, strip_cr, text_lines,
};
use crate::settings::{GlobalSettingsView, BUTTON_LABEL_MAX};
use crate::twitch_api::response_class;

verus! {

/// The actions a key press takes, from `stage`, on the events `evs`.
pub open spec fn run_press(stage: PressStage, retry: bool, evs: Seq<EventKind>) -> Seq<ActionKind>
    decreases evs.len(),
{
    if evs.len() == 0 {
        seq![]
    } else {
        let (next, a) = press_step(stage, retry, evs[0]);
        seq![a] + run_press(next, retry, evs.skip(1))
    }
}

/// How many of `acts` are `k`.
pub open spec fn count_kind(acts: Seq<ActionKind>, k: ActionKind) -> nat
    decreases acts.len(),
{
    if acts.len() == 0 {
        0
    } else {
        (if acts[0] == k { 1nat } else { 0nat }) + count_kind(acts.skip(1), k)
    }
}

/// How many of `acts` end a press: success, alert, or no credentials.
pub open spec fn count_outcomes(acts: Seq<ActionKind>) -> nat
    decreases acts.len(),
{
    if acts.len() == 0 {
        0
    } else {
        (if acts[0] is Succeed || acts[0] is Alert || acts[0] is NoCredentials { 1nat } else { 0nat })
            + count_outcomes(acts.skip(1))
    }
}

spec fn call_budget(stage: PressStage, retry: bool) -> nat {
    match stage {
        PressStage::AwaitingCredentials => if retry { 2 } else { 1 },
        PressStage::AwaitingCall => if retry { 1 } else { 0 },
        PressStage::AwaitingRefresh => 1,
        _ => 0,
    }
}

spec fn refresh_budget(stage: PressStage, retry: bool) -> nat {
    match stage {
        PressStage::AwaitingCredentials | PressStage::AwaitingCall => if retry { 1 } else { 0 },
        _ => 0,
    }
}

spec fn outcome_budget(stage: PressStage) -> nat {
    match stage {
        PressStage::Finished => 0,
        _ => 1,
    }
}

proof fn lemma_press_budgets(stage: PressStage, retry: bool, evs: Seq<EventKind>)
    ensures
        count_kind(run_press(stage, retry, evs), ActionKind::Call) <= call_budget(stage, retry),
        count_kind(run_press(stage, retry, evs), ActionKind::Refresh) <= refresh_budget(stage, retry),
        count_outcomes(run_press(stage, retry, evs)) <= outcome_budget(stage),
    decreases evs.len(),
{
    if evs.len() > 0 {
        let (next, a) = press_step(stage, retry, evs[0]);
        let rest = run_press(next, retry, evs.skip(1));
        lemma_press_budgets(next, retry, evs.skip(1));
        assert((seq![a] + rest).skip(1) =~= rest);
    }
}

/// A key press makes at most two API calls and at most one refresh, and only
/// one of each when refused tokens are not refreshed; it ends (success, alert,
/// or missing credentials) at most once, whatever events arrive.
pub proof fn law_press_is_bounded(retry: bool, evs: Seq<EventKind>)
    ensures
        count_kind(run_press(PressStage::AwaitingCredentials, retry, evs), ActionKind::Call) <= (if retry { 2nat } else { 1nat }),
        count_kind(run_press(PressStage::AwaitingCredentials, retry, evs), ActionKind::Refresh) <= (if retry { 1nat } else { 0nat }),
        count_outcomes(run_press(PressStage::AwaitingCredentials, retry, evs)) <= 1,
{
    lemma_press_budgets(PressStage::AwaitingCredentials, retry, evs);
}

/// A press succeeds only on a call that returned successfully.
pub proof fn law_success_needs_a_done_call(stage: PressStage, retry: bool, e: EventKind)
    ensures
        press_step(stage, retry, e).1 is Succeed ==> e == EventKind::Called(CallResult::Done),
{
}

/// After caching a title for a button, the cache gives that title for the
/// button and still gives every other button's title.
pub proof fn law_cached_title_is_read_back(cache: Map<Seq<char>, Seq<char>>, id: Seq<char>, title: Seq<char>, other: Seq<char>)
    ensures
        cache.insert(id, title).dom().contains(id),
        cache.insert(id, title)[id] == title,
        other != id ==> (cache.insert(id, title).dom().contains(other) == cache.dom().contains(other)),
        other != id && cache.dom().contains(other) ==> cache.insert(id, title)[other] == cache[other],
{
}

/// Clearing the tokens logs out, keeps the client credentials, and clearing
/// twice is clearing once.
pub proof fn law_clearing_logs_out(s: GlobalSettingsView)
    ensures
        !cleared(s).authenticated(),
        cleared(s).client_id == s.client_id,
        cleared(s).client_secret == s.client_secret,
        cleared(cleared(s)) == cleared(s),
{
}

/// After a login is stored, the plugin is authenticated exactly when a client
/// id is set, and until a minute before the expiry the stored token and user
/// are what actions get.
pub proof fn law_stored_token_is_used(
    s: GlobalSettingsView,
    token: TokenResponse,
    validate: ValidateResponse,
    now: i64,
    later: i64,
    r: TokenPlan,
)
    requires
        expiry_fits(now, token.expires_in),
        now + token_lifetime(token.expires_in) - later >= 60,
        token_plan_is(stored(s, token, validate, now), later, r),
    ensures
        stored(s, token, validate, now).authenticated() == (s.client_id.len() > 0),
        s.client_id.len() > 0 ==> (r matches TokenPlan::Ready(c) && c.0@ == token.access_token@
            && c.1@ == validate.user_id@ && c.2@ == s.client_id),
{
}

/// A token that expires within a minute is refreshed before use when a
/// refresh token is held.
pub proof fn law_expiring_token_is_refreshed(s: GlobalSettingsView, now: i64, r: TokenPlan)
    requires
        s.authenticated(),
        s.token_expires_at matches Some(e) && e - now < 60,
        s.refresh_token is Some,
        token_plan_is(s, now, r),
    ensures
        r matches TokenPlan::Refresh(t) && s.refresh_token == Some(t@),
{
}

/// A refresh replaces the tokens only: user, client and login state stay.
pub proof fn law_refresh_keeps_the_login(s: GlobalSettingsView, token: TokenResponse, now: i64)
    requires
        s.authenticated(),
    ensures
        refreshed(s, token, now).authenticated(),
        refreshed(s, token, now).user_id == s.user_id,
        refreshed(s, token, now).client_id == s.client_id,
        refreshed(s, token, now).client_secret == s.client_secret,
{
}

/// Once the device code has expired, it stays expired as time goes on.
pub proof fn law_poll_expiry_is_final(p: DevicePoll, now: i64, later: i64)
    requires
        0 <= now <= later,
        now as u64 >= p.start_time,
        p.wait_at(now) is Expired,
    ensures
        p.wait_at(later) is Expired,
{
}

proof fn lemma_lines_have_no_newline(s: Seq<char>)
    ensures
        forall|k: int| 0 <= k < text_lines(s).len() ==> !(#[trigger] text_lines(s)[k]).contains('\n'),
    decreases s.len(),
{
    if s.len() > 0 {
        let i = next_newline(s, 0);
        lemma_next_newline_bounds(s, 0);
        if i < s.len() {
            lemma_lines_have_no_newline(s.skip(i + 1));
            let first = strip_cr(s.take(i));
            assert(!s.take(i).contains('\n'));
            assert(!first.contains('\n')) by {
                if first.contains('\n') {
                    let j = choose|j: int| 0 <= j < first.len() && first[j] == '\n';
                    assert(s.take(i)[j] == '\n');
                }
            }
            let ls = text_lines(s);
            assert forall|k: int| 0 <= k < ls.len() implies !(#[trigger] ls[k]).contains('\n') by {
                if k > 0 {
                    assert(ls[k] == text_lines(s.skip(i + 1))[k - 1]);
                }
            }
        }
    }
}

proof fn lemma_clip_keeps_no_newline(l: Seq<char>)
    requires
        !l.contains('\n'),
    ensures
        !clip_line(l).contains('\n'),
        clip_line(l).len() <= BUTTON_LABEL_MAX,
{
    if clip_line(l).contains('\n') {
        let j = choose|j: int| 0 <= j < clip_line(l).len() && clip_line(l)[j] == '\n';
        assert(l[j] == '\n');
    }
}

/// The lines of a button label: the first two lines of the raw title, each
/// cut to `BUTTON_LABEL_MAX` characters.
pub open spec fn label_lines(raw: Seq<char>) -> Seq<Seq<char>> {
    let ls = text_lines(raw);
    let kept = if ls.len() <= 2 { ls } else { ls.take(2) };
    kept.map_values(|l: Seq<char>| clip_line(l))
}

/// A button label is its lines joined by `'\n'`: there are at most two, none
/// holds a `'\n'`, and none is longer than `BUTTON_LABEL_MAX`.
pub proof fn law_label_fits_the_button(raw: Seq<char>)
    ensures
        label_lines(raw).len() <= 2,
        forall|k: int| 0 <= k < label_lines(raw).len() ==> !(#[trigger] label_lines(raw)[k]).contains('\n')
            && label_lines(raw)[k].len() <= BUTTON_LABEL_MAX,
        label_lines(raw).len() == 0 ==> label_of(raw) == Seq::<char>::empty(),
        label_lines(raw).len() == 1 ==> label_of(raw) == label_lines(raw)[0],
        label_lines(raw).len() == 2 ==> label_of(raw) == label_lines(raw)[0] + seq!['\n'] + label_lines(raw)[1],
{
    let ls = text_lines(raw);
    lemma_lines_have_no_newline(raw);
    let ll = label_lines(raw);
    assert forall|k: int| 0 <= k < ll.len() implies !(#[trigger] ll[k]).contains('\n') && ll[k].len() <= BUTTON_LABEL_MAX by {
        assert(!ls[k].contains('\n'));
        lemma_clip_keeps_no_newline(ls[k]);
    }
}

/// A title of one line that already fits the button is kept as it is.
pub proof fn law_short_title_is_kept(raw: Seq<char>)
    requires
        !raw.contains('\n'),
        raw.len() <= BUTTON_LABEL_MAX,
    ensures
        label_of(raw) == raw,
{
    if raw.len() > 0 {
        lemma_next_newline_bounds(raw, 0);
        if next_newline(raw, 0) < raw.len() {
            assert(raw.contains('\n'));
        }
    }
}

/// The poll after a run of refused answers, `true` for each one that asked
/// to slow down.
pub open spec fn after_answers(p: DevicePoll, slows: Seq<bool>) -> DevicePoll
    decreases slows.len(),
{
    if slows.len() == 0 {
        p
    } else {
        let q = after_answers(p, slows.drop_last());
        if slows.last() {
            slowed(q)
        } else {
            q
        }
    }
}

/// How many answers of the run asked to slow down.
pub open spec fn slow_downs(slows: Seq<bool>) -> nat
    decreases slows.len(),
{
    if slows.len() == 0 {
        0
    } else {
        slow_downs(slows.drop_last()) + if slows.last() { 1nat } else { 0nat }
    }
}

/// The poll interval never shrinks and grows by exactly five seconds per
/// slow-down answer; everything else about the poll stays.
pub proof fn law_interval_grows_by_slow_downs(p: DevicePoll, slows: Seq<bool>)
    requires
        p.interval + 5 * slow_downs(slows) <= u64::MAX,
    ensures
        after_answers(p, slows).interval == p.interval + 5 * slow_downs(slows),
        after_answers(p, slows).interval >= p.interval,
        after_answers(p, slows).expires_in == p.expires_in,
        after_answers(p, slows).start_time == p.start_time,
        after_answers(p, slows).polled == p.polled,
    decreases slows.len(),
{
    if slows.len() > 0 {
        law_interval_grows_by_slow_downs(p, slows.drop_last());
    }
}

/// The first poll goes at once; once a poll has gone, every later poll that
/// is not past the expiry first waits the interval in force, which is the
/// first interval plus five seconds per slow-down answer.
pub proof fn law_later_polls_wait(p: DevicePoll, first: i64, slows: Seq<bool>, later: i64)
    requires
        !p.polled,
        !(p.wait_at(first) is Expired),
        p.interval + 5 * slow_downs(slows) <= u64::MAX,
        after_answers(after_decision(p, first), slows).elapsed(later) < p.expires_in,
    ensures
        p.wait_at(first) == PollWait::RequestNow,
        after_answers(after_decision(p, first), slows).wait_at(later)
            == PollWait::WaitThenRequest((p.interval + 5 * slow_downs(slows)) as u64),
{
    law_interval_grows_by_slow_downs(after_decision(p, first), slows);
}

/// No action is handed an expired token.
pub proof fn law_no_expired_token_is_used(s: GlobalSettingsView, now: i64, r: TokenPlan)
    requires
        token_plan_is(s, now, r),
        r is Ready,
    ensures
        !token_expired(s, now),
        s.token_expires_at matches Some(e) ==> e > now,
{
}

/// A call that fails with anything but a refused token ends the press with an
/// alert, on the first call and on the retry, whether refused tokens are
/// retried or not.
pub proof fn law_failed_call_alerts(retry: bool)
    ensures
        press_step(PressStage::AwaitingCall, retry, EventKind::Called(CallResult::Failed))
            == (PressStage::Finished, ActionKind::Alert),
        press_step(PressStage::AwaitingRetry, retry, EventKind::Called(CallResult::Failed))
            == (PressStage::Finished, ActionKind::Alert),
        press_step(PressStage::AwaitingRetry, retry, EventKind::Called(CallResult::Unauthorized))
            == (PressStage::Finished, ActionKind::Alert),
{
}

/// A press whose first call fails makes that one call, then alerts, and does
/// nothing more whatever events follow: no refresh, no second call, no other outcome.
pub proof fn law_press_with_failed_call(retry: bool, evs: Seq<EventKind>)
    ensures
        ({
            let acts = run_press(
                PressStage::AwaitingCredentials,
                retry,
                seq![EventKind::CredentialsFound, EventKind::Called(CallResult::Failed)] + evs,
            );
            &&& acts.len() == evs.len() + 2
            &&& acts[0] == ActionKind::Call
            &&& acts[1] == ActionKind::Alert
            &&& count_kind(acts, ActionKind::Call) == 1
            &&& count_kind(acts, ActionKind::Refresh) == 0
            &&& count_kind(acts, ActionKind::Alert) >= 1
            &&& count_outcomes(acts) == 1
        }),
{
    let all = seq![EventKind::CredentialsFound, EventKind::Called(CallResult::Failed)] + evs;
    let rest1 = all.skip(1);
    assert(rest1 =~= seq![EventKind::Called(CallResult::Failed)] + evs);
    assert(rest1.skip(1) =~= evs);
    lemma_press_budgets(PressStage::Finished, retry, evs);
    lemma_run_len(PressStage::Finished, retry, evs);
    let tail = run_press(PressStage::Finished, retry, evs);
    let mid = run_press(PressStage::AwaitingCall, retry, rest1);
    assert(mid == seq![ActionKind::Alert] + tail);
    let acts = run_press(PressStage::AwaitingCredentials, retry, all);
    assert(acts == seq![ActionKind::Call] + mid);
    assert(acts.skip(1) =~= mid);
    assert(mid.skip(1) =~= tail);
    assert(acts[0] == ActionKind::Call);
    assert(mid[0] == ActionKind::Alert);
    assert(acts[1] == mid[0]);
    assert(count_kind(tail, ActionKind::Call) == 0);
    assert(count_kind(tail, ActionKind::Refresh) == 0);
    assert(count_outcomes(tail) == 0);
    assert(count_kind(mid, ActionKind::Call) == 0);
    assert(count_kind(mid, ActionKind::Refresh) == 0);
    assert(count_kind(mid, ActionKind::Alert) >= 1);
    assert(count_outcomes(mid) == 1);
    assert(count_kind(acts, ActionKind::Call) == 1);
    assert(count_kind(acts, ActionKind::Refresh) == 0);
    assert(count_kind(acts, ActionKind::Alert) >= 1);
    assert(count_outcomes(acts) == 1);
    assert(acts.len() == evs.len() + 2);
}

proof fn lemma_run_len(stage: PressStage, retry: bool, evs: Seq<EventKind>)
    ensures
        run_press(stage, retry, evs).len() == evs.len(),
    decreases evs.len(),
{
    if evs.len() > 0 {
        let (next, a) = press_step(stage, retry, evs[0]);
        lemma_run_len(next, retry, evs.skip(1));
    }
}

/// An answer counts as a success exactly when its status lies in 200..=299;
/// a 401 is a refused token; every other status, 429 included, is a failure.
pub proof fn law_status_classes(status: u16)
    ensures
        response_class(status) is Success <==> 200 <= status <= 299,
        response_class(status) is Unauthorized <==> status == 401,
        response_class(status) is Failure <==> (status != 401 && (status < 200 || status >= 300)),
{
}

/// The device code is expired exactly when the time since the start reaches
/// its lifetime; before that the first poll goes at once and later ones wait.
pub proof fn law_poll_expires_with_the_code(p: DevicePoll, now: i64)
    requires
        now as u64 >= p.start_time,
    ensures
        p.wait_at(now) is Expired <==> (now as u64) - p.start_time >= p.expires_in,
        (now as u64) - p.start_time < p.expires_in && !p.polled ==> p.wait_at(now) is RequestNow,
        (now as u64) - p.start_time < p.expires_in && p.polled ==> p.wait_at(now) == PollWait::WaitThenRequest(p.interval),
{
}

/// A stored or refreshed token expires its lifetime after the time it was
/// obtained: four hours when the answer gives no lifetime.
pub proof fn law_expiry_is_time_plus_lifetime(
    s: GlobalSettingsView,
    token: TokenResponse,
    validate: ValidateResponse,
    now: i64,
)
    requires
        expiry_fits(now, token.expires_in),
    ensures
        stored(s, token, validate, now).token_expires_at == Some((now + match token.expires_in {
            Some(l) => l as int,
            None => 14400,
        }) as i64),
        refreshed(s, token, now).token_expires_at == stored(s, token, validate, now).token_expires_at,
        token.expires_in is None ==> stored(s, token, validate, now).token_expires_at == Some((now + 14400) as i64),
{
}

/// An action is handed a token only while it has not expired, and, when a
/// refresh token is held, only while it has at least a minute left.
pub proof fn law_ready_token_has_time_left(s: GlobalSettingsView, now: i64, r: TokenPlan)
    requires
        token_plan_is(s, now, r),
        r is Ready,
    ensures
        s.access_token is Some,
        s.token_expires_at matches Some(e) ==> e > now,
        s.refresh_token is Some ==> (s.token_expires_at matches Some(e) ==> e - now >= 60),
{
}

/// A token that expired, or expires within a minute, is refreshed when a
/// refresh token is held, however long ago it expired.
pub proof fn law_stale_token_is_refreshed(s: GlobalSettingsView, now: i64, r: TokenPlan)
    requires
        s.authenticated(),
        s.refresh_token is Some,
        s.token_expires_at matches Some(e) && e - now < 60,
        token_plan_is(s, now, r),
    ensures
        r matches TokenPlan::Refresh(t) && s.refresh_token == Some(t@),
{
}

} // verus!
