//! Decisions of the background refresh: when to re-arm the timer, whether to
//! fetch, and when to warn about a low balance.

use vstd::prelude::*;
use vstd::string::*;
use crate::tray::{error_text, label_text};

verus! {

/// Seconds between the first checks, before the configured interval is known.
pub const INITIAL_TICK_SECS: u64 = 10;

/// What a tick leads to once the timer is settled.
#[derive(Clone, Copy, Debug, PartialEq, Eq)]
pub enum TickAction {
    /// No token is configured: show the prompt to set one.
    PromptForToken,
    /// Fetch the balance.
    FetchBalance,
}

/// Whether a token is configured decides the tick's work.
pub open spec fn action_for(token: Seq<char>) -> TickAction {
    if token.len() == 0 {
        TickAction::PromptForToken
    } else {
        TickAction::FetchBalance
    }
}

/// Fetch the balance when a token is configured, else prompt for one. Used on
/// every tick and right after the settings are saved.
pub fn tick_action(token: &str) -> (r: TickAction)
    ensures
        r == action_for(token@),
        r == TickAction::FetchBalance <==> token@.len() > 0,
{
    if token.is_empty() {
        TickAction::PromptForToken
    } else {
        TickAction::FetchBalance
    }
}

/// The plan of one tick.
#[derive(Clone, Copy, Debug)]
pub struct TickPlan {
    /// A new timer period, in seconds, when the configured interval changed.
    pub reschedule_secs: Option<u64>,
    pub action: TickAction,
}

/// The refresh timer: the interval, in minutes, that it was last armed with
/// (0 before any has been read from the settings).
#[derive(Clone, Copy, Debug)]
pub struct Scheduler {
    pub interval_mins: u64,
}

/// Whether a tick with this setting can be taken: a changed interval re-arms
/// the timer, whose period must be positive and fit in a `u64` of seconds.
pub open spec fn tick_allowed(interval_mins: u64, refresh_mins: u64) -> bool {
    refresh_mins != interval_mins ==> 0 < refresh_mins && refresh_mins * 60 <= u64::MAX
}

/// The plan of a tick from the timer's interval, the setting and the token.
pub open spec fn plan_for(interval_mins: u64, refresh_mins: u64, token: Seq<char>) -> TickPlan {
    TickPlan {
        reschedule_secs: if refresh_mins != interval_mins {
            Some((refresh_mins * 60) as u64)
        } else {
            None
        },
        action: action_for(token),
    }
}

impl Scheduler {
    /// A timer that has not yet read the interval from the settings.
    pub fn new() -> (r: Scheduler)
        ensures
            r.interval_mins == 0,
    {
        Scheduler { interval_mins: 0 }
    }

    /// One tick: re-arm the timer when the configured interval changed, then
    /// prompt for a token or fetch the balance.
    pub fn on_tick(&mut self, refresh_mins: u64, token: &str) -> (r: TickPlan)
        requires
            tick_allowed(old(self).interval_mins, refresh_mins),
        ensures
            final(self).interval_mins == refresh_mins,
            r == plan_for(old(self).interval_mins, refresh_mins, token@),
            r.reschedule_secs is Some <==> refresh_mins != old(self).interval_mins,
            r.reschedule_secs matches Some(p) ==> p == final(self).interval_mins * 60,
            r.action == TickAction::FetchBalance <==> token@.len() > 0,
    {
        let reschedule_secs = if refresh_mins != self.interval_mins {
            self.interval_mins = refresh_mins;
            Some(refresh_mins * 60)
        } else {
            None
        };
        TickPlan { reschedule_secs, action: tick_action(token) }
    }
}

/// Two ticks in a row with the same setting: the second never re-arms the
/// timer, and each runs the same action for the same token.
pub proof fn lemma_stable_setting_no_rearm(interval_mins: u64, refresh_mins: u64, token: Seq<char>)
    requires
        tick_allowed(interval_mins, refresh_mins),
    ensures
        plan_for(refresh_mins, refresh_mins, token).reschedule_secs is None,
        plan_for(refresh_mins, refresh_mins, token).action == plan_for(interval_mins, refresh_mins, token).action,
{
}

/// Whether every tick of a run of settings can be taken, starting from a timer
/// armed with `interval_mins`.
pub open spec fn ticks_allowed(interval_mins: u64, settings: Seq<u64>) -> bool
    decreases settings.len(),
{
    settings.len() == 0 || (tick_allowed(interval_mins, settings[0]) && ticks_allowed(
        settings[0],
        settings.drop_first(),
    ))
}

/// With the interval kept within 1..=60 minutes, the timer never stalls: every
/// tick can be taken from any timer, and a re-armed timer fires every
/// `60 * minutes` seconds, between one minute and one hour.
pub proof fn lemma_refresh_range_never_stalls(interval_mins: u64, settings: Seq<u64>, token: Seq<char>)
    requires
        forall|i: int| 0 <= i < settings.len() ==> 1 <= #[trigger] settings[i] <= 60,
    ensures
        ticks_allowed(interval_mins, settings),
        settings.len() > 0 ==> (plan_for(interval_mins, settings[0], token).reschedule_secs matches Some(p)
            ==> p == settings[0] * 60 && 60 <= p <= 3600),
    decreases settings.len(),
{
    if settings.len() > 0 {
        let rest = settings.drop_first();
        assert forall|i: int| 0 <= i < rest.len() implies 1 <= #[trigger] rest[i] <= 60 by {
            assert(rest[i] == settings[i + 1]);
        }
        lemma_refresh_range_never_stalls(settings[0], rest, token);
    }
}

/// How the remaining percentage compares with the alert threshold.
#[derive(Clone, Copy, Debug, PartialEq, Eq)]
pub enum Level {
    /// Strictly below the threshold: the balance has dropped below it.
    Below,
    /// Strictly above the threshold.
    Above,
    /// Neither: equal to the threshold, or a comparison with a NaN.
    Neither,
}

/// The alert state after a reading, and whether to notify.
#[derive(Clone, Copy, Debug)]
pub struct AlertStep {
    pub alerted: bool,
    pub notify: bool,
}

/// The alert rule: a limited balance that drops below the threshold notifies
/// once and stays alerted; a reading above the threshold re-arms the alert;
/// unlimited balances, readings equal to the threshold and unordered readings
/// change nothing.
pub open spec fn alert_next(alerted: bool, unlimited: bool, level: Level) -> AlertStep {
    if unlimited {
        AlertStep { alerted, notify: false }
    } else {
        match level {
            Level::Below => if !alerted {
                AlertStep { alerted: true, notify: true }
            } else {
                AlertStep { alerted, notify: false }
            },
            Level::Above => AlertStep { alerted: false, notify: false },
            Level::Neither => AlertStep { alerted, notify: false },
        }
    }
}

/// Applies the alert rule to one balance reading.
pub fn alert_step(alerted: bool, unlimited: bool, level: Level) -> (r: AlertStep)
    ensures
        r == alert_next(alerted, unlimited, level),
        r.notify <==> (!unlimited && level == Level::Below && !alerted),
        r.notify ==> r.alerted,
        !unlimited && level == Level::Above ==> !r.alerted,
        unlimited || level == Level::Neither ==> r.alerted == alerted,
        !unlimited && level == Level::Below ==> r.alerted,
{
    if !unlimited {
        match level {
            Level::Below => {
                if !alerted {
                    return AlertStep { alerted: true, notify: true };
                }
            },
            Level::Above => {
                return AlertStep { alerted: false, notify: false };
            },
            Level::Neither => {},
        }
    }
    AlertStep { alerted, notify: false }
}

/// One balance reading: whether it is unlimited and how it compares with the
/// threshold.
pub struct Reading {
    pub unlimited: bool,
    pub level: Level,
}

/// The alert state after a run of readings, and how many notifications it sent.
pub open spec fn alert_run(alerted: bool, readings: Seq<Reading>) -> (bool, nat)
    decreases readings.len(),
{
    if readings.len() == 0 {
        (alerted, 0)
    } else {
        let (a, n) = alert_run(alerted, readings.drop_last());
        let s = alert_next(a, readings.last().unlimited, readings.last().level);
        (s.alerted, n + if s.notify { 1nat } else { 0nat })
    }
}

/// Whether a reading re-arms the alert.
pub open spec fn rearms(r: Reading) -> bool {
    !r.unlimited && r.level == Level::Above
}

/// The alert fires at most once while the balance stays low: over any run of
/// readings none of which re-arms the alert, at most one notification is sent,
/// none if the alert was already raised, and once one is sent the alert stays
/// raised.
pub proof fn lemma_alert_once_per_dip(alerted: bool, readings: Seq<Reading>)
    requires
        forall|i: int| 0 <= i < readings.len() ==> !rearms(#[trigger] readings[i]),
    ensures
        alert_run(alerted, readings).1 <= 1,
        alerted ==> alert_run(alerted, readings).1 == 0,
        alert_run(alerted, readings).1 == 1 ==> alert_run(alerted, readings).0,
        alerted ==> alert_run(alerted, readings).0,
    decreases readings.len(),
{
    if readings.len() > 0 {
        let prefix = readings.drop_last();
        assert forall|i: int| 0 <= i < prefix.len() implies !rearms(#[trigger] prefix[i]) by {
            assert(prefix[i] == readings[i]);
        }
        lemma_alert_once_per_dip(alerted, prefix);
        assert(!rearms(readings[readings.len() - 1]));
    }
}

/// Unlimited balances never alert: a run of unlimited readings sends no
/// notification and leaves the alert state as it was.
pub proof fn lemma_unlimited_run_silent(alerted: bool, readings: Seq<Reading>)
    requires
        forall|i: int| 0 <= i < readings.len() ==> (#[trigger] readings[i]).unlimited,
    ensures
        alert_run(alerted, readings) == (alerted, 0nat),
    decreases readings.len(),
{
    if readings.len() > 0 {
        let prefix = readings.drop_last();
        assert forall|i: int| 0 <= i < prefix.len() implies (#[trigger] prefix[i]).unlimited by {
            assert(prefix[i] == readings[i]);
        }
        lemma_unlimited_run_silent(alerted, prefix);
        assert(readings[readings.len() - 1].unlimited);
    }
}

/// Whether a reading is a limited balance below the threshold.
pub open spec fn drops_below(r: Reading) -> bool {
    !r.unlimited && r.level == Level::Below
}

/// Until a limited balance drops below the threshold, an alert that is not
/// raised stays down and nothing is sent; so the first reading below the
/// threshold since start (or since a re-arming reading, see
/// `lemma_alert_rearms`) notifies.
pub proof fn lemma_first_drop_notifies(readings: Seq<Reading>)
    requires
        forall|i: int| 0 <= i < readings.len() ==> !drops_below(#[trigger] readings[i]),
    ensures
        alert_run(false, readings) == (false, 0nat),
        alert_next(alert_run(false, readings).0, false, Level::Below).notify,
    decreases readings.len(),
{
    if readings.len() > 0 {
        let prefix = readings.drop_last();
        assert forall|i: int| 0 <= i < prefix.len() implies !drops_below(#[trigger] prefix[i]) by {
            assert(prefix[i] == readings[i]);
        }
        lemma_first_drop_notifies(prefix);
        assert(!drops_below(readings[readings.len() - 1]));
    }
}

/// After a reading above the threshold, the next reading below it notifies
/// again.
pub proof fn lemma_alert_rearms(alerted: bool)
    ensures
        alert_next(alert_next(alerted, false, Level::Above).alerted, false, Level::Below).notify,
{
}

/// What a finished balance fetch brought back.
pub enum FetchResult {
    /// A balance: whether it is unlimited, how it compares with the alert
    /// threshold, and its remaining percentage rounded to a whole number.
    Balance { unlimited: bool, level: Level, rounded_percent: String },
    /// The fetch failed.
    Failed,
}

/// Event announced to the window after a fetch.
#[derive(Clone, Copy, Debug, PartialEq, Eq)]
pub enum FetchEvent {
    BalanceUpdated,
    BalanceError,
}

/// What to do after a fetch.
pub struct FetchStep {
    /// Text for the tray.
    pub label: String,
    /// Redraw the battery icon with the new percentage.
    pub draw_battery: bool,
    /// Keep the new balance as the last one known.
    pub keep_balance: bool,
    /// Alert state afterwards.
    pub alerted: bool,
    /// Send the low-balance notification.
    pub notify: bool,
    pub event: FetchEvent,
}

/// The step after a fetch. A balance updates the label, the icon and the last
/// balance, and (when `watch_alert`) runs the alert rule; a failure shows the
/// error label and keeps the icon, the last balance and the alert state.
pub open spec fn fetch_step_ok(
    r: FetchStep,
    result: FetchResult,
    show_text: bool,
    alerted: bool,
    watch_alert: bool,
) -> bool {
    match result {
        FetchResult::Balance { unlimited, level, rounded_percent } => {
            let a = if watch_alert {
                alert_next(alerted, unlimited, level)
            } else {
                AlertStep { alerted, notify: false }
            };
            &&& r.label@ == label_text(unlimited, show_text, rounded_percent@)
            &&& r.draw_battery
            &&& r.keep_balance
            &&& r.alerted == a.alerted
            &&& r.notify == a.notify
            &&& r.event == FetchEvent::BalanceUpdated
        },
        FetchResult::Failed => {
            &&& r.label@ == error_text()
            &&& !r.draw_battery
            &&& !r.keep_balance
            &&& r.alerted == alerted
            &&& !r.notify
            &&& r.event == FetchEvent::BalanceError
        },
    }
}

/// Decides what follows a fetch. The refresh loop watches the alert; the
/// fetch right after saving the settings does not.
pub fn after_fetch(result: &FetchResult, show_text: bool, alerted: bool, watch_alert: bool) -> (r: FetchStep)
    ensures
        fetch_step_ok(r, *result, show_text, alerted, watch_alert),
        result is Balance ==> r.draw_battery && r.keep_balance && r.event == FetchEvent::BalanceUpdated,
        result is Failed ==> !r.draw_battery && !r.keep_balance && !r.notify && r.alerted == alerted
            && r.event == FetchEvent::BalanceError && r.label@ == "\u{26a0} Error"@,
        !watch_alert ==> r.alerted == alerted && !r.notify,
{
    match result {
        FetchResult::Balance { unlimited, level, rounded_percent } => {
            let a = if watch_alert {
                alert_step(alerted, *unlimited, *level)
            } else {
                AlertStep { alerted, notify: false }
            };
            FetchStep {
                label: crate::tray::format_label(*unlimited, show_text, rounded_percent.as_str()),
                draw_battery: true,
                keep_balance: true,
                alerted: a.alerted,
                notify: a.notify,
                event: FetchEvent::BalanceUpdated,
            }
        },
        FetchResult::Failed => FetchStep {
            label: crate::tray::error_label(),
            draw_battery: false,
            keep_balance: false,
            alerted,
            notify: false,
            event: FetchEvent::BalanceError,
        },
    }
}

} // verus!
