//! The scheduler's decisions: which checks are due, and which alert a probe
//! result calls for.
use vstd::prelude::*;
use vstd::string::StringExecFns;
use crate::clock::{elapsed_at_least, elapsed_secs, parse_rfc3339, rfc3339_instant, Instant};
use crate::models::{FeishuConfig, HealthCheck};
use crate::text::{opt_text, text_equals};

verus! {

broadcast use vstd::string::group_string_axioms;

/// True when at least `secs` seconds passed since the time written in
/// `last` (RFC 3339). No time, or a time that does not parse, counts as
/// long enough ago.
pub open spec fn waited(last: Option<Seq<char>>, secs: i64, now: Instant) -> bool {
    match last {
        None => true,
        Some(text) => match rfc3339_instant(text) {
            Some(t) => elapsed_secs(now, t) >= secs,
            None => true,
        },
    }
}

fn waited_since(last: Option<&str>, secs: i64, now: Instant) -> (r: bool)
    ensures
        r == waited(
            match last {
                Some(s) => Some(s@),
                None => None,
            },
            secs,
            now,
        ),
{
    match last {
        None => true,
        Some(text) => match parse_rfc3339(text) {
            Some(t) => elapsed_at_least(now, t, secs),
            None => true,
        },
    }
}

/// True when a check last probed at `last_checked_at` with interval
/// `interval_secs` is due at `now`.
pub fn is_due(last_checked_at: &Option<String>, interval_secs: i64, now: Instant) -> (r: bool)
    ensures
        r == waited(opt_text(*last_checked_at), interval_secs, now),
{
    match last_checked_at {
        None => waited_since(None, interval_secs, now),
        Some(s) => waited_since(Some(s.as_str()), interval_secs, now),
    }
}

/// True when the cooldown after the last alert (its time as stored, if any)
/// has passed at `now`.
pub fn cooldown_elapsed(last_alert_at: &Option<String>, cooldown_secs: i64, now: Instant) -> (r:
    bool)
    ensures
        r == waited(opt_text(*last_alert_at), cooldown_secs, now),
{
    is_due(last_alert_at, cooldown_secs, now)
}

/// The indices, in order, of the checks among the first `n` that are due at `now`.
pub open spec fn due_indices(checks: Seq<HealthCheck>, now: Instant, n: int) -> Seq<usize>
    decreases n,
{
    if n <= 0 {
        Seq::empty()
    } else if waited(
        opt_text(checks[n - 1].last_checked_at),
        checks[n - 1].interval_secs,
        now,
    ) {
        due_indices(checks, now, n - 1).push((n - 1) as usize)
    } else {
        due_indices(checks, now, n - 1)
    }
}

/// The indices, in order, of the checks that are due at `now`.
pub fn due_check_indices(checks: &[HealthCheck], now: Instant) -> (r: Vec<usize>)
    ensures
        r@ == due_indices(checks@, now, checks@.len() as int),
{
    let mut out: Vec<usize> = Vec::new();
    let mut i: usize = 0;
    while i < checks.len()
        invariant
            i <= checks@.len(),
            out@ == due_indices(checks@, now, i as int),
        decreases checks@.len() - i,
    {
        let c = &checks[i];
        if is_due(&c.last_checked_at, c.interval_secs, now) {
            out.push(i);
        }
        i = i + 1;
    }
    out
}

// ---------------------------------------------------------------------------
// Alerts
// ---------------------------------------------------------------------------

/// What a probe result calls for on the alert channel.
#[derive(Debug, Clone, Copy, PartialEq, Eq, Structural)]
pub enum AlertStep {
    /// Nothing to send.
    Nothing,
    /// The check just went down: alert now.
    Alert,
    /// The check is still down: alert again once the cooldown has passed.
    AlertIfCooled,
    /// The check came back: send a recovery notice.
    Recover,
}

/// True when alerts can be sent: the channel is configured, enabled, and has a webhook.
pub open spec fn channel_usable(cfg: Option<FeishuConfig>) -> bool {
    match cfg {
        Some(c) => c.enabled && c.webhook_url@.len() > 0,
        None => false,
    }
}

/// What a probe's status calls for, given the previous status.
pub open spec fn alert_step(
    prev_status: Option<Seq<char>>,
    status: Seq<char>,
    cfg: Option<FeishuConfig>,
) -> AlertStep {
    if status == "down"@ {
        if !channel_usable(cfg) {
            AlertStep::Nothing
        } else if prev_status != Some("down"@) {
            AlertStep::Alert
        } else {
            AlertStep::AlertIfCooled
        }
    } else if prev_status == Some("down"@) && channel_usable(cfg) {
        AlertStep::Recover
    } else {
        AlertStep::Nothing
    }
}

/// Decides what a probe result calls for on the alert channel.
pub fn plan_alert(prev_status: &Option<String>, status: &str, feishu: Option<&FeishuConfig>) -> (r:
    AlertStep)
    ensures
        r == alert_step(
            opt_text(*prev_status),
            status@,
            match feishu {
                Some(c) => Some(*c),
                None => None,
            },
        ),
{
    let usable = match feishu {
        Some(c) => c.enabled && !c.webhook_url.as_str().is_empty(),
        None => false,
    };
    let was_down = match prev_status {
        Some(p) => text_equals(p.as_str(), "down"),
        None => false,
    };
    if text_equals(status, "down") {
        if !usable {
            AlertStep::Nothing
        } else if !was_down {
            AlertStep::Alert
        } else {
            AlertStep::AlertIfCooled
        }
    } else if was_down && usable {
        AlertStep::Recover
    } else {
        AlertStep::Nothing
    }
}

/// What is sent once the alert step is known.
#[derive(Debug, Clone, Copy, PartialEq, Eq, Structural)]
pub enum AlertAction {
    /// Nothing is sent.
    Quiet,
    /// The down alert is sent.
    SendAlert,
    /// The recovery notice is sent.
    SendRecovery,
}

/// What a step leads to, given whether the cooldown since the last alert has
/// passed (only read for a repeat alert): a new failure alerts, a repeat
/// alerts only after the cooldown, a recovery sends its notice.
pub open spec fn action_for(step: AlertStep, cooled: bool) -> AlertAction {
    match step {
        AlertStep::Nothing => AlertAction::Quiet,
        AlertStep::Alert => AlertAction::SendAlert,
        AlertStep::AlertIfCooled => if cooled {
            AlertAction::SendAlert
        } else {
            AlertAction::Quiet
        },
        AlertStep::Recover => AlertAction::SendRecovery,
    }
}

/// Decides what is sent (see `action_for`).
pub fn alert_action(step: AlertStep, cooled: bool) -> (r: AlertAction)
    ensures
        r == action_for(step, cooled),
{
    match step {
        AlertStep::Nothing => AlertAction::Quiet,
        AlertStep::Alert => AlertAction::SendAlert,
        AlertStep::AlertIfCooled => if cooled {
            AlertAction::SendAlert
        } else {
            AlertAction::Quiet
        },
        AlertStep::Recover => AlertAction::SendRecovery,
    }
}

/// The time of an alert is recorded (for the next cooldown) exactly when a
/// down alert was sent and delivered; a recovery notice records nothing.
pub fn records_alert_time(action: AlertAction, delivered: bool) -> (r: bool)
    ensures
        r == (action == AlertAction::SendAlert && delivered),
{
    match action {
        AlertAction::SendAlert => delivered,
        _ => false,
    }
}

/// The alert text for a check that is down.
pub open spec fn alert_text(
    name: Seq<char>,
    url: Seq<char>,
    error: Option<Seq<char>>,
    time: Seq<char>,
) -> Seq<char> {
    "【健康检查告警】\n名称: "@ + name + "\nURL: "@ + url + "\n原因: "@ + match error {
        Some(e) => e,
        None => "unknown error"@,
    } + "\n时间: "@ + time
}

/// The notice for a check that came back up.
pub open spec fn recovery_text(name: Seq<char>, url: Seq<char>, time: Seq<char>) -> Seq<char> {
    "【健康检查恢复】\n名称: "@ + name + "\nURL: "@ + url + "\n时间: "@ + time
}

/// Writes the alert for a check that is down, stamped with `time`.
pub fn format_alert(name: &str, url: &str, error: &Option<String>, time: &str) -> (r: String)
    ensures
        r@ == alert_text(name@, url@, opt_text(*error), time@),
{
    let mut out = "【健康检查告警】\n名称: ".to_owned();
    out.append(name);
    out.append("\nURL: ");
    out.append(url);
    out.append("\n原因: ");
    match error {
        Some(e) => out.append(e.as_str()),
        None => out.append("unknown error"),
    }
    out.append("\n时间: ");
    out.append(time);
    out
}

/// Writes the notice for a check that came back up at `time`.
pub fn format_recovery(name: &str, url: &str, time: &str) -> (r: String)
    ensures
        r@ == recovery_text(name@, url@, time@),
{
    let mut out = "【健康检查恢复】\n名称: ".to_owned();
    out.append(name);
    out.append("\nURL: ");
    out.append(url);
    out.append("\n时间: ");
    out.append(time);
    out
}

// ---------------------------------------------------------------------------
// Laws of scheduling and alerting
// ---------------------------------------------------------------------------

proof fn lemma_due_indices_from(checks: Seq<HealthCheck>, now: Instant, n: int)
    requires
        0 <= n <= checks.len(),
        checks.len() <= usize::MAX,
    ensures
        forall|k: int| 0 <= k < due_indices(checks, now, n).len() ==> #[trigger] due_indices(checks, now, n)[k] < n,
        forall|i: int|
            0 <= i < n ==> (due_indices(checks, now, n).contains(i as usize) <==> waited(
                opt_text(#[trigger] checks[i].last_checked_at),
                checks[i].interval_secs,
                now,
            )),
    decreases n,
{
    if n > 0 {
        lemma_due_indices_from(checks, now, n - 1);
        let prev = due_indices(checks, now, n - 1);
        let cur = due_indices(checks, now, n);
        assert forall|i: int|
            0 <= i < n implies (cur.contains(i as usize) <==> waited(
                opt_text(#[trigger] checks[i].last_checked_at),
                checks[i].interval_secs,
                now,
            )) by {
            if i < n - 1 {
                if cur.contains(i as usize) && !prev.contains(i as usize) {
                    let k = choose|k: int| 0 <= k < cur.len() && cur[k] == i as usize;
                    assert(k == prev.len());
                }
                if prev.contains(i as usize) {
                    let k = choose|k: int| 0 <= k < prev.len() && prev[k] == i as usize;
                    assert(cur[k] == i as usize);
                }
            } else {
                if waited(opt_text(checks[i].last_checked_at), checks[i].interval_secs, now) {
                    assert(cur[prev.len() as int] == i as usize);
                } else {
                    if cur.contains(i as usize) {
                        let k = choose|k: int| 0 <= k < cur.len() && cur[k] == i as usize;
                        assert(prev[k] < n - 1);
                    }
                }
            }
        }
    }
}

/// A check is picked on a tick exactly when its own interval has passed
/// since it was last probed (or it was never probed, or that time does not
/// read), and only checks that exist are picked.
pub proof fn lemma_due_checks(checks: Seq<HealthCheck>, now: Instant)
    requires
        checks.len() <= usize::MAX,
    ensures
        forall|k: int|
            0 <= k < due_indices(checks, now, checks.len() as int).len() ==> #[trigger] due_indices(
                checks,
                now,
                checks.len() as int,
            )[k] < checks.len(),
        forall|i: int|
            0 <= i < checks.len() ==> (due_indices(checks, now, checks.len() as int).contains(
                i as usize,
            ) <==> waited(
                opt_text(#[trigger] checks[i].last_checked_at),
                checks[i].interval_secs,
                now,
            )),
{
    lemma_due_indices_from(checks, now, checks.len() as int);
}

/// A time that was never recorded, or that does not read as RFC 3339,
/// counts as long enough ago; a readable one counts once `secs` seconds
/// have passed since it.
pub proof fn lemma_waited(last: Option<Seq<char>>, secs: i64, now: Instant)
    ensures
        match last {
            None => waited(last, secs, now),
            Some(t) => match rfc3339_instant(t) {
                None => waited(last, secs, now),
                Some(i) => waited(last, secs, now) == (elapsed_secs(now, i) >= secs),
            },
        },
{
}

/// A recovery notice is sent whatever the cooldown; a first alert is sent
/// whatever the cooldown; a repeat alert only once the cooldown has passed;
/// nothing else is sent.
pub proof fn lemma_alert_actions(cooled: bool)
    ensures
        action_for(AlertStep::Recover, cooled) == AlertAction::SendRecovery,
        action_for(AlertStep::Alert, cooled) == AlertAction::SendAlert,
        action_for(AlertStep::AlertIfCooled, cooled) == AlertAction::SendAlert <==> cooled,
        action_for(AlertStep::AlertIfCooled, cooled) != AlertAction::SendRecovery,
        action_for(AlertStep::Nothing, cooled) == AlertAction::Quiet,
{
}

/// The cooldown flag changes the action only for a repeat alert.
pub proof fn lemma_cooldown_only_matters_for_repeats(step: AlertStep, a: bool, b: bool)
    requires
        step != AlertStep::AlertIfCooled,
    ensures
        action_for(step, a) == action_for(step, b),
{
}

// ---------------------------------------------------------------------------
// Laws of alerting
// ---------------------------------------------------------------------------

/// A check that goes down alerts at once when the channel is usable.
pub proof fn lemma_first_failure_alerts(prev: Option<Seq<char>>, cfg: Option<FeishuConfig>)
    requires
        prev != Some("down"@),
        channel_usable(cfg),
    ensures
        alert_step(prev, "down"@, cfg) == AlertStep::Alert,
{
}

/// A check that stays down alerts again only after the cooldown.
pub proof fn lemma_repeat_failure_waits(cfg: Option<FeishuConfig>)
    requires
        channel_usable(cfg),
    ensures
        alert_step(Some("down"@), "down"@, cfg) == AlertStep::AlertIfCooled,
{
}

/// A check that comes back up sends a recovery notice when the channel is usable.
pub proof fn lemma_recovery_notice(status: Seq<char>, cfg: Option<FeishuConfig>)
    requires
        status != "down"@,
        channel_usable(cfg),
    ensures
        alert_step(Some("down"@), status, cfg) == AlertStep::Recover,
{
}

/// A check that was not down and is not down sends nothing.
pub proof fn lemma_steady_is_quiet(prev: Option<Seq<char>>, status: Seq<char>, cfg: Option<FeishuConfig>)
    requires
        prev != Some("down"@),
        status != "down"@,
    ensures
        alert_step(prev, status, cfg) == AlertStep::Nothing,
{
}

/// Nothing is sent on a channel that is missing, disabled or has no webhook.
pub proof fn lemma_unusable_channel_is_quiet(
    prev: Option<Seq<char>>,
    status: Seq<char>,
    cfg: Option<FeishuConfig>,
)
    requires
        !channel_usable(cfg),
    ensures
        alert_step(prev, status, cfg) == AlertStep::Nothing,
{
}

/// Within the cooldown after an alert recorded at a readable time, a repeat
/// alert is held back; once it has passed, the repeat goes out.
pub proof fn lemma_cooldown(last: Seq<char>, t: Instant, cooldown_secs: i64, now: Instant)
    requires
        rfc3339_instant(last) == Some(t),
    ensures
        waited(Some(last), cooldown_secs, now) <==> elapsed_secs(now, t) >= cooldown_secs,
{
}

/// Alerts can be sent exactly when the channel is configured, enabled, and
/// has a nonempty webhook.
pub proof fn lemma_channel_usable(cfg: Option<FeishuConfig>)
    ensures
        cfg is None ==> !channel_usable(cfg),
        cfg matches Some(c) ==> (channel_usable(cfg) <==> (c.enabled && c.webhook_url@.len() > 0)),
{
}

} // verus!
