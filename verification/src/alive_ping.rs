//! The daily "still alive" message: when it is due, where it goes, and the
//! record of the last day it was sent.
use vstd::prelude::*;
use vstd::string::StringExecFns;
use crate::config::{AppConfig, TimeOfDay};
use crate::text::{
    chars_of, is_white_space, lemma_trimmed_keeps, opt_text, push_chars, text_equals, trim_text,
    trimmed,
};

verus! {

broadcast use vstd::string::group_string_axioms;

/// `a` is at or after `b` within the day.
pub open spec fn time_reached(a: TimeOfDay, b: TimeOfDay) -> bool {
    a.secs > b.secs || (a.secs == b.secs && a.nanos >= b.nanos)
}

/// True when the time of day `now` has reached the `target` send time.
pub fn due_today(now: TimeOfDay, target: TimeOfDay) -> (r: bool)
    ensures
        r == time_reached(now, target),
{
    now.secs > target.secs || (now.secs == target.secs && now.nanos >= target.nanos)
}

/// The message is sent when it is enabled, the send time has been reached
/// today, and it was not yet sent today.
pub open spec fn ping_wanted(
    enabled: bool,
    now: TimeOfDay,
    send_time: TimeOfDay,
    today: Seq<char>,
    last_sent: Option<Seq<char>>,
) -> bool {
    enabled && time_reached(now, send_time) && last_sent != Some(today)
}

/// Decides whether the message goes out now (see `ping_wanted`).
pub fn should_ping(
    enabled: bool,
    now: TimeOfDay,
    send_time: TimeOfDay,
    today: &str,
    last_sent: &Option<String>,
) -> (r: bool)
    ensures
        r == ping_wanted(enabled, now, send_time, today@, opt_text(*last_sent)),
{
    if !enabled || !due_today(now, send_time) {
        return false;
    }
    match last_sent {
        Some(d) => !text_equals(d.as_str(), today),
        None => true,
    }
}

/// The channels the message goes to: Feishu when enabled with a webhook,
/// PushPlus when enabled with a token (blank values count as missing).
pub fn ping_channels(cfg: &AppConfig) -> (r: (bool, bool))
    ensures
        r.0 == (cfg.feishu.enabled && trimmed(cfg.feishu.webhook_url@).len() > 0),
        r.1 == (cfg.pushplus.enabled && trimmed(cfg.pushplus.token@).len() > 0),
{
    let feishu_on = cfg.feishu.enabled && !trim_text(cfg.feishu.webhook_url.as_str()).is_empty();
    let push_on = cfg.pushplus.enabled && !trim_text(cfg.pushplus.token.as_str()).is_empty();
    (feishu_on, push_on)
}

/// The Feishu text of the message: the title in brackets, the message and the time.
pub fn feishu_ping_text(title: &str, message: &str, time: &str) -> (r: String)
    ensures
        r@ == "【"@ + title@ + "】\n"@ + message@ + "\n时间: "@ + time@,
{
    let mut out = "【".to_owned();
    out.append(title);
    out.append("】\n");
    out.append(message);
    out.append("\n时间: ");
    out.append(time);
    out
}

/// The PushPlus content of the message: the message and the time.
pub fn pushplus_ping_text(message: &str, time: &str) -> (r: String)
    ensures
        r@ == message@ + "\n时间: "@ + time@,
{
    let mut out = message.to_owned();
    out.append("\n时间: ");
    out.append(time);
    out
}

/// The message counts as sent when some enabled channel accepted it.
pub fn ping_delivered(feishu_on: bool, feishu_ok: bool, push_on: bool, push_ok: bool) -> (r: bool)
    ensures
        r == ((feishu_on && feishu_ok) || (push_on && push_ok)),
{
    (feishu_on && feishu_ok) || (push_on && push_ok)
}

/// The first line of a text as `str::lines` yields it: up to the first line
/// feed, without a carriage return just before it; empty for empty text.
pub open spec fn first_line(s: Seq<char>) -> Seq<char> {
    if exists|k: int| 0 <= k < s.len() && s[k] == '\n' {
        let k = choose|k: int|
            0 <= k < s.len() && s[k] == '\n' && forall|j: int| 0 <= j < k ==> s[j] != '\n';
        if k > 0 && s[k - 1] == '\r' {
            s.take(k - 1)
        } else {
            s.take(k)
        }
    } else {
        s
    }
}

/// The first line of a text (see `first_line`).
pub fn first_line_of(s: &str) -> (r: String)
    ensures
        r@ == first_line(s@),
{
    let cs = chars_of(s);
    let mut i: usize = 0;
    while i < cs.len()
        invariant
            i <= cs@.len(),
            cs@ == s@,
            forall|j: int| 0 <= j < i ==> cs@[j] != '\n',
        decreases cs@.len() - i,
    {
        if cs[i] == '\n' {
            let end = if i > 0 && cs[i - 1] == '\r' {
                i - 1
            } else {
                i
            };
            let mut out = String::new();
            push_chars(&mut out, &cs, 0, end);
            proof {
                let k = choose|k: int|
                    0 <= k < s@.len() && s@[k] == '\n' && forall|j: int| 0 <= j < k ==> s@[j] != '\n';
                assert(0 <= i < s@.len() && s@[i as int] == '\n' && forall|j: int|
                    0 <= j < i ==> s@[j] != '\n');
                assert(k == i) by {
                    if k < i {
                        assert(s@[k] != '\n');
                    }
                    if k > i {
                        assert(s@[i as int] != '\n');
                    }
                }
                assert(out@ =~= first_line(s@));
            }
            return out;
        }
        i = i + 1;
    }
    assert(cs@.subrange(0, cs@.len() as int) =~= s@);
    let mut out = String::new();
    push_chars(&mut out, &cs, 0, cs.len());
    assert(out@ =~= s@);
    out
}

/// The last day the message was sent, as recorded in the state file: its
/// first line, trimmed; nothing when that is blank.
pub open spec fn recorded_date(content: Seq<char>) -> Option<Seq<char>> {
    let line = trimmed(first_line(content));
    if line.len() == 0 {
        None
    } else {
        Some(line)
    }
}

/// Reads the last day the message was sent from the state file's content.
pub fn last_sent_date(content: &str) -> (r: Option<String>)
    ensures
        opt_text(r) == recorded_date(content@),
{
    let line = first_line_of(content);
    let t = trim_text(line.as_str());
    if t.is_empty() {
        None
    } else {
        Some(t.to_owned())
    }
}

/// The state file's content recording that the message was sent on `date`.
pub fn sent_date_content(date: &str) -> (r: String)
    ensures
        r@ == date@ + "\n"@,
{
    let mut out = date.to_owned();
    out.append("\n");
    out
}

/// The daily message goes out exactly when it is enabled, its send time has
/// been reached today, and the recorded day (if any) is not today: with no
/// recorded day it goes out as soon as the send time is reached.
pub proof fn lemma_ping_rule(
    enabled: bool,
    now: TimeOfDay,
    send_time: TimeOfDay,
    today: Seq<char>,
    last_sent: Option<Seq<char>>,
)
    ensures
        ping_wanted(enabled, now, send_time, today, None) == (enabled && time_reached(now, send_time)),
        last_sent == Some(today) ==> !ping_wanted(enabled, now, send_time, today, last_sent),
        last_sent != Some(today) ==> ping_wanted(enabled, now, send_time, today, last_sent) == (
        enabled && time_reached(now, send_time)),
        !enabled ==> !ping_wanted(enabled, now, send_time, today, last_sent),
{
}

/// The send time is reached from that time of day on, and not before.
pub proof fn lemma_time_reached(now: TimeOfDay, target: TimeOfDay)
    ensures
        time_reached(target, target),
        now.secs > target.secs ==> time_reached(now, target),
        now.secs < target.secs ==> !time_reached(now, target),
        now.secs == target.secs ==> (time_reached(now, target) <==> now.nanos >= target.nanos),
{
}

/// A day as written to the state file: not empty, on one line, and neither
/// starting nor ending with white space (as `YYYY-MM-DD` is).
pub open spec fn is_day_text(d: Seq<char>) -> bool {
    &&& d.len() > 0
    &&& forall|i: int| 0 <= i < d.len() ==> #[trigger] d[i] != '\n'
    &&& !is_white_space(d[0])
    &&& !is_white_space(d.last())
}

/// Reading back the state file written for day `d` gives `d`, so once the
/// message was sent on a day, it is not wanted again that day.
pub proof fn lemma_sent_day_blocks_second_ping(
    d: Seq<char>,
    enabled: bool,
    now: TimeOfDay,
    send_time: TimeOfDay,
)
    requires
        is_day_text(d),
    ensures
        recorded_date(d + "\n"@) == Some(d),
        !ping_wanted(enabled, now, send_time, d, recorded_date(d + "\n"@)),
{
    reveal_strlit("\n");
    let s = d + "\n"@;
    let n = d.len() as int;
    assert(s[n] == '\n');
    assert(forall|j: int| 0 <= j < n ==> s[j] != '\n') by {
        assert forall|j: int| 0 <= j < n implies s[j] != '\n' by {
            assert(s[j] == d[j]);
        }
    }
    let k = choose|k: int|
        0 <= k < s.len() && s[k] == '\n' && forall|j: int| 0 <= j < k ==> s[j] != '\n';
    assert(k == n) by {
        if k < n {
            assert(s[k] == d[k]);
        }
        if k > n {
            assert(s[n] != '\n');
        }
    }
    assert(s[n - 1] == d.last());
    assert(s.take(n) =~= d);
    assert(first_line(s) == d);
    lemma_trimmed_keeps(d);
}

/// What `std::path::Path::parent` gives for a path: the path without its
/// last component, or `None` when there is no parent.
pub uninterp spec fn path_parent(p: Seq<char>) -> Option<Seq<char>>;

/// What `std::path::Path::join` gives for a base path and a name.
pub uninterp spec fn path_join(base: Seq<char>, name: Seq<char>) -> Seq<char>;

/// `std::path::Path::parent`, read back as text. The contract names the result.
#[verifier::external_body]
fn parent_dir(p: &str) -> (r: Option<String>)
    ensures
        opt_text(r) == path_parent(p@),
{
    match std::path::Path::new(p).parent() {
        Some(d) => Some(d.to_string_lossy().into_owned()),
        None => None,
    }
}

/// `std::path::Path::join`, read back as text. The contract names the result.
#[verifier::external_body]
fn join_path(base: &str, name: &str) -> (r: String)
    ensures
        r@ == path_join(base@, name@),
{
    std::path::Path::new(base).join(name).to_string_lossy().into_owned()
}

/// Where the day of the last message is recorded: `last_alive_ping.date`
/// beside the database, or in `data` when the database path has no parent.
pub fn state_file_path(cfg: &AppConfig) -> (r: String)
    ensures
        r@ == path_join(
            match path_parent(cfg.database.path@) {
                Some(d) => d,
                None => "data"@,
            },
            "last_alive_ping.date"@,
        ),
{
    let db = cfg.database_path();
    match parent_dir(db.as_str()) {
        Some(d) => join_path(d.as_str(), "last_alive_ping.date"),
        None => join_path("data", "last_alive_ping.date"),
    }
}

} // verus!
