//! Checkpoints: rules that a response body must satisfy for a check to be up.
use vstd::prelude::*;
use vstd::string::StringExecFns;
use crate::text::{
    all_ascii, ascii_lower, byte_len, chars_of, decimal, fit_count, fit_prefix, is_word_char,
    lemma_byte_len_push, lemma_fit_count, lemma_take_len_monotone, lowercase, lowercase_text,
    occurs_in, push_char, push_chars, push_decimal, text_byte_len, text_contains, text_equals,
    lemma_trimmed_keeps, trim_text, trimmed, utf8_width,
};

verus! {

broadcast use vstd::string::group_string_axioms;

/// One rule applied to a response body: a kind (`contains`, `equals`,
/// `not_contains`, `regex`, `not_regex`) and the value it compares with.
#[derive(Debug, Clone)]
pub struct CheckpointRule {
    pub kind: String,
    pub value: String,
}

/// The kinds of checkpoint that the service knows.
pub open spec fn is_known_kind(k: Seq<char>) -> bool {
    ||| k == "contains"@
    ||| k == "equals"@
    ||| k == "not_contains"@
    ||| k == "regex"@
    ||| k == "not_regex"@
}

/// The canonical form of a kind as written by a user: trimmed and lowercased.
pub open spec fn canonical_kind(kind: Seq<char>) -> Seq<char> {
    lowercase(trimmed(kind))
}

/// The names of the kinds are pairwise different.
pub proof fn lemma_kind_names_distinct()
    ensures
        "contains"@ != "equals"@,
        "contains"@ != "not_contains"@,
        "contains"@ != "regex"@,
        "contains"@ != "not_regex"@,
        "equals"@ != "not_contains"@,
        "equals"@ != "regex"@,
        "equals"@ != "not_regex"@,
        "not_contains"@ != "regex"@,
        "not_contains"@ != "not_regex"@,
        "regex"@ != "not_regex"@,
{
    reveal_strlit("contains");
    reveal_strlit("equals");
    reveal_strlit("not_contains");
    reveal_strlit("regex");
    reveal_strlit("not_regex");
    assert("contains"@.len() == 8);
    assert("equals"@.len() == 6);
    assert("not_contains"@.len() == 12);
    assert("regex"@.len() == 5);
    assert("not_regex"@.len() == 9);
}

/// Lowercase ASCII that begins and ends with a letter.
pub open spec fn plain_word(k: Seq<char>) -> bool {
    &&& k.len() > 0
    &&& is_word_char(k[0])
    &&& is_word_char(k.last())
    &&& all_ascii(k)
    &&& k.map_values(|c: char| ascii_lower(c)) == k
}

proof fn lemma_plain_word(k: Seq<char>)
    requires
        k.len() > 0,
        forall|i: int| 0 <= i < k.len() ==> ('a' <= #[trigger] k[i] <= 'z' || k[i] == '_'),
        'a' <= k[0] <= 'z',
        'a' <= k.last() <= 'z',
    ensures
        plain_word(k),
{
    assert(k.map_values(|c: char| ascii_lower(c)) =~= k);
}

/// Every known kind is a plain lowercase ASCII word.
proof fn lemma_known_kind_shape(k: Seq<char>)
    requires
        is_known_kind(k),
    ensures
        plain_word(k),
{
    if k == "contains"@ {
        reveal_strlit("contains");
        lemma_plain_word(k);
    } else if k == "equals"@ {
        reveal_strlit("equals");
        lemma_plain_word(k);
    } else if k == "not_contains"@ {
        reveal_strlit("not_contains");
        lemma_plain_word(k);
    } else if k == "regex"@ {
        reveal_strlit("regex");
        lemma_plain_word(k);
    } else {
        reveal_strlit("not_regex");
        lemma_plain_word(k);
    }
}

/// True when `k` is one of the known kinds.
fn known_kind(k: &str) -> (r: bool)
    ensures
        r == is_known_kind(k@),
{
    text_equals(k, "contains") || text_equals(k, "equals") || text_equals(k, "not_contains")
        || text_equals(k, "regex") || text_equals(k, "not_regex")
}

/// Trims and lowercases a kind; `Some` exactly when the result is a known
/// kind. A known kind is its own normal form, so normalizing twice gives
/// what normalizing once gives.
pub fn normalize_kind(kind: &str) -> (r: Option<String>)
    ensures
        match r {
            Some(k) => is_known_kind(canonical_kind(kind@)) && k@ == canonical_kind(kind@),
            None => !is_known_kind(canonical_kind(kind@)),
        },
        is_known_kind(kind@) ==> (r matches Some(k) && k@ == kind@),
{
    proof {
        if is_known_kind(kind@) {
            lemma_known_kind_shape(kind@);
        }
    }
    proof {
        if is_known_kind(kind@) {
            lemma_trimmed_keeps(kind@);
        }
    }
    let t = trim_text(kind);
    let k = lowercase_text(t);
    if known_kind(k.as_str()) {
        Some(k)
    } else {
        None
    }
}

// ---------------------------------------------------------------------------
// Regular expressions
// ---------------------------------------------------------------------------

#[verifier::external_type_specification]
#[verifier::external_body]
pub struct ExRegex(regex::Regex);

/// A compiled regular expression together with the pattern it came from.
pub struct CompiledPattern {
    re: regex::Regex,
    source: String,
}

impl View for CompiledPattern {
    type V = Seq<char>;

    closed spec fn view(&self) -> Seq<char> {
        self.source@
    }
}

/// What `regex::Regex::new` makes of a pattern: `None` when it compiles, the
/// text of its error (as `Display` writes it) when it does not.
pub uninterp spec fn regex_compile_error(pattern: Seq<char>) -> Option<Seq<char>>;

/// What `regex::Regex::is_match` answers for the compiled `pattern` on `text`.
pub uninterp spec fn regex_finds(pattern: Seq<char>, text: Seq<char>) -> bool;

/// `regex::Regex::new`: compiles `pattern`, or gives the error's text. The
/// contract names the outcome; which patterns compile is left to the name.
#[verifier::external_body]
fn compile_pattern(pattern: &str) -> (r: Result<CompiledPattern, String>)
    ensures
        match r {
            Ok(p) => p@ == pattern@ && regex_compile_error(pattern@) is None,
            Err(m) => regex_compile_error(pattern@) == Some(m@),
        },
{
    match regex::Regex::new(pattern) {
        Ok(re) => Ok(CompiledPattern { re, source: pattern.to_string() }),
        Err(e) => Err(format!("{}", e)),
    }
}

/// `regex::Regex::is_match`: whether the pattern matches anywhere in `text`.
/// The contract names the answer.
#[verifier::external_body]
fn pattern_matches(p: &CompiledPattern, text: &str) -> (r: bool)
    ensures
        r == regex_finds(p@, text@),
{
    p.re.is_match(text)
}

// ---------------------------------------------------------------------------
// Evaluating rules
// ---------------------------------------------------------------------------

/// How a compared value is shown in a failure message: at most 80 bytes,
/// with `…` appended when it was cut.
pub open spec fn shown(s: Seq<char>) -> Seq<char> {
    if byte_len(s) <= 80 {
        s
    } else {
        s.take(fit_count(s, 80) as int) + seq!['…']
    }
}

/// True when a value can be shown: it fits in 80 bytes, or byte 80 falls
/// on a character boundary (cutting elsewhere would panic).
pub open spec fn can_be_shown(s: Seq<char>) -> bool {
    byte_len(s) <= 80 || byte_len(s.take(fit_count(s, 80) as int)) == 80
}

/// The value as shown in a failure message (at most 80 bytes, then `…`).
pub fn truncate_display(s: &str) -> (r: String)
    requires
        can_be_shown(s@),
    ensures
        r@ == shown(s@),
{
    if text_byte_len(s) <= 80 {
        return s.to_owned();
    }
    let cs = chars_of(s);
    let k = fit_prefix(&cs, 80);
    let mut out = String::new();
    proof {
        lemma_fit_count(cs@, 80);
    }
    push_chars(&mut out, &cs, 0, k);
    push_char(&mut out, '…');
    assert(out@ =~= shown(s@));
    out
}

/// The label that starts every failure message of rule number `index`.
pub open spec fn rule_label(index: nat) -> Seq<char> {
    "检查点 #"@ + decimal(index)
}

/// The failure message of one rule on `body`, or `None` when the rule holds.
/// The kind is lowercased before it is read.
#[verifier::opaque]
pub open spec fn checkpoint_failure(
    body: Seq<char>,
    kind: Seq<char>,
    expected: Seq<char>,
    index: nat,
) -> Option<Seq<char>> {
    let k = lowercase(kind);
    let label = rule_label(index);
    if k == "contains"@ {
        if occurs_in(expected, body) {
            None
        } else {
            Some(label + " [包含] 响应体未包含: "@ + shown(expected))
        }
    } else if k == "equals"@ {
        if body == expected {
            None
        } else {
            Some(
                label + " [等于] 响应体与预期不一致（长度 "@ + decimal(byte_len(body)) + " vs "@
                    + decimal(byte_len(expected)) + "）"@,
            )
        }
    } else if k == "not_contains"@ {
        if !occurs_in(expected, body) {
            None
        } else {
            Some(label + " [不包含] 响应体不应包含: "@ + shown(expected))
        }
    } else if k == "regex"@ {
        match regex_compile_error(expected) {
            None => if regex_finds(expected, body) {
                None
            } else {
                Some(label + " [正则匹配] 未匹配模式: "@ + expected)
            },
            Some(e) => Some(label + " [正则匹配] 无效正则: "@ + e),
        }
    } else if k == "not_regex"@ {
        match regex_compile_error(expected) {
            None => if !regex_finds(expected, body) {
                None
            } else {
                Some(label + " [正则不匹配] 不应匹配模式: "@ + expected)
            },
            Some(e) => Some(label + " [正则不匹配] 无效正则: "@ + e),
        }
    } else {
        Some(label + " 未知类型: "@ + k)
    }
}

/// An `equals` rule holds exactly when the body is the expected text.
pub proof fn lemma_equals_rule(body: Seq<char>, kind: Seq<char>, expected: Seq<char>, index: nat)
    requires
        lowercase(kind) == "equals"@,
    ensures
        checkpoint_failure(body, kind, expected, index) is None <==> body == expected,
{
    reveal(checkpoint_failure);
    lemma_kind_names_distinct();
}

/// A `contains` rule holds exactly when the expected text occurs in the body.
pub proof fn lemma_contains_rule(body: Seq<char>, kind: Seq<char>, expected: Seq<char>, index: nat)
    requires
        lowercase(kind) == "contains"@,
    ensures
        checkpoint_failure(body, kind, expected, index) is None <==> occurs_in(expected, body),
{
    reveal(checkpoint_failure);
    lemma_kind_names_distinct();
}

/// A `not_contains` rule holds exactly when the expected text does not occur in the body.
pub proof fn lemma_not_contains_rule(
    body: Seq<char>,
    kind: Seq<char>,
    expected: Seq<char>,
    index: nat,
)
    requires
        lowercase(kind) == "not_contains"@,
    ensures
        checkpoint_failure(body, kind, expected, index) is None <==> !occurs_in(expected, body),
{
    reveal(checkpoint_failure);
    lemma_kind_names_distinct();
}

/// A `regex` rule holds exactly when its pattern compiles and matches the
/// body; a `not_regex` rule exactly when it compiles and does not match.
pub proof fn lemma_regex_rules(body: Seq<char>, kind: Seq<char>, pattern: Seq<char>, index: nat)
    requires
        lowercase(kind) == "regex"@ || lowercase(kind) == "not_regex"@,
    ensures
        lowercase(kind) == "regex"@ ==> (checkpoint_failure(body, kind, pattern, index) is None <==> (
        regex_compile_error(pattern) is None && regex_finds(pattern, body))),
        lowercase(kind) == "not_regex"@ ==> (checkpoint_failure(body, kind, pattern, index) is None
            <==> (regex_compile_error(pattern) is None && !regex_finds(pattern, body))),
{
    reveal(checkpoint_failure);
    lemma_kind_names_distinct();
}

/// A rule of a kind that is not known always fails.
pub proof fn lemma_unknown_kind_fails(body: Seq<char>, kind: Seq<char>, expected: Seq<char>, index: nat)
    requires
        !is_known_kind(lowercase(kind)),
    ensures
        checkpoint_failure(body, kind, expected, index) is Some,
{
    reveal(checkpoint_failure);
}

/// Every failure message begins with the rule's label, `检查点 #<index>`.
pub proof fn lemma_failure_starts_with_label(
    body: Seq<char>,
    kind: Seq<char>,
    expected: Seq<char>,
    index: nat,
)
    ensures
        checkpoint_failure(body, kind, expected, index) matches Some(m) ==> m.len() >= rule_label(
            index,
        ).len() && m.take(rule_label(index).len() as int) == rule_label(index),
{
    reveal(checkpoint_failure);
    let label = rule_label(index);
    if let Some(m) = checkpoint_failure(body, kind, expected, index) {
        let rest = m.skip(label.len() as int);
        assert(m =~= label + rest);
        assert(m.take(label.len() as int) =~= label);
    }
}

/// A `contains` rule and a `not_contains` rule on the same value disagree:
/// exactly one of them fails on any body.
pub proof fn lemma_contains_complementary(
    body: Seq<char>,
    contains_kind: Seq<char>,
    not_contains_kind: Seq<char>,
    value: Seq<char>,
    index: nat,
)
    requires
        lowercase(contains_kind) == "contains"@,
        lowercase(not_contains_kind) == "not_contains"@,
    ensures
        checkpoint_failure(body, contains_kind, value, index) is None <==> checkpoint_failure(
            body,
            not_contains_kind,
            value,
            index,
        ) is Some,
{
    reveal(checkpoint_failure);
    lemma_kind_names_distinct();
}

/// A `regex` rule and a `not_regex` rule on the same valid pattern disagree:
/// exactly one of them fails on any body. An invalid pattern fails both.
pub proof fn lemma_regex_complementary(
    body: Seq<char>,
    regex_kind: Seq<char>,
    not_regex_kind: Seq<char>,
    pattern: Seq<char>,
    index: nat,
)
    requires
        lowercase(regex_kind) == "regex"@,
        lowercase(not_regex_kind) == "not_regex"@,
    ensures
        regex_compile_error(pattern) is None ==> (checkpoint_failure(
            body,
            regex_kind,
            pattern,
            index,
        ) is None <==> checkpoint_failure(body, not_regex_kind, pattern, index) is Some),
        regex_compile_error(pattern) is Some ==> checkpoint_failure(body, regex_kind, pattern, index)
            is Some && checkpoint_failure(body, not_regex_kind, pattern, index) is Some,
{
    reveal(checkpoint_failure);
    lemma_kind_names_distinct();
}

/// True when evaluating one rule does not reach a cut of its value inside a
/// character: only failed `contains` and `not_contains` rules show the value.
pub open spec fn rule_evaluable(body: Seq<char>, kind: Seq<char>, expected: Seq<char>) -> bool {
    let k = lowercase(kind);
    ((k == "contains"@ && !occurs_in(expected, body)) || (k == "not_contains"@ && occurs_in(
        expected,
        body,
    ))) ==> can_be_shown(expected)
}

fn start_message(index: usize) -> (r: String)
    ensures
        r@ == rule_label(index as nat),
{
    let mut out = "检查点 #".to_owned();
    push_decimal(&mut out, index as u64);
    out
}

/// Evaluates one rule on `body`: `None` when it holds, else why it failed.
pub fn evaluate_one(body: &str, kind: &str, expected: &str, index: usize) -> (r: Option<String>)
    requires
        rule_evaluable(body@, kind@, expected@),
    ensures
        match r {
            None => checkpoint_failure(body@, kind@, expected@, index as nat) is None,
            Some(m) => checkpoint_failure(body@, kind@, expected@, index as nat) == Some(m@),
        },
{
    reveal(checkpoint_failure);
    let kind = lowercase_text(kind);
    let k = kind.as_str();
    let mut msg = start_message(index);
    if text_equals(k, "contains") {
        if text_contains(body, expected) {
            None
        } else {
            msg.append(" [包含] 响应体未包含: ");
            let shown_value = truncate_display(expected);
            msg.append(shown_value.as_str());
            Some(msg)
        }
    } else if text_equals(k, "equals") {
        if text_equals(body, expected) {
            None
        } else {
            msg.append(" [等于] 响应体与预期不一致（长度 ");
            push_decimal(&mut msg, text_byte_len(body) as u64);
            msg.append(" vs ");
            push_decimal(&mut msg, text_byte_len(expected) as u64);
            msg.append("）");
            Some(msg)
        }
    } else if text_equals(k, "not_contains") {
        if !text_contains(body, expected) {
            None
        } else {
            msg.append(" [不包含] 响应体不应包含: ");
            let shown_value = truncate_display(expected);
            msg.append(shown_value.as_str());
            Some(msg)
        }
    } else if text_equals(k, "regex") {
        match compile_pattern(expected) {
            Ok(re) => {
                if pattern_matches(&re, body) {
                    None
                } else {
                    msg.append(" [正则匹配] 未匹配模式: ");
                    msg.append(expected);
                    Some(msg)
                }
            },
            Err(e) => {
                msg.append(" [正则匹配] 无效正则: ");
                msg.append(e.as_str());
                Some(msg)
            },
        }
    } else if text_equals(k, "not_regex") {
        match compile_pattern(expected) {
            Ok(re) => {
                if !pattern_matches(&re, body) {
                    None
                } else {
                    msg.append(" [正则不匹配] 不应匹配模式: ");
                    msg.append(expected);
                    Some(msg)
                }
            },
            Err(e) => {
                msg.append(" [正则不匹配] 无效正则: ");
                msg.append(e.as_str());
                Some(msg)
            },
        }
    } else {
        msg.append(" 未知类型: ");
        msg.append(k);
        Some(msg)
    }
}

/// The first failure among `rules[i..]` (numbered from one), or `None`.
pub open spec fn first_failure_from(body: Seq<char>, rules: Seq<CheckpointRule>, i: int) -> Option<
    Seq<char>,
>
    decreases rules.len() - i,
{
    if i < 0 || i >= rules.len() {
        None
    } else {
        match checkpoint_failure(body, rules[i].kind@, rules[i].value@, (i + 1) as nat) {
            Some(m) => Some(m),
            None => first_failure_from(body, rules, i + 1),
        }
    }
}

/// The failure message of rule `i` (numbered `i + 1`), if it fails.
pub open spec fn rule_failure(body: Seq<char>, rules: Seq<CheckpointRule>, i: int) -> Option<
    Seq<char>,
> {
    checkpoint_failure(body, rules[i].kind@, rules[i].value@, (i + 1) as nat)
}

proof fn lemma_first_failure_from(body: Seq<char>, rules: Seq<CheckpointRule>, i: int)
    requires
        0 <= i <= rules.len(),
    ensures
        first_failure_from(body, rules, i) is None <==> forall|j: int|
            i <= j < rules.len() ==> #[trigger] rule_failure(body, rules, j) is None,
        first_failure_from(body, rules, i) matches Some(m) ==> exists|k: int|
            i <= k < rules.len() && #[trigger] rule_failure(body, rules, k) == Some(m) && forall|j: int|
                i <= j < k ==> #[trigger] rule_failure(body, rules, j) is None,
    decreases rules.len() - i,
{
    if i < rules.len() {
        lemma_first_failure_from(body, rules, i + 1);
        if rule_failure(body, rules, i) is None {
            if first_failure_from(body, rules, i + 1) is Some {
                let m = first_failure_from(body, rules, i + 1)->0;
                let k = choose|k: int|
                    i + 1 <= k < rules.len() && #[trigger] rule_failure(body, rules, k) == Some(m)
                        && forall|j: int| i + 1 <= j < k ==> #[trigger] rule_failure(body, rules, j) is None;
                assert(forall|j: int| i <= j < k ==> #[trigger] rule_failure(body, rules, j) is None);
            }
        } else {
            assert(forall|j: int| i <= j < i ==> #[trigger] rule_failure(body, rules, j) is None);
        }
    }
}

/// Evaluating rules reports nothing exactly when every rule holds, and
/// otherwise the message of the first rule that fails.
pub proof fn lemma_first_failure(body: Seq<char>, rules: Seq<CheckpointRule>)
    ensures
        first_failure(body, rules) is None <==> forall|j: int|
            0 <= j < rules.len() ==> #[trigger] rule_failure(body, rules, j) is None,
        first_failure(body, rules) matches Some(m) ==> exists|k: int|
            0 <= k < rules.len() && #[trigger] rule_failure(body, rules, k) == Some(m) && forall|j: int|
                0 <= j < k ==> #[trigger] rule_failure(body, rules, j) is None,
{
    lemma_first_failure_from(body, rules, 0);
}

/// The first failing rule's message, or `None` when every rule holds.
pub open spec fn first_failure(body: Seq<char>, rules: Seq<CheckpointRule>) -> Option<Seq<char>> {
    first_failure_from(body, rules, 0)
}

/// True when evaluating `rules[i..]` in order stops before a value that
/// cannot be shown.
pub open spec fn rules_evaluable_from(body: Seq<char>, rules: Seq<CheckpointRule>, i: int) -> bool
    decreases rules.len() - i,
{
    if i < 0 || i >= rules.len() {
        true
    } else if checkpoint_failure(body, rules[i].kind@, rules[i].value@, (i + 1) as nat) is Some {
        rule_evaluable(body, rules[i].kind@, rules[i].value@)
    } else {
        rules_evaluable_from(body, rules, i + 1)
    }
}

/// True when evaluating all rules on `body` never cuts a value inside a character.
pub open spec fn rules_evaluable(body: Seq<char>, rules: Seq<CheckpointRule>) -> bool {
    rules_evaluable_from(body, rules, 0)
}

/// Runs every rule on the response body in order and returns the first
/// failure message, or `None` when all rules hold.
pub fn evaluate_all(body: &str, rules: &[CheckpointRule]) -> (r: Option<String>)
    requires
        rules_evaluable(body@, rules@),
    ensures
        match r {
            None => first_failure(body@, rules@) is None,
            Some(m) => first_failure(body@, rules@) == Some(m@),
        },
{
    let mut i: usize = 0;
    while i < rules.len()
        invariant
            i <= rules@.len(),
            first_failure_from(body@, rules@, i as int) == first_failure(body@, rules@),
            rules_evaluable_from(body@, rules@, i as int),
        decreases rules@.len() - i,
    {
        let rule = &rules[i];
        proof {
            if checkpoint_failure(body@, rule.kind@, rule.value@, (i + 1) as nat) is None {
                assert(rules_evaluable_from(body@, rules@, i + 1));
                reveal(checkpoint_failure);
                lemma_kind_names_distinct();
                assert(rule_evaluable(body@, rule.kind@, rule.value@));
            }
        }
        match evaluate_one(body, rule.kind.as_str(), rule.value.as_str(), i + 1) {
            Some(msg) => {
                return Some(msg);
            },
            None => {},
        }
        i = i + 1;
    }
    None
}

/// True when evaluating `rules` on `body` never cuts a value inside a
/// character (the condition under which `evaluate_all` may be called).
pub fn rules_are_evaluable(body: &str, rules: &[CheckpointRule]) -> (r: bool)
    ensures
        r == rules_evaluable(body@, rules@),
{
    let mut i: usize = 0;
    while i < rules.len()
        invariant
            i <= rules@.len(),
            rules_evaluable_from(body@, rules@, i as int) == rules_evaluable(body@, rules@),
        decreases rules@.len() - i,
    {
        let rule = &rules[i];
        proof {
            reveal(checkpoint_failure);
            lemma_kind_names_distinct();
        }
        let kind = lowercase_text(rule.kind.as_str());
        let k = kind.as_str();
        let value = rule.value.as_str();
        let contains_kind = text_equals(k, "contains");
        let not_contains_kind = text_equals(k, "not_contains");
        if contains_kind || not_contains_kind {
            let found = text_contains(body, value);
            if (contains_kind && !found) || (not_contains_kind && found) {
                return value_can_be_shown(value);
            }
        } else if text_equals(k, "equals") {
            if !text_equals(body, value) {
                return true;
            }
        } else if text_equals(k, "regex") || text_equals(k, "not_regex") {
            match compile_pattern(value) {
                Ok(re) => {
                    let found = pattern_matches(&re, body);
                    if (text_equals(k, "regex") && !found) || (text_equals(k, "not_regex") && found) {
                        return true;
                    }
                },
                Err(_) => {
                    return true;
                },
            }
        } else {
            return true;
        }
        i = i + 1;
    }
    true
}

/// True when the value can be shown in a failure message without cutting a character.
pub fn value_can_be_shown(s: &str) -> (r: bool)
    ensures
        r == can_be_shown(s@),
{
    if text_byte_len(s) <= 80 {
        return true;
    }
    let cs = chars_of(s);
    let k = fit_prefix(&cs, 80);
    let mut acc: usize = 0;
    let mut j: usize = 0;
    proof {
        lemma_fit_count(cs@, 80);
        assert(cs@.take(0) =~= Seq::<char>::empty());
        assert(vstd::utf8::encode_utf8(Seq::<char>::empty()) =~= Seq::<u8>::empty());
    }
    while j < k
        invariant
            j <= k <= cs@.len(),
            byte_len(cs@.take(k as int)) <= 80,
            acc == byte_len(cs@.take(j as int)),
        decreases k - j,
    {
        proof {
            assert(cs@.take(j + 1) =~= cs@.take(j as int).push(cs@[j as int]));
            lemma_byte_len_push(cs@.take(j as int), cs@[j as int]);
            lemma_take_len_monotone(cs@, j + 1, k as int);
        }
        acc = acc + utf8_width(cs[j]);
        j = j + 1;
    }
    acc == 80
}

/// The known kinds are exactly `contains`, `equals`, `not_contains`,
/// `regex` and `not_regex`.
pub proof fn lemma_known_kinds(k: Seq<char>)
    ensures
        is_known_kind("contains"@),
        is_known_kind("equals"@),
        is_known_kind("not_contains"@),
        is_known_kind("regex"@),
        is_known_kind("not_regex"@),
        is_known_kind(k) ==> k == "contains"@ || k == "equals"@ || k == "not_contains"@ || k
            == "regex"@ || k == "not_regex"@,
{
}

/// A value of at most 80 bytes is shown whole; a longer one is shown as its
/// longest prefix of at most 80 bytes followed by `…`.
pub proof fn lemma_shown(s: Seq<char>)
    ensures
        byte_len(s) <= 80 ==> shown(s) == s,
        byte_len(s) > 80 ==> ({
            let k = fit_count(s, 80) as int;
            &&& shown(s) == s.take(k) + seq!['…']
            &&& k <= s.len()
            &&& byte_len(s.take(k)) <= 80
            &&& forall|j: int| k < j <= s.len() ==> byte_len(#[trigger] s.take(j)) > 80
        }),
{
    lemma_fit_count(s, 80);
}

} // verus!
