//! Checkpoints as stored: which rules a probe runs, and the rows written
//! when a check's checkpoints are replaced.
use vstd::prelude::*;
use crate::checkpoints::CheckpointRule;
use crate::models::{CheckCheckpoint, CheckpointInput};
use crate::text::{trim_text, trimmed};

verus! {

broadcast use vstd::string::group_string_axioms;

/// The enabled stored checkpoints among the first `n`, in order, as rules.
pub open spec fn enabled_prefix(rows: Seq<CheckCheckpoint>, n: int) -> Seq<(Seq<char>, Seq<char>)>
    decreases n,
{
    if n <= 0 {
        Seq::empty()
    } else if rows[n - 1].enabled {
        enabled_prefix(rows, n - 1).push((rows[n - 1].kind@, rows[n - 1].value@))
    } else {
        enabled_prefix(rows, n - 1)
    }
}

/// The kind and value of each rule.
pub open spec fn rule_pairs(rules: Seq<CheckpointRule>) -> Seq<(Seq<char>, Seq<char>)> {
    rules.map_values(|r: CheckpointRule| (r.kind@, r.value@))
}

/// The rules a probe runs: the enabled stored checkpoints, in their stored order.
pub fn enabled_rules(rows: Vec<CheckCheckpoint>) -> (r: Vec<CheckpointRule>)
    ensures
        rule_pairs(r@) == enabled_prefix(rows@, rows@.len() as int),
{
    let mut out: Vec<CheckpointRule> = Vec::new();
    let mut i: usize = 0;
    while i < rows.len()
        invariant
            i <= rows@.len(),
            rule_pairs(out@) == enabled_prefix(rows@, i as int),
        decreases rows@.len() - i,
    {
        let row = &rows[i];
        if row.enabled {
            let ghost before = out@;
            out.push(CheckpointRule { kind: row.kind.clone(), value: row.value.clone() });
            assert(rule_pairs(out@) =~= rule_pairs(before).push((row.kind@, row.value@)));
        }
        i = i + 1;
    }
    out
}

/// A checkpoint row as it is inserted.
#[derive(Debug)]
pub struct CheckpointRow {
    pub kind: String,
    pub value: String,
    pub enabled: bool,
    pub sort_order: i64,
}

/// The rows written for `items`: in order, with the value trimmed, enabled
/// unless the input says otherwise, and the position as sort order.
pub fn checkpoint_rows(items: &[CheckpointInput]) -> (r: Vec<CheckpointRow>)
    ensures
        r@.len() == items@.len(),
        forall|j: int|
            0 <= j < items@.len() ==> {
                &&& (#[trigger] r@[j]).kind == items@[j].kind
                &&& r@[j].value@ == trimmed(items@[j].value@)
                &&& r@[j].enabled == match items@[j].enabled {
                    Some(e) => e,
                    None => true,
                }
                &&& r@[j].sort_order == j as i64
            },
{
    let mut out: Vec<CheckpointRow> = Vec::new();
    let mut i: usize = 0;
    while i < items.len()
        invariant
            i <= items@.len(),
            out@.len() == i,
            forall|j: int|
                0 <= j < i ==> {
                    &&& (#[trigger] out@[j]).kind == items@[j].kind
                    &&& out@[j].value@ == trimmed(items@[j].value@)
                    &&& out@[j].enabled == match items@[j].enabled {
                        Some(e) => e,
                        None => true,
                    }
                    &&& out@[j].sort_order == j as i64
                },
        decreases items@.len() - i,
    {
        let item = &items[i];
        let enabled = match item.enabled {
            Some(e) => e,
            None => true,
        };
        out.push(
            CheckpointRow {
                kind: item.kind.clone(),
                value: trim_text(item.value.as_str()).to_owned(),
                enabled,
                sort_order: i as i64,
            },
        );
        i = i + 1;
    }
    out
}

proof fn lemma_enabled_prefix_extremes(rows: Seq<CheckCheckpoint>, n: int)
    requires
        0 <= n <= rows.len(),
    ensures
        (forall|j: int| 0 <= j < n ==> !(#[trigger] rows[j]).enabled) ==> enabled_prefix(rows, n)
            == Seq::<(Seq<char>, Seq<char>)>::empty(),
        (forall|j: int| 0 <= j < n ==> (#[trigger] rows[j]).enabled) ==> enabled_prefix(rows, n)
            =~= Seq::new(n as nat, |j: int| (rows[j].kind@, rows[j].value@)),
    decreases n,
{
    if n > 0 {
        lemma_enabled_prefix_extremes(rows, n - 1);
    }
}

/// Disabled checkpoints are never run, and when every checkpoint is enabled
/// all of them are run, in their stored order.
pub proof fn lemma_enabled_rules(rows: Seq<CheckCheckpoint>)
    ensures
        (forall|j: int| 0 <= j < rows.len() ==> !(#[trigger] rows[j]).enabled) ==> enabled_prefix(
            rows,
            rows.len() as int,
        ).len() == 0,
        (forall|j: int| 0 <= j < rows.len() ==> (#[trigger] rows[j]).enabled) ==> enabled_prefix(
            rows,
            rows.len() as int,
        ) == rows.map_values(|r: CheckCheckpoint| (r.kind@, r.value@)),
{
    lemma_enabled_prefix_extremes(rows, rows.len() as int);
    if forall|j: int| 0 <= j < rows.len() ==> (#[trigger] rows[j]).enabled {
        assert(enabled_prefix(rows, rows.len() as int) =~= rows.map_values(
            |r: CheckCheckpoint| (r.kind@, r.value@),
        ));
    }
}

} // verus!
