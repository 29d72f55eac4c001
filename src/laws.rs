use vstd::prelude::*;

use crate::model::{Condition, Configuration, LogLevel, NodeCondition, Taint, TaintEffect, Time};
use crate::pattern::regex_finds;
use crate::reconciler::{
    additions, carries, condition_satisfied, eligible, outcome_of, pattern_satisfied, same_slot, synthesized, MatcherOutcome,
};
use crate::text::occurs_in;
use crate::update::{conflict_phrase, outcome_of_update, UpdateOutcome};

verus! {

/// For a node that reports at least one condition, eligibility is a
/// conjunction over the matcher's pattern pairs of a disjunction over the
/// node's conditions: every pair has some condition whose type and status it
/// matches.
pub proof fn eligibility_is_all_of_any(have: Seq<NodeCondition>, want: Seq<Condition>)
    requires
        have.len() > 0,
    ensures
        eligible(have, want) <==> (forall|i: int|
            0 <= i < want.len() ==> #[trigger] pattern_satisfied(want[i], have)),
        forall|w: Condition|
            #[trigger] pattern_satisfied(w, have) <==> exists|j: int|
                0 <= j < have.len() && regex_finds(w.type_@, (#[trigger] have[j]).type_@)
                    && regex_finds(w.status@, have[j].status@),
{
}

/// A node that reports no condition is eligible for no matcher, and gets no taint.
pub proof fn no_conditions_no_taints(taints: Seq<Taint>, ms: Seq<Configuration>, now: Time)
    ensures
        forall|i: int| 0 <= i < ms.len() ==> !eligible(Seq::empty(), #[trigger] ms[i].conditions@),
        additions(Seq::empty(), taints, ms, now) == Seq::<Taint>::empty(),
    decreases ms.len(),
{
    if ms.len() > 0 {
        no_conditions_no_taints(taints, ms.drop_last(), now);
    }
}

/// Every added taint is one of an eligible matcher whose key and effect the
/// node does not carry yet, and every such matcher's taint is added.
pub proof fn additions_are_the_eligible_new_taints(
    conds: Seq<NodeCondition>,
    taints: Seq<Taint>,
    ms: Seq<Configuration>,
    now: Time,
    x: Taint,
)
    ensures
        additions(conds, taints, ms, now).contains(x) <==> exists|i: int|
            0 <= i < ms.len() && outcome_of(conds, taints, #[trigger] ms[i]) == MatcherOutcome::Add
                && x == synthesized(ms[i].taint, now),
    decreases ms.len(),
{
    if ms.len() > 0 {
        let init = ms.drop_last();
        additions_are_the_eligible_new_taints(conds, taints, init, now, x);
        let before = additions(conds, taints, init, now);
        let last = ms.len() - 1;
        if outcome_of(conds, taints, ms[last]) == MatcherOutcome::Add {
            let a = synthesized(ms[last].taint, now);
            assert(before.push(a).contains(x) <==> before.contains(x) || x == a) by {
                if x == a {
                    assert(before.push(a)[before.len() as int] == x);
                }
                if before.contains(x) {
                    let k = choose|k: int| 0 <= k < before.len() && before[k] == x;
                    assert(before.push(a)[k] == x);
                }
            }
        }
        if exists|i: int|
            0 <= i < ms.len() && outcome_of(conds, taints, #[trigger] ms[i]) == MatcherOutcome::Add
                && x == synthesized(ms[i].taint, now) {
            let i = choose|i: int|
                0 <= i < ms.len() && outcome_of(conds, taints, #[trigger] ms[i])
                    == MatcherOutcome::Add && x == synthesized(ms[i].taint, now);
            if i < last {
                assert(init[i] == ms[i]);
            }
        }
        assert forall|i: int|
            0 <= i < init.len() && outcome_of(conds, taints, #[trigger] init[i])
                == MatcherOutcome::Add && x == synthesized(init[i].taint, now) implies exists|
            i2: int,
        |
            0 <= i2 < ms.len() && outcome_of(conds, taints, #[trigger] ms[i2])
                == MatcherOutcome::Add && x == synthesized(ms[i2].taint, now) by {
            assert(ms[i] == init[i]);
        }
    }
}

/// No added taint has the key and effect of a taint the node already carries.
pub proof fn added_taints_are_new(
    conds: Seq<NodeCondition>,
    taints: Seq<Taint>,
    ms: Seq<Configuration>,
    now: Time,
)
    ensures
        forall|k: int|
            0 <= k < additions(conds, taints, ms, now).len() ==> !carries(
                taints,
                #[trigger] additions(conds, taints, ms, now)[k],
            ),
{
    let added = additions(conds, taints, ms, now);
    assert forall|k: int| 0 <= k < added.len() implies !carries(taints, #[trigger] added[k]) by {
        additions_are_the_eligible_new_taints(conds, taints, ms, now, added[k]);
        assert(added.contains(added[k]));
        let i = choose|i: int|
            0 <= i < ms.len() && outcome_of(conds, taints, #[trigger] ms[i]) == MatcherOutcome::Add
                && added[k] == synthesized(ms[i].taint, now);
        if carries(taints, added[k]) {
            let j = choose|j: int| 0 <= j < taints.len() && same_slot(#[trigger] taints[j], added[k]);
            assert(same_slot(taints[j], ms[i].taint));
        }
    }
}

/// A pass in which no matcher adds its taint adds nothing.
proof fn nothing_to_add(
    conds: Seq<NodeCondition>,
    taints: Seq<Taint>,
    ms: Seq<Configuration>,
    now: Time,
)
    requires
        forall|i: int|
            0 <= i < ms.len() ==> outcome_of(conds, taints, #[trigger] ms[i]) != MatcherOutcome::Add,
    ensures
        additions(conds, taints, ms, now) == Seq::<Taint>::empty(),
    decreases ms.len(),
{
    if ms.len() > 0 {
        let init = ms.drop_last();
        assert forall|i: int| 0 <= i < init.len() implies outcome_of(
            conds,
            taints,
            #[trigger] init[i],
        ) != MatcherOutcome::Add by {
            assert(init[i] == ms[i]);
        }
        nothing_to_add(conds, taints, init, now);
        assert(outcome_of(conds, taints, ms[ms.len() - 1]) != MatcherOutcome::Add);
    }
}

/// Reconciling a node a second time, after the taints of the first pass were
/// appended to it, adds nothing: no taint is ever added twice, whatever the
/// values and times of the taints already there.
pub proof fn reconciling_twice_adds_nothing(
    conds: Seq<NodeCondition>,
    taints: Seq<Taint>,
    ms: Seq<Configuration>,
    first: Time,
    second: Time,
)
    ensures
        additions(conds, taints + additions(conds, taints, ms, first), ms, second)
            == Seq::<Taint>::empty(),
{
    let added = additions(conds, taints, ms, first);
    let after = taints + added;
    assert forall|i: int| 0 <= i < ms.len() implies outcome_of(conds, after, #[trigger] ms[i])
        != MatcherOutcome::Add by {
        let m = ms[i];
        if eligible(conds, m.conditions@) {
            if carries(taints, m.taint) {
                let j = choose|j: int| 0 <= j < taints.len() && same_slot(#[trigger] taints[j], m.taint);
                assert(after[j] == taints[j]);
            } else {
                let a = synthesized(m.taint, first);
                additions_are_the_eligible_new_taints(conds, taints, ms, first, a);
                assert(added.contains(a));
                let k = choose|k: int| 0 <= k < added.len() && added[k] == a;
                assert(after[taints.len() + k] == a);
                assert(same_slot(after[taints.len() + k], m.taint));
            }
        }
    }
    nothing_to_add(conds, after, ms, second);
}

/// Added `NoExecute` taints carry the time of the pass; other added taints
/// carry no time.
pub proof fn only_no_execute_taints_carry_time(
    conds: Seq<NodeCondition>,
    taints: Seq<Taint>,
    ms: Seq<Configuration>,
    now: Time,
)
    ensures
        forall|k: int|
            0 <= k < additions(conds, taints, ms, now).len() ==> {
                let t = #[trigger] additions(conds, taints, ms, now)[k];
                &&& t.effect == TaintEffect::NoExecute ==> t.time_added == Some(now)
                &&& t.effect != TaintEffect::NoExecute ==> t.time_added is None
            },
{
    let added = additions(conds, taints, ms, now);
    assert forall|k: int| 0 <= k < added.len() implies {
        let t = #[trigger] added[k];
        &&& t.effect == TaintEffect::NoExecute ==> t.time_added == Some(now)
        &&& t.effect != TaintEffect::NoExecute ==> t.time_added is None
    } by {
        additions_are_the_eligible_new_taints(conds, taints, ms, now, added[k]);
        assert(added.contains(added[k]));
    }
}

/// A conflict is never logged as an error.
pub proof fn conflicts_are_not_errors(message: Seq<char>)
    requires
        occurs_in(conflict_phrase(), message),
    ensures
        outcome_of_update(Err(message)) == UpdateOutcome::Conflict,
        outcome_of_update(Err(message)).spec_level() == LogLevel::Info,
{
}

} // verus!
