use vstd::prelude::*;

use crate::clock::{current_time, render_time, rendered_time};
use crate::model::{Condition, Configuration, Node, NodeCondition, Taint, TaintEffect, Time};
use crate::pattern::regex_finds;

verus! {

/// A node condition satisfies a pattern pair when both its type and its status
/// are matched.
pub open spec fn condition_satisfied(want: Condition, have: NodeCondition) -> bool {
    regex_finds(want.type_@, have.type_@) && regex_finds(want.status@, have.status@)
}

/// Some condition of `have` satisfies `want`.
pub open spec fn pattern_satisfied(want: Condition, have: Seq<NodeCondition>) -> bool {
    exists|j: int| 0 <= j < have.len() && condition_satisfied(want, #[trigger] have[j])
}

/// Every pattern pair of `want` is satisfied by some condition of `have`.
pub open spec fn all_patterns_satisfied(have: Seq<NodeCondition>, want: Seq<Condition>) -> bool {
    forall|i: int| 0 <= i < want.len() ==> pattern_satisfied(#[trigger] want[i], have)
}

/// `j` is the position of the first condition of `have` that satisfies `want`.
pub open spec fn first_satisfying_at(want: Condition, have: Seq<NodeCondition>, j: int) -> bool {
    &&& 0 <= j < have.len()
    &&& condition_satisfied(want, have[j])
    &&& forall|l: int| 0 <= l < j ==> !condition_satisfied(want, #[trigger] have[l])
}

/// `w` gives, for each pattern pair of `want` in order, the first condition of
/// `have` that satisfies it.
pub open spec fn witnesses(w: Seq<usize>, want: Seq<Condition>, have: Seq<NodeCondition>) -> bool {
    &&& w.len() == want.len()
    &&& forall|i: int| 0 <= i < w.len() ==> first_satisfying_at(want[i], have, #[trigger] w[i] as int)
}

/// A node is eligible for a matcher when it reports at least one condition and
/// every pattern pair of the matcher is satisfied by some reported condition.
pub open spec fn eligible(have: Seq<NodeCondition>, want: Seq<Condition>) -> bool {
    have.len() > 0 && all_patterns_satisfied(have, want)
}

/// Two taints occupy the same place on a node: same key and same effect.
pub open spec fn same_slot(a: Taint, b: Taint) -> bool {
    a.key@ == b.key@ && a.effect == b.effect
}

/// Some taint of `taints` has the key and effect of `t`.
pub open spec fn carries(taints: Seq<Taint>, t: Taint) -> bool {
    exists|i: int| 0 <= i < taints.len() && same_slot(#[trigger] taints[i], t)
}

/// The taint applied for `template` at time `now`: key, value and effect are
/// kept, and only a `NoExecute` taint carries the time it was added.
pub open spec fn synthesized(template: Taint, now: Time) -> Taint {
    Taint {
        key: template.key,
        value: template.value,
        effect: template.effect,
        time_added: if template.effect == TaintEffect::NoExecute {
            Some(now)
        } else {
            None
        },
    }
}

/// What reconciliation decides for one matcher on one node.
#[derive(Clone, Copy, Debug, PartialEq, Eq, Structural)]
pub enum MatcherOutcome {
    /// Some pattern pair is satisfied by no condition, or the node reports none.
    Ineligible,
    /// Eligible, but the node already has a taint with the same key and effect.
    AlreadyTainted,
    /// Eligible, and the matcher's taint is to be added.
    Add,
}

/// The decision for matcher `m` on a node that reports `conds` and carries `taints`.
pub open spec fn outcome_of(conds: Seq<NodeCondition>, taints: Seq<Taint>, m: Configuration) -> MatcherOutcome {
    if !eligible(conds, m.conditions@) {
        MatcherOutcome::Ineligible
    } else if carries(taints, m.taint) {
        MatcherOutcome::AlreadyTainted
    } else {
        MatcherOutcome::Add
    }
}

/// The taints that the matchers `ms` add, at time `now`, to a node that reports
/// `conds` and carries `taints`, in the matchers' order. Only the taints the
/// node already carries decide what is there; taints added by earlier matchers
/// of the same pass do not.
pub open spec fn additions(
    conds: Seq<NodeCondition>,
    taints: Seq<Taint>,
    ms: Seq<Configuration>,
    now: Time,
) -> Seq<Taint>
    decreases ms.len(),
{
    if ms.len() == 0 {
        Seq::empty()
    } else {
        let m = ms.last();
        let before = additions(conds, taints, ms.drop_last(), now);
        if outcome_of(conds, taints, m) == MatcherOutcome::Add {
            before.push(synthesized(m.taint, now))
        } else {
            before
        }
    }
}

/// Whether the pattern pair `this` is satisfied by the node condition `that`.
pub fn conditions_match(this: &Condition, that: &NodeCondition) -> (r: bool)
    ensures
        r == condition_satisfied(*this, *that),
{
    let statuses_match = this.status.is_match(that.status.as_str());
    let types_match = this.type_.is_match(that.type_.as_str());
    statuses_match && types_match
}

/// The position of the first condition of `have` that satisfies `want`.
pub fn first_satisfying(want: &Condition, have: &Vec<NodeCondition>) -> (r: Option<usize>)
    ensures
        match r {
            Some(j) => first_satisfying_at(*want, have@, j as int),
            None => !pattern_satisfied(*want, have@),
        },
{
    let mut j: usize = 0;
    while j < have.len()
        invariant
            j <= have@.len(),
            forall|l: int| 0 <= l < j ==> !condition_satisfied(*want, #[trigger] have@[l]),
        decreases have@.len() - j,
    {
        if conditions_match(want, &have[j]) {
            return Some(j);
        }
        j = j + 1;
    }
    None
}

/// For each pattern pair of `want` in order, the position of the first
/// condition of `have` that satisfies it; `None` as soon as one pair is
/// satisfied by no condition.
pub fn matching_conditions(have: &Vec<NodeCondition>, want: &Vec<Condition>) -> (r: Option<Vec<usize>>)
    ensures
        r is Some <==> all_patterns_satisfied(have@, want@),
        r matches Some(w) ==> witnesses(w@, want@, have@),
{
    let mut found: Vec<usize> = Vec::new();
    let mut i: usize = 0;
    while i < want.len()
        invariant
            i <= want@.len(),
            witnesses(found@, want@.take(i as int), have@),
            forall|k: int| 0 <= k < i ==> pattern_satisfied(#[trigger] want@[k], have@),
        decreases want@.len() - i,
    {
        match first_satisfying(&want[i], have) {
            Some(j) => {
                found.push(j);
                proof {
                    assert(pattern_satisfied(want@[i as int], have@)) by {
                        assert(condition_satisfied(want@[i as int], have@[j as int]));
                    }
                    assert forall|k: int| 0 <= k < found@.len() implies first_satisfying_at(
                        want@.take(i + 1)[k],
                        have@,
                        #[trigger] found@[k] as int,
                    ) by {
                        if k < i {
                            assert(want@.take(i + 1)[k] == want@.take(i as int)[k]);
                        }
                    }
                }
            },
            None => {
                return None;
            },
        }
        i = i + 1;
    }
    assert(want@.take(want@.len() as int) =~= want@);
    Some(found)
}

/// Whether a node reporting `have` is eligible for a matcher with patterns `want`.
pub fn is_node_eligible(have: &Vec<NodeCondition>, want: &Vec<Condition>) -> (r: bool)
    ensures
        r == eligible(have@, want@),
{
    if have.len() == 0 {
        return false;
    }
    matching_conditions(have, want).is_some()
}

/// Whether `this` and `that` have the same key and effect; the cluster refuses
/// two such taints on one node.
pub fn identical_taints(this: &Taint, that: &Taint) -> (r: bool)
    ensures
        r == same_slot(*this, *that),
{
    this.key == that.key && this.effect == that.effect
}

/// Whether some taint of `haystack` has the key and effect of `needle`.
pub fn node_has_taint(haystack: &Vec<Taint>, needle: &Taint) -> (r: bool)
    ensures
        r == carries(haystack@, *needle),
{
    let mut i: usize = 0;
    while i < haystack.len()
        invariant
            i <= haystack@.len(),
            forall|k: int| 0 <= k < i ==> !same_slot(#[trigger] haystack@[k], *needle),
        decreases haystack@.len() - i,
    {
        if identical_taints(&haystack[i], needle) {
            return true;
        }
        i = i + 1;
    }
    false
}

/// The taint to apply for `template` at time `now`.
pub fn synthesize(template: &Taint, now: Time) -> (r: Taint)
    ensures
        r == synthesized(*template, now),
{
    let mut t = template.duplicate();
    t.time_added = match t.effect {
        TaintEffect::NoExecute => Some(now),
        _ => None,
    };
    t
}

/// How a taint is written in log entries: `key=value:Effect/time`, where
/// `=value` is left out when there is no value and `/time` when there is no
/// time or chrono cannot write it.
pub open spec fn taint_text(t: Taint) -> Seq<char> {
    let value = match t.value {
        Some(v) => "="@ + v@,
        None => Seq::empty(),
    };
    let time = match t.time_added {
        Some(tm) => match rendered_time(tm.seconds as int, tm.nanos as int) {
            Some(text) => "/"@ + text,
            None => Seq::empty(),
        },
        None => Seq::empty(),
    };
    t.key@ + value + ":"@ + t.effect.spec_name() + time
}

/// How `taint` is written in log entries.
pub fn taint_to_string(taint: &Taint) -> (r: String)
    ensures
        r@ == taint_text(*taint),
{
    let mut s = String::new();
    s.append(taint.key.as_str());
    match &taint.value {
        Some(v) => {
            s.append("=");
            s.append(v.as_str());
        },
        None => {},
    }
    s.append(":");
    s.append(taint.effect.as_str());
    match taint.time_added {
        Some(tm) => match render_time(tm) {
            Some(text) => {
                s.append("/");
                s.append(text.as_str());
            },
            None => {},
        },
        None => {},
    }
    assert(s@ =~= taint_text(*taint));
    s
}

/// Appends a copy of every taint of `src` to `dst`.
fn append_copies(dst: &mut Vec<Taint>, src: &Vec<Taint>)
    ensures
        final(dst)@ == old(dst)@ + src@,
{
    let mut i: usize = 0;
    while i < src.len()
        invariant
            i <= src@.len(),
            dst@ == old(dst)@ + src@.take(i as int),
        decreases src@.len() - i,
    {
        dst.push(src[i].duplicate());
        proof {
            assert(src@.take(i + 1) =~= src@.take(i as int).push(src@[i as int]));
        }
        i = i + 1;
    }
    assert(src@.take(src@.len() as int) =~= src@);
}

/// What reconciliation decided for one node.
#[derive(Debug)]
pub struct NodePlan {
    /// One decision per matcher, in the matchers' order.
    pub outcomes: Vec<MatcherOutcome>,
    /// Per matcher: for an eligible one, the first condition satisfying each
    /// of its pattern pairs; for an ineligible one, nothing.
    pub matched: Vec<Vec<usize>>,
    /// The taints to add, in the matchers' order.
    pub added: Vec<Taint>,
    /// The node's taints followed by the added ones: the list one update writes.
    pub taints: Vec<Taint>,
    /// The time that the added `NoExecute` taints carry.
    pub now: Time,
}

/// `r` is what reconciling `node` with the matchers `ms` at time `now` decides:
/// one decision per matcher, the witnesses of each eligible matcher, the
/// taints to add, and the node's taints followed by those.
pub open spec fn planned(r: NodePlan, node: Node, ms: Seq<Configuration>, now: Time) -> bool {
    &&& r.outcomes@ == Seq::new(
        ms.len(),
        |k: int| outcome_of(node.conditions@, node.taints@, ms[k]),
    )
    &&& r.matched@.len() == ms.len()
    &&& forall|k: int|
        0 <= k < ms.len() ==> if r.outcomes@[k] == MatcherOutcome::Ineligible {
            (#[trigger] r.matched@[k])@.len() == 0
        } else {
            witnesses(r.matched@[k]@, ms[k].conditions@, node.conditions@)
        }
    &&& r.added@ == additions(node.conditions@, node.taints@, ms, now)
    &&& r.taints@ == node.taints@ + r.added@
    &&& r.now == now
}

impl NodePlan {
    /// Whether the node is to be updated: only when some taint is added.
    pub fn needs_update(&self) -> (r: bool)
        ensures
            r == (self.added@.len() > 0),
    {
        self.added.len() > 0
    }
}

/// Decides, node by node, which taints a fixed list of matchers adds.
pub struct Reconciler {
    matchers: Vec<Configuration>,
}

impl Reconciler {
    /// The matchers, in their configured order.
    pub closed spec fn spec_matchers(&self) -> Seq<Configuration> {
        self.matchers@
    }

    pub fn new(matchers: Vec<Configuration>) -> (r: Reconciler)
        ensures
            r.spec_matchers() == matchers@,
    {
        Reconciler { matchers }
    }

    /// The matchers, in their configured order.
    pub fn matchers(&self) -> (r: &Vec<Configuration>)
        ensures
            r@ == self.spec_matchers(),
    {
        &self.matchers
    }

    /// Evaluates every matcher on `node`, with `now` as the time that added
    /// `NoExecute` taints carry.
    pub fn plan(&self, node: &Node, now: Time) -> (r: NodePlan)
        ensures
            planned(r, *node, self.spec_matchers(), now),
    {
        let ms = &self.matchers;
        let mut outcomes: Vec<MatcherOutcome> = Vec::new();
        let mut matched: Vec<Vec<usize>> = Vec::new();
        let mut added: Vec<Taint> = Vec::new();
        let mut i: usize = 0;
        while i < ms.len()
            invariant
                ms@ == self.spec_matchers(),
                i <= ms@.len(),
                outcomes@ == Seq::new(
                    i as nat,
                    |k: int| outcome_of(node.conditions@, node.taints@, ms@[k]),
                ),
                matched@.len() == i,
                forall|k: int|
                    0 <= k < i ==> if outcomes@[k] == MatcherOutcome::Ineligible {
                        (#[trigger] matched@[k])@.len() == 0
                    } else {
                        witnesses(matched@[k]@, ms@[k].conditions@, node.conditions@)
                    },
                added@ == additions(node.conditions@, node.taints@, ms@.take(i as int), now),
            decreases ms@.len() - i,
        {
            let m = &ms[i];
            let found = if node.conditions.len() == 0 {
                None
            } else {
                matching_conditions(&node.conditions, &m.conditions)
            };
            let o = match found {
                None => {
                    matched.push(Vec::new());
                    MatcherOutcome::Ineligible
                },
                Some(w) => {
                    matched.push(w);
                    if node_has_taint(&node.taints, &m.taint) {
                        MatcherOutcome::AlreadyTainted
                    } else {
                        added.push(synthesize(&m.taint, now));
                        MatcherOutcome::Add
                    }
                },
            };
            outcomes.push(o);
            proof {
                assert(ms@.take(i + 1).drop_last() =~= ms@.take(i as int));
                assert(outcomes@ =~= Seq::new(
                    (i + 1) as nat,
                    |k: int| outcome_of(node.conditions@, node.taints@, ms@[k]),
                ));
            }
            i = i + 1;
        }
        assert(ms@.take(ms@.len() as int) =~= ms@);
        let mut taints: Vec<Taint> = Vec::new();
        append_copies(&mut taints, &node.taints);
        append_copies(&mut taints, &added);
        assert(taints@ =~= node.taints@ + added@);
        NodePlan { outcomes, matched, added, taints, now }
    }

    /// Evaluates every matcher on `node` at the current time, read once.
    pub fn process_node(&self, node: &Node) -> (r: NodePlan)
        ensures
            planned(r, *node, self.spec_matchers(), r.now),
            r.now.seconds >= 0,
            r.now.nanos < 1_000_000_000,
    {
        let now = current_time();
        self.plan(node, now)
    }
}

} // verus!
