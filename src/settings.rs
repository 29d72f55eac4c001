use vstd::prelude::*;

use crate::model::{Condition, Configuration, LogLevel, Taint, TaintEffect};
use crate::pattern::{regex_compiles, Pattern};

verus! {

/// Where the liveness endpoint listens.
#[derive(Clone, Debug)]
pub struct Server {
    pub host: String,
    pub port: u16,
}

/// Logging configuration.
#[derive(Clone, Copy, Debug)]
pub struct Log {
    pub max_level: LogLevel,
}

/// The taint that a configured matcher applies.
#[derive(Clone, Debug)]
pub struct TaintSettings {
    pub effect: TaintEffect,
    pub key: String,
    pub value: String,
}

/// A configured pattern pair, still as text.
#[derive(Clone, Debug)]
pub struct ConditionSettings {
    pub type_: String,
    pub status: String,
}

/// A configured matcher, still as text.
#[derive(Clone, Debug)]
pub struct MatcherSettings {
    pub taint: TaintSettings,
    pub conditions: Vec<ConditionSettings>,
}

/// The reconciler's part of the configuration.
#[derive(Clone, Debug)]
pub struct ReconcilerSettings {
    pub matchers: Vec<MatcherSettings>,
}

/// The whole configuration, as read from the configuration file.
#[derive(Clone, Debug)]
pub struct Settings {
    pub server: Server,
    pub log: Log,
    pub reconciler: ReconcilerSettings,
}

/// What is wrong with one configured matcher.
#[derive(Clone, Copy, Debug, PartialEq, Eq, Structural)]
pub enum IssueKind {
    /// The taint key is empty.
    EmptyKey,
    /// The taint value is empty.
    EmptyValue,
    /// The type pattern of the given condition is not a valid regular expression.
    InvalidType(usize),
    /// The status pattern of the given condition is not a valid regular expression.
    InvalidStatus(usize),
}

/// A validation failure: which matcher, what is wrong, and a reason in words.
#[derive(Clone, Debug)]
pub struct ValidationIssue {
    pub matcher: usize,
    pub kind: IssueKind,
    pub reason: String,
}

pub open spec fn issue_view(v: ValidationIssue) -> (int, IssueKind) {
    (v.matcher as int, v.kind)
}

pub open spec fn issues_view(vs: Seq<ValidationIssue>) -> Seq<(int, IssueKind)> {
    vs.map_values(|v: ValidationIssue| issue_view(v))
}

/// The issues of the pattern pairs `cs` of matcher `m`, in order: for each
/// pair, its type pattern, then its status pattern.
pub open spec fn condition_issues(m: int, cs: Seq<ConditionSettings>) -> Seq<(int, IssueKind)>
    decreases cs.len(),
{
    if cs.len() == 0 {
        Seq::empty()
    } else {
        let j = cs.len() - 1;
        let c = cs.last();
        condition_issues(m, cs.drop_last()) + (if regex_compiles(c.type_@) {
            Seq::empty()
        } else {
            seq![(m, IssueKind::InvalidType(j as usize))]
        }) + (if regex_compiles(c.status@) {
            Seq::empty()
        } else {
            seq![(m, IssueKind::InvalidStatus(j as usize))]
        })
    }
}

/// The issues of matcher number `m`: its key, its value, then its patterns.
pub open spec fn matcher_issues(m: int, ms: MatcherSettings) -> Seq<(int, IssueKind)> {
    (if ms.taint.key@.len() == 0 {
        seq![(m, IssueKind::EmptyKey)]
    } else {
        Seq::empty()
    }) + (if ms.taint.value@.len() == 0 {
        seq![(m, IssueKind::EmptyValue)]
    } else {
        Seq::empty()
    }) + condition_issues(m, ms.conditions@)
}

/// The issues of all matchers, matcher by matcher.
pub open spec fn all_issues(ms: Seq<MatcherSettings>) -> Seq<(int, IssueKind)>
    decreases ms.len(),
{
    if ms.len() == 0 {
        Seq::empty()
    } else {
        all_issues(ms.drop_last()) + matcher_issues(ms.len() - 1, ms.last())
    }
}

/// A configured matcher is valid when its key and value are not empty and all
/// its patterns compile.
pub open spec fn matcher_valid(m: MatcherSettings) -> bool {
    &&& m.taint.key@.len() > 0
    &&& m.taint.value@.len() > 0
    &&& forall|j: int|
        0 <= j < m.conditions@.len() ==> regex_compiles((#[trigger] m.conditions@[j]).type_@)
            && regex_compiles(m.conditions@[j].status@)
}

/// `c` is the matcher that `m` describes: the taint with its value and no
/// time, and the pattern pairs in order.
pub open spec fn built_from(c: Configuration, m: MatcherSettings) -> bool {
    &&& c.taint == Taint {
        key: m.taint.key,
        value: Some(m.taint.value),
        effect: m.taint.effect,
        time_added: None,
    }
    &&& c.conditions@.len() == m.conditions@.len()
    &&& forall|j: int|
        0 <= j < c.conditions@.len() ==> (#[trigger] c.conditions@[j]).type_@
            == m.conditions@[j].type_@ && c.conditions@[j].status@ == m.conditions@[j].status@
}

proof fn condition_issues_empty(m: int, cs: Seq<ConditionSettings>)
    ensures
        condition_issues(m, cs).len() == 0 <==> forall|j: int|
            0 <= j < cs.len() ==> regex_compiles((#[trigger] cs[j]).type_@) && regex_compiles(
                cs[j].status@,
            ),
    decreases cs.len(),
{
    if cs.len() > 0 {
        let init = cs.drop_last();
        let last = cs.len() - 1;
        condition_issues_empty(m, init);
        if condition_issues(m, cs).len() == 0 {
            assert forall|j: int| 0 <= j < cs.len() implies regex_compiles(
                (#[trigger] cs[j]).type_@,
            ) && regex_compiles(cs[j].status@) by {
                if j < last {
                    assert(init[j] == cs[j]);
                }
            }
        }
        if forall|j: int|
            0 <= j < cs.len() ==> regex_compiles((#[trigger] cs[j]).type_@) && regex_compiles(
                cs[j].status@,
            ) {
            assert forall|j: int| 0 <= j < init.len() implies regex_compiles(
                (#[trigger] init[j]).type_@,
            ) && regex_compiles(init[j].status@) by {
                assert(init[j] == cs[j]);
            }
            assert(regex_compiles(cs[last].type_@) && regex_compiles(cs[last].status@));
        }
    }
}

proof fn all_issues_empty(ms: Seq<MatcherSettings>)
    ensures
        all_issues(ms).len() == 0 <==> forall|i: int|
            0 <= i < ms.len() ==> matcher_valid(#[trigger] ms[i]),
    decreases ms.len(),
{
    if ms.len() > 0 {
        let init = ms.drop_last();
        let last = ms.len() - 1;
        all_issues_empty(init);
        condition_issues_empty(last, ms[last].conditions@);
        if all_issues(ms).len() == 0 {
            assert forall|i: int| 0 <= i < ms.len() implies matcher_valid(#[trigger] ms[i]) by {
                if i < last {
                    assert(init[i] == ms[i]);
                }
            }
        }
        if forall|i: int| 0 <= i < ms.len() ==> matcher_valid(#[trigger] ms[i]) {
            assert forall|i: int| 0 <= i < init.len() implies matcher_valid(#[trigger] init[i]) by {
                assert(init[i] == ms[i]);
            }
            assert(matcher_valid(ms[last]));
        }
    }
}

/// Appends one issue.
fn report(issues: &mut Vec<ValidationIssue>, matcher: usize, kind: IssueKind, reason: String)
    ensures
        issues_view(final(issues)@) == issues_view(old(issues)@).push((matcher as int, kind)),
{
    issues.push(ValidationIssue { matcher, kind, reason });
    assert(issues_view(issues@) =~= issues_view(old(issues)@).push((matcher as int, kind)));
}

/// Compiles the pattern pairs of matcher `m`, reporting each pattern that
/// does not compile.
fn build_conditions(
    m: usize,
    cs: &Vec<ConditionSettings>,
    issues: &mut Vec<ValidationIssue>,
) -> (r: Vec<Condition>)
    ensures
        issues_view(final(issues)@) == issues_view(old(issues)@) + condition_issues(m as int, cs@),
        condition_issues(m as int, cs@).len() == 0 ==> r@.len() == cs@.len() && forall|j: int|
            0 <= j < r@.len() ==> (#[trigger] r@[j]).type_@ == cs@[j].type_@ && r@[j].status@
                == cs@[j].status@,
{
    let mut built: Vec<Condition> = Vec::new();
    let mut j: usize = 0;
    while j < cs.len()
        invariant
            j <= cs@.len(),
            issues_view(issues@) == issues_view(old(issues)@) + condition_issues(
                m as int,
                cs@.take(j as int),
            ),
            condition_issues(m as int, cs@.take(j as int)).len() == 0 ==> built@.len() == j
                && forall|k: int|
                0 <= k < built@.len() ==> (#[trigger] built@[k]).type_@ == cs@[k].type_@
                    && built@[k].status@ == cs@[k].status@,
        decreases cs@.len() - j,
    {
        let c = &cs[j];
        let type_ = Pattern::new(c.type_.as_str());
        let status = Pattern::new(c.status.as_str());
        match (type_, status) {
            (Ok(t), Ok(s)) => {
                built.push(Condition { type_: t, status: s });
            },
            (Ok(_), Err(e)) => {
                report(issues, m, IssueKind::InvalidStatus(j), e.message);
            },
            (Err(e), Ok(_)) => {
                report(issues, m, IssueKind::InvalidType(j), e.message);
            },
            (Err(e1), Err(e2)) => {
                report(issues, m, IssueKind::InvalidType(j), e1.message);
                report(issues, m, IssueKind::InvalidStatus(j), e2.message);
            },
        }
        proof {
            assert(cs@.take(j + 1).drop_last() =~= cs@.take(j as int));
            assert(issues_view(issues@) =~= issues_view(old(issues)@) + condition_issues(
                m as int,
                cs@.take(j + 1),
            ));
        }
        j = j + 1;
    }
    assert(cs@.take(cs@.len() as int) =~= cs@);
    built
}

impl Settings {
    /// Builds the matchers that the configuration describes, in order, or
    /// reports every issue that makes it invalid.
    pub fn matchers(&self) -> (r: Result<Vec<Configuration>, Vec<ValidationIssue>>)
        ensures
            r is Ok <==> forall|i: int|
                0 <= i < self.reconciler.matchers@.len() ==> matcher_valid(
                    #[trigger] self.reconciler.matchers@[i],
                ),
            r matches Ok(cs) ==> cs@.len() == self.reconciler.matchers@.len() && forall|i: int|
                0 <= i < cs@.len() ==> built_from(
                    #[trigger] cs@[i],
                    self.reconciler.matchers@[i],
                ),
            r matches Err(issues) ==> issues_view(issues@) == all_issues(self.reconciler.matchers@),
    {
        let ms = &self.reconciler.matchers;
        let mut built: Vec<Configuration> = Vec::new();
        let mut issues: Vec<ValidationIssue> = Vec::new();
        let mut i: usize = 0;
        assert(issues_view(issues@) =~= Seq::empty());
        while i < ms.len()
            invariant
                i <= ms@.len(),
                issues_view(issues@) == all_issues(ms@.take(i as int)),
                issues@.len() == 0 ==> built@.len() == i && forall|k: int|
                    0 <= k < built@.len() ==> built_from(#[trigger] built@[k], ms@[k]),
            decreases ms@.len() - i,
        {
            let m = &ms[i];
            let clean = issues.len() == 0;
            let start = Ghost(issues_view(issues@));
            if m.taint.key.as_str().is_empty() {
                report(&mut issues, i, IssueKind::EmptyKey, String::from_str("must not be empty"));
            }
            if m.taint.value.as_str().is_empty() {
                report(&mut issues, i, IssueKind::EmptyValue, String::from_str("must not be empty"));
            }
            let conditions = build_conditions(i, &m.conditions, &mut issues);
            proof {
                assert(ms@.take(i + 1).drop_last() =~= ms@.take(i as int));
                assert(issues_view(issues@) =~= start@ + matcher_issues(i as int, ms@[i as int]));
                assert(issues_view(issues@) =~= all_issues(ms@.take(i + 1)));
            }
            if clean && issues.len() == 0 {
                let taint = Taint {
                    key: m.taint.key.clone(),
                    value: Some(m.taint.value.clone()),
                    effect: m.taint.effect,
                    time_added: None,
                };
                built.push(Configuration { conditions, taint });
            }
            i = i + 1;
        }
        assert(ms@.take(ms@.len() as int) =~= ms@);
        proof {
            all_issues_empty(ms@);
        }
        if issues.len() == 0 {
            Ok(built)
        } else {
            Err(issues)
        }
    }
}

} // verus!
