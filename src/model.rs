use vstd::prelude::*;

use crate::pattern::Pattern;
use crate::text::same_text;

verus! {

/// How strongly a taint repels workloads.
#[derive(Clone, Copy, Debug, PartialEq, Eq, Structural)]
pub enum TaintEffect {
    NoSchedule,
    PreferNoSchedule,
    NoExecute,
}

impl TaintEffect {
    /// The name under which the cluster API writes this effect.
    pub open spec fn spec_name(self) -> Seq<char> {
        match self {
            TaintEffect::NoSchedule => "NoSchedule"@,
            TaintEffect::PreferNoSchedule => "PreferNoSchedule"@,
            TaintEffect::NoExecute => "NoExecute"@,
        }
    }

    /// The name under which the cluster API writes this effect.
    pub fn as_str(&self) -> (r: &'static str)
        ensures
            r@ == self.spec_name(),
    {
        match self {
            TaintEffect::NoSchedule => "NoSchedule",
            TaintEffect::PreferNoSchedule => "PreferNoSchedule",
            TaintEffect::NoExecute => "NoExecute",
        }
    }

    /// The effect written as `name`, if there is one.
    pub fn from_name(name: &str) -> (r: Option<TaintEffect>)
        ensures
            match r {
                Some(e) => name@ == e.spec_name(),
                None => name@ != TaintEffect::NoSchedule.spec_name() && name@
                    != TaintEffect::PreferNoSchedule.spec_name() && name@
                    != TaintEffect::NoExecute.spec_name(),
            },
    {
        if same_text(name, "NoSchedule") {
            Some(TaintEffect::NoSchedule)
        } else if same_text(name, "PreferNoSchedule") {
            Some(TaintEffect::PreferNoSchedule)
        } else if same_text(name, "NoExecute") {
            Some(TaintEffect::NoExecute)
        } else {
            None
        }
    }
}

/// The severity of a log entry.
#[derive(Clone, Copy, Debug, PartialEq, Eq, Structural)]
pub enum LogLevel {
    Error,
    Warn,
    Info,
    Debug,
    Trace,
}

/// An instant: whole seconds since the Unix epoch and the nanoseconds past them.
#[derive(Clone, Copy, Debug, PartialEq, Eq, Structural)]
pub struct Time {
    pub seconds: i64,
    pub nanos: u32,
}

/// A scheduling constraint on a node. The cluster keeps at most one taint per
/// pair of key and effect.
#[derive(Clone, Debug, PartialEq, Eq)]
pub struct Taint {
    pub key: String,
    pub value: Option<String>,
    pub effect: TaintEffect,
    pub time_added: Option<Time>,
}

impl Taint {
    /// An identical copy of this taint.
    pub fn duplicate(&self) -> (r: Taint)
        ensures
            r == *self,
    {
        let value = match &self.value {
            Some(v) => Some(v.clone()),
            None => None,
        };
        Taint { key: self.key.clone(), value, effect: self.effect, time_added: self.time_added }
    }
}

/// A health signal that a node reports, such as `Ready` with status `True`.
#[derive(Clone, Debug, PartialEq, Eq)]
pub struct NodeCondition {
    pub type_: String,
    pub status: String,
}

/// What reconciliation reads of a cluster node: its name, the conditions it
/// reports (none when it reports nothing) and the taints it carries.
#[derive(Clone, Debug)]
pub struct Node {
    pub name: String,
    pub conditions: Vec<NodeCondition>,
    pub taints: Vec<Taint>,
}

/// A pattern pair that a node condition satisfies when its type matches
/// `type_` and its status matches `status`.
#[derive(Debug)]
pub struct Condition {
    pub type_: Pattern,
    pub status: Pattern,
}

/// A matcher: the taint to apply and the patterns that must all be satisfied.
/// The taint's `time_added` is not used: it is set anew each time it is applied.
#[derive(Debug)]
pub struct Configuration {
    pub conditions: Vec<Condition>,
    pub taint: Taint,
}

} // verus!
