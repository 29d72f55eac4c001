//! Node tainting controller core: decides which taints a cluster node should
//! receive from its reported conditions and a list of configured matchers.

mod clock;
mod laws;
mod model;
mod pattern;
mod reconciler;
mod settings;
mod text;
mod update;

pub use laws::{
    added_taints_are_new, additions_are_the_eligible_new_taints, conflicts_are_not_errors,
    eligibility_is_all_of_any, no_conditions_no_taints, only_no_execute_taints_carry_time,
    reconciling_twice_adds_nothing,
};
pub use model::{
    Condition, Configuration, LogLevel, Node, NodeCondition, Taint, TaintEffect, Time,
};
pub use pattern::{Pattern, PatternError};
pub use reconciler::{
    conditions_match, first_satisfying, identical_taints, is_node_eligible, matching_conditions,
    node_has_taint, synthesize, taint_to_string, MatcherOutcome, NodePlan, Reconciler,
};
pub use settings::{
    ConditionSettings, IssueKind, Log, MatcherSettings, ReconcilerSettings, Server, Settings,
    TaintSettings, ValidationIssue,
};
pub use text::{contains_text, same_text};
pub use update::{
    classify_update, is_conflict_error, on_stream_item, LoopStep, StreamItem, UpdateOutcome,
};
