use vstd::prelude::*;

use crate::model::{LogLevel, Node};
use crate::text::{contains_text, occurs_in};

verus! {

/// The words by which the cluster API reports that an object changed since it
/// was read (an optimistic-concurrency conflict).
pub open spec fn conflict_phrase() -> Seq<char> {
    "the object has been modified; please apply your changes to the latest version and try again"@
}

/// Whether an update error, as written by the client, reports a conflict.
pub fn is_conflict_error(error_string: &str) -> (r: bool)
    ensures
        r == occurs_in(conflict_phrase(), error_string@),
{
    contains_text(
        error_string,
        "the object has been modified; please apply your changes to the latest version and try again",
    )
}

/// How a node update ended.
#[derive(Clone, Copy, Debug, PartialEq, Eq, Structural)]
pub enum UpdateOutcome {
    /// The update was accepted.
    Applied,
    /// The node changed since it was read; the change itself brings a new
    /// event, and with it a new reconciliation, so nothing is retried here.
    Conflict,
    /// Any other failure; reported, not retried.
    Failed,
}

/// The outcome of an update that returned `result` (an error as its message).
pub open spec fn outcome_of_update(result: Result<(), Seq<char>>) -> UpdateOutcome {
    match result {
        Ok(_) => UpdateOutcome::Applied,
        Err(m) => if occurs_in(conflict_phrase(), m) {
            UpdateOutcome::Conflict
        } else {
            UpdateOutcome::Failed
        },
    }
}

/// Classifies the result of a node update, whose error is given as its message.
pub fn classify_update(result: &Result<(), String>) -> (r: UpdateOutcome)
    ensures
        r == outcome_of_update(
            match result {
                Ok(_) => Ok(()),
                Err(m) => Err(m@),
            },
        ),
{
    match result {
        Ok(_) => UpdateOutcome::Applied,
        Err(m) => if is_conflict_error(m.as_str()) {
            UpdateOutcome::Conflict
        } else {
            UpdateOutcome::Failed
        },
    }
}

impl UpdateOutcome {
    /// Only a failure that is not a conflict is logged as an error.
    pub open spec fn spec_level(self) -> LogLevel {
        match self {
            UpdateOutcome::Failed => LogLevel::Error,
            _ => LogLevel::Info,
        }
    }

    pub open spec fn spec_message(self) -> Seq<char> {
        match self {
            UpdateOutcome::Applied => "Successfully added taints to node"@,
            UpdateOutcome::Conflict => "Received conflict error when trying to add taints to node"@,
            UpdateOutcome::Failed => "Error adding taints to node"@,
        }
    }

    /// The severity at which this outcome is logged.
    pub fn level(&self) -> (r: LogLevel)
        ensures
            r == self.spec_level(),
    {
        match self {
            UpdateOutcome::Failed => LogLevel::Error,
            _ => LogLevel::Info,
        }
    }

    /// The log message for this outcome.
    pub fn message(&self) -> (r: &'static str)
        ensures
            r@ == self.spec_message(),
    {
        match self {
            UpdateOutcome::Applied => "Successfully added taints to node",
            UpdateOutcome::Conflict => "Received conflict error when trying to add taints to node",
            UpdateOutcome::Failed => "Error adding taints to node",
        }
    }
}

/// What the node watch stream delivers.
#[derive(Debug)]
pub enum StreamItem {
    /// A complete snapshot of a node that was listed, created or changed.
    Applied(Node),
    /// The stream has nothing new yet; this is neither an error nor its end.
    Nothing,
    /// Listing or watching failed; the stream retries with its own backoff.
    Failed(String),
}

/// What the watch loop does with one delivery, before asking for the next.
/// There is no step that ends the loop.
#[derive(Debug)]
pub enum LoopStep {
    /// Reconcile this node to completion.
    Reconcile(Node),
    /// Write a log entry and go on.
    Log(LogLevel, String),
}

/// The watch loop's decision for one delivery.
pub fn on_stream_item(item: StreamItem) -> (r: LoopStep)
    ensures
        match item {
            StreamItem::Applied(n) => r == LoopStep::Reconcile(n),
            StreamItem::Nothing => r matches LoopStep::Log(level, m) && level == LogLevel::Info
                && m@ == "Node is none"@,
            StreamItem::Failed(e) => r matches LoopStep::Log(level, m) && level == LogLevel::Error
                && m@ == e@,
        },
{
    match item {
        StreamItem::Applied(n) => LoopStep::Reconcile(n),
        StreamItem::Nothing => LoopStep::Log(LogLevel::Info, String::from_str("Node is none")),
        StreamItem::Failed(e) => LoopStep::Log(LogLevel::Error, e),
    }
}

} // verus!
