//! The states of a performed-procedure step and the transitions between
//! them.
use vstd::prelude::*;
use crate::text::{opt_text, same_text};

verus! {

/// Where a performed-procedure step stands in its lifecycle.
#[derive(Debug, Clone, Copy, PartialEq, Eq, Structural)]
pub enum StepStatus {
    /// No status has been recorded: the step is only scheduled.
    Scheduled,
    InProgress,
    Completed,
    Discontinued,
}

/// The status that a stored label stands for; `None` for a label that names
/// no status.
pub open spec fn status_of(label: Option<Seq<char>>) -> Option<StepStatus> {
    match label {
        None => Some(StepStatus::Scheduled),
        Some(text) => if text == "IN_PROGRESS"@ {
            Some(StepStatus::InProgress)
        } else if text == "COMPLETED"@ {
            Some(StepStatus::Completed)
        } else if text == "DISCONTINUED"@ {
            Some(StepStatus::Discontinued)
        } else {
            None
        },
    }
}

impl StepStatus {
    /// The label under which the status is stored; a scheduled step has none.
    pub open spec fn label_text(self) -> Option<Seq<char>> {
        match self {
            StepStatus::Scheduled => None,
            StepStatus::InProgress => Some("IN_PROGRESS"@),
            StepStatus::Completed => Some("COMPLETED"@),
            StepStatus::Discontinued => Some("DISCONTINUED"@),
        }
    }

    /// A completed or discontinued step never changes again.
    pub open spec fn terminal(self) -> bool {
        self == StepStatus::Completed || self == StepStatus::Discontinued
    }

    /// The lifecycle's edges: scheduled to in progress, in progress to
    /// completed or discontinued, and no others.
    pub open spec fn leads_to(self, target: StepStatus) -> bool {
        match self {
            StepStatus::Scheduled => target == StepStatus::InProgress,
            StepStatus::InProgress => target.terminal(),
            StepStatus::Completed => false,
            StepStatus::Discontinued => false,
        }
    }

    /// Reads a stored status label.
    pub fn parse(label: &Option<String>) -> (status: Option<StepStatus>)
        ensures
            status == status_of(opt_text(*label)),
    {
        match label {
            None => Some(StepStatus::Scheduled),
            Some(text) => {
                if same_text(text.as_str(), "IN_PROGRESS") {
                    Some(StepStatus::InProgress)
                } else if same_text(text.as_str(), "COMPLETED") {
                    Some(StepStatus::Completed)
                } else if same_text(text.as_str(), "DISCONTINUED") {
                    Some(StepStatus::Discontinued)
                } else {
                    None
                }
            },
        }
    }

    /// The label under which the status is stored.
    pub fn label(&self) -> (label: Option<&'static str>)
        ensures
            match label {
                Some(text) => self.label_text() == Some(text@),
                None => self.label_text() is None,
            },
    {
        match self {
            StepStatus::Scheduled => None,
            StepStatus::InProgress => Some("IN_PROGRESS"),
            StepStatus::Completed => Some("COMPLETED"),
            StepStatus::Discontinued => Some("DISCONTINUED"),
        }
    }

    /// Whether the status is completed or discontinued.
    pub fn is_terminal(&self) -> (terminal: bool)
        ensures
            terminal == self.terminal(),
    {
        match self {
            StepStatus::Completed => true,
            StepStatus::Discontinued => true,
            _ => false,
        }
    }

    /// Whether the lifecycle has an edge from this status to `target`.
    pub fn can_move_to(&self, target: StepStatus) -> (allowed: bool)
        ensures
            allowed == self.leads_to(target),
    {
        match self {
            StepStatus::Scheduled => match target {
                StepStatus::InProgress => true,
                _ => false,
            },
            StepStatus::InProgress => target.is_terminal(),
            _ => false,
        }
    }
}

/// The three labels are pairwise different texts, so a label names at most
/// one status and every status is read back from its own label.
pub proof fn lemma_labels_distinct()
    ensures
        "IN_PROGRESS"@ != "COMPLETED"@,
        "IN_PROGRESS"@ != "DISCONTINUED"@,
        "COMPLETED"@ != "DISCONTINUED"@,
        forall|status: StepStatus| status_of(#[trigger] status.label_text()) == Some(status),
{
    reveal_strlit("IN_PROGRESS");
    reveal_strlit("COMPLETED");
    reveal_strlit("DISCONTINUED");
    assert("IN_PROGRESS"@.len() == 11);
    assert("COMPLETED"@.len() == 9);
    assert("DISCONTINUED"@.len() == 12);
}

/// No edge leaves a terminal status.
pub proof fn lemma_terminal_is_final(status: StepStatus, target: StepStatus)
    requires
        status.terminal(),
    ensures
        !status.leads_to(target),
{
}

/// Every edge other than the first one ends in a terminal status, and every
/// edge changes the status.
pub proof fn lemma_edges_advance(status: StepStatus, target: StepStatus)
    requires
        status.leads_to(target),
    ensures
        status != target,
        !status.terminal(),
        target == StepStatus::InProgress || target.terminal(),
{
}

} // verus!
