//! The approval policy: whether an operation runs on its own authority or
//! only after the operator has agreed to it.
//!
//! The policy has two modes, chosen once. When everything is accepted, no
//! operation waits for the operator; the whitelist then only decides how the
//! approval is labelled. Otherwise the operator is asked about every
//! operation, whitelisted or not.
use crate::dispatch::{Operation, OperationView};
use crate::security::SecurityValidator;
use vstd::prelude::*;

verus! {

/// What the operator answered when asked about an operation.
#[derive(Debug, Clone, Copy, PartialEq, Eq, Structural)]
pub enum Answer {
    Accept,
    Reject,
    /// The operator left the question without answering it.
    Cancelled,
}

/// How an operation came to be approved.
#[derive(Debug, Clone, Copy, PartialEq, Eq, Structural)]
pub enum Approval {
    /// Approved because everything is.
    Automatic,
    /// Approved because everything is, and the command is whitelisted.
    Whitelisted,
    /// Approved by the operator.
    Operator,
}

/// The operator left a question unanswered.
#[derive(Debug, Clone, Copy, PartialEq, Eq, Structural)]
pub struct InputCancelled;

/// Whether the operation is a shell command that the whitelist of `gate`
/// holds. Nothing but a shell command is ever whitelisted.
pub open spec fn whitelisted(gate: SecurityValidator, operation: OperationView) -> bool {
    operation matches OperationView::Shell { command } && gate.whitelists(command)
}

/// Whether an operation is to be carried out, given the mode, whether the
/// operation is whitelisted, and what the operator answers if asked.
pub open spec fn should_execute(accept_all: bool, listed: bool, answer: Answer) -> Result<
    bool,
    InputCancelled,
> {
    if accept_all {
        Ok(true)
    } else {
        match answer {
            Answer::Accept => Ok(true),
            Answer::Reject => Ok(false),
            Answer::Cancelled => Err(InputCancelled),
        }
    }
}

/// How the approval of an operation is labelled.
pub open spec fn approval_label(accept_all: bool, listed: bool) -> Approval {
    if !accept_all {
        Approval::Operator
    } else if listed {
        Approval::Whitelisted
    } else {
        Approval::Automatic
    }
}

/// The policy: its mode, fixed when it is made.
#[derive(Debug, Clone, Copy)]
pub struct ApprovalPolicy {
    accept_all: bool,
}

impl ApprovalPolicy {
    /// Whether every operation is approved without asking.
    pub closed spec fn accepts_all(self) -> bool {
        self.accept_all
    }

    /// The policy that approves everything (`accept_all`) or asks about
    /// everything.
    pub fn new(accept_all: bool) -> (policy: ApprovalPolicy)
        ensures
            policy.accepts_all() == accept_all,
    {
        ApprovalPolicy { accept_all }
    }

    /// Whether every operation is approved without asking.
    pub fn is_accept_all(&self) -> (all: bool)
        ensures
            all == self.accepts_all(),
    {
        self.accept_all
    }

    /// How an approval of `operation` is labelled.
    pub fn label(&self, gate: &SecurityValidator, operation: &Operation) -> (label: Approval)
        ensures
            label == approval_label(self.accepts_all(), whitelisted(*gate, operation@)),
    {
        if !self.accept_all {
            Approval::Operator
        } else {
            let listed = match operation {
                Operation::Shell { command } => gate.is_whitelisted(command.as_str()),
                _ => false,
            };
            if listed {
                Approval::Whitelisted
            } else {
                Approval::Automatic
            }
        }
    }

    /// Whether `operation` is to be carried out, where `answer` is what the
    /// operator says if asked. When everything is accepted the operator is not
    /// asked and the answer plays no part.
    pub fn should_execute(
        &self,
        gate: &SecurityValidator,
        operation: &Operation,
        answer: Answer,
    ) -> (r: Result<bool, InputCancelled>)
        ensures
            r == should_execute(self.accepts_all(), whitelisted(*gate, operation@), answer),
    {
        if self.accept_all {
            Ok(true)
        } else {
            match answer {
                Answer::Accept => Ok(true),
                Answer::Reject => Ok(false),
                Answer::Cancelled => Err(InputCancelled),
            }
        }
    }
}

/// When everything is accepted, every operation is carried out, whitelisted
/// or not and whatever the operator might have answered.
pub proof fn law_accept_all_approves(listed: bool, answer: Answer)
    ensures
        should_execute(true, listed, answer) == Ok::<bool, InputCancelled>(true),
{
}

/// When the operator is asked, an operation is carried out exactly if the
/// operator accepts it, and leaving the question unanswered is an error, not
/// a refusal.
pub proof fn law_operator_decides(listed: bool, answer: Answer)
    ensures
        should_execute(false, listed, answer) == Ok::<bool, InputCancelled>(true) <==> answer
            == Answer::Accept,
        should_execute(false, listed, answer) == Ok::<bool, InputCancelled>(false) <==> answer
            == Answer::Reject,
        should_execute(false, listed, answer) is Err <==> answer == Answer::Cancelled,
{
}

/// The whitelist never changes whether an operation is carried out: it only
/// changes the label, and that only when everything is accepted.
pub proof fn law_whitelist_only_labels(accept_all: bool, answer: Answer)
    ensures
        should_execute(accept_all, true, answer) == should_execute(accept_all, false, answer),
        approval_label(false, true) == approval_label(false, false),
        approval_label(true, true) != approval_label(true, false),
{
}

} // verus!
