use vstd::prelude::*;

verus! {

/// The lifecycle of a paper.
///
/// The machine is `Draft -> Published -> FullyFunded -> Completed`.
/// `Rejected` is reserved: it is declared reachable from `Draft` in the
/// transition table, but no operation of the engine ever takes it.
#[derive(Clone, Copy, Debug, PartialEq, Eq, Structural)]
pub enum PaperStatus {
    Draft,
    Published,
    FullyFunded,
    Completed,
    Rejected,
}

/// The status state machine in one place: which direct transitions exist.
///
/// Every mutation of a paper's status made by an operation either keeps
/// the status or follows one of these edges.
pub open spec fn status_transition_allowed(from: PaperStatus, to: PaperStatus) -> bool {
    ||| (from == PaperStatus::Draft && to == PaperStatus::Published)
    ||| (from == PaperStatus::Published && to == PaperStatus::FullyFunded)
    ||| (from == PaperStatus::FullyFunded && to == PaperStatus::Completed)
    ||| (from == PaperStatus::Draft && to == PaperStatus::Rejected)
}

/// A terminal status admits no further transition.
pub open spec fn status_is_terminal(s: PaperStatus) -> bool {
    s == PaperStatus::Completed || s == PaperStatus::Rejected
}

/// No edge of the transition table leaves a terminal status.
pub proof fn lemma_terminal_status_is_final(from: PaperStatus, to: PaperStatus)
    requires
        status_is_terminal(from),
    ensures
        !status_transition_allowed(from, to),
{
}

} // verus!
