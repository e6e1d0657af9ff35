//! The ordered vocabulary of ticket progress: every readiness rule in the
//! engine compares states along this order.

use vstd::prelude::*;

verus! {

/// The stages a ticket moves through, from least to most advanced.
#[derive(Clone, Copy, Debug, PartialEq, Eq, Structural)]
pub enum TicketState {
    InScope,
    InvestigationDiscussion,
    InProgress,
    PendingRelease,
    DemoFinalApproval,
    Done,
}

impl TicketState {
    /// Position of the state in the progress order; all comparisons go by it.
    pub open spec fn idx(self) -> int {
        match self {
            TicketState::InScope => 0,
            TicketState::InvestigationDiscussion => 1,
            TicketState::InProgress => 2,
            TicketState::PendingRelease => 3,
            TicketState::DemoFinalApproval => 4,
            TicketState::Done => 5,
        }
    }

    /// Executable counterpart of `idx`.
    pub fn index(self) -> (r: u8)
        ensures
            r as int == self.idx(),
    {
        match self {
            TicketState::InScope => 0,
            TicketState::InvestigationDiscussion => 1,
            TicketState::InProgress => 2,
            TicketState::PendingRelease => 3,
            TicketState::DemoFinalApproval => 4,
            TicketState::Done => 5,
        }
    }

    /// Whether `self` comes at or before `other` in the progress order.
    pub fn le(self, other: TicketState) -> (r: bool)
        ensures
            r == (self.idx() <= other.idx()),
    {
        self.index() <= other.index()
    }

    /// Whether `self` comes strictly after `other` in the progress order.
    pub fn gt(self, other: TicketState) -> (r: bool)
        ensures
            r == (self.idx() > other.idx()),
    {
        self.index() > other.index()
    }

    /// The state each tracker list name stands for.
    pub open spec fn of_name(s: Seq<char>) -> Option<TicketState> {
        if s == "In Scope"@ {
            Some(TicketState::InScope)
        } else if s == "Investigation/Discussion"@ {
            Some(TicketState::InvestigationDiscussion)
        } else if s == "In Progress"@ {
            Some(TicketState::InProgress)
        } else if s == "Pending Release"@ {
            Some(TicketState::PendingRelease)
        } else if s == "Demo/Final Approval"@ {
            Some(TicketState::DemoFinalApproval)
        } else if s == "Done"@ {
            Some(TicketState::Done)
        } else {
            None
        }
    }

    /// The state a tracker list name stands for, if any.
    pub fn from_str(name: &str) -> (r: Option<TicketState>)
        ensures
            r == TicketState::of_name(name@),
    {
        if crate::strutil::str_eq(name, "In Scope") {
            Some(TicketState::InScope)
        } else if crate::strutil::str_eq(name, "Investigation/Discussion") {
            Some(TicketState::InvestigationDiscussion)
        } else if crate::strutil::str_eq(name, "In Progress") {
            Some(TicketState::InProgress)
        } else if crate::strutil::str_eq(name, "Pending Release") {
            Some(TicketState::PendingRelease)
        } else if crate::strutil::str_eq(name, "Demo/Final Approval") {
            Some(TicketState::DemoFinalApproval)
        } else if crate::strutil::str_eq(name, "Done") {
            Some(TicketState::Done)
        } else {
            None
        }
    }
}

} // verus!
