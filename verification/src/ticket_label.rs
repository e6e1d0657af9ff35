//! The closed set of labels a ticket may carry. The `Goal` label drives the
//! priority ordering inside every report bucket.

use vstd::prelude::*;

verus! {

/// A tracker label; a ticket may hold several.
#[derive(Clone, Copy, Debug, PartialEq, Eq, Structural)]
pub enum TicketLabel {
    Goal,
    FrontEnd,
    BackEnd,
    Infra,
    Bug,
    Minor,
    Blocked,
}

impl TicketLabel {
    /// The label each tracker label name stands for.
    pub open spec fn of_name(s: Seq<char>) -> Option<TicketLabel> {
        if s == "Goal"@ {
            Some(TicketLabel::Goal)
        } else if s == "Front-End"@ {
            Some(TicketLabel::FrontEnd)
        } else if s == "Back-End"@ {
            Some(TicketLabel::BackEnd)
        } else if s == "Infra"@ {
            Some(TicketLabel::Infra)
        } else if s == "Bug"@ {
            Some(TicketLabel::Bug)
        } else if s == "Minor"@ {
            Some(TicketLabel::Minor)
        } else if s == "Blocked"@ {
            Some(TicketLabel::Blocked)
        } else {
            None
        }
    }

    /// The label a tracker label name stands for, if any.
    pub fn from_str(name: &str) -> (r: Option<TicketLabel>)
        ensures
            r == TicketLabel::of_name(name@),
    {
        if crate::strutil::str_eq(name, "Goal") {
            Some(TicketLabel::Goal)
        } else if crate::strutil::str_eq(name, "Front-End") {
            Some(TicketLabel::FrontEnd)
        } else if crate::strutil::str_eq(name, "Back-End") {
            Some(TicketLabel::BackEnd)
        } else if crate::strutil::str_eq(name, "Infra") {
            Some(TicketLabel::Infra)
        } else if crate::strutil::str_eq(name, "Bug") {
            Some(TicketLabel::Bug)
        } else if crate::strutil::str_eq(name, "Minor") {
            Some(TicketLabel::Minor)
        } else if crate::strutil::str_eq(name, "Blocked") {
            Some(TicketLabel::Blocked)
        } else {
            None
        }
    }

    /// The marker glyph shown beside the label.
    pub fn emoji(&self) -> (r: &'static str)
        ensures
            *self is Goal ==> r@ == "\u{1F3C1}"@,
            *self is FrontEnd ==> r@ == "\u{1F4F1}"@,
            *self is BackEnd ==> r@ == "\u{1F310}"@,
            *self is Infra ==> r@ == "\u{1F527}"@,
            *self is Bug ==> r@ == "\u{1F41B}"@,
            *self is Minor ==> r@ == "\u{1FAB6}"@,
            *self is Blocked ==> r@ == "\u{1F6A7}"@,
    {
        match self {
            TicketLabel::Goal => "\u{1F3C1}",
            TicketLabel::FrontEnd => "\u{1F4F1}",
            TicketLabel::BackEnd => "\u{1F310}",
            TicketLabel::Infra => "\u{1F527}",
            TicketLabel::Bug => "\u{1F41B}",
            TicketLabel::Minor => "\u{1FAB6}",
            TicketLabel::Blocked => "\u{1F6A7}",
        }
    }
}

} // verus!
