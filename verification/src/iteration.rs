//! The school calendar: which week of the rotation a date falls in.

use crate::date::Date;
use vstd::prelude::*;

verus! {

/// A stretch of the school year in which every lesson of one week of the
/// rotation takes place: from the first day to the last, both included.
#[derive(Clone, Copy, Debug, PartialEq, Eq, Structural)]
pub struct Period {
    pub from: Date,
    pub to: Date,
    pub iteration: u8,
}

impl Period {
    /// Whether a date lies in the period.
    pub open spec fn spec_covers(self, date: Date) -> bool {
        !date.spec_before(self.from) && !self.to.spec_before(date)
    }

    /// Whether a date lies in the period.
    pub fn covers(&self, date: &Date) -> (inside: bool)
        ensures
            inside == self.spec_covers(*date),
    {
        !date.before(&self.from) && !self.to.before(date)
    }
}

/// The week of the rotation that the first period that covers the date
/// names; `None` where no period covers it.
pub open spec fn iteration_of(calendar: Seq<Period>, date: Date) -> Option<u8>
    decreases calendar.len(),
{
    if calendar.len() == 0 {
        None
    } else if calendar[0].spec_covers(date) {
        Some(calendar[0].iteration)
    } else {
        iteration_of(calendar.drop_first(), date)
    }
}

/// The week of the rotation that a date falls in, by the calendar; `None`
/// for a date that the calendar does not cover.
pub fn get_iteration(calendar: &Vec<Period>, date: Date) -> (iteration: Option<u8>)
    ensures
        iteration == iteration_of(calendar@, date),
{
    let mut i: usize = 0;
    assert(calendar@.skip(0) =~= calendar@);
    while i < calendar.len()
        invariant
            i <= calendar.len(),
            iteration_of(calendar@, date) == iteration_of(calendar@.skip(i as int), date),
        decreases calendar.len() - i,
    {
        assert(calendar@.skip(i as int).drop_first() =~= calendar@.skip(i + 1));
        if calendar[i].covers(&date) {
            return Some(calendar[i].iteration);
        }
        i += 1;
    }
    None
}

} // verus!
