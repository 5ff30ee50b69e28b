//! Lesson slots: the plan counts single periods, the timetable counts blocks
//! of two periods.

use crate::text::{chars_of, decimal_of, parse_decimal};
use vstd::prelude::*;

verus! {

/// The block that a period belongs to: periods 1 and 2 form block 1, periods
/// 3 and 4 block 2, and so on.
pub open spec fn block_of(hour: int) -> int {
    (hour + hour % 2) / 2
}

/// The block that a period belongs to.
pub fn hour_to_block(hour: u8) -> (block: u8)
    ensures
        block == block_of(hour as int),
{
    let odd: u8 = hour % 2;
    hour / 2 + odd
}

/// The digits of a slot label: the label without the full stop that may end
/// it.
pub open spec fn label_digits(label: Seq<char>) -> Seq<char> {
    if label.len() > 0 && label.last() == '.' {
        label.drop_last()
    } else {
        label
    }
}

/// The block that a slot label names: the label is the number of a period
/// from 1 to 255, with or without a full stop behind it.
pub open spec fn block_of_label(label: Seq<char>) -> Option<u8> {
    match decimal_of(label_digits(label)) {
        Some(hour) => if 1 <= hour <= 255 {
            Some(block_of(hour as int) as u8)
        } else {
            None
        },
        None => None,
    }
}

/// Reads a slot label such as `4.` and gives the block of that period.
pub fn parse_slot(label: &str) -> (block: Option<u8>)
    ensures
        block == block_of_label(label@),
{
    let v = chars_of(label);
    let n = v.len();
    let digits = if n > 0 && v[n - 1] == '.' {
        label.substring_char(0, n - 1)
    } else {
        label
    };
    match parse_decimal(digits) {
        Some(hour) => if 1 <= hour && hour <= 255 {
            Some(hour_to_block(hour as u8))
        } else {
            None
        },
        None => None,
    }
}

} // verus!
