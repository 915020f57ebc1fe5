//! The age and blindness facts about one person on a return.

use vstd::prelude::*;

verus! {

/// A filer (taxpayer or spouse) for purposes of the additional standard
/// deduction and other age/blindness rules.
#[derive(Debug, Clone, Copy)]
pub struct Filer {
    pub is_65_or_older: bool,
    pub is_blind: bool,
}

impl Filer {
    /// Number of qualifying boxes that are checked: one for age, one for blindness.
    pub open spec fn spec_checked_boxes(self) -> i64 {
        if self.is_65_or_older && self.is_blind {
            2
        } else if self.is_65_or_older || self.is_blind {
            1
        } else {
            0
        }
    }

    /// Number of checked boxes (0, 1, or 2) that qualify for the additional
    /// standard deduction.
    #[verifier::when_used_as_spec(spec_checked_boxes)]
    pub fn checked_boxes(self) -> (boxes: i64)
        ensures
            boxes == self.checked_boxes(),
            0 <= boxes <= 2,
    {
        let age: i64 = if self.is_65_or_older {
            1
        } else {
            0
        };
        let sight: i64 = if self.is_blind {
            1
        } else {
            0
        };
        age + sight
    }
}

impl Default for Filer {
    fn default() -> (filer: Filer)
        ensures
            !filer.is_65_or_older,
            !filer.is_blind,
    {
        Filer { is_65_or_older: false, is_blind: false }
    }
}

} // verus!
