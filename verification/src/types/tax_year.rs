//! The tax years for which bracket data exists.

use vstd::prelude::*;

verus! {

/// A tax year that the bracket lookup knows.
#[derive(Debug, Clone, Copy, PartialEq, Eq, Hash, Structural)]
pub enum TaxYear {
    /// Tax year 2023 (filed in 2024).
    Y2023,
    /// Tax year 2024 (filed in 2025).
    Y2024,
    /// Tax year 2025 (filed in 2026).
    Y2025,
}

impl TaxYear {
    /// The calendar year.
    pub open spec fn spec_number(self) -> u16 {
        match self {
            TaxYear::Y2023 => 2023,
            TaxYear::Y2024 => 2024,
            TaxYear::Y2025 => 2025,
        }
    }

    /// The calendar year.
    #[verifier::when_used_as_spec(spec_number)]
    pub fn number(self) -> (year: u16)
        ensures
            year == self.number(),
    {
        match self {
            TaxYear::Y2023 => 2023,
            TaxYear::Y2024 => 2024,
            TaxYear::Y2025 => 2025,
        }
    }
}

} // verus!
