//! Federal income tax core: exact currency amounts, per-year rule sets and the
//! pipeline that derives a return's ledger from them.
//!
//! - [`types`]: the cent-exact [`Usd`] amount, filers, filing statuses, tax
//!   years and the lines of Schedule 1.
//! - [`rules`]: the figures of a tax year and the standard-deduction algorithm
//!   that all years share.
//! - [`spine`]: the pipeline from wages to refund or amount owed, and the
//!   ledger that it fills.
//! - [`brackets`]: the lookup of the regular tax in the bracket tables.
//! - [`decimal`] and [`usd_amount`]: amounts held as decimal numbers.
//! - [`w2`]: the record layout of Form W-2.

pub mod brackets;
pub mod decimal;
pub mod rules;
pub mod spine;
pub mod text;
pub mod types;
pub mod usd_amount;
pub mod w2;

pub use types::Usd;
pub use usd_amount::UsdAmount;
