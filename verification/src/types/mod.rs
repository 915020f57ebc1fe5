//! Value types shared by the rules and the pipeline.

mod filer;
mod filing_status;
mod schedule1;
mod tax_year;
pub mod usd;

pub use filer::Filer;
pub use filing_status::FilingStatus;
pub use schedule1::{AdditionalIncome, Adjustments};
pub use tax_year::TaxYear;
pub use usd::Usd;
