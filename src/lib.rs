//! Loan interest accrual: validation of the loan's fields and simple
//! (non-compounding) interest over a flat 365-day year.

pub mod currency;
pub mod date;
pub mod decimal;
pub mod history;
pub mod input;
pub mod output;
pub mod text;
