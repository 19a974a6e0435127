//! Simple interest accrued on a loan over a flat 365-day year.
use vstd::prelude::*;

use crate::date::Date;
use crate::decimal::{
    checked_product, checked_quotient, checked_sum, decimal_product, decimal_quotient, decimal_sum,
    Dec,
};
use crate::input::LoanInput;

verus! {

/// The figures of a loan as of an accrual date.
#[derive(Clone, Copy, Debug)]
pub struct LoanOutput {
    pub daily_interest_with_margin: Dec,
    pub daily_interest_amount_accrued: Dec,
    pub accrual_date: Date,
    pub elapsed_days: Dec,
    pub total_interest: Dec,
}

/// The number of days in a year, leap years included.
pub open spec fn days_in_year() -> Dec {
    Dec { mantissa: 365, scale: 0 }
}

/// `a * b`, where `a` may already have failed.
pub open spec fn times(a: Option<Dec>, b: Dec) -> Option<Dec> {
    match a {
        Some(x) => decimal_product(x, b),
        None => None,
    }
}

/// `a / b`, where `a` may already have failed.
pub open spec fn divided(a: Option<Dec>, b: Dec) -> Option<Dec> {
    match a {
        Some(x) => decimal_quotient(x, b),
        None => None,
    }
}

/// `amount * (interest_rate + margin)`: the yearly interest with margin.
pub open spec fn yearly_interest_with_margin(loan: LoanInput) -> Option<Dec> {
    match decimal_sum(loan.interest_rate, loan.margin) {
        Some(rate) => decimal_product(loan.amount, rate),
        None => None,
    }
}

/// `amount * (interest_rate + margin) / 365`.
pub open spec fn daily_interest_with_margin(loan: LoanInput) -> Option<Dec> {
    divided(yearly_interest_with_margin(loan), days_in_year())
}

/// `amount * interest_rate / 365`.
pub open spec fn daily_interest_without_margin(loan: LoanInput) -> Option<Dec> {
    divided(decimal_product(loan.amount, loan.interest_rate), days_in_year())
}

/// `amount * (interest_rate + margin) * (elapsed_days / 365)`.
pub open spec fn interest_at_day(loan: LoanInput, elapsed_days: Dec) -> Option<Dec> {
    match decimal_quotient(elapsed_days, days_in_year()) {
        Some(years) => times(yearly_interest_with_margin(loan), years),
        None => None,
    }
}

/// The whole days from the start of the loan to `accrual_date`, negative
/// when the accrual date comes first.
pub open spec fn elapsed_days(loan: LoanInput, accrual_date: Date) -> Dec {
    Dec { mantissa: accrual_date.days_since_spec(loan.start_date) as i128, scale: 0 }
}

/// The daily interest, margin included; `None` where the decimal arithmetic
/// overflows.
pub fn get_daily_interest_with_margin(loan_input: &LoanInput) -> (r: Option<Dec>)
    requires
        loan_input.wf(),
    ensures
        r == daily_interest_with_margin(*loan_input),
        r matches Some(d) ==> d.wf(),
{
    let rate = checked_sum(loan_input.interest_rate, loan_input.margin)?;
    let yearly = checked_product(loan_input.amount, rate)?;
    checked_quotient(yearly, Dec::from_int(365))
}

/// The daily interest without the margin; `None` where the decimal
/// arithmetic overflows.
pub fn get_daily_interest_amount_accrued(loan_input: &LoanInput) -> (r: Option<Dec>)
    requires
        loan_input.wf(),
    ensures
        r == daily_interest_without_margin(*loan_input),
        r matches Some(d) ==> d.wf(),
{
    let yearly = checked_product(loan_input.amount, loan_input.interest_rate)?;
    checked_quotient(yearly, Dec::from_int(365))
}

/// The interest, margin included, accrued over `elapsed_days` days; `None`
/// where the decimal arithmetic overflows.
pub fn get_interest_at_day_with_margin(loan_input: &LoanInput, elapsed_days: Dec) -> (r: Option<Dec>)
    requires
        loan_input.wf(),
        elapsed_days.wf(),
    ensures
        r == interest_at_day(*loan_input, elapsed_days),
        r matches Some(d) ==> d.wf(),
{
    let rate = checked_sum(loan_input.interest_rate, loan_input.margin)?;
    let yearly = checked_product(loan_input.amount, rate)?;
    let years = checked_quotient(elapsed_days, Dec::from_int(365))?;
    checked_product(yearly, years)
}

/// The figures of a loan as of `accrual_date`.  An accrual date before the
/// start of the loan is allowed: the elapsed days and the interest are then
/// negative, an amount not yet accrued.  `None` where the decimal
/// arithmetic overflows.
pub fn get_loan_output(loan_input: &LoanInput, accrual_date: Date) -> (r: Option<LoanOutput>)
    requires
        loan_input.wf(),
    ensures
        r is Some <==> (daily_interest_with_margin(*loan_input) is Some
            && daily_interest_without_margin(*loan_input) is Some
            && interest_at_day(*loan_input, elapsed_days(*loan_input, accrual_date)) is Some),
        r matches Some(out) ==> {
            &&& Some(out.daily_interest_with_margin) == daily_interest_with_margin(*loan_input)
            &&& Some(out.daily_interest_amount_accrued) == daily_interest_without_margin(*loan_input)
            &&& out.accrual_date == accrual_date
            &&& out.elapsed_days == elapsed_days(*loan_input, accrual_date)
            &&& Some(out.total_interest) == interest_at_day(*loan_input, elapsed_days(*loan_input, accrual_date))
        },
{
    let days = accrual_date.days_since(&loan_input.start_date);
    let elapsed = Dec::from_int(days);
    let total_interest = get_interest_at_day_with_margin(loan_input, elapsed);
    let with_margin = get_daily_interest_with_margin(loan_input);
    let without_margin = get_daily_interest_amount_accrued(loan_input);
    match (with_margin, without_margin, total_interest) {
        (Some(w), Some(a), Some(t)) => Some(LoanOutput {
            daily_interest_with_margin: w,
            daily_interest_amount_accrued: a,
            accrual_date,
            elapsed_days: elapsed,
            total_interest: t,
        }),
        _ => None,
    }
}

} // verus!
