//! Validation of the loan's fields, as typed by a user, into typed values.
use vstd::prelude::*;
use vstd::string::StrSliceExecFns;

use crate::currency::{is_iso_currency_code, known_currency_code, CurrencyCode};
use crate::date::{date_from_text, today, Date};
use crate::decimal::{checked_quotient, decimal_from_text, decimal_quotient, Dec};
use crate::text::{parse_input_into_type, trim_text, trimmed};

verus! {

/// The terms of one loan.
#[derive(Clone, Debug)]
pub struct LoanInput {
    pub id: usize,
    pub start_date: Date,
    pub end_date: Date,
    pub amount: Dec,
    pub currency: CurrencyCode,
    /// A fraction: 0.05 stands for 5%.
    pub interest_rate: Dec,
    /// A fraction added to the interest rate: 0.01 stands for 1%.
    pub margin: Dec,
}

impl LoanInput {
    /// The loan ends after it starts, and its numbers are valid decimals.
    pub open spec fn wf(&self) -> bool {
        &&& self.start_date.days < self.end_date.days
        &&& self.amount.wf()
        &&& self.interest_rate.wf()
        &&& self.margin.wf()
    }
}

/// An entry of the main menu.
#[derive(Clone, Copy, Debug, PartialEq, Eq, Structural)]
pub enum CliChoice {
    AddLoan,
    EditLoan,
    Exit,
}

impl CliChoice {
    /// The entry at a position of the menu, which lists adding a loan,
    /// editing a loan and leaving, in that order.
    pub fn from_index(index: usize) -> (r: Option<CliChoice>)
        ensures
            index == 0 ==> r == Some(CliChoice::AddLoan),
            index == 1 ==> r == Some(CliChoice::EditLoan),
            index == 2 ==> r == Some(CliChoice::Exit),
            index > 2 ==> r is None,
    {
        match index {
            0 => Some(CliChoice::AddLoan),
            1 => Some(CliChoice::EditLoan),
            2 => Some(CliChoice::Exit),
            _ => None,
        }
    }
}

pub open spec fn invalid_date_message() -> Seq<char> {
    "* Please enter a valid date in the future"@
}

pub open spec fn past_date_message() -> Seq<char> {
    "* Start date cannot be in the past"@
}

pub open spec fn end_before_start_message() -> Seq<char> {
    "* The end date of the loan must be after the start date"@
}

pub open spec fn invalid_number_message() -> Seq<char> {
    "* Please enter a valid number"@
}

pub open spec fn invalid_currency_message() -> Seq<char> {
    "* Please enter a valid currency"@
}

/// A result with its error message seen as text.
pub open spec fn err_view<T>(r: Result<T, String>) -> Result<T, Seq<char>> {
    match r {
        Ok(v) => Ok(v),
        Err(e) => Err(e@),
    }
}

/// A currency result with the code and the error message seen as text.
pub open spec fn currency_view(r: Result<CurrencyCode, String>) -> Result<Seq<char>, Seq<char>> {
    match r {
        Ok(c) => Ok(c@),
        Err(e) => Err(e@),
    }
}

/// An answer that leaves a field as it was: nothing, or a bare line break.
pub open spec fn is_blank(text: Seq<char>) -> bool {
    text.len() == 0 || text == seq!['\n']
}

/// A date that is not before `today`.
pub open spec fn date_outcome(text: Seq<char>, today: Date) -> Result<Date, Seq<char>> {
    match date_from_text(trimmed(text)) {
        None => Err(invalid_date_message()),
        Some(d) => if d.days < today.days {
            Err(past_date_message())
        } else {
            Ok(d)
        },
    }
}

/// A date strictly after `start`.
pub open spec fn end_date_outcome(text: Seq<char>, start: Date) -> Result<Date, Seq<char>> {
    match date_from_text(trimmed(text)) {
        None => Err(invalid_date_message()),
        Some(d) => if d.days <= start.days {
            Err(end_before_start_message())
        } else {
            Ok(d)
        },
    }
}

/// A decimal number.
pub open spec fn decimal_outcome(text: Seq<char>) -> Result<Dec, Seq<char>> {
    match decimal_from_text(trimmed(text)) {
        None => Err(invalid_number_message()),
        Some(d) => Ok(d),
    }
}

/// The number one hundred.
pub open spec fn hundred() -> Dec {
    Dec { mantissa: 100, scale: 0 }
}

/// A percentage, turned into a fraction by a division by one hundred.
pub open spec fn percentage_outcome(text: Seq<char>) -> Result<Dec, Seq<char>> {
    match decimal_outcome(text) {
        Err(e) => Err(e),
        Ok(d) => match decimal_quotient(d, hundred()) {
            Some(f) => Ok(f),
            None => Err(invalid_number_message()),
        },
    }
}

/// An ISO 4217 code, without surrounding whitespace.
pub open spec fn currency_outcome(text: Seq<char>) -> Result<Seq<char>, Seq<char>> {
    if is_iso_currency_code(trimmed(text)) {
        Ok(trimmed(text))
    } else {
        Err(invalid_currency_message())
    }
}

/// The existing value where the answer is blank and there is one, else what
/// the answer gives.
pub open spec fn keep_or<T>(text: Seq<char>, existing: Option<T>, fresh: Result<T, Seq<char>>) -> Result<T, Seq<char>> {
    match existing {
        Some(v) => if is_blank(text) {
            Ok(v)
        } else {
            fresh
        },
        None => fresh,
    }
}

/// An end date; a kept one is checked again against the (new) start date.
pub open spec fn end_date_field_outcome(text: Seq<char>, existing: Option<Date>, start: Date) -> Result<Date, Seq<char>> {
    match existing {
        Some(e) => if is_blank(text) {
            if e.days <= start.days {
                Err(end_before_start_message())
            } else {
                Ok(e)
            }
        } else {
            end_date_outcome(text, start)
        },
        None => end_date_outcome(text, start),
    }
}

/// The accrual date: the end of the loan where the answer is blank.
pub open spec fn accrual_date_outcome(text: Seq<char>, end_date: Date, today: Date) -> Result<Date, Seq<char>> {
    if is_blank(text) {
        Ok(end_date)
    } else {
        date_outcome(text, today)
    }
}

/// Reads a date that is not in the past; the current date comes from the
/// clock.  A text that is no date is refused as invalid; a date that can be
/// read is either accepted as it is or refused as being in the past.
pub fn parse_date(date: &str) -> (r: Result<Date, String>)
    ensures
        date_from_text(trimmed(date@)) is None ==> err_view(r) == Err::<Date, Seq<char>>(invalid_date_message()),
        date_from_text(trimmed(date@)) matches Some(d) ==> (err_view(r) == Ok::<Date, Seq<char>>(d)
            || err_view(r) == Err::<Date, Seq<char>>(past_date_message())),
        exists|t: Date| err_view(r) == #[trigger] date_outcome(date@, t),
{
    let now = today();
    parse_date_on(date, now)
}

/// Reads a date that is not before `today`.
pub fn parse_date_on(date: &str, today: Date) -> (r: Result<Date, String>)
    ensures
        err_view(r) == date_outcome(date@, today),
{
    let parsed: Option<Date> = parse_input_into_type(date);
    match parsed {
        None => Err(message("* Please enter a valid date in the future")),
        Some(d) => if d.days < today.days {
            Err(message("* Start date cannot be in the past"))
        } else {
            Ok(d)
        },
    }
}

/// Reads a date strictly after `start_date`.
pub fn parse_end_date(end_date: &str, start_date: Date) -> (r: Result<Date, String>)
    ensures
        err_view(r) == end_date_outcome(end_date@, start_date),
{
    let parsed: Option<Date> = parse_input_into_type(end_date);
    match parsed {
        None => Err(message("* Please enter a valid date in the future")),
        Some(d) => if d.days <= start_date.days {
            Err(message("* The end date of the loan must be after the start date"))
        } else {
            Ok(d)
        },
    }
}

/// Reads a decimal number, surrounding whitespace removed.
pub fn parse_decimal(decimal: &str) -> (r: Result<Dec, String>)
    ensures
        err_view(r) == decimal_outcome(decimal@),
        r matches Ok(d) ==> d.wf(),
{
    let parsed: Option<Dec> = parse_input_into_type(decimal);
    match parsed {
        None => Err(message("* Please enter a valid number")),
        Some(d) => Ok(d),
    }
}

/// Reads a percentage such as `5.25` and gives the fraction `0.0525`.
pub fn parse_percentage_input(text: &str) -> (r: Result<Dec, String>)
    ensures
        err_view(r) == percentage_outcome(text@),
        r matches Ok(d) ==> d.wf(),
{
    let d = parse_decimal(text)?;
    match checked_quotient(d, Dec::from_int(100)) {
        Some(f) => Ok(f),
        None => Err(message("* Please enter a valid number")),
    }
}

/// Reads an ISO 4217 currency code, surrounding whitespace removed.
pub fn parse_currency(currency: &str) -> (r: Result<CurrencyCode, String>)
    ensures
        currency_view(r) == currency_outcome(currency@),
{
    let code = trim_text(currency);
    if known_currency_code(code) {
        Ok(CurrencyCode { code: message(code) })
    } else {
        Err(message("* Please enter a valid currency"))
    }
}

/// The start date of a loan; on an edit a blank answer keeps `existing`.
pub fn start_date_field(text: &str, existing: Option<Date>, today: Date) -> (r: Result<Date, String>)
    ensures
        err_view(r) == keep_or(text@, existing, date_outcome(text@, today)),
{
    if let Some(d) = existing {
        if blank(text) {
            return Ok(d);
        }
    }
    parse_date_on(text, today)
}

/// The end date of a loan, strictly after `start_date`; on an edit a blank
/// answer keeps `existing`, which is checked against `start_date` again.
pub fn end_date_field(text: &str, existing: Option<Date>, start_date: Date) -> (r: Result<Date, String>)
    ensures
        err_view(r) == end_date_field_outcome(text@, existing, start_date),
{
    if let Some(e) = existing {
        if blank(text) {
            if e.days <= start_date.days {
                return Err(message("* The end date of the loan must be after the start date"));
            }
            return Ok(e);
        }
    }
    parse_end_date(text, start_date)
}

/// The amount of a loan; on an edit a blank answer keeps `existing`.
pub fn amount_field(text: &str, existing: Option<Dec>) -> (r: Result<Dec, String>)
    requires
        existing matches Some(d) ==> d.wf(),
    ensures
        err_view(r) == keep_or(text@, existing, decimal_outcome(text@)),
        r matches Ok(d) ==> d.wf(),
{
    if let Some(d) = existing {
        if blank(text) {
            return Ok(d);
        }
    }
    parse_decimal(text)
}

/// The currency of a loan; on an edit a blank answer keeps `existing`.
pub fn currency_field(text: &str, existing: Option<CurrencyCode>) -> (r: Result<CurrencyCode, String>)
    ensures
        currency_view(r) == keep_or(
            text@,
            match existing {
                Some(c) => Some(c@),
                None => None,
            },
            currency_outcome(text@),
        ),
{
    if let Some(c) = existing {
        if blank(text) {
            return Ok(c);
        }
    }
    parse_currency(text)
}

/// The interest rate or the margin of a loan, typed as a percentage and
/// kept as a fraction; on an edit a blank answer keeps `existing`.
pub fn percentage_field(text: &str, existing: Option<Dec>) -> (r: Result<Dec, String>)
    requires
        existing matches Some(d) ==> d.wf(),
    ensures
        err_view(r) == keep_or(text@, existing, percentage_outcome(text@)),
        r matches Ok(d) ==> d.wf(),
{
    if let Some(d) = existing {
        if blank(text) {
            return Ok(d);
        }
    }
    parse_percentage_input(text)
}

/// The date to accrue interest to: the end of the loan where the answer is
/// blank, else a date that is not before `today`.
pub fn accrual_date_field(text: &str, end_date: Date, today: Date) -> (r: Result<Date, String>)
    ensures
        err_view(r) == accrual_date_outcome(text@, end_date, today),
{
    if blank(text) {
        Ok(end_date)
    } else {
        parse_date_on(text, today)
    }
}

/// Today is an accepted date and every earlier date is refused as being in
/// the past; later dates are accepted.
pub proof fn lemma_dates_from_today_on(text: Seq<char>, today: Date)
    requires
        date_from_text(trimmed(text)) is Some,
    ensures
        ({
            let d = date_from_text(trimmed(text))->Some_0;
            &&& d.days < today.days ==> date_outcome(text, today) == Err::<Date, Seq<char>>(past_date_message())
            &&& d.days >= today.days ==> date_outcome(text, today) == Ok::<Date, Seq<char>>(d)
        }),
{
}

/// An end date equal to or before the start date is refused; the day after
/// the start date, and any later one, is accepted.
pub proof fn lemma_end_date_after_start(text: Seq<char>, start: Date)
    requires
        date_from_text(trimmed(text)) is Some,
    ensures
        ({
            let e = date_from_text(trimmed(text))->Some_0;
            &&& e.days <= start.days ==> end_date_outcome(text, start) == Err::<Date, Seq<char>>(end_before_start_message())
            &&& e.days == start.days + 1 ==> end_date_outcome(text, start) == Ok::<Date, Seq<char>>(e)
            &&& e.days > start.days ==> end_date_outcome(text, start) == Ok::<Date, Seq<char>>(e)
        }),
{
}

/// A currency answer is accepted exactly when, whitespace removed, it is a
/// known ISO 4217 code, and it is then that code.
pub proof fn lemma_currency_codes(text: Seq<char>)
    ensures
        currency_outcome(text) is Ok <==> is_iso_currency_code(trimmed(text)),
        is_iso_currency_code(trimmed(text)) ==> currency_outcome(text) == Ok::<Seq<char>, Seq<char>>(trimmed(text)),
{
}

/// Editing a well-formed loan with a blank answer to every question keeps
/// each of its fields: start date, end date (checked again against the kept
/// start date), amount, currency, interest rate and margin.
pub proof fn lemma_blank_edit_keeps_loan(loan: LoanInput, answer: Seq<char>, today: Date)
    requires
        loan.wf(),
        is_blank(answer),
    ensures
        keep_or(answer, Some(loan.start_date), date_outcome(answer, today)) == Ok::<Date, Seq<char>>(loan.start_date),
        end_date_field_outcome(answer, Some(loan.end_date), loan.start_date) == Ok::<Date, Seq<char>>(loan.end_date),
        keep_or(answer, Some(loan.amount), decimal_outcome(answer)) == Ok::<Dec, Seq<char>>(loan.amount),
        keep_or(answer, Some(loan.currency@), currency_outcome(answer)) == Ok::<Seq<char>, Seq<char>>(loan.currency@),
        keep_or(answer, Some(loan.interest_rate), percentage_outcome(answer)) == Ok::<Dec, Seq<char>>(loan.interest_rate),
        keep_or(answer, Some(loan.margin), percentage_outcome(answer)) == Ok::<Dec, Seq<char>>(loan.margin),
{
}

fn message(s: &str) -> (r: String)
    ensures
        r@ == s@,
{
    s.to_owned()
}

fn blank(text: &str) -> (r: bool)
    ensures
        r == is_blank(text@),
{
    if text.is_empty() {
        true
    } else if text.unicode_len() == 1 {
        let c = text.get_char(0);
        if c == '\n' {
            assert(text@ =~= seq!['\n']);
            true
        } else {
            false
        }
    } else {
        false
    }
}

} // verus!
