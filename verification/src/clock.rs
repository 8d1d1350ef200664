//! The boundary to the `chrono` crate: today's date. The functions marked
//! `external_body` and the name without a body are taken on trust, and
//! nothing is claimed of which date today is.

use vstd::prelude::*;
use chrono::{Local, NaiveDate};

verus! {

/// `chrono::NaiveDate`, a calendar date.
#[verifier::external_type_specification]
#[verifier::external_body]
pub struct ExNaiveDate(NaiveDate);

/// A date written in a pattern of `strftime`, month names in English.
pub uninterp spec fn formatted_date(date: NaiveDate, pattern: Seq<char>) -> Seq<char>;

/// The pattern of a date in a prompt: day of the month in two digits, the
/// month's full name, the year.
pub open spec fn date_pattern() -> Seq<char> {
    "%d %B %Y"@
}

/// `Local::now`, as a calendar date: today on this machine.
#[verifier::external_body]
pub(crate) fn today() -> NaiveDate {
    Local::now().date_naive()
}

/// `NaiveDate::format`, written out: the date in the date pattern. The
/// pattern is well formed, so writing it out does not fail.
#[verifier::external_body]
pub(crate) fn format_date(date: &NaiveDate, pattern: &str) -> (text: String)
    requires
        pattern@ == date_pattern(),
    ensures
        text@ == formatted_date(*date, pattern@),
{
    date.format(pattern).to_string()
}

} // verus!
