//! Dates and amounts as users type them.

use vstd::prelude::*;

use crate::dates::{date_text, date_valid, format_ymd, parse_ymd, parsed_date, Date};
use crate::error::{error_message, YnabError};
use crate::models::{amount_spec, AmountMilliunits};
use crate::text::{concat, trim, trim_end, trim_start, trimmed};

verus! {

/// The message a date that cannot be read is refused with (`t` trimmed).
pub open spec fn date_message(t: Seq<char>) -> Seq<char> {
    "invalid date `"@ + t + "`. use YYYY-MM-DD"@
}

/// The date a user typed: the trimmed text read as `YYYY-MM-DD`, or the
/// message it is refused with.
pub open spec fn input_date(input: Seq<char>) -> Result<Date, Seq<char>> {
    let t = trimmed(input);
    match parsed_date(t) {
        Some(d) => Ok(d),
        None => Err(date_message(t)),
    }
}

/// The date a user typed, written back as `YYYY-MM-DD`, or the message it is
/// refused with.
pub open spec fn iso_date_outcome(input: Seq<char>) -> Result<Seq<char>, Seq<char>> {
    match input_date(input) {
        Ok(d) => Ok(date_text(d)),
        Err(m) => Err(m),
    }
}

/// The amount a user typed in milliunits, or the message (with its
/// `invalid amount: ` prefix) it is refused with.
pub open spec fn amount_outcome(input: Seq<char>) -> Result<int, Seq<char>> {
    match amount_spec(input) {
        Ok(v) => Ok(v),
        Err(m) => Err("invalid amount: "@ + m),
    }
}

/// Reads a typed date.
pub fn read_input_date(input: &str) -> (r: Result<Date, String>)
    ensures
        match input_date(input@) {
            Ok(d) => r == Ok::<Date, String>(d) && date_valid(d),
            Err(m) => r is Err && r->Err_0@ == m,
        },
{
    let t = trim(input);
    match parse_ymd(t.as_str()) {
        Ok(d) => Ok(d),
        Err(_) => {
            let mut m = "invalid date `".to_owned();
            m.append(t.as_str());
            m.append("`. use YYYY-MM-DD");
            Err(m)
        },
    }
}

/// A typed date in the `YYYY-MM-DD` form the API takes.
pub fn iso_date_text(input: &str) -> (r: Result<String, String>)
    ensures
        match iso_date_outcome(input@) {
            Ok(s) => r is Ok && r->Ok_0@ == s,
            Err(m) => r is Err && r->Err_0@ == m,
        },
        r is Ok ==> iso_date_outcome(r->Ok_0@) == Ok::<Seq<char>, Seq<char>>(r->Ok_0@),
{
    match read_input_date(input) {
        Ok(d) => {
            let text = format_ymd(d);
            proof {
                let t = text@;
                assert(trim_start(t) == t);
                assert(trim_end(t) == t);
                assert(trimmed(t) == t);
            }
            Ok(text)
        },
        Err(m) => Err(m),
    }
}

/// A typed amount in milliunits, or the text of the error.
pub fn amount_text_value(input: &str) -> (r: Result<i64, String>)
    ensures
        match amount_outcome(input@) {
            Ok(v) => i64::MIN <= v <= i64::MAX && r == Ok::<i64, String>(v as i64),
            Err(m) => r is Err && r->Err_0@ == m,
        },
{
    match AmountMilliunits::parse(input) {
        Ok(a) => Ok(a.0),
        Err(e) => Err(e.message()),
    }
}

/// Why a typed value was refused.
#[derive(Debug)]
pub enum InputError {
    /// A date that does not read as `YYYY-MM-DD`, with its message.
    Date(String),
    /// An amount that does not read as a decimal amount, with its message.
    Amount(String),
}

/// The model of an input error.
pub enum InputIssue {
    Date(Seq<char>),
    Amount(Seq<char>),
}

/// The model of an input error.
pub open spec fn issue_of(e: InputError) -> InputIssue {
    match e {
        InputError::Date(m) => InputIssue::Date(m@),
        InputError::Amount(m) => InputIssue::Amount(m@),
    }
}

/// The model of an outcome that may fail on a typed value.
pub open spec fn issue_outcome<T>(r: Result<T, InputError>) -> Result<T, InputIssue> {
    match r {
        Ok(v) => Ok(v),
        Err(e) => Err(issue_of(e)),
    }
}

/// The text a tool reports for an input error: an amount's message with its
/// `invalid amount: ` prefix, a date's message as it is.
pub open spec fn issue_text(i: InputIssue) -> Seq<char> {
    match i {
        InputIssue::Date(m) => m,
        InputIssue::Amount(m) => "invalid amount: "@ + m,
    }
}

/// Whether a command error is the one an input error becomes: an amount's
/// is an invalid amount, a date's a configuration error.
pub open spec fn is_issue_error(e: YnabError, i: InputIssue) -> bool {
    match i {
        InputIssue::Date(m) => e matches YnabError::Config(x) && x@ == m,
        InputIssue::Amount(m) => e matches YnabError::InvalidAmount(x) && x@ == m,
    }
}

impl InputError {
    /// The text a tool reports for the error.
    pub fn into_text(self) -> (r: String)
        ensures
            r@ == issue_text(issue_of(self)),
    {
        match self {
            InputError::Date(m) => m,
            InputError::Amount(m) => concat("invalid amount: ", m.as_str()),
        }
    }

    /// The command error the input error becomes.
    pub fn into_error(self) -> (r: YnabError)
        ensures
            is_issue_error(r, issue_of(self)),
    {
        match self {
            InputError::Date(m) => YnabError::Config(m),
            InputError::Amount(m) => YnabError::InvalidAmount(m),
        }
    }
}

/// A typed amount in milliunits.
pub fn typed_amount(input: &str) -> (r: Result<i64, InputError>)
    ensures
        match amount_spec(input@) {
            Ok(v) => i64::MIN <= v <= i64::MAX && r == Ok::<i64, InputError>(v as i64),
            Err(m) => issue_outcome(r) == Err::<i64, InputIssue>(InputIssue::Amount(m)),
        },
{
    match AmountMilliunits::parse(input) {
        Ok(a) => Ok(a.0),
        Err(e) => match e {
            YnabError::InvalidAmount(m) => Err(InputError::Amount(m)),
            _ => Err(InputError::Amount(String::new())),
        },
    }
}

/// A typed date in `YYYY-MM-DD` form.
pub fn typed_iso_date(input: &str) -> (r: Result<String, InputError>)
    ensures
        match iso_date_outcome(input@) {
            Ok(s) => r is Ok && r->Ok_0@ == s,
            Err(m) => issue_outcome(r) == Err::<String, InputIssue>(InputIssue::Date(m)),
        },
{
    match iso_date_text(input) {
        Ok(s) => Ok(s),
        Err(m) => Err(InputError::Date(m)),
    }
}

} // verus!
