//! Formatting helpers of the templates: escaping and the grouping of
//! amounts. Amounts arrive as decimal text.

use vstd::prelude::*;
use crate::text::{
    chars_of,
    group_thousands,
    grouped,
    index_of,
    push_chars,
    push_text,
    segment,
    segment_of,
};

verus! {

/// What one character becomes in the filter's output: the dollar sign, the
/// hash, the underscore and the asterisk get a backslash in front.
pub open spec fn filter_escaped_char(c: char) -> Seq<char> {
    if c == '$' || c == '#' || c == '_' || c == '*' {
        seq!['\\', c]
    } else {
        seq![c]
    }
}

/// A text with the characters that the filter escapes escaped.
pub open spec fn filter_escaped_text(text: Seq<char>) -> Seq<char>
    decreases text.len(),
{
    if text.len() == 0 {
        Seq::empty()
    } else {
        filter_escaped_text(text.drop_last()) + filter_escaped_char(text.last())
    }
}

/// Escapes the characters of `text` that mean something in markup, for use
/// as a template filter.
pub fn escape_typst_filter(text: &str) -> (escaped: String)
    ensures
        escaped@ == filter_escaped_text(text@),
{
    let chars = chars_of(text);
    let mut out = String::new();
    let mut i: usize = 0;
    while i < chars.len()
        invariant
            0 <= i <= chars.len(),
            chars@ == text@,
            out@ == filter_escaped_text(text@.subrange(0, i as int)),
        decreases chars.len() - i,
    {
        let c = chars[i];
        proof {
            assert(text@.subrange(0, i + 1).drop_last() =~= text@.subrange(0, i as int));
            assert(text@.subrange(0, i + 1).last() == c);
        }
        if c == '$' || c == '#' || c == '_' || c == '*' {
            out.push('\\');
        }
        out.push(c);
        i = i + 1;
        assert(out@ =~= filter_escaped_text(text@.subrange(0, i as int)));
    }
    assert(text@.subrange(0, i as int) =~= text@);
    out
}

/// The digits before the decimal point of a number in decimal text.
pub open spec fn integer_part(formatted: Seq<char>) -> Seq<char> {
    formatted.subrange(0, index_of(formatted, '.'))
}

/// The digits after the decimal point of a number in decimal text, up to a
/// second point; two zeros where the text has no point.
pub open spec fn decimal_part(formatted: Seq<char>) -> Seq<char> {
    match segment(formatted, '.', 1) {
        Some(digits) => digits,
        None => "00"@,
    }
}

/// A number with its thousands grouped: the integer part in groups of three
/// and, where decimals are shown, a point and the decimal part.
pub open spec fn number_text(formatted: Seq<char>, show_decimals: bool) -> Seq<char> {
    if show_decimals {
        grouped(integer_part(formatted)) + "."@ + decimal_part(formatted)
    } else {
        grouped(integer_part(formatted))
    }
}

fn text_from(chars: &Vec<char>) -> (text: String)
    ensures
        text@ == chars@,
{
    let mut out = String::new();
    push_chars(&mut out, chars, 0, chars.len());
    assert(out@ =~= chars@);
    out
}

/// Groups the thousands of a number given in decimal text, such as
/// `1234567.50`, which becomes `1,234,567.50`.
pub fn format_number_text(formatted: &str, show_decimals: bool) -> (text: String)
    ensures
        text@ == number_text(formatted@, show_decimals),
{
    let chars = chars_of(formatted);
    let integer = match segment_of(&chars, '.', 0) {
        Some(digits) => digits,
        None => Vec::new(),
    };
    let integer_text = text_from(&integer);
    let mut out = group_thousands(integer_text.as_str());
    if show_decimals {
        push_text(&mut out, ".");
        match segment_of(&chars, '.', 1) {
            Some(digits) => {
                let decimals = text_from(&digits);
                push_text(&mut out, decimals.as_str());
            },
            None => {
                push_text(&mut out, "00");
            },
        }
        assert(out@ =~= number_text(formatted@, show_decimals));
    }
    out
}

/// An amount of money: a minus sign for a negative amount, the currency
/// symbol, and the amount without its sign with its thousands grouped.
pub open spec fn currency_text(negative: bool, symbol: Seq<char>, formatted: Seq<char>) -> Seq<
    char,
> {
    (if negative {
        "-"@
    } else {
        Seq::<char>::empty()
    }) + symbol + number_text(formatted, true)
}

/// Formats an amount of money from its sign and the decimal text of its
/// absolute value.
pub fn format_currency_text(negative: bool, symbol: &str, formatted: &str) -> (text: String)
    ensures
        text@ == currency_text(negative, symbol@, formatted@),
{
    let mut out = String::new();
    if negative {
        push_text(&mut out, "-");
    }
    push_text(&mut out, symbol);
    let number = format_number_text(formatted, true);
    push_text(&mut out, number.as_str());
    assert(out@ =~= currency_text(negative, symbol@, formatted@));
    out
}

/// An amount of money as markup shows it: the currency symbol, with the
/// dollar sign escaped, and the amount with its thousands grouped.
pub open spec fn money_text(symbol: Seq<char>, formatted: Seq<char>) -> Seq<char> {
    (if symbol == "$"@ {
        "\\$"@
    } else {
        symbol
    }) + number_text(formatted, true)
}

/// Formats an amount of money for markup from the decimal text of the
/// amount.
pub fn format_money_text(symbol: &str, formatted: &str) -> (text: String)
    ensures
        text@ == money_text(symbol@, formatted@),
{
    let mut out = String::new();
    if crate::text::same_text(symbol, "$") {
        push_text(&mut out, "\\$");
    } else {
        push_text(&mut out, symbol);
    }
    let number = format_number_text(formatted, true);
    push_text(&mut out, number.as_str());
    assert(out@ =~= money_text(symbol@, formatted@));
    out
}


/// The calendar date that `date` holds under the pattern `pattern`, written
/// with `format`, as `chrono` reads and writes it; `None` where `date` does
/// not match the pattern or the date cannot be written with `format`.
pub uninterp spec fn calendar_date_text(date: Seq<char>, pattern: Seq<char>, format: Seq<char>)
    -> Option<Seq<char>>;

/// The RFC 3339 date and time that `date` holds, written with `format`, as
/// `chrono` reads and writes it; `None` where `date` holds none or it cannot
/// be written with `format`.
pub uninterp spec fn timestamp_text(date: Seq<char>, format: Seq<char>) -> Option<Seq<char>>;

/// `NaiveDate::parse_from_str` and `NaiveDate::format` of `chrono`: reads a
/// calendar date and writes it in another format. Both depend on their
/// arguments alone; a date that does not parse, or a format that cannot be
/// applied to a date, gives `None`.
#[verifier::external_body]
fn format_calendar_date(date: &str, pattern: &str, format: &str) -> (shown: Option<String>)
    ensures
        shown is Some <==> calendar_date_text(date@, pattern@, format@) is Some,
        shown is Some ==> shown->0@ == calendar_date_text(date@, pattern@, format@)->0,
{
    let day = chrono::NaiveDate::parse_from_str(date, pattern).ok()?;
    let mut shown = String::new();
    day.format(format).write_to(&mut shown).ok()?;
    Some(shown)
}

/// `DateTime::parse_from_rfc3339` and `DateTime::format` of `chrono`: reads
/// a date and time with its offset and writes it in another format. Both
/// depend on their arguments alone; text that does not parse, or a format
/// that cannot be applied, gives `None`.
#[verifier::external_body]
fn format_timestamp(date: &str, format: &str) -> (shown: Option<String>)
    ensures
        shown is Some <==> timestamp_text(date@, format@) is Some,
        shown is Some ==> shown->0@ == timestamp_text(date@, format@)->0,
{
    let moment = chrono::DateTime::parse_from_rfc3339(date).ok()?;
    let mut shown = String::new();
    moment.format(format).write_to(&mut shown).ok()?;
    Some(shown)
}

/// What is shown for a date: the calendar date where the text holds one,
/// else the date and time where it holds one, else the text as it is.
pub open spec fn shown_date(date: Seq<char>, calendar: Option<Seq<char>>, timestamp: Option<
    Seq<char>,
>) -> Seq<char> {
    match calendar {
        Some(text) => text,
        None => match timestamp {
            Some(text) => text,
            None => date,
        },
    }
}

/// Chooses what is shown for a date from the two readings of its text.
pub fn choose_date_text(date: &str, calendar: Option<String>, timestamp: Option<String>) -> (text:
    String)
    ensures
        text@ == shown_date(
            date@,
            match calendar {
                Some(shown) => Some(shown@),
                None => None,
            },
            match timestamp {
                Some(shown) => Some(shown@),
                None => None,
            },
        ),
{
    match calendar {
        Some(shown) => shown,
        None => match timestamp {
            Some(shown) => shown,
            None => crate::text::text_of(date),
        },
    }
}

/// Writes a date in another format. The text is read as a calendar date in
/// the form year, month and day with hyphens, else as an RFC 3339 date and
/// time; text that is neither is returned as it is.
pub fn format_date_string(date_str: &str, format: &str) -> (text: String)
    ensures
        text@ == shown_date(
            date_str@,
            calendar_date_text(date_str@, "%Y-%m-%d"@, format@),
            if calendar_date_text(date_str@, "%Y-%m-%d"@, format@) is Some {
                None
            } else {
                timestamp_text(date_str@, format@)
            },
        ),
{
    let calendar = format_calendar_date(date_str, "%Y-%m-%d", format);
    let timestamp = if calendar.is_some() {
        None
    } else {
        format_timestamp(date_str, format)
    };
    choose_date_text(date_str, calendar, timestamp)
}

} // verus!
