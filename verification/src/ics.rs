//! Turning tasks into an iCalendar document (RFC 5545).
//!
//! The one thing the caller must supply is the moment the export happens,
//! because `DTSTAMP` is a required property of every event and reading a clock
//! is not a rule.
//!
//! A due date is a whole day, so it becomes a `VALUE=DATE` event with no time
//! zone at all; a timed block or a reminder is an instant, so it is written in
//! UTC (`...Z`). Writing instants in UTC is what lets the file stay a single
//! `VCALENDAR` with no `VTIMEZONE` component.

use vstd::prelude::*;
use vstd::string::StringSliceAdditionalSpecFns;

use crate::civil::{
    civil_from_days, day_in_range, days_from_civil, is_valid_date, lemma_civil_from_days_valid,
    parse_date_bytes, spec_civil_from_days, spec_days_from_civil, spec_parse_date, CivilDate,
    DAY_LIMIT,
};
use crate::contracts::{RecurrenceCalendar, RecurrenceFrequency, RecurrenceRule, Todo, Weekday};
use crate::text::{
    all_digits, digits_value, is_digit_byte, padded, padded_signed, parse_digits, push_char,
    push_padded, push_padded_signed, push_str, read_digits,
};

verus! {

/// Seconds in a day.
pub const SECONDS_PER_DAY: i64 = 86_400;

/// RFC 5545 3.1: a content line is folded so that no line is longer than 75
/// octets, the line break excluded.
pub const MAX_LINE_OCTETS: usize = 75;

/// A bound every instant a window is built from stays within, either side of
/// the epoch: stored instants are read in the years 0 to 9999.
pub const INSTANT_LIMIT: i64 = 86_400 * 400_000_000_000;

/// An instant that remembers the zone it was written in.
#[derive(Clone, Copy, Debug, PartialEq, Eq, Structural)]
pub struct ZonedInstant {
    /// Seconds since the Unix epoch.
    pub unix_seconds: i64,
    /// Seconds east of UTC, as the value spelled it.
    pub offset_seconds: i64,
}

/// How many leading bytes of `bytes` are ASCII digits.
pub open spec fn leading_digits(bytes: Seq<u8>) -> nat
    decreases bytes.len(),
{
    if bytes.len() > 0 && is_digit_byte(bytes[0]) {
        1 + leading_digits(bytes.drop_first())
    } else {
        0
    }
}

/// The zone designator that closes an instant, in seconds east of UTC: empty
/// or `Z` is UTC, otherwise a sign and `HH:MM` or `HHMM`.
pub open spec fn spec_parse_offset(bytes: Seq<u8>) -> Option<int> {
    if bytes.len() == 0 || bytes == seq![90u8] || bytes == seq![122u8] {
        Some(0)
    } else if bytes[0] != 43 && bytes[0] != 45 {
        None
    } else {
        let digits = bytes.drop_first();
        let parts = if digits.len() == 5 && digits[2] == 58 {
            Some((digits.subrange(0, 2), digits.subrange(3, 5)))
        } else if digits.len() == 4 {
            Some((digits.subrange(0, 2), digits.subrange(2, 4)))
        } else {
            None
        };
        match parts {
            None => None,
            Some((hours, minutes)) => match (parse_digits(hours), parse_digits(minutes)) {
                (Some(h), Some(m)) => if h > 23 || m > 59 {
                    None
                } else if bytes[0] == 43 {
                    Some((h * 3_600 + m * 60) as int)
                } else {
                    Some(-(h * 3_600 + m * 60))
                },
                _ => None,
            },
        }
    }
}

/// What follows the seconds of an instant: an optional fraction, then the
/// zone designator.
pub open spec fn spec_parse_zone_part(rest: Seq<u8>) -> Option<int> {
    if rest.len() > 0 && rest[0] == 46 {
        let fraction = rest.drop_first();
        let digits = leading_digits(fraction);
        if digits == 0 {
            None
        } else {
            spec_parse_offset(fraction.subrange(digits as int, fraction.len() as int))
        }
    } else {
        spec_parse_offset(rest)
    }
}

/// An ISO 8601 instant read into seconds since the Unix epoch and its zone: a
/// date and time to the second, an optional fraction, and `Z`, a `±HH:MM` /
/// `±HHMM` offset, or nothing (read as UTC). A leap second is folded into the
/// minute.
pub open spec fn spec_parse_instant(bytes: Seq<u8>) -> Option<ZonedInstant> {
    if bytes.len() < 19 || (bytes[10] != 84 && bytes[10] != 116) || bytes[13] != 58 || bytes[16]
        != 58 {
        None
    } else {
        match (
            spec_parse_date(bytes.subrange(0, 10)),
            parse_digits(bytes.subrange(11, 13)),
            parse_digits(bytes.subrange(14, 16)),
            parse_digits(bytes.subrange(17, 19)),
        ) {
            (Some(date), Some(hour), Some(minute), Some(second)) => if hour > 23 || minute > 59
                || second > 60 {
                None
            } else {
                match spec_parse_zone_part(bytes.subrange(19, bytes.len() as int)) {
                    None => None,
                    Some(offset) => Some(
                        ZonedInstant {
                            unix_seconds: (spec_days_from_civil(date) * SECONDS_PER_DAY + hour * 3_600
                                + minute * 60 + (if second > 59 {
                                59
                            } else {
                                second
                            }) - offset) as i64,
                            offset_seconds: offset as i64,
                        },
                    ),
                }
            },
            _ => None,
        }
    }
}

/// Reads the zone designator that closes an instant, in seconds east of UTC.
pub fn parse_offset(value: &str) -> (offset: Option<i64>)
    ensures
        offset == match spec_parse_offset(value.spec_bytes()) {
            Some(o) => Some(o as i64),
            None => None::<i64>,
        },
{
    parse_offset_bytes(value.as_bytes())
}

fn parse_offset_bytes(bytes: &[u8]) -> (offset: Option<i64>)
    ensures
        offset == match spec_parse_offset(bytes@) {
            Some(o) => Some(o as i64),
            None => None::<i64>,
        },
        spec_parse_offset(bytes@) matches Some(o) ==> -86_400 < o < 86_400,
{
    let n = bytes.len();
    if n == 0 || (n == 1 && (bytes[0] == 90 || bytes[0] == 122)) {
        proof {
            if n == 1 && bytes[0] == 90 {
                assert(bytes@ =~= seq![90u8]);
            }
            if n == 1 && bytes[0] == 122 {
                assert(bytes@ =~= seq![122u8]);
            }
        }
        return Some(0);
    }
    proof {
        assert(bytes@ != seq![90u8]);
        assert(bytes@ != seq![122u8]);
    }
    let sign: i64 = if bytes[0] == 43 {
        1
    } else if bytes[0] == 45 {
        -1
    } else {
        return None;
    };
    let ghost digits = bytes@.drop_first();
    let (hours, minutes) = if n - 1 == 5 && bytes[3] == 58 {
        proof {
            assert(digits.subrange(0, 2) =~= bytes@.subrange(1, 3));
            assert(digits.subrange(3, 5) =~= bytes@.subrange(4, 6));
        }
        (read_digits(bytes, 1, 3), read_digits(bytes, 4, 6))
    } else if n - 1 == 4 {
        proof {
            assert(digits.subrange(0, 2) =~= bytes@.subrange(1, 3));
            assert(digits.subrange(2, 4) =~= bytes@.subrange(3, 5));
        }
        (read_digits(bytes, 1, 3), read_digits(bytes, 3, 5))
    } else {
        return None;
    };
    proof {
        let parts = if digits.len() == 5 && digits[2] == 58 {
            Some((digits.subrange(0, 2), digits.subrange(3, 5)))
        } else if digits.len() == 4 {
            Some((digits.subrange(0, 2), digits.subrange(2, 4)))
        } else {
            None
        };
        assert(parts is Some);
        let pair = parts->0;
        reveal_with_fuel(crate::text::pow10, 3);
        if parse_digits(pair.0) is Some {
            crate::text::lemma_digits_value_bound(pair.0);
        }
        if parse_digits(pair.1) is Some {
            crate::text::lemma_digits_value_bound(pair.1);
        }
        assert(match parse_digits(pair.0) {
            Some(v) => hours == Some(v as u32),
            None => hours is None,
        });
        assert(match parse_digits(pair.1) {
            Some(v) => minutes == Some(v as u32),
            None => minutes is None,
        });
    }
    match (hours, minutes) {
        (Some(h), Some(m)) => {
            if h > 23 || m > 59 {
                None
            } else if sign > 0 {
                Some(h as i64 * 3_600 + m as i64 * 60)
            } else {
                Some(-(h as i64 * 3_600 + m as i64 * 60))
            }
        },
        _ => None,
    }
}

/// Parses an ISO 8601 instant into seconds since the Unix epoch and its zone.
///
/// Accepts what this application produces and receives: a date and time to the
/// second, an optional fraction, and either `Z` or a `±HH:MM` / `±HHMM` offset.
/// A value with no offset at all is read as UTC. Any other value — including
/// one whose bytes are not ASCII where digits belong — is `None`.
pub fn parse_instant(value: &str) -> (instant: Option<ZonedInstant>)
    ensures
        instant == spec_parse_instant(value.spec_bytes()),
{
    parse_instant_bytes(value.as_bytes())
}

fn count_leading_digits(bytes: &[u8], start: usize) -> (n: usize)
    requires
        start <= bytes@.len(),
    ensures
        n == leading_digits(bytes@.subrange(start as int, bytes@.len() as int)),
        start + n <= bytes@.len(),
{
    let ghost whole = bytes@.subrange(start as int, bytes@.len() as int);
    let mut i = start;
    while i < bytes.len() && crate::text::digit_byte(bytes[i])
        invariant
            start <= i <= bytes@.len(),
            whole == bytes@.subrange(start as int, bytes@.len() as int),
            leading_digits(whole) == (i - start) + leading_digits(
                bytes@.subrange(i as int, bytes@.len() as int),
            ),
        decreases bytes@.len() - i,
    {
        proof {
            let here = bytes@.subrange(i as int, bytes@.len() as int);
            assert(here.drop_first() =~= bytes@.subrange(i + 1, bytes@.len() as int));
        }
        i = i + 1;
    }
    i - start
}

fn parse_instant_bytes(bytes: &[u8]) -> (instant: Option<ZonedInstant>)
    ensures
        instant == spec_parse_instant(bytes@),
{
    let n = bytes.len();
    if n < 19 || (bytes[10] != 84 && bytes[10] != 116) || bytes[13] != 58 || bytes[16] != 58 {
        return None;
    }
    // The date reads only the first ten bytes.
    proof {
        let head = bytes@.subrange(0, 10);
        assert(head.subrange(0, 4) =~= bytes@.subrange(0, 4));
        assert(head.subrange(5, 7) =~= bytes@.subrange(5, 7));
        assert(head.subrange(8, 10) =~= bytes@.subrange(8, 10));
    }
    let date = match parse_date_bytes(bytes) {
        Some(date) => date,
        None => return None,
    };
    let hour = match read_digits(bytes, 11, 13) {
        Some(v) => v,
        None => return None,
    };
    let minute = match read_digits(bytes, 14, 16) {
        Some(v) => v,
        None => return None,
    };
    let second = match read_digits(bytes, 17, 19) {
        Some(v) => v,
        None => return None,
    };
    if hour > 23 || minute > 59 || second > 60 {
        return None;
    }
    let ghost rest = bytes@.subrange(19, n as int);
    let offset = if n > 19 && bytes[19] == 46 {
        let digits = count_leading_digits(bytes, 20);
        proof {
            assert(rest.drop_first() =~= bytes@.subrange(20, n as int));
        }
        if digits == 0 {
            return None;
        }
        proof {
            assert(rest.drop_first().subrange(digits as int, rest.drop_first().len() as int)
                =~= bytes@.subrange(20 + digits, n as int));
        }
        parse_offset_bytes(&bytes[20 + digits..n])
    } else {
        parse_offset_bytes(&bytes[19..n])
    };
    let offset = match offset {
        Some(offset) => offset,
        None => return None,
    };
    proof {
        crate::civil::lemma_parsed_date_readable(bytes@);
        crate::recurrence::lemma_readable_days_public(date);
        reveal_with_fuel(crate::text::pow10, 3);
        crate::text::lemma_digits_value_bound(bytes@.subrange(11, 13));
        crate::text::lemma_digits_value_bound(bytes@.subrange(14, 16));
        crate::text::lemma_digits_value_bound(bytes@.subrange(17, 19));
    }
    let kept_second: i64 = if second > 59 {
        59
    } else {
        second as i64
    };
    Some(
        ZonedInstant {
            unix_seconds: days_from_civil(date) * SECONDS_PER_DAY + hour as i64 * 3_600 + minute as i64
                * 60 + kept_second - offset,
            offset_seconds: offset,
        },
    )
}

/// The instant a stored value names, in seconds since the Unix epoch, or
/// `None` when it cannot be read.
pub fn instant_unix_seconds(value: &str) -> (unix: Option<i64>)
    ensures
        unix == match spec_parse_instant(value.spec_bytes()) {
            Some(instant) => Some(instant.unix_seconds),
            None => None::<i64>,
        },
{
    match parse_instant(value) {
        Some(instant) => Some(instant.unix_seconds),
        None => None,
    }
}


/// A date in the basic format, `YYYYMMDD`.
pub open spec fn date_text(date: CivilDate) -> Seq<char> {
    padded_signed(date.year as int, 4) + padded(date.month as nat, 2) + padded(date.day as nat, 2)
}

/// An instant in UTC in the basic format, `YYYYMMDDTHHMMSSZ`.
pub open spec fn instant_text(unix: int) -> Seq<char> {
    let days = unix / (SECONDS_PER_DAY as int);
    let seconds = unix % (SECONDS_PER_DAY as int);
    date_text(spec_civil_from_days(days)) + seq!['T'] + padded((seconds / 3_600) as nat, 2)
        + padded(((seconds % 3_600) / 60) as nat, 2) + padded((seconds % 60) as nat, 2) + seq!['Z']
}

/// Writes a date in the basic format.
pub fn format_date(date: CivilDate) -> (text: String)
    ensures
        text@ == date_text(date),
{
    let mut text = String::new();
    push_padded_signed(&mut text, date.year, 4);
    push_padded(&mut text, date.month as u64, 2);
    push_padded(&mut text, date.day as u64, 2);
    text
}

/// Writes an instant, given in seconds since the epoch, in UTC.
pub fn format_instant(unix_seconds: i64) -> (text: String)
    ensures
        text@ == instant_text(unix_seconds as int),
{
    format_instant_wide(unix_seconds as i128)
}

/// Writes an instant in UTC, for instants a little past the range of an
/// `i64` too: an end of day carried across a zone offset.
fn format_instant_wide(unix_seconds: i128) -> (text: String)
    requires
        -20_000_000_000_000_000_000 <= unix_seconds <= 20_000_000_000_000_000_000,
    ensures
        text@ == instant_text(unix_seconds as int),
{
    let day: i128 = 86_400;
    let mut days = unix_seconds / day;
    let mut seconds = unix_seconds % day;
    if seconds < 0 {
        days = days - 1;
        seconds = seconds + day;
    }
    assert(days == unix_seconds as int / (SECONDS_PER_DAY as int));
    assert(seconds == unix_seconds as int % (SECONDS_PER_DAY as int));
    assert(-300_000_000_000_000 <= days <= 300_000_000_000_000) by (nonlinear_arith)
        requires
            days == unix_seconds as int / 86_400,
            -20_000_000_000_000_000_000 <= unix_seconds <= 20_000_000_000_000_000_000,
    ;
    proof {
        lemma_civil_from_days_valid(days as int);
    }
    let date = civil_from_days(days as i64);
    let mut text = format_date(date);
    push_char(&mut text, 'T');
    push_padded(&mut text, (seconds / 3_600) as u64, 2);
    push_padded(&mut text, ((seconds % 3_600) / 60) as u64, 2);
    push_padded(&mut text, (seconds % 60) as u64, 2);
    push_char(&mut text, 'Z');
    text
}

/// How a TEXT value writes one character (RFC 5545 3.3.11): backslash,
/// semicolon, comma and newline are escaped, and a carriage return is dropped
/// so a CRLF inside a note becomes one escaped newline.
pub open spec fn escape_char(c: char) -> Seq<char> {
    if c == '\\' {
        seq!['\\', '\\']
    } else if c == ';' {
        seq!['\\', ';']
    } else if c == ',' {
        seq!['\\', ',']
    } else if c == '\n' {
        seq!['\\', 'n']
    } else if c == '\r' {
        seq![]
    } else {
        seq![c]
    }
}

/// A TEXT value, escaped.
pub open spec fn escaped(value: Seq<char>) -> Seq<char>
    decreases value.len(),
{
    if value.len() == 0 {
        seq![]
    } else {
        escaped(value.drop_last()) + escape_char(value.last())
    }
}

/// Escapes a TEXT value. A colon needs no escape inside TEXT.
pub fn escape_text(value: &str) -> (text: String)
    ensures
        text@ == escaped(value@),
{
    let ghost chars = value@;
    let mut text = String::new();
    let mut i: usize = 0;
    let len = vstd::string::StrSliceExecFns::unicode_len(value);
    for c in it: value.chars()
        invariant
            it.seq() == chars,
            i == it.index(),
            chars.len() == len,
            i <= chars.len(),
            text@ == escaped(chars.subrange(0, i as int)),
    {
        proof {
            assert(chars.subrange(0, i + 1).drop_last() =~= chars.subrange(0, i as int));
            assert(chars.subrange(0, i + 1).last() == c);
        }
        if c == '\\' {
            push_str(&mut text, "\\\\");
        } else if c == ';' {
            push_str(&mut text, "\\;");
        } else if c == ',' {
            push_str(&mut text, "\\,");
        } else if c == '\n' {
            push_str(&mut text, "\\n");
        } else if c == '\r' {
        } else {
            push_char(&mut text, c);
        }
        proof {
            reveal_strlit("\\\\");
            reveal_strlit("\\;");
            reveal_strlit("\\,");
            reveal_strlit("\\n");
            assert(text@ =~= escaped(chars.subrange(0, i + 1)));
        }
        i = i + 1;
    }
    proof {
        assert(chars.subrange(0, chars.len() as int) =~= chars);
    }
    text
}

/// How many octets a character takes in UTF-8.
pub open spec fn utf8_width(c: char) -> nat {
    if (c as u32) < 0x80 {
        1
    } else if (c as u32) < 0x800 {
        2
    } else if (c as u32) < 0x10000 {
        3
    } else {
        4
    }
}

fn char_width(c: char) -> (width: usize)
    ensures
        width == utf8_width(c),
{
    let v = c as u32;
    if v < 0x80 {
        1
    } else if v < 0x800 {
        2
    } else if v < 0x10000 {
        3
    } else {
        4
    }
}

/// The rest of a content line, folded, when `used` octets of the current
/// physical line are already taken: a character that would carry the line
/// past 75 octets starts a continuation line, which begins with a space.
pub open spec fn folded(chars: Seq<char>, used: nat) -> Seq<char>
    decreases chars.len(),
{
    if chars.len() == 0 {
        seq!['\r', '\n']
    } else {
        let width = utf8_width(chars[0]);
        if used + width > MAX_LINE_OCTETS {
            seq!['\r', '\n', ' ', chars[0]] + folded(chars.drop_first(), 1 + width)
        } else {
            seq![chars[0]] + folded(chars.drop_first(), used + width)
        }
    }
}

/// One content line as written: folded per RFC 5545 3.1, and ended by CRLF.
#[verifier::opaque]
pub open spec fn fold_line(line: Seq<char>) -> Seq<char> {
    folded(line, 0)
}

/// Whether every physical line of `text`, the runs between CRLFs, is at most
/// 75 octets long, when `used` octets of the first are already taken.
pub open spec fn lines_fit(text: Seq<char>, used: nat) -> bool
    decreases text.len(),
{
    if text.len() == 0 {
        true
    } else if text.len() >= 2 && text[0] == '\r' && text[1] == '\n' {
        lines_fit(text.subrange(2, text.len() as int), 0)
    } else {
        used + utf8_width(text[0]) <= MAX_LINE_OCTETS && lines_fit(
            text.drop_first(),
            used + utf8_width(text[0]),
        )
    }
}

/// `text` with every fold, a CRLF followed by a space, taken out.
pub open spec fn unfolded(text: Seq<char>) -> Seq<char>
    decreases text.len(),
{
    if text.len() == 0 {
        text
    } else if text.len() >= 3 && text[0] == '\r' && text[1] == '\n' && text[2] == ' ' {
        unfolded(text.subrange(3, text.len() as int))
    } else {
        seq![text[0]] + unfolded(text.drop_first())
    }
}

proof fn lemma_folded_fits_and_unfolds(chars: Seq<char>, used: nat)
    requires
        used <= MAX_LINE_OCTETS,
        !chars.contains('\r'),
    ensures
        lines_fit(folded(chars, used), used),
        unfolded(folded(chars, used)) == chars + seq!['\r', '\n'],
    decreases chars.len(),
{
    let text = folded(chars, used);
    if chars.len() == 0 {
        let tail = seq!['\n'];
        assert(text == seq!['\r', '\n']);
        assert(text[0] == '\r' && text[1] == '\n');
        assert(text.subrange(2, 2) =~= Seq::<char>::empty());
        assert(lines_fit(text.subrange(2, 2), 0));
        assert(text.drop_first() =~= tail);
        assert(tail.drop_first() =~= Seq::<char>::empty());
        assert(unfolded(tail.drop_first()) =~= Seq::<char>::empty());
        assert(unfolded(tail) =~= seq!['\n']);
        assert(unfolded(text) =~= seq!['\r', '\n']);
        assert(chars + seq!['\r', '\n'] =~= seq!['\r', '\n']);
    } else {
        let c = chars[0];
        let rest = chars.drop_first();
        let width = utf8_width(c);
        assert(c != '\r') by {
            assert(chars[0] == c);
        }
        assert(!rest.contains('\r')) by {
            if rest.contains('\r') {
                let k = choose|k: int| 0 <= k < rest.len() && rest[k] == '\r';
                assert(chars[k + 1] == '\r');
            }
        }
        if used + width > MAX_LINE_OCTETS {
            let after = folded(rest, 1 + width);
            lemma_folded_fits_and_unfolds(rest, 1 + width);
            assert(text == seq!['\r', '\n', ' ', c] + after);
            let line = text.subrange(2, text.len() as int);
            assert(line =~= seq![' ', c] + after);
            assert(line.drop_first() =~= seq![c] + after);
            assert((seq![c] + after).drop_first() =~= after);
            assert(lines_fit(seq![c] + after, 1));
            assert(lines_fit(line, 0));
            assert(text.subrange(3, text.len() as int) =~= seq![c] + after);
            assert(unfolded(seq![c] + after) =~= seq![c] + unfolded(after));
            assert(chars + seq!['\r', '\n'] =~= seq![c] + (rest + seq!['\r', '\n']));
        } else {
            let after = folded(rest, used + width);
            lemma_folded_fits_and_unfolds(rest, used + width);
            assert(text == seq![c] + after);
            assert(text.drop_first() =~= after);
            assert(chars + seq!['\r', '\n'] =~= seq![c] + (rest + seq!['\r', '\n']));
        }
    }
}

/// A content line as written never has a physical line over 75 octets, and
/// taking the folds out gives the line back whole, ended by CRLF: no
/// character was cut in half. This holds of every line without a carriage
/// return, which escaping takes out of every value written.
pub proof fn lemma_fold_line_fits_and_unfolds(line: Seq<char>)
    requires
        !line.contains('\r'),
    ensures
        lines_fit(fold_line(line), 0),
        unfolded(fold_line(line)) == line + seq!['\r', '\n'],
{
    reveal(fold_line);
    lemma_folded_fits_and_unfolds(line, 0);
}

/// Appends one content line, folded per RFC 5545 3.1.
///
/// The limit counts octets, not characters, and folding happens on character
/// boundaries so a multi-byte character is never cut in half.
pub fn write_line(out: &mut String, line: &str)
    ensures
        final(out)@ == old(out)@ + fold_line(line@),
{
    reveal(fold_line);
    let ghost chars = line@;
    let ghost start = out@;
    let ghost mut done: Seq<char> = seq![];
    let len = vstd::string::StrSliceExecFns::unicode_len(line);
    let mut used: usize = 0;
    let mut i: usize = 0;
    proof {
        assert(chars.subrange(0, chars.len() as int) =~= chars);
        assert(done + folded(chars, 0) =~= folded(chars, 0));
    }
    for c in it: line.chars()
        invariant
            it.seq() == chars,
            i == it.index(),
            chars.len() == len,
            i <= chars.len(),
            used <= MAX_LINE_OCTETS,
            out@ == start + done,
            fold_line(chars) == done + folded(chars.subrange(i as int, chars.len() as int), used as nat),
    {
        let ghost rest = chars.subrange(i as int, chars.len() as int);
        proof {
            assert(rest[0] == c);
            assert(rest.drop_first() =~= chars.subrange(i + 1, chars.len() as int));
        }
        let width = char_width(c);
        if used + width > MAX_LINE_OCTETS {
            push_str(out, "\r\n");
            push_char(out, ' ');
            push_char(out, c);
            proof {
                reveal_strlit("\r\n");
                done = done + seq!['\r', '\n', ' ', c];
                assert(out@ =~= start + done);
                assert(fold_line(chars) =~= done + folded(chars.subrange(i + 1, chars.len() as int), (1 + width) as nat));
            }
            used = 1 + width;
        } else {
            push_char(out, c);
            proof {
                done = done + seq![c];
                assert(out@ =~= start + done);
                assert(fold_line(chars) =~= done + folded(chars.subrange(i + 1, chars.len() as int), (used + width) as nat));
            }
            used = used + width;
        }
        i = i + 1;
    }
    push_str(out, "\r\n");
    proof {
        reveal_strlit("\r\n");
        assert(chars.subrange(i as int, chars.len() as int) =~= Seq::<char>::empty());
        assert(out@ =~= start + fold_line(chars));
    }
}


/// When an event starts or ends, in the two value types RFC 5545 offers.
#[derive(Clone, Copy, Debug, PartialEq, Eq, Structural)]
pub enum EventTime {
    /// A whole day, written as `VALUE=DATE`, with no time zone by design.
    AllDay(CivilDate),
    /// An instant, in seconds since the Unix epoch, always written as UTC.
    Instant(i64),
}

/// The span an event occupies. `end` is absent when the task says nothing
/// about how long it takes.
#[derive(Clone, Copy, Debug, PartialEq, Eq, Structural)]
pub struct EventWindow {
    pub start: EventTime,
    pub end: Option<EventTime>,
    /// The zone the start was written in, in seconds east of UTC; 0 for a whole
    /// day and for a value that named no zone.
    pub zone_offset_seconds: i64,
}

/// An optional stored instant, read.
pub open spec fn stored_instant(value: Option<String>) -> Option<ZonedInstant> {
    match value {
        Some(text) => spec_parse_instant(vstd::utf8::encode_utf8(text@)),
        None => None,
    }
}

/// An optional stored date, read.
pub open spec fn stored_date(value: Option<String>) -> Option<CivilDate> {
    match value {
        Some(text) => spec_parse_date(vstd::utf8::encode_utf8(text@)),
        None => None,
    }
}

/// Where a task lands on the calendar, or that it cannot land at all: an
/// explicit timed block beats the due date, and the task's first reminder is
/// used only when it has no date of its own. An end at or before the start is
/// dropped.
#[verifier::opaque]
pub open spec fn spec_event_window(todo: Todo) -> Option<EventWindow> {
    match stored_instant(todo.starts_at) {
        Some(start) => Some(
            EventWindow {
                start: EventTime::Instant(start.unix_seconds),
                end: match stored_instant(todo.ends_at) {
                    Some(end) => if end.unix_seconds > start.unix_seconds {
                        Some(EventTime::Instant(end.unix_seconds))
                    } else {
                        None
                    },
                    None => None,
                },
                zone_offset_seconds: start.offset_seconds,
            },
        ),
        None => match stored_date(todo.due_date) {
            Some(date) => Some(
                EventWindow {
                    start: EventTime::AllDay(date),
                    end: Some(
                        EventTime::AllDay(spec_civil_from_days(spec_days_from_civil(date) + 1)),
                    ),
                    zone_offset_seconds: 0,
                },
            ),
            None => if todo.reminders@.len() > 0 {
                match spec_parse_instant(vstd::utf8::encode_utf8(todo.reminders@[0].at@)) {
                    Some(instant) => Some(
                        EventWindow {
                            start: EventTime::Instant(instant.unix_seconds),
                            end: None,
                            zone_offset_seconds: instant.offset_seconds,
                        },
                    ),
                    None => None,
                }
            } else {
                None
            },
        },
    }
}

/// What a parsed instant can be: within a day of the days of years 0 to 9999.
pub open spec fn instant_in_range(instant: ZonedInstant) -> bool {
    &&& -719_528 * SECONDS_PER_DAY - SECONDS_PER_DAY <= instant.unix_seconds <= 2_932_897
        * SECONDS_PER_DAY + SECONDS_PER_DAY
    &&& -SECONDS_PER_DAY < instant.offset_seconds < SECONDS_PER_DAY
}

/// What a window built from stored values can hold.
pub open spec fn window_in_range(window: EventWindow) -> bool {
    &&& match window.start {
        EventTime::Instant(u) => -INSTANT_LIMIT / 2 <= u <= INSTANT_LIMIT / 2,
        EventTime::AllDay(d) => is_valid_date(d) && 0 <= d.year <= 10_000,
    }
    &&& match window.end {
        Some(EventTime::Instant(u)) => -INSTANT_LIMIT / 2 <= u <= INSTANT_LIMIT / 2,
        Some(EventTime::AllDay(d)) => is_valid_date(d) && crate::civil::in_range(d),
        None => true,
    }
    &&& -SECONDS_PER_DAY < window.zone_offset_seconds < SECONDS_PER_DAY
}

proof fn lemma_parsed_instant_in_range(bytes: Seq<u8>)
    requires
        spec_parse_instant(bytes) is Some,
    ensures
        instant_in_range(spec_parse_instant(bytes)->0),
{
    let date = spec_parse_date(bytes.subrange(0, 10))->0;
    crate::civil::lemma_parsed_date_readable(bytes.subrange(0, 10));
    crate::recurrence::lemma_readable_days_public(date);
    reveal_with_fuel(crate::text::pow10, 3);
    crate::text::lemma_digits_value_bound(bytes.subrange(11, 13));
    crate::text::lemma_digits_value_bound(bytes.subrange(14, 16));
    crate::text::lemma_digits_value_bound(bytes.subrange(17, 19));
    let rest = bytes.subrange(19, bytes.len() as int);
    let zone = if rest.len() > 0 && rest[0] == 46 {
        let fraction = rest.drop_first();
        fraction.subrange(leading_digits(fraction) as int, fraction.len() as int)
    } else {
        rest
    };
    lemma_offset_bounds(zone);
}

proof fn lemma_offset_bounds(bytes: Seq<u8>)
    ensures
        spec_parse_offset(bytes) matches Some(o) ==> -SECONDS_PER_DAY < o < SECONDS_PER_DAY,
{
    reveal_with_fuel(crate::text::pow10, 3);
    if spec_parse_offset(bytes) is Some && !(bytes.len() == 0 || bytes == seq![90u8] || bytes
        == seq![122u8]) {
        let digits = bytes.drop_first();
        if digits.len() == 5 && digits[2] == 58 {
            crate::text::lemma_digits_value_bound(digits.subrange(0, 2));
            crate::text::lemma_digits_value_bound(digits.subrange(3, 5));
        } else {
            crate::text::lemma_digits_value_bound(digits.subrange(0, 2));
            crate::text::lemma_digits_value_bound(digits.subrange(2, 4));
        }
    }
}

/// An optional stored instant, read.
fn read_stored_instant(value: &Option<String>) -> (instant: Option<ZonedInstant>)
    ensures
        instant == stored_instant(*value),
        instant matches Some(i) ==> instant_in_range(i),
{
    match value {
        Some(text) => {
            let parsed = parse_instant(text.as_str());
            proof {
                if parsed is Some {
                    lemma_parsed_instant_in_range(vstd::utf8::encode_utf8(text@));
                }
            }
            parsed
        },
        None => None,
    }
}

/// Decides where a task lands on the calendar, or that it cannot land at all.
pub fn event_window(todo: &Todo) -> (window: Option<EventWindow>)
    ensures
        window == spec_event_window(*todo),
        window matches Some(w) ==> window_in_range(w),
{
    reveal(spec_event_window);
    if let Some(start) = read_stored_instant(&todo.starts_at) {
        let end = match read_stored_instant(&todo.ends_at) {
            Some(end) => if end.unix_seconds > start.unix_seconds {
                Some(EventTime::Instant(end.unix_seconds))
            } else {
                None
            },
            None => None,
        };
        return Some(
            EventWindow {
                start: EventTime::Instant(start.unix_seconds),
                end,
                zone_offset_seconds: start.offset_seconds,
            },
        );
    }
    let due = match &todo.due_date {
        Some(text) => crate::civil::parse_date(text.as_str()),
        None => None,
    };
    if let Some(date) = due {
        proof {
            crate::civil::lemma_parsed_date_readable(vstd::utf8::encode_utf8(todo.due_date->0@));
            crate::recurrence::lemma_readable_days_public(date);
            lemma_civil_from_days_valid(spec_days_from_civil(date) + 1);
        }
        // For `VALUE=DATE`, `DTEND` is non-inclusive, so a one-day event ends on
        // the following day.
        return Some(
            EventWindow {
                start: EventTime::AllDay(date),
                end: Some(EventTime::AllDay(civil_from_days(days_from_civil(date) + 1))),
                zone_offset_seconds: 0,
            },
        );
    }
    if todo.reminders.len() > 0 {
        let parsed = parse_instant(todo.reminders[0].at.as_str());
        if let Some(instant) = parsed {
            proof {
                lemma_parsed_instant_in_range(vstd::utf8::encode_utf8(todo.reminders@[0].at@));
            }
            return Some(
                EventWindow {
                    start: EventTime::Instant(instant.unix_seconds),
                    end: None,
                    zone_offset_seconds: instant.offset_seconds,
                },
            );
        }
    }
    None
}

/// A start or end property: `NAME;VALUE=DATE:YYYYMMDD` or `NAME:…Z`.
pub open spec fn time_property_text(name: Seq<char>, time: EventTime) -> Seq<char> {
    match time {
        EventTime::AllDay(date) => name + ";VALUE=DATE:"@ + date_text(date),
        EventTime::Instant(instant) => name + seq![':'] + instant_text(instant as int),
    }
}

fn time_property(name: &str, time: EventTime) -> (text: String)
    ensures
        text@ == time_property_text(name@, time),
{
    let mut text = String::new();
    push_str(&mut text, name);
    match time {
        EventTime::AllDay(date) => {
            push_str(&mut text, ";VALUE=DATE:");
            let day = format_date(date);
            push_str(&mut text, day.as_str());
        },
        EventTime::Instant(instant) => {
            push_char(&mut text, ':');
            let moment = format_instant(instant);
            push_str(&mut text, moment.as_str());
        },
    }
    proof {
        assert(text@ =~= time_property_text(name@, time));
    }
    text
}


/// The two-letter `BYDAY` code of a weekday.
pub open spec fn byday_text(day: Weekday) -> Seq<char> {
    match day {
        Weekday::Monday => "MO"@,
        Weekday::Tuesday => "TU"@,
        Weekday::Wednesday => "WE"@,
        Weekday::Thursday => "TH"@,
        Weekday::Friday => "FR"@,
        Weekday::Saturday => "SA"@,
        Weekday::Sunday => "SU"@,
    }
}

fn byday_code(day: Weekday) -> (code: &'static str)
    ensures
        code@ == byday_text(day),
{
    match day {
        Weekday::Monday => "MO",
        Weekday::Tuesday => "TU",
        Weekday::Wednesday => "WE",
        Weekday::Thursday => "TH",
        Weekday::Friday => "FR",
        Weekday::Saturday => "SA",
        Weekday::Sunday => "SU",
    }
}

/// The weekdays' codes, joined with commas, in the order they were stored.
pub open spec fn byday_list(days: Seq<Weekday>) -> Seq<char>
    decreases days.len(),
{
    if days.len() == 0 {
        seq![]
    } else if days.len() == 1 {
        byday_text(days[0])
    } else {
        byday_list(days.drop_last()) + seq![','] + byday_text(days.last())
    }
}

/// `UNTIL` in the value type of `DTSTART`: a date for a whole-day event, and
/// for a timed one the last second of the stored (local, inclusive) end date in
/// the event's own zone, carried back to UTC.
pub open spec fn until_text(date: CivilDate, window: EventWindow) -> Seq<char> {
    match window.start {
        EventTime::AllDay(_) => date_text(date),
        EventTime::Instant(_) => instant_text(
            spec_days_from_civil(date) * SECONDS_PER_DAY + SECONDS_PER_DAY - 1
                - window.zone_offset_seconds,
        ),
    }
}

/// The `FREQ` of a rule the export can say.
pub open spec fn frequency_text(rule: RecurrenceRule) -> Seq<char> {
    match rule.frequency {
        RecurrenceFrequency::Daily => "DAILY"@,
        RecurrenceFrequency::Weekly => "WEEKLY"@,
        RecurrenceFrequency::Monthly => "MONTHLY"@,
        RecurrenceFrequency::Yearly => "YEARLY"@,
        RecurrenceFrequency::Workday => "WEEKLY"@,
    }
}

/// `;INTERVAL=N`, left out at 1, which is the default.
pub open spec fn interval_text(rule: RecurrenceRule) -> Seq<char> {
    if rule.interval > 1 {
        ";INTERVAL="@ + crate::text::decimal(rule.interval as nat)
    } else {
        seq![]
    }
}

/// The `BY…` part: a weekly rule's named days (none means the start's own
/// weekday, which is what leaving `BYDAY` out says), a monthly rule's day or
/// `-1` for the last one, and Monday to Friday for every working day.
pub open spec fn by_text(rule: RecurrenceRule) -> Seq<char> {
    match rule.frequency {
        RecurrenceFrequency::Weekly => if rule.weekdays@.len() > 0 {
            ";BYDAY="@ + byday_list(rule.weekdays@)
        } else {
            seq![]
        },
        RecurrenceFrequency::Monthly => match rule.month_day {
            Some(day) => ";BYMONTHDAY="@ + crate::text::decimal(day as nat),
            None => if rule.on_last_day {
                ";BYMONTHDAY=-1"@
            } else {
                seq![]
            },
        },
        RecurrenceFrequency::Workday => ";BYDAY=MO,TU,WE,TH,FR"@,
        _ => seq![],
    }
}

/// The end of the series: `UNTIL` when the end date can be read, else `COUNT`
/// when there is one. The two must not both appear.
pub open spec fn end_text(rule: RecurrenceRule, window: EventWindow) -> Seq<char> {
    match stored_date(rule.until) {
        Some(date) => ";UNTIL="@ + until_text(date, window),
        None => match rule.count {
            Some(count) => ";COUNT="@ + crate::text::decimal(count as nat),
            None => seq![],
        },
    }
}

/// The `RRULE` a repeat rule maps onto, or `None` when RFC 5545 cannot say it:
/// a lunar rule, or "every N working days" with N > 1.
pub open spec fn rrule_text(rule: RecurrenceRule, window: EventWindow) -> Option<Seq<char>> {
    if rule.calendar == RecurrenceCalendar::Lunar {
        None
    } else if rule.frequency == RecurrenceFrequency::Workday && rule.interval != 1 {
        None
    } else {
        Some(
            "RRULE:FREQ="@ + frequency_text(rule) + interval_text(rule) + by_text(rule) + end_text(
                rule,
                window,
            ),
        )
    }
}

fn push_frequency(text: &mut String, rule: &RecurrenceRule)
    ensures
        final(text)@ == old(text)@ + frequency_text(*rule),
{
    let frequency = match rule.frequency {
        RecurrenceFrequency::Daily => "DAILY",
        RecurrenceFrequency::Weekly => "WEEKLY",
        RecurrenceFrequency::Monthly => "MONTHLY",
        RecurrenceFrequency::Yearly => "YEARLY",
        RecurrenceFrequency::Workday => "WEEKLY",
    };
    push_str(text, frequency);
}

fn push_interval(text: &mut String, rule: &RecurrenceRule)
    ensures
        final(text)@ == old(text)@ + interval_text(*rule),
{
    if rule.interval > 1 {
        push_str(text, ";INTERVAL=");
        crate::text::push_decimal(text, rule.interval as u64);
    } else {
        assert(old(text)@ + interval_text(*rule) =~= old(text)@);
    }
}

fn push_byday_list(text: &mut String, days: &Vec<Weekday>)
    ensures
        final(text)@ == old(text)@ + byday_list(days@),
{
    let ghost before = text@;
    let mut i: usize = 0;
    proof {
        assert(days@.subrange(0, 0) =~= Seq::<Weekday>::empty());
        assert(text@ =~= before + byday_list(days@.subrange(0, 0)));
    }
    while i < days.len()
        invariant
            0 <= i <= days@.len(),
            text@ == before + byday_list(days@.subrange(0, i as int)),
        decreases days@.len() - i,
    {
        if i > 0 {
            push_char(text, ',');
        }
        push_str(text, byday_code(days[i]));
        proof {
            let upto = days@.subrange(0, i + 1);
            assert(upto.drop_last() =~= days@.subrange(0, i as int));
            assert(text@ =~= before + byday_list(upto));
        }
        i = i + 1;
    }
    proof {
        assert(days@.subrange(0, days@.len() as int) =~= days@);
    }
}

fn push_by(text: &mut String, rule: &RecurrenceRule)
    ensures
        final(text)@ == old(text)@ + by_text(*rule),
{
    let ghost before = text@;
    match rule.frequency {
        RecurrenceFrequency::Weekly => {
            if rule.weekdays.len() > 0 {
                push_str(text, ";BYDAY=");
                push_byday_list(text, &rule.weekdays);
            }
        },
        RecurrenceFrequency::Monthly => {
            if let Some(day) = rule.month_day {
                push_str(text, ";BYMONTHDAY=");
                crate::text::push_decimal(text, day as u64);
            } else if rule.on_last_day {
                push_str(text, ";BYMONTHDAY=-1");
            }
        },
        RecurrenceFrequency::Workday => {
            push_str(text, ";BYDAY=MO,TU,WE,TH,FR");
        },
        _ => {},
    }
    proof {
        assert(text@ =~= before + by_text(*rule));
    }
}

fn push_end(text: &mut String, rule: &RecurrenceRule, window: &EventWindow)
    ensures
        final(text)@ == old(text)@ + end_text(*rule, *window),
{
    let ghost before = text@;
    let until = match &rule.until {
        Some(value) => crate::civil::parse_date(value.as_str()),
        None => None,
    };
    if let Some(date) = until {
        proof {
            crate::civil::lemma_parsed_date_readable(vstd::utf8::encode_utf8(rule.until->0@));
            crate::recurrence::lemma_readable_days_public(date);
        }
        push_str(text, ";UNTIL=");
        let value = match window.start {
            EventTime::AllDay(_) => format_date(date),
            EventTime::Instant(_) => format_instant_wide(
                (days_from_civil(date) as i128 + 1) * 86_400 - 1 - window.zone_offset_seconds as i128,
            ),
        };
        push_str(text, value.as_str());
    } else if let Some(count) = rule.count {
        push_str(text, ";COUNT=");
        crate::text::push_decimal(text, count as u64);
    }
    proof {
        assert(text@ =~= before + end_text(*rule, *window));
    }
}

/// Maps a repeat rule onto an `RRULE`, or reports that RFC 5545 cannot say it.
pub fn recurrence_property(rule: &RecurrenceRule, window: &EventWindow) -> (property: Option<String>)
    ensures
        match rrule_text(*rule, *window) {
            Some(text) => property matches Some(p) && p@ == text,
            None => property is None,
        },
{
    if rule.calendar == RecurrenceCalendar::Lunar {
        return None;
    }
    if rule.frequency == RecurrenceFrequency::Workday && rule.interval != 1 {
        return None;
    }
    let mut text = String::new();
    push_str(&mut text, "RRULE:FREQ=");
    push_frequency(&mut text, rule);
    push_interval(&mut text, rule);
    push_by(&mut text, rule);
    push_end(&mut text, rule, window);
    proof {
        assert(text@ =~= rrule_text(*rule, *window)->0);
    }
    Some(text)
}


/// A finished calendar file, and how many tasks made it in.
#[derive(Clone, Debug)]
pub struct Calendar {
    pub content: String,
    /// The number of events written: a task with no date at all cannot be
    /// placed on a calendar and is skipped.
    pub event_count: usize,
    /// How many of those events carry a repeat rule RFC 5545 cannot say, and
    /// therefore appear on the calendar once instead of repeating.
    pub unrepeatable_recurrences: usize,
}

/// The lines that open the calendar.
pub open spec fn calendar_head() -> Seq<char> {
    fold_line("BEGIN:VCALENDAR"@) + fold_line("VERSION:2.0"@) + fold_line(
        "PRODID:-//Just Do//Todo//EN"@,
    ) + fold_line("CALSCALE:GREGORIAN"@)
}

/// Whether a note is worth a `DESCRIPTION`: present, and not blank.
pub open spec fn has_description(todo: Todo) -> bool {
    todo.notes matches Some(notes) && crate::text::trimmed(notes@).len() > 0
}

/// The opening lines of an event: its id, stamp, title and times.
pub open spec fn event_head_text(todo: Todo, window: EventWindow, stamp: Seq<char>) -> Seq<char> {
    fold_line("BEGIN:VEVENT"@) + fold_line("UID:"@ + escaped(todo.id@) + "@just-do.local"@)
        + fold_line("DTSTAMP:"@ + stamp) + fold_line("SUMMARY:"@ + escaped(todo.title@))
        + fold_line(time_property_text("DTSTART"@, window.start)) + match window.end {
        Some(end) => fold_line(time_property_text("DTEND"@, end)),
        None => seq![],
    }
}

/// The closing lines of an event: its repeat rule where the export can say
/// it, its note where there is one, and the end of the event.
pub open spec fn event_tail_text(todo: Todo, window: EventWindow) -> Seq<char> {
    let rule_line = match todo.recurrence {
        Some(rule) => match rrule_text(rule, window) {
            Some(text) => fold_line(text),
            None => seq![],
        },
        None => seq![],
    };
    let note_line = if has_description(todo) {
        fold_line("DESCRIPTION:"@ + escaped(todo.notes->0@))
    } else {
        seq![]
    };
    rule_line + note_line + fold_line("END:VEVENT"@)
}

/// The lines of one task's event, or nothing when it has no date.
pub open spec fn event_text(todo: Todo, stamp: Seq<char>) -> Seq<char> {
    match spec_event_window(todo) {
        None => seq![],
        Some(window) => event_head_text(todo, window, stamp) + event_tail_text(todo, window),
    }
}

/// Whether a task became an event whose repeat rule could not be written.
pub open spec fn lost_its_repeat(todo: Todo) -> bool {
    &&& spec_event_window(todo) is Some
    &&& todo.recurrence is Some
    &&& rrule_text(todo.recurrence->0, spec_event_window(todo)->0) is None
}

/// The events of all the tasks, in order.
pub open spec fn events_text(todos: Seq<Todo>, stamp: Seq<char>) -> Seq<char>
    decreases todos.len(),
{
    if todos.len() == 0 {
        seq![]
    } else {
        events_text(todos.drop_last(), stamp) + event_text(todos.last(), stamp)
    }
}

/// How many of the tasks became events.
pub open spec fn event_count(todos: Seq<Todo>) -> nat
    decreases todos.len(),
{
    if todos.len() == 0 {
        0
    } else {
        event_count(todos.drop_last()) + if spec_event_window(todos.last()) is Some {
            1nat
        } else {
            0nat
        }
    }
}

/// How many of the tasks became events that lost their repeat rule.
pub open spec fn lost_repeat_count(todos: Seq<Todo>) -> nat
    decreases todos.len(),
{
    if todos.len() == 0 {
        0
    } else {
        lost_repeat_count(todos.drop_last()) + if lost_its_repeat(todos.last()) {
            1nat
        } else {
            0nat
        }
    }
}

/// The whole document: the opening lines, every dated task's event, and the
/// closing line.
pub open spec fn calendar_text(todos: Seq<Todo>, stamp: Seq<char>) -> Seq<char> {
    calendar_head() + events_text(todos, stamp) + fold_line("END:VCALENDAR"@)
}

proof fn lemma_counts_bounded(todos: Seq<Todo>)
    ensures
        event_count(todos) <= todos.len(),
        lost_repeat_count(todos) <= event_count(todos),
    decreases todos.len(),
{
    if todos.len() > 0 {
        lemma_counts_bounded(todos.drop_last());
    }
}

fn write_event_head(content: &mut String, todo: &Todo, window: &EventWindow, stamp: &String)
    ensures
        final(content)@ == old(content)@ + event_head_text(*todo, *window, stamp@),
{
    let ghost before = content@;
    write_line(content, "BEGIN:VEVENT");
    let mut uid = String::new();
    push_str(&mut uid, "UID:");
    let id = escape_text(todo.id.as_str());
    push_str(&mut uid, id.as_str());
    push_str(&mut uid, "@just-do.local");
    write_line(content, uid.as_str());
    let mut dtstamp = String::new();
    push_str(&mut dtstamp, "DTSTAMP:");
    push_str(&mut dtstamp, stamp.as_str());
    write_line(content, dtstamp.as_str());
    let mut summary = String::new();
    push_str(&mut summary, "SUMMARY:");
    let title = escape_text(todo.title.as_str());
    push_str(&mut summary, title.as_str());
    write_line(content, summary.as_str());
    let start = time_property("DTSTART", window.start);
    write_line(content, start.as_str());
    let ghost after_start = content@;
    if let Some(end) = window.end {
        let end = time_property("DTEND", end);
        write_line(content, end.as_str());
    }
    proof {
        assert(content@ =~= after_start + match window.end {
            Some(end) => fold_line(time_property_text("DTEND"@, end)),
            None => seq![],
        });
        assert(content@ =~= before + event_head_text(*todo, *window, stamp@));
    }
}

fn write_event_tail(content: &mut String, todo: &Todo, window: &EventWindow) -> (lost: bool)
    ensures
        final(content)@ == old(content)@ + event_tail_text(*todo, *window),
        lost == (todo.recurrence is Some && rrule_text(todo.recurrence->0, *window) is None),
{
    let ghost before = content@;
    let mut lost = false;
    if let Some(rule) = &todo.recurrence {
        match recurrence_property(rule, window) {
            Some(property) => write_line(content, property.as_str()),
            None => {
                lost = true;
            },
        }
    }
    let ghost after_rule = content@;
    if let Some(notes) = &todo.notes {
        if crate::text::trimmed_len(notes.as_str()) > 0 {
            let mut description = String::new();
            push_str(&mut description, "DESCRIPTION:");
            let text = escape_text(notes.as_str());
            push_str(&mut description, text.as_str());
            write_line(content, description.as_str());
        }
    }
    let ghost after_notes = content@;
    write_line(content, "END:VEVENT");
    proof {
        assert(after_rule =~= before + match todo.recurrence {
            Some(rule) => match rrule_text(rule, *window) {
                Some(text) => fold_line(text),
                None => seq![],
            },
            None => seq![],
        });
        assert(after_notes =~= after_rule + if has_description(*todo) {
            fold_line("DESCRIPTION:"@ + escaped(todo.notes->0@))
        } else {
            seq![]
        });
        assert(content@ =~= before + event_tail_text(*todo, *window));
    }
    lost
}

/// Appends one task's event, if it has a date; answers whether it did and
/// whether its repeat rule was lost.
fn write_event(content: &mut String, todo: &Todo, stamp: &String) -> (written: (bool, bool))
    ensures
        final(content)@ == old(content)@ + event_text(*todo, stamp@),
        written.0 == spec_event_window(*todo) is Some,
        written.1 == lost_its_repeat(*todo),
{
    let ghost before = content@;
    let window = match event_window(todo) {
        Some(window) => window,
        None => {
            assert(content@ =~= before + event_text(*todo, stamp@));
            return (false, false);
        },
    };
    write_event_head(content, todo, &window, stamp);
    let lost = write_event_tail(content, todo, &window);
    proof {
        assert(content@ =~= before + event_text(*todo, stamp@));
    }
    (true, lost)
}

/// Writes the tasks that carry a date as one `VCALENDAR` document.
///
/// `generated_at_unix` is the export moment in seconds since the Unix epoch;
/// it becomes the `DTSTAMP` of every event.
pub fn build_calendar(todos: &[Todo], generated_at_unix: i64) -> (calendar: Calendar)
    ensures
        calendar.content@ == calendar_text(todos@, instant_text(generated_at_unix as int)),
        calendar.event_count == event_count(todos@),
        calendar.unrepeatable_recurrences == lost_repeat_count(todos@),
{
    let stamp = format_instant(generated_at_unix);
    let mut content = String::new();
    write_line(&mut content, "BEGIN:VCALENDAR");
    write_line(&mut content, "VERSION:2.0");
    write_line(&mut content, "PRODID:-//Just Do//Todo//EN");
    write_line(&mut content, "CALSCALE:GREGORIAN");
    let ghost head = content@;
    assert(head =~= calendar_head());
    let mut event_total: usize = 0;
    let mut unrepeatable: usize = 0;
    let mut i: usize = 0;
    while i < todos.len()
        invariant
            0 <= i <= todos@.len(),
            head == calendar_head(),
            content@ == head + events_text(todos@.subrange(0, i as int), stamp@),
            event_total == event_count(todos@.subrange(0, i as int)),
            unrepeatable == lost_repeat_count(todos@.subrange(0, i as int)),
        decreases todos@.len() - i,
    {
        proof {
            let upto = todos@.subrange(0, i + 1);
            assert(upto.drop_last() =~= todos@.subrange(0, i as int));
            lemma_counts_bounded(todos@.subrange(0, i as int));
        }
        let (written, lost) = write_event(&mut content, &todos[i], &stamp);
        if written {
            event_total = event_total + 1;
        }
        if lost {
            unrepeatable = unrepeatable + 1;
        }
        proof {
            let upto = todos@.subrange(0, i + 1);
            assert(content@ =~= head + events_text(upto, stamp@));
        }
        i = i + 1;
    }
    write_line(&mut content, "END:VCALENDAR");
    proof {
        assert(todos@.subrange(0, todos@.len() as int) =~= todos@);
        assert(content@ =~= calendar_text(todos@, stamp@));
    }
    Calendar { content, event_count: event_total, unrepeatable_recurrences: unrepeatable }
}

/// The name of an exported file, after the moment it was written.
pub open spec fn export_file_name_text(generated_at_unix: int, attempt: nat) -> Seq<char> {
    if attempt == 0 {
        "todo-"@ + instant_text(generated_at_unix) + ".ics"@
    } else {
        "todo-"@ + instant_text(generated_at_unix) + seq!['-'] + crate::text::decimal(attempt + 1)
            + ".ics"@
    }
}

/// Names the exported file after the moment it was written, in the basic
/// format (`20260723T101500Z`), which holds no colon a file system could
/// refuse.
///
/// `attempt` is how many names the caller has already found taken; every
/// attempt after the first adds a counter (`todo-…-2.ics`), so a second export
/// inside the same second never overwrites the first.
pub fn export_file_name(generated_at_unix: i64, attempt: u32) -> (name: String)
    requires
        attempt < u32::MAX,
    ensures
        name@ == export_file_name_text(generated_at_unix as int, attempt as nat),
{
    let stamp = format_instant(generated_at_unix);
    let mut name = String::new();
    push_str(&mut name, "todo-");
    push_str(&mut name, stamp.as_str());
    if attempt > 0 {
        push_char(&mut name, '-');
        crate::text::push_decimal(&mut name, attempt as u64 + 1);
    }
    push_str(&mut name, ".ics");
    proof {
        assert(name@ =~= export_file_name_text(generated_at_unix as int, attempt as nat));
    }
    name
}

} // verus!
