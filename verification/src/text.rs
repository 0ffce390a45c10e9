//! Reading and writing the small pieces of text the rules work on: ASCII
//! digits inside a stored value, whitespace as `str::trim` understands it, and
//! numbers written back out with zero padding.

use vstd::prelude::*;
use vstd::string::StrSliceExecFns;
use vstd::utf8::{encode_scalar, encode_utf8};

verus! {

/// Whether a byte is one of `0`–`9`.
pub open spec fn is_digit_byte(b: u8) -> bool {
    48 <= b <= 57
}

/// Whether every byte of a run is an ASCII digit.
pub open spec fn all_digits(bytes: Seq<u8>) -> bool {
    forall|i: int| 0 <= i < bytes.len() ==> is_digit_byte(#[trigger] bytes[i])
}

/// The number a run of ASCII digits spells, most significant first.
pub open spec fn digits_value(bytes: Seq<u8>) -> nat
    decreases bytes.len(),
{
    if bytes.len() == 0 {
        0
    } else {
        digits_value(bytes.drop_last()) * 10 + (bytes.last() - 48) as nat
    }
}

/// The number a run of ASCII digits spells, or `None` when the run is empty or
/// holds anything but digits.
pub open spec fn parse_digits(bytes: Seq<u8>) -> Option<nat> {
    if bytes.len() > 0 && all_digits(bytes) {
        Some(digits_value(bytes))
    } else {
        None
    }
}

/// The Unicode `White_Space` property, which is what `str::trim` strips.
pub open spec fn is_white_space(c: char) -> bool {
    let v = c as u32;
    ||| 0x09 <= v <= 0x0d
    ||| v == 0x20
    ||| v == 0x85
    ||| v == 0xa0
    ||| v == 0x1680
    ||| 0x2000 <= v <= 0x200a
    ||| v == 0x2028
    ||| v == 0x2029
    ||| v == 0x202f
    ||| v == 0x205f
    ||| v == 0x3000
}

/// Whether a byte is an ASCII digit.
pub fn digit_byte(b: u8) -> (r: bool)
    ensures
        r == is_digit_byte(b),
{
    48 <= b && b <= 57
}

/// Whether a character is white space in the sense of `char::is_whitespace`.
pub fn white_space(c: char) -> (r: bool)
    ensures
        r == is_white_space(c),
{
    let v = c as u32;
    (0x09 <= v && v <= 0x0d) || v == 0x20 || v == 0x85 || v == 0xa0 || v == 0x1680 || (0x2000
        <= v && v <= 0x200a) || v == 0x2028 || v == 0x2029 || v == 0x202f || v == 0x205f || v
        == 0x3000
}

pub proof fn lemma_digits_value_bound(bytes: Seq<u8>)
    requires
        all_digits(bytes),
    ensures
        digits_value(bytes) < pow10(bytes.len()),
    decreases bytes.len(),
{
    if bytes.len() > 0 {
        let rest = bytes.drop_last();
        assert(all_digits(rest)) by {
            assert forall|i: int| 0 <= i < rest.len() implies is_digit_byte(#[trigger] rest[i]) by {
                assert(rest[i] == bytes[i]);
            }
        }
        lemma_digits_value_bound(rest);
        assert(is_digit_byte(bytes[bytes.len() - 1]));
    }
}

/// Ten to the `n`.
pub open spec fn pow10(n: nat) -> nat
    decreases n,
{
    if n == 0 {
        1
    } else {
        10 * pow10((n - 1) as nat)
    }
}

/// Reads the ASCII digits `bytes[start..end]` as a number, or `None` when the
/// run is empty or holds anything else. At most nine digits, so the answer
/// always fits.
pub fn read_digits(bytes: &[u8], start: usize, end: usize) -> (r: Option<u32>)
    requires
        start <= end <= bytes@.len(),
        end - start <= 9,
    ensures
        match parse_digits(bytes@.subrange(start as int, end as int)) {
            Some(v) => r == Some(v as u32),
            None => r is None,
        },
{
    if start == end {
        return None;
    }
    let ghost run = bytes@.subrange(start as int, end as int);
    let mut value: u32 = 0;
    let mut i = start;
    while i < end
        invariant
            start <= i <= end <= bytes@.len(),
            end - start <= 9,
            run == bytes@.subrange(start as int, end as int),
            all_digits(run.subrange(0, i - start)),
            value == digits_value(run.subrange(0, i - start)),
            value < pow10((i - start) as nat),
        decreases end - i,
    {
        if !digit_byte(bytes[i]) {
            assert(!all_digits(run)) by {
                assert(run[i - start] == bytes@[i as int]);
            }
            return None;
        }
        let ghost before = run.subrange(0, i - start);
        let ghost after = run.subrange(0, i - start + 1);
        assert(after.drop_last() =~= before);
        assert(after.last() == bytes@[i as int]);
        assert(pow10((i - start + 1) as nat) == 10 * pow10((i - start) as nat));
        assert(pow10((i - start) as nat) <= 100_000_000) by {
            lemma_pow10_monotone((i - start) as nat, 8);
            reveal_with_fuel(pow10, 9);
        }
        value = value * 10 + (bytes[i] - 48) as u32;
        i = i + 1;
        assert(all_digits(after)) by {
            assert forall|k: int| 0 <= k < after.len() implies is_digit_byte(#[trigger] after[k]) by {
                if k < before.len() {
                    assert(after[k] == before[k]);
                }
            }
        }
    }
    assert(run.subrange(0, end - start) =~= run);
    Some(value)
}

pub proof fn lemma_pow10_monotone(a: nat, b: nat)
    requires
        a <= b,
    ensures
        pow10(a) <= pow10(b),
    decreases b,
{
    if a < b {
        lemma_pow10_monotone(a, (b - 1) as nat);
    }
}

/// Appends one character: `String::push`, which std documents as appending
/// the given char to the end of the string, so the text afterwards is the
/// text before with `c` at its end.
#[verifier::external_body]
pub(crate) fn push_char(s: &mut String, c: char)
    ensures
        final(s)@ == old(s)@.push(c),
{
    s.push(c);
}

} // verus!

verus! {

/// The character for a decimal digit.
pub open spec fn digit_char(d: nat) -> char {
    ((48 + d) as u8) as char
}

/// A number written in decimal, most significant digit first, with no leading
/// zeros.
pub open spec fn decimal(n: nat) -> Seq<char>
    decreases n,
{
    if n < 10 {
        seq![digit_char(n)]
    } else {
        decimal(n / 10).push(digit_char(n % 10))
    }
}

/// `s` with zeros in front until it is `width` characters long.
pub open spec fn zero_pad(s: Seq<char>, width: nat) -> Seq<char> {
    if s.len() >= width {
        s
    } else {
        Seq::new((width - s.len()) as nat, |i: int| '0') + s
    }
}

/// What `format!("{:0width$}", n)` writes for an unsigned number.
pub open spec fn padded(n: nat, width: nat) -> Seq<char> {
    zero_pad(decimal(n), width)
}

/// What `format!("{:0width$}", n)` writes for a signed number: the sign counts
/// towards the width and the zeros go after it.
pub open spec fn padded_signed(n: int, width: nat) -> Seq<char> {
    if n < 0 {
        seq!['-'] + zero_pad(decimal((-n) as nat), if width >= 1 { (width - 1) as nat } else { 0 })
    } else {
        zero_pad(decimal(n as nat), width)
    }
}

fn digit_of(d: u64) -> (c: char)
    requires
        d < 10,
    ensures
        c == digit_char(d as nat),
{
    ((48 + d) as u8) as char
}

/// Appends `n` in decimal.
pub fn push_decimal(s: &mut String, n: u64)
    ensures
        final(s)@ == old(s)@ + decimal(n as nat),
    decreases n,
{
    if n >= 10 {
        push_decimal(s, n / 10);
    }
    push_char(s, digit_of(n % 10));
    assert(n < 10 ==> decimal(n as nat) =~= seq![digit_char(n as nat)]);
}

/// Appends `n` in decimal, for numbers past the range of a `u64`.
pub fn push_decimal_wide(s: &mut String, n: u128)
    ensures
        final(s)@ == old(s)@ + decimal(n as nat),
    decreases n,
{
    if n >= 10 {
        push_decimal_wide(s, n / 10);
    }
    let digit = (n % 10) as u64;
    push_char(s, digit_of(digit));
    assert(n < 10 ==> decimal(n as nat) =~= seq![digit_char(n as nat)]);
}

/// Appends `n` in decimal with its sign, for numbers past the range of an
/// `i64`: what `format!("{n}")` writes.
pub fn push_signed_wide(s: &mut String, n: i128)
    ensures
        final(s)@ == old(s)@ + padded_signed(n as int, 1),
{
    let ghost start = s@;
    if n < 0 {
        push_char(s, '-');
        let magnitude: u128 = if n == i128::MIN {
            170_141_183_460_469_231_731_687_303_715_884_105_728u128
        } else {
            (-n) as u128
        };
        push_decimal_wide(s, magnitude);
        assert(s@ =~= start + padded_signed(n as int, 1));
    } else {
        push_decimal_wide(s, n as u128);
        assert(decimal(n as nat).len() >= 1);
        assert(s@ =~= start + padded_signed(n as int, 1));
    }
}

/// How many digits `n` has in decimal.
pub fn decimal_len(n: u64) -> (len: usize)
    ensures
        len == decimal(n as nat).len(),
        1 <= len <= 20,
    decreases n,
{
    if n >= 10 {
        let rest = decimal_len(n / 10);
        proof {
            lemma_decimal_len_bound(n as nat);
        }
        rest + 1
    } else {
        1
    }
}

proof fn lemma_decimal_len_bound(n: nat)
    requires
        n <= u64::MAX,
    ensures
        1 <= decimal(n).len() <= 20,
    decreases n,
{
    if n >= 10 {
        lemma_decimal_len_bound(n / 10);
        assert(decimal(n / 10).len() <= 19) by {
            assert(pow10(19) == 10_000_000_000_000_000_000) by {
                reveal_with_fuel(pow10, 20);
            }
            lemma_decimal_len_small(n / 10, 19);
        }
    }
}

proof fn lemma_decimal_len_small(n: nat, k: nat)
    requires
        n < pow10(k),
        k >= 1,
    ensures
        decimal(n).len() <= k,
    decreases n,
{
    if n >= 10 {
        assert(pow10(1) == 10) by {
            reveal_with_fuel(pow10, 2);
        }
        assert(k >= 2);
        assert(pow10(k) == 10 * pow10((k - 1) as nat));
        assert(n / 10 < pow10((k - 1) as nat));
        lemma_decimal_len_small(n / 10, (k - 1) as nat);
    }
}

/// Appends `n` zero-padded to `width`, as `{:0width$}` does.
pub fn push_padded(s: &mut String, n: u64, width: usize)
    requires
        width <= 64,
    ensures
        final(s)@ == old(s)@ + padded(n as nat, width as nat),
{
    let len = decimal_len(n);
    let ghost start = s@;
    let mut i = len;
    while i < width
        invariant
            len <= i,
            len == decimal(n as nat).len(),
            i <= width || (i == len && len >= width),
            s@ == start + Seq::new((i - len) as nat, |k: int| '0'),
        decreases width - i,
    {
        push_char(s, '0');
        assert(s@ =~= start + Seq::new((i + 1 - len) as nat, |k: int| '0'));
        i = i + 1;
    }
    push_decimal(s, n);
    if len >= width {
        assert(s@ =~= start + padded(n as nat, width as nat));
    } else {
        assert(s@ =~= start + padded(n as nat, width as nat));
    }
}

/// Appends `n` zero-padded to `width`, the sign counting towards the width.
pub fn push_padded_signed(s: &mut String, n: i64, width: usize)
    requires
        1 <= width <= 64,
    ensures
        final(s)@ == old(s)@ + padded_signed(n as int, width as nat),
{
    let ghost start = s@;
    if n < 0 {
        push_char(s, '-');
        let magnitude: u64 = if n == i64::MIN {
            9_223_372_036_854_775_808u64
        } else {
            (-n) as u64
        };
        push_padded(s, magnitude, width - 1);
        assert(s@ =~= start + padded_signed(n as int, width as nat));
    } else {
        push_padded(s, n as u64, width);
    }
}

/// Appends a piece of text.
pub fn push_str(s: &mut String, piece: &str)
    ensures
        final(s)@ == old(s)@ + piece@,
{
    s.append(piece);
}


/// The views of a list of ids.
pub open spec fn ids_view(ids: Seq<String>) -> Seq<Seq<char>> {
    ids.map_values(|id: String| id@)
}

/// Whether a list of ids holds one with the given text.
pub open spec fn has_id(ids: Seq<String>, id: Seq<char>) -> bool {
    ids_view(ids).contains(id)
}

/// Whether `id` is in `ids`.
pub fn contains_id(ids: &[String], id: &String) -> (found: bool)
    ensures
        found == has_id(ids@, id@),
{
    let mut i: usize = 0;
    while i < ids.len()
        invariant
            0 <= i <= ids.len(),
            forall|k: int| 0 <= k < i ==> ids@[k]@ != id@,
        decreases ids.len() - i,
    {
        if ids[i] == *id {
            assert(ids_view(ids@)[i as int] == id@);
            return true;
        }
        i = i + 1;
    }
    assert(!ids_view(ids@).contains(id@)) by {
        if ids_view(ids@).contains(id@) {
            let k = choose|k: int| 0 <= k < ids_view(ids@).len() && ids_view(ids@)[k] == id@;
            assert(ids@[k]@ == id@);
        }
    }
    false
}


/// What `str::trim` leaves of a string: the white space at both ends cut off.
pub open spec fn trimmed(s: Seq<char>) -> Seq<char>
    decreases s.len(),
{
    if s.len() == 0 {
        s
    } else if is_white_space(s[0]) {
        trimmed(s.drop_first())
    } else if is_white_space(s.last()) {
        trimmed(s.drop_last())
    } else {
        s
    }
}

proof fn lemma_all_white_space_trims_to_nothing(s: Seq<char>)
    requires
        forall|i: int| 0 <= i < s.len() ==> is_white_space(#[trigger] s[i]),
    ensures
        trimmed(s).len() == 0,
    decreases s.len(),
{
    if s.len() > 0 {
        assert(is_white_space(s[0]));
        lemma_all_white_space_trims_to_nothing(s.drop_first());
    }
}

proof fn lemma_trimmed_span(s: Seq<char>, first: int, last: int)
    requires
        0 <= first <= last < s.len(),
        !is_white_space(s[first]),
        !is_white_space(s[last]),
        forall|i: int| 0 <= i < first ==> is_white_space(#[trigger] s[i]),
        forall|i: int| last < i < s.len() ==> is_white_space(#[trigger] s[i]),
    ensures
        trimmed(s) == s.subrange(first, last + 1),
    decreases s.len(),
{
    if first > 0 {
        assert(is_white_space(s[0]));
        let rest = s.drop_first();
        assert(rest.subrange(first - 1, last) =~= s.subrange(first, last + 1));
        lemma_trimmed_span(rest, first - 1, last - 1);
    } else if last < s.len() - 1 {
        assert(is_white_space(s[s.len() - 1]));
        let rest = s.drop_last();
        assert(rest.subrange(first, last + 1) =~= s.subrange(first, last + 1));
        lemma_trimmed_span(rest, first, last);
    } else {
        assert(s.subrange(0, s.len() as int) =~= s);
    }
}

/// How many characters `str::trim` leaves of `value`.
pub fn trimmed_len(value: &str) -> (n: usize)
    ensures
        n == trimmed(value@).len(),
{
    let ghost s = value@;
    let len = value.unicode_len();
    let mut first: Option<usize> = None;
    let mut last: usize = 0;
    let mut i: usize = 0;
    for c in it: value.chars()
        invariant
            it.seq() == s,
            i == it.index(),
            i <= s.len(),
            s.len() == len,
            match first {
                None => forall|j: int| 0 <= j < i ==> is_white_space(#[trigger] s[j]),
                Some(f) => {
                    &&& f <= last < i
                    &&& !is_white_space(s[f as int])
                    &&& !is_white_space(s[last as int])
                    &&& forall|j: int| 0 <= j < f ==> is_white_space(#[trigger] s[j])
                    &&& forall|j: int| last < j < i ==> is_white_space(#[trigger] s[j])
                },
            },
    {
        assert(c == s[i as int]);
        if !white_space(c) {
            if first.is_none() {
                first = Some(i);
            }
            last = i;
        }
        i = i + 1;
    }
    match first {
        None => {
            proof {
                lemma_all_white_space_trims_to_nothing(s);
            }
            0
        },
        Some(f) => {
            proof {
                lemma_trimmed_span(s, f as int, last as int);
            }
            last - f + 1
        },
    }
}

/// Encoding two runs of characters one after the other is encoding each.
pub proof fn lemma_encode_append(a: Seq<char>, b: Seq<char>)
    ensures
        encode_utf8(a + b) == encode_utf8(a) + encode_utf8(b),
    decreases a.len(),
{
    if a.len() == 0 {
        assert(a + b =~= b);
        assert(encode_utf8(a) =~= Seq::<u8>::empty());
        assert(encode_utf8(a) + encode_utf8(b) =~= encode_utf8(b));
    } else {
        assert((a + b).drop_first() =~= a.drop_first() + b);
        assert((a + b)[0] == a[0]);
        lemma_encode_append(a.drop_first(), b);
        assert(encode_scalar(a[0] as u32) + (encode_utf8(a.drop_first()) + encode_utf8(b))
            =~= (encode_scalar(a[0] as u32) + encode_utf8(a.drop_first())) + encode_utf8(b));
    }
}

/// A character below 128 is encoded as the one byte of its value.
pub proof fn lemma_ascii_char_encodes(c: char)
    requires
        (c as u32) < 128,
    ensures
        encode_scalar(c as u32) == seq![(c as u32) as u8],
{
    let v = c as u32;
    assert(v & 0x7F == v) by (bit_vector)
        requires
            v < 128,
    ;
}

/// A run of characters below 128 is encoded byte for byte.
pub proof fn lemma_ascii_encodes(chars: Seq<char>)
    requires
        forall|i: int| 0 <= i < chars.len() ==> (#[trigger] chars[i] as u32) < 128,
    ensures
        encode_utf8(chars).len() == chars.len(),
        forall|i: int| 0 <= i < chars.len() ==> #[trigger] encode_utf8(chars)[i] == (chars[i] as u32) as u8,
    decreases chars.len(),
{
    if chars.len() > 0 {
        let rest = chars.drop_first();
        assert forall|i: int| 0 <= i < rest.len() implies (#[trigger] rest[i] as u32) < 128 by {
            assert(rest[i] == chars[i + 1]);
        }
        lemma_ascii_encodes(rest);
        lemma_ascii_char_encodes(chars[0]);
        assert forall|i: int| 0 <= i < chars.len() implies #[trigger] encode_utf8(chars)[i] == (chars[i] as u32) as u8 by {
            if i > 0 {
                assert(rest[i - 1] == chars[i]);
            }
        }
    }
}

/// A number written in decimal reads back as that number.
pub proof fn lemma_decimal_reads_back(n: nat)
    ensures
        encode_utf8(decimal(n)).len() > 0,
        all_digits(encode_utf8(decimal(n))),
        digits_value(encode_utf8(decimal(n))) == n,
        encode_utf8(decimal(n))[0] != 45 && encode_utf8(decimal(n))[0] != 43,
    decreases n,
{
    if n < 10 {
        let c = digit_char(n);
        assert((c as u32) == 48 + n);
        lemma_ascii_encodes(decimal(n));
        let bytes = encode_utf8(decimal(n));
        assert(bytes =~= seq![(48 + n) as u8]);
        assert(bytes.drop_last() =~= Seq::<u8>::empty());
        assert(digits_value(bytes.drop_last()) == 0);
        assert(bytes.last() == (48 + n) as u8);
        assert(digits_value(bytes) == digits_value(bytes.drop_last()) * 10 + (bytes.last() - 48) as nat);
    } else {
        let c = digit_char(n % 10);
        assert((c as u32) == 48 + n % 10);
        lemma_decimal_reads_back(n / 10);
        let before = encode_utf8(decimal(n / 10));
        lemma_encode_append(decimal(n / 10), seq![c]);
        assert(decimal(n) == decimal(n / 10) + seq![c]);
        lemma_ascii_encodes(seq![c]);
        let after = encode_utf8(decimal(n));
        assert(encode_utf8(seq![c]) =~= seq![(48 + n % 10) as u8]);
        assert(after =~= before + seq![(48 + n % 10) as u8]);
        assert(after.drop_last() =~= before);
        assert(after[0] == before[0]);
        assert(after.last() == (48 + n % 10) as u8);
        assert(digits_value(after) == digits_value(before) * 10 + (after.last() - 48) as nat);
        assert(digits_value(after) == (n / 10) * 10 + n % 10);
        assert forall|k: int| 0 <= k < after.len() implies is_digit_byte(#[trigger] after[k]) by {
            if k < before.len() {
                assert(after[k] == before[k]);
            }
        }
    }
}

/// Every character of a number written in decimal is an ASCII digit.
pub proof fn lemma_decimal_digit_chars(n: nat)
    ensures
        forall|i: int| 0 <= i < decimal(n).len() ==> 48 <= (#[trigger] decimal(n)[i] as u32) <= 57,
    decreases n,
{
    if n >= 10 {
        lemma_decimal_digit_chars(n / 10);
        assert(decimal(n) == decimal(n / 10).push(digit_char(n % 10)));
    }
}

/// How many characters a small number takes in decimal.
pub proof fn lemma_decimal_len(n: nat)
    ensures
        n < 10 ==> decimal(n).len() == 1,
        n < 100 ==> decimal(n).len() <= 2,
        n < 1000 ==> decimal(n).len() <= 3,
        n < 10000 ==> decimal(n).len() <= 4,
    decreases n,
{
    if n >= 10 {
        lemma_decimal_len(n / 10);
    }
}

/// Zeros in front of a run of digits leave the number it spells unchanged.
pub proof fn lemma_leading_zeros(zeros: Seq<u8>, digits: Seq<u8>)
    requires
        forall|i: int| 0 <= i < zeros.len() ==> #[trigger] zeros[i] == 48,
    ensures
        digits_value(zeros + digits) == digits_value(digits),
    decreases digits.len(), zeros.len(),
{
    if digits.len() == 0 {
        assert(zeros + digits =~= zeros);
        if zeros.len() > 0 {
            assert(zeros.drop_last() + digits =~= zeros.drop_last());
            lemma_leading_zeros(zeros.drop_last(), digits);
            assert(zeros.last() == 48);
        }
    } else {
        assert((zeros + digits).drop_last() =~= zeros + digits.drop_last());
        assert((zeros + digits).last() == digits.last());
        lemma_leading_zeros(zeros, digits.drop_last());
    }
}

/// A number zero-padded to a width it fits in is written in exactly that many
/// digits and reads back as the number.
pub proof fn lemma_padded_reads_back(n: nat, width: nat)
    requires
        decimal(n).len() <= width,
    ensures
        encode_utf8(padded(n, width)).len() == width,
        all_digits(encode_utf8(padded(n, width))),
        digits_value(encode_utf8(padded(n, width))) == n,
{
    let digits = decimal(n);
    lemma_decimal_reads_back(n);
    lemma_decimal_digit_chars(n);
    lemma_ascii_encodes(digits);
    if digits.len() < width {
        let zeros = Seq::new((width - digits.len()) as nat, |i: int| '0');
        assert(padded(n, width) == zeros + digits);
        lemma_encode_append(zeros, digits);
        lemma_ascii_encodes(zeros);
        let zero_bytes = encode_utf8(zeros);
        let digit_bytes = encode_utf8(digits);
        assert forall|i: int| 0 <= i < zero_bytes.len() implies #[trigger] zero_bytes[i] == 48 by {
            assert(zeros[i] == '0');
        }
        lemma_leading_zeros(zero_bytes, digit_bytes);
        let bytes = zero_bytes + digit_bytes;
        assert forall|k: int| 0 <= k < bytes.len() implies is_digit_byte(#[trigger] bytes[k]) by {
            if k < zero_bytes.len() {
                assert(bytes[k] == zero_bytes[k]);
            } else {
                assert(bytes[k] == digit_bytes[k - zero_bytes.len()]);
            }
        }
    }
}

/// Whether `a` comes no later than `b` in the order of their characters'
/// code points, a text before every longer text it begins. For UTF-8 text this
/// is the order of the bytes too.
pub open spec fn text_leq(a: Seq<char>, b: Seq<char>) -> bool
    decreases a.len(),
{
    if a.len() == 0 {
        true
    } else if b.len() == 0 {
        false
    } else if a[0] != b[0] {
        a[0] < b[0]
    } else {
        text_leq(a.drop_first(), b.drop_first())
    }
}

/// [`text_leq`] as a relation.
pub open spec fn text_order() -> spec_fn(Seq<char>, Seq<char>) -> bool {
    |a: Seq<char>, b: Seq<char>| text_leq(a, b)
}

proof fn lemma_text_leq_facts(a: Seq<char>, b: Seq<char>, c: Seq<char>)
    ensures
        text_leq(a, a),
        text_leq(a, b) || text_leq(b, a),
        text_leq(a, b) && text_leq(b, a) ==> a == b,
        text_leq(a, b) && text_leq(b, c) ==> text_leq(a, c),
    decreases a.len(),
{
    if a.len() > 0 && b.len() > 0 && c.len() > 0 {
        lemma_text_leq_facts(a.drop_first(), b.drop_first(), c.drop_first());
    } else if a.len() > 0 && b.len() > 0 {
        lemma_text_leq_facts(a.drop_first(), b.drop_first(), a.drop_first());
    } else if a.len() > 0 {
        lemma_text_leq_facts(a.drop_first(), a.drop_first(), a.drop_first());
    }
    if a.len() > 0 && b.len() > 0 && text_leq(a, b) && text_leq(b, a) {
        assert(a[0] == b[0]);
        assert(a.drop_first() == b.drop_first());
        assert(a =~= seq![a[0]] + a.drop_first());
        assert(b =~= seq![b[0]] + b.drop_first());
    }
    if a.len() == 0 && b.len() == 0 {
        assert(a =~= b);
    }
}

/// The order of texts is a total order.
pub proof fn lemma_text_order_is_total()
    ensures
        vstd::relations::total_ordering(text_order()),
{
    assert forall|a: Seq<char>| #[trigger] text_order()(a, a) by {
        lemma_text_leq_facts(a, a, a);
    }
    assert forall|a: Seq<char>, b: Seq<char>| #[trigger] text_order()(a, b) && #[trigger] text_order()(b, a) implies a == b by {
        lemma_text_leq_facts(a, b, a);
    }
    assert forall|a: Seq<char>, b: Seq<char>, c: Seq<char>| #[trigger] text_order()(a, b) && #[trigger] text_order()(b, c) implies text_order()(a, c) by {
        lemma_text_leq_facts(a, b, c);
    }
    assert forall|a: Seq<char>, b: Seq<char>| #[trigger] text_order()(a, b) || #[trigger] text_order()(b, a) by {
        lemma_text_leq_facts(a, b, a);
    }
}

/// Whether `a` comes no later than `b` in the order of texts.
pub fn text_no_later(a: &str, b: &str) -> (leq: bool)
    ensures
        leq == text_leq(a@, b@),
{
    let a_len = a.unicode_len();
    let b_len = b.unicode_len();
    let mut i: usize = 0;
    proof {
        assert(a@.subrange(0, a_len as int) =~= a@);
        assert(b@.subrange(0, b_len as int) =~= b@);
    }
    while i < a_len && i < b_len
        invariant
            a_len == a@.len(),
            b_len == b@.len(),
            i <= a_len,
            i <= b_len,
            text_leq(a@, b@) == text_leq(a@.subrange(i as int, a_len as int), b@.subrange(i as int, b_len as int)),
        decreases a_len - i,
    {
        let x = a.get_char(i);
        let y = b.get_char(i);
        let ghost rest_a = a@.subrange(i as int, a_len as int);
        let ghost rest_b = b@.subrange(i as int, b_len as int);
        proof {
            assert(rest_a[0] == x && rest_b[0] == y);
            assert(rest_a.drop_first() =~= a@.subrange(i + 1, a_len as int));
            assert(rest_b.drop_first() =~= b@.subrange(i + 1, b_len as int));
        }
        if x != y {
            return x < y;
        }
        i = i + 1;
    }
    i == a_len
}

/// `items` in the order of texts, a stable insertion of each in turn: the
/// same texts, as many times each, each no later than the next.
pub fn sort_texts(items: &[String]) -> (sorted: Vec<String>)
    ensures
        ids_view(sorted@).to_multiset() == ids_view(items@).to_multiset(),
        vstd::relations::sorted_by(ids_view(sorted@), text_order()),
{
    broadcast use vstd::seq_lib::group_to_multiset_ensures;
    proof {
        lemma_text_order_is_total();
    }
    let mut sorted: Vec<String> = Vec::new();
    let mut i: usize = 0;
    while i < items.len()
        invariant
            i <= items@.len(),
            ids_view(sorted@).to_multiset() == ids_view(items@.take(i as int)).to_multiset(),
            vstd::relations::sorted_by(ids_view(sorted@), text_order()),
            vstd::relations::total_ordering(text_order()),
        decreases items.len() - i,
    {
        let item = items[i].clone();
        let mut j: usize = 0;
        while j < sorted.len() && text_no_later(sorted[j].as_str(), item.as_str())
            invariant
                j <= sorted@.len(),
                forall|k: int| 0 <= k < j ==> text_leq(#[trigger] sorted@[k]@, item@),
            decreases sorted.len() - j,
        {
            j = j + 1;
        }
        let ghost before = ids_view(sorted@);
        proof {
            assert forall|k: int| j <= k < before.len() implies text_leq(item@, #[trigger] before[k]) by {
                if j < sorted@.len() {
                    assert(!text_leq(before[j as int], item@));
                    assert(text_order()(before[j as int], before[k]) || j == k);
                    assert(text_order()(item@, before[j as int]) || text_order()(before[j as int], item@));
                }
            }
        }
        sorted.insert(j, item);
        proof {
            let after = ids_view(sorted@);
            assert(after =~= before.insert(j as int, items@[i as int]@));
            assert(items@.take(i + 1) =~= items@.take(i as int).push(items@[i as int]));
            assert(ids_view(items@.take(i + 1)) =~= ids_view(items@.take(i as int)).push(items@[i as int]@));
            vstd::seq_lib::to_multiset_insert(before, j as int, items@[i as int]@);
            vstd::seq_lib::to_multiset_build(ids_view(items@.take(i as int)), items@[i as int]@);
            assert forall|x: int, y: int| 0 <= x < y < after.len() implies #[trigger] text_order()(after[x], after[y]) by {
                if y < j {
                    assert(after[x] == before[x] && after[y] == before[y]);
                } else if y == j {
                    assert(after[x] == before[x]);
                } else if x == j {
                    assert(after[y] == before[y - 1]);
                } else if x < j {
                    assert(after[x] == before[x] && after[y] == before[y - 1]);
                    assert(text_order()(before[x], items@[i as int]@));
                    assert(text_order()(items@[i as int]@, before[y - 1]));
                } else {
                    assert(after[x] == before[x - 1] && after[y] == before[y - 1]);
                }
            }
        }
        i = i + 1;
    }
    proof {
        assert(items@.take(items@.len() as int) =~= items@);
    }
    sorted
}

} // verus!
