//! Byte strings: paths, decimal numbers and the small pieces of text that go
//! into control files.

use vstd::prelude::*;
use vstd::string::StringSliceAdditionalSpecFns;

verus! {

/// The path separator, `/`.
pub const SEPARATOR: u8 = 47;

/// The byte of the digit zero, `0`.
pub const ZERO: u8 = 48;

/// The byte of the plus sign, `+`.
pub const PLUS: u8 = 43;

/// The views of a sequence of byte strings.
pub open spec fn byte_views(items: Seq<Vec<u8>>) -> Seq<Seq<u8>> {
    items.map_values(|item: Vec<u8>| item@)
}

/// The views of a longer sequence are the views of the shorter one and the
/// view of what was added.
pub proof fn lemma_byte_views_push(items: Seq<Vec<u8>>, item: Vec<u8>)
    ensures
        byte_views(items.push(item)) == byte_views(items).push(item@),
{
    assert(byte_views(items.push(item)) =~= byte_views(items).push(item@));
}

/// The view of an optional byte string.
pub open spec fn option_view(item: Option<Vec<u8>>) -> Option<Seq<u8>> {
    match item {
        Some(bytes) => Some(bytes@),
        None => None,
    }
}

/// Whether `path` starts at the root.
pub open spec fn is_absolute(path: Seq<u8>) -> bool {
    path.len() > 0 && path[0] == SEPARATOR
}

/// `name` adjoined to `base`: an absolute `name` stands for itself, any
/// other is appended, after a separator unless `base` is empty or already
/// ends in one.
pub open spec fn join_spec(base: Seq<u8>, name: Seq<u8>) -> Seq<u8> {
    if is_absolute(name) {
        name
    } else if base.len() == 0 || base.last() == SEPARATOR {
        base + name
    } else {
        base.push(SEPARATOR) + name
    }
}

/// How many separators `path` begins with.
pub open spec fn leading_separators(path: Seq<u8>) -> nat
    decreases path.len(),
{
    if is_absolute(path) {
        1 + leading_separators(path.skip(1))
    } else {
        0
    }
}

/// `path` without the separators it begins with: the way from the root to
/// where it points.
pub open spec fn relative_part(path: Seq<u8>) -> Seq<u8> {
    path.skip(leading_separators(path) as int)
}

/// Whether `byte` is a decimal digit.
pub open spec fn is_digit(byte: u8) -> bool {
    48 <= byte <= 57
}

/// Whether every byte of `text` is a decimal digit.
pub open spec fn all_digits(text: Seq<u8>) -> bool {
    forall|i: int| 0 <= i < text.len() ==> is_digit(#[trigger] text[i])
}

/// The number that the digits of `text` spell, most significant first.
pub open spec fn digits_value(text: Seq<u8>) -> nat
    decreases text.len(),
{
    if text.len() == 0 {
        0
    } else {
        digits_value(text.drop_last()) * 10 + (text.last() - ZERO) as nat
    }
}

/// The decimal digits of `n`, most significant first, with no leading zero.
pub open spec fn decimal(n: nat) -> Seq<u8>
    decreases n,
{
    if n < 10 {
        seq![(ZERO + n) as u8]
    } else {
        decimal(n / 10).push((ZERO + n % 10) as u8)
    }
}

/// `bytes` read as characters, one for each byte.
pub open spec fn as_chars(bytes: Seq<u8>) -> Seq<char> {
    bytes.map_values(|byte: u8| byte as char)
}

/// The decimal digits of `n`, after a minus sign where `n` is below zero.
pub open spec fn signed_decimal(n: int) -> Seq<u8> {
    if n < 0 {
        seq![45u8] + decimal((-n) as nat)
    } else {
        decimal(n as nat)
    }
}

/// `text` without one leading plus sign, if it has one.
pub open spec fn unsigned_part(text: Seq<u8>) -> Seq<u8> {
    if text.len() > 0 && text[0] == PLUS {
        text.skip(1)
    } else {
        text
    }
}

/// The number that `text` holds: decimal digits, at least one, after an
/// optional plus sign, with a value that fits in 64 bits.
pub open spec fn parse_u64_spec(text: Seq<u8>) -> Option<u64> {
    let digits = unsigned_part(text);
    if digits.len() > 0 && all_digits(digits) && digits_value(digits) <= u64::MAX {
        Some(digits_value(digits) as u64)
    } else {
        None
    }
}

/// Whether `byte` is blank: a space, a tab, a line feed, a vertical tab, a
/// form feed or a carriage return.
pub open spec fn is_blank(byte: u8) -> bool {
    byte == 32 || (9 <= byte <= 13)
}

/// How many blank bytes `text` begins with.
pub open spec fn leading_blanks(text: Seq<u8>) -> nat
    decreases text.len(),
{
    if text.len() > 0 && is_blank(text[0]) {
        1 + leading_blanks(text.skip(1))
    } else {
        0
    }
}

/// How many blank bytes `text` ends with.
pub open spec fn trailing_blanks(text: Seq<u8>) -> nat
    decreases text.len(),
{
    if text.len() > 0 && is_blank(text.last()) {
        1 + trailing_blanks(text.drop_last())
    } else {
        0
    }
}

/// `text` without the blank bytes at either end.
pub open spec fn trim_spec(text: Seq<u8>) -> Seq<u8> {
    let rest = text.skip(leading_blanks(text) as int);
    rest.take(rest.len() - trailing_blanks(rest))
}

pub proof fn lemma_leading_separators_bound(path: Seq<u8>)
    ensures
        leading_separators(path) <= path.len(),
        !is_absolute(relative_part(path)),
        forall|i: int| 0 <= i < leading_separators(path) ==> path[i] == SEPARATOR,
    decreases path.len(),
{
    if is_absolute(path) {
        let rest = path.skip(1);
        lemma_leading_separators_bound(rest);
        let k = leading_separators(rest);
        assert(relative_part(path) =~= relative_part(rest));
        assert forall|i: int| 0 <= i < leading_separators(path) implies path[i] == SEPARATOR by {
            if i > 0 {
                assert(rest[i - 1] == path[i]);
            }
        }
    } else {
        assert(relative_part(path) =~= path);
    }
}



/// A longer run of digits spells a number that is no smaller.
pub proof fn lemma_digits_value_prefix(text: Seq<u8>, k: int)
    requires
        0 <= k <= text.len(),
        all_digits(text),
    ensures
        digits_value(text.take(k)) <= digits_value(text),
    decreases text.len() - k,
{
    if k < text.len() {
        lemma_digits_value_prefix(text, k + 1);
        assert(text.take(k + 1).drop_last() =~= text.take(k));
        assert(is_digit(text[k]));
        assert(text.take(k + 1).last() == text[k]);
    } else {
        assert(text.take(k) =~= text);
    }
}

/// A copy of `bytes`.
pub fn copy_bytes(bytes: &[u8]) -> (out: Vec<u8>)
    ensures
        out@ == bytes@,
{
    let mut out: Vec<u8> = Vec::new();
    append_bytes(&mut out, bytes);
    out
}

/// The bytes of `literal`.
pub fn bytes_of(literal: &str) -> (out: Vec<u8>)
    ensures
        out@ == literal.spec_bytes(),
{
    copy_bytes(literal.as_bytes())
}

/// Appends the bytes of `literal` to `out`.
pub fn append_literal(out: &mut Vec<u8>, literal: &str)
    ensures
        final(out)@ == old(out)@ + literal.spec_bytes(),
{
    append_bytes(out, literal.as_bytes());
}

/// Appends `more` to `out`.
pub fn append_bytes(out: &mut Vec<u8>, more: &[u8])
    ensures
        final(out)@ == old(out)@ + more@,
{
    let mut i: usize = 0;
    while i < more.len()
        invariant
            i <= more.len(),
            out@ == old(out)@ + more@.take(i as int),
        decreases more.len() - i,
    {
        out.push(more[i]);
        assert(more@.take(i as int + 1) =~= more@.take(i as int).push(more@[i as int]));
        i += 1;
    }
    assert(more@.take(more.len() as int) =~= more@);
}

/// Whether `path` starts at the root.
pub fn starts_at_root(path: &[u8]) -> (r: bool)
    ensures
        r == is_absolute(path@),
{
    path.len() > 0 && path[0] == SEPARATOR
}

/// `name` adjoined to `base`.
pub fn join(base: &[u8], name: &[u8]) -> (out: Vec<u8>)
    ensures
        out@ == join_spec(base@, name@),
{
    let mut out: Vec<u8> = Vec::new();
    if !starts_at_root(name) {
        append_bytes(&mut out, base);
        if base.len() > 0 && base[base.len() - 1] != SEPARATOR {
            out.push(SEPARATOR);
        }
    }
    append_bytes(&mut out, name);
    assert(out@ =~= join_spec(base@, name@));
    out
}

/// The way from the root to where `path` points.
pub fn strip_root(path: &[u8]) -> (out: Vec<u8>)
    ensures
        out@ == relative_part(path@),
{
    let mut start: usize = 0;
    assert(path@.skip(0) =~= path@);
    while start < path.len() && path[start] == SEPARATOR
        invariant
            start <= path.len(),
            leading_separators(path@) == start + leading_separators(path@.skip(start as int)),
        decreases path.len() - start,
    {
        assert(path@.skip(start as int).skip(1) =~= path@.skip(start as int + 1));
        start += 1;
    }
    let mut out: Vec<u8> = Vec::new();
    let mut i: usize = start;
    while i < path.len()
        invariant
            start <= i <= path.len(),
            out@ == path@.subrange(start as int, i as int),
        decreases path.len() - i,
    {
        out.push(path[i]);
        assert(path@.subrange(start as int, i as int + 1) =~= path@.subrange(
            start as int,
            i as int,
        ).push(path@[i as int]));
        i += 1;
    }
    assert(out@ =~= relative_part(path@));
    out
}

/// Appends the decimal digits of `n` to `out`.
pub fn push_decimal(out: &mut Vec<u8>, n: u128)
    ensures
        final(out)@ == old(out)@ + decimal(n as nat),
    decreases n,
{
    if n >= 10 {
        push_decimal(out, n / 10);
    }
    out.push(ZERO + (n % 10) as u8);
    assert(out@ =~= old(out)@ + decimal(n as nat));
}

/// The decimal digits of `n`.
pub fn decimal_bytes(n: u128) -> (out: Vec<u8>)
    ensures
        out@ == decimal(n as nat),
{
    let mut out: Vec<u8> = Vec::new();
    push_decimal(&mut out, n);
    out
}

/// The one character of the digit `d`.
fn digit_text(d: u8) -> (s: &'static str)
    requires
        d < 10,
    ensures
        s@ == seq![(ZERO + d) as char],
{
    proof {
        reveal_strlit("0");
        reveal_strlit("1");
        reveal_strlit("2");
        reveal_strlit("3");
        reveal_strlit("4");
        reveal_strlit("5");
        reveal_strlit("6");
        reveal_strlit("7");
        reveal_strlit("8");
        reveal_strlit("9");
    }
    let s = match d {
        0 => "0",
        1 => "1",
        2 => "2",
        3 => "3",
        4 => "4",
        5 => "5",
        6 => "6",
        7 => "7",
        8 => "8",
        _ => "9",
    };
    assert(s@ =~= seq![(ZERO + d) as char]);
    s
}

/// Appends the decimal digits of `n` to `out`.
pub fn push_decimal_text(out: &mut String, n: u128)
    ensures
        final(out)@ == old(out)@ + as_chars(decimal(n as nat)),
    decreases n,
{
    if n >= 10 {
        push_decimal_text(out, n / 10);
    }
    out.append(digit_text((n % 10) as u8));
    assert(out@ =~= old(out)@ + as_chars(decimal(n as nat)));
}

/// Appends the decimal digits of `n` to `out`, after a minus sign where `n`
/// is below zero.
pub fn push_signed_text(out: &mut String, n: i64)
    ensures
        final(out)@ == old(out)@ + as_chars(signed_decimal(n as int)),
{
    if n < 0 {
        proof {
            reveal_strlit("-");
        }
        out.append("-");
        let ghost mid = out@;
        let magnitude: u128 = (-(n as i128)) as u128;
        push_decimal_text(out, magnitude);
        assert(out@ =~= old(out)@ + as_chars(signed_decimal(n as int))) by {
            assert(as_chars(seq![45u8] + decimal((-n) as nat)) =~= seq!['-'] + as_chars(
                decimal((-n) as nat),
            ));
        }
    } else {
        push_decimal_text(out, n as u128);
    }
}

/// Whether `byte` is blank.
pub fn blank(byte: u8) -> (r: bool)
    ensures
        r == is_blank(byte),
{
    byte == 32 || (9 <= byte && byte <= 13)
}

/// `text` without the blank bytes at either end.
pub fn trim(text: &[u8]) -> (out: Vec<u8>)
    ensures
        out@ == trim_spec(text@),
{
    let mut start: usize = 0;
    assert(text@.skip(0) =~= text@);
    while start < text.len() && blank(text[start])
        invariant
            start <= text.len(),
            leading_blanks(text@) == start + leading_blanks(text@.skip(start as int)),
        decreases text.len() - start,
    {
        assert(text@.skip(start as int).skip(1) =~= text@.skip(start as int + 1));
        start += 1;
    }
    let ghost rest = text@.skip(start as int);
    let mut end: usize = text.len();
    assert(rest.take(text.len() - start) =~= rest);
    while end > start && blank(text[end - 1])
        invariant
            start <= end <= text.len(),
            rest == text@.skip(start as int),
            trailing_blanks(rest) == (text.len() - end) + trailing_blanks(
                rest.take(end - start),
            ),
        decreases end,
    {
        assert(rest.take(end - start).drop_last() =~= rest.take(end - start - 1));
        end -= 1;
    }
    let mut out: Vec<u8> = Vec::new();
    let mut i: usize = start;
    while i < end
        invariant
            start <= i <= end <= text.len(),
            out@ == text@.subrange(start as int, i as int),
        decreases end - i,
    {
        out.push(text[i]);
        assert(text@.subrange(start as int, i as int + 1) =~= text@.subrange(
            start as int,
            i as int,
        ).push(text@[i as int]));
        i += 1;
    }
    assert(out@ =~= trim_spec(text@));
    out
}

/// Reads the number that `text` holds.
pub fn parse_u64(text: &[u8]) -> (r: Option<u64>)
    ensures
        r == parse_u64_spec(text@),
{
    let start: usize = if text.len() > 0 && text[0] == PLUS {
        1
    } else {
        0
    };
    let ghost digits = unsigned_part(text@);
    assert(digits =~= text@.skip(start as int));
    if start == text.len() {
        return None;
    }
    let mut value: u64 = 0;
    let mut i: usize = start;
    while i < text.len()
        invariant
            start <= i <= text.len(),
            digits == text@.skip(start as int),
            digits == unsigned_part(text@),
            all_digits(digits.take(i - start)),
            value == digits_value(digits.take(i - start)),
        decreases text.len() - i,
    {
        let byte = text[i];
        let ghost longer = digits.take(i - start + 1);
        assert(longer.drop_last() =~= digits.take(i - start));
        assert(digits[i - start] == byte);
        assert(longer.last() == byte);
        if byte < 48 || byte > 57 {
            assert(!is_digit(digits[i - start]));
            assert(!all_digits(digits));
            return None;
        }
        assert(all_digits(longer)) by {
            assert forall|j: int| 0 <= j < longer.len() implies is_digit(#[trigger] longer[j]) by {
                if j < i - start {
                    assert(digits.take(i - start)[j] == longer[j]);
                }
            }
        }
        let digit: u64 = (byte - ZERO) as u64;
        if value > (u64::MAX - digit) / 10 {
            proof {
                assert(digits_value(longer) == value * 10 + digit);
                assert(digits_value(longer) > u64::MAX);
                if all_digits(digits) {
                    lemma_digits_value_prefix(digits, i - start + 1);
                }
            }
            return None;
        }
        value = value * 10 + digit;
        i += 1;
    }
    assert(digits.take(text.len() - start) =~= digits);
    Some(value)
}

} // verus!
