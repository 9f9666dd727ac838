//! Decimal text: how a word is written as digits and how a line of input is
//! read as a word.

use vstd::prelude::*;

verus! {

/// The character code of the decimal digit `d`.
pub open spec fn digit(d: nat) -> u8 {
    (48 + d) as u8
}

/// The decimal digits of `n`, most significant first, without leading zeros.
pub open spec fn decimal(n: nat) -> Seq<u8>
    decreases n,
{
    if n < 10 {
        seq![digit(n)]
    } else {
        decimal(n / 10).push(digit(n % 10))
    }
}

/// Whether `c` is white space: a character with the Unicode property
/// White_Space.
pub open spec fn is_space(c: char) -> bool {
    let u = c as u32;
    ||| 0x09 <= u <= 0x0D
    ||| u == 0x20
    ||| u == 0x85
    ||| u == 0xA0
    ||| u == 0x1680
    ||| 0x2000 <= u <= 0x200A
    ||| u == 0x2028
    ||| u == 0x2029
    ||| u == 0x202F
    ||| u == 0x205F
    ||| u == 0x3000
}

/// Whether `c` is one of the digits `0` to `9`.
pub open spec fn is_digit(c: char) -> bool {
    48 <= c as u32 <= 57
}

/// `s` without the white space at its start.
pub open spec fn trim_start(s: Seq<char>) -> Seq<char>
    decreases s.len(),
{
    if s.len() > 0 && is_space(s[0]) {
        trim_start(s.drop_first())
    } else {
        s
    }
}

/// `s` without the white space at its end.
pub open spec fn trim_end(s: Seq<char>) -> Seq<char>
    decreases s.len(),
{
    if s.len() > 0 && is_space(s.last()) {
        trim_end(s.drop_last())
    } else {
        s
    }
}

/// `s` without the white space at either end.
pub open spec fn trimmed(s: Seq<char>) -> Seq<char> {
    trim_end(trim_start(s))
}

/// The number that the digits `s` write in base ten.
pub open spec fn number(s: Seq<char>) -> nat
    decreases s.len(),
{
    if s.len() == 0 {
        0
    } else {
        10 * number(s.drop_last()) + (s.last() as u32 - 48) as nat
    }
}

/// `s` without a plus sign at its start.
pub open spec fn unsigned(s: Seq<char>) -> Seq<char> {
    if s.len() > 0 && s[0] == '+' {
        s.drop_first()
    } else {
        s
    }
}

/// The word that the line `s` writes, if it writes one: white space at
/// either end is ignored, and what is left must be an optional plus sign and
/// then one or more digits whose number is at most 65535.
pub open spec fn spec_parse_u16(s: Seq<char>) -> Option<u16> {
    let d = unsigned(trimmed(s));
    if d.len() > 0 && (forall|k: int| 0 <= k < d.len() ==> is_digit(#[trigger] d[k])) && number(d)
        <= 0xFFFF {
        Some(number(d) as u16)
    } else {
        None
    }
}

/// The characters whose codes are `s`.
pub open spec fn as_chars(s: Seq<u8>) -> Seq<char> {
    Seq::new(s.len(), |k: int| s[k] as char)
}

/// The decimal digits of a number are digits, begin with no sign or space,
/// and write that number.
proof fn lemma_decimal_is_a_number(n: nat)
    ensures
        decimal(n).len() >= 1,
        forall|k: int| 0 <= k < decimal(n).len() ==> 48 <= #[trigger] decimal(n)[k] <= 57,
        number(as_chars(decimal(n))) == n,
    decreases n,
{
    let text = as_chars(decimal(n));
    assert(text.last() == digit(n % 10) as char);
    assert(text.last() as u32 == 48 + n % 10);
    if n < 10 {
        assert(text.drop_last() =~= Seq::<char>::empty());
        assert(number(text.drop_last()) == 0);
    } else {
        lemma_decimal_is_a_number(n / 10);
        assert(text.drop_last() =~= as_chars(decimal(n / 10)));
    }
}

/// What is written in decimal reads back as the same word, with or without
/// a line feed after it.
pub proof fn lemma_decimal_reads_back(value: u16)
    ensures
        spec_parse_u16(as_chars(decimal(value as nat))) == Some(value),
        spec_parse_u16(as_chars(decimal(value as nat).push(10u8))) == Some(value),
{
    let digits = as_chars(decimal(value as nat));
    let line = as_chars(decimal(value as nat).push(10u8));
    lemma_decimal_is_a_number(value as nat);
    assert(is_digit(digits[0]));
    assert(is_digit(digits.last()));
    assert(trimmed(digits) == digits);
    assert(line.drop_last() =~= digits);
    assert(is_digit(line[0]));
    assert(trim_start(line) == line);
    assert(trimmed(line) == digits);
}

/// A string writes a number no smaller than any of its prefixes does.
proof fn lemma_number_grows(s: Seq<char>, k: int)
    requires
        0 <= k <= s.len(),
    ensures
        number(s.subrange(0, k)) <= number(s),
    decreases s.len() - k,
{
    if k == s.len() {
        assert(s.subrange(0, k) =~= s);
    } else {
        lemma_number_grows(s.drop_last(), k);
        assert(s.drop_last().subrange(0, k) =~= s.subrange(0, k));
    }
}

/// Whether `c` is white space.
#[verifier::when_used_as_spec(is_space)]
pub fn is_whitespace(c: char) -> (r: bool)
    ensures
        r == is_space(c),
{
    let u: u32 = c as u32;
    (0x09 <= u && u <= 0x0D) || u == 0x20 || u == 0x85 || u == 0xA0 || u == 0x1680 || (0x2000 <= u
        && u <= 0x200A) || u == 0x2028 || u == 0x2029 || u == 0x202F || u == 0x205F || u == 0x3000
}

/// The characters of `line`, in order.
fn chars_of(line: &str) -> (chars: Vec<char>)
    ensures
        chars@ == line@,
{
    let mut chars: Vec<char> = Vec::new();
    for c in it: line.chars()
        invariant
            it.seq() == line@,
            chars@ == it.seq().take(it.index()),
    {
        chars.push(c);
    }
    chars
}

/// Reads `line` as a word: white space at either end is ignored, and what
/// is left must be an optional plus sign and then one or more digits that
/// write a number of at most 65535. Any other line gives `None`.
pub fn parse_u16(line: &str) -> (r: Option<u16>)
    ensures
        r == spec_parse_u16(line@),
{
    let chars = chars_of(line);
    let n: usize = chars.len();
    let mut first: usize = 0;
    assert(chars@.subrange(0, n as int) =~= chars@);
    while first < n && is_whitespace(chars[first])
        invariant
            first <= n,
            n == chars@.len(),
            trim_start(chars@) == trim_start(chars@.subrange(first as int, n as int)),
        decreases n - first,
    {
        assert(chars@.subrange(first as int, n as int).drop_first() =~= chars@.subrange(
            first + 1,
            n as int,
        ));
        first += 1;
    }
    let mut last: usize = n;
    while last > first && is_whitespace(chars[last - 1])
        invariant
            first <= last <= n,
            n == chars@.len(),
            trim_end(chars@.subrange(first as int, n as int)) == trim_end(
                chars@.subrange(first as int, last as int),
            ),
        decreases last,
    {
        assert(chars@.subrange(first as int, last as int).drop_last() =~= chars@.subrange(
            first as int,
            last - 1,
        ));
        last -= 1;
    }
    assert(trimmed(chars@) == chars@.subrange(first as int, last as int));
    let mut at: usize = first;
    if at < last && chars[at] == '+' {
        assert(chars@.subrange(first as int, last as int).drop_first() =~= chars@.subrange(
            first + 1,
            last as int,
        ));
        at += 1;
    }
    let ghost digits = chars@.subrange(at as int, last as int);
    assert(digits == unsigned(trimmed(chars@)));
    if at == last {
        return None;
    }
    let mut value: u32 = 0;
    let mut k: usize = at;
    while k < last
        invariant
            at <= k <= last <= n,
            n == chars@.len(),
            digits == chars@.subrange(at as int, last as int),
            digits == unsigned(trimmed(line@)),
            value == number(digits.subrange(0, k - at)),
            value <= 0xFFFF,
            forall|j: int| 0 <= j < k - at ==> is_digit(#[trigger] digits[j]),
        decreases last - k,
    {
        let u: u32 = chars[k] as u32;
        if u < 48 || u > 57 {
            assert(!is_digit(digits[k - at]));
            return None;
        }
        assert(digits.subrange(0, k - at + 1).drop_last() =~= digits.subrange(0, k - at));
        value = value * 10 + (u - 48);
        if value > 0xFFFF {
            proof {
                lemma_number_grows(digits, k - at + 1);
            }
            return None;
        }
        k += 1;
    }
    assert(digits.subrange(0, k - at) =~= digits);
    Some(value as u16)
}

/// The decimal digits of `value` as character codes, most significant
/// first, without leading zeros.
pub fn to_decimal(value: u16) -> (text: Vec<u8>)
    ensures
        text@ == decimal(value as nat),
    decreases value,
{
    if value < 10 {
        let mut text: Vec<u8> = Vec::new();
        text.push(48 + value as u8);
        assert(text@ =~= decimal(value as nat));
        text
    } else {
        let mut text = to_decimal(value / 10);
        text.push(48 + (value % 10) as u8);
        text
    }
}

} // verus!
