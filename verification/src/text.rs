//! Character-level helpers for reading a line of text: white space, trimming
//! and unsigned decimal numerals.

use vstd::prelude::*;
use vstd::std_specs::iter::IteratorSpec;

verus! {

broadcast use vstd::string::group_string_axioms;

/// The characters with the Unicode `White_Space` property.
pub open spec fn white_space(c: char) -> bool {
    let n = c as u32;
    ||| 0x09 <= n <= 0x0D
    ||| n == 0x20
    ||| n == 0x85
    ||| n == 0xA0
    ||| n == 0x1680
    ||| 0x2000 <= n <= 0x200A
    ||| n == 0x2028
    ||| n == 0x2029
    ||| n == 0x202F
    ||| n == 0x205F
    ||| n == 0x3000
}

/// `s` without its leading white space.
pub open spec fn trim_start(s: Seq<char>) -> Seq<char>
    decreases s.len(),
{
    if s.len() > 0 && white_space(s.first()) {
        trim_start(s.drop_first())
    } else {
        s
    }
}

/// `s` without its trailing white space.
pub open spec fn trim_end(s: Seq<char>) -> Seq<char>
    decreases s.len(),
{
    if s.len() > 0 && white_space(s.last()) {
        trim_end(s.drop_last())
    } else {
        s
    }
}

/// `s` without the white space at either end.
pub open spec fn trim(s: Seq<char>) -> Seq<char> {
    trim_end(trim_start(s))
}

/// The ASCII digits `0` to `9`.
pub open spec fn decimal_digit(c: char) -> bool {
    0x30 <= c as u32 <= 0x39
}

/// The number a digit stands for.
pub open spec fn digit_value(c: char) -> nat {
    (c as u32 - 0x30) as nat
}

/// Every character of `s` is an ASCII digit.
pub open spec fn all_digits(s: Seq<char>) -> bool {
    forall|i: int| 0 <= i < s.len() ==> decimal_digit(#[trigger] s[i])
}

/// The number that the digits of `s` write in base ten, most significant
/// digit first; zero for the empty sequence.
pub open spec fn decimal_value(s: Seq<char>) -> nat
    decreases s.len(),
{
    if s.len() == 0 {
        0
    } else {
        decimal_value(s.drop_last()) * 10 + digit_value(s.last())
    }
}

/// What a numeral means as an unsigned 16-bit number: it has at least one
/// character, only digits, and a value that fits. Leading zeros are allowed;
/// a sign is not.
pub open spec fn decimal_u16(s: Seq<char>) -> Option<u16> {
    if s.len() > 0 && all_digits(s) && decimal_value(s) <= u16::MAX {
        Some(decimal_value(s) as u16)
    } else {
        None
    }
}

/// What a run of characters is when read as an unsigned decimal numeral of
/// 16 bits.
#[derive(Clone, Copy, Debug, PartialEq, Eq, Structural)]
pub enum Numeral {
    /// It is empty, or one of its characters is no digit.
    NotANumeral,
    /// It is made of digits, and their value does not fit 16 bits.
    TooLarge,
    /// It is made of digits, and this is their value.
    Value(u16),
}

/// How `s` reads as a numeral. Leading zeros are allowed; a sign is not.
pub open spec fn numeral(s: Seq<char>) -> Numeral {
    if s.len() == 0 || !all_digits(s) {
        Numeral::NotANumeral
    } else if decimal_value(s) > u16::MAX {
        Numeral::TooLarge
    } else {
        Numeral::Value(decimal_value(s) as u16)
    }
}

/// Skipping `a` white-space characters in front of the first character that
/// is none (or of the end) is trimming the start.
pub proof fn lemma_trim_start_is_skip(s: Seq<char>, a: int)
    requires
        0 <= a <= s.len(),
        forall|i: int| 0 <= i < a ==> white_space(#[trigger] s[i]),
        a < s.len() ==> !white_space(s[a]),
    ensures
        trim_start(s) == s.skip(a),
    decreases a,
{
    if a > 0 {
        lemma_trim_start_is_skip(s.drop_first(), a - 1);
    }
}

/// Keeping the first `b` characters, where only white space follows them and
/// the last of them (if any) is none, is trimming the end.
pub proof fn lemma_trim_end_is_take(s: Seq<char>, b: int)
    requires
        0 <= b <= s.len(),
        forall|i: int| b <= i < s.len() ==> white_space(#[trigger] s[i]),
        0 < b ==> !white_space(s[b - 1]),
    ensures
        trim_end(s) == s.take(b),
    decreases s.len() - b,
{
    if b < s.len() {
        lemma_trim_end_is_take(s.drop_last(), b);
    }
}

/// Appending one digit multiplies the value by ten and adds the digit.
pub proof fn lemma_decimal_value_push(s: Seq<char>, c: char)
    ensures
        decimal_value(s.push(c)) == decimal_value(s) * 10 + digit_value(c),
{
    assert(s.push(c).drop_last() =~= s);
}

/// The characters of `s`, in order.
pub fn chars_of(s: &str) -> (v: Vec<char>)
    ensures
        v@ == s@,
{
    let mut v: Vec<char> = Vec::new();
    let mut it = s.chars();
    loop
        invariant
            it.obeys_prophetic_iter_laws(),
            it.decrease() is Some,
            v@ + it.remaining() == s@,
        ensures
            v@ == s@,
        decreases it.decrease()->0,
    {
        match it.next() {
            Some(c) => {
                v.push(c);
            },
            None => {
                break ;
            },
        }
    }
    v
}

/// Tells whether `c` is white space.
pub fn is_white_space(c: char) -> (b: bool)
    ensures
        b == white_space(c),
{
    let n: u32 = c as u32;
    (0x09 <= n && n <= 0x0D) || n == 0x20 || n == 0x85 || n == 0xA0 || n == 0x1680 || (0x2000 <= n
        && n <= 0x200A) || n == 0x2028 || n == 0x2029 || n == 0x202F || n == 0x205F || n == 0x3000
}

/// The bounds of what is left of `v[from..]` once the white space at both of
/// its ends is gone.
pub fn trim_bounds(v: &Vec<char>, from: usize) -> (r: (usize, usize))
    requires
        from <= v.len(),
    ensures
        from <= r.0 <= r.1 <= v.len(),
        v@.subrange(r.0 as int, r.1 as int) == trim(v@.skip(from as int)),
{
    let n: usize = v.len();
    let mut start: usize = from;
    while start < n && is_white_space(v[start])
        invariant
            from <= start <= n,
            n == v.len(),
            forall|i: int| from <= i < start ==> white_space(#[trigger] v@[i]),
        decreases n - start,
    {
        start += 1;
    }
    let mut end: usize = n;
    while end > start && is_white_space(v[end - 1])
        invariant
            start <= end <= n,
            n == v.len(),
            forall|i: int| end <= i < n ==> white_space(#[trigger] v@[i]),
        decreases end,
    {
        end -= 1;
    }
    proof {
        let tail = v@.skip(from as int);
        lemma_trim_start_is_skip(tail, start - from);
        lemma_trim_end_is_take(tail.skip(start - from), end - start);
    }
    (start, end)
}

/// Reads `v[from..to]` as an unsigned decimal numeral of 16 bits, and tells
/// digits that do not fit from what is no numeral at all.
pub fn read_numeral(v: &Vec<char>, from: usize, to: usize) -> (r: Numeral)
    requires
        from <= to <= v.len(),
    ensures
        r == numeral(v@.subrange(from as int, to as int)),
{
    let ghost s = v@.subrange(from as int, to as int);
    if from == to {
        return Numeral::NotANumeral;
    }
    let mut acc: u32 = 0;
    let mut fits: bool = true;
    let mut i: usize = from;
    while i < to
        invariant
            from <= i <= to <= v.len(),
            s == v@.subrange(from as int, to as int),
            all_digits(s.take(i - from)),
            fits ==> acc == decimal_value(s.take(i - from)),
            !fits ==> decimal_value(s.take(i - from)) > u16::MAX,
            acc <= u16::MAX,
        decreases to - i,
    {
        let c: char = v[i];
        let n: u32 = c as u32;
        if n < 0x30 || n > 0x39 {
            assert(!decimal_digit(s[i - from]));
            return Numeral::NotANumeral;
        }
        proof {
            let upto = s.take(i - from);
            assert(s.take(i + 1 - from) =~= upto.push(c));
            lemma_decimal_value_push(upto, c);
            assert(all_digits(s.take(i + 1 - from)));
        }
        if fits {
            let next: u32 = acc * 10 + (n - 0x30);
            if next > 0xFFFF {
                fits = false;
            } else {
                acc = next;
            }
        }
        i += 1;
    }
    proof {
        assert(s.take(to - from) =~= s);
    }
    if fits {
        Numeral::Value(acc as u16)
    } else {
        Numeral::TooLarge
    }
}

/// Reads `v[from..to]` as an unsigned decimal numeral of at most 16 bits.
pub fn parse_decimal_u16(v: &Vec<char>, from: usize, to: usize) -> (r: Option<u16>)
    requires
        from <= to <= v.len(),
    ensures
        r == decimal_u16(v@.subrange(from as int, to as int)),
{
    match read_numeral(v, from, to) {
        Numeral::Value(value) => Some(value),
        _ => None,
    }
}

} // verus!
