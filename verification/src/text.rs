//! Text as sequences of characters: white space, trimming and decimal numbers.

use vstd::prelude::*;

verus! {

/// `String::push` appends the character to the end of the string and leaves what was there.
pub assume_specification[ String::push ](s: &mut String, c: char)
    ensures
        final(s)@ == old(s)@.push(c),
;

/// The Unicode `White_Space` property.
pub open spec fn is_white(c: char) -> bool {
    let n = c as u32;
    ||| 0x09 <= n <= 0x0d
    ||| n == 0x20
    ||| n == 0x85
    ||| n == 0xa0
    ||| n == 0x1680
    ||| 0x2000 <= n <= 0x200a
    ||| n == 0x2028
    ||| n == 0x2029
    ||| n == 0x202f
    ||| n == 0x205f
    ||| n == 0x3000
}

/// Whether `c` has the Unicode `White_Space` property, as `char::is_whitespace` tells it.
pub fn is_white_space(c: char) -> (white: bool)
    ensures
        white == is_white(c),
{
    let n: u32 = c as u32;
    (0x09 <= n && n <= 0x0d) || n == 0x20 || n == 0x85 || n == 0xa0 || n == 0x1680 || (0x2000 <= n
        && n <= 0x200a) || n == 0x2028 || n == 0x2029 || n == 0x202f || n == 0x205f || n == 0x3000
}

/// `s` without its longest prefix of characters that satisfy `p`.
pub open spec fn trim_start(s: Seq<char>, p: spec_fn(char) -> bool) -> Seq<char>
    decreases s.len(),
{
    if s.len() > 0 && p(s.first()) {
        trim_start(s.drop_first(), p)
    } else {
        s
    }
}

/// `s` without its longest suffix of characters that satisfy `p`.
pub open spec fn trim_end(s: Seq<char>, p: spec_fn(char) -> bool) -> Seq<char>
    decreases s.len(),
{
    if s.len() > 0 && p(s.last()) {
        trim_end(s.drop_last(), p)
    } else {
        s
    }
}

/// The characters of `s`, in order.
pub fn char_vec(s: &str) -> (chars: Vec<char>)
    ensures
        chars@ == s@,
{
    let mut chars: Vec<char> = Vec::new();
    for c in it: s.chars()
        invariant
            chars@ == it.seq().take(it.index()),
            it.seq() == s@,
    {
        chars.push(c);
    }
    chars
}

/// The index after leading white space in `chars[lo..hi]`.
pub(crate) fn skip_leading_white(chars: &Vec<char>, lo: usize, hi: usize) -> (start: usize)
    requires
        lo <= hi <= chars.len(),
    ensures
        lo <= start <= hi,
        chars@.subrange(start as int, hi as int) == trim_start(
            chars@.subrange(lo as int, hi as int),
            |c: char| is_white(c),
        ),
{
    let mut start: usize = lo;
    while start < hi && is_white_space(chars[start])
        invariant
            lo <= start <= hi <= chars.len(),
            trim_start(chars@.subrange(start as int, hi as int), |c: char| is_white(c))
                == trim_start(chars@.subrange(lo as int, hi as int), |c: char| is_white(c)),
        decreases hi - start,
    {
        assert(chars@.subrange(start as int, hi as int).drop_first() == chars@.subrange(
            start + 1,
            hi as int,
        ));
        start = start + 1;
    }
    start
}

/// The characters `chars[lo..hi]` as a string.
pub(crate) fn string_of(chars: &Vec<char>, lo: usize, hi: usize) -> (s: String)
    requires
        lo <= hi <= chars.len(),
    ensures
        s@ == chars@.subrange(lo as int, hi as int),
{
    let mut s = String::new();
    let mut i: usize = lo;
    while i < hi
        invariant
            lo <= i <= hi <= chars.len(),
            s@ == chars@.subrange(lo as int, i as int),
        decreases hi - i,
    {
        s.push(chars[i]);
        i = i + 1;
    }
    s
}

/// The character of a decimal digit.
pub open spec fn digit(d: nat) -> char {
    ('0' as u32 + d) as char
}

/// `n` in decimal, without leading zeros.
pub open spec fn decimal(n: nat) -> Seq<char>
    decreases n,
{
    if n < 10 {
        seq![digit(n)]
    } else {
        decimal(n / 10).push(digit(n % 10))
    }
}

/// `n` in decimal, with at least two digits.
pub open spec fn decimal_two(n: nat) -> Seq<char> {
    if n < 10 {
        seq!['0', digit(n)]
    } else {
        decimal(n)
    }
}

fn digit_char(d: u32) -> (c: char)
    requires
        d < 10,
    ensures
        c == digit(d as nat),
{
    if d == 0 {
        '0'
    } else if d == 1 {
        '1'
    } else if d == 2 {
        '2'
    } else if d == 3 {
        '3'
    } else if d == 4 {
        '4'
    } else if d == 5 {
        '5'
    } else if d == 6 {
        '6'
    } else if d == 7 {
        '7'
    } else if d == 8 {
        '8'
    } else {
        '9'
    }
}

/// Writes `n` in decimal.
pub fn decimal_text(n: u32) -> (s: String)
    ensures
        s@ == decimal(n as nat),
    decreases n,
{
    let mut s = if n < 10 {
        String::new()
    } else {
        decimal_text(n / 10)
    };
    s.push(digit_char(n % 10));
    s
}

/// Writes `n` in decimal, with a leading zero if it has one digit.
pub fn decimal_two_text(n: u32) -> (s: String)
    ensures
        s@ == decimal_two(n as nat),
{
    if n < 10 {
        let mut s = String::new();
        s.push('0');
        s.push(digit_char(n));
        s
    } else {
        decimal_text(n)
    }
}

/// A decimal number is not empty and holds digits only.
pub proof fn decimal_is_digits(n: nat)
    ensures
        decimal(n).len() >= 1,
        forall|i: int| 0 <= i < decimal(n).len() ==> '0' <= #[trigger] decimal(n)[i] <= '9',
    decreases n,
{
    if n >= 10 {
        decimal_is_digits(n / 10);
    }
}

/// Different numbers have different decimal texts.
pub proof fn decimal_is_injective(m: nat, n: nat)
    requires
        decimal(m) == decimal(n),
    ensures
        m == n,
    decreases m,
{
    decimal_is_digits(m / 10);
    decimal_is_digits(n / 10);
    if m >= 10 {
        assert(decimal(m).len() >= 2);
        assert(n >= 10);
        assert(decimal(m).drop_last() == decimal(m / 10));
        assert(decimal(n).drop_last() == decimal(n / 10));
        assert(decimal(m).last() == digit(m % 10));
        assert(decimal(n).last() == digit(n % 10));
        decimal_is_injective(m / 10, n / 10);
    } else {
        assert(decimal(m).len() == 1);
        assert(n < 10);
        assert(decimal(m)[0] == digit(m));
        assert(decimal(n)[0] == digit(n));
    }
}

/// What trimming the end keeps is a prefix, what it cuts satisfies `p`, and what it keeps does not
/// end in a character that satisfies `p`.
pub proof fn trim_end_keeps_a_prefix(s: Seq<char>, p: spec_fn(char) -> bool)
    ensures
        trim_end(s, p).len() <= s.len(),
        trim_end(s, p) == s.take(trim_end(s, p).len() as int),
        forall|i: int| trim_end(s, p).len() <= i < s.len() ==> p(#[trigger] s[i]),
        trim_end(s, p).len() > 0 ==> !p(trim_end(s, p).last()),
    decreases s.len(),
{
    if s.len() > 0 && p(s.last()) {
        let t = s.drop_last();
        trim_end_keeps_a_prefix(t, p);
        assert(t.take(trim_end(t, p).len() as int) == s.take(trim_end(s, p).len() as int));
        assert forall|i: int| trim_end(s, p).len() <= i < s.len() implies p(#[trigger] s[i]) by {
            if i < s.len() - 1 {
                assert(t[i] == s[i]);
            }
        }
    } else {
        assert(s.take(s.len() as int) == s);
    }
}

/// What trimming the start keeps is a suffix, what it cuts satisfies `p`, and what it keeps does
/// not begin with a character that satisfies `p`.
pub proof fn trim_start_keeps_a_suffix(s: Seq<char>, p: spec_fn(char) -> bool)
    ensures
        trim_start(s, p).len() <= s.len(),
        trim_start(s, p) == s.skip(s.len() - trim_start(s, p).len()),
        forall|i: int| 0 <= i < s.len() - trim_start(s, p).len() ==> p(#[trigger] s[i]),
        trim_start(s, p).len() > 0 ==> !p(trim_start(s, p).first()),
    decreases s.len(),
{
    if s.len() > 0 && p(s.first()) {
        let t = s.drop_first();
        trim_start_keeps_a_suffix(t, p);
        assert(t.skip(t.len() - trim_start(t, p).len()) == s.skip(s.len() - trim_start(s, p).len()));
        assert forall|i: int| 0 <= i < s.len() - trim_start(s, p).len() implies p(
            #[trigger] s[i],
        ) by {
            if i > 0 {
                assert(t[i - 1] == s[i]);
            }
        }
    } else {
        assert(s.skip(0) == s);
    }
}

/// The texts of a list of strings.
pub open spec fn texts(strings: Seq<String>) -> Seq<Seq<char>> {
    strings.map_values(|s: String| s@)
}

/// The text of an optional string.
pub open spec fn optional_text(string: Option<String>) -> Option<Seq<char>> {
    match string {
        Some(s) => Some(s@),
        None => None,
    }
}

/// The number that decimal digits spell.
pub open spec fn decimal_value(digits: Seq<char>) -> int
    decreases digits.len(),
{
    if digits.len() == 0 {
        0
    } else {
        10 * decimal_value(digits.drop_last()) + (digits.last() as int - '0' as int)
    }
}

/// A decimal text spells its number, in digits alone, and without a zero in front unless the
/// number is zero.
pub proof fn decimal_spells_the_number(n: nat)
    ensures
        decimal_value(decimal(n)) == n,
        decimal(n).len() >= 1,
        forall|i: int| 0 <= i < decimal(n).len() ==> '0' <= #[trigger] decimal(n)[i] <= '9',
        n > 0 ==> decimal(n).first() != '0',
        n == 0 ==> decimal(n).len() == 1,
    decreases n,
{
    reveal_with_fuel(decimal_value, 2);
    decimal_is_digits(n);
    if n >= 10 {
        decimal_spells_the_number(n / 10);
        assert(decimal(n).drop_last() == decimal(n / 10));
        assert(decimal(n).first() == decimal(n / 10).first());
    } else {
        assert(decimal(n).drop_last().len() == 0);
    }
}

/// A decimal text of two digits or more spells its number too, and has a zero in front only where
/// it would otherwise have one digit.
pub proof fn decimal_two_spells_the_number(n: nat)
    ensures
        decimal_value(decimal_two(n)) == n,
        decimal_two(n).len() >= 2,
        forall|i: int|
            0 <= i < decimal_two(n).len() ==> '0' <= #[trigger] decimal_two(n)[i] <= '9',
        decimal_two(n).len() > 2 ==> decimal_two(n).first() != '0',
{
    reveal_with_fuel(decimal_value, 3);
    decimal_spells_the_number(n);
    if n < 10 {
        let two = decimal_two(n);
        assert(two.drop_last().drop_last().len() == 0);
        assert(two.drop_last().last() == '0');
    } else {
        decimal_spells_the_number(n / 10);
        assert(decimal(n) == decimal(n / 10).push(digit(n % 10)));
    }
}

/// The texts of strings are those of each string, in order.
pub proof fn texts_are_those_of_each(strings: Seq<String>)
    ensures
        texts(strings).len() == strings.len(),
        forall|i: int| 0 <= i < strings.len() ==> #[trigger] texts(strings)[i] == strings[i]@,
{
}

} // verus!
