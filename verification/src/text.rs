//! Character-level text building: appending, number formatting, ASCII case
//! folding and substring search, each specified over `Seq<char>`.

use vstd::prelude::*;

verus! {

/// Appends one character to a string (`String::push`).
#[verifier::external_body]
pub(crate) fn push_char(s: &mut String, c: char)
    ensures
        final(s)@ == old(s)@.push(c),
{
    s.push(c);
}

/// The lower-case form of a text, by the Unicode rules of `str::to_lowercase`.
pub uninterp spec fn unicode_lowercase(s: Seq<char>) -> Seq<char>;

/// `str::to_lowercase`: the lower-case form of `s`, by Unicode's rules; what
/// that is on each text is named, not stated.
#[verifier::external_body]
pub(crate) fn to_lowercase(s: &str) -> (r: String)
    ensures
        r@ == unicode_lowercase(s@),
{
    s.to_lowercase()
}

/// Appends the characters of a sequence held in a vector.
pub fn append_chars(s: &mut String, t: &Vec<char>)
    ensures
        final(s)@ == old(s)@ + t@,
{
    let ghost start = s@;
    let mut i: usize = 0;
    while i < t.len()
        invariant
            i <= t.len(),
            s@ == start + t@.take(i as int),
        decreases t.len() - i,
    {
        push_char(s, t[i]);
        proof {
            assert(t@.take(i as int + 1) =~= t@.take(i as int).push(t@[i as int]));
        }
        i = i + 1;
    }
    proof {
        assert(t@.take(i as int) =~= t@);
    }
}

/// The characters of a string slice, as a vector.
pub fn chars_of(s: &str) -> (v: Vec<char>)
    ensures
        v@ == s@,
{
    let mut v: Vec<char> = Vec::new();
    for c in it: s.chars()
        invariant
            v@ == it.seq().take(it.index() as int),
    {
        v.push(c);
        proof {
            assert(it.seq().take(it.index() as int + 1) =~= v@);
        }
    }
    v
}

/// The digit for `d` in bases up to sixteen: `0`-`9`, then lower-case `a`-`f`.
pub open spec fn digit_char(d: nat) -> char {
    if d < 10 {
        (48 + d) as char
    } else {
        (87 + d) as char
    }
}

/// The digits of `v` in base `base`, most significant first, without leading zeros
/// (zero is the single digit `0`).
pub open spec fn digits(v: nat, base: nat) -> Seq<char>
    recommends
        base >= 2,
    decreases v,
{
    if base < 2 || v < base {
        seq![digit_char(v % 16)]
    } else {
        proof {
            assert(v / base < v) by (nonlinear_arith)
                requires
                    base >= 2,
                    v >= base,
            ;
        }
        digits(v / base, base).push(digit_char(v % base))
    }
}

/// The value of a digit character (`0`-`9`, `a`-`f`); zero for any other.
pub open spec fn digit_value(c: char) -> nat {
    if '0' <= c && c <= '9' {
        (c as nat - 48) as nat
    } else if 'a' <= c && c <= 'f' {
        (c as nat - 87) as nat
    } else {
        0
    }
}

/// The number that a sequence of digits denotes in base `base`.
pub open spec fn digits_value(s: Seq<char>, base: nat) -> nat
    decreases s.len(),
{
    if s.len() == 0 {
        0
    } else {
        digits_value(s.drop_last(), base) * base + digit_value(s.last())
    }
}

/// The digits of a number denote that number: the text that `digits` gives
/// reads back as the value it was made from, in every base from 2 to 16.
pub proof fn law_digits_value(v: nat, base: nat)
    requires
        2 <= base <= 16,
    ensures
        digits_value(digits(v, base), base) == v,
    decreases v,
{
    if v < base {
        assert(digit_value(digit_char(v % 16)) == v % 16);
        assert(v % 16 == v);
        let d = digits(v, base);
        assert(d == seq![digit_char(v % 16)]);
        assert(d.drop_last() =~= Seq::<char>::empty());
        assert(digits_value(d.drop_last(), base) == 0);
        assert(digits_value(d, base) == digits_value(d.drop_last(), base) * base + digit_value(d.last()));
        assert(0 * base == 0);
    } else {
        assert(v / base < v) by (nonlinear_arith)
            requires
                base >= 2,
                v >= base,
        ;
        law_digits_value(v / base, base);
        let d = digits(v, base);
        assert(d == digits(v / base, base).push(digit_char(v % base)));
        assert(d.drop_last() =~= digits(v / base, base));
        assert(d.last() == digit_char(v % base));
        assert(v % base < 16) by (nonlinear_arith)
            requires
                2 <= base <= 16,
        ;
        assert(digit_value(digit_char(v % base)) == v % base);
        let q = v / base;
        let r = v % base;
        assert(q * base + r == v) by (nonlinear_arith)
            requires
                base >= 2,
                q == v / base,
                r == v % base,
        ;
        assert(digits_value(d, base) == digits_value(d.drop_last(), base) * base + digit_value(d.last()));
    }
}

/// Every character of a number's digits is a digit of its base.
pub proof fn law_digits_in_base(v: nat, base: nat)
    requires
        2 <= base <= 16,
    ensures
        forall|i: int| 0 <= i < digits(v, base).len() ==> digit_value(#[trigger] digits(v, base)[i]) < base,
        forall|i: int| 0 <= i < digits(v, base).len() ==> #[trigger] digit_char(digit_value(digits(v, base)[i])) == digits(v, base)[i],
    decreases v,
{
    if v >= base {
        assert(v / base < v) by (nonlinear_arith)
            requires
                base >= 2,
                v >= base,
        ;
        law_digits_in_base(v / base, base);
        assert(v % base < base) by (nonlinear_arith)
            requires
                base >= 2,
        ;
        assert(digit_value(digit_char(v % base)) == v % base);
        let p = digits(v / base, base);
        let d = digits(v, base);
        assert(d == p.push(digit_char(v % base)));
        assert forall|i: int| 0 <= i < d.len() implies digit_value(#[trigger] d[i]) < base && digit_char(
            digit_value(d[i]),
        ) == d[i] by {
            if i < p.len() {
                assert(d[i] == p[i]);
            }
        }
    } else {
        assert(v % 16 == v);
        assert(digit_value(digit_char(v)) == v);
        let d = digits(v, base);
        assert(d == seq![digit_char(v % 16)]);
        assert forall|i: int| 0 <= i < d.len() implies digit_value(#[trigger] d[i]) < base && digit_char(
            digit_value(d[i]),
        ) == d[i] by {
            assert(d[i] == digit_char(v));
        }
    }
}

/// The character of the digit `d` (`d < 16`).
pub fn digit_of(d: u64) -> (c: char)
    requires
        d < 16,
    ensures
        c == digit_char(d as nat),
{
    let b: u8 = d as u8;
    if b < 10 {
        (48u8 + b) as char
    } else {
        (87u8 + b) as char
    }
}

/// Appends the digits of `v` in base `base` (2, 10 or 16) to `s`.
pub fn push_digits(s: &mut String, v: u64, base: u64)
    requires
        base == 2 || base == 10 || base == 16,
    ensures
        final(s)@ == old(s)@ + digits(v as nat, base as nat),
    decreases v,
{
    if v >= base {
        assert(v / base < v) by (nonlinear_arith)
            requires
                v >= base,
                base >= 2,
        ;
        push_digits(s, v / base, base);
        push_char(s, digit_of(v % base));
        proof {
            assert(old(s)@ + digits(v as nat, base as nat) =~= old(s)@ + digits((v / base) as nat, base as nat)
                + seq![digit_char((v % base) as nat)]);
        }
    } else {
        push_char(s, digit_of(v % 16));
        proof {
            assert(old(s)@ + digits(v as nat, base as nat) =~= old(s)@.push(digit_char((v % 16) as nat)));
        }
    }
}

/// The decimal text of an integer, with a leading `-` where it is negative.
pub open spec fn dec(v: int) -> Seq<char> {
    if v < 0 {
        seq!['-'] + digits((-v) as nat, 10)
    } else {
        digits(v as nat, 10)
    }
}

/// Appends the decimal text of `v` to `s`.
pub fn push_u64(s: &mut String, v: u64)
    ensures
        final(s)@ == old(s)@ + dec(v as int),
{
    push_digits(s, v, 10);
}

/// Appends the decimal text of `v`, signed, to `s`.
pub fn push_i64(s: &mut String, v: i64)
    ensures
        final(s)@ == old(s)@ + dec(v as int),
{
    if v < 0 {
        let ghost start = s@;
        push_char(s, '-');
        let m: u64 = if v == i64::MIN {
            9223372036854775808u64
        } else {
            (-v) as u64
        };
        push_digits(s, m, 10);
        proof {
            assert(s@ =~= start + dec(v as int));
        }
    } else {
        push_digits(s, v as u64, 10);
    }
}

/// The items joined into one text, with `sep` between each two.
pub open spec fn join(items: Seq<Seq<char>>, sep: Seq<char>) -> Seq<char>
    decreases items.len(),
{
    if items.len() == 0 {
        Seq::empty()
    } else if items.len() == 1 {
        items[0]
    } else {
        join(items.drop_last(), sep) + sep + items.last()
    }
}

/// ASCII upper-casing of one character; other characters are unchanged.
pub open spec fn ascii_upper(c: char) -> char {
    if 'a' <= c && c <= 'z' {
        ((c as u32) - 32) as char
    } else {
        c
    }
}

/// ASCII lower-casing of one character; other characters are unchanged.
pub open spec fn ascii_lower(c: char) -> char {
    if 'A' <= c && c <= 'Z' {
        ((c as u32) + 32) as char
    } else {
        c
    }
}

/// ASCII upper-casing of every character of a sequence.
pub open spec fn upper_seq(s: Seq<char>) -> Seq<char> {
    s.map_values(|c: char| ascii_upper(c))
}

/// ASCII lower-casing of every character of a sequence.
pub open spec fn lower_seq(s: Seq<char>) -> Seq<char> {
    s.map_values(|c: char| ascii_lower(c))
}

/// The ASCII upper-case form of `c`.
pub fn to_upper(c: char) -> (r: char)
    ensures
        r == ascii_upper(c),
{
    if 'a' <= c && c <= 'z' {
        ((c as u8) - 32) as char
    } else {
        c
    }
}

/// The characters of `s` with ASCII letters upper-cased.
pub fn upper_chars(s: &str) -> (v: Vec<char>)
    ensures
        v@ == upper_seq(s@),
{
    let cs = chars_of(s);
    let mut v: Vec<char> = Vec::new();
    let mut i: usize = 0;
    while i < cs.len()
        invariant
            i <= cs.len(),
            cs@ == s@,
            v@ == upper_seq(cs@.take(i as int)),
        decreases cs.len() - i,
    {
        v.push(to_upper(cs[i]));
        proof {
            assert(upper_seq(cs@.take(i as int + 1)) =~= upper_seq(cs@.take(i as int)).push(ascii_upper(cs@[i as int])));
        }
        i = i + 1;
    }
    proof {
        assert(cs@.take(i as int) =~= cs@);
    }
    v
}

/// `needle` occurs in `hay` at position `i`.
pub open spec fn occurs_at(hay: Seq<char>, needle: Seq<char>, i: int) -> bool {
    0 <= i && i + needle.len() <= hay.len() && hay.subrange(i, i + needle.len()) == needle
}

/// `needle` occurs somewhere in `hay`.
pub open spec fn contains_seq(hay: Seq<char>, needle: Seq<char>) -> bool {
    exists|i: int| occurs_at(hay, needle, i)
}

/// Whether `needle` occurs in `hay` at position `i`.
fn matches_at(hay: &Vec<char>, needle: &Vec<char>, i: usize) -> (r: bool)
    requires
        i + needle.len() <= hay.len(),
    ensures
        r == occurs_at(hay@, needle@, i as int),
{
    let mut j: usize = 0;
    while j < needle.len()
        invariant
            i + needle.len() <= hay.len(),
            j <= needle.len(),
            forall|k: int| 0 <= k < j ==> hay@[i + k] == needle@[k],
        decreases needle.len() - j,
    {
        if hay[i + j] != needle[j] {
            proof {
                assert(hay@.subrange(i as int, i + needle.len())[j as int] != needle@[j as int]);
            }
            return false;
        }
        j = j + 1;
    }
    proof {
        assert(hay@.subrange(i as int, i + needle.len()) =~= needle@);
    }
    true
}

/// Whether `needle` occurs as a contiguous part of `hay`.
pub fn contains_chars(hay: &Vec<char>, needle: &Vec<char>) -> (r: bool)
    ensures
        r == contains_seq(hay@, needle@),
{
    if needle.len() > hay.len() {
        return false;
    }
    let last: usize = hay.len() - needle.len();
    let mut i: usize = 0;
    loop
        invariant
            last + needle.len() == hay.len(),
            i <= last,
            forall|k: int| 0 <= k < i ==> !occurs_at(hay@, needle@, k),
        ensures
            forall|k: int| 0 <= k <= last ==> !occurs_at(hay@, needle@, k),
        decreases last - i,
    {
        if matches_at(hay, needle, i) {
            return true;
        }
        if i == last {
            break;
        }
        i = i + 1;
    }
    proof {
        assert forall|k: int| !occurs_at(hay@, needle@, k) by {
            if 0 <= k <= last {
            }
        }
    }
    false
}

} // verus!
