//! Small verified helpers for working with strings as character sequences.

use vstd::prelude::*;
use vstd::string::StrSliceExecFns;

verus! {

/// Relies on std's `String::push`: appends the given character to the end
/// of the string.
pub assume_specification[ String::push ](s: &mut String, c: char)
    ensures
        final(s)@ == old(s)@.push(c),
;

/// Collect the characters of a string slice into a vector.
pub fn str_chars(s: &str) -> (v: Vec<char>)
    ensures
        v@ == s@,
{
    let n: usize = s.unicode_len();
    let mut v: Vec<char> = Vec::new();
    let mut i: usize = 0;
    while i < n
        invariant
            i <= n,
            n == s@.len(),
            v@ =~= s@.subrange(0, i as int),
        decreases n - i,
    {
        v.push(s.get_char(i));
        i = i + 1;
    }
    proof {
        assert(v@ =~= s@);
    }
    v
}

/// Build a string from a vector of characters.
pub fn chars_to_string(v: &Vec<char>) -> (s: String)
    ensures
        s@ == v@,
{
    let mut s = String::new();
    let mut i: usize = 0;
    while i < v.len()
        invariant
            i <= v@.len(),
            s@ =~= v@.subrange(0, i as int),
        decreases v@.len() - i,
    {
        s.push(v[i]);
        i = i + 1;
    }
    proof {
        assert(s@ =~= v@);
    }
    s
}

/// Whether a character is a decimal digit.
pub open spec fn spec_is_digit(c: char) -> bool {
    48 <= c as u32 <= 57
}

/// The numeric value of a decimal digit character.
pub open spec fn spec_digit_val(c: char) -> nat {
    ((c as u32) - 48) as nat
}

/// The digit character for a value below ten.
pub open spec fn spec_digit_char(d: nat) -> char {
    if d == 0 {
        '0'
    } else if d == 1 {
        '1'
    } else if d == 2 {
        '2'
    } else if d == 3 {
        '3'
    } else if d == 4 {
        '4'
    } else if d == 5 {
        '5'
    } else if d == 6 {
        '6'
    } else if d == 7 {
        '7'
    } else if d == 8 {
        '8'
    } else {
        '9'
    }
}

/// The decimal notation of `n`, most significant digit first, without
/// leading zeros (a single `'0'` for zero).
pub open spec fn spec_dec_digits(n: nat) -> Seq<char>
    decreases n,
{
    if n < 10 {
        seq![spec_digit_char(n)]
    } else {
        spec_dec_digits(n / 10).push(spec_digit_char(n % 10))
    }
}

/// The number a digit string denotes, most significant digit first.
pub open spec fn spec_dec_value(s: Seq<char>) -> nat
    decreases s.len(),
{
    if s.len() == 0 {
        0
    } else {
        spec_dec_value(s.drop_last()) * 10 + spec_digit_val(s.last())
    }
}

/// A digit string is worth at least any of its prefixes.
pub proof fn lemma_dec_value_prefix(s: Seq<char>, i: int)
    requires
        0 <= i <= s.len(),
    ensures
        spec_dec_value(s.take(i)) <= spec_dec_value(s),
    decreases s.len() - i,
{
    if i < s.len() {
        assert(s.take(i + 1).drop_last() =~= s.take(i));
        assert(s.take(i + 1).last() == s[i]);
        lemma_dec_value_prefix(s, i + 1);
    } else {
        assert(s.take(i) =~= s);
    }
}

/// The digit character for a value below ten.
pub fn digit_char(d: usize) -> (c: char)
    requires
        d < 10,
    ensures
        c == spec_digit_char(d as nat),
{
    if d == 0 {
        '0'
    } else if d == 1 {
        '1'
    } else if d == 2 {
        '2'
    } else if d == 3 {
        '3'
    } else if d == 4 {
        '4'
    } else if d == 5 {
        '5'
    } else if d == 6 {
        '6'
    } else if d == 7 {
        '7'
    } else if d == 8 {
        '8'
    } else {
        '9'
    }
}

/// Append the decimal notation of `n` to `s`.
pub fn push_dec_digits(s: &mut String, n: usize)
    ensures
        final(s)@ == old(s)@ + spec_dec_digits(n as nat),
    decreases n,
{
    if n >= 10 {
        push_dec_digits(s, n / 10);
    }
    s.push(digit_char(n % 10));
    proof {
        if n < 10 {
            assert(old(s)@.push(spec_digit_char(n as nat)) =~= old(s)@ + spec_dec_digits(
                n as nat,
            ));
        } else {
            assert((old(s)@ + spec_dec_digits(n as nat / 10)).push(
                spec_digit_char(n as nat % 10),
            ) =~= old(s)@ + spec_dec_digits(n as nat));
        }
    }
}

/// The decimal notation of `n` as a string.
pub fn usize_to_string(n: usize) -> (s: String)
    ensures
        s@ == spec_dec_digits(n as nat),
{
    let mut s = String::new();
    push_dec_digits(&mut s, n);
    proof {
        assert(s@ =~= spec_dec_digits(n as nat));
    }
    s
}

/// Whether every character of `s` is a decimal digit.
pub open spec fn spec_all_digits(s: Seq<char>) -> bool {
    forall|i: int| 0 <= i < s.len() ==> spec_is_digit(s[i])
}

/// The digit part of a number notation: an optional leading plus sign is
/// dropped, as std's integer parsing does.
pub open spec fn spec_digits_part(s: Seq<char>) -> Seq<char> {
    if s.len() > 0 && s[0] == '+' {
        s.drop_first()
    } else {
        s
    }
}

/// Whether `s` denotes a number representable as a `usize`: an optional
/// plus sign, then at least one digit, with a value in range.
pub open spec fn spec_parse_ok(s: Seq<char>) -> bool {
    let ds = spec_digits_part(s);
    ds.len() > 0 && spec_all_digits(ds) && spec_dec_value(ds) <= usize::MAX
}

/// Whether a character is a decimal digit.
pub fn is_digit(c: char) -> (r: bool)
    ensures
        r == spec_is_digit(c),
{
    let u = c as u32;
    48 <= u && u <= 57
}

/// Parse the characters `v[from..to]` as a decimal `usize`.
pub fn parse_usize_range(v: &Vec<char>, from: usize, to: usize) -> (r: Option<usize>)
    requires
        from <= to <= v@.len(),
    ensures
        match r {
            Option::Some(n) => spec_parse_ok(v@.subrange(from as int, to as int)) && n
                == spec_dec_value(spec_digits_part(v@.subrange(from as int, to as int))),
            Option::None => !spec_parse_ok(v@.subrange(from as int, to as int)),
        },
{
    let ghost sub = v@.subrange(from as int, to as int);
    let mut i: usize = from;
    if i < to && v[i] == '+' {
        i = i + 1;
    }
    let ghost d0 = i as int;
    let ghost ds = spec_digits_part(sub);
    proof {
        assert(ds =~= v@.subrange(d0, to as int));
    }
    if i == to {
        return None;
    }
    let mut acc: usize = 0;
    while i < to
        invariant
            0 <= from as int <= d0 <= i <= to <= v@.len(),
            ds == v@.subrange(d0, to as int),
            ds == spec_digits_part(v@.subrange(from as int, to as int)),
            spec_all_digits(v@.subrange(d0, i as int)),
            acc == spec_dec_value(v@.subrange(d0, i as int)),
        decreases to - i,
    {
        let c = v[i];
        if !is_digit(c) {
            proof {
                assert(ds[i - d0] == c);
            }
            return None;
        }
        let d: usize = ((c as u32) - 48) as usize;
        let q: usize = (usize::MAX - d) / 10;
        proof {
            vstd::arithmetic::div_mod::lemma_fundamental_div_mod((usize::MAX - d) as int, 10);
            assert(v@.subrange(d0, i as int + 1).drop_last() =~= v@.subrange(d0, i as int));
            assert(v@.subrange(d0, i as int + 1).last() == c);
        }
        if acc > q {
            proof {
                assert(spec_dec_value(v@.subrange(d0, i as int + 1)) > usize::MAX);
                assert(ds.take(i - d0 + 1) =~= v@.subrange(d0, i as int + 1));
                lemma_dec_value_prefix(ds, i - d0 + 1);
            }
            return None;
        }
        acc = acc * 10 + d;
        i = i + 1;
    }
    proof {
        assert(v@.subrange(d0, to as int) =~= ds);
    }
    Some(acc)
}

/// Parse a string as a decimal `usize`, as std's parsing reads it: an
/// optional plus sign, then digits.
pub fn parse_usize(s: &str) -> (r: Option<usize>)
    ensures
        match r {
            Option::Some(n) => spec_parse_ok(s@) && n == spec_dec_value(spec_digits_part(s@)),
            Option::None => !spec_parse_ok(s@),
        },
{
    let v = str_chars(s);
    proof {
        assert(v@.subrange(0, v@.len() as int) =~= s@);
    }
    parse_usize_range(&v, 0, v.len())
}

/// The characters of `s` after its last occurrence of `sep`; all of `s`
/// if `sep` does not occur.
pub open spec fn spec_after_last(s: Seq<char>, sep: char) -> Seq<char>
    decreases s.len(),
{
    if s.len() == 0 {
        s
    } else if s.last() == sep {
        Seq::empty()
    } else {
        spec_after_last(s.drop_last(), sep).push(s.last())
    }
}

/// The characters of `s` before its last occurrence of `sep`; empty if
/// `sep` does not occur.
pub open spec fn spec_before_last(s: Seq<char>, sep: char) -> Seq<char>
    decreases s.len(),
{
    if s.len() == 0 {
        s
    } else if s.last() == sep {
        s.drop_last()
    } else {
        spec_before_last(s.drop_last(), sep)
    }
}

/// The characters of `s` before its first occurrence of `sep`; all of
/// `s` if `sep` does not occur.
pub open spec fn spec_before_first(s: Seq<char>, sep: char) -> Seq<char>
    decreases s.len(),
{
    if s.len() == 0 {
        s
    } else if s[0] == sep {
        Seq::empty()
    } else {
        seq![s[0]] + spec_before_first(s.drop_first(), sep)
    }
}

/// Where `sep` occurs last in `s`, the split around that occurrence is
/// given by subranges.
pub proof fn lemma_split_last(s: Seq<char>, sep: char, k: int)
    requires
        0 <= k < s.len(),
        s[k] == sep,
        forall|j: int| k < j < s.len() ==> s[j] != sep,
    ensures
        spec_after_last(s, sep) == s.subrange(k + 1, s.len() as int),
        spec_before_last(s, sep) == s.subrange(0, k),
    decreases s.len(),
{
    if k == s.len() - 1 {
        assert(s.subrange(k + 1, s.len() as int) =~= Seq::<char>::empty());
        assert(s.subrange(0, k) =~= s.drop_last());
    } else {
        lemma_split_last(s.drop_last(), sep, k);
        assert(s.drop_last().subrange(k + 1, s.drop_last().len() as int).push(s.last()) =~= (
        s.subrange(k + 1, s.len() as int)));
        assert(s.drop_last().subrange(0, k) =~= s.subrange(0, k));
    }
}

/// Where `sep` does not occur in `s` at all.
pub proof fn lemma_split_none(s: Seq<char>, sep: char)
    requires
        forall|j: int| 0 <= j < s.len() ==> s[j] != sep,
    ensures
        spec_after_last(s, sep) == s,
        spec_before_last(s, sep) == Seq::<char>::empty(),
    decreases s.len(),
{
    if s.len() > 0 {
        lemma_split_none(s.drop_last(), sep);
        assert(s.drop_last().push(s.last()) =~= s);
    }
}

/// Where `sep` occurs first in `s`, the part before it is a prefix
/// subrange.
pub proof fn lemma_split_first(s: Seq<char>, sep: char, k: int)
    requires
        0 <= k < s.len(),
        s[k] == sep,
        forall|j: int| 0 <= j < k ==> s[j] != sep,
    ensures
        spec_before_first(s, sep) == s.subrange(0, k),
    decreases s.len(),
{
    if k == 0 {
        assert(s.subrange(0, 0) =~= Seq::<char>::empty());
    } else {
        lemma_split_first(s.drop_first(), sep, k - 1);
        assert(s.drop_first().subrange(0, k - 1) =~= s.subrange(1, k));
        assert(seq![s[0]] + s.subrange(1, k) =~= s.subrange(0, k));
    }
}

/// Where `sep` does not occur in `s`, everything is before the first
/// occurrence.
pub proof fn lemma_split_first_none(s: Seq<char>, sep: char)
    requires
        forall|j: int| 0 <= j < s.len() ==> s[j] != sep,
    ensures
        spec_before_first(s, sep) == s,
    decreases s.len(),
{
    if s.len() > 0 {
        lemma_split_first_none(s.drop_first(), sep);
        assert(seq![s[0]] + s.drop_first() =~= s);
    }
}

/// The index of the last occurrence of `sep` in `v`, if any.
pub fn find_last_char(v: &Vec<char>, sep: char) -> (r: Option<usize>)
    ensures
        match r {
            Option::Some(k) => k < v@.len() && v@[k as int] == sep && (forall|j: int|
                k < j < v@.len() ==> v@[j] != sep),
            Option::None => forall|j: int| 0 <= j < v@.len() ==> v@[j] != sep,
        },
{
    let mut i: usize = v.len();
    while i > 0
        invariant
            i <= v@.len(),
            forall|j: int| i <= j < v@.len() ==> v@[j] != sep,
        decreases i,
    {
        i = i - 1;
        if v[i] == sep {
            return Some(i);
        }
    }
    None
}

/// The index of the first occurrence of `sep` in `v`, if any.
pub fn find_first_char(v: &Vec<char>, sep: char) -> (r: Option<usize>)
    ensures
        match r {
            Option::Some(k) => k < v@.len() && v@[k as int] == sep && (forall|j: int|
                0 <= j < k ==> v@[j] != sep),
            Option::None => forall|j: int| 0 <= j < v@.len() ==> v@[j] != sep,
        },
{
    let mut i: usize = 0;
    while i < v.len()
        invariant
            i <= v@.len(),
            forall|j: int| 0 <= j < i ==> v@[j] != sep,
        decreases v@.len() - i,
    {
        if v[i] == sep {
            return Some(i);
        }
        i = i + 1;
    }
    None
}

/// The index of the first occurrence of `sep` in `v` at or after `from`,
/// if any.
pub fn find_first_char_from(v: &Vec<char>, from: usize, sep: char) -> (r: Option<usize>)
    requires
        from <= v@.len(),
    ensures
        match r {
            Option::Some(k) => from <= k < v@.len() && v@[k as int] == sep && (forall|j: int|
                from <= j < k ==> v@[j] != sep),
            Option::None => forall|j: int| from <= j < v@.len() ==> v@[j] != sep,
        },
{
    let mut i: usize = from;
    while i < v.len()
        invariant
            from <= i <= v@.len(),
            forall|j: int| from <= j < i ==> v@[j] != sep,
        decreases v@.len() - i,
    {
        if v[i] == sep {
            return Some(i);
        }
        i = i + 1;
    }
    None
}

/// Build a string from the characters `v[from..to]`.
pub fn chars_range_to_string(v: &Vec<char>, from: usize, to: usize) -> (s: String)
    requires
        from <= to <= v@.len(),
    ensures
        s@ == v@.subrange(from as int, to as int),
{
    let mut s = String::new();
    let mut i: usize = from;
    while i < to
        invariant
            from <= i <= to <= v@.len(),
            s@ =~= v@.subrange(from as int, i as int),
        decreases to - i,
    {
        s.push(v[i]);
        proof {
            assert(v@.subrange(from as int, i as int).push(v@[i as int]) =~= v@.subrange(
                from as int,
                i as int + 1,
            ));
        }
        i = i + 1;
    }
    s
}

/// Character-wise equality of two string slices.
pub fn str_eq(a: &str, b: &str) -> (r: bool)
    ensures
        r == (a@ == b@),
{
    let an: usize = a.unicode_len();
    let bn: usize = b.unicode_len();
    if an != bn {
        proof {
            assert(a@ != b@) by {
                if a@ == b@ {
                    assert(a@.len() == b@.len());
                }
            }
        }
        return false;
    }
    let mut i: usize = 0;
    while i < an
        invariant
            i <= an,
            an == a@.len(),
            an == b@.len(),
            forall|j: int| 0 <= j < i ==> a@[j] == b@[j],
        decreases an - i,
    {
        if a.get_char(i) != b.get_char(i) {
            return false;
        }
        i = i + 1;
    }
    proof {
        assert(a@ =~= b@);
    }
    true
}

} // verus!
