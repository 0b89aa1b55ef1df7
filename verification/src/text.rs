//! Character-level text utilities: conversion between strings and character
//! vectors, and decimal rendering of integers for diagnostic messages.

use vstd::prelude::*;

verus! {

/// Collects the characters of a string into a vector, in order.
pub fn str_to_chars(s: &str) -> (v: Vec<char>)
    ensures
        v@ == s@,
{
    let n = s.unicode_len();
    let mut v: Vec<char> = Vec::new();
    let mut i: usize = 0;
    while i < n
        invariant
            i <= n,
            n == s@.len(),
            v@ == s@.subrange(0, i as int),
        decreases n - i,
    {
        v.push(s.get_char(i));
        proof {
            assert(v@ =~= s@.subrange(0, i + 1 as int));
        }
        i = i + 1;
    }
    proof {
        assert(v@ =~= s@);
    }
    v
}

/// Appends the characters of a string to a character vector.
pub fn push_str_chars(out: &mut Vec<char>, s: &str)
    ensures
        final(out)@ == old(out)@ + s@,
{
    let ghost base = out@;
    let n = s.unicode_len();
    let mut i: usize = 0;
    while i < n
        invariant
            i <= n,
            n == s@.len(),
            out@ == base + s@.subrange(0, i as int),
        decreases n - i,
    {
        out.push(s.get_char(i));
        proof {
            assert(out@ =~= base + s@.subrange(0, i + 1 as int));
        }
        i = i + 1;
    }
    proof {
        assert(out@ =~= base + s@);
    }
}

/// Relies on `String`'s `FromIterator<char>`: collecting characters yields
/// the string of exactly those characters, in order.
#[verifier::external_body]
pub fn chars_to_string(v: &Vec<char>) -> (s: String)
    ensures
        s@ == v@,
{
    v.iter().collect()
}

/// Clones a vector of strings; the copy holds the very same strings.
pub fn clone_string_vec(v: &Vec<String>) -> (r: Vec<String>)
    ensures
        r@ == v@,
        r.deep_view() == v.deep_view(),
{
    let r = v.clone();
    proof {
        assert forall|i: int| 0 <= i < v@.len() implies r@[i] == v@[i] by {
            assert(cloned::<String>(v@[i], r@[i]));
        }
        assert(r@ =~= v@);
        assert(r.deep_view() =~= v.deep_view());
    }
    r
}

/// Some position holds character `c`.
pub open spec fn contains_char(s: Seq<char>, c: char) -> bool {
    exists|i: int| 0 <= i < s.len() && s[i] == c
}

/// The first position holding `c`, or the length when none does.
pub open spec fn spec_find_char(s: Seq<char>, c: char) -> int
    decreases s.len(),
{
    if s.len() == 0 {
        0
    } else if s[0] == c {
        0
    } else {
        1 + spec_find_char(s.drop_first(), c)
    }
}

/// What `spec_find_char` returns: the first occurrence of `c`, or the length
/// when `c` does not occur.
pub proof fn lemma_find_char(s: Seq<char>, c: char)
    ensures
        0 <= spec_find_char(s, c) <= s.len(),
        spec_find_char(s, c) < s.len() ==> s[spec_find_char(s, c)] == c,
        forall|k: int| 0 <= k < spec_find_char(s, c) ==> s[k] != c,
        contains_char(s, c) <==> spec_find_char(s, c) < s.len(),
    decreases s.len(),
{
    if s.len() == 0 {
        assert(!contains_char(s, c));
    } else if s[0] == c {
    } else {
        lemma_find_char(s.drop_first(), c);
        let f = spec_find_char(s, c);
        assert(forall|k: int| 1 <= k < f ==> s[k] == s.drop_first()[k - 1]);
        if f < s.len() {
            assert(s[f] == s.drop_first()[f - 1]);
        } else {
            assert forall|i: int| 0 <= i < s.len() implies s[i] != c by {
                if i > 0 {
                    assert(s[i] == s.drop_first()[i - 1]);
                }
            }
        }
        if contains_char(s.drop_first(), c) {
            let w = choose|i: int| 0 <= i < s.drop_first().len() && s.drop_first()[i] == c;
            assert(s[w + 1] == c);
        }
    }
}

/// The slice of a character vector as a fresh vector.
pub fn subvec(v: &Vec<char>, from: usize, to: usize) -> (r: Vec<char>)
    requires
        from <= to <= v@.len(),
    ensures
        r@ == v@.subrange(from as int, to as int),
{
    let mut r: Vec<char> = Vec::new();
    let mut i: usize = from;
    while i < to
        invariant
            from <= i <= to <= v@.len(),
            r@ == v@.subrange(from as int, i as int),
        decreases to - i,
    {
        r.push(v[i]);
        proof {
            assert(r@ =~= v@.subrange(from as int, i + 1 as int));
        }
        i = i + 1;
    }
    r
}

/// The comma-separated pieces of a sequence, in order, empty pieces kept.
pub open spec fn spec_split_commas(s: Seq<char>) -> Seq<Seq<char>>
    decreases s.len(),
{
    let i = spec_find_char(s, ',');
    if 0 <= i < s.len() {
        seq![s.subrange(0, i)] + spec_split_commas(s.subrange(i + 1, s.len() as int))
    } else {
        seq![s]
    }
}

/// Splits a string at its commas, keeping empty pieces.
pub fn split_commas(s: &str) -> (r: Vec<String>)
    ensures
        r.deep_view() == spec_split_commas(s@),
{
    let chars = str_to_chars(s);
    let ghost whole = chars@;
    let mut r: Vec<String> = Vec::new();
    let mut seg: usize = 0;
    let mut j: usize = 0;
    proof {
        assert(whole.subrange(0, whole.len() as int) =~= whole);
        assert(r.deep_view() + spec_split_commas(whole) =~= spec_split_commas(whole));
    }
    while j < chars.len()
        invariant
            seg <= j <= chars@.len(),
            chars@ == whole,
            whole == s@,
            forall|k: int| seg <= k < j ==> whole[k] != ',',
            r.deep_view() + spec_split_commas(whole.subrange(seg as int, whole.len() as int))
                == spec_split_commas(whole),
        decreases chars@.len() - j,
    {
        if chars[j] == ',' {
            let piece = subvec(&chars, seg, j);
            let ghost before = r.deep_view();
            r.push(chars_to_string(&piece));
            proof {
                let sub = whole.subrange(seg as int, whole.len() as int);
                lemma_find_char(sub, ',');
                let f = spec_find_char(sub, ',');
                assert(sub[j - seg] == ',');
                assert(contains_char(sub, ','));
                assert forall|k: int| 0 <= k < j - seg implies sub[k] != ',' by {
                    assert(sub[k] == whole[seg + k]);
                }
                if f < j - seg {
                    assert(sub[f] != ',');
                }
                assert(f == j - seg);
                assert(sub.subrange(0, f) =~= whole.subrange(seg as int, j as int));
                assert(sub.subrange(f + 1, sub.len() as int) =~= whole.subrange(
                    j + 1 as int,
                    whole.len() as int,
                ));
                assert(r.deep_view() =~= before.push(piece@));
                assert(r.deep_view() + spec_split_commas(
                    whole.subrange(j + 1 as int, whole.len() as int),
                ) =~= spec_split_commas(whole));
            }
            seg = j + 1;
        }
        j = j + 1;
    }
    let last = subvec(&chars, seg, chars.len());
    let ghost before = r.deep_view();
    r.push(chars_to_string(&last));
    proof {
        let sub = whole.subrange(seg as int, whole.len() as int);
        lemma_find_char(sub, ',');
        if contains_char(sub, ',') {
            let w = choose|k: int| 0 <= k < sub.len() && sub[k] == ',';
            assert(whole[seg + w] == ',');
        }
        assert(spec_find_char(sub, ',') == sub.len());
        assert(spec_split_commas(sub) == seq![sub]);
        assert(r.deep_view() =~= before.push(last@));
        assert(r.deep_view() =~= spec_split_commas(whole));
    }
    r
}

/// Compares two string slices by their character sequences.
pub fn str_eq(a: &str, b: &str) -> (r: bool)
    ensures
        r == (a@ == b@),
{
    let sa = String::from_str(a);
    let sb = String::from_str(b);
    sa == sb
}

/// The decimal digit character for a value below ten.
pub open spec fn spec_digit_char(d: int) -> char {
    if d == 0 {
        '0'
    } else if d == 1 {
        '1'
    } else if d == 2 {
        '2'
    } else if d == 3 {
        '3'
    } else if d == 4 {
        '4'
    } else if d == 5 {
        '5'
    } else if d == 6 {
        '6'
    } else if d == 7 {
        '7'
    } else if d == 8 {
        '8'
    } else {
        '9'
    }
}

/// The decimal rendering of a non-negative integer, most significant digit
/// first, with no leading zeros (zero itself renders as "0").
pub open spec fn spec_dec_digits(n: int) -> Seq<char>
    decreases n,
{
    if n < 10 {
        seq![spec_digit_char(n)]
    } else {
        spec_dec_digits(n / 10) + seq![spec_digit_char(n % 10)]
    }
}

fn digit_char(d: u64) -> (c: char)
    requires
        d < 10,
    ensures
        c == spec_digit_char(d as int),
{
    match d {
        0 => '0',
        1 => '1',
        2 => '2',
        3 => '3',
        4 => '4',
        5 => '5',
        6 => '6',
        7 => '7',
        8 => '8',
        _ => '9',
    }
}

/// Renders a non-negative integer in decimal as characters.
pub fn u64_to_chars(n: u64) -> (v: Vec<char>)
    ensures
        v@ == spec_dec_digits(n as int),
    decreases n,
{
    if n < 10 {
        let mut v: Vec<char> = Vec::new();
        v.push(digit_char(n));
        proof {
            assert(v@ =~= spec_dec_digits(n as int));
        }
        v
    } else {
        let mut v = u64_to_chars(n / 10);
        v.push(digit_char(n % 10));
        proof {
            assert(v@ =~= spec_dec_digits(n as int));
        }
        v
    }
}

/// The sequence padded at the front with zeros up to width `w`.
pub open spec fn spec_pad_front(s: Seq<char>, w: int) -> Seq<char>
    decreases (if s.len() < w {
        w - s.len()
    } else {
        0int
    }),
{
    if s.len() < w {
        spec_pad_front(seq!['0'] + s, w)
    } else {
        s
    }
}

/// The decimal degrees a micro-degree count denotes: the sign, the whole
/// degrees, a point and six fractional digits.
pub open spec fn spec_micro_degrees(v: int) -> Seq<char> {
    let sign: Seq<char> = if v < 0 {
        seq!['-']
    } else {
        Seq::<char>::empty()
    };
    let a = if v < 0 {
        -v
    } else {
        v
    };
    sign + spec_dec_digits(a / 1000000) + seq!['.'] + spec_pad_front(spec_dec_digits(a % 1000000), 6)
}

/// Appends a micro-degree count rendered as decimal degrees.
pub fn push_micro_degrees(out: &mut Vec<char>, v: i64)
    ensures
        final(out)@ == old(out)@ + spec_micro_degrees(v as int),
{
    let ghost base = out@;
    let a: u64 = if v == i64::MIN {
        9223372036854775808u64
    } else if v < 0 {
        (-v) as u64
    } else {
        v as u64
    };
    if v < 0 {
        out.push('-');
    }
    let ghost with_sign = out@;
    let whole = u64_to_chars(a / 1000000);
    let mut j: usize = 0;
    while j < whole.len()
        invariant
            j <= whole@.len(),
            out@ == with_sign + whole@.subrange(0, j as int),
        decreases whole@.len() - j,
    {
        out.push(whole[j]);
        proof {
            assert(out@ =~= with_sign + whole@.subrange(0, j + 1 as int));
        }
        j = j + 1;
    }
    proof {
        assert(whole@.subrange(0, whole@.len() as int) =~= whole@);
    }
    out.push('.');
    let frac = u64_to_chars(a % 1000000);
    let mut padded = frac;
    while padded.len() < 6
        invariant
            spec_pad_front(padded@, 6) == spec_pad_front(
                spec_dec_digits((a % 1000000) as int),
                6,
            ),
        decreases 6 - padded@.len(),
    {
        let ghost before = padded@;
        padded.insert(0, '0');
        proof {
            assert(padded@ =~= seq!['0'] + before);
        }
    }
    let ghost with_dot = out@;
    let mut k: usize = 0;
    while k < padded.len()
        invariant
            k <= padded@.len(),
            out@ == with_dot + padded@.subrange(0, k as int),
        decreases padded@.len() - k,
    {
        out.push(padded[k]);
        proof {
            assert(out@ =~= with_dot + padded@.subrange(0, k + 1 as int));
        }
        k = k + 1;
    }
    proof {
        assert(padded@.subrange(0, padded@.len() as int) =~= padded@);
        assert(padded@ == spec_pad_front(spec_dec_digits((a % 1000000) as int), 6));
        assert(a as int == (if v < 0 {
            -(v as int)
        } else {
            v as int
        }));
        assert(out@ =~= base + spec_micro_degrees(v as int));
    }
}

} // verus!

