//! Verified text utilities: substring and character search, character
//! removal, decimal rendering of integers, and exact parsing of integers
//! and booleans from free text.

use vstd::prelude::*;

verus! {

/// Whether the character `c` occurs in `s`.
pub open spec fn spec_contains_char(s: Seq<char>, c: char) -> bool {
    exists|i: int| 0 <= i < s.len() && s[i] == c
}

/// Whether `pat` occurs in `s` as a contiguous run.
pub open spec fn spec_contains_sub(s: Seq<char>, pat: Seq<char>) -> bool {
    exists|i: int|
        0 <= i && i + pat.len() <= s.len() && #[trigger] s.subrange(i, i + pat.len() as int)
            == pat
}

/// The position of the first occurrence of the character `c` in `s`.
pub open spec fn spec_find(s: Seq<char>, c: char) -> Option<int>
    decreases s.len(),
{
    if s.len() == 0 {
        None
    } else if s[0] == c {
        Some(0)
    } else {
        match spec_find(s.drop_first(), c) {
            Some(i) => Some(i + 1),
            None => None,
        }
    }
}

/// Where the first occurrence is, it is an occurrence, the earliest one, and
/// it lies inside the text; where there is none, no position holds `c`.
pub proof fn lemma_find_char(s: Seq<char>, c: char)
    ensures
        match spec_find(s, c) {
            Some(i) => 0 <= i < s.len() && s[i] == c && forall|j: int| 0 <= j < i ==> s[j] != c,
            None => forall|j: int| 0 <= j < s.len() ==> s[j] != c,
        },
    decreases s.len(),
{
    if s.len() > 0 && s[0] != c {
        lemma_find_char(s.drop_first(), c);
        assert forall|j: int| 1 <= j < s.len() implies s.drop_first()[j - 1] == s[j] by {}
    }
}

/// `s` with every occurrence of the character `c` removed.
pub open spec fn spec_remove_char(s: Seq<char>, c: char) -> Seq<char>
    decreases s.len(),
{
    if s.len() == 0 {
        Seq::empty()
    } else if s.last() == c {
        spec_remove_char(s.drop_last(), c)
    } else {
        spec_remove_char(s.drop_last(), c).push(s.last())
    }
}

pub fn str_eq(a: &str, b: &str) -> (r: bool)
    ensures
        r == (a@ == b@),
{
    a.to_owned() == b.to_owned()
}

/// Finds the first occurrence of a character.
pub fn find_char(s: &str, c: char) -> (r: Option<usize>)
    ensures
        match spec_find(s@, c) {
            Some(i) => r matches Some(j) && j == i,
            None => r is None,
        },
{
    proof {
        lemma_find_char(s@, c);
    }
    let n = s.unicode_len();
    for i in 0..n
        invariant
            n == s@.len(),
            forall|j: int| 0 <= j < i ==> s@[j] != c,
    {
        if s.get_char(i) == c {
            proof {
                lemma_find_char(s@, c);
                match spec_find(s@, c) {
                    Some(k) => {
                        assert(!(k < i) && !(k > i));
                    },
                    None => {
                        assert(s@[i as int] == c);
                    },
                }
            }
            return Some(i);
        }
    }
    proof {
        lemma_find_char(s@, c);
        match spec_find(s@, c) {
            Some(k) => {
                assert(s@[k] != c);
            },
            None => {},
        }
    }
    None
}

pub fn contains_char(s: &str, c: char) -> (r: bool)
    ensures
        r == spec_contains_char(s@, c),
{
    let n = s.unicode_len();
    for i in 0..n
        invariant
            n == s@.len(),
            forall|j: int| 0 <= j < i ==> s@[j] != c,
    {
        if s.get_char(i) == c {
            return true;
        }
    }
    false
}

/// Whether `pat` stands in `s` at position `at`.
fn matches_at(s: &str, pat: &str, at: usize) -> (r: bool)
    requires
        at + pat@.len() <= s@.len(),
    ensures
        r == (s@.subrange(at as int, at + pat@.len()) == pat@),
{
    let n = s.unicode_len();
    let m = pat.unicode_len();
    for j in 0..m
        invariant
            n == s@.len(),
            m == pat@.len(),
            at + m <= n,
            forall|k: int| 0 <= k < j ==> s@[at + k] == pat@[k],
    {
        if s.get_char(at + j) != pat.get_char(j) {
            assert(s@.subrange(at as int, at + pat@.len())[j as int] != pat@[j as int]);
            return false;
        }
    }
    assert(s@.subrange(at as int, at + pat@.len()) =~= pat@);
    true
}

pub fn contains_sub(s: &str, pat: &str) -> (r: bool)
    ensures
        r == spec_contains_sub(s@, pat@),
{
    let n = s.unicode_len();
    let m = pat.unicode_len();
    if m > n {
        return false;
    }
    if m == 0 {
        proof {
            assert(s@.subrange(0, 0 + pat@.len() as int) =~= pat@);
        }
        return true;
    }
    let end = n - m + 1;
    for i in 0..end
        invariant
            n == s@.len(),
            m == pat@.len(),
            0 < m <= n,
            end == n - m + 1,
            forall|ii: int|
                0 <= ii < i ==> #[trigger] s@.subrange(ii, ii + pat@.len()) != pat@,
    {
        if matches_at(s, pat, i) {
            return true;
        }
    }
    false
}

pub fn remove_char(s: &str, c: char) -> (r: String)
    ensures
        r@ == spec_remove_char(s@, c),
{
    let n = s.unicode_len();
    let mut out = String::new();
    for i in 0..n
        invariant
            n == s@.len(),
            out@ == spec_remove_char(s@.take(i as int), c),
    {
        proof {
            assert(s@.take(i + 1).drop_last() =~= s@.take(i as int));
            assert(s@.take(i + 1).last() == s@[i as int]);
        }
        if s.get_char(i) != c {
            out.append(s.substring_char(i, i + 1));
            proof {
                assert(s@.subrange(i as int, i + 1) =~= seq![s@[i as int]]);
                assert(out@ =~= spec_remove_char(s@.take(i + 1), c));
            }
        }
    }
    proof {
        assert(s@.take(n as int) =~= s@);
    }
    out
}

/// The decimal digit that the character stands for, counting from '0'.
pub open spec fn spec_digit_val(c: char) -> int {
    c as int - 48
}

pub open spec fn spec_is_digit(c: char) -> bool {
    48 <= c as int <= 57
}

/// The character for the decimal digit `d`.
pub open spec fn spec_digit_char(d: int) -> char {
    if d == 0 { '0' }
    else if d == 1 { '1' }
    else if d == 2 { '2' }
    else if d == 3 { '3' }
    else if d == 4 { '4' }
    else if d == 5 { '5' }
    else if d == 6 { '6' }
    else if d == 7 { '7' }
    else if d == 8 { '8' }
    else { '9' }
}

/// The decimal rendering of a natural number, most significant digit first.
pub open spec fn spec_dec_nat(n: nat) -> Seq<char>
    decreases n,
{
    if n < 10 {
        seq![spec_digit_char(n as int)]
    } else {
        spec_dec_nat(n / 10).push(spec_digit_char((n % 10) as int))
    }
}

/// The decimal rendering of an integer: a minus sign before the magnitude
/// when it is negative.
pub open spec fn spec_dec_int(i: int) -> Seq<char> {
    if i >= 0 {
        spec_dec_nat(i as nat)
    } else {
        seq!['-'].add(spec_dec_nat((-i) as nat))
    }
}

fn digit_str(d: u64) -> (r: &'static str)
    requires
        d < 10,
    ensures
        r@ =~= seq![spec_digit_char(d as int)],
{
    proof {
        reveal_strlit("0");
        reveal_strlit("1");
        reveal_strlit("2");
        reveal_strlit("3");
        reveal_strlit("4");
        reveal_strlit("5");
        reveal_strlit("6");
        reveal_strlit("7");
        reveal_strlit("8");
        reveal_strlit("9");
    }
    if d == 0 { "0" }
    else if d == 1 { "1" }
    else if d == 2 { "2" }
    else if d == 3 { "3" }
    else if d == 4 { "4" }
    else if d == 5 { "5" }
    else if d == 6 { "6" }
    else if d == 7 { "7" }
    else if d == 8 { "8" }
    else { "9" }
}

pub fn render_u64(n: u64) -> (r: String)
    ensures
        r@ == spec_dec_nat(n as nat),
    decreases n,
{
    if n < 10 {
        digit_str(n).to_owned()
    } else {
        let mut out = render_u64(n / 10);
        out.append(digit_str(n % 10));
        proof {
            assert(out@ =~= spec_dec_nat(n as nat));
        }
        out
    }
}

pub fn render_i64(i: i64) -> (r: String)
    ensures
        r@ == spec_dec_int(i as int),
{
    if i >= 0 {
        render_u64(i as u64)
    } else {
        let mag: u64 = ((-(i + 1)) as u64) + 1;
        assert(mag == -(i as int));
        let mut out = String::new();
        out.append("-");
        out.append(render_u64(mag).as_str());
        proof {
            reveal_strlit("-");
            assert(out@ =~= spec_dec_int(i as int));
        }
        out
    }
}

/// The value of a run of decimal digits, most significant first.
pub open spec fn spec_digits_val(s: Seq<char>) -> int
    decreases s.len(),
{
    if s.len() == 0 {
        0
    } else {
        spec_digits_val(s.drop_last()) * 10 + spec_digit_val(s.last())
    }
}

pub open spec fn spec_all_digits(s: Seq<char>) -> bool {
    forall|i: int| 0 <= i < s.len() ==> spec_is_digit(#[trigger] s[i])
}

/// What parsing an optionally signed decimal integer from `s` gives:
/// the digits after an optional single sign, or nothing when a character is
/// not a digit, no digit is there, or the value does not fit in `i64`.
pub open spec fn spec_parse_i64(s: Seq<char>) -> Option<i64> {
    let neg = s.len() > 0 && s[0] == '-';
    let digits = if s.len() > 0 && (s[0] == '-' || s[0] == '+') {
        s.drop_first()
    } else {
        s
    };
    if digits.len() == 0 || !spec_all_digits(digits) {
        None
    } else {
        let v = spec_digits_val(digits);
        if neg {
            if v <= 0x8000_0000_0000_0000 {
                Some((-v) as i64)
            } else {
                None
            }
        } else {
            if v <= 0x7FFF_FFFF_FFFF_FFFF {
                Some(v as i64)
            } else {
                None
            }
        }
    }
}

proof fn lemma_digits_val_nonneg(s: Seq<char>)
    requires
        spec_all_digits(s),
    ensures
        spec_digits_val(s) >= 0,
    decreases s.len(),
{
    if s.len() > 0 {
        assert(spec_all_digits(s.drop_last()));
        lemma_digits_val_nonneg(s.drop_last());
    }
}

/// A longer run of digits is worth at least as much as its prefix.
proof fn lemma_digits_val_prefix(s: Seq<char>, n: int)
    requires
        spec_all_digits(s),
        0 <= n <= s.len(),
    ensures
        spec_digits_val(s) >= spec_digits_val(s.take(n)),
    decreases s.len() - n,
{
    if n < s.len() {
        lemma_digits_val_prefix(s, n + 1);
        assert(s.take(n + 1).drop_last() =~= s.take(n));
        assert(spec_all_digits(s.take(n)));
        lemma_digits_val_nonneg(s.take(n));
        assert(spec_digits_val(s.take(n + 1)) >= spec_digits_val(s.take(n)));
    } else {
        assert(s.take(n) =~= s);
    }
}

/// Accumulates the value of the digit run `s[from..]`, or reports that the
/// whole value would pass `limit`.
fn digits_value(s: &str, from: usize, limit: u64) -> (r: Option<u64>)
    requires
        from <= s@.len(),
        s@.len() >= 1,
        from <= 1,
        limit >= 9,
    ensures
        ({
            let digits = s@.subrange(from as int, s@.len() as int);
            if digits.len() == 0 || !spec_all_digits(digits) {
                r is None
            } else if spec_digits_val(digits) <= limit {
                r == Some(spec_digits_val(digits) as u64)
            } else {
                r is None
            }
        }),
{
    let ghost digits = s@.subrange(from as int, s@.len() as int);
    let n = s.unicode_len();
    if from == n {
        return None;
    }
    let mut acc: u64 = 0;
    let mut i = from;
    while i < n
        invariant
            from < n,
            n == s@.len(),
            from <= i <= n,
            9 <= limit,
            digits == s@.subrange(from as int, s@.len() as int),
            spec_all_digits(digits.take(i - from)),
            acc == spec_digits_val(digits.take(i - from)),
            acc <= limit,
        decreases n - i,
    {
        let c = s.get_char(i);
        let u = c as u32;
        proof {
            assert(digits.take(i + 1 - from).drop_last() =~= digits.take(i - from));
            assert(digits.take(i + 1 - from).last() == s@[i as int]);
        }
        if u < 48 || u > 57 {
            assert(!spec_all_digits(digits)) by {
                assert(digits[i - from] == s@[i as int]);
            }
            return None;
        }
        let d = (u - 48) as u64;
        if acc > (limit - d) / 10 {
            proof {
                assert(spec_all_digits(digits.take(i + 1 - from)));
                lemma_digits_val_nonneg(digits.take(i + 1 - from));
                assert(spec_digits_val(digits.take(i + 1 - from)) > limit);
                if spec_all_digits(digits) {
                    lemma_digits_val_prefix(digits, i + 1 - from);
                }
            }
            return None;
        }
        assert(acc * 10 + d <= limit) by (nonlinear_arith)
            requires
                acc <= (limit - d) / 10,
                d <= limit,
                limit <= 0xFFFF_FFFF_FFFF_FFFF,
        ;
        acc = acc * 10 + d;
        i = i + 1;
    }
    proof {
        assert(digits.take(i - from) =~= digits);
    }
    Some(acc)
}

/// Parses an optionally signed decimal integer exactly; gives nothing when
/// the text is not such an integer or its value does not fit.
pub fn parse_i64(s: &str) -> (r: Option<i64>)
    ensures
        r == spec_parse_i64(s@),
{
    let n = s.unicode_len();
    if n == 0 {
        return None;
    }
    let first = s.get_char(0);
    let neg = first == '-';
    let signed = neg || first == '+';
    let from: usize = if signed { 1 } else { 0 };
    let ghost digits = if signed { s@.drop_first() } else { s@ };
    proof {
        assert(s@.subrange(from as int, s@.len() as int) =~= digits);
    }
    if neg {
        match digits_value(s, from, 0x8000_0000_0000_0000) {
            None => None,
            Some(v) => {
                proof {
                    lemma_digits_val_nonneg(digits);
                }
                if v == 0x8000_0000_0000_0000 {
                    Some(i64::MIN)
                } else {
                    Some(-(v as i64))
                }
            },
        }
    } else {
        match digits_value(s, from, 0x7FFF_FFFF_FFFF_FFFF) {
            None => None,
            Some(v) => {
                proof {
                    lemma_digits_val_nonneg(digits);
                }
                Some(v as i64)
            },
        }
    }
}

/// Parses a boolean exactly: the text `true` or the text `false` and
/// nothing else.
pub fn parse_bool(s: &str) -> (r: Option<bool>)
    ensures
        r == Some(true) <==> s@ == "true"@,
        r == Some(false) <==> s@ == "false"@,
        r is None <==> s@ != "true"@ && s@ != "false"@,
{
    proof {
        reveal_strlit("true");
        reveal_strlit("false");
        assert("true"@.len() == 4);
        assert("false"@.len() == 5);
    }
    if str_eq(s, "true") {
        Some(true)
    } else if str_eq(s, "false") {
        Some(false)
    } else {
        None
    }
}

} // verus!

