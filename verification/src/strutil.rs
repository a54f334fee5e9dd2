//! Verified character-level string predicates: substring containment,
//! prefix tests, equality, and parsing of unsigned decimal numerals.

use vstd::prelude::*;

verus! {

/// `needle` occurs in `hay` at offset `i`.
pub open spec fn seq_contains_at(hay: Seq<char>, needle: Seq<char>, i: int) -> bool {
    0 <= i && i + needle.len() <= hay.len() && hay.subrange(i, i + needle.len()) == needle
}

/// `needle` occurs somewhere in `hay`.
pub open spec fn seq_contains(hay: Seq<char>, needle: Seq<char>) -> bool {
    exists|i: int| seq_contains_at(hay, needle, i)
}

/// `s` begins with `prefix`.
pub open spec fn seq_starts_with(s: Seq<char>, prefix: Seq<char>) -> bool {
    prefix.len() <= s.len() && s.subrange(0, prefix.len() as int) == prefix
}

/// Whether `hay` matches `needle` character-for-character at offset `i`.
fn matches_at(hay: &str, needle: &str, i: usize) -> (r: bool)
    requires
        i + needle@.len() <= hay@.len(),
        hay@.len() <= usize::MAX,
    ensures
        r == seq_contains_at(hay@, needle@, i as int),
{
    let nl = needle.unicode_len();
    let mut k: usize = 0;
    while k < nl
        invariant
            0 <= k <= nl,
            nl == needle@.len(),
            i + nl <= hay@.len(),
            hay@.len() <= usize::MAX,
            forall|t: int| 0 <= t < k ==> hay@[i + t] == needle@[t],
        decreases nl - k,
    {
        if hay.get_char(i + k) != needle.get_char(k) {
            proof {
                assert(!seq_contains_at(hay@, needle@, i as int)) by {
                    if hay@.subrange(i as int, i + needle@.len()) == needle@ {
                        assert(hay@.subrange(i as int, i + needle@.len())[k as int]
                            == hay@[i + k]);
                    }
                }
            }
            return false;
        }
        k += 1;
    }
    proof {
        assert(hay@.subrange(i as int, i + needle@.len()) =~= needle@);
    }
    true
}

/// Whether `needle` occurs anywhere in `hay`.
pub fn str_contains(hay: &str, needle: &str) -> (r: bool)
    ensures
        r == seq_contains(hay@, needle@),
{
    let hl = hay.unicode_len();
    let nl = needle.unicode_len();
    if nl > hl {
        proof {
            assert(forall|i: int| !seq_contains_at(hay@, needle@, i));
        }
        return false;
    }
    if nl == 0 {
        proof {
            assert(hay@.subrange(0, 0) =~= needle@);
            assert(seq_contains_at(hay@, needle@, 0));
        }
        return true;
    }
    let mut i: usize = 0;
    while i <= hl - nl
        invariant
            hl == hay@.len(),
            nl == needle@.len(),
            1 <= nl <= hl,
            0 <= i <= hl - nl + 1,
            forall|j: int| 0 <= j < i ==> !seq_contains_at(hay@, needle@, j),
        decreases hl - nl + 1 - i,
    {
        if matches_at(hay, needle, i) {
            return true;
        }
        i += 1;
    }
    proof {
        assert(forall|j: int| !seq_contains_at(hay@, needle@, j));
    }
    false
}

/// Whether `s` begins with `prefix`.
pub fn str_starts_with(s: &str, prefix: &str) -> (r: bool)
    ensures
        r == seq_starts_with(s@, prefix@),
{
    let sl = s.unicode_len();
    let pl = prefix.unicode_len();
    if pl > sl {
        return false;
    }
    matches_at(s, prefix, 0)
}

/// Character-for-character equality of two string slices.
pub fn str_eq(a: &str, b: &str) -> (r: bool)
    ensures
        r == (a@ == b@),
{
    let al = a.unicode_len();
    let bl = b.unicode_len();
    if al != bl {
        return false;
    }
    let r = matches_at(a, b, 0);
    proof {
        if r {
            assert(a@.subrange(0, b@.len() as int) =~= a@);
        } else {
            if a@ == b@ {
                assert(a@.subrange(0, b@.len() as int) =~= b@);
            }
        }
    }
    r
}

/// The numeric value of a decimal digit; 10 marks a non-digit.
pub open spec fn digit_val(c: char) -> int {
    if '0' <= c <= '9' {
        c as int - '0' as int
    } else {
        10
    }
}

/// All characters of `s` are decimal digits.
pub open spec fn all_digits(s: Seq<char>) -> bool {
    forall|i: int| 0 <= i < s.len() ==> digit_val(#[trigger] s[i]) < 10
}

/// The unsigned integer a digit string denotes, most significant digit first.
pub open spec fn digits_value(s: Seq<char>) -> int
    decreases s.len(),
{
    if s.len() == 0 {
        0
    } else {
        digits_value(s.drop_last()) * 10 + digit_val(s.last())
    }
}

/// Parses a string of decimal digits as a `u64`. Returns `None` when `s` is
/// empty, holds a non-digit, or denotes a value above `u64::MAX`.
pub fn parse_u64(s: &str) -> (r: Option<u64>)
    ensures
        match r {
            Some(v) => s@.len() > 0 && all_digits(s@) && v == digits_value(s@),
            None => s@.len() == 0 || !all_digits(s@) || digits_value(s@) > u64::MAX,
        },
{
    let n = s.unicode_len();
    if n == 0 {
        return None;
    }
    let mut acc: u64 = 0;
    let mut i: usize = 0;
    while i < n
        invariant
            n == s@.len(),
            0 <= i <= n,
            all_digits(s@.subrange(0, i as int)),
            acc == digits_value(s@.subrange(0, i as int)),
        decreases n - i,
    {
        let c = s.get_char(i);
        if c < '0' || c > '9' {
            proof {
                assert(digit_val(s@[i as int]) == 10);
            }
            return None;
        }
        let d: u64 = (c as u32 - '0' as u32) as u64;
        if acc > (u64::MAX - d) / 10 {
            proof {
                let m = (u64::MAX - d) as int;
                vstd::arithmetic::div_mod::lemma_fundamental_div_mod(m, 10);
                assert(s@.subrange(0, i + 1).drop_last() =~= s@.subrange(0, i as int));
                assert(digits_value(s@.subrange(0, i + 1)) > u64::MAX);
                if all_digits(s@) {
                    lemma_digits_prefix_le(s@, i + 1);
                }
            }
            return None;
        }
        proof {
            assert(s@.subrange(0, i + 1).drop_last() =~= s@.subrange(0, i as int));
        }
        acc = acc * 10 + d;
        i += 1;
    }
    proof {
        assert(s@.subrange(0, n as int) =~= s@);
    }
    Some(acc)
}

/// The index of the first `'.'` in `s` at or after `i`, or `s.len()` when
/// there is none.
pub open spec fn first_dot(s: Seq<char>, i: int) -> int {
    first_at(s, i, '.')
}

/// A decimal numeral with an optional fractional part: one or more digits,
/// then optionally a dot and one or more digits.
pub open spec fn is_decimal(s: Seq<char>) -> bool {
    let d = first_dot(s, 0);
    &&& d > 0
    &&& all_digits(s.subrange(0, d))
    &&& (d < s.len() ==> d + 1 < s.len() && all_digits(s.subrange(d + 1, s.len() as int)))
}

/// The value of a fractional digit string in thousandths, flooring past the
/// third digit.
pub open spec fn frac_milli(f: Seq<char>) -> int {
    if f.len() == 0 {
        0
    } else if f.len() == 1 {
        digits_value(f) * 100
    } else if f.len() == 2 {
        digits_value(f) * 10
    } else {
        digits_value(f.subrange(0, 3))
    }
}

/// The value of a decimal numeral in thousandths of a unit.
pub open spec fn milli_value(s: Seq<char>) -> int {
    let d = first_dot(s, 0);
    digits_value(s.subrange(0, d)) * 1000 + (if d < s.len() {
        frac_milli(s.subrange(d + 1, s.len() as int))
    } else {
        0
    })
}

/// The index of the first occurrence of `c` in `s` at or after `i`, or
/// `s.len()` when there is none.
pub open spec fn first_at(s: Seq<char>, i: int, c: char) -> int
    decreases s.len() - i,
{
    if i < 0 || i >= s.len() {
        s.len() as int
    } else if s[i] == c {
        i
    } else {
        first_at(s, i + 1, c)
    }
}

/// Finds the first occurrence of `c`, or the length when there is none.
pub fn find_char(s: &str, c: char) -> (d: usize)
    ensures
        0 <= d <= s@.len(),
        d == first_at(s@, 0, c),
        forall|j: int| 0 <= j < d ==> s@[j] != c,
        d < s@.len() ==> s@[d as int] == c,
{
    let n = s.unicode_len();
    let mut i: usize = 0;
    while i < n
        invariant
            n == s@.len(),
            0 <= i <= n,
            forall|j: int| 0 <= j < i ==> s@[j] != c,
        decreases n - i,
    {
        if s.get_char(i) == c {
            proof {
                lemma_first_at_from(s@, 0, i as int, c);
            }
            return i;
        }
        i += 1;
    }
    proof {
        lemma_first_at_from(s@, 0, n as int, c);
    }
    n
}

proof fn lemma_first_at_from(s: Seq<char>, i: int, d: int, c: char)
    requires
        0 <= i <= d <= s.len(),
        forall|j: int| i <= j < d ==> s[j] != c,
        d < s.len() ==> s[d] == c,
    ensures
        first_at(s, i, c) == d,
    decreases d - i,
{
    if i < d {
        lemma_first_at_from(s, i + 1, d, c);
    }
}

/// Parses a decimal numeral (digits, optionally a dot and more digits) into
/// thousandths of a unit, flooring past the third fractional digit. `None`
/// when the string is not such a numeral or the value does not fit.
pub fn parse_milli(s: &str) -> (r: Option<u64>)
    ensures
        match r {
            Some(v) => is_decimal(s@) && v == milli_value(s@) && milli_value(s@)
                <= u64::MAX,
            None => !is_decimal(s@) || milli_value(s@) > u64::MAX,
        },
{
    let n = s.unicode_len();
    let d = find_char(s, '.');
    if d == 0 {
        return None;
    }
    let int_part = s.substring_char(0, d);
    let int_val = match parse_u64(int_part) {
        Some(v) => v,
        None => {
            proof {
                if is_decimal(s@) {
                    let ip = s@.subrange(0, d as int);
                    lemma_digits_value_nonneg(ip);
                    if d < n {
                        lemma_frac_milli_nonneg(s@.subrange(d + 1, n as int));
                    }
                    assert(digits_value(ip) * 1000 >= digits_value(ip))
                        by (nonlinear_arith)
                        requires
                            digits_value(ip) >= 0,
                    ;
                    assert(milli_value(s@) > u64::MAX);
                }
            }
            return None;
        },
    };
    let frac_scaled: u64 = if d < n {
        if d + 1 == n {
            return None;
        }
        let frac = s.substring_char(d + 1, n);
        let mut k: usize = 0;
        let flen = n - d - 1;
        while k < flen
            invariant
                n == s@.len(),
                0 < d < n,
                first_dot(s@, 0) == d as int,
                frac@ == s@.subrange(d + 1, n as int),
                flen == frac@.len(),
                0 <= k <= flen,
                all_digits(frac@.subrange(0, k as int)),
            decreases flen - k,
        {
            let c = frac.get_char(k);
            if c < '0' || c > '9' {
                proof {
                    assert(!all_digits(s@.subrange(d + 1, n as int))) by {
                        assert(digit_val(s@.subrange(d + 1, n as int)[k as int]) == 10);
                    }
                    assert(!is_decimal(s@));
                }
                return None;
            }
            proof {
                assert(frac@.subrange(0, k + 1) =~= frac@.subrange(0, k as int).push(
                    frac@[k as int],
                ));
                assert(all_digits(frac@.subrange(0, k + 1)));
            }
            k += 1;
        }
        proof {
            assert(frac@.subrange(0, flen as int) =~= frac@);
        }
        let take: usize = if flen > 3 {
            3
        } else {
            flen
        };
        let head = frac.substring_char(0, take);
        proof {
            assert(all_digits(head@)) by {
                assert(forall|j: int| 0 <= j < take ==> head@[j] == frac@[j]);
            }
            lemma_digits_le_bound(head@);
        }
        let fv = match parse_u64(head) {
            Some(v) => v,
            None => {
                proof {
                    assert(false);
                }
                return None;
            },
        };
        if flen == 1 {
            fv * 100
        } else if flen == 2 {
            fv * 10
        } else {
            fv
        }
    } else {
        0
    };
    proof {
        if d < n {
            lemma_frac_milli_nonneg(s@.subrange(d + 1, n as int));
        }
    }
    let cap: u64 = (u64::MAX - frac_scaled) / 1000;
    if int_val > cap {
        proof {
            let m = (u64::MAX - frac_scaled) as int;
            vstd::arithmetic::div_mod::lemma_fundamental_div_mod(m, 1000);
        }
        return None;
    }
    proof {
        let m = (u64::MAX - frac_scaled) as int;
        vstd::arithmetic::div_mod::lemma_fundamental_div_mod(m, 1000);
    }
    Some(int_val * 1000 + frac_scaled)
}

/// A digit string of at most three digits denotes less than a thousand;
/// more precisely, fewer digits stay under the matching power of ten.
proof fn lemma_digits_le_bound(s: Seq<char>)
    requires
        all_digits(s),
        s.len() <= 3,
    ensures
        0 <= digits_value(s) < 1000,
        s.len() <= 2 ==> digits_value(s) < 100,
        s.len() <= 1 ==> digits_value(s) < 10,
        s.len() == 0 ==> digits_value(s) == 0,
    decreases s.len(),
{
    if s.len() > 0 {
        assert(all_digits(s.drop_last())) by {
            assert(forall|i: int|
                0 <= i < s.drop_last().len() ==> s.drop_last()[i] == s[i]);
        }
        lemma_digits_le_bound(s.drop_last());
    }
}

/// A fractional part scales to a non-negative number of thousandths.
proof fn lemma_frac_milli_nonneg(f: Seq<char>)
    requires
        all_digits(f),
    ensures
        frac_milli(f) >= 0,
{
    if f.len() == 0 {
    } else if f.len() <= 2 {
        lemma_digits_value_nonneg(f);
    } else {
        assert(all_digits(f.subrange(0, 3))) by {
            assert(forall|i: int| 0 <= i < 3 ==> f.subrange(0, 3)[i] == f[i]);
        }
        lemma_digits_value_nonneg(f.subrange(0, 3));
    }
}

/// Any prefix of a digit string denotes at most what the whole denotes.
proof fn lemma_digits_prefix_le(s: Seq<char>, m: int)
    requires
        0 <= m <= s.len(),
        all_digits(s),
    ensures
        digits_value(s) >= digits_value(s.subrange(0, m)),
    decreases s.len() - m,
{
    if m == s.len() {
        assert(s.subrange(0, m) =~= s);
    } else {
        assert(s.subrange(0, m + 1).drop_last() =~= s.subrange(0, m));
        assert(all_digits(s.subrange(0, m))) by {
            assert(forall|i: int|
                0 <= i < m ==> s.subrange(0, m)[i] == s[i]);
        }
        lemma_digits_value_nonneg(s.subrange(0, m));
        assert(digits_value(s.subrange(0, m + 1))
            == digits_value(s.subrange(0, m)) * 10 + digit_val(s[m]));
        lemma_digits_prefix_le(s, m + 1);
    }
}

/// A digit string denotes a non-negative value.
proof fn lemma_digits_value_nonneg(s: Seq<char>)
    requires
        all_digits(s),
    ensures
        digits_value(s) >= 0,
    decreases s.len(),
{
    if s.len() > 0 {
        assert(all_digits(s.drop_last())) by {
            assert(forall|i: int|
                0 <= i < s.drop_last().len() ==> s.drop_last()[i] == s[i]);
        }
        lemma_digits_value_nonneg(s.drop_last());
    }
}

} // verus!
