//! Character-level helpers: string equality and decimal parsing.

use vstd::prelude::*;

verus! {

/// A decimal digit `'0'..='9'`.
pub open spec fn is_digit(c: char) -> bool {
    '0' as u32 <= c as u32 && c as u32 <= '9' as u32
}

/// The numeric value of a decimal digit.
pub open spec fn digit_val(c: char) -> nat {
    (c as u32 - '0' as u32) as nat
}

/// A non-empty string of decimal digits.
pub open spec fn is_numeric_str(s: Seq<char>) -> bool {
    s.len() > 0 && forall|k: int| 0 <= k < s.len() ==> is_digit(#[trigger] s[k])
}

/// The number written in decimal by `s`, most significant digit first.
pub open spec fn str_to_nat(s: Seq<char>) -> nat
    decreases s.len(),
{
    if s.len() == 0 {
        0
    } else {
        str_to_nat(s.drop_last()) * 10 + digit_val(s.last())
    }
}

/// Extending a digit string by one digit multiplies its value by ten and
/// adds the new digit.
proof fn lemma_str_to_nat_step(s: Seq<char>, i: int)
    requires
        0 <= i < s.len(),
    ensures
        str_to_nat(s.take(i + 1)) == str_to_nat(s.take(i)) * 10 + digit_val(s[i]),
{
    let t = s.take(i + 1);
    assert(t.drop_last() =~= s.take(i));
    assert(t.last() == s[i]);
}

/// The value of a digit string is at least the value of any of its prefixes.
proof fn lemma_str_to_nat_prefix_le(s: Seq<char>, j: int)
    requires
        0 <= j <= s.len(),
        forall|k: int| j <= k < s.len() ==> is_digit(#[trigger] s[k]),
    ensures
        str_to_nat(s.take(j)) <= str_to_nat(s),
    decreases s.len() - j,
{
    if j == s.len() {
        assert(s.take(j) =~= s);
    } else {
        lemma_str_to_nat_step(s, j);
        lemma_str_to_nat_prefix_le(s, j + 1);
    }
}

/// Whether two string slices hold the same characters.
pub fn str_eq(a: &str, b: &str) -> (r: bool)
    ensures
        r == (a@ == b@),
{
    let la = a.unicode_len();
    let lb = b.unicode_len();
    if la != lb {
        return false;
    }
    let mut i: usize = 0;
    while i < la
        invariant
            la == a@.len(),
            lb == b@.len(),
            la == lb,
            i <= la,
            forall|k: int| 0 <= k < i ==> a@[k] == b@[k],
        decreases la - i,
    {
        if a.get_char(i) != b.get_char(i) {
            return false;
        }
        i += 1;
    }
    proof {
        assert(a@ =~= b@);
    }
    true
}

/// Parses a non-empty, all-digit decimal string into a `usize`.
///
/// Returns `None` on an empty string, on any non-digit character, and on a
/// value too large for `usize`; no other shapes (signs, spaces) are accepted.
pub fn parse_usize(s: &str) -> (r: Option<usize>)
    ensures
        r is Some <==> is_numeric_str(s@) && str_to_nat(s@) <= usize::MAX,
        r matches Some(v) ==> v == str_to_nat(s@),
{
    let n = s.unicode_len();
    if n == 0 {
        return None;
    }
    let limit: usize = usize::MAX / 10;
    let last_digit: usize = usize::MAX % 10;
    let mut acc: usize = 0;
    let mut i: usize = 0;
    while i < n
        invariant
            n == s@.len(),
            0 < n,
            i <= n,
            limit == usize::MAX / 10,
            last_digit == usize::MAX % 10,
            forall|k: int| 0 <= k < i ==> is_digit(#[trigger] s@[k]),
            acc == str_to_nat(s@.take(i as int)),
        decreases n - i,
    {
        let c = s.get_char(i);
        let u = c as u32;
        if u < '0' as u32 || u > '9' as u32 {
            assert(!is_digit(s@[i as int]));
            return None;
        }
        let d: usize = (u - '0' as u32) as usize;
        proof {
            lemma_str_to_nat_step(s@, i as int);
        }
        if acc > limit || (acc == limit && d > last_digit) {
            proof {
                if is_numeric_str(s@) {
                    lemma_str_to_nat_prefix_le(s@, i + 1);
                }
            }
            return None;
        }
        acc = acc * 10 + d;
        i += 1;
    }
    proof {
        assert(s@.take(n as int) =~= s@);
    }
    Some(acc)
}

} // verus!
