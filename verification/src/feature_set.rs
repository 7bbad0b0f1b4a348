//! The feature set of an installation, which hides features under development from stable
//! environments.
use vstd::prelude::*;

use crate::text::chars_of;

verus! {

/// Pharia AI feature set as derived from the environment.
#[derive(Debug, Clone, Copy, PartialEq, Eq, Structural)]
pub enum FeatureSet {
    /// Beta environments show unstable features to stakeholders.
    Beta,
    /// Stable environments only show stable features. The number grows with each feature
    /// release, so that releases can be synchronized across teams.
    Stable(u32),
}

/// The feature set of production environments.
pub fn production_feature_set() -> (f: FeatureSet)
    ensures
        f == FeatureSet::Stable(1),
{
    FeatureSet::Stable(1)
}

/// A character as ASCII lower case.
pub open spec fn ascii_lower(c: char) -> char {
    if 'A' <= c && c <= 'Z' {
        ((c as u32) + 32) as char
    } else {
        c
    }
}

/// `s` and `t` are equal up to ASCII case.
pub open spec fn eq_ignore_ascii_case(s: Seq<char>, t: Seq<char>) -> bool {
    &&& s.len() == t.len()
    &&& forall|i: int| 0 <= i < s.len() ==> ascii_lower(#[trigger] s[i]) == ascii_lower(t[i])
}

/// `c` is an ASCII digit.
pub open spec fn is_digit(c: char) -> bool {
    '0' <= c && c <= '9'
}

/// The number that the decimal digits `s` spell.
pub open spec fn decimal_value(s: Seq<char>) -> nat
    decreases s.len(),
{
    if s.len() == 0 {
        0
    } else {
        decimal_value(s.drop_last()) * 10 + ((s.last() as u32) - ('0' as u32)) as nat
    }
}

/// The digits of a decimal number, after an optional leading `+`.
pub open spec fn unsigned_digits(s: Seq<char>) -> Seq<char> {
    if s.len() > 0 && s[0] == '+' {
        s.skip(1)
    } else {
        s
    }
}

/// The `u32` that `s` spells in decimal, as Rust's `u32::from_str` reads it: an optional `+`,
/// then at least one digit and nothing else, of a value that fits in 32 bits.
pub open spec fn spec_parse_u32(s: Seq<char>) -> Option<u32> {
    let d = unsigned_digits(s);
    if d.len() > 0 && (forall|i: int| 0 <= i < d.len() ==> is_digit(#[trigger] d[i]))
        && decimal_value(d) <= u32::MAX {
        Some(decimal_value(d) as u32)
    } else {
        None
    }
}

/// The `u32` that `s` spells in decimal, if any.
pub fn parse_u32(s: &str) -> (r: Option<u32>)
    ensures
        r == spec_parse_u32(s@),
{
    let chars = chars_of(s);
    let n = chars.len();
    let start: usize = if n > 0 && chars[0] == '+' {
        1
    } else {
        0
    };
    let ghost d = unsigned_digits(s@);
    assert(d =~= chars@.subrange(start as int, n as int));
    if start >= n {
        return None;
    }
    let mut acc: u64 = 0;
    let mut i: usize = start;
    while i < n
        invariant
            chars@ == s@,
            n == chars.len(),
            start <= i <= n,
            d == chars@.subrange(start as int, n as int),
            d == unsigned_digits(s@),
            forall|k: int| start <= k < i ==> is_digit(#[trigger] chars@[k]),
            acc <= u32::MAX + 1,
            acc <= u32::MAX ==> acc == decimal_value(chars@.subrange(start as int, i as int)),
            acc > u32::MAX ==> decimal_value(chars@.subrange(start as int, i as int)) > u32::MAX,
        decreases n - i,
    {
        let c = chars[i];
        if !('0' <= c && c <= '9') {
            assert(d[i - start] == c);
            assert(!is_digit(d[i - start]));
            return None;
        }
        let digit = (c as u32 - '0' as u32) as u64;
        let ghost prefix = chars@.subrange(start as int, i as int);
        let ghost next = chars@.subrange(start as int, i + 1);
        assert(next.drop_last() =~= prefix);
        assert(next.last() == c);
        if acc > u32::MAX as u64 {
            assert(decimal_value(next) > u32::MAX) by (nonlinear_arith)
                requires
                    decimal_value(next) == decimal_value(prefix) * 10 + digit,
                    decimal_value(prefix) > u32::MAX,
            ;
        } else {
            let bigger = acc * 10 + digit;
            if bigger > u32::MAX as u64 {
                acc = u32::MAX as u64 + 1;
            } else {
                acc = bigger;
            }
        }
        i = i + 1;
    }
    assert(chars@.subrange(start as int, n as int) == d);
    if acc > u32::MAX as u64 {
        None
    } else {
        Some(acc as u32)
    }
}

/// `s` spells `BETA` in any ASCII case.
fn is_beta(s: &str) -> (r: bool)
    ensures
        r == eq_ignore_ascii_case(s@, "BETA"@),
{
    proof {
        reveal_strlit("BETA");
    }
    let chars = chars_of(s);
    assert(('B' as u32) + 32 == ('b' as u32));
    assert(('E' as u32) + 32 == ('e' as u32));
    assert(('T' as u32) + 32 == ('t' as u32));
    assert(('A' as u32) + 32 == ('a' as u32));
    let r = chars.len() == 4 && (chars[0] == 'b' || chars[0] == 'B') && (chars[1] == 'e'
        || chars[1] == 'E') && (chars[2] == 't' || chars[2] == 'T') && (chars[3] == 'a'
        || chars[3] == 'A');
    if r {
        assert(forall|i: int| 0 <= i < 4 ==> ascii_lower(#[trigger] s@[i]) == ascii_lower("BETA"@[i]));
    } else if chars.len() == 4 {
        assert(!(ascii_lower(s@[0]) == ascii_lower("BETA"@[0]) && ascii_lower(s@[1]) == ascii_lower(
            "BETA"@[1],
        ) && ascii_lower(s@[2]) == ascii_lower("BETA"@[2]) && ascii_lower(s@[3]) == ascii_lower(
            "BETA"@[3],
        )));
    }
    r
}

/// The feature set that the environment spells as `s`: beta in any case, else the number of a
/// stable feature set, else the production feature set.
pub open spec fn spec_feature_set(s: Seq<char>) -> FeatureSet {
    if eq_ignore_ascii_case(s, "BETA"@) {
        FeatureSet::Beta
    } else {
        match spec_parse_u32(s) {
            Some(n) => FeatureSet::Stable(n),
            None => FeatureSet::Stable(1),
        }
    }
}

impl FeatureSet {
    /// Read a feature set from its spelling in the environment. Reading never fails: what is
    /// neither beta nor a number falls back to the production feature set.
    pub fn from_str(s: &str) -> (r: Result<FeatureSet, core::convert::Infallible>)
        ensures
            r == Ok::<FeatureSet, core::convert::Infallible>(spec_feature_set(s@)),
    {
        if is_beta(s) {
            Ok(FeatureSet::Beta)
        } else {
            match parse_u32(s) {
                Some(n) => Ok(FeatureSet::Stable(n)),
                None => Ok(production_feature_set()),
            }
        }
    }
}

} // verus!
