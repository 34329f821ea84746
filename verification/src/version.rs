use vstd::prelude::*;
use vstd::string::StrSliceExecFns;
use crate::errors::CloneError;

verus! {

/// A semantic version: three numeric components under lexicographic order.
#[derive(Clone, Copy, Debug, PartialEq, Eq, Structural)]
pub struct SemVer {
    pub major: u64,
    pub minor: u64,
    pub patch: u64,
}

/// Strict lexicographic order on (major, minor, patch).
pub open spec fn version_lt(a: SemVer, b: SemVer) -> bool {
    ||| a.major < b.major
    ||| (a.major == b.major && a.minor < b.minor)
    ||| (a.major == b.major && a.minor == b.minor && a.patch < b.patch)
}

impl SemVer {
    /// True when `self` precedes `other` in semantic-version order.
    pub fn lt(&self, other: &SemVer) -> (r: bool)
        ensures
            r == version_lt(*self, *other),
    {
        if self.major != other.major {
            self.major < other.major
        } else if self.minor != other.minor {
            self.minor < other.minor
        } else {
            self.patch < other.patch
        }
    }
}

/// Semantic-version order is total: two versions are related one way,
/// the other way, or are equal component for component.
pub proof fn lemma_version_order_total(a: SemVer, b: SemVer)
    ensures
        version_lt(a, b) || version_lt(b, a) || a == b,
        !(version_lt(a, b) && version_lt(b, a)),
{
}

/// An ASCII decimal digit.
pub open spec fn is_digit(c: char) -> bool {
    48 <= (c as u32) && (c as u32) <= 57
}

/// Numeric value of one digit.
pub open spec fn digit_val(c: char) -> nat
    recommends
        is_digit(c),
{
    ((c as u32) - 48) as nat
}

/// Every character of `s` is a digit.
pub open spec fn all_digits(s: Seq<char>) -> bool {
    forall|k: int| 0 <= k < s.len() ==> is_digit(#[trigger] s[k])
}

/// Value of a digit string read in base ten.
pub open spec fn dec_val(s: Seq<char>) -> nat
    decreases s.len(),
{
    if s.len() == 0 {
        0
    } else {
        dec_val(s.drop_last()) * 10 + digit_val(s.last())
    }
}

/// A version component is written without leading zeros: it is either a
/// lone digit or starts with a nonzero one.
pub open spec fn no_leading_zero(seg: Seq<char>) -> bool {
    seg.len() > 1 ==> seg[0] != '0'
}

/// The shape of a semantic-version string: three nonempty runs of digits
/// without leading zeros, separated by dots at positions `i` and `j`.
pub open spec fn semver_fields(s: Seq<char>, i: int, j: int) -> bool {
    &&& 1 <= i
    &&& i + 1 < j
    &&& j + 1 < s.len()
    &&& s[i] == '.'
    &&& s[j] == '.'
    &&& all_digits(s.subrange(0, i))
    &&& all_digits(s.subrange(i + 1, j))
    &&& all_digits(s.subrange(j + 1, s.len() as int))
    &&& no_leading_zero(s.subrange(0, i))
    &&& no_leading_zero(s.subrange(i + 1, j))
    &&& no_leading_zero(s.subrange(j + 1, s.len() as int))
}

/// `s` has the dotted three-component shape.
pub open spec fn valid_shape(s: Seq<char>) -> bool {
    exists|i: int, j: int| semver_fields(s, i, j)
}

/// Position of the first version separator.
pub open spec fn sep1(s: Seq<char>) -> int {
    (choose|i: int, j: int| semver_fields(s, i, j)).0
}

/// Position of the second version separator.
pub open spec fn sep2(s: Seq<char>) -> int {
    (choose|i: int, j: int| semver_fields(s, i, j)).1
}

/// Numeric value of the first component of `s`.
pub open spec fn spec_major(s: Seq<char>) -> nat {
    dec_val(s.subrange(0, sep1(s)))
}

/// Numeric value of the second component of `s`.
pub open spec fn spec_minor(s: Seq<char>) -> nat {
    dec_val(s.subrange(sep1(s) + 1, sep2(s)))
}

/// Numeric value of the third component of `s`.
pub open spec fn spec_patch(s: Seq<char>) -> nat {
    dec_val(s.subrange(sep2(s) + 1, s.len() as int))
}

/// `s` is a semantic version whose three components fit in `u64`.
pub open spec fn valid_version(s: Seq<char>) -> bool {
    &&& valid_shape(s)
    &&& spec_major(s) <= u64::MAX
    &&& spec_minor(s) <= u64::MAX
    &&& spec_patch(s) <= u64::MAX
}

/// `v` is the reading of `s` as a semantic version.
pub open spec fn version_repr(s: Seq<char>, v: SemVer) -> bool {
    &&& valid_version(s)
    &&& v.major == spec_major(s)
    &&& v.minor == spec_minor(s)
    &&& v.patch == spec_patch(s)
}

/// A valid version string reads as exactly one semantic version.
pub proof fn lemma_version_repr_unique(s: Seq<char>, v1: SemVer, v2: SemVer)
    requires
        version_repr(s, v1),
        version_repr(s, v2),
    ensures
        v1 == v2,
{
}

/// The separators found by `choose` do satisfy the shape.
proof fn lemma_shape_separators(s: Seq<char>)
    requires
        valid_shape(s),
    ensures
        semver_fields(s, sep1(s), sep2(s)),
{
    let (i, j): (int, int) = choose|i: int, j: int| semver_fields(s, i, j);
    assert(semver_fields(s, i, j));
}

/// Within a semantic-version shape every position apart from the two
/// separators holds a digit.
proof fn lemma_shape_chars(s: Seq<char>, i: int, j: int)
    requires
        semver_fields(s, i, j),
    ensures
        forall|k: int| 0 <= k < s.len() && k != i && k != j ==> is_digit(#[trigger] s[k]),
{
    assert forall|k: int| 0 <= k < s.len() && k != i && k != j implies is_digit(s[k]) by {
        if k < i {
            assert(s.subrange(0, i)[k] == s[k]);
        } else if k < j {
            assert(s.subrange(i + 1, j)[k - (i + 1)] == s[k]);
        } else {
            assert(s.subrange(j + 1, s.len() as int)[k - (j + 1)] == s[k]);
        }
    }
}

/// If the only dots of `s` stand at `d1` and `d2`, any semantic-version
/// shape of `s` has its separators exactly there.
proof fn lemma_dots_fix_shape(s: Seq<char>, d1: int, d2: int, i: int, j: int)
    requires
        semver_fields(s, i, j),
        0 <= d1 < d2 < s.len(),
        forall|k: int| 0 <= k < s.len() && k != d1 && k != d2 ==> s[k] != '.',
    ensures
        i == d1,
        j == d2,
{
}

/// A scan that saw dots only at `d1` and `d2` pins the separators of any
/// valid shape, and thereby the three component values.
proof fn lemma_separators_are(s: Seq<char>, d1: int, d2: int)
    requires
        valid_shape(s),
        0 <= d1 < d2 < s.len(),
        forall|k: int| 0 <= k < s.len() && k != d1 && k != d2 ==> s[k] != '.',
    ensures
        sep1(s) == d1,
        sep2(s) == d2,
        semver_fields(s, d1, d2),
{
    lemma_shape_separators(s);
    lemma_dots_fix_shape(s, d1, d2, sep1(s), sep2(s));
}

/// A string whose dots all stand at one single position (or that has no
/// dot at all) is not a semantic version.
proof fn lemma_needs_two_dots(s: Seq<char>, d: int)
    requires
        forall|k: int| 0 <= k < s.len() && k != d ==> s[k] != '.',
    ensures
        !valid_version(s),
{
    if valid_shape(s) {
        lemma_shape_separators(s);
        assert(s[sep1(s)] == '.');
        assert(s[sep2(s)] == '.');
    }
}

/// A string with three distinct dots is not a semantic version.
proof fn lemma_three_dots(s: Seq<char>, d1: int, d2: int, d3: int)
    requires
        0 <= d1 < d2 < d3 < s.len(),
        s[d1] == '.',
        s[d2] == '.',
        s[d3] == '.',
    ensures
        !valid_version(s),
{
    if valid_shape(s) {
        lemma_shape_separators(s);
        lemma_shape_chars(s, sep1(s), sep2(s));
    }
}

/// Reading one more digit multiplies the value by ten and adds the digit.
proof fn lemma_dec_val_step(s: Seq<char>, lo: int, i: int)
    requires
        0 <= lo <= i < s.len(),
    ensures
        dec_val(s.subrange(lo, i + 1)) == dec_val(s.subrange(lo, i)) * 10 + digit_val(s[i]),
{
    let t = s.subrange(lo, i + 1);
    assert(t.drop_last() =~= s.subrange(lo, i));
    assert(t.last() == s[i]);
}

/// The value of a digit string never falls below the value of a prefix.
proof fn lemma_dec_val_prefix(t: Seq<char>, k: int)
    requires
        0 <= k <= t.len(),
    ensures
        dec_val(t.subrange(0, k)) <= dec_val(t),
    decreases t.len() - k,
{
    if k == t.len() {
        assert(t.subrange(0, k) =~= t);
    } else {
        lemma_dec_val_prefix(t, k + 1);
        lemma_dec_val_step(t, 0, k);
    }
}

/// Read the digit run `s[lo..hi]` as a base-ten number, refusing any
/// non-digit character and any value that does not fit in `u64`.
fn parse_component(s: &str, lo: usize, hi: usize) -> (r: Option<u64>)
    requires
        lo <= hi <= s@.len(),
    ensures
        r matches Some(x) ==> all_digits(s@.subrange(lo as int, hi as int)) && x == dec_val(
            s@.subrange(lo as int, hi as int),
        ),
        r is None ==> !(all_digits(s@.subrange(lo as int, hi as int)) && dec_val(
            s@.subrange(lo as int, hi as int),
        ) <= u64::MAX),
{
    let mut acc: u64 = 0;
    let mut i: usize = lo;
    while i < hi
        invariant
            lo <= i <= hi <= s@.len(),
            all_digits(s@.subrange(lo as int, i as int)),
            acc == dec_val(s@.subrange(lo as int, i as int)),
        decreases hi - i,
    {
        let c: char = s.get_char(i);
        let u: u32 = c as u32;
        if u < 48 || u > 57 {
            proof {
                assert(s@.subrange(lo as int, hi as int)[i - lo] == s@[i as int]);
            }
            return None;
        }
        let d: u64 = (u - 48) as u64;
        proof {
            lemma_dec_val_step(s@, lo as int, i as int);
        }
        let next: Option<u64> = match acc.checked_mul(10) {
            Some(m) => m.checked_add(d),
            None => None,
        };
        match next {
            Some(v) => {
                proof {
                    assert forall|k: int| 0 <= k < (i + 1 - lo) implies is_digit(
                        #[trigger] s@.subrange(lo as int, i as int + 1)[k],
                    ) by {
                        if k < i - lo {
                            assert(s@.subrange(lo as int, i as int + 1)[k] == s@.subrange(
                                lo as int,
                                i as int,
                            )[k]);
                        } else {
                            assert(s@.subrange(lo as int, i as int + 1)[k] == s@[i as int]);
                        }
                    }
                }
                acc = v;
            },
            None => {
                proof {
                    let seg = s@.subrange(lo as int, hi as int);
                    assert(seg.subrange(0, i + 1 - lo) =~= s@.subrange(lo as int, i as int + 1));
                    lemma_dec_val_prefix(seg, i + 1 - lo);
                }
                return None;
            },
        }
        i += 1;
    }
    proof {
        assert(s@.subrange(lo as int, i as int) =~= s@.subrange(lo as int, hi as int));
    }
    Some(acc)
}

/// Parse `s` as a semantic version.  Succeeds exactly on strings of the
/// three-component dotted shape -- digit runs without leading zeros --
/// whose components fit in `u64`, and then returns the one version the
/// string denotes; anything else is an `InvalidVersion` failure.
pub fn parse_version(s: &str) -> (r: Result<SemVer, CloneError>)
    ensures
        r is Ok <==> valid_version(s@),
        r matches Ok(v) ==> version_repr(s@, v),
        r matches Err(e) ==> e == CloneError::InvalidVersion,
{
    let n: usize = s.unicode_len();
    let mut d1: usize = n;
    let mut d2: usize = n;
    let mut idx: usize = 0;
    while idx < n
        invariant
            idx <= n,
            n == s@.len(),
            d1 <= n,
            d2 <= n,
            d1 == n ==> d2 == n,
            d1 == n ==> forall|k: int| 0 <= k < idx ==> s@[k] != '.',
            d1 < n ==> d1 < idx && s@[d1 as int] == '.' && (forall|k: int|
                0 <= k < d1 ==> s@[k] != '.'),
            d2 < n ==> d1 < d2 < idx && s@[d2 as int] == '.',
            d1 < n && d2 == n ==> forall|k: int| d1 < k < idx ==> s@[k] != '.',
            d2 < n ==> forall|k: int| d1 < k < d2 ==> s@[k] != '.',
            d2 < n ==> forall|k: int| d2 < k < idx ==> s@[k] != '.',
        decreases n - idx,
    {
        let c: char = s.get_char(idx);
        if c == '.' {
            if d1 == n {
                d1 = idx;
            } else if d2 == n {
                d2 = idx;
            } else {
                proof {
                    lemma_three_dots(s@, d1 as int, d2 as int, idx as int);
                }
                return Err(CloneError::InvalidVersion);
            }
        }
        idx += 1;
    }
    if d1 == n {
        proof {
            lemma_needs_two_dots(s@, -1);
        }
        return Err(CloneError::InvalidVersion);
    }
    if d2 == n {
        proof {
            lemma_needs_two_dots(s@, d1 as int);
        }
        return Err(CloneError::InvalidVersion);
    }
    proof {
        assert(forall|k: int| 0 <= k < n && k != d1 && k != d2 ==> s@[k] != '.');
    }
    if d1 == 0 || d2 == d1 + 1 || d2 + 1 == n {
        proof {
            if valid_shape(s@) {
                lemma_separators_are(s@, d1 as int, d2 as int);
            }
        }
        return Err(CloneError::InvalidVersion);
    }
    let lz1: bool = d1 > 1 && s.get_char(0) == '0';
    let lz2: bool = d2 - d1 > 2 && s.get_char(d1 + 1) == '0';
    let lz3: bool = n - d2 > 2 && s.get_char(d2 + 1) == '0';
    if lz1 || lz2 || lz3 {
        proof {
            if valid_shape(s@) {
                lemma_separators_are(s@, d1 as int, d2 as int);
                assert(s@.subrange(0, d1 as int)[0] == s@[0]);
                assert(s@.subrange(d1 as int + 1, d2 as int)[0] == s@[d1 as int + 1]);
                assert(s@.subrange(d2 as int + 1, n as int)[0] == s@[d2 as int + 1]);
            }
        }
        return Err(CloneError::InvalidVersion);
    }
    let major: u64 = match parse_component(s, 0, d1) {
        Some(x) => x,
        None => {
            proof {
                if valid_shape(s@) {
                    lemma_separators_are(s@, d1 as int, d2 as int);
                }
            }
            return Err(CloneError::InvalidVersion);
        },
    };
    let minor: u64 = match parse_component(s, d1 + 1, d2) {
        Some(x) => x,
        None => {
            proof {
                if valid_shape(s@) {
                    lemma_separators_are(s@, d1 as int, d2 as int);
                }
            }
            return Err(CloneError::InvalidVersion);
        },
    };
    let patch: u64 = match parse_component(s, d2 + 1, n) {
        Some(x) => x,
        None => {
            proof {
                if valid_shape(s@) {
                    lemma_separators_are(s@, d1 as int, d2 as int);
                }
            }
            return Err(CloneError::InvalidVersion);
        },
    };
    let v = SemVer { major, minor, patch };
    proof {
        assert(s@.subrange(0, d1 as int)[0] == s@[0]);
        assert(s@.subrange(d1 as int + 1, d2 as int)[0] == s@[d1 as int + 1]);
        assert(s@.subrange(d2 as int + 1, n as int)[0] == s@[d2 as int + 1]);
        assert(semver_fields(s@, d1 as int, d2 as int));
        lemma_separators_are(s@, d1 as int, d2 as int);
    }
    Ok(v)
}

} // verus!
