//! The high-score store's text codec: the persisted file holds exactly the
//! decimal ASCII of the stored integer. Formatting produces those bytes;
//! parsing accepts what the file may hold — optional surrounding ASCII
//! whitespace, an optional sign, digits — and falls back to zero on any
//! malformed or out-of-range content, as loading is never allowed to fail.

use vstd::prelude::*;

verus! {

/// ASCII decimal digit.
pub open spec fn is_digit_byte(b: u8) -> bool {
    48 <= b <= 57
}

/// ASCII whitespace, as trimming removes it: space, tab, line feed,
/// vertical tab, form feed, carriage return.
pub open spec fn is_space_byte(b: u8) -> bool {
    b == 32 || b == 9 || b == 10 || b == 11 || b == 12 || b == 13
}

/// The decimal digits of `n`, most significant first.
pub open spec fn spec_digits(n: nat) -> Seq<u8>
    decreases n,
{
    if n < 10 {
        seq![(48 + n) as u8]
    } else {
        spec_digits(n / 10) + seq![(48 + n % 10) as u8]
    }
}

/// The decimal ASCII of `n`: a minus sign and the digits of its magnitude
/// when negative, else just the digits.
pub open spec fn spec_format_int(n: int) -> Seq<u8> {
    if n < 0 {
        seq![45u8] + spec_digits((-n) as nat)
    } else {
        spec_digits(n as nat)
    }
}

pub open spec fn all_digits(s: Seq<u8>) -> bool {
    forall|i: int| 0 <= i < s.len() ==> is_digit_byte(#[trigger] s[i])
}

/// The value of a digit string, most significant first.
pub open spec fn spec_digits_value(s: Seq<u8>) -> int
    decreases s.len(),
{
    if s.len() == 0 {
        0
    } else {
        spec_digits_value(s.drop_last()) * 10 + (s.last() - 48)
    }
}

/// `s` is an integer literal: an optional single sign followed by at least
/// one digit and nothing else.
pub open spec fn spec_int_literal(s: Seq<u8>) -> bool {
    let t = if s.len() > 0 && (s[0] == 43 || s[0] == 45) {
        s.subrange(1, s.len() as int)
    } else {
        s
    };
    t.len() > 0 && all_digits(t)
}

/// The value of an integer literal.
pub open spec fn spec_literal_value(s: Seq<u8>) -> int {
    if s.len() > 0 && s[0] == 45 {
        -spec_digits_value(s.subrange(1, s.len() as int))
    } else if s.len() > 0 && s[0] == 43 {
        spec_digits_value(s.subrange(1, s.len() as int))
    } else {
        spec_digits_value(s)
    }
}

pub open spec fn spec_trim_front(s: Seq<u8>) -> Seq<u8>
    decreases s.len(),
{
    if s.len() > 0 && is_space_byte(s[0]) {
        spec_trim_front(s.drop_first())
    } else {
        s
    }
}

pub open spec fn spec_trim_back(s: Seq<u8>) -> Seq<u8>
    decreases s.len(),
{
    if s.len() > 0 && is_space_byte(s.last()) {
        spec_trim_back(s.drop_last())
    } else {
        s
    }
}

/// `s` with leading and trailing ASCII whitespace removed.
pub open spec fn spec_trim(s: Seq<u8>) -> Seq<u8> {
    spec_trim_back(spec_trim_front(s))
}

/// What loading the high-score text yields: the literal's value if the
/// trimmed bytes are an integer literal whose value fits an `i32`, else
/// zero.
pub open spec fn spec_parse_i32(s: Seq<u8>) -> int {
    let t = spec_trim(s);
    if spec_int_literal(t) && i32::MIN <= spec_literal_value(t) <= i32::MAX {
        spec_literal_value(t)
    } else {
        0
    }
}

/// Appends the decimal digits of `n`.
fn push_digits(n: u64, out: &mut Vec<u8>)
    ensures
        final(out)@ == old(out)@ + spec_digits(n as nat),
    decreases n,
{
    if n < 10 {
        out.push((n as u8) + 48);
        proof {
            assert(out@ =~= old(out)@ + spec_digits(n as nat));
        }
    } else {
        push_digits(n / 10, out);
        let d: u8 = (n % 10) as u8;
        out.push(d + 48);
        proof {
            assert(out@ =~= old(out)@ + spec_digits(n as nat));
        }
    }
}

/// Formats `value` as its decimal ASCII bytes, exactly as the high-score
/// file holds it.
pub fn format_highscore(value: i32) -> (out: Vec<u8>)
    ensures
        out@ == spec_format_int(value as int),
{
    let mut out: Vec<u8> = Vec::new();
    let mut m: i64 = value as i64;
    if m < 0 {
        out.push(45);
        m = -m;
    }
    push_digits(m as u64, &mut out);
    proof {
        if value < 0 {
            assert(out@ =~= seq![45u8] + spec_digits((-(value as int)) as nat));
        } else {
            assert(out@ =~= spec_digits(value as nat));
        }
    }
    out
}

/// A digit string's value is never negative.
pub proof fn lemma_digits_value_nonneg(s: Seq<u8>)
    requires
        all_digits(s),
    ensures
        spec_digits_value(s) >= 0,
    decreases s.len(),
{
    if s.len() > 0 {
        assert(all_digits(s.drop_last()));
        lemma_digits_value_nonneg(s.drop_last());
    }
}

/// A digit string is worth at least any of its prefixes.
pub proof fn lemma_digits_value_prefix(s: Seq<u8>, k: int)
    requires
        all_digits(s),
        0 <= k <= s.len(),
    ensures
        spec_digits_value(s) >= spec_digits_value(s.subrange(0, k)),
    decreases s.len() - k,
{
    if k == s.len() {
        assert(s.subrange(0, k) =~= s);
    } else {
        lemma_digits_value_prefix(s, k + 1);
        assert(s.subrange(0, k + 1).drop_last() =~= s.subrange(0, k));
        assert(all_digits(s.subrange(0, k)));
        lemma_digits_value_nonneg(s.subrange(0, k));
        assert(spec_digits_value(s.subrange(0, k + 1)) == spec_digits_value(s.subrange(0, k)) * 10
            + (s[k] - 48));
    }
}

/// Whitespace-only prefixes are what front-trimming removes.
proof fn lemma_trim_front_is_subrange(s: Seq<u8>, lo: int)
    requires
        0 <= lo <= s.len(),
        forall|j: int| 0 <= j < lo ==> is_space_byte(#[trigger] s[j]),
        lo == s.len() || !is_space_byte(s[lo]),
    ensures
        spec_trim_front(s) == s.subrange(lo, s.len() as int),
    decreases lo,
{
    if lo == 0 {
        assert(s.subrange(0, s.len() as int) =~= s);
    } else {
        let d = s.drop_first();
        assert(d =~= s.subrange(1, s.len() as int));
        lemma_trim_front_is_subrange(d, lo - 1);
        assert(d.subrange(lo - 1, d.len() as int) =~= s.subrange(lo, s.len() as int));
    }
}

/// Whitespace-only suffixes are what back-trimming removes.
proof fn lemma_trim_back_is_subrange(s: Seq<u8>, hi: int)
    requires
        0 <= hi <= s.len(),
        forall|j: int| hi <= j < s.len() ==> is_space_byte(#[trigger] s[j]),
        hi == 0 || !is_space_byte(s[hi - 1]),
    ensures
        spec_trim_back(s) == s.subrange(0, hi),
    decreases s.len() - hi,
{
    if hi == s.len() {
        if s.len() > 0 && is_space_byte(s.last()) {
            assert(false);
        }
        assert(s.subrange(0, hi) =~= s);
    } else {
        let d = s.drop_last();
        assert(d =~= s.subrange(0, s.len() - 1));
        lemma_trim_back_is_subrange(d, hi);
        assert(d.subrange(0, hi) =~= s.subrange(0, hi));
    }
}

/// Decides ASCII whitespace.
fn is_space(b: u8) -> (r: bool)
    ensures
        r == is_space_byte(b),
{
    b == 32 || (9 <= b && b <= 13)
}

/// Parses the high-score text: the integer it holds, or zero when the
/// trimmed bytes are not an integer literal that fits an `i32`.
#[verifier::loop_isolation(false)]
pub fn parse_highscore(bytes: &Vec<u8>) -> (r: i32)
    ensures
        r as int == spec_parse_i32(bytes@),
{
    let n: usize = bytes.len();
    let mut lo: usize = 0;
    while lo < n && is_space(bytes[lo])
        invariant
            0 <= lo <= n,
            n == bytes@.len(),
            forall|j: int| 0 <= j < lo ==> is_space_byte(#[trigger] bytes@[j]),
        decreases n - lo,
    {
        lo = lo + 1;
    }
    let mut hi: usize = n;
    while hi > lo && is_space(bytes[hi - 1])
        invariant
            lo <= hi <= n,
            n == bytes@.len(),
            forall|j: int| hi <= j < n ==> is_space_byte(#[trigger] bytes@[j]),
        decreases hi,
    {
        hi = hi - 1;
    }
    proof {
        lemma_trim_front_is_subrange(bytes@, lo as int);
        lemma_trim_back_is_subrange(
            bytes@.subrange(lo as int, n as int),
            hi as int - lo as int,
        );
        assert(bytes@.subrange(lo as int, n as int).subrange(0, hi as int - lo as int)
            =~= bytes@.subrange(lo as int, hi as int));
        assert(spec_trim(bytes@) == bytes@.subrange(lo as int, hi as int));
    }
    let ghost t = bytes@.subrange(lo as int, hi as int);
    if lo == hi {
        return 0;
    }
    let mut idx: usize = lo;
    let mut negative: bool = false;
    let b0: u8 = bytes[lo];
    if b0 == 43 || b0 == 45 {
        negative = b0 == 45;
        idx = lo + 1;
    }
    if idx == hi {
        // A bare sign is not a literal.
        proof {
            assert(t.subrange(1, t.len() as int).len() == 0);
        }
        return 0;
    }
    let ghost digits_part = bytes@.subrange(idx as int, hi as int);
    proof {
        if idx > lo {
            assert(digits_part =~= t.subrange(1, t.len() as int));
        } else {
            assert(digits_part =~= t);
        }
    }
    let bound: i64 = if negative {
        2147483648
    } else {
        2147483647
    };
    let mut acc: i64 = 0;
    let mut k: usize = idx;
    while k < hi
        invariant
            lo <= idx <= k <= hi <= n,
            n == bytes@.len(),
            idx < hi,
            digits_part == bytes@.subrange(idx as int, hi as int),
            acc == spec_digits_value(bytes@.subrange(idx as int, k as int)),
            0 <= acc <= bound,
            bound == 2147483647 || bound == 2147483648,
            forall|j: int| idx <= j < k ==> is_digit_byte(#[trigger] bytes@[j]),
        decreases hi - k,
    {
        let b: u8 = bytes[k];
        if b < 48 || b > 57 {
            // A non-digit in the trimmed body: not a literal.
            proof {
                assert(digits_part[k - idx] == bytes@[k as int]);
                assert(!all_digits(digits_part));
            }
            return 0;
        }
        proof {
            assert(bytes@.subrange(idx as int, k as int + 1).drop_last() =~= bytes@.subrange(
                idx as int,
                k as int,
            ));
            assert(bytes@.subrange(idx as int, k as int + 1).last() == bytes@[k as int]);
        }
        acc = acc * 10 + ((b - 48) as i64);
        if acc > bound {
            // The digits read so far already exceed the `i32` range; any
            // digits that follow only push the value further out.
            proof {
                if spec_int_literal(t) {
                    assert(all_digits(digits_part));
                    assert(bytes@.subrange(idx as int, k as int + 1) =~= digits_part.subrange(
                        0,
                        k as int + 1 - idx,
                    ));
                    assert(all_digits(bytes@.subrange(idx as int, k as int + 1)));
                    lemma_digits_value_prefix(digits_part, k as int + 1 - idx);
                    assert(spec_digits_value(digits_part) >= acc);
                    assert(spec_literal_value(t) == if negative {
                        -spec_digits_value(digits_part)
                    } else {
                        spec_digits_value(digits_part)
                    });
                }
            }
            return 0;
        }
        k = k + 1;
    }
    proof {
        assert(bytes@.subrange(idx as int, k as int) =~= digits_part);
        assert(all_digits(digits_part));
        assert(spec_int_literal(t));
        assert(spec_literal_value(t) == if negative {
            -spec_digits_value(digits_part)
        } else {
            spec_digits_value(digits_part)
        });
    }
    let v: i64 = if negative {
        -acc
    } else {
        acc
    };
    v as i32
}

/// Every byte the formatter emits is a digit (never a sign, never
/// whitespace).
pub proof fn lemma_digits_all_digits(n: nat)
    ensures
        spec_digits(n).len() >= 1,
        all_digits(spec_digits(n)),
    decreases n,
{
    if n >= 10 {
        lemma_digits_all_digits(n / 10);
    }
}

/// The digits of `n` are worth `n`.
pub proof fn lemma_digits_value_of_digits(n: nat)
    ensures
        spec_digits_value(spec_digits(n)) == n,
    decreases n,
{
    if n < 10 {
        assert(spec_digits_value(Seq::<u8>::empty()) == 0);
        assert(spec_digits(n).drop_last() =~= Seq::<u8>::empty());
        assert(spec_digits(n).last() == (48 + n) as u8);
    } else {
        lemma_digits_value_of_digits(n / 10);
        assert(spec_digits(n).drop_last() =~= spec_digits(n / 10));
        assert(spec_digits(n).last() == (48 + n % 10) as u8);
    }
}

/// Trimming a string with no surrounding whitespace changes nothing.
proof fn lemma_trim_id(s: Seq<u8>)
    requires
        forall|j: int| 0 <= j < s.len() ==> !is_space_byte(#[trigger] s[j]),
    ensures
        spec_trim(s) == s,
{
    lemma_trim_front_is_subrange(s, 0);
    assert(s.subrange(0, s.len() as int) =~= s);
    lemma_trim_back_is_subrange(s, s.len() as int);
}

/// Round trip: the bytes written for any `i32` parse back to exactly that
/// value — in particular every non-negative score survives a save followed
/// by a load.
pub proof fn lemma_highscore_round_trip(n: int)
    requires
        i32::MIN <= n <= i32::MAX,
    ensures
        spec_parse_i32(spec_format_int(n)) == n,
{
    let f = spec_format_int(n);
    if n >= 0 {
        lemma_digits_all_digits(n as nat);
        lemma_digits_value_of_digits(n as nat);
        lemma_trim_id(f);
        assert(f[0] != 43 && f[0] != 45);
        assert(spec_int_literal(f));
        assert(spec_literal_value(f) == n);
    } else {
        let d = spec_digits((-n) as nat);
        lemma_digits_all_digits((-n) as nat);
        lemma_digits_value_of_digits((-n) as nat);
        assert(f[0] == 45);
        assert forall|j: int| 0 <= j < f.len() implies !is_space_byte(#[trigger] f[j]) by {
            if j > 0 {
                assert(f[j] == d[j - 1]);
                assert(is_digit_byte(d[j - 1]));
            }
        }
        lemma_trim_id(f);
        assert(f.subrange(1, f.len() as int) =~= d);
        assert(spec_int_literal(f));
        assert(spec_literal_value(f) == -spec_digits_value(d) == n);
    }
}

} // verus!
