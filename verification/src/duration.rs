//! The human-readable duration grammar used by target configuration.
//!
//! A duration is one or more terms, each a run of decimal digits followed
//! by a unit: `ms`, `s`, `m` or `h` (for example `"30s"`, `"5m"`,
//! `"1h30m"`, `"100ms"`). The value of the whole string is the sum of its
//! terms, in milliseconds.

use vstd::prelude::*;
use vstd::string::StrSliceExecFns;

use crate::strutil::{
    all_digits, append_dec, digit_val, digits_val, is_digit, lemma_digits_val_of_spec_digits,
    push_char, spec_digits,
};

verus! {

/// Milliseconds in one second.
pub const MS_PER_SECOND: u64 = 1000;

/// Milliseconds in one minute.
pub const MS_PER_MINUTE: u64 = 60000;

/// Milliseconds in one hour.
pub const MS_PER_HOUR: u64 = 3600000;

/// Length of the run of decimal digits at the front of `s`.
pub open spec fn digits_prefix_len(s: Seq<char>) -> nat
    decreases s.len(),
{
    if s.len() > 0 && is_digit(s[0]) {
        1 + digits_prefix_len(s.drop_first())
    } else {
        0
    }
}

/// The unit at the front of `s`: its factor in milliseconds and how many
/// characters it spans. `ms` is matched before `m`.
pub open spec fn unit_at(s: Seq<char>) -> Option<(int, int)> {
    if s.len() >= 2 && s[0] == 'm' && s[1] == 's' {
        Some((1int, 2))
    } else if s.len() >= 1 && s[0] == 's' {
        Some((MS_PER_SECOND as int, 1))
    } else if s.len() >= 1 && s[0] == 'm' {
        Some((MS_PER_MINUTE as int, 1))
    } else if s.len() >= 1 && s[0] == 'h' {
        Some((MS_PER_HOUR as int, 1))
    } else {
        None
    }
}

/// The value of `s` under the duration grammar, in milliseconds, or `None`
/// if `s` does not belong to the grammar. The whole string must be
/// consumed; the empty string is not a duration.
pub open spec fn duration_millis(s: Seq<char>) -> Option<int>
    decreases s.len(),
    via duration_millis_decreases
{
    let d = digits_prefix_len(s) as int;
    if d == 0 {
        None
    } else {
        match unit_at(s.skip(d)) {
            None => None,
            Some((factor, width)) => {
                let term = digits_val(s.take(d)) * factor;
                let rest = s.skip(d + width);
                if rest.len() == 0 {
                    Some(term)
                } else {
                    match duration_millis(rest) {
                        None => None,
                        Some(r) => Some(term + r),
                    }
                }
            },
        }
    }
}

#[via_fn]
proof fn duration_millis_decreases(s: Seq<char>) {
    lemma_digits_prefix_len_le(s);
}

pub proof fn lemma_digits_prefix_len_le(s: Seq<char>)
    ensures
        digits_prefix_len(s) <= s.len(),
        all_digits(s.take(digits_prefix_len(s) as int)),
    decreases s.len(),
{
    if s.len() > 0 && is_digit(s[0]) {
        lemma_digits_prefix_len_le(s.drop_first());
        let d = digits_prefix_len(s) as int;
        assert forall|i: int| 0 <= i < d implies is_digit(#[trigger] s.take(d)[i]) by {
            if i > 0 {
                assert(s.take(d)[i] == s.drop_first().take(d - 1)[i - 1]);
            }
        }
    }
}

/// The digit prefix is exactly the run of digits the characters show: if
/// the first `k` characters are digits and the next one (if any) is not,
/// the prefix length is `k`.
pub proof fn lemma_digits_prefix_len_is(s: Seq<char>, k: int)
    requires
        0 <= k <= s.len(),
        forall|i: int| 0 <= i < k ==> is_digit(#[trigger] s[i]),
        k == s.len() || !is_digit(s[k]),
    ensures
        digits_prefix_len(s) == k,
    decreases k,
{
    if k == 0 {
    } else {
        assert(is_digit(s[0]));
        lemma_digits_prefix_len_is(s.drop_first(), k - 1);
    }
}

/// A digit string has a non-negative value.
pub proof fn lemma_digits_val_nonneg(s: Seq<char>)
    requires
        all_digits(s),
    ensures
        digits_val(s) >= 0,
    decreases s.len(),
{
    if s.len() > 0 {
        assert(all_digits(s.drop_last())) by {
            assert(forall|i: int| 0 <= i < s.len() - 1 ==> s.drop_last()[i] == #[trigger] s[i]);
        }
        lemma_digits_val_nonneg(s.drop_last());
        assert(is_digit(s.last()));
        assert(digits_val(s.drop_last()) * 10 >= 0) by (nonlinear_arith)
            requires
                digits_val(s.drop_last()) >= 0,
        ;
    }
}

/// A parsed duration is at least the value of its leading digit run: the
/// unit factor is at least one and the remaining terms only add.
pub proof fn lemma_duration_value_lb(s: Seq<char>)
    requires
        duration_millis(s) is Some,
    ensures
        duration_millis(s)->Some_0 >= digits_val(s.take(digits_prefix_len(s) as int)),
        duration_millis(s)->Some_0 >= 0,
    decreases s.len(),
{
    let d = digits_prefix_len(s) as int;
    lemma_digits_prefix_len_le(s);
    lemma_digits_val_nonneg(s.take(d));
    let (factor, width) = unit_at(s.skip(d))->Some_0;
    let v = digits_val(s.take(d));
    assert(v * factor >= v && v * factor >= 0) by (nonlinear_arith)
        requires
            v >= 0,
            factor >= 1,
    ;
    let rest = s.skip(d + width);
    if rest.len() != 0 {
        lemma_duration_value_lb(rest);
    }
}

/// Canonical rendering of a duration in milliseconds: the decimal digits
/// followed by `ms`.
pub open spec fn fmt_millis(m: nat) -> Seq<char> {
    spec_digits(m) + seq!['m', 's']
}

/// Rendering a duration and parsing it back yields the same number of
/// milliseconds.
pub proof fn lemma_duration_round_trip(m: nat)
    ensures
        duration_millis(fmt_millis(m)) == Some(m as int),
{
    let s = fmt_millis(m);
    let digs = spec_digits(m);
    lemma_digits_val_of_spec_digits(m);
    let k = digs.len() as int;
    assert(forall|i: int| 0 <= i < k ==> is_digit(#[trigger] s[i]));
    assert(!is_digit(s[k]));
    lemma_digits_prefix_len_is(s, k);
    assert(s.take(k) =~= digs);
    assert(s.skip(k) =~= seq!['m', 's']);
    assert(unit_at(s.skip(k)) == Some((1int, 2int)));
    assert(s.skip(k + 2).len() == 0);
    assert(duration_millis(s) == Some(digits_val(digs) * 1));
}

/// Whether the character at position `j` is a decimal digit.
fn digit_at(s: &str, j: usize) -> (r: bool)
    requires
        j < s@.len(),
    ensures
        r == is_digit(s@[j as int]),
{
    let u = s.get_char(j) as u32;
    48 <= u && u <= 57
}

/// Scans the run of decimal digits starting at `i`. Returns the position
/// after the run, the value of the run, and whether that value exceeds
/// `u64::MAX` (in which case the returned value is unspecified).
fn scan_digits(s: &str, i: usize) -> (r: (usize, u64, bool))
    requires
        i <= s@.len(),
    ensures
        i <= r.0 <= s@.len(),
        digits_prefix_len(s@.skip(i as int)) == r.0 - i,
        !r.2 ==> r.1 == digits_val(s@.subrange(i as int, r.0 as int)),
        r.2 ==> digits_val(s@.subrange(i as int, r.0 as int)) > u64::MAX,
{
    let n = s.unicode_len();
    let mut j = i;
    let mut num: u64 = 0;
    let mut overflow = false;
    while j < n && digit_at(s, j)
        invariant
            i <= j <= n,
            n == s@.len(),
            forall|k: int| i <= k < j ==> is_digit(#[trigger] s@[k]),
            !overflow ==> num == digits_val(s@.subrange(i as int, j as int)),
            overflow ==> digits_val(s@.subrange(i as int, j as int)) > u64::MAX,
        decreases n - j,
    {
        let c = s.get_char(j);
        let dd = (c as u32 - 48) as u64;
        proof {
            let pre = s@.subrange(i as int, j as int);
            let post = s@.subrange(i as int, j + 1);
            assert(post.drop_last() =~= pre);
            assert(post.last() == s@[j as int]);
            assert(digits_val(post) == digits_val(pre) * 10 + dd);
            assert(forall|k: int| i <= k < j + 1 ==> is_digit(#[trigger] s@[k]));
            assert(all_digits(pre)) by {
                assert(forall|k: int| 0 <= k < pre.len() ==> pre[k] == #[trigger] s@[i + k]);
            }
            lemma_digits_val_nonneg(pre);
        }
        if !overflow && num <= (u64::MAX - dd) / 10 {
            proof {
                assert(num * 10 + dd <= u64::MAX) by (nonlinear_arith)
                    requires
                        num <= (u64::MAX - dd) / 10,
                        dd <= u64::MAX,
                        num >= 0,
                ;
            }
            num = num * 10 + dd;
        } else {
            proof {
                let pre = s@.subrange(i as int, j as int);
                if !overflow {
                    assert(num * 10 + dd > u64::MAX) by (nonlinear_arith)
                        requires
                            num > (u64::MAX - dd) / 10,
                            dd <= u64::MAX,
                            num >= 0,
                    ;
                } else {
                    assert(digits_val(pre) * 10 + dd > u64::MAX) by (nonlinear_arith)
                        requires
                            digits_val(pre) > u64::MAX,
                            dd >= 0,
                    ;
                }
            }
            overflow = true;
        }
        j = j + 1;
    }
    proof {
        let t = s@.skip(i as int);
        assert(forall|x: int| 0 <= x < j - i ==> t[x] == #[trigger] s@[i + x] && is_digit(t[x]));
        if (j as int) < n {
            assert(t[j - i] == s@[j as int]);
        }
        lemma_digits_prefix_len_is(t, j - i);
    }
    (j, num, overflow)
}

/// Parses the suffix of `s` starting at `i` as a duration. Returns its
/// value in milliseconds, or `None` if the suffix is not a duration or its
/// value does not fit in `u64`.
fn parse_at(s: &str, i: usize) -> (r: Option<u64>)
    requires
        i <= s@.len(),
    ensures
        (match duration_millis(s@.skip(i as int)) {
            Option::None => r is None,
            Option::Some(v) => if v <= u64::MAX {
                r == Some(v as u64)
            } else {
                r is None
            },
        }),
    decreases s@.len() - i,
{
    let ghost t = s@.skip(i as int);
    let n = s.unicode_len();
    let (j, num, overflow) = scan_digits(s, i);
    if j == i {
        proof {
            assert(digits_prefix_len(t) == 0);
        }
        return None;
    }
    let ghost d = j - i;
    proof {
        lemma_digits_prefix_len_le(t);
        assert(t.take(d) =~= s@.subrange(i as int, j as int));
        assert(t.skip(d) =~= s@.skip(j as int));
        lemma_digits_val_nonneg(t.take(d));
    }
    // the unit: `ms` before `m`
    let (factor, width): (u64, usize) = if j < n && s.get_char(j) == 'm' {
        if j + 1 < n && s.get_char(j + 1) == 's' {
            (1, 2)
        } else {
            (MS_PER_MINUTE, 1)
        }
    } else if j < n && s.get_char(j) == 's' {
        (MS_PER_SECOND, 1)
    } else if j < n && s.get_char(j) == 'h' {
        (MS_PER_HOUR, 1)
    } else {
        proof {
            assert(unit_at(t.skip(d)) is None);
        }
        return None;
    };
    proof {
        assert(unit_at(t.skip(d)) == Some((factor as int, width as int)));
    }
    let ghost digits = digits_val(t.take(d));
    let ghost term = digits * (factor as int);
    proof {
        assert(digits * (factor as int) >= digits && digits * (factor as int) >= 0)
            by (nonlinear_arith)
            requires
                digits >= 0,
                factor >= 1,
        ;
    }
    // the value of this term, `None` standing for a value above `u64::MAX`
    let this_term: Option<u64> = if overflow {
        proof {
            assert(term > u64::MAX);
        }
        None
    } else if num <= u64::MAX / factor {
        proof {
            assert(num * factor <= u64::MAX) by (nonlinear_arith)
                requires
                    num <= u64::MAX / factor,
                    factor >= 1,
            ;
        }
        Some(num * factor)
    } else {
        proof {
            assert(num * factor > u64::MAX) by (nonlinear_arith)
                requires
                    num > u64::MAX / factor,
                    factor >= 1,
            ;
        }
        None
    };
    if j + width == n {
        proof {
            assert(t.skip(d + width).len() == 0);
            assert(duration_millis(t) == Some(term));
        }
        this_term
    } else {
        proof {
            assert(t.skip(d + width) =~= s@.skip(j + width));
            assert(t.skip(d + width).len() > 0);
        }
        let rest = parse_at(s, j + width);
        proof {
            if duration_millis(s@.skip(j + width)) is Some {
                lemma_duration_value_lb(s@.skip(j + width));
            }
        }
        match (this_term, rest) {
            (Some(tv), Some(rv)) => {
                if tv <= u64::MAX - rv {
                    Some(tv + rv)
                } else {
                    None
                }
            },
            _ => None,
        }
    }
}

/// Parses a duration string (for example `"30s"`, `"5m"`, `"1h30m"`,
/// `"100ms"`). Returns its value in milliseconds; `None` if the string
/// does not belong to the duration grammar or its value does not fit in
/// `u64`.
pub fn parse_duration_ms(s: &str) -> (r: Option<u64>)
    ensures
        (match duration_millis(s@) {
            Option::None => r is None,
            Option::Some(v) => if v <= u64::MAX {
                r == Some(v as u64)
            } else {
                r is None
            },
        }),
{
    proof {
        assert(s@.skip(0) =~= s@);
    }
    parse_at(s, 0)
}

/// Appends the canonical rendering of `ms` milliseconds to `out`.
pub fn append_duration_ms(out: &mut String, ms: u64)
    ensures
        final(out)@ == old(out)@ + fmt_millis(ms as nat),
{
    append_dec(out, ms);
    push_char(out, 'm');
    push_char(out, 's');
    proof {
        assert(final(out)@ =~= old(out)@ + fmt_millis(ms as nat));
    }
}

/// The canonical rendering of `ms` milliseconds as a fresh string.
pub fn format_duration_ms(ms: u64) -> (s: String)
    ensures
        s@ == fmt_millis(ms as nat),
{
    let mut s = String::new();
    append_duration_ms(&mut s, ms);
    proof {
        assert(s@ =~= fmt_millis(ms as nat));
    }
    s
}

} // verus!
