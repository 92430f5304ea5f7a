//! Decimal parsing with the exact acceptance rules of `str::parse`, falling
//! back to zero on rejection, as the coupon feed handling does.

use vstd::prelude::*;

verus! {

/// Whether `c` is a decimal digit.
pub open spec fn is_digit(c: char) -> bool {
    48 <= c as u32 <= 57
}

/// The value of a decimal digit.
pub open spec fn digit_val(c: char) -> nat {
    (c as u32 - 48) as nat
}

/// Whether every character of `s` is a decimal digit.
pub open spec fn all_digits(s: Seq<char>) -> bool {
    forall|i: int| 0 <= i < s.len() ==> is_digit(#[trigger] s[i])
}

/// The numeric value of a digit string, read most significant digit first.
pub open spec fn digits_val(s: Seq<char>) -> nat
    decreases s.len(),
{
    if s.len() == 0 {
        0
    } else {
        digits_val(s.drop_last()) * 10 + digit_val(s.last())
    }
}

/// The digit string a decimal number token denotes, once an optional leading
/// sign is stripped: `None` when the token is empty, carries a stray
/// character, or denotes a value outside the given bounds.
pub open spec fn parsed_magnitude(s: Seq<char>) -> Option<nat> {
    let body = if s.len() >= 1 && (s[0] == '+' || s[0] == '-') {
        s.subrange(1, s.len() as int)
    } else {
        s
    };
    if body.len() == 0 || !all_digits(body) {
        None
    } else {
        Some(digits_val(body))
    }
}

/// Whether the token starts with a minus sign.
pub open spec fn leading_minus(s: Seq<char>) -> bool {
    s.len() >= 1 && s[0] == '-'
}

/// What `str::parse::<u64>` accepts: an optional `+`, then digits, with the
/// value within the type's range. A minus sign is rejected.
pub open spec fn parse_u64_spec(s: Seq<char>) -> Option<u64> {
    if leading_minus(s) {
        None
    } else {
        match parsed_magnitude(s) {
            None => None,
            Some(v) => if v <= u64::MAX {
                Some(v as u64)
            } else {
                None
            },
        }
    }
}

/// What `str::parse::<i32>` accepts: an optional sign, then digits, with the
/// signed value within the type's range.
pub open spec fn parse_i32_spec(s: Seq<char>) -> Option<int> {
    match parsed_magnitude(s) {
        None => None,
        Some(v) => if leading_minus(s) {
            if v <= 0x8000_0000 {
                Some(-(v as int))
            } else {
                None
            }
        } else {
            if v <= 0x7fff_ffff {
                Some(v as int)
            } else {
                None
            }
        },
    }
}

/// Growing a digit string can only grow its value.
proof fn lemma_digits_val_take_monotone(s: Seq<char>, i: int)
    requires
        0 <= i <= s.len(),
    ensures
        digits_val(s.subrange(0, i)) <= digits_val(s),
    decreases s.len() - i,
{
    if i == s.len() {
        assert(s.subrange(0, i) =~= s);
    } else {
        lemma_digits_val_take_monotone(s, i + 1);
        let shorter = s.subrange(0, i);
        let longer = s.subrange(0, i + 1);
        assert(longer.drop_last() =~= shorter);
        assert(digits_val(longer) == digits_val(shorter) * 10 + digit_val(longer.last()));
    }
}

/// Reads an unsigned decimal number the way `str::parse::<u64>` does,
/// and yields zero where the parse would fail.
pub fn parse_u64_or_zero(s: &str) -> (r: u64)
    ensures
        r == match parse_u64_spec(s@) {
            Some(v) => v,
            None => 0u64,
        },
{
    let len = s.unicode_len();
    if len == 0 {
        return 0;
    }
    let first = s.get_char(0);
    let start: usize = if first == '+' {
        1
    } else {
        0
    };
    if first == '-' {
        return 0;
    }
    if start == len {
        return 0;
    }
    let ghost body = if first == '+' {
        s@.subrange(1, s@.len() as int)
    } else {
        s@
    };
    proof {
        if first != '+' {
            assert(body.subrange(0, body.len() as int) =~= body);
        }
    }
    let mut acc: u64 = 0;
    let mut i: usize = start;
    while i < len
        invariant
            start <= i <= len,
            len == s@.len(),
            start == 0 || start == 1,
            start == 1 ==> s@[0] == '+',
            start == 0 ==> (body == s@ && s@[0] != '+'),
            !leading_minus(s@),
            start == 1 ==> body == s@.subrange(1, s@.len() as int),
            body.len() == len - start,
            forall|k: int| 0 <= k < i - start ==> is_digit(#[trigger] body[k]),
            acc == digits_val(body.subrange(0, i - start)),
        decreases len - i,
    {
        let c = s.get_char(i);
        let cv = c as u32;
        if cv < 48 || cv > 57 {
            proof {
                assert(body[i - start] == s@[i as int]);
                assert(!is_digit(body[i - start]));
                assert(!all_digits(body));
            }
            return 0;
        }
        let d: u64 = (cv - 48) as u64;
        let stepped = match acc.checked_mul(10) {
            Some(m) => m.checked_add(d),
            None => None,
        };
        match stepped {
            Some(next) => {
                acc = next;
            },
            None => {
                proof {
                    let pre = body.subrange(0, i - start + 1);
                    assert(pre.drop_last() =~= body.subrange(0, i - start));
                    assert(digits_val(pre) > u64::MAX);
                    lemma_digits_val_take_monotone(body, i - start + 1);
                }
                return 0;
            },
        }
        i += 1;
        proof {
            let pre = body.subrange(0, i - start);
            assert(pre.drop_last() =~= body.subrange(0, i - start - 1));
        }
    }
    proof {
        assert(body.subrange(0, body.len() as int) =~= body);
    }
    acc
}

/// Reads a signed decimal number the way `str::parse::<i32>` does,
/// and yields zero where the parse would fail.
pub fn parse_i32_or_zero(s: &str) -> (r: i32)
    ensures
        r as int == match parse_i32_spec(s@) {
            Some(v) => v,
            None => 0,
        },
{
    let len = s.unicode_len();
    if len == 0 {
        return 0;
    }
    let first = s.get_char(0);
    let negative = first == '-';
    let start: usize = if first == '+' || first == '-' {
        1
    } else {
        0
    };
    if start == len {
        return 0;
    }
    let ghost body = if start == 1 {
        s@.subrange(1, s@.len() as int)
    } else {
        s@
    };
    let mut acc: u64 = 0;
    let mut i: usize = start;
    while i < len
        invariant
            start <= i <= len,
            len == s@.len(),
            start == 0 || start == 1,
            start == 1 ==> (s@[0] == '+' || s@[0] == '-'),
            start == 0 ==> (body == s@ && s@[0] != '+' && s@[0] != '-'),
            start == 1 ==> (negative <==> s@[0] == '-'),
            start == 1 ==> body == s@.subrange(1, s@.len() as int),
            negative == leading_minus(s@),
            body.len() == len - start,
            forall|k: int| 0 <= k < i - start ==> is_digit(#[trigger] body[k]),
            acc == digits_val(body.subrange(0, i - start)),
        decreases len - i,
    {
        let c = s.get_char(i);
        let cv = c as u32;
        if cv < 48 || cv > 57 {
            proof {
                assert(body[i - start] == s@[i as int]);
                assert(!is_digit(body[i - start]));
                assert(!all_digits(body));
            }
            return 0;
        }
        let d: u64 = (cv - 48) as u64;
        let stepped = match acc.checked_mul(10) {
            Some(m) => m.checked_add(d),
            None => None,
        };
        match stepped {
            Some(next) => {
                acc = next;
            },
            None => {
                proof {
                    let pre = body.subrange(0, i - start + 1);
                    assert(pre.drop_last() =~= body.subrange(0, i - start));
                    assert(digits_val(pre) > u64::MAX);
                    lemma_digits_val_take_monotone(body, i - start + 1);
                }
                return 0;
            },
        }
        i += 1;
        proof {
            let pre = body.subrange(0, i - start);
            assert(pre.drop_last() =~= body.subrange(0, i - start - 1));
        }
    }
    proof {
        assert(body.subrange(0, body.len() as int) =~= body);
    }
    if negative {
        if acc > 0x8000_0000 {
            0
        } else {
            (-(acc as i64)) as i32
        }
    } else {
        if acc > 0x7fff_ffff {
            0
        } else {
            acc as i32
        }
    }
}

} // verus!
