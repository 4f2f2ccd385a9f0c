use vstd::prelude::*;

verus! {

/// Whether `c` is a decimal digit.
pub open spec fn is_digit_char(c: char) -> bool {
    48 <= c as int <= 57
}

/// The numeric value of a decimal digit.
pub open spec fn digit_val(c: char) -> int {
    c as int - 48
}

/// Whether every character of the sequence is a decimal digit.
pub open spec fn all_digits(s: Seq<char>) -> bool {
    forall|i: int| 0 <= i < s.len() ==> is_digit_char(s[i])
}

/// The value of a sequence of decimal digits, most significant first.
pub open spec fn dec_val(s: Seq<char>) -> int
    decreases s.len(),
{
    if s.len() == 0 {
        0
    } else {
        dec_val(s.drop_last()) * 10 + digit_val(s.last())
    }
}

/// What parsing the text as an unsigned 16-bit decimal yields: an optional
/// single `+` sign, then at least one digit, with a value that fits.
pub open spec fn spec_parse_u16(s: Seq<char>) -> Option<u16> {
    let d = if s.len() > 0 && s[0] == '+' {
        s.drop_first()
    } else {
        s
    };
    if d.len() > 0 && all_digits(d) && dec_val(d) <= u16::MAX {
        Some(dec_val(d) as u16)
    } else {
        None
    }
}

/// What parsing the text as a signed 32-bit decimal yields: an optional
/// single `+` or `-` sign, then at least one digit, with a value that fits.
pub open spec fn spec_parse_i32(s: Seq<char>) -> Option<i32> {
    let neg = s.len() > 0 && s[0] == '-';
    let d = if s.len() > 0 && (s[0] == '+' || s[0] == '-') {
        s.drop_first()
    } else {
        s
    };
    if d.len() > 0 && all_digits(d) {
        let v = if neg {
            -dec_val(d)
        } else {
            dec_val(d)
        };
        if i32::MIN <= v <= i32::MAX {
            Some(v as i32)
        } else {
            None
        }
    } else {
        None
    }
}

/// A sequence of digits has a non-negative value.
proof fn lemma_dec_val_nonneg(s: Seq<char>)
    requires
        all_digits(s),
    ensures
        dec_val(s) >= 0,
    decreases s.len(),
{
    if s.len() > 0 {
        assert(all_digits(s.drop_last()));
        lemma_dec_val_nonneg(s.drop_last());
    }
}

/// Reading one more digit multiplies the prefix value by ten and adds it.
proof fn lemma_dec_val_step(s: Seq<char>, k: int)
    requires
        0 <= k < s.len(),
    ensures
        dec_val(s.subrange(0, k + 1)) == dec_val(s.subrange(0, k)) * 10 + digit_val(s[k]),
{
    let p = s.subrange(0, k + 1);
    assert(p.drop_last() =~= s.subrange(0, k));
    assert(p.last() == s[k]);
}

/// The value of a digit sequence is at least the value of any of its
/// prefixes.
proof fn lemma_dec_val_prefix_le(s: Seq<char>, k: int)
    requires
        all_digits(s),
        0 <= k <= s.len(),
    ensures
        dec_val(s) >= dec_val(s.subrange(0, k)),
    decreases s.len() - k,
{
    if k == s.len() {
        assert(s.subrange(0, s.len() as int) =~= s);
    } else {
        lemma_dec_val_step(s, k);
        assert(all_digits(s.subrange(0, k))) by {
            assert(forall|i: int| 0 <= i < k ==> s.subrange(0, k)[i] == s[i]);
        }
        lemma_dec_val_nonneg(s.subrange(0, k));
        lemma_dec_val_prefix_le(s, k + 1);
    }
}

/// Parse the text as an unsigned 16-bit decimal: an optional single `+`
/// sign, then at least one digit, rejecting values that do not fit.
#[verifier::loop_isolation(false)]
pub fn parse_u16(s: &str) -> (r: Option<u16>)
    ensures
        r == spec_parse_u16(s@),
{
    let n = s.unicode_len();
    let offset: usize = if n > 0 && s.get_char(0) == '+' {
        1
    } else {
        0
    };
    let ghost d = if s@.len() > 0 && s@[0] == '+' {
        s@.drop_first()
    } else {
        s@
    };
    proof {
        assert(d =~= s@.subrange(offset as int, n as int));
    }
    if offset == n {
        return None;
    }
    let mut acc: u32 = 0;
    let mut j: usize = offset;
    while j < n
        invariant
            offset <= j <= n,
            n == s@.len(),
            d =~= s@.subrange(offset as int, n as int),
            all_digits(s@.subrange(offset as int, j as int)),
            acc == dec_val(s@.subrange(offset as int, j as int)),
            acc <= u16::MAX,
        decreases n - j,
    {
        let c = s.get_char(j);
        let cv = c as u32;
        let ghost pre = s@.subrange(offset as int, j as int);
        let ghost pre2 = s@.subrange(offset as int, j + 1 as int);
        if cv < 48 || cv > 57 {
            proof {
                assert(!is_digit_char(s@[j as int]));
                assert(d[j - offset] == s@[j as int]);
                assert(!all_digits(d));
            }
            return None;
        }
        let next = acc * 10 + (cv - 48);
        proof {
            assert(pre2.drop_last() =~= pre);
            assert(pre2.last() == s@[j as int]);
            assert(dec_val(pre2) == dec_val(pre) * 10 + digit_val(s@[j as int]));
        }
        if next > 65535 {
            proof {
                if all_digits(d) {
                    assert(pre2 =~= d.subrange(0, j + 1 - offset));
                    lemma_dec_val_prefix_le(d, j + 1 - offset);
                    assert(dec_val(d) > u16::MAX);
                }
            }
            return None;
        }
        acc = next;
        j = j + 1;
        proof {
            assert(s@.subrange(offset as int, j as int) =~= pre2);
        }
    }
    proof {
        assert(s@.subrange(offset as int, j as int) =~= d);
    }
    Some(acc as u16)
}

/// Parse the text as a signed 32-bit decimal: an optional single `+` or
/// `-` sign, then at least one digit, rejecting values that do not fit.
#[verifier::loop_isolation(false)]
pub fn parse_i32(s: &str) -> (r: Option<i32>)
    ensures
        r == spec_parse_i32(s@),
{
    let n = s.unicode_len();
    let mut neg = false;
    let mut offset: usize = 0;
    if n > 0 {
        let c0 = s.get_char(0);
        if c0 == '+' {
            offset = 1;
        } else if c0 == '-' {
            offset = 1;
            neg = true;
        }
    }
    let ghost d = if s@.len() > 0 && (s@[0] == '+' || s@[0] == '-') {
        s@.drop_first()
    } else {
        s@
    };
    proof {
        assert(d =~= s@.subrange(offset as int, n as int));
    }
    if offset == n {
        return None;
    }
    let limit: u64 = if neg {
        2147483648
    } else {
        2147483647
    };
    let mut acc: u64 = 0;
    let mut j: usize = offset;
    while j < n
        invariant
            offset <= j <= n,
            n == s@.len(),
            d =~= s@.subrange(offset as int, n as int),
            all_digits(s@.subrange(offset as int, j as int)),
            acc == dec_val(s@.subrange(offset as int, j as int)),
            acc <= limit,
            limit == if neg { 2147483648u64 } else { 2147483647u64 },
            neg == (s@.len() > 0 && s@[0] == '-'),
        decreases n - j,
    {
        let c = s.get_char(j);
        let cv = c as u64;
        let ghost pre = s@.subrange(offset as int, j as int);
        let ghost pre2 = s@.subrange(offset as int, j + 1 as int);
        if cv < 48 || cv > 57 {
            proof {
                assert(!is_digit_char(s@[j as int]));
                assert(d[j - offset] == s@[j as int]);
                assert(!all_digits(d));
            }
            return None;
        }
        let next = acc * 10 + (cv - 48);
        proof {
            assert(pre2.drop_last() =~= pre);
            assert(pre2.last() == s@[j as int]);
            assert(dec_val(pre2) == dec_val(pre) * 10 + digit_val(s@[j as int]));
        }
        if next > limit {
            proof {
                if all_digits(d) {
                    assert(pre2 =~= d.subrange(0, j + 1 - offset));
                    lemma_dec_val_prefix_le(d, j + 1 - offset);
                    assert(dec_val(d) > limit);
                }
            }
            return None;
        }
        acc = next;
        j = j + 1;
        proof {
            assert(s@.subrange(offset as int, j as int) =~= pre2);
        }
    }
    proof {
        assert(s@.subrange(offset as int, j as int) =~= d);
    }
    let v: i64 = if neg {
        -(acc as i64)
    } else {
        acc as i64
    };
    Some(v as i32)
}

} // verus!
