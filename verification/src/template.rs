use vstd::prelude::*;

verus! {

/// The text with every occurrence of the pattern replaced, leftmost
/// first and without overlap; an empty pattern replaces nothing.
pub open spec fn replace_spec(s: Seq<u8>, pat: Seq<u8>, rep: Seq<u8>) -> Seq<u8>
    decreases s.len(),
{
    if pat.len() == 0 || s.len() < pat.len() {
        s
    } else if s.subrange(0, pat.len() as int) == pat {
        rep + replace_spec(s.subrange(pat.len() as int, s.len() as int), pat, rep)
    } else {
        seq![s[0]] + replace_spec(s.drop_first(), pat, rep)
    }
}

/// Whether the pattern stands in the text at position `i`.
#[verifier::loop_isolation(false)]
fn matches_at(text: &Vec<u8>, i: usize, pattern: &Vec<u8>) -> (r: bool)
    requires
        i + pattern@.len() <= text@.len(),
    ensures
        r == (text@.subrange(i as int, i + pattern@.len()) == pattern@),
{
    let n = text.len();
    let m = pattern.len();
    let ghost window = text@.subrange(i as int, i + pattern@.len());
    let mut k: usize = 0;
    while k < m
        invariant
            k <= m,
            forall|j: int| 0 <= j < k ==> text@[i + j] == pattern@[j],
        decreases m - k,
    {
        assert(i + k < n);
        if text[i + k] != pattern[k] {
            proof {
                assert(window[k as int] == text@[i + k]);
            }
            return false;
        }
        k = k + 1;
    }
    proof {
        assert(window =~= pattern@);
    }
    true
}

/// The text with every occurrence of the pattern replaced, leftmost first
/// and without overlap, as the notification email's template placeholders
/// are filled in.
#[verifier::loop_isolation(false)]
pub fn replace_all(text: &Vec<u8>, pattern: &Vec<u8>, replacement: &Vec<u8>) -> (r: Vec<u8>)
    requires
        pattern@.len() > 0,
    ensures
        r@ == replace_spec(text@, pattern@, replacement@),
{
    let n = text.len();
    let m = pattern.len();
    let ghost goal = replace_spec(text@, pattern@, replacement@);
    let mut out: Vec<u8> = Vec::new();
    let mut i: usize = 0;
    proof {
        assert(text@.subrange(0, n as int) =~= text@);
        assert(out@ + replace_spec(text@, pattern@, replacement@) =~= goal);
    }
    while i < n
        invariant
            i <= n,
            goal == out@ + replace_spec(text@.subrange(i as int, n as int), pattern@, replacement@),
        decreases n - i,
    {
        let ghost suffix = text@.subrange(i as int, n as int);
        let hit = if m <= n - i {
            matches_at(text, i, pattern)
        } else {
            false
        };
        if hit {
            proof {
                assert(suffix.subrange(0, m as int) =~= text@.subrange(i as int, i + m));
                assert(suffix.subrange(m as int, suffix.len() as int) =~= text@.subrange(
                    i + m,
                    n as int,
                ));
                assert(replace_spec(suffix, pattern@, replacement@) == replacement@ + replace_spec(
                    text@.subrange(i + m, n as int),
                    pattern@,
                    replacement@,
                ));
            }
            let ghost out0 = out@;
            let mut k: usize = 0;
            while k < replacement.len()
                invariant
                    k <= replacement@.len(),
                    out@ == out0 + replacement@.subrange(0, k as int),
                decreases replacement@.len() - k,
            {
                out.push(replacement[k]);
                proof {
                    assert(out@ =~= out0 + replacement@.subrange(0, k + 1 as int));
                }
                k = k + 1;
            }
            proof {
                assert(replacement@.subrange(0, replacement@.len() as int) =~= replacement@);
                assert(out@ + replace_spec(text@.subrange(i + m, n as int), pattern@, replacement@)
                    =~= out0 + replace_spec(suffix, pattern@, replacement@));
            }
            i = i + m;
        } else {
            proof {
                if suffix.len() >= m {
                    assert(text@.subrange(i as int, i + m) != pattern@);
                    assert(suffix.subrange(0, m as int) =~= text@.subrange(i as int, i + m));
                    assert(suffix.drop_first() =~= text@.subrange(i + 1, n as int));
                    assert(replace_spec(suffix, pattern@, replacement@) == seq![suffix[0]]
                        + replace_spec(text@.subrange(i + 1, n as int), pattern@, replacement@));
                } else {
                    assert(replace_spec(suffix, pattern@, replacement@) == suffix);
                    assert(text@.subrange(i + 1, n as int) =~= suffix.drop_first());
                    assert(replace_spec(suffix.drop_first(), pattern@, replacement@)
                        == suffix.drop_first());
                    assert(suffix =~= seq![suffix[0]] + suffix.drop_first());
                }
                assert(suffix[0] == text@[i as int]);
            }
            let b = text[i];
            out.push(b);
            proof {
                assert(out@ + replace_spec(text@.subrange(i + 1, n as int), pattern@, replacement@)
                    =~= goal);
            }
            i = i + 1;
        }
    }
    proof {
        assert(text@.subrange(n as int, n as int) =~= Seq::<u8>::empty());
        assert(replace_spec(Seq::<u8>::empty(), pattern@, replacement@) == Seq::<u8>::empty());
        assert(out@ + Seq::<u8>::empty() =~= out@);
    }
    out
}

} // verus!
