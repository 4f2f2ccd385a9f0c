use vstd::prelude::*;

verus! {

/// ASCII whitespace: the characters trimmed around a bearer token.
pub open spec fn is_space_char(c: char) -> bool {
    c == ' ' || c == '\t' || c == '\n' || c == '\r' || c == '\u{b}' || c == '\u{c}'
}

/// The sequence without its leading whitespace.
pub open spec fn trim_start_spec(s: Seq<char>) -> Seq<char>
    decreases s.len(),
{
    if s.len() > 0 && is_space_char(s[0]) {
        trim_start_spec(s.drop_first())
    } else {
        s
    }
}

/// The sequence without its trailing whitespace.
pub open spec fn trim_end_spec(s: Seq<char>) -> Seq<char>
    decreases s.len(),
{
    if s.len() > 0 && is_space_char(s.last()) {
        trim_end_spec(s.drop_last())
    } else {
        s
    }
}

/// The sequence without leading and trailing whitespace.
pub open spec fn trim_spec(s: Seq<char>) -> Seq<char> {
    trim_end_spec(trim_start_spec(s))
}

/// Token text that bearer-header framing cannot disturb: nonempty, with
/// no whitespace anywhere.
pub open spec fn whitespace_free(t: Seq<char>) -> bool {
    t.len() > 0 && forall|i: int| 0 <= i < t.len() ==> !is_space_char(t[i])
}

/// Whether the header value opens with the literal `Bearer` scheme tag,
/// case-sensitively.
pub open spec fn has_bearer_prefix(s: Seq<char>) -> bool {
    s.len() >= 6 && s.subrange(0, 6) == "Bearer"@
}

/// The candidate token inside an `Authorization` header value: the text
/// after the literal `Bearer` tag, trimmed of surrounding whitespace.
pub open spec fn candidate_token(s: Seq<char>) -> Seq<char> {
    if has_bearer_prefix(s) {
        trim_spec(s.subrange(6, s.len() as int))
    } else {
        trim_spec(s)
    }
}

/// Whether `c` is one of the trimmed whitespace characters.
pub(crate) fn is_space(c: char) -> (r: bool)
    ensures
        r == is_space_char(c),
{
    c == ' ' || c == '\t' || c == '\n' || c == '\r' || c == '\u{b}' || c == '\u{c}'
}

/// Whether the header value opens with the literal `Bearer` tag.
fn bearer_prefix(header: &str) -> (r: bool)
    ensures
        r == has_bearer_prefix(header@),
{
    proof {
        reveal_strlit("Bearer");
    }
    let n = header.unicode_len();
    if n < 6 {
        return false;
    }
    let r = header.get_char(0) == 'B' && header.get_char(1) == 'e' && header.get_char(2) == 'a'
        && header.get_char(3) == 'r' && header.get_char(4) == 'e' && header.get_char(5) == 'r';
    proof {
        let pre = header@.subrange(0, 6);
        assert(pre[0] == header@[0] && pre[1] == header@[1] && pre[2] == header@[2]
            && pre[3] == header@[3] && pre[4] == header@[4] && pre[5] == header@[5]);
        if r {
            assert(pre =~= "Bearer"@);
        }
    }
    r
}

/// Dropping `k` leading whitespace characters, down to the first
/// non-whitespace one, is exactly what trimming from the start does.
proof fn lemma_trim_start_skip(s: Seq<char>, k: int)
    requires
        0 <= k <= s.len(),
        forall|i: int| 0 <= i < k ==> is_space_char(s[i]),
        k == s.len() || !is_space_char(s[k]),
    ensures
        trim_start_spec(s) =~= s.subrange(k, s.len() as int),
    decreases k,
{
    if k == 0 {
        assert(s.subrange(0, s.len() as int) =~= s);
    } else {
        let s2 = s.drop_first();
        assert(forall|i: int| 0 <= i < k - 1 ==> is_space_char(s2[i]));
        lemma_trim_start_skip(s2, k - 1);
        assert(s2.subrange(k - 1, s2.len() as int) =~= s.subrange(k, s.len() as int));
    }
}

/// Dropping the trailing whitespace characters after position `k`, up from
/// the last non-whitespace one, is exactly what trimming from the end does.
proof fn lemma_trim_end_skip(s: Seq<char>, k: int)
    requires
        0 <= k <= s.len(),
        forall|i: int| k <= i < s.len() ==> is_space_char(s[i]),
        k == 0 || !is_space_char(s[k - 1]),
    ensures
        trim_end_spec(s) =~= s.subrange(0, k),
    decreases s.len() - k,
{
    if k == s.len() {
        assert(s.subrange(0, s.len() as int) =~= s);
    } else {
        let s2 = s.drop_last();
        assert(forall|i: int| k <= i < s2.len() ==> is_space_char(s2[i]));
        lemma_trim_end_skip(s2, k);
        assert(s2.subrange(0, k) =~= s.subrange(0, k));
    }
}

/// The candidate token of an `Authorization` header value: everything
/// after the `Bearer` tag, trimmed of surrounding whitespace.
pub fn extract_bearer_token(header: &str) -> (t: String)
    ensures
        t@ == candidate_token(header@),
{
    let n = header.unicode_len();
    let offset: usize = if bearer_prefix(header) {
        6
    } else {
        0
    };
    let mut start: usize = offset;
    while start < n && is_space(header.get_char(start))
        invariant
            offset <= start <= n,
            n == header@.len(),
            forall|i: int| offset <= i < start ==> is_space_char(header@[i]),
        decreases n - start,
    {
        start = start + 1;
    }
    let mut end: usize = n;
    while end > start && is_space(header.get_char(end - 1))
        invariant
            start <= end <= n,
            n == header@.len(),
            forall|i: int| end <= i < n ==> is_space_char(header@[i]),
        decreases end,
    {
        end = end - 1;
    }
    let token = header.substring_char(start, end);
    proof {
        let s = header@;
        let rest = s.subrange(offset as int, n as int);
        if has_bearer_prefix(s) {
            assert(rest =~= s.subrange(6, s.len() as int));
        } else {
            assert(rest =~= s);
        }
        assert(forall|i: int| 0 <= i < start - offset ==> is_space_char(rest[i]));
        lemma_trim_start_skip(rest, start - offset);
        let middle = s.subrange(start as int, n as int);
        assert(trim_start_spec(rest) =~= middle);
        assert(forall|i: int| end - start <= i < middle.len() ==> is_space_char(middle[i]));
        lemma_trim_end_skip(middle, end - start);
        assert(trim_end_spec(middle) =~= s.subrange(start as int, end as int));
        assert(candidate_token(s) == trim_end_spec(trim_start_spec(rest)));
        assert(token@ == candidate_token(header@));
    }
    token.to_owned()
}

/// A well-formed bearer header — the `Bearer` tag, one space, the token —
/// yields that token again, wherever the token itself neither begins nor
/// ends with whitespace.
pub proof fn lemma_bearer_header_extracts(t: Seq<char>)
    requires
        t.len() > 0,
        !is_space_char(t[0]),
        !is_space_char(t[t.len() - 1]),
    ensures
        candidate_token("Bearer "@ + t) == t,
{
    reveal_strlit("Bearer ");
    reveal_strlit("Bearer");
    let h = "Bearer "@ + t;
    assert(h.subrange(0, 6) =~= "Bearer"@);
    assert(has_bearer_prefix(h));
    let rest = h.subrange(6, h.len() as int);
    assert(rest.len() == 1 + t.len());
    assert(rest[0] == ' ');
    assert(rest.drop_first() =~= t);
    assert(trim_start_spec(rest) == trim_start_spec(t));
    assert(trim_start_spec(t) == t);
    assert(trim_end_spec(t) == t);
}

} // verus!
