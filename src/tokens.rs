//! Whitespace classification and whitespace-delimited token counting.
use vstd::prelude::*;
use vstd::string::StrSliceExecFns;

verus! {

/// The characters with the Unicode `White_Space` property.
pub open spec fn is_space(c: char) -> bool {
    let n = c as u32;
    (0x9 <= n && n <= 0xd) || n == 0x20 || n == 0x85 || n == 0xa0 || n == 0x1680 || (0x2000 <= n
        && n <= 0x200a) || n == 0x2028 || n == 0x2029 || n == 0x202f || n == 0x205f || n == 0x3000
}

/// A token starts at `i` when `s[i]` is not whitespace and either begins the
/// text or follows whitespace.
pub open spec fn starts_token(s: Seq<char>, i: int) -> bool {
    &&& 0 <= i < s.len()
    &&& !is_space(s[i])
    &&& (i == 0 || is_space(s[i - 1]))
}

/// The number of tokens that start among the first `n` characters of `s`.
pub open spec fn tokens_before(s: Seq<char>, n: int) -> nat
    decreases n,
{
    if n <= 0 {
        0
    } else {
        tokens_before(s, n - 1) + if starts_token(s, n - 1) {
            1nat
        } else {
            0nat
        }
    }
}

/// The number of maximal runs of non-whitespace characters in `s`.
pub open spec fn token_count(s: Seq<char>) -> nat {
    tokens_before(s, s.len() as int)
}

/// Tells whether `c` is a whitespace character.
pub fn is_space_char(c: char) -> (r: bool)
    ensures
        r == is_space(c),
{
    let n = c as u32;
    (0x9 <= n && n <= 0xd) || n == 0x20 || n == 0x85 || n == 0xa0 || n == 0x1680 || (0x2000 <= n
        && n <= 0x200a) || n == 0x2028 || n == 0x2029 || n == 0x202f || n == 0x205f || n == 0x3000
}

/// Counts the whitespace-delimited tokens of `s`.
pub fn count_tokens(s: &str) -> (r: usize)
    ensures
        r == token_count(s@),
{
    let len = s.unicode_len();
    let mut count: usize = 0;
    let mut prev_space = true;
    let mut i: usize = 0;
    for c in it: s.chars()
        invariant
            it.seq() == s@,
            i == it.index(),
            count == tokens_before(s@, i as int),
            prev_space == (i == 0 || is_space(s@[i - 1])),
            count <= i,
            len == s@.len(),
    {
        let space = is_space_char(c);
        if !space && prev_space {
            count = count + 1;
        }
        prev_space = space;
        i = i + 1;
    }
    count
}

/// Whether every character of `s` is whitespace.
pub open spec fn all_space(s: Seq<char>) -> bool {
    forall|i: int| 0 <= i < s.len() ==> is_space(#[trigger] s[i])
}

/// `s` without its leading whitespace.
pub open spec fn trim_start(s: Seq<char>) -> Seq<char>
    decreases s.len(),
{
    if s.len() > 0 && is_space(s[0]) {
        trim_start(s.drop_first())
    } else {
        s
    }
}

/// `s` without its trailing whitespace.
pub open spec fn trim_end(s: Seq<char>) -> Seq<char>
    decreases s.len(),
{
    if s.len() > 0 && is_space(s.last()) {
        trim_end(s.drop_last())
    } else {
        s
    }
}

/// `s` without its leading and trailing whitespace.
pub open spec fn trim(s: Seq<char>) -> Seq<char> {
    trim_end(trim_start(s))
}

proof fn lemma_trim_start_at(s: Seq<char>, k: int)
    requires
        0 <= k <= s.len(),
        all_space(s.subrange(0, k)),
        k == s.len() || !is_space(s[k]),
    ensures
        trim_start(s) == s.subrange(k, s.len() as int),
    decreases k,
{
    if k == 0 {
        assert(s.subrange(0, s.len() as int) == s);
    } else {
        assert(is_space(s.subrange(0, k)[0]));
        let t = s.drop_first();
        assert forall|i: int| 0 <= i < k - 1 implies is_space(#[trigger] t.subrange(0, k - 1)[i]) by {
            assert(s.subrange(0, k)[i + 1] == t.subrange(0, k - 1)[i]);
        }
        lemma_trim_start_at(t, k - 1);
        assert(t.subrange(k - 1, t.len() as int) == s.subrange(k, s.len() as int));
    }
}

proof fn lemma_trim_end_at(s: Seq<char>, k: int)
    requires
        0 <= k <= s.len(),
        all_space(s.subrange(k, s.len() as int)),
        k == 0 || !is_space(s[k - 1]),
    ensures
        trim_end(s) == s.subrange(0, k),
    decreases s.len() - k,
{
    if k == s.len() {
        assert(s.subrange(0, s.len() as int) == s);
    } else {
        assert(is_space(s.subrange(k, s.len() as int)[s.len() - 1 - k]));
        let t = s.drop_last();
        assert forall|i: int| 0 <= i < t.len() - k implies is_space(
            #[trigger] t.subrange(k, t.len() as int)[i],
        ) by {
            assert(s.subrange(k, s.len() as int)[i] == t.subrange(k, t.len() as int)[i]);
        }
        lemma_trim_end_at(t, k);
        assert(t.subrange(0, k) == s.subrange(0, k));
    }
}

/// Removes the leading and trailing whitespace of `s`.
pub fn trim_spaces(s: &str) -> (r: String)
    ensures
        r@ == trim(s@),
{
    let len = s.unicode_len();
    let mut first: usize = 0;
    let mut end: usize = 0;
    let mut found = false;
    let mut i: usize = 0;
    for c in it: s.chars()
        invariant
            it.seq() == s@,
            i == it.index(),
            len == s@.len(),
            found ==> first < end <= i && !is_space(s@[first as int]) && !is_space(
                s@[end - 1],
            ),
            found ==> all_space(s@.subrange(0, first as int)),
            found ==> all_space(s@.subrange(end as int, i as int)),
            !found ==> all_space(s@.subrange(0, i as int)),
    {
        if !is_space_char(c) {
            if !found {
                first = i;
                found = true;
            }
            end = i + 1;
        }
        assert(s@.subrange(0, i + 1) == s@.subrange(0, i as int).push(c));
        if end <= i {
            assert(s@.subrange(end as int, i + 1) == s@.subrange(end as int, i as int).push(c));
        }
        i = i + 1;
    }
    proof {
        assert(s@.subrange(0, s@.len() as int) == s@);
    }
    if !found {
        proof {
            lemma_trim_start_at(s@, s@.len() as int);
            assert(trim_start(s@).len() == 0);
        }
        return String::new();
    }
    proof {
        lemma_trim_start_at(s@, first as int);
        let t = s@.subrange(first as int, s@.len() as int);
        assert(t.subrange(end - first, t.len() as int) == s@.subrange(end as int, s@.len() as int));
        assert(t[end - first - 1] == s@[end - 1]);
        lemma_trim_end_at(t, end - first);
        assert(t.subrange(0, end - first) == s@.subrange(first as int, end as int));
    }
    s.substring_char(first, end).to_string()
}

proof fn lemma_tokens_before_agree(a: Seq<char>, b: Seq<char>, n: int)
    requires
        0 <= n <= a.len(),
        n <= b.len(),
        a.subrange(0, n) == b.subrange(0, n),
    ensures
        tokens_before(a, n) == tokens_before(b, n),
    decreases n,
{
    if n > 0 {
        assert(a.subrange(0, n - 1) == a.subrange(0, n).subrange(0, n - 1));
        assert(b.subrange(0, n - 1) == b.subrange(0, n).subrange(0, n - 1));
        lemma_tokens_before_agree(a, b, n - 1);
        assert(a[n - 1] == a.subrange(0, n)[n - 1]);
        assert(b[n - 1] == b.subrange(0, n)[n - 1]);
        if n >= 2 {
            assert(a[n - 2] == a.subrange(0, n)[n - 2]);
            assert(b[n - 2] == b.subrange(0, n)[n - 2]);
        }
    }
}

proof fn lemma_tokens_before_spaces(s: Seq<char>, n: int)
    requires
        0 <= n <= s.len(),
        forall|i: int| 0 <= i < n ==> is_space(#[trigger] s[i]),
    ensures
        tokens_before(s, n) == 0,
    decreases n,
{
    if n > 0 {
        lemma_tokens_before_spaces(s, n - 1);
    }
}

proof fn lemma_tokens_after_prefix(p: Seq<char>, s: Seq<char>, n: int)
    requires
        all_space(p),
        0 <= n <= s.len(),
    ensures
        tokens_before(p + s, p.len() + n) == tokens_before(s, n),
    decreases n,
{
    let t = p + s;
    if n == 0 {
        lemma_tokens_before_spaces(t, p.len() as int);
    } else {
        lemma_tokens_after_prefix(p, s, n - 1);
        assert(t[p.len() + n - 1] == s[n - 1]);
        if n >= 2 {
            assert(t[p.len() + n - 2] == s[n - 2]);
        } else if p.len() > 0 {
            assert(t[p.len() - 1] == p[p.len() - 1]);
        }
    }
}

proof fn lemma_tokens_before_suffix(s: Seq<char>, q: Seq<char>, m: int)
    requires
        all_space(q),
        0 <= m <= q.len(),
    ensures
        tokens_before(s + q, s.len() + m) == token_count(s),
    decreases m,
{
    let t = s + q;
    if m == 0 {
        assert(t.subrange(0, s.len() as int) == s.subrange(0, s.len() as int));
        lemma_tokens_before_agree(t, s, s.len() as int);
    } else {
        lemma_tokens_before_suffix(s, q, m - 1);
        assert(t[s.len() + m - 1] == q[m - 1]);
    }
}

/// Surrounding a text with whitespace, before it and after it, leaves its
/// token count unchanged.
pub proof fn lemma_token_count_ignores_padding(pre: Seq<char>, s: Seq<char>, post: Seq<char>)
    requires
        all_space(pre),
        all_space(post),
    ensures
        token_count(pre + s + post) == token_count(s),
{
    lemma_tokens_before_suffix(pre + s, post, post.len() as int);
    lemma_tokens_after_prefix(pre, s, s.len() as int);
}

proof fn lemma_trim_start_empty(s: Seq<char>)
    ensures
        all_space(s) ==> trim_start(s).len() == 0,
        !all_space(s) ==> trim_start(s).len() > 0 && !is_space(trim_start(s)[0]),
    decreases s.len(),
{
    if s.len() > 0 && is_space(s[0]) {
        let t = s.drop_first();
        lemma_trim_start_empty(t);
        if all_space(t) {
            assert forall|i: int| 0 <= i < s.len() implies is_space(#[trigger] s[i]) by {
                if i > 0 {
                    assert(s[i] == t[i - 1]);
                }
            }
        } else {
            let k = choose|k: int| 0 <= k < t.len() && !is_space(#[trigger] t[k]);
            assert(s[k + 1] == t[k]);
        }
    } else if s.len() == 0 {
    } else {
        assert(!is_space(s[0]));
    }
}

proof fn lemma_trim_end_keeps_head(s: Seq<char>)
    requires
        s.len() > 0,
        !is_space(s[0]),
    ensures
        trim_end(s).len() > 0,
    decreases s.len(),
{
    if is_space(s.last()) {
        let t = s.drop_last();
        assert(t[0] == s[0]);
        lemma_trim_end_keeps_head(t);
    }
}

/// Trimming leaves nothing exactly when every character is whitespace.
pub proof fn lemma_trim_empty_iff_all_space(s: Seq<char>)
    ensures
        trim(s).len() == 0 <==> all_space(s),
{
    lemma_trim_start_empty(s);
    if all_space(s) {
        assert(trim_end(trim_start(s)) == trim_start(s));
    } else {
        lemma_trim_end_keeps_head(trim_start(s));
    }
}

} // verus!
