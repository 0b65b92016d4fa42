//! Whitespace and the trimming of console lines.

use vstd::prelude::*;
use vstd::std_specs::iter::IteratorSpec;
use vstd::string::StrSliceExecFns;

verus! {

/// Whether `c` is one of the characters that Unicode counts as white space.
pub open spec fn is_space(c: char) -> bool {
    let n = c as u32;
    ||| 0x09 <= n <= 0x0D
    ||| n == 0x20
    ||| n == 0x85
    ||| n == 0xA0
    ||| n == 0x1680
    ||| 0x2000 <= n <= 0x200A
    ||| n == 0x2028
    ||| n == 0x2029
    ||| n == 0x202F
    ||| n == 0x205F
    ||| n == 0x3000
}

/// Whether every character of `s` is whitespace.
pub open spec fn all_space(s: Seq<char>) -> bool {
    forall|i: int| 0 <= i < s.len() ==> is_space(#[trigger] s[i])
}

/// `s` without its leading whitespace.
pub open spec fn trimmed_start(s: Seq<char>) -> Seq<char>
    decreases s.len(),
{
    if s.len() > 0 && is_space(s[0]) {
        trimmed_start(s.drop_first())
    } else {
        s
    }
}

/// `s` without its trailing whitespace.
pub open spec fn trimmed_end(s: Seq<char>) -> Seq<char>
    decreases s.len(),
{
    if s.len() > 0 && is_space(s.last()) {
        trimmed_end(s.drop_last())
    } else {
        s
    }
}

/// `s` without the whitespace at either end.
pub open spec fn trimmed(s: Seq<char>) -> Seq<char> {
    trimmed_end(trimmed_start(s))
}

/// Dropping `a` leading whitespace characters, where what follows does not
/// start with whitespace, is trimming the start.
pub proof fn lemma_trimmed_start(s: Seq<char>, a: int)
    requires
        0 <= a <= s.len(),
        all_space(s.subrange(0, a)),
        a < s.len() ==> !is_space(s[a]),
    ensures
        trimmed_start(s) == s.subrange(a, s.len() as int),
    decreases a,
{
    if a > 0 {
        assert(s.subrange(0, a)[0] == s[0]);
        let t = s.drop_first();
        assert forall|i: int| 0 <= i < a - 1 implies is_space(#[trigger] t.subrange(0, a - 1)[i]) by {
            assert(t.subrange(0, a - 1)[i] == s.subrange(0, a)[i + 1]);
        }
        lemma_trimmed_start(t, a - 1);
    }
}

/// Keeping the first `b` characters, where they do not end with whitespace
/// and only whitespace follows, is trimming the end.
pub proof fn lemma_trimmed_end(s: Seq<char>, b: int)
    requires
        0 <= b <= s.len(),
        all_space(s.subrange(b, s.len() as int)),
        0 < b ==> !is_space(s[b - 1]),
    ensures
        trimmed_end(s) == s.subrange(0, b),
    decreases s.len() - b,
{
    if b < s.len() {
        let n = s.len() as int;
        assert(s.subrange(b, n)[n - 1 - b] == s.last());
        let t = s.drop_last();
        assert forall|i: int| 0 <= i < n - 1 - b implies is_space(#[trigger] t.subrange(b, n - 1)[i]) by {
            assert(t.subrange(b, n - 1)[i] == s.subrange(b, n)[i]);
        }
        lemma_trimmed_end(t, b);
    }
}

/// Tells whether `c` is whitespace.
pub fn is_whitespace(c: char) -> (b: bool)
    ensures
        b == is_space(c),
{
    let n: u32 = c as u32;
    (0x09 <= n && n <= 0x0D) || n == 0x20 || n == 0x85 || n == 0xA0 || n == 0x1680 || (0x2000 <= n
        && n <= 0x200A) || n == 0x2028 || n == 0x2029 || n == 0x202F || n == 0x205F || n == 0x3000
}

/// Returns `s` without the whitespace at its two ends.
pub fn trim(s: &str) -> (r: &str)
    ensures
        r@ == trimmed(s@),
{
    let n: usize = s.unicode_len();
    let mut chars = s.chars();
    let mut i: usize = 0;
    let mut start: usize = 0;
    let mut end: usize = 0;
    while i < n
        invariant
            n == s@.len(),
            i <= n,
            chars.obeys_prophetic_iter_laws(),
            chars.remaining() == s@.subrange(i as int, n as int),
            start <= end <= i,
            all_space(s@.subrange(0, if end == 0 { i as int } else { start as int })),
            all_space(s@.subrange(end as int, i as int)),
            end > 0 ==> !is_space(s@[start as int]) && !is_space(s@[end - 1]),
        decreases n - i,
    {
        let next = chars.next();
        let c: char = next.unwrap();
        if !is_whitespace(c) {
            if end == 0 {
                start = i;
            }
            end = i + 1;
        } else {
            assert forall|k: int| 0 <= k < i + 1 - end implies is_space(
                #[trigger] s@.subrange(end as int, i + 1)[k],
            ) by {}
        }
        i = i + 1;
    }
    proof {
        if end == 0 {
            lemma_trimmed_start(s@, n as int);
        } else {
            lemma_trimmed_start(s@, start as int);
            let t = s@.subrange(start as int, n as int);
            assert(t.subrange(end - start, t.len() as int) =~= s@.subrange(end as int, n as int));
            lemma_trimmed_end(t, end - start);
        }
    }
    s.substring_char(start, end)
}

} // verus!
