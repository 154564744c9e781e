//! Positional path segments and decimal numbers read from them.
use vstd::prelude::*;

verus! {

/// Index of the first `'/'` at or after `from`, or the length of `s` when there is none.
pub open spec fn find_slash(s: Seq<char>, from: int) -> int
    decreases s.len() - from,
{
    if from >= s.len() {
        s.len() as int
    } else if s[from] == '/' {
        from
    } else {
        find_slash(s, from + 1)
    }
}

/// The `k`-th piece of `s` split at `'/'`, counting from the piece that starts at `from`.
pub open spec fn segment_from(s: Seq<char>, from: int, k: nat) -> Option<Seq<char>>
    decreases k,
{
    let e = find_slash(s, from);
    if k == 0 {
        Some(s.subrange(from, e))
    } else if e >= s.len() {
        None
    } else {
        segment_from(s, e + 1, (k - 1) as nat)
    }
}

/// The `k`-th piece of a path split at `'/'` (piece 0 precedes the first slash),
/// or `None` when the path has fewer pieces.
pub open spec fn path_segment(s: Seq<char>, k: nat) -> Option<Seq<char>> {
    segment_from(s, 0, k)
}

proof fn lemma_find_slash_bounds(s: Seq<char>, from: int)
    requires
        0 <= from <= s.len(),
    ensures
        from <= find_slash(s, from) <= s.len(),
        find_slash(s, from) < s.len() ==> s[find_slash(s, from)] == '/',
    decreases s.len() - from,
{
    if from < s.len() && s[from] != '/' {
        lemma_find_slash_bounds(s, from + 1);
    }
}

fn next_slash(s: &str, from: usize) -> (r: usize)
    requires
        from <= s@.len(),
    ensures
        r == find_slash(s@, from as int),
{
    let n = s.unicode_len();
    let mut i: usize = from;
    while i < n
        invariant
            n == s@.len(),
            from <= i <= n,
            find_slash(s@, i as int) == find_slash(s@, from as int),
        decreases n - i,
    {
        if s.get_char(i) == '/' {
            return i;
        }
        i = i + 1;
    }
    i
}

/// The `k`-th piece of `path` split at `'/'`; for `"/hello/1337"` piece 1 is
/// `"hello"` and piece 2 is `"1337"`.
pub fn segment(path: &str, k: usize) -> (r: Option<String>)
    ensures
        r matches Some(t) ==> path_segment(path@, k as nat) == Some(t@),
        r is None ==> path_segment(path@, k as nat) is None,
{
    let n = path.unicode_len();
    let mut from: usize = 0;
    let mut left: usize = k;
    loop
        invariant
            n == path@.len(),
            from <= n,
            segment_from(path@, from as int, left as nat) == path_segment(path@, k as nat),
        decreases left,
    {
        let e = next_slash(path, from);
        proof {
            lemma_find_slash_bounds(path@, from as int);
        }
        if left == 0 {
            let piece = path.substring_char(from, e).to_string();
            return Some(piece);
        }
        if e >= n {
            return None;
        }
        from = e + 1;
        left = left - 1;
    }
}

/// Whether every character of `s` is an ASCII decimal digit.
pub open spec fn all_digits(s: Seq<char>) -> bool {
    forall|i: int| 0 <= i < s.len() ==> '0' <= #[trigger] s[i] <= '9'
}

/// The number that the decimal digits `s` denote, most significant first.
pub open spec fn decimal_value(s: Seq<char>) -> nat
    decreases s.len(),
{
    if s.len() == 0 {
        0
    } else {
        decimal_value(s.drop_last()) * 10 + (s.last() as nat - '0' as nat) as nat
    }
}

/// What parsing `s` as a `u64` gives: an optional `+` followed by one or more
/// decimal digits whose value fits in 64 bits; anything else is refused.
pub open spec fn parsed_u64(s: Seq<char>) -> Option<u64> {
    let d = if s.len() > 0 && s[0] == '+' {
        s.drop_first()
    } else {
        s
    };
    if d.len() > 0 && all_digits(d) && decimal_value(d) <= u64::MAX {
        Some(decimal_value(d) as u64)
    } else {
        None
    }
}

/// Relies on `<u64 as FromStr>::from_str` (`str::parse`): an optional `+` and
/// then decimal digits only, no whitespace, and an error on overflow.
#[verifier::external_body]
pub(crate) fn parse_u64(s: &str) -> (r: Option<u64>)
    ensures
        r == parsed_u64(s@),
{
    s.parse::<u64>().ok()
}

} // verus!
