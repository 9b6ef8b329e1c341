//! Locating the JSON array inside the upstream model's free-text answer.
//!
//! The heuristic is deliberately simple: the candidate array text is the
//! inclusive slice from the first `[` to the last `]` of the answer. It
//! assumes the answer holds exactly one bracketed array and no stray
//! brackets around it; a stray `]` inside the surrounding prose truncates
//! the slice wrongly, a known fragility of the scheme.

use vstd::prelude::*;

verus! {

/// Why no array text could be located.
#[derive(Clone, Copy, PartialEq, Eq, Structural, Debug)]
pub enum ExtractError {
    /// The text holds no `[` at all.
    NoArrayStart,
    /// The text holds no `]` at or after the first `[`.
    NoArrayEnd,
}

/// `i` is the first index at which `c` occurs in `s`.
pub open spec fn is_first_index_of(s: Seq<char>, c: char, i: int) -> bool {
    &&& 0 <= i < s.len()
    &&& s[i] == c
    &&& forall|k: int| 0 <= k < i ==> s[k] != c
}

/// `i` is the last index at which `c` occurs in `s`.
pub open spec fn is_last_index_of(s: Seq<char>, c: char, i: int) -> bool {
    &&& 0 <= i < s.len()
    &&& s[i] == c
    &&& forall|k: int| i < k < s.len() ==> s[k] != c
}

/// What extraction yields on `s`: the inclusive slice from the first `[` to
/// the last `]`, `NoArrayStart` when there is no `[`, and `NoArrayEnd` when
/// no `]` stands at or after the first `[`.
pub open spec fn extracted(s: Seq<char>) -> Result<Seq<char>, ExtractError> {
    if !(exists|i: int| is_first_index_of(s, '[', i)) {
        Err(ExtractError::NoArrayStart)
    } else {
        let i = choose|i: int| is_first_index_of(s, '[', i);
        if !(exists|j: int| is_last_index_of(s, ']', j) && i <= j) {
            Err(ExtractError::NoArrayEnd)
        } else {
            let j = choose|j: int| is_last_index_of(s, ']', j) && i <= j;
            Ok(s.subrange(i, j + 1))
        }
    }
}

/// A sequence has at most one first index of `c`.
proof fn lemma_first_index_unique(s: Seq<char>, c: char, i: int, j: int)
    requires
        is_first_index_of(s, c, i),
        is_first_index_of(s, c, j),
    ensures
        i == j,
{
    if i < j {
        assert(s[i] != c);
    }
    if j < i {
        assert(s[j] != c);
    }
}

/// A sequence has at most one last index of `c`.
proof fn lemma_last_index_unique(s: Seq<char>, c: char, i: int, j: int)
    requires
        is_last_index_of(s, c, i),
        is_last_index_of(s, c, j),
    ensures
        i == j,
{
    if i < j {
        assert(s[j] != c);
    }
    if j < i {
        assert(s[i] != c);
    }
}

/// Surrounding prose does not change what is extracted: when the text before
/// a bracketed slice holds no `[` and the text after it holds no `]`,
/// extraction yields exactly the bracketed slice.
pub proof fn lemma_extracted_ignores_prose(pre: Seq<char>, arr: Seq<char>, post: Seq<char>)
    requires
        forall|k: int| 0 <= k < pre.len() ==> pre[k] != '[',
        forall|k: int| 0 <= k < post.len() ==> post[k] != ']',
        2 <= arr.len(),
        arr[0] == '[',
        arr[arr.len() - 1] == ']',
    ensures
        extracted(pre + arr + post) == Ok::<Seq<char>, ExtractError>(arr),
{
    let s = pre + arr + post;
    let i = pre.len() as int;
    let j = pre.len() + arr.len() - 1;
    assert forall|k: int| 0 <= k < i implies s[k] != '[' by {
        assert(s[k] == pre[k]);
    }
    assert(s[i] == arr[0]);
    assert(is_first_index_of(s, '[', i));
    assert(s[j] == arr[arr.len() - 1]);
    assert forall|k: int| j < k < s.len() implies s[k] != ']' by {
        assert(s[k] == post[k - pre.len() - arr.len()]);
    }
    assert(is_last_index_of(s, ']', j));
    let i0 = choose|i0: int| is_first_index_of(s, '[', i0);
    lemma_first_index_unique(s, '[', i0, i);
    assert(is_last_index_of(s, ']', j) && i0 <= j);
    let j0 = choose|j0: int| is_last_index_of(s, ']', j0) && i0 <= j0;
    lemma_last_index_unique(s, ']', j0, j);
    assert(s.subrange(i, j + 1) =~= arr);
}

/// Index of the first occurrence of `c` in `s`, if any.
pub fn find_first_char(s: &str, c: char) -> (r: Option<usize>)
    ensures
        match r {
            Some(i) => is_first_index_of(s@, c, i as int),
            None => forall|k: int| 0 <= k < s@.len() ==> s@[k] != c,
        },
{
    let n = s.unicode_len();
    let mut i: usize = 0;
    while i < n
        invariant
            0 <= i <= n,
            n == s@.len(),
            forall|k: int| 0 <= k < i ==> s@[k] != c,
        decreases n - i,
    {
        if s.get_char(i) == c {
            return Some(i);
        }
        i = i + 1;
    }
    None
}

/// Index of the last occurrence of `c` in `s`, if any.
pub fn find_last_char(s: &str, c: char) -> (r: Option<usize>)
    ensures
        match r {
            Some(j) => is_last_index_of(s@, c, j as int),
            None => forall|k: int| 0 <= k < s@.len() ==> s@[k] != c,
        },
{
    let n = s.unicode_len();
    let mut i: usize = n;
    while i > 0
        invariant
            0 <= i <= n,
            n == s@.len(),
            forall|k: int| i <= k < n ==> s@[k] != c,
        decreases i,
    {
        i = i - 1;
        if s.get_char(i) == c {
            return Some(i);
        }
    }
    None
}

/// Slice the candidate JSON-array text out of `s`: from the first `[` to the
/// last `]`, both included.
pub fn extract_array_text(s: &str) -> (r: Result<String, ExtractError>)
    ensures
        match r {
            Ok(t) => extracted(s@) == Ok::<Seq<char>, ExtractError>(t@),
            Err(e) => extracted(s@) == Err::<Seq<char>, ExtractError>(e),
        },
{
    let n = s.unicode_len();
    let start = match find_first_char(s, '[') {
        Some(i) => i,
        None => {
            return Err(ExtractError::NoArrayStart);
        },
    };
    let end = match find_last_char(s, ']') {
        Some(j) => j,
        None => {
            return Err(ExtractError::NoArrayEnd);
        },
    };
    proof {
        let i = choose|i: int| is_first_index_of(s@, '[', i);
        lemma_first_index_unique(s@, '[', i, start as int);
    }
    if end < start {
        proof {
            let i = choose|i: int| is_first_index_of(s@, '[', i);
            if exists|j: int| is_last_index_of(s@, ']', j) && i <= j {
                let j = choose|j: int| is_last_index_of(s@, ']', j) && i <= j;
                lemma_last_index_unique(s@, ']', j, end as int);
            }
        }
        return Err(ExtractError::NoArrayEnd);
    }
    proof {
        let i = choose|i: int| is_first_index_of(s@, '[', i);
        assert(is_last_index_of(s@, ']', end as int) && i <= end as int);
        let j = choose|j: int| is_last_index_of(s@, ']', j) && i <= j;
        lemma_last_index_unique(s@, ']', j, end as int);
    }
    assert(end < n);
    let t = s.substring_char(start, end + 1);
    Ok(t.to_owned())
}

} // verus!
