use vstd::prelude::*;
use crate::event::ExtractionError;

verus! {

/// `i` is the position of the first `c` in `t`.
pub open spec fn is_first_of(t: Seq<char>, c: char, i: int) -> bool {
    &&& 0 <= i < t.len()
    &&& t[i] == c
    &&& forall|j: int| 0 <= j < i ==> t[j] != c
}

/// `i` is the position of the last `c` in `t`.
pub open spec fn is_last_of(t: Seq<char>, c: char, i: int) -> bool {
    &&& 0 <= i < t.len()
    &&& t[i] == c
    &&& forall|j: int| i < j < t.len() ==> t[j] != c
}

/// Some `{` in `t` stands before some `}`.
pub open spec fn has_brace_pair(t: Seq<char>) -> bool {
    exists|i: int, j: int| 0 <= i < j < t.len() && t[i] == '{' && t[j] == '}'
}

/// The text from the first `{` to the last `}` of `t`, both included.
pub open spec fn brace_slice(t: Seq<char>) -> Seq<char> {
    let i = choose|i: int| is_first_of(t, '{', i);
    let j = choose|j: int| is_last_of(t, '}', j);
    t.subrange(i, j + 1)
}

proof fn lemma_first_unique(t: Seq<char>, c: char, i: int, k: int)
    requires
        is_first_of(t, c, i),
        is_first_of(t, c, k),
    ensures
        i == k,
{
}

proof fn lemma_last_unique(t: Seq<char>, c: char, i: int, k: int)
    requires
        is_last_of(t, c, i),
        is_last_of(t, c, k),
    ensures
        i == k,
{
}

/// Position of the first `c` in `t`, if any.
fn find_first(t: &str, c: char) -> (r: Option<usize>)
    ensures
        match r {
            Some(i) => is_first_of(t@, c, i as int),
            None => forall|j: int| 0 <= j < t@.len() ==> t@[j] != c,
        },
{
    let n = t.unicode_len();
    let mut i: usize = 0;
    while i < n
        invariant
            n == t@.len(),
            i <= n,
            forall|j: int| 0 <= j < i ==> t@[j] != c,
        decreases n - i,
    {
        if t.get_char(i) == c {
            return Some(i);
        }
        i = i + 1;
    }
    None
}

/// Position of the last `c` in `t`, if any.
fn find_last(t: &str, c: char) -> (r: Option<usize>)
    ensures
        t@.len() <= usize::MAX,
        match r {
            Some(i) => is_last_of(t@, c, i as int),
            None => forall|j: int| 0 <= j < t@.len() ==> t@[j] != c,
        },
{
    let n = t.unicode_len();
    let mut i: usize = n;
    while i > 0
        invariant
            n == t@.len(),
            i <= n,
            forall|j: int| i <= j < n ==> t@[j] != c,
        decreases i,
    {
        if t.get_char(i - 1) == c {
            return Some(i - 1);
        }
        i = i - 1;
    }
    None
}

/// Cuts the JSON candidate out of a model's text: from the first `{` to the
/// last `}`, both included. Fails with `NoJsonFound` exactly when no `{`
/// stands before a `}`.
pub fn extract_json(text: &str) -> (r: Result<String, ExtractionError>)
    ensures
        has_brace_pair(text@) <==> r is Ok,
        r is Ok ==> r->Ok_0@ == brace_slice(text@),
        r is Err ==> r->Err_0 == ExtractionError::NoJsonFound,
{
    let open = find_first(text, '{');
    let close = find_last(text, '}');
    match (open, close) {
        (Some(i), Some(j)) => {
            if i < j {
                proof {
                    let t = text@;
                    let ci = choose|k: int| is_first_of(t, '{', k);
                    let cj = choose|k: int| is_last_of(t, '}', k);
                    lemma_first_unique(t, '{', i as int, ci);
                    lemma_last_unique(t, '}', j as int, cj);
                }
                let s = text.substring_char(i, j + 1);
                Ok(String::from_str(s))
            } else {
                proof {
                    assert forall|a: int, b: int|
                        0 <= a < b < text@.len() && text@[a] == '{' implies text@[b] != '}' by {
                        if text@[b] == '}' {
                            assert(b <= j);
                            assert(i <= a);
                        }
                    }
                }
                Err(ExtractionError::NoJsonFound)
            }
        },
        _ => Err(ExtractionError::NoJsonFound),
    }
}

} // verus!
