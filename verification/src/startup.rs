//! Decisions taken while the server starts: waiting for the vector index to become usable.
use vstd::prelude::*;

use crate::text::chars_of;

verus! {

/// Whether `needle` occurs in `haystack` starting at `i`.
pub open spec fn occurs_at(haystack: Seq<char>, needle: Seq<char>, i: int) -> bool {
    0 <= i && i + needle.len() <= haystack.len() && haystack.subrange(i, i + needle.len()) == needle
}

/// Whether `needle` occurs anywhere in `haystack`.
pub open spec fn occurs_in(haystack: Seq<char>, needle: Seq<char>) -> bool {
    exists|i: int| occurs_at(haystack, needle, i)
}

/// Whether `needle` occurs in `haystack`.
pub fn contains(haystack: &str, needle: &str) -> (r: bool)
    ensures
        r == occurs_in(haystack@, needle@),
{
    let h = chars_of(haystack);
    let n = chars_of(needle);
    if n.len() > h.len() {
        assert forall|i: int| !occurs_at(haystack@, needle@, i) by {}
        return false;
    }
    if n.len() == 0 {
        assert(haystack@.subrange(0, 0) =~= needle@);
        assert(occurs_at(haystack@, needle@, 0));
        return true;
    }
    let limit = h.len() - n.len();
    assert(h@.len() <= usize::MAX);
    let mut i: usize = 0;
    while i <= limit
        invariant
            limit == h@.len() - n@.len(),
            h@ == haystack@,
            n@ == needle@,
            0 < n@.len() <= h@.len(),
            h@.len() <= usize::MAX,
            0 <= i <= h@.len() - n@.len() + 1,
            forall|t: int| 0 <= t < i ==> !occurs_at(haystack@, needle@, t),
        decreases h@.len() - i,
    {
        let mut j: usize = 0;
        let mut same = true;
        while same && j < n.len()
            invariant
                h@ == haystack@,
                n@ == needle@,
                i <= limit,
                limit == h@.len() - n@.len(),
                n@.len() <= h@.len(),
                h@.len() <= usize::MAX,
                0 <= j <= n@.len(),
                forall|t: int| 0 <= t < j ==> h@[i + t] == n@[t],
                !same ==> j < n@.len() && h@[i + j] != n@[j as int],
            decreases n@.len() - j, if same { 1int } else { 0int },
        {
            if h[i + j] == n[j] {
                j = j + 1;
            } else {
                same = false;
            }
        }
        if j == n.len() {
            assert(haystack@.subrange(i as int, i + needle@.len()) =~= needle@);
            assert(occurs_at(haystack@, needle@, i as int));
            return true;
        }
        assert(!occurs_at(haystack@, needle@, i as int)) by {
            if occurs_at(haystack@, needle@, i as int) {
                assert(haystack@.subrange(i as int, i + needle@.len())[j as int] == h@[i + j]);
            }
        }
        i = i + 1;
    }
    assert forall|t: int| !occurs_at(haystack@, needle@, t) by {
        if 0 <= t < i {
        }
    }
    false
}

/// What to do after probing the vector index.
#[derive(Debug, PartialEq, Eq)]
pub enum ProbeAction {
    /// The index answers: start serving.
    Ready,
    /// The index is still being activated: probe again after a pause.
    Retry,
    /// The index did not become active before the deadline.
    TimedOut,
    /// The probe failed for another reason.
    Fail,
}

/// The decision after one probe of the index, given the error it failed with (if any) and
/// whether the deadline has passed. Activation is awaited while the error says `index_not_found`.
pub fn after_index_probe(error: Option<&str>, past_deadline: bool) -> (r: ProbeAction)
    ensures
        r == (match error {
            None => ProbeAction::Ready,
            Some(e) => if occurs_in(e@, "index_not_found"@) {
                if past_deadline {
                    ProbeAction::TimedOut
                } else {
                    ProbeAction::Retry
                }
            } else {
                ProbeAction::Fail
            },
        }),
{
    match error {
        None => ProbeAction::Ready,
        Some(e) => if contains(e, "index_not_found") {
            if past_deadline {
                ProbeAction::TimedOut
            } else {
                ProbeAction::Retry
            }
        } else {
            ProbeAction::Fail
        },
    }
}

/// Why the embedding probe at start-up cannot fix the index's dimension.
#[derive(Debug, PartialEq, Eq)]
pub enum ProbeVectorError {
    /// The embedding model returned no vector.
    NoVector,
    /// The embedding model returned an empty vector.
    EmptyVector,
}

/// The dimension of the vector index: the length of the first vector the probe returned.
pub fn index_dimension(vectors: &Vec<Vec<u64>>) -> (r: Result<usize, ProbeVectorError>)
    ensures
        vectors@.len() == 0 ==> r == Err::<usize, ProbeVectorError>(ProbeVectorError::NoVector),
        vectors@.len() > 0 && vectors@[0]@.len() == 0 ==> r == Err::<usize, ProbeVectorError>(
            ProbeVectorError::EmptyVector,
        ),
        vectors@.len() > 0 && vectors@[0]@.len() > 0 ==> r == Ok::<usize, ProbeVectorError>(
            vectors@[0]@.len() as usize,
        ),
{
    if vectors.len() == 0 {
        return Err(ProbeVectorError::NoVector);
    }
    let dim = vectors[0].len();
    if dim == 0 {
        Err(ProbeVectorError::EmptyVector)
    } else {
        Ok(dim)
    }
}

} // verus!
