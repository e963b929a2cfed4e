//! The signature matcher: a plain left-to-right search for the first window of
//! a buffer that a needle fits.

use vstd::prelude::*;

verus! {

/// Whether a token fits a byte: a wildcard fits every byte, a byte only
/// itself.
pub open spec fn token_matches(token: Option<u8>, byte: u8) -> bool {
    match token {
        Some(wanted) => wanted == byte,
        None => true,
    }
}

/// Whether the window of `bytes` that starts at `at` lies inside the buffer
/// and equals `pattern` at every position that is no wildcard.
pub open spec fn matches_at(bytes: Seq<u8>, pattern: Seq<Option<u8>>, at: int) -> bool {
    &&& 0 <= at
    &&& at + pattern.len() <= bytes.len()
    &&& forall|i: int| 0 <= i < pattern.len() ==> token_matches(#[trigger] pattern[i], bytes[at + i])
}

/// Whether `at` is the lowest offset at which `pattern` fits.
pub open spec fn is_first_match(bytes: Seq<u8>, pattern: Seq<Option<u8>>, at: int) -> bool {
    &&& matches_at(bytes, pattern, at)
    &&& forall|earlier: int| 0 <= earlier < at ==> !matches_at(bytes, pattern, earlier)
}

/// Whether `pattern` fits anywhere in `bytes`.
pub open spec fn has_match(bytes: Seq<u8>, pattern: Seq<Option<u8>>) -> bool {
    exists|at: int| matches_at(bytes, pattern, at)
}

/// The lowest offset at which `pattern` fits, `None` where it fits nowhere.
pub open spec fn first_match(bytes: Seq<u8>, pattern: Seq<Option<u8>>) -> Option<int> {
    if exists|at: int| is_first_match(bytes, pattern, at) {
        Some(choose|at: int| is_first_match(bytes, pattern, at))
    } else {
        None
    }
}

/// Whether `pattern` holds no wildcard.
pub open spec fn is_exact(pattern: Seq<Option<u8>>) -> bool {
    forall|i: int| 0 <= i < pattern.len() ==> (#[trigger] pattern[i]) is Some
}

/// Whether the bytes of `bytes` from `at` on are those that the tokens of an
/// exact pattern name, one for one.
pub open spec fn occurs_at(bytes: Seq<u8>, pattern: Seq<Option<u8>>, at: int) -> bool {
    &&& 0 <= at
    &&& at + pattern.len() <= bytes.len()
    &&& forall|i: int| 0 <= i < pattern.len() ==> (#[trigger] pattern[i]) == Some(bytes[at + i])
}

/// There is one first match at most, and it is what `first_match` names.
pub proof fn lemma_first_match_unique(
    bytes: Seq<u8>,
    pattern: Seq<Option<u8>>,
    one: int,
    other: int,
)
    requires
        is_first_match(bytes, pattern, one),
        is_first_match(bytes, pattern, other),
    ensures
        one == other,
        first_match(bytes, pattern) == Some(one),
{
    let chosen = choose|at: int| is_first_match(bytes, pattern, at);
    assert(is_first_match(bytes, pattern, chosen));
}

/// A pattern that fits nowhere has no first match.
pub proof fn lemma_no_match(bytes: Seq<u8>, pattern: Seq<Option<u8>>)
    requires
        !has_match(bytes, pattern),
    ensures
        first_match(bytes, pattern) is None,
{
    if exists|at: int| is_first_match(bytes, pattern, at) {
        let chosen = choose|at: int| is_first_match(bytes, pattern, at);
        assert(matches_at(bytes, pattern, chosen));
    }
}

/// A pattern without wildcards whose bytes stand in the buffer at `at`, and
/// at no lower offset, has its first match at `at`: that is where the search
/// finds it.
pub proof fn lemma_exact_pattern_found(bytes: Seq<u8>, pattern: Seq<Option<u8>>, at: int)
    requires
        is_exact(pattern),
        occurs_at(bytes, pattern, at),
        forall|earlier: int| 0 <= earlier < at ==> !occurs_at(bytes, pattern, earlier),
    ensures
        is_first_match(bytes, pattern, at),
        first_match(bytes, pattern) == Some(at),
{
    assert forall|earlier: int| 0 <= earlier < at implies !matches_at(
        bytes,
        pattern,
        earlier,
    ) by {
        if matches_at(bytes, pattern, earlier) {
            assert forall|i: int| 0 <= i < pattern.len() implies (#[trigger] pattern[i]) == Some(
                bytes[earlier + i],
            ) by {
                assert(token_matches(pattern[i], bytes[earlier + i]));
            }
            assert(occurs_at(bytes, pattern, earlier));
        }
    }
    assert(matches_at(bytes, pattern, at));
    lemma_first_match_unique(bytes, pattern, at, at);
}

/// A window that a pattern fits is still fitted when the byte under one of
/// the pattern's wildcards is replaced by any other byte.
pub proof fn lemma_wildcard_matches_any_byte(
    bytes: Seq<u8>,
    pattern: Seq<Option<u8>>,
    at: int,
    wildcard: int,
    byte: u8,
)
    requires
        matches_at(bytes, pattern, at),
        0 <= wildcard < pattern.len(),
        pattern[wildcard] is None,
    ensures
        matches_at(bytes.update(at + wildcard, byte), pattern, at),
{
    let changed = bytes.update(at + wildcard, byte);
    assert forall|i: int| 0 <= i < pattern.len() implies token_matches(
        #[trigger] pattern[i],
        changed[at + i],
    ) by {
        if i != wildcard {
            assert(changed[at + i] == bytes[at + i]);
        }
    }
}

/// Whether the window at `at` is fitted by `pattern`.
pub fn window_matches(bytes: &[u8], pattern: &[Option<u8>], at: usize) -> (fits: bool)
    requires
        at + pattern@.len() <= bytes@.len(),
    ensures
        fits == matches_at(bytes@, pattern@, at as int),
{
    let n = pattern.len();
    let len = bytes.len();
    let mut i: usize = 0;
    while i < n
        invariant
            i <= n,
            n == pattern@.len(),
            len == bytes@.len(),
            at + n <= len,
            forall|j: int| 0 <= j < i ==> token_matches(#[trigger] pattern@[j], bytes@[at + j]),
        decreases n - i,
    {
        match pattern[i] {
            Some(wanted) => {
                if bytes[at + i] != wanted {
                    return false;
                }
            },
            None => {},
        }
        i += 1;
    }
    true
}

/// The offset of the first window of `bytes` that `pattern` fits, scanning
/// from the start; `None` where it fits nowhere.
pub fn naive_search(bytes: &[u8], pattern: &[Option<u8>]) -> (found: Option<usize>)
    requires
        pattern@.len() > 0,
    ensures
        match found {
            Some(at) => is_first_match(bytes@, pattern@, at as int) && first_match(
                bytes@,
                pattern@,
            ) == Some(at as int),
            None => !has_match(bytes@, pattern@) && first_match(bytes@, pattern@) is None,
        },
{
    let n = pattern.len();
    let len = bytes.len();
    if len < n {
        proof {
            lemma_no_match(bytes@, pattern@);
        }
        return None;
    }
    let last = len - n;
    let mut at: usize = 0;
    while at <= last
        invariant
            at <= last + 1,
            last + n == len,
            n > 0,
            n == pattern@.len(),
            len == bytes@.len(),
            forall|earlier: int| 0 <= earlier < at ==> !matches_at(bytes@, pattern@, earlier),
        decreases last + 1 - at,
    {
        if window_matches(bytes, pattern, at) {
            proof {
                lemma_first_match_unique(bytes@, pattern@, at as int, at as int);
            }
            return Some(at);
        }
        at += 1;
    }
    proof {
        lemma_no_match(bytes@, pattern@);
    }
    None
}

} // verus!
