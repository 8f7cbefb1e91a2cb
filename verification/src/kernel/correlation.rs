//! Correlation identifiers.
//!
//! A requester draws a random 128-bit candidate and the store turns it into
//! an identifier that no earlier event has carried: the candidate itself
//! unless it was seen before, otherwise the nearest later value that was not.

use vstd::prelude::*;
use crate::event::event::CorrelationId;
use crate::text::push_char;

verus! {

/// Number of different identifiers.
pub open spec fn id_space() -> nat {
    (u128::MAX + 1) as nat
}

/// The `k`-th value tried for a candidate: `candidate + k`, wrapping around.
pub open spec fn probe(candidate: CorrelationId, k: nat) -> CorrelationId {
    if candidate + k > u128::MAX {
        (candidate + k - id_space()) as u128
    } else {
        (candidate + k) as u128
    }
}

/// `id` is the first value, trying `candidate`, `candidate + 1`, ..., that
/// does not occur in `seen`.
pub open spec fn is_first_unseen(
    seen: Seq<CorrelationId>,
    candidate: CorrelationId,
    id: CorrelationId,
) -> bool {
    exists|k: nat|
        {
            &&& k <= seen.len()
            &&& id == #[trigger] probe(candidate, k)
            &&& !seen.contains(id)
            &&& forall|j: nat| j < k ==> seen.contains(#[trigger] probe(candidate, j))
        }
}

/// The first value, trying `candidate`, `candidate + 1`, ..., that does not
/// occur in `seen`.
pub open spec fn first_unseen(seen: Seq<CorrelationId>, candidate: CorrelationId) -> CorrelationId {
    choose|id: CorrelationId| is_first_unseen(seen, candidate, id)
}

/// There is only one first unseen value.
pub proof fn lemma_first_unseen_unique(
    seen: Seq<CorrelationId>,
    candidate: CorrelationId,
    id: CorrelationId,
)
    requires
        is_first_unseen(seen, candidate, id),
    ensures
        first_unseen(seen, candidate) == id,
        !seen.contains(id),
{
    let other = first_unseen(seen, candidate);
    let k = choose|k: nat|
        {
            &&& k <= seen.len()
            &&& id == #[trigger] probe(candidate, k)
            &&& !seen.contains(id)
            &&& forall|j: nat| j < k ==> seen.contains(#[trigger] probe(candidate, j))
        };
    let m = choose|m: nat|
        {
            &&& m <= seen.len()
            &&& other == #[trigger] probe(candidate, m)
            &&& !seen.contains(other)
            &&& forall|j: nat| j < m ==> seen.contains(#[trigger] probe(candidate, j))
        };
    if k < m {
        assert(seen.contains(probe(candidate, k)));
    } else if m < k {
        assert(seen.contains(probe(candidate, m)));
    }
}

/// Draws a random identifier candidate.
///
/// Calls `uuid::Uuid::new_v4` and packs the sixteen bytes into an integer
/// with `Uuid::as_u128`. The value is random, so nothing is claimed of it.
#[verifier::external_body]
pub(crate) fn random_id() -> (id: CorrelationId) {
    uuid::Uuid::new_v4().as_u128()
}

/// Whether `id` occurs in `seen`.
pub fn was_seen(seen: &Vec<CorrelationId>, id: CorrelationId) -> (found: bool)
    ensures
        found == seen@.contains(id),
{
    let mut i: usize = 0;
    while i < seen.len()
        invariant
            i <= seen.len(),
            forall|j: int| 0 <= j < i ==> seen@[j] != id,
        decreases seen.len() - i,
    {
        if seen[i] == id {
            return true;
        }
        i += 1;
    }
    false
}

/// The values `probe(candidate, j)` for `j < k`.
spec fn tried(candidate: CorrelationId, k: nat) -> Set<CorrelationId>
    decreases k,
{
    if k == 0 {
        Set::empty()
    } else {
        tried(candidate, (k - 1) as nat).insert(probe(candidate, (k - 1) as nat))
    }
}

/// Fewer than 2^128 consecutive probes are pairwise different, so `k` of
/// them form a set of `k` elements.
proof fn lemma_tried(candidate: CorrelationId, k: nat)
    requires
        k <= id_space(),
    ensures
        tried(candidate, k).finite(),
        tried(candidate, k).len() == k,
        forall|v: CorrelationId| #[trigger]
            tried(candidate, k).contains(v) <==> exists|j: nat|
                j < k && v == #[trigger] probe(candidate, j),
    decreases k,
{
    if k > 0 {
        let prev = (k - 1) as nat;
        lemma_tried(candidate, prev);
        let last = probe(candidate, prev);
        assert(!tried(candidate, prev).contains(last)) by {
            if tried(candidate, prev).contains(last) {
                let j = choose|j: nat| j < prev && last == #[trigger] probe(candidate, j);
                assert(probe(candidate, j) != probe(candidate, prev));
            }
        }
        assert forall|v: CorrelationId| #[trigger]
            tried(candidate, k).contains(v) <==> exists|j: nat|
                j < k && v == #[trigger] probe(candidate, j) by {
            if tried(candidate, k).contains(v) {
                if v == last {
                    assert(prev < k && v == probe(candidate, prev));
                } else {
                    let j = choose|j: nat| j < prev && v == #[trigger] probe(candidate, j);
                    assert(j < k && v == probe(candidate, j));
                }
            }
            if exists|j: nat| j < k && v == #[trigger] probe(candidate, j) {
                let j = choose|j: nat| j < k && v == #[trigger] probe(candidate, j);
                if j < prev {
                    assert(tried(candidate, prev).contains(v));
                }
            }
        }
    }
}

/// If the first `k` probes all occur in `seen`, then `k` is at most the
/// length of `seen`.
proof fn lemma_probes_fit(seen: Seq<CorrelationId>, candidate: CorrelationId, k: nat)
    requires
        k <= id_space(),
        forall|j: nat| j < k ==> seen.contains(#[trigger] probe(candidate, j)),
    ensures
        k <= seen.len(),
{
    lemma_tried(candidate, k);
    let t = tried(candidate, k);
    seen.lemma_cardinality_of_set();
    assert(t.subset_of(seen.to_set())) by {
        assert forall|v: CorrelationId| t.contains(v) implies seen.to_set().contains(v) by {
            let j = choose|j: nat| j < k && v == #[trigger] probe(candidate, j);
            assert(seen.contains(probe(candidate, j)));
        }
    }
    vstd::set_lib::lemma_len_subset(t, seen.to_set());
}

/// Whatever was seen, some value was not: the search for a first unseen
/// value always ends.
pub proof fn lemma_first_unseen_exists(seen: Seq<CorrelationId>, candidate: CorrelationId)
    requires
        seen.len() < id_space(),
    ensures
        is_first_unseen(seen, candidate, first_unseen(seen, candidate)),
        !seen.contains(first_unseen(seen, candidate)),
{
    lemma_search_ends(seen, candidate, 0);
    let id = choose|id: CorrelationId| is_first_unseen(seen, candidate, id);
    lemma_first_unseen_unique(seen, candidate, id);
}

/// If the first `k` probes were all seen, a first unseen value exists.
proof fn lemma_search_ends(seen: Seq<CorrelationId>, candidate: CorrelationId, k: nat)
    requires
        k <= seen.len(),
        seen.len() < id_space(),
        forall|j: nat| j < k ==> seen.contains(#[trigger] probe(candidate, j)),
    ensures
        exists|id: CorrelationId| is_first_unseen(seen, candidate, id),
    decreases seen.len() - k,
{
    let id = probe(candidate, k);
    if seen.contains(id) {
        assert forall|j: nat| j < k + 1 implies seen.contains(#[trigger] probe(candidate, j)) by {
            if j < k {
            }
        }
        lemma_probes_fit(seen, candidate, k + 1);
        lemma_search_ends(seen, candidate, k + 1);
    } else {
        assert(is_first_unseen(seen, candidate, id));
    }
}

/// The identifier to use for a new request: the first of `candidate`,
/// `candidate + 1`, ... that does not occur in `seen`.
pub fn fresh_id(seen: &Vec<CorrelationId>, candidate: CorrelationId) -> (id: CorrelationId)
    ensures
        id == first_unseen(seen@, candidate),
        is_first_unseen(seen@, candidate, id),
        !seen@.contains(id),
        !seen@.contains(candidate) ==> id == candidate,
{
    let mut k: usize = 0;
    let mut id: CorrelationId = candidate;
    while was_seen(seen, id)
        invariant
            k <= seen.len(),
            id == probe(candidate, k as nat),
            forall|j: nat| j < k ==> seen@.contains(#[trigger] probe(candidate, j)),
        decreases seen.len() - k,
    {
        proof {
            assert forall|j: nat| j < k + 1 implies seen@.contains(
                #[trigger] probe(candidate, j),
            ) by {
                if j == k {
                } else {
                    assert(j < k);
                }
            }
            lemma_probes_fit(seen@, candidate, (k + 1) as nat);
        }
        k = k + 1;
        id = id.wrapping_add(1);
    }
    proof {
        if k > 0 {
            assert(seen@.contains(probe(candidate, 0)));
        }
        assert(is_first_unseen(seen@, candidate, id)) by {
            assert(id == probe(candidate, k as nat));
        }
        lemma_first_unseen_unique(seen@, candidate, id);
    }
    id
}

/// The sixteen hexadecimal digits, lower case.
pub open spec fn hex_digit(nibble: u8) -> char {
    if nibble == 0 {
        '0'
    } else if nibble == 1 {
        '1'
    } else if nibble == 2 {
        '2'
    } else if nibble == 3 {
        '3'
    } else if nibble == 4 {
        '4'
    } else if nibble == 5 {
        '5'
    } else if nibble == 6 {
        '6'
    } else if nibble == 7 {
        '7'
    } else if nibble == 8 {
        '8'
    } else if nibble == 9 {
        '9'
    } else if nibble == 10 {
        'a'
    } else if nibble == 11 {
        'b'
    } else if nibble == 12 {
        'c'
    } else if nibble == 13 {
        'd'
    } else if nibble == 14 {
        'e'
    } else {
        'f'
    }
}

/// The hexadecimal digit of a value below sixteen.
pub fn hex_char(nibble: u8) -> (c: char)
    ensures
        c == hex_digit(nibble),
{
    if nibble == 0 {
        '0'
    } else if nibble == 1 {
        '1'
    } else if nibble == 2 {
        '2'
    } else if nibble == 3 {
        '3'
    } else if nibble == 4 {
        '4'
    } else if nibble == 5 {
        '5'
    } else if nibble == 6 {
        '6'
    } else if nibble == 7 {
        '7'
    } else if nibble == 8 {
        '8'
    } else if nibble == 9 {
        '9'
    } else if nibble == 10 {
        'a'
    } else if nibble == 11 {
        'b'
    } else if nibble == 12 {
        'c'
    } else if nibble == 13 {
        'd'
    } else if nibble == 14 {
        'e'
    } else {
        'f'
    }
}

/// The `n`-th of the thirty-two hexadecimal digits of an identifier,
/// counted from the most significant one.
pub open spec fn nibble_at(id: CorrelationId, n: u32) -> u8 {
    ((id >> ((124 - 4 * n) as u128)) & 0xf) as u8
}

/// Whether position `p` of the written form holds a hyphen.
pub open spec fn is_hyphen_position(p: int) -> bool {
    p == 8 || p == 13 || p == 18 || p == 23
}

/// Number of hyphens before position `p` of the written form.
pub open spec fn hyphens_before(p: int) -> int {
    if p <= 8 {
        0
    } else if p <= 13 {
        1
    } else if p <= 18 {
        2
    } else if p <= 23 {
        3
    } else {
        4
    }
}

/// The character at position `p` of the written form of an identifier.
pub open spec fn id_char(id: CorrelationId, p: int) -> char {
    if is_hyphen_position(p) {
        '-'
    } else {
        hex_digit(nibble_at(id, (p - hyphens_before(p)) as u32))
    }
}

/// The written form of an identifier: thirty-two lower-case hexadecimal
/// digits, most significant first, in groups of 8, 4, 4, 4 and 12 with
/// hyphens between them.
pub open spec fn id_text_of(id: CorrelationId) -> Seq<char> {
    Seq::new(36, |p: int| id_char(id, p))
}

/// Writes an identifier out in its hyphenated form.
pub fn id_text(id: CorrelationId) -> (text: String)
    ensures
        text@ == id_text_of(id),
{
    let mut text = String::new();
    let mut p: u32 = 0;
    let mut n: u32 = 0;
    while p < 36
        invariant
            p <= 36,
            n == p - hyphens_before(p as int),
            text@ == id_text_of(id).subrange(0, p as int),
        decreases 36 - p,
    {
        if p == 8 || p == 13 || p == 18 || p == 23 {
            push_char(&mut text, '-');
        } else {
            let shift: u128 = (124 - 4 * n) as u128;
            let nibble: u8 = ((id >> shift) & 0xf) as u8;
            push_char(&mut text, hex_char(nibble));
            n += 1;
        }
        p += 1;
        assert(text@ =~= id_text_of(id).subrange(0, p as int));
    }
    assert(id_text_of(id).subrange(0, 36) =~= id_text_of(id));
    text
}

} // verus!
