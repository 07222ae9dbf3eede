//! Hashing keys onto the ring and clockwise interval membership.
use sha1::{Digest, Sha1};
use vstd::prelude::*;

verus! {

/// Number of bits of a ring identifier: ids live in `[0, 2^M)`.
pub const M: i32 = 8;

/// Number of identifiers on the ring, `2^M`.
pub const RING_SIZE: i32 = 256;

/// The 20-byte SHA-1 digest of the UTF-8 encoding of a string.
pub uninterp spec fn sha1_digest_of(s: Seq<char>) -> Seq<u8>;

/// Relies on `sha1::Sha1` through `digest::Digest::digest`: the SHA-1 digest
/// of the key's UTF-8 bytes, 20 bytes long, a function of those bytes alone.
#[verifier::external_body]
fn sha1_digest(key: &str) -> (r: Vec<u8>)
    ensures
        r@ == sha1_digest_of(key@),
        r@.len() == 20,
{
    Sha1::digest(key.as_bytes()).to_vec()
}

/// The ring identifier of a key: the last byte of its SHA-1 digest.
pub open spec fn key_id(key: Seq<char>) -> int {
    sha1_digest_of(key).last() as int
}

/// Returns the ring identifier of `key`.
pub fn hash(key: &str) -> (r: i32)
    ensures
        r == key_id(key@),
        0 <= r < RING_SIZE,
{
    let d = sha1_digest(key);
    d[d.len() - 1] as i32
}

/// Clockwise membership of `id` in the interval from `min` to `max` on the
/// ring; the lower end is excluded, the upper end included when `incl`
/// holds, and `min == max` stands for the whole ring.
pub open spec fn in_range_spec(id: int, min: int, max: int, incl: bool) -> bool {
    if min < max {
        min < id && (id < max || (incl && id == max))
    } else if min > max {
        id > min || id < max || (incl && id == max)
    } else {
        true
    }
}

/// Returns whether `id` lies clockwise between `min` and `max`.
pub fn in_range(id: i32, min: i32, max: i32, incl: bool) -> (r: bool)
    ensures
        r == in_range_spec(id as int, min as int, max as int, incl),
{
    if min < max {
        if incl {
            id > min && id <= max
        } else {
            id > min && id < max
        }
    } else if min > max {
        if incl {
            id > min || id <= max
        } else {
            id > min || id < max
        }
    } else {
        true
    }
}

/// Hashing is deterministic: equal keys have equal identifiers.
pub proof fn lemma_hash_deterministic(a: Seq<char>, b: Seq<char>)
    requires
        a == b,
    ensures
        key_id(a) == key_id(b),
{
}

/// An interval whose ends coincide is the whole ring.
pub proof fn lemma_in_range_whole_ring(x: int, a: int, incl: bool)
    ensures
        in_range_spec(x, a, a, incl),
{
}

/// The lower end of a proper interval is never inside it.
pub proof fn lemma_in_range_excludes_lower(a: int, b: int)
    requires
        a != b,
    ensures
        !in_range_spec(a, a, b, false),
{
}

/// The upper end of an interval is inside it when it is included.
pub proof fn lemma_in_range_includes_upper(a: int, b: int)
    ensures
        in_range_spec(b, a, b, true),
{
}

/// Two distinct nodes split the ring between them: every identifier lies
/// in exactly one of the arcs `(a, b]` and `(b, a]`.
pub proof fn lemma_two_arcs_partition(x: int, a: int, b: int)
    requires
        a != b,
    ensures
        in_range_spec(x, a, b, true) != in_range_spec(x, b, a, true),
{
}

/// A node `b` strictly inside the arc `(a, c]` splits it: every identifier
/// of `(a, c]` lies in exactly one of `(a, b]` and `(b, c]`, and nothing
/// else lies in either.
pub proof fn lemma_arc_split(x: int, a: int, b: int, c: int)
    requires
        in_range_spec(b, a, c, false),
        b != a,
    ensures
        in_range_spec(x, a, c, true) == (in_range_spec(x, a, b, true) || in_range_spec(x, b, c, true)),
        !(in_range_spec(x, a, b, true) && in_range_spec(x, b, c, true)),
{
}

/// Identifiers in strictly increasing order.
pub open spec fn ascending(ids: Seq<int>) -> bool {
    forall|i: int, j: int| 0 <= i < j < ids.len() ==> ids[i] < ids[j]
}

/// Whether node `i` of a ring whose identifiers are `ids`, in clockwise
/// order, owns `x`: whether `x` lies in the arc from the node before it,
/// excluded, to the node itself.
pub open spec fn owns(ids: Seq<int>, i: int, x: int) -> bool {
    in_range_spec(x, ids[if i == 0 { ids.len() - 1 } else { i - 1 }], ids[i], true)
}

proof fn lemma_inner_arc(ids: Seq<int>, x: int, n: int)
    requires
        ascending(ids),
        1 <= n <= ids.len(),
        ids[0] < x <= ids[n - 1],
    ensures
        exists|i: int| 1 <= i < n && ids[i - 1] < x <= #[trigger] ids[i],
    decreases n,
{
    if x <= ids[n - 2] {
        lemma_inner_arc(ids, x, n - 1);
        let i = choose|i: int| 1 <= i < n - 1 && ids[i - 1] < x <= #[trigger] ids[i];
        assert(1 <= i < n && ids[i - 1] < x <= ids[i]);
    } else {
        assert(ids[n - 2] < x <= ids[n - 1]);
    }
}

/// On a ring whose predecessor pointers are right, the arcs that the nodes
/// own cover every identifier exactly once.
pub proof fn lemma_ring_arcs_cover_once(ids: Seq<int>, x: int)
    requires
        ids.len() >= 1,
        ascending(ids),
    ensures
        exists|i: int| 0 <= i < ids.len() && owns(ids, i, x),
        forall|i: int, j: int|
            0 <= i < ids.len() && 0 <= j < ids.len() && owns(ids, i, x) && owns(ids, j, x) ==> i == j,
{
    let n = ids.len() as int;
    if x <= ids[0] || x > ids[n - 1] {
        assert(owns(ids, 0, x));
    } else {
        lemma_inner_arc(ids, x, n);
        let i = choose|i: int| 1 <= i < n && ids[i - 1] < x <= #[trigger] ids[i];
        assert(owns(ids, i, x));
    }
    assert forall|i: int, j: int|
        0 <= i < n && 0 <= j < n && owns(ids, i, x) && owns(ids, j, x) implies i == j by {
        if i < j {
            assert(ids[i] <= ids[j - 1]) by {
                if i < j - 1 {
                    assert(ids[i] < ids[j - 1]);
                }
            }
            if i == 0 {
                assert(ids[0] <= ids[j - 1]);
                assert(ids[j] <= ids[n - 1]) by {
                    if j < n - 1 {
                        assert(ids[j] < ids[n - 1]);
                    }
                }
            }
        } else if j < i {
            assert(ids[j] <= ids[i - 1]) by {
                if j < i - 1 {
                    assert(ids[j] < ids[i - 1]);
                }
            }
            if j == 0 {
                assert(ids[0] <= ids[i - 1]);
                assert(ids[i] <= ids[n - 1]) by {
                    if i < n - 1 {
                        assert(ids[i] < ids[n - 1]);
                    }
                }
            }
        }
    }
}

} // verus!
