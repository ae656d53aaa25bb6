//! The order of frame paths: lexicographic on the bytes of the path string,
//! which is how string slices compare.

use vstd::prelude::*;
use vstd::string::*;

verus! {

/// `a` is the beginning of `b`.
pub open spec fn is_prefix_of(a: Seq<u8>, b: Seq<u8>) -> bool {
    a.len() <= b.len() && forall|j: int| 0 <= j < a.len() ==> a[j] == b[j]
}

/// `a` and `b` agree before position `k`, where `a` holds the smaller byte.
pub open spec fn smaller_at(a: Seq<u8>, b: Seq<u8>, k: int) -> bool {
    &&& 0 <= k < a.len()
    &&& k < b.len()
    &&& a[k] < b[k]
    &&& forall|j: int| 0 <= j < k ==> a[j] == b[j]
}

/// `a` comes no later than `b` in lexicographic order.
pub open spec fn lex_le(a: Seq<u8>, b: Seq<u8>) -> bool {
    is_prefix_of(a, b) || exists|k: int| smaller_at(a, b, k)
}

/// The bytes by which a path is ordered.
pub open spec fn path_key(path: Seq<char>) -> Seq<u8> {
    vstd::utf8::encode_utf8(path)
}

/// No path of the sequence comes before an earlier one.
pub open spec fn is_sorted(paths: Seq<Seq<char>>) -> bool {
    forall|i: int, j: int|
        0 <= i < j < paths.len() ==> lex_le(path_key(#[trigger] paths[i]), path_key(
            #[trigger] paths[j],
        ))
}

/// The order is transitive.
pub proof fn lemma_lex_le_transitive(a: Seq<u8>, b: Seq<u8>, c: Seq<u8>)
    requires
        lex_le(a, b),
        lex_le(b, c),
    ensures
        lex_le(a, c),
{
    if is_prefix_of(a, b) {
        if is_prefix_of(b, c) {
            assert(is_prefix_of(a, c));
        } else {
            let k = choose|k: int| smaller_at(b, c, k);
            if k < a.len() {
                assert(smaller_at(a, c, k));
            } else {
                assert(is_prefix_of(a, c));
            }
        }
    } else {
        let k1 = choose|k: int| smaller_at(a, b, k);
        if is_prefix_of(b, c) {
            assert(smaller_at(a, c, k1));
        } else {
            let k2 = choose|k: int| smaller_at(b, c, k);
            if k1 <= k2 {
                assert(smaller_at(a, c, k1));
            } else {
                assert(smaller_at(a, c, k2));
            }
        }
    }
}

/// Two byte strings of which each comes no later than the other are the
/// same.
pub proof fn lemma_lex_le_antisymmetric(a: Seq<u8>, b: Seq<u8>)
    requires
        lex_le(a, b),
        lex_le(b, a),
    ensures
        a == b,
{
    if is_prefix_of(a, b) {
        if is_prefix_of(b, a) {
            assert(a =~= b);
        } else {
            let k = choose|k: int| smaller_at(b, a, k);
            assert(a[k] == b[k]);
        }
    } else {
        let k1 = choose|k: int| smaller_at(a, b, k);
        if is_prefix_of(b, a) {
            assert(b[k1] == a[k1]);
        } else {
            let k2 = choose|k: int| smaller_at(b, a, k);
            if k1 < k2 {
                assert(b[k1] == a[k1]);
            } else if k2 < k1 {
                assert(a[k2] == b[k2]);
            }
        }
    }
}

/// Compares two byte strings. Of any two, one comes no later than the other.
pub fn bytes_le(a: &[u8], b: &[u8]) -> (r: bool)
    ensures
        r == lex_le(a@, b@),
        !r ==> lex_le(b@, a@),
{
    let mut i: usize = 0;
    while i < a.len() && i < b.len()
        invariant
            i <= a.len(),
            i <= b.len(),
            forall|j: int| 0 <= j < i ==> a@[j] == b@[j],
        decreases a.len() - i,
    {
        if a[i] < b[i] {
            assert(smaller_at(a@, b@, i as int));
            return true;
        }
        if a[i] > b[i] {
            assert(smaller_at(b@, a@, i as int));
            assert(!is_prefix_of(a@, b@));
            assert forall|k: int| !smaller_at(a@, b@, k) by {
                if smaller_at(a@, b@, k) {
                    if k < i {
                        assert(a@[k] == b@[k]);
                    } else if k > i {
                        assert(a@[i as int] == b@[i as int]);
                    }
                }
            }
            return false;
        }
        i = i + 1;
    }
    if i == a.len() {
        assert(is_prefix_of(a@, b@));
        true
    } else {
        assert(is_prefix_of(b@, a@));
        assert(!is_prefix_of(a@, b@));
        assert forall|k: int| !smaller_at(a@, b@, k) by {
            if smaller_at(a@, b@, k) {
                assert(a@[k] == b@[k]);
            }
        }
        false
    }
}

/// Compares two paths by the bytes of their strings.
pub fn path_le(a: &str, b: &str) -> (r: bool)
    ensures
        r == lex_le(path_key(a@), path_key(b@)),
        !r ==> lex_le(path_key(b@), path_key(a@)),
{
    bytes_le(a.as_bytes(), b.as_bytes())
}

} // verus!
