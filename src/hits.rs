//! Choosing among the spheres that a ray meets.
//!
//! Each sphere's intersection test yields either no hit or a ray parameter
//! `t` greater than the self-intersection epsilon, hence positive. The
//! selection reads only how these parameters compare, so it works on their
//! order keys: for non-negative IEEE 754 single-precision values, the bit
//! pattern read as an unsigned integer orders exactly as the value does.
use vstd::prelude::*;

verus! {

/// Some entry of `keys` is a hit.
pub open spec fn any_hit(keys: Seq<Option<u32>>) -> bool {
    exists|i: int| 0 <= i < keys.len() && #[trigger] keys[i] is Some
}

/// Entry `k` of `keys` is the nearest hit: no hit lies closer, and every
/// earlier hit lies farther.
pub open spec fn is_nearest(keys: Seq<Option<u32>>, k: int) -> bool {
    &&& 0 <= k < keys.len()
    &&& keys[k] is Some
    &&& forall|i: int|
        0 <= i < keys.len() && #[trigger] keys[i] is Some ==> keys[k]->0 <= keys[i]->0
    &&& forall|i: int| 0 <= i < k && #[trigger] keys[i] is Some ==> keys[k]->0 < keys[i]->0
}

/// Some hit of `keys` lies strictly closer than `limit`.
pub open spec fn hit_before(keys: Seq<Option<u32>>, limit: u32) -> bool {
    exists|i: int| 0 <= i < keys.len() && #[trigger] keys[i] is Some && keys[i]->0 < limit
}

/// Index of the nearest hit, the first one among equally near hits; `None`
/// when the ray meets no sphere.
pub fn nearest_hit(keys: &Vec<Option<u32>>) -> (r: Option<usize>)
    ensures
        r is None <==> !any_hit(keys@),
        r matches Some(k) ==> is_nearest(keys@, k as int),
{
    let mut best: Option<usize> = None;
    let mut best_key: u32 = 0;
    let mut i: usize = 0;
    while i < keys.len()
        invariant
            i <= keys@.len(),
            best is None ==> forall|j: int| 0 <= j < i ==> #[trigger] keys@[j] is None,
            best matches Some(k) ==> {
                &&& k < i
                &&& keys@[k as int] == Some(best_key)
                &&& forall|j: int|
                    0 <= j < i && #[trigger] keys@[j] is Some ==> best_key <= keys@[j]->0
                &&& forall|j: int| 0 <= j < k && #[trigger] keys@[j] is Some ==> best_key < keys@[j]->0
            },
        decreases keys@.len() - i,
    {
        if let Some(t) = keys[i] {
            if best.is_none() || t < best_key {
                best = Some(i);
                best_key = t;
            }
        }
        i = i + 1;
    }
    proof {
        if let Some(k) = best {
            assert(keys@[k as int] is Some);
        }
    }
    best
}

/// Whether a shadow ray meets a sphere strictly before it reaches a light at
/// distance `limit` (both given as order keys).
pub fn is_occluded(keys: &Vec<Option<u32>>, limit: u32) -> (r: bool)
    ensures
        r == hit_before(keys@, limit),
{
    let mut i: usize = 0;
    while i < keys.len()
        invariant
            i <= keys@.len(),
            forall|j: int| 0 <= j < i ==> !(#[trigger] keys@[j] is Some && keys@[j]->0 < limit),
        decreases keys@.len() - i,
    {
        if let Some(t) = keys[i] {
            if t < limit {
                assert(keys@[i as int] is Some && keys@[i as int]->0 < limit);
                return true;
            }
        }
        i = i + 1;
    }
    false
}

/// A shadow ray on which every sphere is missed, or met no closer than the
/// light, is not occluded: the hit point is lit.
pub proof fn lemma_clear_shadow_ray(keys: Seq<Option<u32>>, limit: u32)
    requires
        forall|i: int| 0 <= i < keys.len() ==> #[trigger] keys[i] is None || keys[i]->0 >= limit,
    ensures
        !hit_before(keys, limit),
{
}

/// A ray that meets a single sphere has that sphere as its nearest hit, and
/// no other.
pub proof fn lemma_nearest_of_single_hit(keys: Seq<Option<u32>>, k: int)
    requires
        0 <= k < keys.len(),
        keys[k] is Some,
        forall|i: int| 0 <= i < keys.len() && i != k ==> #[trigger] keys[i] is None,
    ensures
        is_nearest(keys, k),
        forall|j: int| #[trigger] is_nearest(keys, j) ==> j == k,
{
}

} // verus!
