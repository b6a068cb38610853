//! Choice of the nearest surface a ray meets.
//!
//! Each surface of a scene reports the distance along the ray at which it is
//! met. The distance is handed over as its distance key: the bit pattern of
//! the 64-bit IEEE 754 number. Among numbers that are not negative, keys order
//! as the numbers do; a negative number or a NaN has a key above that of
//! positive infinity. So a distance beyond the epsilon guard is exactly a key
//! in `(EPSILON_KEY, INFINITY_KEY]`, and the nearer of two such distances has
//! the smaller key.
use vstd::prelude::*;

verus! {

/// Key of the epsilon guard, 1e-6: hits at or below it are the ray's own
/// origin seen again through rounding, and are ignored.
pub const EPSILON_KEY: u64 = 0x3EB0_C6F7_A0B5_ED8D;

/// Key of positive infinity, the largest key of a number that is not NaN
/// and not negative.
pub const INFINITY_KEY: u64 = 0x7FF0_0000_0000_0000;

/// The surface a ray meets first, and the key of the distance at which it
/// meets it.
#[derive(Clone, Copy, Debug, PartialEq, Eq, Structural)]
pub struct Intersection {
    pub surface: usize,
    pub distance_key: u64,
}

/// A reported distance counts as a hit: it lies beyond the epsilon guard.
pub open spec fn is_hit(key: u64) -> bool {
    EPSILON_KEY < key <= INFINITY_KEY
}

/// Some surface of the scene is hit.
pub open spec fn any_hit(keys: Seq<u64>) -> bool {
    exists|i: int| 0 <= i < keys.len() && is_hit(#[trigger] keys[i])
}

/// `h` names the nearest hit among `keys`: a hit no farther than any other,
/// and the first of the scene's order among equally near ones.
pub open spec fn is_nearest(keys: Seq<u64>, h: Intersection) -> bool {
    &&& 0 <= h.surface < keys.len()
    &&& h.distance_key == keys[h.surface as int]
    &&& is_hit(h.distance_key)
    &&& forall|i: int| 0 <= i < keys.len() && is_hit(#[trigger] keys[i]) ==> h.distance_key <= keys[i]
    &&& forall|i: int| 0 <= i < h.surface && is_hit(#[trigger] keys[i]) ==> h.distance_key < keys[i]
}

/// Tells whether a reported distance is a hit.
pub fn is_hit_key(key: u64) -> (r: bool)
    ensures
        r == is_hit(key),
{
    EPSILON_KEY < key && key <= INFINITY_KEY
}

/// Scans the distances that the scene's surfaces report, in the scene's
/// order, and returns the nearest hit, or `None` where no surface is hit.
/// Whether anything was found is tracked apart from the best distance, so a
/// first hit is always taken whatever its distance.
pub fn nearest_hit(keys: &Vec<u64>) -> (r: Option<Intersection>)
    ensures
        r.is_none() <==> !any_hit(keys@),
        r matches Some(h) ==> is_nearest(keys@, h),
{
    let mut best: Option<Intersection> = None;
    let mut i: usize = 0;
    while i < keys.len()
        invariant
            i <= keys.len(),
            best.is_none() <==> forall|j: int| 0 <= j < i ==> !is_hit(#[trigger] keys@[j]),
            best matches Some(h) ==> {
                &&& h.surface < i
                &&& h.distance_key == keys@[h.surface as int]
                &&& is_hit(h.distance_key)
                &&& forall|j: int| 0 <= j < i && is_hit(#[trigger] keys@[j]) ==> h.distance_key <= keys@[j]
                &&& forall|j: int| 0 <= j < h.surface && is_hit(#[trigger] keys@[j]) ==> h.distance_key < keys@[j]
            },
        decreases keys.len() - i,
    {
        let key = keys[i];
        if is_hit_key(key) {
            match best {
                None => {
                    best = Some(Intersection { surface: i, distance_key: key });
                },
                Some(h) => {
                    if key < h.distance_key {
                        best = Some(Intersection { surface: i, distance_key: key });
                    }
                },
            }
        }
        i = i + 1;
    }
    best
}

} // verus!
