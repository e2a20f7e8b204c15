//! Single-slot hemisphere cache.
//!
//! Rebuilding the tessellation for a resolution parameter is expensive and
//! repeated requests for the same `nside` are the common case, so the cache
//! keeps the most recently requested `(nside, Hemisphere)` pair.  A request
//! for the cached `nside` returns an independent copy of the stored
//! geometry, so a caller mutating its copy's brightness cannot corrupt the
//! cache; any other request builds anew and replaces the slot
//! unconditionally.  A cache-free implementation that always rebuilds is
//! behaviourally equivalent, only slower.
//!
//! The cache is an explicit object: confine it to one logical worker or
//! session, or guard it with mutual exclusion where shared.

use vstd::prelude::*;
use crate::scalar::MathStrategy;
use crate::sphere::Hemisphere;

verus! {

/// A capacity-one cache holding the most recently built hemisphere.
pub struct HemisphereCache {
    /// The most recently requested resolution and its geometry, if any.
    pub slot: Option<(u32, Hemisphere)>,
}

impl HemisphereCache {
    /// The stored hemisphere, if any, is a fresh build (under strategy `S`)
    /// for the resolution it is keyed by.
    pub open spec fn inv<S: MathStrategy>(self) -> bool {
        match self.slot {
            Some(pair) => pair.1.is_fresh_build::<S>(pair.0) && pair.0 <= 8192,
            None => true,
        }
    }

    /// An empty cache.
    pub fn empty() -> (r: HemisphereCache)
        ensures
            r.slot is None,
    {
        HemisphereCache { slot: None }
    }
}

/// Returns the hemisphere for `nside`, from the cache when the slot matches
/// and by building (and caching) it otherwise.  The result is always an
/// independent copy: mutating its brightness array leaves the cache's entry
/// untouched.  On a hit the cache is left exactly as it was; on a miss the
/// slot is unconditionally replaced by the new pair.
pub fn get_or_create_hemisphere<S: MathStrategy>(
    cache: &mut HemisphereCache,
    nside: u32,
) -> (r: Hemisphere)
    requires
        nside <= 8192,
        old(cache).inv::<S>(),
    ensures
        final(cache).inv::<S>(),
        r.is_fresh_build::<S>(nside),
        nside >= 1 ==> r.npix > 0,
        match final(cache).slot {
            Some(pair) => {
                &&& pair.0 == nside
                &&& pair.1.same_geometry(r)
                &&& pair.1.visible_pix@ == r.visible_pix@
            },
            None => false,
        },
        match old(cache).slot {
            Some(pair) => pair.0 == nside ==> {
                &&& *final(cache) == *old(cache)
                &&& r.same_geometry(pair.1)
                &&& r.visible_pix@ == pair.1.visible_pix@
            },
            None => true,
        },
{
    if let Some(pair) = &cache.slot {
        if pair.0 == nside {
            proof {
                crate::sphere::lemma_visible_pixel_count_positive(nside);
            }
            return pair.1.duplicate();
        }
    }

    let new_hemisphere = Hemisphere::new::<S>(nside);
    let stored = new_hemisphere.duplicate();
    cache.slot = Some((nside, stored));
    new_hemisphere
}

/// Empties the cache.
pub fn clear_hemisphere_cache(cache: &mut HemisphereCache)
    ensures
        final(cache).slot is None,
{
    cache.slot = None;
}

/// The resolution parameter of the cached hemisphere, if any.
pub fn get_cache_info(cache: &HemisphereCache) -> (r: Option<u32>)
    ensures
        match cache.slot {
            Some(pair) => r == Some(pair.0),
            None => r is None,
        },
{
    match &cache.slot {
        Some(pair) => Some(pair.0),
        None => None,
    }
}

} // verus!
