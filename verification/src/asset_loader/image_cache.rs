use vstd::prelude::*;

use crate::asset_loader::asset_cache::AssetCache;

verus! {

/// Handles of the image assets loaded so far, keyed by their path.
pub struct ImageCache<H> {
    pub image_cache: AssetCache<H>,
}

impl<H> ImageCache<H> {
    pub fn new() -> (c: Self)
        ensures
            c.image_cache.view() == Map::<Seq<char>, H>::empty(),
    {
        ImageCache { image_cache: AssetCache::new() }
    }
}

/// Gives the image handle cached for `path`, loading it with `load` on a miss;
/// on a hit `load` is given back uncalled.
pub fn cache_load_image<H: Clone, F: FnOnce(&str) -> H>(
    image_hashmap: &mut ImageCache<H>,
    path: &str,
    load: F,
) -> (r: (H, Option<F>))
    requires
        load.requires((path,)),
    ensures
        crate::asset_loader::asset_cache::cache_load_post(old(image_hashmap).image_cache.view(), path@, final(image_hashmap).image_cache.view()),
        final(image_hashmap).image_cache.view().contains_key(path@),
        old(image_hashmap).image_cache.view().contains_key(path@) ==> final(image_hashmap).image_cache.view() == old(image_hashmap).image_cache.view(),
        !old(image_hashmap).image_cache.view().contains_key(path@) ==> final(image_hashmap).image_cache.view() == old(image_hashmap).image_cache.view().insert(path@, final(image_hashmap).image_cache.view()[path@]),
        old(image_hashmap).image_cache.view().contains_key(path@) ==> {
            &&& cloned(old(image_hashmap).image_cache.view()[path@], r.0)
            &&& r.1 == Some(load)
        },
        !old(image_hashmap).image_cache.view().contains_key(path@) ==> {
            &&& load.ensures((path,), r.0)
            &&& cloned(r.0, final(image_hashmap).image_cache.view()[path@])
            &&& r.1 is None
        },
{
    image_hashmap.image_cache.cache_load(path, load)
}

} // verus!
