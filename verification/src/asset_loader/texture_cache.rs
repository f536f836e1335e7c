use vstd::prelude::*;

use crate::asset_loader::asset_cache::AssetCache;

verus! {

/// Handles of the texture assets loaded so far, keyed by their path.
pub struct TextureCache<H> {
    pub texture_cache: AssetCache<H>,
}

impl<H> TextureCache<H> {
    pub fn new() -> (c: Self)
        ensures
            c.texture_cache.view() == Map::<Seq<char>, H>::empty(),
    {
        TextureCache { texture_cache: AssetCache::new() }
    }
}

/// Gives the texture handle cached for `path`, loading it with `load` on a miss;
/// on a hit `load` is given back uncalled.
pub fn cache_load_texture<H: Clone, F: FnOnce(&str) -> H>(
    texture_hashmap: &mut TextureCache<H>,
    path: &str,
    load: F,
) -> (r: (H, Option<F>))
    requires
        load.requires((path,)),
    ensures
        crate::asset_loader::asset_cache::cache_load_post(old(texture_hashmap).texture_cache.view(), path@, final(texture_hashmap).texture_cache.view()),
        final(texture_hashmap).texture_cache.view().contains_key(path@),
        old(texture_hashmap).texture_cache.view().contains_key(path@) ==> final(texture_hashmap).texture_cache.view() == old(texture_hashmap).texture_cache.view(),
        !old(texture_hashmap).texture_cache.view().contains_key(path@) ==> final(texture_hashmap).texture_cache.view() == old(texture_hashmap).texture_cache.view().insert(path@, final(texture_hashmap).texture_cache.view()[path@]),
        old(texture_hashmap).texture_cache.view().contains_key(path@) ==> {
            &&& cloned(old(texture_hashmap).texture_cache.view()[path@], r.0)
            &&& r.1 == Some(load)
        },
        !old(texture_hashmap).texture_cache.view().contains_key(path@) ==> {
            &&& load.ensures((path,), r.0)
            &&& cloned(r.0, final(texture_hashmap).texture_cache.view()[path@])
            &&& r.1 is None
        },
{
    texture_hashmap.texture_cache.cache_load(path, load)
}

} // verus!
