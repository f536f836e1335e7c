use vstd::prelude::*;

use crate::asset_loader::asset_cache::AssetCache;

verus! {

/// Handles of the font assets loaded so far, keyed by their path.
pub struct FontCache<H> {
    pub font_cache: AssetCache<H>,
}

impl<H> FontCache<H> {
    pub fn new() -> (c: Self)
        ensures
            c.font_cache.view() == Map::<Seq<char>, H>::empty(),
    {
        FontCache { font_cache: AssetCache::new() }
    }
}

/// Gives the font handle cached for `path`, loading it with `load` on a miss;
/// on a hit `load` is given back uncalled.
pub fn cache_load_font<H: Clone, F: FnOnce(&str) -> H>(
    font_hashmap: &mut FontCache<H>,
    path: &str,
    load: F,
) -> (r: (H, Option<F>))
    requires
        load.requires((path,)),
    ensures
        crate::asset_loader::asset_cache::cache_load_post(old(font_hashmap).font_cache.view(), path@, final(font_hashmap).font_cache.view()),
        final(font_hashmap).font_cache.view().contains_key(path@),
        old(font_hashmap).font_cache.view().contains_key(path@) ==> final(font_hashmap).font_cache.view() == old(font_hashmap).font_cache.view(),
        !old(font_hashmap).font_cache.view().contains_key(path@) ==> final(font_hashmap).font_cache.view() == old(font_hashmap).font_cache.view().insert(path@, final(font_hashmap).font_cache.view()[path@]),
        old(font_hashmap).font_cache.view().contains_key(path@) ==> {
            &&& cloned(old(font_hashmap).font_cache.view()[path@], r.0)
            &&& r.1 == Some(load)
        },
        !old(font_hashmap).font_cache.view().contains_key(path@) ==> {
            &&& load.ensures((path,), r.0)
            &&& cloned(r.0, final(font_hashmap).font_cache.view()[path@])
            &&& r.1 is None
        },
{
    font_hashmap.font_cache.cache_load(path, load)
}

} // verus!
