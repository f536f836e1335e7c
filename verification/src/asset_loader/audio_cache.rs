use vstd::prelude::*;

use crate::asset_loader::asset_cache::AssetCache;

verus! {

/// Handles of the audio assets loaded so far, keyed by their path.
pub struct AudioCache<H> {
    pub audio_cache: AssetCache<H>,
}

impl<H> AudioCache<H> {
    pub fn new() -> (c: Self)
        ensures
            c.audio_cache.view() == Map::<Seq<char>, H>::empty(),
    {
        AudioCache { audio_cache: AssetCache::new() }
    }
}

/// Gives the audio handle cached for `path`, loading it with `load` on a miss;
/// on a hit `load` is given back uncalled.
pub fn cache_load_audio<H: Clone, F: FnOnce(&str) -> H>(
    audio_hashmap: &mut AudioCache<H>,
    path: &str,
    load: F,
) -> (r: (H, Option<F>))
    requires
        load.requires((path,)),
    ensures
        crate::asset_loader::asset_cache::cache_load_post(old(audio_hashmap).audio_cache.view(), path@, final(audio_hashmap).audio_cache.view()),
        final(audio_hashmap).audio_cache.view().contains_key(path@),
        old(audio_hashmap).audio_cache.view().contains_key(path@) ==> final(audio_hashmap).audio_cache.view() == old(audio_hashmap).audio_cache.view(),
        !old(audio_hashmap).audio_cache.view().contains_key(path@) ==> final(audio_hashmap).audio_cache.view() == old(audio_hashmap).audio_cache.view().insert(path@, final(audio_hashmap).audio_cache.view()[path@]),
        old(audio_hashmap).audio_cache.view().contains_key(path@) ==> {
            &&& cloned(old(audio_hashmap).audio_cache.view()[path@], r.0)
            &&& r.1 == Some(load)
        },
        !old(audio_hashmap).audio_cache.view().contains_key(path@) ==> {
            &&& load.ensures((path,), r.0)
            &&& cloned(r.0, final(audio_hashmap).audio_cache.view()[path@])
            &&& r.1 is None
        },
{
    audio_hashmap.audio_cache.cache_load(path, load)
}

} // verus!
