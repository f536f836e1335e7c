use std::cell::Cell;

use m_game::asset_loader::asset_cache::AssetCache;
use m_game::asset_loader::audio_cache::{cache_load_audio, AudioCache};
use m_game::asset_loader::font_cache::{cache_load_font, FontCache};
use m_game::asset_loader::image_cache::{cache_load_image, ImageCache};
use m_game::asset_loader::texture_cache::{cache_load_texture, TextureCache};

#[test]
fn second_load_is_served_from_the_cache() {
    let loads = Cell::new(0u32);
    let mut cache: AssetCache<String> = AssetCache::new();
    let (a, back) = cache.cache_load("sounds/a.ogg", |p: &str| {
        loads.set(loads.get() + 1);
        format!("handle:{}", p)
    });
    assert_eq!(a, "handle:sounds/a.ogg");
    assert!(back.is_none());
    assert_eq!(loads.get(), 1);
    let (again, back) = cache.cache_load("sounds/a.ogg", |p: &str| {
        loads.set(loads.get() + 1);
        format!("other:{}", p)
    });
    assert_eq!(again, "handle:sounds/a.ogg");
    assert_eq!(loads.get(), 1);
    // The loader comes back uncalled, and still works.
    let unused = back.expect("loader given back on a hit");
    assert_eq!(unused("z"), "other:z");
    assert_eq!(loads.get(), 2);
    let (b, _) = cache.cache_load("sounds/b.ogg", |p: &str| {
        loads.set(loads.get() + 1);
        format!("b:{}", p)
    });
    assert_eq!(b, "b:sounds/b.ogg");
    assert_eq!(loads.get(), 3);
    let (a2, _) = cache.cache_load("sounds/a.ogg", |_: &str| String::from("never"));
    assert_eq!(a2, "handle:sounds/a.ogg");
}

#[test]
fn typed_caches_keep_their_handles() {
    let mut audio: AudioCache<u64> = AudioCache::new();
    assert_eq!(cache_load_audio(&mut audio, "x", |_: &str| 1).0, 1);
    assert_eq!(cache_load_audio(&mut audio, "x", |_: &str| 2).0, 1);
    assert_eq!(cache_load_audio(&mut audio, "y", |_: &str| 3).0, 3);

    let mut font: FontCache<u64> = FontCache::new();
    assert_eq!(cache_load_font(&mut font, "f", |_: &str| 10).0, 10);
    assert_eq!(cache_load_font(&mut font, "f", |_: &str| 11).0, 10);

    let mut image: ImageCache<u64> = ImageCache::new();
    assert_eq!(cache_load_image(&mut image, "i", |p: &str| p.len() as u64).0, 1);
    let (h, back) = cache_load_image(&mut image, "i", |_: &str| 99);
    assert_eq!(h, 1);
    assert!(back.is_some());

    let mut texture: TextureCache<u64> = TextureCache::new();
    assert_eq!(cache_load_texture(&mut texture, "t", |_: &str| 5).0, 5);
    assert!(cache_load_texture(&mut texture, "T", |_: &str| 6).1.is_none());
    assert_eq!(cache_load_texture(&mut texture, "t", |_: &str| 7).0, 5);
}
