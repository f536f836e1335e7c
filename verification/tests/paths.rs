use m_game::player::animation_ids::EAnimationIds;
use m_game::sys_paths::audio::EAudio;
use m_game::sys_paths::config::EConfig;
use m_game::sys_paths::font::EFont;
use m_game::sys_paths::image::pbr::aerial_grass_rock::AerialGrassRock;
use m_game::sys_paths::image::pbr::rocky_grass::RockGrass;
use m_game::sys_paths::image::{EImageSky, EImageTerrainBase, EImageWaterBase};
use m_game::sys_paths::shaders::post_processing_pipiline::EPostprocessingPipeline;
use m_game::sys_paths::sounds;
use m_game::sys_paths::textures;

#[test]
fn audio_paths() {
    assert_eq!(EAudio::EnvOne.as_str(), "sounds/test.02.ogg");
    assert_eq!(EAudio::PaintballShoot.as_str(), "sounds/paintball_shoot.01.ogg");
    assert_eq!(sounds::EPaths::EnvOne.as_str(), "sounds/test.02.ogg");
    assert_eq!(sounds::EPaths::PaintballShoot.as_str(), "sounds/paintball_shoot.01.ogg");
}

#[test]
fn config_paths() {
    assert_eq!(EConfig::Debug.as_str(), "assets/config/debug.json");
    assert_eq!(EConfig::Window.as_str(), "assets/config/window.json");
}

#[test]
fn font_paths() {
    assert_eq!(EFont::QuartzoMain.as_str(), "fonts/ui/quartzo/main.otf");
    assert_eq!(EFont::Bigpartyo2GreenMain.as_str(), "fonts/ui/bigpartyo2-green/main.ttf");
    assert_eq!(EFont::LoveYouBlackSeeTrough.as_str(), "fonts/ui/kg-someone-you-loved/black.see-trough.otf");
    assert_eq!(EFont::LoveYouBlackSolid.as_str(), "fonts/ui/kg-someone-you-loved/black.solid.otf");
}

#[test]
fn image_paths() {
    assert_eq!(EImageSky::SkySegDown.as_str(), "textures/sky/sky-segments/down.png");
    assert_eq!(EImageSky::SkySegWest.as_str(), "textures/sky/sky-segments/west.png");
    assert_eq!(EImageTerrainBase::Base.as_str(), "textures/terrain/base/sand.01.png");
    assert_eq!(
        EImageTerrainBase::F0StoneRockMossMusk.as_str(),
        "textures/terrain/common/stone_rock_moss_musk-1024x1024.png"
    );
    assert_eq!(EImageWaterBase::Walet1Base.as_str(), "textures/water/water.01.base.png");
    assert_eq!(EImageWaterBase::Walet2Normal.as_str(), "textures/water/Water-normal-0325.png");
}

#[test]
fn pbr_paths() {
    assert_eq!(
        AerialGrassRock::DiffLight.as_str(),
        "textures/terrain/pbr/aerial-grass-rock/aerial_grass_rock_diff_1k_light.png"
    );
    assert_eq!(
        AerialGrassRock::NorGl.as_str(),
        "textures/terrain/pbr/aerial-grass-rock/aerial_grass_rock_nor_gl_1k.png"
    );
    assert_eq!(RockGrass::Ao.as_str(), "textures/terrain/pbr/rocky_grass/rocky_terrain_02_ao_1k.png");
    assert_eq!(
        RockGrass::RoughAo.as_str(),
        "textures/terrain/pbr/rocky_grass/rocky_terrain_02_rough_ao_1k.png"
    );
}

#[test]
fn shader_and_texture_paths() {
    assert_eq!(
        EPostprocessingPipeline::CustomWaterExample.as_str(),
        "shaders/post-processing/custom-water-example.wgsl"
    );
    assert_eq!(textures::EPaths::Base.as_str(), "textures/terrain/base/sand.01.png");
    assert_eq!(textures::EPaths::SkyBox3.as_str(), "textures/sky/sky-box.03.png");
    assert_eq!(textures::EPaths::SkySegUp.as_str(), "textures/sky/sky-segments/up.png");
}

#[test]
fn animation_clip_names() {
    assert_eq!(EAnimationIds::NoAnimation.as_str(), "None");
    assert_eq!(EAnimationIds::Idle.as_str(), "Standing-idle-01");
    assert_eq!(EAnimationIds::RunForwardJump.as_str(), "Standing-jump-running-to-run-forward");
    assert_eq!(EAnimationIds::StandingJump.as_str(), "Standing-jump");
}
