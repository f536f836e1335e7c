pub mod pbr;

use vstd::prelude::*;

verus! {

/// The six faces of the sky box.
pub enum EImageSky {
    SkySegDown,
    SkySegEast,
    SkySegNorth,
    SkySegSouth,
    SkySegUp,
    SkySegWest,
}

impl EImageSky {
    /// The asset path of each variant.
    pub open spec fn path(&self) -> Seq<char> {
        match self {
            EImageSky::SkySegDown => "textures/sky/sky-segments/down.png"@,
            EImageSky::SkySegEast => "textures/sky/sky-segments/east.png"@,
            EImageSky::SkySegNorth => "textures/sky/sky-segments/north.png"@,
            EImageSky::SkySegSouth => "textures/sky/sky-segments/south.png"@,
            EImageSky::SkySegUp => "textures/sky/sky-segments/up.png"@,
            EImageSky::SkySegWest => "textures/sky/sky-segments/west.png"@,
        }
    }

    pub fn as_str(&self) -> (s: &'static str)
        ensures
            s@ == self.path(),
    {
        match self {
            EImageSky::SkySegDown => "textures/sky/sky-segments/down.png",
            EImageSky::SkySegEast => "textures/sky/sky-segments/east.png",
            EImageSky::SkySegNorth => "textures/sky/sky-segments/north.png",
            EImageSky::SkySegSouth => "textures/sky/sky-segments/south.png",
            EImageSky::SkySegUp => "textures/sky/sky-segments/up.png",
            EImageSky::SkySegWest => "textures/sky/sky-segments/west.png",
        }
    }
}

/// Base textures of the terrain.
pub enum EImageTerrainBase {
    Base,
    F0CrackedSand,
    F0CrackedTreeBark,
    F0DirtySand,
    F0FantasyColoredRockStone,
    F0GreenMoss,
    F0GrayMoss,
    F0SilverMoss,
    F0IceAndSnowGround,
    F0StoneRockMossMusk,
}

impl EImageTerrainBase {
    /// The asset path of each variant.
    pub open spec fn path(&self) -> Seq<char> {
        match self {
            EImageTerrainBase::Base => "textures/terrain/base/sand.01.png"@,
            EImageTerrainBase::F0CrackedSand => "textures/terrain/common/cracked_sand-1024x1024.png"@,
            EImageTerrainBase::F0CrackedTreeBark => "textures/terrain/common/cracked_tree_bark-1024x1024.png"@,
            EImageTerrainBase::F0DirtySand => "textures/terrain/common/dirty_sand-1024x1024.png"@,
            EImageTerrainBase::F0FantasyColoredRockStone => "textures/terrain/common/fantasy_colored_rock_stone-1024x1024.png"@,
            EImageTerrainBase::F0GreenMoss => "textures/terrain/common/green_moss-1024x1024.png"@,
            EImageTerrainBase::F0GrayMoss => "textures/terrain/common/gray_moss-1024x1024.png"@,
            EImageTerrainBase::F0SilverMoss => "textures/terrain/common/silver_moss-1024x1024.png"@,
            EImageTerrainBase::F0IceAndSnowGround => "textures/terrain/common/ice_and_snow_ground-1024x1024.png"@,
            EImageTerrainBase::F0StoneRockMossMusk => "textures/terrain/common/stone_rock_moss_musk-1024x1024.png"@,
        }
    }

    pub fn as_str(&self) -> (s: &'static str)
        ensures
            s@ == self.path(),
    {
        match self {
            EImageTerrainBase::Base => "textures/terrain/base/sand.01.png",
            EImageTerrainBase::F0CrackedSand => "textures/terrain/common/cracked_sand-1024x1024.png",
            EImageTerrainBase::F0CrackedTreeBark => "textures/terrain/common/cracked_tree_bark-1024x1024.png",
            EImageTerrainBase::F0DirtySand => "textures/terrain/common/dirty_sand-1024x1024.png",
            EImageTerrainBase::F0FantasyColoredRockStone => "textures/terrain/common/fantasy_colored_rock_stone-1024x1024.png",
            EImageTerrainBase::F0GreenMoss => "textures/terrain/common/green_moss-1024x1024.png",
            EImageTerrainBase::F0GrayMoss => "textures/terrain/common/gray_moss-1024x1024.png",
            EImageTerrainBase::F0SilverMoss => "textures/terrain/common/silver_moss-1024x1024.png",
            EImageTerrainBase::F0IceAndSnowGround => "textures/terrain/common/ice_and_snow_ground-1024x1024.png",
            EImageTerrainBase::F0StoneRockMossMusk => "textures/terrain/common/stone_rock_moss_musk-1024x1024.png",
        }
    }
}

/// Textures of the water surface.
pub enum EImageWaterBase {
    Walet1Base,
    Walet1Normal,
    Walet2Base,
    Walet2Normal,
}

impl EImageWaterBase {
    /// The asset path of each variant.
    pub open spec fn path(&self) -> Seq<char> {
        match self {
            EImageWaterBase::Walet1Base => "textures/water/water.01.base.png"@,
            EImageWaterBase::Walet1Normal => "textures/water/water.01.normal.png"@,
            EImageWaterBase::Walet2Base => "textures/water/Water-base-0325.png"@,
            EImageWaterBase::Walet2Normal => "textures/water/Water-normal-0325.png"@,
        }
    }

    pub fn as_str(&self) -> (s: &'static str)
        ensures
            s@ == self.path(),
    {
        match self {
            EImageWaterBase::Walet1Base => "textures/water/water.01.base.png",
            EImageWaterBase::Walet1Normal => "textures/water/water.01.normal.png",
            EImageWaterBase::Walet2Base => "textures/water/Water-base-0325.png",
            EImageWaterBase::Walet2Normal => "textures/water/Water-normal-0325.png",
        }
    }
}

/// Distinct variants have distinct names, and every name starts with `textures/sky/sky-segments/` and ends with `.png`.
pub proof fn lemma_e_image_sky_names(a: EImageSky, b: EImageSky)
    ensures
        a != b ==> a.path() != b.path(),
        a.path().len() >= 26 && a.path().subrange(0, 26) == "textures/sky/sky-segments/"@,
        a.path().len() >= 4 && a.path().subrange(a.path().len() - 4, a.path().len() as int) == ".png"@,
{
    reveal_strlit("textures/sky/sky-segments/down.png");
    reveal_strlit("textures/sky/sky-segments/east.png");
    reveal_strlit("textures/sky/sky-segments/north.png");
    reveal_strlit("textures/sky/sky-segments/south.png");
    reveal_strlit("textures/sky/sky-segments/up.png");
    reveal_strlit("textures/sky/sky-segments/west.png");
    assert(EImageSky::SkySegDown.path().len() == 34);
    assert(EImageSky::SkySegEast.path().len() == 34);
    assert(EImageSky::SkySegNorth.path().len() == 35);
    assert(EImageSky::SkySegSouth.path().len() == 35);
    assert(EImageSky::SkySegUp.path().len() == 32);
    assert(EImageSky::SkySegWest.path().len() == 34);
    reveal_strlit("textures/sky/sky-segments/");
    reveal_strlit(".png");
    assert(EImageSky::SkySegDown.path()[26] != EImageSky::SkySegEast.path()[26]);
    assert(EImageSky::SkySegDown.path()[26] != EImageSky::SkySegWest.path()[26]);
    assert(EImageSky::SkySegEast.path()[26] != EImageSky::SkySegWest.path()[26]);
    assert(EImageSky::SkySegNorth.path()[26] != EImageSky::SkySegSouth.path()[26]);
    assert(a.path().subrange(0, 26) =~= "textures/sky/sky-segments/"@);
    assert(a.path().subrange(a.path().len() - 4, a.path().len() as int) =~= ".png"@);
}

/// Distinct variants have distinct names, and every name starts with `textures/terrain/` and ends with `.png`.
pub proof fn lemma_e_image_terrain_base_names(a: EImageTerrainBase, b: EImageTerrainBase)
    ensures
        a != b ==> a.path() != b.path(),
        a.path().len() >= 17 && a.path().subrange(0, 17) == "textures/terrain/"@,
        a.path().len() >= 4 && a.path().subrange(a.path().len() - 4, a.path().len() as int) == ".png"@,
{
    reveal_strlit("textures/terrain/base/sand.01.png");
    reveal_strlit("textures/terrain/common/cracked_sand-1024x1024.png");
    reveal_strlit("textures/terrain/common/cracked_tree_bark-1024x1024.png");
    reveal_strlit("textures/terrain/common/dirty_sand-1024x1024.png");
    reveal_strlit("textures/terrain/common/fantasy_colored_rock_stone-1024x1024.png");
    reveal_strlit("textures/terrain/common/gray_moss-1024x1024.png");
    reveal_strlit("textures/terrain/common/green_moss-1024x1024.png");
    reveal_strlit("textures/terrain/common/ice_and_snow_ground-1024x1024.png");
    reveal_strlit("textures/terrain/common/silver_moss-1024x1024.png");
    reveal_strlit("textures/terrain/common/stone_rock_moss_musk-1024x1024.png");
    assert(EImageTerrainBase::Base.path().len() == 33);
    assert(EImageTerrainBase::F0CrackedSand.path().len() == 50);
    assert(EImageTerrainBase::F0CrackedTreeBark.path().len() == 55);
    assert(EImageTerrainBase::F0DirtySand.path().len() == 48);
    assert(EImageTerrainBase::F0FantasyColoredRockStone.path().len() == 64);
    assert(EImageTerrainBase::F0GreenMoss.path().len() == 48);
    assert(EImageTerrainBase::F0GrayMoss.path().len() == 47);
    assert(EImageTerrainBase::F0SilverMoss.path().len() == 49);
    assert(EImageTerrainBase::F0IceAndSnowGround.path().len() == 57);
    assert(EImageTerrainBase::F0StoneRockMossMusk.path().len() == 58);
    reveal_strlit("textures/terrain/");
    reveal_strlit(".png");
    assert(EImageTerrainBase::F0DirtySand.path()[24] != EImageTerrainBase::F0GreenMoss.path()[24]);
    assert(a.path().subrange(0, 17) =~= "textures/terrain/"@);
    assert(a.path().subrange(a.path().len() - 4, a.path().len() as int) =~= ".png"@);
}

/// Distinct variants have distinct names, and every name starts with `textures/water/` and ends with `.png`.
pub proof fn lemma_e_image_water_base_names(a: EImageWaterBase, b: EImageWaterBase)
    ensures
        a != b ==> a.path() != b.path(),
        a.path().len() >= 15 && a.path().subrange(0, 15) == "textures/water/"@,
        a.path().len() >= 4 && a.path().subrange(a.path().len() - 4, a.path().len() as int) == ".png"@,
{
    reveal_strlit("textures/water/Water-base-0325.png");
    reveal_strlit("textures/water/Water-normal-0325.png");
    reveal_strlit("textures/water/water.01.base.png");
    reveal_strlit("textures/water/water.01.normal.png");
    assert(EImageWaterBase::Walet1Base.path().len() == 32);
    assert(EImageWaterBase::Walet1Normal.path().len() == 34);
    assert(EImageWaterBase::Walet2Base.path().len() == 34);
    assert(EImageWaterBase::Walet2Normal.path().len() == 36);
    reveal_strlit("textures/water/");
    reveal_strlit(".png");
    assert(EImageWaterBase::Walet1Normal.path()[15] != EImageWaterBase::Walet2Base.path()[15]);
    assert(a.path().subrange(0, 15) =~= "textures/water/"@);
    assert(a.path().subrange(a.path().len() - 4, a.path().len() as int) =~= ".png"@);
}

} // verus!
