use vstd::prelude::*;

verus! {

/// Physically based texture set of grassy rock.
pub enum AerialGrassRock {
    Ao,
    Arm,
    Diff,
    DiffLight,
    Disp,
    NorGl,
    Rough,
    RoughAo,
}

impl AerialGrassRock {
    /// The asset path of each variant.
    pub open spec fn path(&self) -> Seq<char> {
        match self {
            AerialGrassRock::Ao => "textures/terrain/pbr/aerial-grass-rock/aerial_grass_rock_ao_1k.png"@,
            AerialGrassRock::Arm => "textures/terrain/pbr/aerial-grass-rock/aerial_grass_rock_arm_1k.png"@,
            AerialGrassRock::Diff => "textures/terrain/pbr/aerial-grass-rock/aerial_grass_rock_diff_1k.png"@,
            AerialGrassRock::DiffLight => "textures/terrain/pbr/aerial-grass-rock/aerial_grass_rock_diff_1k_light.png"@,
            AerialGrassRock::Disp => "textures/terrain/pbr/aerial-grass-rock/aerial_grass_rock_disp_1k.png"@,
            AerialGrassRock::NorGl => "textures/terrain/pbr/aerial-grass-rock/aerial_grass_rock_nor_gl_1k.png"@,
            AerialGrassRock::Rough => "textures/terrain/pbr/aerial-grass-rock/aerial_grass_rock_rough_1k.png"@,
            AerialGrassRock::RoughAo => "textures/terrain/pbr/aerial-grass-rock/aerial_grass_rock_rough_ao_1k.png"@,
        }
    }

    pub fn as_str(&self) -> (s: &'static str)
        ensures
            s@ == self.path(),
    {
        match self {
            AerialGrassRock::Ao => "textures/terrain/pbr/aerial-grass-rock/aerial_grass_rock_ao_1k.png",
            AerialGrassRock::Arm => "textures/terrain/pbr/aerial-grass-rock/aerial_grass_rock_arm_1k.png",
            AerialGrassRock::Diff => "textures/terrain/pbr/aerial-grass-rock/aerial_grass_rock_diff_1k.png",
            AerialGrassRock::DiffLight => "textures/terrain/pbr/aerial-grass-rock/aerial_grass_rock_diff_1k_light.png",
            AerialGrassRock::Disp => "textures/terrain/pbr/aerial-grass-rock/aerial_grass_rock_disp_1k.png",
            AerialGrassRock::NorGl => "textures/terrain/pbr/aerial-grass-rock/aerial_grass_rock_nor_gl_1k.png",
            AerialGrassRock::Rough => "textures/terrain/pbr/aerial-grass-rock/aerial_grass_rock_rough_1k.png",
            AerialGrassRock::RoughAo => "textures/terrain/pbr/aerial-grass-rock/aerial_grass_rock_rough_ao_1k.png",
        }
    }
}

/// Distinct variants have distinct names, and every name starts with `textures/terrain/pbr/aerial-grass-rock/aerial_grass_rock_` and ends with `.png`.
pub proof fn lemma_aerial_grass_rock_names(a: AerialGrassRock, b: AerialGrassRock)
    ensures
        a != b ==> a.path() != b.path(),
        a.path().len() >= 57 && a.path().subrange(0, 57) == "textures/terrain/pbr/aerial-grass-rock/aerial_grass_rock_"@,
        a.path().len() >= 4 && a.path().subrange(a.path().len() - 4, a.path().len() as int) == ".png"@,
{
    reveal_strlit("textures/terrain/pbr/aerial-grass-rock/aerial_grass_rock_ao_1k.png");
    reveal_strlit("textures/terrain/pbr/aerial-grass-rock/aerial_grass_rock_arm_1k.png");
    reveal_strlit("textures/terrain/pbr/aerial-grass-rock/aerial_grass_rock_diff_1k.png");
    reveal_strlit("textures/terrain/pbr/aerial-grass-rock/aerial_grass_rock_diff_1k_light.png");
    reveal_strlit("textures/terrain/pbr/aerial-grass-rock/aerial_grass_rock_disp_1k.png");
    reveal_strlit("textures/terrain/pbr/aerial-grass-rock/aerial_grass_rock_nor_gl_1k.png");
    reveal_strlit("textures/terrain/pbr/aerial-grass-rock/aerial_grass_rock_rough_1k.png");
    reveal_strlit("textures/terrain/pbr/aerial-grass-rock/aerial_grass_rock_rough_ao_1k.png");
    assert(AerialGrassRock::Ao.path().len() == 66);
    assert(AerialGrassRock::Arm.path().len() == 67);
    assert(AerialGrassRock::Diff.path().len() == 68);
    assert(AerialGrassRock::DiffLight.path().len() == 74);
    assert(AerialGrassRock::Disp.path().len() == 68);
    assert(AerialGrassRock::NorGl.path().len() == 70);
    assert(AerialGrassRock::Rough.path().len() == 69);
    assert(AerialGrassRock::RoughAo.path().len() == 72);
    reveal_strlit("textures/terrain/pbr/aerial-grass-rock/aerial_grass_rock_");
    reveal_strlit(".png");
    assert(AerialGrassRock::Diff.path()[59] != AerialGrassRock::Disp.path()[59]);
    assert(a.path().subrange(0, 57) =~= "textures/terrain/pbr/aerial-grass-rock/aerial_grass_rock_"@);
    assert(a.path().subrange(a.path().len() - 4, a.path().len() as int) =~= ".png"@);
}

} // verus!
