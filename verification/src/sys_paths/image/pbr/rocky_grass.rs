use vstd::prelude::*;

verus! {

/// Physically based texture set of rocky terrain.
pub enum RockGrass {
    Ao,
    Arm,
    Diff,
    DiffLight,
    Disp,
    NorGl,
    Rough,
    RoughAo,
}

impl RockGrass {
    /// The asset path of each variant.
    pub open spec fn path(&self) -> Seq<char> {
        match self {
            RockGrass::Ao => "textures/terrain/pbr/rocky_grass/rocky_terrain_02_ao_1k.png"@,
            RockGrass::Arm => "textures/terrain/pbr/rocky_grass/rocky_terrain_02_arm_1k.png"@,
            RockGrass::Diff => "textures/terrain/pbr/rocky_grass/rocky_terrain_02_diff_1k.png"@,
            RockGrass::DiffLight => "textures/terrain/pbr/rocky_grass/rocky_terrain_02_diff_1k_light.png"@,
            RockGrass::Disp => "textures/terrain/pbr/rocky_grass/rocky_terrain_02_disp_1k.png"@,
            RockGrass::NorGl => "textures/terrain/pbr/rocky_grass/rocky_terrain_02_nor_gl_1k.png"@,
            RockGrass::Rough => "textures/terrain/pbr/rocky_grass/rocky_terrain_02_rough_1k.png"@,
            RockGrass::RoughAo => "textures/terrain/pbr/rocky_grass/rocky_terrain_02_rough_ao_1k.png"@,
        }
    }

    pub fn as_str(&self) -> (s: &'static str)
        ensures
            s@ == self.path(),
    {
        match self {
            RockGrass::Ao => "textures/terrain/pbr/rocky_grass/rocky_terrain_02_ao_1k.png",
            RockGrass::Arm => "textures/terrain/pbr/rocky_grass/rocky_terrain_02_arm_1k.png",
            RockGrass::Diff => "textures/terrain/pbr/rocky_grass/rocky_terrain_02_diff_1k.png",
            RockGrass::DiffLight => "textures/terrain/pbr/rocky_grass/rocky_terrain_02_diff_1k_light.png",
            RockGrass::Disp => "textures/terrain/pbr/rocky_grass/rocky_terrain_02_disp_1k.png",
            RockGrass::NorGl => "textures/terrain/pbr/rocky_grass/rocky_terrain_02_nor_gl_1k.png",
            RockGrass::Rough => "textures/terrain/pbr/rocky_grass/rocky_terrain_02_rough_1k.png",
            RockGrass::RoughAo => "textures/terrain/pbr/rocky_grass/rocky_terrain_02_rough_ao_1k.png",
        }
    }
}

/// Distinct variants have distinct names, and every name starts with `textures/terrain/pbr/rocky_grass/rocky_terrain_02_` and ends with `.png`.
pub proof fn lemma_rock_grass_names(a: RockGrass, b: RockGrass)
    ensures
        a != b ==> a.path() != b.path(),
        a.path().len() >= 50 && a.path().subrange(0, 50) == "textures/terrain/pbr/rocky_grass/rocky_terrain_02_"@,
        a.path().len() >= 4 && a.path().subrange(a.path().len() - 4, a.path().len() as int) == ".png"@,
{
    reveal_strlit("textures/terrain/pbr/rocky_grass/rocky_terrain_02_ao_1k.png");
    reveal_strlit("textures/terrain/pbr/rocky_grass/rocky_terrain_02_arm_1k.png");
    reveal_strlit("textures/terrain/pbr/rocky_grass/rocky_terrain_02_diff_1k.png");
    reveal_strlit("textures/terrain/pbr/rocky_grass/rocky_terrain_02_diff_1k_light.png");
    reveal_strlit("textures/terrain/pbr/rocky_grass/rocky_terrain_02_disp_1k.png");
    reveal_strlit("textures/terrain/pbr/rocky_grass/rocky_terrain_02_nor_gl_1k.png");
    reveal_strlit("textures/terrain/pbr/rocky_grass/rocky_terrain_02_rough_1k.png");
    reveal_strlit("textures/terrain/pbr/rocky_grass/rocky_terrain_02_rough_ao_1k.png");
    assert(RockGrass::Ao.path().len() == 59);
    assert(RockGrass::Arm.path().len() == 60);
    assert(RockGrass::Diff.path().len() == 61);
    assert(RockGrass::DiffLight.path().len() == 67);
    assert(RockGrass::Disp.path().len() == 61);
    assert(RockGrass::NorGl.path().len() == 63);
    assert(RockGrass::Rough.path().len() == 62);
    assert(RockGrass::RoughAo.path().len() == 65);
    reveal_strlit("textures/terrain/pbr/rocky_grass/rocky_terrain_02_");
    reveal_strlit(".png");
    assert(RockGrass::Diff.path()[52] != RockGrass::Disp.path()[52]);
    assert(a.path().subrange(0, 50) =~= "textures/terrain/pbr/rocky_grass/rocky_terrain_02_"@);
    assert(a.path().subrange(a.path().len() - 4, a.path().len() as int) =~= ".png"@);
}

} // verus!
