use vstd::prelude::*;

verus! {

/// Texture assets, by their older names.
pub enum EPaths {
    Base,
    SkyOne,
    SkyTwo,
    SkyBoxOne,
    SkyBoxTwo,
    SkyBox3,
    SkySegDown,
    SkySegEast,
    SkySegNorth,
    SkySegSouth,
    SkySegUp,
    SkySegWest,
}

impl EPaths {
    /// The asset path of each variant.
    pub open spec fn path(&self) -> Seq<char> {
        match self {
            EPaths::Base => "textures/terrain/base/sand.01.png"@,
            EPaths::SkyOne => "textures/sky/sky.01.png"@,
            EPaths::SkyTwo => "textures/sky/sky.02.png"@,
            EPaths::SkyBoxOne => "textures/sky/sky-box.01.png"@,
            EPaths::SkyBoxTwo => "textures/sky/sky-box.02.png"@,
            EPaths::SkyBox3 => "textures/sky/sky-box.03.png"@,
            EPaths::SkySegDown => "textures/sky/sky-segments/down.png"@,
            EPaths::SkySegEast => "textures/sky/sky-segments/east.png"@,
            EPaths::SkySegNorth => "textures/sky/sky-segments/north.png"@,
            EPaths::SkySegSouth => "textures/sky/sky-segments/south.png"@,
            EPaths::SkySegUp => "textures/sky/sky-segments/up.png"@,
            EPaths::SkySegWest => "textures/sky/sky-segments/west.png"@,
        }
    }

    pub fn as_str(&self) -> (s: &'static str)
        ensures
            s@ == self.path(),
    {
        match self {
            EPaths::Base => "textures/terrain/base/sand.01.png",
            EPaths::SkyOne => "textures/sky/sky.01.png",
            EPaths::SkyTwo => "textures/sky/sky.02.png",
            EPaths::SkyBoxOne => "textures/sky/sky-box.01.png",
            EPaths::SkyBoxTwo => "textures/sky/sky-box.02.png",
            EPaths::SkyBox3 => "textures/sky/sky-box.03.png",
            EPaths::SkySegDown => "textures/sky/sky-segments/down.png",
            EPaths::SkySegEast => "textures/sky/sky-segments/east.png",
            EPaths::SkySegNorth => "textures/sky/sky-segments/north.png",
            EPaths::SkySegSouth => "textures/sky/sky-segments/south.png",
            EPaths::SkySegUp => "textures/sky/sky-segments/up.png",
            EPaths::SkySegWest => "textures/sky/sky-segments/west.png",
        }
    }
}

/// Distinct variants have distinct names, and every name starts with `textures/` and ends with `.png`.
pub proof fn lemma_e_paths_names(a: EPaths, b: EPaths)
    ensures
        a != b ==> a.path() != b.path(),
        a.path().len() >= 9 && a.path().subrange(0, 9) == "textures/"@,
        a.path().len() >= 4 && a.path().subrange(a.path().len() - 4, a.path().len() as int) == ".png"@,
{
    reveal_strlit("textures/sky/sky-box.01.png");
    reveal_strlit("textures/sky/sky-box.02.png");
    reveal_strlit("textures/sky/sky-box.03.png");
    reveal_strlit("textures/sky/sky-segments/down.png");
    reveal_strlit("textures/sky/sky-segments/east.png");
    reveal_strlit("textures/sky/sky-segments/north.png");
    reveal_strlit("textures/sky/sky-segments/south.png");
    reveal_strlit("textures/sky/sky-segments/up.png");
    reveal_strlit("textures/sky/sky-segments/west.png");
    reveal_strlit("textures/sky/sky.01.png");
    reveal_strlit("textures/sky/sky.02.png");
    reveal_strlit("textures/terrain/base/sand.01.png");
    assert(EPaths::Base.path().len() == 33);
    assert(EPaths::SkyOne.path().len() == 23);
    assert(EPaths::SkyTwo.path().len() == 23);
    assert(EPaths::SkyBoxOne.path().len() == 27);
    assert(EPaths::SkyBoxTwo.path().len() == 27);
    assert(EPaths::SkyBox3.path().len() == 27);
    assert(EPaths::SkySegDown.path().len() == 34);
    assert(EPaths::SkySegEast.path().len() == 34);
    assert(EPaths::SkySegNorth.path().len() == 35);
    assert(EPaths::SkySegSouth.path().len() == 35);
    assert(EPaths::SkySegUp.path().len() == 32);
    assert(EPaths::SkySegWest.path().len() == 34);
    reveal_strlit("textures/");
    reveal_strlit(".png");
    assert(EPaths::SkyOne.path()[18] != EPaths::SkyTwo.path()[18]);
    assert(EPaths::SkyBoxOne.path()[22] != EPaths::SkyBoxTwo.path()[22]);
    assert(EPaths::SkyBoxOne.path()[22] != EPaths::SkyBox3.path()[22]);
    assert(EPaths::SkyBoxTwo.path()[22] != EPaths::SkyBox3.path()[22]);
    assert(EPaths::SkySegDown.path()[26] != EPaths::SkySegEast.path()[26]);
    assert(EPaths::SkySegDown.path()[26] != EPaths::SkySegWest.path()[26]);
    assert(EPaths::SkySegEast.path()[26] != EPaths::SkySegWest.path()[26]);
    assert(EPaths::SkySegNorth.path()[26] != EPaths::SkySegSouth.path()[26]);
    assert(a.path().subrange(0, 9) =~= "textures/"@);
    assert(a.path().subrange(a.path().len() - 4, a.path().len() as int) =~= ".png"@);
}

} // verus!
