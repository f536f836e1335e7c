use vstd::prelude::*;

verus! {

/// Sound assets that the game plays.
pub enum EAudio {
    EnvOne,
    PaintballShoot,
}

impl EAudio {
    /// The asset path of each variant.
    pub open spec fn path(&self) -> Seq<char> {
        match self {
            EAudio::EnvOne => "sounds/test.02.ogg"@,
            EAudio::PaintballShoot => "sounds/paintball_shoot.01.ogg"@,
        }
    }

    pub fn as_str(&self) -> (s: &'static str)
        ensures
            s@ == self.path(),
    {
        match self {
            EAudio::EnvOne => "sounds/test.02.ogg",
            EAudio::PaintballShoot => "sounds/paintball_shoot.01.ogg",
        }
    }
}

/// Distinct variants have distinct names, and every name starts with `sounds/` and ends with `.ogg`.
pub proof fn lemma_e_audio_names(a: EAudio, b: EAudio)
    ensures
        a != b ==> a.path() != b.path(),
        a.path().len() >= 7 && a.path().subrange(0, 7) == "sounds/"@,
        a.path().len() >= 4 && a.path().subrange(a.path().len() - 4, a.path().len() as int) == ".ogg"@,
{
    reveal_strlit("sounds/paintball_shoot.01.ogg");
    reveal_strlit("sounds/test.02.ogg");
    assert(EAudio::EnvOne.path().len() == 18);
    assert(EAudio::PaintballShoot.path().len() == 29);
    reveal_strlit("sounds/");
    reveal_strlit(".ogg");
    assert(a.path().subrange(0, 7) =~= "sounds/"@);
    assert(a.path().subrange(a.path().len() - 4, a.path().len() as int) =~= ".ogg"@);
}

} // verus!
