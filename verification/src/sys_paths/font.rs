use vstd::prelude::*;

verus! {

/// Fonts of the user interface.
pub enum EFont {
    QuartzoMain,
    Bigpartyo2GreenMain,
    LoveYouBlackSeeTrough,
    LoveYouBlackSolid,
}

impl EFont {
    /// The asset path of each variant.
    pub open spec fn path(&self) -> Seq<char> {
        match self {
            EFont::QuartzoMain => "fonts/ui/quartzo/main.otf"@,
            EFont::Bigpartyo2GreenMain => "fonts/ui/bigpartyo2-green/main.ttf"@,
            EFont::LoveYouBlackSeeTrough => "fonts/ui/kg-someone-you-loved/black.see-trough.otf"@,
            EFont::LoveYouBlackSolid => "fonts/ui/kg-someone-you-loved/black.solid.otf"@,
        }
    }

    pub fn as_str(&self) -> (s: &'static str)
        ensures
            s@ == self.path(),
    {
        match self {
            EFont::QuartzoMain => "fonts/ui/quartzo/main.otf",
            EFont::Bigpartyo2GreenMain => "fonts/ui/bigpartyo2-green/main.ttf",
            EFont::LoveYouBlackSeeTrough => "fonts/ui/kg-someone-you-loved/black.see-trough.otf",
            EFont::LoveYouBlackSolid => "fonts/ui/kg-someone-you-loved/black.solid.otf",
        }
    }
}

/// Distinct variants have distinct names, and every name starts with `fonts/ui/`.
pub proof fn lemma_e_font_names(a: EFont, b: EFont)
    ensures
        a != b ==> a.path() != b.path(),
        a.path().len() >= 9 && a.path().subrange(0, 9) == "fonts/ui/"@,
{
    reveal_strlit("fonts/ui/bigpartyo2-green/main.ttf");
    reveal_strlit("fonts/ui/kg-someone-you-loved/black.see-trough.otf");
    reveal_strlit("fonts/ui/kg-someone-you-loved/black.solid.otf");
    reveal_strlit("fonts/ui/quartzo/main.otf");
    assert(EFont::QuartzoMain.path().len() == 25);
    assert(EFont::Bigpartyo2GreenMain.path().len() == 34);
    assert(EFont::LoveYouBlackSeeTrough.path().len() == 50);
    assert(EFont::LoveYouBlackSolid.path().len() == 45);
    reveal_strlit("fonts/ui/");
    assert(a.path().subrange(0, 9) =~= "fonts/ui/"@);
}

} // verus!
