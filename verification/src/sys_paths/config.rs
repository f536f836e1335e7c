use vstd::prelude::*;

verus! {

/// Configuration files read at start-up.
pub enum EConfig {
    Debug,
    Window,
}

impl EConfig {
    /// The asset path of each variant.
    pub open spec fn path(&self) -> Seq<char> {
        match self {
            EConfig::Debug => "assets/config/debug.json"@,
            EConfig::Window => "assets/config/window.json"@,
        }
    }

    pub fn as_str(&self) -> (s: &'static str)
        ensures
            s@ == self.path(),
    {
        match self {
            EConfig::Debug => "assets/config/debug.json",
            EConfig::Window => "assets/config/window.json",
        }
    }
}

/// Distinct variants have distinct names, and every name starts with `assets/config/` and ends with `.json`.
pub proof fn lemma_e_config_names(a: EConfig, b: EConfig)
    ensures
        a != b ==> a.path() != b.path(),
        a.path().len() >= 14 && a.path().subrange(0, 14) == "assets/config/"@,
        a.path().len() >= 5 && a.path().subrange(a.path().len() - 5, a.path().len() as int) == ".json"@,
{
    reveal_strlit("assets/config/debug.json");
    reveal_strlit("assets/config/window.json");
    assert(EConfig::Debug.path().len() == 24);
    assert(EConfig::Window.path().len() == 25);
    reveal_strlit("assets/config/");
    reveal_strlit(".json");
    assert(a.path().subrange(0, 14) =~= "assets/config/"@);
    assert(a.path().subrange(a.path().len() - 5, a.path().len() as int) =~= ".json"@);
}

} // verus!
