use vstd::prelude::*;

verus! {

/// Animation clips of the player character.
pub enum EAnimationIds {
    NoAnimation,
    Idle,
    WalkForward,
    WalkLeft,
    WalkRight,
    WalkBack,
    RunForward,
    RunBack,
    RunLeft,
    RunRight,
    RunForwardStop,
    RunForwardJump,
    StandingJump,
}

impl EAnimationIds {
    /// The clip name of each animation.
    pub open spec fn path(&self) -> Seq<char> {
        match self {
            EAnimationIds::NoAnimation => "None"@,
            EAnimationIds::Idle => "Standing-idle-01"@,
            EAnimationIds::WalkForward => "Standing-walk-forward"@,
            EAnimationIds::WalkLeft => "Standing-walk-left"@,
            EAnimationIds::WalkRight => "Standing-walk-right"@,
            EAnimationIds::WalkBack => "Standing-walk-back"@,
            EAnimationIds::RunForward => "Standing-run-forward"@,
            EAnimationIds::RunBack => "Standing-run-back"@,
            EAnimationIds::RunLeft => "Standing-run-left"@,
            EAnimationIds::RunRight => "Standing-run-right"@,
            EAnimationIds::RunForwardStop => "Standing-run-forward-stop"@,
            EAnimationIds::RunForwardJump => "Standing-jump-running-to-run-forward"@,
            EAnimationIds::StandingJump => "Standing-jump"@,
        }
    }

    pub fn as_str(&self) -> (s: &'static str)
        ensures
            s@ == self.path(),
    {
        match self {
            EAnimationIds::NoAnimation => "None",
            EAnimationIds::Idle => "Standing-idle-01",
            EAnimationIds::WalkForward => "Standing-walk-forward",
            EAnimationIds::WalkLeft => "Standing-walk-left",
            EAnimationIds::WalkRight => "Standing-walk-right",
            EAnimationIds::WalkBack => "Standing-walk-back",
            EAnimationIds::RunForward => "Standing-run-forward",
            EAnimationIds::RunBack => "Standing-run-back",
            EAnimationIds::RunLeft => "Standing-run-left",
            EAnimationIds::RunRight => "Standing-run-right",
            EAnimationIds::RunForwardStop => "Standing-run-forward-stop",
            EAnimationIds::RunForwardJump => "Standing-jump-running-to-run-forward",
            EAnimationIds::StandingJump => "Standing-jump",
        }
    }
}

/// Distinct variants have distinct names, and every name but the excepted ones starts with `Standing-`.
pub proof fn lemma_e_animation_ids_names(a: EAnimationIds, b: EAnimationIds)
    ensures
        a != b ==> a.path() != b.path(),
        !(a is NoAnimation) ==> a.path().len() >= 9 && a.path().subrange(0, 9) == "Standing-"@,
{
    reveal_strlit("None");
    reveal_strlit("Standing-idle-01");
    reveal_strlit("Standing-jump");
    reveal_strlit("Standing-jump-running-to-run-forward");
    reveal_strlit("Standing-run-back");
    reveal_strlit("Standing-run-forward");
    reveal_strlit("Standing-run-forward-stop");
    reveal_strlit("Standing-run-left");
    reveal_strlit("Standing-run-right");
    reveal_strlit("Standing-walk-back");
    reveal_strlit("Standing-walk-forward");
    reveal_strlit("Standing-walk-left");
    reveal_strlit("Standing-walk-right");
    assert(EAnimationIds::NoAnimation.path().len() == 4);
    assert(EAnimationIds::Idle.path().len() == 16);
    assert(EAnimationIds::WalkForward.path().len() == 21);
    assert(EAnimationIds::WalkLeft.path().len() == 18);
    assert(EAnimationIds::WalkRight.path().len() == 19);
    assert(EAnimationIds::WalkBack.path().len() == 18);
    assert(EAnimationIds::RunForward.path().len() == 20);
    assert(EAnimationIds::RunBack.path().len() == 17);
    assert(EAnimationIds::RunLeft.path().len() == 17);
    assert(EAnimationIds::RunRight.path().len() == 18);
    assert(EAnimationIds::RunForwardStop.path().len() == 25);
    assert(EAnimationIds::RunForwardJump.path().len() == 36);
    assert(EAnimationIds::StandingJump.path().len() == 13);
    reveal_strlit("Standing-");
    assert(EAnimationIds::WalkLeft.path()[14] != EAnimationIds::WalkBack.path()[14]);
    assert(EAnimationIds::WalkLeft.path()[9] != EAnimationIds::RunRight.path()[9]);
    assert(EAnimationIds::WalkBack.path()[9] != EAnimationIds::RunRight.path()[9]);
    assert(EAnimationIds::RunBack.path()[13] != EAnimationIds::RunLeft.path()[13]);
    assert(!(a is NoAnimation) ==> a.path().subrange(0, 9) =~= "Standing-"@);
}

} // verus!
