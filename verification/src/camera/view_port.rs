use vstd::prelude::*;

verus! {

/// Where the window stands among the other windows.
#[derive(Clone, Copy, Debug, PartialEq, Eq, Structural)]
pub enum WindowLevel {
    AlwaysOnBottom,
    Normal,
    AlwaysOnTop,
}

/// The level that a press of the level key moves the window to.
pub open spec fn spec_next_level(level: WindowLevel) -> WindowLevel {
    match level {
        WindowLevel::AlwaysOnBottom => WindowLevel::Normal,
        WindowLevel::Normal => WindowLevel::AlwaysOnTop,
        WindowLevel::AlwaysOnTop => WindowLevel::AlwaysOnBottom,
    }
}

/// The level that a press of the level key moves the window to: from the
/// bottom to normal, from normal to the top, from the top to the bottom.
pub fn switch_level(level: WindowLevel) -> (r: WindowLevel)
    ensures
        r == spec_next_level(level),
{
    match level {
        WindowLevel::AlwaysOnBottom => WindowLevel::Normal,
        WindowLevel::Normal => WindowLevel::AlwaysOnTop,
        WindowLevel::AlwaysOnTop => WindowLevel::AlwaysOnBottom,
    }
}

/// Rank of a level from the bottom: 0 at the bottom, 1 normal, 2 at the top.
pub open spec fn level_rank(level: WindowLevel) -> int {
    match level {
        WindowLevel::AlwaysOnBottom => 0,
        WindowLevel::Normal => 1,
        WindowLevel::AlwaysOnTop => 2,
    }
}

/// A press of the level key raises the window by one level, and from the top
/// it goes back to the bottom.
pub proof fn lemma_switch_level_raises(level: WindowLevel)
    ensures
        level_rank(spec_next_level(level)) == (level_rank(level) + 1) % 3,
{
}

/// Three presses of the level key bring the window back to its level, and
/// no fewer do.
pub proof fn lemma_switch_level_cycle(level: WindowLevel)
    ensures
        spec_next_level(spec_next_level(spec_next_level(level))) == level,
        spec_next_level(level) != level,
        spec_next_level(spec_next_level(level)) != level,
{
}

/// Which of the window's title-bar buttons are enabled.
#[derive(Clone, Copy, Debug, PartialEq, Eq, Structural)]
pub struct EnabledButtons {
    pub minimize: bool,
    pub maximize: bool,
    pub close: bool,
}

/// The buttons once each button whose key was pressed is flipped.
pub open spec fn spec_toggle_buttons(b: EnabledButtons, t_min: bool, t_max: bool, t_close: bool) -> EnabledButtons {
    EnabledButtons {
        minimize: b.minimize != t_min,
        maximize: b.maximize != t_max,
        close: b.close != t_close,
    }
}

/// Each button flips exactly when its own key is pressed: a button whose key
/// was not pressed keeps its value, whatever the other keys do.
pub proof fn lemma_each_key_flips_its_own_button(b: EnabledButtons, t_min: bool, t_max: bool, t_close: bool)
    ensures
        spec_toggle_buttons(b, t_min, t_max, t_close).minimize == (b.minimize != t_min),
        spec_toggle_buttons(b, t_min, t_max, t_close).maximize == (b.maximize != t_max),
        spec_toggle_buttons(b, t_min, t_max, t_close).close == (b.close != t_close),
        !t_min && !t_max && !t_close ==> spec_toggle_buttons(b, t_min, t_max, t_close) == b,
{
}

/// Pressing the same keys twice gives the buttons back as they were.
pub proof fn lemma_toggle_window_controls_twice(b: EnabledButtons, t_min: bool, t_max: bool, t_close: bool)
    ensures
        spec_toggle_buttons(spec_toggle_buttons(b, t_min, t_max, t_close), t_min, t_max, t_close) == b,
{
}

/// The buttons after the keys for minimize, maximize and close were pressed:
/// each pressed key flips its button, the others stay.
pub fn toggle_window_controls(
    buttons: EnabledButtons,
    toggle_minimize: bool,
    toggle_maximize: bool,
    toggle_close: bool,
) -> (r: EnabledButtons)
    ensures
        r == spec_toggle_buttons(buttons, toggle_minimize, toggle_maximize, toggle_close),
{
    let mut r = buttons;
    if toggle_minimize || toggle_maximize || toggle_close {
        if toggle_minimize {
            r.minimize = !r.minimize;
        }
        if toggle_maximize {
            r.maximize = !r.maximize;
        }
        if toggle_close {
            r.close = !r.close;
        }
    }
    r
}

} // verus!
