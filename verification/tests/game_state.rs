use m_game::camera::view_port::{switch_level, toggle_window_controls, EnabledButtons, WindowLevel};
use m_game::state::{toggle_game_state, toggle_pause_game, MGameState};

#[test]
fn pause_key_toggles() {
    assert_eq!(MGameState::default(), MGameState::Running);
    let t = toggle_pause_game(MGameState::Running);
    assert_eq!(t.next_state, MGameState::Paused);
    assert!(!t.physics_on);
    let u = toggle_pause_game(t.next_state);
    assert_eq!(u.next_state, MGameState::Running);
    assert!(u.physics_on);
}

#[test]
fn game_state_from_flag() {
    assert_eq!(toggle_game_state(true), MGameState::Paused);
    assert_eq!(toggle_game_state(false), MGameState::Running);
}

#[test]
fn window_level_cycles_in_three() {
    assert_eq!(switch_level(WindowLevel::AlwaysOnBottom), WindowLevel::Normal);
    assert_eq!(switch_level(WindowLevel::Normal), WindowLevel::AlwaysOnTop);
    assert_eq!(switch_level(WindowLevel::AlwaysOnTop), WindowLevel::AlwaysOnBottom);
    let l = WindowLevel::Normal;
    assert_eq!(switch_level(switch_level(switch_level(l))), l);
}

#[test]
fn window_buttons_flip() {
    let b = EnabledButtons { minimize: true, maximize: true, close: false };
    let r = toggle_window_controls(b, true, false, true);
    assert_eq!(r, EnabledButtons { minimize: false, maximize: true, close: true });
    assert_eq!(toggle_window_controls(r, true, false, true), b);
    assert_eq!(toggle_window_controls(b, false, false, false), b);
}
