use m_game::debug::{
    floating_object_positions, fps_sample_step, throttle_sleep, toggle_wireframe, FpsSampleStep,
    MEASURE_AVG_FPS_EACH,
};

#[test]
fn fps_samples_then_reports() {
    let mut idx = 0u32;
    for k in 0..MEASURE_AVG_FPS_EACH {
        let (step, next) = fps_sample_step(idx);
        assert_eq!(step, FpsSampleStep::Store { index: k as usize });
        idx = next;
    }
    assert_eq!(idx, 15);
    assert_eq!(fps_sample_step(idx), (FpsSampleStep::Report, 0));
    assert_eq!(fps_sample_step(40), (FpsSampleStep::Report, 0));
}

#[test]
fn throttle_sleeps_for_the_time_left() {
    assert_eq!(throttle_sleep(16_666_667, 10_000_000), Some(6_666_667));
    assert_eq!(throttle_sleep(16_666_667, 16_666_667), None);
    assert_eq!(throttle_sleep(16_666_667, 20_000_000), None);
}

#[test]
fn wireframe_key() {
    assert!(toggle_wireframe(true, false));
    assert!(!toggle_wireframe(true, true));
    assert!(toggle_wireframe(false, true));
    assert!(!toggle_wireframe(false, false));
}

#[test]
fn floating_block_positions() {
    let r = floating_object_positions();
    assert_eq!(r.len(), 27);
    assert_eq!(r[0], (-100, 250, -200));
    assert_eq!(r[26], (-60, 290, -160));
    assert_eq!(r[1 * 9 + 2 * 3 + 0], (-60, 270, -200));
}
