use vstd::prelude::*;

verus! {

/// Number of frame-rate samples gathered between two reports.
pub const MEASURE_AVG_FPS_EACH: u32 = 15;

/// What the frame counter does with the current frame.
#[derive(Clone, Copy, Debug, PartialEq, Eq, Structural)]
pub enum FpsSampleStep {
    /// Show the frame rate and start gathering afresh.
    Report,
    /// Keep the frame rate at this index of the samples.
    Store { index: usize },
}

/// What the frame counter does at sample index `avg_index`, and the index it
/// moves to: a report once `MEASURE_AVG_FPS_EACH` samples are gathered, which
/// starts again from 0; otherwise a sample kept at the index, which moves on by one.
pub fn fps_sample_step(avg_index: u32) -> (r: (FpsSampleStep, u32))
    ensures
        avg_index >= MEASURE_AVG_FPS_EACH ==> r.0 == FpsSampleStep::Report && r.1 == 0,
        avg_index < MEASURE_AVG_FPS_EACH ==> r.0 == (FpsSampleStep::Store { index: avg_index as usize })
            && r.1 == avg_index + 1,
{
    if avg_index >= MEASURE_AVG_FPS_EACH {
        (FpsSampleStep::Report, 0)
    } else {
        (FpsSampleStep::Store { index: avg_index as usize }, avg_index + 1)
    }
}

/// The sample index never leaves `0..=MEASURE_AVG_FPS_EACH` once it starts
/// there, and every sample is kept inside the array of samples.
pub proof fn lemma_fps_index_stays_in_range(avg_index: u32)
    requires
        avg_index <= MEASURE_AVG_FPS_EACH,
    ensures
        ({
            let next: u32 = if avg_index >= MEASURE_AVG_FPS_EACH { 0 } else { (avg_index + 1) as u32 };
            next <= MEASURE_AVG_FPS_EACH
        }),
        avg_index < MEASURE_AVG_FPS_EACH ==> (avg_index as usize) < MEASURE_AVG_FPS_EACH as usize,
{
}

/// How long the frame limiter sleeps, in nanoseconds, when a frame took
/// `elapsed` of the `frame_duration` it is allowed: the time left, if any.
pub fn throttle_sleep(frame_duration: u64, elapsed: u64) -> (r: Option<u64>)
    ensures
        elapsed < frame_duration ==> r == Some((frame_duration - elapsed) as u64),
        elapsed >= frame_duration ==> r is None,
{
    if elapsed < frame_duration {
        Some(frame_duration - elapsed)
    } else {
        None
    }
}

/// The wireframe state after a press of the wireframe key: flipped when the
/// engine debug views are allowed, unchanged otherwise.
pub fn toggle_wireframe(allowed_debug_engine: bool, is_on: bool) -> (r: bool)
    ensures
        r == (if allowed_debug_engine { !is_on } else { is_on }),
{
    if !allowed_debug_engine {
        return is_on;
    }
    !is_on
}

/// Cubes per side of the block of floating test objects.
pub const FLOATING_ITEMS: i32 = 3;

/// Position (x, y, z) of the floating test object at layer `iy`, column `ix`, row `iz`.
pub open spec fn floating_object_position(iy: int, ix: int, iz: int) -> (i32, i32, i32) {
    let size: int = 10;
    let spread_xyz: int = 10;
    (
        (ix * size + ix * spread_xyz - 100) as i32,
        (iy * size + iy * spread_xyz + 250) as i32,
        (iz * size + iz * spread_xyz - 200) as i32,
    )
}

/// The test objects stand 20 apart along each axis, from (-100, 250, -200).
pub proof fn lemma_floating_objects_grid(iy: int, ix: int, iz: int)
    requires
        0 <= iy < 3 && 0 <= ix < 3 && 0 <= iz < 3,
    ensures
        floating_object_position(iy, ix, iz) == ((-100 + 20 * ix) as i32, (250 + 20 * iy) as i32, (-200 + 20 * iz) as i32),
{
}

/// The positions of the block of floating test objects, layer by layer, each
/// layer column by column, each column row by row.
pub fn floating_object_positions() -> (r: Vec<(i32, i32, i32)>)
    ensures
        r.len() == 27,
        forall|iy: int, ix: int, iz: int|
            0 <= iy < 3 && 0 <= ix < 3 && 0 <= iz < 3
                ==> #[trigger] r@[iy * 9 + ix * 3 + iz] == floating_object_position(iy, ix, iz),
{
    let items: i32 = FLOATING_ITEMS;
    let size: i32 = 10;
    let offset_x: i32 = 100;
    let offset_y: i32 = 250;
    let offset_z: i32 = 200;
    let spread_xyz: i32 = 10;
    let mut r: Vec<(i32, i32, i32)> = Vec::new();
    let mut iy: i32 = 0;
    while iy < items
        invariant
            0 <= iy <= 3,
            items == 3 && size == 10 && offset_x == 100 && offset_y == 250 && offset_z == 200 && spread_xyz == 10,
            r.len() == iy * 9,
            forall|j: int| 0 <= j < r.len() ==> #[trigger] r@[j] == floating_object_position(j / 9, (j % 9) / 3, j % 3),
        decreases 3 - iy,
    {
        let mut ix: i32 = 0;
        while ix < items
            invariant
                0 <= iy < 3,
                0 <= ix <= 3,
                items == 3 && size == 10 && offset_x == 100 && offset_y == 250 && offset_z == 200 && spread_xyz == 10,
                r.len() == iy * 9 + ix * 3,
                forall|j: int| 0 <= j < r.len() ==> #[trigger] r@[j] == floating_object_position(j / 9, (j % 9) / 3, j % 3),
            decreases 3 - ix,
        {
            let mut iz: i32 = 0;
            while iz < items
                invariant
                    0 <= iy < 3,
                    0 <= ix < 3,
                    0 <= iz <= 3,
                    items == 3 && size == 10 && offset_x == 100 && offset_y == 250 && offset_z == 200 && spread_xyz == 10,
                    r.len() == iy * 9 + ix * 3 + iz,
                    forall|j: int| 0 <= j < r.len() ==> #[trigger] r@[j] == floating_object_position(j / 9, (j % 9) / 3, j % 3),
                decreases 3 - iz,
            {
                let y: i32 = iy * size + iy * spread_xyz + offset_y;
                let x: i32 = ix * size + ix * spread_xyz - offset_x;
                let z: i32 = iz * size + iz * spread_xyz - offset_z;
                proof {
                    let j = iy * 9 + ix * 3 + iz;
                    assert(j / 9 == iy && (j % 9) / 3 == ix && j % 3 == iz);
                }
                r.push((x, y, z));
                iz = iz + 1;
            }
            ix = ix + 1;
        }
        iy = iy + 1;
    }
    assert forall|iy: int, ix: int, iz: int|
        0 <= iy < 3 && 0 <= ix < 3 && 0 <= iz < 3
            implies #[trigger] r@[iy * 9 + ix * 3 + iz] == floating_object_position(iy, ix, iz) by {
        let j = iy * 9 + ix * 3 + iz;
        assert(j / 9 == iy && (j % 9) / 3 == ix && j % 3 == iz);
        assert(r@[j] == floating_object_position(j / 9, (j % 9) / 3, j % 3));
    }
    r
}

} // verus!
