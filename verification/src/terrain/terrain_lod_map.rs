use vstd::prelude::*;

verus! {

/// Level of detail of ring 0 of chunks around the player.
pub const R0: i16 = 2;
/// Level of detail of ring 1 of chunks around the player.
pub const R1: i16 = 2;
/// Level of detail of ring 2 of chunks around the player.
pub const R2: i16 = 0;
/// Level of detail of ring 3 of chunks around the player.
pub const R3: i16 = 0;
/// Level of detail of ring 4 of chunks around the player.
pub const R4: i16 = 0;
/// Level of detail of ring 5 of chunks around the player.
pub const R5: i16 = 0;
/// Level of detail of ring 6 of chunks around the player.
pub const R6: i16 = 0;
/// Level of detail of ring 7 of chunks around the player.
pub const R7: i16 = 0;

/// Level of detail of the chunk the player stands on.
pub const BASE_LOD_SCALE: i16 = R0;

/// Side of the square map of levels of detail.
pub const TERRAIN_LOD_MAP_SIZE: usize = 13 + 2;

/// Row and column of the map's centre: the chunk the player stands on.
pub const TERRAIN_LOD_MAP_CENTER: usize = 7;

/// A square map of levels of detail, indexed by row (z) then column (x).
pub type LodMap = [[i16; TERRAIN_LOD_MAP_SIZE]; TERRAIN_LOD_MAP_SIZE];

pub open spec fn abs_int(v: int) -> int {
    if v < 0 { -v } else { v }
}

/// Distance of a cell from the centre, counted in rings of chunks.
pub open spec fn ring_of(z: int, x: int) -> int {
    let dz = abs_int(z - TERRAIN_LOD_MAP_CENTER);
    let dx = abs_int(x - TERRAIN_LOD_MAP_CENTER);
    if dz < dx { dx } else { dz }
}

/// Level of detail of the chunks on a ring.
pub open spec fn ring_lod(ring: int) -> i16 {
    if ring == 0 { R0 }
    else if ring == 1 { R1 }
    else if ring == 2 { R2 }
    else if ring == 3 { R3 }
    else if ring == 4 { R4 }
    else if ring == 5 { R5 }
    else if ring == 6 { R6 }
    else { R7 }
}

/// Level of detail of the cell at row `z` and column `x` of the map.
pub open spec fn lod_at(z: int, x: int) -> i16 {
    ring_lod(ring_of(z, x))
}

/// Whether a map holds, at every cell, the level of detail of its ring.
pub open spec fn is_ring_lod_map(m: LodMap) -> bool {
    forall|z: int, x: int|
        0 <= z < TERRAIN_LOD_MAP_SIZE && 0 <= x < TERRAIN_LOD_MAP_SIZE
            ==> #[trigger] m@[z]@[x] == lod_at(z, x)
}

/// The map is made of square rings around its centre: it reads the same when
/// mirrored along either axis or along the diagonal; the centre holds the
/// base level of detail; no level is negative; and only the 3 by 3 block
/// around the centre holds a positive level, which is 2.
pub proof fn lemma_lod_map_rings(z: int, x: int)
    requires
        0 <= z < TERRAIN_LOD_MAP_SIZE,
        0 <= x < TERRAIN_LOD_MAP_SIZE,
    ensures
        lod_at(z, x) == lod_at(x, z),
        lod_at(z, x) == lod_at(TERRAIN_LOD_MAP_SIZE - 1 - z, x),
        lod_at(z, x) == lod_at(z, TERRAIN_LOD_MAP_SIZE - 1 - x),
        lod_at(TERRAIN_LOD_MAP_CENTER as int, TERRAIN_LOD_MAP_CENTER as int) == BASE_LOD_SCALE,
        lod_at(z, x) >= 0,
        lod_at(z, x) > 0 <==> (6 <= z <= 8 && 6 <= x <= 8),
        lod_at(z, x) == (if 6 <= z <= 8 && 6 <= x <= 8 { 2i16 } else { 0i16 }),
{
}

pub fn get_lod() -> (m: LodMap)
    ensures
        is_ring_lod_map(m),
{
    let m: LodMap = [
        [R7, R7, R7, R7, R7, R7, R7, R7, R7, R7, R7, R7, R7, R7, R7],
        [R7, R6, R6, R6, R6, R6, R6, R6, R6, R6, R6, R6, R6, R6, R7],
        [R7, R6, R5, R5, R5, R5, R5, R5, R5, R5, R5, R5, R5, R6, R7],
        [R7, R6, R5, R4, R4, R4, R4, R4, R4, R4, R4, R4, R5, R6, R7],
        [R7, R6, R5, R4, R3, R3, R3, R3, R3, R3, R3, R4, R5, R6, R7],
        [R7, R6, R5, R4, R3, R2, R2, R2, R2, R2, R3, R4, R5, R6, R7],
        [R7, R6, R5, R4, R3, R2, R1, R1, R1, R2, R3, R4, R5, R6, R7],
        [R7, R6, R5, R4, R3, R2, R1, R0, R1, R2, R3, R4, R5, R6, R7],
        [R7, R6, R5, R4, R3, R2, R1, R1, R1, R2, R3, R4, R5, R6, R7],
        [R7, R6, R5, R4, R3, R2, R2, R2, R2, R2, R3, R4, R5, R6, R7],
        [R7, R6, R5, R4, R3, R3, R3, R3, R3, R3, R3, R4, R5, R6, R7],
        [R7, R6, R5, R4, R4, R4, R4, R4, R4, R4, R4, R4, R5, R6, R7],
        [R7, R6, R5, R5, R5, R5, R5, R5, R5, R5, R5, R5, R5, R6, R7],
        [R7, R6, R6, R6, R6, R6, R6, R6, R6, R6, R6, R6, R6, R6, R7],
        [R7, R7, R7, R7, R7, R7, R7, R7, R7, R7, R7, R7, R7, R7, R7],
    ];
    assert(is_ring_lod_map(m)) by {
        assert forall|z: int, x: int|
            0 <= z < TERRAIN_LOD_MAP_SIZE && 0 <= x < TERRAIN_LOD_MAP_SIZE
                implies #[trigger] m@[z]@[x] == lod_at(z, x) by {
            assert(0 <= z < 15 && 0 <= x < 15);
        }
    }
    m
}

} // verus!
