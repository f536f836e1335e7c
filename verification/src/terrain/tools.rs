use std::collections::HashMap;
use vstd::prelude::*;

use crate::terrain::terrain_lod_map::{get_lod, LodMap, TERRAIN_LOD_MAP_SIZE};

verus! {

/// A chunk of terrain that stands in the world: the entity that shows it,
/// by its bits, and the level of detail it was built with.
pub struct IInnerMap {
    pub entity: u64,
    pub lod: i16,
}

/// The chunks that stand in the world, keyed by their cell (see `cell_key`).
pub struct InnerMapper {
    pub hash_map: HashMap<i64, IInnerMap>,
}

/// How many cells the update looks at on each side of the player's cell.
pub const TERRAIN_WINDOW_RADIUS: i32 = 4;

/// Number of cells in the window that the update looks at.
pub const TERRAIN_WINDOW_CELLS: usize = 81;

/// The key under which the chunk of cell (`z`, `x`) is kept.
pub open spec fn cell_key(z: i16, x: i16) -> i64 {
    (z * 65536 + x) as i64
}

/// The cell that the update reaches at offset `l` from the player's cell `g`;
/// the key keeps the low 16 bits of each coordinate.
pub open spec fn window_cell(g: i32, l: int) -> i32 {
    (g + l) as i32
}

/// Level of detail that the update wants at offset (`l_z`, `l_x`) from the player's cell.
pub open spec fn window_lod(l_z: int, l_x: int) -> i16 {
    crate::terrain::terrain_lod_map::lod_at(TERRAIN_LOD_MAP_SIZE - 7 + l_z, TERRAIN_LOD_MAP_SIZE - 7 + l_x)
}

/// What the update does to one cell.
pub struct CellPlan {
    /// Row of the cell in the world grid.
    pub abs_z: i32,
    /// Column of the cell in the world grid.
    pub abs_x: i32,
    /// Key of the cell in the map of chunks.
    pub key: i64,
    /// Level of detail wanted at the cell.
    pub lod: i16,
    /// The chunk entity to take out of the world, if any.
    pub despawn: Option<u64>,
    /// Whether a chunk of level `lod` is to be built at the cell.
    pub spawn: bool,
    /// Whether a water plane is to be built with the new chunk.
    pub with_water: bool,
}

/// Whether a plan leaves its cell as it is.
pub open spec fn is_idle(p: CellPlan) -> bool {
    p.despawn is None && !p.spawn
}

/// What the update does at offset (`l_z`, `l_x`) from the player's cell (`g_z`, `g_x`),
/// given the chunks that stand.
pub open spec fn spec_cell_plan(
    m: Map<i64, IInnerMap>,
    g_z: i32,
    g_x: i32,
    l_z: int,
    l_x: int,
) -> CellPlan {
    let abs_z = window_cell(g_z, l_z);
    let abs_x = window_cell(g_x, l_x);
    let key = cell_key(abs_z as i16, abs_x as i16);
    let lod = window_lod(l_z, l_x);
    let water = g_x == 0 && g_z == 0;
    let base = CellPlan { abs_z, abs_x, key, lod, despawn: None, spawn: false, with_water: false };
    if m.contains_key(key) {
        if lod == 0 {
            CellPlan { despawn: Some(m[key].entity), ..base }
        } else if m[key].lod != lod {
            CellPlan { despawn: Some(m[key].entity), spawn: true, with_water: water, ..base }
        } else {
            base
        }
    } else if lod > 0 {
        CellPlan { spawn: true, with_water: water, ..base }
    } else {
        base
    }
}

/// The plans of the whole window, row by row, each row from low to high column.
pub open spec fn spec_plans(m: Map<i64, IInnerMap>, g_z: i32, g_x: i32) -> Seq<CellPlan> {
    Seq::new(
        TERRAIN_WINDOW_CELLS as nat,
        |i: int| spec_cell_plan(m, g_z, g_x, i / 9 - 4, i % 9 - 4),
    )
}

/// Whether the window around (`g_z`, `g_x`) stays inside the range of `i32`.
pub open spec fn window_fits(g_z: i32, g_x: i32) -> bool {
    i32::MIN + 4 <= g_z <= i32::MAX - 4 && i32::MIN + 4 <= g_x <= i32::MAX - 4
}


/// The map of chunks after one plan is carried out; `spawned` is the entity
/// that was built for the plan, if one was.
pub open spec fn apply_plan(m: Map<i64, IInnerMap>, p: CellPlan, spawned: Option<u64>) -> Map<i64, IInnerMap> {
    let m1 = if p.despawn is Some { m.remove(p.key) } else { m };
    if p.spawn && spawned is Some {
        m1.insert(p.key, IInnerMap { entity: spawned->0, lod: p.lod })
    } else {
        m1
    }
}

/// The map of chunks after the first `n` plans are carried out in order.
pub open spec fn apply_prefix(
    m: Map<i64, IInnerMap>,
    plans: Seq<CellPlan>,
    spawned: Seq<Option<u64>>,
    n: nat,
) -> Map<i64, IInnerMap>
    decreases n,
{
    if n == 0 {
        m
    } else {
        apply_plan(apply_prefix(m, plans, spawned, (n - 1) as nat), plans[n - 1], spawned[n - 1])
    }
}


/// Whether `m1` and `m2` agree on key `k`: both lack it, or both hold the same chunk there.
pub open spec fn agree_at(m1: Map<i64, IInnerMap>, m2: Map<i64, IInnerMap>, k: i64) -> bool {
    &&& m1.contains_key(k) == m2.contains_key(k)
    &&& m1.contains_key(k) ==> m1[k] == m2[k]
}

/// A water plane is asked for only together with a chunk that is built, and
/// only when the player stands on the origin cell (0, 0).
pub proof fn lemma_water_only_at_origin(m: Map<i64, IInnerMap>, g_z: i32, g_x: i32, i: int)
    requires
        0 <= i < TERRAIN_WINDOW_CELLS,
    ensures
        spec_plans(m, g_z, g_x)[i].with_water == (spec_plans(m, g_z, g_x)[i].spawn && g_x == 0 && g_z == 0),
{
}

/// A plan builds a chunk exactly when the cell wants a positive level and does
/// not already hold a chunk of that level, and takes a chunk out exactly when
/// the cell holds one and wants none, or holds one whose level differs from the
/// wanted one; what it takes
/// out is the entity stored at the cell. The plan at index `i` is for the cell
/// at row offset `i / 9 - 4` and column offset `i % 9 - 4` from the player's
/// cell, kept under the key made of the low 16 bits of the row and the column;
/// the level wanted there is 2 in the 3 by 3 block of offsets -2 to 0, and 0
/// elsewhere.
pub proof fn lemma_plan_decisions(m: Map<i64, IInnerMap>, g_z: i32, g_x: i32, i: int)
    requires
        window_fits(g_z, g_x),
        0 <= i < TERRAIN_WINDOW_CELLS,
    ensures
        ({
            let p = spec_plans(m, g_z, g_x)[i];
            &&& p.spawn == (p.lod > 0 && !(m.contains_key(p.key) && m[p.key].lod == p.lod))
            &&& (p.despawn is Some) == (m.contains_key(p.key) && (p.lod == 0 || m[p.key].lod != p.lod))
            &&& p.despawn is Some ==> p.despawn == Some(m[p.key].entity)
            &&& p.abs_z == g_z + (i / 9 - 4)
            &&& p.abs_x == g_x + (i % 9 - 4)
            &&& p.key == (p.abs_z as i16) * 65536 + (p.abs_x as i16)
            &&& p.lod == (if -2 <= i / 9 - 4 <= 0 && -2 <= i % 9 - 4 <= 0 { 2i16 } else { 0i16 })
        }),
{
    lemma_lod_nonnegative(TERRAIN_LOD_MAP_SIZE - 7 + (i / 9 - 4), TERRAIN_LOD_MAP_SIZE - 7 + (i % 9 - 4));
}

proof fn lemma_cell_key_injective(z1: i16, x1: i16, z2: i16, x2: i16)
    requires
        cell_key(z1, x1) == cell_key(z2, x2),
    ensures
        z1 == z2 && x1 == x2,
{
    assert(z1 * 65536 + x1 == z2 * 65536 + x2);
    if z1 != z2 {
        assert((z1 - z2) * 65536 == x2 - x1) by (nonlinear_arith)
            requires z1 * 65536 + x1 == z2 * 65536 + x2;
        assert(false) by (nonlinear_arith)
            requires
                (z1 - z2) * 65536 == x2 - x1,
                z1 != z2,
                -65536 < x2 - x1 < 65536;
    }
}

proof fn lemma_low_bits_distinct(a: i32, b: i32)
    requires
        a != b,
        a - b <= 8,
        b - a <= 8,
    ensures
        a as i16 != b as i16,
{
    assert(a as i16 != b as i16) by (bit_vector)
        requires
            a != b,
            a - b <= 8,
            b - a <= 8;
}

/// Distinct cells of the window are kept under distinct keys.
proof fn lemma_window_keys_distinct(m: Map<i64, IInnerMap>, g_z: i32, g_x: i32, i: int, j: int)
    requires
        window_fits(g_z, g_x),
        0 <= i < TERRAIN_WINDOW_CELLS,
        0 <= j < TERRAIN_WINDOW_CELLS,
        i != j,
    ensures
        spec_plans(m, g_z, g_x)[i].key != spec_plans(m, g_z, g_x)[j].key,
{
    let pi = spec_plans(m, g_z, g_x)[i];
    let pj = spec_plans(m, g_z, g_x)[j];
    let (zi, xi, zj, xj) = (i / 9 - 4, i % 9 - 4, j / 9 - 4, j % 9 - 4);
    assert(i == (zi + 4) * 9 + (xi + 4) && j == (zj + 4) * 9 + (xj + 4));
    if pi.key == pj.key {
        lemma_cell_key_injective(pi.abs_z as i16, pi.abs_x as i16, pj.abs_z as i16, pj.abs_x as i16);
        if zi != zj {
            lemma_low_bits_distinct(pi.abs_z, pj.abs_z);
        } else {
            assert(xi != xj);
            lemma_low_bits_distinct(pi.abs_x, pj.abs_x);
        }
    }
}

/// What a plan does at its own key depends only on what the map held at that key.
proof fn lemma_apply_plan_local(m1: Map<i64, IInnerMap>, m2: Map<i64, IInnerMap>, p: CellPlan, s: Option<u64>, k: i64)
    requires
        agree_at(m1, m2, k),
    ensures
        agree_at(apply_plan(m1, p, s), apply_plan(m2, p, s), k),
        k != p.key ==> agree_at(apply_plan(m1, p, s), m1, k),
{
}

/// When the plans' keys are pairwise distinct, carrying out the first `n` plans
/// acts on each of their keys as that plan alone would, and leaves every other key alone.
proof fn lemma_apply_prefix_distinct(
    m: Map<i64, IInnerMap>,
    plans: Seq<CellPlan>,
    spawned: Seq<Option<u64>>,
    n: nat,
)
    requires
        n <= plans.len(),
        n <= spawned.len(),
        forall|a: int, b: int| 0 <= a < b < n ==> plans[a].key != plans[b].key,
    ensures
        forall|a: int| 0 <= a < n ==> #[trigger] agree_at(
            apply_prefix(m, plans, spawned, n),
            apply_plan(m, plans[a], spawned[a]),
            plans[a].key,
        ),
        forall|k: i64| (forall|a: int| 0 <= a < n ==> plans[a].key != k) ==> #[trigger] agree_at(
            apply_prefix(m, plans, spawned, n),
            m,
            k,
        ),
    decreases n,
{
    if n > 0 {
        let n1 = (n - 1) as nat;
        lemma_apply_prefix_distinct(m, plans, spawned, n1);
        let prev = apply_prefix(m, plans, spawned, n1);
        let cur = apply_prefix(m, plans, spawned, n);
        let p = plans[n1 as int];
        let s = spawned[n1 as int];
        assert(cur == apply_plan(prev, p, s));
        assert forall|a: int| 0 <= a < n implies #[trigger] agree_at(cur, apply_plan(m, plans[a], spawned[a]), plans[a].key) by {
            if a == n1 {
                assert(agree_at(prev, m, p.key));
                lemma_apply_plan_local(prev, m, p, s, p.key);
            } else {
                assert(agree_at(prev, apply_plan(m, plans[a], spawned[a]), plans[a].key));
                lemma_apply_plan_local(prev, prev, p, s, plans[a].key);
            }
        }
        assert forall|k: i64| (forall|a: int| 0 <= a < n ==> plans[a].key != k) implies #[trigger] agree_at(cur, m, k) by {
            assert(plans[n1 as int].key != k);
            assert(agree_at(prev, m, k));
            lemma_apply_plan_local(prev, prev, p, s, k);
        }
    }
}

proof fn lemma_lod_nonnegative(z: int, x: int)
    ensures
        crate::terrain::terrain_lod_map::lod_at(z, x) >= 0,
{
}

/// Carrying out the plans of a window, with an entity for each chunk that a
/// plan builds, leaves every cell of the window holding a chunk of exactly the
/// level of detail that the window wants there, and none where it wants none;
/// a cell that got a new chunk records its new entity, and a cell whose chunk
/// already had the wanted level keeps it as it was, untouched by its plan;
/// only chunks that stood in the window are taken out; keys outside the window
/// keep what they held; and planning the same window again finds nothing left
/// to do, so carrying out that second plan leaves the map as it is.
pub proof fn lemma_terrain_update_settles(
    m: Map<i64, IInnerMap>,
    g_z: i32,
    g_x: i32,
    spawned: Seq<Option<u64>>,
)
    requires
        window_fits(g_z, g_x),
        spawned.len() == TERRAIN_WINDOW_CELLS,
        forall|i: int| 0 <= i < TERRAIN_WINDOW_CELLS ==> (#[trigger] spawned[i] is Some) == spec_plans(m, g_z, g_x)[i].spawn,
    ensures
        ({
            let plans = spec_plans(m, g_z, g_x);
            let m2 = apply_prefix(m, plans, spawned, TERRAIN_WINDOW_CELLS as nat);
            &&& forall|i: int| 0 <= i < TERRAIN_WINDOW_CELLS ==> {
                let p = #[trigger] plans[i];
                &&& m2.contains_key(p.key) == (p.lod > 0)
                &&& m2.contains_key(p.key) ==> m2[p.key].lod == p.lod
                &&& p.spawn ==> m2[p.key].entity == spawned[i]->0
                &&& (m2.contains_key(p.key) && !p.spawn) ==> m2[p.key] == m[p.key]
                &&& (m.contains_key(p.key) && m[p.key].lod == p.lod && p.lod > 0) ==> is_idle(p)
                &&& p.despawn is Some ==> m.contains_key(p.key) && p.despawn == Some(m[p.key].entity)
            }
            &&& forall|k: i64| (forall|i: int| 0 <= i < TERRAIN_WINDOW_CELLS ==> plans[i].key != k) ==> #[trigger] agree_at(m2, m, k)
            &&& forall|i: int| 0 <= i < TERRAIN_WINDOW_CELLS ==> is_idle(#[trigger] spec_plans(m2, g_z, g_x)[i])
            &&& forall|spawned2: Seq<Option<u64>>| spawned2.len() == TERRAIN_WINDOW_CELLS ==>
                #[trigger] apply_prefix(m2, spec_plans(m2, g_z, g_x), spawned2, TERRAIN_WINDOW_CELLS as nat) == m2
        }),
{
    let plans = spec_plans(m, g_z, g_x);
    let m2 = apply_prefix(m, plans, spawned, TERRAIN_WINDOW_CELLS as nat);
    assert forall|a: int, b: int| 0 <= a < b < TERRAIN_WINDOW_CELLS implies plans[a].key != plans[b].key by {
        lemma_window_keys_distinct(m, g_z, g_x, a, b);
    }
    lemma_apply_prefix_distinct(m, plans, spawned, TERRAIN_WINDOW_CELLS as nat);
    assert forall|i: int| 0 <= i < TERRAIN_WINDOW_CELLS implies {
        let p = #[trigger] plans[i];
        &&& m2.contains_key(p.key) == (p.lod > 0)
        &&& m2.contains_key(p.key) ==> m2[p.key].lod == p.lod
        &&& p.spawn ==> m2[p.key].entity == spawned[i]->0
        &&& (m2.contains_key(p.key) && !p.spawn) ==> m2[p.key] == m[p.key]
        &&& (m.contains_key(p.key) && m[p.key].lod == p.lod && p.lod > 0) ==> is_idle(p)
        &&& p.despawn is Some ==> m.contains_key(p.key) && p.despawn == Some(m[p.key].entity)
    } by {
        let p = plans[i];
        assert(agree_at(m2, apply_plan(m, p, spawned[i]), p.key));
        lemma_lod_nonnegative(TERRAIN_LOD_MAP_SIZE - 7 + (i / 9 - 4), TERRAIN_LOD_MAP_SIZE - 7 + (i % 9 - 4));
    }
    assert forall|i: int| 0 <= i < TERRAIN_WINDOW_CELLS implies is_idle(#[trigger] spec_plans(m2, g_z, g_x)[i]) by {
        let p = plans[i];
        let q = spec_plans(m2, g_z, g_x)[i];
        assert(q.key == p.key && q.lod == p.lod);
        assert(agree_at(m2, apply_plan(m, p, spawned[i]), p.key));
        lemma_lod_nonnegative(TERRAIN_LOD_MAP_SIZE - 7 + (i / 9 - 4), TERRAIN_LOD_MAP_SIZE - 7 + (i % 9 - 4));
    }
    assert forall|spawned2: Seq<Option<u64>>| spawned2.len() == TERRAIN_WINDOW_CELLS implies
        #[trigger] apply_prefix(m2, spec_plans(m2, g_z, g_x), spawned2, TERRAIN_WINDOW_CELLS as nat) == m2 by {
        lemma_apply_idle_plans(m2, spec_plans(m2, g_z, g_x), spawned2, TERRAIN_WINDOW_CELLS as nat);
    }
}

/// Plans that leave their cells as they are leave the whole map as it is.
proof fn lemma_apply_idle_plans(
    m: Map<i64, IInnerMap>,
    plans: Seq<CellPlan>,
    spawned: Seq<Option<u64>>,
    n: nat,
)
    requires
        n <= plans.len(),
        forall|i: int| 0 <= i < n ==> is_idle(#[trigger] plans[i]),
    ensures
        apply_prefix(m, plans, spawned, n) == m,
    decreases n,
{
    if n > 0 {
        lemma_apply_idle_plans(m, plans, spawned, (n - 1) as nat);
        assert(is_idle(plans[n - 1]));
    }
}

/// The key under which the chunk of cell (`z`, `x`) is kept.
pub fn cell_key_of(z: i16, x: i16) -> (k: i64)
    ensures
        k == cell_key(z, x),
{
    z as i64 * 65536 + x as i64
}

/// Subdivisions of a chunk's mesh at level of detail `dyn_scale`: the
/// subdivisions of a full-detail chunk divided by the level, less a fixed
/// reduction (`dyn_scale` is read as an unsigned 32-bit number, as a cast does).
pub fn calculate_final_subdivisions(chunk_subdivisions: u32, sub_factor: u32, dyn_scale: i16) -> (r: u32)
    requires
        dyn_scale != 0,
        chunk_subdivisions / (dyn_scale as u32) >= sub_factor,
    ensures
        r == chunk_subdivisions / (dyn_scale as u32) - sub_factor,
{
    let divisor: u32 = #[verifier::truncate] (dyn_scale as u32);
    assert(dyn_scale != 0 ==> (dyn_scale as u32) != 0) by (bit_vector);
    chunk_subdivisions / divisor - sub_factor
}

impl InnerMapper {
    pub fn new() -> (r: Self)
        ensures
            r.hash_map@ == Map::<i64, IInnerMap>::empty(),
    {
        InnerMapper { hash_map: HashMap::new() }
    }

    /// Decides, for each cell of the window around the player's cell (`g_x`, `g_z`),
    /// which chunk leaves the world and which is built.
    pub fn plan_update(&self, g_x: i32, g_z: i32) -> (plans: Vec<CellPlan>)
        requires
            window_fits(g_z, g_x),
        ensures
            plans@ == spec_plans(self.hash_map@, g_z, g_x),
    {
        let lod: LodMap = get_lod();
        let mut plans: Vec<CellPlan> = Vec::new();
        let mut l_z: i32 = -TERRAIN_WINDOW_RADIUS;
        while l_z <= TERRAIN_WINDOW_RADIUS
            invariant
                -4 <= l_z <= 5,
                window_fits(g_z, g_x),
                crate::terrain::terrain_lod_map::is_ring_lod_map(lod),
                plans.len() == (l_z + 4) * 9,
                forall|j: int| 0 <= j < plans.len() ==> plans@[j] == #[trigger] spec_plans(self.hash_map@, g_z, g_x)[j],
            decreases 5 - l_z,
        {
            let mut l_x: i32 = -TERRAIN_WINDOW_RADIUS;
            while l_x <= TERRAIN_WINDOW_RADIUS
                invariant
                    -4 <= l_z <= 4,
                    -4 <= l_x <= 5,
                    window_fits(g_z, g_x),
                    crate::terrain::terrain_lod_map::is_ring_lod_map(lod),
                    plans.len() == (l_z + 4) * 9 + (l_x + 4),
                    forall|j: int| 0 <= j < plans.len() ==> plans@[j] == #[trigger] spec_plans(self.hash_map@, g_z, g_x)[j],
                decreases 5 - l_x,
            {
                let lod_on_z: usize = (TERRAIN_LOD_MAP_SIZE as i32 - 7 + l_z) as usize;
                let lod_on_x: usize = (TERRAIN_LOD_MAP_SIZE as i32 - 7 + l_x) as usize;
                let abs_x: i32 = g_x + l_x;
                let abs_z: i32 = g_z + l_z;
                let dyn_scale: i16 = lod[lod_on_z][lod_on_x];
                let key: i64 = cell_key_of(abs_z as i16, abs_x as i16);
                let water: bool = g_x == 0 && g_z == 0;
                let plan = match self.hash_map.get(&key) {
                    Some(res) => {
                        if dyn_scale == 0 {
                            CellPlan { abs_z, abs_x, key, lod: dyn_scale, despawn: Some(res.entity), spawn: false, with_water: false }
                        } else if res.lod != dyn_scale {
                            CellPlan { abs_z, abs_x, key, lod: dyn_scale, despawn: Some(res.entity), spawn: true, with_water: water }
                        } else {
                            CellPlan { abs_z, abs_x, key, lod: dyn_scale, despawn: None, spawn: false, with_water: false }
                        }
                    },
                    None => {
                        if dyn_scale > 0 {
                            CellPlan { abs_z, abs_x, key, lod: dyn_scale, despawn: None, spawn: true, with_water: water }
                        } else {
                            CellPlan { abs_z, abs_x, key, lod: dyn_scale, despawn: None, spawn: false, with_water: false }
                        }
                    },
                };
                proof {
                    let j = (l_z + 4) * 9 + (l_x + 4);
                    assert(j / 9 - 4 == l_z && j % 9 - 4 == l_x);
                    assert(plan == spec_plans(self.hash_map@, g_z, g_x)[j]);
                }
                plans.push(plan);
                l_x = l_x + 1;
            }
            l_z = l_z + 1;
        }
        assert(plans@ =~= spec_plans(self.hash_map@, g_z, g_x));
        plans
    }

    /// Carries out the plans in order: a chunk that leaves is taken out of the
    /// map, and a chunk that was built (its entity in `spawned`, at the same
    /// index as its plan) is recorded with the plan's level of detail.
    pub fn apply_plans(&mut self, plans: &Vec<CellPlan>, spawned: &Vec<Option<u64>>)
        requires
            plans.len() == spawned.len(),
        ensures
            final(self).hash_map@ == apply_prefix(old(self).hash_map@, plans@, spawned@, plans.len() as nat),
    {
        let mut i: usize = 0;
        while i < plans.len()
            invariant
                0 <= i <= plans.len(),
                plans.len() == spawned.len(),
                self.hash_map@ == apply_prefix(old(self).hash_map@, plans@, spawned@, i as nat),
            decreases plans.len() - i,
        {
            let p = &plans[i];
            if p.despawn.is_some() {
                self.hash_map.remove(&p.key);
            }
            if p.spawn {
                match spawned[i] {
                    Some(e) => {
                        self.hash_map.insert(p.key, IInnerMap { entity: e, lod: p.lod });
                    },
                    None => {},
                }
            }
            i = i + 1;
        }
    }
}

} // verus!
