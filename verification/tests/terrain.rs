use m_game::terrain::terrain_lod_map::{get_lod, BASE_LOD_SCALE, TERRAIN_LOD_MAP_SIZE};
use m_game::terrain::tools::{calculate_final_subdivisions, cell_key_of, IInnerMap, InnerMapper};

#[test]
fn lod_map_rings() {
    let m = get_lod();
    assert_eq!(TERRAIN_LOD_MAP_SIZE, 15);
    assert_eq!(m[7][7], BASE_LOD_SCALE);
    assert_eq!(m[7][7], 2);
    for z in 0..15 {
        for x in 0..15 {
            let inner = (6..=8).contains(&z) && (6..=8).contains(&x);
            assert_eq!(m[z][x], if inner { 2 } else { 0 });
            assert_eq!(m[z][x], m[x][z]);
            assert_eq!(m[z][x], m[14 - z][14 - x]);
        }
    }
}

#[test]
fn final_subdivisions() {
    assert_eq!(calculate_final_subdivisions(64, 2, 2), 30);
    assert_eq!(calculate_final_subdivisions(64, 0, 1), 64);
    assert_eq!(calculate_final_subdivisions(100, 5, 3), 28);
    // A negative level is read as a huge unsigned divisor.
    assert_eq!(calculate_final_subdivisions(64, 0, -1), 0);
}

#[test]
fn cell_keys() {
    assert_eq!(cell_key_of(0, 0), 0);
    assert_eq!(cell_key_of(1, 0), 65536);
    assert_eq!(cell_key_of(0, -1), -1);
    assert_eq!(cell_key_of(-1, 2), -65534);
    assert_ne!(cell_key_of(1, -1), cell_key_of(0, 65535u16 as i16));
}

#[test]
fn plan_on_empty_map_spawns_the_inner_block() {
    let mapper = InnerMapper::new();
    let plans = mapper.plan_update(0, 0);
    assert_eq!(plans.len(), 81);
    let mut spawns = 0;
    for (i, p) in plans.iter().enumerate() {
        let l_z = (i / 9) as i32 - 4;
        let l_x = (i % 9) as i32 - 4;
        assert_eq!(p.abs_z, l_z);
        assert_eq!(p.abs_x, l_x);
        assert_eq!(p.key, cell_key_of(l_z as i16, l_x as i16));
        assert!(p.despawn.is_none());
        let wanted = (-2..=0).contains(&l_z) && (-2..=0).contains(&l_x);
        assert_eq!(p.spawn, wanted);
        assert_eq!(p.lod, if wanted { 2 } else { 0 });
        assert_eq!(p.with_water, wanted);
        if p.spawn {
            spawns += 1;
        }
    }
    assert_eq!(spawns, 9);
}

#[test]
fn update_settles_and_replans_to_nothing() {
    let mut mapper = InnerMapper::new();
    let plans = mapper.plan_update(3, -5);
    let spawned: Vec<Option<u64>> =
        plans.iter().enumerate().map(|(i, p)| if p.spawn { Some(1000 + i as u64) } else { None }).collect();
    assert!(plans.iter().all(|p| !p.with_water));
    mapper.apply_plans(&plans, &spawned);
    assert_eq!(mapper.hash_map.len(), 9);
    for (i, p) in plans.iter().enumerate() {
        match mapper.hash_map.get(&p.key) {
            Some(c) => {
                assert!(p.spawn);
                assert_eq!(c.lod, 2);
                assert_eq!(c.entity, 1000 + i as u64);
            }
            None => assert!(!p.spawn),
        }
    }
    let again = mapper.plan_update(3, -5);
    assert!(again.iter().all(|p| p.despawn.is_none() && !p.spawn));
}

#[test]
fn moving_replaces_and_removes_chunks() {
    let mut mapper = InnerMapper::new();
    // A chunk of another level where the window wants level 2, and one where it wants none.
    mapper.hash_map.insert(cell_key_of(0, 0), IInnerMap { entity: 7, lod: 4 });
    mapper.hash_map.insert(cell_key_of(4, 4), IInnerMap { entity: 8, lod: 2 });
    // A chunk outside the window.
    mapper.hash_map.insert(cell_key_of(50, 50), IInnerMap { entity: 9, lod: 2 });
    let plans = mapper.plan_update(0, 0);
    let p00 = &plans[4 * 9 + 4];
    assert_eq!(p00.despawn, Some(7));
    assert!(p00.spawn);
    assert!(p00.with_water);
    let p44 = &plans[8 * 9 + 8];
    assert_eq!(p44.despawn, Some(8));
    assert!(!p44.spawn);
    let spawned: Vec<Option<u64>> = plans.iter().map(|p| if p.spawn { Some(100) } else { None }).collect();
    mapper.apply_plans(&plans, &spawned);
    assert_eq!(mapper.hash_map.get(&cell_key_of(0, 0)).map(|c| (c.entity, c.lod)), Some((100, 2)));
    assert!(mapper.hash_map.get(&cell_key_of(4, 4)).is_none());
    assert_eq!(mapper.hash_map.get(&cell_key_of(50, 50)).map(|c| c.entity), Some(9));
}

#[test]
fn keys_wrap_to_sixteen_bits() {
    let mapper = InnerMapper::new();
    let plans = mapper.plan_update(32767, 0);
    // Column 32767 + 4 keeps its low 16 bits in the key.
    let p = &plans[4 * 9 + 8];
    assert_eq!(p.abs_x, 32767 + 4);
    assert_eq!(p.abs_z, 0);
    assert_eq!(p.key, cell_key_of(0, -32765));
}

#[test]
fn kept_chunks_stay_and_second_update_changes_nothing() {
    let mut mapper = InnerMapper::new();
    // A chunk already at the wanted level, and one far outside the window.
    mapper.hash_map.insert(cell_key_of(0, 0), IInnerMap { entity: 42, lod: 2 });
    mapper.hash_map.insert(cell_key_of(-100, 7), IInnerMap { entity: 43, lod: 0 });
    let plans = mapper.plan_update(0, 0);
    let p00 = &plans[4 * 9 + 4];
    assert!(p00.despawn.is_none() && !p00.spawn);
    assert!(plans.iter().all(|p| p.despawn.is_none()));
    let spawned: Vec<Option<u64>> = plans.iter().map(|p| if p.spawn { Some(5) } else { None }).collect();
    mapper.apply_plans(&plans, &spawned);
    assert_eq!(mapper.hash_map.get(&cell_key_of(0, 0)).map(|c| c.entity), Some(42));
    assert_eq!(mapper.hash_map.get(&cell_key_of(-100, 7)).map(|c| (c.entity, c.lod)), Some((43, 0)));
    let before: Vec<(i64, u64, i16)> = {
        let mut v: Vec<_> = mapper.hash_map.iter().map(|(k, c)| (*k, c.entity, c.lod)).collect();
        v.sort();
        v
    };
    let second = mapper.plan_update(0, 0);
    let none: Vec<Option<u64>> = second.iter().map(|_| Some(77)).collect();
    mapper.apply_plans(&second, &none);
    let mut after: Vec<_> = mapper.hash_map.iter().map(|(k, c)| (*k, c.entity, c.lod)).collect();
    after.sort();
    assert_eq!(before, after);
}
