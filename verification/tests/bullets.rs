use m_game::player::bullets::{collision_verdict, detect_bullet_collision, CollisionEvent, CollisionVerdict};

fn ev(started: bool, e1: u64, e2: u64, n1: &str, n2: &str) -> CollisionEvent {
    CollisionEvent { started, entity1: e1, entity2: e2, name1: n1.to_string(), name2: n2.to_string() }
}

#[test]
fn verdicts() {
    let s = |a: &str, b: &str| collision_verdict(&a.to_string(), &b.to_string());
    assert_eq!(s("unknown_t", "p_bullet_t"), CollisionVerdict::StopReading);
    assert_eq!(s("terrain_t", "unknown_t"), CollisionVerdict::StopReading);
    assert_eq!(s("p_bullet_t", "p_bullet_t"), CollisionVerdict::StopReading);
    assert_eq!(s("p_bullet_t", "p_player_t"), CollisionVerdict::StopReading);
    assert_eq!(s("p_player_t", "p_bullet_t"), CollisionVerdict::StopReading);
    assert_eq!(s("p_bullet_t", "terrain_t"), CollisionVerdict::Despawn { first: true, second: false });
    assert_eq!(s("water_t", "p_bullet_t"), CollisionVerdict::Despawn { first: false, second: true });
    assert_eq!(s("terrain_t", "p_player_t"), CollisionVerdict::Despawn { first: false, second: false });
}

#[test]
fn despawns_stop_at_the_first_stop_verdict() {
    let events = vec![
        ev(false, 1, 2, "p_bullet_t", "terrain_t"),
        ev(true, 3, 4, "p_bullet_t", "terrain_t"),
        ev(true, 5, 6, "water_t", "p_bullet_t"),
        ev(true, 7, 8, "terrain_t", "p_player_t"),
        ev(true, 9, 10, "p_bullet_t", "p_player_t"),
        ev(true, 11, 12, "p_bullet_t", "terrain_t"),
    ];
    assert_eq!(detect_bullet_collision(&events), vec![3, 6]);
    assert_eq!(detect_bullet_collision(&Vec::new()), Vec::<u64>::new());
}
