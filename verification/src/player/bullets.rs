use vstd::prelude::*;

verus! {

/// Name given to an entity whose name cannot be found.
pub open spec fn unknown_name() -> Seq<char> {
    "unknown_t"@
}

/// Name of a bullet entity.
pub open spec fn bullet_name() -> Seq<char> {
    "p_bullet_t"@
}

/// Name of the player entity.
pub open spec fn player_name() -> Seq<char> {
    "p_player_t"@
}

/// What is done about a collision that has just started.
#[derive(Clone, Copy, Debug, PartialEq, Eq, Structural)]
pub enum CollisionVerdict {
    /// No further collision is looked at in this frame.
    StopReading,
    /// Each bullet among the two entities is taken out of the world.
    Despawn { first: bool, second: bool },
}

/// What is done about a collision that has just started between entities named `n1` and `n2`.
pub open spec fn spec_collision_verdict(n1: Seq<char>, n2: Seq<char>) -> CollisionVerdict {
    if n1 == unknown_name() || n2 == unknown_name() {
        CollisionVerdict::StopReading
    } else if n2 == n1 {
        CollisionVerdict::StopReading
    } else if (n1 == bullet_name() && n2 == player_name()) || (n1 == player_name() && n2 == bullet_name()) {
        CollisionVerdict::StopReading
    } else {
        CollisionVerdict::Despawn { first: n1 == bullet_name(), second: n2 == bullet_name() }
    }
}

/// Each bullet of a collision pair is taken out whatever the other entity is,
/// unless the reading stops: it stops when a name is unknown, when both names
/// are the same, or when a bullet meets the player; a pair without a bullet
/// takes nothing out.
pub proof fn lemma_bullet_rule(n1: Seq<char>, n2: Seq<char>)
    ensures
        spec_collision_verdict(n1, n2) matches CollisionVerdict::Despawn { first, second }
            ==> first == (n1 == "p_bullet_t"@) && second == (n2 == "p_bullet_t"@),
        (n1 == "unknown_t"@ || n2 == "unknown_t"@ || n1 == n2) ==> spec_collision_verdict(n1, n2) == CollisionVerdict::StopReading,
        (n1 == "p_bullet_t"@ && n2 == "p_player_t"@) || (n1 == "p_player_t"@ && n2 == "p_bullet_t"@)
            ==> spec_collision_verdict(n1, n2) == CollisionVerdict::StopReading,
        (n1 == "p_bullet_t"@ && n2 != "p_bullet_t"@ && n2 != "p_player_t"@ && n2 != "unknown_t"@)
            ==> spec_collision_verdict(n1, n2) == (CollisionVerdict::Despawn { first: true, second: false }),
        (n2 == "p_bullet_t"@ && n1 != "p_bullet_t"@ && n1 != "p_player_t"@ && n1 != "unknown_t"@)
            ==> spec_collision_verdict(n1, n2) == (CollisionVerdict::Despawn { first: false, second: true }),
        (n1 != n2 && n1 != "p_bullet_t"@ && n2 != "p_bullet_t"@ && n1 != "unknown_t"@ && n2 != "unknown_t"@)
            ==> spec_collision_verdict(n1, n2) == (CollisionVerdict::Despawn { first: false, second: false }),
{
    reveal_strlit("p_bullet_t");
    reveal_strlit("p_player_t");
    reveal_strlit("unknown_t");
    assert("p_bullet_t"@ != "unknown_t"@) by {
        assert("p_bullet_t"@.len() != "unknown_t"@.len());
    }
    assert("p_bullet_t"@ != "p_player_t"@) by {
        assert("p_bullet_t"@[2] != "p_player_t"@[2]);
    }
    assert("p_player_t"@ != "unknown_t"@) by {
        assert("p_player_t"@.len() != "unknown_t"@.len());
    }
}

/// Reading the events of a frame: an event of a collision that did not just
/// start is passed over; a bullet meeting a named entity that is neither a
/// bullet nor the player is taken out before the later events are read; a
/// collision without a bullet takes nothing out and the reading goes on; and a
/// collision with an unknown entity, of two entities of one name, or of a
/// bullet with the player ends the reading.
pub proof fn lemma_reading_events(events: Seq<CollisionEvent>, i: int)
    requires
        0 <= i < events.len(),
    ensures
        !events[i].started ==> spec_bullet_despawns_from(events, i) == spec_bullet_despawns_from(events, i + 1),
        (events[i].started && events[i].name1@ == "p_bullet_t"@ && events[i].name2@ != "p_bullet_t"@
            && events[i].name2@ != "p_player_t"@ && events[i].name2@ != "unknown_t"@)
            ==> spec_bullet_despawns_from(events, i) == seq![events[i].entity1] + spec_bullet_despawns_from(events, i + 1),
        (events[i].started && events[i].name2@ == "p_bullet_t"@ && events[i].name1@ != "p_bullet_t"@
            && events[i].name1@ != "p_player_t"@ && events[i].name1@ != "unknown_t"@)
            ==> spec_bullet_despawns_from(events, i) == seq![events[i].entity2] + spec_bullet_despawns_from(events, i + 1),
        (events[i].started && (events[i].name1@ == "unknown_t"@ || events[i].name2@ == "unknown_t"@))
            ==> spec_bullet_despawns_from(events, i) == Seq::<u64>::empty(),
        (events[i].started && (events[i].name1@ == events[i].name2@
            || (events[i].name1@ == "p_bullet_t"@ && events[i].name2@ == "p_player_t"@)
            || (events[i].name1@ == "p_player_t"@ && events[i].name2@ == "p_bullet_t"@)))
            ==> spec_bullet_despawns_from(events, i) == Seq::<u64>::empty(),
        (events[i].started && events[i].name1@ != events[i].name2@ && events[i].name1@ != "p_bullet_t"@
            && events[i].name2@ != "p_bullet_t"@ && events[i].name1@ != "unknown_t"@ && events[i].name2@ != "unknown_t"@)
            ==> spec_bullet_despawns_from(events, i) == spec_bullet_despawns_from(events, i + 1),
{
    lemma_bullet_rule(events[i].name1@, events[i].name2@);
    let e1 = events[i].entity1;
    let e2 = events[i].entity2;
    let rest = spec_bullet_despawns_from(events, i + 1);
    assert(seq![e1] + Seq::<u64>::empty() + rest =~= seq![e1] + rest);
    assert(Seq::<u64>::empty() + seq![e2] + rest =~= seq![e2] + rest);
    assert(Seq::<u64>::empty() + Seq::<u64>::empty() + rest =~= rest);
}

/// Decides what a collision that has just started between entities named
/// `type_t_1` and `type_t_2` leads to: an unnamed entity, two entities of the
/// same name, or a bullet meeting the player ends the reading of collisions;
/// otherwise each bullet of the pair is taken out of the world.
pub fn collision_verdict(type_t_1: &String, type_t_2: &String) -> (v: CollisionVerdict)
    ensures
        v == spec_collision_verdict(type_t_1@, type_t_2@),
{
    let unknown: String = "unknown_t".to_owned();
    let bullet: String = "p_bullet_t".to_owned();
    let player: String = "p_player_t".to_owned();
    if *type_t_1 == unknown || *type_t_2 == unknown {
        return CollisionVerdict::StopReading;
    }
    if *type_t_2 == *type_t_1 {
        return CollisionVerdict::StopReading;
    }
    if (*type_t_1 == bullet && *type_t_2 == player) || (*type_t_1 == player && *type_t_2 == bullet) {
        return CollisionVerdict::StopReading;
    }
    CollisionVerdict::Despawn { first: *type_t_1 == bullet, second: *type_t_2 == bullet }
}

/// A collision event between two entities, by their bits and their names.
pub struct CollisionEvent {
    pub started: bool,
    pub entity1: u64,
    pub entity2: u64,
    pub name1: String,
    pub name2: String,
}

/// The entities taken out of the world while reading `events` from index `i` on,
/// in the order in which they are taken out.
pub open spec fn spec_bullet_despawns_from(events: Seq<CollisionEvent>, i: int) -> Seq<u64>
    decreases events.len() - i,
{
    if i < 0 || i >= events.len() {
        Seq::empty()
    } else if !events[i].started {
        spec_bullet_despawns_from(events, i + 1)
    } else {
        match spec_collision_verdict(events[i].name1@, events[i].name2@) {
            CollisionVerdict::StopReading => Seq::empty(),
            CollisionVerdict::Despawn { first, second } => {
                let a = if first { seq![events[i].entity1] } else { Seq::empty() };
                let b = if second { seq![events[i].entity2] } else { Seq::empty() };
                a + b + spec_bullet_despawns_from(events, i + 1)
            },
        }
    }
}

/// Reads the collision events of a frame in order and gives the bullets to
/// take out of the world: events of collisions that did not just start are
/// passed over, and a verdict to stop ends the reading.
pub fn detect_bullet_collision(events: &Vec<CollisionEvent>) -> (r: Vec<u64>)
    ensures
        r@ == spec_bullet_despawns_from(events@, 0),
{
    let mut out: Vec<u64> = Vec::new();
    let mut i: usize = 0;
    while i < events.len()
        invariant
            0 <= i <= events.len(),
            out@ + spec_bullet_despawns_from(events@, i as int) == spec_bullet_despawns_from(events@, 0),
        decreases events.len() - i,
    {
        let ev = &events[i];
        if ev.started {
            match collision_verdict(&ev.name1, &ev.name2) {
                CollisionVerdict::StopReading => {
                    assert(spec_bullet_despawns_from(events@, i as int) =~= Seq::<u64>::empty());
                    assert(out@ + Seq::<u64>::empty() =~= out@);
                    return out;
                },
                CollisionVerdict::Despawn { first, second } => {
                    let ghost before = out@;
                    if first {
                        out.push(ev.entity1);
                    }
                    if second {
                        out.push(ev.entity2);
                    }
                    assert(out@ + spec_bullet_despawns_from(events@, i + 1) =~= before + spec_bullet_despawns_from(events@, i as int));
                },
            }
        }
        i = i + 1;
    }
    assert(out@ + spec_bullet_despawns_from(events@, i as int) =~= out@);
    out
}

} // verus!
