use crate::asteroid::asteroid_batch;
use crate::asteroid::asteroid_event;
use crate::asteroid::asteroid_hit;
use crate::bodies::lookup;
use crate::bodies::same_team;
use crate::bodies::Body;
use crate::bodies::Collision;
use crate::bodies::Command;
use crate::bodies::Species;
use crate::bullet::bullet_batch;
use crate::bullet::bullet_event;
use crate::bullet::bullet_hit;
use crate::ship::ship_batch;
use crate::ship::ship_event;
use crate::ship::ship_hit;
use vstd::prelude::*;
use vstd::seq_lib::lemma_multiset_commutative;

verus! {

/// Whether `event` leaves the game as it is: it removes nothing, spawns
/// nothing, scores nothing and does not end the round.
pub open spec fn inert(roster: Seq<Body>, event: Collision) -> bool {
    &&& ship_event(roster, event) == Seq::<Command>::empty()
    &&& bullet_event(roster, event) == Seq::<Command>::empty()
    &&& asteroid_event(roster, event) == Seq::<Command>::empty()
}

/// A collision between two bodies of the same team is inert, whatever their
/// species: nothing is removed, spawned or scored, and the round goes on.
pub proof fn lemma_same_team_inert(roster: Seq<Body>, event: Collision)
    requires
        same_team(roster, event),
    ensures
        inert(roster, event),
{
}

/// A collision that names an entity without a body is inert.
pub proof fn lemma_unknown_entity_inert(roster: Seq<Body>, event: Collision)
    requires
        lookup(roster, event.entity1) is None || lookup(roster, event.entity2) is None,
    ensures
        inert(roster, event),
{
}

/// Two asteroids that meet have nothing to fear from each other, even where
/// they are of different teams: only a bullet destroys an asteroid.
pub proof fn lemma_asteroids_spare_each_other(roster: Seq<Body>, event: Collision)
    requires
        lookup(roster, event.entity1) matches Some(x) && x.species == Species::Asteroid,
        lookup(roster, event.entity2) matches Some(y) && y.species == Species::Asteroid,
    ensures
        inert(roster, event),
{
}

/// Which of its two entities a collision names first decides nothing but the
/// order of what follows from it: the same commands are given either way.
pub proof fn lemma_either_way_round(roster: Seq<Body>, a: u64, b: u64)
    ensures
        ship_event(roster, Collision { entity1: a, entity2: b }).to_multiset() == ship_event(
            roster,
            Collision { entity1: b, entity2: a },
        ).to_multiset(),
        bullet_event(roster, Collision { entity1: a, entity2: b }).to_multiset() == bullet_event(
            roster,
            Collision { entity1: b, entity2: a },
        ).to_multiset(),
        asteroid_event(roster, Collision { entity1: a, entity2: b }).to_multiset()
            == asteroid_event(roster, Collision { entity1: b, entity2: a }).to_multiset(),
{
    lemma_multiset_commutative(ship_hit(roster, a, b), ship_hit(roster, b, a));
    lemma_multiset_commutative(ship_hit(roster, b, a), ship_hit(roster, a, b));
    lemma_multiset_commutative(bullet_hit(roster, a, b), bullet_hit(roster, b, a));
    lemma_multiset_commutative(bullet_hit(roster, b, a), bullet_hit(roster, a, b));
    lemma_multiset_commutative(asteroid_hit(roster, a, b), asteroid_hit(roster, b, a));
    lemma_multiset_commutative(asteroid_hit(roster, b, a), asteroid_hit(roster, a, b));
    assert(ship_hit(roster, a, b).to_multiset().add(ship_hit(roster, b, a).to_multiset())
        =~= ship_hit(roster, b, a).to_multiset().add(ship_hit(roster, a, b).to_multiset()));
    assert(bullet_hit(roster, a, b).to_multiset().add(bullet_hit(roster, b, a).to_multiset())
        =~= bullet_hit(roster, b, a).to_multiset().add(bullet_hit(roster, a, b).to_multiset()));
    assert(asteroid_hit(roster, a, b).to_multiset().add(asteroid_hit(roster, b, a).to_multiset())
        =~= asteroid_hit(roster, b, a).to_multiset().add(
        asteroid_hit(roster, a, b).to_multiset(),
    ));
}

/// A tick in which every collision is inert leaves every reader of the
/// collisions with nothing to do.
pub proof fn lemma_inert_batch(roster: Seq<Body>, events: Seq<Collision>)
    requires
        forall|i: int| 0 <= i < events.len() ==> inert(roster, #[trigger] events[i]),
    ensures
        ship_batch(roster, events) == Seq::<Command>::empty(),
        bullet_batch(roster, events) == Seq::<Command>::empty(),
        asteroid_batch(roster, events) == Seq::<Command>::empty(),
    decreases events.len(),
{
    if events.len() > 0 {
        lemma_inert_batch(roster, events.drop_last());
        assert(inert(roster, events[events.len() - 1]));
    }
}

} // verus!
