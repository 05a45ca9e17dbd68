use vstd::prelude::*;

verus! {

/// A point in simulation time, in nanoseconds since the simulation started.
#[derive(Clone, Copy, Debug, PartialEq, Eq, Structural)]
pub struct TimeStamp(pub u128);

/// Nanoseconds in one millisecond.
pub const NANOS_PER_MILLI: u128 = 1_000_000;

impl TimeStamp {
    /// Time that lies between `self` and the later instant `now`; negative
    /// when `now` is the earlier of the two.
    pub open spec fn age_at(self, now: TimeStamp) -> int {
        now.0 - self.0
    }

    /// Whether strictly more than `millis` milliseconds lie between `self`
    /// and `now`.
    pub open spec fn older_than(self, now: TimeStamp, millis: u64) -> bool {
        self.age_at(now) > millis * NANOS_PER_MILLI
    }

    /// Decides whether more than `millis` milliseconds have passed since
    /// `self`, seen from `now`. An instant that lies after `now` has not aged.
    pub fn is_older_than(&self, now: TimeStamp, millis: u64) -> (older: bool)
        ensures
            older == self.older_than(now, millis),
    {
        if now.0 < self.0 {
            false
        } else {
            now.0 - self.0 > (millis as u128) * NANOS_PER_MILLI
        }
    }
}

/// The role an entity plays in the game.
#[derive(Clone, Copy, Debug, PartialEq, Eq, Structural)]
pub enum Species {
    Ship,
    Asteroid,
    Bullet,
}

/// Team tag of a body. Teams decide which collisions have consequences; they
/// play no part in whether two bodies overlap.
#[derive(Clone, Copy, Debug, PartialEq, Eq, Structural)]
pub struct Collider {
    pub team: u32,
}

impl Species {
    /// The team a freshly spawned body of this species belongs to.
    pub open spec fn spawn_team(self) -> u32 {
        match self {
            Species::Asteroid => 0,
            Species::Ship => 1,
            Species::Bullet => 1,
        }
    }

    /// Collider a body of this species is spawned with: asteroids form one
    /// team, ships and bullets the other.
    pub fn collider(self) -> (collider: Collider)
        ensures
            collider.team == self.spawn_team(),
    {
        match self {
            Species::Asteroid => Collider { team: 0 },
            Species::Ship => Collider { team: 1 },
            Species::Bullet => Collider { team: 1 },
        }
    }
}

/// What the reaction to a collision reads of one entity.
#[derive(Clone, Copy, Debug, PartialEq, Eq, Structural)]
pub struct Body {
    /// Handle of the entity.
    pub entity: u64,
    pub species: Species,
    pub collider: Collider,
    /// Whether the body is large enough to break into children when it is
    /// destroyed. Only read for asteroids.
    pub fragments: bool,
}

/// Scale an asteroid must exceed to break into children.
pub const FRAGMENT_SCALE: u32 = 25;

/// Two entities found overlapping in the current tick.
#[derive(Clone, Copy, Debug, PartialEq, Eq, Structural)]
pub struct Collision {
    pub entity1: u64,
    pub entity2: u64,
}

/// A consequence of a collision, to be carried out once every reader of the
/// tick's events is done.
#[derive(Clone, Copy, Debug, PartialEq, Eq, Structural)]
pub enum Command {
    /// Remove the entity.
    Despawn(u64),
    /// Count one point.
    Score,
    /// Spawn a child of the asteroid `parent`, heading `heading` degrees off
    /// the parent's direction of travel.
    SpawnChild { parent: u64, heading: i32 },
    /// End the round.
    GameOver,
}

/// The first body of `roster` that belongs to `entity`, if there is one.
pub open spec fn lookup(roster: Seq<Body>, entity: u64) -> Option<Body>
    decreases roster.len(),
{
    if roster.len() == 0 {
        None
    } else if roster[0].entity == entity {
        Some(roster[0])
    } else {
        lookup(roster.drop_first(), entity)
    }
}

/// The bodies of `a` and `b`, where both are known and on different teams.
pub open spec fn opposed(roster: Seq<Body>, a: u64, b: u64) -> Option<(Body, Body)> {
    match (lookup(roster, a), lookup(roster, b)) {
        (Some(x), Some(y)) => if x.collider.team != y.collider.team {
            Some((x, y))
        } else {
            None
        },
        _ => None,
    }
}

/// Whether both entities of `event` are known and share a team.
pub open spec fn same_team(roster: Seq<Body>, event: Collision) -> bool {
    match (lookup(roster, event.entity1), lookup(roster, event.entity2)) {
        (Some(x), Some(y)) => x.collider.team == y.collider.team,
        _ => false,
    }
}

/// A body found by `lookup` belongs to the entity asked for and stands in the
/// roster; an entity that is not found has no body there.
pub proof fn lemma_lookup(roster: Seq<Body>, entity: u64)
    ensures
        match lookup(roster, entity) {
            Some(body) => body.entity == entity && roster.contains(body),
            None => forall|i: int| 0 <= i < roster.len() ==> roster[i].entity != entity,
        },
    decreases roster.len(),
{
    if roster.len() > 0 && roster[0].entity != entity {
        let rest = roster.drop_first();
        lemma_lookup(rest, entity);
        match lookup(rest, entity) {
            Some(body) => {
                let i = choose|i: int| 0 <= i < rest.len() && rest[i] == body;
                assert(roster[i + 1] == body);
            },
            None => {
                assert forall|i: int| 0 <= i < roster.len() implies roster[i].entity != entity by {
                    if i > 0 {
                        assert(rest[i - 1] == roster[i]);
                    }
                }
            },
        }
    }
}

/// Finds the body of `entity` in `roster`.
pub fn find(roster: &Vec<Body>, entity: u64) -> (found: Option<Body>)
    ensures
        found == lookup(roster@, entity),
{
    let mut i: usize = 0;
    assert(roster@.skip(0) == roster@);
    while i < roster.len()
        invariant
            i <= roster.len(),
            lookup(roster@, entity) == lookup(roster@.skip(i as int), entity),
        decreases roster.len() - i,
    {
        let body = roster[i];
        if body.entity == entity {
            assert(roster@.skip(i as int)[0] == body);
            return Some(body);
        }
        assert(roster@.skip(i as int).drop_first() == roster@.skip(i + 1));
        i += 1;
    }
    None
}

/// Finds the bodies of `a` and `b` where they are known and on different
/// teams.
pub fn find_opposed(roster: &Vec<Body>, a: u64, b: u64) -> (pair: Option<(Body, Body)>)
    ensures
        pair == opposed(roster@, a, b),
{
    match find(roster, a) {
        Some(x) => match find(roster, b) {
            Some(y) => if x.collider.team != y.collider.team {
                Some((x, y))
            } else {
                None
            },
            None => None,
        },
        None => None,
    }
}

} // verus!
