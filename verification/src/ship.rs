use crate::bodies::find_opposed;
use crate::bodies::opposed;
use crate::bodies::Body;
use crate::bodies::Collision;
use crate::bodies::Command;
use crate::bodies::Species;
use crate::bodies::TimeStamp;
use crate::control::Pawn;
use crate::control_ship::Shoot;
use vstd::prelude::*;

verus! {

/// What firing reads and writes of one ship.
#[derive(Clone, Copy, Debug, PartialEq, Eq, Structural)]
pub struct Gun {
    pub pawn: Pawn,
    /// When the ship last fired.
    pub last_shot: TimeStamp,
}

impl Gun {
    /// Whether the gun answers `shot` at `now`: it belongs to the controller
    /// that asks and has rested longer than `fire_delay` milliseconds.
    pub open spec fn answers(self, shot: Shoot, now: TimeStamp, fire_delay: u64) -> bool {
        self.pawn.controller == shot.controller && self.last_shot.older_than(now, fire_delay)
    }

    /// The gun after `shot` at `now`: one that answers has fired at `now`,
    /// any other is unchanged.
    pub open spec fn after(self, shot: Shoot, now: TimeStamp, fire_delay: u64) -> Gun {
        if self.answers(shot, now, fire_delay) {
            Gun { pawn: self.pawn, last_shot: now }
        } else {
            self
        }
    }
}

/// Handles one request to fire at `now`. Every gun of the asking controller
/// that has rested longer than `fire_delay` milliseconds fires and notes
/// `now` as its last shot. Returns the positions within `guns` of those that
/// fired, in rising order.
pub fn shoot(
    shot: &Shoot,
    guns: &mut Vec<Gun>,
    now: TimeStamp,
    fire_delay: u64,
) -> (fired: Vec<usize>)
    ensures
        final(guns).len() == old(guns).len(),
        forall|i: int|
            0 <= i < old(guns).len() ==> #[trigger] final(guns)[i] == old(guns)[i].after(
                *shot,
                now,
                fire_delay,
            ),
        forall|k: int|
            0 <= k < fired.len() ==> (#[trigger] fired[k]) < old(guns).len() && old(
                guns,
            )[fired[k] as int].answers(*shot, now, fire_delay),
        forall|k: int, l: int| 0 <= k < l < fired.len() ==> fired[k] < fired[l],
        forall|i: int|
            0 <= i < old(guns).len() && (#[trigger] old(guns)[i]).answers(*shot, now, fire_delay)
                ==> fired@.contains(i as usize),
{
    let mut fired: Vec<usize> = Vec::new();
    let mut i: usize = 0;
    while i < guns.len()
        invariant
            i <= guns.len(),
            guns.len() == old(guns).len(),
            forall|j: int|
                0 <= j < i ==> #[trigger] guns[j] == old(guns)[j].after(*shot, now, fire_delay),
            forall|j: int| i <= j < guns.len() ==> #[trigger] guns[j] == old(guns)[j],
            forall|k: int|
                0 <= k < fired.len() ==> (#[trigger] fired[k]) < i && old(
                    guns,
                )[fired[k] as int].answers(*shot, now, fire_delay),
            forall|k: int, l: int| 0 <= k < l < fired.len() ==> fired[k] < fired[l],
            forall|j: int|
                0 <= j < i && (#[trigger] old(guns)[j]).answers(*shot, now, fire_delay)
                    ==> fired@.contains(j as usize),
        decreases guns.len() - i,
    {
        let gun = guns[i];
        let ghost before = fired@;
        let answers = gun.pawn.controller == shot.controller && gun.last_shot.is_older_than(
            now,
            fire_delay,
        );
        if answers {
            guns.set(i, Gun { pawn: gun.pawn, last_shot: now });
            fired.push(i);
            assert(fired@.last() == i);
        }
        proof {
            assert forall|j: int|
                0 <= j < i + 1 && (#[trigger] old(guns)[j]).answers(
                    *shot,
                    now,
                    fire_delay,
                ) implies fired@.contains(j as usize) by {
                if j < i {
                    let k = choose|k: int| 0 <= k < before.len() && before[k] == j as usize;
                    assert(fired@[k] == j as usize);
                } else {
                    assert(fired@[fired.len() - 1] == j as usize);
                }
            }
        }
        i += 1;
    }
    fired
}

/// A gun that has just fired does not answer a second request made at the
/// same instant, whatever the delay: asking twice within one tick fires once.
pub proof fn lemma_fires_once_per_instant(gun: Gun, shot: Shoot, now: TimeStamp, fire_delay: u64)
    requires
        gun.answers(shot, now, fire_delay),
    ensures
        !gun.after(shot, now, fire_delay).answers(shot, now, fire_delay),
{
}

/// Picks the order that a pawn obeys out of the orders of one tick, each
/// given by the controller it comes from: the last one from the pawn's own
/// controller, by its position within `orders`. A pawn whose controller gave
/// no order obeys none.
pub fn standing_order(orders: &Vec<u64>, pawn: &Pawn) -> (obeyed: Option<usize>)
    ensures
        match obeyed {
            Some(k) => k < orders.len() && orders[k as int] == pawn.controller && forall|j: int|
                k < j < orders.len() ==> orders[j] != pawn.controller,
            None => forall|j: int| 0 <= j < orders.len() ==> orders[j] != pawn.controller,
        },
{
    let mut i: usize = orders.len();
    while i > 0
        invariant
            i <= orders.len(),
            forall|j: int| i <= j < orders.len() ==> orders[j] != pawn.controller,
        decreases i,
    {
        i -= 1;
        if orders[i] == pawn.controller {
            return Some(i);
        }
    }
    None
}

/// What becomes of `a` as a ship when it is found overlapping `b`: touching a
/// body of another team removes the ship and ends the round.
pub open spec fn ship_hit(roster: Seq<Body>, a: u64, b: u64) -> Seq<Command> {
    match opposed(roster, a, b) {
        Some((x, _)) => if x.species == Species::Ship {
            seq![Command::Despawn(x.entity), Command::GameOver]
        } else {
            Seq::empty()
        },
        None => Seq::empty(),
    }
}

/// The consequences of one collision for ships, read both ways round.
pub open spec fn ship_event(roster: Seq<Body>, event: Collision) -> Seq<Command> {
    ship_hit(roster, event.entity1, event.entity2) + ship_hit(
        roster,
        event.entity2,
        event.entity1,
    )
}

/// The consequences of a tick's collisions for ships, in the order of the
/// events.
pub open spec fn ship_batch(roster: Seq<Body>, events: Seq<Collision>) -> Seq<Command>
    decreases events.len(),
{
    if events.len() == 0 {
        Seq::empty()
    } else {
        ship_batch(roster, events.drop_last()) + ship_event(roster, events.last())
    }
}

fn react_ship(commands: &mut Vec<Command>, roster: &Vec<Body>, a: u64, b: u64)
    ensures
        final(commands)@ == old(commands)@ + ship_hit(roster@, a, b),
{
    let ghost before = commands@;
    match find_opposed(roster, a, b) {
        Some((x, _)) => {
            if x.species == Species::Ship {
                commands.push(Command::Despawn(x.entity));
                commands.push(Command::GameOver);
            }
        },
        None => {},
    }
    assert(commands@ == before + ship_hit(roster@, a, b));
}

/// Reads the tick's collisions for ships that were hit: each ship that
/// touches a body of another team is removed, and the round ends. Collisions
/// that name an unknown entity are passed over.
pub fn collisions_ship(events: &Vec<Collision>, roster: &Vec<Body>) -> (commands: Vec<Command>)
    ensures
        commands@ == ship_batch(roster@, events@),
{
    let mut commands: Vec<Command> = Vec::new();
    let mut i: usize = 0;
    while i < events.len()
        invariant
            i <= events.len(),
            commands@ == ship_batch(roster@, events@.take(i as int)),
        decreases events.len() - i,
    {
        let event = events[i];
        react_ship(&mut commands, roster, event.entity1, event.entity2);
        react_ship(&mut commands, roster, event.entity2, event.entity1);
        proof {
            let done = events@.take(i + 1);
            assert(done.drop_last() == events@.take(i as int));
            assert(done.last() == event);
        }
        i += 1;
    }
    assert(events@.take(events.len() as int) == events@);
    commands
}

} // verus!
