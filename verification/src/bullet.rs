use crate::bodies::find_opposed;
use crate::bodies::opposed;
use crate::bodies::Body;
use crate::bodies::Collision;
use crate::bodies::Command;
use crate::bodies::Species;
use crate::bodies::TimeStamp;
use vstd::prelude::*;

verus! {

/// What the lifetime check reads of one bullet.
#[derive(Clone, Copy, Debug, PartialEq, Eq, Structural)]
pub struct Shot {
    /// Handle of the bullet.
    pub entity: u64,
    /// When the bullet was fired.
    pub spawn_time: TimeStamp,
}

/// The bullet's handle where the bullet has flown longer than `lifetime`
/// milliseconds at `now`.
pub open spec fn spent(shot: Shot, now: TimeStamp, lifetime: u64) -> Option<u64> {
    if shot.spawn_time.older_than(now, lifetime) {
        Some(shot.entity)
    } else {
        None
    }
}

/// Picks the bullets to remove at `now`: the handles of those that have flown
/// longer than `lifetime` milliseconds, in the order of `bullets`.
pub fn destroy_bullets(bullets: &Vec<Shot>, now: TimeStamp, lifetime: u64) -> (removed: Vec<u64>)
    ensures
        removed@ == bullets@.filter_map(|shot: Shot| spent(shot, now, lifetime)),
{
    let ghost pick = |shot: Shot| spent(shot, now, lifetime);
    let mut removed: Vec<u64> = Vec::new();
    let mut i: usize = 0;
    while i < bullets.len()
        invariant
            i <= bullets.len(),
            pick == |shot: Shot| spent(shot, now, lifetime),
            removed@ == bullets@.take(i as int).filter_map(pick),
        decreases bullets.len() - i,
    {
        let shot = bullets[i];
        if shot.spawn_time.is_older_than(now, lifetime) {
            removed.push(shot.entity);
        }
        proof {
            let done = bullets@.take(i + 1);
            assert(done.drop_last() == bullets@.take(i as int));
            assert(done.last() == shot);
        }
        i += 1;
    }
    assert(bullets@.take(bullets.len() as int) == bullets@);
    removed
}

/// What becomes of `a` as a bullet when it is found overlapping `b`: hitting
/// a body of another team removes the bullet.
pub open spec fn bullet_hit(roster: Seq<Body>, a: u64, b: u64) -> Seq<Command> {
    match opposed(roster, a, b) {
        Some((x, _)) => if x.species == Species::Bullet {
            seq![Command::Despawn(x.entity)]
        } else {
            Seq::empty()
        },
        None => Seq::empty(),
    }
}

/// The consequences of one collision for bullets, read both ways round.
pub open spec fn bullet_event(roster: Seq<Body>, event: Collision) -> Seq<Command> {
    bullet_hit(roster, event.entity1, event.entity2) + bullet_hit(
        roster,
        event.entity2,
        event.entity1,
    )
}

/// The consequences of a tick's collisions for bullets, in the order of the
/// events.
pub open spec fn bullet_batch(roster: Seq<Body>, events: Seq<Collision>) -> Seq<Command>
    decreases events.len(),
{
    if events.len() == 0 {
        Seq::empty()
    } else {
        bullet_batch(roster, events.drop_last()) + bullet_event(roster, events.last())
    }
}

fn react_bullet(commands: &mut Vec<Command>, roster: &Vec<Body>, a: u64, b: u64)
    ensures
        final(commands)@ == old(commands)@ + bullet_hit(roster@, a, b),
{
    let ghost before = commands@;
    match find_opposed(roster, a, b) {
        Some((x, _)) => {
            if x.species == Species::Bullet {
                commands.push(Command::Despawn(x.entity));
            }
        },
        None => {},
    }
    assert(commands@ == before + bullet_hit(roster@, a, b));
}

/// Reads the tick's collisions for bullets that struck something: each bullet
/// that hits a body of another team is removed. Collisions that name an
/// unknown entity are passed over.
pub fn collisions_bullets(
    events: &Vec<Collision>,
    roster: &Vec<Body>,
) -> (commands: Vec<Command>)
    ensures
        commands@ == bullet_batch(roster@, events@),
{
    let mut commands: Vec<Command> = Vec::new();
    let mut i: usize = 0;
    while i < events.len()
        invariant
            i <= events.len(),
            commands@ == bullet_batch(roster@, events@.take(i as int)),
        decreases events.len() - i,
    {
        let event = events[i];
        react_bullet(&mut commands, roster, event.entity1, event.entity2);
        react_bullet(&mut commands, roster, event.entity2, event.entity1);
        proof {
            let done = events@.take(i + 1);
            assert(done.drop_last() == events@.take(i as int));
            assert(done.last() == event);
        }
        i += 1;
    }
    assert(events@.take(events.len() as int) == events@);
    commands
}

} // verus!
