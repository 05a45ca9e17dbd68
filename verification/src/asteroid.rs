use crate::bodies::find;
use crate::bodies::find_opposed;
use crate::bodies::lookup;
use crate::bodies::opposed;
use crate::bodies::Body;
use crate::bodies::Collision;
use crate::bodies::Command;
use crate::bodies::Species;
use bevy_turborand::DelegatedRng;
use bevy_turborand::RngComponent;
use vstd::prelude::*;

verus! {

/// Number of pre-generated outline variants an asteroid's look is picked from.
pub const ASTEROID_VARIANTS: usize = 100;

/// Fewest vertices an asteroid outline can have.
pub const OUTLINE_VERTICES_MIN: usize = 8;

/// Bound that the number of vertices of an asteroid outline stays below.
pub const OUTLINE_VERTICES_END: usize = 12;

/// Seconds between two asteroids drifting in from outside the screen.
pub const SPAWN_PERIOD: u64 = 2;

/// Angle in degrees by which the first child of a broken asteroid turns away
/// from the parent's direction of travel.
pub const CHILD_HEADING_LEFT: i32 = 50;

/// Angle in degrees by which the second child turns away: as far as the
/// first, to the other side.
pub const CHILD_HEADING_RIGHT: i32 = -50;

#[verifier::external_type_specification]
#[verifier::external_body]
pub struct ExRngComponent(bevy_turborand::RngComponent);

/// `DelegatedRng::usize` of `bevy_turborand` on the half-open range from
/// `low` to `high`: for a non-empty range the generator hands back a value
/// inside it. Which one depends on the generator's state, so nothing more is
/// claimed. On an empty range the outside function panics.
#[verifier::external_body]
fn rng_usize(rng: &mut RngComponent, low: usize, high: usize) -> (value: usize)
    requires
        low < high,
    ensures
        low <= value < high,
{
    rng.usize(low..high)
}

/// Draws the index of the outline variant for a freshly spawned asteroid.
pub fn pick_variant(rng: &mut RngComponent) -> (variant: usize)
    ensures
        variant < ASTEROID_VARIANTS,
{
    rng_usize(rng, 0, ASTEROID_VARIANTS)
}

/// Draws the number of vertices of a new asteroid outline.
pub fn draw_vertex_count(rng: &mut RngComponent) -> (num_verts: usize)
    ensures
        OUTLINE_VERTICES_MIN <= num_verts < OUTLINE_VERTICES_END,
{
    rng_usize(rng, OUTLINE_VERTICES_MIN, OUTLINE_VERTICES_END)
}

/// The vertex that follows vertex `i` on a closed ring of `n` vertices.
pub open spec fn next_vertex(i: int, n: int) -> int {
    if i + 1 == n {
        0
    } else {
        i + 1
    }
}

/// The vertex that comes before vertex `i` on a closed ring of `n` vertices.
pub open spec fn prev_vertex(i: int, n: int) -> int {
    if i == 0 {
        n - 1
    } else {
        i - 1
    }
}

/// Finds the two neighbours of vertex `i` on a closed outline of `num_verts`
/// vertices: the one before it and the one after it. The outline's normal at
/// a vertex is taken from the edges to these two.
pub fn neighbours(i: usize, num_verts: usize) -> (around: (usize, usize))
    requires
        i < num_verts,
    ensures
        around.0 == prev_vertex(i as int, num_verts as int),
        around.1 == next_vertex(i as int, num_verts as int),
{
    let before = if i == 0 {
        num_verts - 1
    } else {
        i - 1
    };
    let after = if i + 1 == num_verts {
        0
    } else {
        i + 1
    };
    (before, after)
}

/// Going one vertex on and one back, or one back and one on, leads to where
/// one started, and both neighbours are vertices of the ring.
pub proof fn lemma_neighbours_close_the_ring(i: int, n: int)
    requires
        0 <= i < n,
    ensures
        0 <= prev_vertex(i, n) < n,
        0 <= next_vertex(i, n) < n,
        next_vertex(prev_vertex(i, n), n) == i,
        prev_vertex(next_vertex(i, n), n) == i,
{
}

/// Entry `k` of the triangle list of the band between an outline of `n`
/// vertices and its offset twin. Vertex `i` of the outline has index `i`, its
/// twin has index `i + n`. Each run of six entries holds the two triangles
/// that fill the band between one vertex and the next: from the vertex to its
/// twin to the next vertex, and from the twin to the next twin to the next
/// vertex.
pub open spec fn ring_entry(k: int, n: int) -> int {
    let i = k / 6;
    let next = next_vertex(i, n);
    let at = k % 6;
    if at == 0 {
        i
    } else if at == 1 {
        i + n
    } else if at == 2 {
        next
    } else if at == 3 {
        i + n
    } else if at == 4 {
        next + n
    } else {
        next
    }
}

/// The triangle list of the band between an outline of `n` vertices and its
/// offset twin: one pair of triangles per outline edge, in the order of the
/// vertices, closing the ring from the last vertex back to the first.
pub open spec fn ring(n: nat) -> Seq<u32> {
    Seq::new(6 * n, |k: int| ring_entry(k, n as int) as u32)
}

/// Builds the triangle list of the band between an outline of `num_verts`
/// vertices and its offset twin. Every entry names one of the `2 * num_verts`
/// vertices.
pub fn ring_indices(num_verts: usize) -> (indices: Vec<u32>)
    requires
        2 * num_verts <= u32::MAX,
        6 * num_verts <= usize::MAX,
    ensures
        indices@ == ring(num_verts as nat),
        forall|k: int| 0 <= k < indices.len() ==> indices[k] < 2 * num_verts,
{
    let mut indices: Vec<u32> = Vec::new();
    let mut i: usize = 0;
    while i < num_verts
        invariant
            i <= num_verts,
            2 * num_verts <= u32::MAX,
            6 * num_verts <= usize::MAX,
            indices.len() == 6 * i,
            forall|k: int|
                0 <= k < indices.len() ==> indices[k] == ring_entry(k, num_verts as int)
                    && indices[k] < 2 * num_verts,
        decreases num_verts - i,
    {
        let next: usize = (i + 1) % num_verts;
        assert(next == next_vertex(i as int, num_verts as int)) by {
            if i + 1 == num_verts {
                vstd::arithmetic::div_mod::lemma_mod_self_0(num_verts as int);
            } else {
                vstd::arithmetic::div_mod::lemma_small_mod((i + 1) as nat, num_verts as nat);
            }
        }
        indices.push(i as u32);
        indices.push((i + num_verts) as u32);
        indices.push(next as u32);
        indices.push((i + num_verts) as u32);
        indices.push((next + num_verts) as u32);
        indices.push(next as u32);
        i += 1;
    }
    assert(indices@ =~= ring(num_verts as nat));
    indices
}

/// Side `side` of triangle `triangle` of a triangle list, as the pair of
/// vertices it runs from and to.
pub open spec fn edge(indices: Seq<u32>, triangle: int, side: int) -> (u32, u32) {
    let to = if side == 2 {
        0
    } else {
        side + 1
    };
    (indices[3 * triangle + side], indices[3 * triangle + to])
}

/// Side `side` of triangle `triangle` of the ring over `n` outline
/// vertices, written out: the even triangles run from a vertex to its twin to
/// the next vertex, the odd ones from the twin to the next twin to the next
/// vertex.
spec fn ring_edge(n: int, triangle: int, side: int) -> (int, int) {
    let i = triangle / 2;
    let next = next_vertex(i, n);
    if triangle % 2 == 0 {
        if side == 0 {
            (i, i + n)
        } else if side == 1 {
            (i + n, next)
        } else {
            (next, i)
        }
    } else {
        if side == 0 {
            (i + n, next + n)
        } else if side == 1 {
            (next + n, next)
        } else {
            (next, i + n)
        }
    }
}

proof fn lemma_ring_edge(n: nat, triangle: int, side: int)
    requires
        1 <= n,
        2 * n <= u32::MAX,
        0 <= triangle < 2 * n,
        0 <= side < 3,
    ensures
        edge(ring(n), triangle, side).0 == ring_edge(n as int, triangle, side).0,
        edge(ring(n), triangle, side).1 == ring_edge(n as int, triangle, side).1,
{
    let i = triangle / 2;
    let half = triangle % 2;
    let to = if side == 2 {
        0
    } else {
        side + 1
    };
    let from_at = 3 * triangle + side;
    let to_at = 3 * triangle + to;
    assert(from_at == 6 * i + (3 * half + side));
    assert(to_at == 6 * i + (3 * half + to));
    assert(from_at / 6 == i && from_at % 6 == 3 * half + side);
    assert(to_at / 6 == i && to_at % 6 == 3 * half + to);
    assert(0 <= i < n);
    assert(ring(n)[from_at] == ring_entry(from_at, n as int) as u32);
    assert(ring(n)[to_at] == ring_entry(to_at, n as int) as u32);
}

/// The triangles of a ring all wind the same way round: no two sides of its
/// triangles run from the same vertex to the same vertex, so wherever two
/// triangles share an edge they run through it in opposite directions.
pub proof fn lemma_ring_winds_one_way(n: nat, t1: int, s1: int, t2: int, s2: int)
    requires
        2 <= n,
        2 * n <= u32::MAX,
        0 <= t1 < 2 * n,
        0 <= t2 < 2 * n,
        0 <= s1 < 3,
        0 <= s2 < 3,
        t1 != t2 || s1 != s2,
    ensures
        edge(ring(n), t1, s1) != edge(ring(n), t2, s2),
{
    lemma_ring_edge(n, t1, s1);
    lemma_ring_edge(n, t2, s2);
    let a = ring_edge(n as int, t1, s1);
    let b = ring_edge(n as int, t2, s2);
    assert(a != b) by {
        let i1 = t1 / 2;
        let i2 = t2 / 2;
        assert(t1 == 2 * i1 + t1 % 2);
        assert(t2 == 2 * i2 + t2 % 2);
    }
}

/// The children a destroyed asteroid leaves behind: two where it is large
/// enough to break, heading to either side of its path by the same angle, and
/// none otherwise.
pub open spec fn children(asteroid: Body) -> Seq<Command> {
    if asteroid.fragments {
        seq![
            Command::SpawnChild { parent: asteroid.entity, heading: CHILD_HEADING_LEFT },
            Command::SpawnChild { parent: asteroid.entity, heading: CHILD_HEADING_RIGHT },
        ]
    } else {
        Seq::empty()
    }
}

/// What becomes of `a` as an asteroid when it is found overlapping `b`: hit by
/// a bullet of another team it leaves its children, is removed and scores a
/// point. Anything else leaves it alone.
pub open spec fn asteroid_hit(roster: Seq<Body>, a: u64, b: u64) -> Seq<Command> {
    match opposed(roster, a, b) {
        Some((x, y)) => if x.species == Species::Asteroid && y.species == Species::Bullet {
            children(x) + seq![Command::Despawn(x.entity), Command::Score]
        } else {
            Seq::empty()
        },
        None => Seq::empty(),
    }
}

/// The consequences of one collision for asteroids, read both ways round.
pub open spec fn asteroid_event(roster: Seq<Body>, event: Collision) -> Seq<Command> {
    asteroid_hit(roster, event.entity1, event.entity2) + asteroid_hit(
        roster,
        event.entity2,
        event.entity1,
    )
}

/// The consequences of a tick's collisions for asteroids, in the order of the
/// events.
pub open spec fn asteroid_batch(roster: Seq<Body>, events: Seq<Collision>) -> Seq<Command>
    decreases events.len(),
{
    if events.len() == 0 {
        Seq::empty()
    } else {
        asteroid_batch(roster, events.drop_last()) + asteroid_event(roster, events.last())
    }
}

fn react_asteroid(commands: &mut Vec<Command>, roster: &Vec<Body>, a: u64, b: u64)
    ensures
        final(commands)@ == old(commands)@ + asteroid_hit(roster@, a, b),
{
    let ghost before = commands@;
    match find_opposed(roster, a, b) {
        Some((x, y)) => {
            if x.species == Species::Asteroid && y.species == Species::Bullet {
                if x.fragments {
                    commands.push(
                        Command::SpawnChild { parent: x.entity, heading: CHILD_HEADING_LEFT },
                    );
                    commands.push(
                        Command::SpawnChild { parent: x.entity, heading: CHILD_HEADING_RIGHT },
                    );
                }
                commands.push(Command::Despawn(x.entity));
                commands.push(Command::Score);
            }
        },
        None => {},
    }
    assert(commands@ == before + asteroid_hit(roster@, a, b));
}

/// Reads the tick's collisions for asteroids that were shot: each asteroid
/// hit by a bullet of another team is removed and scores a point, and where
/// it is large enough it first leaves two children. Collisions that name an
/// unknown entity are passed over.
pub fn destroy_asteroids(events: &Vec<Collision>, roster: &Vec<Body>) -> (commands: Vec<Command>)
    ensures
        commands@ == asteroid_batch(roster@, events@),
{
    let mut commands: Vec<Command> = Vec::new();
    let mut i: usize = 0;
    while i < events.len()
        invariant
            i <= events.len(),
            commands@ == asteroid_batch(roster@, events@.take(i as int)),
        decreases events.len() - i,
    {
        let event = events[i];
        react_asteroid(&mut commands, roster, event.entity1, event.entity2);
        react_asteroid(&mut commands, roster, event.entity2, event.entity1);
        proof {
            let done = events@.take(i + 1);
            assert(done.drop_last() == events@.take(i as int));
            assert(done.last() == event);
        }
        i += 1;
    }
    assert(events@.take(events.len() as int) == events@);
    commands
}

/// Whether a collision is one between two different asteroids, which then
/// bounce off each other whatever their teams.
pub open spec fn bounces(roster: Seq<Body>, event: Collision) -> bool {
    &&& event.entity1 != event.entity2
    &&& lookup(roster, event.entity1) matches Some(x)
    &&& x.species == Species::Asteroid
    &&& lookup(roster, event.entity2) matches Some(y)
    &&& y.species == Species::Asteroid
}

/// Picks the collisions that make two asteroids bounce: the positions within
/// `events` of every collision between two different known asteroids, in
/// rising order.
pub fn bounce_asteroids(events: &Vec<Collision>, roster: &Vec<Body>) -> (picked: Vec<usize>)
    ensures
        forall|k: int|
            0 <= k < picked.len() ==> (#[trigger] picked[k]) < events.len() && bounces(
                roster@,
                events[picked[k] as int],
            ),
        forall|k: int, l: int| 0 <= k < l < picked.len() ==> picked[k] < picked[l],
        forall|i: int|
            0 <= i < events.len() && bounces(roster@, #[trigger] events[i]) ==> picked@.contains(
                i as usize,
            ),
{
    let mut picked: Vec<usize> = Vec::new();
    let mut i: usize = 0;
    while i < events.len()
        invariant
            i <= events.len(),
            forall|k: int|
                0 <= k < picked.len() ==> (#[trigger] picked[k]) < i && bounces(
                    roster@,
                    events[picked[k] as int],
                ),
            forall|k: int, l: int| 0 <= k < l < picked.len() ==> picked[k] < picked[l],
            forall|j: int|
                0 <= j < i && bounces(roster@, #[trigger] events[j]) ==> picked@.contains(
                    j as usize,
                ),
        decreases events.len() - i,
    {
        let event = events[i];
        let ghost before = picked@;
        let mut bounce = false;
        if event.entity1 != event.entity2 {
            match find(roster, event.entity1) {
                Some(x) => match find(roster, event.entity2) {
                    Some(y) => {
                        bounce = x.species == Species::Asteroid && y.species == Species::Asteroid;
                    },
                    None => {},
                },
                None => {},
            }
        }
        assert(bounce == bounces(roster@, event));
        if bounce {
            picked.push(i);
            assert(picked@.last() == i);
        }
        proof {
            assert forall|j: int|
                0 <= j < i + 1 && bounces(roster@, #[trigger] events[j]) implies picked@.contains(
                j as usize,
            ) by {
                if j < i {
                    let k = choose|k: int| 0 <= k < before.len() && before[k] == j as usize;
                    assert(picked@[k] == j as usize);
                } else {
                    assert(picked@[picked.len() - 1] == j as usize);
                }
            }
        }
        i += 1;
    }
    picked
}

/// Breaking an asteroid yields exactly two children, one heading as far to
/// the one side of the parent's path as the other does to the other side;
/// an asteroid too small to break yields none. Either way the asteroid is
/// removed once and one point is scored.
pub proof fn lemma_split_yields_two_children(roster: Seq<Body>, asteroid: u64, bullet: u64)
    requires
        opposed(roster, asteroid, bullet) matches Some((x, y)) && x.species == Species::Asteroid
            && y.species == Species::Bullet,
    ensures
        CHILD_HEADING_LEFT == -CHILD_HEADING_RIGHT,
        ({
            let parent = lookup(roster, asteroid).unwrap();
            let hit = asteroid_hit(roster, asteroid, bullet);
            if parent.fragments {
                hit == seq![
                    Command::SpawnChild { parent: asteroid, heading: CHILD_HEADING_LEFT },
                    Command::SpawnChild { parent: asteroid, heading: CHILD_HEADING_RIGHT },
                    Command::Despawn(asteroid),
                    Command::Score,
                ]
            } else {
                hit == seq![Command::Despawn(asteroid), Command::Score]
            }
        }),
{
    crate::bodies::lemma_lookup(roster, asteroid);
}

} // verus!
