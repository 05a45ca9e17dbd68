//! The rules of an Asteroids game, apart from its arithmetic on positions
//! and velocities: which collisions destroy what, when guns may fire and
//! bullets expire, how the player's keys steer the ship, how the score and
//! the game's phases change, and how the triangles of an asteroid's outline
//! are laid out. The game loop hands in what it sees of the world as plain
//! values and carries out the commands it gets back.

pub mod asteroid;
pub mod bodies;
pub mod bullet;
pub mod control;
pub mod control_ship;
pub mod input;
pub mod reaction;
pub mod schedule;
pub mod score;
pub mod ship;
pub mod states;
