use asteroids::bodies::TimeStamp;
use asteroids::bullet::{destroy_bullets, Shot};
use asteroids::control::Pawn;
use asteroids::control_ship::Shoot;
use asteroids::input::{handle_player_input, Keys, Steering, SHOT_SPACING};
use asteroids::ship::{shoot, standing_order, Gun};

const MILLI: u128 = 1_000_000;

fn at_millis(millis: u128) -> TimeStamp {
    TimeStamp(millis * MILLI)
}

#[test]
fn age_must_exceed_the_limit() {
    let start = at_millis(100);
    assert!(!start.is_older_than(at_millis(600), 500));
    assert!(start.is_older_than(TimeStamp(600 * MILLI + 1), 500));
    assert!(!start.is_older_than(TimeStamp(600 * MILLI - 1), 500));
    assert!(start.is_older_than(at_millis(101), 0));
    assert!(!start.is_older_than(at_millis(100), 0));
}

#[test]
fn an_instant_yet_to_come_has_not_aged() {
    assert!(!at_millis(100).is_older_than(at_millis(50), 0));
    assert!(!TimeStamp(u128::MAX).is_older_than(TimeStamp(0), 0));
}

#[test]
fn the_longest_limit_does_not_overflow() {
    assert!(!TimeStamp(0).is_older_than(TimeStamp(u64::MAX as u128 * MILLI), u64::MAX));
    assert!(TimeStamp(0).is_older_than(TimeStamp(u64::MAX as u128 * MILLI + 1), u64::MAX));
    assert!(TimeStamp(0).is_older_than(TimeStamp(u128::MAX), u64::MAX));
}

#[test]
fn bullets_are_removed_once_their_lifetime_is_over() {
    let bullets = vec![
        Shot { entity: 10, spawn_time: at_millis(0) },
        Shot { entity: 11, spawn_time: at_millis(500) },
        Shot { entity: 12, spawn_time: at_millis(499) },
        Shot { entity: 13, spawn_time: at_millis(1200) },
        Shot { entity: 14, spawn_time: at_millis(100) },
    ];
    assert_eq!(destroy_bullets(&bullets, at_millis(1000), 500), vec![10u64, 12, 14]);
    assert_eq!(destroy_bullets(&bullets, at_millis(400), 500), Vec::<u64>::new());
    assert_eq!(destroy_bullets(&Vec::new(), at_millis(1000), 500), Vec::<u64>::new());
}

fn gun(controller: u64, last_shot: TimeStamp) -> Gun {
    Gun { pawn: Pawn { controller }, last_shot }
}

#[test]
fn rested_guns_of_the_controller_fire() {
    let mut guns = vec![
        gun(1, at_millis(0)),
        gun(2, at_millis(0)),
        gun(1, at_millis(900)),
        gun(1, at_millis(749)),
    ];
    let fired = shoot(&Shoot { controller: 1 }, &mut guns, at_millis(1000), 250);
    assert_eq!(fired, vec![0usize, 3]);
    assert_eq!(
        guns,
        vec![
            gun(1, at_millis(1000)),
            gun(2, at_millis(0)),
            gun(1, at_millis(900)),
            gun(1, at_millis(1000)),
        ]
    );
}

#[test]
fn asking_twice_in_one_tick_fires_once() {
    let mut guns = vec![gun(1, at_millis(0))];
    let now = at_millis(1000);
    assert_eq!(shoot(&Shoot { controller: 1 }, &mut guns, now, 0), vec![0usize]);
    assert_eq!(shoot(&Shoot { controller: 1 }, &mut guns, now, 0), Vec::<usize>::new());
    assert_eq!(guns, vec![gun(1, now)]);
}

#[test]
fn a_gun_that_rested_exactly_the_delay_stays_silent() {
    let mut guns = vec![gun(1, at_millis(750))];
    assert_eq!(shoot(&Shoot { controller: 1 }, &mut guns, at_millis(1000), 250), Vec::<usize>::new());
    assert_eq!(guns, vec![gun(1, at_millis(750))]);
}

#[test]
fn no_gun_answers_a_stranger() {
    let mut guns = vec![gun(1, at_millis(0)), gun(2, at_millis(0))];
    assert_eq!(shoot(&Shoot { controller: 3 }, &mut guns, at_millis(1000), 250), Vec::<usize>::new());
    assert_eq!(guns, vec![gun(1, at_millis(0)), gun(2, at_millis(0))]);
    let mut none: Vec<Gun> = Vec::new();
    assert_eq!(shoot(&Shoot { controller: 3 }, &mut none, at_millis(1000), 250), Vec::<usize>::new());
}

#[test]
fn a_pawn_obeys_the_last_order_of_its_controller() {
    let orders = vec![7, 8, 7, 9];
    assert_eq!(standing_order(&orders, &Pawn { controller: 7 }), Some(2));
    assert_eq!(standing_order(&orders, &Pawn { controller: 8 }), Some(1));
    assert_eq!(standing_order(&orders, &Pawn { controller: 9 }), Some(3));
    assert_eq!(standing_order(&orders, &Pawn { controller: 1 }), None);
    assert_eq!(standing_order(&Vec::new(), &Pawn { controller: 7 }), None);
}

fn keys(up: bool, down: bool, left: bool, right: bool, fire: bool) -> Keys {
    Keys { up, down, left, right, fire }
}

#[test]
fn keys_steer_the_ship() {
    let now = at_millis(0);
    let mut last_shot = at_millis(0);
    let idle = Steering { thrust: 0, turn: 0, fire: false };
    let cases = [
        (keys(false, false, false, false, false), idle),
        (keys(true, false, false, false, false), Steering { thrust: 1, ..idle }),
        (keys(false, true, false, false, false), Steering { thrust: -1, ..idle }),
        (keys(true, true, false, false, false), Steering { thrust: 1, ..idle }),
        (keys(false, false, true, false, false), Steering { turn: 1, ..idle }),
        (keys(false, false, false, true, false), Steering { turn: -1, ..idle }),
        (keys(false, false, true, true, false), Steering { turn: -1, ..idle }),
        (keys(true, false, false, true, false), Steering { thrust: 1, turn: -1, fire: false }),
    ];
    for (held, expected) in cases {
        assert_eq!(handle_player_input(&held, now, &mut last_shot), expected);
        assert_eq!(last_shot, at_millis(0));
    }
}

#[test]
fn the_fire_key_respects_the_shot_spacing() {
    assert_eq!(SHOT_SPACING, 350);
    let fire = keys(false, false, false, false, true);
    let mut last_shot = at_millis(0);

    assert!(!handle_player_input(&fire, at_millis(350), &mut last_shot).fire);
    assert_eq!(last_shot, at_millis(0));

    let first = TimeStamp(350 * MILLI + 1);
    assert!(handle_player_input(&fire, first, &mut last_shot).fire);
    assert_eq!(last_shot, first);

    assert!(!handle_player_input(&fire, at_millis(700), &mut last_shot).fire);
    assert_eq!(last_shot, first);

    assert!(handle_player_input(&fire, at_millis(701), &mut last_shot).fire);
    assert_eq!(last_shot, at_millis(701));
}

#[test]
fn without_the_fire_key_nothing_is_fired() {
    let mut last_shot = at_millis(0);
    let steering =
        handle_player_input(&keys(true, false, false, false, false), at_millis(5000), &mut last_shot);
    assert!(!steering.fire);
    assert_eq!(last_shot, at_millis(0));
}
