use asteroids::schedule::InGameSet;
use asteroids::score::{reset_score, update_score, Score, Scored};
use asteroids::states::{pause_system, GameState};

#[test]
fn a_new_game_is_running() {
    assert_eq!(GameState::default(), GameState::InGame);
}

#[test]
fn the_pause_key_toggles_a_running_game() {
    assert_eq!(pause_system(GameState::InGame, true), Some(GameState::Paused));
    assert_eq!(pause_system(GameState::Paused, true), Some(GameState::InGame));
    assert_eq!(pause_system(GameState::GameOver, true), None);
}

#[test]
fn without_the_pause_key_the_state_stays() {
    assert_eq!(pause_system(GameState::InGame, false), None);
    assert_eq!(pause_system(GameState::Paused, false), None);
    assert_eq!(pause_system(GameState::GameOver, false), None);
}

#[test]
fn pausing_twice_resumes() {
    for state in [GameState::InGame, GameState::Paused] {
        let paused = pause_system(state, true).unwrap();
        assert_eq!(pause_system(paused, true), Some(state));
    }
}

#[test]
fn every_scored_event_counts_one_point() {
    let mut score = Score::default();
    assert_eq!(score.score, 0);
    update_score(&mut score, &vec![Scored, Scored, Scored]);
    assert_eq!(score.score, 3);
    update_score(&mut score, &Vec::new());
    assert_eq!(score.score, 3);
    update_score(&mut score, &vec![Scored]);
    assert_eq!(score.score, 4);
}

#[test]
fn the_score_can_reach_its_ceiling() {
    let mut score = Score { score: u16::MAX - 2 };
    update_score(&mut score, &vec![Scored, Scored]);
    assert_eq!(score.score, u16::MAX);
}

#[test]
fn a_finished_round_resets_the_score() {
    let mut score = Score { score: 41 };
    reset_score(&mut score);
    assert_eq!(score, Score { score: 0 });
}

#[test]
fn stages_run_from_removal_to_detection() {
    assert_eq!(
        InGameSet::chain(),
        vec![
            InGameSet::DespawnEntities,
            InGameSet::GameInput,
            InGameSet::EntityUpdates,
            InGameSet::RenderSetup,
            InGameSet::CollisionDetection,
        ]
    );
}
