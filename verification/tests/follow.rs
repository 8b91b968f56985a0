use benilla::player::control::{no_keys, steer, Buttons, Keys};
use benilla::player::follow::{
    in_deadzone, should_move, steer_follow, FollowState, FollowStep, Sighting,
};
use benilla::player::state::Player;
use benilla::single::Single;

fn s(x: f32) -> Single {
    Single::from_bits(x.to_bits())
}

/// The band at normal speed: three yards and four and a half.
fn moves(was_moving: bool, distance: f32) -> bool {
    should_move(was_moving, s(distance), s(3.0), s(4.5))
}

#[test]
fn the_hysteresis_band_latches_on_both_edges() {
    assert!(moves(true, 3.001));
    assert!(!moves(true, 3.0), "arrive is inclusive");
    assert!(!moves(false, 4.0));
    assert!(moves(false, 4.5));
}

#[test]
fn the_gap_is_dead_in_both_directions() {
    for d in [3.001_f32, 3.5, 4.0, 4.499] {
        assert!(moves(true, d));
        assert!(!moves(false, d));
    }
}

#[test]
fn small_turns_are_not_made() {
    assert!(in_deadzone(s(0.0005)));
    assert!(in_deadzone(s(-0.0005)));
    assert!(!in_deadzone(s(0.002)));
}

fn seen(distance: f32, off_bearing: f32) -> Option<Sighting> {
    Some(Sighting {
        distance: s(distance),
        off_bearing: s(off_bearing),
        arrive: s(3.0),
        resume: s(4.5),
    })
}

#[test]
fn a_follow_runs_stops_and_resumes() {
    let mut state = FollowState::new();
    let mut player = Player::new();
    assert_eq!(steer_follow(&mut state, &mut player, seen(10.0, 0.0)), FollowStep::Idle);
    state.start(7);
    assert_eq!(state.guid, Some(7));
    assert_eq!(steer_follow(&mut state, &mut player, seen(10.0, 0.0)), FollowStep::Steer { forward: true });
    assert_eq!(steer_follow(&mut state, &mut player, seen(3.0, 0.0)), FollowStep::Steer { forward: false });
    assert_eq!(steer_follow(&mut state, &mut player, seen(4.0, 0.0)), FollowStep::Steer { forward: false });
    assert_eq!(steer_follow(&mut state, &mut player, seen(4.5, 0.0)), FollowStep::Steer { forward: true });
    assert!(state.stop());
    assert!(!state.stop());
    assert_eq!(state, FollowState::new());
}

#[test]
fn a_follow_ends_when_its_unit_is_gone() {
    let mut state = FollowState::new();
    let mut player = Player::new();
    state.start(7);
    assert_eq!(steer_follow(&mut state, &mut player, None), FollowStep::Ended);
    assert_eq!(state.guid, None);
}

#[test]
fn turning_away_ends_a_follow_that_had_lined_up() {
    let mut state = FollowState::new();
    let mut player = Player::new();
    state.start(7);
    // Behind us at the start: the follow turns round.
    assert_eq!(steer_follow(&mut state, &mut player, seen(10.0, 3.1)), FollowStep::Steer { forward: true });
    assert_eq!(steer_follow(&mut state, &mut player, seen(10.0, 0.0)), FollowStep::Steer { forward: true });
    assert!(state.aligned);
    assert_eq!(steer_follow(&mut state, &mut player, seen(10.0, 3.1)), FollowStep::Ended);
}

const NO_BUTTONS: Buttons = Buttons {
    left: false,
    right: false,
    left_down: false,
    right_down: false,
    autorun_down: false,
    look_right: false,
};

#[test]
fn a_follow_holds_forward_in_the_frame_after_its_tick() {
    let mut state = FollowState::new();
    let mut player = Player { active: true, ..Player::new() };
    state.start(7);
    steer_follow(&mut state, &mut player, seen(10.0, 0.0));
    assert!(player.follow_forward);
    let run = steer(&mut player, no_keys(), NO_BUTTONS);
    assert_eq!((run.axis, run.along, run.moving), (1, 1, true));
    steer_follow(&mut state, &mut player, seen(3.0, 0.0));
    assert!(!player.follow_forward);
    let stand = steer(&mut player, no_keys(), NO_BUTTONS);
    assert_eq!((stand.axis, stand.along, stand.moving), (0, 0, false));
}

#[test]
fn forward_is_let_go_when_a_follow_ends() {
    let mut state = FollowState::new();
    let mut player = Player::new();
    state.start(7);
    steer_follow(&mut state, &mut player, seen(10.0, 0.0));
    assert!(player.follow_forward);
    assert_eq!(steer_follow(&mut state, &mut player, None), FollowStep::Ended);
    assert!(!player.follow_forward);
    // On top of the followee nothing is held either.
    state.start(7);
    player.follow_forward = true;
    assert_eq!(steer_follow(&mut state, &mut player, seen(0.0, 0.0)), FollowStep::Idle);
    assert!(!player.follow_forward);
}

#[test]
fn a_follow_pulls_like_the_forward_key() {
    let mut followed = Player { active: true, follow_forward: true, ..Player::new() };
    let mut keyed = Player { active: true, ..Player::new() };
    for back in [false, true] {
        let keys = Keys { back, ..no_keys() };
        let held = Keys { forward: true, ..keys };
        assert_eq!(steer(&mut followed, keys, NO_BUTTONS), steer(&mut keyed, held, NO_BUTTONS));
    }
}
