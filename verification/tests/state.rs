use benilla::player::state::{autorun_cancelled, forward_axis, Player, PlayerRide};
use benilla::single::{origin, Single};

#[test]
fn the_axis_reproduces_the_verified_state_table() {
    assert_eq!(forward_axis(false, false, false, true), 1);
    assert_eq!(forward_axis(true, false, false, false), 1);
    assert_eq!(forward_axis(true, false, false, true), 2);
    assert_eq!(forward_axis(false, true, false, false), -1);
    assert_eq!(forward_axis(false, true, false, true), 0);
}

#[test]
fn the_two_orders_differ_and_only_one_resumes() {
    let mut autorun = true;
    if autorun_cancelled(false, true, false, false) {
        autorun = false;
    }
    assert_eq!(forward_axis(false, true, false, autorun), -1, "walks backward");
    assert_eq!(forward_axis(false, false, false, autorun), 0, "stops, does not resume");

    let autorun = true;
    assert!(!autorun_cancelled(false, false, false, false));
    assert_eq!(forward_axis(false, true, false, autorun), 0, "STOP with S still held");
    assert_eq!(forward_axis(false, false, false, autorun), 1, "resumes forward");
}

#[test]
fn both_button_run_shares_the_axis() {
    assert_eq!(forward_axis(false, false, true, false), 1);
    assert_eq!(forward_axis(false, true, true, false), 0, "S nets the both-button run to a stop");
    assert!(autorun_cancelled(false, false, true, false));
}

#[test]
fn a_jump_or_a_chat_line_is_not_in_the_cancel_set() {
    assert!(!autorun_cancelled(false, false, false, false));
    assert!(autorun_cancelled(false, false, false, true));
}

#[test]
fn a_player_knows_what_it_rides() {
    let mut player = Player::new();
    assert_eq!(player.riding(), None);
    assert!(!player.server_riding());
    assert_eq!(player.move_flags(), 0);
    assert_eq!(player.facing(), player.face.yaw);
    player.ride = Some(PlayerRide {
        entity: 1,
        guid: 77,
        local_pos: origin(),
        boat_yaw: Single::from_bits(0),
    });
    assert_eq!(player.riding(), Some(77));
}
