use benilla::player::mover::Probe;
use benilla::player::state::Player;
use benilla::player::swim::{
    cap_bites, finish_breach, finish_swim, launch_breach, update_swimming, SWIM_ENTER_DEPTH,
    SWIM_EXIT_DEPTH, SWIM_JUMP_SPEED,
};
use benilla::single::{origin, Point, Single};

fn s(x: f32) -> Single {
    Single::from_bits(x.to_bits())
}

const GRAVITY: f32 = 19.291_105;
const CAPSULE_HEIGHT: f32 = 2.027_777_7;

fn enter() -> f32 {
    f32::from_bits(SWIM_ENTER_DEPTH)
}

fn exit() -> f32 {
    f32::from_bits(SWIM_EXIT_DEPTH)
}

fn half_decay() -> f32 {
    f32::from_bits(SWIM_JUMP_SPEED) / (2.0 * GRAVITY)
}

fn update(player: &mut Player, depth: Option<f32>, airborne_for: f32) -> bool {
    update_swimming(player, depth.map(s), s(airborne_for), s(half_decay()))
}

#[test]
fn swim_entry_and_exit_hysteresis() {
    assert!((enter() - exit() - 1.0 / 36.0).abs() < 1e-6);
    assert!((enter() - 0.75 * CAPSULE_HEIGHT).abs() < 1e-6);

    let mut p = Player::new();
    let mid_band = (enter() + exit()) * 0.5;
    assert!(
        !update(&mut p, Some(enter()), 0.0),
        "exactly at the enter depth does not yet swim (strict >)"
    );
    assert!(
        !update(&mut p, Some(mid_band), 0.0),
        "a depth in the band, entered from walking, stays walking"
    );
    assert!(update(&mut p, Some(enter() + 0.01), 0.0), "past the enter depth starts swimming");
    assert!(
        update(&mut p, Some(mid_band), 0.0),
        "the same in-band depth, now entered from swimming, keeps swimming (hysteresis)"
    );
    assert!(
        !update(&mut p, Some(exit() - 0.01), 0.0),
        "dropping below the leave threshold returns to walking"
    );
    assert!(update(&mut p, Some(enter() + 0.5), 0.0));
    assert!(
        !update(&mut p, None, 0.0),
        "no liquid over the feet stops swimming (the binary's inLiquid == 0 → STOP)"
    );
}

#[test]
fn latching_swim_ends_the_settle_hold() {
    let mut p = Player::new();
    p.settling = true;
    assert!(update(&mut p, Some(enter() + 1.0), 0.0));
    assert!(!p.settling, "the water is the support settling waited for");

    let mut wading = Player::new();
    wading.settling = true;
    assert!(!update(&mut wading, Some(exit() - 0.5), 0.0));
    assert!(wading.settling, "wading depth leaves the hold to the walk gate");

    let mut dry = Player::new();
    dry.settling = true;
    assert!(!update(&mut dry, None, 0.0));
    assert!(dry.settling, "no liquid leaves the hold to the walk gate");
}

#[test]
fn the_hop_relatches_at_half_launch_velocity() {
    let jump = f32::from_bits(SWIM_JUMP_SPEED);
    let deep = Some(enter() + 1.0);
    let mut p = Player::new();
    p.airborne_since = Some(s(0.0));
    p.jump_zspeed = s(jump);
    p.vel_y = s(jump);
    assert!(
        !update(&mut p, deep, half_decay() * 0.5),
        "young launch, still fast — the hop keeps rising"
    );
    p.vel_y = s(jump * 0.49);
    assert!(
        update(&mut p, deep, half_decay() + 1e-3),
        "velocity decayed to half — swim re-latches while STILL rising (the ~1.6 yd hop top)"
    );
    let mut q = Player::new();
    q.airborne_since = Some(s(0.0));
    q.jump_zspeed = s(jump);
    q.vel_y = s(-0.1);
    assert!(
        update(&mut q, deep, 0.01),
        "descending into depth enters swim — only a rising launch is guarded"
    );
}

/// A stroke under a cap on its rise: the speed is kept, and the pitch is the one that is shown.
fn redirect(v: [f32; 3], cap: f32) -> ([f32; 3], Option<f32>) {
    if !cap_bites(s(v[1]), s(cap)) {
        return (v, None);
    }
    let speed = (v[0] * v[0] + v[1] * v[1] + v[2] * v[2]).sqrt();
    let level = (v[0] * v[0] + v[2] * v[2]).sqrt();
    let rise = cap.max(0.0).min(speed);
    let run = (speed * speed - rise * rise).sqrt();
    ([v[0] / level * run, rise, v[2] / level * run], Some(rise.atan2(run)))
}

#[test]
fn the_rest_line_redirects_the_stroke_level_at_full_speed() {
    let len = |v: [f32; 3]| (v[0] * v[0] + v[1] * v[1] + v[2] * v[2]).sqrt();
    let free = [0.1, 3.0, 0.2];
    assert_eq!(redirect(free, 100.0), (free, None));
    assert_eq!(redirect(free, f32::INFINITY), (free, None));
    let dive = [1.0, -2.0, 0.0];
    assert_eq!(redirect(dive, 0.0), (dive, None));

    let steep = [0.08, 4.72, 0.0];
    let (vel, pitch) = redirect(steep, 0.0);
    assert!((len(vel) - len(steep)).abs() < 1e-4, "speed kept");
    assert_eq!(vel[1], 0.0, "level at the line");
    assert!(vel[0] > 4.7, "the whole speed went forward");
    assert_eq!(pitch, Some(0.0), "the presented pitch levels out");

    let (vel2, pitch2) = redirect(steep, 2.0);
    assert!((len(vel2) - len(steep)).abs() < 1e-4);
    assert_eq!(vel2[1], 2.0);
    let aim = steep[1].atan2(steep[0]);
    let eased = pitch2.expect("the cap bit");
    assert!(eased > 0.0 && eased < aim, "between level and the raw aim");
}

#[test]
fn a_breach_leaves_the_water_at_the_jump_speed() {
    let mut p = Player::new();
    launch_breach(&mut p);
    assert_eq!(p.vel_y, Single::from_bits(SWIM_JUMP_SPEED));
    let feet = Point { x: s(1.0), y: s(2.0), z: s(3.0) };
    let outcome = finish_breach(&mut p, feet);
    assert!(outcome.jumped && !outcome.grounded);
    assert_eq!(p.pos, feet);
}

#[test]
fn a_swimmer_has_no_fall_of_its_own() {
    let mut p = Player::new();
    p.vel_y = s(3.0);
    let floor = Some(Probe { entity: 4, normal_y: s(1.0), distance: s(0.1) });
    let outcome = finish_swim(&mut p, origin(), Point { x: s(1.0), y: s(0.0), z: s(0.0) }, floor);
    assert_eq!(p.vel_y, s(0.0));
    assert!(!outcome.jumped);
}
