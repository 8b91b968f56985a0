use benilla::particles::cloud::{frame_step, ChildCloud, Cloud, CloudFrame, CloudTick};
use benilla::particles::emission::{accumulate_emission, births, Load, ParticleTuning, MAX_PARTICLES};
use benilla::particles::emitter::{
    spawn_emitter, wire_child_emitters, ChildEmitter, EmitterDef, ParticleEmitter, Visibility,
    MAX_CHILDREN,
};
use benilla::particles::material::{
    key_of, particle_material, specialize, AlphaMode, BlendFactor, FogPolicy, ParticleBlend,
};
use benilla::particles::quads::{
    atlas_cell, corners, expand_quads, is_dark, parts_of, quad_indices, spin_angle, twinkle_index,
    twinkle_table, CloudPlan, Mote, QuadPlan, QuadShape, TWINKLE_LEN,
};
use benilla::particles::rng::{child_seed_start, next_seed, next_u24, next_u32, seed_at};
use benilla::particles::sim::{
    booth_camera, camera_seeing, dies_outbound, draws_quads, inherit_trigger, step_particle, sweep,
    tick_emitter, AnchorRule, Inherit, Layers, Sight, Tick,
};
use benilla::single::{Point, Single};

fn s(x: f32) -> Single {
    Single::from_bits(x.to_bits())
}

fn f(x: Single) -> f32 {
    f32::from_bits(x.bits)
}

/// What is owed after a frame that loads `load`, at a rate and a scale.
fn owed(load: Load, acc: f32, rate: f32, scale: f32, dt: f32) -> f32 {
    match load {
        Load::Keep => acc,
        Load::Drop => 0.0,
        Load::Burst => (rate * scale).trunc(),
        Load::Pour => acc + rate * scale * dt,
    }
}

/// A track that holds each key until the next.
fn stepped(t: f32) -> f32 {
    if t < 67.0 {
        0.0
    } else {
        30.0
    }
}

#[test]
fn burst_emitter_fires_once_on_the_rising_edge() {
    let mut prev = false;
    let mut frame = |t: f32, emitting: bool, scale: f32, acc: f32| {
        let load = accumulate_emission(true, emitting, s(stepped(t)), &mut prev);
        owed(load, acc, stepped(t), scale, 0.016)
    };
    let mut acc = frame(50.0, true, 1.0, 0.0);
    assert_eq!(acc, 0.0, "step-sampled rate is 0 before the 67 ms key — no gate, no burst");
    acc = frame(70.0, true, 1.0, acc);
    assert_eq!(acc, 30.0, "the frame the sample steps to 30: one full-count burst");
    acc = frame(500.0, true, 1.0, 0.0);
    acc = frame(1500.0, true, 1.0, acc);
    assert_eq!(acc, 0.0, "held-high gate stays latched — never a pour");
    acc = frame(1600.0, false, 1.0, acc);
    assert_eq!(frame(70.0, true, 0.55, acc), 16.0, "ftol(30 · 0.55) = 16");
}

#[test]
fn continuous_emitter_pours_rate_dt() {
    let mut prev = false;
    let mut frame = |t: f32, emitting: bool, acc: f32| {
        let load = accumulate_emission(false, emitting, s(stepped(t)), &mut prev);
        owed(load, acc, stepped(t), 1.0, 0.1)
    };
    let mut acc = frame(100.0, true, 0.0);
    acc = frame(200.0, true, acc);
    assert!((acc - 6.0).abs() < 1e-4, "30/s × 0.2 s, no burst latch");
    acc = frame(300.0, false, acc);
    assert_eq!(acc, 0.0, "disabled zeroes the owed fraction");
}

#[test]
fn continuous_lerp_ramp_pours_the_interpolated_rate() {
    let ramp = |t: f32| {
        if t < 100.0 {
            t
        } else if t < 200.0 {
            200.0 - t
        } else {
            0.0
        }
    };
    let mut prev = false;
    let mut frame = |t: f32, acc: f32| {
        let load = accumulate_emission(false, true, s(ramp(t)), &mut prev);
        owed(load, acc, ramp(t), 1.0, 0.1)
    };
    let mut acc = frame(50.0, 0.0);
    assert!((acc - 5.0).abs() < 1e-4, "rising mid-ramp: 50/s × 0.1 s");
    acc = frame(150.0, acc);
    assert!((acc - 10.0).abs() < 1e-4, "falling mid-ramp: 50/s again");
    acc = frame(500.0, acc);
    assert!((acc - 10.0).abs() < 1e-4, "held last key 0: the ramp self-closes");
}

#[test]
fn births_stop_at_the_pool() {
    assert_eq!(births(5, 0), 5);
    assert_eq!(births(5, MAX_PARTICLES - 2), 2);
    assert_eq!(births(5, MAX_PARTICLES), 0);
    assert_eq!(births(u64::MAX, 0), MAX_PARTICLES);
}

#[test]
fn density_is_clamped() {
    assert_eq!(f(ParticleTuning::new().applied()), 1.0);
    assert_eq!(f(ParticleTuning { density: s(0.1) }.applied()), 0.25);
    assert_eq!(f(ParticleTuning { density: s(0.5) }.applied()), 0.5);
    assert_eq!(f(ParticleTuning { density: s(3.0) }.applied()), 1.0);
}

#[test]
fn negative_spin_counter_rotates_the_bit5_half() {
    assert_eq!(f(spin_angle(s(-3.0 * 0.5), 0x20)), 1.5, "bit 5 set: negated");
    assert_eq!(f(spin_angle(s(-3.0 * 0.5), 0x1f)), -1.5, "bit 5 clear: kept");
    assert_eq!(f(spin_angle(s(3.0 * 0.5), 0x20)), 1.5, "positive spin: never negated");
    assert_eq!(f(spin_angle(s(3.0 * 0.5), 0x1f)), 1.5);
    assert_eq!(f(spin_angle(s(0.0 * 0.5), 0xff)), 0.0);
}

/// One step of 0.1 s, away from an origin where there is one.
fn step_out(pos: &mut [f32; 3], v: [f32; 3], origin: Option<[f32; 3]>) -> bool {
    let mut fresh = false;
    let step = step_particle(&mut fresh, s(0.0), s(10.0), s(0.0), s(0.0));
    assert!(step.is_some());
    for i in 0..3 {
        pos[i] += v[i] * 0.1;
    }
    let outward = origin.map(|o| (0..3).map(|i| v[i] * (pos[i] - o[i])).sum::<f32>());
    !dies_outbound(outward.map(s))
}

#[test]
fn kill_outbound_dies_at_the_centre_crossing() {
    let (centre, inward) = (Some([0.0; 3]), [-2.0, 0.0, 0.0]);
    let mut p = [0.5, 0.0, 0.0];
    assert!(step_out(&mut p, inward, centre), "0.3 yd out, inbound");
    assert!(step_out(&mut p, inward, centre), "0.1 yd out, inbound");
    assert!(
        !step_out(&mut p, inward, centre),
        "crossed to −0.1 yd: motion now points away — dead"
    );
    let mut free = [0.5, 0.0, 0.0];
    for _ in 0..5 {
        assert!(step_out(&mut free, inward, None));
    }
    let mut out = [0.5, 0.0, 0.0];
    assert!(!step_out(&mut out, [1.0, 0.0, 0.0], centre));
    // Past an origin off the axis, the crossing is where the motion turns away from it.
    let aside = Some([0.0, 1.0, 1.0]);
    let mut q = [0.3, 0.0, 0.0];
    assert!(step_out(&mut q, inward, aside));
    assert!(!step_out(&mut q, inward, aside));
}

#[test]
fn follow_delta_skips_only_the_first_integrate() {
    let mut fresh = true;
    let mut x = 0.0;
    let mut go = |fresh: &mut bool| {
        let step = step_particle(fresh, s(0.0), s(10.0), s(0.0), s(0.0)).expect("it lives");
        if step.follow {
            x += 0.5;
        }
        x
    };
    assert_eq!(go(&mut fresh), 0.0, "first integrate: fresh bit eaten, no add");
    assert_eq!(go(&mut fresh), 0.5, "second integrate: the shared delta applies");
}

#[test]
fn inherit_trigger_fires_at_thirty_hertz_with_the_exact_factor() {
    let (mut accum, mut held) = (0.0_f32, 0.0_f32);
    let mut frame = |dt: f32, delta: f32, live: bool| {
        accum += dt;
        match inherit_trigger(s(accum), live) {
            Inherit::Hold => {}
            Inherit::Read => {
                held = delta * ((1.0 / 30.0) / accum) * 6.0;
                accum = 0.0;
            }
            Inherit::Clear => {
                held = 0.0;
                accum = 0.0;
            }
        }
        (accum, held)
    };
    assert_eq!(frame(0.02, 0.1, true).1, 0.0, "0.02 s accumulated: below the 1/30 window");
    let (accum, held) = frame(0.02, 0.1, true);
    assert!((held - 0.5).abs() < 1e-4, "the (1/30)/accum·scale factor");
    assert_eq!(accum, 0.0, "trigger resets the accumulator");
    let (_, held) = frame(0.02, 0.0, true);
    assert!((held - 0.5).abs() < 1e-4, "held between triggers");
    assert_eq!(frame(0.04, 0.1, false).1, 0.0);
}

#[test]
fn a_particle_ends_at_its_span_and_keeps_its_fresh_bit_then() {
    let mut fresh = true;
    assert!(step_particle(&mut fresh, s(2.0), s(2.0), s(0.0), s(0.0)).is_none());
    assert!(fresh);
    let step = step_particle(&mut fresh, s(1.9), s(2.0), s(0.5), s(0.1)).expect("it lives");
    assert!(step.tumble && step.slow && !step.follow);
    let calm = step_particle(&mut fresh, s(1.9), s(2.0), s(0.00001), s(-0.0)).expect("it lives");
    assert!(!calm.tumble && !calm.slow && calm.follow);
}

#[test]
fn a_sweep_keeps_the_living_in_order() {
    assert_eq!(sweep(vec!['a', 'b', 'c', 'd'], &vec![true, false, false, true]), vec!['a', 'd']);
    assert_eq!(sweep(Vec::<u8>::new(), &Vec::new()), Vec::<u8>::new());
}

fn emitter(owner: Option<u64>) -> ParticleEmitter {
    let def = EmitterDef { textured: true, geometry: false, lifespan: s(1.0), peak_rate: s(10.0) };
    let place = Point { x: s(1.0), y: s(2.0), z: s(3.0) };
    spawn_emitter(&def, false, place, owner, None, None).expect("it spawns")
}

#[test]
fn an_emitter_spawns_only_with_something_to_emit() {
    let place = Point { x: s(0.0), y: s(0.0), z: s(0.0) };
    let def = |textured, geometry, lifespan: f32, rate: f32| EmitterDef {
        textured,
        geometry,
        lifespan: s(lifespan),
        peak_rate: s(rate),
    };
    let spawn = |d: EmitterDef, off| spawn_emitter(&d, off, place, Some(7), None, None);
    assert!(spawn(def(true, false, 1.0, 1.0), false).is_some());
    assert!(spawn(def(true, false, 1.0, 1.0), true).is_none());
    assert!(spawn(def(false, false, 1.0, 1.0), false).is_none());
    assert!(spawn(def(true, false, 0.0, 1.0), false).is_none());
    assert!(spawn(def(true, false, 1.0, 0.0), false).is_none());
    // At the origin the seed is still alive.
    let e = spawn(def(true, false, 1.0, 1.0), false).expect("it spawns");
    assert_eq!(e.rng & 1, 1);
    assert_eq!(e.owner, Some(7));
    assert!(!e.draining && !e.gate_prev);
}

#[test]
fn children_are_few_and_their_seeds_alive() {
    let def = || EmitterDef { textured: true, geometry: false, lifespan: s(1.0), peak_rate: s(1.0) };
    let defs: Vec<EmitterDef> = (0..6).map(|_| def()).collect();
    let children = wire_child_emitters(5, &defs);
    assert_eq!(children.len(), MAX_CHILDREN);
    for (i, child) in children.iter().enumerate() {
        assert_eq!(child.index, i);
        assert_ne!(child.rng, 0);
    }
    assert_ne!(children[0].rng, children[1].rng);
}

#[test]
fn the_generator_is_the_shift_register() {
    let mut state: u32 = 1;
    // x ^= x << 13; x ^= x >> 17; x ^= x << 5, from 1.
    assert_eq!(next_u32(&mut state), 270_369);
    assert_eq!(state, 270_369);
    assert_eq!(next_u32(&mut state), 67_634_689);
    let mut a: u32 = 12345;
    let mut b: u32 = 12345;
    assert_eq!(next_u24(&mut a), next_u32(&mut b) >> 8);
}

#[test]
fn seeds_are_odd() {
    let seed = seed_at(Point { x: s(1.5), y: s(-2.0), z: s(0.0) });
    assert_eq!(seed & 1, 1);
    assert_eq!(seed_at(Point { x: s(0.0), y: s(0.0), z: s(0.0) }) & 1, 1);
    let first = child_seed_start(seed);
    assert_eq!(next_seed(first), next_seed(first));
    assert_ne!(next_seed(first), first);
}

fn sight() -> Sight {
    Sight { prop_drawn: None, booth: false, owner_found: true, within_wall: true }
}

#[test]
fn an_orphan_drains_until_it_is_empty() {
    let mut e = emitter(Some(4));
    let gone = Sight { owner_found: false, ..sight() };
    assert_eq!(
        tick_emitter(&mut e, gone, true, true),
        Tick::Run { emitting: false, anchor: AnchorRule::Placement }
    );
    assert!(e.draining);
    assert_eq!(e.owner, None);
    assert_eq!(tick_emitter(&mut e, sight(), false, true), Tick::Despawn);
}

#[test]
fn an_emitter_beyond_the_wall_stands_still() {
    let mut e = emitter(Some(4));
    let far = Sight { within_wall: false, ..sight() };
    assert_eq!(tick_emitter(&mut e, far, true, true), Tick::Frozen { hide: true });
    assert_eq!(e.visibility, Visibility::Hidden);
    assert_eq!(tick_emitter(&mut e, far, true, true), Tick::Frozen { hide: false });
    assert_eq!(
        tick_emitter(&mut e, sight(), true, true),
        Tick::Run { emitting: true, anchor: AnchorRule::Stand }
    );
    assert_eq!(e.visibility, Visibility::Inherited);
    // A booth scene always runs.
    let booth = Sight { booth: true, ..far };
    assert_eq!(
        tick_emitter(&mut e, booth, true, false),
        Tick::Run { emitting: false, anchor: AnchorRule::Stand }
    );
    // A prop's emitter goes by its prop alone.
    let culled = Sight { prop_drawn: Some(false), ..booth };
    assert_eq!(tick_emitter(&mut e, culled, true, true), Tick::Frozen { hide: true });
}

fn on(layers: &[u32]) -> Layers {
    Layers { layers: layers.to_vec() }
}

#[test]
fn a_booth_emitter_faces_its_own_camera() {
    let world = on(&[0]);
    let cameras = vec![on(&[2]), on(&[3, 4]), on(&[4])];
    assert_eq!(booth_camera(Some(&on(&[4])), &world, &cameras), Some(1));
    assert_eq!(booth_camera(Some(&on(&[0, 4])), &world, &cameras), None);
    assert_eq!(booth_camera(Some(&on(&[9])), &world, &cameras), None);
    assert_eq!(booth_camera(None, &world, &cameras), None);
    assert_eq!(camera_seeing(&on(&[2]), &cameras), Some(0));
    assert!(cameras[1].has_layer(3) && !cameras[1].has_layer(2));
    assert!(!on(&[]).intersects(&world));
}

fn mote(noise: f32, spun: f32, phase: u32, tail: f32) -> Mote {
    Mote { noise: s(noise), spun: s(spun), phase, tail: s(tail) }
}

#[test]
fn particles_are_laid_out_in_their_order() {
    let cloud = CloudPlan { head_tail: 2, twinkle_percent: s(0.5), spin: s(-3.0) };
    let motes = vec![
        mote(0.2, -1.5, 0x20, 1.0),
        mote(0.9, -1.5, 0, 1.0),
        mote(0.5, -1.5, 0x1f, 7.0e-4),
    ];
    let quads = expand_quads(cloud, &motes);
    assert_eq!(
        quads,
        vec![
            QuadPlan { particle: 0, shape: QuadShape::Head { angle: Some(s(1.5)) } },
            QuadPlan { particle: 0, shape: QuadShape::Streak },
            QuadPlan { particle: 2, shape: QuadShape::Head { angle: Some(s(-1.5)) } },
            QuadPlan { particle: 2, shape: QuadShape::Stub },
        ],
        "a sample above the percentage is dark"
    );
    let steady = CloudPlan { head_tail: 0, twinkle_percent: s(1.0), spin: s(-0.0) };
    let heads = expand_quads(steady, &motes);
    assert_eq!(heads.iter().map(|q| q.particle).collect::<Vec<_>>(), [0, 1, 2]);
    assert_eq!(heads[0].shape, QuadShape::Head { angle: None });
    let tails = expand_quads(CloudPlan { head_tail: 1, ..steady }, &motes);
    assert_eq!(tails[1].shape, QuadShape::Streak);
    assert_eq!(tails.len(), 3);
}

#[test]
fn quads_show_their_cell_once_round() {
    let uv = |shape| -> Vec<(i32, i32, bool, bool)> {
        corners(shape).iter().map(|c| (c.across, c.along, c.far, c.low)).collect()
    };
    let square = vec![
        (-1, -1, false, true),
        (1, -1, true, true),
        (1, 1, true, false),
        (-1, 1, false, false),
    ];
    assert_eq!(uv(QuadShape::Head { angle: None }), square);
    assert_eq!(uv(QuadShape::Stub), square);
    assert_eq!(
        uv(QuadShape::Streak),
        vec![(-1, 0, false, true), (1, 0, false, false), (1, 1, true, false), (-1, 1, true, true)]
    );
}

#[test]
fn quads_are_drawn_once_their_texture_is_there() {
    assert!(draws_quads(false, true));
    assert!(!draws_quads(true, true));
    assert!(!draws_quads(false, false));
}

#[test]
fn two_triangles_make_a_quad() {
    assert_eq!(quad_indices(0), Vec::<u32>::new());
    assert_eq!(quad_indices(2), vec![0, 1, 2, 0, 2, 3, 4, 5, 6, 4, 6, 7]);
}

#[test]
fn a_cell_is_found_by_rows() {
    let c = atlas_cell(5, 2, 4);
    assert_eq!((c.column, c.row, c.columns, c.rows), (1, 1, 4, 2));
    let one = atlas_cell(3, 0, 0);
    assert_eq!((one.columns, one.rows), (1, 1));
    assert_eq!(one.column, 0);
}

#[test]
fn heads_and_tails() {
    let parts = |k| {
        let p = parts_of(k);
        (p.head, p.tail)
    };
    assert_eq!(parts(0), (true, false));
    assert_eq!(parts(1), (false, true));
    assert_eq!(parts(2), (true, true));
}

#[test]
fn twinkling_reads_a_fixed_table() {
    let table = twinkle_table();
    assert_eq!(table.len(), TWINKLE_LEN);
    assert_eq!(table, twinkle_table());
    assert!(table.iter().all(|v| *v < 1 << 24));
    assert!(twinkle_index(255, u32::MAX) < TWINKLE_LEN);
    assert_ne!(twinkle_index(1, 0), twinkle_index(2, 0));
    assert!(is_dark(s(0.3), s(0.5), s(1.0)));
    assert!(!is_dark(s(0.7), s(0.5), s(1.0)));
    assert!(!is_dark(s(1.0), s(1.0), s(1.0)));
}

#[test]
fn blends_bring_their_modes_and_their_fog() {
    let alpha = particle_material(ParticleBlend::Alpha, 0);
    assert_eq!(alpha.alpha_mode, AlphaMode::Blend);
    assert_eq!(alpha.fog, FogPolicy::Scene);
    let add = particle_material(ParticleBlend::Add, 0);
    assert_eq!(add.alpha_mode, AlphaMode::Add);
    assert_eq!(add.fog, FogPolicy::Black);
    let off = particle_material(ParticleBlend::Opaque, 0x8);
    assert_eq!(off.fog, FogPolicy::Off);
    assert_eq!(off.alpha_mode, AlphaMode::Opaque);
    let plain = specialize(key_of(&alpha), false, false);
    assert!(plain.blend.is_none());
    let mut twice = alpha;
    twice.mod2x = true;
    let doubled = specialize(key_of(&twice), true, false).blend.expect("its own blend");
    assert_eq!((doubled.color_src, doubled.color_dst), (BlendFactor::Dst, BlendFactor::Src));
}

/// A cloud with two particles, one child with one, and figures that a frame could disturb.
fn cloud() -> Cloud<u32, [f32; 3]> {
    Cloud {
        emitter: ParticleEmitter { rng: 77, gate_prev: true, ..emitter(None) },
        placement: [1.0, 2.0, 3.0],
        age: s(4.25),
        owed: s(0.75),
        particles: vec![10, 11],
        children: vec![ChildCloud {
            emitter: ChildEmitter { index: 1, rng: 78 },
            gate_prev: false,
            owed: s(0.5),
            particles: vec![12],
        }],
    }
}

fn cloud_frame(drawn: bool, delta: f32, aged: f32) -> CloudFrame {
    CloudFrame {
        camera: true,
        delta: s(delta),
        sight: Sight { prop_drawn: Some(drawn), ..sight() },
        aged: s(aged),
        enabled: true,
    }
}

#[test]
fn a_frame_steps_by_its_own_time_and_no_more_than_the_cap() {
    assert_eq!(frame_step(true, s(0.016)), Some(s(0.016)));
    assert_eq!(frame_step(true, s(0.1)), Some(s(0.1)));
    assert_eq!(frame_step(true, s(7.0)), Some(s(0.1)), "a stall is capped");
    assert_eq!(frame_step(true, s(0.0)), None);
    assert_eq!(frame_step(true, s(-0.5)), None);
    assert_eq!(frame_step(true, s(f32::NAN)), Some(s(0.1)), "the lesser of the two is the number");
    assert_eq!(frame_step(false, s(0.016)), None, "nothing runs without a camera");
}

#[test]
fn a_culled_cloud_is_what_it_was_and_resumes_with_one_step() {
    let mut c = cloud();
    assert_eq!(c.tick(cloud_frame(false, 0.016, 4.266)), Some(CloudTick::Frozen { hide: true }));
    for _ in 0..100 {
        assert_eq!(c.tick(cloud_frame(false, 5.0, 4.35)), Some(CloudTick::Frozen { hide: false }));
    }
    assert_eq!(c.emitter.visibility, Visibility::Hidden);
    assert_eq!((c.emitter.rng, c.emitter.gate_prev, c.emitter.draining), (77, true, false));
    assert_eq!((c.age, c.owed, c.placement), (s(4.25), s(0.75), [1.0, 2.0, 3.0]));
    assert_eq!(c.particles, [10, 11]);
    assert_eq!(c.children.len(), 1);
    assert_eq!((c.children[0].owed, c.children[0].emitter.rng), (s(0.5), 78));
    assert_eq!(c.children[0].particles, [12]);
    let mut fresh = cloud();
    let back = cloud_frame(true, 0.02, 4.27);
    let run = Some(CloudTick::Run {
        dt: s(0.02),
        emitting: true,
        anchor: AnchorRule::Placement,
    });
    assert_eq!(c.tick(back), run);
    assert_eq!(fresh.tick(back), run, "just as if it had never been out of sight");
    assert_eq!((c.emitter, c.age), (fresh.emitter, s(4.27)));
    assert_eq!(c.emitter.visibility, Visibility::Inherited);
}

#[test]
fn a_frame_without_a_step_leaves_a_cloud_alone() {
    let mut c = cloud();
    assert_eq!(c.tick(CloudFrame { camera: false, ..cloud_frame(false, 0.016, 4.3) }), None);
    assert_eq!(c.tick(cloud_frame(false, 0.0, 4.3)), None);
    assert_eq!((c.emitter, c.age), (cloud().emitter, s(4.25)));
}

#[test]
fn a_cloud_drains_its_children_too() {
    let mut c = cloud();
    c.particles.clear();
    c.emitter.owner = Some(4);
    let orphaned = CloudFrame {
        sight: Sight { owner_found: false, ..sight() },
        ..cloud_frame(true, 0.016, 4.3)
    };
    assert!(c.has_live());
    assert_eq!(c.live(), 0);
    assert!(matches!(c.tick(orphaned), Some(CloudTick::Run { emitting: false, .. })));
    c.children[0].particles.clear();
    assert!(!c.has_live());
    assert_eq!(c.tick(orphaned), Some(CloudTick::Despawn));
}

#[test]
fn a_spawned_emitter_starts_with_nothing_alive() {
    let fresh: Cloud<u32, [f32; 3]> = Cloud::new(emitter(Some(4)), [1.0, 2.0, 3.0]);
    assert_eq!((fresh.live(), fresh.has_live(), fresh.children.len()), (0, false, 0));
    assert_eq!((fresh.age, fresh.owed), (s(0.0), s(0.0)));
    assert_eq!(fresh.placement, [1.0, 2.0, 3.0]);
    assert_eq!(fresh.emitter, emitter(Some(4)));
    let child: ChildCloud<u32> = ChildCloud::new(ChildEmitter { index: 2, rng: 9 });
    assert_eq!((child.emitter.index, child.emitter.rng), (2, 9));
    assert_eq!((child.gate_prev, child.owed, child.particles.len()), (false, s(0.0), 0));
}
