use std::collections::{HashMap, HashSet};

use benilla::particles::sim::Layers;
use benilla::portrait::bake::{bake_look, dress, Bake, Palette};
use benilla::portrait::booth::{
    face_booth_billboards, push_booth_mat_alpha, spawn_booth_model, BoothBillboardSpec, BoothCard,
    BoothMotion, BoothPart, BoothRider, BoothRig, GlobalBones, MeshTag, RigAnimations, TaggedPart,
    OPAQUE,
};
use benilla::portrait::light::{material_variant, BoothLight, Recipe, Twin};
use benilla::portrait::look::{
    collect, parts_key, Look, Node, PortraitBillboard, PortraitPart, PortraitRider,
};
use benilla::portrait::slots::{setup_booths, slots, Slot};
use benilla::portrait::stand_in::{temporary_portrait, BodyFacts, StandIn};
use benilla::portrait::sync::{
    gate_booth_camera, gate_booth_cameras, slot_unit, sync_paperdoll, sync_portraits, sync_slot,
    wake_booth, Body, Booth, BoothWork, Gate, PaneStep, PortraitSource, UnitBody, UnitSources,
    BOOTH_SETTLE_FRAMES, DEFAULT_YAW,
};
use benilla::portrait::test_bake::{
    bake_test, dump_due, parse_dump, skin_url, sync_test_portraits, test_mode, test_textures,
    BakeLight, BakeReady, TestBooth, TestSubmesh,
};
use benilla::single::{origin, Single};

fn s(x: f32) -> Single {
    Single::from_bits(x.to_bits())
}

/// An alpha as the tag carries it.
fn code(alpha: f32) -> u8 {
    (alpha * 63.0).round() as u8
}

#[test]
fn the_booth_alpha_writer_preserves_the_rig_slot() {
    let rig_slot = 7u16;
    let mut parts = vec![TaggedPart {
        booth: true,
        current: code(0.55),
        tag: MeshTag { rig: rig_slot, probe: 3, alpha: code(1.0) },
    }];
    push_booth_mat_alpha(&mut parts);
    assert_eq!(parts[0].tag.rig, rig_slot, "the palette slot must survive an alpha write");
    assert_eq!(parts[0].tag.probe, 3);
    let alpha = parts[0].tag.alpha as f32 / 63.0;
    assert!((alpha - 0.55).abs() <= 1.0 / 63.0, "authored 0.55 reached the tag (got {alpha})");
}

#[test]
fn the_booth_alpha_writer_ignores_unmarked_parts() {
    let mut parts = vec![TaggedPart {
        booth: false,
        current: code(0.1),
        tag: MeshTag { rig: 0, probe: 0, alpha: code(1.0) },
    }];
    push_booth_mat_alpha(&mut parts);
    assert_eq!(parts[0].tag.alpha as f32 / 63.0, 1.0, "no BoothMatAlpha marker ⇒ untouched");
}

#[test]
fn booths_stand_on_layers_of_their_own() {
    let plans = setup_booths();
    assert_eq!(plans.len(), 8);
    assert_eq!((plans[0].layer, plans[0].order, plans[0].size), (2, -100, 256));
    assert_eq!((plans[7].layer, plans[7].order, plans[7].size), (9, -93, 512));
    assert_eq!(plans[7].slot, Slot::PaperDoll);
    let tokens: Vec<String> = slots().iter().map(|slot| slot.token()).collect();
    assert_eq!(tokens, ["player", "target", "npc", "party1", "party2", "party3", "party4"]);
    assert_eq!(Slot::PaperDoll.token(), "paperdoll");
}

#[test]
fn a_picture_stands_in_by_sex_and_race() {
    let of = |player, body| temporary_portrait(StandIn { player, body });
    let base = "Interface\\CharacterFrame\\TemporaryPortrait";
    assert_eq!(of(false, None), format!("{base}-Monster.blp"));
    assert_eq!(of(true, None), format!("{base}.blp"));
    let body = |gender, race| Some(BodyFacts { gender, race });
    assert_eq!(of(true, body(Some(1), Some(5))), format!("{base}-Female-Scourge.blp"));
    assert_eq!(of(true, body(Some(0), Some(1))), format!("{base}-Male-Human.blp"));
    assert_eq!(of(true, body(None, Some(8))), format!("{base}-Male-Troll.blp"));
    assert_eq!(of(true, body(Some(1), Some(9))), format!("{base}.blp"));
    assert_eq!(of(true, body(Some(1), None)), format!("{base}.blp"));
    assert_eq!(of(false, body(Some(1), Some(1))), format!("{base}-Monster.blp"));
}

fn part(id: u64) -> PortraitPart {
    PortraitPart { static_mesh: id, skinned_mesh: Some(id + 500), material: id + 1000 }
}

fn rider(id: u64) -> PortraitRider {
    PortraitRider { static_mesh: id, material: id + 1000, bone: 2, offset: origin() }
}

fn node(children: Vec<Node>) -> Node {
    Node { mount: false, part: None, rider: None, billboard: None, children }
}

#[test]
fn a_mount_is_left_out_of_its_riders_portrait() {
    let helm = Node { rider: Some(rider(30)), ..node(Vec::new()) };
    let saddle = Node { part: Some(part(21)), ..node(vec![helm]) };
    let glow = PortraitBillboard { mesh: 40, material: 1040, bone: 1, kind: 0 };
    let horse = Node {
        mount: true,
        part: Some(part(20)),
        billboard: Some(glow),
        ..node(vec![saddle])
    };
    let body = Node { part: Some(part(10)), billboard: Some(glow), ..node(Vec::new()) };
    let legs = Node { part: Some(part(11)), ..node(Vec::new()) };
    let look = collect(&node(vec![body, legs, horse]));
    assert_eq!(look.parts, vec![part(11), part(10)]);
    assert_eq!(look.riders, vec![rider(30)]);
    assert_eq!(look.billboards, vec![glow]);
    assert_eq!(parts_key(&look), vec![(11, 1011), (10, 1010), (30, 1030), (40, 1040)]);
}

fn look(ids: &[u64]) -> Look {
    Look {
        parts: ids.iter().map(|id| part(*id)).collect(),
        riders: Vec::new(),
        billboards: Vec::new(),
    }
}

/// A body without a rig, with handles from 900 on.
fn body(ids: &[u64]) -> Body {
    let look = look(ids);
    let fresh = (900..900 + ids.len() as u64).collect();
    Body { look, rig: None, fresh }
}

fn unit(ids: &[u64]) -> Option<UnitBody> {
    Some(UnitBody { body: body(ids), stand_in: StandIn { player: false, body: None } })
}

fn palette(ready: bool) -> Palette {
    Palette {
        light: BoothLight { ready, variants: HashMap::new() },
        textures: HashMap::from([(1001, Some(71)), (1002, None), (1003, Some(73))]),
    }
}

#[test]
fn a_look_is_baked_once_and_wiped_when_its_unit_goes() {
    let mut booth = Booth::new(5);
    let mut paint = palette(false);
    let step = sync_slot(&mut booth, &unit(&[1, 2, 3, 4]), &mut paint);
    assert_eq!(step.work, BoothWork::Bake);
    let bake = step.bake.expect("a bake");
    assert_eq!(bake.dressed.materials, [1001, 1002, 1003, 1004]);
    assert_eq!(bake.model.parts.len(), 4);
    assert!(matches!(step.source, PortraitSource::Live { image: 5 }));
    assert_eq!(booth.wake, BOOTH_SETTLE_FRAMES);
    assert_eq!(booth.pending, vec![71, 73]);
    let again = sync_slot(&mut booth, &unit(&[1, 2, 3, 4]), &mut paint);
    assert_eq!(again.work, BoothWork::Keep);
    assert!(again.bake.is_none());
    let dressed = sync_slot(&mut booth, &unit(&[1, 2]), &mut paint);
    assert_eq!(dressed.work, BoothWork::Bake);
    assert_eq!(booth.pending, vec![71]);
    // A unit that is still loading shows its picture, and the bake is kept.
    let loading = sync_slot(&mut booth, &unit(&[]), &mut paint);
    assert_eq!(loading.work, BoothWork::Keep);
    let PortraitSource::File { path } = loading.source else {
        panic!("a picture");
    };
    assert_eq!(path, "Interface\\CharacterFrame\\TemporaryPortrait-Monster.blp");
    assert!(booth.baked.is_some());
    booth.wake = 0;
    let gone = sync_slot(&mut booth, &None, &mut paint);
    assert_eq!(gone.work, BoothWork::Empty);
    assert!(booth.baked.is_none() && booth.pending.is_empty());
    assert_eq!(booth.wake, BOOTH_SETTLE_FRAMES);
    assert_eq!(sync_slot(&mut booth, &None, &mut paint).work, BoothWork::Keep);
}

#[test]
fn the_debug_bake_owns_the_booths() {
    let mut booths = vec![Booth::new(1), Booth::new(2)];
    let units = vec![unit(&[1]), None];
    let mut paint = palette(true);
    assert!(sync_portraits(true, &mut booths, &units, &mut paint).is_empty());
    assert!(booths[0].baked.is_none() && paint.light.variants.is_empty());
    let steps = sync_portraits(false, &mut booths, &units, &mut paint);
    assert_eq!(steps.iter().map(|s| s.work).collect::<Vec<_>>(), [BoothWork::Bake, BoothWork::Keep]);
    assert_eq!(booths[0].baked, Some(vec![(1, 1001)]));
}

#[test]
fn slots_find_their_units() {
    let sources = UnitSources {
        player: Some(1),
        target: None,
        npc: Some(3),
        party: vec![100, 200],
        streamed: HashMap::from([(200, 9)]),
    };
    assert_eq!(slot_unit(Slot::Player, &sources), Some(1));
    assert_eq!(slot_unit(Slot::PaperDoll, &sources), Some(1));
    assert_eq!(slot_unit(Slot::Target, &sources), None);
    assert_eq!(slot_unit(Slot::Npc, &sources), Some(3));
    assert_eq!(slot_unit(Slot::Party1, &sources), None);
    assert_eq!(slot_unit(Slot::Party2, &sources), Some(9));
    assert_eq!(slot_unit(Slot::Party3, &sources), None);
}

#[test]
fn the_pane_turns_when_it_is_baked_and_when_its_yaw_moves() {
    let mut booth = Booth::new(5);
    let mut yaw: Option<Single> = None;
    let mut paint = palette(false);
    let mut go = |booth: &mut Booth, b: &Option<Body>, y: f32| {
        let turn =
            sync_paperdoll(false, booth, &mut yaw, b, s(y), &mut paint).expect("not a test");
        assert_eq!(turn.bake.is_some(), turn.step.work == BoothWork::Bake);
        turn.step
    };
    let worn = Some(body(&[1]));
    assert_eq!(go(&mut booth, &None, 0.61), PaneStep { work: BoothWork::Keep, turn: false });
    assert_eq!(go(&mut booth, &worn, 0.61), PaneStep { work: BoothWork::Bake, turn: true });
    booth.wake = 0;
    assert_eq!(go(&mut booth, &worn, 0.61), PaneStep { work: BoothWork::Keep, turn: false });
    assert_eq!(booth.wake, 0);
    assert_eq!(go(&mut booth, &worn, 0.7), PaneStep { work: BoothWork::Keep, turn: true });
    assert_eq!(booth.wake, BOOTH_SETTLE_FRAMES);
    assert_eq!(go(&mut booth, &None, 0.7), PaneStep { work: BoothWork::Empty, turn: false });
    assert_eq!(go(&mut booth, &worn, 0.7), PaneStep { work: BoothWork::Bake, turn: true });
    let mut last = None;
    let mut idle = palette(false);
    assert!(sync_paperdoll(true, &mut booth, &mut last, &worn, s(1.0), &mut idle).is_none());
    assert_eq!(f32::from_bits(DEFAULT_YAW), 0.61);
}

const ALONE: Gate = Gate { test: false, live_scene: false };

#[test]
fn a_still_is_rendered_for_its_frames_and_then_sleeps() {
    let mut booth = Booth::new(5);
    booth.wake = BOOTH_SETTLE_FRAMES;
    let resident = HashSet::new();
    let active: Vec<bool> =
        (0..6).map(|_| gate_booth_camera(&mut booth, &resident, ALONE)).collect();
    assert_eq!(active, [true, true, true, true, false, false]);
    assert!(gate_booth_camera(&mut booth, &resident, Gate { live_scene: true, ..ALONE }));
    assert!(gate_booth_camera(&mut booth, &resident, Gate { test: true, ..ALONE }));
    assert_eq!(booth.wake, 0);
}

#[test]
fn a_late_texture_is_rendered_once_it_lands() {
    let mut booth = Booth::new(5);
    booth.pending = vec![71, 72];
    let mut resident = HashSet::from([71]);
    assert!(gate_booth_camera(&mut booth, &resident, ALONE));
    assert_eq!(booth.pending, vec![72]);
    assert!(gate_booth_camera(&mut booth, &resident, ALONE));
    resident.insert(72);
    assert!(gate_booth_camera(&mut booth, &resident, ALONE));
    assert!(!gate_booth_camera(&mut booth, &resident, ALONE));
}

#[test]
fn a_material_has_one_twin() {
    let mut light = BoothLight::new();
    assert_eq!(light.variant(3, true, 90), Twin { material: 3, make: None });
    light.ready = true;
    assert_eq!(
        light.variant(3, true, 90),
        Twin { material: 90, make: Some(Recipe { rig: false }) }
    );
    assert_eq!(light.variant(3, true, 91), Twin { material: 90, make: None });
    assert_eq!(light.variant(4, false, 91), Twin { material: 4, make: None });
    let mut rig = HashMap::new();
    assert_eq!(
        material_variant(&mut rig, 3, true, 95, true),
        Twin { material: 95, make: Some(Recipe { rig: true }) }
    );
}

fn rig(joints: usize, slot: u16) -> Option<BoothRig> {
    Some(BoothRig {
        joints,
        slot,
        animations: Some(RigAnimations {
            global_bones: vec![1, 9, 2],
            stand: Some(40),
            close_right: Some(41),
            close_left: None,
        }),
    })
}

fn booth_parts() -> Vec<BoothPart> {
    vec![
        BoothPart { skinned: Some(11), static_mesh: 1, material: 100, alpha: None },
        BoothPart { skinned: None, static_mesh: 2, material: 100, alpha: Some(35) },
        BoothPart { skinned: Some(13), static_mesh: 3, material: 100, alpha: Some(0) },
    ]
}

#[test]
fn a_rigged_bake_is_posed_and_seated() {
    let riders = vec![
        BoothRider { mesh: 5, material: 100, bone: 2, offset: origin() },
        BoothRider { mesh: 6, material: 100, bone: 3, offset: origin() },
    ];
    let cards = vec![BoothBillboardSpec { mesh: 7, material: 100, bone: 0, kind: 0 }];
    let model = spawn_booth_model(
        &booth_parts(),
        &riders,
        &rig(3, 8),
        BoothMotion::Frozen,
        true,
        true,
        &cards,
    );
    let meshes: Vec<u64> = model.parts.iter().map(|p| p.mesh).collect();
    assert_eq!(meshes, [11, 2, 13]);
    assert_eq!(model.parts[0].tag, Some(MeshTag { rig: 8, probe: 0, alpha: OPAQUE }));
    assert_eq!(model.parts[1].tag, Some(MeshTag { rig: 0, probe: 0, alpha: 35 }));
    assert_eq!(model.parts[2].tag, Some(MeshTag { rig: 8, probe: 0, alpha: 0 }));
    assert!(model.parts[0].rigged && !model.parts[1].rigged);
    assert!(!model.parts[0].alpha_driven && model.parts[1].alpha_driven);
    assert_eq!(model.riders, vec![0]);
    assert_eq!(model.billboards, vec![0]);
    let GlobalBones::Frozen { bones } = model.bones else {
        panic!("frozen");
    };
    assert_eq!(bones, vec![1, 2]);
    let pose = model.pose.expect("a stand");
    assert_eq!((pose.stand, pose.looping), (40, false));
    assert_eq!(pose.grips, vec![41]);
}

#[test]
fn a_scene_loops_and_a_boneless_bake_only_stands() {
    let none: Vec<BoothRider> = Vec::new();
    let scene = spawn_booth_model(
        &booth_parts(),
        &none,
        &rig(3, 8),
        BoothMotion::Loop,
        false,
        false,
        &Vec::new(),
    );
    assert!(matches!(scene.bones, GlobalBones::Driven));
    let pose = scene.pose.expect("a stand");
    assert!(pose.looping && pose.grips.is_empty());
    let rider = vec![BoothRider { mesh: 5, material: 100, bone: 0, offset: origin() }];
    for boneless in [None, rig(0, 8)] {
        let model = spawn_booth_model(
            &booth_parts(),
            &rider,
            &boneless,
            BoothMotion::Frozen,
            true,
            true,
            &Vec::new(),
        );
        assert_eq!(model.parts.iter().map(|p| p.mesh).collect::<Vec<_>>(), [1, 2, 3]);
        assert_eq!(model.parts[0].tag, None);
        assert!(model.riders.is_empty() && model.pose.is_none());
        assert!(matches!(model.bones, GlobalBones::Untouched));
    }
    // Without a palette slot the parts stand at rest and are still seated.
    let full = spawn_booth_model(
        &booth_parts(),
        &rider,
        &rig(3, 0),
        BoothMotion::Frozen,
        false,
        false,
        &Vec::new(),
    );
    assert_eq!(full.parts[0].mesh, 1);
    assert_eq!(full.riders, vec![0]);
}

#[test]
fn cards_face_the_camera_of_their_booth() {
    let on = |l: u32| Layers { layers: vec![l] };
    let cards = vec![
        BoothCard { layers: on(3), jointed: true },
        BoothCard { layers: on(3), jointed: false },
        BoothCard { layers: on(8), jointed: true },
    ];
    assert_eq!(face_booth_billboards(&cards, &vec![on(2), on(3)]), vec![Some(1), None, None]);
}

#[test]
fn a_skin_is_addressed_in_lower_case() {
    assert_eq!(skin_url("Creature\\Wolf\\WOLF.blp"), "mpq://creature/wolf/wolf.blp");
    assert_eq!(skin_url("Ä/b\\C"), "mpq://Ä/b/c");
}

fn test_booths() -> Vec<TestBooth> {
    let mut booths: Vec<TestBooth> =
        slots().into_iter().map(|slot| TestBooth { slot, rig: rig(3, 8) }).collect();
    booths.push(TestBooth { slot: Slot::PaperDoll, rig: rig(3, 9) });
    booths
}

fn submeshes() -> Vec<TestSubmesh> {
    vec![
        TestSubmesh { skinned_mesh: 11, mesh: 1, texture: Some(5), studio: 100, pane: 200 },
        TestSubmesh { skinned_mesh: 12, mesh: 2, texture: None, studio: 101, pane: 201 },
    ]
}

#[test]
fn the_debug_bake_waits_and_bakes_once() {
    let mut cached = None;
    assert!(test_mode(&mut cached, true));
    assert!(test_mode(&mut cached, false), "settled once");
    let mut done = false;
    let ready = BakeReady { model: true, studio_light: true, pane_light: true };
    let waiting = BakeReady { pane_light: false, ..ready };
    let (meshes, booths) = (submeshes(), test_booths());
    assert!(sync_test_portraits(true, waiting, &mut done, &meshes, &booths).is_none());
    assert!(sync_test_portraits(false, ready, &mut done, &meshes, &booths).is_none());
    let bakes = sync_test_portraits(true, ready, &mut done, &meshes, &booths).expect("a bake");
    assert_eq!(bakes.len(), 8);
    assert_eq!((bakes[0].slot, bakes[0].light), (Slot::Player, BakeLight::Studio));
    assert_eq!((bakes[7].slot, bakes[7].light), (Slot::PaperDoll, BakeLight::Pane));
    assert!(done);
    assert!(sync_test_portraits(true, ready, &mut done, &meshes, &booths).is_none());
}

#[test]
fn the_debug_bake_fills_each_booth_under_its_own_light() {
    let bakes = bake_test(&submeshes(), &test_booths());
    let materials = |i: usize| -> Vec<u64> {
        bakes[i].model.parts.iter().map(|p| p.material).collect()
    };
    assert_eq!(materials(0), [100, 101]);
    assert_eq!(materials(7), [200, 201]);
    assert_eq!(bakes[0].yaw, None);
    assert_eq!(bakes[7].yaw, Some(s(0.61)));
    let meshes: Vec<u64> = bakes[6].model.parts.iter().map(|p| p.mesh).collect();
    assert_eq!(meshes, [11, 12]);
    assert_eq!(bakes[7].model.parts[0].tag, Some(MeshTag { rig: 9, probe: 0, alpha: OPAQUE }));
    let pose = bakes[1].model.pose.as_ref().expect("a stand");
    assert!(!pose.looping && pose.grips.is_empty());
    assert_eq!(test_textures(&submeshes(), Some(7)), vec![Some(5), Some(7)]);
    assert_eq!(test_textures(&submeshes(), None), vec![Some(5), None]);
}

#[test]
fn a_look_is_baked_with_the_twins_of_its_materials() {
    let glow = PortraitBillboard { mesh: 40, material: 1001, bone: 1, kind: 2 };
    let worn = Look {
        parts: vec![part(1), part(2)],
        riders: vec![rider(30)],
        billboards: vec![glow],
    };
    let readable = || HashMap::from([(1001, Some(71)), (1030, None)]);
    let mut paint = Palette { light: BoothLight::new(), textures: readable() };
    paint.light.ready = true;
    let fresh = vec![90, 91, 92, 93];
    let Bake { dressed, model } = bake_look(&worn, &mut paint, &fresh, &rig(3, 8));
    let parts: Vec<u64> = dressed.parts.iter().map(|p| p.material).collect();
    assert_eq!(parts, [90, 1002], "a material that cannot be read stays");
    assert_eq!(dressed.riders[0].material, 92);
    assert_eq!(dressed.billboards[0].material, 90, "one twin for one material");
    assert_eq!(dressed.materials, [90, 1002, 92, 90]);
    assert_eq!(dressed.made, vec![(1001, 90), (1030, 92)]);
    assert_eq!(paint.textures.get(&90), Some(&Some(71)), "a twin wears its source's texture");
    assert_eq!(paint.textures.get(&92), Some(&None));
    assert_eq!(model.parts[1].mesh, 502);
    assert_eq!((model.riders, model.billboards), (vec![0], vec![0]));
    let again = bake_look(&worn, &mut paint, &vec![95, 96, 97, 98], &rig(3, 8));
    assert!(again.dressed.made.is_empty());
    assert_eq!(again.dressed.parts[0].material, 90);
    let mut dark = Palette { light: BoothLight::new(), textures: readable() };
    let plain = dress(&worn, &mut dark, &fresh);
    assert_eq!(plain.parts[0].material, 1001);
    assert!(plain.made.is_empty());
    assert_eq!(dark.light.relight(&vec![4], &dark.textures, &fresh).materials, vec![4]);
}

#[test]
fn a_booth_waits_for_the_textures_of_its_twins() {
    let mut paint = palette(true);
    let mut booths = vec![Booth::new(1), Booth::new(2)];
    let units = vec![unit(&[1, 3]), unit(&[1])];
    let steps = sync_portraits(false, &mut booths, &units, &mut paint);
    let drawn = |i: usize| steps[i].bake.as_ref().map(|b| b.dressed.materials.clone());
    assert_eq!(drawn(0), Some(vec![900, 901]));
    assert_eq!(drawn(1), Some(vec![900]), "the second slot takes the twin of the first");
    assert_eq!(booths[0].pending, vec![71, 73]);
    assert_eq!(booths[1].pending, vec![71]);
    // The twins stay as they were made: what becomes of their sources is nothing to them.
    paint.textures.remove(&1001);
    paint.textures.insert(1003, Some(99));
    let mut late = Booth::new(3);
    sync_slot(&mut late, &unit(&[1, 3]), &mut paint);
    assert_eq!(late.pending, vec![71, 73]);
    let mut woken = Booth::new(4);
    wake_booth(&mut woken, &paint.textures, &vec![901, 1001, 1003, 1002]);
    assert_eq!((woken.wake, woken.pending), (BOOTH_SETTLE_FRAMES, vec![73, 99]));
}

#[test]
fn every_booth_has_its_own_sleep() {
    let mut booths = vec![Booth::new(1), Booth::new(2), Booth::new(3)];
    booths[1].wake = 1;
    let scenes = vec![false, false, true];
    let none = HashSet::new();
    assert_eq!(gate_booth_cameras(false, &mut booths, &scenes, &none), [false, true, true]);
    assert_eq!(gate_booth_cameras(false, &mut booths, &scenes, &none), [false, false, true]);
    assert_eq!(gate_booth_cameras(true, &mut booths, &scenes, &none), [true, true, true]);
}

#[test]
fn a_dump_is_asked_for_by_token_path_and_seconds() {
    let spec = parse_dump("paperdoll:/tmp/p.png:2.5").expect("a wish");
    assert_eq!((spec.token.as_str(), spec.path.as_str(), spec.secs.as_str()),
        ("paperdoll", "/tmp/p.png", "2.5"));
    let rest = parse_dump("a::b:c").expect("a wish");
    assert_eq!((rest.token.as_str(), rest.path.as_str(), rest.secs.as_str()), ("a", "", "b:c"));
    assert!(parse_dump("a:b").is_none());
    assert!(parse_dump("").is_none());
    let mut fired = false;
    assert!(!dump_due(&mut fired, s(2.0), s(2.5)));
    assert!(dump_due(&mut fired, s(2.5), s(2.5)));
    assert!(!dump_due(&mut fired, s(9.0), s(2.5)));
}
