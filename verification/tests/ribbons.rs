use std::collections::HashMap;

use benilla::ribbons::{
    frame_step, spawn_ribbon, strip, strip_quads, Edge, RibbonDef, RibbonTrail, Section, MAX_EDGES,
};
use benilla::single::{Point, Single};

fn s(x: f32) -> Single {
    Single::from_bits(x.to_bits())
}

fn at(x: f32) -> Point {
    Point { x: s(x), y: s(0.0), z: s(0.0) }
}

fn def() -> RibbonDef {
    RibbonDef {
        textured: true,
        edges_per_second: s(10.0),
        peak_above: s(1.0),
        peak_below: s(0.0),
        visible_in_anim: None,
    }
}

fn edge(x: f32) -> Edge {
    Edge { top: at(x), bottom: at(-x), born: s(x) }
}

fn trail() -> RibbonTrail {
    spawn_ribbon(&def(), false, 4, None, None).expect("it spawns")
}

#[test]
fn a_trail_spawns_where_there_is_something_to_trail() {
    assert_eq!(trail().owner, Some(4));
    assert!(spawn_ribbon(&def(), true, 4, None, None).is_none());
    assert!(spawn_ribbon(&RibbonDef { textured: false, ..def() }, false, 4, None, None).is_none());
    let flat = RibbonDef { peak_above: s(0.0), ..def() };
    assert!(spawn_ribbon(&flat, false, 4, None, None).is_none());
    let still = RibbonDef { edges_per_second: s(0.0), ..def() };
    assert!(spawn_ribbon(&still, false, 4, None, None).is_none());
}

#[test]
fn a_trail_shows_in_its_animations() {
    let shown = |anims: &[(u16, bool)], now| {
        let d = RibbonDef { visible_in_anim: Some(HashMap::from_iter(anims.to_vec())), ..def() };
        spawn_ribbon(&d, false, 4, now, None).is_some()
    };
    assert!(shown(&[(7, true), (0, false)], Some(7)));
    assert!(!shown(&[(7, true), (0, false)], Some(8)));
    assert!(!shown(&[(0, false)], None));
    assert!(shown(&[], Some(8)));
}

#[test]
fn a_trail_drains_when_its_owner_goes() {
    let mut t = trail();
    assert!(t.commit(edge(1.0)));
    assert!(!t.begin_frame(true));
    assert!(!t.begin_frame(false));
    assert_eq!(t.owner, None);
    t.expire(&vec![s(5.0)], s(1.0));
    assert_eq!(t.committed(), 0);
    assert!(t.begin_frame(false));
}

#[test]
fn the_oldest_edges_expire_first() {
    let mut t = trail();
    for x in [1.0, 2.0, 3.0] {
        t.commit(edge(x));
    }
    t.expire(&vec![s(3.0), s(2.0), s(1.0)], s(2.0));
    assert_eq!(t.committed(), 1);
    assert_eq!(t.edges[0], edge(3.0));
}

#[test]
fn a_full_trail_takes_no_more() {
    let mut t = trail();
    for n in 0..MAX_EDGES {
        assert!(t.commit(edge(n as f32)));
    }
    assert!(!t.commit(edge(9.0)));
    assert_eq!(t.committed(), MAX_EDGES);
}

#[test]
fn a_strip_runs_from_the_head_to_the_tail() {
    let mut t = trail();
    t.commit(edge(1.0));
    t.commit(edge(2.0));
    let head = Section { top: at(3.0), bottom: at(-3.0), age: s(0.0) };
    let sections = strip(Some(head), &t, &vec![s(0.4), s(0.2)]);
    assert_eq!(sections.iter().map(|x| f32::from_bits(x.top.x.bits)).collect::<Vec<f32>>(),
        [3.0, 2.0, 1.0]);
    let quads = strip_quads(&sections);
    assert_eq!(quads.len(), 2);
    assert!(strip_quads(&vec![head]).is_empty());
    assert!(t.draws(true, s(0.5)));
    assert!(!t.draws(false, s(0.5)));
    assert!(t.draws(true, s(0.001)));
    t.alpha_src = Some(8);
    assert!(!t.draws(true, s(0.001)));
    assert!(t.draws(true, s(0.002)));
}

#[test]
fn trails_step_by_the_frame_up_to_a_cap() {
    assert_eq!(frame_step(true, s(0.016)), Some(s(0.016)));
    assert_eq!(frame_step(true, s(3.0)), Some(s(0.1)));
    assert_eq!(frame_step(true, s(0.0)), Some(s(0.0)), "a frame of no time is still a frame");
    assert_eq!(frame_step(false, s(0.016)), None, "nothing runs without a camera");
}
