use std::collections::HashSet;

use benilla::pipe_warm::describe::{
    describe, ColorTarget, ComputeDescriptor, DepthState, FragmentStage, PipelineDescriptor,
    RenderDescriptor, ShaderDef, VertexBuffer,
};
use benilla::pipe_warm::{
    publish_cover, run_warm_pass, spawn_menagerie, trace_line, warm_materials, warm_quad,
    watch_pipelines, CachedPipe, Family, Layout, ModelBlend, PipeState, PipeWatch, WarmFrame,
    WarmMaterial, WarmPass, WarmStep,
};
use benilla::single::Single;

fn s(x: f32) -> Single {
    Single::from_bits(x.to_bits())
}

fn flag(name: &str, on: bool) -> ShaderDef {
    ShaderDef::Flag { name: name.to_string(), on }
}

fn compute(label: Option<&str>, defs: Vec<ShaderDef>) -> PipelineDescriptor {
    PipelineDescriptor::Compute(ComputeDescriptor {
        label: label.map(|l| l.to_string()),
        shader: "a.wgsl".to_string(),
        defs,
    })
}

#[test]
fn a_compute_pipeline_is_described() {
    let defs = vec![
        flag("ZED", true),
        ShaderDef::Int { name: "N".to_string(), value: -3 },
        flag("B", false),
        ShaderDef::UInt { name: "M".to_string(), value: 7 },
    ];
    assert_eq!(
        describe(&compute(Some("pass"), defs)),
        "label=pass compute=a.wgsl defs=[!B+M=7+N=-3+ZED]"
    );
    assert_eq!(describe(&compute(None, Vec::new())), "label=? compute=a.wgsl defs=[]");
}

#[test]
fn a_render_pipeline_is_described() {
    let mut d = RenderDescriptor {
        label: None,
        shader: "m.wgsl".to_string(),
        defs: vec![flag("VERTEX_UVS", true)],
        buffers: vec![
            VertexBuffer { stride: 32, locations: vec![0, 1, 2] },
            VertexBuffer { stride: 8, locations: Vec::new() },
        ],
        cull: "Some(Back)".to_string(),
        depth: None,
        fragment: None,
        samples: 4,
    };
    assert_eq!(
        describe(&PipelineDescriptor::Render(d)),
        "label=? vs=m.wgsl vs_defs=[VERTEX_UVS] bufs=[stride32@[0,1,2];stride8@[]] \
         cull=Some(Back) bias=0 depth_write=false cmp=none frag=none samples=4"
    );
    d = RenderDescriptor {
        label: Some("opaque".to_string()),
        shader: "m.wgsl".to_string(),
        defs: Vec::new(),
        buffers: Vec::new(),
        cull: "None".to_string(),
        depth: Some(DepthState { bias: -2, write: true, compare: "GreaterEqual".to_string() }),
        fragment: Some(FragmentStage {
            shader: "f.wgsl".to_string(),
            defs: vec![flag("B", true), flag("A", true)],
            target: Some(ColorTarget { blend: "None".to_string(), mask: "ALL".to_string() }),
        }),
        samples: 1,
    };
    assert_eq!(
        describe(&PipelineDescriptor::Render(d)),
        "label=opaque vs=m.wgsl vs_defs=[] bufs=[] cull=None bias=-2 depth_write=true \
         cmp=GreaterEqual fs=f.wgsl fs_defs=[A+B] blend=None mask=ALL samples=1"
    );
}

fn pipe(state: PipeState) -> CachedPipe {
    CachedPipe { state, descriptor: compute(None, Vec::new()) }
}

#[test]
fn new_pipelines_are_counted_and_named() {
    let mut watch = PipeWatch::new();
    let mut seen = 0usize;
    let mut pipes = vec![pipe(PipeState::Ready), pipe(PipeState::Queued)];
    let new = watch_pipelines(&pipes, &mut watch, &mut seen);
    assert_eq!(new.iter().map(|n| (n.id, n.live)).collect::<Vec<_>>(), vec![(0, false), (1, false)]);
    assert_eq!((watch.created, watch.settled, seen), (2, 1, 2));
    publish_cover(&mut watch, false, true);
    pipes.push(pipe(PipeState::Failed));
    pipes.push(pipe(PipeState::Creating));
    let new = watch_pipelines(&pipes, &mut watch, &mut seen);
    assert_eq!(new.iter().map(|n| (n.id, n.live)).collect::<Vec<_>>(), vec![(2, true), (3, true)]);
    assert_eq!((watch.created, watch.settled), (4, 2));
    assert_eq!(trace_line(&new[0]), "[2] LIVE label=? compute=a.wgsl defs=[]");
    assert!(watch_pipelines(&pipes, &mut watch, &mut seen).is_empty());
}

#[test]
fn a_frame_is_covered_by_the_loading_screen_and_outside_the_world() {
    let mut watch = PipeWatch::new();
    assert!(watch.covered);
    for (loading, in_world, covered) in
        [(true, true, true), (false, true, false), (false, false, true), (true, false, true)]
    {
        publish_cover(&mut watch, loading, in_world);
        assert_eq!(watch.covered, covered);
    }
}

fn frame(elapsed: f32, created: usize, settled: usize) -> WarmFrame {
    WarmFrame {
        loading: true,
        in_world: true,
        capture: false,
        camera: true,
        light: true,
        now: s(3.0),
        elapsed: s(elapsed),
        watch: PipeWatch { created, settled, covered: true },
    }
}

#[test]
fn a_cover_is_held_until_the_queue_drains() {
    let mut warm = WarmPass::new();
    let early = WarmFrame { camera: false, ..frame(0.0, 0, 0) };
    assert_eq!(run_warm_pass(&mut warm, early), WarmStep::Idle);
    assert!(!warm.satisfied());
    assert_eq!(run_warm_pass(&mut warm, frame(0.0, 0, 0)), WarmStep::Spawn);
    assert_eq!(warm.spawned_at, Some(s(3.0)));
    assert_eq!(run_warm_pass(&mut warm, frame(0.2, 5, 5)), WarmStep::Idle);
    assert_eq!(run_warm_pass(&mut warm, frame(0.25, 208, 200)), WarmStep::Idle);
    assert!(!warm.satisfied());
    assert_eq!(run_warm_pass(&mut warm, frame(0.25, 208, 208)), WarmStep::Drained);
    assert!(warm.satisfied());
    assert_eq!(run_warm_pass(&mut warm, frame(9.0, 300, 208)), WarmStep::Idle);
    assert!(warm.satisfied());
}

#[test]
fn a_cover_is_released_after_ten_seconds() {
    let mut warm = WarmPass::new();
    run_warm_pass(&mut warm, frame(0.0, 0, 0));
    assert_eq!(run_warm_pass(&mut warm, frame(9.99, 8, 5)), WarmStep::Idle);
    assert_eq!(run_warm_pass(&mut warm, frame(10.0, 8, 5)), WarmStep::TimedOut { pending: 3 });
    assert!(warm.satisfied());
}

#[test]
fn without_a_cover_nothing_is_held() {
    let mut warm = WarmPass::new();
    run_warm_pass(&mut warm, frame(0.0, 0, 0));
    let open = WarmFrame { loading: false, ..frame(1.0, 8, 0) };
    assert_eq!(run_warm_pass(&mut warm, open), WarmStep::Clear);
    assert!(warm.satisfied());
    assert_eq!(warm.spawned_at, None);
    // The next cover is held again, and a capture never.
    let again = WarmFrame { light: false, ..frame(0.0, 0, 0) };
    run_warm_pass(&mut warm, again);
    assert!(!warm.satisfied());
    let shot = WarmFrame { capture: true, ..frame(0.0, 0, 0) };
    assert_eq!(run_warm_pass(&mut warm, shot), WarmStep::Idle);
    assert!(warm.satisfied());
}

#[test]
fn the_menagerie_is_every_layout_with_every_material() {
    let variants = spawn_menagerie();
    assert_eq!(variants.len(), 208);
    let names: HashSet<String> = variants.iter().map(|v| format!("{v:?}")).collect();
    assert_eq!(names.len(), 208);
    assert_eq!(variants[0].layout, Layout { colors: false, skinned: false });
    assert_eq!(variants[52].layout, Layout { colors: false, skinned: true });
    assert_eq!(variants[104].layout, Layout { colors: true, skinned: false });
    let mats = warm_materials();
    assert_eq!(mats.len(), 52);
    assert_eq!(
        mats[3],
        WarmMaterial {
            two_sided: false,
            family: Family::Plain {
                blend: ModelBlend::Opaque,
                no_depth_write: true,
                no_depth_test: true,
            },
        }
    );
    assert_eq!(mats[22], WarmMaterial { two_sided: false, family: Family::Fade });
    assert_eq!(
        mats[49],
        WarmMaterial { two_sided: true, family: Family::DepthPrime { cutout: true } }
    );
    assert_eq!(mats[50], WarmMaterial { two_sided: false, family: Family::Clutter });
}

#[test]
fn a_quad_has_the_attributes_of_its_layout() {
    let plain = warm_quad(Layout { colors: false, skinned: false });
    assert_eq!(plain.positions.len(), 4);
    assert_eq!(plain.positions[2].x, s(1.0));
    assert_eq!(plain.positions[2].y, s(1.0));
    assert_eq!(plain.uvs[3], (s(0.0), s(1.0)));
    assert_eq!(plain.normals[3].z, s(1.0));
    assert_eq!(plain.indices, vec![0, 1, 2, 0, 2, 3]);
    assert!(plain.joints.is_empty() && plain.weights.is_empty() && plain.vertex_colors.is_empty());
    let full = warm_quad(Layout { colors: true, skinned: true });
    assert_eq!(full.joints, vec![(0, 0, 0, 0); 4]);
    assert_eq!(full.weights[1], (s(1.0), s(0.0), s(0.0), s(0.0)));
    assert_eq!(full.vertex_colors.len(), 4);
}
