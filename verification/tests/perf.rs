use benilla::perf::{
    ascending, journal_fps, msaa_line, perf_hud_ui, present_mode, sample_frame_time, syncs,
    toggle_hud, FpsJournal, FrameStats, PerfHud, PresentMode, Tone, FRAME_BUDGET_MS, HITCH_LOG_MS,
    SAMPLE_WINDOW,
};
use benilla::single::Single;

fn s(x: f32) -> Single {
    Single::from_bits(x.to_bits())
}

fn f(x: Single) -> f32 {
    f32::from_bits(x.bits)
}

#[test]
fn the_constants_are_the_numbers_they_stand_for() {
    assert_eq!(f32::from_bits(FRAME_BUDGET_MS), 1000.0 / 60.0);
    assert_eq!(f32::from_bits(HITCH_LOG_MS), 250.0);
}

#[test]
fn the_window_keeps_the_latest_frames() {
    let mut stats = FrameStats::new();
    assert_eq!(f(stats.last()), 0.0);
    for n in 0..SAMPLE_WINDOW + 5 {
        stats.push(s(n as f32));
    }
    let samples = stats.samples();
    assert_eq!(samples.len(), SAMPLE_WINDOW);
    assert_eq!(f(samples[0]), 5.0);
    assert_eq!(f(stats.last()), (SAMPLE_WINDOW + 4) as f32);
}

#[test]
fn percentiles_are_the_nearest_samples() {
    let mut stats = FrameStats::new();
    let none = stats.percentiles();
    assert_eq!((f(none.p50), f(none.p99), f(none.max)), (0.0, 0.0, 0.0));
    for n in (1..=100).rev() {
        stats.push(s(n as f32));
    }
    let p = stats.percentiles();
    let mut v: Vec<f32> = (1..=100).map(|n| n as f32).collect();
    v.sort_by(f32::total_cmp);
    let at = |q: f32| v[(((v.len() - 1) as f32) * q).round() as usize];
    assert_eq!((f(p.p50), f(p.p99), f(p.max)), (at(0.50), at(0.99), 100.0));
    assert_eq!((f(p.p50), f(p.p99)), (51.0, 99.0));
}

#[test]
fn places_are_those_of_rounded_products() {
    for len in 1..=SAMPLE_WINDOW {
        let mut stats = FrameStats::new();
        for n in 0..len {
            stats.push(s(n as f32));
        }
        let p = stats.percentiles();
        let at = |q: f32| (((len - 1) as f32) * q).round();
        assert_eq!((f(p.p50), f(p.p99)), (at(0.50), at(0.99)), "of {len}");
    }
}

#[test]
fn sorting_ranks_zeros_and_nans_too() {
    let v = [2.0, f32::NAN, -0.0, 0.0, -3.0, f32::INFINITY];
    let sorted: Vec<u32> =
        ascending(&v.iter().map(|x| s(*x)).collect()).iter().map(|x| x.bits).collect();
    let mut expected = v;
    expected.sort_by(f32::total_cmp);
    assert_eq!(sorted, expected.iter().map(|x| x.to_bits()).collect::<Vec<u32>>());
}

#[test]
fn frames_over_budget_are_counted() {
    let mut stats = FrameStats::new();
    for ms in [16.0, 16.7, 17.0, 1000.0 / 60.0, 40.0] {
        stats.push(s(ms));
    }
    assert_eq!(stats.over_budget(), 3);
}

#[test]
fn a_hitch_is_a_long_frame_but_not_the_first() {
    let mut stats = FrameStats::new();
    assert!(!sample_frame_time(&mut stats, s(900.0)));
    assert!(sample_frame_time(&mut stats, s(251.0)));
    assert!(!sample_frame_time(&mut stats, s(250.0)));
    assert_eq!(stats.samples().len(), 3);
}

#[test]
fn the_readout_expands_on_a_click() {
    let mut hud = PerfHud::new();
    let mut stats = FrameStats::new();
    stats.push(s(10.0));
    stats.push(s(20.0));
    let pill = perf_hud_ui(&mut hud, &stats, s(60.0), false).expect("shown");
    assert_eq!(pill.pill, Tone::Green);
    assert_eq!(pill.hint, "click to expand · P to hide");
    assert!(pill.readout.is_none());
    let opened = perf_hud_ui(&mut hud, &stats, s(57.9), true).expect("shown");
    assert_eq!(opened.pill, Tone::Red);
    assert_eq!(opened.hint, "click to expand · P to hide");
    let readout = opened.readout.expect("expanded");
    assert_eq!((readout.over, readout.window), (1, 2));
    assert_eq!(readout.last_tone, Tone::Red);
    assert_eq!(readout.over_tone, Tone::Red);
    assert!(hud.expanded);
    let still = perf_hud_ui(&mut hud, &stats, s(58.0), false).expect("shown");
    assert_eq!(still.pill, Tone::Green);
    assert_eq!(still.hint, "click to collapse · P to hide");
    toggle_hud(&mut hud, true);
    assert!(perf_hud_ui(&mut hud, &stats, s(60.0), true).is_none());
    assert!(hud.expanded, "a hidden pill is not clicked");
    toggle_hud(&mut hud, false);
    assert!(!hud.visible);
}

#[test]
fn the_checkbox_shows_what_it_set() {
    for on in [true, false] {
        assert_eq!(syncs(present_mode(on)), on);
    }
    assert!(syncs(PresentMode::Fifo) && syncs(PresentMode::FifoRelaxed));
    assert!(!syncs(PresentMode::Immediate) && !syncs(PresentMode::Mailbox));
}

#[test]
fn multisampling_is_named() {
    assert_eq!(msaa_line(0), "MSAA off  ·  set $WOW_MSAA to change");
    assert_eq!(msaa_line(1), "MSAA off  ·  set $WOW_MSAA to change");
    assert_eq!(msaa_line(4), "MSAA 4×  ·  set $WOW_MSAA to change");
}

#[test]
fn the_journal_writes_a_line_a_second() {
    let mut journal = FpsJournal::new();
    assert!(journal_fps(&mut journal, s(16.0), s(0.5), s(0.5)).is_none());
    assert!(journal_fps(&mut journal, s(40.0), s(0.9), s(0.9)).is_none());
    let row = journal_fps(&mut journal, s(17.0), s(1.0), s(1.0)).expect("a line");
    assert_eq!(row.frames.iter().map(|x| f(*x)).collect::<Vec<f32>>(), vec![16.0, 17.0, 40.0]);
    assert_eq!(f(row.p95), 40.0);
    assert!(journal.window.is_empty());
    assert_eq!(f(journal.last_flush), 1.0);
}
