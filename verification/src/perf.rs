//! Frame-time measurement: a rolling window of frame durations, what the readout over it shows, and
//! the once-a-second journal.
use vstd::prelude::*;
use std::collections::VecDeque;
use vstd::relations::{sorted_by, total_ordering};
use vstd::seq_lib::{lemma_sorted_unique, to_multiset_build, to_multiset_insert, to_multiset_len};

use crate::single::{zero, Single};
use crate::text::{decimal, push_decimal};

verus! {

/// How many frames the window keeps: about five seconds at 60 frames a second.
pub const SAMPLE_WINDOW: usize = 300;

/// 1000/60: the milliseconds that a frame may take.
pub const FRAME_BUDGET_MS: u32 = 0x4185_5555;

/// 250: the milliseconds above which a frame is a hitch, a stall that the player feels.
pub const HITCH_LOG_MS: u32 = 0x437a_0000;

/// 58: the frames a second under which the pill shows red.
pub const HEALTHY_FPS: u32 = 0x4268_0000;

/// 1: the seconds between two lines of the journal.
pub const JOURNAL_SECS: u32 = 0x3f80_0000;

/// `a` comes no later than `b` in the total order of durations.
pub open spec fn no_later() -> spec_fn(Single, Single) -> bool {
    |a: Single, b: Single| a.total_rank() <= b.total_rank()
}

/// Durations from the shortest to the longest.
pub open spec fn in_order(samples: Seq<Single>) -> Seq<Single> {
    samples.sort_by(no_later())
}

/// Where a percentile stands among `len` ordered samples: the nearest place, the later of two.
pub open spec fn place(len: nat, percent: nat) -> int {
    (percent * (len - 1) + 50) / 100
}

/// The sample at a percentile.
pub open spec fn percentile(samples: Seq<Single>, percent: nat) -> Single {
    in_order(samples)[place(samples.len(), percent)]
}

/// The order of durations is total: it ranks every two bit patterns, and equals only themselves.
pub proof fn durations_are_totally_ordered()
    ensures
        total_ordering(no_later()),
{
}

/// Ordering moves samples about and neither adds nor drops one.
pub proof fn ordering_permutes(samples: Seq<Single>)
    ensures
        in_order(samples).to_multiset() == samples.to_multiset(),
        in_order(samples).len() == samples.len(),
        sorted_by(in_order(samples), no_later()),
{
    durations_are_totally_ordered();
    samples.lemma_sort_by_ensures(no_later());
    to_multiset_len(samples);
    to_multiset_len(in_order(samples));
}

/// The samples from the shortest to the longest.
pub fn ascending(samples: &Vec<Single>) -> (sorted: Vec<Single>)
    ensures
        sorted@ == in_order(samples@),
{
    let mut sorted: Vec<Single> = Vec::new();
    assert(sorted@ == samples@.take(0));
    for i in 0..samples.len()
        invariant
            sorted@.to_multiset() == samples@.take(i as int).to_multiset(),
            sorted.len() == i,
            sorted_by(sorted@, no_later()),
    {
        let sample = samples[i];
        let mut at: usize = sorted.len();
        while at > 0 && sorted[at - 1].total_ranked() > sample.total_ranked()
            invariant
                at <= sorted.len(),
                forall|k: int|
                    at <= k < sorted.len() ==> sample.total_rank() < #[trigger] sorted[k].total_rank(),
            decreases at,
        {
            at = at - 1;
        }
        let ghost before = sorted@;
        sorted.insert(at, sample);
        proof {
            to_multiset_insert(before, at as int, sample);
            assert(samples@.take(i + 1) == samples@.take(i as int).push(sample));
            to_multiset_build(samples@.take(i as int), sample);
            assert forall|j: int, k: int| 0 <= j < k < sorted@.len() implies #[trigger] no_later()(
                sorted@[j],
                sorted@[k],
            ) by {
                let j0 = if j < at {
                    j
                } else {
                    j - 1
                };
                let k0 = if k < at {
                    k
                } else {
                    k - 1
                };
                if j != at && k != at {
                    assert(no_later()(before[j0], before[k0]));
                }
                if k == at {
                    assert(no_later()(before[at - 1], sample));
                    if j < at - 1 {
                        assert(no_later()(before[j], before[at - 1]));
                    }
                }
            }
        }
    }
    proof {
        assert(samples@.take(samples@.len() as int) == samples@);
        ordering_permutes(samples@);
        durations_are_totally_ordered();
        lemma_sorted_unique(sorted@, in_order(samples@), no_later());
    }
    sorted
}

fn place_of(len: usize, percent: usize) -> (at: usize)
    requires
        0 < len,
        percent <= 100,
    ensures
        at == place(len as nat, percent as nat),
        at < len,
{
    let n: u128 = (len - 1) as u128;
    assert(percent * (len - 1) <= 100 * (len - 1)) by (nonlinear_arith)
        requires
            percent <= 100,
            0 < len,
    ;
    assert(percent as u128 * n == percent * (len - 1));
    ((percent as u128 * n + 50) / 100) as usize
}

/// The window of recent frame durations, in milliseconds, oldest first.
pub struct FrameStats {
    samples: VecDeque<Single>,
}

impl View for FrameStats {
    type V = Seq<Single>;

    closed spec fn view(&self) -> Seq<Single> {
        self.samples@
    }
}

/// The window after another frame: the oldest goes once the window is full.
pub open spec fn pushed(window: Seq<Single>, ms: Single) -> Seq<Single> {
    (if window.len() == SAMPLE_WINDOW {
        window.drop_first()
    } else {
        window
    }).push(ms)
}

/// The window after a run of frames.
pub open spec fn window_after(frames: Seq<Single>) -> Seq<Single>
    decreases frames.len(),
{
    if frames.len() == 0 {
        Seq::empty()
    } else {
        pushed(window_after(frames.drop_last()), frames.last())
    }
}

/// The window holds the latest frames: all of them, or the last so many.
pub proof fn the_window_holds_the_latest(frames: Seq<Single>)
    ensures
        frames.len() <= SAMPLE_WINDOW ==> window_after(frames) == frames,
        frames.len() > SAMPLE_WINDOW ==> window_after(frames) == frames.skip(
            frames.len() - SAMPLE_WINDOW,
        ),
    decreases frames.len(),
{
    if frames.len() > 0 {
        the_window_holds_the_latest(frames.drop_last());
        assert(frames.drop_last().push(frames.last()) == frames);
        if frames.len() > SAMPLE_WINDOW {
            assert(window_after(frames) == frames.skip(frames.len() - SAMPLE_WINDOW));
        }
    } else {
        assert(window_after(frames) == frames);
    }
}

/// The last frame of a window; zero in an empty one.
pub open spec fn last_of(window: Seq<Single>) -> Single {
    if window.len() == 0 {
        zero()
    } else {
        window.last()
    }
}

/// Was a frame a hitch, with so many frames in the window?
pub open spec fn is_hitch(ms: Single, frames: nat) -> bool {
    Single::from_bits(HITCH_LOG_MS).below(ms) && frames > 1
}

/// Did a frame take longer than its budget?
pub open spec fn blows_budget(ms: Single) -> bool {
    Single::from_bits(FRAME_BUDGET_MS).below(ms)
}

/// How many of some frames took longer than their budget.
pub open spec fn blown(samples: Seq<Single>) -> nat {
    samples.filter(|ms: Single| blows_budget(ms)).len()
}

/// The three figures of the readout: the median, the 99th percentile, and the worst.
#[derive(Clone, Copy, Debug, PartialEq, Eq, Structural)]
pub struct Percentiles {
    pub p50: Single,
    pub p99: Single,
    pub max: Single,
}

/// The three figures over a window; zeros over an empty one.
pub open spec fn figures(samples: Seq<Single>) -> Percentiles {
    if samples.len() == 0 {
        Percentiles { p50: zero(), p99: zero(), max: zero() }
    } else {
        Percentiles {
            p50: percentile(samples, 50),
            p99: percentile(samples, 99),
            max: in_order(samples).last(),
        }
    }
}

/// The figures of a window that is not empty are durations in it, and they rise: the median, the 99th
/// percentile, the worst; and no duration is worse than the worst.
pub proof fn figures_rise(samples: Seq<Single>)
    requires
        samples.len() > 0,
    ensures
        ({
            let f = figures(samples);
            &&& samples.contains(f.p50)
            &&& samples.contains(f.p99)
            &&& samples.contains(f.max)
            &&& f.p50.total_rank() <= f.p99.total_rank() <= f.max.total_rank()
            &&& forall|i: int|
                0 <= i < samples.len() ==> (#[trigger] samples[i]).total_rank()
                    <= f.max.total_rank()
        }),
{
    broadcast use vstd::seq_lib::group_to_multiset_ensures;

    ordering_permutes(samples);
    let sorted = in_order(samples);
    let f = figures(samples);
    let n = samples.len() - 1;
    let a = place(samples.len(), 50);
    let b = place(samples.len(), 99);
    assert(0 <= a <= b <= n);
    assert(sorted.contains(f.p50) && sorted.contains(f.p99) && sorted.contains(f.max));
    assert(sorted.to_multiset().count(f.p50) > 0);
    assert(sorted.to_multiset().count(f.p99) > 0);
    assert(sorted.to_multiset().count(f.max) > 0);
    if a < b {
        assert(no_later()(sorted[a], sorted[b]));
    }
    if b < n {
        assert(no_later()(sorted[b], sorted[n]));
    }
    assert forall|i: int| 0 <= i < samples.len() implies (#[trigger] samples[i]).total_rank()
        <= f.max.total_rank() by {
        assert(samples.contains(samples[i]));
        assert(samples.to_multiset().count(samples[i]) > 0);
        assert(sorted.contains(samples[i]));
        let j = choose|j: int| 0 <= j < sorted.len() && sorted[j] == samples[i];
        if j < n {
            assert(no_later()(sorted[j], sorted[n]));
        }
    }
}

impl FrameStats {
    /// An empty window.
    pub fn new() -> (stats: FrameStats)
        ensures
            stats@ == Seq::<Single>::empty(),
    {
        FrameStats { samples: VecDeque::with_capacity(SAMPLE_WINDOW) }
    }

    /// Take in another frame.
    pub fn push(&mut self, ms: Single)
        ensures
            final(self)@ == pushed(old(self)@, ms),
    {
        if self.samples.len() == SAMPLE_WINDOW {
            let _ = self.samples.pop_front();
        }
        self.samples.push_back(ms);
        assert(self.samples@ == pushed(old(self)@, ms));
    }

    /// The last frame's duration; zero before the first.
    pub fn last(&self) -> (ms: Single)
        ensures
            ms == last_of(self@),
    {
        if self.samples.len() == 0 {
            zero()
        } else {
            self.samples[self.samples.len() - 1]
        }
    }

    /// The frames of the window, oldest first.
    pub fn samples(&self) -> (samples: Vec<Single>)
        ensures
            samples@ == self@,
    {
        let mut samples: Vec<Single> = Vec::new();
        for i in 0..self.samples.len()
            invariant
                samples@ == self@.take(i as int),
        {
            samples.push(self.samples[i]);
            assert(samples@ == self@.take(i + 1));
        }
        samples
    }

    /// The median, the 99th percentile and the worst of the window.
    pub fn percentiles(&self) -> (r: Percentiles)
        ensures
            r == figures(self@),
    {
        let samples = self.samples();
        if samples.len() == 0 {
            return Percentiles { p50: zero(), p99: zero(), max: zero() };
        }
        proof {
            ordering_permutes(self@);
        }
        let sorted = ascending(&samples);
        Percentiles {
            p50: sorted[place_of(sorted.len(), 50)],
            p99: sorted[place_of(sorted.len(), 99)],
            max: sorted[sorted.len() - 1],
        }
    }

    /// How many frames of the window blew the budget.
    pub fn over_budget(&self) -> (n: usize)
        ensures
            n == blown(self@),
            n <= self@.len(),
    {
        let budget = Single::from_bits(FRAME_BUDGET_MS);
        let mut n: usize = 0;
        for i in 0..self.samples.len()
            invariant
                n == blown(self@.take(i as int)),
                n <= i,
                budget == Single::from_bits(FRAME_BUDGET_MS),
        {
            assert(self@.take(i + 1).drop_last() == self@.take(i as int));
            reveal(Seq::filter);
            if budget.is_below(self.samples[i]) {
                n = n + 1;
            }
        }
        assert(self@.take(self@.len() as int) == self@);
        n
    }
}

/// Take in a frame, and say whether it was a hitch. The first frame's duration is the gap at startup,
/// and no hitch.
pub fn sample_frame_time(stats: &mut FrameStats, ms: Single) -> (hitch: bool)
    ensures
        final(stats)@ == pushed(old(stats)@, ms),
        hitch == is_hitch(ms, final(stats)@.len()),
{
    stats.push(ms);
    Single::from_bits(HITCH_LOG_MS).is_below(ms) && stats.samples.len() > 1
}

/// The state of the readout.
#[derive(Clone, Copy, Debug, PartialEq, Eq, Structural)]
pub struct PerfHud {
    /// Is it shown at all?
    pub visible: bool,
    /// The full readout, or only the pill?
    pub expanded: bool,
}

impl PerfHud {
    /// Shown, as the pill alone.
    #[verifier::allow_in_spec]
    pub fn new() -> PerfHud
        returns
            (PerfHud { visible: true, expanded: false }),
    {
        PerfHud { visible: true, expanded: false }
    }
}

/// The readout after the chord was struck or not.
pub open spec fn toggled(hud: PerfHud, chord: bool) -> PerfHud {
    PerfHud { visible: hud.visible != chord, ..hud }
}

/// The readout after the pill was clicked or not.
pub open spec fn clicked_on(hud: PerfHud, clicked: bool) -> PerfHud {
    PerfHud { expanded: hud.expanded != (hud.visible && clicked), ..hud }
}

/// The chord shows or hides the readout.
pub fn toggle_hud(hud: &mut PerfHud, chord: bool)
    ensures
        *final(hud) == toggled(*old(hud), chord),
{
    if chord {
        hud.visible = !hud.visible;
    }
}

/// How a figure is coloured.
#[derive(Clone, Copy, Debug, PartialEq, Eq, Structural)]
pub enum Tone {
    Red,
    Green,
    Dim,
}

/// The full readout.
#[derive(Clone, Copy, Debug, PartialEq, Eq, Structural)]
pub struct Readout {
    pub last: Single,
    pub last_tone: Tone,
    pub figures: Percentiles,
    pub over: usize,
    pub window: usize,
    pub over_tone: Tone,
}

/// What is drawn: the pill with its tooltip, and under it the full readout.
pub struct HudFrame {
    pub pill: Tone,
    pub hint: String,
    pub readout: Option<Readout>,
}

/// The tooltip of the pill.
pub open spec fn hint_of(expanded: bool) -> Seq<char> {
    if expanded {
        "click to collapse · P to hide"@
    } else {
        "click to expand · P to hide"@
    }
}

/// The full readout over a window.
pub open spec fn readout_of(samples: Seq<Single>) -> Readout {
    let last = last_of(samples);
    Readout {
        last,
        last_tone: if blows_budget(last) {
            Tone::Red
        } else {
            Tone::Green
        },
        figures: figures(samples),
        over: blown(samples) as usize,
        window: samples.len() as usize,
        over_tone: if blown(samples) > 0 {
            Tone::Red
        } else {
            Tone::Dim
        },
    }
}

/// This is what is drawn of the readout.
pub open spec fn is_hud_frame(
    r: Option<HudFrame>,
    hud: PerfHud,
    samples: Seq<Single>,
    fps: Single,
    clicked: bool,
) -> bool {
    &&& r is Some <==> hud.visible
    &&& r matches Some(f) ==> {
        &&& f.pill == (if fps.below(Single::from_bits(HEALTHY_FPS)) {
            Tone::Red
        } else {
            Tone::Green
        })
        &&& f.hint@ == hint_of(hud.expanded)
        &&& f.readout == (if clicked_on(hud, clicked).expanded {
            Some(readout_of(samples))
        } else {
            None
        })
    }
}

/// Lay out the readout for a frame in which the pill was clicked or not: nothing while it is hidden;
/// else the pill, red where the mean over the window is under the floor, with the tooltip of how it was
/// before the click, and the full readout where it is expanded after the click.
pub fn perf_hud_ui(hud: &mut PerfHud, stats: &FrameStats, fps: Single, clicked: bool) -> (r: Option<
    HudFrame,
>)
    ensures
        *final(hud) == clicked_on(*old(hud), clicked),
        is_hud_frame(r, *old(hud), stats@, fps, clicked),
{
    if !hud.visible {
        return None;
    }
    let pill = if fps.is_below(Single::from_bits(HEALTHY_FPS)) {
        Tone::Red
    } else {
        Tone::Green
    };
    let hint = if hud.expanded {
        "click to collapse · P to hide".to_string()
    } else {
        "click to expand · P to hide".to_string()
    };
    if clicked {
        hud.expanded = !hud.expanded;
    }
    if !hud.expanded {
        return Some(HudFrame { pill, hint, readout: None });
    }
    let last = stats.last();
    let over: usize = stats.over_budget();
    let readout = Readout {
        last,
        last_tone: if Single::from_bits(FRAME_BUDGET_MS).is_below(last) {
            Tone::Red
        } else {
            Tone::Green
        },
        figures: stats.percentiles(),
        over,
        window: stats.samples.len(),
        over_tone: if over > 0 {
            Tone::Red
        } else {
            Tone::Dim
        },
    };
    Some(HudFrame { pill, hint, readout: Some(readout) })
}

/// How finished frames reach the display.
#[derive(Clone, Copy, Debug, PartialEq, Eq, Structural)]
pub enum PresentMode {
    AutoVsync,
    AutoNoVsync,
    Fifo,
    FifoRelaxed,
    Immediate,
    Mailbox,
}

/// Does a mode wait for the display?
pub open spec fn waits(mode: PresentMode) -> bool {
    !(mode is AutoNoVsync || mode is Immediate || mode is Mailbox)
}

/// Does a mode wait for the display?
pub fn syncs(mode: PresentMode) -> (r: bool)
    ensures
        r == waits(mode),
{
    !matches!(mode, PresentMode::AutoNoVsync | PresentMode::Immediate | PresentMode::Mailbox)
}

/// The mode that the checkbox asks for.
pub open spec fn mode_for(vsync: bool) -> PresentMode {
    if vsync {
        PresentMode::AutoVsync
    } else {
        PresentMode::AutoNoVsync
    }
}

/// The mode that the checkbox asks for.
pub fn present_mode(vsync: bool) -> (mode: PresentMode)
    ensures
        mode == mode_for(vsync),
{
    if vsync {
        PresentMode::AutoVsync
    } else {
        PresentMode::AutoNoVsync
    }
}

/// The checkbox shows what it asked for.
pub proof fn the_checkbox_reads_back(vsync: bool)
    ensures
        waits(mode_for(vsync)) == vsync,
{
}

/// The line on multisampling.
pub open spec fn msaa_text(samples: u32) -> Seq<char> {
    "MSAA "@ + (if samples <= 1 {
        "off"@
    } else {
        decimal(samples as nat).push('×')
    }) + "  ·  set $WOW_MSAA to change"@
}

/// The line on multisampling.
pub fn msaa_line(samples: u32) -> (text: String)
    ensures
        text@ == msaa_text(samples),
{
    let mut text = "MSAA ".to_string();
    if samples <= 1 {
        text.append("off");
    } else {
        push_decimal(&mut text, samples as u64);
        text.push('×');
    }
    text.append("  ·  set $WOW_MSAA to change");
    assert(text@ == msaa_text(samples));
    text
}

/// The frames gathered since the journal's last line, and when that was.
pub struct FpsJournal {
    pub window: Vec<Single>,
    pub last_flush: Single,
}

/// What a line of the journal says of its second: the frames, shortest first, and the 95th percentile.
pub struct JournalRow {
    pub frames: Vec<Single>,
    pub p95: Single,
}

impl FpsJournal {
    /// Nothing gathered.
    pub fn new() -> (journal: FpsJournal)
        ensures
            journal.window@ == Seq::<Single>::empty(),
            journal.last_flush == zero(),
    {
        FpsJournal { window: Vec::new(), last_flush: zero() }
    }
}

/// A journal before and after a frame, and the line that came of it.
pub open spec fn journalled(
    before: FpsJournal,
    ms: Single,
    now: Single,
    since: Single,
    after: FpsJournal,
    row: Option<JournalRow>,
) -> bool {
    &&& row is Some <==> !since.below(Single::from_bits(JOURNAL_SECS))
    &&& row is None ==> after.window@ == before.window@.push(ms) && after.last_flush
        == before.last_flush
    &&& row matches Some(r) ==> {
        &&& after.window@ == Seq::<Single>::empty()
        &&& after.last_flush == now
        &&& r.frames@ == in_order(before.window@.push(ms))
        &&& r.p95 == percentile(before.window@.push(ms), 95)
    }
}

/// Gather a frame, and once a second has passed since the last line (`since`, at the time `now`), start
/// over and give out the line for what was gathered.
pub fn journal_fps(journal: &mut FpsJournal, ms: Single, now: Single, since: Single) -> (row: Option<
    JournalRow,
>)
    ensures
        journalled(*old(journal), ms, now, since, *final(journal), row),
{
    journal.window.push(ms);
    if since.is_below(Single::from_bits(JOURNAL_SECS)) {
        return None;
    }
    journal.last_flush = now;
    let mut gathered: Vec<Single> = Vec::new();
    std::mem::swap(&mut gathered, &mut journal.window);
    proof {
        ordering_permutes(gathered@);
    }
    let frames = ascending(&gathered);
    let p95 = frames[place_of(frames.len(), 95)];
    Some(JournalRow { frames, p95 })
}

/// The journal loses no frame: what was gathered before a line and the frame that brings it are all in
/// the line, and nothing else.
pub proof fn the_journal_loses_nothing(gathered: Seq<Single>, ms: Single)
    ensures
        in_order(gathered.push(ms)).to_multiset() == gathered.to_multiset().insert(ms),
{
    ordering_permutes(gathered.push(ms));
    to_multiset_build(gathered, ms);
}

/// A percentile stands at the place that is nearest to its share of the way from the first sample to the
/// last, and at the later of two that are as near; the order puts the shorter of two durations first.
pub proof fn a_percentile_stands_nearest(
    samples: Seq<Single>,
    percent: nat,
    at: int,
    a: Single,
    b: Single,
)
    requires
        samples.len() > 0,
        percent <= 100,
        -50 <= percent * (samples.len() - 1) - 100 * at < 50,
    ensures
        place(samples.len(), percent) == at,
        percentile(samples, percent) == in_order(samples)[at],
        a.below(b) ==> no_later()(a, b) && !no_later()(b, a),
{
}

/// A frame joins the window as its last. While the window has room nothing leaves it; once it is full
/// the oldest frame does, and the others move up in their order.
pub proof fn a_frame_joins_the_window(window: Seq<Single>, ms: Single)
    requires
        window.len() <= 300,
    ensures
        pushed(window, ms).last() == ms,
        window.len() < 300 ==> pushed(window, ms).drop_last() == window,
        window.len() == 300 ==> pushed(window, ms).drop_last() == window.skip(1) && pushed(
            window,
            ms,
        ).len() == 300,
        last_of(pushed(window, ms)) == ms,
        last_of(seq![]) == zero(),
{
    if window.len() < 300 {
        assert(pushed(window, ms).drop_last() =~= window);
    } else {
        assert(pushed(window, ms).drop_last() =~= window.skip(1));
    }
}

/// A frame blows its budget when it takes longer than a sixtieth of a second; each such frame counts
/// once and no other counts.
pub proof fn blown_frames_are_counted(samples: Seq<Single>, ms: Single)
    ensures
        blows_budget(ms) <==> Single::from_bits(0x4185_5555).below(ms),
        Single::from_bits(0x4185_5555).below(ms) ==> blown(samples.push(ms)) == blown(samples) + 1,
        !Single::from_bits(0x4185_5555).below(ms) ==> blown(samples.push(ms)) == blown(samples),
        blown(seq![]) == 0,
{
    reveal(Seq::filter);
    assert(samples.push(ms).drop_last() =~= samples);
}

/// A frame of more than a quarter of a second is a hitch, but not the first one.
pub proof fn long_frames_are_hitches(ms: Single, frames: nat)
    ensures
        frames <= 1 ==> !is_hitch(ms, frames),
        frames > 1 ==> (is_hitch(ms, frames) <==> Single::from_bits(0x437a_0000).below(ms)),
{
}

/// The readout's figures are the percentiles of fifty and of ninety-nine and the last in order; over no
/// frame they are noughts.
pub proof fn figures_are_percentiles(samples: Seq<Single>)
    ensures
        samples.len() > 0 ==> {
            let f = figures(samples);
            &&& f.p50 == percentile(samples, 50)
            &&& f.p99 == percentile(samples, 99)
            &&& f.max == in_order(samples).last()
        },
        ({
            let none = figures(seq![]);
            none.p50 == zero() && none.p99 == zero() && none.max == zero()
        }),
{
}

/// The full readout shows the last frame, red where it blew its budget and green where it did not; the
/// figures; and how many of how many frames blew theirs, red where any did and dim where none did.
pub proof fn the_readout_shows_the_window(samples: Seq<Single>)
    requires
        samples.len() <= 300,
    ensures
        ({
            let r = readout_of(samples);
            &&& samples.len() > 0 ==> r.last == samples.last()
            &&& samples.len() == 0 ==> r.last == zero()
            &&& blows_budget(r.last) ==> r.last_tone == Tone::Red
            &&& !blows_budget(r.last) ==> r.last_tone == Tone::Green
            &&& r.figures == figures(samples)
            &&& r.window == samples.len()
            &&& r.over == blown(samples)
            &&& r.over > 0 ==> r.over_tone == Tone::Red
            &&& r.over == 0 ==> r.over_tone == Tone::Dim
        }),
{
    samples.lemma_filter_len(|ms: Single| blows_budget(ms));
}

/// The chord shows what is hidden and hides what is shown; a click opens and closes the readout while it
/// is shown. Neither does what the other does, and without them nothing changes.
pub proof fn the_readout_is_toggled(hud: PerfHud)
    ensures
        toggled(hud, true).visible == !hud.visible,
        toggled(hud, true).expanded == hud.expanded,
        toggled(hud, false) == hud,
        clicked_on(hud, false) == hud,
        clicked_on(hud, true).visible == hud.visible,
        hud.visible ==> clicked_on(hud, true).expanded == !hud.expanded,
        !hud.visible ==> clicked_on(hud, true) == hud,
{
}

/// A hidden readout draws nothing. A shown one draws its pill: red below fifty-eight frames a second and
/// green otherwise, with the tooltip that fits how it was before the click; and under it the readout
/// where it is open after the click.
pub proof fn the_pill_tells_health(
    r: Option<HudFrame>,
    hud: PerfHud,
    samples: Seq<Single>,
    fps: Single,
    clicked: bool,
)
    requires
        is_hud_frame(r, hud, samples, fps, clicked),
    ensures
        !hud.visible ==> r is None,
        hud.visible ==> (r matches Some(f) && {
            let slow = fps.below(Single::from_bits(0x4268_0000));
            let open = hud.expanded != clicked;
            &&& slow ==> f.pill == Tone::Red
            &&& !slow ==> f.pill == Tone::Green
            &&& hud.expanded ==> f.hint@ == "click to collapse · P to hide"@
            &&& !hud.expanded ==> f.hint@ == "click to expand · P to hide"@
            &&& open ==> f.readout == Some(readout_of(samples))
            &&& !open ==> f.readout is None
        }),
{
}

/// Frames wait for the display but in the modes that are made not to; the checkbox asks for the one sort
/// or the other and leaves the rest to the display.
pub proof fn modes_wait_or_not(mode: PresentMode)
    ensures
        waits(mode) <==> mode == PresentMode::AutoVsync || mode == PresentMode::Fifo || mode
            == PresentMode::FifoRelaxed,
        mode_for(true) == PresentMode::AutoVsync,
        mode_for(false) == PresentMode::AutoNoVsync,
{
}

/// The line on multisampling counts the samples, and says that it is off where there is one at most.
pub proof fn multisampling_is_counted(samples: u32)
    ensures
        samples > 1 ==> msaa_text(samples) == "MSAA "@ + decimal(samples as nat) + seq!['×']
            + "  ·  set $WOW_MSAA to change"@,
        samples <= 1 ==> msaa_text(samples) == "MSAA "@ + "off"@ + "  ·  set $WOW_MSAA to change"@,
{
    assert(decimal(samples as nat).push('×') =~= decimal(samples as nat) + seq!['×']);
    if samples > 1 {
        assert(msaa_text(samples) =~= "MSAA "@ + decimal(samples as nat) + seq!['×']
            + "  ·  set $WOW_MSAA to change"@);
    }
}

/// A frame is gathered until a second has passed since the last line; then the line has all that was
/// gathered, the frame itself among it, shortest first, with the percentile of ninety-five, and the
/// journal starts over from now.
pub proof fn the_journal_gathers_a_second(
    before: FpsJournal,
    ms: Single,
    now: Single,
    since: Single,
    after: FpsJournal,
    row: Option<JournalRow>,
)
    requires
        journalled(before, ms, now, since, after, row),
    ensures
        since.below(Single::from_bits(0x3f80_0000)) ==> {
            &&& row is None
            &&& after.window@.drop_last() == before.window@ && after.window@.last() == ms
            &&& after.last_flush == before.last_flush
        },
        !since.below(Single::from_bits(0x3f80_0000)) ==> {
            &&& after.window@.len() == 0 && after.last_flush == now
            &&& row matches Some(r) && r.frames@.to_multiset() == before.window@.push(
                ms,
            ).to_multiset() && sorted_by(r.frames@, no_later()) && r.p95 == percentile(
                before.window@.push(ms),
                95,
            )
        },
{
    ordering_permutes(before.window@.push(ms));
    if row is None {
        assert(after.window@.drop_last() =~= before.window@);
    }
}

} // verus!
