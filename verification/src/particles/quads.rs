//! The layout of particle quads: which quads a particle draws, the atlas cell they show, their
//! flicker and spin, and the index pattern that makes triangles of them.
use vstd::prelude::*;

use crate::particles::rng::{high_bits, next_u24, xorshift};
use crate::single::{zero, Single};

verus! {

/// The number of entries in the flicker table.
pub const TWINKLE_LEN: usize = 128;

/// The seed of the flicker table.
pub const TWINKLE_SEED: u32 = 0xC0FF_EE11;

/// The state of the generator after a number of draws.
pub open spec fn drawn(seed: u32, n: nat) -> u32
    decreases n,
{
    if n == 0 {
        seed
    } else {
        xorshift(drawn(seed, (n - 1) as nat))
    }
}

/// This is the flicker table.
pub open spec fn is_twinkle(table: Seq<u32>) -> bool {
    &&& table.len() == TWINKLE_LEN
    &&& forall|i: int|
        0 <= i < TWINKLE_LEN ==> #[trigger] table[i] == high_bits(
            drawn(TWINKLE_SEED, (i + 1) as nat),
        )
}

/// The flicker table, each entry in twenty-four bits.
pub fn twinkle_table() -> (table: Vec<u32>)
    ensures
        is_twinkle(table@),
        forall|i: int| 0 <= i < TWINKLE_LEN ==> #[trigger] table@[i] < 0x100_0000,
{
    let mut state: u32 = TWINKLE_SEED;
    let mut table: Vec<u32> = Vec::new();
    for i in 0..TWINKLE_LEN
        invariant
            table@.len() == i,
            state == drawn(TWINKLE_SEED, i as nat),
            forall|k: int|
                0 <= k < i ==> #[trigger] table@[k] == high_bits(
                    drawn(TWINKLE_SEED, (k + 1) as nat),
                ),
            forall|k: int| 0 <= k < i ==> #[trigger] table@[k] < 0x100_0000,
    {
        let entry: u32 = next_u24(&mut state);
        table.push(entry);
    }
    table
}

/// The place in the flicker table of a particle.
pub open spec fn twinkle_place(flicker: u8, phase: u32) -> usize {
    ((flicker as u32).wrapping_add(phase) & 0x7f) as usize
}

/// The place in the flicker table of a particle whose flicker has come this far. The phase sets the
/// particles of one cloud apart.
pub fn twinkle_index(flicker: u8, phase: u32) -> (i: usize)
    ensures
        i == twinkle_place(flicker, phase),
        i < TWINKLE_LEN,
{
    let sum: u32 = (flicker as u32).wrapping_add(phase);
    assert(sum & 0x7f < 128) by (bit_vector);
    (sum & 0x7f) as usize
}

/// Is a particle dark this frame?
pub open spec fn dims(percent: Single, sample: Single, full: Single) -> bool {
    percent.below(full) && percent.below(sample)
}

/// Is the particle dark this frame: below full percentage, with a sample above it?
pub fn is_dark(percent: Single, sample: Single, full: Single) -> (r: bool)
    ensures
        r == dims(percent, sample, full),
{
    percent.is_below(full) && percent.is_below(sample)
}

/// The spin of a quad: a negative angle is turned over for the half of the particles whose phase has
/// its sixth bit set, so that a cloud that spins backwards churns.
pub open spec fn spun(angle: Single, phase: u32) -> Single {
    if angle.below(zero()) && phase & 0x20 != 0 {
        angle.negated()
    } else {
        angle
    }
}

/// The spin of a quad.
pub fn spin_angle(angle: Single, phase: u32) -> (r: Single)
    ensures
        r == spun(angle, phase),
{
    if angle.is_below(zero()) && phase & 0x20 != 0 {
        angle.negate()
    } else {
        angle
    }
}

/// A cell of a texture atlas.
#[derive(Clone, Copy, Debug, PartialEq, Eq, Structural)]
pub struct Cell {
    pub column: u32,
    pub row: u32,
    pub columns: u32,
    pub rows: u32,
}

/// At least one.
pub open spec fn at_least_one(n: u16) -> int {
    if n == 0 {
        1
    } else {
        n as int
    }
}

/// The cell of an atlas, the last one for a number past the end.
pub open spec fn cell_of(cell: u16, tile_rows: u16, tile_cols: u16) -> Cell {
    let columns = at_least_one(tile_cols);
    let rows = at_least_one(tile_rows);
    let n = if cell < rows * columns {
        cell as int
    } else {
        rows * columns - 1
    };
    Cell {
        column: (n % columns) as u32,
        row: (n / columns) as u32,
        columns: columns as u32,
        rows: rows as u32,
    }
}

/// The cell of an atlas of so many rows and columns.
pub fn atlas_cell(cell: u16, tile_rows: u16, tile_cols: u16) -> (r: Cell)
    ensures
        r == cell_of(cell, tile_rows, tile_cols),
        r.column < r.columns,
        r.row < r.rows,
{
    let columns: u32 = if tile_cols == 0 {
        1
    } else {
        tile_cols as u32
    };
    let rows: u32 = if tile_rows == 0 {
        1
    } else {
        tile_rows as u32
    };
    assert(0 < rows * columns <= 0xffff * 0xffff) by (nonlinear_arith)
        requires
            0 < rows <= 0xffff,
            0 < columns <= 0xffff,
    ;
    let last: u32 = rows * columns - 1;
    let n: u32 = if (cell as u32) < last {
        cell as u32
    } else {
        last
    };
    assert(n / columns < rows && n % columns < columns) by (nonlinear_arith)
        requires
            n < rows * columns,
            0 < columns,
    ;
    Cell { column: n % columns, row: n / columns, columns, rows }
}

/// The quads that a particle draws: a head facing the camera, a tail along its motion, or both.
#[derive(Clone, Copy, Debug, PartialEq, Eq, Structural)]
pub struct Parts {
    pub head: bool,
    pub tail: bool,
}

/// The parts of a particle by its kind.
pub open spec fn parts_drawn(head_tail: u8) -> Parts {
    Parts { head: head_tail != 1, tail: head_tail >= 1 }
}

/// The parts of a particle by its kind: 0 is head only, 1 tail only, anything above both.
pub fn parts_of(head_tail: u8) -> (parts: Parts)
    ensures
        parts == parts_drawn(head_tail),
        parts.head || parts.tail,
{
    Parts { head: head_tail != 1, tail: head_tail >= 1 }
}

/// 1.0: the percentage at which a particle is never dark.
pub const FULL_PERCENT: u32 = 0x3f80_0000;

/// 0.00077: the squared length on the screen below which a tail has no direction.
pub const LEAST_TAIL: u32 = 0x3a49_d9d3;

/// What the layout reads of a particle.
#[derive(Clone, Copy, Debug, PartialEq, Eq, Structural)]
pub struct Mote {
    /// Its sample of the flicker.
    pub noise: Single,
    /// How far it has spun.
    pub spun: Single,
    pub phase: u32,
    /// The square of the length that its tail has on the screen.
    pub tail: Single,
}

/// How a quad is spanned.
#[derive(Clone, Copy, Debug, PartialEq, Eq, Structural)]
pub enum QuadShape {
    /// On the axes of heads, turned by an angle where heads spin.
    Head { angle: Option<Single> },
    /// Along the tail.
    Streak,
    /// On the axes of the camera: a tail that the camera looks along.
    Stub,
}

/// A quad, and the particle that it shows.
#[derive(Clone, Copy, Debug, PartialEq, Eq, Structural)]
pub struct QuadPlan {
    pub particle: usize,
    pub shape: QuadShape,
}

/// What the layout reads of a cloud.
#[derive(Clone, Copy, Debug, PartialEq, Eq, Structural)]
pub struct CloudPlan {
    pub head_tail: u8,
    pub twinkle_percent: Single,
    pub spin: Single,
}

/// A particle is dark this frame.
pub open spec fn dark(cloud: CloudPlan, mote: Mote) -> bool {
    cloud.twinkle_percent.below(Single::from_bits(FULL_PERCENT)) && cloud.twinkle_percent.below(
        mote.noise,
    )
}

/// The head of a particle.
pub open spec fn head_shape(cloud: CloudPlan, mote: Mote) -> QuadShape {
    QuadShape::Head {
        angle: if cloud.spin.nan() || cloud.spin.rank() != 0 {
            Some(spun(mote.spun, mote.phase))
        } else {
            None
        },
    }
}

/// The tail of a particle.
pub open spec fn tail_shape(mote: Mote) -> QuadShape {
    if mote.tail.below(Single::from_bits(LEAST_TAIL)) {
        QuadShape::Stub
    } else {
        QuadShape::Streak
    }
}

/// The quads of one particle: none while it is dark, and else its head and then its tail, as far as it
/// has them.
pub open spec fn quads_of_one(cloud: CloudPlan, mote: Mote, i: usize) -> Seq<QuadPlan> {
    if dark(cloud, mote) {
        seq![]
    } else {
        (if cloud.head_tail != 1 {
            seq![QuadPlan { particle: i, shape: head_shape(cloud, mote) }]
        } else {
            seq![]
        }) + (if cloud.head_tail >= 1 {
            seq![QuadPlan { particle: i, shape: tail_shape(mote) }]
        } else {
            seq![]
        })
    }
}

/// The quads of a cloud, in the order of its pool.
pub open spec fn quads_of(cloud: CloudPlan, motes: Seq<Mote>) -> Seq<QuadPlan>
    decreases motes.len(),
{
    if motes.len() == 0 {
        seq![]
    } else {
        quads_of(cloud, motes.drop_last()) + quads_of_one(
            cloud,
            motes.last(),
            (motes.len() - 1) as usize,
        )
    }
}

/// Lay out the quads of a cloud.
pub fn expand_quads(cloud: CloudPlan, motes: &Vec<Mote>) -> (quads: Vec<QuadPlan>)
    ensures
        quads@ == quads_of(cloud, motes@),
{
    let parts = parts_of(cloud.head_tail);
    let spins = !(cloud.spin.is_at_most(zero()) && zero().is_at_most(cloud.spin));
    let mut quads: Vec<QuadPlan> = Vec::new();
    for i in 0..motes.len()
        invariant
            parts == (Parts { head: cloud.head_tail != 1, tail: cloud.head_tail >= 1 }),
            spins == (cloud.spin.nan() || cloud.spin.rank() != 0),
            quads@ == quads_of(cloud, motes@.take(i as int)),
    {
        let mote = motes[i];
        let ghost before = quads@;
        assert(motes@.take(i + 1).drop_last() == motes@.take(i as int));
        assert(motes@.take(i + 1).last() == mote);
        if !is_dark(cloud.twinkle_percent, mote.noise, Single::from_bits(FULL_PERCENT)) {
            if parts.head {
                let angle = if spins {
                    Some(spin_angle(mote.spun, mote.phase))
                } else {
                    None
                };
                quads.push(QuadPlan { particle: i, shape: QuadShape::Head { angle } });
            }
            if parts.tail {
                let shape = if mote.tail.is_below(Single::from_bits(LEAST_TAIL)) {
                    QuadShape::Stub
                } else {
                    QuadShape::Streak
                };
                quads.push(QuadPlan { particle: i, shape });
            }
        }
        assert(quads@ =~= before + quads_of_one(cloud, mote, i));
    }
    assert(motes@.take(motes@.len() as int) == motes@);
    quads
}

/// Quads stay in the order of the pool, at most two to a particle, and a dark particle has none.
pub proof fn quads_keep_the_order_of_the_pool(cloud: CloudPlan, motes: Seq<Mote>)
    requires
        motes.len() <= usize::MAX,
    ensures
        quads_of(cloud, motes).len() <= 2 * motes.len(),
        forall|a: int, b: int|
            0 <= a <= b < quads_of(cloud, motes).len() ==> (#[trigger] quads_of(
                cloud,
                motes,
            )[a]).particle <= (#[trigger] quads_of(cloud, motes)[b]).particle,
        forall|a: int|
            0 <= a < quads_of(cloud, motes).len() ==> {
                let i = (#[trigger] quads_of(cloud, motes)[a]).particle;
                i < motes.len() && !dark(cloud, motes[i as int])
            },
    decreases motes.len(),
{
    if motes.len() > 0 {
        let before = motes.drop_last();
        quads_keep_the_order_of_the_pool(cloud, before);
        let last = (motes.len() - 1) as usize;
        let rest = quads_of(cloud, before);
        let own = quads_of_one(cloud, motes.last(), last);
        let all = quads_of(cloud, motes);
        assert(own.len() <= 2);
        assert(all == rest + own);
        assert forall|a: int| 0 <= a < all.len() implies {
            let i = (#[trigger] all[a]).particle;
            &&& i < motes.len() && !dark(cloud, motes[i as int])
            &&& a < rest.len() ==> i < last
            &&& a >= rest.len() ==> i == last
        } by {
            if a < rest.len() {
                assert(all[a] == rest[a]);
                assert(before[rest[a].particle as int] == motes[rest[a].particle as int]);
            } else {
                assert(all[a] == own[a - rest.len()]);
            }
        }
        assert forall|a: int, b: int| 0 <= a <= b < all.len() implies (#[trigger] all[a]).particle <= (
        #[trigger] all[b]).particle by {
            if b < rest.len() {
                assert(all[a] == rest[a] && all[b] == rest[b]);
            }
        }
    }
}

/// A corner of a quad: the steps to it across and along the axes that it is spanned on, and the corner
/// of its cell that it shows.
#[derive(Clone, Copy, Debug, PartialEq, Eq, Structural)]
pub struct CornerPlan {
    pub across: i32,
    pub along: i32,
    /// At the far end of the cell's width.
    pub far: bool,
    /// At the lower end of its height.
    pub low: bool,
}

/// The corners of a quad. A streak begins at its particle, and runs the width of its cell along.
pub open spec fn corner_plan(streak: bool, k: int) -> CornerPlan {
    if streak {
        CornerPlan {
            across: if k == 0 || k == 3 {
                -1i32
            } else {
                1i32
            },
            along: if k >= 2 {
                1i32
            } else {
                0i32
            },
            far: k >= 2,
            low: k == 0 || k == 3,
        }
    } else {
        CornerPlan {
            across: if k == 0 || k == 3 {
                -1i32
            } else {
                1i32
            },
            along: if k >= 2 {
                1i32
            } else {
                -1i32
            },
            far: k == 1 || k == 2,
            low: k < 2,
        }
    }
}

/// The corners of a quad, in the order in which its indices name them.
pub fn corners(shape: QuadShape) -> (corners: Vec<CornerPlan>)
    ensures
        corners@ == Seq::new(4, |k: int| corner_plan(shape is Streak, k)),
{
    let streak = matches!(shape, QuadShape::Streak);
    let mut corners: Vec<CornerPlan> = Vec::new();
    for k in 0..4usize
        invariant
            streak == (shape is Streak),
            corners@ == Seq::new(k as nat, |k: int| corner_plan(shape is Streak, k)),
    {
        let left = k == 0 || k == 3;
        let across: i32 = if left {
            -1
        } else {
            1
        };
        let along: i32 = if k >= 2 {
            1
        } else if streak {
            0
        } else {
            -1
        };
        let (far, low) = if streak {
            (k >= 2, left)
        } else {
            (!left, k < 2)
        };
        corners.push(CornerPlan { across, along, far, low });
        assert(corners@ =~= Seq::new((k + 1) as nat, |k: int| corner_plan(shape is Streak, k)));
    }
    corners
}

/// A quad shows the whole of its cell, each corner of it once; and its own corners go round: from each
/// to the next there is one step, across or along.
pub proof fn a_quad_shows_its_whole_cell(streak: bool, j: int, k: int)
    requires
        0 <= j < 4,
        0 <= k < 4,
    ensures
        corner_plan(streak, j).far == corner_plan(streak, k).far && corner_plan(streak, j).low
            == corner_plan(streak, k).low ==> j == k,
        ({
            let here = corner_plan(streak, k);
            let next = corner_plan(streak, (k + 1) % 4);
            (here.across != next.across) != (here.along != next.along)
        }),
{
}

/// The corner of a quad that each of its six indices names: two triangles over one diagonal.
pub open spec fn corner(k: int) -> int {
    if k == 0 || k == 3 {
        0
    } else if k == 1 {
        1
    } else if k == 2 || k == 4 {
        2
    } else {
        3
    }
}

/// The indices of a run of quads.
pub open spec fn indices_of(quads: nat) -> Seq<u32> {
    Seq::new(quads * 6, |i: int| (4 * (i / 6) + corner(i % 6)) as u32)
}

/// The indices of a run of quads.
pub fn quad_indices(quads: u32) -> (indices: Vec<u32>)
    requires
        quads <= 0x4000_0000,
    ensures
        indices@ == indices_of(quads as nat),
{
    let mut indices: Vec<u32> = Vec::new();
    for q in 0..quads
        invariant
            quads <= 0x4000_0000,
            indices@ == indices_of(q as nat),
    {
        let base: u32 = 4 * q;
        indices.push(base);
        indices.push(base + 1);
        indices.push(base + 2);
        indices.push(base);
        indices.push(base + 2);
        indices.push(base + 3);
        assert(indices@ =~= indices_of((q + 1) as nat)) by {
            assert forall|i: int| 0 <= i < 6 * (q + 1) implies indices@[i] == indices_of(
                (q + 1) as nat,
            )[i] by {
                if i < 6 * q {
                    assert(indices@[i] == indices_of(q as nat)[i]);
                } else {
                    assert(i / 6 == q && i % 6 == i - 6 * q);
                }
            }
        }
    }
    indices
}

/// The quads of a frame stay within the vertices that were written for them, and each quad uses its
/// own four corners, all of them, and no others.
pub proof fn indices_stay_within_their_quads(quads: nat, q: int)
    requires
        quads <= 0x4000_0000,
        0 <= q < quads,
    ensures
        forall|k: int|
            0 <= k < 6 ==> 4 * q <= #[trigger] indices_of(quads)[6 * q + k] < 4 * q + 4,
        indices_of(quads)[6 * q] == 4 * q,
        indices_of(quads)[6 * q + 1] == 4 * q + 1,
        indices_of(quads)[6 * q + 2] == 4 * q + 2,
        indices_of(quads)[6 * q + 5] == 4 * q + 3,
{
    assert forall|k: int| 0 <= k < 6 implies 4 * q <= #[trigger] indices_of(quads)[6 * q + k] < 4 * q
        + 4 by {
        assert((6 * q + k) / 6 == q && (6 * q + k) % 6 == k);
    }
    assert((6 * q) / 6 == q && (6 * q) % 6 == 0);
    assert((6 * q + 1) / 6 == q && (6 * q + 1) % 6 == 1);
    assert((6 * q + 2) / 6 == q && (6 * q + 2) % 6 == 2);
    assert((6 * q + 5) / 6 == q && (6 * q + 5) % 6 == 5);
}

/// A cloud that spins forward turns as one; one that spins backward turns half of itself the other way
/// round, and nothing ever changes how fast.
pub proof fn spin_only_ever_turns_over(angle: Single, phase: u32)
    ensures
        spun(angle, phase).absolute() == angle.absolute(),
        zero().at_most(angle) ==> spun(angle, phase) == angle,
        angle.below(zero()) ==> (spun(angle, phase) == angle <==> phase & 0x20 == 0),
{
}

/// Drawing on from where a run of draws left off is one longer run; one draw is one step.
pub proof fn draws_follow_on(seed: u32, a: nat, b: nat)
    ensures
        drawn(seed, a + b) == drawn(drawn(seed, a), b),
        drawn(seed, 0) == seed,
        drawn(seed, 1) == xorshift(seed),
    decreases b,
{
    assert(drawn(seed, 1) == xorshift(drawn(seed, 0)));
    if b > 0 {
        draws_follow_on(seed, a, (b - 1) as nat);
    }
}

/// The flicker table holds the high bits of the draws from its seed, each from the state that the one
/// before it left.
pub proof fn the_flicker_table_is_drawn(table: Seq<u32>, states: Seq<u32>, i: int)
    requires
        is_twinkle(table),
        states.len() == 129,
        states[0] == 0xC0FF_EE11,
        forall|k: int| 0 < k < 129 ==> #[trigger] states[k] == xorshift(states[k - 1]),
        0 <= i < 128,
    ensures
        table.len() == 128,
        table[i] == states[i + 1] / 256,
{
    the_states_are_the_draws(states, i + 1);
    crate::particles::rng::a_draw_keeps_the_high_bits(states[i + 1]);
}

proof fn the_states_are_the_draws(states: Seq<u32>, n: int)
    requires
        states.len() == 129,
        states[0] == 0xC0FF_EE11,
        forall|k: int| 0 < k < 129 ==> #[trigger] states[k] == xorshift(states[k - 1]),
        0 <= n < 129,
    ensures
        states[n] == drawn(TWINKLE_SEED, n as nat),
    decreases n,
{
    if n > 0 {
        the_states_are_the_draws(states, n - 1);
    }
}

/// A flicker goes round the table: its place moves on by one with each step and begins anew behind the
/// end.
pub proof fn a_flicker_goes_round_the_table(flicker: u8, phase: u32)
    ensures
        twinkle_place(flicker, phase) as int == (flicker + phase) % 128,
{
    let sum = (flicker as u32).wrapping_add(phase);
    assert(sum & 0x7f == sum % 128) by (bit_vector);
    assert(sum == (flicker + phase) % 0x1_0000_0000);
}

/// At full percentage a particle is never dark; below it, while its sample lies above the percentage.
pub proof fn only_samples_above_go_dark(percent: Single, sample: Single)
    ensures
        ({
            let full = Single::from_bits(0x3f80_0000);
            &&& full.at_most(percent) ==> !dims(percent, sample, full)
            &&& sample.at_most(percent) ==> !dims(percent, sample, full)
            &&& percent.below(full) && percent.below(sample) ==> dims(percent, sample, full)
            &&& forall|cloud: CloudPlan, mote: Mote|
                cloud.twinkle_percent == percent && mote.noise == sample ==> #[trigger] dark(
                    cloud,
                    mote,
                ) == dims(percent, sample, full)
        }),
{
}

/// Counting along the rows of its atlas, a cell comes after as many others as its number says; a number
/// past the end is that of the last cell. An atlas has one row and one column at least.
pub proof fn cells_are_counted_along_the_rows(cell: u16, tile_rows: u16, tile_cols: u16)
    ensures
        ({
            let c = cell_of(cell, tile_rows, tile_cols);
            let number = c.row * c.columns + c.column;
            &&& tile_rows > 0 ==> c.rows == tile_rows
            &&& tile_rows == 0 ==> c.rows == 1
            &&& tile_cols > 0 ==> c.columns == tile_cols
            &&& tile_cols == 0 ==> c.columns == 1
            &&& c.column < c.columns
            &&& c.row < c.rows
            &&& cell < c.rows * c.columns ==> number == cell
            &&& cell >= c.rows * c.columns ==> number == c.rows * c.columns - 1
        }),
{
    let columns = at_least_one(tile_cols);
    let rows = at_least_one(tile_rows);
    assert(rows * columns >= 1) by (nonlinear_arith)
        requires
            rows >= 1,
            columns >= 1,
    ;
    let n = if cell < rows * columns {
        cell as int
    } else {
        rows * columns - 1
    };
    assert(n % columns < columns && n % columns >= 0 && 0 <= n / columns < rows && (n / columns)
        * columns + n % columns == n) by (nonlinear_arith)
        requires
            0 <= n < rows * columns,
            columns >= 1,
    ;
}

/// A particle of kind nought is a head, one of kind one a tail, and any other both.
pub proof fn kinds_have_their_parts(kind: u8)
    ensures
        kind == 0 ==> parts_drawn(kind).head && !parts_drawn(kind).tail,
        kind == 1 ==> !parts_drawn(kind).head && parts_drawn(kind).tail,
        kind > 1 ==> parts_drawn(kind).head && parts_drawn(kind).tail,
{
}

/// What a particle shows: nothing while it is dark; else the head that its kind has, turned by its own
/// spin where the cloud spins, and after that the tail that its kind has, along its motion unless the
/// camera looks down it.
pub proof fn what_one_particle_shows(cloud: CloudPlan, mote: Mote, i: usize)
    ensures
        ({
            let quads = quads_of_one(cloud, mote, i);
            let dimmed = cloud.twinkle_percent.below(Single::from_bits(0x3f80_0000))
                && cloud.twinkle_percent.below(mote.noise);
            let still = cloud.spin.at_most(zero()) && zero().at_most(cloud.spin);
            let headed = cloud.head_tail != 1;
            let tailed = cloud.head_tail != 0;
            &&& dimmed ==> quads.len() == 0
            &&& !dimmed ==> {
                &&& quads.len() == (if headed && tailed {
                    2
                } else {
                    1int
                })
                &&& forall|k: int| 0 <= k < quads.len() ==> (#[trigger] quads[k]).particle == i
                &&& headed && still ==> quads[0].shape == (QuadShape::Head { angle: None })
                &&& headed && !still ==> quads[0].shape == (QuadShape::Head {
                    angle: Some(spun(mote.spun, mote.phase)),
                })
                &&& tailed && mote.tail.below(Single::from_bits(0x3a49_d9d3))
                    ==> quads.last().shape == QuadShape::Stub
                &&& tailed && !mote.tail.below(Single::from_bits(0x3a49_d9d3))
                    ==> quads.last().shape == QuadShape::Streak
            }
        }),
{
}

/// Two clouds' worth of particles, one behind the other, show what the first shows and then what the
/// second does, its particles numbered on.
pub proof fn clouds_show_one_after_the_other(cloud: CloudPlan, motes: Seq<Mote>, i: int)
    requires
        motes.len() <= usize::MAX,
        0 <= i < motes.len(),
    ensures
        quads_of(cloud, motes.take(i)) + quads_of_one(cloud, motes[i], i as usize) == quads_of(
            cloud,
            motes.take(i + 1),
        ),
        (quads_of(cloud, motes.take(i)) + quads_of_one(cloud, motes[i], i as usize)).is_prefix_of(
            quads_of(cloud, motes),
        ),
        quads_of(cloud, motes.take(0)).len() == 0,
    decreases motes.len() - i,
{
    let here = motes.take(i + 1);
    assert(here.drop_last() =~= motes.take(i));
    assert(here.last() == motes[i]);
    if i + 1 < motes.len() {
        clouds_show_one_after_the_other(cloud, motes, i + 1);
    } else {
        assert(here =~= motes);
    }
}

/// A quad goes round from its left corner at the start of its height: to the right, up, and to the left
/// again. A square's width is its cell's width, and its height its cell's height; a streak begins at its
/// particle, and its length is its cell's width.
pub proof fn corners_go_round(streak: bool, k: int)
    requires
        0 <= k < 4,
    ensures
        ({
            let c = corner_plan(streak, k);
            &&& k == 0 || k == 3 ==> c.across == -1
            &&& k == 1 || k == 2 ==> c.across == 1
            &&& k >= 2 ==> c.along == 1
            &&& k < 2 && streak ==> c.along == 0
            &&& k < 2 && !streak ==> c.along == -1
            &&& !streak ==> (c.far <==> c.across == 1) && (c.low <==> c.along == -1)
            &&& streak ==> (c.far <==> c.along == 1) && (c.low <==> c.across == -1)
        }),
{
}

/// A quad is two triangles over its diagonal, both going round as its corners do: from the first corner
/// over the second to the third, and from the first over the third to the fourth.
pub proof fn a_quad_is_two_triangles(quads: nat, q: int)
    requires
        quads <= 0x4000_0000,
        0 <= q < quads,
    ensures
        indices_of(quads).len() == 6 * quads,
        indices_of(quads)[6 * q] == 4 * q,
        indices_of(quads)[6 * q + 1] == 4 * q + 1,
        indices_of(quads)[6 * q + 2] == 4 * q + 2,
        indices_of(quads)[6 * q + 3] == 4 * q,
        indices_of(quads)[6 * q + 4] == 4 * q + 2,
        indices_of(quads)[6 * q + 5] == 4 * q + 3,
{
    indices_stay_within_their_quads(quads, q);
    assert((6 * q + 3) / 6 == q && (6 * q + 3) % 6 == 3);
    assert((6 * q + 4) / 6 == q && (6 * q + 4) % 6 == 4);
}

} // verus!
