use vstd::arithmetic::div_mod::{lemma_div_pos_is_pos, lemma_fundamental_div_mod, lemma_mod_pos_bound};
use vstd::arithmetic::mul::lemma_mul_is_distributive_add;
use vstd::prelude::*;

verus! {

/// A rectangle of terminal cells: its top-left corner, then its extent.
#[derive(Clone, Copy, Debug, PartialEq, Eq, Structural)]
pub struct Rect {
    pub x: u16,
    pub y: u16,
    pub width: u16,
    pub height: u16,
}

/// The axis along which a region is cut.
#[derive(Clone, Copy, Debug, PartialEq, Eq, Structural)]
pub enum Direction {
    Vertical,
    Horizontal,
}

/// A sizing rule for one segment of a region.
#[derive(Clone, Copy, Debug, PartialEq, Eq, Structural)]
pub enum Constraint {
    Percentage(u16),
    Length(u16),
    Min(u16),
}

impl Rect {
    /// The rectangle stays on the screen's coordinate range.
    pub open spec fn wf(self) -> bool {
        self.x + self.width <= u16::MAX && self.y + self.height <= u16::MAX
    }

    pub open spec fn area(self) -> int {
        self.width * self.height
    }

    /// No cell lies in both rectangles.
    pub open spec fn disjoint(self, o: Rect) -> bool {
        self.x + self.width <= o.x || o.x + o.width <= self.x || self.y + self.height <= o.y
            || o.y + o.height <= self.y
    }

    /// Every cell of `o` lies in `self`.
    pub open spec fn encloses(self, o: Rect) -> bool {
        self.x <= o.x && o.x + o.width <= self.x + self.width && self.y <= o.y && o.y + o.height
            <= self.y + self.height
    }

    pub fn new(x: u16, y: u16, width: u16, height: u16) -> (r: Rect)
        requires
            x + width <= u16::MAX,
            y + height <= u16::MAX,
        ensures
            r == (Rect { x, y, width, height }),
            r.wf(),
    {
        Rect { x, y, width, height }
    }

    /// The region left when `margin` cells are taken off each side.
    pub fn inner(self, margin: u16) -> (r: Rect)
        requires
            self.wf(),
        ensures
            r == shrink(self, margin),
            r.wf(),
    {
        if margin <= self.width / 2 && margin <= self.height / 2 {
            Rect {
                x: self.x + margin,
                y: self.y + margin,
                width: self.width - 2 * margin,
                height: self.height - 2 * margin,
            }
        } else {
            Rect { x: self.x, y: self.y, width: 0, height: 0 }
        }
    }
}

/// `r` with `m` cells taken off each side; a region too small for its margin leaves nothing.
pub open spec fn shrink(r: Rect, m: u16) -> Rect {
    if 2 * m <= r.width && 2 * m <= r.height {
        Rect {
            x: (r.x + m) as u16,
            y: (r.y + m) as u16,
            width: (r.width - 2 * m) as u16,
            height: (r.height - 2 * m) as u16,
        }
    } else {
        Rect { x: r.x, y: r.y, width: 0, height: 0 }
    }
}

/// The cells that a constraint asks for before any share is handed out.
pub open spec fn claim(c: Constraint) -> int {
    match c {
        Constraint::Length(n) => n as int,
        Constraint::Min(n) => n as int,
        Constraint::Percentage(_) => 0,
    }
}

pub open spec fn percent(c: Constraint) -> int {
    match c {
        Constraint::Percentage(p) => p as int,
        _ => 0,
    }
}

/// Sum of the claims of the first `k` constraints.
pub open spec fn claims_upto(cs: Seq<Constraint>, k: int) -> int
    decreases k,
{
    if k <= 0 {
        0
    } else {
        claims_upto(cs, k - 1) + claim(cs[k - 1])
    }
}

/// Sum of the percentages of the first `k` constraints.
pub open spec fn percents_upto(cs: Seq<Constraint>, k: int) -> int
    decreases k,
{
    if k <= 0 {
        0
    } else {
        percents_upto(cs, k - 1) + percent(cs[k - 1])
    }
}

/// Index of the last `Min` among the first `k` constraints, or -1.
pub open spec fn last_min_upto(cs: Seq<Constraint>, k: int) -> int
    decreases k,
{
    if k <= 0 {
        -1
    } else if cs[k - 1] is Min {
        k - 1
    } else {
        last_min_upto(cs, k - 1)
    }
}

/// The segment that takes what rounding leaves: the last `Min`, else the last segment.
pub open spec fn receiver(cs: Seq<Constraint>) -> int {
    if last_min_upto(cs, cs.len() as int) >= 0 {
        last_min_upto(cs, cs.len() as int)
    } else {
        cs.len() - 1
    }
}

/// Space left once every claim is met (none if the claims do not fit).
pub open spec fn spare(len: int, cs: Seq<Constraint>) -> int {
    if claims_upto(cs, cs.len() as int) <= len {
        len - claims_upto(cs, cs.len() as int)
    } else {
        0
    }
}

/// The part of its claim that segment `i` gets, claims being served in order.
pub open spec fn base(len: int, cs: Seq<Constraint>, i: int) -> int {
    let room = len - claims_upto(cs, i);
    if room <= 0 {
        0
    } else if claim(cs[i]) <= room {
        claim(cs[i])
    } else {
        room
    }
}

/// Segment `i`'s share of the spare space, by its percentage among all percentages, rounded down.
pub open spec fn share(len: int, cs: Seq<Constraint>, i: int) -> int {
    let t = percents_upto(cs, cs.len() as int);
    if t > 0 {
        spare(len, cs) * percent(cs[i]) / t
    } else {
        0
    }
}

pub open spec fn shares_upto(len: int, cs: Seq<Constraint>, k: int) -> int
    decreases k,
{
    if k <= 0 {
        0
    } else {
        shares_upto(len, cs, k - 1) + share(len, cs, k - 1)
    }
}

/// Spare space that rounding the shares down leaves over.
pub open spec fn leftover(len: int, cs: Seq<Constraint>) -> int {
    spare(len, cs) - shares_upto(len, cs, cs.len() as int)
}

/// Length of segment `i` along the cut axis.
pub open spec fn segment_size(len: int, cs: Seq<Constraint>, i: int) -> int {
    base(len, cs, i) + share(len, cs, i) + if i == receiver(cs) {
        leftover(len, cs)
    } else {
        0
    }
}

pub open spec fn sizes_upto(len: int, cs: Seq<Constraint>, k: int) -> int
    decreases k,
{
    if k <= 0 {
        0
    } else {
        sizes_upto(len, cs, k - 1) + segment_size(len, cs, k - 1)
    }
}

pub open spec fn axis_len(r: Rect, d: Direction) -> int {
    match d {
        Direction::Vertical => r.height as int,
        Direction::Horizontal => r.width as int,
    }
}

/// Segment `i` of `inner`: it starts where the segments before it end.
pub open spec fn segment(inner: Rect, d: Direction, cs: Seq<Constraint>, i: int) -> Rect {
    let len = axis_len(inner, d);
    let off = sizes_upto(len, cs, i);
    let size = segment_size(len, cs, i);
    match d {
        Direction::Vertical => Rect {
            x: inner.x,
            y: (inner.y + off) as u16,
            width: inner.width,
            height: size as u16,
        },
        Direction::Horizontal => Rect {
            x: (inner.x + off) as u16,
            y: inner.y,
            width: size as u16,
            height: inner.height,
        },
    }
}

pub open spec fn segments(inner: Rect, d: Direction, cs: Seq<Constraint>) -> Seq<Rect> {
    Seq::new(cs.len(), |i: int| segment(inner, d, cs, i))
}

pub open spec fn areas_upto(rs: Seq<Rect>, k: int) -> int
    decreases k,
{
    if k <= 0 {
        0
    } else {
        areas_upto(rs, k - 1) + rs[k - 1].area()
    }
}

proof fn lemma_claims_bounds(cs: Seq<Constraint>, k: int)
    requires
        0 <= k <= cs.len(),
    ensures
        0 <= claims_upto(cs, k) <= 65535 * k,
        0 <= percents_upto(cs, k) <= 65535 * k,
        -1 <= last_min_upto(cs, k) < k,
    decreases k,
{
    if k > 0 {
        lemma_claims_bounds(cs, k - 1);
    }
}

/// Shares are non-negative, and all of them together, times the percentage total,
/// stay within the spare space times the percentages seen so far.
proof fn lemma_shares_bound(len: int, cs: Seq<Constraint>, k: int)
    requires
        0 <= k <= cs.len(),
        0 <= len,
    ensures
        0 <= shares_upto(len, cs, k),
        shares_upto(len, cs, k) * percents_upto(cs, cs.len() as int) <= spare(len, cs)
            * percents_upto(cs, k),
    decreases k,
{
    let t = percents_upto(cs, cs.len() as int);
    let s = spare(len, cs);
    lemma_claims_bounds(cs, cs.len() as int);
    if k > 0 {
        lemma_shares_bound(len, cs, k - 1);
        let p = percent(cs[k - 1]);
        let prev = shares_upto(len, cs, k - 1);
        let pk = percents_upto(cs, k - 1);
        lemma_claims_bounds(cs, k - 1);
        if t > 0 {
            lemma_fundamental_div_mod(s * p, t);
            assert(0 <= s * p) by (nonlinear_arith)
                requires
                    0 <= s,
                    0 <= p,
            ;
            lemma_mod_pos_bound(s * p, t);
            lemma_div_pos_is_pos(s * p, t);
            let q = s * p / t;
            assert(q * t <= s * p) by (nonlinear_arith)
                requires
                    s * p == t * q + (s * p) % t,
                    0 <= (s * p) % t,
            ;
            assert((prev + q) * t <= s * (pk + p)) by (nonlinear_arith)
                requires
                    prev * t <= s * pk,
                    q * t <= s * p,
            ;
        } else {
            assert(prev * t == 0) by (nonlinear_arith)
                requires
                    t == 0,
            ;
            assert((prev + 0) * t == 0) by (nonlinear_arith)
                requires
                    t == 0,
            ;
            assert(0 <= s * (pk + p)) by (nonlinear_arith)
                requires
                    0 <= s,
                    0 <= pk,
                    0 <= p,
            ;
            lemma_claims_bounds(cs, k);
        }
    } else {
        assert(0 * t == 0);
        assert(s * 0 == 0);
    }
}

/// All shares together take no more than the spare space.
proof fn lemma_shares_fit(len: int, cs: Seq<Constraint>)
    requires
        0 <= len,
    ensures
        0 <= shares_upto(len, cs, cs.len() as int) <= spare(len, cs),
        forall|i: int| 0 <= i < cs.len() ==> 0 <= #[trigger] share(len, cs, i),
{
    let n = cs.len() as int;
    let t = percents_upto(cs, n);
    let s = spare(len, cs);
    lemma_shares_bound(len, cs, n);
    lemma_claims_bounds(cs, n);
    if t > 0 {
        let sum = shares_upto(len, cs, n);
        assert(sum <= s) by (nonlinear_arith)
            requires
                sum * t <= s * t,
                t > 0,
        ;
        assert forall|i: int| 0 <= i < cs.len() implies 0 <= #[trigger] share(len, cs, i) by {
            assert(0 <= s * percent(cs[i])) by (nonlinear_arith)
                requires
                    0 <= s,
                    0 <= percent(cs[i]),
            ;
            lemma_div_pos_is_pos(s * percent(cs[i]), t);
        }
    } else {
        lemma_no_shares(len, cs, n);
    }
}

proof fn lemma_no_shares(len: int, cs: Seq<Constraint>, k: int)
    requires
        percents_upto(cs, cs.len() as int) <= 0,
    ensures
        shares_upto(len, cs, k) == 0,
    decreases k,
{
    if k > 0 {
        lemma_no_shares(len, cs, k - 1);
    }
}

pub open spec fn bases_upto(len: int, cs: Seq<Constraint>, k: int) -> int
    decreases k,
{
    if k <= 0 {
        0
    } else {
        bases_upto(len, cs, k - 1) + base(len, cs, k - 1)
    }
}

/// Claims served in order fill the axis up to the smaller of their sum and its length.
proof fn lemma_bases_sum(len: int, cs: Seq<Constraint>, k: int)
    requires
        0 <= len,
        0 <= k <= cs.len(),
    ensures
        bases_upto(len, cs, k) == if claims_upto(cs, k) <= len {
            claims_upto(cs, k)
        } else {
            len
        },
    decreases k,
{
    lemma_claims_bounds(cs, k);
    if k > 0 {
        lemma_bases_sum(len, cs, k - 1);
        lemma_claims_bounds(cs, k - 1);
    }
}

proof fn lemma_sizes_split(len: int, cs: Seq<Constraint>, k: int)
    requires
        0 <= k <= cs.len(),
        cs.len() > 0,
    ensures
        sizes_upto(len, cs, k) == bases_upto(len, cs, k) + shares_upto(len, cs, k) + if receiver(
            cs,
        ) < k {
            leftover(len, cs)
        } else {
            0
        },
    decreases k,
{
    lemma_claims_bounds(cs, cs.len() as int);
    if k > 0 {
        lemma_sizes_split(len, cs, k - 1);
    }
}

/// Segment sizes are non-negative, their running sums stay within the axis,
/// and over a non-empty list they add up to the axis length exactly.
pub proof fn lemma_sizes_fill(len: int, cs: Seq<Constraint>)
    requires
        0 <= len,
        cs.len() > 0,
    ensures
        sizes_upto(len, cs, cs.len() as int) == len,
        forall|i: int| 0 <= i < cs.len() ==> 0 <= #[trigger] segment_size(len, cs, i),
        forall|k: int|
            0 <= k <= cs.len() ==> 0 <= #[trigger] sizes_upto(len, cs, k) <= len,
{
    let n = cs.len() as int;
    lemma_claims_bounds(cs, n);
    lemma_shares_fit(len, cs);
    lemma_bases_sum(len, cs, n);
    lemma_sizes_split(len, cs, n);
    assert forall|i: int| 0 <= i < cs.len() implies 0 <= #[trigger] segment_size(len, cs, i) by {
        assert(0 <= share(len, cs, i));
    }
    assert forall|k: int| 0 <= k <= cs.len() implies 0 <= #[trigger] sizes_upto(len, cs, k)
        <= len by {
        lemma_sizes_monotone(len, cs, 0, k);
        lemma_sizes_monotone(len, cs, k, n);
    }
}

proof fn lemma_sizes_monotone(len: int, cs: Seq<Constraint>, j: int, k: int)
    requires
        0 <= len,
        0 <= j <= k <= cs.len(),
    ensures
        sizes_upto(len, cs, j) <= sizes_upto(len, cs, k),
    decreases k,
{
    if j < k {
        lemma_sizes_monotone(len, cs, j, k - 1);
        lemma_shares_fit(len, cs);
        assert(0 <= share(len, cs, k - 1));
    }
}

pub proof fn lemma_shrink_wf(r: Rect, m: u16)
    requires
        r.wf(),
    ensures
        shrink(r, m).wf(),
        r.encloses(shrink(r, m)),
{
}

/// Segment `i` holds the cells from its offset up to the next segment's offset, across the whole region.
proof fn lemma_segment_fields(inner: Rect, d: Direction, cs: Seq<Constraint>, i: int)
    requires
        inner.wf(),
        0 <= i < cs.len(),
    ensures
        ({
            let len = axis_len(inner, d);
            let s = segment(inner, d, cs, i);
            match d {
                Direction::Vertical => s.x == inner.x && s.width == inner.width && s.y == inner.y
                    + sizes_upto(len, cs, i) && s.height == segment_size(len, cs, i),
                Direction::Horizontal => s.y == inner.y && s.height == inner.height && s.x
                    == inner.x + sizes_upto(len, cs, i) && s.width == segment_size(len, cs, i),
            }
        }),
{
    let len = axis_len(inner, d);
    lemma_sizes_fill(len, cs);
    assert(sizes_upto(len, cs, i + 1) <= len);
}

proof fn lemma_areas(inner: Rect, d: Direction, cs: Seq<Constraint>, k: int)
    requires
        inner.wf(),
        0 <= k <= cs.len(),
    ensures
        areas_upto(segments(inner, d, cs), k) == match d {
            Direction::Vertical => inner.width * sizes_upto(inner.height as int, cs, k),
            Direction::Horizontal => inner.height * sizes_upto(inner.width as int, cs, k),
        },
    decreases k,
{
    let rs = segments(inner, d, cs);
    let len = axis_len(inner, d);
    if k > 0 {
        lemma_areas(inner, d, cs, k - 1);
        lemma_segment_fields(inner, d, cs, k - 1);
        let prev = sizes_upto(len, cs, k - 1);
        let size = segment_size(len, cs, k - 1);
        match d {
            Direction::Vertical => {
                lemma_mul_is_distributive_add(inner.width as int, prev, size);
            },
            Direction::Horizontal => {
                lemma_mul_is_distributive_add(inner.height as int, prev, size);
                assert(rs[k - 1].area() == inner.height * size) by (nonlinear_arith)
                    requires
                        rs[k - 1].width == size,
                        rs[k - 1].height == inner.height,
                ;
            },
        }
    }
}

/// Laying a region out leaves neither gap nor overlap: for a non-empty list of constraints every
/// segment lies inside the margined region, no two segments share a cell, and their areas add up
/// to the margined region's area.
pub proof fn lemma_partition_tiles(
    region: Rect,
    direction: Direction,
    margin: u16,
    cs: Seq<Constraint>,
)
    requires
        region.wf(),
        cs.len() > 0,
    ensures
        ({
            let inner = shrink(region, margin);
            let rs = segments(inner, direction, cs);
            &&& areas_upto(rs, cs.len() as int) == inner.area()
            &&& forall|i: int| 0 <= i < cs.len() ==> inner.encloses(#[trigger] rs[i])
            &&& forall|i: int, j: int| 0 <= i < j < cs.len() ==> rs[i].disjoint(rs[j])
        }),
{
    let inner = shrink(region, margin);
    let rs = segments(inner, direction, cs);
    let len = axis_len(inner, direction);
    let n = cs.len() as int;
    lemma_shrink_wf(region, margin);
    lemma_sizes_fill(len, cs);
    lemma_areas(inner, direction, cs, n);
    assert(inner.area() == inner.width * inner.height);
    assert forall|i: int| 0 <= i < cs.len() implies inner.encloses(#[trigger] rs[i]) by {
        lemma_segment_fields(inner, direction, cs, i);
        assert(sizes_upto(len, cs, i + 1) <= len);
    }
    assert forall|i: int, j: int| 0 <= i < j < cs.len() implies rs[i].disjoint(rs[j]) by {
        lemma_segment_fields(inner, direction, cs, i);
        lemma_segment_fields(inner, direction, cs, j);
        lemma_sizes_monotone(len, cs, i + 1, j);
    }
    match direction {
        Direction::Vertical => {},
        Direction::Horizontal => {
            assert(inner.height * inner.width == inner.width * inner.height) by (nonlinear_arith);
        },
    }
}

/// Segment `i`'s share of `spare`: `p` parts out of `total`, rounded down.
fn share_of(spare: u128, p: u16, total: u128) -> (r: u128)
    requires
        spare <= 65535,
    ensures
        total > 0 ==> r == (spare * p) as int / total as int,
        total == 0 ==> r == 0,
        r <= 65535 * 65535,
{
    if total > 0 {
        assert(spare * p <= 65535 * 65535) by (nonlinear_arith)
            requires
                spare <= 65535,
                p <= 65535,
        ;
        let x = spare * p as u128;
        assert(x / total <= x) by (nonlinear_arith)
            requires
                total > 0,
        ;
        x / total
    } else {
        0
    }
}

/// Cuts `region`, less `margin` cells on each side, into consecutive segments along
/// `direction`, one for each constraint and in the same order.
///
/// Lengths and minimums are served first, in order, each with what is left of the axis; the
/// space they leave is shared among the percentages in proportion, rounded down; what rounding
/// leaves goes to the last `Min` segment, or to the last segment when there is none.
pub fn partition(
    region: Rect,
    direction: Direction,
    margin: u16,
    constraints: &Vec<Constraint>,
) -> (r: Vec<Rect>)
    requires
        region.wf(),
    ensures
        r@ == segments(shrink(region, margin), direction, constraints@),
{
    let inner = region.inner(margin);
    let len: u16 = match direction {
        Direction::Vertical => inner.height,
        Direction::Horizontal => inner.width,
    };
    let ghost cs = constraints@;
    let ghost glen = len as int;
    let n = constraints.len();
    let mut claimed: u128 = 0;
    let mut percents: u128 = 0;
    let mut has_min = false;
    let mut last_min: usize = 0;
    let mut i: usize = 0;
    while i < n
        invariant
            n == constraints.len(),
            cs == constraints@,
            0 <= i <= n,
            claimed == claims_upto(cs, i as int),
            percents == percents_upto(cs, i as int),
            has_min ==> last_min == last_min_upto(cs, i as int),
            !has_min ==> last_min_upto(cs, i as int) == -1,
        decreases n - i,
    {
        proof {
            lemma_claims_bounds(cs, i as int + 1);
        }
        match constraints[i] {
            Constraint::Length(v) => {
                claimed = claimed + v as u128;
            },
            Constraint::Min(v) => {
                claimed = claimed + v as u128;
                has_min = true;
                last_min = i;
            },
            Constraint::Percentage(p) => {
                percents = percents + p as u128;
            },
        }
        i = i + 1;
    }
    let room: u128 = if claimed <= len as u128 {
        len as u128 - claimed
    } else {
        0
    };
    assert(room == spare(glen, cs));
    let mut shared: u128 = 0;
    i = 0;
    while i < n
        invariant
            n == constraints.len(),
            cs == constraints@,
            0 <= i <= n,
            room == spare(glen, cs),
            room <= 65535,
            percents == percents_upto(cs, n as int),
            shared == shares_upto(glen, cs, i as int),
            shared <= 4294836225 * i,
        decreases n - i,
    {
        let p: u16 = match constraints[i] {
            Constraint::Percentage(p) => p,
            _ => 0,
        };
        let sh = share_of(room, p, percents);
        shared = shared + sh;
        i = i + 1;
    }
    proof {
        lemma_shares_fit(glen, cs);
        lemma_claims_bounds(cs, n as int);
    }
    let rest: u128 = room - shared;
    let last: usize = if has_min {
        last_min
    } else if n > 0 {
        n - 1
    } else {
        0
    };
    proof {
        if n > 0 {
            lemma_sizes_fill(glen, cs);
            lemma_shrink_wf(region, margin);
        }
    }
    let mut out: Vec<Rect> = Vec::new();
    let mut offset: u128 = 0;
    let mut prefix: u128 = 0;
    i = 0;
    while i < n
        invariant
            n == constraints.len(),
            cs == constraints@,
            0 <= i <= n,
            inner == shrink(region, margin),
            inner.wf(),
            glen == axis_len(inner, direction),
            len == glen,
            room == spare(glen, cs),
            room <= 65535,
            percents == percents_upto(cs, n as int),
            rest == leftover(glen, cs),
            rest <= room,
            n > 0 ==> last == receiver(cs),
            n > 0 ==> sizes_upto(glen, cs, n as int) == glen,
            forall|k: int| 0 <= k <= n ==> 0 <= #[trigger] sizes_upto(glen, cs, k) <= glen,
            prefix == claims_upto(cs, i as int),
            offset == sizes_upto(glen, cs, i as int),
            out.len() == i,
            forall|j: int| 0 <= j < i ==> out[j] == segment(inner, direction, cs, j),
        decreases n - i,
    {
        proof {
            lemma_claims_bounds(cs, i as int + 1);
        }
        let c = constraints[i];
        let want: u128 = match c {
            Constraint::Length(v) => v as u128,
            Constraint::Min(v) => v as u128,
            Constraint::Percentage(_) => 0,
        };
        let p: u16 = match c {
            Constraint::Percentage(p) => p,
            _ => 0,
        };
        let base: u128 = if prefix >= len as u128 {
            0
        } else if want <= len as u128 - prefix {
            want
        } else {
            len as u128 - prefix
        };
        let sh = share_of(room, p, percents);
        let bonus: u128 = if i == last {
            rest
        } else {
            0
        };
        let size: u128 = base + sh + bonus;
        assert(size == segment_size(glen, cs, i as int));
        assert(sizes_upto(glen, cs, i as int + 1) <= glen);
        let rect = match direction {
            Direction::Vertical => Rect {
                x: inner.x,
                y: (inner.y as u128 + offset) as u16,
                width: inner.width,
                height: size as u16,
            },
            Direction::Horizontal => Rect {
                x: (inner.x as u128 + offset) as u16,
                y: inner.y,
                width: size as u16,
                height: inner.height,
            },
        };
        out.push(rect);
        offset = offset + size;
        prefix = prefix + want;
        i = i + 1;
    }
    assert(out@ =~= segments(inner, direction, cs));
    out
}

} // verus!
