//! The snake: a grid-aligned body that follows a continuously moving head.
use vstd::prelude::*;
use vstd::arithmetic::div_mod::{lemma_fundamental_div_mod, lemma_fundamental_div_mod_converse};

use crate::coords::{
    grid_index, round_hundredths, screen_coordinates, snake_coordinates, to_grid, to_screen,
    trunc_div,
};
use crate::geometry::{Quad, Vec2};
use crate::util::{Direction, SNAKE_SPEED_INC, STARTING_SNAKE_SPEED, UNITS_PER_HUNDREDTH};

verus! {

/// Farthest the head may be from the origin on either axis (ten million screens).
pub const POSITION_LIMIT: i64 = 1_000_000_000_000;

/// Largest segment extent on either axis (ten screens).
pub const MAX_SEGMENT: i64 = 1_000_000;

/// Most segments a body can hold: one per possible score, plus the head.
pub const MAX_BODY_LEN: u64 = 4_294_967_296;

pub open spec fn within(v: int, bound: int) -> bool {
    -bound <= v <= bound
}

/// A segment extent the grid can work with: a positive whole number of
/// hundredths on each axis, at most `MAX_SEGMENT`.
pub open spec fn segment_size_ok(size: Vec2) -> bool {
    UNITS_PER_HUNDREDTH <= size.x <= MAX_SEGMENT && size.x % UNITS_PER_HUNDREDTH == 0
        && UNITS_PER_HUNDREDTH <= size.y <= MAX_SEGMENT && size.y % UNITS_PER_HUNDREDTH == 0
}

pub open spec fn position_ok(p: Vec2) -> bool {
    within(p.x as int, POSITION_LIMIT as int) && within(p.y as int, POSITION_LIMIT as int)
}

/// Segment `i` of a body: one cell in size, on the grid, and no farther out
/// than the head's range plus one segment per place in the body.
pub open spec fn segment_ok(q: Quad, i: int, size: Vec2) -> bool {
    &&& q.size == size
    &&& q.position.x % size.x == 0
    &&& q.position.y % size.y == 0
    &&& within(q.position.x as int, POSITION_LIMIT + (i + 1) * MAX_SEGMENT)
    &&& within(q.position.y as int, POSITION_LIMIT + (i + 1) * MAX_SEGMENT)
}

/// The screen position of the cell that holds `p`.
pub open spec fn snap(size: Vec2, p: Vec2) -> Vec2 {
    to_screen(size, to_grid(size, p))
}

/// What a snake is, as mathematics.
pub ghost struct SnakeView {
    pub body: Seq<Quad>,
    pub segment_size: Vec2,
    pub position: Vec2,
    pub direction: Direction,
    pub speed: int,
    pub score: nat,
    pub visible: bool,
}

impl SnakeView {
    /// Shape of every snake: sizes in range, head in range, body grid-aligned.
    pub open spec fn inv(self) -> bool {
        &&& segment_size_ok(self.segment_size)
        &&& position_ok(self.position)
        &&& 1 <= self.body.len() <= MAX_BODY_LEN
        &&& forall|i: int|
            0 <= i < self.body.len() ==> #[trigger] segment_ok(self.body[i], i, self.segment_size)
    }

    /// A snake between operations: one segment more than its score, and a
    /// speed that grew by a fixed step per point.
    pub open spec fn wf(self) -> bool {
        &&& self.inv()
        &&& self.body.len() == self.score + 1
        &&& self.speed == STARTING_SNAKE_SPEED + SNAKE_SPEED_INC * self.score
    }

    /// The cell of the (unsnapped) head position.
    pub open spec fn cell(self) -> (i32, i32) {
        to_grid(self.segment_size, self.position)
    }

    /// Body after the head moves to `p`: when the cell changes, the new cell
    /// goes in front and the last segment drops off.
    pub open spec fn moved_body(self, p: Vec2) -> Seq<Quad> {
        let cur = to_grid(self.segment_size, self.body[0].position);
        let new = to_grid(self.segment_size, p);
        if cur != new {
            seq![Quad { position: to_screen(self.segment_size, new), size: self.body[0].size }]
                + self.body.drop_last()
        } else {
            self.body
        }
    }

    pub open spec fn moved(self, p: Vec2) -> SnakeView {
        SnakeView { position: p, body: self.moved_body(p), ..self }
    }

    /// Direction after asking for `d`: a reversal is refused.
    pub open spec fn turned(self, d: Direction) -> SnakeView {
        if d.is_opposite(self.direction) {
            self
        } else {
            SnakeView { direction: d, ..self }
        }
    }

    /// A new segment one cell behind the tail, against the heading.
    pub open spec fn tail_extension(self) -> Quad {
        let last = self.body.last();
        let (dx, dy) = self.direction.step_spec();
        Quad {
            position: Vec2 {
                x: (last.position.x - dx * self.segment_size.x) as i64,
                y: (last.position.y - dy * self.segment_size.y) as i64,
            },
            size: last.size,
        }
    }

    pub open spec fn grown(self) -> SnakeView {
        SnakeView { body: self.body.push(self.tail_extension()), ..self }
    }

    /// One pellet eaten: a point more, a segment more, a step faster.
    pub open spec fn fed(self) -> SnakeView {
        SnakeView {
            score: self.score + 1,
            speed: self.speed + SNAKE_SPEED_INC,
            body: self.body.push(self.tail_extension()),
            ..self
        }
    }

    /// `n` pellets eaten in a row.
    pub open spec fn fed_times(self, n: nat) -> SnakeView
        decreases n,
    {
        if n == 0 {
            self
        } else {
            self.fed_times((n - 1) as nat).fed()
        }
    }

    /// Back to the start: no score, starting speed, at the origin, still, one segment.
    pub open spec fn reset(self) -> SnakeView {
        SnakeView {
            score: 0,
            speed: STARTING_SNAKE_SPEED as int,
            position: Vec2 { x: 0, y: 0 },
            direction: Direction::Idle,
            body: seq![Quad { position: Vec2 { x: 0, y: 0 }, size: self.segment_size }],
            ..self
        }
    }

    /// Whether the snake's box (centred on the head's cell, half a segment
    /// each way) strictly overlaps the quad's box.
    pub open spec fn box_overlaps(self, q: Quad) -> bool {
        boxes_overlap(snap(self.segment_size, self.position), self.segment_size, q)
    }
}

/// Strict overlap of the box centred at `c` with extent `s` and the quad's box
/// (each extends half its size around its centre). Edges that only touch do
/// not overlap.
pub open spec fn boxes_overlap(c: Vec2, s: Vec2, q: Quad) -> bool {
    &&& 2 * c.x - s.x < 2 * q.position.x + q.size.x
    &&& 2 * c.x + s.x > 2 * q.position.x - q.size.x
    &&& 2 * c.y - s.y < 2 * q.position.y + q.size.y
    &&& 2 * c.y + s.y > 2 * q.position.y - q.size.y
}

pub struct Snake {
    pub body: Vec<Quad>,
    pub segment_size: Vec2,
    pub position: Vec2,
    pub direction: Direction,
    pub speed: i64,
    pub score: u32,
    pub visible: bool,
}

impl View for Snake {
    type V = SnakeView;

    open spec fn view(&self) -> SnakeView {
        SnakeView {
            body: self.body@,
            segment_size: self.segment_size,
            position: self.position,
            direction: self.direction,
            speed: self.speed as int,
            score: self.score as nat,
            visible: self.visible,
        }
    }
}

/// Snapping a head position in range to the grid stays on the grid, close to it.
proof fn lemma_snap_axis(size: int, p: int)
    requires
        UNITS_PER_HUNDREDTH <= size <= MAX_SEGMENT,
        size % 1000 == 0,
        within(p, POSITION_LIMIT as int),
    ensures
        within(grid_index(size, p), 1_000_000_001),
        (grid_index(size, p) * size) % size == 0,
        within(grid_index(size, p) * size, POSITION_LIMIT + 500),
{
    let k = size / 1000;
    lemma_fundamental_div_mod_converse(size, 1000, k, 0);
    assert(round_hundredths(size) == k) by {
        lemma_fundamental_div_mod_converse(size + 500, 1000, k, 500);
    }
    let r = round_hundredths(p);
    let c = grid_index(size, p);
    assert(c == trunc_div(r, k));
    if p >= 0 {
        assert(r * 1000 <= p + 500 && r >= 0) by (nonlinear_arith)
            requires
                r == (p + 500) / 1000,
                p >= 0,
        ;
        assert(c >= 0 && c * k <= r) by (nonlinear_arith)
            requires
                c == r / k,
                r >= 0,
                k >= 1,
        ;
    } else {
        let n = (500 - p) / 1000;
        assert(n * 1000 <= 500 - p && n >= 0) by (nonlinear_arith)
            requires
                n == (500 - p) / 1000,
                p < 0,
        ;
        assert(r == -n);
        if r >= 0 {
            assert(c == 0) by (nonlinear_arith)
                requires
                    c == r / k,
                    r == 0,
                    k >= 1,
            ;
        } else {
            let m = n / k;
            assert(m >= 0 && m * k <= n) by (nonlinear_arith)
                requires
                    m == n / k,
                    n >= 0,
                    k >= 1,
            ;
            assert(c == -m);
        }
    }
    let a = if r >= 0 { r } else { -r };
    assert(-a <= c * k <= a) by (nonlinear_arith)
        requires
            (r >= 0 ==> c >= 0 && c * k <= r),
            (r < 0 ==> c <= 0 && -c * k <= -r),
            a == (if r >= 0 { r } else { -r }),
            k >= 1,
    ;
    assert(-a <= c <= a) by (nonlinear_arith)
        requires
            -a <= c * k <= a,
            k >= 1,
    ;
    assert(c * size == (c * k) * 1000) by (nonlinear_arith)
        requires
            size == k * 1000,
    ;
    lemma_fundamental_div_mod_converse(c * size, size, c, 0);
}

proof fn lemma_snap(size: Vec2, p: Vec2)
    requires
        segment_size_ok(size),
        position_ok(p),
    ensures
        segment_ok(Quad { position: snap(size, p), size }, 0, size),
        within(to_grid(size, p).0 as int, 1_000_000_001),
        within(to_grid(size, p).1 as int, 1_000_000_001),
        to_grid(size, p).0 * size.x == grid_index(size.x as int, p.x as int) * size.x,
        to_grid(size, p).1 * size.y == grid_index(size.y as int, p.y as int) * size.y,
        crate::coords::screen_fits(size, to_grid(size, p)),
{
    lemma_snap_axis(size.x as int, p.x as int);
    lemma_snap_axis(size.y as int, p.y as int);
}

/// A cell's screen position shifted by a whole number of cells is still on the grid.
proof fn lemma_aligned_shift(x: int, s: int, d: int)
    requires
        s > 0,
        x % s == 0,
    ensures
        (x - d * s) % s == 0,
{
    lemma_fundamental_div_mod(x, s);
    assert(x - d * s == (x / s - d) * s) by (nonlinear_arith)
        requires
            x == s * (x / s) + 0,
    ;
    lemma_fundamental_div_mod_converse(x - d * s, s, x / s - d, 0);
}

impl Snake {
    /// A still snake of one segment, snapped to the cell that holds `position`.
    pub fn new(position: Vec2, size: Vec2) -> (r: Snake)
        requires
            segment_size_ok(size),
            position_ok(position),
        ensures
            r@ == (SnakeView {
                body: seq![Quad { position: snap(size, position), size }],
                segment_size: size,
                position,
                direction: Direction::Idle,
                speed: STARTING_SNAKE_SPEED as int,
                score: 0,
                visible: false,
            }),
            r@.wf(),
    {
        proof {
            lemma_snap(size, position);
        }
        let cell = snake_coordinates(size, position);
        let head = screen_coordinates(size, cell);
        let mut body: Vec<Quad> = Vec::new();
        body.push(Quad::new(head, size));
        let r = Snake {
            body,
            segment_size: size,
            position,
            direction: Direction::Idle,
            speed: STARTING_SNAKE_SPEED,
            score: 0,
            visible: false,
        };
        assert(r@.body =~= seq![Quad { position: snap(size, position), size }]);
        r
    }

    /// Back to the start of a round: no score, starting speed, still at the
    /// origin, with a single segment there.
    pub fn reset(&mut self)
        requires
            old(self)@.inv(),
        ensures
            final(self)@ == old(self)@.reset(),
            final(self)@.wf(),
    {
        self.score = 0;
        self.speed = STARTING_SNAKE_SPEED;
        self.position = Vec2::new(0, 0);
        self.direction = Direction::Idle;
        let mut body: Vec<Quad> = Vec::new();
        body.push(Quad::new(Vec2::new(0, 0), self.segment_size));
        self.body = body;
        assert(self@.body =~= old(self)@.reset().body);
        assert(segment_ok(self@.body[0], 0, self.segment_size));
    }

    /// Keeps only the head segment.
    pub fn reset_body(&mut self)
        requires
            old(self)@.inv(),
        ensures
            final(self)@ == (SnakeView { body: seq![old(self)@.body[0]], ..old(self)@ }),
            final(self)@.inv(),
    {
        let head = self.head();
        let mut body: Vec<Quad> = Vec::new();
        body.push(head);
        self.body = body;
        assert(self@.body =~= seq![old(self)@.body[0]]);
        assert(segment_ok(old(self)@.body[0], 0, self.segment_size));
    }

    /// Adds a segment one cell behind the tail, against the heading.
    pub fn grow_body(&mut self)
        requires
            old(self)@.inv(),
            old(self)@.body.len() < MAX_BODY_LEN,
        ensures
            final(self)@ == old(self)@.grown(),
            final(self)@.inv(),
    {
        let n = self.body.len();
        let last = self.body[n - 1];
        let ghost s = self.segment_size;
        assert(segment_ok(last, n - 1, s));
        let (dx, dy) = self.direction.step();
        assert(-MAX_SEGMENT <= dx * s.x <= MAX_SEGMENT && -MAX_SEGMENT <= dy * s.y <= MAX_SEGMENT)
            by (nonlinear_arith)
            requires
                -1 <= dx <= 1,
                -1 <= dy <= 1,
                0 < s.x <= MAX_SEGMENT,
                0 < s.y <= MAX_SEGMENT,
        ;
        let x = last.position.x - dx * self.segment_size.x;
        let y = last.position.y - dy * self.segment_size.y;
        let tail = Quad::new(Vec2::new(x, y), last.size);
        proof {
            lemma_aligned_shift(last.position.x as int, s.x as int, dx as int);
            lemma_aligned_shift(last.position.y as int, s.y as int, dy as int);
        }
        self.body.push(tail);
        assert forall|i: int| 0 <= i < self@.body.len() implies #[trigger] segment_ok(
            self@.body[i],
            i,
            s,
        ) by {
            if i < n {
                assert(segment_ok(old(self)@.body[i], i, s));
            }
        }
    }

    /// Asks for a new heading; a reversal straight back into the body is refused.
    pub fn update_direction(&mut self, direction: Direction)
        ensures
            final(self)@ == old(self)@.turned(direction),
    {
        if !direction.is_reversal_of(&self.direction) {
            self.direction = direction;
        }
    }

    /// Unit step of the heading, as (dx, dy).
    pub fn direction(&self) -> (r: (i64, i64))
        ensures
            r.0 as int == self.direction.step_spec().0,
            r.1 as int == self.direction.step_spec().1,
    {
        self.direction.step()
    }

    pub fn position(&self) -> (r: Vec2)
        ensures
            r == self.position,
    {
        self.position
    }

    /// Moves the head to `position`; the body shifts by one cell only when the
    /// head's cell changes.
    pub fn update_position(&mut self, position: Vec2)
        requires
            old(self)@.inv(),
            position_ok(position),
        ensures
            final(self)@ == old(self)@.moved(position),
            final(self)@.inv(),
    {
        let ghost s = self.segment_size;
        self.position = position;
        let head = self.head();
        assert(segment_ok(head, 0, s));
        let cur = snake_coordinates(self.segment_size, head.position);
        let new = snake_coordinates(self.segment_size, position);
        if cur.0 != new.0 || cur.1 != new.1 {
            proof {
                lemma_snap(s, position);
            }
            let p = screen_coordinates(self.segment_size, new);
            let mut body: Vec<Quad> = Vec::new();
            body.push(Quad::new(p, head.size));
            let n = self.body.len() - 1;
            let mut i: usize = 0;
            while i < n
                invariant
                    n == self.body.len() - 1,
                    self.body@ == old(self)@.body,
                    0 <= i <= n,
                    body@ == seq![Quad { position: p, size: head.size }]
                        + self.body@.subrange(0, i as int),
                decreases n - i,
            {
                body.push(self.body[i]);
                i = i + 1;
                assert(body@ =~= seq![Quad { position: p, size: head.size }]
                    + self.body@.subrange(0, i as int));
            }
            self.body = body;
            assert(self@.body =~= old(self)@.moved_body(position));
            assert forall|j: int| 0 <= j < self@.body.len() implies #[trigger] segment_ok(
                self@.body[j],
                j,
                s,
            ) by {
                if j > 0 {
                    assert(segment_ok(old(self)@.body[j - 1], j - 1, s));
                }
            }
        }
    }

    /// The head segment.
    pub fn head(&self) -> (r: Quad)
        requires
            self.body@.len() > 0,
        ensures
            r == self.body@[0],
    {
        self.body[0]
    }

    /// Whether the snake's box (its head cell, half a segment each way) and the
    /// quad's box overlap; touching edges do not count.
    pub fn intersects(&self, quad: &Quad) -> (r: bool)
        requires
            self@.inv(),
        ensures
            r == self@.box_overlaps(*quad),
    {
        proof {
            lemma_snap(self.segment_size, self.position);
        }
        let cell = snake_coordinates(self.segment_size, self.position);
        let c = screen_coordinates(self.segment_size, cell);
        let cx = c.x as i128;
        let cy = c.y as i128;
        let sx = self.segment_size.x as i128;
        let sy = self.segment_size.y as i128;
        let bx = quad.position.x as i128;
        let by = quad.position.y as i128;
        let bsx = quad.size.x as i128;
        let bsy = quad.size.y as i128;
        2 * cx - sx < 2 * bx + bsx && 2 * cx + sx > 2 * bx - bsx && 2 * cy - sy < 2 * by + bsy
            && 2 * cy + sy > 2 * by - bsy
    }

    /// Whether the head's cell is the cell of the quad's centre, both measured
    /// in segments.
    pub fn collides(&self, quad: &Quad) -> (r: bool)
        requires
            self@.inv(),
        ensures
            r == (self@.cell() == to_grid(self.segment_size, quad.position)),
    {
        let snake_coords = snake_coordinates(self.segment_size, self.position);
        let quad_coords = snake_coordinates(self.segment_size, quad.position);
        snake_coords.0 == quad_coords.0 && snake_coords.1 == quad_coords.1
    }

    /// Eats a pellet: one point more, one segment more, a step faster.
    pub fn eat_pellet(&mut self)
        requires
            old(self)@.wf(),
            old(self).score < u32::MAX,
        ensures
            final(self)@ == old(self)@.fed(),
            final(self)@.wf(),
    {
        self.score = self.score + 1;
        self.grow_body();
        self.speed = self.speed + SNAKE_SPEED_INC;
    }
}

/// Eating `n` pellets after a reset leaves a score of `n` and `n + 1` segments.
pub proof fn lemma_growth_after_reset(s: SnakeView, n: nat)
    ensures
        s.reset().fed_times(n).score == n,
        s.reset().fed_times(n).body.len() == n + 1,
    decreases n,
{
    if n > 0 {
        lemma_growth_after_reset(s, (n - 1) as nat);
    }
}

/// Asking to turn straight back leaves the heading as it was.
pub proof fn lemma_no_reversal(s: SnakeView, d: Direction)
    requires
        d.is_opposite(s.direction),
    ensures
        s.turned(d).direction == s.direction,
{
}

/// How far two intervals reach into each other; zero when they only touch.
pub open spec fn overlap_depth(lo1: int, hi1: int, lo2: int, hi2: int) -> int {
    let hi = if hi1 < hi2 { hi1 } else { hi2 };
    let lo = if lo1 > lo2 { lo1 } else { lo2 };
    hi - lo
}

/// A quad whose box only touches the snake's box along an edge does not collide.
pub proof fn lemma_touching_does_not_collide(s: SnakeView, q: Quad)
    requires
        ({
            let c = snap(s.segment_size, s.position);
            let z = s.segment_size;
            ||| 2 * q.position.x - q.size.x == 2 * c.x + z.x
            ||| 2 * q.position.x + q.size.x == 2 * c.x - z.x
            ||| 2 * q.position.y - q.size.y == 2 * c.y + z.y
            ||| 2 * q.position.y + q.size.y == 2 * c.y - z.y
        }),
    ensures
        !s.box_overlaps(q),
{
}

/// A quad whose box reaches into the snake's box by a positive depth on both
/// axes (depths in doubled units) collides.
pub proof fn lemma_overlap_collides(s: SnakeView, q: Quad, eps: int)
    requires
        eps > 0,
        ({
            let c = snap(s.segment_size, s.position);
            let z = s.segment_size;
            &&& overlap_depth(2 * c.x - z.x, 2 * c.x + z.x, 2 * q.position.x - q.size.x,
                2 * q.position.x + q.size.x) >= eps
            &&& overlap_depth(2 * c.y - z.y, 2 * c.y + z.y, 2 * q.position.y - q.size.y,
                2 * q.position.y + q.size.y) >= eps
        }),
    ensures
        s.box_overlaps(q),
{
}

} // verus!
