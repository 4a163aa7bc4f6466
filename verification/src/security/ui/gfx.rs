//! Line and circle rasterisation: the pixels that drawing a Bresenham line
//! or a midpoint circle plots, in plotting order. Pixels off the screen are
//! listed too; writing a pixel clips them.
use vstd::prelude::*;

verus! {

/// The eight pixels plotted for the octant offset (`x`, `y`) around the
/// centre (`cx`, `cy`), in plotting order. A negative coordinate wraps to a
/// huge `usize`, which lies off every screen.
pub open spec fn octant_points(cx: int, cy: int, x: int, y: int) -> Seq<(usize, usize)> {
    seq![
        ((cx + x) as usize, (cy + y) as usize),
        ((cx + y) as usize, (cy + x) as usize),
        ((cx - y) as usize, (cy + x) as usize),
        ((cx - x) as usize, (cy + y) as usize),
        ((cx - x) as usize, (cy - y) as usize),
        ((cx - y) as usize, (cy - x) as usize),
        ((cx + y) as usize, (cy - x) as usize),
        ((cx + x) as usize, (cy - y) as usize),
    ]
}

/// One step of the midpoint circle walk from octant offset (`x`, `y`) with
/// decision value `err`: `y` steps up when `err <= 0` (adding `2y + 1` for
/// the new `y`), then `x` steps down when the decision value is positive
/// (subtracting `2x + 1` for the new `x`).
pub open spec fn circle_step(x: int, y: int, err: int) -> (int, int, int) {
    let y1 = if err <= 0 { y + 1 } else { y };
    let e1 = if err <= 0 { err + 2 * y1 + 1 } else { err };
    let x2 = if e1 > 0 { x - 1 } else { x };
    let e2 = if e1 > 0 { e1 - 2 * x2 - 1 } else { e1 };
    (x2, y1, e2)
}

/// The pixels of the walk from (`x`, `y`, `err`): while `x >= y`, the eight
/// symmetric pixels of the offset, then those of the next step.
pub open spec fn circle_from(cx: int, cy: int, x: int, y: int, err: int) -> Seq<(usize, usize)>
    decreases x - y + 2,
{
    if x < y {
        Seq::empty()
    } else {
        let n = circle_step(x, y, err);
        octant_points(cx, cy, x, y) + circle_from(cx, cy, n.0, n.1, n.2)
    }
}

/// The octant offsets that the walk from (`x`, `y`, `err`) visits.
pub open spec fn circle_offsets_from(x: int, y: int, err: int) -> Seq<(int, int)>
    decreases x - y + 2,
{
    if x < y {
        Seq::empty()
    } else {
        let n = circle_step(x, y, err);
        seq![(x, y)] + circle_offsets_from(n.0, n.1, n.2)
    }
}

/// The octant offsets of a circle of `radius`.
pub open spec fn circle_offsets(radius: usize) -> Seq<(int, int)> {
    circle_offsets_from(radius as int, 0, 0)
}

/// The pixels of a circle of `radius` around (`x0`, `y0`). Centre and
/// radius are read as signed machine integers, as the drawing arithmetic
/// reads them: a coordinate above `isize::MAX` stands for a negative one,
/// and a radius above `isize::MAX` reads negative and draws nothing.
pub open spec fn circle_points(x0: usize, y0: usize, radius: usize) -> Seq<(usize, usize)> {
    circle_from((x0 as isize) as int, (y0 as isize) as int, (radius as isize) as int, 0, 0)
}

/// Whether drawing a circle stays within signed machine arithmetic: a
/// negative radius draws nothing; otherwise the centre plus and minus the
/// radius, and four times the radius plus three, must be representable.
pub open spec fn circle_in_range(x0: usize, y0: usize, radius: usize) -> bool {
    let cx = (x0 as isize) as int;
    let cy = (y0 as isize) as int;
    let r = (radius as isize) as int;
    r < 0 || {
        &&& isize::MIN <= cx - r
        &&& cx + r <= isize::MAX
        &&& isize::MIN <= cy - r
        &&& cy + r <= isize::MAX
        &&& 4 * r + 3 <= isize::MAX
    }
}

/// The pixels that drawing an unfilled circle of `radius` around (`x0`,
/// `y0`) plots, in order.
pub fn draw_circle(x0: usize, y0: usize, radius: usize) -> (r: Vec<(usize, usize)>)
    requires
        circle_in_range(x0, y0, radius),
    ensures
        r@ == circle_points(x0, y0, radius),
{
    let cx = x0 as isize;
    let cy = y0 as isize;
    let rad = radius as isize;
    let mut out: Vec<(usize, usize)> = Vec::new();
    if rad < 0 {
        assert(circle_points(x0, y0, radius) =~= Seq::<(usize, usize)>::empty());
        return out;
    }
    let mut x = rad;
    let mut y: isize = 0;
    let mut err: isize = 0;
    while x >= y
        invariant
            cx == (x0 as isize),
            cy == (y0 as isize),
            rad == (radius as isize),
            0 <= rad,
            isize::MIN <= cx - rad,
            cx + rad <= isize::MAX,
            isize::MIN <= cy - rad,
            cy + rad <= isize::MAX,
            4 * rad + 3 <= isize::MAX,
            -1 <= x <= rad,
            0 <= y <= rad + 1,
            x >= y ==> -2 * x <= err <= 2 * y,
            circle_points(x0, y0, radius) == out@ + circle_from(cx as int, cy as int, x as int, y as int, err as int),
        decreases x - y + 2,
    {
        let ghost old_out = out@;
        let ghost rest = circle_from(cx as int, cy as int, x as int, y as int, err as int);
        let ghost old_x = x;
        let ghost old_y = y;
        let ghost old_err = err as int;
        out.push(((cx + x) as usize, (cy + y) as usize));
        out.push(((cx + y) as usize, (cy + x) as usize));
        out.push(((cx - y) as usize, (cy + x) as usize));
        out.push(((cx - x) as usize, (cy + y) as usize));
        out.push(((cx - x) as usize, (cy - y) as usize));
        out.push(((cx - y) as usize, (cy - x) as usize));
        out.push(((cx + y) as usize, (cy - x) as usize));
        out.push(((cx + x) as usize, (cy - y) as usize));
        assert(out@ =~= old_out + octant_points(cx as int, cy as int, x as int, y as int));
        if err <= 0 {
            y = y + 1;
            err = err + 2 * y + 1;
        }
        if err > 0 {
            x = x - 1;
            err = err - 2 * x - 1;
        }
        assert((x as int, y as int, err as int) == circle_step(old_x as int, old_y as int, old_err));
        assert(rest == octant_points(cx as int, cy as int, old_x as int, old_y as int)
            + circle_from(cx as int, cy as int, x as int, y as int, err as int));
        assert(old_out + rest =~= out@ + circle_from(cx as int, cy as int, x as int, y as int, err as int));
    }
    out
}

/// The circle's pixels are the eight mirror images of each octant offset,
/// offset by offset.
pub proof fn lemma_circle_octants(cx: int, cy: int, x: int, y: int, err: int)
    ensures
        circle_from(cx, cy, x, y, err).len() == 8 * circle_offsets_from(x, y, err).len(),
        forall|k: int, m: int|
            0 <= k < circle_offsets_from(x, y, err).len() && 0 <= m < 8 ==> circle_from(cx, cy, x, y, err)[8 * k + m]
                == octant_points(cx, cy, circle_offsets_from(x, y, err)[k].0, circle_offsets_from(x, y, err)[k].1)[m],
    decreases x - y + 2,
{
    if x >= y {
        let n = circle_step(x, y, err);
        lemma_circle_octants(cx, cy, n.0, n.1, n.2);
        let offs = circle_offsets_from(x, y, err);
        let pts = circle_from(cx, cy, x, y, err);
        let rest = circle_from(cx, cy, n.0, n.1, n.2);
        let rest_offs = circle_offsets_from(n.0, n.1, n.2);
        assert forall|k: int, m: int| 0 <= k < offs.len() && 0 <= m < 8 implies pts[8 * k + m]
            == octant_points(cx, cy, offs[k].0, offs[k].1)[m] by {
            if k > 0 {
                assert(offs[k] == rest_offs[k - 1]);
                assert(8 * k + m == 8 + (8 * (k - 1) + m));
                assert(pts[8 * k + m] == rest[8 * (k - 1) + m]);
            }
        }
    }
}

/// The walk keeps `err = x² + y² + 2y - r²`, and while it plots (`x >= y`)
/// the decision value stays between `-2x` and `2y`.
proof fn lemma_circle_walk_near(r: int, x: int, y: int, err: int)
    requires
        0 <= y,
        err == x * x + y * y + 2 * y - r * r,
        x >= y ==> -2 * x <= err <= 2 * y,
    ensures
        forall|k: int| 0 <= k < circle_offsets_from(x, y, err).len() ==> {
            let p = #[trigger] circle_offsets_from(x, y, err)[k];
            &&& 0 <= p.1 <= p.0
            &&& p.0 * p.0 + p.1 * p.1 <= r * r <= p.0 * p.0 + p.1 * p.1 + 2 * (p.0 + p.1)
        },
    decreases x - y + 2,
{
    if x >= y {
        let n = circle_step(x, y, err);
        let y1 = if err <= 0 { y + 1 } else { y };
        let e1 = if err <= 0 { err + 2 * y1 + 1 } else { err };
        assert(e1 == x * x + y1 * y1 + 2 * y1 - r * r) by (nonlinear_arith)
            requires
                err == x * x + y * y + 2 * y - r * r,
                y1 == (if err <= 0 { y + 1 } else { y }),
                e1 == (if err <= 0 { err + 2 * y1 + 1 } else { err }),
        ;
        assert(n.2 == n.0 * n.0 + n.1 * n.1 + 2 * n.1 - r * r) by (nonlinear_arith)
            requires
                e1 == x * x + y1 * y1 + 2 * y1 - r * r,
                n.1 == y1,
                n.0 == (if e1 > 0 { x - 1 } else { x }),
                n.2 == (if e1 > 0 { e1 - 2 * n.0 - 1 } else { e1 }),
        ;
        lemma_circle_walk_near(r, n.0, n.1, n.2);
        let offs = circle_offsets_from(x, y, err);
        assert forall|k: int| 0 <= k < offs.len() implies {
            let p = #[trigger] offs[k];
            &&& 0 <= p.1 <= p.0
            &&& p.0 * p.0 + p.1 * p.1 <= r * r <= p.0 * p.0 + p.1 * p.1 + 2 * (p.0 + p.1)
        } by {
            if k > 0 {
                assert(offs[k] == circle_offsets_from(n.0, n.1, n.2)[k - 1]);
            }
        }
    }
}

/// Every offset the circle walk plots lies in the first octant (`0 <= y <=
/// x`), on or just inside the circle: `r² - 2(x + y) <= x² + y² <= r²`.
pub proof fn lemma_circle_offsets_near(radius: usize)
    ensures
        forall|k: int| 0 <= k < circle_offsets(radius).len() ==> {
            let p = #[trigger] circle_offsets(radius)[k];
            &&& 0 <= p.1 <= p.0
            &&& p.0 * p.0 + p.1 * p.1 <= radius * radius <= p.0 * p.0 + p.1 * p.1 + 2 * (p.0 + p.1)
        },
{
    let r = radius as int;
    assert(0 == r * r + 0 * 0 + 2 * 0 - r * r) by (nonlinear_arith);
    lemma_circle_walk_near(r, r, 0, 0);
}

/// Distance between two coordinates.
pub open spec fn abs_diff(p: usize, q: usize) -> int {
    if p <= q { q - p } else { p - q }
}

/// The step direction from `p` towards `q`: +1 when `p < q`, else -1.
pub open spec fn step_dir(p: usize, q: usize) -> int {
    if p < q { 1 } else { -1 }
}

/// The Bresenham state (x, y, error) at the start of a line.
pub open spec fn line_start(x0: usize, y0: usize, x1: usize, y1: usize) -> (int, int, int) {
    (x0 as int, y0 as int, abs_diff(x0, x1) - abs_diff(y0, y1))
}

/// One Bresenham step on the line from (`x0`, `y0`) to (`x1`, `y1`), with
/// `dx = |x1 - x0|` and `dy = -|y1 - y0|`: when twice the error is at least
/// `dy`, x moves one pixel towards `x1` and `dy` is added to the error; when
/// twice the (old) error is at most `dx`, y moves one pixel towards `y1` and
/// `dx` is added.
pub open spec fn line_step(s: (int, int, int), x0: usize, y0: usize, x1: usize, y1: usize) -> (int, int, int) {
    let dx = abs_diff(x0, x1);
    let dy = -abs_diff(y0, y1);
    let e2 = 2 * s.2;
    let x = if e2 >= dy { s.0 + step_dir(x0, x1) } else { s.0 };
    let e = if e2 >= dy { s.2 + dy } else { s.2 };
    if e2 <= dx {
        (x, s.1 + step_dir(y0, y1), e + dx)
    } else {
        (x, s.1, e)
    }
}

/// The Bresenham state after `k` steps.
pub open spec fn line_state(x0: usize, y0: usize, x1: usize, y1: usize, k: nat) -> (int, int, int)
    decreases k,
{
    if k == 0 {
        line_start(x0, y0, x1, y1)
    } else {
        line_step(line_state(x0, y0, x1, y1, (k - 1) as nat), x0, y0, x1, y1)
    }
}

/// The `k`-th pixel plotted on the line.
pub open spec fn line_point(x0: usize, y0: usize, x1: usize, y1: usize, k: nat) -> (usize, usize) {
    let s = line_state(x0, y0, x1, y1, k);
    (s.0 as usize, s.1 as usize)
}

/// Whether a pixel lies in the box spanned by the two end points.
pub open spec fn in_span(p: (usize, usize), x0: usize, y0: usize, x1: usize, y1: usize) -> bool {
    &&& (x0 <= p.0 <= x1 || x1 <= p.0 <= x0)
    &&& (y0 <= p.1 <= y1 || y1 <= p.1 <= y0)
}

/// Two pixels that touch: different, and at most one apart in each
/// coordinate.
pub open spec fn touching(p: (usize, usize), q: (usize, usize)) -> bool {
    &&& p != q
    &&& (p.0 == q.0 || p.0 + 1 == q.0 || q.0 + 1 == p.0)
    &&& (p.1 == q.1 || p.1 + 1 == q.1 || q.1 + 1 == p.1)
}

/// With `err = (1 + j) * dx - (1 + i) * dy` after `i` x-steps and `j`
/// y-steps, a step never passes an end coordinate, and every step moves.
proof fn lemma_line_no_overshoot(a: int, b: int, i: int, j: int, err: int)
    requires
        0 <= i <= a,
        0 <= j <= b,
        !(i == a && j == b),
        err == (1 + j) * a - (1 + i) * b,
    ensures
        2 * err >= -b ==> i < a,
        2 * err <= a ==> j < b,
{
    if i == a {
        assert((1 + j) * a <= b * a) by (nonlinear_arith)
            requires
                1 + j <= b,
                0 <= a,
        ;
        assert((1 + a) * b == b + b * a) by (nonlinear_arith);
    }
    if j == b {
        assert((1 + i) * b <= a * b) by (nonlinear_arith)
            requires
                1 + i <= a,
                0 <= b,
        ;
        assert((1 + b) * a == a + a * b) by (nonlinear_arith);
    }
}

/// The pixels that drawing a one-pixel line from (`x0`, `y0`) to (`x1`,
/// `y1`) plots, in order: the Bresenham walk from the first end point until
/// it reaches the second.
pub fn draw_line(x0: usize, y0: usize, x1: usize, y1: usize) -> (r: Vec<(usize, usize)>)
    requires
        x0 <= isize::MAX,
        y0 <= isize::MAX,
        x1 <= isize::MAX,
        y1 <= isize::MAX,
        4 * (abs_diff(x0, x1) + abs_diff(y0, y1)) <= isize::MAX,
    ensures
        r@.len() >= 1,
        forall|k: int| 0 <= k < r@.len() ==> r@[k] == line_point(x0, y0, x1, y1, k as nat),
        r@[r@.len() - 1] == (x1, y1),
        forall|k: int| 0 <= k < r@.len() - 1 ==> r@[k] != (x1, y1),
        forall|k: int| 0 <= k < r@.len() ==> in_span(#[trigger] r@[k], x0, y0, x1, y1),
        forall|k: int| 0 <= k < r@.len() - 1 ==> touching(#[trigger] r@[k], r@[k + 1]),
        r@.len() == (if abs_diff(x0, x1) >= abs_diff(y0, y1) {
            abs_diff(x0, x1)
        } else {
            abs_diff(y0, y1)
        }) + 1,
{
    let ex = x1 as isize;
    let ey = y1 as isize;
    let mut x = x0 as isize;
    let mut y = y0 as isize;
    let dx: isize = if ex >= x { ex - x } else { x - ex };
    let sx: isize = if x0 < x1 { 1 } else { -1 };
    let dy: isize = if ey >= y { y - ey } else { ey - y };
    let sy: isize = if y0 < y1 { 1 } else { -1 };
    let mut err: isize = dx + dy;
    let mut out: Vec<(usize, usize)> = Vec::new();
    let ghost a = dx as int;
    let ghost b = -dy as int;
    let ghost mut i: int = 0;
    let ghost mut j: int = 0;
    assert(err == (1 + j) * a - (1 + i) * b);
    loop
        invariant_except_break
            a == abs_diff(x0, x1),
            b == abs_diff(y0, y1),
            dx == a,
            dy == -b,
            sx == step_dir(x0, x1),
            sy == step_dir(y0, y1),
            ex == x1,
            ey == y1,
            4 * (a + b) <= isize::MAX,
            0 <= i <= a,
            0 <= j <= b,
            x == x0 + sx * i,
            y == y0 + sy * j,
            err == (1 + j) * a - (1 + i) * b,
            -2 * (a + b) <= err <= 2 * (a + b),
            line_state(x0, y0, x1, y1, out@.len()) == (x as int, y as int, err as int),
            forall|k: int| 0 <= k < out@.len() ==> out@[k] == line_point(x0, y0, x1, y1, k as nat),
            forall|k: int| 0 <= k < out@.len() ==> out@[k] != (x1, y1),
            forall|k: int| 0 <= k < out@.len() ==> in_span(#[trigger] out@[k], x0, y0, x1, y1),
            forall|k: int| 0 <= k < out@.len() - 1 ==> touching(#[trigger] out@[k], out@[k + 1]),
            out@.len() > 0 ==> touching(out@[out@.len() - 1], (x as usize, y as usize)),
            a >= b ==> 2 * err >= -b && i == out@.len(),
            b >= a ==> 2 * err <= a && j == out@.len(),
        ensures
            out@.len() >= 1,
            forall|k: int| 0 <= k < out@.len() ==> out@[k] == line_point(x0, y0, x1, y1, k as nat),
            out@[out@.len() - 1] == (x1, y1),
            forall|k: int| 0 <= k < out@.len() - 1 ==> out@[k] != (x1, y1),
            forall|k: int| 0 <= k < out@.len() ==> in_span(#[trigger] out@[k], x0, y0, x1, y1),
            forall|k: int| 0 <= k < out@.len() - 1 ==> touching(#[trigger] out@[k], out@[k + 1]),
            out@.len() == (if a >= b { a } else { b }) + 1,
        decreases (a - i) + (b - j),
    {
        let ghost k = out@.len();
        out.push((x as usize, y as usize));
        if x == ex && y == ey {
            break;
        }
        proof {
            lemma_line_no_overshoot(a, b, i, j, err as int);
        }
        let e2 = 2 * err;
        let ghost old_err = err as int;
        let ghost i0 = i;
        let ghost j0 = j;
        if e2 >= dy {
            err = err + dy;
            x = x + sx;
            proof {
                i = i + 1;
            }
        }
        if e2 <= dx {
            err = err + dx;
            y = y + sy;
            proof {
                j = j + 1;
            }
        }
        assert(err == (1 + j) * a - (1 + i) * b) by (nonlinear_arith)
            requires
                old_err == (1 + j0) * a - (1 + i0) * b,
                i == i0 || i == i0 + 1,
                j == j0 || j == j0 + 1,
                err == old_err + (if i == i0 { 0 } else { -b }) + (if j == j0 { 0 } else { a }),
        ;
    }
    out
}

} // verus!
