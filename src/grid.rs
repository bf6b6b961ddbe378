use vstd::prelude::*;

verus! {

/// A straight line from `(x0, y0)` to `(x1, y1)` in pixel coordinates.
#[derive(Clone, Copy, Debug, PartialEq, Eq, Structural)]
pub struct Segment {
    pub x0: i32,
    pub y0: i32,
    pub x1: i32,
    pub y1: i32,
}

/// Number of vertical lines: one at each multiple of `cell` from 0 to `width`.
pub open spec fn columns_spec(width: int, cell: int) -> int {
    width / cell + 1
}

/// Number of horizontal lines: one at each multiple of `cell` from 0 to `height`.
pub open spec fn rows_spec(height: int, cell: int) -> int {
    height / cell + 1
}

/// The `k`-th line of the overlay: first the vertical lines, left to right,
/// each spanning the full height; then the horizontal lines, top to bottom,
/// each spanning the full width.
pub open spec fn line_spec(width: int, height: int, cell: int, k: int) -> Segment {
    let c = columns_spec(width, cell);
    if k < c {
        Segment { x0: (k * cell) as i32, y0: 0, x1: (k * cell) as i32, y1: height as i32 }
    } else {
        Segment {
            x0: 0,
            y0: ((k - c) * cell) as i32,
            x1: width as i32,
            y1: ((k - c) * cell) as i32,
        }
    }
}

/// Cosmetic overlay of evenly spaced lines, `size` pixels apart.
pub struct Grid {
    pub size: i32,
}

impl Grid {
    /// The lines that cover a `width` by `height` surface.
    pub fn lines(&self, width: i32, height: i32) -> (r: Vec<Segment>)
        requires
            self.size > 0,
            width >= 0,
            height >= 0,
        ensures
            r@.len() == columns_spec(width as int, self.size as int) + rows_spec(
                height as int,
                self.size as int,
            ),
            forall|k: int|
                0 <= k < r@.len() ==> r@[k] == line_spec(
                    width as int,
                    height as int,
                    self.size as int,
                    k,
                ),
    {
        let cell: i32 = self.size;
        let columns: i32 = width / cell;
        let rows: i32 = height / cell;
        let ghost c = columns_spec(width as int, cell as int);
        let mut r: Vec<Segment> = Vec::new();
        let mut k: i64 = 0;
        while k <= columns as i64
            invariant
                cell > 0,
                width >= 0,
                height >= 0,
                columns == width / cell,
                c == columns + 1,
                0 <= k <= columns + 1,
                r@.len() == k,
                forall|j: int|
                    0 <= j < r@.len() ==> r@[j] == line_spec(
                        width as int,
                        height as int,
                        cell as int,
                        j,
                    ),
            decreases columns + 1 - k,
        {
            proof {
                assert(k * cell <= width) by (nonlinear_arith)
                    requires
                        0 <= k <= width / cell,
                        cell > 0,
                        width >= 0,
                ;
            }
            let x: i32 = (k as i32) * cell;
            r.push(Segment { x0: x, y0: 0, x1: x, y1: height });
            k = k + 1;
        }
        let mut k: i64 = 0;
        while k <= rows as i64
            invariant
                cell > 0,
                width >= 0,
                height >= 0,
                columns == width / cell,
                rows == height / cell,
                c == columns + 1,
                0 <= k <= rows + 1,
                r@.len() == c + k,
                forall|j: int|
                    0 <= j < r@.len() ==> r@[j] == line_spec(
                        width as int,
                        height as int,
                        cell as int,
                        j,
                    ),
            decreases rows + 1 - k,
        {
            proof {
                assert(k * cell <= height) by (nonlinear_arith)
                    requires
                        0 <= k <= height / cell,
                        cell > 0,
                        height >= 0,
                ;
            }
            let y: i32 = (k as i32) * cell;
            r.push(Segment { x0: 0, y0: y, x1: width, y1: y });
            k = k + 1;
        }
        r
    }
}

} // verus!
