//! Field calculator: assembles the grid of escape values.
//!
//! The per-point numeric work -- mapping a grid cell to a complex
//! coordinate and iterating z <- z*z + c there -- runs on floating-point
//! numbers and is handed in by the caller as a point function; what is
//! verified here is the grid itself: every row is built, every row has
//! the full width, each entry is the point function's answer for its own
//! cell, and no entry exceeds the iteration limit.

use vstd::prelude::*;

verus! {

/// Build the escape field for a `width` by `height` grid.
///
/// `point(x, y)` must answer the escape value of the grid cell in column
/// `x` of row `y`; rows are built top to bottom and cells left to right,
/// exactly as the field is later rendered.  The result has exactly
/// `height` rows of exactly `width` entries, entry `[y][x]` is an answer
/// of `point(x, y)`, and every entry is at most `max_iters`.
pub fn calculate_mandelbrot<F: Fn(usize, usize) -> usize>(
    point: F,
    max_iters: usize,
    width: usize,
    height: usize,
) -> (rows: Vec<Vec<usize>>)
    requires
        forall|x: usize, y: usize| x < width && y < height ==> call_requires(point, (x, y)),
        forall|x: usize, y: usize, v: usize| call_ensures(point, (x, y), v) ==> v <= max_iters,
    ensures
        rows.len() == height,
        forall|y: int| 0 <= y < height ==> #[trigger] rows[y].len() == width,
        forall|y: int, x: int|
            0 <= y < height && 0 <= x < width ==> call_ensures(
                point,
                (x as usize, y as usize),
                #[trigger] rows[y][x],
            ),
        forall|y: int, x: int| 0 <= y < height && 0 <= x < width ==> #[trigger] rows[y][x] <= max_iters,
{
    let mut rows: Vec<Vec<usize>> = Vec::new();
    let mut img_y: usize = 0;
    while img_y < height
        invariant
            img_y <= height,
            rows.len() == img_y,
            forall|x: usize, y: usize| x < width && y < height ==> call_requires(point, (x, y)),
            forall|x: usize, y: usize, v: usize| call_ensures(point, (x, y), v) ==> v <= max_iters,
            forall|y: int| 0 <= y < img_y ==> #[trigger] rows[y].len() == width,
            forall|y: int, x: int|
                0 <= y < img_y && 0 <= x < width ==> call_ensures(
                    point,
                    (x as usize, y as usize),
                    #[trigger] rows[y][x],
                ),
        decreases height - img_y,
    {
        let mut row: Vec<usize> = Vec::new();
        let mut img_x: usize = 0;
        while img_x < width
            invariant
                img_x <= width,
                img_y < height,
                row.len() == img_x,
                forall|x: usize, y: usize| x < width && y < height ==> call_requires(point, (x, y)),
                forall|x: usize, y: usize, v: usize| call_ensures(point, (x, y), v) ==> v <= max_iters,
                forall|x: int|
                    0 <= x < img_x ==> call_ensures(
                        point,
                        (x as usize, img_y as usize),
                        #[trigger] row[x],
                    ),
            decreases width - img_x,
        {
            let escaped_at = point(img_x, img_y);
            row.push(escaped_at);
            img_x += 1;
        }
        rows.push(row);
        img_y += 1;
    }
    rows
}

/// A deterministic point function yields one possible field only: any
/// two fields whose entries all satisfy the point function's contract
/// are equal.  Together with the exact shape clauses of
/// `calculate_mandelbrot` this says that the grid walk adds no
/// nondeterminism of its own.
pub proof fn lemma_calculate_mandelbrot_deterministic<F: Fn(usize, usize) -> usize>(
    point: F,
    width: usize,
    height: usize,
    first: Seq<Seq<usize>>,
    second: Seq<Seq<usize>>,
)
    requires
        forall|x: usize, y: usize, v1: usize, v2: usize|
            call_ensures(point, (x, y), v1) && call_ensures(point, (x, y), v2) ==> v1 == v2,
        first.len() == height,
        second.len() == height,
        forall|y: int| 0 <= y < height ==> #[trigger] first[y].len() == width,
        forall|y: int| 0 <= y < height ==> #[trigger] second[y].len() == width,
        forall|y: int, x: int|
            0 <= y < height && 0 <= x < width ==> call_ensures(
                point,
                (x as usize, y as usize),
                #[trigger] first[y][x],
            ),
        forall|y: int, x: int|
            0 <= y < height && 0 <= x < width ==> call_ensures(
                point,
                (x as usize, y as usize),
                #[trigger] second[y][x],
            ),
    ensures
        first == second,
{
    assert forall|y: int| 0 <= y < height implies first[y] == second[y] by {
        assert forall|x: int| 0 <= x < width implies first[y][x] == second[y][x] by {
            assert(call_ensures(point, (x as usize, y as usize), first[y][x]));
            assert(call_ensures(point, (x as usize, y as usize), second[y][x]));
        }
        assert(first[y] =~= second[y]);
    }
    assert(first =~= second);
}

} // verus!
