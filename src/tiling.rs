//! Splitting an output surface into a grid of disjoint tiles.
use vstd::prelude::*;

verus! {

/// A width and a height in pixels.
#[derive(Clone, Copy, Debug, PartialEq, Eq, Structural)]
pub struct Extent {
    pub width: u32,
    pub height: u32,
}

/// One rectangular region of the output surface: its top-left corner and its size.
#[derive(Clone, Copy, Debug, PartialEq, Eq, Structural)]
pub struct TileSpec {
    pub x: u32,
    pub y: u32,
    pub resolution_in_pixel: Extent,
}

/// Where span `i` of `n` equal spans of `total` pixels starts.
pub open spec fn span_start(total: int, n: int, i: int) -> int {
    i * (total / n)
}

/// How long span `i` of `n` spans of `total` pixels is: the last span takes the remainder.
pub open spec fn span_len(total: int, n: int, i: int) -> int {
    if i == n - 1 {
        total - (n - 1) * (total / n)
    } else {
        total / n
    }
}

pub open spec fn span_contains(total: int, n: int, i: int, p: int) -> bool {
    span_start(total, n, i) <= p < span_start(total, n, i) + span_len(total, n, i)
}

/// The tile at position `k` of `rows * cols` tiles in row-major order.
pub open spec fn tile_at(surface: Extent, rows: int, cols: int, k: int) -> TileSpec {
    let row = k / cols;
    let col = k % cols;
    TileSpec {
        x: span_start(surface.width as int, cols, col) as u32,
        y: span_start(surface.height as int, rows, row) as u32,
        resolution_in_pixel: Extent {
            width: span_len(surface.width as int, cols, col) as u32,
            height: span_len(surface.height as int, rows, row) as u32,
        },
    }
}

pub open spec fn tile_contains(t: TileSpec, px: int, py: int) -> bool {
    &&& t.x <= px < t.x + t.resolution_in_pixel.width
    &&& t.y <= py < t.y + t.resolution_in_pixel.height
}

pub open spec fn tile_within(t: TileSpec, surface: Extent) -> bool {
    &&& t.x + t.resolution_in_pixel.width <= surface.width
    &&& t.y + t.resolution_in_pixel.height <= surface.height
}

proof fn lemma_span_bounds(total: int, n: int, i: int)
    requires
        total >= 0,
        n >= 1,
        0 <= i < n,
    ensures
        0 <= span_start(total, n, i),
        0 <= span_len(total, n, i),
        span_start(total, n, i) + span_len(total, n, i) <= total,
        i == n - 1 ==> span_start(total, n, i) + span_len(total, n, i) == total,
{
    let b = total / n;
    vstd::arithmetic::div_mod::lemma_fundamental_div_mod(total, n);
    assert(0 <= b) by (nonlinear_arith)
        requires
            total >= 0,
            n >= 1,
            b == total / n,
    ;
    assert(0 <= i * b <= (n - 1) * b) by (nonlinear_arith)
        requires
            0 <= i < n,
            b >= 0,
    ;
    assert(n * b == (n - 1) * b + b) by (nonlinear_arith);
}

/// Two different spans never share a pixel.
proof fn lemma_span_unique(total: int, n: int, i: int, j: int, p: int)
    requires
        total >= 0,
        n >= 1,
        0 <= i < n,
        0 <= j < n,
        span_contains(total, n, i, p),
        span_contains(total, n, j, p),
    ensures
        i == j,
{
    let b = total / n;
    if i < j {
        assert((i + 1) * b <= j * b) by (nonlinear_arith)
            requires
                i < j,
                b >= 0,
        ;
        assert((i + 1) * b == i * b + b) by (nonlinear_arith);
    } else if j < i {
        assert((j + 1) * b <= i * b) by (nonlinear_arith)
            requires
                j < i,
                b >= 0,
        ;
        assert((j + 1) * b == j * b + b) by (nonlinear_arith);
    }
}

/// Every pixel of the range lies in some span.
proof fn lemma_span_exists(total: int, n: int, p: int) -> (i: int)
    requires
        n >= 1,
        0 <= p < total,
    ensures
        0 <= i < n,
        span_contains(total, n, i, p),
{
    let b = total / n;
    lemma_span_bounds(total, n, n - 1);
    if b == 0 {
        assert(span_start(total, n, n - 1) == 0) by (nonlinear_arith)
            requires
                b == 0,
                span_start(total, n, n - 1) == (n - 1) * b,
        ;
        n - 1
    } else {
        let q = p / b;
        vstd::arithmetic::div_mod::lemma_fundamental_div_mod(p, b);
        assert(q >= 0 && q * b <= p < q * b + b) by (nonlinear_arith)
            requires
                b > 0,
                p >= 0,
                q == p / b,
                p == b * (p / b) + p % b,
                0 <= p % b < b,
        ;
        if q >= n - 1 {
            assert((n - 1) * b <= q * b) by (nonlinear_arith)
                requires
                    q >= n - 1,
                    b > 0,
            ;
            n - 1
        } else {
            assert((q + 1) * b == q * b + b) by (nonlinear_arith);
            q
        }
    }
}

/// Every tile of the grid lies inside the surface, every pixel of the surface lies
/// in exactly one tile, and no pixel outside the surface lies in any tile.
pub proof fn lemma_tiles_partition_surface(surface: Extent, rows: int, cols: int, px: int, py: int)
    requires
        rows >= 1,
        cols >= 1,
    ensures
        forall|k: int| 0 <= k < rows * cols ==> tile_within(#[trigger] tile_at(surface, rows, cols, k), surface),
        (0 <= px < surface.width && 0 <= py < surface.height) ==> exists|k: int|
            0 <= k < rows * cols && tile_contains(#[trigger] tile_at(surface, rows, cols, k), px, py),
        forall|k1: int, k2: int|
            0 <= k1 < rows * cols && 0 <= k2 < rows * cols
                && tile_contains(#[trigger] tile_at(surface, rows, cols, k1), px, py)
                && tile_contains(#[trigger] tile_at(surface, rows, cols, k2), px, py) ==> k1 == k2,
{
    let w = surface.width as int;
    let h = surface.height as int;
    assert forall|k: int| 0 <= k < rows * cols implies tile_within(#[trigger] tile_at(surface, rows, cols, k), surface) by {
        lemma_grid_index(rows, cols, k);
        lemma_span_bounds(w, cols, k % cols);
        lemma_span_bounds(h, rows, k / cols);
    }
    if 0 <= px < w && 0 <= py < h {
        let c = lemma_span_exists(w, cols, px);
        let r = lemma_span_exists(h, rows, py);
        let k = r * cols + c;
        vstd::arithmetic::div_mod::lemma_fundamental_div_mod_converse(k, cols, r, c);
        assert(0 <= k < rows * cols) by (nonlinear_arith)
            requires
                0 <= r < rows,
                0 <= c < cols,
                k == r * cols + c,
        ;
        lemma_span_bounds(w, cols, c);
        lemma_span_bounds(h, rows, r);
        assert(tile_contains(tile_at(surface, rows, cols, k), px, py));
    }
    assert forall|k1: int, k2: int|
        0 <= k1 < rows * cols && 0 <= k2 < rows * cols
            && tile_contains(#[trigger] tile_at(surface, rows, cols, k1), px, py)
            && tile_contains(#[trigger] tile_at(surface, rows, cols, k2), px, py) implies k1 == k2 by {
        lemma_grid_index(rows, cols, k1);
        lemma_grid_index(rows, cols, k2);
        lemma_span_bounds(w, cols, k1 % cols);
        lemma_span_bounds(h, rows, k1 / cols);
        lemma_span_bounds(w, cols, k2 % cols);
        lemma_span_bounds(h, rows, k2 / cols);
        lemma_span_unique(w, cols, k1 % cols, k2 % cols, px);
        lemma_span_unique(h, rows, k1 / cols, k2 / cols, py);
        vstd::arithmetic::div_mod::lemma_fundamental_div_mod(k1, cols);
        vstd::arithmetic::div_mod::lemma_fundamental_div_mod(k2, cols);
    }
}

proof fn lemma_grid_index(rows: int, cols: int, k: int)
    requires
        rows >= 1,
        cols >= 1,
        0 <= k < rows * cols,
    ensures
        0 <= k / cols < rows,
        0 <= k % cols < cols,
        k == (k / cols) * cols + k % cols,
{
    vstd::arithmetic::div_mod::lemma_fundamental_div_mod(k, cols);
    assert(0 <= k / cols < rows) by (nonlinear_arith)
        requires
            0 <= k < rows * cols,
            cols >= 1,
            k == cols * (k / cols) + k % cols,
            0 <= k % cols < cols,
    ;
    assert(k == (k / cols) * cols + k % cols) by (nonlinear_arith)
        requires
            k == cols * (k / cols) + k % cols,
    ;
}

/// Splits `surface` into `rows * cols` tiles in row-major order. Tiles of one column
/// share a width and tiles of one row a height; the last column and the last row take
/// the pixels that do not divide evenly.
pub fn split_resolution(surface: Extent, rows: u32, cols: u32) -> (tiles: Vec<TileSpec>)
    requires
        rows >= 1,
        cols >= 1,
    ensures
        tiles@.len() == rows * cols,
        forall|k: int| 0 <= k < rows * cols ==> tiles@[k] == tile_at(surface, rows as int, cols as int, k),
{
    let base_w: u32 = surface.width / cols;
    let base_h: u32 = surface.height / rows;
    let mut tiles: Vec<TileSpec> = Vec::new();
    let mut row: u32 = 0;
    while row < rows
        invariant
            rows >= 1,
            cols >= 1,
            base_w == surface.width / cols,
            base_h == surface.height / rows,
            row <= rows,
            tiles@.len() == row * cols,
            forall|k: int| 0 <= k < row * cols ==> tiles@[k] == tile_at(surface, rows as int, cols as int, k),
        decreases rows - row,
    {
        proof {
            lemma_span_bounds(surface.height as int, rows as int, row as int);
        }
        let y: u32 = row * base_h;
        let height: u32 = if row == rows - 1 { surface.height - y } else { base_h };
        let mut col: u32 = 0;
        while col < cols
            invariant
                rows >= 1,
                cols >= 1,
                base_w == surface.width / cols,
                row < rows,
                col <= cols,
                y == span_start(surface.height as int, rows as int, row as int),
                height == span_len(surface.height as int, rows as int, row as int),
                tiles@.len() == row * cols + col,
                forall|k: int| 0 <= k < row * cols + col ==> tiles@[k] == tile_at(surface, rows as int, cols as int, k),
            decreases cols - col,
        {
            proof {
                lemma_span_bounds(surface.width as int, cols as int, col as int);
            }
            let x: u32 = col * base_w;
            let width: u32 = if col == cols - 1 { surface.width - x } else { base_w };
            let tile = TileSpec { x, y, resolution_in_pixel: Extent { width, height } };
            proof {
                let k = row * cols + col;
                vstd::arithmetic::div_mod::lemma_fundamental_div_mod_converse(k, cols as int, row as int, col as int);
                assert(tile == tile_at(surface, rows as int, cols as int, k));
            }
            tiles.push(tile);
            col = col + 1;
        }
        proof {
            assert((row + 1) * cols == row * cols + cols) by (nonlinear_arith);
        }
        row = row + 1;
    }
    tiles
}

} // verus!
