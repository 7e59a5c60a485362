//! Row-major pixel layout of the rendered buffer.
//!
//! A render walks every destination pixel of a `width x height` canvas,
//! computes one colour per pixel — independently, in any order — and must
//! deliver a flat RGBA byte buffer in row-major order, pixel `(0, 0)` first.
//! [`pixel_grid`] pins down the coordinate enumeration, [`assemble_image`]
//! the packing of the computed colours into bytes, and
//! [`lemma_assembled_bytes_unique`] that the packed bytes are a function of
//! the colours alone, so the buffer cannot depend on the completion order of
//! the per-pixel work.

use vstd::prelude::*;

verus! {

/// One opaque-or-translucent colour, as the four RGBA channel bytes.
#[derive(Clone, Copy, Debug, PartialEq, Eq, Structural, Hash)]
pub struct Rgba {
    pub r: u8,
    pub g: u8,
    pub b: u8,
    pub a: u8,
}

/// The destination coordinates of a canvas in row-major order: entry `k`
/// is column `k % width`, row `k / width`.
pub open spec fn is_row_major_grid(width: u32, height: u32, v: Seq<(u32, u32)>) -> bool {
    &&& v.len() == width * height
    &&& forall|k: int| 0 <= k < v.len() ==> #[trigger] v[k] == (
        ((k % (width as int)) as u32),
        ((k / (width as int)) as u32),
    )
}

/// Enumerate the destination pixel coordinates of a canvas, row by row.
pub fn pixel_grid(width: u32, height: u32) -> (v: Vec<(u32, u32)>)
    requires
        width * height <= usize::MAX,
    ensures
        is_row_major_grid(width, height, v@),
{
    let mut v: Vec<(u32, u32)> = Vec::new();
    let mut row: u32 = 0;
    while row < height
        invariant
            row <= height,
            width * height <= usize::MAX,
            v@.len() == width * row,
            forall|k: int| 0 <= k < v@.len() ==> #[trigger] v@[k] == (
                ((k % (width as int)) as u32),
                ((k / (width as int)) as u32),
            ),
        decreases height - row,
    {
        let mut col: u32 = 0;
        proof {
            assert(width * row + width <= width * height) by (nonlinear_arith)
                requires
                    row < height,
                    0 <= width,
            ;
        }
        while col < width
            invariant
                col <= width,
                row < height,
                width * row + width <= width * height <= usize::MAX,
                v@.len() == width * row + col,
                forall|k: int| 0 <= k < v@.len() ==> #[trigger] v@[k] == (
                    ((k % (width as int)) as u32),
                    ((k / (width as int)) as u32),
                ),
            decreases width - col,
        {
            let ghost len0 = v@.len() as int;
            v.push((col, row));
            proof {
                assert(len0 == width * row + col);
                assert(len0 % (width as int) == col && len0 / (width as int) == row)
                    by (nonlinear_arith)
                    requires
                        len0 == width * row + col,
                        0 <= col < width,
                        0 <= row,
                ;
            }
            col = col + 1;
        }
        row = row + 1;
        proof {
            assert(width * (row - 1) + width == width * row) by (nonlinear_arith);
        }
    }
    proof {
        assert(width * height == v@.len());
    }
    v
}

/// The byte buffer that packs the given colours: four bytes per colour, in
/// order, channel order R, G, B, A.
pub open spec fn is_packed_rgba(colors: Seq<Rgba>, bytes: Seq<u8>) -> bool {
    &&& bytes.len() == 4 * colors.len()
    &&& forall|k: int| 0 <= k < colors.len() ==> {
        &&& bytes[4 * k] == (#[trigger] colors[k]).r
        &&& bytes[4 * k + 1] == colors[k].g
        &&& bytes[4 * k + 2] == colors[k].b
        &&& bytes[4 * k + 3] == colors[k].a
    }
}

/// Pack one colour per destination pixel of a `width x height` canvas into
/// the flat RGBA buffer handed to the display surface.  The buffer length is
/// always exactly `width * height * 4`.
pub fn assemble_image(colors: &Vec<Rgba>, width: u32, height: u32) -> (bytes: Vec<u8>)
    requires
        colors@.len() == width * height,
        4 * (width * height) <= usize::MAX,
    ensures
        is_packed_rgba(colors@, bytes@),
        bytes@.len() == 4 * (width * height),
{
    let mut bytes: Vec<u8> = Vec::new();
    let n = colors.len();
    let mut k: usize = 0;
    while k < n
        invariant
            k <= n,
            n == colors@.len(),
            4 * n <= usize::MAX,
            bytes@.len() == 4 * k,
            forall|j: int| 0 <= j < k ==> {
                &&& bytes@[4 * j] == (#[trigger] colors@[j]).r
                &&& bytes@[4 * j + 1] == colors@[j].g
                &&& bytes@[4 * j + 2] == colors@[j].b
                &&& bytes@[4 * j + 3] == colors@[j].a
            },
        decreases n - k,
    {
        let c = colors[k];
        bytes.push(c.r);
        bytes.push(c.g);
        bytes.push(c.b);
        bytes.push(c.a);
        k = k + 1;
    }
    bytes
}

/// Row-major addressing, end to end: the colour computed for destination
/// pixel `(x, y)` — entry `y * width + x` of the grid — lands at byte offset
/// `4 * (y * width + x)` of the packed buffer, whatever order the per-pixel
/// colours were computed in.
pub proof fn lemma_row_major_addressing(
    width: u32,
    height: u32,
    grid: Seq<(u32, u32)>,
    colors: Seq<Rgba>,
    bytes: Seq<u8>,
    x: u32,
    y: u32,
)
    requires
        is_row_major_grid(width, height, grid),
        colors.len() == grid.len(),
        is_packed_rgba(colors, bytes),
        x < width,
        y < height,
    ensures
        grid[y * width + x] == (x, y),
        bytes[4 * (y * width + x)] == colors[y * width + x].r,
        bytes[4 * (y * width + x) + 1] == colors[y * width + x].g,
        bytes[4 * (y * width + x) + 2] == colors[y * width + x].b,
        bytes[4 * (y * width + x) + 3] == colors[y * width + x].a,
{
    let k = y * width + x;
    assert(k < width * height && k % (width as int) == x && k / (width as int) == y)
        by (nonlinear_arith)
        requires
            0 <= x < width,
            0 <= y < height,
            k == y * width + x,
    ;
    assert(grid[k as int] == (((k % (width as int)) as u32), ((k / (width as int)) as u32)));
}

/// The packed buffer is a function of the colour sequence alone: two buffers
/// packing the same colours are byte-identical.  Whatever order the
/// per-pixel colours were computed in, the delivered bytes are the same.
pub proof fn lemma_assembled_bytes_unique(colors: Seq<Rgba>, b1: Seq<u8>, b2: Seq<u8>)
    requires
        is_packed_rgba(colors, b1),
        is_packed_rgba(colors, b2),
    ensures
        b1 == b2,
{
    assert forall|i: int| 0 <= i < b1.len() implies b1[i] == b2[i] by {
        let k = i / 4;
        let r = i % 4;
        assert(i == 4 * k + r && 0 <= r < 4 && 0 <= k < colors.len()) by (nonlinear_arith)
            requires
                0 <= i < b1.len(),
                b1.len() == 4 * colors.len(),
                k == i / 4,
                r == i % 4,
        ;
        assert(b1[4 * k] == colors[k].r && b2[4 * k] == colors[k].r);
        assert(b1[4 * k + 1] == colors[k].g && b2[4 * k + 1] == colors[k].g);
        assert(b1[4 * k + 2] == colors[k].b && b2[4 * k + 2] == colors[k].b);
        assert(b1[4 * k + 3] == colors[k].a && b2[4 * k + 3] == colors[k].a);
    }
    assert(b1 =~= b2);
}

} // verus!
