//! Module grids and their rasterisation into grayscale pixel buffers.

use vstd::prelude::*;
use vstd::arithmetic::div_mod::{
    lemma_fundamental_div_mod_converse,
    lemma_div_is_ordered,
    lemma_div_by_multiple,
    lemma_basic_div,
};

verus! {

/// A rectangular grid of modules, `true` for dark, stored row by row.
pub struct ModuleGrid {
    pub width: usize,
    pub height: usize,
    pub modules: Vec<bool>,
}

impl ModuleGrid {
    /// The grid holds exactly one module per cell.
    pub open spec fn wf(&self) -> bool {
        self.modules@.len() == self.width * self.height
    }

    /// The module at column `x` and row `y`.
    pub fn is_dark(&self, x: usize, y: usize) -> (r: bool)
        requires
            self.wf(),
            x < self.width,
            y < self.height,
        ensures
            r == module_dark(self.width as int, self.height as int, self.modules@, x as int, y as int),
    {
        // The module count bounds the index, and itself fits `usize`.
        let count = self.modules.len();
        proof {
            assert(y * self.width + x < count) by (nonlinear_arith)
                requires
                    x < self.width,
                    y < self.height,
                    count == self.width * self.height,
            ;
        }
        self.modules[y * self.width + x]
    }
}

/// A grayscale image, one byte per pixel (0 black, 255 white), stored row by row.
pub struct Raster {
    pub width: u32,
    pub height: u32,
    pub pixels: Vec<u8>,
}

impl Raster {
    /// The buffer holds exactly one byte per pixel.
    pub open spec fn wf(&self) -> bool {
        self.pixels@.len() == self.width * self.height
    }
}

/// The module at (`x`, `y`) lies in the grid and is dark.
pub open spec fn module_dark(w: int, h: int, modules: Seq<bool>, x: int, y: int) -> bool {
    0 <= x < w && 0 <= y < h && modules[y * w + x]
}

/// Width or height in pixels of a rasterised grid side of `n` modules: the
/// modules plus a one-module quiet zone on each side, `b` pixels per module.
pub open spec fn raster_side(n: int, b: int) -> int {
    (n + 2) * b
}

/// The value of pixel (`px`, `py`): black inside a dark module, which is
/// shifted by one module for the quiet zone, and white everywhere else.
pub open spec fn pixel_value(w: int, h: int, modules: Seq<bool>, b: int, px: int, py: int) -> u8 {
    if b > 0 && module_dark(w, h, modules, px / b - 1, py / b - 1) {
        0
    } else {
        255
    }
}

/// The whole rasterised image, row by row.
pub open spec fn raster_pixels(w: int, h: int, modules: Seq<bool>, b: int) -> Seq<u8> {
    let rw = raster_side(w, b);
    Seq::new(
        (rw * raster_side(h, b)) as nat,
        |k: int| pixel_value(w, h, modules, b, k % rw, k / rw),
    )
}

/// The rasterised image has sides that fit `u32` and a buffer that fits memory.
pub open spec fn raster_fits(w: int, h: int, b: int) -> bool {
    raster_side(w, b) <= u32::MAX && raster_side(h, b) <= u32::MAX && raster_side(w, b)
        * raster_side(h, b) <= usize::MAX
}

/// Whether a grid of `width` by `height` modules at `block` pixels per module
/// can be rasterised.
pub fn raster_fits_in_memory(width: usize, height: usize, block: u32) -> (r: bool)
    ensures
        r == raster_fits(width as int, height as int, block as int),
{
    let b = block as u128;
    let w2 = width as u128 + 2;
    let h2 = height as u128 + 2;
    proof {
        assert(w2 * b <= (usize::MAX + 2) * u32::MAX) by (nonlinear_arith)
            requires
                w2 <= usize::MAX + 2,
                b <= u32::MAX,
        ;
        assert(h2 * b <= (usize::MAX + 2) * u32::MAX) by (nonlinear_arith)
            requires
                h2 <= usize::MAX + 2,
                b <= u32::MAX,
        ;
    }
    let rw = w2 * b;
    let rh = h2 * b;
    if rw > u32::MAX as u128 || rh > u32::MAX as u128 {
        return false;
    }
    proof {
        assert(rw * rh <= u32::MAX * u32::MAX) by (nonlinear_arith)
            requires
                rw <= u32::MAX,
                rh <= u32::MAX,
        ;
    }
    rw * rh <= usize::MAX as u128
}

fn pixel_at(grid: &ModuleGrid, b: usize, px: usize, py: usize) -> (r: u8)
    requires
        grid.wf(),
        b > 0,
    ensures
        r == pixel_value(grid.width as int, grid.height as int, grid.modules@, b as int, px as int, py as int),
{
    let bx = px / b;
    let by = py / b;
    if bx >= 1 && by >= 1 && bx - 1 < grid.width && by - 1 < grid.height {
        if grid.is_dark(bx - 1, by - 1) {
            0
        } else {
            255
        }
    } else {
        255
    }
}

/// Rasterises `grid` at `block` pixels per module: a white image with a
/// one-module quiet zone on every side, each dark module painted as a
/// `block` by `block` black square.
pub fn rasterize(grid: &ModuleGrid, block: u32) -> (r: Raster)
    requires
        grid.wf(),
        raster_fits(grid.width as int, grid.height as int, block as int),
    ensures
        r.wf(),
        r.width == raster_side(grid.width as int, block as int),
        r.height == raster_side(grid.height as int, block as int),
        r.pixels@ == raster_pixels(grid.width as int, grid.height as int, grid.modules@, block as int),
{
    let ghost w = grid.width as int;
    let ghost h = grid.height as int;
    let ghost bb = block as int;
    if block == 0 {
        let r = Raster { width: 0, height: 0, pixels: Vec::new() };
        assert(raster_side(w, bb) == 0 && raster_side(h, bb) == 0) by (nonlinear_arith)
            requires
                bb == 0,
        ;
        assert(r.pixels@ =~= raster_pixels(w, h, grid.modules@, bb));
        return r;
    }
    let b = block as usize;
    proof {
        assert(grid.width + 2 <= raster_side(w, bb) && grid.height + 2 <= raster_side(h, bb))
            by (nonlinear_arith)
            requires
                bb >= 1,
                w == grid.width,
                h == grid.height,
        ;
    }
    let rw = (grid.width + 2) * b;
    let rh = (grid.height + 2) * b;
    let mut pixels: Vec<u8> = Vec::new();
    let mut py: usize = 0;
    while py < rh
        invariant
            grid.wf(),
            b > 0,
            b == bb,
            w == grid.width,
            h == grid.height,
            rw == raster_side(w, bb),
            rh == raster_side(h, bb),
            rw * rh <= usize::MAX,
            py <= rh,
            pixels@.len() == py * rw,
            forall|k: int|
                0 <= k < pixels@.len() ==> #[trigger] pixels@[k] == pixel_value(w, h, grid.modules@, bb, k % (rw as int), k / (rw as int)),
        decreases rh - py,
    {
        let mut px: usize = 0;
        proof {
            assert(py * rw + rw <= rh * rw) by (nonlinear_arith)
                requires
                    py < rh,
            ;
        }
        while px < rw
            invariant
                grid.wf(),
                b > 0,
                b == bb,
                w == grid.width,
                h == grid.height,
                rw == raster_side(w, bb),
                py < rh,
                py * rw + rw <= rh * rw,
                rw * rh <= usize::MAX,
                px <= rw,
                pixels@.len() == py * rw + px,
                forall|k: int|
                    0 <= k < pixels@.len() ==> #[trigger] pixels@[k] == pixel_value(w, h, grid.modules@, bb, k % (rw as int), k / (rw as int)),
            decreases rw - px,
        {
            let v = pixel_at(grid, b, px, py);
            proof {
                lemma_fundamental_div_mod_converse((py * rw + px) as int, rw as int, py as int, px as int);
            }
            pixels.push(v);
            px = px + 1;
        }
        proof {
            assert(py * rw + rw == (py + 1) * rw) by (nonlinear_arith);
        }
        py = py + 1;
    }
    proof {
        assert(rh * rw == rw * rh) by (nonlinear_arith);
    }
    let r = Raster { width: rw as u32, height: rh as u32, pixels };
    assert(r.pixels@ =~= raster_pixels(w, h, grid.modules@, bb));
    r
}

/// The quiet zone is white: in every rasterisation with `b > 0` pixels per
/// module, each pixel among the first or last `b` rows or columns is 255.
pub proof fn lemma_quiet_zone_white(w: int, h: int, modules: Seq<bool>, b: int, px: int, py: int)
    requires
        w >= 0,
        h >= 0,
        b > 0,
        0 <= px < raster_side(w, b),
        0 <= py < raster_side(h, b),
        px < b || px >= raster_side(w, b) - b || py < b || py >= raster_side(h, b) - b,
    ensures
        raster_pixels(w, h, modules, b)[py * raster_side(w, b) + px] == 255,
{
    let rw = raster_side(w, b);
    let rh = raster_side(h, b);
    assert(py * rw + px < rw * rh) by (nonlinear_arith)
        requires
            0 <= px < rw,
            0 <= py < rh,
    ;
    assert(0 <= py * rw + px) by (nonlinear_arith)
        requires
            0 <= px,
            0 <= py,
            0 <= rw,
    ;
    lemma_fundamental_div_mod_converse(py * rw + px, rw, py, px);
    assert(rw - b == (w + 1) * b && rh - b == (h + 1) * b) by (nonlinear_arith)
        requires
            rw == (w + 2) * b,
            rh == (h + 2) * b,
    ;
    if px < b {
        lemma_basic_div(px, b);
    } else if px >= rw - b {
        lemma_div_is_ordered((w + 1) * b, px, b);
        lemma_div_by_multiple(w + 1, b);
    } else if py < b {
        lemma_basic_div(py, b);
    } else {
        lemma_div_is_ordered((h + 1) * b, py, b);
        lemma_div_by_multiple(h + 1, b);
    }
}

} // verus!
