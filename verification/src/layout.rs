//! The layout engine: maps an ordered sequence of images onto a
//! paginated 3x3 grid, one image per cell, with exact physical
//! placement offsets and scale factors.

use vstd::prelude::*;
use crate::config::LayoutConfig;
use crate::config::MAX_DIMENSION_UM;
use crate::config::MAX_DPI;
use crate::image_info::ImageDescriptor;

verus! {

/// Micrometers per inch: converts pixel counts at a density in dots
/// per inch to physical length.
pub const UM_PER_INCH: u64 = 25_400;

/// An exact scale factor `num / den`. Multiplying an image's native
/// physical size by it yields the configured card size exactly.
#[derive(Clone, Copy, Debug, PartialEq, Eq, Structural)]
pub struct Scale {
    pub num: u64,
    pub den: u64,
}

/// Where one image goes: the page (zero-based, created in order), the
/// grid cell, the physical offset of the cell's corner from the page
/// origin, and the exact scale factors for drawing.
#[derive(Clone, Copy, Debug, PartialEq, Eq, Structural)]
pub struct Placement {
    pub page: usize,
    pub row: usize,
    pub col: usize,
    pub x_um: u64,
    pub y_um: u64,
    pub scale_x: Scale,
    pub scale_y: Scale,
    pub dpi: u32,
}

/// The page of the image at position `i`: nine images fill a page.
pub open spec fn spec_page_of(i: int) -> int {
    i / 9
}

/// The grid row of the image at position `i`.
pub open spec fn spec_row_of(i: int) -> int {
    (i % 9) / 3
}

/// The grid column of the image at position `i`.
pub open spec fn spec_col_of(i: int) -> int {
    (i % 9) % 3
}

/// How many pages a document of `n` images occupies.
pub open spec fn spec_pages_needed(n: int) -> int {
    if n <= 0 {
        0
    } else {
        (n - 1) / 9 + 1
    }
}

/// The horizontal offset of the cell the image at position `i` lands
/// in: the side margin plus one card-and-gutter stride per column.
pub open spec fn spec_cell_x_um(cfg: LayoutConfig, i: int) -> int {
    cfg.spec_margin_width_um()
        + spec_col_of(i) * (cfg.card_width_um + cfg.gutter_um)
}

/// The vertical offset of the cell the image at position `i` lands in.
pub open spec fn spec_cell_y_um(cfg: LayoutConfig, i: int) -> int {
    cfg.spec_margin_height_um()
        + spec_row_of(i) * (cfg.card_height_um + cfg.gutter_um)
}

/// The exact scale that draws `px` pixels at density `dpi` as
/// `card_um` micrometers: `card_um / (px * 25400 / dpi)`.
pub open spec fn spec_scale_to_fit(card_um: u64, px: u32, dpi: u32) -> Scale {
    Scale {
        num: (card_um as int * dpi as int) as u64,
        den: (px as int * UM_PER_INCH as int) as u64,
    }
}

/// Everything the engine promises of the placement of the image at
/// position `i` with pixel size `w` by `h`.
pub open spec fn spec_placement_is(
    cfg: LayoutConfig,
    i: int,
    w: u32,
    h: u32,
    p: Placement,
) -> bool {
    &&& p.page == spec_page_of(i)
    &&& p.row == spec_row_of(i)
    &&& p.col == spec_col_of(i)
    &&& p.x_um == spec_cell_x_um(cfg, i)
    &&& p.y_um == spec_cell_y_um(cfg, i)
    &&& p.scale_x == spec_scale_to_fit(cfg.card_width_um, w, cfg.dpi)
    &&& p.scale_y == spec_scale_to_fit(cfg.card_height_um, h, cfg.dpi)
    &&& p.dpi == cfg.dpi
}

impl Placement {
    /// True exactly for the first cell of a page: the moment the
    /// engine requires a fresh page from the canvas.
    pub fn starts_new_page(&self) -> (b: bool)
        ensures
            b == (self.row == 0 && self.col == 0),
    {
        self.row == 0 && self.col == 0
    }
}

/// Computes the exact scale factor that stretches `px` pixels at
/// density `dpi` to `card_um` micrometers.
fn scale_to_fit(card_um: u64, px: u32, dpi: u32) -> (s: Scale)
    requires
        card_um <= MAX_DIMENSION_UM,
        dpi <= MAX_DPI,
    ensures
        s == spec_scale_to_fit(card_um, px, dpi),
{
    proof {
        assert(card_um as int * dpi as int <= MAX_DIMENSION_UM as int * MAX_DPI as int)
            by (nonlinear_arith)
            requires
                card_um <= MAX_DIMENSION_UM,
                dpi <= MAX_DPI,
        ;
    }
    Scale {
        num: card_um * (dpi as u64),
        den: (px as u64) * UM_PER_INCH,
    }
}

/// How many pages a document of `n` images occupies, as an
/// executable count.
pub fn pages_for_count(n: usize) -> (r: usize)
    ensures
        r as int == spec_pages_needed(n as int),
{
    if n == 0 {
        0
    } else {
        (n - 1) / 9 + 1
    }
}

/// The layout engine of one document: the configuration and the count
/// of images placed so far, which fixes the next cell.
pub struct LayoutEngine {
    pub config: LayoutConfig,
    pub placed: usize,
}

impl LayoutEngine {
    pub open spec fn wf(self) -> bool {
        self.config.wf()
    }

    /// A fresh engine: nothing placed, so the first image starts page
    /// zero at row zero, column zero.
    pub fn new(config: LayoutConfig) -> (e: LayoutEngine)
        requires
            config.wf(),
        ensures
            e.config == config,
            e.placed == 0,
            e.wf(),
    {
        LayoutEngine { config, placed: 0 }
    }

    /// Places the next image of the sequence: returns the page, cell
    /// and exact drawing parameters for the image whose position is
    /// the number of images placed before it, and advances the count.
    pub fn place_next(&mut self, img: &ImageDescriptor) -> (p: Placement)
        requires
            old(self).wf(),
            old(self).placed < usize::MAX,
            img.wf(),
        ensures
            final(self).wf(),
            final(self).config == old(self).config,
            final(self).placed == old(self).placed + 1,
            spec_placement_is(
                old(self).config,
                old(self).placed as int,
                img.width_px,
                img.height_px,
                p,
            ),
    {
        let i = self.placed;
        let cell: usize = i % 9;
        let row: usize = cell / 3;
        let col: usize = cell % 3;
        let page: usize = i / 9;

        let stride_x: u64 = self.config.card_width_um + self.config.gutter_um;
        let stride_y: u64 = self.config.card_height_um + self.config.gutter_um;
        proof {
            assert(col as int * stride_x as int <= 2 * stride_x as int) by (nonlinear_arith)
                requires
                    col <= 2,
                    0 <= stride_x as int,
            ;
            assert(row as int * stride_y as int <= 2 * stride_y as int) by (nonlinear_arith)
                requires
                    row <= 2,
                    0 <= stride_y as int,
            ;
        }
        let x_um: u64 = self.config.margin_width_um() + (col as u64) * stride_x;
        let y_um: u64 = self.config.margin_height_um() + (row as u64) * stride_y;

        let scale_x = scale_to_fit(self.config.card_width_um, img.width_px, self.config.dpi);
        let scale_y = scale_to_fit(self.config.card_height_um, img.height_px, self.config.dpi);
        let dpi = self.config.dpi;

        self.placed = i + 1;
        Placement { page, row, col, x_um, y_um, scale_x, scale_y, dpi }
    }
}

/// Law: the grid coordinates of the image at position `i` are
/// `i / 9`, `(i % 9) / 3` and `(i % 9) % 3`; row and column stay below
/// three, and page, row and column together reconstruct `i`, so each
/// position gets exactly one cell and no cell is skipped.
pub proof fn lemma_grid_position(i: int)
    requires
        0 <= i,
    ensures
        0 <= spec_row_of(i) < 3,
        0 <= spec_col_of(i) < 3,
        0 <= spec_page_of(i),
        9 * spec_page_of(i) + 3 * spec_row_of(i) + spec_col_of(i) == i,
{
}

/// Law: a document of `n` images occupies `ceil(n / 9)` pages: none
/// for an empty input, and otherwise the least count whose nine-cell
/// pages cover all `n` images.
pub proof fn lemma_pages_needed_is_ceil(n: int)
    requires
        0 <= n,
    ensures
        spec_pages_needed(0) == 0,
        n > 0 ==> spec_pages_needed(n) == (n + 8) / 9,
        9 * spec_pages_needed(n) >= n,
        n > 0 ==> 9 * (spec_pages_needed(n) - 1) < n,
        n > 0 ==> spec_pages_needed(n) == spec_page_of(n - 1) + 1,
{
}

/// How the page count grows: a fresh page is needed exactly when the
/// next position starts a page, that is when `n` is a multiple of nine.
pub proof fn lemma_pages_needed_step(n: int)
    requires
        0 <= n,
    ensures
        n % 9 == 0 ==> spec_pages_needed(n + 1) == spec_pages_needed(n) + 1,
        n % 9 != 0 ==> spec_pages_needed(n + 1) == spec_pages_needed(n),
{
}

/// Law: the drawn physical size is exactly the card size, whatever the
/// image's pixel dimensions. The image's native width is
/// `w * 25400 / dpi` micrometers; multiplied by the scale factor it is
/// the card width, stated here cross-multiplied so the identity is
/// over integers. Likewise for the height.
pub proof fn lemma_drawn_size_is_card_size(cfg: LayoutConfig, w: u32, h: u32)
    requires
        cfg.wf(),
        1 <= w,
        1 <= h,
    ensures
        spec_scale_to_fit(cfg.card_width_um, w, cfg.dpi).num as int * (w as int * UM_PER_INCH as int)
            == cfg.card_width_um as int
                * (spec_scale_to_fit(cfg.card_width_um, w, cfg.dpi).den as int * cfg.dpi as int),
        spec_scale_to_fit(cfg.card_height_um, h, cfg.dpi).num as int * (h as int * UM_PER_INCH as int)
            == cfg.card_height_um as int
                * (spec_scale_to_fit(cfg.card_height_um, h, cfg.dpi).den as int * cfg.dpi as int),
{
    assert(cfg.card_width_um as int * cfg.dpi as int <= MAX_DIMENSION_UM as int * MAX_DPI as int)
        by (nonlinear_arith)
        requires
            cfg.card_width_um <= MAX_DIMENSION_UM,
            cfg.dpi <= MAX_DPI,
    ;
    assert(cfg.card_height_um as int * cfg.dpi as int <= MAX_DIMENSION_UM as int * MAX_DPI as int)
        by (nonlinear_arith)
        requires
            cfg.card_height_um <= MAX_DIMENSION_UM,
            cfg.dpi <= MAX_DPI,
    ;
    assert((cfg.card_width_um as int * cfg.dpi as int) * (w as int * UM_PER_INCH as int)
        == cfg.card_width_um as int * ((w as int * UM_PER_INCH as int) * cfg.dpi as int))
        by (nonlinear_arith);
    assert((cfg.card_height_um as int * cfg.dpi as int) * (h as int * UM_PER_INCH as int)
        == cfg.card_height_um as int * ((h as int * UM_PER_INCH as int) * cfg.dpi as int))
        by (nonlinear_arith);
}

/// Law: the cell origin depends only on the cell, not the page: two
/// positions landing on the same cell of different pages get identical
/// offsets, and the first cell of every page sits exactly at the
/// margins.
pub proof fn lemma_cell_origin_uniform_across_pages(cfg: LayoutConfig, i: int, j: int)
    requires
        cfg.wf(),
        0 <= i,
        0 <= j,
        i % 9 == j % 9,
    ensures
        spec_cell_x_um(cfg, i) == spec_cell_x_um(cfg, j),
        spec_cell_y_um(cfg, i) == spec_cell_y_um(cfg, j),
        i % 9 == 0 ==> spec_cell_x_um(cfg, i) == cfg.spec_margin_width_um(),
        i % 9 == 0 ==> spec_cell_y_um(cfg, i) == cfg.spec_margin_height_um(),
{
    if i % 9 == 0 {
        assert(spec_row_of(i) == 0);
        assert(spec_col_of(i) == 0);
        assert(spec_cell_x_um(cfg, i)
            == cfg.spec_margin_width_um() + 0 * (cfg.card_width_um + cfg.gutter_um));
        assert(spec_cell_y_um(cfg, i)
            == cfg.spec_margin_height_um() + 0 * (cfg.card_height_um + cfg.gutter_um));
    }
}

} // verus!
