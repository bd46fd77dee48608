//! Physical layout constants: page size, card size, gutter and density,
//! with the side margins derived so the 3x3 grid sits centered.

use vstd::prelude::*;

verus! {

/// Largest page, card or gutter length, in micrometers, that a
/// configuration accepts (ten meters). Keeping every length under this
/// bound keeps all derived coordinates and scale numerators inside `u64`.
pub const MAX_DIMENSION_UM: u64 = 10_000_000;

/// Largest accepted rendering density, in dots per inch.
pub const MAX_DPI: u32 = 100_000;

/// Why a configuration was rejected at construction.
#[derive(Clone, Copy, Debug, PartialEq, Eq, Structural)]
pub enum ConfigError {
    /// A card dimension is zero.
    CardSizeZero,
    /// The density is zero or above `MAX_DPI`.
    DensityOutOfRange,
    /// A length is above `MAX_DIMENSION_UM`.
    DimensionTooLarge,
    /// Three cards and two gutters do not fit across the page.
    GridTooWide,
    /// Three cards and two gutters do not fit down the page.
    GridTooTall,
    /// The horizontal leftover is odd, so it cannot split into two
    /// equal whole-micrometer margins.
    OddMarginWidth,
    /// The vertical leftover is odd.
    OddMarginHeight,
}

/// Immutable physical constants of one document layout. Lengths are in
/// micrometers; `dpi` is the density assumed for every image, whatever
/// density the image itself claims.
#[derive(Clone, Copy, Debug, PartialEq, Eq, Structural)]
pub struct LayoutConfig {
    pub page_width_um: u64,
    pub page_height_um: u64,
    pub card_width_um: u64,
    pub card_height_um: u64,
    pub gutter_um: u64,
    pub dpi: u32,
}

impl LayoutConfig {
    /// A configuration the constructor can return: positive card and
    /// density, bounded lengths, the grid fits on the page, and the
    /// leftover splits into two equal margins on each axis.
    pub open spec fn wf(self) -> bool {
        &&& 1 <= self.card_width_um <= MAX_DIMENSION_UM
        &&& 1 <= self.card_height_um <= MAX_DIMENSION_UM
        &&& 1 <= self.dpi <= MAX_DPI
        &&& self.page_width_um <= MAX_DIMENSION_UM
        &&& self.page_height_um <= MAX_DIMENSION_UM
        &&& self.gutter_um <= MAX_DIMENSION_UM
        &&& 3 * self.card_width_um + 2 * self.gutter_um <= self.page_width_um
        &&& 3 * self.card_height_um + 2 * self.gutter_um <= self.page_height_um
        &&& (self.page_width_um - 3 * self.card_width_um - 2 * self.gutter_um) % 2 == 0
        &&& (self.page_height_um - 3 * self.card_height_um - 2 * self.gutter_um) % 2 == 0
    }

    /// The horizontal margin on either side of the grid:
    /// `(page - 3 card - 2 gutter) / 2`.
    pub open spec fn spec_margin_width_um(self) -> int {
        (self.page_width_um - 3 * self.card_width_um - 2 * self.gutter_um) / 2
    }

    /// The vertical margin above and below the grid.
    pub open spec fn spec_margin_height_um(self) -> int {
        (self.page_height_um - 3 * self.card_height_um - 2 * self.gutter_um) / 2
    }

    /// What `new` returns for given lengths: the first violated rule's
    /// error, or the validated configuration.
    pub open spec fn spec_validate(
        page_width_um: u64,
        page_height_um: u64,
        card_width_um: u64,
        card_height_um: u64,
        gutter_um: u64,
        dpi: u32,
    ) -> Result<LayoutConfig, ConfigError> {
        if card_width_um == 0 || card_height_um == 0 {
            Err(ConfigError::CardSizeZero)
        } else if dpi == 0 || dpi > MAX_DPI {
            Err(ConfigError::DensityOutOfRange)
        } else if page_width_um > MAX_DIMENSION_UM || page_height_um > MAX_DIMENSION_UM
            || card_width_um > MAX_DIMENSION_UM || card_height_um > MAX_DIMENSION_UM
            || gutter_um > MAX_DIMENSION_UM {
            Err(ConfigError::DimensionTooLarge)
        } else if 3 * card_width_um + 2 * gutter_um > page_width_um {
            Err(ConfigError::GridTooWide)
        } else if 3 * card_height_um + 2 * gutter_um > page_height_um {
            Err(ConfigError::GridTooTall)
        } else if (page_width_um - 3 * card_width_um - 2 * gutter_um) % 2 != 0 {
            Err(ConfigError::OddMarginWidth)
        } else if (page_height_um - 3 * card_height_um - 2 * gutter_um) % 2 != 0 {
            Err(ConfigError::OddMarginHeight)
        } else {
            Ok(LayoutConfig {
                page_width_um,
                page_height_um,
                card_width_um,
                card_height_um,
                gutter_um,
                dpi,
            })
        }
    }

    /// Validates the constants of one layout. Succeeds exactly when the
    /// requested configuration is well formed; the margins are then
    /// derived, never stored, so they always match the constants.
    pub fn new(
        page_width_um: u64,
        page_height_um: u64,
        card_width_um: u64,
        card_height_um: u64,
        gutter_um: u64,
        dpi: u32,
    ) -> (r: Result<LayoutConfig, ConfigError>)
        ensures
            r == Self::spec_validate(
                page_width_um, page_height_um, card_width_um, card_height_um, gutter_um, dpi),
            r matches Ok(c) ==> c.wf(),
            (r is Ok) <==> (LayoutConfig {
                page_width_um,
                page_height_um,
                card_width_um,
                card_height_um,
                gutter_um,
                dpi,
            }).wf(),
    {
        if card_width_um == 0 || card_height_um == 0 {
            Err(ConfigError::CardSizeZero)
        } else if dpi == 0 || dpi > MAX_DPI {
            Err(ConfigError::DensityOutOfRange)
        } else if page_width_um > MAX_DIMENSION_UM || page_height_um > MAX_DIMENSION_UM
            || card_width_um > MAX_DIMENSION_UM || card_height_um > MAX_DIMENSION_UM
            || gutter_um > MAX_DIMENSION_UM {
            Err(ConfigError::DimensionTooLarge)
        } else if 3 * card_width_um + 2 * gutter_um > page_width_um {
            Err(ConfigError::GridTooWide)
        } else if 3 * card_height_um + 2 * gutter_um > page_height_um {
            Err(ConfigError::GridTooTall)
        } else if (page_width_um - 3 * card_width_um - 2 * gutter_um) % 2 != 0 {
            Err(ConfigError::OddMarginWidth)
        } else if (page_height_um - 3 * card_height_um - 2 * gutter_um) % 2 != 0 {
            Err(ConfigError::OddMarginHeight)
        } else {
            Ok(LayoutConfig {
                page_width_um,
                page_height_um,
                card_width_um,
                card_height_um,
                gutter_um,
                dpi,
            })
        }
    }

    /// The derived horizontal margin, recomputed from the constants.
    pub fn margin_width_um(&self) -> (r: u64)
        requires
            self.wf(),
        ensures
            r == self.spec_margin_width_um(),
    {
        (self.page_width_um - 3 * self.card_width_um - 2 * self.gutter_um) / 2
    }

    /// The derived vertical margin, recomputed from the constants.
    pub fn margin_height_um(&self) -> (r: u64)
        requires
            self.wf(),
        ensures
            r == self.spec_margin_height_um(),
    {
        (self.page_height_um - 3 * self.card_height_um - 2 * self.gutter_um) / 2
    }
}

/// Law: the derived margins are non-negative, and three cards, two
/// gutters and the two margins reconstruct the page length exactly, on
/// both axes, for every well-formed configuration.
pub proof fn lemma_margins_center_grid(cfg: LayoutConfig)
    requires
        cfg.wf(),
    ensures
        0 <= cfg.spec_margin_width_um(),
        0 <= cfg.spec_margin_height_um(),
        3 * cfg.card_width_um + 2 * cfg.gutter_um + 2 * cfg.spec_margin_width_um()
            == cfg.page_width_um,
        3 * cfg.card_height_um + 2 * cfg.gutter_um + 2 * cfg.spec_margin_height_um()
            == cfg.page_height_um,
{
}

} // verus!
