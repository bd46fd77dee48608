use proxy_grid::config::{ConfigError, LayoutConfig};

fn scenario_config() -> LayoutConfig {
    // 210 x 279 mm page, 61.5 x 86.9 mm card, 1 mm gutter, 300 dpi.
    LayoutConfig::new(210_000, 279_000, 61_500, 86_900, 1_000, 300).unwrap()
}

#[test]
fn scenario_config_is_accepted() {
    let cfg = scenario_config();
    assert_eq!(cfg.page_width_um, 210_000);
    assert_eq!(cfg.card_height_um, 86_900);
    assert_eq!(cfg.dpi, 300);
}

#[test]
fn margins_are_derived_exactly() {
    let cfg = scenario_config();
    assert_eq!(cfg.margin_width_um(), 11_750);
    assert_eq!(cfg.margin_height_um(), 8_150);
}

#[test]
fn margins_reconstruct_the_page_exactly() {
    let cfg = scenario_config();
    assert_eq!(
        3 * cfg.card_width_um + 2 * cfg.gutter_um + 2 * cfg.margin_width_um(),
        cfg.page_width_um
    );
    assert_eq!(
        3 * cfg.card_height_um + 2 * cfg.gutter_um + 2 * cfg.margin_height_um(),
        cfg.page_height_um
    );
}

#[test]
fn margins_recenter_after_card_size_change() {
    // An undersized card grows the margins but keeps the page covered.
    let cfg = LayoutConfig::new(210_000, 279_000, 63_500, 88_900, 1_000, 300).unwrap();
    assert_eq!(cfg.margin_width_um(), 8_750);
    assert_eq!(cfg.margin_height_um(), 5_150);
    assert_eq!(
        3 * cfg.card_width_um + 2 * cfg.gutter_um + 2 * cfg.margin_width_um(),
        cfg.page_width_um
    );
}

#[test]
fn zero_card_is_rejected() {
    let r = LayoutConfig::new(210_000, 279_000, 0, 86_900, 1_000, 300);
    assert_eq!(r.unwrap_err(), ConfigError::CardSizeZero);
}

#[test]
fn zero_density_is_rejected() {
    let r = LayoutConfig::new(210_000, 279_000, 61_500, 86_900, 1_000, 0);
    assert_eq!(r.unwrap_err(), ConfigError::DensityOutOfRange);
}

#[test]
fn huge_density_is_rejected() {
    let r = LayoutConfig::new(210_000, 279_000, 61_500, 86_900, 1_000, 100_001);
    assert_eq!(r.unwrap_err(), ConfigError::DensityOutOfRange);
}

#[test]
fn oversized_page_is_rejected() {
    let r = LayoutConfig::new(10_000_001, 279_000, 61_500, 86_900, 1_000, 300);
    assert_eq!(r.unwrap_err(), ConfigError::DimensionTooLarge);
}

#[test]
fn grid_wider_than_page_is_rejected() {
    let r = LayoutConfig::new(210_000, 279_000, 70_000, 86_900, 1_000, 300);
    assert_eq!(r.unwrap_err(), ConfigError::GridTooWide);
}

#[test]
fn grid_taller_than_page_is_rejected() {
    let r = LayoutConfig::new(210_000, 279_000, 61_500, 93_000, 1_000, 300);
    assert_eq!(r.unwrap_err(), ConfigError::GridTooTall);
}

#[test]
fn odd_horizontal_leftover_is_rejected() {
    let r = LayoutConfig::new(210_001, 279_000, 61_500, 86_900, 1_000, 300);
    assert_eq!(r.unwrap_err(), ConfigError::OddMarginWidth);
}

#[test]
fn odd_vertical_leftover_is_rejected() {
    let r = LayoutConfig::new(210_000, 279_001, 61_500, 86_900, 1_000, 300);
    assert_eq!(r.unwrap_err(), ConfigError::OddMarginHeight);
}
