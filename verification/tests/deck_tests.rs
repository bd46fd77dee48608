use proxy_grid::deck::ProxyCsv;

fn parse(line: &str) -> Option<(usize, String)> {
    ProxyCsv::parse_deck_line(&line.as_bytes().to_vec())
        .map(|(count, name)| (count, String::from_utf8(name).unwrap()))
}

#[test]
fn plain_count_and_name() {
    assert_eq!(parse("3 Lightning Bolt"), Some((3, "Lightning Bolt".to_string())));
}

#[test]
fn surrounding_whitespace_is_trimmed() {
    assert_eq!(parse("  4 Giant Growth \r\n"), Some((4, "Giant Growth".to_string())));
}

#[test]
fn name_keeps_its_inner_spacing() {
    // Only the first space splits; the name keeps what follows it.
    assert_eq!(parse("10  Forest"), Some((10, " Forest".to_string())));
}

#[test]
fn count_with_plus_sign() {
    assert_eq!(parse("+4 Island"), Some((4, "Island".to_string())));
}

#[test]
fn count_of_zero_is_accepted() {
    assert_eq!(parse("0 Swamp"), Some((0, "Swamp".to_string())));
}

#[test]
fn line_without_space_is_skipped() {
    assert_eq!(parse("Mountain"), None);
    assert_eq!(parse("5"), None);
}

#[test]
fn blank_lines_are_skipped() {
    assert_eq!(parse(""), None);
    assert_eq!(parse("   \t  "), None);
}

#[test]
fn non_numeric_count_is_skipped() {
    assert_eq!(parse("five Plains"), None);
    assert_eq!(parse("5x Plains"), None);
    assert_eq!(parse("+ Plains"), None);
}

#[test]
fn tab_does_not_split_count_from_name() {
    assert_eq!(parse("3\tPlains"), None);
}

#[test]
fn count_too_large_for_usize_is_skipped() {
    assert_eq!(parse("18446744073709551616 Relentless Rats"), None);
    assert_eq!(parse("18446744073709551615 Relentless Rats"),
        Some((usize::MAX, "Relentless Rats".to_string())));
}

#[test]
fn repeat_image_yields_count_copies() {
    let bytes = vec![1u8, 2, 3, 4];
    let copies = ProxyCsv::repeat_image(&bytes, 3);
    assert_eq!(copies.len(), 3);
    for c in &copies {
        assert_eq!(c, &bytes);
    }
}

#[test]
fn repeat_image_zero_yields_nothing() {
    let copies = ProxyCsv::repeat_image(&vec![9u8], 0);
    assert!(copies.is_empty());
}
