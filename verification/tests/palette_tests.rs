use tinybrot::palette::{find_scheme, iteration_color, select_scheme, ColorMap, DEFAULT_SCHEME};

fn names(list: &[&str]) -> Vec<String> {
    list.iter().map(|s| s.to_string()).collect()
}

#[test]
fn the_default_scheme_is_inferno() {
    assert_eq!(DEFAULT_SCHEME, "inferno");
}

#[test]
fn finds_a_known_name() {
    let known = names(&["viridis", "inferno", "magma"]);
    assert_eq!(find_scheme(&known, "viridis"), Some(0));
    assert_eq!(find_scheme(&known, "inferno"), Some(1));
    assert_eq!(find_scheme(&known, "magma"), Some(2));
}

#[test]
fn finds_nothing_for_an_unknown_name() {
    let known = names(&["viridis", "inferno", "magma"]);
    assert_eq!(find_scheme(&known, "plasma"), None);
    assert_eq!(find_scheme(&known, ""), None);
    assert_eq!(find_scheme(&known, "Inferno"), None);
    assert_eq!(find_scheme(&known, "inferno "), None);
    assert_eq!(find_scheme(&names(&[]), "inferno"), None);
}

#[test]
fn finds_the_first_of_equal_names() {
    let known = names(&["a", "b", "a", "b"]);
    assert_eq!(find_scheme(&known, "a"), Some(0));
    assert_eq!(find_scheme(&known, "b"), Some(1));
}

#[test]
fn selects_the_requested_scheme() {
    let known = names(&["viridis", "inferno", "magma"]);
    assert_eq!(select_scheme(&known, &Some("magma".to_string())), Some(2));
    assert_eq!(select_scheme(&known, &Some("viridis".to_string())), Some(0));
    assert_eq!(select_scheme(&known, &Some("inferno".to_string())), Some(1));
}

#[test]
fn falls_back_to_the_default_for_an_unknown_name() {
    let known = names(&["viridis", "inferno", "magma"]);
    assert_eq!(select_scheme(&known, &Some("no-such-scheme".to_string())), Some(1));
    assert_eq!(select_scheme(&known, &Some(String::new())), Some(1));
}

#[test]
fn falls_back_to_the_default_without_a_name() {
    let known = names(&["viridis", "inferno", "magma"]);
    assert_eq!(select_scheme(&known, &None), Some(1));
}

#[test]
fn selects_nothing_where_the_default_is_unknown_too() {
    let known = names(&["viridis", "magma"]);
    assert_eq!(select_scheme(&known, &None), None);
    assert_eq!(select_scheme(&known, &Some("plasma".to_string())), None);
    assert_eq!(select_scheme(&known, &Some("magma".to_string())), Some(1));
    assert_eq!(select_scheme(&names(&[]), &Some("inferno".to_string())), None);
}

#[test]
fn an_empty_table_is_no_color_map() {
    assert_eq!(ColorMap::new(Vec::new()), None);
}

#[test]
fn a_color_map_keeps_its_table() {
    let map = ColorMap::new(vec![[1, 2, 3], [4, 5, 6]]).unwrap();
    assert_eq!(map.colors, vec![[1, 2, 3], [4, 5, 6]]);
}

#[test]
fn a_count_reads_its_entry_with_full_alpha() {
    let map = ColorMap::new(vec![[1, 2, 3], [4, 5, 6], [7, 8, 9]]).unwrap();
    assert_eq!(iteration_color(0, &map), [1, 2, 3, 255]);
    assert_eq!(iteration_color(1, &map), [4, 5, 6, 255]);
    assert_eq!(iteration_color(2, &map), [7, 8, 9, 255]);
}

#[test]
fn counts_beyond_the_table_start_over() {
    let map = ColorMap::new(vec![[1, 2, 3], [4, 5, 6], [7, 8, 9]]).unwrap();
    assert_eq!(iteration_color(3, &map), [1, 2, 3, 255]);
    assert_eq!(iteration_color(10000, &map), [4, 5, 6, 255]);
    assert_eq!(iteration_color(usize::MAX, &map), iteration_color(usize::MAX % 3, &map));
    let single = ColorMap::new(vec![[9, 9, 9]]).unwrap();
    assert_eq!(iteration_color(0, &single), [9, 9, 9, 255]);
    assert_eq!(iteration_color(12345, &single), [9, 9, 9, 255]);
}
