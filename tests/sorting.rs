use std::str::FromStr;
use vsix::{Extension, SortField};

fn ext(id: &str, publisher: &str, display_name: &str, downloads: u64) -> Extension {
    Extension {
        id: id.to_string(),
        name: format!("ext{id}"),
        publisher: publisher.to_string(),
        version: "1.0".to_string(),
        display_name: display_name.to_string(),
        description: None,
        downloads,
    }
}

#[test]
fn test_sort_field_from_str() {
    assert_eq!(SortField::from_str("name"), Ok(SortField::Name));
    assert_eq!(SortField::from_str("NAME"), Ok(SortField::Name));
    assert_eq!(SortField::from_str("downloads"), Ok(SortField::Downloads));
    assert_eq!(SortField::from_str("publisher"), Ok(SortField::Publisher));
    assert!(SortField::from_str("invalid").is_err());
    assert_eq!(SortField::parse("Stars"), Err("Invalid sort field: Stars".to_string()));
}

#[test]
fn test_sort_by_name() {
    let mut extensions = vec![ext("1", "pub1", "Zebra", 100), ext("2", "pub2", "Alpha", 200)];

    SortField::Name.sort_extensions(&mut extensions, false);
    assert_eq!(extensions[0].display_name, "Alpha");
    assert_eq!(extensions[1].display_name, "Zebra");

    SortField::Name.sort_extensions(&mut extensions, true);
    assert_eq!(extensions[0].display_name, "Zebra");
    assert_eq!(extensions[1].display_name, "Alpha");
}

#[test]
fn test_sort_by_downloads() {
    let mut extensions = vec![ext("1", "pub1", "A", 100), ext("2", "pub2", "B", 200)];
    SortField::Downloads.sort_extensions(&mut extensions, false);
    assert_eq!(extensions[0].downloads, 200); // Higher downloads first
    assert_eq!(extensions[1].downloads, 100);
}

#[test]
fn sorting_ignores_case_and_keeps_ties_in_order() {
    let mut extensions = vec![
        ext("1", "beta", "x", 5),
        ext("2", "Alpha", "y", 5),
        ext("3", "alpha", "z", 5),
        ext("4", "ALPHA", "w", 5),
    ];
    SortField::Publisher.sort_extensions(&mut extensions, false);
    let ids: Vec<&str> = extensions.iter().map(|e| e.id.as_str()).collect();
    assert_eq!(ids, vec!["2", "3", "4", "1"]);

    SortField::Downloads.sort_extensions(&mut extensions, false);
    let ids: Vec<&str> = extensions.iter().map(|e| e.id.as_str()).collect();
    assert_eq!(ids, vec!["2", "3", "4", "1"]);
}

#[test]
fn prefix_names_come_first() {
    let mut extensions = vec![ext("1", "p", "Rustacean", 1), ext("2", "p", "rust", 1), ext("3", "p", "", 1)];
    SortField::Name.sort_extensions(&mut extensions, false);
    let names: Vec<&str> = extensions.iter().map(|e| e.display_name.as_str()).collect();
    assert_eq!(names, vec!["", "rust", "Rustacean"]);
}

#[test]
fn equal_keys_keep_their_order_in_reverse_too() {
    let mut extensions = vec![ext("1", "p", "b", 7), ext("2", "p", "a", 7), ext("3", "p", "c", 9)];
    SortField::Downloads.sort_extensions(&mut extensions, true);
    let ids: Vec<&str> = extensions.iter().map(|e| e.id.as_str()).collect();
    assert_eq!(ids, vec!["1", "2", "3"]);
}
