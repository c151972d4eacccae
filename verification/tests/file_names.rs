use steel_registry::file_names::{json_file_stem, json_reading_order, lex_less};

#[test]
fn stem_of_json_files() {
    assert_eq!(json_file_stem("cave.json"), Some("cave".to_string()));
    assert_eq!(json_file_stem("a.b.json"), Some("a.b".to_string()));
    assert_eq!(json_file_stem("cave_extra_underground.json"), Some("cave_extra_underground".to_string()));
}

#[test]
fn files_without_json_extension_have_no_stem() {
    assert_eq!(json_file_stem("readme.txt"), None);
    assert_eq!(json_file_stem("json"), None);
    assert_eq!(json_file_stem(".json"), None);
    assert_eq!(json_file_stem("cave.json.bak"), None);
    assert_eq!(json_file_stem("cave.JSON"), None);
    assert_eq!(json_file_stem(".."), None);
    assert_eq!(json_file_stem(""), None);
}

#[test]
fn stem_and_extension_rebuild_the_name() {
    for name in ["x.json", "..json", "a.b.c.json"] {
        let stem = json_file_stem(name).unwrap();
        assert_eq!(format!("{}.json", stem), name);
    }
}

#[test]
fn lexicographic_order_of_names() {
    assert!(lex_less("a", "b"));
    assert!(lex_less("a", "ab"));
    assert!(!lex_less("ab", "a"));
    assert!(!lex_less("a", "a"));
    assert!(lex_less("", "a"));
    assert!(lex_less("a-b.json", "a.json"));
    assert!(lex_less("Z", "a"));
}

#[test]
fn reading_order_sorts_json_files_by_name() {
    let names: Vec<String> = ["nether_cave.json", "README.md", "canyon.json", "cave.json", "cave_extra_underground.json"]
        .iter()
        .map(|s| s.to_string())
        .collect();
    assert_eq!(json_reading_order(&names), vec![2, 3, 4, 0]);
}

#[test]
fn reading_order_keeps_equal_names_in_listing_order() {
    let names: Vec<String> = ["b.json", "a.json", "b.json"].iter().map(|s| s.to_string()).collect();
    assert_eq!(json_reading_order(&names), vec![1, 0, 2]);
}

#[test]
fn reading_order_of_no_json_files_is_empty() {
    let names: Vec<String> = ["a.txt", ".json"].iter().map(|s| s.to_string()).collect();
    assert_eq!(json_reading_order(&names), Vec::<usize>::new());
}

#[test]
fn reading_order_ignores_listing_order() {
    let a: Vec<String> = ["cave.json", "canyon.json", "x.txt", "nether_cave.json"].iter().map(|s| s.to_string()).collect();
    let b: Vec<String> = ["nether_cave.json", "x.txt", "cave.json", "canyon.json"].iter().map(|s| s.to_string()).collect();
    let in_order = |names: &Vec<String>| -> Vec<String> {
        json_reading_order(names).into_iter().map(|i| names[i].clone()).collect()
    };
    assert_eq!(in_order(&a), in_order(&b));
    assert_eq!(in_order(&a), vec!["canyon.json", "cave.json", "nether_cave.json"]);
}
