use steel_registry::decorated_pot_patterns::{
    build, sort_contiguous_registry_entries, DecoratedPotPatternJson, DECORATED_POT_PATTERNS_HEADER,
    DECORATED_POT_PATTERNS_SIGNATURE,
};
use steel_registry::registry::{CodegenError, Identifier};

fn id(ns: &str, path: &str) -> Identifier {
    Identifier { namespace: ns.to_string(), path: path.to_string() }
}

fn pattern(n: usize, name: &str) -> DecoratedPotPatternJson {
    DecoratedPotPatternJson {
        id: n,
        key: id("minecraft", name),
        asset_id: id("minecraft", &format!("{}_pottery_pattern", name)),
    }
}

#[test]
fn sort_puts_each_entry_at_its_id() {
    let mut entries = vec![pattern(2, "blade"), pattern(0, "angler"), pattern(1, "archer")];
    assert_eq!(sort_contiguous_registry_entries(&mut entries), Ok(()));
    assert_eq!(entries, vec![pattern(0, "angler"), pattern(1, "archer"), pattern(2, "blade")]);
}

#[test]
fn sort_of_nothing_succeeds() {
    let mut entries: Vec<DecoratedPotPatternJson> = Vec::new();
    assert_eq!(sort_contiguous_registry_entries(&mut entries), Ok(()));
    assert!(entries.is_empty());
}

#[test]
fn sort_refuses_a_gap_and_leaves_entries_alone() {
    let mut entries = vec![pattern(0, "angler"), pattern(2, "blade")];
    assert_eq!(sort_contiguous_registry_entries(&mut entries), Err(CodegenError::NonContiguousIds));
    assert_eq!(entries, vec![pattern(0, "angler"), pattern(2, "blade")]);
}

#[test]
fn sort_refuses_a_repeated_id() {
    let mut entries = vec![pattern(1, "angler"), pattern(1, "blade")];
    assert_eq!(sort_contiguous_registry_entries(&mut entries), Err(CodegenError::NonContiguousIds));
    assert_eq!(entries, vec![pattern(1, "angler"), pattern(1, "blade")]);
}

#[test]
fn build_registers_patterns_in_id_order() {
    let text = build(vec![pattern(1, "archer"), pattern(0, "angler")]).unwrap();
    let decl = |ident: &str, name: &str| {
        format!(
            "pub static {}: DecoratedPotPattern = DecoratedPotPattern {{ key: Identifier {{ namespace: Cow::Borrowed(\"minecraft\"), path: Cow::Borrowed(\"{}\") }}, asset_id: Identifier {{ namespace: Cow::Borrowed(\"minecraft\"), path: Cow::Borrowed(\"{}_pottery_pattern\") }} }};\n",
            ident, name, name
        )
    };
    let expected = format!(
        "{}{}{}{} {{\n    registry.register(&ANGLER);\n    registry.register(&ARCHER);\n}}\n",
        DECORATED_POT_PATTERNS_HEADER,
        decl("ANGLER", "angler"),
        decl("ARCHER", "archer"),
        DECORATED_POT_PATTERNS_SIGNATURE
    );
    assert_eq!(text, expected);
    assert!(text.parse::<proc_macro2::TokenStream>().is_ok());
}

#[test]
fn build_does_not_depend_on_input_order() {
    let a = build(vec![pattern(0, "angler"), pattern(1, "archer"), pattern(2, "blade")]).unwrap();
    let b = build(vec![pattern(2, "blade"), pattern(0, "angler"), pattern(1, "archer")]).unwrap();
    assert_eq!(a, b);
}

#[test]
fn build_refuses_non_contiguous_ids() {
    assert_eq!(build(vec![pattern(1, "archer")]), Err(CodegenError::NonContiguousIds));
}

#[test]
fn build_refuses_a_key_that_gives_no_identifier() {
    assert_eq!(
        build(vec![pattern(1, "9lives"), pattern(0, "angler")]),
        Err(CodegenError::InvalidIdentifier { index: 1 })
    );
}

#[test]
fn build_accepts_a_non_ascii_key() {
    let text = build(vec![pattern(0, "höhle")]).unwrap();
    assert!(text.contains("pub static HÖHLE: DecoratedPotPattern"));
}
