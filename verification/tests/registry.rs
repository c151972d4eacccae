use steel_registry::registry::{generate_identifier, vanilla_identifier, Identifier};
use steel_registry::source::{check_ident, static_ident};

fn id(ns: &str, path: &str) -> Identifier {
    Identifier { namespace: ns.to_string(), path: path.to_string() }
}

#[test]
fn parse_identifier_with_namespace() {
    assert_eq!(Identifier::parse("steel:custom/thing"), id("steel", "custom/thing"));
    assert_eq!(Identifier::parse("a:b:c"), id("a", "b:c"));
}

#[test]
fn parse_identifier_without_namespace() {
    assert_eq!(Identifier::parse("quartz"), id("minecraft", "quartz"));
    assert_eq!(Identifier::parse(":quartz"), id("minecraft", "quartz"));
    assert_eq!(Identifier::parse(""), id("minecraft", ""));
}

#[test]
fn parsed_identifier_reads_back() {
    let text = "steel:trims/color_palettes/iron";
    let parsed = Identifier::parse(text);
    assert_eq!(format!("{}:{}", parsed.namespace, parsed.path), text);
}

#[test]
fn identifier_expressions() {
    assert_eq!(
        generate_identifier(&id("minecraft", "angler")),
        "Identifier { namespace: Cow::Borrowed(\"minecraft\"), path: Cow::Borrowed(\"angler\") }"
    );
    assert_eq!(vanilla_identifier("cave"), "Identifier::vanilla_static(\"cave\")");
    assert_eq!(vanilla_identifier("say \"hi\""), "Identifier::vanilla_static(\"say \\\"hi\\\"\")");
}

#[test]
fn identifiers_accepted_as_the_identifier_constructor_does() {
    assert!(check_ident("CAVE"));
    assert!(check_ident("_x9"));
    assert!(check_ident("_"));
    assert!(check_ident("ÄB"));
    assert!(check_ident("HÖHLE"));
    assert!(check_ident("_١"));
    assert!(!check_ident(""));
    assert!(!check_ident("9LIVES"));
    assert!(!check_ident("123"));
    assert!(!check_ident("A-B"));
    assert!(!check_ident("A B"));
    assert!(!check_ident("r#CAVE"));
    assert!(!check_ident("١"));
}

#[test]
fn static_identifiers_are_shouty_snake_case() {
    assert_eq!(static_ident("cave_extra_underground"), Some("CAVE_EXTRA_UNDERGROUND".to_string()));
    assert_eq!(static_ident("heartOfTheSea"), Some("HEART_OF_THE_SEA".to_string()));
    assert_eq!(static_ident("kebab-case"), Some("KEBAB_CASE".to_string()));
    assert_eq!(static_ident("höhle"), Some("HÖHLE".to_string()));
    assert_eq!(static_ident("1st"), None);
}
