use steel_registry::registry::Identifier;
use steel_registry::trim_materials::{
    build, generate_text_component, trim_material_asset_path, vanilla_order_names, TextComponentJson,
    TrimMaterialJson, TRIM_MATERIALS_HEADER, TRIM_MATERIALS_SIGNATURE,
};

fn material(name: &str) -> TrimMaterialJson {
    TrimMaterialJson {
        palette_id: Identifier { namespace: "minecraft".to_string(), path: format!("trims/color_palettes/{}", name) },
        description: TextComponentJson { translate: format!("trim_material.minecraft.{}", name), color: None },
    }
}

#[test]
fn vanilla_order_gives_network_ids() {
    assert_eq!(
        vanilla_order_names(),
        vec!["quartz", "iron", "netherite", "redstone", "copper", "gold", "emerald", "diamond", "lapis", "amethyst", "resin"]
    );
}

#[test]
fn asset_path_of_a_material() {
    assert_eq!(
        trim_material_asset_path("quartz"),
        "../steel-utils/build_assets/builtin_datapacks/minecraft/trim_material/quartz.json"
    );
}

#[test]
fn text_component_with_and_without_color() {
    let plain = TextComponentJson { translate: "trim_material.minecraft.iron".to_string(), color: None };
    assert_eq!(
        generate_text_component(&plain),
        "TextComponent::from(TranslatedMessage::new(\"trim_material.minecraft.iron\", None))"
    );
    let colored = TextComponentJson {
        translate: "trim_material.minecraft.gold".to_string(),
        color: Some("#DEB12D".to_string()),
    };
    assert_eq!(
        generate_text_component(&colored),
        "TextComponent::from(TranslatedMessage::new(\"trim_material.minecraft.gold\", None)).color_hex(\"#DEB12D\")"
    );
}

#[test]
fn build_declares_materials_in_vanilla_order() {
    let materials: Vec<TrimMaterialJson> = vanilla_order_names().iter().map(|n| material(n)).collect();
    let text = build(&materials).unwrap();
    assert!(text.starts_with(TRIM_MATERIALS_HEADER));
    let first = "pub static QUARTZ: LazyLock<TrimMaterial> = LazyLock::new(|| { TrimMaterial::new(Identifier::vanilla_static(\"quartz\"), TrimMaterialValue::new(Identifier { namespace: Cow::Borrowed(\"minecraft\"), path: Cow::Borrowed(\"trims/color_palettes/quartz\") }, TextComponent::from(TranslatedMessage::new(\"trim_material.minecraft.quartz\", None)))) });\n";
    assert!(text[TRIM_MATERIALS_HEADER.len()..].starts_with(first));
    let registrations: String = ["QUARTZ", "IRON", "NETHERITE", "REDSTONE", "COPPER", "GOLD", "EMERALD", "DIAMOND", "LAPIS", "AMETHYST", "RESIN"]
        .iter()
        .map(|i| format!("    registry.register(&{});\n", i))
        .collect();
    assert!(text.ends_with(&format!("{} {{\n{}}}\n", TRIM_MATERIALS_SIGNATURE, registrations)));
    assert_eq!(text.matches("pub static ").count(), 11);
    assert!(text.parse::<proc_macro2::TokenStream>().is_ok());
}
