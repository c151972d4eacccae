//! Armor trim materials: a fixed list of materials whose order gives their
//! network ids.
use vstd::prelude::*;
use crate::source::texts;
use crate::source::{string_literal, string_literal_text};
use crate::providers::{call1, call1_text};
use crate::readback::{law_text_component_keeps_color, law_trim_static_shows_palette_and_description, shows};
use crate::registry::{
    CodegenError, Identifier, all_idents_valid, build_registry_module, first_bad_ident, generate_identifier,
    identifier_src, registry_src, vanilla_identifier, vanilla_identifier_src,
};

verus! {

/// The description of a material: a translated text, optionally colored
/// (a `#rrggbb` color).
#[derive(Debug, PartialEq, Eq)]
pub struct TextComponentJson {
    pub translate: String,
    pub color: Option<String>,
}

/// A trim material as the data describes it.
#[derive(Debug, PartialEq, Eq)]
pub struct TrimMaterialJson {
    pub palette_id: Identifier,
    pub description: TextComponentJson,
}

/// The materials in the order that gives their network ids.
pub open spec fn vanilla_order() -> Seq<Seq<char>> {
    seq![
        "quartz"@, "iron"@, "netherite"@, "redstone"@, "copper"@, "gold"@, "emerald"@, "diamond"@,
        "lapis"@, "amethyst"@, "resin"@,
    ]
}

/// The names of the materials, in the order that gives their network ids.
pub fn vanilla_order_names() -> (res: Vec<&'static str>)
    ensures
        res@.map_values(|s: &str| s@) == vanilla_order(),
{
    let res = vec![
        "quartz", "iron", "netherite", "redstone", "copper", "gold", "emerald", "diamond", "lapis",
        "amethyst", "resin",
    ];
    assert(res@.map_values(|s: &str| s@) =~= vanilla_order());
    res
}

/// The directory that holds the material data files.
pub const TRIM_MATERIAL_DIR: &'static str = "../steel-utils/build_assets/builtin_datapacks/minecraft/trim_material/";

/// The path of the data file of the material `name`.
pub open spec fn asset_path(name: Seq<char>) -> Seq<char> {
    TRIM_MATERIAL_DIR@ + name + ".json"@
}

/// The path of the data file of the material `name`.
pub fn trim_material_asset_path(name: &str) -> (res: String)
    ensures
        res@ == asset_path(name@),
{
    let mut out = String::from_str(TRIM_MATERIAL_DIR);
    out.append(name);
    out.append(".json");
    out
}

/// The `use` lines of the generated trim material module.
pub const TRIM_MATERIALS_HEADER: &'static str = "use crate::trim_material::{TrimMaterial, TrimMaterialRegistry, TrimMaterialValue};\nuse steel_utils::Identifier;\nuse std::borrow::Cow;\nuse std::sync::LazyLock;\nuse text_components::{TextComponent, translation::TranslatedMessage};\n";

/// The signature of the generated registration function.
pub const TRIM_MATERIALS_SIGNATURE: &'static str = "pub fn register_trim_materials(registry: &mut TrimMaterialRegistry)";

/// The expression that rebuilds a description.
pub open spec fn text_component_src(d: TextComponentJson) -> Seq<char> {
    let base = call1("TextComponent::from"@, call1("TranslatedMessage::new"@, string_literal(d.translate@) + ", None"@));
    match d.color {
        Some(c) => base + ".color_hex("@ + string_literal(c@) + ")"@,
        None => base,
    }
}

/// The Rust expression that rebuilds the description `d`.
pub fn generate_text_component(d: &TextComponentJson) -> (res: String)
    ensures
        res@ == text_component_src(*d),
        d.color matches Some(c) ==> shows(res@, ".color_hex("@ + string_literal(c@) + ")"@),
        shows(res@, call1("TranslatedMessage::new"@, string_literal(d.translate@) + ", None"@)),
{
    proof {
        law_text_component_keeps_color(*d);
    }
    let mut args = string_literal_text(d.translate.as_str());
    args.append(", None");
    let message = call1_text("TranslatedMessage::new", args.as_str());
    let mut out = call1_text("TextComponent::from", message.as_str());
    match &d.color {
        Some(c) => {
            out.append(".color_hex(");
            out.append(string_literal_text(c.as_str()).as_str());
            out.append(")");
        },
        None => {},
    }
    out
}

/// The type and initializer of the static that holds the material `name`.
pub open spec fn trim_tail_src(name: Seq<char>, m: TrimMaterialJson) -> Seq<char> {
    ": LazyLock<TrimMaterial> = LazyLock::new(|| { "@ + call1(
        "TrimMaterial::new"@,
        vanilla_identifier_src(name) + ", "@ + call1(
            "TrimMaterialValue::new"@,
            identifier_src(m.palette_id.namespace@, m.palette_id.path@) + ", "@ + text_component_src(m.description),
        ),
    ) + " });"@
}

/// The static tails of the materials, paired with the vanilla order.
pub open spec fn trim_tails(ms: Seq<TrimMaterialJson>) -> Seq<Seq<char>> {
    Seq::new(ms.len(), |i: int| trim_tail_src(vanilla_order()[i], ms[i]))
}

/// The generated trim material module.
pub open spec fn trim_module_src(ms: Seq<TrimMaterialJson>) -> Seq<char> {
    registry_src(TRIM_MATERIALS_HEADER@, TRIM_MATERIALS_SIGNATURE@, vanilla_order(), trim_tails(ms))
}

/// The type and initializer of the static that holds `m`, the material
/// `name`.
fn trim_tail(name: &str, m: &TrimMaterialJson) -> (res: String)
    ensures
        res@ == trim_tail_src(name@, *m),
        shows(
            res@,
            call1(
                "TrimMaterialValue::new"@,
                identifier_src(m.palette_id.namespace@, m.palette_id.path@) + ", "@ + text_component_src(m.description),
            ),
        ),
{
    proof {
        law_trim_static_shows_palette_and_description(name@, *m);
    }
    let mut value_args = generate_identifier(&m.palette_id);
    value_args.append(", ");
    value_args.append(generate_text_component(&m.description).as_str());
    let value = call1_text("TrimMaterialValue::new", value_args.as_str());
    let mut args = vanilla_identifier(name);
    args.append(", ");
    args.append(value.as_str());
    let material = call1_text("TrimMaterial::new", args.as_str());
    let mut out = String::from_str(": LazyLock<TrimMaterial> = LazyLock::new(|| { ");
    out.append(material.as_str());
    out.append(" });");
    out
}

/// The source of the trim material module. `materials[i]` is the data of
/// the material `vanilla_order()[i]`; each becomes a static named after the
/// material, in that order, and `register_trim_materials` registers them
/// in that order.
pub fn build(materials: &Vec<TrimMaterialJson>) -> (res: Result<String, CodegenError>)
    requires
        materials@.len() == vanilla_order().len(),
    ensures
        match res {
            Ok(text) => all_idents_valid(vanilla_order()) && text@ == trim_module_src(materials@),
            Err(CodegenError::InvalidIdentifier { index }) => first_bad_ident(vanilla_order(), index as int),
            Err(_) => false,
        },
{
    let order = vanilla_order_names();
    let n = materials.len();
    let mut names: Vec<String> = Vec::new();
    let mut tails: Vec<String> = Vec::new();
    let mut i: usize = 0;
    while i < n
        invariant
            n == materials@.len(),
            n == vanilla_order().len(),
            order@.map_values(|s: &str| s@) == vanilla_order(),
            i <= n,
            texts(names@) == vanilla_order().take(i as int),
            texts(tails@) == trim_tails(materials@).take(i as int),
        decreases n - i,
    {
        let name = order[i];
        assert(name@ == vanilla_order()[i as int]);
        let tail = trim_tail(name, &materials[i]);
        let ghost prev_names = names@;
        let ghost prev_tails = tails@;
        let ghost tail_view = tail@;
        names.push(String::from_str(name));
        tails.push(tail);
        proof {
            assert(texts(names@) =~= texts(prev_names).push(name@));
            assert(texts(tails@) =~= texts(prev_tails).push(tail_view));
            assert(vanilla_order().take(i + 1) =~= vanilla_order().take(i as int).push(name@));
            assert(trim_tails(materials@).take(i + 1) =~= trim_tails(materials@).take(i as int).push(tail_view));
        }
        i = i + 1;
    }
    proof {
        assert(vanilla_order().take(n as int) =~= vanilla_order());
        assert(trim_tails(materials@).take(n as int) =~= trim_tails(materials@));
    }
    build_registry_module(TRIM_MATERIALS_HEADER, TRIM_MATERIALS_SIGNATURE, &names, &tails)
}

} // verus!
