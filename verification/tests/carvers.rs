use steel_registry::carvers::{
    build, canyon_kind, carver_files, CarverFile, carver_kind, cave_kind, CanyonJson, CanyonShapeJson, CarverJson, CaveJson,
    NamedCarver, CARVERS_HEADER, CARVERS_SIGNATURE,
};
use steel_registry::providers::{FloatLiteral, FloatProvider, HeightProvider, IntProvider, VerticalAnchor};
use steel_registry::registry::CodegenError;

fn lit(text: &str) -> FloatLiteral {
    FloatLiteral { text: text.to_string() }
}

fn constant(text: &str) -> FloatProvider {
    FloatProvider::Constant(lit(text))
}

fn sample_cave() -> CaveJson {
    CaveJson {
        probability: lit("0.15f32"),
        y: HeightProvider::Uniform {
            min_inclusive: VerticalAnchor::AboveBottom(8),
            max_inclusive: VerticalAnchor::Absolute(180),
        },
        count: IntProvider::Constant(1),
        thickness: constant("0.5f32"),
        weird_thickness_bias: true,
        room_vertical_radius_multiplier: constant("1f32"),
        horizontal_radius_multiplier: constant("1f32"),
        vertical_radius_multiplier: constant("1f32"),
        start_vertical_radius_multiplier: constant("1f32"),
        floor_level: constant("-0.7f32"),
    }
}

const CAVE_KIND: &str = "WorldCarverKind::Cave(CaveWorldCarver { probability: 0.15f32, y: HeightProvider::Uniform { min_inclusive: VerticalAnchor::AboveBottom(8i32), max_inclusive: VerticalAnchor::Absolute(180i32) }, count: IntProvider::Constant(1i32), thickness: FloatProvider::Constant(0.5f32), weird_thickness_bias: true, room_vertical_radius_multiplier: FloatProvider::Constant(1f32), horizontal_radius_multiplier: FloatProvider::Constant(1f32), vertical_radius_multiplier: FloatProvider::Constant(1f32), start_vertical_radius_multiplier: FloatProvider::Constant(1f32), floor_level: FloatProvider::Constant(-0.7f32) })";

fn sample_canyon() -> CanyonJson {
    CanyonJson {
        probability: lit("0.01f32"),
        y: HeightProvider::Constant(VerticalAnchor::Absolute(20)),
        vertical_rotation: FloatProvider::Uniform { min_inclusive: lit("-0.125f32"), max_exclusive: lit("0.125f32") },
        shape: CanyonShapeJson {
            distance_factor: constant("0.75f32"),
            thickness: constant("3f32"),
            width_smoothness: 3,
            horizontal_radius_factor: constant("1f32"),
            vertical_radius_default_factor: lit("1f32"),
            vertical_radius_center_factor: lit("0f32"),
            y_scale: constant("1f32"),
        },
    }
}

const CANYON_KIND: &str = "WorldCarverKind::Canyon(CanyonWorldCarver { probability: 0.01f32, y: HeightProvider::Constant(VerticalAnchor::Absolute(20i32)), vertical_rotation: FloatProvider::Uniform { min_inclusive: -0.125f32, max_exclusive: 0.125f32 }, shape: CanyonShape { distance_factor: FloatProvider::Constant(0.75f32), thickness: FloatProvider::Constant(3f32), width_smoothness: 3i32, horizontal_radius_factor: FloatProvider::Constant(1f32), vertical_radius_default_factor: 1f32, vertical_radius_center_factor: 0f32, y_scale: FloatProvider::Constant(1f32) } })";

#[test]
fn cave_kind_lists_every_field_in_order() {
    assert_eq!(cave_kind(&sample_cave()), CAVE_KIND);
}

#[test]
fn cave_kind_writes_false_bias() {
    let mut cave = sample_cave();
    cave.weird_thickness_bias = false;
    assert!(cave_kind(&cave).contains("weird_thickness_bias: false,"));
}

#[test]
fn canyon_kind_nests_the_shape() {
    assert_eq!(canyon_kind(&sample_canyon()), CANYON_KIND);
}

#[test]
fn carver_kind_dispatches_on_the_tag() {
    assert_eq!(carver_kind(&CarverJson::Cave(sample_cave())), CAVE_KIND);
    assert_eq!(carver_kind(&CarverJson::Canyon(sample_canyon())), CANYON_KIND);
}

#[test]
fn build_declares_and_registers_each_carver_in_order() {
    let entries = vec![
        NamedCarver { name: "canyon".to_string(), carver: CarverJson::Canyon(sample_canyon()) },
        NamedCarver { name: "cave_extra_underground".to_string(), carver: CarverJson::Cave(sample_cave()) },
    ];
    let text = build(&entries).unwrap();
    let expected = format!(
        "{}pub static CANYON: LazyLock<WorldCarver> = LazyLock::new(|| WorldCarver {{ key: Identifier::vanilla_static(\"canyon\"), kind: {}, id: OnceLock::new() }});\npub static CAVE_EXTRA_UNDERGROUND: LazyLock<WorldCarver> = LazyLock::new(|| WorldCarver {{ key: Identifier::vanilla_static(\"cave_extra_underground\"), kind: {}, id: OnceLock::new() }});\n{} {{\n    registry.register(&CANYON);\n    registry.register(&CAVE_EXTRA_UNDERGROUND);\n}}\n",
        CARVERS_HEADER, CANYON_KIND, CAVE_KIND, CARVERS_SIGNATURE
    );
    assert_eq!(text, expected);
    assert!(text.parse::<proc_macro2::TokenStream>().is_ok());
}

#[test]
fn build_of_no_carvers_has_an_empty_registration_function() {
    let text = build(&Vec::new()).unwrap();
    assert_eq!(text, format!("{}{} {{\n}}\n", CARVERS_HEADER, CARVERS_SIGNATURE));
}

#[test]
fn build_refuses_a_name_that_gives_no_identifier() {
    let entries = vec![
        NamedCarver { name: "cave".to_string(), carver: CarverJson::Cave(sample_cave()) },
        NamedCarver { name: "1st".to_string(), carver: CarverJson::Cave(sample_cave()) },
        NamedCarver { name: "2nd".to_string(), carver: CarverJson::Cave(sample_cave()) },
    ];
    assert_eq!(build(&entries), Err(CodegenError::InvalidIdentifier { index: 1 }));
}

#[test]
fn build_accepts_a_non_ascii_name() {
    let entries = vec![NamedCarver { name: "höhle".to_string(), carver: CarverJson::Cave(sample_cave()) }];
    let text = build(&entries).unwrap();
    assert!(text.contains("pub static HÖHLE: LazyLock<WorldCarver>"));
    assert!(text.contains("registry.register(&HÖHLE);"));
    assert!(text.parse::<proc_macro2::TokenStream>().is_ok());
}

#[test]
fn carver_files_in_reading_order_with_stems() {
    let names: Vec<String> = ["nether_cave.json", "notes.txt", "canyon.json", "cave.json"].iter().map(|s| s.to_string()).collect();
    assert_eq!(
        carver_files(&names),
        vec![
            CarverFile { position: 2, name: "canyon".to_string() },
            CarverFile { position: 3, name: "cave".to_string() },
            CarverFile { position: 0, name: "nether_cave".to_string() },
        ]
    );
}

#[test]
fn carver_module_ignores_listing_order() {
    let listing_a: Vec<String> = ["cave.json", "canyon.json"].iter().map(|s| s.to_string()).collect();
    let listing_b: Vec<String> = ["canyon.json", "cave.json"].iter().map(|s| s.to_string()).collect();
    let read = |listing: &Vec<String>| -> Vec<NamedCarver> {
        carver_files(listing)
            .into_iter()
            .map(|f| {
                let carver = if f.name == "cave" { CarverJson::Cave(sample_cave()) } else { CarverJson::Canyon(sample_canyon()) };
                NamedCarver { name: f.name, carver }
            })
            .collect()
    };
    assert_eq!(build(&read(&listing_a)).unwrap(), build(&read(&listing_b)).unwrap());
}
