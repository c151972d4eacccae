use steel_registry::providers::{
    float_provider, height_provider, int_provider, vertical_anchor, FloatLiteral, FloatProvider,
    HeightProvider, IntProvider, VerticalAnchor, WeightedIntProvider,
};

fn lit(text: &str) -> FloatLiteral {
    FloatLiteral { text: text.to_string() }
}

#[test]
fn vertical_anchor_variants() {
    assert_eq!(vertical_anchor(&VerticalAnchor::Absolute(-12)), "VerticalAnchor::Absolute(-12i32)");
    assert_eq!(vertical_anchor(&VerticalAnchor::AboveBottom(8)), "VerticalAnchor::AboveBottom(8i32)");
    assert_eq!(vertical_anchor(&VerticalAnchor::BelowTop(0)), "VerticalAnchor::BelowTop(0i32)");
    assert_eq!(
        vertical_anchor(&VerticalAnchor::RelativeToSeaLevel(2147483647)),
        "VerticalAnchor::RelativeToSeaLevel(2147483647i32)"
    );
    assert_eq!(
        vertical_anchor(&VerticalAnchor::Absolute(i32::MIN)),
        "VerticalAnchor::Absolute(-2147483648i32)"
    );
}

#[test]
fn height_provider_variants() {
    assert_eq!(
        height_provider(&HeightProvider::Constant(VerticalAnchor::Absolute(64))),
        "HeightProvider::Constant(VerticalAnchor::Absolute(64i32))"
    );
    assert_eq!(
        height_provider(&HeightProvider::Uniform {
            min_inclusive: VerticalAnchor::AboveBottom(8),
            max_inclusive: VerticalAnchor::Absolute(180),
        }),
        "HeightProvider::Uniform { min_inclusive: VerticalAnchor::AboveBottom(8i32), max_inclusive: VerticalAnchor::Absolute(180i32) }"
    );
    assert_eq!(
        height_provider(&HeightProvider::Trapezoid {
            min_inclusive: VerticalAnchor::Absolute(-64),
            max_inclusive: VerticalAnchor::Absolute(64),
            plateau: 3,
        }),
        "HeightProvider::Trapezoid { min_inclusive: VerticalAnchor::Absolute(-64i32), max_inclusive: VerticalAnchor::Absolute(64i32), plateau: 3i32 }"
    );
    assert_eq!(
        height_provider(&HeightProvider::BiasedToBottom {
            min_inclusive: VerticalAnchor::AboveBottom(5),
            max_inclusive: VerticalAnchor::BelowTop(5),
            inner: 8,
        }),
        "HeightProvider::BiasedToBottom { min_inclusive: VerticalAnchor::AboveBottom(5i32), max_inclusive: VerticalAnchor::BelowTop(5i32), inner: 8i32 }"
    );
    assert_eq!(
        height_provider(&HeightProvider::VeryBiasedToBottom {
            min_inclusive: VerticalAnchor::AboveBottom(0),
            max_inclusive: VerticalAnchor::RelativeToSeaLevel(-1),
            inner: 1,
        }),
        "HeightProvider::VeryBiasedToBottom { min_inclusive: VerticalAnchor::AboveBottom(0i32), max_inclusive: VerticalAnchor::RelativeToSeaLevel(-1i32), inner: 1i32 }"
    );
}

#[test]
fn float_provider_variants() {
    assert_eq!(float_provider(&FloatProvider::Constant(lit("1f32"))), "FloatProvider::Constant(1f32)");
    assert_eq!(
        float_provider(&FloatProvider::Uniform { min_inclusive: lit("0.1f32"), max_exclusive: lit("0.9f32") }),
        "FloatProvider::Uniform { min_inclusive: 0.1f32, max_exclusive: 0.9f32 }"
    );
    assert_eq!(
        float_provider(&FloatProvider::Trapezoid { min: lit("0f32"), max: lit("6f32"), plateau: lit("2f32") }),
        "FloatProvider::Trapezoid { min: 0f32, max: 6f32, plateau: 2f32 }"
    );
    assert_eq!(
        float_provider(&FloatProvider::ClampedNormal {
            mean: lit("0f32"),
            deviation: lit("0.3f32"),
            min: lit("-1f32"),
            max: lit("1f32"),
        }),
        "FloatProvider::ClampedNormal { mean: 0f32, deviation: 0.3f32, min: -1f32, max: 1f32 }"
    );
}

#[test]
fn int_provider_flat_variants() {
    assert_eq!(int_provider(&IntProvider::Constant(15)), "IntProvider::Constant(15i32)");
    assert_eq!(
        int_provider(&IntProvider::Uniform { min_inclusive: 1, max_inclusive: 3 }),
        "IntProvider::Uniform { min_inclusive: 1i32, max_inclusive: 3i32 }"
    );
    assert_eq!(
        int_provider(&IntProvider::BiasedToBottom { min_inclusive: 0, max_inclusive: 15 }),
        "IntProvider::BiasedToBottom { min_inclusive: 0i32, max_inclusive: 15i32 }"
    );
    assert_eq!(
        int_provider(&IntProvider::VeryBiasedToBottom { min_inclusive: 0, max_inclusive: 15, inner: 2 }),
        "IntProvider::VeryBiasedToBottom { min_inclusive: 0i32, max_inclusive: 15i32, inner: 2i32 }"
    );
    assert_eq!(
        int_provider(&IntProvider::Trapezoid { min: 1, max: 9, plateau: 4 }),
        "IntProvider::Trapezoid { min: 1i32, max: 9i32, plateau: 4i32 }"
    );
    assert_eq!(
        int_provider(&IntProvider::ClampedNormal {
            mean: lit("0.5f32"),
            deviation: lit("2f32"),
            min_inclusive: -3,
            max_inclusive: 3,
        }),
        "IntProvider::ClampedNormal { mean: 0.5f32, deviation: 2f32, min_inclusive: -3i32, max_inclusive: 3i32 }"
    );
}

#[test]
fn int_provider_clamped_wraps_source() {
    let p = IntProvider::Clamped {
        source: Box::new(IntProvider::Uniform { min_inclusive: -5, max_inclusive: 5 }),
        min_inclusive: 0,
        max_inclusive: 5,
    };
    assert_eq!(
        int_provider(&p),
        "IntProvider::Clamped { source: Box::new(IntProvider::Uniform { min_inclusive: -5i32, max_inclusive: 5i32 }), min_inclusive: 0i32, max_inclusive: 5i32 }"
    );
}

#[test]
fn int_provider_weighted_list_keeps_order() {
    let p = IntProvider::WeightedList {
        distribution: vec![
            WeightedIntProvider { data: IntProvider::Constant(1), weight: 3 },
            WeightedIntProvider {
                data: IntProvider::WeightedList {
                    distribution: vec![WeightedIntProvider { data: IntProvider::Constant(7), weight: 1 }],
                },
                weight: 2,
            },
        ],
    };
    assert_eq!(
        int_provider(&p),
        "IntProvider::WeightedList { distribution: vec![steel_utils::value_providers::WeightedIntProvider { data: IntProvider::Constant(1i32), weight: 3i32 }, steel_utils::value_providers::WeightedIntProvider { data: IntProvider::WeightedList { distribution: vec![steel_utils::value_providers::WeightedIntProvider { data: IntProvider::Constant(7i32), weight: 1i32 }] }, weight: 2i32 }] }"
    );
}

#[test]
fn int_provider_empty_weighted_list() {
    let p = IntProvider::WeightedList { distribution: vec![] };
    assert_eq!(int_provider(&p), "IntProvider::WeightedList { distribution: vec![] }");
}

#[test]
fn generated_expressions_parse_as_rust() {
    let p = IntProvider::Clamped {
        source: Box::new(IntProvider::Constant(-4)),
        min_inclusive: -2,
        max_inclusive: 2,
    };
    let text = int_provider(&p);
    assert!(text.parse::<proc_macro2::TokenStream>().is_ok());
}
