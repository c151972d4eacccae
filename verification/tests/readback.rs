use steel_registry::carvers::{canyon_kind, cave_kind, CanyonJson, CanyonShapeJson, CaveJson};
use steel_registry::providers::{
    float_provider, height_provider, int_provider, vertical_anchor, FloatLiteral, FloatProvider,
    HeightProvider, IntProvider, VerticalAnchor, WeightedIntProvider,
};

fn lit(text: &str) -> FloatLiteral {
    FloatLiteral { text: text.to_string() }
}

fn constant(text: &str) -> FloatProvider {
    FloatProvider::Constant(lit(text))
}

fn all_distinct(texts: &[String]) -> bool {
    for i in 0..texts.len() {
        for j in 0..i {
            if texts[i] == texts[j] {
                return false;
            }
        }
    }
    true
}

#[test]
fn distinct_anchors_render_distinct_text() {
    let anchors = [
        VerticalAnchor::Absolute(5),
        VerticalAnchor::AboveBottom(5),
        VerticalAnchor::BelowTop(5),
        VerticalAnchor::RelativeToSeaLevel(5),
        VerticalAnchor::Absolute(-5),
        VerticalAnchor::Absolute(55),
    ];
    let texts: Vec<String> = anchors.iter().map(vertical_anchor).collect();
    assert!(all_distinct(&texts));
    assert_eq!(vertical_anchor(&VerticalAnchor::BelowTop(5)), vertical_anchor(&VerticalAnchor::BelowTop(5)));
}

#[test]
fn height_bounds_are_not_swapped_in_text() {
    let a = VerticalAnchor::Absolute(1);
    let b = VerticalAnchor::Absolute(2);
    let providers = [
        HeightProvider::Uniform { min_inclusive: a, max_inclusive: b },
        HeightProvider::Uniform { min_inclusive: b, max_inclusive: a },
        HeightProvider::BiasedToBottom { min_inclusive: a, max_inclusive: b, inner: 1 },
        HeightProvider::VeryBiasedToBottom { min_inclusive: a, max_inclusive: b, inner: 1 },
        HeightProvider::Trapezoid { min_inclusive: a, max_inclusive: b, plateau: 1 },
        HeightProvider::Constant(a),
    ];
    let texts: Vec<String> = providers.iter().map(height_provider).collect();
    assert!(all_distinct(&texts));
}

#[test]
fn float_fields_keep_their_places_in_text() {
    let providers = [
        FloatProvider::Uniform { min_inclusive: lit("0.5f32"), max_exclusive: lit("1.5f32") },
        FloatProvider::Uniform { min_inclusive: lit("1.5f32"), max_exclusive: lit("0.5f32") },
        FloatProvider::Trapezoid { min: lit("0f32"), max: lit("1f32"), plateau: lit("0.5f32") },
        FloatProvider::ClampedNormal { mean: lit("0f32"), deviation: lit("1f32"), min: lit("0.5f32"), max: lit("2f32") },
        constant("-0f32"),
        constant("0f32"),
    ];
    let texts: Vec<String> = providers.iter().map(float_provider).collect();
    assert!(all_distinct(&texts));
}

#[test]
fn weighted_choices_keep_their_order_in_text() {
    let one = WeightedIntProvider { data: IntProvider::Constant(1), weight: 2 };
    let two = WeightedIntProvider { data: IntProvider::Constant(2), weight: 1 };
    let forward = IntProvider::WeightedList {
        distribution: vec![
            WeightedIntProvider { data: IntProvider::Constant(1), weight: 2 },
            WeightedIntProvider { data: IntProvider::Constant(2), weight: 1 },
        ],
    };
    let backward = IntProvider::WeightedList { distribution: vec![two, one] };
    let clamped = IntProvider::Clamped { source: Box::new(IntProvider::Constant(1)), min_inclusive: 0, max_inclusive: 2 };
    let nested = IntProvider::Clamped {
        source: Box::new(IntProvider::Clamped { source: Box::new(IntProvider::Constant(1)), min_inclusive: 0, max_inclusive: 2 }),
        min_inclusive: 0,
        max_inclusive: 2,
    };
    let texts = vec![int_provider(&forward), int_provider(&backward), int_provider(&clamped), int_provider(&nested)];
    assert!(all_distinct(&texts));
}

fn cave(count: IntProvider, bias: bool) -> CaveJson {
    CaveJson {
        probability: lit("0.15f32"),
        y: HeightProvider::Constant(VerticalAnchor::Absolute(0)),
        count,
        thickness: constant("0.5f32"),
        weird_thickness_bias: bias,
        room_vertical_radius_multiplier: constant("1f32"),
        horizontal_radius_multiplier: constant("1f32"),
        vertical_radius_multiplier: constant("1f32"),
        start_vertical_radius_multiplier: constant("1f32"),
        floor_level: constant("-0.7f32"),
    }
}

#[test]
fn cave_settings_each_show_in_text() {
    let texts = vec![
        cave_kind(&cave(IntProvider::Constant(1), true)),
        cave_kind(&cave(IntProvider::Constant(1), false)),
        cave_kind(&cave(IntProvider::Constant(2), true)),
    ];
    assert!(all_distinct(&texts));
}

fn canyon(default_factor: &str, center_factor: &str) -> CanyonJson {
    CanyonJson {
        probability: lit("0.01f32"),
        y: HeightProvider::Constant(VerticalAnchor::Absolute(20)),
        vertical_rotation: constant("0f32"),
        shape: CanyonShapeJson {
            distance_factor: constant("0.75f32"),
            thickness: constant("3f32"),
            width_smoothness: 3,
            horizontal_radius_factor: constant("1f32"),
            vertical_radius_default_factor: lit(default_factor),
            vertical_radius_center_factor: lit(center_factor),
            y_scale: constant("1f32"),
        },
    }
}

#[test]
fn canyon_shape_fields_are_not_crossed_in_text() {
    let texts = vec![canyon_kind(&canyon("1f32", "0f32")), canyon_kind(&canyon("0f32", "1f32"))];
    assert!(all_distinct(&texts));
}
