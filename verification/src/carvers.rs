//! World carvers: the cave and canyon carvers of world generation, and the
//! Rust source that rebuilds each of them.
use vstd::prelude::*;
use crate::source::texts;
use crate::source::{
    bool_literal, bool_literal_text, i32_literal, i32_literal_text, struct_expr, struct_expr_text,
};
use crate::registry::{
    CodegenError, all_idents_valid, build_registry_module, first_bad_ident, registry_src, vanilla_identifier,
    vanilla_identifier_src,
};
use crate::readback::{
    canyon_fields_shown, cave_fields_shown, law_canyon_kind_shows_each_field, law_cave_kind_shows_each_field,
};
use crate::file_names::{
    file_stem, is_json_file, is_json_reading_order, json_file_stem, json_reading_order, distinct_names, names_in_order,
    law_reading_order_ignores_listing_order,
};
use crate::providers::{
    FloatLiteral, FloatProvider, HeightProvider, IntProvider, call1, call1_text, field, field_text,
    float_provider, float_provider_src, float_provider_wf, float_text_wf, height_provider, height_provider_src,
    int_provider, int_provider_src, int_provider_wf,
};

verus! {

/// The settings of a cave carver.
#[derive(Debug)]
pub struct CaveJson {
    pub probability: FloatLiteral,
    pub y: HeightProvider,
    pub count: IntProvider,
    pub thickness: FloatProvider,
    pub weird_thickness_bias: bool,
    pub room_vertical_radius_multiplier: FloatProvider,
    pub horizontal_radius_multiplier: FloatProvider,
    pub vertical_radius_multiplier: FloatProvider,
    pub start_vertical_radius_multiplier: FloatProvider,
    pub floor_level: FloatProvider,
}

/// The shape settings of a canyon carver.
#[derive(Debug)]
pub struct CanyonShapeJson {
    pub distance_factor: FloatProvider,
    pub thickness: FloatProvider,
    pub width_smoothness: i32,
    pub horizontal_radius_factor: FloatProvider,
    pub vertical_radius_default_factor: FloatLiteral,
    pub vertical_radius_center_factor: FloatLiteral,
    pub y_scale: FloatProvider,
}

/// The settings of a canyon carver.
#[derive(Debug)]
pub struct CanyonJson {
    pub probability: FloatLiteral,
    pub y: HeightProvider,
    pub vertical_rotation: FloatProvider,
    pub shape: CanyonShapeJson,
}

/// A carver definition, tagged by its kind.
#[derive(Debug)]
pub enum CarverJson {
    Cave(CaveJson),
    Canyon(CanyonJson),
}

/// Every float of a cave carver is the literal of a finite float.
pub open spec fn cave_wf(c: CaveJson) -> bool {
    &&& float_text_wf(c.probability.text@)
    &&& int_provider_wf(c.count)
    &&& float_provider_wf(c.thickness)
    &&& float_provider_wf(c.room_vertical_radius_multiplier)
    &&& float_provider_wf(c.horizontal_radius_multiplier)
    &&& float_provider_wf(c.vertical_radius_multiplier)
    &&& float_provider_wf(c.start_vertical_radius_multiplier)
    &&& float_provider_wf(c.floor_level)
}

/// Every float of a canyon shape is the literal of a finite float.
pub open spec fn shape_wf(s: CanyonShapeJson) -> bool {
    &&& float_provider_wf(s.distance_factor)
    &&& float_provider_wf(s.thickness)
    &&& float_provider_wf(s.horizontal_radius_factor)
    &&& float_text_wf(s.vertical_radius_default_factor.text@)
    &&& float_text_wf(s.vertical_radius_center_factor.text@)
    &&& float_provider_wf(s.y_scale)
}

/// Every float of a canyon carver, its shape included, is the literal of a
/// finite float.
pub open spec fn canyon_wf(c: CanyonJson) -> bool {
    &&& float_text_wf(c.probability.text@)
    &&& float_provider_wf(c.vertical_rotation)
    &&& shape_wf(c.shape)
}

/// Every float of a carver is the literal of a finite float.
pub open spec fn carver_wf(c: CarverJson) -> bool {
    match c {
        CarverJson::Cave(cave) => cave_wf(cave),
        CarverJson::Canyon(canyon) => canyon_wf(canyon),
    }
}

/// The expression that rebuilds the kind of a cave carver.
pub open spec fn cave_kind_src(c: CaveJson) -> Seq<char> {
    call1(
        "WorldCarverKind::Cave"@,
        struct_expr(
            "CaveWorldCarver"@,
            seq![
                field("probability"@, c.probability.text@),
                field("y"@, height_provider_src(c.y)),
                field("count"@, int_provider_src(c.count)),
                field("thickness"@, float_provider_src(c.thickness)),
                field("weird_thickness_bias"@, bool_literal(c.weird_thickness_bias)),
                field("room_vertical_radius_multiplier"@, float_provider_src(c.room_vertical_radius_multiplier)),
                field("horizontal_radius_multiplier"@, float_provider_src(c.horizontal_radius_multiplier)),
                field("vertical_radius_multiplier"@, float_provider_src(c.vertical_radius_multiplier)),
                field("start_vertical_radius_multiplier"@, float_provider_src(c.start_vertical_radius_multiplier)),
                field("floor_level"@, float_provider_src(c.floor_level)),
            ],
        ),
    )
}

/// The expression that rebuilds the shape of a canyon carver.
pub open spec fn canyon_shape_src(s: CanyonShapeJson) -> Seq<char> {
    struct_expr(
        "CanyonShape"@,
        seq![
            field("distance_factor"@, float_provider_src(s.distance_factor)),
            field("thickness"@, float_provider_src(s.thickness)),
            field("width_smoothness"@, i32_literal(s.width_smoothness)),
            field("horizontal_radius_factor"@, float_provider_src(s.horizontal_radius_factor)),
            field("vertical_radius_default_factor"@, s.vertical_radius_default_factor.text@),
            field("vertical_radius_center_factor"@, s.vertical_radius_center_factor.text@),
            field("y_scale"@, float_provider_src(s.y_scale)),
        ],
    )
}

/// The expression that rebuilds the kind of a canyon carver.
pub open spec fn canyon_kind_src(c: CanyonJson) -> Seq<char> {
    call1(
        "WorldCarverKind::Canyon"@,
        struct_expr(
            "CanyonWorldCarver"@,
            seq![
                field("probability"@, c.probability.text@),
                field("y"@, height_provider_src(c.y)),
                field("vertical_rotation"@, float_provider_src(c.vertical_rotation)),
                field("shape"@, canyon_shape_src(c.shape)),
            ],
        ),
    )
}

/// The expression that rebuilds the kind of a carver.
pub open spec fn carver_kind_src(c: CarverJson) -> Seq<char> {
    match c {
        CarverJson::Cave(cave) => cave_kind_src(cave),
        CarverJson::Canyon(canyon) => canyon_kind_src(canyon),
    }
}

/// Pushes the text of `name: value` onto `fields`.
fn push_field(fields: &mut Vec<String>, name: &str, value: String)
    ensures
        final(fields)@.map_values(|f: String| f@) == old(fields)@.map_values(|f: String| f@).push(
            field(name@, value@),
        ),
{
    let f = field_text(name, value.as_str());
    fields.push(f);
    assert(final(fields)@.map_values(|f: String| f@) =~= old(fields)@.map_values(|f: String| f@).push(
        field(name@, value@),
    ));
}

/// The Rust expression that rebuilds the kind of the cave carver `value`.
#[verifier::spinoff_prover]
#[verifier::rlimit(40)]
pub fn cave_kind(value: &CaveJson) -> (res: String)
    requires
        cave_wf(*value),
    ensures
        res@ == cave_kind_src(*value),
        cave_fields_shown(res@, *value),
{
    proof {
        law_cave_kind_shows_each_field(*value);
    }
    let mut fields: Vec<String> = Vec::new();
    proof {
        assert(fields@.map_values(|f: String| f@) =~= Seq::<Seq<char>>::empty());
    }
    push_field(&mut fields, "probability", String::from_str(value.probability.text.as_str()));
    push_field(&mut fields, "y", height_provider(&value.y));
    push_field(&mut fields, "count", int_provider(&value.count));
    push_field(&mut fields, "thickness", float_provider(&value.thickness));
    push_field(&mut fields, "weird_thickness_bias", bool_literal_text(value.weird_thickness_bias));
    push_field(
        &mut fields,
        "room_vertical_radius_multiplier",
        float_provider(&value.room_vertical_radius_multiplier),
    );
    push_field(&mut fields, "horizontal_radius_multiplier", float_provider(&value.horizontal_radius_multiplier));
    push_field(&mut fields, "vertical_radius_multiplier", float_provider(&value.vertical_radius_multiplier));
    push_field(
        &mut fields,
        "start_vertical_radius_multiplier",
        float_provider(&value.start_vertical_radius_multiplier),
    );
    push_field(&mut fields, "floor_level", float_provider(&value.floor_level));
    assert(fields@.map_values(|f: String| f@) =~= seq![
        field("probability"@, value.probability.text@),
        field("y"@, height_provider_src(value.y)),
        field("count"@, int_provider_src(value.count)),
        field("thickness"@, float_provider_src(value.thickness)),
        field("weird_thickness_bias"@, bool_literal(value.weird_thickness_bias)),
        field("room_vertical_radius_multiplier"@, float_provider_src(value.room_vertical_radius_multiplier)),
        field("horizontal_radius_multiplier"@, float_provider_src(value.horizontal_radius_multiplier)),
        field("vertical_radius_multiplier"@, float_provider_src(value.vertical_radius_multiplier)),
        field("start_vertical_radius_multiplier"@, float_provider_src(value.start_vertical_radius_multiplier)),
        field("floor_level"@, float_provider_src(value.floor_level)),
    ]);
    let carver = struct_expr_text("CaveWorldCarver", &fields);
    call1_text("WorldCarverKind::Cave", carver.as_str())
}

/// The Rust expression that rebuilds the shape of a canyon carver.
#[verifier::spinoff_prover]
#[verifier::rlimit(40)]
fn canyon_shape(shape: &CanyonShapeJson) -> (res: String)
    requires
        shape_wf(*shape),
    ensures
        res@ == canyon_shape_src(*shape),
{
    let mut fields: Vec<String> = Vec::new();
    proof {
        assert(fields@.map_values(|f: String| f@) =~= Seq::<Seq<char>>::empty());
    }
    push_field(&mut fields, "distance_factor", float_provider(&shape.distance_factor));
    push_field(&mut fields, "thickness", float_provider(&shape.thickness));
    push_field(&mut fields, "width_smoothness", i32_literal_text(shape.width_smoothness));
    push_field(&mut fields, "horizontal_radius_factor", float_provider(&shape.horizontal_radius_factor));
    push_field(
        &mut fields,
        "vertical_radius_default_factor",
        String::from_str(shape.vertical_radius_default_factor.text.as_str()),
    );
    push_field(
        &mut fields,
        "vertical_radius_center_factor",
        String::from_str(shape.vertical_radius_center_factor.text.as_str()),
    );
    push_field(&mut fields, "y_scale", float_provider(&shape.y_scale));
    assert(fields@.map_values(|f: String| f@) =~= seq![
        field("distance_factor"@, float_provider_src(shape.distance_factor)),
        field("thickness"@, float_provider_src(shape.thickness)),
        field("width_smoothness"@, i32_literal(shape.width_smoothness)),
        field("horizontal_radius_factor"@, float_provider_src(shape.horizontal_radius_factor)),
        field("vertical_radius_default_factor"@, shape.vertical_radius_default_factor.text@),
        field("vertical_radius_center_factor"@, shape.vertical_radius_center_factor.text@),
        field("y_scale"@, float_provider_src(shape.y_scale)),
    ]);
    struct_expr_text("CanyonShape", &fields)
}

/// The Rust expression that rebuilds the kind of the canyon carver `value`.
#[verifier::spinoff_prover]
#[verifier::rlimit(40)]
pub fn canyon_kind(value: &CanyonJson) -> (res: String)
    requires
        canyon_wf(*value),
    ensures
        res@ == canyon_kind_src(*value),
        canyon_fields_shown(res@, *value),
{
    proof {
        law_canyon_kind_shows_each_field(*value);
    }
    let mut fields: Vec<String> = Vec::new();
    proof {
        assert(fields@.map_values(|f: String| f@) =~= Seq::<Seq<char>>::empty());
    }
    push_field(&mut fields, "probability", String::from_str(value.probability.text.as_str()));
    push_field(&mut fields, "y", height_provider(&value.y));
    push_field(&mut fields, "vertical_rotation", float_provider(&value.vertical_rotation));
    push_field(&mut fields, "shape", canyon_shape(&value.shape));
    assert(fields@.map_values(|f: String| f@) =~= seq![
        field("probability"@, value.probability.text@),
        field("y"@, height_provider_src(value.y)),
        field("vertical_rotation"@, float_provider_src(value.vertical_rotation)),
        field("shape"@, canyon_shape_src(value.shape)),
    ]);
    let carver = struct_expr_text("CanyonWorldCarver", &fields);
    call1_text("WorldCarverKind::Canyon", carver.as_str())
}

/// The Rust expression that rebuilds the kind of the carver `value`.
pub fn carver_kind(value: &CarverJson) -> (res: String)
    requires
        carver_wf(*value),
    ensures
        res@ == carver_kind_src(*value),
{
    match value {
        CarverJson::Cave(cave) => cave_kind(cave),
        CarverJson::Canyon(canyon) => canyon_kind(canyon),
    }
}

/// A carver together with its registry name (the stem of its data file).
#[derive(Debug)]
pub struct NamedCarver {
    pub name: String,
    pub carver: CarverJson,
}

/// The `use` lines of the generated carver module.
pub const CARVERS_HEADER: &'static str = "use std::sync::{LazyLock, OnceLock};\nuse steel_utils::Identifier;\nuse steel_utils::value_providers::{FloatProvider, HeightProvider, IntProvider, VerticalAnchor};\nuse crate::carver::{CanyonShape, CanyonWorldCarver, CaveWorldCarver, WorldCarver, WorldCarverKind, WorldCarverRegistry};\n";

/// The signature of the generated registration function.
pub const CARVERS_SIGNATURE: &'static str = "pub fn register_world_carvers(registry: &mut WorldCarverRegistry)";

/// The type and initializer of the static that holds the carver called
/// `name`.
pub open spec fn carver_tail_src(name: Seq<char>, carver: CarverJson) -> Seq<char> {
    ": LazyLock<WorldCarver> = LazyLock::new(|| "@ + struct_expr(
        "WorldCarver"@,
        seq![
            field("key"@, vanilla_identifier_src(name)),
            field("kind"@, carver_kind_src(carver)),
            field("id"@, "OnceLock::new()"@),
        ],
    ) + ");"@
}

/// The registry names of the carvers.
pub open spec fn carver_names(entries: Seq<NamedCarver>) -> Seq<Seq<char>> {
    entries.map_values(|e: NamedCarver| e.name@)
}

/// The static tails of the carvers.
pub open spec fn carver_tails(entries: Seq<NamedCarver>) -> Seq<Seq<char>> {
    entries.map_values(|e: NamedCarver| carver_tail_src(e.name@, e.carver))
}

/// The generated carver module for `entries`, in their order.
pub open spec fn carvers_module_src(entries: Seq<NamedCarver>) -> Seq<char> {
    registry_src(CARVERS_HEADER@, CARVERS_SIGNATURE@, carver_names(entries), carver_tails(entries))
}

/// The type and initializer of the static that holds `entry`.
fn carver_tail(entry: &NamedCarver) -> (res: String)
    requires
        carver_wf(entry.carver),
    ensures
        res@ == carver_tail_src(entry.name@, entry.carver),
{
    let mut fields: Vec<String> = Vec::new();
    fields.push(field_text("key", vanilla_identifier(entry.name.as_str()).as_str()));
    fields.push(field_text("kind", carver_kind(&entry.carver).as_str()));
    fields.push(field_text("id", "OnceLock::new()"));
    assert(fields@.map_values(|f: String| f@) =~= seq![
        field("key"@, vanilla_identifier_src(entry.name@)),
        field("kind"@, carver_kind_src(entry.carver)),
        field("id"@, "OnceLock::new()"@),
    ]);
    let body = struct_expr_text("WorldCarver", &fields);
    let mut out = String::from_str(": LazyLock<WorldCarver> = LazyLock::new(|| ");
    out.append(body.as_str());
    out.append(");");
    out
}

/// The source of the carver registry module: one static per carver, in the
/// order given, and `register_world_carvers`, which registers them in that
/// order. Fails on the first carver whose name gives no valid identifier.
pub fn build(entries: &Vec<NamedCarver>) -> (res: Result<String, CodegenError>)
    requires
        forall|k: int| 0 <= k < entries@.len() ==> carver_wf(#[trigger] entries@[k].carver),
    ensures
        match res {
            Ok(text) => all_idents_valid(carver_names(entries@)) && text@ == carvers_module_src(entries@),
            Err(CodegenError::InvalidIdentifier { index }) => first_bad_ident(carver_names(entries@), index as int),
            Err(_) => false,
        },
{
    let n = entries.len();
    let mut names: Vec<String> = Vec::new();
    let mut tails: Vec<String> = Vec::new();
    let mut i: usize = 0;
    while i < n
        invariant
            n == entries@.len(),
            i <= n,
            forall|k: int| 0 <= k < entries@.len() ==> carver_wf(#[trigger] entries@[k].carver),
            texts(names@) == carver_names(entries@).take(i as int),
            texts(tails@) == carver_tails(entries@).take(i as int),
        decreases n - i,
    {
        let entry = &entries[i];
        let name = String::from_str(entry.name.as_str());
        let tail = carver_tail(entry);
        let ghost prev_names = names@;
        let ghost prev_tails = tails@;
        let ghost name_view = name@;
        let ghost tail_view = tail@;
        names.push(name);
        tails.push(tail);
        proof {
            assert(texts(names@) =~= texts(prev_names).push(name_view));
            assert(texts(tails@) =~= texts(prev_tails).push(tail_view));
            assert(carver_names(entries@).take(i + 1) =~= carver_names(entries@).take(i as int).push(name_view));
            assert(carver_tails(entries@).take(i + 1) =~= carver_tails(entries@).take(i as int).push(tail_view));
        }
        i = i + 1;
    }
    proof {
        assert(carver_names(entries@).take(n as int) =~= carver_names(entries@));
        assert(carver_tails(entries@).take(n as int) =~= carver_tails(entries@));
    }
    build_registry_module(CARVERS_HEADER, CARVERS_SIGNATURE, &names, &tails)
}

/// A carver data file chosen for reading: its position in the directory
/// listing and its registry name (the stem of its file name).
#[derive(Debug, PartialEq, Eq)]
pub struct CarverFile {
    pub position: usize,
    pub name: String,
}

/// The positions of the chosen files.
pub open spec fn positions(files: Seq<CarverFile>) -> Seq<usize> {
    files.map_values(|f: CarverFile| f.position)
}

/// The carver data files of a directory listing, in the order they are
/// read: every `json` file once, sorted by file name, each with its stem as
/// its registry name.
pub fn carver_files(file_names: &Vec<String>) -> (res: Vec<CarverFile>)
    ensures
        is_json_reading_order(texts(file_names@), positions(res@)),
        forall|k: int| 0 <= k < res.len() ==> (#[trigger] res@[k]).name@ == file_stem(texts(file_names@)[res@[k].position as int]),
{
    let order = json_reading_order(file_names);
    let ghost ns = texts(file_names@);
    let n = order.len();
    let mut res: Vec<CarverFile> = Vec::new();
    let mut k: usize = 0;
    while k < n
        invariant
            n == order@.len(),
            ns == texts(file_names@),
            is_json_reading_order(ns, order@),
            k <= n,
            positions(res@) == order@.take(k as int),
            forall|j: int| 0 <= j < res.len() ==> (#[trigger] res@[j]).name@ == file_stem(ns[res@[j].position as int]),
        decreases n - k,
    {
        let position = order[k];
        assert(position < ns.len());
        assert(is_json_file(ns[position as int]));
        let stem = json_file_stem(file_names[position].as_str()).unwrap();
        let ghost prev = res@;
        res.push(CarverFile { position, name: stem });
        proof {
            assert(positions(res@) =~= positions(prev).push(position));
            assert(order@.take(k + 1) =~= order@.take(k as int).push(position));
        }
        k = k + 1;
    }
    proof {
        assert(order@.take(n as int) =~= order@);
    }
    res
}

/// `entries` are the carvers read for the listing `names` in the reading
/// order `order`: entry `k` is named by the stem of the `k`-th file read and
/// holds the carver that `content` gives for that file name.
pub open spec fn read_as(
    entries: Seq<NamedCarver>,
    names: Seq<Seq<char>>,
    order: Seq<usize>,
    content: spec_fn(Seq<char>) -> CarverJson,
) -> bool {
    &&& entries.len() == order.len()
    &&& forall|k: int| 0 <= k < entries.len() ==> {
        &&& (#[trigger] entries[k]).name@ == file_stem(names[order[k] as int])
        &&& entries[k].carver == content(names[order[k] as int])
    }
}

/// The generated carver module depends only on the files of the carver
/// directory and their contents, not on the order in which the directory
/// lists them.
pub proof fn law_carver_module_ignores_listing_order(
    a: Seq<Seq<char>>,
    b: Seq<Seq<char>>,
    order_a: Seq<usize>,
    order_b: Seq<usize>,
    content: spec_fn(Seq<char>) -> CarverJson,
    entries_a: Seq<NamedCarver>,
    entries_b: Seq<NamedCarver>,
)
    requires
        distinct_names(a),
        distinct_names(b),
        a.len() <= usize::MAX,
        b.len() <= usize::MAX,
        forall|n: Seq<char>| a.contains(n) <==> b.contains(n),
        is_json_reading_order(a, order_a),
        is_json_reading_order(b, order_b),
        read_as(entries_a, a, order_a, content),
        read_as(entries_b, b, order_b, content),
    ensures
        carvers_module_src(entries_a) == carvers_module_src(entries_b),
{
    law_reading_order_ignores_listing_order(a, b, order_a, order_b);
    let x = names_in_order(a, order_a);
    let y = names_in_order(b, order_b);
    assert(x.len() == y.len());
    assert forall|k: int| 0 <= k < entries_a.len() implies entries_a[k].name@ == entries_b[k].name@
        && entries_a[k].carver == entries_b[k].carver by {
        assert(x[k] == y[k]);
        assert(entries_a[k].name@ == file_stem(a[order_a[k] as int]));
        assert(entries_b[k].name@ == file_stem(b[order_b[k] as int]));
    }
    assert(carver_names(entries_a) =~= carver_names(entries_b));
    assert(carver_tails(entries_a) =~= carver_tails(entries_b));
}

} // verus!
