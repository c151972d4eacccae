//! Value providers (the number distributions of world generation data) and
//! the Rust source that rebuilds each of them.
use vstd::prelude::*;
use crate::source::{i32_literal, i32_literal_text, is_decimal_digit};
use crate::readback::{
    float_provider_shown, height_provider_shown, int_provider_shown, law_float_provider_shows_each_field,
    law_height_provider_shows_each_field, law_int_provider_shows_each_field, law_vertical_anchor_shows_each_field,
    vertical_anchor_shown,
};

verus! {

/// A float taken from the data, held as the text of its `f32`-suffixed
/// literal (for example `0.5f32`). The literal of a finite float is well
/// formed (`float_text_wf`); only finite floats have a literal.
#[derive(Debug, PartialEq, Eq)]
pub struct FloatLiteral {
    pub text: String,
}

/// A height given relative to a reference level of the world.
#[derive(Clone, Copy, Debug, PartialEq, Eq)]
pub enum VerticalAnchor {
    Absolute(i32),
    AboveBottom(i32),
    BelowTop(i32),
    RelativeToSeaLevel(i32),
}

/// A distribution of heights.
#[derive(Clone, Copy, Debug, PartialEq, Eq)]
pub enum HeightProvider {
    Constant(VerticalAnchor),
    Uniform { min_inclusive: VerticalAnchor, max_inclusive: VerticalAnchor },
    Trapezoid { min_inclusive: VerticalAnchor, max_inclusive: VerticalAnchor, plateau: i32 },
    BiasedToBottom { min_inclusive: VerticalAnchor, max_inclusive: VerticalAnchor, inner: i32 },
    VeryBiasedToBottom { min_inclusive: VerticalAnchor, max_inclusive: VerticalAnchor, inner: i32 },
}

/// A distribution of floats.
#[derive(Debug, PartialEq, Eq)]
pub enum FloatProvider {
    Constant(FloatLiteral),
    Uniform { min_inclusive: FloatLiteral, max_exclusive: FloatLiteral },
    Trapezoid { min: FloatLiteral, max: FloatLiteral, plateau: FloatLiteral },
    ClampedNormal { mean: FloatLiteral, deviation: FloatLiteral, min: FloatLiteral, max: FloatLiteral },
}

/// A distribution of integers.
#[derive(Debug)]
pub enum IntProvider {
    Constant(i32),
    Uniform { min_inclusive: i32, max_inclusive: i32 },
    BiasedToBottom { min_inclusive: i32, max_inclusive: i32 },
    VeryBiasedToBottom { min_inclusive: i32, max_inclusive: i32, inner: i32 },
    Trapezoid { min: i32, max: i32, plateau: i32 },
    ClampedNormal { mean: FloatLiteral, deviation: FloatLiteral, min_inclusive: i32, max_inclusive: i32 },
    Clamped { source: Box<IntProvider>, min_inclusive: i32, max_inclusive: i32 },
    WeightedList { distribution: Vec<WeightedIntProvider> },
}

/// One weighted choice of a weighted list.
#[derive(Debug)]
pub struct WeightedIntProvider {
    pub data: IntProvider,
    pub weight: i32,
}

/// Every character of `s` satisfies `p`.
pub open spec fn all_chars(s: Seq<char>, p: spec_fn(char) -> bool) -> bool {
    forall|i: int| 0 <= i < s.len() ==> #[trigger] p(s[i])
}

/// A character of the decimal text of a finite float.
pub open spec fn is_float_char(c: char) -> bool {
    is_decimal_digit(c) || c == '.' || c == '-'
}

/// The text of an `f32`-suffixed literal of a finite float: decimal
/// characters (digits, `.`, `-`) followed by `f32`, as `Display` writes a
/// finite `f32`.
pub open spec fn float_text_wf(t: Seq<char>) -> bool {
    &&& t.len() > 3
    &&& t.skip(t.len() - 3) == seq!['f', '3', '2']
    &&& all_chars(t.take(t.len() - 3), |c: char| is_float_char(c))
}

/// Every float of a float provider is the literal of a finite float.
pub open spec fn float_provider_wf(f: FloatProvider) -> bool {
    match f {
        FloatProvider::Constant(v) => float_text_wf(v.text@),
        FloatProvider::Uniform { min_inclusive, max_exclusive } => {
            float_text_wf(min_inclusive.text@) && float_text_wf(max_exclusive.text@)
        },
        FloatProvider::Trapezoid { min, max, plateau } => {
            float_text_wf(min.text@) && float_text_wf(max.text@) && float_text_wf(plateau.text@)
        },
        FloatProvider::ClampedNormal { mean, deviation, min, max } => {
            float_text_wf(mean.text@) && float_text_wf(deviation.text@) && float_text_wf(min.text@)
                && float_text_wf(max.text@)
        },
    }
}

/// Every float of an integer provider, at every depth, is the literal of a
/// finite float.
pub open spec fn int_provider_wf(p: IntProvider) -> bool
    decreases p,
{
    match p {
        IntProvider::ClampedNormal { mean, deviation, .. } => {
            float_text_wf(mean.text@) && float_text_wf(deviation.text@)
        },
        IntProvider::Clamped { source, .. } => int_provider_wf(*source),
        IntProvider::WeightedList { distribution } => weighted_wf(distribution@),
        _ => true,
    }
}

/// Every choice of a weighted list is well formed.
pub open spec fn weighted_wf(ws: Seq<WeightedIntProvider>) -> bool
    decreases ws,
{
    ws.len() == 0 || (int_provider_wf(ws[0].data) && weighted_wf(ws.drop_first()))
}

/// Each choice of a well-formed weighted list is well formed.
pub proof fn lemma_weighted_wf_index(ws: Seq<WeightedIntProvider>, i: int)
    requires
        weighted_wf(ws),
        0 <= i < ws.len(),
    ensures
        int_provider_wf(ws[i].data),
    decreases i,
{
    if i > 0 {
        lemma_weighted_wf_index(ws.drop_first(), i - 1);
        assert(ws.drop_first()[i - 1] == ws[i]);
    }
}

/// `name: value`, one field of a struct expression.
pub open spec fn field(name: Seq<char>, value: Seq<char>) -> Seq<char> {
    name + ": "@ + value
}

/// `path { a, b }` for two rendered fields.
pub open spec fn braced2(path: Seq<char>, a: Seq<char>, b: Seq<char>) -> Seq<char> {
    path + " { "@ + a + ", "@ + b + " }"@
}

/// `path { a, b, c }` for three rendered fields.
pub open spec fn braced3(path: Seq<char>, a: Seq<char>, b: Seq<char>, c: Seq<char>) -> Seq<char> {
    path + " { "@ + a + ", "@ + b + ", "@ + c + " }"@
}

/// `path { a, b, c, d }` for four rendered fields.
pub open spec fn braced4(path: Seq<char>, a: Seq<char>, b: Seq<char>, c: Seq<char>, d: Seq<char>) -> Seq<char> {
    path + " { "@ + a + ", "@ + b + ", "@ + c + ", "@ + d + " }"@
}

/// `path(inner)`.
pub open spec fn call1(path: Seq<char>, inner: Seq<char>) -> Seq<char> {
    path + "("@ + inner + ")"@
}

/// The expression that rebuilds a vertical anchor.
pub open spec fn vertical_anchor_src(a: VerticalAnchor) -> Seq<char> {
    match a {
        VerticalAnchor::Absolute(v) => call1("VerticalAnchor::Absolute"@, i32_literal(v)),
        VerticalAnchor::AboveBottom(v) => call1("VerticalAnchor::AboveBottom"@, i32_literal(v)),
        VerticalAnchor::BelowTop(v) => call1("VerticalAnchor::BelowTop"@, i32_literal(v)),
        VerticalAnchor::RelativeToSeaLevel(v) => call1("VerticalAnchor::RelativeToSeaLevel"@, i32_literal(v)),
    }
}

/// The expression that rebuilds a height provider.
pub open spec fn height_provider_src(h: HeightProvider) -> Seq<char> {
    match h {
        HeightProvider::Constant(a) => call1("HeightProvider::Constant"@, vertical_anchor_src(a)),
        HeightProvider::Uniform { min_inclusive, max_inclusive } => braced2(
            "HeightProvider::Uniform"@,
            field("min_inclusive"@, vertical_anchor_src(min_inclusive)),
            field("max_inclusive"@, vertical_anchor_src(max_inclusive)),
        ),
        HeightProvider::Trapezoid { min_inclusive, max_inclusive, plateau } => braced3(
            "HeightProvider::Trapezoid"@,
            field("min_inclusive"@, vertical_anchor_src(min_inclusive)),
            field("max_inclusive"@, vertical_anchor_src(max_inclusive)),
            field("plateau"@, i32_literal(plateau)),
        ),
        HeightProvider::BiasedToBottom { min_inclusive, max_inclusive, inner } => braced3(
            "HeightProvider::BiasedToBottom"@,
            field("min_inclusive"@, vertical_anchor_src(min_inclusive)),
            field("max_inclusive"@, vertical_anchor_src(max_inclusive)),
            field("inner"@, i32_literal(inner)),
        ),
        HeightProvider::VeryBiasedToBottom { min_inclusive, max_inclusive, inner } => braced3(
            "HeightProvider::VeryBiasedToBottom"@,
            field("min_inclusive"@, vertical_anchor_src(min_inclusive)),
            field("max_inclusive"@, vertical_anchor_src(max_inclusive)),
            field("inner"@, i32_literal(inner)),
        ),
    }
}

/// The expression that rebuilds a float provider.
pub open spec fn float_provider_src(f: FloatProvider) -> Seq<char> {
    match f {
        FloatProvider::Constant(v) => call1("FloatProvider::Constant"@, v.text@),
        FloatProvider::Uniform { min_inclusive, max_exclusive } => braced2(
            "FloatProvider::Uniform"@,
            field("min_inclusive"@, min_inclusive.text@),
            field("max_exclusive"@, max_exclusive.text@),
        ),
        FloatProvider::Trapezoid { min, max, plateau } => braced3(
            "FloatProvider::Trapezoid"@,
            field("min"@, min.text@),
            field("max"@, max.text@),
            field("plateau"@, plateau.text@),
        ),
        FloatProvider::ClampedNormal { mean, deviation, min, max } => braced4(
            "FloatProvider::ClampedNormal"@,
            field("mean"@, mean.text@),
            field("deviation"@, deviation.text@),
            field("min"@, min.text@),
            field("max"@, max.text@),
        ),
    }
}

/// The expression that rebuilds an integer provider.
pub open spec fn int_provider_src(p: IntProvider) -> Seq<char>
    decreases p,
{
    match p {
        IntProvider::Constant(v) => call1("IntProvider::Constant"@, i32_literal(v)),
        IntProvider::Uniform { min_inclusive, max_inclusive } => braced2(
            "IntProvider::Uniform"@,
            field("min_inclusive"@, i32_literal(min_inclusive)),
            field("max_inclusive"@, i32_literal(max_inclusive)),
        ),
        IntProvider::BiasedToBottom { min_inclusive, max_inclusive } => braced2(
            "IntProvider::BiasedToBottom"@,
            field("min_inclusive"@, i32_literal(min_inclusive)),
            field("max_inclusive"@, i32_literal(max_inclusive)),
        ),
        IntProvider::VeryBiasedToBottom { min_inclusive, max_inclusive, inner } => braced3(
            "IntProvider::VeryBiasedToBottom"@,
            field("min_inclusive"@, i32_literal(min_inclusive)),
            field("max_inclusive"@, i32_literal(max_inclusive)),
            field("inner"@, i32_literal(inner)),
        ),
        IntProvider::Trapezoid { min, max, plateau } => braced3(
            "IntProvider::Trapezoid"@,
            field("min"@, i32_literal(min)),
            field("max"@, i32_literal(max)),
            field("plateau"@, i32_literal(plateau)),
        ),
        IntProvider::ClampedNormal { mean, deviation, min_inclusive, max_inclusive } => braced4(
            "IntProvider::ClampedNormal"@,
            field("mean"@, mean.text@),
            field("deviation"@, deviation.text@),
            field("min_inclusive"@, i32_literal(min_inclusive)),
            field("max_inclusive"@, i32_literal(max_inclusive)),
        ),
        IntProvider::Clamped { source, min_inclusive, max_inclusive } => braced3(
            "IntProvider::Clamped"@,
            field("source"@, call1("Box::new"@, int_provider_src(*source))),
            field("min_inclusive"@, i32_literal(min_inclusive)),
            field("max_inclusive"@, i32_literal(max_inclusive)),
        ),
        IntProvider::WeightedList { distribution } => {
            "IntProvider::WeightedList { distribution: vec!["@ + weighted_entries_src(distribution@)
                + "] }"@
        },
    }
}

/// The expressions that rebuild the choices of a weighted list, separated
/// by `, `.
pub open spec fn weighted_entries_src(ws: Seq<WeightedIntProvider>) -> Seq<char>
    decreases ws,
{
    if ws.len() == 0 {
        Seq::empty()
    } else if ws.len() == 1 {
        weighted_entry_src(ws[0])
    } else {
        weighted_entries_src(ws.drop_last()) + ", "@ + weighted_entry_src(ws.last())
    }
}

/// The expression that rebuilds one choice of a weighted list.
pub open spec fn weighted_entry_src(w: WeightedIntProvider) -> Seq<char>
    decreases w,
{
    braced2(
        "steel_utils::value_providers::WeightedIntProvider"@,
        field("data"@, int_provider_src(w.data)),
        field("weight"@, i32_literal(w.weight)),
    )
}

/// Appends `s` to `out`.
fn push(out: &mut String, s: &str)
    ensures
        final(out)@ == old(out)@ + s@,
{
    out.append(s);
}

/// The text of `path(inner)`.
pub fn call1_text(path: &str, inner: &str) -> (res: String)
    ensures
        res@ == call1(path@, inner@),
{
    let mut out = String::from_str(path);
    push(&mut out, "(");
    push(&mut out, inner);
    push(&mut out, ")");
    out
}

/// The text of `name: value`.
pub fn field_text(name: &str, value: &str) -> (res: String)
    ensures
        res@ == field(name@, value@),
{
    let mut out = String::from_str(name);
    push(&mut out, ": ");
    push(&mut out, value);
    out
}

fn braced2_text(path: &str, a: &str, b: &str) -> (res: String)
    ensures
        res@ == braced2(path@, a@, b@),
{
    let mut out = String::from_str(path);
    push(&mut out, " { ");
    push(&mut out, a);
    push(&mut out, ", ");
    push(&mut out, b);
    push(&mut out, " }");
    out
}

fn braced3_text(path: &str, a: &str, b: &str, c: &str) -> (res: String)
    ensures
        res@ == braced3(path@, a@, b@, c@),
{
    let mut out = String::from_str(path);
    push(&mut out, " { ");
    push(&mut out, a);
    push(&mut out, ", ");
    push(&mut out, b);
    push(&mut out, ", ");
    push(&mut out, c);
    push(&mut out, " }");
    out
}

fn braced4_text(path: &str, a: &str, b: &str, c: &str, d: &str) -> (res: String)
    ensures
        res@ == braced4(path@, a@, b@, c@, d@),
{
    let mut out = String::from_str(path);
    push(&mut out, " { ");
    push(&mut out, a);
    push(&mut out, ", ");
    push(&mut out, b);
    push(&mut out, ", ");
    push(&mut out, c);
    push(&mut out, ", ");
    push(&mut out, d);
    push(&mut out, " }");
    out
}

/// The Rust expression that rebuilds `value`.
pub fn vertical_anchor(value: &VerticalAnchor) -> (res: String)
    ensures
        res@ == vertical_anchor_src(*value),
        vertical_anchor_shown(res@, *value),
{
    proof {
        law_vertical_anchor_shows_each_field(*value);
    }
    let (head, v) = match value {
        VerticalAnchor::Absolute(v) => ("VerticalAnchor::Absolute", *v),
        VerticalAnchor::AboveBottom(v) => ("VerticalAnchor::AboveBottom", *v),
        VerticalAnchor::BelowTop(v) => ("VerticalAnchor::BelowTop", *v),
        VerticalAnchor::RelativeToSeaLevel(v) => ("VerticalAnchor::RelativeToSeaLevel", *v),
    };
    call1_text(head, i32_literal_text(v).as_str())
}

/// `min_inclusive: <min>`, `max_inclusive: <max>` for two anchors.
fn anchor_bounds(min: &VerticalAnchor, max: &VerticalAnchor) -> (res: (String, String))
    ensures
        res.0@ == field("min_inclusive"@, vertical_anchor_src(*min)),
        res.1@ == field("max_inclusive"@, vertical_anchor_src(*max)),
{
    (
        field_text("min_inclusive", vertical_anchor(min).as_str()),
        field_text("max_inclusive", vertical_anchor(max).as_str()),
    )
}

/// The Rust expression that rebuilds `value`.
pub fn height_provider(value: &HeightProvider) -> (res: String)
    ensures
        res@ == height_provider_src(*value),
        height_provider_shown(res@, *value),
{
    proof {
        law_height_provider_shows_each_field(*value);
    }
    match value {
        HeightProvider::Constant(anchor) => {
            call1_text("HeightProvider::Constant", vertical_anchor(anchor).as_str())
        },
        HeightProvider::Uniform { min_inclusive, max_inclusive } => {
            let (min, max) = anchor_bounds(min_inclusive, max_inclusive);
            braced2_text("HeightProvider::Uniform", min.as_str(), max.as_str())
        },
        HeightProvider::Trapezoid { min_inclusive, max_inclusive, plateau } => {
            let (min, max) = anchor_bounds(min_inclusive, max_inclusive);
            let plateau = field_text("plateau", i32_literal_text(*plateau).as_str());
            braced3_text("HeightProvider::Trapezoid", min.as_str(), max.as_str(), plateau.as_str())
        },
        HeightProvider::BiasedToBottom { min_inclusive, max_inclusive, inner } => {
            let (min, max) = anchor_bounds(min_inclusive, max_inclusive);
            let inner = field_text("inner", i32_literal_text(*inner).as_str());
            braced3_text("HeightProvider::BiasedToBottom", min.as_str(), max.as_str(), inner.as_str())
        },
        HeightProvider::VeryBiasedToBottom { min_inclusive, max_inclusive, inner } => {
            let (min, max) = anchor_bounds(min_inclusive, max_inclusive);
            let inner = field_text("inner", i32_literal_text(*inner).as_str());
            braced3_text(
                "HeightProvider::VeryBiasedToBottom",
                min.as_str(),
                max.as_str(),
                inner.as_str(),
            )
        },
    }
}

/// The Rust expression that rebuilds `value`.
pub fn float_provider(value: &FloatProvider) -> (res: String)
    requires
        float_provider_wf(*value),
    ensures
        res@ == float_provider_src(*value),
        float_provider_shown(res@, *value),
{
    proof {
        law_float_provider_shows_each_field(*value);
    }
    match value {
        FloatProvider::Constant(v) => call1_text("FloatProvider::Constant", v.text.as_str()),
        FloatProvider::Uniform { min_inclusive, max_exclusive } => {
            let a = field_text("min_inclusive", min_inclusive.text.as_str());
            let b = field_text("max_exclusive", max_exclusive.text.as_str());
            braced2_text("FloatProvider::Uniform", a.as_str(), b.as_str())
        },
        FloatProvider::Trapezoid { min, max, plateau } => {
            let a = field_text("min", min.text.as_str());
            let b = field_text("max", max.text.as_str());
            let c = field_text("plateau", plateau.text.as_str());
            braced3_text("FloatProvider::Trapezoid", a.as_str(), b.as_str(), c.as_str())
        },
        FloatProvider::ClampedNormal { mean, deviation, min, max } => {
            let a = field_text("mean", mean.text.as_str());
            let b = field_text("deviation", deviation.text.as_str());
            let c = field_text("min", min.text.as_str());
            let d = field_text("max", max.text.as_str());
            braced4_text("FloatProvider::ClampedNormal", a.as_str(), b.as_str(), c.as_str(), d.as_str())
        },
    }
}

/// `min_inclusive: <min>`, `max_inclusive: <max>` for two integers.
fn int_bounds(min: i32, max: i32) -> (res: (String, String))
    ensures
        res.0@ == field("min_inclusive"@, i32_literal(min)),
        res.1@ == field("max_inclusive"@, i32_literal(max)),
{
    (
        field_text("min_inclusive", i32_literal_text(min).as_str()),
        field_text("max_inclusive", i32_literal_text(max).as_str()),
    )
}

/// The Rust expression that rebuilds `value`; a clamped provider rebuilds
/// its source inside `Box::new`, and a weighted list rebuilds each choice
/// in order inside `vec![..]`.
pub fn int_provider(value: &IntProvider) -> (res: String)
    requires
        int_provider_wf(*value),
    ensures
        res@ == int_provider_src(*value),
        int_provider_shown(res@, *value),
    decreases value,
{
    proof {
        law_int_provider_shows_each_field(*value);
    }
    match value {
        IntProvider::Constant(v) => call1_text("IntProvider::Constant", i32_literal_text(*v).as_str()),
        IntProvider::Uniform { min_inclusive, max_inclusive } => {
            let (a, b) = int_bounds(*min_inclusive, *max_inclusive);
            braced2_text("IntProvider::Uniform", a.as_str(), b.as_str())
        },
        IntProvider::BiasedToBottom { min_inclusive, max_inclusive } => {
            let (a, b) = int_bounds(*min_inclusive, *max_inclusive);
            braced2_text("IntProvider::BiasedToBottom", a.as_str(), b.as_str())
        },
        IntProvider::VeryBiasedToBottom { min_inclusive, max_inclusive, inner } => {
            let (a, b) = int_bounds(*min_inclusive, *max_inclusive);
            let c = field_text("inner", i32_literal_text(*inner).as_str());
            braced3_text("IntProvider::VeryBiasedToBottom", a.as_str(), b.as_str(), c.as_str())
        },
        IntProvider::Trapezoid { min, max, plateau } => {
            let a = field_text("min", i32_literal_text(*min).as_str());
            let b = field_text("max", i32_literal_text(*max).as_str());
            let c = field_text("plateau", i32_literal_text(*plateau).as_str());
            braced3_text("IntProvider::Trapezoid", a.as_str(), b.as_str(), c.as_str())
        },
        IntProvider::ClampedNormal { mean, deviation, min_inclusive, max_inclusive } => {
            let a = field_text("mean", mean.text.as_str());
            let b = field_text("deviation", deviation.text.as_str());
            let (c, d) = int_bounds(*min_inclusive, *max_inclusive);
            braced4_text("IntProvider::ClampedNormal", a.as_str(), b.as_str(), c.as_str(), d.as_str())
        },
        IntProvider::Clamped { source, min_inclusive, max_inclusive } => {
            let inner = int_provider(&**source);
            let boxed = call1_text("Box::new", inner.as_str());
            let a = field_text("source", boxed.as_str());
            let (b, c) = int_bounds(*min_inclusive, *max_inclusive);
            braced3_text("IntProvider::Clamped", a.as_str(), b.as_str(), c.as_str())
        },
        IntProvider::WeightedList { distribution } => {
            let mut out = String::from_str("IntProvider::WeightedList { distribution: vec![");
            let ghost head = out@;
            let n = distribution.len();
            let mut i: usize = 0;
            while i < n
                invariant
                    *value == (IntProvider::WeightedList { distribution: *distribution }),
                    weighted_wf(distribution@),
                    n == distribution@.len(),
                    i <= n,
                    out@ == head + weighted_entries_src(distribution@.take(i as int)),
                decreases n - i,
            {
                let entry = &distribution[i];
                proof {
                    lemma_weighted_wf_index(distribution@, i as int);
                    assert(decreases_to!(*value => distribution@[i as int].data)) by {
                        assert(decreases_to!(*value => (*value)->distribution));
                        assert(decreases_to!(*distribution => distribution@));
                        assert(decreases_to!(distribution@ => distribution@[i as int]));
                    }
                }
                let data = int_provider(&entry.data);
                let a = field_text("data", data.as_str());
                let b = field_text("weight", i32_literal_text(entry.weight).as_str());
                let text = braced2_text("steel_utils::value_providers::WeightedIntProvider", a.as_str(), b.as_str());
                if i > 0 {
                    push(&mut out, ", ");
                }
                push(&mut out, text.as_str());
                proof {
                    let taken = distribution@.take(i + 1);
                    assert(taken.drop_last() =~= distribution@.take(i as int));
                    assert(taken.last() == distribution@[i as int]);
                    reveal_with_fuel(weighted_entries_src, 2);
                }
                i = i + 1;
            }
            proof {
                assert(distribution@.take(n as int) =~= distribution@);
            }
            push(&mut out, "] }");
            out
        },
    }
}

} // verus!
