//! Reading generated text back: the rendered expressions never collide, so
//! each text determines the value it was rendered from.
use vstd::prelude::*;
use vstd::seq_lib::lemma_concat_associative;
use crate::providers::{
    all_chars, float_provider_wf, float_text_wf, int_provider_wf, is_float_char, weighted_wf, FloatProvider, HeightProvider, IntProvider, VerticalAnchor, WeightedIntProvider, float_provider_src,
    braced2, braced3, braced4, call1, field, height_provider_src, int_provider_src, vertical_anchor_src,
    weighted_entries_src, weighted_entry_src,
};
use crate::source::{
    bool_literal, comma_separated, string_literal, decimal_digits, digit_char, i32_literal, is_decimal_digit, struct_expr,
};
use crate::trim_materials::{TextComponentJson, TrimMaterialJson, text_component_src, trim_tail_src};
use crate::decorated_pot_patterns::{DecoratedPotPatternJson, pattern_tail_src};
use crate::registry::{identifier_src, vanilla_identifier_src};
use crate::carvers::{
    CanyonJson, CanyonShapeJson, CaveJson, canyon_kind_src, canyon_shape_src, canyon_wf, cave_kind_src, cave_wf, shape_wf,
};

verus! {

/// A common prefix cancels.
pub proof fn lemma_cancel(p: Seq<char>, x: Seq<char>, y: Seq<char>)
    requires
        p + x == p + y,
    ensures
        x == y,
{
    assert(x =~= (p + x).skip(p.len() as int));
    assert(y =~= (p + y).skip(p.len() as int));
}

/// Texts that differ at a position inside both prefixes differ.
pub proof fn lemma_differ(p: Seq<char>, q: Seq<char>, x: Seq<char>, y: Seq<char>, k: int)
    requires
        0 <= k < p.len(),
        k < q.len(),
        p[k] != q[k],
    ensures
        p + x != q + y,
{
    assert((p + x)[k] == p[k]);
    assert((q + y)[k] == q[k]);
}

/// A maximal run of characters of a class is read back exactly: when both
/// runs are followed by a character outside the class, equal texts have
/// equal runs and equal rests.
pub proof fn lemma_run(d1: Seq<char>, x: Seq<char>, d2: Seq<char>, y: Seq<char>, p: spec_fn(char) -> bool)
    requires
        all_chars(d1, p),
        all_chars(d2, p),
        x.len() > 0,
        y.len() > 0,
        !p(x[0]),
        !p(y[0]),
        d1 + x == d2 + y,
    ensures
        d1 == d2,
        x == y,
{
    if d1.len() < d2.len() {
        assert((d1 + x)[d1.len() as int] == x[0]);
        assert((d2 + y)[d1.len() as int] == d2[d1.len() as int]);
        assert(p(d2[d1.len() as int]));
    } else if d2.len() < d1.len() {
        assert((d2 + y)[d2.len() as int] == y[0]);
        assert((d1 + x)[d2.len() as int] == d1[d2.len() as int]);
        assert(p(d1[d2.len() as int]));
    } else {
        assert(d1 =~= (d1 + x).take(d1.len() as int));
        assert(d2 =~= (d2 + y).take(d2.len() as int));
        assert(x =~= (d1 + x).skip(d1.len() as int));
        assert(y =~= (d2 + y).skip(d2.len() as int));
    }
}

/// The decimal digits of a number are digits, one of them below ten and
/// more from ten on.
pub proof fn lemma_decimal_digits(n: nat)
    ensures
        all_chars(decimal_digits(n), |c: char| is_decimal_digit(c)),
        decimal_digits(n).len() >= 1,
        n < 10 ==> decimal_digits(n).len() == 1,
        n >= 10 ==> decimal_digits(n).len() >= 2,
    decreases n,
{
    if n >= 10 {
        lemma_decimal_digits(n / 10);
        let d = decimal_digits(n);
        assert forall|i: int| 0 <= i < d.len() implies #[trigger] is_decimal_digit(d[i]) by {
            if i < d.len() - 1 {
                let digit = |c: char| is_decimal_digit(c);
                assert(d[i] == decimal_digits(n / 10)[i]);
                assert(digit(decimal_digits(n / 10)[i]));
            } else {
                assert(d[i] == digit_char(n % 10));
            }
        }
    }
}

/// Different numbers have different decimal digits.
pub proof fn lemma_decimal_digits_injective(n: nat, m: nat)
    requires
        decimal_digits(n) == decimal_digits(m),
    ensures
        n == m,
    decreases n,
{
    lemma_decimal_digits(n);
    lemma_decimal_digits(m);
    let d = decimal_digits(n);
    if n >= 10 && m >= 10 {
        assert(d.last() == digit_char(n % 10));
        assert(d.last() == digit_char(m % 10));
        assert(n % 10 == m % 10);
        assert(decimal_digits(n / 10) =~= d.drop_last());
        assert(decimal_digits(m / 10) =~= d.drop_last());
        lemma_decimal_digits_injective(n / 10, m / 10);
    } else if n < 10 && m < 10 {
        assert(d[0] == digit_char(n));
        assert(d[0] == digit_char(m));
    }
}

/// An `i32` literal followed by anything is read back exactly.
pub proof fn lemma_i32_literal_prefix_free(a: i32, b: i32, x: Seq<char>, y: Seq<char>)
    requires
        i32_literal(a) + x == i32_literal(b) + y,
    ensures
        a == b,
        x == y,
{
    let digit = |c: char| is_decimal_digit(c);
    let sfx = seq!['i', '3', '2'];
    let na: nat = if a < 0 { (-a) as nat } else { a as nat };
    let nb: nat = if b < 0 { (-b) as nat } else { b as nat };
    lemma_decimal_digits(na);
    lemma_decimal_digits(nb);
    let da = decimal_digits(na);
    let db = decimal_digits(nb);
    let xa = sfx + x;
    let yb = sfx + y;
    if a < 0 && b < 0 {
        assert(i32_literal(a) + x =~= seq!['-'] + (da + xa));
        assert(i32_literal(b) + y =~= seq!['-'] + (db + yb));
        lemma_cancel(seq!['-'], da + xa, db + yb);
        lemma_run(da, xa, db, yb, digit);
    } else if a >= 0 && b >= 0 {
        assert(i32_literal(a) + x =~= da + xa);
        assert(i32_literal(b) + y =~= db + yb);
        lemma_run(da, xa, db, yb, digit);
    } else if a < 0 {
        assert(i32_literal(a) + x =~= seq!['-'] + (da + xa));
        assert(i32_literal(b) + y =~= db + yb);
        assert(digit(db[0]));
        lemma_differ(seq!['-'], db, da + xa, yb, 0);
    } else {
        assert(i32_literal(a) + x =~= da + xa);
        assert(i32_literal(b) + y =~= seq!['-'] + (db + yb));
        assert(digit(da[0]));
        lemma_differ(da, seq!['-'], xa, db + yb, 0);
    }
    lemma_decimal_digits_injective(na, nb);
    lemma_cancel(sfx, x, y);
}

/// A well-formed float literal followed by any text is read back exactly:
/// its `f32` suffix ends it.
pub proof fn lemma_float_text_prefix_free(a: Seq<char>, b: Seq<char>, x: Seq<char>, y: Seq<char>)
    requires
        float_text_wf(a),
        float_text_wf(b),
        a + x == b + y,
    ensures
        a == b,
        x == y,
{
    let sfx = seq!['f', '3', '2'];
    let ba = a.take(a.len() - 3);
    let bb = b.take(b.len() - 3);
    assert(a =~= ba + sfx);
    assert(b =~= bb + sfx);
    assert(a + x =~= ba + (sfx + x));
    assert(b + y =~= bb + (sfx + y));
    lemma_run(ba, sfx + x, bb, sfx + y, |c: char| is_float_char(c));
    lemma_cancel(sfx, x, y);
}

/// Fields `fs[k..]` of a struct expression written from the front, each
/// followed by `, ` but the last, which is followed by `tail`.
pub open spec fn items_from(fs: Seq<Seq<char>>, k: int, tail: Seq<char>) -> Seq<char>
    decreases fs.len() - k,
{
    if k < 0 || k >= fs.len() {
        tail
    } else if k == fs.len() - 1 {
        fs[k] + tail
    } else {
        fs[k] + (", "@ + items_from(fs, k + 1, tail))
    }
}

/// Dropping the last field moves it, after `, `, into the tail.
pub proof fn lemma_items_from_drop_last(fs: Seq<Seq<char>>, k: int, tail: Seq<char>)
    requires
        0 <= k < fs.len() - 1,
    ensures
        items_from(fs, k, tail) == items_from(fs.drop_last(), k, ", "@ + (fs.last() + tail)),
    decreases fs.len() - k,
{
    let init = fs.drop_last();
    let moved = ", "@ + (fs.last() + tail);
    assert(init[k] == fs[k]);
    if k < fs.len() - 2 {
        lemma_items_from_drop_last(fs, k + 1, tail);
        assert(items_from(init, k, moved) == init[k] + (", "@ + items_from(init, k + 1, moved)));
    } else {
        assert(items_from(fs, k + 1, tail) == fs.last() + tail);
        assert(items_from(init, k, moved) == init[k] + moved);
    }
    assert(items_from(fs, k, tail) == fs[k] + (", "@ + items_from(fs, k + 1, tail)));
}

/// Comma-separated fields followed by a tail, written from the front.
pub proof fn lemma_comma_separated_items(fs: Seq<Seq<char>>, tail: Seq<char>)
    requires
        fs.len() >= 1,
    ensures
        comma_separated(fs) + tail == items_from(fs, 0, tail),
    decreases fs.len(),
{
    if fs.len() >= 2 {
        let init = fs.drop_last();
        let rest = ", "@ + (fs.last() + tail);
        lemma_comma_separated_items(init, rest);
        lemma_items_from_drop_last(fs, 0, tail);
        assert(comma_separated(fs) + tail =~= comma_separated(init) + rest);
    }
}

/// Reading `path(` and `)` off two call expressions of the same path.
pub proof fn lemma_read_call1(path: Seq<char>, ia: Seq<char>, ib: Seq<char>, x: Seq<char>, y: Seq<char>)
    requires
        call1(path, ia) + x == call1(path, ib) + y,
    ensures
        ia + (")"@ + x) == ib + (")"@ + y),
{
    assert(call1(path, ia) + x =~= (path + "("@) + (ia + (")"@ + x)));
    assert(call1(path, ib) + y =~= (path + "("@) + (ib + (")"@ + y)));
    lemma_cancel(path + "("@, ia + (")"@ + x), ib + (")"@ + y));
}

/// Reading `name: ` off two fields of the same name.
pub proof fn lemma_read_field(name: Seq<char>, va: Seq<char>, vb: Seq<char>, x: Seq<char>, y: Seq<char>)
    requires
        field(name, va) + x == field(name, vb) + y,
    ensures
        va + x == vb + y,
{
    assert(field(name, va) + x =~= (name + ": "@) + (va + x));
    assert(field(name, vb) + y =~= (name + ": "@) + (vb + y));
    lemma_cancel(name + ": "@, va + x, vb + y);
}

/// Reading `path { ` and ` }` off two struct expressions of the same path.
pub proof fn lemma_read_struct(path: Seq<char>, fa: Seq<Seq<char>>, fb: Seq<Seq<char>>, x: Seq<char>, y: Seq<char>)
    requires
        fa.len() >= 1,
        fb.len() >= 1,
        struct_expr(path, fa) + x == struct_expr(path, fb) + y,
    ensures
        items_from(fa, 0, " }"@ + x) == items_from(fb, 0, " }"@ + y),
{
    let open = path + " { "@;
    lemma_comma_separated_items(fa, " }"@ + x);
    lemma_comma_separated_items(fb, " }"@ + y);
    assert(struct_expr(path, fa) + x =~= open + (comma_separated(fa) + (" }"@ + x)));
    assert(struct_expr(path, fb) + y =~= open + (comma_separated(fb) + (" }"@ + y)));
    lemma_cancel(open, comma_separated(fa) + (" }"@ + x), comma_separated(fb) + (" }"@ + y));
}

/// A struct expression of two fields is the comma-separated form.
pub proof fn lemma_braced2_struct(path: Seq<char>, a: Seq<char>, b: Seq<char>)
    ensures
        braced2(path, a, b) == struct_expr(path, seq![a, b]),
{
    assert(seq![a, b].drop_last() =~= seq![a]);
    assert(comma_separated(seq![a]) == a);
    assert(comma_separated(seq![a, b]) == comma_separated(seq![a]) + ", "@ + b);
    assert(braced2(path, a, b) =~= struct_expr(path, seq![a, b]));
}

/// A struct expression of three fields is the comma-separated form.
pub proof fn lemma_braced3_struct(path: Seq<char>, a: Seq<char>, b: Seq<char>, c: Seq<char>)
    ensures
        braced3(path, a, b, c) == struct_expr(path, seq![a, b, c]),
{
    assert(seq![a, b, c].drop_last() =~= seq![a, b]);
    assert(seq![a, b].drop_last() =~= seq![a]);
    assert(comma_separated(seq![a]) == a);
    assert(comma_separated(seq![a, b]) == comma_separated(seq![a]) + ", "@ + b);
    assert(comma_separated(seq![a, b, c]) == comma_separated(seq![a, b]) + ", "@ + c);
    assert(braced3(path, a, b, c) =~= struct_expr(path, seq![a, b, c]));
}

/// A struct expression of four fields is the comma-separated form.
pub proof fn lemma_braced4_struct(path: Seq<char>, a: Seq<char>, b: Seq<char>, c: Seq<char>, d: Seq<char>)
    ensures
        braced4(path, a, b, c, d) == struct_expr(path, seq![a, b, c, d]),
{
    assert(seq![a, b, c, d].drop_last() =~= seq![a, b, c]);
    assert(seq![a, b, c].drop_last() =~= seq![a, b]);
    assert(seq![a, b].drop_last() =~= seq![a]);
    assert(comma_separated(seq![a]) == a);
    assert(comma_separated(seq![a, b]) == comma_separated(seq![a]) + ", "@ + b);
    assert(comma_separated(seq![a, b, c]) == comma_separated(seq![a, b]) + ", "@ + c);
    assert(comma_separated(seq![a, b, c, d]) == comma_separated(seq![a, b, c]) + ", "@ + d);
    assert(braced4(path, a, b, c, d) =~= struct_expr(path, seq![a, b, c, d]));
}

/// The characters at which the rendered variants of a vertical anchor
/// first differ.
pub open spec fn vertical_anchor_key(a: VerticalAnchor) -> (char, char) {
    match a {
        VerticalAnchor::Absolute(_) => ('A', 's'),
        VerticalAnchor::AboveBottom(_) => ('A', 'o'),
        VerticalAnchor::BelowTop(_) => ('B', 'l'),
        VerticalAnchor::RelativeToSeaLevel(_) => ('R', 'l'),
    }
}

/// A rendered vertical anchor shows its key at positions 16 and 18.
pub proof fn lemma_vertical_anchor_key(a: VerticalAnchor, x: Seq<char>)
    ensures
        (vertical_anchor_src(a) + x).len() > 18,
        (vertical_anchor_src(a) + x)[16] == vertical_anchor_key(a).0,
        (vertical_anchor_src(a) + x)[18] == vertical_anchor_key(a).1,
{
    reveal_strlit("VerticalAnchor::Absolute");
    reveal_strlit("VerticalAnchor::AboveBottom");
    reveal_strlit("VerticalAnchor::BelowTop");
    reveal_strlit("VerticalAnchor::RelativeToSeaLevel");
}

/// A rendered vertical anchor followed by any text is read back exactly.
#[verifier::spinoff_prover]
#[verifier::rlimit(40)]
pub proof fn lemma_vertical_anchor_prefix_free(a: VerticalAnchor, b: VerticalAnchor, x: Seq<char>, y: Seq<char>)
    requires
        vertical_anchor_src(a) + x == vertical_anchor_src(b) + y,
    ensures
        a == b,
        x == y,
{
    match (a, b) {
        (VerticalAnchor::Absolute(v_a), VerticalAnchor::Absolute(v_b)) => {
            lemma_read_call1("VerticalAnchor::Absolute"@, i32_literal(v_a), i32_literal(v_b), x, y);
            lemma_i32_literal_prefix_free(v_a, v_b, ")"@ + x, ")"@ + y);
            lemma_cancel(")"@, x, y);
        },
        (VerticalAnchor::AboveBottom(v_a), VerticalAnchor::AboveBottom(v_b)) => {
            lemma_read_call1("VerticalAnchor::AboveBottom"@, i32_literal(v_a), i32_literal(v_b), x, y);
            lemma_i32_literal_prefix_free(v_a, v_b, ")"@ + x, ")"@ + y);
            lemma_cancel(")"@, x, y);
        },
        (VerticalAnchor::BelowTop(v_a), VerticalAnchor::BelowTop(v_b)) => {
            lemma_read_call1("VerticalAnchor::BelowTop"@, i32_literal(v_a), i32_literal(v_b), x, y);
            lemma_i32_literal_prefix_free(v_a, v_b, ")"@ + x, ")"@ + y);
            lemma_cancel(")"@, x, y);
        },
        (VerticalAnchor::RelativeToSeaLevel(v_a), VerticalAnchor::RelativeToSeaLevel(v_b)) => {
            lemma_read_call1("VerticalAnchor::RelativeToSeaLevel"@, i32_literal(v_a), i32_literal(v_b), x, y);
            lemma_i32_literal_prefix_free(v_a, v_b, ")"@ + x, ")"@ + y);
            lemma_cancel(")"@, x, y);
        },
        _ => {
            lemma_vertical_anchor_key(a, x);
            lemma_vertical_anchor_key(b, y);
        },
    }
}

/// The character at which the rendered variants of a height provider first
/// differ.
pub open spec fn height_provider_key(h: HeightProvider) -> char {
    match h {
        HeightProvider::Constant(_) => 'C',
        HeightProvider::Uniform { .. } => 'U',
        HeightProvider::Trapezoid { .. } => 'T',
        HeightProvider::BiasedToBottom { .. } => 'B',
        HeightProvider::VeryBiasedToBottom { .. } => 'V',
    }
}

/// A rendered height provider shows its key at position 16.
pub proof fn lemma_height_provider_key(h: HeightProvider, x: Seq<char>)
    ensures
        (height_provider_src(h) + x).len() > 16,
        (height_provider_src(h) + x)[16] == height_provider_key(h),
{
    reveal_strlit("HeightProvider::Constant");
    reveal_strlit("HeightProvider::Uniform");
    reveal_strlit("HeightProvider::Trapezoid");
    reveal_strlit("HeightProvider::BiasedToBottom");
    reveal_strlit("HeightProvider::VeryBiasedToBottom");
}

/// A rendered height provider followed by any text is read back exactly.
#[verifier::spinoff_prover]
#[verifier::rlimit(40)]
pub proof fn lemma_height_provider_prefix_free(a: HeightProvider, b: HeightProvider, x: Seq<char>, y: Seq<char>)
    requires
        height_provider_src(a) + x == height_provider_src(b) + y,
    ensures
        a == b,
        x == y,
{
    match (a, b) {
        (HeightProvider::Constant(c_a), HeightProvider::Constant(c_b)) => {
            lemma_read_call1("HeightProvider::Constant"@, vertical_anchor_src(c_a), vertical_anchor_src(c_b), x, y);
            lemma_vertical_anchor_prefix_free(c_a, c_b, ")"@ + x, ")"@ + y);
            lemma_cancel(")"@, x, y);
        },
        (
            HeightProvider::Uniform { min_inclusive: min_inclusive_a, max_inclusive: max_inclusive_a },
            HeightProvider::Uniform { min_inclusive: min_inclusive_b, max_inclusive: max_inclusive_b },
        ) => {
            let fa = seq![
                field("min_inclusive"@, vertical_anchor_src(min_inclusive_a)),
                field("max_inclusive"@, vertical_anchor_src(max_inclusive_a)),
            ];
            let fb = seq![
                field("min_inclusive"@, vertical_anchor_src(min_inclusive_b)),
                field("max_inclusive"@, vertical_anchor_src(max_inclusive_b)),
            ];
            lemma_braced2_struct("HeightProvider::Uniform"@, fa[0], fa[1]);
            lemma_braced2_struct("HeightProvider::Uniform"@, fb[0], fb[1]);
            lemma_read_struct("HeightProvider::Uniform"@, fa, fb, x, y);
            let (ta, tb) = (" }"@ + x, " }"@ + y);
            let (ra, rb) = (", "@ + items_from(fa, 1, ta), ", "@ + items_from(fb, 1, tb));
            lemma_read_field("min_inclusive"@, vertical_anchor_src(min_inclusive_a), vertical_anchor_src(min_inclusive_b), ra, rb);
            lemma_vertical_anchor_prefix_free(min_inclusive_a, min_inclusive_b, ra, rb);
            lemma_cancel(", "@, items_from(fa, 1, ta), items_from(fb, 1, tb));
            lemma_read_field("max_inclusive"@, vertical_anchor_src(max_inclusive_a), vertical_anchor_src(max_inclusive_b), ta, tb);
            lemma_vertical_anchor_prefix_free(max_inclusive_a, max_inclusive_b, ta, tb);
            lemma_cancel(" }"@, x, y);
        },
        (
            HeightProvider::Trapezoid { min_inclusive: min_inclusive_a, max_inclusive: max_inclusive_a, plateau: plateau_a },
            HeightProvider::Trapezoid { min_inclusive: min_inclusive_b, max_inclusive: max_inclusive_b, plateau: plateau_b },
        ) => {
            let fa = seq![
                field("min_inclusive"@, vertical_anchor_src(min_inclusive_a)),
                field("max_inclusive"@, vertical_anchor_src(max_inclusive_a)),
                field("plateau"@, i32_literal(plateau_a)),
            ];
            let fb = seq![
                field("min_inclusive"@, vertical_anchor_src(min_inclusive_b)),
                field("max_inclusive"@, vertical_anchor_src(max_inclusive_b)),
                field("plateau"@, i32_literal(plateau_b)),
            ];
            lemma_braced3_struct("HeightProvider::Trapezoid"@, fa[0], fa[1], fa[2]);
            lemma_braced3_struct("HeightProvider::Trapezoid"@, fb[0], fb[1], fb[2]);
            lemma_read_struct("HeightProvider::Trapezoid"@, fa, fb, x, y);
            let (ta, tb) = (" }"@ + x, " }"@ + y);
            let (ra, rb) = (", "@ + items_from(fa, 1, ta), ", "@ + items_from(fb, 1, tb));
            lemma_read_field("min_inclusive"@, vertical_anchor_src(min_inclusive_a), vertical_anchor_src(min_inclusive_b), ra, rb);
            lemma_vertical_anchor_prefix_free(min_inclusive_a, min_inclusive_b, ra, rb);
            lemma_cancel(", "@, items_from(fa, 1, ta), items_from(fb, 1, tb));
            let (ra, rb) = (", "@ + items_from(fa, 2, ta), ", "@ + items_from(fb, 2, tb));
            lemma_read_field("max_inclusive"@, vertical_anchor_src(max_inclusive_a), vertical_anchor_src(max_inclusive_b), ra, rb);
            lemma_vertical_anchor_prefix_free(max_inclusive_a, max_inclusive_b, ra, rb);
            lemma_cancel(", "@, items_from(fa, 2, ta), items_from(fb, 2, tb));
            lemma_read_field("plateau"@, i32_literal(plateau_a), i32_literal(plateau_b), ta, tb);
            lemma_i32_literal_prefix_free(plateau_a, plateau_b, ta, tb);
            lemma_cancel(" }"@, x, y);
        },
        (
            HeightProvider::BiasedToBottom { min_inclusive: min_inclusive_a, max_inclusive: max_inclusive_a, inner: inner_a },
            HeightProvider::BiasedToBottom { min_inclusive: min_inclusive_b, max_inclusive: max_inclusive_b, inner: inner_b },
        ) => {
            let fa = seq![
                field("min_inclusive"@, vertical_anchor_src(min_inclusive_a)),
                field("max_inclusive"@, vertical_anchor_src(max_inclusive_a)),
                field("inner"@, i32_literal(inner_a)),
            ];
            let fb = seq![
                field("min_inclusive"@, vertical_anchor_src(min_inclusive_b)),
                field("max_inclusive"@, vertical_anchor_src(max_inclusive_b)),
                field("inner"@, i32_literal(inner_b)),
            ];
            lemma_braced3_struct("HeightProvider::BiasedToBottom"@, fa[0], fa[1], fa[2]);
            lemma_braced3_struct("HeightProvider::BiasedToBottom"@, fb[0], fb[1], fb[2]);
            lemma_read_struct("HeightProvider::BiasedToBottom"@, fa, fb, x, y);
            let (ta, tb) = (" }"@ + x, " }"@ + y);
            let (ra, rb) = (", "@ + items_from(fa, 1, ta), ", "@ + items_from(fb, 1, tb));
            lemma_read_field("min_inclusive"@, vertical_anchor_src(min_inclusive_a), vertical_anchor_src(min_inclusive_b), ra, rb);
            lemma_vertical_anchor_prefix_free(min_inclusive_a, min_inclusive_b, ra, rb);
            lemma_cancel(", "@, items_from(fa, 1, ta), items_from(fb, 1, tb));
            let (ra, rb) = (", "@ + items_from(fa, 2, ta), ", "@ + items_from(fb, 2, tb));
            lemma_read_field("max_inclusive"@, vertical_anchor_src(max_inclusive_a), vertical_anchor_src(max_inclusive_b), ra, rb);
            lemma_vertical_anchor_prefix_free(max_inclusive_a, max_inclusive_b, ra, rb);
            lemma_cancel(", "@, items_from(fa, 2, ta), items_from(fb, 2, tb));
            lemma_read_field("inner"@, i32_literal(inner_a), i32_literal(inner_b), ta, tb);
            lemma_i32_literal_prefix_free(inner_a, inner_b, ta, tb);
            lemma_cancel(" }"@, x, y);
        },
        (
            HeightProvider::VeryBiasedToBottom { min_inclusive: min_inclusive_a, max_inclusive: max_inclusive_a, inner: inner_a },
            HeightProvider::VeryBiasedToBottom { min_inclusive: min_inclusive_b, max_inclusive: max_inclusive_b, inner: inner_b },
        ) => {
            let fa = seq![
                field("min_inclusive"@, vertical_anchor_src(min_inclusive_a)),
                field("max_inclusive"@, vertical_anchor_src(max_inclusive_a)),
                field("inner"@, i32_literal(inner_a)),
            ];
            let fb = seq![
                field("min_inclusive"@, vertical_anchor_src(min_inclusive_b)),
                field("max_inclusive"@, vertical_anchor_src(max_inclusive_b)),
                field("inner"@, i32_literal(inner_b)),
            ];
            lemma_braced3_struct("HeightProvider::VeryBiasedToBottom"@, fa[0], fa[1], fa[2]);
            lemma_braced3_struct("HeightProvider::VeryBiasedToBottom"@, fb[0], fb[1], fb[2]);
            lemma_read_struct("HeightProvider::VeryBiasedToBottom"@, fa, fb, x, y);
            let (ta, tb) = (" }"@ + x, " }"@ + y);
            let (ra, rb) = (", "@ + items_from(fa, 1, ta), ", "@ + items_from(fb, 1, tb));
            lemma_read_field("min_inclusive"@, vertical_anchor_src(min_inclusive_a), vertical_anchor_src(min_inclusive_b), ra, rb);
            lemma_vertical_anchor_prefix_free(min_inclusive_a, min_inclusive_b, ra, rb);
            lemma_cancel(", "@, items_from(fa, 1, ta), items_from(fb, 1, tb));
            let (ra, rb) = (", "@ + items_from(fa, 2, ta), ", "@ + items_from(fb, 2, tb));
            lemma_read_field("max_inclusive"@, vertical_anchor_src(max_inclusive_a), vertical_anchor_src(max_inclusive_b), ra, rb);
            lemma_vertical_anchor_prefix_free(max_inclusive_a, max_inclusive_b, ra, rb);
            lemma_cancel(", "@, items_from(fa, 2, ta), items_from(fb, 2, tb));
            lemma_read_field("inner"@, i32_literal(inner_a), i32_literal(inner_b), ta, tb);
            lemma_i32_literal_prefix_free(inner_a, inner_b, ta, tb);
            lemma_cancel(" }"@, x, y);
        },
        _ => {
            lemma_height_provider_key(a, x);
            lemma_height_provider_key(b, y);
        },
    }
}

/// What a float provider holds, each float taken by the text of its literal.
pub enum FloatProviderValue {
    Constant(Seq<char>),
    Uniform { min_inclusive: Seq<char>, max_exclusive: Seq<char> },
    Trapezoid { min: Seq<char>, max: Seq<char>, plateau: Seq<char> },
    ClampedNormal { mean: Seq<char>, deviation: Seq<char>, min: Seq<char>, max: Seq<char> },
}

/// The variant and float texts of a float provider.
pub open spec fn float_value(f: FloatProvider) -> FloatProviderValue {
    match f {
        FloatProvider::Constant(v) => FloatProviderValue::Constant(v.text@),
        FloatProvider::Uniform { min_inclusive, max_exclusive } => FloatProviderValue::Uniform {
            min_inclusive: min_inclusive.text@,
            max_exclusive: max_exclusive.text@,
        },
        FloatProvider::Trapezoid { min, max, plateau } => FloatProviderValue::Trapezoid {
            min: min.text@,
            max: max.text@,
            plateau: plateau.text@,
        },
        FloatProvider::ClampedNormal { mean, deviation, min, max } => FloatProviderValue::ClampedNormal {
            mean: mean.text@,
            deviation: deviation.text@,
            min: min.text@,
            max: max.text@,
        },
    }
}

/// The characters at which the rendered variants of a float provider first
/// differ.
pub open spec fn float_provider_key(f: FloatProvider) -> (char, char) {
    match f {
        FloatProvider::Constant(_) => ('C', 'o'),
        FloatProvider::Uniform { .. } => ('U', 'n'),
        FloatProvider::Trapezoid { .. } => ('T', 'r'),
        FloatProvider::ClampedNormal { .. } => ('C', 'l'),
    }
}

/// A rendered float provider shows its key at positions 15 and 16.
pub proof fn lemma_float_provider_key(f: FloatProvider, x: Seq<char>)
    ensures
        (float_provider_src(f) + x).len() > 16,
        (float_provider_src(f) + x)[15] == float_provider_key(f).0,
        (float_provider_src(f) + x)[16] == float_provider_key(f).1,
{
    reveal_strlit("FloatProvider::Constant");
    reveal_strlit("FloatProvider::Uniform");
    reveal_strlit("FloatProvider::Trapezoid");
    reveal_strlit("FloatProvider::ClampedNormal");
}

/// A rendered float provider with well-formed floats, followed by any text, is read back exactly.
#[verifier::spinoff_prover]
#[verifier::rlimit(40)]
pub proof fn lemma_float_provider_prefix_free(a: FloatProvider, b: FloatProvider, x: Seq<char>, y: Seq<char>)
    requires
        float_provider_wf(a),
        float_provider_wf(b),
        float_provider_src(a) + x == float_provider_src(b) + y,
    ensures
        float_value(a) == float_value(b),
        x == y,
{
    match (a, b) {
        (FloatProvider::Constant(c_a), FloatProvider::Constant(c_b)) => {
            lemma_read_call1("FloatProvider::Constant"@, c_a.text@, c_b.text@, x, y);
            lemma_float_text_prefix_free(c_a.text@, c_b.text@, ")"@ + x, ")"@ + y);
            lemma_cancel(")"@, x, y);
        },
        (
            FloatProvider::Uniform { min_inclusive: min_inclusive_a, max_exclusive: max_exclusive_a },
            FloatProvider::Uniform { min_inclusive: min_inclusive_b, max_exclusive: max_exclusive_b },
        ) => {
            let fa = seq![
                field("min_inclusive"@, min_inclusive_a.text@),
                field("max_exclusive"@, max_exclusive_a.text@),
            ];
            let fb = seq![
                field("min_inclusive"@, min_inclusive_b.text@),
                field("max_exclusive"@, max_exclusive_b.text@),
            ];
            lemma_braced2_struct("FloatProvider::Uniform"@, fa[0], fa[1]);
            lemma_braced2_struct("FloatProvider::Uniform"@, fb[0], fb[1]);
            lemma_read_struct("FloatProvider::Uniform"@, fa, fb, x, y);
            let (ta, tb) = (" }"@ + x, " }"@ + y);
            let (ra, rb) = (", "@ + items_from(fa, 1, ta), ", "@ + items_from(fb, 1, tb));
            lemma_read_field("min_inclusive"@, min_inclusive_a.text@, min_inclusive_b.text@, ra, rb);
            lemma_float_text_prefix_free(min_inclusive_a.text@, min_inclusive_b.text@, ra, rb);
            lemma_cancel(", "@, items_from(fa, 1, ta), items_from(fb, 1, tb));
            lemma_read_field("max_exclusive"@, max_exclusive_a.text@, max_exclusive_b.text@, ta, tb);
            lemma_float_text_prefix_free(max_exclusive_a.text@, max_exclusive_b.text@, ta, tb);
            lemma_cancel(" }"@, x, y);
        },
        (
            FloatProvider::Trapezoid { min: min_a, max: max_a, plateau: plateau_a },
            FloatProvider::Trapezoid { min: min_b, max: max_b, plateau: plateau_b },
        ) => {
            let fa = seq![
                field("min"@, min_a.text@),
                field("max"@, max_a.text@),
                field("plateau"@, plateau_a.text@),
            ];
            let fb = seq![
                field("min"@, min_b.text@),
                field("max"@, max_b.text@),
                field("plateau"@, plateau_b.text@),
            ];
            lemma_braced3_struct("FloatProvider::Trapezoid"@, fa[0], fa[1], fa[2]);
            lemma_braced3_struct("FloatProvider::Trapezoid"@, fb[0], fb[1], fb[2]);
            lemma_read_struct("FloatProvider::Trapezoid"@, fa, fb, x, y);
            let (ta, tb) = (" }"@ + x, " }"@ + y);
            let (ra, rb) = (", "@ + items_from(fa, 1, ta), ", "@ + items_from(fb, 1, tb));
            lemma_read_field("min"@, min_a.text@, min_b.text@, ra, rb);
            lemma_float_text_prefix_free(min_a.text@, min_b.text@, ra, rb);
            lemma_cancel(", "@, items_from(fa, 1, ta), items_from(fb, 1, tb));
            let (ra, rb) = (", "@ + items_from(fa, 2, ta), ", "@ + items_from(fb, 2, tb));
            lemma_read_field("max"@, max_a.text@, max_b.text@, ra, rb);
            lemma_float_text_prefix_free(max_a.text@, max_b.text@, ra, rb);
            lemma_cancel(", "@, items_from(fa, 2, ta), items_from(fb, 2, tb));
            lemma_read_field("plateau"@, plateau_a.text@, plateau_b.text@, ta, tb);
            lemma_float_text_prefix_free(plateau_a.text@, plateau_b.text@, ta, tb);
            lemma_cancel(" }"@, x, y);
        },
        (
            FloatProvider::ClampedNormal { mean: mean_a, deviation: deviation_a, min: min_a, max: max_a },
            FloatProvider::ClampedNormal { mean: mean_b, deviation: deviation_b, min: min_b, max: max_b },
        ) => {
            let fa = seq![
                field("mean"@, mean_a.text@),
                field("deviation"@, deviation_a.text@),
                field("min"@, min_a.text@),
                field("max"@, max_a.text@),
            ];
            let fb = seq![
                field("mean"@, mean_b.text@),
                field("deviation"@, deviation_b.text@),
                field("min"@, min_b.text@),
                field("max"@, max_b.text@),
            ];
            lemma_braced4_struct("FloatProvider::ClampedNormal"@, fa[0], fa[1], fa[2], fa[3]);
            lemma_braced4_struct("FloatProvider::ClampedNormal"@, fb[0], fb[1], fb[2], fb[3]);
            lemma_read_struct("FloatProvider::ClampedNormal"@, fa, fb, x, y);
            let (ta, tb) = (" }"@ + x, " }"@ + y);
            let (ra, rb) = (", "@ + items_from(fa, 1, ta), ", "@ + items_from(fb, 1, tb));
            lemma_read_field("mean"@, mean_a.text@, mean_b.text@, ra, rb);
            lemma_float_text_prefix_free(mean_a.text@, mean_b.text@, ra, rb);
            lemma_cancel(", "@, items_from(fa, 1, ta), items_from(fb, 1, tb));
            let (ra, rb) = (", "@ + items_from(fa, 2, ta), ", "@ + items_from(fb, 2, tb));
            lemma_read_field("deviation"@, deviation_a.text@, deviation_b.text@, ra, rb);
            lemma_float_text_prefix_free(deviation_a.text@, deviation_b.text@, ra, rb);
            lemma_cancel(", "@, items_from(fa, 2, ta), items_from(fb, 2, tb));
            let (ra, rb) = (", "@ + items_from(fa, 3, ta), ", "@ + items_from(fb, 3, tb));
            lemma_read_field("min"@, min_a.text@, min_b.text@, ra, rb);
            lemma_float_text_prefix_free(min_a.text@, min_b.text@, ra, rb);
            lemma_cancel(", "@, items_from(fa, 3, ta), items_from(fb, 3, tb));
            lemma_read_field("max"@, max_a.text@, max_b.text@, ta, tb);
            lemma_float_text_prefix_free(max_a.text@, max_b.text@, ta, tb);
            lemma_cancel(" }"@, x, y);
        },
        _ => {
            lemma_float_provider_key(a, x);
            lemma_float_provider_key(b, y);
        },
    }
}

/// What an integer provider holds, each float taken by the text of its
/// literal; a weighted list holds its choices in order, each with its weight.
pub enum IntProviderValue {
    Constant(i32),
    Uniform { min_inclusive: i32, max_inclusive: i32 },
    BiasedToBottom { min_inclusive: i32, max_inclusive: i32 },
    VeryBiasedToBottom { min_inclusive: i32, max_inclusive: i32, inner: i32 },
    Trapezoid { min: i32, max: i32, plateau: i32 },
    ClampedNormal { mean: Seq<char>, deviation: Seq<char>, min_inclusive: i32, max_inclusive: i32 },
    Clamped { source: Box<IntProviderValue>, min_inclusive: i32, max_inclusive: i32 },
    WeightedList { distribution: Seq<(IntProviderValue, i32)> },
}

/// The variants, numbers and float texts of an integer provider, at every
/// depth.
pub open spec fn int_value(p: IntProvider) -> IntProviderValue
    decreases p,
{
    match p {
        IntProvider::Constant(v) => IntProviderValue::Constant(v),
        IntProvider::Uniform { min_inclusive, max_inclusive } => IntProviderValue::Uniform {
            min_inclusive,
            max_inclusive,
        },
        IntProvider::BiasedToBottom { min_inclusive, max_inclusive } => IntProviderValue::BiasedToBottom {
            min_inclusive,
            max_inclusive,
        },
        IntProvider::VeryBiasedToBottom { min_inclusive, max_inclusive, inner } => {
            IntProviderValue::VeryBiasedToBottom { min_inclusive, max_inclusive, inner }
        },
        IntProvider::Trapezoid { min, max, plateau } => IntProviderValue::Trapezoid { min, max, plateau },
        IntProvider::ClampedNormal { mean, deviation, min_inclusive, max_inclusive } => {
            IntProviderValue::ClampedNormal { mean: mean.text@, deviation: deviation.text@, min_inclusive, max_inclusive }
        },
        IntProvider::Clamped { source, min_inclusive, max_inclusive } => IntProviderValue::Clamped {
            source: Box::new(int_value(*source)),
            min_inclusive,
            max_inclusive,
        },
        IntProvider::WeightedList { distribution } => IntProviderValue::WeightedList {
            distribution: weighted_values(distribution@),
        },
    }
}

/// The choices of a weighted list, in order.
pub open spec fn weighted_values(ws: Seq<WeightedIntProvider>) -> Seq<(IntProviderValue, i32)>
    decreases ws,
{
    if ws.len() == 0 {
        Seq::empty()
    } else {
        seq![weighted_value(ws[0])] + weighted_values(ws.drop_first())
    }
}

/// One choice of a weighted list with its weight.
pub open spec fn weighted_value(w: WeightedIntProvider) -> (IntProviderValue, i32)
    decreases w,
{
    (int_value(w.data), w.weight)
}

/// The choices of a weighted list, read from the front: the first choice,
/// then `, ` and the others.
pub proof fn lemma_weighted_entries_front(ws: Seq<WeightedIntProvider>)
    requires
        ws.len() >= 2,
    ensures
        weighted_entries_src(ws) == weighted_entry_src(ws[0]) + (", "@ + weighted_entries_src(ws.drop_first())),
    decreases ws.len(),
{
    let sep = ", "@;
    let init = ws.drop_last();
    let rest = ws.drop_first();
    let last = weighted_entry_src(ws.last());
    assert(rest.drop_last() =~= init.drop_first());
    assert(rest.last() == ws.last());
    assert(weighted_entries_src(ws) == weighted_entries_src(init) + sep + last);
    if ws.len() == 2 {
        assert(init.len() == 1 && init[0] == ws[0]);
        assert(rest.len() == 1 && rest[0] == ws[1]);
        assert(weighted_entries_src(ws) =~= weighted_entry_src(ws[0]) + (sep + weighted_entries_src(rest)));
    } else {
        lemma_weighted_entries_front(init);
        assert(init[0] == ws[0]);
        let middle = weighted_entries_src(init.drop_first());
        assert(weighted_entries_src(rest) == middle + sep + last);
        assert(weighted_entries_src(init) == weighted_entry_src(ws[0]) + (sep + middle));
        assert(weighted_entries_src(ws) =~= weighted_entry_src(ws[0]) + (sep + (middle + sep + last)));
    }
}

/// A rendered weighted choice starts with `s`.
pub proof fn lemma_weighted_entry_start(w: WeightedIntProvider)
    ensures
        weighted_entry_src(w).len() > 0,
        weighted_entry_src(w)[0] == 's',
{
    reveal_strlit("steel_utils::value_providers::WeightedIntProvider");
}

/// A rendered list of weighted choices with well-formed floats, followed by
/// text that starts with `]`, is read back exactly.
#[verifier::spinoff_prover]
#[verifier::rlimit(40)]
pub proof fn lemma_weighted_entries_prefix_free(wa: Seq<WeightedIntProvider>, wb: Seq<WeightedIntProvider>, x: Seq<char>, y: Seq<char>)
    requires
        weighted_wf(wa),
        weighted_wf(wb),
        x.len() > 0 && x[0] == ']',
        y.len() > 0 && y[0] == ']',
        weighted_entries_src(wa) + x == weighted_entries_src(wb) + y,
    ensures
        weighted_values(wa) == weighted_values(wb),
        x == y,
    decreases wa,
{
    let sep = ", "@;
    let ra = if wa.len() >= 2 { sep + (weighted_entries_src(wa.drop_first()) + x) } else { x };
    let rb = if wb.len() >= 2 { sep + (weighted_entries_src(wb.drop_first()) + y) } else { y };
    if wa.len() >= 2 {
        lemma_weighted_entries_front(wa);
        lemma_concat_associative(weighted_entry_src(wa[0]), sep + weighted_entries_src(wa.drop_first()), x);
        lemma_concat_associative(sep, weighted_entries_src(wa.drop_first()), x);
    }
    if wb.len() >= 2 {
        lemma_weighted_entries_front(wb);
        lemma_concat_associative(weighted_entry_src(wb[0]), sep + weighted_entries_src(wb.drop_first()), y);
        lemma_concat_associative(sep, weighted_entries_src(wb.drop_first()), y);
    }
    if wa.len() == 0 && wb.len() == 0 {
        assert(x =~= weighted_entries_src(wa) + x);
        assert(y =~= weighted_entries_src(wb) + y);
    } else if wa.len() == 0 {
        lemma_weighted_entry_start(wb[0]);
        assert(weighted_entries_src(wb) + y == weighted_entry_src(wb[0]) + rb);
        assert((weighted_entry_src(wb[0]) + rb)[0] == 's');
        assert((weighted_entries_src(wa) + x)[0] == x[0]);
    } else if wb.len() == 0 {
        lemma_weighted_entry_start(wa[0]);
        assert(weighted_entries_src(wa) + x == weighted_entry_src(wa[0]) + ra);
        assert((weighted_entry_src(wa[0]) + ra)[0] == 's');
        assert((weighted_entries_src(wb) + y)[0] == y[0]);
    } else {
        assert(weighted_entries_src(wa) + x == weighted_entry_src(wa[0]) + ra);
        assert(weighted_entries_src(wb) + y == weighted_entry_src(wb[0]) + rb);
        lemma_weighted_entry_prefix_free(wa[0], wb[0], ra, rb);
        reveal_strlit(", ");
        if wa.len() >= 2 && wb.len() >= 2 {
            lemma_cancel(sep, weighted_entries_src(wa.drop_first()) + x, weighted_entries_src(wb.drop_first()) + y);
            lemma_weighted_entries_prefix_free(wa.drop_first(), wb.drop_first(), x, y);
        } else if wa.len() >= 2 {
            assert(ra[0] == ',');
        } else if wb.len() >= 2 {
            assert(rb[0] == ',');
        }
        assert(weighted_values(wa) =~= seq![weighted_value(wa[0])] + weighted_values(wa.drop_first()));
        assert(weighted_values(wb) =~= seq![weighted_value(wb[0])] + weighted_values(wb.drop_first()));
    }
}

/// Two booleans rendered and followed by any text are read back exactly.
pub proof fn lemma_bool_prefix_free(a: bool, b: bool, x: Seq<char>, y: Seq<char>)
    requires
        bool_literal(a) + x == bool_literal(b) + y,
    ensures
        a == b,
        x == y,
{
    if a == b {
        lemma_cancel(bool_literal(a), x, y);
    } else {
        let t = bool_literal(true);
        let f = bool_literal(false);
        assert(t[0] == 't' && f[0] == 'f');
        if a {
            lemma_differ(t, f, x, y, 0);
        } else {
            lemma_differ(f, t, x, y, 0);
        }
    }
}

/// The characters at which the rendered variants of an integer provider
/// first differ.
pub open spec fn int_provider_key(p: IntProvider) -> (char, char, char) {
    match p {
        IntProvider::Constant(_) => ('C', 'o', 't'),
        IntProvider::Uniform { .. } => ('U', 'n', ' '),
        IntProvider::BiasedToBottom { .. } => ('B', 'i', 'o'),
        IntProvider::VeryBiasedToBottom { .. } => ('V', 'e', 's'),
        IntProvider::Trapezoid { .. } => ('T', 'r', 'i'),
        IntProvider::ClampedNormal { .. } => ('C', 'l', 'N'),
        IntProvider::Clamped { .. } => ('C', 'l', ' '),
        IntProvider::WeightedList { .. } => ('W', 'e', 'd'),
    }
}

/// A rendered integer provider shows its key at positions 13, 14 and 20.
pub proof fn lemma_int_provider_key(p: IntProvider, x: Seq<char>)
    ensures
        (int_provider_src(p) + x).len() > 20,
        (int_provider_src(p) + x)[13] == int_provider_key(p).0,
        (int_provider_src(p) + x)[14] == int_provider_key(p).1,
        (int_provider_src(p) + x)[20] == int_provider_key(p).2,
{
    match p {
        IntProvider::Constant(_) => reveal_strlit("IntProvider::Constant"),
        IntProvider::Uniform { .. } => {
            reveal_strlit("IntProvider::Uniform");
            reveal_strlit(" { ");
        },
        IntProvider::BiasedToBottom { .. } => reveal_strlit("IntProvider::BiasedToBottom"),
        IntProvider::VeryBiasedToBottom { .. } => reveal_strlit("IntProvider::VeryBiasedToBottom"),
        IntProvider::Trapezoid { .. } => reveal_strlit("IntProvider::Trapezoid"),
        IntProvider::ClampedNormal { .. } => reveal_strlit("IntProvider::ClampedNormal"),
        IntProvider::Clamped { .. } => {
            reveal_strlit("IntProvider::Clamped");
            reveal_strlit(" { ");
        },
        IntProvider::WeightedList { .. } => reveal_strlit("IntProvider::WeightedList { distribution: vec!["),
    }
}

/// A rendered integer provider with well-formed floats, followed by any text, is read back exactly.
#[verifier::spinoff_prover]
#[verifier::rlimit(60)]
pub proof fn lemma_int_provider_prefix_free(a: IntProvider, b: IntProvider, x: Seq<char>, y: Seq<char>)
    requires
        int_provider_wf(a),
        int_provider_wf(b),
        int_provider_src(a) + x == int_provider_src(b) + y,
    ensures
        int_value(a) == int_value(b),
        x == y,
    decreases a,
{
    match (a, b) {
        (IntProvider::Constant(c_a), IntProvider::Constant(c_b)) => {
            lemma_read_call1("IntProvider::Constant"@, i32_literal(c_a), i32_literal(c_b), x, y);
            lemma_i32_literal_prefix_free(c_a, c_b, ")"@ + x, ")"@ + y);
            lemma_cancel(")"@, x, y);
        },
        (
            IntProvider::Uniform { min_inclusive: min_inclusive_a, max_inclusive: max_inclusive_a },
            IntProvider::Uniform { min_inclusive: min_inclusive_b, max_inclusive: max_inclusive_b },
        ) => {
            let fa = seq![
                field("min_inclusive"@, i32_literal(min_inclusive_a)),
                field("max_inclusive"@, i32_literal(max_inclusive_a)),
            ];
            let fb = seq![
                field("min_inclusive"@, i32_literal(min_inclusive_b)),
                field("max_inclusive"@, i32_literal(max_inclusive_b)),
            ];
            lemma_braced2_struct("IntProvider::Uniform"@, fa[0], fa[1]);
            lemma_braced2_struct("IntProvider::Uniform"@, fb[0], fb[1]);
            lemma_read_struct("IntProvider::Uniform"@, fa, fb, x, y);
            let (ta, tb) = (" }"@ + x, " }"@ + y);
            let (ra, rb) = (", "@ + items_from(fa, 1, ta), ", "@ + items_from(fb, 1, tb));
            lemma_read_field("min_inclusive"@, i32_literal(min_inclusive_a), i32_literal(min_inclusive_b), ra, rb);
            lemma_i32_literal_prefix_free(min_inclusive_a, min_inclusive_b, ra, rb);
            lemma_cancel(", "@, items_from(fa, 1, ta), items_from(fb, 1, tb));
            lemma_read_field("max_inclusive"@, i32_literal(max_inclusive_a), i32_literal(max_inclusive_b), ta, tb);
            lemma_i32_literal_prefix_free(max_inclusive_a, max_inclusive_b, ta, tb);
            lemma_cancel(" }"@, x, y);
        },
        (
            IntProvider::BiasedToBottom { min_inclusive: min_inclusive_a, max_inclusive: max_inclusive_a },
            IntProvider::BiasedToBottom { min_inclusive: min_inclusive_b, max_inclusive: max_inclusive_b },
        ) => {
            let fa = seq![
                field("min_inclusive"@, i32_literal(min_inclusive_a)),
                field("max_inclusive"@, i32_literal(max_inclusive_a)),
            ];
            let fb = seq![
                field("min_inclusive"@, i32_literal(min_inclusive_b)),
                field("max_inclusive"@, i32_literal(max_inclusive_b)),
            ];
            lemma_braced2_struct("IntProvider::BiasedToBottom"@, fa[0], fa[1]);
            lemma_braced2_struct("IntProvider::BiasedToBottom"@, fb[0], fb[1]);
            lemma_read_struct("IntProvider::BiasedToBottom"@, fa, fb, x, y);
            let (ta, tb) = (" }"@ + x, " }"@ + y);
            let (ra, rb) = (", "@ + items_from(fa, 1, ta), ", "@ + items_from(fb, 1, tb));
            lemma_read_field("min_inclusive"@, i32_literal(min_inclusive_a), i32_literal(min_inclusive_b), ra, rb);
            lemma_i32_literal_prefix_free(min_inclusive_a, min_inclusive_b, ra, rb);
            lemma_cancel(", "@, items_from(fa, 1, ta), items_from(fb, 1, tb));
            lemma_read_field("max_inclusive"@, i32_literal(max_inclusive_a), i32_literal(max_inclusive_b), ta, tb);
            lemma_i32_literal_prefix_free(max_inclusive_a, max_inclusive_b, ta, tb);
            lemma_cancel(" }"@, x, y);
        },
        (
            IntProvider::VeryBiasedToBottom { min_inclusive: min_inclusive_a, max_inclusive: max_inclusive_a, inner: inner_a },
            IntProvider::VeryBiasedToBottom { min_inclusive: min_inclusive_b, max_inclusive: max_inclusive_b, inner: inner_b },
        ) => {
            let fa = seq![
                field("min_inclusive"@, i32_literal(min_inclusive_a)),
                field("max_inclusive"@, i32_literal(max_inclusive_a)),
                field("inner"@, i32_literal(inner_a)),
            ];
            let fb = seq![
                field("min_inclusive"@, i32_literal(min_inclusive_b)),
                field("max_inclusive"@, i32_literal(max_inclusive_b)),
                field("inner"@, i32_literal(inner_b)),
            ];
            lemma_braced3_struct("IntProvider::VeryBiasedToBottom"@, fa[0], fa[1], fa[2]);
            lemma_braced3_struct("IntProvider::VeryBiasedToBottom"@, fb[0], fb[1], fb[2]);
            lemma_read_struct("IntProvider::VeryBiasedToBottom"@, fa, fb, x, y);
            let (ta, tb) = (" }"@ + x, " }"@ + y);
            let (ra, rb) = (", "@ + items_from(fa, 1, ta), ", "@ + items_from(fb, 1, tb));
            lemma_read_field("min_inclusive"@, i32_literal(min_inclusive_a), i32_literal(min_inclusive_b), ra, rb);
            lemma_i32_literal_prefix_free(min_inclusive_a, min_inclusive_b, ra, rb);
            lemma_cancel(", "@, items_from(fa, 1, ta), items_from(fb, 1, tb));
            let (ra, rb) = (", "@ + items_from(fa, 2, ta), ", "@ + items_from(fb, 2, tb));
            lemma_read_field("max_inclusive"@, i32_literal(max_inclusive_a), i32_literal(max_inclusive_b), ra, rb);
            lemma_i32_literal_prefix_free(max_inclusive_a, max_inclusive_b, ra, rb);
            lemma_cancel(", "@, items_from(fa, 2, ta), items_from(fb, 2, tb));
            lemma_read_field("inner"@, i32_literal(inner_a), i32_literal(inner_b), ta, tb);
            lemma_i32_literal_prefix_free(inner_a, inner_b, ta, tb);
            lemma_cancel(" }"@, x, y);
        },
        (
            IntProvider::Trapezoid { min: min_a, max: max_a, plateau: plateau_a },
            IntProvider::Trapezoid { min: min_b, max: max_b, plateau: plateau_b },
        ) => {
            let fa = seq![
                field("min"@, i32_literal(min_a)),
                field("max"@, i32_literal(max_a)),
                field("plateau"@, i32_literal(plateau_a)),
            ];
            let fb = seq![
                field("min"@, i32_literal(min_b)),
                field("max"@, i32_literal(max_b)),
                field("plateau"@, i32_literal(plateau_b)),
            ];
            lemma_braced3_struct("IntProvider::Trapezoid"@, fa[0], fa[1], fa[2]);
            lemma_braced3_struct("IntProvider::Trapezoid"@, fb[0], fb[1], fb[2]);
            lemma_read_struct("IntProvider::Trapezoid"@, fa, fb, x, y);
            let (ta, tb) = (" }"@ + x, " }"@ + y);
            let (ra, rb) = (", "@ + items_from(fa, 1, ta), ", "@ + items_from(fb, 1, tb));
            lemma_read_field("min"@, i32_literal(min_a), i32_literal(min_b), ra, rb);
            lemma_i32_literal_prefix_free(min_a, min_b, ra, rb);
            lemma_cancel(", "@, items_from(fa, 1, ta), items_from(fb, 1, tb));
            let (ra, rb) = (", "@ + items_from(fa, 2, ta), ", "@ + items_from(fb, 2, tb));
            lemma_read_field("max"@, i32_literal(max_a), i32_literal(max_b), ra, rb);
            lemma_i32_literal_prefix_free(max_a, max_b, ra, rb);
            lemma_cancel(", "@, items_from(fa, 2, ta), items_from(fb, 2, tb));
            lemma_read_field("plateau"@, i32_literal(plateau_a), i32_literal(plateau_b), ta, tb);
            lemma_i32_literal_prefix_free(plateau_a, plateau_b, ta, tb);
            lemma_cancel(" }"@, x, y);
        },
        (
            IntProvider::ClampedNormal { mean: mean_a, deviation: deviation_a, min_inclusive: min_inclusive_a, max_inclusive: max_inclusive_a },
            IntProvider::ClampedNormal { mean: mean_b, deviation: deviation_b, min_inclusive: min_inclusive_b, max_inclusive: max_inclusive_b },
        ) => {
            let fa = seq![
                field("mean"@, mean_a.text@),
                field("deviation"@, deviation_a.text@),
                field("min_inclusive"@, i32_literal(min_inclusive_a)),
                field("max_inclusive"@, i32_literal(max_inclusive_a)),
            ];
            let fb = seq![
                field("mean"@, mean_b.text@),
                field("deviation"@, deviation_b.text@),
                field("min_inclusive"@, i32_literal(min_inclusive_b)),
                field("max_inclusive"@, i32_literal(max_inclusive_b)),
            ];
            lemma_braced4_struct("IntProvider::ClampedNormal"@, fa[0], fa[1], fa[2], fa[3]);
            lemma_braced4_struct("IntProvider::ClampedNormal"@, fb[0], fb[1], fb[2], fb[3]);
            lemma_read_struct("IntProvider::ClampedNormal"@, fa, fb, x, y);
            let (ta, tb) = (" }"@ + x, " }"@ + y);
            let (ra, rb) = (", "@ + items_from(fa, 1, ta), ", "@ + items_from(fb, 1, tb));
            lemma_read_field("mean"@, mean_a.text@, mean_b.text@, ra, rb);
            lemma_float_text_prefix_free(mean_a.text@, mean_b.text@, ra, rb);
            lemma_cancel(", "@, items_from(fa, 1, ta), items_from(fb, 1, tb));
            let (ra, rb) = (", "@ + items_from(fa, 2, ta), ", "@ + items_from(fb, 2, tb));
            lemma_read_field("deviation"@, deviation_a.text@, deviation_b.text@, ra, rb);
            lemma_float_text_prefix_free(deviation_a.text@, deviation_b.text@, ra, rb);
            lemma_cancel(", "@, items_from(fa, 2, ta), items_from(fb, 2, tb));
            let (ra, rb) = (", "@ + items_from(fa, 3, ta), ", "@ + items_from(fb, 3, tb));
            lemma_read_field("min_inclusive"@, i32_literal(min_inclusive_a), i32_literal(min_inclusive_b), ra, rb);
            lemma_i32_literal_prefix_free(min_inclusive_a, min_inclusive_b, ra, rb);
            lemma_cancel(", "@, items_from(fa, 3, ta), items_from(fb, 3, tb));
            lemma_read_field("max_inclusive"@, i32_literal(max_inclusive_a), i32_literal(max_inclusive_b), ta, tb);
            lemma_i32_literal_prefix_free(max_inclusive_a, max_inclusive_b, ta, tb);
            lemma_cancel(" }"@, x, y);
        },
        (
            IntProvider::Clamped { source: source_a, min_inclusive: min_inclusive_a, max_inclusive: max_inclusive_a },
            IntProvider::Clamped { source: source_b, min_inclusive: min_inclusive_b, max_inclusive: max_inclusive_b },
        ) => {
            let fa = seq![
                field("source"@, call1("Box::new"@, int_provider_src(*source_a))),
                field("min_inclusive"@, i32_literal(min_inclusive_a)),
                field("max_inclusive"@, i32_literal(max_inclusive_a)),
            ];
            let fb = seq![
                field("source"@, call1("Box::new"@, int_provider_src(*source_b))),
                field("min_inclusive"@, i32_literal(min_inclusive_b)),
                field("max_inclusive"@, i32_literal(max_inclusive_b)),
            ];
            lemma_braced3_struct("IntProvider::Clamped"@, fa[0], fa[1], fa[2]);
            lemma_braced3_struct("IntProvider::Clamped"@, fb[0], fb[1], fb[2]);
            lemma_read_struct("IntProvider::Clamped"@, fa, fb, x, y);
            let (ta, tb) = (" }"@ + x, " }"@ + y);
            let (ra, rb) = (", "@ + items_from(fa, 1, ta), ", "@ + items_from(fb, 1, tb));
            lemma_read_field("source"@, call1("Box::new"@, int_provider_src(*source_a)), call1("Box::new"@, int_provider_src(*source_b)), ra, rb);
            lemma_read_call1("Box::new"@, int_provider_src(*source_a), int_provider_src(*source_b), ra, rb);
            lemma_int_provider_prefix_free(*source_a, *source_b, ")"@ + ra, ")"@ + rb);
            lemma_cancel(")"@, ra, rb);
            lemma_cancel(", "@, items_from(fa, 1, ta), items_from(fb, 1, tb));
            let (ra, rb) = (", "@ + items_from(fa, 2, ta), ", "@ + items_from(fb, 2, tb));
            lemma_read_field("min_inclusive"@, i32_literal(min_inclusive_a), i32_literal(min_inclusive_b), ra, rb);
            lemma_i32_literal_prefix_free(min_inclusive_a, min_inclusive_b, ra, rb);
            lemma_cancel(", "@, items_from(fa, 2, ta), items_from(fb, 2, tb));
            lemma_read_field("max_inclusive"@, i32_literal(max_inclusive_a), i32_literal(max_inclusive_b), ta, tb);
            lemma_i32_literal_prefix_free(max_inclusive_a, max_inclusive_b, ta, tb);
            lemma_cancel(" }"@, x, y);
        },
        (
            IntProvider::WeightedList { distribution: distribution_a },
            IntProvider::WeightedList { distribution: distribution_b },
        ) => {
            let open = "IntProvider::WeightedList { distribution: vec!["@;
            assert(int_provider_src(a) + x =~= open + (weighted_entries_src(distribution_a@) + ("] }"@ + x)));
            assert(int_provider_src(b) + y =~= open + (weighted_entries_src(distribution_b@) + ("] }"@ + y)));
            lemma_cancel(open, weighted_entries_src(distribution_a@) + ("] }"@ + x), weighted_entries_src(distribution_b@) + ("] }"@ + y));
            assert(("] }"@ + x).len() > 0 && ("] }"@ + x)[0] == ']' && ("] }"@ + y).len() > 0 && ("] }"@ + y)[0] == ']') by {
                reveal_strlit("] }");
            }
            lemma_weighted_entries_prefix_free(distribution_a@, distribution_b@, "] }"@ + x, "] }"@ + y);
            lemma_cancel("] }"@, x, y);
        },
        _ => {
            lemma_int_provider_key(a, x);
            lemma_int_provider_key(b, y);
        },
    }
}

/// A rendered weighted choice with well-formed floats, followed by any text, is read back exactly.
#[verifier::spinoff_prover]
#[verifier::rlimit(40)]
pub proof fn lemma_weighted_entry_prefix_free(a: WeightedIntProvider, b: WeightedIntProvider, x: Seq<char>, y: Seq<char>)
    requires
        int_provider_wf(a.data),
        int_provider_wf(b.data),
        weighted_entry_src(a) + x == weighted_entry_src(b) + y,
    ensures
        weighted_value(a) == weighted_value(b),
        x == y,
    decreases a,
{
    let fa = seq![
        field("data"@, int_provider_src(a.data)),
        field("weight"@, i32_literal(a.weight)),
    ];
    let fb = seq![
        field("data"@, int_provider_src(b.data)),
        field("weight"@, i32_literal(b.weight)),
    ];
    lemma_braced2_struct("steel_utils::value_providers::WeightedIntProvider"@, fa[0], fa[1]);
    lemma_braced2_struct("steel_utils::value_providers::WeightedIntProvider"@, fb[0], fb[1]);
    lemma_read_struct("steel_utils::value_providers::WeightedIntProvider"@, fa, fb, x, y);
    let (ta, tb) = (" }"@ + x, " }"@ + y);
    let (ra, rb) = (", "@ + items_from(fa, 1, ta), ", "@ + items_from(fb, 1, tb));
    lemma_read_field("data"@, int_provider_src(a.data), int_provider_src(b.data), ra, rb);
    lemma_int_provider_prefix_free(a.data, b.data, ra, rb);
    lemma_cancel(", "@, items_from(fa, 1, ta), items_from(fb, 1, tb));
    lemma_read_field("weight"@, i32_literal(a.weight), i32_literal(b.weight), ta, tb);
    lemma_i32_literal_prefix_free(a.weight, b.weight, ta, tb);
    lemma_cancel(" }"@, x, y);
}

/// What a cave carver holds, each float taken by the text of its literal.
pub struct CaveValue {
    pub probability: Seq<char>,
    pub y: HeightProvider,
    pub count: IntProviderValue,
    pub thickness: FloatProviderValue,
    pub weird_thickness_bias: bool,
    pub room_vertical_radius_multiplier: FloatProviderValue,
    pub horizontal_radius_multiplier: FloatProviderValue,
    pub vertical_radius_multiplier: FloatProviderValue,
    pub start_vertical_radius_multiplier: FloatProviderValue,
    pub floor_level: FloatProviderValue,
}

/// The ten settings of a cave carver.
pub open spec fn cave_value(c: CaveJson) -> CaveValue {
    CaveValue {
        probability: c.probability.text@,
        y: c.y,
        count: int_value(c.count),
        thickness: float_value(c.thickness),
        weird_thickness_bias: c.weird_thickness_bias,
        room_vertical_radius_multiplier: float_value(c.room_vertical_radius_multiplier),
        horizontal_radius_multiplier: float_value(c.horizontal_radius_multiplier),
        vertical_radius_multiplier: float_value(c.vertical_radius_multiplier),
        start_vertical_radius_multiplier: float_value(c.start_vertical_radius_multiplier),
        floor_level: float_value(c.floor_level),
    }
}

/// What the shape of a canyon carver holds, each float taken by the text of
/// its literal.
pub struct CanyonShapeValue {
    pub distance_factor: FloatProviderValue,
    pub thickness: FloatProviderValue,
    pub width_smoothness: i32,
    pub horizontal_radius_factor: FloatProviderValue,
    pub vertical_radius_default_factor: Seq<char>,
    pub vertical_radius_center_factor: Seq<char>,
    pub y_scale: FloatProviderValue,
}

/// The seven settings of a canyon shape.
pub open spec fn shape_value(s: CanyonShapeJson) -> CanyonShapeValue {
    CanyonShapeValue {
        distance_factor: float_value(s.distance_factor),
        thickness: float_value(s.thickness),
        width_smoothness: s.width_smoothness,
        horizontal_radius_factor: float_value(s.horizontal_radius_factor),
        vertical_radius_default_factor: s.vertical_radius_default_factor.text@,
        vertical_radius_center_factor: s.vertical_radius_center_factor.text@,
        y_scale: float_value(s.y_scale),
    }
}

/// What a canyon carver holds, each float taken by the text of its literal.
pub struct CanyonValue {
    pub probability: Seq<char>,
    pub y: HeightProvider,
    pub vertical_rotation: FloatProviderValue,
    pub shape: CanyonShapeValue,
}

/// The settings of a canyon carver, its shape included.
pub open spec fn canyon_value(c: CanyonJson) -> CanyonValue {
    CanyonValue {
        probability: c.probability.text@,
        y: c.y,
        vertical_rotation: float_value(c.vertical_rotation),
        shape: shape_value(c.shape),
    }
}

/// A rendered cave carver with well-formed floats, followed by any text, is read back exactly.
#[verifier::spinoff_prover]
#[verifier::rlimit(40)]
pub proof fn lemma_cave_kind_prefix_free(a: CaveJson, b: CaveJson, x: Seq<char>, y: Seq<char>)
    requires
        cave_wf(a),
        cave_wf(b),
        cave_kind_src(a) + x == cave_kind_src(b) + y,
    ensures
        cave_value(a) == cave_value(b),
        x == y,
{
    let fa = seq![
        field("probability"@, a.probability.text@),
        field("y"@, height_provider_src(a.y)),
        field("count"@, int_provider_src(a.count)),
        field("thickness"@, float_provider_src(a.thickness)),
        field("weird_thickness_bias"@, bool_literal(a.weird_thickness_bias)),
        field("room_vertical_radius_multiplier"@, float_provider_src(a.room_vertical_radius_multiplier)),
        field("horizontal_radius_multiplier"@, float_provider_src(a.horizontal_radius_multiplier)),
        field("vertical_radius_multiplier"@, float_provider_src(a.vertical_radius_multiplier)),
        field("start_vertical_radius_multiplier"@, float_provider_src(a.start_vertical_radius_multiplier)),
        field("floor_level"@, float_provider_src(a.floor_level)),
    ];
    let fb = seq![
        field("probability"@, b.probability.text@),
        field("y"@, height_provider_src(b.y)),
        field("count"@, int_provider_src(b.count)),
        field("thickness"@, float_provider_src(b.thickness)),
        field("weird_thickness_bias"@, bool_literal(b.weird_thickness_bias)),
        field("room_vertical_radius_multiplier"@, float_provider_src(b.room_vertical_radius_multiplier)),
        field("horizontal_radius_multiplier"@, float_provider_src(b.horizontal_radius_multiplier)),
        field("vertical_radius_multiplier"@, float_provider_src(b.vertical_radius_multiplier)),
        field("start_vertical_radius_multiplier"@, float_provider_src(b.start_vertical_radius_multiplier)),
        field("floor_level"@, float_provider_src(b.floor_level)),
    ];
    lemma_read_call1("WorldCarverKind::Cave"@, struct_expr("CaveWorldCarver"@, fa), struct_expr("CaveWorldCarver"@, fb), x, y);
    lemma_read_struct("CaveWorldCarver"@, fa, fb, ")"@ + x, ")"@ + y);
    let (ta, tb) = (" }"@ + (")"@ + x), " }"@ + (")"@ + y));
    let (ra, rb) = (", "@ + items_from(fa, 1, ta), ", "@ + items_from(fb, 1, tb));
    lemma_read_field("probability"@, a.probability.text@, b.probability.text@, ra, rb);
    lemma_float_text_prefix_free(a.probability.text@, b.probability.text@, ra, rb);
    lemma_cancel(", "@, items_from(fa, 1, ta), items_from(fb, 1, tb));
    let (ra, rb) = (", "@ + items_from(fa, 2, ta), ", "@ + items_from(fb, 2, tb));
    lemma_read_field("y"@, height_provider_src(a.y), height_provider_src(b.y), ra, rb);
    lemma_height_provider_prefix_free(a.y, b.y, ra, rb);
    lemma_cancel(", "@, items_from(fa, 2, ta), items_from(fb, 2, tb));
    let (ra, rb) = (", "@ + items_from(fa, 3, ta), ", "@ + items_from(fb, 3, tb));
    lemma_read_field("count"@, int_provider_src(a.count), int_provider_src(b.count), ra, rb);
    lemma_int_provider_prefix_free(a.count, b.count, ra, rb);
    lemma_cancel(", "@, items_from(fa, 3, ta), items_from(fb, 3, tb));
    let (ra, rb) = (", "@ + items_from(fa, 4, ta), ", "@ + items_from(fb, 4, tb));
    lemma_read_field("thickness"@, float_provider_src(a.thickness), float_provider_src(b.thickness), ra, rb);
    lemma_float_provider_prefix_free(a.thickness, b.thickness, ra, rb);
    lemma_cancel(", "@, items_from(fa, 4, ta), items_from(fb, 4, tb));
    let (ra, rb) = (", "@ + items_from(fa, 5, ta), ", "@ + items_from(fb, 5, tb));
    lemma_read_field("weird_thickness_bias"@, bool_literal(a.weird_thickness_bias), bool_literal(b.weird_thickness_bias), ra, rb);
    lemma_bool_prefix_free(a.weird_thickness_bias, b.weird_thickness_bias, ra, rb);
    lemma_cancel(", "@, items_from(fa, 5, ta), items_from(fb, 5, tb));
    let (ra, rb) = (", "@ + items_from(fa, 6, ta), ", "@ + items_from(fb, 6, tb));
    lemma_read_field("room_vertical_radius_multiplier"@, float_provider_src(a.room_vertical_radius_multiplier), float_provider_src(b.room_vertical_radius_multiplier), ra, rb);
    lemma_float_provider_prefix_free(a.room_vertical_radius_multiplier, b.room_vertical_radius_multiplier, ra, rb);
    lemma_cancel(", "@, items_from(fa, 6, ta), items_from(fb, 6, tb));
    let (ra, rb) = (", "@ + items_from(fa, 7, ta), ", "@ + items_from(fb, 7, tb));
    lemma_read_field("horizontal_radius_multiplier"@, float_provider_src(a.horizontal_radius_multiplier), float_provider_src(b.horizontal_radius_multiplier), ra, rb);
    lemma_float_provider_prefix_free(a.horizontal_radius_multiplier, b.horizontal_radius_multiplier, ra, rb);
    lemma_cancel(", "@, items_from(fa, 7, ta), items_from(fb, 7, tb));
    let (ra, rb) = (", "@ + items_from(fa, 8, ta), ", "@ + items_from(fb, 8, tb));
    lemma_read_field("vertical_radius_multiplier"@, float_provider_src(a.vertical_radius_multiplier), float_provider_src(b.vertical_radius_multiplier), ra, rb);
    lemma_float_provider_prefix_free(a.vertical_radius_multiplier, b.vertical_radius_multiplier, ra, rb);
    lemma_cancel(", "@, items_from(fa, 8, ta), items_from(fb, 8, tb));
    let (ra, rb) = (", "@ + items_from(fa, 9, ta), ", "@ + items_from(fb, 9, tb));
    lemma_read_field("start_vertical_radius_multiplier"@, float_provider_src(a.start_vertical_radius_multiplier), float_provider_src(b.start_vertical_radius_multiplier), ra, rb);
    lemma_float_provider_prefix_free(a.start_vertical_radius_multiplier, b.start_vertical_radius_multiplier, ra, rb);
    lemma_cancel(", "@, items_from(fa, 9, ta), items_from(fb, 9, tb));
    lemma_read_field("floor_level"@, float_provider_src(a.floor_level), float_provider_src(b.floor_level), ta, tb);
    lemma_float_provider_prefix_free(a.floor_level, b.floor_level, ta, tb);
    lemma_cancel(" }"@, ")"@ + x, ")"@ + y);
    lemma_cancel(")"@, x, y);
}

/// A rendered canyon shape with well-formed floats, followed by any text, is read back exactly.
#[verifier::spinoff_prover]
#[verifier::rlimit(40)]
pub proof fn lemma_canyon_shape_prefix_free(a: CanyonShapeJson, b: CanyonShapeJson, x: Seq<char>, y: Seq<char>)
    requires
        shape_wf(a),
        shape_wf(b),
        canyon_shape_src(a) + x == canyon_shape_src(b) + y,
    ensures
        shape_value(a) == shape_value(b),
        x == y,
{
    let fa = seq![
        field("distance_factor"@, float_provider_src(a.distance_factor)),
        field("thickness"@, float_provider_src(a.thickness)),
        field("width_smoothness"@, i32_literal(a.width_smoothness)),
        field("horizontal_radius_factor"@, float_provider_src(a.horizontal_radius_factor)),
        field("vertical_radius_default_factor"@, a.vertical_radius_default_factor.text@),
        field("vertical_radius_center_factor"@, a.vertical_radius_center_factor.text@),
        field("y_scale"@, float_provider_src(a.y_scale)),
    ];
    let fb = seq![
        field("distance_factor"@, float_provider_src(b.distance_factor)),
        field("thickness"@, float_provider_src(b.thickness)),
        field("width_smoothness"@, i32_literal(b.width_smoothness)),
        field("horizontal_radius_factor"@, float_provider_src(b.horizontal_radius_factor)),
        field("vertical_radius_default_factor"@, b.vertical_radius_default_factor.text@),
        field("vertical_radius_center_factor"@, b.vertical_radius_center_factor.text@),
        field("y_scale"@, float_provider_src(b.y_scale)),
    ];
    lemma_read_struct("CanyonShape"@, fa, fb, x, y);
    let (ta, tb) = (" }"@ + x, " }"@ + y);
    let (ra, rb) = (", "@ + items_from(fa, 1, ta), ", "@ + items_from(fb, 1, tb));
    lemma_read_field("distance_factor"@, float_provider_src(a.distance_factor), float_provider_src(b.distance_factor), ra, rb);
    lemma_float_provider_prefix_free(a.distance_factor, b.distance_factor, ra, rb);
    lemma_cancel(", "@, items_from(fa, 1, ta), items_from(fb, 1, tb));
    let (ra, rb) = (", "@ + items_from(fa, 2, ta), ", "@ + items_from(fb, 2, tb));
    lemma_read_field("thickness"@, float_provider_src(a.thickness), float_provider_src(b.thickness), ra, rb);
    lemma_float_provider_prefix_free(a.thickness, b.thickness, ra, rb);
    lemma_cancel(", "@, items_from(fa, 2, ta), items_from(fb, 2, tb));
    let (ra, rb) = (", "@ + items_from(fa, 3, ta), ", "@ + items_from(fb, 3, tb));
    lemma_read_field("width_smoothness"@, i32_literal(a.width_smoothness), i32_literal(b.width_smoothness), ra, rb);
    lemma_i32_literal_prefix_free(a.width_smoothness, b.width_smoothness, ra, rb);
    lemma_cancel(", "@, items_from(fa, 3, ta), items_from(fb, 3, tb));
    let (ra, rb) = (", "@ + items_from(fa, 4, ta), ", "@ + items_from(fb, 4, tb));
    lemma_read_field("horizontal_radius_factor"@, float_provider_src(a.horizontal_radius_factor), float_provider_src(b.horizontal_radius_factor), ra, rb);
    lemma_float_provider_prefix_free(a.horizontal_radius_factor, b.horizontal_radius_factor, ra, rb);
    lemma_cancel(", "@, items_from(fa, 4, ta), items_from(fb, 4, tb));
    let (ra, rb) = (", "@ + items_from(fa, 5, ta), ", "@ + items_from(fb, 5, tb));
    lemma_read_field("vertical_radius_default_factor"@, a.vertical_radius_default_factor.text@, b.vertical_radius_default_factor.text@, ra, rb);
    lemma_float_text_prefix_free(a.vertical_radius_default_factor.text@, b.vertical_radius_default_factor.text@, ra, rb);
    lemma_cancel(", "@, items_from(fa, 5, ta), items_from(fb, 5, tb));
    let (ra, rb) = (", "@ + items_from(fa, 6, ta), ", "@ + items_from(fb, 6, tb));
    lemma_read_field("vertical_radius_center_factor"@, a.vertical_radius_center_factor.text@, b.vertical_radius_center_factor.text@, ra, rb);
    lemma_float_text_prefix_free(a.vertical_radius_center_factor.text@, b.vertical_radius_center_factor.text@, ra, rb);
    lemma_cancel(", "@, items_from(fa, 6, ta), items_from(fb, 6, tb));
    lemma_read_field("y_scale"@, float_provider_src(a.y_scale), float_provider_src(b.y_scale), ta, tb);
    lemma_float_provider_prefix_free(a.y_scale, b.y_scale, ta, tb);
    lemma_cancel(" }"@, x, y);
}

/// A rendered canyon carver with well-formed floats, followed by any text, is read back exactly.
#[verifier::spinoff_prover]
#[verifier::rlimit(40)]
pub proof fn lemma_canyon_kind_prefix_free(a: CanyonJson, b: CanyonJson, x: Seq<char>, y: Seq<char>)
    requires
        canyon_wf(a),
        canyon_wf(b),
        canyon_kind_src(a) + x == canyon_kind_src(b) + y,
    ensures
        canyon_value(a) == canyon_value(b),
        x == y,
{
    let fa = seq![
        field("probability"@, a.probability.text@),
        field("y"@, height_provider_src(a.y)),
        field("vertical_rotation"@, float_provider_src(a.vertical_rotation)),
        field("shape"@, canyon_shape_src(a.shape)),
    ];
    let fb = seq![
        field("probability"@, b.probability.text@),
        field("y"@, height_provider_src(b.y)),
        field("vertical_rotation"@, float_provider_src(b.vertical_rotation)),
        field("shape"@, canyon_shape_src(b.shape)),
    ];
    lemma_read_call1("WorldCarverKind::Canyon"@, struct_expr("CanyonWorldCarver"@, fa), struct_expr("CanyonWorldCarver"@, fb), x, y);
    lemma_read_struct("CanyonWorldCarver"@, fa, fb, ")"@ + x, ")"@ + y);
    let (ta, tb) = (" }"@ + (")"@ + x), " }"@ + (")"@ + y));
    let (ra, rb) = (", "@ + items_from(fa, 1, ta), ", "@ + items_from(fb, 1, tb));
    lemma_read_field("probability"@, a.probability.text@, b.probability.text@, ra, rb);
    lemma_float_text_prefix_free(a.probability.text@, b.probability.text@, ra, rb);
    lemma_cancel(", "@, items_from(fa, 1, ta), items_from(fb, 1, tb));
    let (ra, rb) = (", "@ + items_from(fa, 2, ta), ", "@ + items_from(fb, 2, tb));
    lemma_read_field("y"@, height_provider_src(a.y), height_provider_src(b.y), ra, rb);
    lemma_height_provider_prefix_free(a.y, b.y, ra, rb);
    lemma_cancel(", "@, items_from(fa, 2, ta), items_from(fb, 2, tb));
    let (ra, rb) = (", "@ + items_from(fa, 3, ta), ", "@ + items_from(fb, 3, tb));
    lemma_read_field("vertical_rotation"@, float_provider_src(a.vertical_rotation), float_provider_src(b.vertical_rotation), ra, rb);
    lemma_float_provider_prefix_free(a.vertical_rotation, b.vertical_rotation, ra, rb);
    lemma_cancel(", "@, items_from(fa, 3, ta), items_from(fb, 3, tb));
    lemma_read_field("shape"@, canyon_shape_src(a.shape), canyon_shape_src(b.shape), ta, tb);
    lemma_canyon_shape_prefix_free(a.shape, b.shape, ta, tb);
    lemma_cancel(" }"@, ")"@ + x, ")"@ + y);
    lemma_cancel(")"@, x, y);
}

/// The text that rebuilds a vertical anchor determines the anchor: two
/// anchors with the same expression text are the same anchor, so reading
/// the expression gives back the anchor it was made from.
pub proof fn law_vertical_anchor_text_determines_value(a: VerticalAnchor, b: VerticalAnchor)
    requires
        vertical_anchor_src(a) == vertical_anchor_src(b),
    ensures
        a == b,
{
    let e = Seq::<char>::empty();
    assert(vertical_anchor_src(a) + e =~= vertical_anchor_src(a));
    assert(vertical_anchor_src(b) + e =~= vertical_anchor_src(b));
    lemma_vertical_anchor_prefix_free(a, b, e, e);
}

/// The text that rebuilds a height provider determines it: the same
/// variant, with the same bounds (not swapped) and the same plateau or inner
/// value.
pub proof fn law_height_provider_text_determines_value(a: HeightProvider, b: HeightProvider)
    requires
        height_provider_src(a) == height_provider_src(b),
    ensures
        a == b,
{
    let e = Seq::<char>::empty();
    assert(height_provider_src(a) + e =~= height_provider_src(a));
    assert(height_provider_src(b) + e =~= height_provider_src(b));
    lemma_height_provider_prefix_free(a, b, e, e);
}

/// The text that rebuilds a float provider whose floats are literals of
/// finite floats determines it: the same variant, and each float with the
/// same literal in the same field.
pub proof fn law_float_provider_text_determines_value(a: FloatProvider, b: FloatProvider)
    requires
        float_provider_wf(a),
        float_provider_wf(b),
        float_provider_src(a) == float_provider_src(b),
    ensures
        float_value(a) == float_value(b),
{
    let e = Seq::<char>::empty();
    assert(float_provider_src(a) + e =~= float_provider_src(a));
    assert(float_provider_src(b) + e =~= float_provider_src(b));
    lemma_float_provider_prefix_free(a, b, e, e);
}


/// The text that rebuilds an integer provider whose floats are literals of
/// finite floats determines it, at every depth: the same variant, the same
/// numbers in the same fields, a clamped provider's source and bounds, and a
/// weighted list's choices with their order, data and weights.
pub proof fn law_int_provider_text_determines_value(a: IntProvider, b: IntProvider)
    requires
        int_provider_wf(a),
        int_provider_wf(b),
        int_provider_src(a) == int_provider_src(b),
    ensures
        int_value(a) == int_value(b),
{
    let e = Seq::<char>::empty();
    assert(int_provider_src(a) + e =~= int_provider_src(a));
    assert(int_provider_src(b) + e =~= int_provider_src(b));
    lemma_int_provider_prefix_free(a, b, e, e);
}


/// The text that rebuilds the kind of a cave carver whose floats are
/// literals of finite floats determines its ten settings, each in its own
/// field.
pub proof fn law_cave_kind_text_determines_value(a: CaveJson, b: CaveJson)
    requires
        cave_wf(a),
        cave_wf(b),
        cave_kind_src(a) == cave_kind_src(b),
    ensures
        cave_value(a) == cave_value(b),
{
    let e = Seq::<char>::empty();
    assert(cave_kind_src(a) + e =~= cave_kind_src(a));
    assert(cave_kind_src(b) + e =~= cave_kind_src(b));
    lemma_cave_kind_prefix_free(a, b, e, e);
}

/// The text that rebuilds the kind of a canyon carver whose floats are
/// literals of finite floats determines its settings, each in its own
/// field, those of its shape included.
pub proof fn law_canyon_kind_text_determines_value(a: CanyonJson, b: CanyonJson)
    requires
        canyon_wf(a),
        canyon_wf(b),
        canyon_kind_src(a) == canyon_kind_src(b),
    ensures
        canyon_value(a) == canyon_value(b),
{
    let e = Seq::<char>::empty();
    assert(canyon_kind_src(a) + e =~= canyon_kind_src(a));
    assert(canyon_kind_src(b) + e =~= canyon_kind_src(b));
    lemma_canyon_kind_prefix_free(a, b, e, e);
}


/// `t` shows the field `name: value` whole: the name follows a space (so it
/// is not the tail of a longer name), and the value is followed by `,` or a
/// space (so it is not the head of a longer value), as in `{ name: value, ..`
/// or `.., name: value }`.
pub open spec fn shows_field(t: Seq<char>, name: Seq<char>, value: Seq<char>) -> bool {
    exists|p: Seq<char>, s: Seq<char>|
        #![trigger p + (" "@ + (name + (": "@ + (value + s))))]
        t == p + (" "@ + (name + (": "@ + (value + s)))) && s.len() > 0 && (s[0] == ',' || s[0] == ' ')
}

/// `t` holds `part` somewhere.
pub open spec fn shows(t: Seq<char>, part: Seq<char>) -> bool {
    exists|p: Seq<char>, s: Seq<char>| #![trigger p + (part + s)] t == p + (part + s)
}

/// The fields `fs[..k]`, each after a space and before a `,`.
pub open spec fn items_mid(fs: Seq<Seq<char>>, k: int) -> Seq<char>
    decreases k,
{
    if k <= 0 {
        Seq::empty()
    } else {
        items_mid(fs, k - 1) + (" "@ + fs[k - 1] + ","@)
    }
}

/// The fields before `fs[k]` split off the front of the written fields.
pub proof fn lemma_items_mid(fs: Seq<Seq<char>>, k: int, tail: Seq<char>)
    requires
        0 <= k < fs.len(),
    ensures
        " "@ + items_from(fs, 0, tail) == items_mid(fs, k) + (" "@ + items_from(fs, k, tail)),
    decreases k,
{
    if k > 0 {
        lemma_items_mid(fs, k - 1, tail);
        reveal_strlit(", ");
        reveal_strlit(",");
        reveal_strlit(" ");
        let rest = items_from(fs, k, tail);
        assert(items_from(fs, k - 1, tail) == fs[k - 1] + (", "@ + rest));
        assert(" "@ + (fs[k - 1] + (", "@ + rest)) =~= (" "@ + fs[k - 1] + ","@) + (" "@ + rest));
        assert(items_mid(fs, k - 1) + (" "@ + items_from(fs, k - 1, tail)) =~= items_mid(fs, k) + (" "@ + rest));
    } else {
        assert(items_mid(fs, 0) + (" "@ + items_from(fs, 0, tail)) =~= " "@ + items_from(fs, 0, tail));
    }
}

/// A struct expression, inside any text, shows each of its fields whole.
#[verifier::spinoff_prover]
#[verifier::rlimit(40)]
pub proof fn lemma_struct_shows_field(
    pre: Seq<char>,
    path: Seq<char>,
    fs: Seq<Seq<char>>,
    k: int,
    name: Seq<char>,
    value: Seq<char>,
    post: Seq<char>,
)
    requires
        0 <= k < fs.len(),
        fs[k] == field(name, value),
    ensures
        shows_field(pre + struct_expr(path, fs) + post, name, value),
        shows(pre + struct_expr(path, fs) + post, fs[k]),
{
    reveal_strlit(" { ");
    reveal_strlit(" {");
    reveal_strlit(" ");
    reveal_strlit(", ");
    reveal_strlit(" }");
    let t = " }"@ + post;
    lemma_comma_separated_items(fs, t);
    lemma_items_mid(fs, k, t);
    let whole = pre + struct_expr(path, fs) + post;
    assert(whole =~= (pre + path + " {"@) + (" "@ + (comma_separated(fs) + t)));
    let p = pre + path + " {"@ + items_mid(fs, k);
    let s = if k < fs.len() - 1 { ", "@ + items_from(fs, k + 1, t) } else { t };
    assert(items_from(fs, k, t) == fs[k] + s);
    assert(whole =~= p + (" "@ + (name + (": "@ + (value + s)))));
    assert(whole =~= (p + " "@) + (fs[k] + s));
    assert(s[0] == ',' || s[0] == ' ');
}

/// A field shown by a part of a text is shown by the text.
pub proof fn lemma_shows_nested(t: Seq<char>, head: Seq<char>, inner: Seq<char>, name: Seq<char>, value: Seq<char>)
    requires
        shows(t, head + inner),
        shows_field(inner, name, value),
    ensures
        shows_field(t, name, value),
{
    let (b, a) = choose|b: Seq<char>, a: Seq<char>| #![trigger b + ((head + inner) + a)] t == b + ((head + inner) + a);
    assert(t =~= (b + head) + inner + a);
    lemma_shows_field_within(inner, b + head, a, name, value);
}

/// What a text shows, a text around it shows too.
pub proof fn lemma_shows_field_within(t: Seq<char>, pre: Seq<char>, post: Seq<char>, name: Seq<char>, value: Seq<char>)
    requires
        shows_field(t, name, value),
    ensures
        shows_field(pre + t + post, name, value),
{
    let (p, s) = choose|p: Seq<char>, s: Seq<char>|
        #![trigger p + (" "@ + (name + (": "@ + (value + s))))]
        t == p + (" "@ + (name + (": "@ + (value + s)))) && s.len() > 0 && (s[0] == ',' || s[0] == ' ');
    assert(pre + t + post =~= (pre + p) + (" "@ + (name + (": "@ + (value + (s + post))))));
    assert((s + post)[0] == s[0]);
}

/// The fields of a cave carver, each shown under its own name with the
/// expression of the data field of that name.
pub open spec fn cave_fields_shown(t: Seq<char>, c: CaveJson) -> bool {
    &&& shows_field(t, "probability"@, c.probability.text@)
    &&& shows_field(t, "y"@, height_provider_src(c.y))
    &&& shows_field(t, "count"@, int_provider_src(c.count))
    &&& shows_field(t, "thickness"@, float_provider_src(c.thickness))
    &&& shows_field(t, "weird_thickness_bias"@, bool_literal(c.weird_thickness_bias))
    &&& shows_field(t, "room_vertical_radius_multiplier"@, float_provider_src(c.room_vertical_radius_multiplier))
    &&& shows_field(t, "horizontal_radius_multiplier"@, float_provider_src(c.horizontal_radius_multiplier))
    &&& shows_field(t, "vertical_radius_multiplier"@, float_provider_src(c.vertical_radius_multiplier))
    &&& shows_field(t, "start_vertical_radius_multiplier"@, float_provider_src(c.start_vertical_radius_multiplier))
    &&& shows_field(t, "floor_level"@, float_provider_src(c.floor_level))
}

/// The fields of a canyon shape, each shown under its own name with the
/// expression of the data field of that name.
pub open spec fn shape_fields_shown(t: Seq<char>, s: CanyonShapeJson) -> bool {
    &&& shows_field(t, "distance_factor"@, float_provider_src(s.distance_factor))
    &&& shows_field(t, "thickness"@, float_provider_src(s.thickness))
    &&& shows_field(t, "width_smoothness"@, i32_literal(s.width_smoothness))
    &&& shows_field(t, "horizontal_radius_factor"@, float_provider_src(s.horizontal_radius_factor))
    &&& shows_field(t, "vertical_radius_default_factor"@, s.vertical_radius_default_factor.text@)
    &&& shows_field(t, "vertical_radius_center_factor"@, s.vertical_radius_center_factor.text@)
    &&& shows_field(t, "y_scale"@, float_provider_src(s.y_scale))
}

/// The fields of a canyon carver, its shape's included, each shown under
/// its own name with the expression of the data field of that name.
pub open spec fn canyon_fields_shown(t: Seq<char>, c: CanyonJson) -> bool {
    &&& shows_field(t, "probability"@, c.probability.text@)
    &&& shows_field(t, "y"@, height_provider_src(c.y))
    &&& shows_field(t, "vertical_rotation"@, float_provider_src(c.vertical_rotation))
    &&& shows_field(t, "shape"@, canyon_shape_src(c.shape))
    &&& shape_fields_shown(t, c.shape)
}

/// Each setting of a cave carver is rendered under the field of its own
/// name: the kind text shows `name: ` followed by the expression of the
/// data field `name`, for all ten settings.
#[verifier::spinoff_prover]
#[verifier::rlimit(40)]
pub proof fn law_cave_kind_shows_each_field(c: CaveJson)
    ensures
        cave_fields_shown(cave_kind_src(c), c),
{
    let fs = seq![
        field("probability"@, c.probability.text@),
        field("y"@, height_provider_src(c.y)),
        field("count"@, int_provider_src(c.count)),
        field("thickness"@, float_provider_src(c.thickness)),
        field("weird_thickness_bias"@, bool_literal(c.weird_thickness_bias)),
        field("room_vertical_radius_multiplier"@, float_provider_src(c.room_vertical_radius_multiplier)),
        field("horizontal_radius_multiplier"@, float_provider_src(c.horizontal_radius_multiplier)),
        field("vertical_radius_multiplier"@, float_provider_src(c.vertical_radius_multiplier)),
        field("start_vertical_radius_multiplier"@, float_provider_src(c.start_vertical_radius_multiplier)),
        field("floor_level"@, float_provider_src(c.floor_level)),
    ];
    let (pre, path, post) = ("WorldCarverKind::Cave"@ + "("@, "CaveWorldCarver"@, ")"@);
    assert(cave_kind_src(c) == pre + struct_expr(path, fs) + post);
    lemma_struct_shows_field(pre, path, fs, 0, "probability"@, c.probability.text@, post);
    lemma_struct_shows_field(pre, path, fs, 1, "y"@, height_provider_src(c.y), post);
    lemma_struct_shows_field(pre, path, fs, 2, "count"@, int_provider_src(c.count), post);
    lemma_struct_shows_field(pre, path, fs, 3, "thickness"@, float_provider_src(c.thickness), post);
    lemma_struct_shows_field(pre, path, fs, 4, "weird_thickness_bias"@, bool_literal(c.weird_thickness_bias), post);
    lemma_struct_shows_field(pre, path, fs, 5, "room_vertical_radius_multiplier"@, float_provider_src(c.room_vertical_radius_multiplier), post);
    lemma_struct_shows_field(pre, path, fs, 6, "horizontal_radius_multiplier"@, float_provider_src(c.horizontal_radius_multiplier), post);
    lemma_struct_shows_field(pre, path, fs, 7, "vertical_radius_multiplier"@, float_provider_src(c.vertical_radius_multiplier), post);
    lemma_struct_shows_field(pre, path, fs, 8, "start_vertical_radius_multiplier"@, float_provider_src(c.start_vertical_radius_multiplier), post);
    lemma_struct_shows_field(pre, path, fs, 9, "floor_level"@, float_provider_src(c.floor_level), post);
}

/// Each setting of a canyon shape is rendered under the field of its own
/// name, for all seven settings.
pub proof fn law_canyon_shape_shows_each_field(s: CanyonShapeJson)
    ensures
        shape_fields_shown(canyon_shape_src(s), s),
{
    let fs = seq![
        field("distance_factor"@, float_provider_src(s.distance_factor)),
        field("thickness"@, float_provider_src(s.thickness)),
        field("width_smoothness"@, i32_literal(s.width_smoothness)),
        field("horizontal_radius_factor"@, float_provider_src(s.horizontal_radius_factor)),
        field("vertical_radius_default_factor"@, s.vertical_radius_default_factor.text@),
        field("vertical_radius_center_factor"@, s.vertical_radius_center_factor.text@),
        field("y_scale"@, float_provider_src(s.y_scale)),
    ];
    let (pre, path, post) = (Seq::<char>::empty(), "CanyonShape"@, Seq::<char>::empty());
    assert(canyon_shape_src(s) =~= pre + struct_expr(path, fs) + post);
    lemma_struct_shows_field(pre, path, fs, 0, "distance_factor"@, float_provider_src(s.distance_factor), post);
    lemma_struct_shows_field(pre, path, fs, 1, "thickness"@, float_provider_src(s.thickness), post);
    lemma_struct_shows_field(pre, path, fs, 2, "width_smoothness"@, i32_literal(s.width_smoothness), post);
    lemma_struct_shows_field(pre, path, fs, 3, "horizontal_radius_factor"@, float_provider_src(s.horizontal_radius_factor), post);
    lemma_struct_shows_field(pre, path, fs, 4, "vertical_radius_default_factor"@, s.vertical_radius_default_factor.text@, post);
    lemma_struct_shows_field(pre, path, fs, 5, "vertical_radius_center_factor"@, s.vertical_radius_center_factor.text@, post);
    lemma_struct_shows_field(pre, path, fs, 6, "y_scale"@, float_provider_src(s.y_scale), post);
}

/// Each setting of a canyon carver, and each of its shape, is rendered
/// under the field of its own name.
#[verifier::spinoff_prover]
#[verifier::rlimit(40)]
pub proof fn law_canyon_kind_shows_each_field(c: CanyonJson)
    ensures
        canyon_fields_shown(canyon_kind_src(c), c),
{
    let fs = seq![
        field("probability"@, c.probability.text@),
        field("y"@, height_provider_src(c.y)),
        field("vertical_rotation"@, float_provider_src(c.vertical_rotation)),
        field("shape"@, canyon_shape_src(c.shape)),
    ];
    let (pre, path, post) = ("WorldCarverKind::Canyon"@ + "("@, "CanyonWorldCarver"@, ")"@);
    let t = canyon_kind_src(c);
    assert(t == pre + struct_expr(path, fs) + post);
    lemma_struct_shows_field(pre, path, fs, 0, "probability"@, c.probability.text@, post);
    lemma_struct_shows_field(pre, path, fs, 1, "y"@, height_provider_src(c.y), post);
    lemma_struct_shows_field(pre, path, fs, 2, "vertical_rotation"@, float_provider_src(c.vertical_rotation), post);
    lemma_struct_shows_field(pre, path, fs, 3, "shape"@, canyon_shape_src(c.shape), post);
    // The shape's own fields, inside the carver's text.
    let s = c.shape;
    let head = "shape"@ + ": "@;
    assert(fs[3] == head + canyon_shape_src(s));
    law_canyon_shape_shows_each_field(s);
    lemma_shows_nested(t, head, canyon_shape_src(s), "distance_factor"@, float_provider_src(s.distance_factor));
    lemma_shows_nested(t, head, canyon_shape_src(s), "thickness"@, float_provider_src(s.thickness));
    lemma_shows_nested(t, head, canyon_shape_src(s), "width_smoothness"@, i32_literal(s.width_smoothness));
    lemma_shows_nested(t, head, canyon_shape_src(s), "horizontal_radius_factor"@, float_provider_src(s.horizontal_radius_factor));
    lemma_shows_nested(t, head, canyon_shape_src(s), "vertical_radius_default_factor"@, s.vertical_radius_default_factor.text@);
    lemma_shows_nested(t, head, canyon_shape_src(s), "vertical_radius_center_factor"@, s.vertical_radius_center_factor.text@);
    lemma_shows_nested(t, head, canyon_shape_src(s), "y_scale"@, float_provider_src(s.y_scale));
}

/// An identifier is rendered from both of its parts: the namespace field
/// holds the literal of its namespace and the path field the literal of its
/// path, whatever the namespace is.
pub proof fn law_identifier_shows_both_parts(namespace: Seq<char>, path: Seq<char>)
    ensures
        shows_field(identifier_src(namespace, path), "namespace"@, call1("Cow::Borrowed"@, string_literal(namespace))),
        shows_field(identifier_src(namespace, path), "path"@, call1("Cow::Borrowed"@, string_literal(path))),
{
    let fs = seq![
        field("namespace"@, call1("Cow::Borrowed"@, string_literal(namespace))),
        field("path"@, call1("Cow::Borrowed"@, string_literal(path))),
    ];
    let e = Seq::<char>::empty();
    assert(identifier_src(namespace, path) =~= e + struct_expr("Identifier"@, fs) + e);
    lemma_struct_shows_field(e, "Identifier"@, fs, 0, "namespace"@, call1("Cow::Borrowed"@, string_literal(namespace)), e);
    lemma_struct_shows_field(e, "Identifier"@, fs, 1, "path"@, call1("Cow::Borrowed"@, string_literal(path)), e);
}

/// The static of a decorated pot pattern holds, as `key`, the identifier
/// expression of the pattern's key and, as `asset_id`, that of its own
/// asset id (its namespace and path, not the key's).
pub proof fn law_pattern_static_shows_key_and_asset(p: DecoratedPotPatternJson)
    ensures
        shows_field(pattern_tail_src(p), "key"@, identifier_src(p.key.namespace@, p.key.path@)),
        shows_field(pattern_tail_src(p), "asset_id"@, identifier_src(p.asset_id.namespace@, p.asset_id.path@)),
{
    let fs = seq![
        field("key"@, identifier_src(p.key.namespace@, p.key.path@)),
        field("asset_id"@, identifier_src(p.asset_id.namespace@, p.asset_id.path@)),
    ];
    let (pre, post) = (": DecoratedPotPattern = "@, ";"@);
    assert(pattern_tail_src(p) == pre + struct_expr("DecoratedPotPattern"@, fs) + post);
    lemma_struct_shows_field(pre, "DecoratedPotPattern"@, fs, 0, "key"@, identifier_src(p.key.namespace@, p.key.path@), post);
    lemma_struct_shows_field(pre, "DecoratedPotPattern"@, fs, 1, "asset_id"@, identifier_src(p.asset_id.namespace@, p.asset_id.path@), post);
}

/// A description with a color ends with `.color_hex(..)` of the literal of
/// that color; one without a color has no `.color_hex` after its message.
pub proof fn law_text_component_keeps_color(d: TextComponentJson)
    ensures
        d.color matches Some(c) ==> shows(text_component_src(d), ".color_hex("@ + string_literal(c@) + ")"@),
        shows(text_component_src(d), call1("TranslatedMessage::new"@, string_literal(d.translate@) + ", None"@)),
{
    let msg = call1("TranslatedMessage::new"@, string_literal(d.translate@) + ", None"@);
    let base = call1("TextComponent::from"@, msg);
    let e = Seq::<char>::empty();
    assert(base =~= ("TextComponent::from"@ + "("@) + (msg + (")"@ + e)));
    match d.color {
        Some(c) => {
            let tail = ".color_hex("@ + string_literal(c@) + ")"@;
            assert(text_component_src(d) =~= base + (tail + e));
            assert(text_component_src(d) =~= ("TextComponent::from"@ + "("@) + (msg + (")"@ + tail)));
        },
        None => {
            assert(text_component_src(d) =~= ("TextComponent::from"@ + "("@) + (msg + (")"@ + e)));
        },
    }
}

/// The static of a trim material passes `TrimMaterialValue::new` the
/// identifier expression of the material's palette id and, after it, the
/// whole expression of the material's description (its color included).
pub proof fn law_trim_static_shows_palette_and_description(name: Seq<char>, m: TrimMaterialJson)
    ensures
        shows(
            trim_tail_src(name, m),
            call1(
                "TrimMaterialValue::new"@,
                identifier_src(m.palette_id.namespace@, m.palette_id.path@) + ", "@ + text_component_src(m.description),
            ),
        ),
{
    let value = call1(
        "TrimMaterialValue::new"@,
        identifier_src(m.palette_id.namespace@, m.palette_id.path@) + ", "@ + text_component_src(m.description),
    );
    let pre = ": LazyLock<TrimMaterial> = LazyLock::new(|| { "@ + ("TrimMaterial::new"@ + "("@) + (vanilla_identifier_src(name) + ", "@);
    let post = ")"@ + " });"@;
    assert(trim_tail_src(name, m) =~= pre + (value + post));
}


/// `t` begins with `head`.
pub open spec fn opens_with(t: Seq<char>, head: Seq<char>) -> bool {
    exists|s: Seq<char>| #![trigger head + s] t == head + s
}

/// A struct expression begins with its path and ` { `.
pub proof fn lemma_struct_opens_with(path: Seq<char>, fs: Seq<Seq<char>>, head: Seq<char>)
    requires
        head == path + " { "@,
    ensures
        opens_with(struct_expr(path, fs), head),
{
    let s = comma_separated(fs) + " }"@;
    assert(struct_expr(path, fs) =~= head + s);
}

/// A weighted choice is written as a `WeightedIntProvider` with its data and
/// its weight, each under its own name.
pub proof fn law_weighted_entry_shows_each_field(w: WeightedIntProvider)
    ensures
        opens_with(weighted_entry_src(w), "steel_utils::value_providers::WeightedIntProvider { "@),
        shows_field(weighted_entry_src(w), "data"@, int_provider_src(w.data)),
        shows_field(weighted_entry_src(w), "weight"@, i32_literal(w.weight)),
{
    let path = "steel_utils::value_providers::WeightedIntProvider"@;
    let fs = seq![field("data"@, int_provider_src(w.data)), field("weight"@, i32_literal(w.weight))];
    lemma_braced2_struct(path, fs[0], fs[1]);
    let e = Seq::<char>::empty();
    assert(weighted_entry_src(w) =~= e + struct_expr(path, fs) + e);
    lemma_struct_shows_field(e, path, fs, 0, "data"@, int_provider_src(w.data), e);
    lemma_struct_shows_field(e, path, fs, 1, "weight"@, i32_literal(w.weight), e);
    reveal_strlit("steel_utils::value_providers::WeightedIntProvider");
    reveal_strlit("steel_utils::value_providers::WeightedIntProvider { ");
    reveal_strlit(" { ");
    assert("steel_utils::value_providers::WeightedIntProvider { "@ =~= path + " { "@);
    lemma_struct_opens_with(path, fs, "steel_utils::value_providers::WeightedIntProvider { "@);
}

/// The text of a vertical anchor as each variant is written: `Type::Variant(value)`
/// of its value, or `Type::Variant { .. }` showing each field under its
/// own name with the expression of the data field of that name.
pub open spec fn vertical_anchor_shown(t: Seq<char>, a: VerticalAnchor) -> bool {
    match a {
        VerticalAnchor::Absolute(v) => t == "VerticalAnchor::Absolute("@ + i32_literal(v) + ")"@,
        VerticalAnchor::AboveBottom(v) => t == "VerticalAnchor::AboveBottom("@ + i32_literal(v) + ")"@,
        VerticalAnchor::BelowTop(v) => t == "VerticalAnchor::BelowTop("@ + i32_literal(v) + ")"@,
        VerticalAnchor::RelativeToSeaLevel(v) => t == "VerticalAnchor::RelativeToSeaLevel("@ + i32_literal(v) + ")"@,
    }
}

/// Each variant of a vertical anchor is written under its own path, and each of its
/// values under the field of its own name.
pub proof fn law_vertical_anchor_shows_each_field(a: VerticalAnchor)
    ensures
        vertical_anchor_shown(vertical_anchor_src(a), a),
{
    let t = vertical_anchor_src(a);
    match a {
        VerticalAnchor::Absolute(v) => {
            reveal_strlit("VerticalAnchor::Absolute");
            reveal_strlit("VerticalAnchor::Absolute(");
            reveal_strlit("(");
            assert(t =~= "VerticalAnchor::Absolute("@ + i32_literal(v) + ")"@);
        },
        VerticalAnchor::AboveBottom(v) => {
            reveal_strlit("VerticalAnchor::AboveBottom");
            reveal_strlit("VerticalAnchor::AboveBottom(");
            reveal_strlit("(");
            assert(t =~= "VerticalAnchor::AboveBottom("@ + i32_literal(v) + ")"@);
        },
        VerticalAnchor::BelowTop(v) => {
            reveal_strlit("VerticalAnchor::BelowTop");
            reveal_strlit("VerticalAnchor::BelowTop(");
            reveal_strlit("(");
            assert(t =~= "VerticalAnchor::BelowTop("@ + i32_literal(v) + ")"@);
        },
        VerticalAnchor::RelativeToSeaLevel(v) => {
            reveal_strlit("VerticalAnchor::RelativeToSeaLevel");
            reveal_strlit("VerticalAnchor::RelativeToSeaLevel(");
            reveal_strlit("(");
            assert(t =~= "VerticalAnchor::RelativeToSeaLevel("@ + i32_literal(v) + ")"@);
        },
    }
}

/// The text of a height provider as each variant is written: `Type::Variant(value)`
/// of its value, or `Type::Variant { .. }` showing each field under its
/// own name with the expression of the data field of that name.
pub open spec fn height_provider_shown(t: Seq<char>, h: HeightProvider) -> bool {
    match h {
        HeightProvider::Constant(a) => t == "HeightProvider::Constant("@ + vertical_anchor_src(a) + ")"@,
        HeightProvider::Uniform { min_inclusive, max_inclusive } => {
            &&& opens_with(t, "HeightProvider::Uniform { "@)
            &&& shows_field(t, "min_inclusive"@, vertical_anchor_src(min_inclusive))
            &&& shows_field(t, "max_inclusive"@, vertical_anchor_src(max_inclusive))
        },
        HeightProvider::Trapezoid { min_inclusive, max_inclusive, plateau } => {
            &&& opens_with(t, "HeightProvider::Trapezoid { "@)
            &&& shows_field(t, "min_inclusive"@, vertical_anchor_src(min_inclusive))
            &&& shows_field(t, "max_inclusive"@, vertical_anchor_src(max_inclusive))
            &&& shows_field(t, "plateau"@, i32_literal(plateau))
        },
        HeightProvider::BiasedToBottom { min_inclusive, max_inclusive, inner } => {
            &&& opens_with(t, "HeightProvider::BiasedToBottom { "@)
            &&& shows_field(t, "min_inclusive"@, vertical_anchor_src(min_inclusive))
            &&& shows_field(t, "max_inclusive"@, vertical_anchor_src(max_inclusive))
            &&& shows_field(t, "inner"@, i32_literal(inner))
        },
        HeightProvider::VeryBiasedToBottom { min_inclusive, max_inclusive, inner } => {
            &&& opens_with(t, "HeightProvider::VeryBiasedToBottom { "@)
            &&& shows_field(t, "min_inclusive"@, vertical_anchor_src(min_inclusive))
            &&& shows_field(t, "max_inclusive"@, vertical_anchor_src(max_inclusive))
            &&& shows_field(t, "inner"@, i32_literal(inner))
        },
    }
}

/// Each variant of a height provider is written under its own path, and each of its
/// values under the field of its own name.
#[verifier::spinoff_prover]
#[verifier::rlimit(40)]
pub proof fn law_height_provider_shows_each_field(h: HeightProvider)
    ensures
        height_provider_shown(height_provider_src(h), h),
{
    let t = height_provider_src(h);
    match h {
        HeightProvider::Constant(a) => {
            reveal_strlit("HeightProvider::Constant");
            reveal_strlit("HeightProvider::Constant(");
            reveal_strlit("(");
            assert(t =~= "HeightProvider::Constant("@ + vertical_anchor_src(a) + ")"@);
        },
        HeightProvider::Uniform { min_inclusive, max_inclusive } => {
            let fs = seq![field("min_inclusive"@, vertical_anchor_src(min_inclusive)), field("max_inclusive"@, vertical_anchor_src(max_inclusive))];
            lemma_braced2_struct("HeightProvider::Uniform"@, fs[0], fs[1]);
            let e = Seq::<char>::empty();
            assert(t =~= e + struct_expr("HeightProvider::Uniform"@, fs) + e);
            lemma_struct_shows_field(e, "HeightProvider::Uniform"@, fs, 0, "min_inclusive"@, vertical_anchor_src(min_inclusive), e);
            lemma_struct_shows_field(e, "HeightProvider::Uniform"@, fs, 1, "max_inclusive"@, vertical_anchor_src(max_inclusive), e);
            reveal_strlit("HeightProvider::Uniform");
            reveal_strlit("HeightProvider::Uniform { ");
            reveal_strlit(" { ");
            assert("HeightProvider::Uniform { "@ =~= "HeightProvider::Uniform"@ + " { "@);
            lemma_struct_opens_with("HeightProvider::Uniform"@, fs, "HeightProvider::Uniform { "@);
        },
        HeightProvider::Trapezoid { min_inclusive, max_inclusive, plateau } => {
            let fs = seq![field("min_inclusive"@, vertical_anchor_src(min_inclusive)), field("max_inclusive"@, vertical_anchor_src(max_inclusive)), field("plateau"@, i32_literal(plateau))];
            lemma_braced3_struct("HeightProvider::Trapezoid"@, fs[0], fs[1], fs[2]);
            let e = Seq::<char>::empty();
            assert(t =~= e + struct_expr("HeightProvider::Trapezoid"@, fs) + e);
            lemma_struct_shows_field(e, "HeightProvider::Trapezoid"@, fs, 0, "min_inclusive"@, vertical_anchor_src(min_inclusive), e);
            lemma_struct_shows_field(e, "HeightProvider::Trapezoid"@, fs, 1, "max_inclusive"@, vertical_anchor_src(max_inclusive), e);
            lemma_struct_shows_field(e, "HeightProvider::Trapezoid"@, fs, 2, "plateau"@, i32_literal(plateau), e);
            reveal_strlit("HeightProvider::Trapezoid");
            reveal_strlit("HeightProvider::Trapezoid { ");
            reveal_strlit(" { ");
            assert("HeightProvider::Trapezoid { "@ =~= "HeightProvider::Trapezoid"@ + " { "@);
            lemma_struct_opens_with("HeightProvider::Trapezoid"@, fs, "HeightProvider::Trapezoid { "@);
        },
        HeightProvider::BiasedToBottom { min_inclusive, max_inclusive, inner } => {
            let fs = seq![field("min_inclusive"@, vertical_anchor_src(min_inclusive)), field("max_inclusive"@, vertical_anchor_src(max_inclusive)), field("inner"@, i32_literal(inner))];
            lemma_braced3_struct("HeightProvider::BiasedToBottom"@, fs[0], fs[1], fs[2]);
            let e = Seq::<char>::empty();
            assert(t =~= e + struct_expr("HeightProvider::BiasedToBottom"@, fs) + e);
            lemma_struct_shows_field(e, "HeightProvider::BiasedToBottom"@, fs, 0, "min_inclusive"@, vertical_anchor_src(min_inclusive), e);
            lemma_struct_shows_field(e, "HeightProvider::BiasedToBottom"@, fs, 1, "max_inclusive"@, vertical_anchor_src(max_inclusive), e);
            lemma_struct_shows_field(e, "HeightProvider::BiasedToBottom"@, fs, 2, "inner"@, i32_literal(inner), e);
            reveal_strlit("HeightProvider::BiasedToBottom");
            reveal_strlit("HeightProvider::BiasedToBottom { ");
            reveal_strlit(" { ");
            assert("HeightProvider::BiasedToBottom { "@ =~= "HeightProvider::BiasedToBottom"@ + " { "@);
            lemma_struct_opens_with("HeightProvider::BiasedToBottom"@, fs, "HeightProvider::BiasedToBottom { "@);
        },
        HeightProvider::VeryBiasedToBottom { min_inclusive, max_inclusive, inner } => {
            let fs = seq![field("min_inclusive"@, vertical_anchor_src(min_inclusive)), field("max_inclusive"@, vertical_anchor_src(max_inclusive)), field("inner"@, i32_literal(inner))];
            lemma_braced3_struct("HeightProvider::VeryBiasedToBottom"@, fs[0], fs[1], fs[2]);
            let e = Seq::<char>::empty();
            assert(t =~= e + struct_expr("HeightProvider::VeryBiasedToBottom"@, fs) + e);
            lemma_struct_shows_field(e, "HeightProvider::VeryBiasedToBottom"@, fs, 0, "min_inclusive"@, vertical_anchor_src(min_inclusive), e);
            lemma_struct_shows_field(e, "HeightProvider::VeryBiasedToBottom"@, fs, 1, "max_inclusive"@, vertical_anchor_src(max_inclusive), e);
            lemma_struct_shows_field(e, "HeightProvider::VeryBiasedToBottom"@, fs, 2, "inner"@, i32_literal(inner), e);
            reveal_strlit("HeightProvider::VeryBiasedToBottom");
            reveal_strlit("HeightProvider::VeryBiasedToBottom { ");
            reveal_strlit(" { ");
            assert("HeightProvider::VeryBiasedToBottom { "@ =~= "HeightProvider::VeryBiasedToBottom"@ + " { "@);
            lemma_struct_opens_with("HeightProvider::VeryBiasedToBottom"@, fs, "HeightProvider::VeryBiasedToBottom { "@);
        },
    }
}

/// The text of a float provider as each variant is written: `Type::Variant(value)`
/// of its value, or `Type::Variant { .. }` showing each field under its
/// own name with the expression of the data field of that name.
pub open spec fn float_provider_shown(t: Seq<char>, f: FloatProvider) -> bool {
    match f {
        FloatProvider::Constant(v) => t == "FloatProvider::Constant("@ + v.text@ + ")"@,
        FloatProvider::Uniform { min_inclusive, max_exclusive } => {
            &&& opens_with(t, "FloatProvider::Uniform { "@)
            &&& shows_field(t, "min_inclusive"@, min_inclusive.text@)
            &&& shows_field(t, "max_exclusive"@, max_exclusive.text@)
        },
        FloatProvider::Trapezoid { min, max, plateau } => {
            &&& opens_with(t, "FloatProvider::Trapezoid { "@)
            &&& shows_field(t, "min"@, min.text@)
            &&& shows_field(t, "max"@, max.text@)
            &&& shows_field(t, "plateau"@, plateau.text@)
        },
        FloatProvider::ClampedNormal { mean, deviation, min, max } => {
            &&& opens_with(t, "FloatProvider::ClampedNormal { "@)
            &&& shows_field(t, "mean"@, mean.text@)
            &&& shows_field(t, "deviation"@, deviation.text@)
            &&& shows_field(t, "min"@, min.text@)
            &&& shows_field(t, "max"@, max.text@)
        },
    }
}

/// Each variant of a float provider is written under its own path, and each of its
/// values under the field of its own name.
#[verifier::spinoff_prover]
#[verifier::rlimit(40)]
pub proof fn law_float_provider_shows_each_field(f: FloatProvider)
    ensures
        float_provider_shown(float_provider_src(f), f),
{
    let t = float_provider_src(f);
    match f {
        FloatProvider::Constant(v) => {
            reveal_strlit("FloatProvider::Constant");
            reveal_strlit("FloatProvider::Constant(");
            reveal_strlit("(");
            assert(t =~= "FloatProvider::Constant("@ + v.text@ + ")"@);
        },
        FloatProvider::Uniform { min_inclusive, max_exclusive } => {
            let fs = seq![field("min_inclusive"@, min_inclusive.text@), field("max_exclusive"@, max_exclusive.text@)];
            lemma_braced2_struct("FloatProvider::Uniform"@, fs[0], fs[1]);
            let e = Seq::<char>::empty();
            assert(t =~= e + struct_expr("FloatProvider::Uniform"@, fs) + e);
            lemma_struct_shows_field(e, "FloatProvider::Uniform"@, fs, 0, "min_inclusive"@, min_inclusive.text@, e);
            lemma_struct_shows_field(e, "FloatProvider::Uniform"@, fs, 1, "max_exclusive"@, max_exclusive.text@, e);
            reveal_strlit("FloatProvider::Uniform");
            reveal_strlit("FloatProvider::Uniform { ");
            reveal_strlit(" { ");
            assert("FloatProvider::Uniform { "@ =~= "FloatProvider::Uniform"@ + " { "@);
            lemma_struct_opens_with("FloatProvider::Uniform"@, fs, "FloatProvider::Uniform { "@);
        },
        FloatProvider::Trapezoid { min, max, plateau } => {
            let fs = seq![field("min"@, min.text@), field("max"@, max.text@), field("plateau"@, plateau.text@)];
            lemma_braced3_struct("FloatProvider::Trapezoid"@, fs[0], fs[1], fs[2]);
            let e = Seq::<char>::empty();
            assert(t =~= e + struct_expr("FloatProvider::Trapezoid"@, fs) + e);
            lemma_struct_shows_field(e, "FloatProvider::Trapezoid"@, fs, 0, "min"@, min.text@, e);
            lemma_struct_shows_field(e, "FloatProvider::Trapezoid"@, fs, 1, "max"@, max.text@, e);
            lemma_struct_shows_field(e, "FloatProvider::Trapezoid"@, fs, 2, "plateau"@, plateau.text@, e);
            reveal_strlit("FloatProvider::Trapezoid");
            reveal_strlit("FloatProvider::Trapezoid { ");
            reveal_strlit(" { ");
            assert("FloatProvider::Trapezoid { "@ =~= "FloatProvider::Trapezoid"@ + " { "@);
            lemma_struct_opens_with("FloatProvider::Trapezoid"@, fs, "FloatProvider::Trapezoid { "@);
        },
        FloatProvider::ClampedNormal { mean, deviation, min, max } => {
            let fs = seq![field("mean"@, mean.text@), field("deviation"@, deviation.text@), field("min"@, min.text@), field("max"@, max.text@)];
            lemma_braced4_struct("FloatProvider::ClampedNormal"@, fs[0], fs[1], fs[2], fs[3]);
            let e = Seq::<char>::empty();
            assert(t =~= e + struct_expr("FloatProvider::ClampedNormal"@, fs) + e);
            lemma_struct_shows_field(e, "FloatProvider::ClampedNormal"@, fs, 0, "mean"@, mean.text@, e);
            lemma_struct_shows_field(e, "FloatProvider::ClampedNormal"@, fs, 1, "deviation"@, deviation.text@, e);
            lemma_struct_shows_field(e, "FloatProvider::ClampedNormal"@, fs, 2, "min"@, min.text@, e);
            lemma_struct_shows_field(e, "FloatProvider::ClampedNormal"@, fs, 3, "max"@, max.text@, e);
            reveal_strlit("FloatProvider::ClampedNormal");
            reveal_strlit("FloatProvider::ClampedNormal { ");
            reveal_strlit(" { ");
            assert("FloatProvider::ClampedNormal { "@ =~= "FloatProvider::ClampedNormal"@ + " { "@);
            lemma_struct_opens_with("FloatProvider::ClampedNormal"@, fs, "FloatProvider::ClampedNormal { "@);
        },
    }
}

/// The text of an integer provider as each variant is written: `Type::Variant(value)`
/// of its value, or `Type::Variant { .. }` showing each field under its
/// own name with the expression of the data field of that name.
pub open spec fn int_provider_shown(t: Seq<char>, p: IntProvider) -> bool {
    match p {
        IntProvider::Constant(v) => t == "IntProvider::Constant("@ + i32_literal(v) + ")"@,
        IntProvider::Uniform { min_inclusive, max_inclusive } => {
            &&& opens_with(t, "IntProvider::Uniform { "@)
            &&& shows_field(t, "min_inclusive"@, i32_literal(min_inclusive))
            &&& shows_field(t, "max_inclusive"@, i32_literal(max_inclusive))
        },
        IntProvider::BiasedToBottom { min_inclusive, max_inclusive } => {
            &&& opens_with(t, "IntProvider::BiasedToBottom { "@)
            &&& shows_field(t, "min_inclusive"@, i32_literal(min_inclusive))
            &&& shows_field(t, "max_inclusive"@, i32_literal(max_inclusive))
        },
        IntProvider::VeryBiasedToBottom { min_inclusive, max_inclusive, inner } => {
            &&& opens_with(t, "IntProvider::VeryBiasedToBottom { "@)
            &&& shows_field(t, "min_inclusive"@, i32_literal(min_inclusive))
            &&& shows_field(t, "max_inclusive"@, i32_literal(max_inclusive))
            &&& shows_field(t, "inner"@, i32_literal(inner))
        },
        IntProvider::Trapezoid { min, max, plateau } => {
            &&& opens_with(t, "IntProvider::Trapezoid { "@)
            &&& shows_field(t, "min"@, i32_literal(min))
            &&& shows_field(t, "max"@, i32_literal(max))
            &&& shows_field(t, "plateau"@, i32_literal(plateau))
        },
        IntProvider::ClampedNormal { mean, deviation, min_inclusive, max_inclusive } => {
            &&& opens_with(t, "IntProvider::ClampedNormal { "@)
            &&& shows_field(t, "mean"@, mean.text@)
            &&& shows_field(t, "deviation"@, deviation.text@)
            &&& shows_field(t, "min_inclusive"@, i32_literal(min_inclusive))
            &&& shows_field(t, "max_inclusive"@, i32_literal(max_inclusive))
        },
        IntProvider::Clamped { source, min_inclusive, max_inclusive } => {
            &&& opens_with(t, "IntProvider::Clamped { "@)
            &&& shows_field(t, "source"@, call1("Box::new"@, int_provider_src(*source)))
            &&& shows_field(t, "min_inclusive"@, i32_literal(min_inclusive))
            &&& shows_field(t, "max_inclusive"@, i32_literal(max_inclusive))
        },
        IntProvider::WeightedList { distribution } => {
            t == "IntProvider::WeightedList { distribution: vec!["@ + weighted_entries_src(distribution@) + "] }"@
        },
    }
}

/// Each variant of an integer provider is written under its own path, and each of its
/// values under the field of its own name.
#[verifier::spinoff_prover]
#[verifier::rlimit(40)]
pub proof fn law_int_provider_shows_each_field(p: IntProvider)
    ensures
        int_provider_shown(int_provider_src(p), p),
{
    let t = int_provider_src(p);
    match p {
        IntProvider::Constant(v) => {
            reveal_strlit("IntProvider::Constant");
            reveal_strlit("IntProvider::Constant(");
            reveal_strlit("(");
            assert(t =~= "IntProvider::Constant("@ + i32_literal(v) + ")"@);
        },
        IntProvider::Uniform { min_inclusive, max_inclusive } => {
            let fs = seq![field("min_inclusive"@, i32_literal(min_inclusive)), field("max_inclusive"@, i32_literal(max_inclusive))];
            lemma_braced2_struct("IntProvider::Uniform"@, fs[0], fs[1]);
            let e = Seq::<char>::empty();
            assert(t =~= e + struct_expr("IntProvider::Uniform"@, fs) + e);
            lemma_struct_shows_field(e, "IntProvider::Uniform"@, fs, 0, "min_inclusive"@, i32_literal(min_inclusive), e);
            lemma_struct_shows_field(e, "IntProvider::Uniform"@, fs, 1, "max_inclusive"@, i32_literal(max_inclusive), e);
            reveal_strlit("IntProvider::Uniform");
            reveal_strlit("IntProvider::Uniform { ");
            reveal_strlit(" { ");
            assert("IntProvider::Uniform { "@ =~= "IntProvider::Uniform"@ + " { "@);
            lemma_struct_opens_with("IntProvider::Uniform"@, fs, "IntProvider::Uniform { "@);
        },
        IntProvider::BiasedToBottom { min_inclusive, max_inclusive } => {
            let fs = seq![field("min_inclusive"@, i32_literal(min_inclusive)), field("max_inclusive"@, i32_literal(max_inclusive))];
            lemma_braced2_struct("IntProvider::BiasedToBottom"@, fs[0], fs[1]);
            let e = Seq::<char>::empty();
            assert(t =~= e + struct_expr("IntProvider::BiasedToBottom"@, fs) + e);
            lemma_struct_shows_field(e, "IntProvider::BiasedToBottom"@, fs, 0, "min_inclusive"@, i32_literal(min_inclusive), e);
            lemma_struct_shows_field(e, "IntProvider::BiasedToBottom"@, fs, 1, "max_inclusive"@, i32_literal(max_inclusive), e);
            reveal_strlit("IntProvider::BiasedToBottom");
            reveal_strlit("IntProvider::BiasedToBottom { ");
            reveal_strlit(" { ");
            assert("IntProvider::BiasedToBottom { "@ =~= "IntProvider::BiasedToBottom"@ + " { "@);
            lemma_struct_opens_with("IntProvider::BiasedToBottom"@, fs, "IntProvider::BiasedToBottom { "@);
        },
        IntProvider::VeryBiasedToBottom { min_inclusive, max_inclusive, inner } => {
            let fs = seq![field("min_inclusive"@, i32_literal(min_inclusive)), field("max_inclusive"@, i32_literal(max_inclusive)), field("inner"@, i32_literal(inner))];
            lemma_braced3_struct("IntProvider::VeryBiasedToBottom"@, fs[0], fs[1], fs[2]);
            let e = Seq::<char>::empty();
            assert(t =~= e + struct_expr("IntProvider::VeryBiasedToBottom"@, fs) + e);
            lemma_struct_shows_field(e, "IntProvider::VeryBiasedToBottom"@, fs, 0, "min_inclusive"@, i32_literal(min_inclusive), e);
            lemma_struct_shows_field(e, "IntProvider::VeryBiasedToBottom"@, fs, 1, "max_inclusive"@, i32_literal(max_inclusive), e);
            lemma_struct_shows_field(e, "IntProvider::VeryBiasedToBottom"@, fs, 2, "inner"@, i32_literal(inner), e);
            reveal_strlit("IntProvider::VeryBiasedToBottom");
            reveal_strlit("IntProvider::VeryBiasedToBottom { ");
            reveal_strlit(" { ");
            assert("IntProvider::VeryBiasedToBottom { "@ =~= "IntProvider::VeryBiasedToBottom"@ + " { "@);
            lemma_struct_opens_with("IntProvider::VeryBiasedToBottom"@, fs, "IntProvider::VeryBiasedToBottom { "@);
        },
        IntProvider::Trapezoid { min, max, plateau } => {
            let fs = seq![field("min"@, i32_literal(min)), field("max"@, i32_literal(max)), field("plateau"@, i32_literal(plateau))];
            lemma_braced3_struct("IntProvider::Trapezoid"@, fs[0], fs[1], fs[2]);
            let e = Seq::<char>::empty();
            assert(t =~= e + struct_expr("IntProvider::Trapezoid"@, fs) + e);
            lemma_struct_shows_field(e, "IntProvider::Trapezoid"@, fs, 0, "min"@, i32_literal(min), e);
            lemma_struct_shows_field(e, "IntProvider::Trapezoid"@, fs, 1, "max"@, i32_literal(max), e);
            lemma_struct_shows_field(e, "IntProvider::Trapezoid"@, fs, 2, "plateau"@, i32_literal(plateau), e);
            reveal_strlit("IntProvider::Trapezoid");
            reveal_strlit("IntProvider::Trapezoid { ");
            reveal_strlit(" { ");
            assert("IntProvider::Trapezoid { "@ =~= "IntProvider::Trapezoid"@ + " { "@);
            lemma_struct_opens_with("IntProvider::Trapezoid"@, fs, "IntProvider::Trapezoid { "@);
        },
        IntProvider::ClampedNormal { mean, deviation, min_inclusive, max_inclusive } => {
            let fs = seq![field("mean"@, mean.text@), field("deviation"@, deviation.text@), field("min_inclusive"@, i32_literal(min_inclusive)), field("max_inclusive"@, i32_literal(max_inclusive))];
            lemma_braced4_struct("IntProvider::ClampedNormal"@, fs[0], fs[1], fs[2], fs[3]);
            let e = Seq::<char>::empty();
            assert(t =~= e + struct_expr("IntProvider::ClampedNormal"@, fs) + e);
            lemma_struct_shows_field(e, "IntProvider::ClampedNormal"@, fs, 0, "mean"@, mean.text@, e);
            lemma_struct_shows_field(e, "IntProvider::ClampedNormal"@, fs, 1, "deviation"@, deviation.text@, e);
            lemma_struct_shows_field(e, "IntProvider::ClampedNormal"@, fs, 2, "min_inclusive"@, i32_literal(min_inclusive), e);
            lemma_struct_shows_field(e, "IntProvider::ClampedNormal"@, fs, 3, "max_inclusive"@, i32_literal(max_inclusive), e);
            reveal_strlit("IntProvider::ClampedNormal");
            reveal_strlit("IntProvider::ClampedNormal { ");
            reveal_strlit(" { ");
            assert("IntProvider::ClampedNormal { "@ =~= "IntProvider::ClampedNormal"@ + " { "@);
            lemma_struct_opens_with("IntProvider::ClampedNormal"@, fs, "IntProvider::ClampedNormal { "@);
        },
        IntProvider::Clamped { source, min_inclusive, max_inclusive } => {
            let fs = seq![field("source"@, call1("Box::new"@, int_provider_src(*source))), field("min_inclusive"@, i32_literal(min_inclusive)), field("max_inclusive"@, i32_literal(max_inclusive))];
            lemma_braced3_struct("IntProvider::Clamped"@, fs[0], fs[1], fs[2]);
            let e = Seq::<char>::empty();
            assert(t =~= e + struct_expr("IntProvider::Clamped"@, fs) + e);
            lemma_struct_shows_field(e, "IntProvider::Clamped"@, fs, 0, "source"@, call1("Box::new"@, int_provider_src(*source)), e);
            lemma_struct_shows_field(e, "IntProvider::Clamped"@, fs, 1, "min_inclusive"@, i32_literal(min_inclusive), e);
            lemma_struct_shows_field(e, "IntProvider::Clamped"@, fs, 2, "max_inclusive"@, i32_literal(max_inclusive), e);
            reveal_strlit("IntProvider::Clamped");
            reveal_strlit("IntProvider::Clamped { ");
            reveal_strlit(" { ");
            assert("IntProvider::Clamped { "@ =~= "IntProvider::Clamped"@ + " { "@);
            lemma_struct_opens_with("IntProvider::Clamped"@, fs, "IntProvider::Clamped { "@);
        },
        IntProvider::WeightedList { distribution } => {
            reveal_strlit("IntProvider::WeightedList { distribution: vec![");
        },
    }
}

} // verus!
