//! Decorated pot patterns: entries numbered `0..n` that are registered in
//! the order of their numbers.
use vstd::prelude::*;
use crate::source::texts;
use crate::source::{struct_expr, struct_expr_text};
use crate::providers::{field, field_text};
use crate::readback::{law_pattern_static_shows_key_and_asset, shows_field};
use crate::registry::{
    CodegenError, Identifier, all_idents_valid, build_registry_module, first_bad_ident, generate_identifier,
    identifier_src, registry_src,
};

verus! {

/// A decorated pot pattern as the data describes it.
#[derive(Debug, PartialEq, Eq)]
pub struct DecoratedPotPatternJson {
    pub id: usize,
    pub key: Identifier,
    pub asset_id: Identifier,
}

/// The numeric ids of the entries.
pub open spec fn ids_of(entries: Seq<DecoratedPotPatternJson>) -> Seq<usize> {
    entries.map_values(|e: DecoratedPotPatternJson| e.id)
}

/// `x` is one of `ids`.
pub open spec fn is_id_of(ids: Seq<usize>, x: int) -> bool {
    exists|j: int| 0 <= j < ids.len() && #[trigger] ids[j] == x
}

/// The ids are `0..n` in some order: each is below `n`, no two are equal,
/// and every number below `n` is one of them.
pub open spec fn ids_contiguous(ids: Seq<usize>) -> bool {
    &&& forall|j: int| 0 <= j < ids.len() ==> #[trigger] ids[j] < ids.len()
    &&& forall|j: int, k: int| 0 <= j < k < ids.len() ==> #[trigger] ids[j] != #[trigger] ids[k]
    &&& forall|x: int| 0 <= x < ids.len() ==> #[trigger] is_id_of(ids, x)
}

/// `sorted` holds the entries of `entries`, each at the position of its id.
pub open spec fn sorted_by_id(entries: Seq<DecoratedPotPatternJson>, sorted: Seq<DecoratedPotPatternJson>) -> bool {
    &&& sorted.len() == entries.len()
    &&& forall|i: int| 0 <= i < sorted.len() ==> #[trigger] sorted[i].id == i
    &&& forall|j: int| 0 <= j < entries.len() ==> sorted[#[trigger] entries[j].id as int] == entries[j]
}

/// Puts the entries in the order of their ids, which must be `0..n`;
/// otherwise the entries stay as they are and the error is returned.
pub fn sort_contiguous_registry_entries(entries: &mut Vec<DecoratedPotPatternJson>) -> (res: Result<(), CodegenError>)
    ensures
        match res {
            Ok(()) => ids_contiguous(ids_of(old(entries)@)) && sorted_by_id(old(entries)@, final(entries)@),
            Err(e) => e == CodegenError::NonContiguousIds && !ids_contiguous(ids_of(old(entries)@))
                && final(entries)@ == old(entries)@,
        },
{
    let ghost orig = entries@;
    let ghost ids = ids_of(orig);
    let n = entries.len();
    let mut seen: Vec<bool> = Vec::new();
    let mut k: usize = 0;
    while k < n
        invariant
            seen.len() == k,
            k <= n,
            forall|x: int| 0 <= x < k ==> !#[trigger] seen@[x],
        decreases n - k,
    {
        seen.push(false);
        k = k + 1;
    }
    let mut j: usize = 0;
    while j < n
        invariant
            entries@ == orig,
            ids == ids_of(orig),
            n == orig.len(),
            seen.len() == n,
            j <= n,
            forall|k: int| 0 <= k < j ==> #[trigger] ids[k] < n && seen@[ids[k] as int],
            forall|x: int| 0 <= x < n && #[trigger] seen@[x] ==> exists|k: int| 0 <= k < j && ids[k] == x,
            forall|a: int, b: int| 0 <= a < b < j ==> #[trigger] ids[a] != #[trigger] ids[b],
        decreases n - j,
    {
        let id = entries[j].id;
        assert(ids[j as int] == id);
        if id >= n {
            return Err(CodegenError::NonContiguousIds);
        }
        if seen[id] {
            proof {
                let k = choose|k: int| 0 <= k < j && ids[k] == id;
                assert(ids[k] == ids[j as int]);
            }
            return Err(CodegenError::NonContiguousIds);
        }
        seen.set(id, true);
        j = j + 1;
    }
    let mut x: usize = 0;
    while x < n
        invariant
            entries@ == orig,
            ids == ids_of(orig),
            n == orig.len(),
            seen.len() == n,
            x <= n,
            forall|k: int| 0 <= k < n ==> #[trigger] ids[k] < n && seen@[ids[k] as int],
            forall|y: int| 0 <= y < n && #[trigger] seen@[y] ==> exists|k: int| 0 <= k < n && ids[k] == y,
            forall|y: int| 0 <= y < x ==> #[trigger] seen@[y],
        decreases n - x,
    {
        if !seen[x] {
            proof {
                assert forall|k: int| 0 <= k < n implies ids[k] != x by {
                    if ids[k] == x {
                        assert(seen@[ids[k] as int]);
                    }
                }
            }
            assert(!is_id_of(ids, x as int));
            return Err(CodegenError::NonContiguousIds);
        }
        x = x + 1;
    }
    proof {
        assert forall|y: int| 0 <= y < ids.len() implies #[trigger] is_id_of(ids, y) by {
            assert(seen@[y]);
        }
        assert(ids_contiguous(ids));
    }
    let mut slots: Vec<Option<DecoratedPotPatternJson>> = Vec::new();
    let mut k: usize = 0;
    while k < n
        invariant
            slots.len() == k,
            k <= n,
        decreases n - k,
    {
        slots.push(None);
        k = k + 1;
    }
    while entries.len() > 0
        invariant
            n == orig.len(),
            ids == ids_of(orig),
            ids_contiguous(ids),
            entries.len() <= n,
            entries@ == orig.take(entries.len() as int),
            slots.len() == n,
            forall|k: int| entries.len() <= k < n ==> slots@[#[trigger] ids[k] as int] == Some(orig[k]),
        decreases entries.len(),
    {
        let ghost len = entries.len() as int;
        let e = entries.pop().unwrap();
        assert(e == orig[len - 1]);
        let id = e.id;
        assert(ids[len - 1] == id);
        slots.set(id, Some(e));
        proof {
            assert(entries@ =~= orig.take(len - 1));
            assert forall|k: int| len - 1 <= k < n implies slots@[#[trigger] ids[k] as int] == Some(orig[k]) by {
                if k != len - 1 {
                    assert(ids[k] != ids[len - 1]);
                }
            }
        }
    }
    let ghost full = slots@;
    let mut out: Vec<DecoratedPotPatternJson> = Vec::new();
    let mut i: usize = 0;
    while i < n
        invariant
            n == orig.len(),
            ids == ids_of(orig),
            ids_contiguous(ids),
            slots.len() == n,
            i <= n,
            out.len() == i,
            forall|y: int| i <= y < n ==> slots@[y] == full[y],
            forall|k: int| 0 <= k < n ==> full[#[trigger] ids[k] as int] == Some(orig[k]),
            forall|y: int| 0 <= y < i ==> Some(#[trigger] out@[y]) == full[y],
        decreases n - i,
    {
        proof {
            assert(is_id_of(ids, i as int));
            let k = choose|k: int| 0 <= k < ids.len() && #[trigger] ids[k] == i;
            assert(full[ids[k] as int] == Some(orig[k]));
        }
        let mut taken: Option<DecoratedPotPatternJson> = None;
        slots.set_and_swap(i, &mut taken);
        out.push(taken.unwrap());
        i = i + 1;
    }
    proof {
        assert forall|y: int| 0 <= y < n implies #[trigger] out@[y].id == y by {
            assert(is_id_of(ids, y));
            let k = choose|k: int| 0 <= k < ids.len() && #[trigger] ids[k] == y;
            assert(full[ids[k] as int] == Some(orig[k]));
            assert(Some(out@[y]) == full[y]);
        }
        assert forall|j: int| 0 <= j < n implies out@[#[trigger] orig[j].id as int] == orig[j] by {
            assert(ids[j] == orig[j].id);
            assert(full[ids[j] as int] == Some(orig[j]));
            assert(Some(out@[ids[j] as int]) == full[ids[j] as int]);
        }
    }
    *entries = out;
    Ok(())
}

/// The entries in the order of their ids: position `i` holds the entry
/// whose id is `i`.
pub open spec fn by_id(entries: Seq<DecoratedPotPatternJson>) -> Seq<DecoratedPotPatternJson> {
    Seq::new(
        entries.len(),
        |i: int| entries[choose|j: int| 0 <= j < entries.len() && #[trigger] ids_of(entries)[j] == i],
    )
}

/// With ids `0..n`, there is one way to put the entries in the order of
/// their ids.
pub proof fn lemma_sorted_by_id_is_by_id(entries: Seq<DecoratedPotPatternJson>, sorted: Seq<DecoratedPotPatternJson>)
    requires
        ids_contiguous(ids_of(entries)),
        sorted_by_id(entries, sorted),
    ensures
        sorted == by_id(entries),
{
    let ids = ids_of(entries);
    assert forall|i: int| 0 <= i < sorted.len() implies sorted[i] == by_id(entries)[i] by {
        assert(is_id_of(ids, i));
        let j = choose|j: int| 0 <= j < entries.len() && #[trigger] ids_of(entries)[j] == i;
        assert(ids[j] == entries[j].id);
        assert(sorted[entries[j].id as int] == entries[j]);
    }
    assert(sorted =~= by_id(entries));
}

/// The order of the pattern list in the data does not matter: two lists
/// with ids `0..n` and the same patterns come out in the same order.
pub proof fn law_input_order_is_irrelevant(a: Seq<DecoratedPotPatternJson>, b: Seq<DecoratedPotPatternJson>)
    requires
        ids_contiguous(ids_of(a)),
        ids_contiguous(ids_of(b)),
        a.len() == b.len(),
        forall|x: DecoratedPotPatternJson| a.contains(x) ==> b.contains(x),
    ensures
        by_id(a) == by_id(b),
{
    let ia = ids_of(a);
    let ib = ids_of(b);
    assert forall|i: int| 0 <= i < a.len() implies by_id(a)[i] == by_id(b)[i] by {
        assert(is_id_of(ia, i));
        assert(is_id_of(ib, i));
        let ja = choose|j: int| 0 <= j < a.len() && #[trigger] ids_of(a)[j] == i;
        let jb = choose|j: int| 0 <= j < b.len() && #[trigger] ids_of(b)[j] == i;
        assert(a.contains(a[ja]));
        let k = choose|k: int| 0 <= k < b.len() && b[k] == a[ja];
        assert(ib[k] == b[k].id);
        assert(ia[ja] == a[ja].id);
        if k != jb {
            if k < jb {
                assert(ib[k] != ib[jb]);
            } else {
                assert(ib[jb] != ib[k]);
            }
        }
    }
    assert(by_id(a) =~= by_id(b));
}

/// The `use` lines of the generated decorated pot pattern module.
pub const DECORATED_POT_PATTERNS_HEADER: &'static str = "use crate::decorated_pot_pattern::{DecoratedPotPattern, DecoratedPotPatternRegistry};\nuse steel_utils::Identifier;\nuse std::borrow::Cow;\n";

/// The signature of the generated registration function.
pub const DECORATED_POT_PATTERNS_SIGNATURE: &'static str = "pub fn register_decorated_pot_patterns(registry: &mut DecoratedPotPatternRegistry)";

/// The type and initializer of the static that holds a pattern.
pub open spec fn pattern_tail_src(p: DecoratedPotPatternJson) -> Seq<char> {
    ": DecoratedPotPattern = "@ + struct_expr(
        "DecoratedPotPattern"@,
        seq![
            field("key"@, identifier_src(p.key.namespace@, p.key.path@)),
            field("asset_id"@, identifier_src(p.asset_id.namespace@, p.asset_id.path@)),
        ],
    ) + ";"@
}

/// The names of the patterns: the paths of their keys.
pub open spec fn pattern_names(ps: Seq<DecoratedPotPatternJson>) -> Seq<Seq<char>> {
    ps.map_values(|p: DecoratedPotPatternJson| p.key.path@)
}

/// The static tails of the patterns.
pub open spec fn pattern_tails(ps: Seq<DecoratedPotPatternJson>) -> Seq<Seq<char>> {
    ps.map_values(|p: DecoratedPotPatternJson| pattern_tail_src(p))
}

/// The generated module for patterns already in the order of their ids.
pub open spec fn patterns_module_src(ps: Seq<DecoratedPotPatternJson>) -> Seq<char> {
    registry_src(
        DECORATED_POT_PATTERNS_HEADER@,
        DECORATED_POT_PATTERNS_SIGNATURE@,
        pattern_names(ps),
        pattern_tails(ps),
    )
}

/// The type and initializer of the static that holds `p`.
fn pattern_tail(p: &DecoratedPotPatternJson) -> (res: String)
    ensures
        res@ == pattern_tail_src(*p),
        shows_field(res@, "key"@, identifier_src(p.key.namespace@, p.key.path@)),
        shows_field(res@, "asset_id"@, identifier_src(p.asset_id.namespace@, p.asset_id.path@)),
{
    proof {
        law_pattern_static_shows_key_and_asset(*p);
    }
    let mut fields: Vec<String> = Vec::new();
    fields.push(field_text("key", generate_identifier(&p.key).as_str()));
    fields.push(field_text("asset_id", generate_identifier(&p.asset_id).as_str()));
    assert(fields@.map_values(|f: String| f@) =~= seq![
        field("key"@, identifier_src(p.key.namespace@, p.key.path@)),
        field("asset_id"@, identifier_src(p.asset_id.namespace@, p.asset_id.path@)),
    ]);
    let body = struct_expr_text("DecoratedPotPattern", &fields);
    let mut out = String::from_str(": DecoratedPotPattern = ");
    out.append(body.as_str());
    out.append(";");
    out
}

/// The source of the decorated pot pattern module: the patterns in the
/// order of their ids, each as a static named after the path of its key,
/// and `register_decorated_pot_patterns`, which registers them in that
/// order.
pub fn build(patterns: Vec<DecoratedPotPatternJson>) -> (res: Result<String, CodegenError>)
    ensures
        match res {
            Ok(text) => ids_contiguous(ids_of(patterns@))
                && all_idents_valid(pattern_names(by_id(patterns@)))
                && text@ == patterns_module_src(by_id(patterns@)),
            Err(CodegenError::NonContiguousIds) => !ids_contiguous(ids_of(patterns@)),
            Err(CodegenError::InvalidIdentifier { index }) => ids_contiguous(ids_of(patterns@))
                && first_bad_ident(pattern_names(by_id(patterns@)), index as int),
        },
{
    let ghost given = patterns@;
    let mut sorted = patterns;
    match sort_contiguous_registry_entries(&mut sorted) {
        Err(e) => {
            return Err(e);
        },
        Ok(()) => {},
    }
    proof {
        lemma_sorted_by_id_is_by_id(given, sorted@);
    }
    let n = sorted.len();
    let mut names: Vec<String> = Vec::new();
    let mut tails: Vec<String> = Vec::new();
    let mut i: usize = 0;
    while i < n
        invariant
            n == sorted@.len(),
            i <= n,
            texts(names@) == pattern_names(sorted@).take(i as int),
            texts(tails@) == pattern_tails(sorted@).take(i as int),
        decreases n - i,
    {
        let p = &sorted[i];
        let name = String::from_str(p.key.path.as_str());
        let tail = pattern_tail(p);
        let ghost prev_names = names@;
        let ghost prev_tails = tails@;
        let ghost name_view = name@;
        let ghost tail_view = tail@;
        names.push(name);
        tails.push(tail);
        proof {
            assert(texts(names@) =~= texts(prev_names).push(name_view));
            assert(texts(tails@) =~= texts(prev_tails).push(tail_view));
            assert(pattern_names(sorted@).take(i + 1) =~= pattern_names(sorted@).take(i as int).push(name_view));
            assert(pattern_tails(sorted@).take(i + 1) =~= pattern_tails(sorted@).take(i as int).push(tail_view));
        }
        i = i + 1;
    }
    proof {
        assert(pattern_names(sorted@).take(n as int) =~= pattern_names(sorted@));
        assert(pattern_tails(sorted@).take(n as int) =~= pattern_tails(sorted@));
    }
    build_registry_module(DECORATED_POT_PATTERNS_HEADER, DECORATED_POT_PATTERNS_SIGNATURE, &names, &tails)
}

} // verus!
