//! Pieces shared by every generated registry module: identifiers, the
//! layout of the module, and the errors that stop generation.
use vstd::prelude::*;
use crate::source::{texts, is_rust_ident, shouty_snake_case, static_ident, string_literal, string_literal_text, struct_expr, struct_expr_text};
use crate::providers::{call1, call1_text, field, field_text};
use crate::readback::{law_identifier_shows_both_parts, shows_field};

verus! {

/// A namespaced identifier such as `minecraft:quartz`.
#[derive(Debug, PartialEq, Eq)]
pub struct Identifier {
    pub namespace: String,
    pub path: String,
}

/// Why a registry module could not be generated.
#[derive(Debug, Clone, Copy, PartialEq, Eq)]
pub enum CodegenError {
    /// The entry at `index` has a name whose SHOUTY_SNAKE_CASE form is not
    /// a valid identifier, so no static can be named after it.
    InvalidIdentifier { index: usize },
    /// The numeric ids of the entries are not `0..n` in some order.
    NonContiguousIds,
}

/// The namespace of identifiers written without one.
pub open spec fn default_namespace() -> Seq<char> {
    seq!['m', 'i', 'n', 'e', 'c', 'r', 'a', 'f', 't']
}

/// The position of the first `:` in `s`, or `-1`.
pub open spec fn first_colon(s: Seq<char>) -> int
    decreases s.len(),
{
    if s.len() == 0 {
        -1
    } else if s[0] == ':' {
        0
    } else if first_colon(s.drop_first()) < 0 {
        -1
    } else {
        first_colon(s.drop_first()) + 1
    }
}

/// The identifier written as `text`: `namespace:path`, split at the first
/// `:`; the namespace is `minecraft` when the text has no `:` or starts
/// with it.
pub open spec fn parse_identifier(text: Seq<char>) -> (Seq<char>, Seq<char>) {
    let c = first_colon(text);
    if c < 0 {
        (default_namespace(), text)
    } else if c == 0 {
        (default_namespace(), text.skip(1))
    } else {
        (text.take(c), text.skip(c + 1))
    }
}

/// `first_colon` lies inside the text, points at a `:`, and no `:` comes
/// before it.
pub proof fn lemma_first_colon(s: Seq<char>)
    ensures
        -1 <= first_colon(s) < s.len(),
        first_colon(s) >= 0 ==> s[first_colon(s)] == ':',
        forall|k: int| 0 <= k < s.len() && (first_colon(s) < 0 || k < first_colon(s)) ==> s[k] != ':',
    decreases s.len(),
{
    if s.len() > 0 && s[0] != ':' {
        lemma_first_colon(s.drop_first());
        assert forall|k: int| 0 <= k < s.len() && (first_colon(s) < 0 || k < first_colon(s)) implies s[k] != ':' by {
            if k > 0 {
                assert(s.drop_first()[k - 1] == s[k]);
            }
        }
    }
}

/// A `:` at `k` with none before it is the first `:`.
pub proof fn lemma_first_colon_at(s: Seq<char>, k: int)
    requires
        -1 <= k < s.len(),
        k >= 0 ==> s[k] == ':',
        forall|j: int| 0 <= j < s.len() && (k < 0 || j < k) ==> s[j] != ':',
    ensures
        first_colon(s) == k,
    decreases s.len(),
{
    if s.len() > 0 && k != 0 {
        let t = s.drop_first();
        assert forall|j: int| 0 <= j < t.len() && (k - 1 < 0 || j < k - 1) implies t[j] != ':' by {
            assert(t[j] == s[j + 1]);
        }
        if k > 0 {
            lemma_first_colon_at(t, k - 1);
        } else {
            lemma_first_colon_at(t, -1);
        }
    }
}

impl Identifier {
    /// Reads an identifier written as `namespace:path` (see
    /// `parse_identifier`).
    pub fn parse(text: &str) -> (res: Identifier)
        ensures
            (res.namespace@, res.path@) == parse_identifier(text@),
    {
        let n = text.unicode_len();
        let mut i: usize = 0;
        while i < n
            invariant
                n == text@.len(),
                i <= n,
                forall|j: int| 0 <= j < i ==> text@[j] != ':',
            ensures
                i <= n,
                forall|j: int| 0 <= j < i ==> text@[j] != ':',
                i < n ==> text@[i as int] == ':',
            decreases n - i,
        {
            if text.get_char(i) == ':' {
                break;
            }
            i = i + 1;
        }
        proof {
            if i < n {
                lemma_first_colon_at(text@, i as int);
            } else {
                lemma_first_colon_at(text@, -1);
            }
        }
        let minecraft = String::from_str("minecraft");
        proof {
            reveal_strlit("minecraft");
            assert(minecraft@ =~= default_namespace());
        }
        if i == n {
            proof {
                assert(text@.subrange(0, n as int) =~= text@);
            }
            Identifier { namespace: minecraft, path: String::from_str(text.substring_char(0, n)) }
        } else if i == 0 {
            proof {
                assert(text@.subrange(1, n as int) =~= text@.skip(1));
            }
            Identifier { namespace: minecraft, path: String::from_str(text.substring_char(1, n)) }
        } else {
            proof {
                assert(text@.subrange(0, i as int) =~= text@.take(i as int));
                assert(text@.subrange(i + 1, n as int) =~= text@.skip(i + 1));
            }
            Identifier {
                namespace: String::from_str(text.substring_char(0, i)),
                path: String::from_str(text.substring_char(i + 1, n)),
            }
        }
    }
}

/// An identifier written with a namespace reads back as that namespace, a
/// `:`, and that path.
pub proof fn law_identifier_text_roundtrip(text: Seq<char>)
    requires
        first_colon(text) > 0,
    ensures
        parse_identifier(text).0 + seq![':'] + parse_identifier(text).1 == text,
{
    lemma_first_colon(text);
    let c = first_colon(text);
    assert(text =~= text.take(c) + seq![':'] + text.skip(c + 1));
}

/// The expression that rebuilds an identifier.
pub open spec fn identifier_src(namespace: Seq<char>, path: Seq<char>) -> Seq<char> {
    struct_expr(
        "Identifier"@,
        seq![
            field("namespace"@, call1("Cow::Borrowed"@, string_literal(namespace))),
            field("path"@, call1("Cow::Borrowed"@, string_literal(path))),
        ],
    )
}

/// The expression that builds an identifier in the `minecraft` namespace.
pub open spec fn vanilla_identifier_src(path: Seq<char>) -> Seq<char> {
    call1("Identifier::vanilla_static"@, string_literal(path))
}

/// The Rust expression that rebuilds `id`.
pub fn generate_identifier(id: &Identifier) -> (res: String)
    ensures
        res@ == identifier_src(id.namespace@, id.path@),
        shows_field(res@, "namespace"@, call1("Cow::Borrowed"@, string_literal(id.namespace@))),
        shows_field(res@, "path"@, call1("Cow::Borrowed"@, string_literal(id.path@))),
{
    proof {
        law_identifier_shows_both_parts(id.namespace@, id.path@);
    }
    let ns = call1_text("Cow::Borrowed", string_literal_text(id.namespace.as_str()).as_str());
    let path = call1_text("Cow::Borrowed", string_literal_text(id.path.as_str()).as_str());
    let mut fields: Vec<String> = Vec::new();
    fields.push(field_text("namespace", ns.as_str()));
    fields.push(field_text("path", path.as_str()));
    assert(fields@.map_values(|f: String| f@) =~= seq![
        field("namespace"@, call1("Cow::Borrowed"@, string_literal(id.namespace@))),
        field("path"@, call1("Cow::Borrowed"@, string_literal(id.path@))),
    ]);
    struct_expr_text("Identifier", &fields)
}

/// The Rust expression that builds the `minecraft` identifier with `path`.
pub fn vanilla_identifier(path: &str) -> (res: String)
    ensures
        res@ == vanilla_identifier_src(path@),
{
    call1_text("Identifier::vanilla_static", string_literal_text(path).as_str())
}

/// Each text of `items` followed by a line break.
pub open spec fn lines(items: Seq<Seq<char>>) -> Seq<char>
    decreases items.len(),
{
    if items.len() == 0 {
        Seq::empty()
    } else {
        lines(items.drop_last()) + items.last() + "\n"@
    }
}

/// The statement that registers the static `ident`.
pub open spec fn registration(ident: Seq<char>) -> Seq<char> {
    "    registry.register(&"@ + ident + ");\n"@
}

/// One registration statement per identifier, in order.
pub open spec fn registrations(idents: Seq<Seq<char>>) -> Seq<char>
    decreases idents.len(),
{
    if idents.len() == 0 {
        Seq::empty()
    } else {
        registrations(idents.drop_last()) + registration(idents.last())
    }
}

/// A registry module: its `use` lines, one static per entry, and the
/// function (with the signature `signature`) that registers the statics
/// named by `idents`, in order.
pub open spec fn registry_module(
    header: Seq<char>,
    statics: Seq<Seq<char>>,
    signature: Seq<char>,
    idents: Seq<Seq<char>>,
) -> Seq<char> {
    header + lines(statics) + signature + " {\n"@ + registrations(idents) + "}\n"@
}

/// The text of a registry module (see `registry_module`).
pub fn registry_module_text(header: &str, statics: &Vec<String>, signature: &str, idents: &Vec<String>) -> (res: String)
    ensures
        res@ == registry_module(
            header@,
            statics@.map_values(|s: String| s@),
            signature@,
            idents@.map_values(|s: String| s@),
        ),
{
    let ghost ss = statics@.map_values(|s: String| s@);
    let ghost is = idents@.map_values(|s: String| s@);
    let mut out = String::from_str(header);
    let ghost head = out@;
    let n = statics.len();
    let mut i: usize = 0;
    while i < n
        invariant
            n == statics@.len(),
            ss == statics@.map_values(|s: String| s@),
            i <= n,
            out@ == head + lines(ss.take(i as int)),
        decreases n - i,
    {
        out.append(statics[i].as_str());
        out.append("\n");
        proof {
            assert(ss.take(i + 1).drop_last() =~= ss.take(i as int));
            assert(ss.take(i + 1).last() == statics@[i as int]@);
        }
        i = i + 1;
    }
    proof {
        assert(ss.take(n as int) =~= ss);
    }
    out.append(signature);
    out.append(" {\n");
    let ghost middle = out@;
    let m = idents.len();
    let mut j: usize = 0;
    while j < m
        invariant
            m == idents@.len(),
            is == idents@.map_values(|s: String| s@),
            j <= m,
            out@ == middle + registrations(is.take(j as int)),
        decreases m - j,
    {
        out.append("    registry.register(&");
        out.append(idents[j].as_str());
        out.append(");\n");
        proof {
            assert(is.take(j + 1).drop_last() =~= is.take(j as int));
            assert(is.take(j + 1).last() == idents@[j as int]@);
        }
        j = j + 1;
    }
    proof {
        assert(is.take(m as int) =~= is);
    }
    out.append("}\n");
    out
}

/// The SHOUTY_SNAKE_CASE forms of `names`.
pub open spec fn static_idents(names: Seq<Seq<char>>) -> Seq<Seq<char>> {
    names.map_values(|n: Seq<char>| shouty_snake_case(n))
}

/// Every name of `names` gives a valid identifier.
pub open spec fn all_idents_valid(names: Seq<Seq<char>>) -> bool {
    forall|i: int| 0 <= i < names.len() ==> is_rust_ident(#[trigger] shouty_snake_case(names[i]))
}

/// `index` is the first position of `names` whose name does not give a
/// valid identifier.
pub open spec fn first_bad_ident(names: Seq<Seq<char>>, index: int) -> bool {
    &&& 0 <= index < names.len()
    &&& !is_rust_ident(shouty_snake_case(names[index]))
    &&& forall|j: int| 0 <= j < index ==> is_rust_ident(#[trigger] shouty_snake_case(names[j]))
}

/// The declaration of the static `ident`, whose type and initializer are
/// `tail`.
pub open spec fn static_decl(ident: Seq<char>, tail: Seq<char>) -> Seq<char> {
    "pub static "@ + ident + tail
}

/// One static per entry, named after the SHOUTY_SNAKE_CASE of the entry's
/// name, with the entry's type and initializer.
pub open spec fn static_decls(names: Seq<Seq<char>>, tails: Seq<Seq<char>>) -> Seq<Seq<char>> {
    Seq::new(names.len(), |i: int| static_decl(shouty_snake_case(names[i]), tails[i]))
}

/// The registry module for entries with the given names and static tails.
pub open spec fn registry_src(header: Seq<char>, signature: Seq<char>, names: Seq<Seq<char>>, tails: Seq<Seq<char>>) -> Seq<char> {
    registry_module(header, static_decls(names, tails), signature, static_idents(names))
}

/// The source of a registry module with one static per entry, in the order
/// given, each named after the SHOUTY_SNAKE_CASE of the entry's name and
/// declared with the entry's tail, and the registration function. Fails on
/// the first entry whose name gives no valid identifier.
pub fn build_registry_module(header: &str, signature: &str, names: &Vec<String>, tails: &Vec<String>) -> (res: Result<String, CodegenError>)
    requires
        names.len() == tails.len(),
    ensures
        match res {
            Ok(text) => all_idents_valid(texts(names@)) && text@ == registry_src(header@, signature@, texts(names@), texts(tails@)),
            Err(CodegenError::InvalidIdentifier { index }) => first_bad_ident(texts(names@), index as int),
            Err(_) => false,
        },
{
    let ghost ns = texts(names@);
    let ghost all_statics = static_decls(ns, texts(tails@));
    let ghost all_idents = static_idents(ns);
    let n = names.len();
    let mut statics: Vec<String> = Vec::new();
    let mut idents: Vec<String> = Vec::new();
    let mut i: usize = 0;
    while i < n
        invariant
            n == names@.len(),
            n == tails@.len(),
            ns == texts(names@),
            all_statics == static_decls(ns, texts(tails@)),
            all_idents == static_idents(ns),
            i <= n,
            texts(statics@) == all_statics.take(i as int),
            texts(idents@) == all_idents.take(i as int),
            forall|k: int| 0 <= k < i ==> is_rust_ident(#[trigger] shouty_snake_case(ns[k])),
        decreases n - i,
    {
        match static_ident(names[i].as_str()) {
            None => {
                return Err(CodegenError::InvalidIdentifier { index: i });
            },
            Some(ident) => {
                let mut decl = String::from_str("pub static ");
                decl.append(ident.as_str());
                decl.append(tails[i].as_str());
                let ghost prev_statics = statics@;
                let ghost prev_idents = idents@;
                let ghost decl_view = decl@;
                let ghost ident_view = ident@;
                proof {
                    assert(all_statics[i as int] == decl_view);
                    assert(all_idents[i as int] == ident_view);
                    assert(all_statics.take(i + 1) =~= all_statics.take(i as int).push(decl_view));
                    assert(all_idents.take(i + 1) =~= all_idents.take(i as int).push(ident_view));
                }
                statics.push(decl);
                idents.push(ident);
                proof {
                    assert(texts(statics@) =~= texts(prev_statics).push(decl_view));
                    assert(texts(idents@) =~= texts(prev_idents).push(ident_view));
                }
            },
        }
        i = i + 1;
    }
    proof {
        assert(all_statics.take(n as int) =~= all_statics);
        assert(all_idents.take(n as int) =~= all_idents);
    }
    Ok(registry_module_text(header, &statics, signature, &idents))
}

} // verus!
