//! Primitive pieces of generated Rust source: literals and identifiers.
use vstd::prelude::*;

verus! {

/// The text of a string literal for `text`, as the fallback implementation
/// of `proc_macro2::Literal::string` renders it (quoted, with Rust escapes).
pub uninterp spec fn string_literal(text: Seq<char>) -> Seq<char>;

/// Whether `c` has the Unicode property XID_Start, as `unicode-ident`
/// decides it.
pub uninterp spec fn xid_start(c: char) -> bool;

/// Whether `c` has the Unicode property XID_Continue, as `unicode-ident`
/// decides it.
pub uninterp spec fn xid_continue(c: char) -> bool;

/// The SHOUTY_SNAKE_CASE form of `text`, as computed by `heck`.
pub uninterp spec fn shouty_snake_case(text: Seq<char>) -> Seq<char>;

/// The ASCII digit for `d`, where `d < 10`.
pub open spec fn digit_char(d: nat) -> char {
    if d == 0 { '0' }
    else if d == 1 { '1' }
    else if d == 2 { '2' }
    else if d == 3 { '3' }
    else if d == 4 { '4' }
    else if d == 5 { '5' }
    else if d == 6 { '6' }
    else if d == 7 { '7' }
    else if d == 8 { '8' }
    else { '9' }
}

/// The views of a list of strings.
pub open spec fn texts(v: Seq<String>) -> Seq<Seq<char>> {
    v.map_values(|s: String| s@)
}

/// An ASCII letter.
pub open spec fn is_ascii_letter(c: char) -> bool {
    ('a' <= c && c <= 'z') || ('A' <= c && c <= 'Z')
}

/// An ASCII decimal digit.
pub open spec fn is_decimal_digit(c: char) -> bool {
    '0' <= c && c <= '9'
}

/// Decimal digits of a natural number, most significant first, without
/// leading zeros (zero is written `0`).
pub open spec fn decimal_digits(n: nat) -> Seq<char>
    decreases n,
{
    if n < 10 {
        seq![digit_char(n)]
    } else {
        decimal_digits(n / 10) + seq![digit_char(n % 10)]
    }
}

/// Decimal text of an integer, with a leading `-` for negative values.
pub open spec fn decimal(v: int) -> Seq<char> {
    if v < 0 {
        seq!['-'] + decimal_digits((-v) as nat)
    } else {
        decimal_digits(v as nat)
    }
}

/// The text of an `i32`-suffixed integer literal, such as `-5i32`.
pub open spec fn i32_literal(v: i32) -> Seq<char> {
    decimal(v as int) + seq!['i', '3', '2']
}

/// The text of a boolean literal.
pub open spec fn bool_literal(b: bool) -> Seq<char> {
    if b {
        seq!['t', 'r', 'u', 'e']
    } else {
        seq!['f', 'a', 'l', 's', 'e']
    }
}

/// A text that `proc_macro2::Ident::new` accepts as an identifier: not
/// empty, starting with `_` or an XID_Start character, and going on with
/// XID_Continue characters. (A text of digits only, which the constructor
/// also refuses, fails the first condition: digits are not XID_Start.)
pub open spec fn is_rust_ident(s: Seq<char>) -> bool {
    &&& s.len() > 0
    &&& (s[0] == '_' || xid_start(s[0]))
    &&& forall|i: int| 1 <= i < s.len() ==> #[trigger] xid_continue(s[i])
}

/// Calls `proc_macro2::Literal::i32_suffixed` and renders the literal.
/// Outside a procedural macro (a build script, a test) the outside source
/// uses its fallback literal, built as `format!("{}i32", n)` and displayed
/// unchanged: the decimal text of `v` followed by `i32`.
#[verifier::external_body]
pub(crate) fn i32_literal_text(v: i32) -> (res: String)
    ensures
        res@ == i32_literal(v),
{
    proc_macro2::Literal::i32_suffixed(v).to_string()
}

/// Calls `proc_macro2::Literal::string` and renders the literal; the result
/// is named by `string_literal`. `proc_macro2` picks at run time between
/// the compiler's implementation (inside a procedural macro) and its own
/// fallback, and the two may escape differently; the call is therefore
/// preceded by `proc_macro2::fallback::force`, which makes every later
/// `proc_macro2` call of the process use the fallback, so that the result
/// depends on the text alone. The fallback quotes the text and escapes it
/// with `char::escape_debug` (except `'`, and NUL written as `\0` or
/// `\x00`); that escaping is left unstated here.
#[verifier::external_body]
pub(crate) fn string_literal_text(text: &str) -> (res: String)
    ensures
        res@ == string_literal(text@),
{
    proc_macro2::fallback::force();
    proc_macro2::Literal::string(text).to_string()
}

/// Calls `unicode_ident::is_xid_start`, a pure table lookup; the result is
/// named by `xid_start`. For an ASCII character the outside source looks
/// the answer up in `ASCII_START`, whose set bits are exactly the letters
/// `A`-`Z` and `a`-`z`.
#[verifier::external_body]
fn xid_start_from_outside(c: char) -> (res: bool)
    ensures
        res == xid_start(c),
        (c as int) < 128 ==> (res <==> is_ascii_letter(c)),
{
    unicode_ident::is_xid_start(c)
}

/// Calls `unicode_ident::is_xid_continue`, a pure table lookup; the result
/// is named by `xid_continue`. For an ASCII character the outside source
/// looks the answer up in `ASCII_CONTINUE`, whose set bits are exactly the
/// letters, the digits `0`-`9` and `_`.
#[verifier::external_body]
fn xid_continue_from_outside(c: char) -> (res: bool)
    ensures
        res == xid_continue(c),
        (c as int) < 128 ==> (res <==> (is_ascii_letter(c) || is_decimal_digit(c) || c == '_')),
{
    unicode_ident::is_xid_continue(c)
}

/// Calls `heck::ToShoutySnakeCase::to_shouty_snake_case`; the result is
/// named by `shouty_snake_case`. The word splitting of the outside
/// algorithm is left unstated here.
#[verifier::external_body]
fn shouty_snake_case_from_outside(text: &str) -> (res: String)
    ensures
        res@ == shouty_snake_case(text@),
{
    heck::ToShoutySnakeCase::to_shouty_snake_case(text)
}

/// Calls `proc_macro2::Ident::new` at the call-site span and renders the
/// identifier. The call is preceded by `proc_macro2::fallback::force`, so
/// that the fallback implementation is used (the compiler's would
/// normalize the text to NFC). The fallback panics on texts that are empty,
/// all digits, or not `_`/XID_Start followed by XID_Continue characters
/// (the tables of `unicode-ident`); `is_rust_ident` excludes all of these.
/// A non-raw fallback identifier displays as the text it was made from.
#[verifier::external_body]
fn ident_from_outside(text: &str) -> (res: String)
    requires
        is_rust_ident(text@),
    ensures
        res@ == text@,
{
    proc_macro2::fallback::force();
    proc_macro2::Ident::new(text, proc_macro2::Span::call_site()).to_string()
}

/// The text of the boolean literal for `b`.
pub(crate) fn bool_literal_text(b: bool) -> (res: String)
    ensures
        res@ == bool_literal(b),
{
    let res = if b {
        String::from_str("true")
    } else {
        String::from_str("false")
    };
    proof {
        reveal_strlit("true");
        reveal_strlit("false");
    }
    res
}

/// Whether `text` is an identifier that `proc_macro2::Ident::new` accepts
/// (see `is_rust_ident`).
pub fn check_ident(text: &str) -> (res: bool)
    ensures
        res == is_rust_ident(text@),
{
    let n = text.unicode_len();
    if n == 0 {
        return false;
    }
    let first = text.get_char(0);
    if !(first == '_' || xid_start_from_outside(first)) {
        return false;
    }
    let mut i: usize = 1;
    while i < n
        invariant
            n == text@.len(),
            1 <= i <= n,
            forall|k: int| 1 <= k < i ==> #[trigger] xid_continue(text@[k]),
        decreases n - i,
    {
        if !xid_continue_from_outside(text.get_char(i)) {
            return false;
        }
        i = i + 1;
    }
    true
}

/// The identifier of the static that holds the registry entry called `name`:
/// its SHOUTY_SNAKE_CASE form. `None` when `proc_macro2::Ident::new` would
/// refuse that form.
pub fn static_ident(name: &str) -> (res: Option<String>)
    ensures
        match res {
            Some(id) => is_rust_ident(shouty_snake_case(name@)) && id@ == shouty_snake_case(name@),
            None => !is_rust_ident(shouty_snake_case(name@)),
        },
{
    let shouty = shouty_snake_case_from_outside(name);
    if check_ident(shouty.as_str()) {
        Some(ident_from_outside(shouty.as_str()))
    } else {
        None
    }
}

/// The items of `items` separated by `, `.
pub open spec fn comma_separated(items: Seq<Seq<char>>) -> Seq<char>
    decreases items.len(),
{
    if items.len() == 0 {
        Seq::empty()
    } else if items.len() == 1 {
        items[0]
    } else {
        comma_separated(items.drop_last()) + ", "@ + items.last()
    }
}

/// `path { f1, f2, .. }` for rendered fields `f1, f2, ..`.
pub open spec fn struct_expr(path: Seq<char>, fields: Seq<Seq<char>>) -> Seq<char> {
    path + " { "@ + comma_separated(fields) + " }"@
}

/// The text of a struct expression: `path { f1, f2, .. }`.
pub fn struct_expr_text(path: &str, fields: &Vec<String>) -> (res: String)
    ensures
        res@ == struct_expr(path@, fields@.map_values(|f: String| f@)),
{
    let ghost items = fields@.map_values(|f: String| f@);
    let mut out = String::from_str(path);
    out.append(" { ");
    let ghost head = out@;
    let n = fields.len();
    let mut i: usize = 0;
    while i < n
        invariant
            n == fields@.len(),
            items == fields@.map_values(|f: String| f@),
            i <= n,
            out@ == head + comma_separated(items.take(i as int)),
        decreases n - i,
    {
        if i > 0 {
            out.append(", ");
        }
        out.append(fields[i].as_str());
        proof {
            let taken = items.take(i + 1);
            assert(taken.drop_last() =~= items.take(i as int));
            assert(taken.last() == fields@[i as int]@);
            reveal_with_fuel(comma_separated, 2);
        }
        i = i + 1;
    }
    proof {
        assert(items.take(n as int) =~= items);
    }
    out.append(" }");
    out
}

} // verus!
