//! File names of data files: their extension and stem, and the order in
//! which a directory's data files are read.
use vstd::prelude::*;
use crate::source::texts;

verus! {

/// The position of the last `.` in `s`, or `-1` when `s` has none.
pub open spec fn last_dot(s: Seq<char>) -> int
    decreases s.len(),
{
    if s.len() == 0 {
        -1
    } else if s.last() == '.' {
        s.len() - 1
    } else {
        last_dot(s.drop_last())
    }
}

/// Whether the file name is `..`, which has neither stem nor extension of
/// its own.
pub open spec fn is_parent_dir(name: Seq<char>) -> bool {
    name == seq!['.', '.']
}

/// The extension of a file name, as `Path::extension` documents it: the
/// part after the final `.`; none when the name has no `.`, or when its
/// only `.` is its first character.
pub open spec fn extension(name: Seq<char>) -> Option<Seq<char>> {
    let d = last_dot(name);
    if is_parent_dir(name) || d <= 0 {
        None
    } else {
        Some(name.skip(d + 1))
    }
}

/// The stem of a file name, as `Path::file_stem` documents it: the part
/// before the final `.`; the whole name when the name has no `.`, or when
/// its only `.` is its first character.
pub open spec fn file_stem(name: Seq<char>) -> Seq<char> {
    let d = last_dot(name);
    if is_parent_dir(name) || d <= 0 {
        name
    } else {
        name.take(d)
    }
}

/// Whether a file name has the extension `json`.
pub open spec fn is_json_file(name: Seq<char>) -> bool {
    extension(name) == Some(seq!['j', 's', 'o', 'n'])
}

/// `last_dot` lies inside the name, points at a `.`, and no `.` follows it.
pub proof fn lemma_last_dot(s: Seq<char>)
    ensures
        -1 <= last_dot(s) < s.len(),
        last_dot(s) >= 0 ==> s[last_dot(s)] == '.',
        forall|k: int| last_dot(s) < k < s.len() ==> s[k] != '.',
    decreases s.len(),
{
    if s.len() > 0 && s.last() != '.' {
        lemma_last_dot(s.drop_last());
        assert forall|k: int| last_dot(s) < k < s.len() implies s[k] != '.' by {
            if k < s.len() - 1 {
                assert(s.drop_last()[k] == s[k]);
            }
        }
    }
}

/// A `.` at `k` with no `.` after it is the last `.`.
pub proof fn lemma_last_dot_at(s: Seq<char>, k: int)
    requires
        -1 <= k < s.len(),
        k >= 0 ==> s[k] == '.',
        forall|j: int| k < j < s.len() ==> s[j] != '.',
    ensures
        last_dot(s) == k,
    decreases s.len(),
{
    if s.len() > 0 && k != s.len() - 1 {
        lemma_last_dot_at(s.drop_last(), k);
    }
}

/// A file name with an extension is its stem, a `.`, and the extension.
pub proof fn law_stem_dot_extension(name: Seq<char>)
    requires
        extension(name) is Some,
    ensures
        name == file_stem(name) + seq!['.'] + extension(name).unwrap(),
{
    lemma_last_dot(name);
    let d = last_dot(name);
    assert(name =~= name.take(d) + seq!['.'] + name.skip(d + 1));
}

/// The position of the last `.` in `name`, or `-1`.
fn find_last_dot(name: &str) -> (res: Option<usize>)
    ensures
        match res {
            Some(k) => k == last_dot(name@),
            None => last_dot(name@) == -1,
        },
{
    let n = name.unicode_len();
    let mut i: usize = n;
    while i > 0
        invariant
            n == name@.len(),
            i <= n,
            forall|j: int| i <= j < n ==> name@[j] != '.',
        decreases i,
    {
        if name.get_char(i - 1) == '.' {
            proof {
                lemma_last_dot_at(name@, i - 1);
            }
            return Some(i - 1);
        }
        i = i - 1;
    }
    proof {
        lemma_last_dot_at(name@, -1);
    }
    None
}

/// The stem of `name` when its extension is `json`; `None` otherwise.
pub fn json_file_stem(name: &str) -> (res: Option<String>)
    ensures
        match res {
            Some(stem) => is_json_file(name@) && stem@ == file_stem(name@),
            None => !is_json_file(name@),
        },
{
    let n = name.unicode_len();
    let d = find_last_dot(name);
    proof {
        lemma_last_dot(name@);
    }
    let parent = n == 2 && name.get_char(0) == '.' && name.get_char(1) == '.';
    proof {
        if parent {
            assert(name@ =~= seq!['.', '.']);
        } else if n == 2 {
            assert(!(name@ =~= seq!['.', '.']));
        }
    }
    let du = match d {
        Some(k) if k > 0 && !parent => k,
        _ => return None,
    };
    let ext = String::from_str(name.substring_char(du + 1, n));
    let json = String::from_str("json");
    proof {
        reveal_strlit("json");
        assert(json@ =~= seq!['j', 's', 'o', 'n']);
        assert(name@.subrange(du + 1, n as int) =~= name@.skip(du + 1));
    }
    if ext == json {
        let stem = String::from_str(name.substring_char(0, du));
        proof {
            assert(name@.subrange(0, du as int) =~= name@.take(du as int));
        }
        Some(stem)
    } else {
        None
    }
}

/// Lexicographic order of texts by character code, the order in which the
/// file names of a directory listing are sorted (byte order of UTF-8 agrees
/// with the order of code points).
pub open spec fn lex_lt(a: Seq<char>, b: Seq<char>) -> bool
    decreases a.len(),
{
    if b.len() == 0 {
        false
    } else if a.len() == 0 {
        true
    } else if a[0] != b[0] {
        (a[0] as int) < (b[0] as int)
    } else {
        lex_lt(a.drop_first(), b.drop_first())
    }
}

/// No text comes before itself.
pub proof fn lemma_lex_irreflexive(a: Seq<char>)
    ensures
        !lex_lt(a, a),
    decreases a.len(),
{
    if a.len() > 0 {
        lemma_lex_irreflexive(a.drop_first());
    }
}

/// Of two different texts, one comes before the other.
pub proof fn lemma_lex_total(a: Seq<char>, b: Seq<char>)
    requires
        a != b,
    ensures
        lex_lt(a, b) || lex_lt(b, a),
    decreases a.len(),
{
    if a.len() > 0 && b.len() > 0 && a[0] == b[0] {
        if a.drop_first() == b.drop_first() {
            assert(a =~= seq![a[0]] + a.drop_first());
            assert(b =~= seq![b[0]] + b.drop_first());
        }
        lemma_lex_total(a.drop_first(), b.drop_first());
    } else if a.len() == 0 && b.len() == 0 {
        assert(a =~= b);
    } else if a.len() > 0 && b.len() > 0 {
        assert((a[0] as int) != (b[0] as int));
    }
}

/// Whether `a` comes before `b` in lexicographic order.
pub fn lex_less(a: &str, b: &str) -> (res: bool)
    ensures
        res == lex_lt(a@, b@),
{
    let na = a.unicode_len();
    let nb = b.unicode_len();
    let mut i: usize = 0;
    proof {
        assert(a@.skip(0) =~= a@);
        assert(b@.skip(0) =~= b@);
    }
    loop
        invariant
            na == a@.len(),
            nb == b@.len(),
            i <= na,
            i <= nb,
            lex_lt(a@, b@) == lex_lt(a@.skip(i as int), b@.skip(i as int)),
        decreases na - i,
    {
        if i == nb {
            return false;
        }
        if i == na {
            return true;
        }
        let ca = a.get_char(i);
        let cb = b.get_char(i);
        proof {
            assert(a@.skip(i as int)[0] == ca);
            assert(b@.skip(i as int)[0] == cb);
            assert(a@.skip(i as int).drop_first() =~= a@.skip(i + 1));
            assert(b@.skip(i as int).drop_first() =~= b@.skip(i + 1));
        }
        if ca != cb {
            return ca < cb;
        }
        i = i + 1;
    }
}

/// Whether the entry at index `i` of `names` is read before the one at `j`:
/// by name, and by position between equal names.
pub open spec fn entry_before(names: Seq<Seq<char>>, i: int, j: int) -> bool {
    lex_lt(names[i], names[j]) || (names[i] == names[j] && i < j)
}

/// Of two different positions, one is read before the other.
pub proof fn lemma_entry_before_total(names: Seq<Seq<char>>, i: int, j: int)
    requires
        i != j,
    ensures
        entry_before(names, i, j) || entry_before(names, j, i),
{
    if names[i] != names[j] {
        lemma_lex_total(names[i], names[j]);
    }
}

/// No position is read before itself.
pub proof fn lemma_entry_before_irreflexive(names: Seq<Seq<char>>, i: int)
    ensures
        !entry_before(names, i, i),
{
    lemma_lex_irreflexive(names[i]);
}

/// Lexicographic order is transitive.
pub proof fn lemma_lex_transitive(a: Seq<char>, b: Seq<char>, c: Seq<char>)
    requires
        lex_lt(a, b),
        lex_lt(b, c),
    ensures
        lex_lt(a, c),
    decreases a.len(),
{
    if a.len() > 0 && b.len() > 0 && c.len() > 0 && a[0] == b[0] && b[0] == c[0] {
        lemma_lex_transitive(a.drop_first(), b.drop_first(), c.drop_first());
    }
}

/// Reading order is transitive.
pub proof fn lemma_entry_before_transitive(names: Seq<Seq<char>>, i: int, j: int, k: int)
    requires
        entry_before(names, i, j),
        entry_before(names, j, k),
    ensures
        entry_before(names, i, k),
{
    if lex_lt(names[i], names[j]) && lex_lt(names[j], names[k]) {
        lemma_lex_transitive(names[i], names[j], names[k]);
    }
}

/// `order` lists exactly the positions of the `json` files among `names`,
/// each once, in reading order.
pub open spec fn is_json_reading_order(names: Seq<Seq<char>>, order: Seq<usize>) -> bool {
    &&& forall|k: int| 0 <= k < order.len() ==> #[trigger] order[k] < names.len() && is_json_file(names[order[k] as int])
    &&& forall|i: int| 0 <= i < names.len() && #[trigger] is_json_file(names[i]) ==> order.contains(i as usize)
    &&& forall|a: int, b: int| 0 <= a < b < order.len() ==> entry_before(names, #[trigger] order[a] as int, #[trigger] order[b] as int)
}

/// The positions of the `json` files among `names`, sorted by file name as
/// a directory listing is sorted before its files are read.
pub fn json_reading_order(names: &Vec<String>) -> (order: Vec<usize>)
    ensures
        is_json_reading_order(texts(names@), order@),
{
    let ghost ns = texts(names@);
    let n = names.len();
    let mut remaining: Vec<usize> = Vec::new();
    let mut i: usize = 0;
    while i < n
        invariant
            n == names@.len(),
            ns == texts(names@),
            i <= n,
            forall|k: int| 0 <= k < remaining.len() ==> #[trigger] remaining@[k] < i && is_json_file(ns[remaining@[k] as int]),
            forall|a: int, b: int| 0 <= a < b < remaining.len() ==> #[trigger] remaining@[a] < #[trigger] remaining@[b],
            forall|j: int| 0 <= j < i && #[trigger] is_json_file(ns[j]) ==> remaining@.contains(j as usize),
        decreases n - i,
    {
        let is_json = json_file_stem(names[i].as_str()).is_some();
        let ghost before_push = remaining@;
        if is_json {
            remaining.push(i);
            assert(remaining@[remaining.len() - 1] == i);
        }
        proof {
            assert forall|j: int| 0 <= j < i + 1 && #[trigger] is_json_file(ns[j]) implies remaining@.contains(j as usize) by {
                if j == i {
                    assert(remaining@[remaining.len() - 1] == i);
                } else {
                    let p = choose|p: int| 0 <= p < before_push.len() && before_push[p] == j as usize;
                    assert(remaining@[p] == j as usize);
                }
            }
        }
        i = i + 1;
    }
    let mut order: Vec<usize> = Vec::new();
    while remaining.len() > 0
        invariant
            n == names@.len(),
            ns == texts(names@),
            forall|k: int| 0 <= k < remaining.len() ==> #[trigger] remaining@[k] < n && is_json_file(ns[remaining@[k] as int]),
            forall|k: int| 0 <= k < order.len() ==> #[trigger] order@[k] < n && is_json_file(ns[order@[k] as int]),
            forall|a: int, b: int| 0 <= a < b < remaining.len() ==> #[trigger] remaining@[a] != #[trigger] remaining@[b],
            forall|j: int| 0 <= j < n && #[trigger] is_json_file(ns[j]) ==> order@.contains(j as usize) || remaining@.contains(j as usize),
            forall|a: int, b: int| 0 <= a < b < order.len() ==> entry_before(ns, #[trigger] order@[a] as int, #[trigger] order@[b] as int),
            forall|a: int, b: int| 0 <= a < order.len() && 0 <= b < remaining.len() ==> entry_before(ns, #[trigger] order@[a] as int, #[trigger] remaining@[b] as int),
        decreases remaining.len(),
    {
        let r = remaining.len();
        let mut m: usize = 0;
        let mut k: usize = 1;
        proof {
            lemma_entry_before_irreflexive(ns, remaining@[0] as int);
        }
        while k < r
            invariant
                r == remaining.len(),
                n == names@.len(),
                ns == texts(names@),
                m < k <= r,
                forall|k: int| 0 <= k < remaining.len() ==> #[trigger] remaining@[k] < n,
                forall|j: int| 0 <= j < k ==> !entry_before(ns, #[trigger] remaining@[j] as int, remaining@[m as int] as int),
            decreases r - k,
        {
            let a = remaining[k];
            let b = remaining[m];
            let before = lex_less(names[a].as_str(), names[b].as_str())
                || (names[a] == names[b] && a < b);
            if before {
                proof {
                    assert forall|j: int| 0 <= j < k + 1 implies !entry_before(ns, #[trigger] remaining@[j] as int, remaining@[k as int] as int) by {
                        lemma_entry_before_irreflexive(ns, remaining@[k as int] as int);
                        if j < k && entry_before(ns, remaining@[j] as int, remaining@[k as int] as int) {
                            lemma_entry_before_transitive(ns, remaining@[j] as int, remaining@[k as int] as int, remaining@[m as int] as int);
                        }
                    }
                }
                m = k;
            }
            k = k + 1;
        }
        let picked = remaining[m];
        proof {
            assert forall|j: int| 0 <= j < r && j != m implies entry_before(ns, picked as int, #[trigger] remaining@[j] as int) by {
                lemma_entry_before_total(ns, picked as int, remaining@[j] as int);
            }
        }
        let ghost old_remaining = remaining@;
        let ghost old_order = order@;
        order.push(picked);
        remaining.remove(m);
        proof {
            assert forall|j: int| 0 <= j < remaining.len() implies #[trigger] remaining@[j] == (if j < m { old_remaining[j] } else { old_remaining[j + 1] }) by {}
            assert forall|j: int| 0 <= j < n && #[trigger] is_json_file(ns[j]) implies order@.contains(j as usize) || remaining@.contains(j as usize) by {
                if old_order.contains(j as usize) {
                    let p = choose|p: int| 0 <= p < old_order.len() && old_order[p] == j as usize;
                    assert(order@[p] == j as usize);
                } else {
                    let p = choose|p: int| 0 <= p < old_remaining.len() && old_remaining[p] == j as usize;
                    if p == m {
                        assert(order@[order.len() - 1] == j as usize);
                    } else if p < m {
                        assert(remaining@[p] == j as usize);
                    } else {
                        assert(remaining@[p - 1] == j as usize);
                    }
                }
            }
        }
    }
    order
}

/// The names at the positions of `order`.
pub open spec fn names_in_order(names: Seq<Seq<char>>, order: Seq<usize>) -> Seq<Seq<char>> {
    order.map_values(|i: usize| names[i as int])
}

/// No name occurs twice.
pub open spec fn distinct_names(names: Seq<Seq<char>>) -> bool {
    forall|i: int, j: int| 0 <= i < j < names.len() ==> #[trigger] names[i] != #[trigger] names[j]
}

/// Each text comes before every later one.
pub open spec fn strictly_sorted(s: Seq<Seq<char>>) -> bool {
    forall|p: int, q: int| 0 <= p < q < s.len() ==> lex_lt(#[trigger] s[p], #[trigger] s[q])
}

/// Two strictly sorted lists with the same members agree on a prefix of
/// length `i`.
proof fn lemma_sorted_prefix(x: Seq<Seq<char>>, y: Seq<Seq<char>>, i: int)
    requires
        strictly_sorted(x),
        strictly_sorted(y),
        forall|p: int| 0 <= p < x.len() ==> y.contains(#[trigger] x[p]),
        forall|q: int| 0 <= q < y.len() ==> x.contains(#[trigger] y[q]),
        0 <= i <= x.len(),
        i <= y.len(),
    ensures
        forall|k: int| 0 <= k < i ==> #[trigger] x[k] == y[k],
    decreases i,
{
    if i > 0 {
        let m = i - 1;
        lemma_sorted_prefix(x, y, m);
        assert(y.contains(x[m]));
        let j = choose|j: int| 0 <= j < y.len() && y[j] == x[m];
        assert(x.contains(y[m]));
        let jj = choose|j: int| 0 <= j < x.len() && x[j] == y[m];
        if j < m {
            assert(x[j] == y[j]);
            assert(lex_lt(x[j], x[m]));
            lemma_lex_irreflexive(x[m]);
        } else if j > m {
            if jj < m {
                assert(x[jj] == y[jj]);
                assert(lex_lt(y[jj], y[m]));
                lemma_lex_irreflexive(y[m]);
            } else if jj > m {
                assert(lex_lt(x[m], x[jj]));
                assert(lex_lt(y[m], y[j]));
                lemma_lex_transitive(y[m], y[j], y[m]);
                lemma_lex_irreflexive(y[m]);
            }
        }
    }
}

/// Two strictly sorted lists with the same members are the same list.
pub proof fn lemma_sorted_same_members(x: Seq<Seq<char>>, y: Seq<Seq<char>>)
    requires
        strictly_sorted(x),
        strictly_sorted(y),
        forall|p: int| 0 <= p < x.len() ==> y.contains(#[trigger] x[p]),
        forall|q: int| 0 <= q < y.len() ==> x.contains(#[trigger] y[q]),
    ensures
        x == y,
{
    if x.len() > y.len() {
        let i = y.len() as int;
        lemma_sorted_prefix(x, y, i);
        assert(y.contains(x[i]));
        let j = choose|j: int| 0 <= j < y.len() && y[j] == x[i];
        assert(x[j] == y[j]);
        assert(lex_lt(x[j], x[i]));
        lemma_lex_irreflexive(x[i]);
    } else if y.len() > x.len() {
        let i = x.len() as int;
        lemma_sorted_prefix(x, y, i);
        assert(x.contains(y[i]));
        let j = choose|j: int| 0 <= j < x.len() && x[j] == y[i];
        assert(x[j] == y[j]);
        assert(lex_lt(y[j], y[i]));
        lemma_lex_irreflexive(y[i]);
    } else {
        lemma_sorted_prefix(x, y, x.len() as int);
    }
    assert(x =~= y);
}

/// With distinct names, the reading order visits names in strictly
/// increasing order, and visits every `json` name of the listing.
proof fn lemma_reading_order_names(names: Seq<Seq<char>>, order: Seq<usize>)
    requires
        is_json_reading_order(names, order),
        distinct_names(names),
        names.len() <= usize::MAX,
    ensures
        strictly_sorted(names_in_order(names, order)),
        forall|p: int| 0 <= p < order.len() ==> #[trigger] is_json_file(names_in_order(names, order)[p]),
        forall|n: Seq<char>| #[trigger] names.contains(n) && is_json_file(n) ==> names_in_order(names, order).contains(n),
{
    let s = names_in_order(names, order);
    assert forall|p: int, q: int| 0 <= p < q < s.len() implies lex_lt(#[trigger] s[p], #[trigger] s[q]) by {
        let i = order[p] as int;
        let j = order[q] as int;
        assert(entry_before(names, i, j));
        lemma_entry_before_irreflexive(names, i);
        if i < j {
            assert(names[i] != names[j]);
        } else if j < i {
            assert(names[j] != names[i]);
        }
    }
    assert forall|p: int| 0 <= p < order.len() implies #[trigger] is_json_file(s[p]) by {
        assert(order[p] < names.len());
    }
    assert forall|n: Seq<char>| #[trigger] names.contains(n) && is_json_file(n) implies s.contains(n) by {
        let i = choose|i: int| 0 <= i < names.len() && names[i] == n;
        assert(is_json_file(names[i]));
        assert(order.contains(i as usize));
        let p = choose|p: int| 0 <= p < order.len() && order[p] == i as usize;
        assert(s[p] == n);
    }
}

/// The data files are read in the same order however the directory lists
/// them: two listings of the same distinct names give the same sequence of
/// names in reading order.
pub proof fn law_reading_order_ignores_listing_order(
    a: Seq<Seq<char>>,
    b: Seq<Seq<char>>,
    order_a: Seq<usize>,
    order_b: Seq<usize>,
)
    requires
        distinct_names(a),
        distinct_names(b),
        a.len() <= usize::MAX,
        b.len() <= usize::MAX,
        forall|n: Seq<char>| a.contains(n) <==> b.contains(n),
        is_json_reading_order(a, order_a),
        is_json_reading_order(b, order_b),
    ensures
        names_in_order(a, order_a) == names_in_order(b, order_b),
{
    lemma_reading_order_names(a, order_a);
    lemma_reading_order_names(b, order_b);
    let x = names_in_order(a, order_a);
    let y = names_in_order(b, order_b);
    assert forall|p: int| 0 <= p < x.len() implies y.contains(#[trigger] x[p]) by {
        assert(order_a[p] < a.len());
        assert(a.contains(a[order_a[p] as int]));
        assert(is_json_file(x[p]));
        assert(b.contains(x[p]));
    }
    assert forall|q: int| 0 <= q < y.len() implies x.contains(#[trigger] y[q]) by {
        assert(order_b[q] < b.len());
        assert(b.contains(b[order_b[q] as int]));
        assert(is_json_file(y[q]));
        assert(a.contains(y[q]));
    }
    lemma_sorted_same_members(x, y);
}

} // verus!
