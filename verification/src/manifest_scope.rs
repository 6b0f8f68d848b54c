//! The files of a manifest scope: the inputs of an inventory source, each
//! a path or a glob pattern, become the sorted list of distinct manifest
//! files to read; and the extension of a file says how it is read.
use vstd::prelude::*;

use crate::asset_search::{lemma_text_lt_irreflexive, lemma_text_lt_total, lemma_text_lt_transitive, text_lt};
use crate::model::{opt_view, strings_view};
use crate::text::{chars_eq, chars_eq_str, from_chars, to_chars};

verus! {

// ---------------------------------------------------------------------------
// Paths as lists of components
// ---------------------------------------------------------------------------

/// The pieces of a text between the slashes, in order (at least one).
pub open spec fn segments(s: Seq<char>) -> Seq<Seq<char>>
    decreases s.len(),
{
    if s.len() == 0 {
        seq![Seq::empty()]
    } else {
        let p = segments(s.drop_last());
        if s.last() == '/' {
            p.push(Seq::empty())
        } else {
            p.update(p.len() - 1, p.last().push(s.last()))
        }
    }
}

proof fn lemma_segments_nonempty(s: Seq<char>)
    ensures
        segments(s).len() >= 1,
    decreases s.len(),
{
    if s.len() > 0 {
        lemma_segments_nonempty(s.drop_last());
    }
}

/// A component, ranked as paths order them: the root (0), a leading `.`
/// (1), `..` (2), then names (3) by their text.
pub type PathPart = (int, Seq<char>);

/// The component a piece between slashes stands for, if any: empty
/// pieces and `.` (but a leading one) are dropped.
pub open spec fn segment_part(seg: Seq<char>, leading: bool) -> Option<PathPart> {
    if seg.len() == 0 {
        None
    } else if seg == "."@ {
        if leading { Some((1, Seq::empty())) } else { None }
    } else if seg == ".."@ {
        Some((2, Seq::empty()))
    } else {
        Some((3, seg))
    }
}

/// The components of the pieces, in order.
pub open spec fn parts_of_segments(segs: Seq<Seq<char>>) -> Seq<PathPart>
    decreases segs.len(),
{
    if segs.len() == 0 {
        Seq::empty()
    } else {
        let r = parts_of_segments(segs.drop_last());
        match segment_part(segs.last(), segs.len() == 1) {
            Some(p) => r.push(p),
            None => r,
        }
    }
}

/// The components of a path: the root if it starts with a slash, then the
/// pieces between slashes, without empty pieces and without `.` but a
/// leading one. Two paths with the same components are the same path.
pub open spec fn path_parts(s: Seq<char>) -> Seq<PathPart> {
    let root: Seq<PathPart> = if s.len() > 0 && s[0] == '/' { seq![(0int, Seq::<char>::empty())] } else { Seq::empty() };
    root + parts_of_segments(segments(s))
}

/// The order of components: by rank, names by their text.
pub open spec fn part_lt(a: PathPart, b: PathPart) -> bool {
    a.0 < b.0 || (a.0 == b.0 && text_lt(a.1, b.1))
}

/// The order of paths: their components compared in turn, a path before
/// the paths it begins.
pub open spec fn parts_lt(a: Seq<PathPart>, b: Seq<PathPart>) -> bool
    decreases a.len(),
{
    if a.len() == 0 {
        b.len() > 0
    } else if b.len() == 0 {
        false
    } else if a[0] != b[0] {
        part_lt(a[0], b[0])
    } else {
        parts_lt(a.drop_first(), b.drop_first())
    }
}

/// No path is before itself.
pub proof fn lemma_parts_lt_irreflexive(a: Seq<PathPart>)
    ensures
        !parts_lt(a, a),
    decreases a.len(),
{
    if a.len() > 0 {
        lemma_parts_lt_irreflexive(a.drop_first());
    }
}

proof fn lemma_part_lt_total(a: PathPart, b: PathPart)
    ensures
        a != b ==> part_lt(a, b) || part_lt(b, a),
        !(part_lt(a, b) && part_lt(b, a)),
        !part_lt(a, a),
{
    lemma_text_lt_total(a.1, b.1);
    lemma_text_lt_irreflexive(a.1);
}

/// Of two paths with different components, one is before the other.
pub proof fn lemma_parts_lt_total(a: Seq<PathPart>, b: Seq<PathPart>)
    ensures
        a != b ==> parts_lt(a, b) || parts_lt(b, a),
        !(parts_lt(a, b) && parts_lt(b, a)),
    decreases a.len(),
{
    if a.len() > 0 && b.len() > 0 {
        lemma_part_lt_total(a[0], b[0]);
        if a[0] == b[0] {
            lemma_parts_lt_total(a.drop_first(), b.drop_first());
            if a.drop_first() == b.drop_first() {
                assert(a =~= seq![a[0]] + a.drop_first());
                assert(b =~= seq![b[0]] + b.drop_first());
            }
        }
    } else if a.len() == 0 && b.len() == 0 {
        assert(a =~= b);
    }
}

/// The order of paths is transitive.
pub proof fn lemma_parts_lt_transitive(a: Seq<PathPart>, b: Seq<PathPart>, c: Seq<PathPart>)
    requires
        parts_lt(a, b),
        parts_lt(b, c),
    ensures
        parts_lt(a, c),
    decreases a.len(),
{
    if a.len() > 0 && b.len() > 0 && c.len() > 0 {
        lemma_part_lt_total(a[0], b[0]);
        lemma_part_lt_total(b[0], c[0]);
        lemma_part_lt_total(a[0], c[0]);
        if a[0] == b[0] && b[0] == c[0] {
            lemma_parts_lt_transitive(a.drop_first(), b.drop_first(), c.drop_first());
        } else if a[0] != b[0] && b[0] != c[0] {
            if a[0].0 == b[0].0 && b[0].0 == c[0].0 {
                lemma_text_lt_transitive(a[0].1, b[0].1, c[0].1);
            }
        }
    }
}

/// A component as the code holds it: its rank and its name.
pub open spec fn part_view(p: (u8, Vec<char>)) -> PathPart {
    (p.0 as int, p.1@)
}

/// The views of components.
pub open spec fn parts_view(v: Seq<(u8, Vec<char>)>) -> Seq<PathPart> {
    v.map_values(|p: (u8, Vec<char>)| part_view(p))
}

fn segments_exec(v: &Vec<char>) -> (r: Vec<Vec<char>>)
    ensures
        r@.map_values(|b: Vec<char>| b@) == segments(v@),
{
    let mut out: Vec<Vec<char>> = Vec::new();
    let mut piece: Vec<char> = Vec::new();
    let mut i: usize = 0;
    assert(v@.take(0) =~= Seq::<char>::empty());
    while i < v.len()
        invariant
            i <= v.len(),
            segments(v@.take(i as int)).len() >= 1,
            piece@ == segments(v@.take(i as int)).last(),
            out@.map_values(|b: Vec<char>| b@) == segments(v@.take(i as int)).drop_last(),
        decreases v.len() - i,
    {
        let ghost pre = v@.take(i as int);
        assert(v@.take(i + 1).drop_last() =~= pre);
        assert(v@.take(i + 1).last() == v@[i as int]);
        proof {
            lemma_segments_nonempty(pre);
        }
        let c = v[i];
        if c == '/' {
            let ghost before = out@;
            let ghost p = segments(pre);
            out.push(piece);
            assert(out@.map_values(|b: Vec<char>| b@) =~= before.map_values(|b: Vec<char>| b@).push(p.last()));
            assert(segments(v@.take(i + 1)) == p.push(Seq::empty()));
            assert(segments(v@.take(i + 1)).drop_last() =~= p);
            assert(p =~= p.drop_last().push(p.last()));
            piece = Vec::new();
        } else {
            piece.push(c);
            let ghost p = segments(pre);
            assert(segments(v@.take(i + 1)).drop_last() =~= p.drop_last());
        }
        i += 1;
    }
    assert(v@.take(v.len() as int) =~= v@);
    let ghost p = segments(v@);
    let ghost before = out@;
    out.push(piece);
    assert(out@.map_values(|b: Vec<char>| b@) =~= before.map_values(|b: Vec<char>| b@).push(p.last()));
    assert(p =~= p.drop_last().push(p.last()));
    out
}

/// The components of a path.
pub fn path_parts_exec(s: &Vec<char>) -> (r: Vec<(u8, Vec<char>)>)
    ensures
        parts_view(r@) == path_parts(s@),
{
    let segs = segments_exec(s);
    let ghost sv = segs@.map_values(|b: Vec<char>| b@);
    let mut out: Vec<(u8, Vec<char>)> = Vec::new();
    let rooted = s.len() > 0 && s[0] == '/';
    if rooted {
        out.push((0u8, Vec::new()));
    }
    let ghost root: Seq<PathPart> = if rooted { seq![(0int, Seq::<char>::empty())] } else { Seq::empty() };
    assert(parts_view(out@) =~= root);
    let mut k: usize = 0;
    assert(sv.take(0) =~= Seq::<Seq<char>>::empty());
    while k < segs.len()
        invariant
            k <= segs.len(),
            sv == segs@.map_values(|b: Vec<char>| b@),
            parts_view(out@) == root + parts_of_segments(sv.take(k as int)),
        decreases segs.len() - k,
    {
        let ghost pre = parts_of_segments(sv.take(k as int));
        assert(sv.take(k + 1).drop_last() =~= sv.take(k as int));
        assert(sv.take(k + 1).last() == segs@[k as int]@);
        let seg = &segs[k];
        let ghost before = out@;
        if seg.len() == 0 {
        } else if chars_eq_str(seg, ".") {
            if k == 0 {
                out.push((1u8, Vec::new()));
                assert(parts_view(out@) =~= parts_view(before).push((1int, Seq::<char>::empty())));
                assert(root + pre.push((1int, Seq::<char>::empty())) =~= (root + pre).push((1int, Seq::<char>::empty())));
            }
        } else if chars_eq_str(seg, "..") {
            out.push((2u8, Vec::new()));
            assert(parts_view(out@) =~= parts_view(before).push((2int, Seq::<char>::empty())));
            assert(root + pre.push((2int, Seq::<char>::empty())) =~= (root + pre).push((2int, Seq::<char>::empty())));
        } else {
            let name = crate::text::slice_chars(seg, 0, seg.len());
            assert(name@ =~= seg@);
            out.push((3u8, name));
            assert(parts_view(out@) =~= parts_view(before).push((3int, seg@)));
            assert(root + pre.push((3int, seg@)) =~= (root + pre).push((3int, seg@)));
        }
        k += 1;
    }
    assert(sv.take(segs.len() as int) =~= sv);
    out
}

fn part_lt_exec(a: &(u8, Vec<char>), b: &(u8, Vec<char>)) -> (r: bool)
    ensures
        r == part_lt(part_view(*a), part_view(*b)),
{
    if a.0 != b.0 {
        a.0 < b.0
    } else {
        crate::asset_search::text_lt_exec(&a.1, &b.1)
    }
}

fn part_eq_exec(a: &(u8, Vec<char>), b: &(u8, Vec<char>)) -> (r: bool)
    ensures
        r == (part_view(*a) == part_view(*b)),
{
    a.0 == b.0 && chars_eq(&a.1, &b.1)
}

/// Whether the first path comes before the second.
pub fn parts_lt_exec(a: &Vec<(u8, Vec<char>)>, b: &Vec<(u8, Vec<char>)>) -> (r: bool)
    ensures
        r == parts_lt(parts_view(a@), parts_view(b@)),
{
    let ghost pa = parts_view(a@);
    let ghost pb = parts_view(b@);
    let mut i: usize = 0;
    assert(pa.skip(0) =~= pa);
    assert(pb.skip(0) =~= pb);
    while i < a.len() && i < b.len()
        invariant
            i <= a.len(),
            i <= b.len(),
            pa == parts_view(a@),
            pb == parts_view(b@),
            parts_lt(pa, pb) == parts_lt(pa.skip(i as int), pb.skip(i as int)),
        decreases a.len() - i,
    {
        let ghost sa = pa.skip(i as int);
        let ghost sb = pb.skip(i as int);
        assert(sa[0] == part_view(a@[i as int]));
        assert(sb[0] == part_view(b@[i as int]));
        if !part_eq_exec(&a[i], &b[i]) {
            return part_lt_exec(&a[i], &b[i]);
        }
        assert(sa.drop_first() =~= pa.skip(i + 1));
        assert(sb.drop_first() =~= pb.skip(i + 1));
        i += 1;
    }
    assert(pa.skip(i as int).len() == a.len() - i);
    assert(pb.skip(i as int).len() == b.len() - i);
    i == a.len() && i < b.len()
}

/// Whether two paths have the same components.
pub fn parts_eq_exec(a: &Vec<(u8, Vec<char>)>, b: &Vec<(u8, Vec<char>)>) -> (r: bool)
    ensures
        r == (parts_view(a@) == parts_view(b@)),
{
    if a.len() != b.len() {
        assert(parts_view(a@).len() != parts_view(b@).len());
        return false;
    }
    let mut i: usize = 0;
    while i < a.len()
        invariant
            i <= a.len(),
            a.len() == b.len(),
            forall|j: int| 0 <= j < i ==> part_view(a@[j]) == part_view(b@[j]),
        decreases a.len() - i,
    {
        if !part_eq_exec(&a[i], &b[i]) {
            assert(parts_view(a@)[i as int] != parts_view(b@)[i as int]);
            return false;
        }
        i += 1;
    }
    assert(parts_view(a@) =~= parts_view(b@));
    true
}


// ---------------------------------------------------------------------------
// Sorting paths, each once
// ---------------------------------------------------------------------------

/// Paths in strictly increasing order, so no path twice.
pub open spec fn paths_sorted(s: Seq<Seq<char>>) -> bool {
    forall|i: int, j: int| 0 <= i < j < s.len() ==> parts_lt(path_parts(#[trigger] s[i]), path_parts(#[trigger] s[j]))
}

/// A scope lists no file twice: no two of its paths have the same
/// components.
pub proof fn lemma_sorted_paths_distinct(s: Seq<Seq<char>>, i: int, j: int)
    requires
        paths_sorted(s),
        0 <= i < j < s.len(),
    ensures
        path_parts(s[i]) != path_parts(s[j]),
{
    lemma_parts_lt_irreflexive(path_parts(s[i]));
}

/// The list holds a path with the same components.
pub open spec fn has_like(s: Seq<Seq<char>>, p: Seq<char>) -> bool {
    exists|x: Seq<char>| #[trigger] s.contains(x) && path_parts(x) == path_parts(p)
}

/// `p` is the first path of `all` with its components.
pub open spec fn first_of_kind(all: Seq<Seq<char>>, p: Seq<char>) -> bool {
    exists|i: int|
        0 <= i < all.len() && #[trigger] all[i] == p && forall|k: int| 0 <= k < i ==> path_parts(#[trigger] all[k]) != path_parts(p)
}

/// `out` is `all` sorted with repeats dropped (`sort` then `dedup` on
/// paths): in order, every path of `all` has its like in `out`, and each
/// path of `out` is the first of `all` with its components.
pub open spec fn sorted_distinct(all: Seq<Seq<char>>, out: Seq<Seq<char>>) -> bool {
    &&& paths_sorted(out)
    &&& forall|i: int| 0 <= i < all.len() ==> has_like(out, #[trigger] all[i])
    &&& forall|x: Seq<char>| #[trigger] out.contains(x) ==> first_of_kind(all, x)
}

proof fn lemma_sorted_same_elements_equal(a: Seq<Seq<char>>, b: Seq<Seq<char>>)
    requires
        paths_sorted(a),
        paths_sorted(b),
        forall|x: Seq<char>| a.contains(x) <==> b.contains(x),
    ensures
        a == b,
    decreases a.len(),
{
    if a.len() == 0 {
        if b.len() > 0 {
            assert(b.contains(b[0]));
        }
        assert(a =~= b);
    } else {
        assert(a.contains(a[0]));
        assert(b.len() > 0);
        assert(b.contains(b[0]));
        let j = choose|j: int| 0 <= j < b.len() && b[j] == a[0];
        let k = choose|k: int| 0 <= k < a.len() && a[k] == b[0];
        if j > 0 && k > 0 {
            assert(parts_lt(path_parts(a[0]), path_parts(a[k])));
            assert(parts_lt(path_parts(b[0]), path_parts(b[j])));
            lemma_parts_lt_total(path_parts(a[0]), path_parts(b[0]));
        } else if j > 0 {
            assert(a[0] == b[0]);
            assert(parts_lt(path_parts(b[0]), path_parts(b[j])));
            lemma_parts_lt_irreflexive(path_parts(b[0]));
        } else if k > 0 {
            assert(a[0] == b[0]);
            assert(parts_lt(path_parts(a[0]), path_parts(a[k])));
            lemma_parts_lt_irreflexive(path_parts(a[0]));
        }
        assert(a[0] == b[0]);
        let a1 = a.drop_first();
        let b1 = b.drop_first();
        assert forall|x: Seq<char>| a1.contains(x) <==> b1.contains(x) by {
            if a1.contains(x) {
                let i = choose|i: int| 0 <= i < a1.len() && a1[i] == x;
                assert(parts_lt(path_parts(a[0]), path_parts(a[i + 1])));
                lemma_parts_lt_irreflexive(path_parts(a[0]));
                assert(x != a[0]);
                assert(a.contains(x));
                let m = choose|m: int| 0 <= m < b.len() && b[m] == x;
                assert(m != 0);
                assert(b1[m - 1] == x);
            }
            if b1.contains(x) {
                let i = choose|i: int| 0 <= i < b1.len() && b1[i] == x;
                assert(parts_lt(path_parts(b[0]), path_parts(b[i + 1])));
                lemma_parts_lt_irreflexive(path_parts(b[0]));
                assert(x != b[0]);
                assert(b.contains(x));
                let m = choose|m: int| 0 <= m < a.len() && a[m] == x;
                assert(m != 0);
                assert(a1[m - 1] == x);
            }
        }
        assert forall|i: int, j: int| 0 <= i < j < a1.len() implies parts_lt(path_parts(#[trigger] a1[i]), path_parts(#[trigger] a1[j])) by {
            assert(a1[i] == a[i + 1] && a1[j] == a[j + 1]);
        }
        assert forall|i: int, j: int| 0 <= i < j < b1.len() implies parts_lt(path_parts(#[trigger] b1[i]), path_parts(#[trigger] b1[j])) by {
            assert(b1[i] == b[i + 1] && b1[j] == b[j + 1]);
        }
        lemma_sorted_same_elements_equal(a1, b1);
        assert(a =~= seq![a[0]] + a1);
        assert(b =~= seq![b[0]] + b1);
    }
}

/// The files of a scope are determined: two lists that both are `all`
/// sorted with repeats dropped are the same list.
pub proof fn lemma_scope_files_determined(all: Seq<Seq<char>>, a: Seq<Seq<char>>, b: Seq<Seq<char>>)
    requires
        sorted_distinct(all, a),
        sorted_distinct(all, b),
    ensures
        a == b,
{
    assert forall|x: Seq<char>| a.contains(x) implies b.contains(x) by {
        lemma_first_of_kind_in(all, a, b, x);
    }
    assert forall|x: Seq<char>| b.contains(x) implies a.contains(x) by {
        lemma_first_of_kind_in(all, b, a, x);
    }
    lemma_sorted_same_elements_equal(a, b);
}

/// A scope's file list sorts to itself: sorting a sorted list of distinct
/// paths and dropping repeats gives it back.
pub proof fn lemma_sorted_scope_is_fixed(s: Seq<Seq<char>>, out: Seq<Seq<char>>)
    requires
        paths_sorted(s),
        sorted_distinct(s, out),
    ensures
        out == s,
{
    assert forall|i: int| 0 <= i < s.len() implies has_like(s, #[trigger] s[i]) by {
        assert(s.contains(s[i]));
    }
    assert forall|x: Seq<char>| #[trigger] s.contains(x) implies first_of_kind(s, x) by {
        let i = choose|i: int| 0 <= i < s.len() && s[i] == x;
        assert forall|k: int| 0 <= k < i implies path_parts(#[trigger] s[k]) != path_parts(x) by {
            assert(parts_lt(path_parts(s[k]), path_parts(s[i])));
            lemma_parts_lt_irreflexive(path_parts(s[i]));
        }
    }
    assert(sorted_distinct(s, s));
    lemma_scope_files_determined(s, out, s);
}

proof fn lemma_first_of_kind_in(all: Seq<Seq<char>>, a: Seq<Seq<char>>, b: Seq<Seq<char>>, x: Seq<char>)
    requires
        sorted_distinct(all, a),
        sorted_distinct(all, b),
        a.contains(x),
    ensures
        b.contains(x),
{
    assert(first_of_kind(all, x));
    let i = choose|i: int|
        0 <= i < all.len() && #[trigger] all[i] == x && forall|k: int| 0 <= k < i ==> path_parts(#[trigger] all[k]) != path_parts(x);
    assert(has_like(b, all[i]));
    let y = choose|y: Seq<char>| #[trigger] b.contains(y) && path_parts(y) == path_parts(all[i]);
    assert(first_of_kind(all, y));
    let k = choose|k: int|
        0 <= k < all.len() && #[trigger] all[k] == y && forall|m: int| 0 <= m < k ==> path_parts(#[trigger] all[m]) != path_parts(y);
    if k < i {
        assert(path_parts(all[k]) == path_parts(x));
    } else if i < k {
        assert(path_parts(all[i]) == path_parts(y));
    }
    assert(y == x);
}

/// The components kept beside each path.
spec fn keys_match(out: Seq<String>, keys: Seq<Vec<(u8, Vec<char>)>>) -> bool {
    &&& out.len() == keys.len()
    &&& forall|i: int| 0 <= i < out.len() ==> parts_view(#[trigger] keys[i]@) == path_parts(out[i]@)
}

/// Inserts a path in order unless a path with its components is there.
fn insert_path(out: &mut Vec<String>, keys: &mut Vec<Vec<(u8, Vec<char>)>>, t: String, tk: Vec<(u8, Vec<char>)>) -> (inserted: bool)
    requires
        keys_match(old(out)@, old(keys)@),
        paths_sorted(strings_view(old(out)@)),
        parts_view(tk@) == path_parts(t@),
    ensures
        keys_match(final(out)@, final(keys)@),
        paths_sorted(strings_view(final(out)@)),
        inserted == !has_like(strings_view(old(out)@), t@),
        forall|x: Seq<char>|
            strings_view(final(out)@).contains(x) <==> (strings_view(old(out)@).contains(x) || (inserted && x == t@)),
{
    let ghost s = strings_view(out@);
    let ghost tp = path_parts(t@);
    let mut k: usize = 0;
    let mut done = false;
    while k < out.len() && !done
        invariant
            k <= out.len(),
            s == strings_view(out@),
            keys_match(out@, keys@),
            paths_sorted(s),
            parts_view(tk@) == tp,
            tp == path_parts(t@),
            forall|m: int| 0 <= m < k ==> parts_lt(path_parts(#[trigger] s[m]), tp),
            done ==> k < s.len() && !parts_lt(path_parts(s[k as int]), tp),
        decreases out.len() - k, if done { 0int } else { 1int },
    {
        assert(parts_view(keys@[k as int]@) == path_parts(s[k as int]));
        if parts_lt_exec(&keys[k], &tk) {
            k += 1;
        } else {
            done = true;
        }
    }
    if k < out.len() {
        if parts_eq_exec(&keys[k], &tk) {
            assert(path_parts(s[k as int]) == tp);
            assert(s.contains(s[k as int]));
            return false;
        }
    }
    proof {
        if k < s.len() {
            lemma_parts_lt_total(path_parts(s[k as int]), tp);
            assert(parts_lt(tp, path_parts(s[k as int])));
            assert forall|m: int| k <= m < s.len() implies parts_lt(tp, path_parts(#[trigger] s[m])) by {
                if m > k {
                    lemma_parts_lt_transitive(tp, path_parts(s[k as int]), path_parts(s[m]));
                }
            }
        }
        assert forall|x: Seq<char>| s.contains(x) implies path_parts(x) != tp by {
            let i = choose|i: int| 0 <= i < s.len() && s[i] == x;
            if i < k {
                lemma_parts_lt_irreflexive(tp);
            } else {
                lemma_parts_lt_irreflexive(tp);
            }
        }
    }
    let ghost old_keys = keys@;
    out.insert(k, t);
    keys.insert(k, tk);
    proof {
        let s2 = strings_view(out@);
        assert(s2 =~= s.insert(k as int, t@));
        assert forall|i: int, j: int| 0 <= i < j < s2.len() implies parts_lt(path_parts(#[trigger] s2[i]), path_parts(#[trigger] s2[j])) by {
            if i < k && j == k {
            } else if i < k && j > k {
                assert(s2[j] == s[j - 1]);
            } else if i == k {
                assert(s2[j] == s[j - 1]);
            } else if i > k {
                assert(s2[i] == s[i - 1]);
                assert(s2[j] == s[j - 1]);
            }
        }
        assert forall|i: int| 0 <= i < out@.len() implies parts_view(#[trigger] keys@[i]@) == path_parts(out@[i]@) by {
            if i < k {
                assert(keys@[i] == old_keys[i]);
            } else if i > k {
                assert(keys@[i] == old_keys[i - 1]);
                assert(out@[i]@ == s[i - 1]);
            }
        }
        assert forall|x: Seq<char>| s2.contains(x) <==> (s.contains(x) || x == t@) by {
            if s2.contains(x) {
                let i = choose|i: int| 0 <= i < s2.len() && s2[i] == x;
                if i < k {
                    assert(s[i] == x);
                } else if i > k {
                    assert(s[i - 1] == x);
                }
            }
            if s.contains(x) {
                let i = choose|i: int| 0 <= i < s.len() && s[i] == x;
                if i < k {
                    assert(s2[i] == x);
                } else {
                    assert(s2[i + 1] == x);
                }
            }
            if x == t@ {
                assert(s2[k as int] == x);
            }
        }
    }
    true
}

/// The paths sorted by their components, each once; of paths with the
/// same components the first is kept.
pub fn sort_distinct_paths(paths: &Vec<String>) -> (r: Vec<String>)
    ensures
        sorted_distinct(strings_view(paths@), strings_view(r@)),
{
    let ghost all = strings_view(paths@);
    let mut out: Vec<String> = Vec::new();
    let mut keys: Vec<Vec<(u8, Vec<char>)>> = Vec::new();
    let mut n: usize = 0;
    while n < paths.len()
        invariant
            n <= paths.len(),
            all == strings_view(paths@),
            keys_match(out@, keys@),
            paths_sorted(strings_view(out@)),
            forall|i: int| 0 <= i < n ==> has_like(strings_view(out@), #[trigger] all[i]),
            forall|x: Seq<char>| #[trigger] strings_view(out@).contains(x) ==> first_of_kind(all, x),
        decreases paths.len() - n,
    {
        let ghost before = strings_view(out@);
        let t = paths[n].clone();
        let tc = to_chars(paths[n].as_str());
        let tk = path_parts_exec(&tc);
        assert(t@ == all[n as int]);
        let inserted = insert_path(&mut out, &mut keys, t, tk);
        let ghost after = strings_view(out@);
        proof {
            assert forall|i: int| 0 <= i < n + 1 implies has_like(after, #[trigger] all[i]) by {
                if i < n {
                    let x = choose|x: Seq<char>| #[trigger] before.contains(x) && path_parts(x) == path_parts(all[i]);
                    assert(after.contains(x));
                } else if inserted {
                    assert(after.contains(all[n as int]));
                } else {
                    let x = choose|x: Seq<char>| #[trigger] before.contains(x) && path_parts(x) == path_parts(all[n as int]);
                    assert(after.contains(x));
                }
            }
            assert forall|x: Seq<char>| #[trigger] after.contains(x) implies first_of_kind(all, x) by {
                if before.contains(x) {
                } else {
                    assert(x == all[n as int]);
                    assert forall|k: int| 0 <= k < n implies path_parts(#[trigger] all[k]) != path_parts(x) by {
                        assert(has_like(before, all[k]));
                        let y = choose|y: Seq<char>| #[trigger] before.contains(y) && path_parts(y) == path_parts(all[k]);
                    }
                }
            }
        }
        n += 1;
    }
    out
}


// ---------------------------------------------------------------------------
// Expanding the inputs of a source
// ---------------------------------------------------------------------------

/// What kind of failure a scope error is.
#[derive(Debug, Clone, Copy, PartialEq, Eq, Structural)]
pub enum ScopeErrorCode {
    /// The scope could not be read completely.
    SourceScanIncomplete,
    /// A file of the scope cannot be applied.
    ApplyFailed,
}

/// A refusal of a manifest scope: its kind, the input or file it concerns
/// and what went wrong.
#[derive(Debug, Clone)]
pub struct ScopeError {
    pub code: ScopeErrorCode,
    pub path: Option<String>,
    pub message: String,
}

/// A refusal as mathematical values.
pub struct ScopeFailure {
    pub code: ScopeErrorCode,
    pub path: Option<Seq<char>>,
    pub message: Seq<char>,
}

/// The view of a refusal.
pub open spec fn failure_of(e: ScopeError) -> ScopeFailure {
    ScopeFailure { code: e.code, path: opt_view(e.path), message: e.message@ }
}

pub const INVALID_GLOB_PATTERN: &'static str = "invalid manifest glob pattern";

pub const GLOB_SCAN_FAILED: &'static str = "manifest glob scan failed";

pub const GLOB_MATCHED_NOTHING: &'static str = "manifest glob matched no files";

pub const EMPTY_SCOPE: &'static str = "manifest scope is empty";

pub const UNREADABLE_SCOPE: &'static str = "unable to read complete manifest scope";

pub const UNKNOWN_MANIFEST_EXTENSION: &'static str = "manifest file extension must be .yaml, .yml or .toml";

fn scope_error(code: ScopeErrorCode, path: Option<&str>, message: &str) -> (e: ScopeError)
    ensures
        e.code == code,
        opt_view(e.path) == match path { Some(p) => Some(p@), None => None::<Seq<char>> },
        e.message@ == message@,
{
    ScopeError {
        code,
        path: match path {
            Some(p) => Some(crate::text::owned(p)),
            None => None,
        },
        message: crate::text::owned(message),
    }
}

impl ScopeError {
    /// A file of the scope could not be read.
    pub fn unreadable(path: &str) -> (e: ScopeError)
        ensures
            failure_of(e) == (ScopeFailure {
                code: ScopeErrorCode::SourceScanIncomplete,
                path: Some(path@),
                message: UNREADABLE_SCOPE@,
            }),
    {
        scope_error(ScopeErrorCode::SourceScanIncomplete, Some(path), UNREADABLE_SCOPE)
    }
}

/// An input holding `*`, `?` or `[` is a glob pattern; any other is a path.
pub open spec fn is_pattern(s: Seq<char>) -> bool {
    exists|i: int| 0 <= i < s.len() && (#[trigger] s[i] == '*' || s[i] == '?' || s[i] == '[')
}

/// Whether an input is a glob pattern.
pub fn is_glob_pattern(input: &str) -> (r: bool)
    ensures
        r == is_pattern(input@),
{
    let v = to_chars(input);
    let mut i: usize = 0;
    while i < v.len()
        invariant
            i <= v.len(),
            v@ == input@,
            forall|j: int| 0 <= j < i ==> !(#[trigger] v@[j] == '*' || v@[j] == '?' || v@[j] == '['),
        decreases v.len() - i,
    {
        if v[i] == '*' || v[i] == '?' || v[i] == '[' {
            return true;
        }
        i += 1;
    }
    false
}

/// What the file system gave for a pattern: the pattern was refused, or
/// the entries it matched in order, each a path or a failure to read one.
pub enum GlobScan {
    InvalidPattern,
    Entries(Vec<Option<String>>),
}

/// The views of the entries of a scan.
pub open spec fn entries_view(es: Seq<Option<String>>) -> Seq<Option<Seq<char>>> {
    es.map_values(|e: Option<String>| opt_view(e))
}

/// The paths one input stands for: a path stands for itself; a pattern
/// for the paths it matched, unless it was refused, an entry failed, or
/// it matched nothing.
pub open spec fn input_outcome(input: Seq<char>, scan: GlobScan) -> Result<Seq<Seq<char>>, ScopeFailure> {
    let failure = |m: Seq<char>| ScopeFailure { code: ScopeErrorCode::SourceScanIncomplete, path: Some(input), message: m };
    if !is_pattern(input) {
        Ok(seq![input])
    } else {
        match scan {
            GlobScan::InvalidPattern => Err(failure(INVALID_GLOB_PATTERN@)),
            GlobScan::Entries(es) => {
                let ev = entries_view(es@);
                if exists|i: int| 0 <= i < ev.len() && #[trigger] ev[i] is None {
                    Err(failure(GLOB_SCAN_FAILED@))
                } else if ev.len() == 0 {
                    Err(failure(GLOB_MATCHED_NOTHING@))
                } else {
                    Ok(ev.map_values(|e: Option<Seq<char>>| e.unwrap()))
                }
            },
        }
    }
}

/// The paths of the inputs in order, or the first input's refusal.
pub open spec fn gather(inputs: Seq<Seq<char>>, scans: Seq<GlobScan>) -> Result<Seq<Seq<char>>, ScopeFailure>
    decreases inputs.len(),
{
    if inputs.len() == 0 {
        Ok(Seq::empty())
    } else {
        match gather(inputs.drop_last(), scans.drop_last()) {
            Err(f) => Err(f),
            Ok(ps) => match input_outcome(inputs.last(), scans.last()) {
                Err(f) => Err(f),
                Ok(q) => Ok(ps + q),
            },
        }
    }
}

proof fn lemma_gather_error_extends(inputs: Seq<Seq<char>>, scans: Seq<GlobScan>, k: int)
    requires
        0 <= k <= inputs.len(),
        inputs.len() == scans.len(),
        gather(inputs.take(k), scans.take(k)) is Err,
    ensures
        gather(inputs, scans) == gather(inputs.take(k), scans.take(k)),
    decreases inputs.len(),
{
    if k < inputs.len() {
        assert(inputs.drop_last().take(k) =~= inputs.take(k));
        assert(scans.drop_last().take(k) =~= scans.take(k));
        lemma_gather_error_extends(inputs.drop_last(), scans.drop_last(), k);
    } else {
        assert(inputs.take(k) =~= inputs);
        assert(scans.take(k) =~= scans);
    }
}

/// The files of a scope: each input's paths (`scans[i]` is what the file
/// system gave for `inputs[i]` when it is a pattern, and is not read
/// otherwise), sorted, each once; the first input refused refuses the
/// scope, and so does a scope without files.
pub fn expand_manifest_scope(inputs: &Vec<String>, scans: &Vec<GlobScan>) -> (r: Result<Vec<String>, ScopeError>)
    requires
        inputs.len() == scans.len(),
    ensures
        match gather(strings_view(inputs@), scans@) {
            Err(f) => r matches Err(e) && failure_of(e) == f,
            Ok(all) => if all.len() == 0 {
                r matches Err(e) && failure_of(e) == (ScopeFailure {
                    code: ScopeErrorCode::SourceScanIncomplete,
                    path: None,
                    message: EMPTY_SCOPE@,
                })
            } else {
                r matches Ok(out) && sorted_distinct(all, strings_view(out@))
            },
        },
{
    let ghost iv = strings_view(inputs@);
    let mut paths: Vec<String> = Vec::new();
    let mut i: usize = 0;
    assert(strings_view(paths@) =~= Seq::<Seq<char>>::empty());
    assert(iv.take(0) =~= Seq::<Seq<char>>::empty());
    assert(scans@.take(0) =~= Seq::<GlobScan>::empty());
    while i < inputs.len()
        invariant
            i <= inputs.len(),
            inputs.len() == scans.len(),
            iv == strings_view(inputs@),
            gather(iv.take(i as int), scans@.take(i as int)) == Ok::<Seq<Seq<char>>, ScopeFailure>(strings_view(paths@)),
        decreases inputs.len() - i,
    {
        assert(iv.take(i + 1).drop_last() =~= iv.take(i as int));
        assert(scans@.take(i + 1).drop_last() =~= scans@.take(i as int));
        assert(iv.take(i + 1).last() == inputs@[i as int]@);
        assert(scans@.take(i + 1).last() == scans@[i as int]);
        let ghost prior = strings_view(paths@);
        let input = &inputs[i];
        if !is_glob_pattern(input.as_str()) {
            paths.push(input.clone());
            assert(strings_view(paths@) =~= prior + seq![input@]);
        } else {
            match &scans[i] {
                GlobScan::InvalidPattern => {
                    proof {
                            lemma_gather_error_extends(iv, scans@, i + 1);
                        }
                        return Err(scope_error(ScopeErrorCode::SourceScanIncomplete, Some(input.as_str()), INVALID_GLOB_PATTERN));
                },
                GlobScan::Entries(es) => {
                    let ghost ev = entries_view(es@);
                    let mut k: usize = 0;
                    while k < es.len()
                        invariant
                            k <= es.len(),
                            i < inputs.len(),
                            inputs.len() == scans.len(),
                            iv == strings_view(inputs@),
                            is_pattern(input@),
                            input@ == iv[i as int],
                            scans@[i as int] == GlobScan::Entries(*es),
                            iv.take(i + 1).drop_last() == iv.take(i as int),
                            scans@.take(i + 1).drop_last() == scans@.take(i as int),
                            iv.take(i + 1).last() == iv[i as int],
                            scans@.take(i + 1).last() == scans@[i as int],
                            gather(iv.take(i as int), scans@.take(i as int)) == Ok::<Seq<Seq<char>>, ScopeFailure>(prior),
                            ev == entries_view(es@),
                            forall|j: int| 0 <= j < k ==> ev[j] is Some,
                            strings_view(paths@) == prior + ev.take(k as int).map_values(|e: Option<Seq<char>>| e.unwrap()),
                        decreases es.len() - k,
                    {
                        match &es[k] {
                            None => {
                                assert(ev[k as int] is None);
                                proof {
                            lemma_gather_error_extends(iv, scans@, i + 1);
                        }
                        return Err(scope_error(ScopeErrorCode::SourceScanIncomplete, Some(input.as_str()), GLOB_SCAN_FAILED));
                            },
                            Some(p) => {
                                let ghost before = strings_view(paths@);
                                paths.push(p.clone());
                                assert(ev.take(k + 1).map_values(|e: Option<Seq<char>>| e.unwrap()) =~= ev.take(k as int).map_values(
                                    |e: Option<Seq<char>>| e.unwrap(),
                                ).push(p@));
                                assert(strings_view(paths@) =~= before.push(p@));
                            },
                        }
                        k += 1;
                    }
                    if es.len() == 0 {
                        proof {
                            lemma_gather_error_extends(iv, scans@, i + 1);
                        }
                        return Err(scope_error(ScopeErrorCode::SourceScanIncomplete, Some(input.as_str()), GLOB_MATCHED_NOTHING));
                    }
                    assert(ev.take(es.len() as int) =~= ev);
                },
            }
        }
        i += 1;
    }
    assert(iv.take(inputs.len() as int) =~= iv);
    assert(scans@.take(inputs.len() as int) =~= scans@);
    let out = sort_distinct_paths(&paths);
    if out.len() == 0 {
        proof {
            if paths.len() > 0 {
                assert(has_like(strings_view(out@), strings_view(paths@)[0]));
            }
        }
        return Err(scope_error(ScopeErrorCode::SourceScanIncomplete, None, EMPTY_SCOPE));
    }
    proof {
        if paths.len() == 0 {
            let x = strings_view(out@)[0];
            assert(strings_view(out@).contains(x));
        }
    }
    Ok(out)
}


// ---------------------------------------------------------------------------
// How a file is read
// ---------------------------------------------------------------------------

/// The position of the last `.` of a text, if any.
pub open spec fn last_dot(n: Seq<char>) -> Option<int>
    decreases n.len(),
{
    if n.len() == 0 {
        None
    } else if n.last() == '.' {
        Some(n.len() - 1)
    } else {
        last_dot(n.drop_last())
    }
}

/// The extension of a path: what follows the last `.` of its file name
/// (its last component, when that is a name), unless the name holds no
/// `.` but a leading one.
pub open spec fn file_extension(path: Seq<char>) -> Option<Seq<char>> {
    let parts = path_parts(path);
    if parts.len() > 0 && parts.last().0 == 3 {
        let name = parts.last().1;
        match last_dot(name) {
            Some(i) => if i == 0 { None } else { Some(name.skip(i + 1)) },
            None => None,
        }
    } else {
        None
    }
}

proof fn lemma_segments_without_slash(s: Seq<char>)
    requires
        !s.contains('/'),
    ensures
        segments(s) == seq![s],
    decreases s.len(),
{
    if s.len() > 0 {
        assert(!s.drop_last().contains('/')) by {
            if s.drop_last().contains('/') {
                let i = choose|i: int| 0 <= i < s.drop_last().len() && s.drop_last()[i] == '/';
                assert(s[i] == '/');
            }
        }
        lemma_segments_without_slash(s.drop_last());
        assert(s.last() != '/') by {
            assert(s[s.len() - 1] == s.last());
        }
        assert(s.drop_last().push(s.last()) =~= s);
    } else {
        assert(s =~= Seq::<char>::empty());
    }
}

proof fn lemma_last_dot_before_suffix(a: Seq<char>, e: Seq<char>)
    requires
        !e.contains('.'),
    ensures
        last_dot(a + "."@ + e) == Some(a.len() as int),
    decreases e.len(),
{
    reveal_strlit(".");
    let t = a + "."@ + e;
    if e.len() == 0 {
        assert(t.last() == '.');
    } else {
        assert(t.last() == e.last());
        assert(!e.drop_last().contains('.')) by {
            if e.drop_last().contains('.') {
                let i = choose|i: int| 0 <= i < e.drop_last().len() && e.drop_last()[i] == '.';
                assert(e[i] == '.');
            }
        }
        assert(e.last() != '.') by {
            assert(e[e.len() - 1] == e.last());
        }
        assert(t.drop_last() =~= a + "."@ + e.drop_last());
        lemma_last_dot_before_suffix(a, e.drop_last());
    }
}

/// A file name made of a stem, a dot and an extension has that extension,
/// when neither holds a dot or a slash and the stem is not empty.
pub proof fn lemma_extension_of_file_name(stem: Seq<char>, ext: Seq<char>)
    requires
        stem.len() > 0,
        !stem.contains('.'),
        !stem.contains('/'),
        !ext.contains('.'),
        !ext.contains('/'),
    ensures
        file_extension(stem + "."@ + ext) == Some(ext),
{
    reveal_strlit(".");
    reveal_strlit("..");
    let s = stem + "."@ + ext;
    assert(!s.contains('/')) by {
        if s.contains('/') {
            let i = choose|i: int| 0 <= i < s.len() && s[i] == '/';
            if i < stem.len() {
                assert(stem[i] == '/');
            } else if i == stem.len() {
            } else {
                assert(ext[i - stem.len() - 1] == '/');
            }
        }
    }
    lemma_segments_without_slash(s);
    assert(s[0] == stem[0]);
    assert(stem[0] != '.') by {
        assert(stem.contains(stem[0]));
    }
    assert(s != "."@ && s != ".."@) by {
        assert("."@[0] == '.' && ".."@[0] == '.');
    }
    assert(seq![s].drop_last() =~= Seq::<Seq<char>>::empty());
    assert(seq![s].last() == s);
    assert(s.len() > 0);
    assert(segment_part(s, true) == Some((3int, s)));
    assert(parts_of_segments(Seq::<Seq<char>>::empty()) == Seq::<PathPart>::empty());
    assert(Seq::<PathPart>::empty().push((3int, s)) =~= seq![(3int, s)]);
    assert(parts_of_segments(seq![s]) == seq![(3int, s)]);
    assert(s[0] != '/') by {
        assert(stem.contains(stem[0]));
    }
    assert(path_parts(s) =~= seq![(3int, s)]);
    lemma_last_dot_before_suffix(stem, ext);
    assert(s.skip(stem.len() as int + 1) =~= ext);
}

/// The languages a manifest file is written in.
#[derive(Debug, Clone, Copy, PartialEq, Eq, Structural)]
pub enum ManifestFormat {
    Yaml,
    Toml,
}

/// The language a file's extension names: `.yaml` and `.yml` are YAML,
/// `.toml` is TOML.
pub open spec fn format_of(path: Seq<char>) -> Option<ManifestFormat> {
    match file_extension(path) {
        Some(e) => if e == "yaml"@ || e == "yml"@ {
            Some(ManifestFormat::Yaml)
        } else if e == "toml"@ {
            Some(ManifestFormat::Toml)
        } else {
            None
        },
        None => None,
    }
}

fn last_dot_exec(n: &Vec<char>) -> (r: Option<usize>)
    ensures
        match r {
            Some(i) => last_dot(n@) == Some(i as int) && i < n.len(),
            None => last_dot(n@) is None,
        },
{
    let mut k: usize = n.len();
    assert(n@.take(k as int) =~= n@);
    while k > 0
        invariant
            k <= n.len(),
            last_dot(n@) == last_dot(n@.take(k as int)),
        decreases k,
    {
        assert(n@.take(k as int).last() == n@[k - 1]);
        assert(n@.take(k as int).drop_last() =~= n@.take(k - 1));
        if n[k - 1] == '.' {
            return Some(k - 1);
        }
        k -= 1;
    }
    None
}

/// The extension of a path (see `file_extension`).
pub fn path_extension(path: &str) -> (r: Option<String>)
    ensures
        opt_view(r) == file_extension(path@),
{
    let parts = path_parts_exec(&to_chars(path));
    if parts.len() == 0 || parts[parts.len() - 1].0 != 3 {
        return None;
    }
    let name = &parts[parts.len() - 1].1;
    assert(name@ == path_parts(path@).last().1);
    let dot = match last_dot_exec(name) {
        Some(i) => i,
        None => {
            return None;
        },
    };
    if dot == 0 {
        return None;
    }
    let ext = crate::text::slice_chars(name, dot + 1, name.len());
    assert(ext@ =~= name@.skip(dot + 1));
    Some(from_chars(&ext))
}

/// How a manifest file is read, by its extension; any other extension is
/// refused.
pub fn manifest_format(path: &str) -> (r: Result<ManifestFormat, ScopeError>)
    ensures
        match format_of(path@) {
            Some(f) => r matches Ok(g) && g == f,
            None => r matches Err(e) && failure_of(e) == (ScopeFailure {
                code: ScopeErrorCode::ApplyFailed,
                path: Some(path@),
                message: UNKNOWN_MANIFEST_EXTENSION@,
            }),
        },
{
    match path_extension(path) {
        Some(ext) => {
            if crate::text::str_eq(ext.as_str(), "yaml") || crate::text::str_eq(ext.as_str(), "yml") {
                Ok(ManifestFormat::Yaml)
            } else if crate::text::str_eq(ext.as_str(), "toml") {
                Ok(ManifestFormat::Toml)
            } else {
                Err(scope_error(ScopeErrorCode::ApplyFailed, Some(path), UNKNOWN_MANIFEST_EXTENSION))
            }
        },
        None => Err(scope_error(ScopeErrorCode::ApplyFailed, Some(path), UNKNOWN_MANIFEST_EXTENSION)),
    }
}

} // verus!
