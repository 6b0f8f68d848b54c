//! Searching and filtering the asset list of the console, the tags it
//! offers as filters, and the tags field of the asset form.
use vstd::prelude::*;

use crate::model::{opt_view, strings_view, Asset, AssetView};
use crate::text::{
    contains_chars, dec_int, from_chars, has_substring, lower, lower_chars, push_dec_i64,
    to_chars, trim, trim_chars, chars_eq, chars_eq_str,
};
use crate::transfer_csv::keep_tags;

verus! {

/// The views of a list of assets.
pub open spec fn assets_view(s: Seq<Asset>) -> Seq<AssetView> {
    s.map_values(|a: Asset| a@)
}

/// An optional text, or the empty text.
pub open spec fn or_empty(o: Option<Seq<char>>) -> Seq<char> {
    match o {
        Some(s) => s,
        None => Seq::empty(),
    }
}

/// A field matches a lower-cased query when its lower-cased text holds it.
pub open spec fn field_matches(value: Seq<char>, q: Seq<char>) -> bool {
    has_substring(lower(value), q)
}

/// Some tag of the list matches the query.
pub open spec fn some_tag_matches(tags: Seq<Seq<char>>, q: Seq<char>) -> bool {
    exists|i: int| 0 <= i < tags.len() && field_matches(#[trigger] tags[i], q)
}

/// A search query matches an asset when, ignoring ASCII case, it occurs in
/// the name, host name, description, protocol, preset or a tag, or occurs in
/// the decimal port.
pub open spec fn asset_matches(a: AssetView, query: Seq<char>) -> bool {
    let q = lower(query);
    field_matches(a.name, q) || field_matches(a.hostname, q) || field_matches(or_empty(a.description), q)
        || field_matches(a.protocol, q) || field_matches(or_empty(a.preset), q) || some_tag_matches(a.tags, q)
        || has_substring(dec_int(a.port as int), q)
}

fn field_matches_exec(value: &str, q: &Vec<char>) -> (r: bool)
    ensures
        r == field_matches(value@, q@),
{
    let v = lower_chars(&to_chars(value));
    contains_chars(&v, q)
}

/// Whether an asset matches a search query (see `asset_matches`).
pub fn asset_matches_query(asset: &Asset, query: &str) -> (r: bool)
    ensures
        r == asset_matches(asset@, query@),
{
    let q = lower_chars(&to_chars(query));
    if field_matches_exec(asset.name.as_str(), &q) || field_matches_exec(asset.hostname.as_str(), &q) {
        return true;
    }
    let description: &str = match &asset.description {
        Some(d) => d.as_str(),
        None => "",
    };
    let preset: &str = match &asset.preset {
        Some(p) => p.as_str(),
        None => "",
    };
    proof {
        reveal_strlit("");
        assert(description@ =~= or_empty(asset@.description));
        assert(preset@ =~= or_empty(asset@.preset));
    }
    if field_matches_exec(description, &q) || field_matches_exec(asset.protocol.as_str(), &q)
        || field_matches_exec(preset, &q) {
        return true;
    }
    let mut i: usize = 0;
    while i < asset.tags.len()
        invariant
            i <= asset.tags.len(),
            q@ == lower(query@),
            forall|j: int| 0 <= j < i ==> !field_matches(#[trigger] strings_view(asset.tags@)[j], q@),
        decreases asset.tags.len() - i,
    {
        if field_matches_exec(asset.tags[i].as_str(), &q) {
            assert(field_matches(strings_view(asset.tags@)[i as int], q@));
            return true;
        }
        i += 1;
    }
    let mut port: Vec<char> = Vec::new();
    push_dec_i64(&mut port, asset.port);
    assert(port@ =~= dec_int(asset.port as int));
    assert(!some_tag_matches(asset@.tags, q@));
    contains_chars(&port, &q)
}

/// A filter value that is kept only when something remains after trimming.
pub open spec fn filter_value(o: Option<Seq<char>>) -> Option<Seq<char>> {
    match o {
        Some(s) => if trim(s).len() > 0 { Some(trim(s)) } else { None },
        None => None,
    }
}

/// An asset passes the filters: it carries the selected tag, if one is
/// selected, and matches the query, if there is one.
pub open spec fn passes_filters(a: AssetView, tag: Option<Seq<char>>, query: Option<Seq<char>>) -> bool {
    (match tag {
        Some(t) => a.tags.contains(t),
        None => true,
    }) && (match query {
        Some(q) => asset_matches(a, q),
        None => true,
    })
}

/// The assets that pass the filters, in list order.
pub open spec fn filtered(s: Seq<AssetView>, tag: Option<Seq<char>>, query: Option<Seq<char>>) -> Seq<AssetView>
    decreases s.len(),
{
    if s.len() == 0 {
        Seq::empty()
    } else {
        let r = filtered(s.drop_last(), tag, query);
        if passes_filters(s.last(), tag, query) {
            r.push(s.last())
        } else {
            r
        }
    }
}

fn filter_value_exec(o: Option<&str>) -> (r: Option<Vec<char>>)
    ensures
        match r {
            Some(v) => filter_value(match o { Some(s) => Some(s@), None => None::<Seq<char>> }) == Some(v@),
            None => filter_value(match o { Some(s) => Some(s@), None => None::<Seq<char>> }) is None,
        },
{
    match o {
        Some(s) => {
            let t = trim_chars(&to_chars(s));
            if t.len() > 0 {
                Some(t)
            } else {
                None
            }
        },
        None => None,
    }
}

fn has_tag(tags: &Vec<String>, tag: &Vec<char>) -> (r: bool)
    ensures
        r == strings_view(tags@).contains(tag@),
{
    let mut i: usize = 0;
    while i < tags.len()
        invariant
            i <= tags.len(),
            forall|j: int| 0 <= j < i ==> strings_view(tags@)[j] != tag@,
        decreases tags.len() - i,
    {
        let t = to_chars(tags[i].as_str());
        if chars_eq(&t, tag) {
            assert(strings_view(tags@)[i as int] == tag@);
            return true;
        }
        i += 1;
    }
    false
}

/// A query is found when, ignoring ASCII case, it occurs at some position
/// of any searched field: the name, host name, description, protocol,
/// preset, any one of the tags, or the decimal port.
pub proof fn lemma_query_found_in_any_field(a: AssetView, query: Seq<char>, i: int, k: int)
    ensures
        ({
            let q = lower(query);
            let at = |t: Seq<char>| 0 <= k && k + q.len() <= t.len() && t.subrange(k, k + q.len()) == q;
            &&& at(lower(a.name)) ==> asset_matches(a, query)
            &&& at(lower(a.hostname)) ==> asset_matches(a, query)
            &&& (a.description matches Some(d) && at(lower(d))) ==> asset_matches(a, query)
            &&& at(lower(a.protocol)) ==> asset_matches(a, query)
            &&& (a.preset matches Some(p) && at(lower(p))) ==> asset_matches(a, query)
            &&& (0 <= i < a.tags.len() && at(lower(a.tags[i]))) ==> asset_matches(a, query)
            &&& at(dec_int(a.port as int)) ==> asset_matches(a, query)
        }),
{
    let q = lower(query);
    assert(has_substring(lower(a.name), q) <== (0 <= k && k + q.len() <= lower(a.name).len() && lower(a.name).subrange(k, k + q.len()) == q)) by {
        if 0 <= k && k + q.len() <= lower(a.name).len() && lower(a.name).subrange(k, k + q.len()) == q {
            assert(crate::text::occurs_at(lower(a.name), q, k));
        }
    }
    assert(has_substring(lower(a.hostname), q) <== (0 <= k && k + q.len() <= lower(a.hostname).len() && lower(a.hostname).subrange(k, k + q.len()) == q)) by {
        if 0 <= k && k + q.len() <= lower(a.hostname).len() && lower(a.hostname).subrange(k, k + q.len()) == q {
            assert(crate::text::occurs_at(lower(a.hostname), q, k));
        }
    }
    assert(has_substring(lower(a.protocol), q) <== (0 <= k && k + q.len() <= lower(a.protocol).len() && lower(a.protocol).subrange(k, k + q.len()) == q)) by {
        if 0 <= k && k + q.len() <= lower(a.protocol).len() && lower(a.protocol).subrange(k, k + q.len()) == q {
            assert(crate::text::occurs_at(lower(a.protocol), q, k));
        }
    }
    if let Some(d) = a.description {
        if 0 <= k && k + q.len() <= lower(d).len() && lower(d).subrange(k, k + q.len()) == q {
            assert(crate::text::occurs_at(lower(or_empty(a.description)), q, k));
        }
    }
    if let Some(p) = a.preset {
        if 0 <= k && k + q.len() <= lower(p).len() && lower(p).subrange(k, k + q.len()) == q {
            assert(crate::text::occurs_at(lower(or_empty(a.preset)), q, k));
        }
    }
    if 0 <= i < a.tags.len() {
        let t = lower(a.tags[i]);
        if 0 <= k && k + q.len() <= t.len() && t.subrange(k, k + q.len()) == q {
            assert(crate::text::occurs_at(t, q, k));
            assert(field_matches(a.tags[i], q));
            assert(some_tag_matches(a.tags, q));
        }
    }
    let port = dec_int(a.port as int);
    if 0 <= k && k + q.len() <= port.len() && port.subrange(k, k + q.len()) == q {
        assert(crate::text::occurs_at(port, q, k));
    }
}

/// Without a tag and a query every asset is listed, in order.
pub proof fn lemma_no_filter_keeps_every_asset(s: Seq<AssetView>)
    ensures
        filtered(s, None, None) == s,
    decreases s.len(),
{
    if s.len() > 0 {
        lemma_no_filter_keeps_every_asset(s.drop_last());
        assert(s.drop_last().push(s.last()) =~= s);
    }
}

/// Filtering a filtered list again with the same filters changes nothing.
pub proof fn lemma_filtering_is_idempotent(s: Seq<AssetView>, tag: Option<Seq<char>>, query: Option<Seq<char>>)
    ensures
        filtered(filtered(s, tag, query), tag, query) == filtered(s, tag, query),
    decreases s.len(),
{
    if s.len() > 0 {
        lemma_filtering_is_idempotent(s.drop_last(), tag, query);
        let r = filtered(s.drop_last(), tag, query);
        if passes_filters(s.last(), tag, query) {
            assert(r.push(s.last()).drop_last() =~= r);
        }
    }
}

/// The assets carrying the selected tag (when one is given and not blank)
/// and matching the search query (when one is given and not blank); both
/// are trimmed first.
pub fn filter_assets(assets: &[Asset], selected_tag: Option<&str>, query: Option<&str>) -> (r: Vec<Asset>)
    ensures
        assets_view(r@) == filtered(
            assets_view(assets@),
            filter_value(match selected_tag { Some(s) => Some(s@), None => None::<Seq<char>> }),
            filter_value(match query { Some(s) => Some(s@), None => None::<Seq<char>> }),
        ),
{
    let tag = filter_value_exec(selected_tag);
    let q = filter_value_exec(query);
    let ghost tag_v = filter_value(match selected_tag { Some(s) => Some(s@), None => None::<Seq<char>> });
    let ghost q_v = filter_value(match query { Some(s) => Some(s@), None => None::<Seq<char>> });
    let q_text: Option<String> = match &q {
        Some(v) => Some(from_chars(v)),
        None => None,
    };
    let mut out: Vec<Asset> = Vec::new();
    let mut i: usize = 0;
    while i < assets.len()
        invariant
            i <= assets.len(),
            match tag { Some(v) => tag_v == Some(v@), None => tag_v is None },
            match q_text { Some(v) => q_v == Some(v@), None => q_v is None },
            assets_view(out@) == filtered(assets_view(assets@).take(i as int), tag_v, q_v),
        decreases assets.len() - i,
    {
        let a = &assets[i];
        let tag_ok = match &tag {
            Some(t) => has_tag(&a.tags, t),
            None => true,
        };
        let query_ok = match &q_text {
            Some(text) => asset_matches_query(a, text.as_str()),
            None => true,
        };
        let ghost before = out@;
        assert(assets_view(assets@).take(i + 1).drop_last() =~= assets_view(assets@).take(i as int));
        assert(assets_view(assets@).take(i + 1).last() == a@);
        if tag_ok && query_ok {
            out.push(a.clone());
            assert(assets_view(out@) =~= assets_view(before).push(a@));
        }
        i += 1;
    }
    assert(assets_view(assets@).take(assets.len() as int) =~= assets_view(assets@));
    out
}

/// Whether some asset uses the credential.
pub fn credential_is_in_use(assets: &[Asset], credential_id: &str) -> (r: bool)
    ensures
        r == exists|i: int| 0 <= i < assets@.len() && opt_view(#[trigger] assets@[i].credential_id) == Some(credential_id@),
{
    let mut i: usize = 0;
    while i < assets.len()
        invariant
            i <= assets.len(),
            forall|j: int| 0 <= j < i ==> opt_view(#[trigger] assets@[j].credential_id) != Some(credential_id@),
        decreases assets.len() - i,
    {
        match &assets[i].credential_id {
            Some(c) => {
                if crate::text::str_eq(c.as_str(), credential_id) {
                    return true;
                }
            },
            None => {},
        }
        i += 1;
    }
    false
}

// ---------------------------------------------------------------------------
// The tags offered as filters
// ---------------------------------------------------------------------------

/// The order of texts: lexicographic by code point, which is the order of
/// `String` (UTF-8 keeps code point order).
pub open spec fn text_lt(a: Seq<char>, b: Seq<char>) -> bool
    decreases a.len(),
{
    if a.len() == 0 {
        b.len() > 0
    } else if b.len() == 0 {
        false
    } else if a[0] != b[0] {
        a[0] < b[0]
    } else {
        text_lt(a.drop_first(), b.drop_first())
    }
}

/// No text is below itself.
pub proof fn lemma_text_lt_irreflexive(a: Seq<char>)
    ensures
        !text_lt(a, a),
    decreases a.len(),
{
    if a.len() > 0 {
        lemma_text_lt_irreflexive(a.drop_first());
    }
}

/// Of two texts, one is below the other, unless they are equal.
pub proof fn lemma_text_lt_total(a: Seq<char>, b: Seq<char>)
    ensures
        a != b ==> text_lt(a, b) || text_lt(b, a),
        !(text_lt(a, b) && text_lt(b, a)),
    decreases a.len(),
{
    if a.len() > 0 && b.len() > 0 {
        if a[0] == b[0] {
            lemma_text_lt_total(a.drop_first(), b.drop_first());
            if a.drop_first() == b.drop_first() {
                assert(a =~= seq![a[0]] + a.drop_first());
                assert(b =~= seq![b[0]] + b.drop_first());
            }
        }
    } else if a.len() == 0 && b.len() == 0 {
        assert(a =~= b);
    }
}

/// The order is transitive.
pub proof fn lemma_text_lt_transitive(a: Seq<char>, b: Seq<char>, c: Seq<char>)
    requires
        text_lt(a, b),
        text_lt(b, c),
    ensures
        text_lt(a, c),
    decreases a.len(),
{
    if a.len() > 0 && b.len() > 0 && c.len() > 0 {
        if a[0] == b[0] && b[0] == c[0] {
            lemma_text_lt_transitive(a.drop_first(), b.drop_first(), c.drop_first());
        }
    }
}

/// A list of texts in strictly increasing order (so without repeats).
pub open spec fn strictly_sorted(s: Seq<Seq<char>>) -> bool {
    forall|i: int, j: int| 0 <= i < j < s.len() ==> text_lt(#[trigger] s[i], #[trigger] s[j])
}

/// Some asset of the list carries the tag.
pub open spec fn tag_in_assets(s: Seq<AssetView>, t: Seq<char>) -> bool {
    exists|i: int| 0 <= i < s.len() && (#[trigger] s[i]).tags.contains(t)
}

pub(crate) fn text_lt_exec(a: &Vec<char>, b: &Vec<char>) -> (r: bool)
    ensures
        r == text_lt(a@, b@),
{
    let mut i: usize = 0;
    assert(a@.skip(0) =~= a@);
    assert(b@.skip(0) =~= b@);
    while i < a.len() && i < b.len()
        invariant
            i <= a.len(),
            i <= b.len(),
            a@.take(i as int) == b@.take(i as int),
            text_lt(a@, b@) == text_lt(a@.skip(i as int), b@.skip(i as int)),
        decreases a.len() - i,
    {
        let ghost sa = a@.skip(i as int);
        let ghost sb = b@.skip(i as int);
        assert(sa[0] == a@[i as int]);
        assert(sb[0] == b@[i as int]);
        if a[i] != b[i] {
            return a[i] < b[i];
        }
        assert(a@[i as int] == b@[i as int]);
        assert(sa.drop_first() =~= a@.skip(i + 1));
        assert(sb.drop_first() =~= b@.skip(i + 1));
        assert(a@.take(i + 1) =~= a@.take(i as int).push(a@[i as int]));
        assert(b@.take(i + 1) =~= b@.take(i as int).push(b@[i as int]));
        i += 1;
    }
    assert(a@.skip(i as int).len() == a.len() - i);
    assert(b@.skip(i as int).len() == b.len() - i);
    i == a.len() && i < b.len()
}

/// Inserts a text into a strictly sorted list unless it is already there.
fn insert_sorted(out: &mut Vec<String>, t: String)
    requires
        strictly_sorted(strings_view(old(out)@)),
    ensures
        strictly_sorted(strings_view(final(out)@)),
        forall|x: Seq<char>| strings_view(final(out)@).contains(x) <==> (strings_view(old(out)@).contains(x) || x == t@),
{
    let tc = to_chars(t.as_str());
    let ghost s = strings_view(out@);
    let mut k: usize = 0;
    let mut done = false;
    while k < out.len() && !done
        invariant
            k <= out.len(),
            s == strings_view(out@),
            tc@ == t@,
            strictly_sorted(s),
            forall|m: int| 0 <= m < k ==> text_lt(#[trigger] s[m], t@),
            done ==> k < s.len() && !text_lt(s[k as int], t@),
        decreases out.len() - k, if done { 0int } else { 1int },
    {
        let cur = to_chars(out[k].as_str());
        assert(cur@ == s[k as int]);
        if text_lt_exec(&cur, &tc) {
            k += 1;
        } else {
            done = true;
        }
    }
    if k < out.len() {
        let cur = to_chars(out[k].as_str());
        if chars_eq(&cur, &tc) {
            assert(s[k as int] == t@);
            return;
        }
    }
    proof {
        if k < s.len() {
            lemma_text_lt_total(s[k as int], t@);
            assert(text_lt(t@, s[k as int]));
            assert forall|m: int| k <= m < s.len() implies text_lt(t@, #[trigger] s[m]) by {
                if m > k {
                    lemma_text_lt_transitive(t@, s[k as int], s[m]);
                }
            }
        }
    }
    out.insert(k, t);
    proof {
        let s2 = strings_view(out@);
        assert(s2 =~= s.insert(k as int, t@));
        assert forall|i: int, j: int| 0 <= i < j < s2.len() implies text_lt(#[trigger] s2[i], #[trigger] s2[j]) by {
            if i < k && j == k {
            } else if i < k && j > k {
                assert(s2[j] == s[j - 1]);
            } else if i == k {
                assert(s2[j] == s[j - 1]);
            } else if i > k {
                assert(s2[i] == s[i - 1]);
                assert(s2[j] == s[j - 1]);
            }
        }
        assert forall|x: Seq<char>| s2.contains(x) <==> (s.contains(x) || x == t@) by {
            if s2.contains(x) {
                let i = choose|i: int| 0 <= i < s2.len() && s2[i] == x;
                if i < k {
                    assert(s[i] == x);
                } else if i > k {
                    assert(s[i - 1] == x);
                }
            }
            if s.contains(x) {
                let i = choose|i: int| 0 <= i < s.len() && s[i] == x;
                if i < k {
                    assert(s2[i] == x);
                } else {
                    assert(s2[i + 1] == x);
                }
            }
            if x == t@ {
                assert(s2[k as int] == x);
            }
        }
    }
}

/// Every tag of the assets, once each, in order (`sort` then `dedup`).
pub fn collect_tags(assets: &[Asset]) -> (r: Vec<String>)
    ensures
        strictly_sorted(strings_view(r@)),
        forall|t: Seq<char>| strings_view(r@).contains(t) <==> tag_in_assets(assets_view(assets@), t),
{
    let mut out: Vec<String> = Vec::new();
    let ghost av = assets_view(assets@);
    let mut i: usize = 0;
    while i < assets.len()
        invariant
            i <= assets.len(),
            av == assets_view(assets@),
            strictly_sorted(strings_view(out@)),
            forall|t: Seq<char>| strings_view(out@).contains(t) <==> tag_in_assets(av.take(i as int), t),
        decreases assets.len() - i,
    {
        let tags = &assets[i].tags;
        let mut j: usize = 0;
        while j < tags.len()
            invariant
                i < assets.len(),
                j <= tags.len(),
                tags == &assets@[i as int].tags,
                av == assets_view(assets@),
                strictly_sorted(strings_view(out@)),
                forall|t: Seq<char>| strings_view(out@).contains(t) <==> (tag_in_assets(av.take(i as int), t)
                    || strings_view(tags@).take(j as int).contains(t)),
            decreases tags.len() - j,
        {
            let ghost before = strings_view(out@);
            insert_sorted(&mut out, tags[j].clone());
            proof {
                let tv = strings_view(tags@);
                assert(tv.take(j + 1) =~= tv.take(j as int).push(tv[j as int]));
                assert forall|t: Seq<char>| strings_view(out@).contains(t) <==> (tag_in_assets(av.take(i as int), t)
                    || tv.take(j + 1).contains(t)) by {
                    let t1 = tv.take(j + 1);
                    let t0 = tv.take(j as int);
                    if t1.contains(t) && !t0.contains(t) {
                        let k = choose|k: int| 0 <= k < t1.len() && t1[k] == t;
                        assert(t1[k] == tv[k]);
                        if k < j {
                            assert(t0[k] == t);
                        }
                    }
                    if t0.contains(t) {
                        let k = choose|k: int| 0 <= k < t0.len() && t0[k] == t;
                        assert(t1[k] == t);
                    }
                    if t == tv[j as int] {
                        assert(t1[j as int] == t);
                    }
                }
            }
            j += 1;
        }
        proof {
            let tv = strings_view(tags@);
            assert(tv.take(tags.len() as int) =~= tv);
            assert(av[i as int].tags == tv);
            assert forall|t: Seq<char>| strings_view(out@).contains(t) <==> tag_in_assets(av.take(i + 1), t) by {
                let a2 = av.take(i + 1);
                if tag_in_assets(a2, t) {
                    let m = choose|m: int| 0 <= m < a2.len() && (#[trigger] a2[m]).tags.contains(t);
                    if m < i {
                        assert(av.take(i as int)[m] == a2[m]);
                        assert(tag_in_assets(av.take(i as int), t));
                    }
                }
                let a1 = av.take(i as int);
                if tag_in_assets(a1, t) {
                    let m = choose|m: int| 0 <= m < a1.len() && (#[trigger] a1[m]).tags.contains(t);
                    assert(a2[m] == a1[m]);
                }
                if tv.contains(t) {
                    assert(a2[i as int] == av[i as int]);
                }
            }
        }
        i += 1;
    }
    assert(av.take(assets.len() as int) =~= av);
    out
}

// ---------------------------------------------------------------------------
// The tags field of the asset form
// ---------------------------------------------------------------------------

/// The pieces of a text between commas (`str::split(',')`).
pub open spec fn split_commas(s: Seq<char>) -> Seq<Seq<char>>
    decreases s.len(),
{
    if s.len() == 0 {
        seq![Seq::empty()]
    } else {
        let p = split_commas(s.drop_last());
        if s.last() == ',' {
            p.push(Seq::empty())
        } else {
            p.update(p.len() - 1, p.last().push(s.last()))
        }
    }
}

pub(crate) proof fn lemma_split_commas_nonempty(s: Seq<char>)
    ensures
        split_commas(s).len() >= 1,
    decreases s.len(),
{
    if s.len() > 0 {
        lemma_split_commas_nonempty(s.drop_last());
    }
}

/// The tags of the asset form's tags field: the comma-separated pieces,
/// trimmed, without the blank ones; no field means no tags.
pub fn parse_tags(tags: Option<String>) -> (r: Vec<String>)
    ensures
        strings_view(r@) == keep_tags(split_commas(or_empty(opt_view(tags)))),
{
    let text: String = match tags {
        Some(t) => t,
        None => String::new(),
    };
    let v = to_chars(text.as_str());
    let mut out: Vec<String> = Vec::new();
    let mut piece: Vec<char> = Vec::new();
    let mut i: usize = 0;
    proof {
        assert(v@.take(0) =~= Seq::<char>::empty());
    }
    while i < v.len()
        invariant
            i <= v.len(),
            split_commas(v@.take(i as int)).len() >= 1,
            piece@ == split_commas(v@.take(i as int)).last(),
            strings_view(out@) == keep_tags(split_commas(v@.take(i as int)).drop_last()),
        decreases v.len() - i,
    {
        let ghost pre = v@.take(i as int);
        assert(v@.take(i + 1).drop_last() =~= pre);
        assert(v@.take(i + 1).last() == v@[i as int]);
        proof {
            lemma_split_commas_nonempty(pre);
        }
        let c = v[i];
        if c == ',' {
            let t = trim_chars(&piece);
            let ghost before = out@;
            if t.len() > 0 {
                out.push(from_chars(&t));
                assert(strings_view(out@) =~= strings_view(before).push(t@));
            }
            assert(split_commas(v@.take(i + 1)) == split_commas(pre).push(Seq::empty()));
            assert(split_commas(v@.take(i + 1)).drop_last() =~= split_commas(pre));
            assert(split_commas(pre) =~= split_commas(pre).drop_last().push(split_commas(pre).last()));
            piece = Vec::new();
        } else {
            piece.push(c);
            let ghost p = split_commas(pre);
            assert(split_commas(v@.take(i + 1)).drop_last() =~= p.drop_last());
        }
        i += 1;
    }
    assert(v@.take(v.len() as int) =~= v@);
    let t = trim_chars(&piece);
    let ghost before = out@;
    let ghost p = split_commas(v@);
    assert(p =~= p.drop_last().push(p.last()));
    if t.len() > 0 {
        out.push(from_chars(&t));
        assert(strings_view(out@) =~= strings_view(before).push(t@));
    }
    proof {
        reveal_strlit("");
    }
    assert(v@ == or_empty(opt_view(tags)));
    out
}

} // verus!
