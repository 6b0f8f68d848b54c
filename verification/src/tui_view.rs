//! The text of the asset picker's screen: what each row says, how texts are
//! cut to the terminal width, which rows are scrolled into view and what the
//! header, status and help lines hold. The terminal library draws it.
use vstd::prelude::*;

use crate::model::{Asset, AssetView};
use crate::text::{dec, dec_int, extend_str, from_chars, push_char, push_dec, push_dec_i64, to_chars};

verus! {

// ---------------------------------------------------------------------------
// Widths
// ---------------------------------------------------------------------------

/// The number of terminal columns a text takes, as `ratatui` measures it
/// (Unicode East Asian width).
pub uninterp spec fn text_width(s: Seq<char>) -> nat;

/// A character that takes exactly one column: printable ASCII (space to
/// `~`) or the ellipsis `…`.
pub open spec fn plain_char(c: char) -> bool {
    (32 <= (c as int) && (c as int) <= 126) || c == '…'
}

/// A text made of one-column characters only.
pub open spec fn plain_text(s: Seq<char>) -> bool {
    forall|i: int| 0 <= i < s.len() ==> #[trigger] plain_char(s[i])
}

/// `ratatui::text::Span::raw(value).width()`, which is the Unicode width of
/// the text (`unicode-width`, non-CJK). The contract claims that the width is
/// a function of the text alone, named `text_width`, and that a text of
/// one-column characters is as wide as it is long: `unicode-width` gives each
/// printable ASCII character and `…` (U+2026) the width one, and none of them
/// starts a sequence that it measures as a whole. Of other texts nothing is
/// stated beyond the name.
#[verifier::external_body]
fn display_width(value: &str) -> (r: usize)
    ensures
        r == text_width(value@),
        plain_text(value@) ==> r == value@.len(),
{
    ratatui::text::Span::raw(value).width()
}

/// `a - b`, or zero.
pub open spec fn sat_sub(a: nat, b: nat) -> nat {
    if a >= b { (a - b) as nat } else { 0 }
}

/// `a + b`, or the largest `usize`.
pub open spec fn sat_add(a: nat, b: nat) -> nat {
    if a + b > usize::MAX { usize::MAX as nat } else { a + b }
}

fn sat_sub_exec(a: usize, b: usize) -> (r: usize)
    ensures
        r == sat_sub(a as nat, b as nat),
{
    if a >= b { a - b } else { 0 }
}

fn sat_add_exec(a: usize, b: usize) -> (r: usize)
    ensures
        r == sat_add(a as nat, b as nat),
{
    if a > usize::MAX - b { usize::MAX } else { a + b }
}

/// The characters taken from the front of a text while their widths, each
/// measured alone, still fit in the budget.
pub open spec fn fit_prefix(s: Seq<char>, budget: nat) -> Seq<char>
    decreases s.len(),
{
    if s.len() == 0 {
        Seq::empty()
    } else {
        let w = text_width(seq![s[0]]);
        if w > budget {
            Seq::empty()
        } else {
            seq![s[0]] + fit_prefix(s.drop_first(), (budget - w) as nat)
        }
    }
}

/// A text cut to a width: unchanged when it fits, else the characters that
/// fit in one column less followed by `…` (only `…` for a width of one,
/// nothing for zero).
pub open spec fn truncated(value: Seq<char>, max_width: nat) -> Seq<char> {
    if text_width(value) <= max_width {
        value
    } else if max_width == 0 {
        Seq::empty()
    } else if max_width == 1 {
        seq!['…']
    } else {
        fit_prefix(value, (max_width - 1) as nat).push('…')
    }
}

/// Cuts a text to a number of terminal columns (see `truncated`). A text of
/// one-column characters comes back no wider than the columns given.
pub fn truncate_to_width(value: &str, max_width: usize) -> (r: String)
    ensures
        r@ == truncated(value@, max_width as nat),
        plain_text(value@) ==> plain_text(r@) && text_width(r@) <= max_width,
{
    if display_width(value) <= max_width {
        return value.to_string();
    }
    let r = if max_width == 0 {
        String::new()
    } else if max_width == 1 {
        proof {
            reveal_strlit("…");
        }
        "…".to_string()
    } else {
        cut_with_ellipsis(value, max_width)
    };
    // The width of what was cut, so that the bound above is known.
    let cut_width = display_width(r.as_str());
    proof {
        if plain_text(value@) {
            assert(cut_width == r@.len());
        }
    }
    r
}

/// The characters of `value` that fit in `max_width - 1` columns, then `…`.
fn cut_with_ellipsis(value: &str, max_width: usize) -> (r: String)
    requires
        max_width >= 2,
    ensures
        r@ == fit_prefix(value@, (max_width - 1) as nat).push('…'),
        plain_text(value@) ==> plain_text(r@) && r@.len() <= max_width,
{
    let v = to_chars(value);
    let ghost budget: nat = (max_width - 1) as nat;
    let mut out: Vec<char> = Vec::new();
    let mut left: usize = max_width - 1;
    let mut i: usize = 0;
    let mut done = false;
    assert(v@.skip(0) =~= v@);
    while i < v.len() && !done
        invariant
            i <= v.len(),
            left <= budget,
            budget == max_width - 1,
            v@ == value@,
            !done ==> out@ + fit_prefix(v@.skip(i as int), left as nat) == fit_prefix(v@, budget),
            done ==> out@ == fit_prefix(v@, budget),
            plain_text(v@) ==> plain_text(out@) && out@.len() + left == budget,
        decreases v.len() - i, if done { 0int } else { 1int },
    {
        let c = v[i];
        let mut one = String::new();
        push_char(&mut one, c);
        let w = display_width(one.as_str());
        let ghost rest = v@.skip(i as int);
        assert(rest[0] == c);
        assert(one@ =~= seq![c]);
        proof {
            if plain_text(v@) {
                assert(plain_char(v@[i as int]));
                assert(plain_text(one@));
            }
        }
        if w > left {
            done = true;
            assert(fit_prefix(rest, left as nat) =~= Seq::<char>::empty());
            assert(out@ + Seq::<char>::empty() =~= out@);
        } else {
            assert(rest.drop_first() =~= v@.skip(i + 1));
            let ghost before = out@;
            out.push(c);
            assert(before + fit_prefix(rest, left as nat) =~= out@ + fit_prefix(v@.skip(i + 1), (left - w) as nat));
            left = left - w;
            i += 1;
        }
    }
    if !done {
        assert(v@.skip(i as int) =~= Seq::<char>::empty());
        assert(out@ + Seq::<char>::empty() =~= out@);
    }
    out.push('…');
    from_chars(&out)
}

// ---------------------------------------------------------------------------
// Asset rows
// ---------------------------------------------------------------------------

/// What one asset row shows, before styling: the first line is marker,
/// name, a gap and the credential kind; the second is the address, a gap and
/// the tags. Both lines start with an indent and end with two spaces.
#[derive(Debug, Clone, PartialEq, Eq)]
pub struct AssetLines {
    pub marker: &'static str,
    pub name: String,
    pub gap1: usize,
    pub credential: String,
    pub address: String,
    pub gap2: usize,
    pub tags: String,
}

/// The texts of an asset row, as mathematical values.
pub struct AssetLinesView {
    pub marker: Seq<char>,
    pub name: Seq<char>,
    pub gap1: nat,
    pub credential: Seq<char>,
    pub address: Seq<char>,
    pub gap2: nat,
    pub tags: Seq<char>,
}

/// `host:port`.
pub open spec fn address_of(a: AssetView) -> Seq<char> {
    a.hostname + ":"@ + dec_int(a.port as int)
}

/// `[tag1][tag2]...`, or nothing without tags.
pub open spec fn tags_text(tags: Seq<Seq<char>>) -> Seq<char> {
    if tags.len() == 0 {
        Seq::empty()
    } else {
        "["@ + join_text(tags, "]["@) + "]"@
    }
}

/// Texts joined with a separator text.
pub open spec fn join_text(ts: Seq<Seq<char>>, sep: Seq<char>) -> Seq<char>
    decreases ts.len(),
{
    if ts.len() == 0 {
        Seq::empty()
    } else if ts.len() == 1 {
        ts[0]
    } else {
        join_text(ts.drop_last(), sep) + sep + ts.last()
    }
}

/// The layout of an asset row of a given width: the right-hand texts are cut
/// first (leaving the indent of four and the end margin of two), the
/// left-hand texts get what remains, and the gaps fill the line.
pub open spec fn asset_lines_of(a: AssetView, selected: bool, width: nat) -> AssetLinesView {
    let credential = truncated(if a.credential_id is Some { "managed"@ } else { "proxy-only"@ }, sat_sub(sat_sub(width, 4), 2));
    let right1 = sat_add(text_width(credential), 2);
    let name = truncated(a.name, sat_sub(width, sat_add(4, right1)));
    let gap1 = sat_sub(width, sat_add(sat_add(4, text_width(name)), right1));
    let tags = truncated(tags_text(a.tags), sat_sub(sat_sub(width, 4), 2));
    let right2 = sat_add(text_width(tags), 2);
    let address = truncated(address_of(a), sat_sub(width, sat_add(4, right2)));
    let gap2 = sat_sub(width, sat_add(sat_add(4, text_width(address)), right2));
    AssetLinesView {
        marker: if selected { "▸"@ } else { " "@ },
        name,
        gap1,
        credential,
        address,
        gap2,
        tags,
    }
}

fn tags_text_exec(tags: &Vec<String>) -> (r: String)
    ensures
        r@ == tags_text(crate::model::strings_view(tags@)),
{
    if tags.len() == 0 {
        return String::new();
    }
    let ghost ts = crate::model::strings_view(tags@);
    let mut out: Vec<char> = Vec::new();
    extend_str(&mut out, "[");
    extend_str(&mut out, tags[0].as_str());
    let mut i: usize = 1;
    assert(ts.take(1) =~= seq![ts[0]]);
    while i < tags.len()
        invariant
            1 <= i <= tags.len(),
            ts == crate::model::strings_view(tags@),
            out@ == "["@ + join_text(ts.take(i as int), "]["@),
        decreases tags.len() - i,
    {
        extend_str(&mut out, "][");
        extend_str(&mut out, tags[i].as_str());
        assert(ts.take(i + 1).drop_last() =~= ts.take(i as int));
        assert(out@ =~= "["@ + join_text(ts.take(i + 1), "]["@));
        i += 1;
    }
    extend_str(&mut out, "]");
    assert(ts.take(tags.len() as int) =~= ts);
    from_chars(&out)
}

/// Lays out the two lines of an asset row (see `asset_lines_of`).
pub fn asset_lines(asset: &Asset, selected: bool, width: u16) -> (r: AssetLines)
    ensures
        r.marker@ == asset_lines_of(asset@, selected, width as nat).marker,
        r.name@ == asset_lines_of(asset@, selected, width as nat).name,
        r.gap1 == asset_lines_of(asset@, selected, width as nat).gap1,
        r.credential@ == asset_lines_of(asset@, selected, width as nat).credential,
        r.address@ == asset_lines_of(asset@, selected, width as nat).address,
        r.gap2 == asset_lines_of(asset@, selected, width as nat).gap2,
        r.tags@ == asset_lines_of(asset@, selected, width as nat).tags,
        // Each line fills the width exactly (indent of four, end margin of
        // two) when its texts are one-column texts and the width leaves room
        // for indent and margin.
        width >= 6 && plain_text(asset@.name) ==> 4 + text_width(r.name@) + r.gap1
            + text_width(r.credential@) + 2 == width,
        width >= 6 && plain_text(address_of(asset@)) && plain_text(tags_text(asset@.tags)) ==> 4
            + text_width(r.address@) + r.gap2 + text_width(r.tags@) + 2 == width,
{
    let w = width as usize;
    proof {
        reveal_strlit("managed");
        reveal_strlit("proxy-only");
    }
    let kind: &str = if asset.credential_id.is_some() { "managed" } else { "proxy-only" };
    assert(plain_text(kind@));
    let credential = truncate_to_width(kind, sat_sub_exec(sat_sub_exec(w, 4), 2));
    let right1 = sat_add_exec(display_width(credential.as_str()), 2);
    let name = truncate_to_width(asset.name.as_str(), sat_sub_exec(w, sat_add_exec(4, right1)));
    let gap1 = sat_sub_exec(w, sat_add_exec(sat_add_exec(4, display_width(name.as_str())), right1));
    let tags_full = tags_text_exec(&asset.tags);
    let tags = truncate_to_width(tags_full.as_str(), sat_sub_exec(sat_sub_exec(w, 4), 2));
    let right2 = sat_add_exec(display_width(tags.as_str()), 2);
    let mut addr: Vec<char> = Vec::new();
    extend_str(&mut addr, asset.hostname.as_str());
    extend_str(&mut addr, ":");
    push_dec_i64(&mut addr, asset.port);
    let addr_full = from_chars(&addr);
    let address = truncate_to_width(addr_full.as_str(), sat_sub_exec(w, sat_add_exec(4, right2)));
    let gap2 = sat_sub_exec(w, sat_add_exec(sat_add_exec(4, display_width(address.as_str())), right2));
    AssetLines {
        marker: if selected { "▸" } else { " " },
        name,
        gap1,
        credential,
        address,
        gap2,
        tags,
    }
}

// ---------------------------------------------------------------------------
// Header, status, list and help
// ---------------------------------------------------------------------------

/// Number of asset rows that fit in a list area of the given height (two
/// lines per asset).
pub fn visible_asset_count(list_height: u16) -> (count: usize)
    ensures
        count == list_height / 2,
{
    (list_height as usize) / 2
}

/// `1 asset` or `<n> assets`, followed by the position `<k>/<n>` when the
/// list does not fit (`k` is the highlighted row, counted from one).
pub open spec fn header_counts_text(count: nat, selected: nat, list_height: nat) -> Seq<char> {
    let count_text = if count == 1 { "1 asset"@ } else { dec(count) + " assets"@ };
    let visible = list_height / 2;
    if visible > 0 && count > visible {
        count_text + "  "@ + dec(clamp_index(selected, count) + 1) + "/"@ + dec(count)
    } else {
        count_text
    }
}

/// The selection kept on a non-empty list.
pub open spec fn clamp_index(selected: nat, count: nat) -> nat {
    if selected < count { selected } else { sat_sub(count, 1) }
}

/// The right-hand text of the header.
pub fn header_counts(count: usize, selected: usize, list_height: u16) -> (r: String)
    ensures
        r@ == header_counts_text(count as nat, selected as nat, list_height as nat),
{
    let mut out: Vec<char> = Vec::new();
    if count == 1 {
        extend_str(&mut out, "1 asset");
    } else {
        push_dec(&mut out, count as u64);
        extend_str(&mut out, " assets");
    }
    let visible = visible_asset_count(list_height);
    if visible > 0 && count > visible {
        let shown = if selected < count { selected } else { count - 1 };
        extend_str(&mut out, "  ");
        push_dec(&mut out, (shown + 1) as u64);
        extend_str(&mut out, "/");
        push_dec(&mut out, count as u64);
    }
    from_chars(&out)
}

/// The status line is shown while searching or while a filter is set.
pub fn status_line_height(searching: bool, query: &str) -> (r: u16)
    ensures
        r == if searching || query@.len() > 0 { 1u16 } else { 0u16 },
{
    if searching || !query.is_empty() { 1 } else { 0 }
}

/// The status line: a prompt (`›` while searching, else `filter`) and the
/// query cut to the line.
pub fn status_line(searching: bool, query: &str, width: u16) -> (r: (&'static str, String))
    ensures
        r.0@ == if searching { "›"@ } else { "filter"@ },
        r.1@ == truncated(query@, sat_sub(width as nat, 4)),
{
    let content = truncate_to_width(query, sat_sub_exec(width as usize, 4));
    (if searching { "›" } else { "filter" }, content)
}

/// What an empty list says: that nothing is configured, or that nothing
/// matches the query; cut to the line.
pub fn empty_assets_message(query: &str, width: u16) -> (r: String)
    ensures
        r@ == truncated(
            if query@.len() == 0 { "No assets configured"@ } else { "No assets match \""@ + query@ + "\""@ },
            sat_sub(width as nat, 4),
        ),
{
    let message = if query.is_empty() {
        "No assets configured".to_string()
    } else {
        let mut out: Vec<char> = Vec::new();
        extend_str(&mut out, "No assets match \"");
        extend_str(&mut out, query);
        extend_str(&mut out, "\"");
        from_chars(&out)
    };
    truncate_to_width(message.as_str(), sat_sub_exec(width as usize, 4))
}

/// The first asset row shown: enough rows are scrolled away for the
/// highlighted one to be the last visible.
pub fn scroll_offset(selected: usize, visible_count: usize) -> (r: usize)
    requires
        visible_count > 0 || selected < usize::MAX,
    ensures
        r == if selected >= visible_count { selected - visible_count + 1 } else { 0 },
{
    if selected >= visible_count {
        if visible_count > 0 {
            selected - (visible_count - 1)
        } else {
            selected + 1
        }
    } else {
        0
    }
}

/// The keys the help line lists, each with its description: Enter, `/` and
/// the arrows always; Esc while searching; Ctrl+C while searching or
/// filtered; `q` last.
pub open spec fn help_entries(searching: bool, filtered: bool) -> Seq<(Seq<char>, Seq<char>)> {
    let base = seq![("Enter"@, " connect  "@), ("/"@, " search  "@), ("↑↓"@, " select  "@)];
    let with_esc = if searching { base.push(("Esc"@, " close  "@)) } else { base };
    let with_clear = if searching || filtered { with_esc.push(("Ctrl+C"@, " clear  "@)) } else { with_esc };
    with_clear.push(("q"@, " quit"@))
}

/// The help line's keys and descriptions.
pub fn help_keys(searching: bool, query: &str) -> (r: Vec<(&'static str, &'static str)>)
    ensures
        r@.map_values(|p: (&'static str, &'static str)| (p.0@, p.1@)) == help_entries(searching, query@.len() > 0),
{
    let mut v: Vec<(&'static str, &'static str)> = Vec::new();
    v.push(("Enter", " connect  "));
    v.push(("/", " search  "));
    v.push(("↑↓", " select  "));
    if searching {
        v.push(("Esc", " close  "));
    }
    if searching || !query.is_empty() {
        v.push(("Ctrl+C", " clear  "));
    }
    v.push(("q", " quit"));
    assert(v@.map_values(|p: (&'static str, &'static str)| (p.0@, p.1@)) =~= help_entries(searching, query@.len() > 0));
    v
}

/// The picker never draws smaller than 40 columns by 10 rows.
pub fn viewport_size(width: u16, height: u16) -> (r: (u16, u16))
    ensures
        r.0 == if width < 40 { 40 } else { width },
        r.1 == if height < 10 { 10 } else { height },
{
    (if width < 40 { 40 } else { width }, if height < 10 { 10 } else { height })
}

} // verus!
