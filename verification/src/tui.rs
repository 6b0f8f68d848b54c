//! The asset picker shown to interactive SSH clients: the keys it reads,
//! the fuzzy filter over asset names, and how each key changes the
//! selection, the search and the outcome.
use vstd::prelude::*;

use nucleo_matcher::pattern::{AtomKind, CaseMatching, Normalization, Pattern};

use crate::asset_search::assets_view;
use crate::model::{strings_view, Asset, AssetView};
use crate::text::{chars_eq, from_chars, push_char, str_eq, to_chars, trim, trim_chars};

verus! {

// ---------------------------------------------------------------------------
// Keys
// ---------------------------------------------------------------------------

/// A key the picker acts on.
#[derive(Debug, Clone, Copy, PartialEq, Eq, Structural)]
pub enum TuiInput {
    Char(char),
    Enter,
    Backspace,
    Escape,
    Up,
    Down,
    CtrlC,
}

/// A key as the terminal input parser reports it.
#[derive(Debug, Clone, Copy, PartialEq, Eq, Structural)]
pub enum TermKey {
    Char(char),
    Enter,
    Backspace,
    Escape,
    UpArrow,
    ApplicationUpArrow,
    DownArrow,
    ApplicationDownArrow,
    Other,
}

/// The Shift bit of the parser's modifier set.
pub const MODIFIER_SHIFT: u16 = 2;
/// The Ctrl bit of the parser's modifier set.
pub const MODIFIER_CTRL: u16 = 8;

/// A key press with the bits of its modifiers.
#[derive(Debug, Clone, Copy, PartialEq, Eq, Structural)]
pub struct KeyPress {
    pub key: TermKey,
    pub modifiers: u16,
}

/// An event of the terminal input parser.
#[derive(Debug, Clone, Copy, PartialEq, Eq, Structural)]
pub enum TermEvent {
    Key(KeyPress),
    /// Mouse, paste, resize and other events.
    Other,
}

/// The key an event means to the picker: Ctrl+C clears, a character typed
/// alone or with Shift is itself, Enter (or a carriage return or line feed
/// with other modifiers) confirms, Backspace (or BS, DEL) erases, the arrow
/// keys move; anything else is ignored.
pub open spec fn input_of(event: TermEvent) -> Option<TuiInput> {
    match event {
        TermEvent::Other => None,
        TermEvent::Key(k) => match k.key {
            TermKey::Char(c) => if (c == 'c' || c == 'C') && (k.modifiers & MODIFIER_CTRL) == MODIFIER_CTRL {
                Some(TuiInput::CtrlC)
            } else if k.modifiers == 0 || k.modifiers == MODIFIER_SHIFT {
                Some(TuiInput::Char(c))
            } else if c == '\r' || c == '\n' {
                Some(TuiInput::Enter)
            } else if c == '\u{8}' || c == '\u{7f}' {
                Some(TuiInput::Backspace)
            } else {
                None
            },
            TermKey::Enter => Some(TuiInput::Enter),
            TermKey::Backspace => Some(TuiInput::Backspace),
            TermKey::Escape => Some(TuiInput::Escape),
            TermKey::UpArrow | TermKey::ApplicationUpArrow => Some(TuiInput::Up),
            TermKey::DownArrow | TermKey::ApplicationDownArrow => Some(TuiInput::Down),
            TermKey::Other => None,
        },
    }
}

/// The key an event means to the picker (see `input_of`).
pub fn map_event(event: TermEvent) -> (r: Option<TuiInput>)
    ensures
        r == input_of(event),
{
    match event {
        TermEvent::Other => None,
        TermEvent::Key(k) => match k.key {
            TermKey::Char(c) => {
                if (c == 'c' || c == 'C') && (k.modifiers & MODIFIER_CTRL) == MODIFIER_CTRL {
                    Some(TuiInput::CtrlC)
                } else if k.modifiers == 0 || k.modifiers == MODIFIER_SHIFT {
                    Some(TuiInput::Char(c))
                } else if c == '\r' || c == '\n' {
                    Some(TuiInput::Enter)
                } else if c == '\u{8}' || c == '\u{7f}' {
                    Some(TuiInput::Backspace)
                } else {
                    None
                }
            },
            TermKey::Enter => Some(TuiInput::Enter),
            TermKey::Backspace => Some(TuiInput::Backspace),
            TermKey::Escape => Some(TuiInput::Escape),
            TermKey::UpArrow | TermKey::ApplicationUpArrow => Some(TuiInput::Up),
            TermKey::DownArrow | TermKey::ApplicationDownArrow => Some(TuiInput::Down),
            TermKey::Other => None,
        },
    }
}

/// The keys a run of events means, in order.
pub open spec fn inputs_of(events: Seq<TermEvent>) -> Seq<TuiInput>
    decreases events.len(),
{
    if events.len() == 0 {
        Seq::empty()
    } else {
        let r = inputs_of(events.drop_last());
        match input_of(events.last()) {
            Some(i) => r.push(i),
            None => r,
        }
    }
}

/// The keys a run of events means.
pub fn map_events(events: &Vec<TermEvent>) -> (r: Vec<TuiInput>)
    ensures
        r@ == inputs_of(events@),
{
    let mut out: Vec<TuiInput> = Vec::new();
    let mut i: usize = 0;
    while i < events.len()
        invariant
            i <= events.len(),
            out@ == inputs_of(events@.take(i as int)),
        decreases events.len() - i,
    {
        assert(events@.take(i + 1).drop_last() =~= events@.take(i as int));
        assert(events@.take(i + 1).last() == events@[i as int]);
        match map_event(events[i]) {
            Some(input) => out.push(input),
            None => {},
        }
        i += 1;
    }
    assert(events@.take(events.len() as int) =~= events@);
    out
}

#[verifier::external_type_specification]
#[verifier::external_body]
pub struct ExInputParser(termwiz::input::InputParser);

#[verifier::external_type_specification]
#[verifier::external_body]
pub struct ExKeyCode(termwiz::input::KeyCode);

/// A `termwiz` key code as the library's key, one variant for one; keys the
/// picker does not read become `Other`.
#[verifier::external_body]
fn term_key(code: termwiz::input::KeyCode) -> TermKey {
    match code {
        termwiz::input::KeyCode::Char(c) => TermKey::Char(c),
        termwiz::input::KeyCode::Enter => TermKey::Enter,
        termwiz::input::KeyCode::Backspace => TermKey::Backspace,
        termwiz::input::KeyCode::Escape => TermKey::Escape,
        termwiz::input::KeyCode::UpArrow => TermKey::UpArrow,
        termwiz::input::KeyCode::ApplicationUpArrow => TermKey::ApplicationUpArrow,
        termwiz::input::KeyCode::DownArrow => TermKey::DownArrow,
        termwiz::input::KeyCode::ApplicationDownArrow => TermKey::ApplicationDownArrow,
        _ => TermKey::Other,
    }
}

/// `termwiz::input::InputParser::parse_as_vec` (no more input pending),
/// converted to the library's events one for one. Nothing is stated of the
/// result: the parser keeps incomplete escape sequences between calls.
#[verifier::external_body]
fn parse_terminal_input(parser: &mut termwiz::input::InputParser, bytes: &[u8]) -> Vec<TermEvent> {
    parser.parse_as_vec(bytes, false).into_iter().map(|event| match event {
        termwiz::input::InputEvent::Key(k) => TermEvent::Key(KeyPress { key: term_key(k.key), modifiers: k.modifiers.bits() }),
        _ => TermEvent::Other,
    }).collect()
}

/// `termwiz::input::InputParser::new`.
#[verifier::external_body]
fn new_input_parser() -> termwiz::input::InputParser {
    termwiz::input::InputParser::new()
}

/// Turns the bytes an SSH client sends into picker keys.
pub struct InputAdapter {
    parser: termwiz::input::InputParser,
}

impl InputAdapter {
    /// An adapter with no pending input.
    pub fn new() -> (r: InputAdapter) {
        InputAdapter { parser: new_input_parser() }
    }

    /// The keys in a chunk of client bytes; escape sequences split across
    /// chunks are completed by later chunks.
    pub fn parse(&mut self, bytes: &[u8]) -> (r: Vec<TuiInput>) {
        let events = parse_terminal_input(&mut self.parser, bytes);
        map_events(&events)
    }
}

// ---------------------------------------------------------------------------
// The fuzzy filter
// ---------------------------------------------------------------------------

/// The names `nucleo_matcher` keeps for a query (fuzzy atoms, case ignored,
/// smart normalization, default configuration), best score first.
pub uninterp spec fn fuzzy_matches(query: Seq<char>, names: Seq<Seq<char>>) -> Seq<Seq<char>>;

/// `Pattern::new(query, Ignore, Smart, Fuzzy).match_list(names, ..)` with a
/// default `Matcher`, scores dropped. The contract claims that the result is
/// a function of the query and the names, named `fuzzy_matches`, and, as
/// `match_list` filters its input, that every name it returns was given.
#[verifier::external_body]
fn fuzzy_match_names(query: &str, names: Vec<String>) -> (r: Vec<String>)
    ensures
        strings_view(r@) == fuzzy_matches(query@, strings_view(names@)),
        forall|i: int| 0 <= i < r@.len() ==> strings_view(names@).contains(#[trigger] r@[i]@),
{
    let mut matcher = nucleo_matcher::Matcher::new(nucleo_matcher::Config::DEFAULT);
    let pattern = Pattern::new(query, CaseMatching::Ignore, Normalization::Smart, AtomKind::Fuzzy);
    pattern.match_list(names, &mut matcher).into_iter().map(|(name, _score)| name).collect()
}

/// The names of the assets.
pub open spec fn names_of(s: Seq<AssetView>) -> Seq<Seq<char>> {
    s.map_values(|a: AssetView| a.name)
}

/// The first asset with a name.
pub open spec fn first_named(s: Seq<AssetView>, name: Seq<char>) -> Option<AssetView>
    decreases s.len(),
{
    if s.len() == 0 {
        None
    } else if s[0].name == name {
        Some(s[0])
    } else {
        first_named(s.drop_first(), name)
    }
}

/// For each name in order, the first asset with that name.
pub open spec fn assets_named(s: Seq<AssetView>, names: Seq<Seq<char>>) -> Seq<AssetView>
    decreases names.len(),
{
    if names.len() == 0 {
        Seq::empty()
    } else {
        let r = assets_named(s, names.drop_last());
        match first_named(s, names.last()) {
            Some(a) => r.push(a),
            None => r,
        }
    }
}

/// The assets the picker lists: all of them for a blank query, else the
/// fuzzy matches of their names, best first.
pub open spec fn listed_assets(s: Seq<AssetView>, query: Seq<char>) -> Seq<AssetView> {
    if trim(query).len() == 0 {
        s
    } else {
        assets_named(s, fuzzy_matches(query, names_of(s)))
    }
}

/// The position the picker highlights: the selection, kept within the list.
pub open spec fn clamped(selected: nat, len: nat) -> nat {
    if len == 0 {
        0
    } else if selected < len {
        selected
    } else {
        (len - 1) as nat
    }
}

/// What a key press asks of the session.
#[derive(Debug)]
pub enum TuiAction {
    /// Nothing for the session to do.
    Idle,
    Quit,
    Connect(Asset),
}

/// The state of the asset picker.
pub struct TuiApp {
    pub assets: Vec<Asset>,
    pub query: String,
    pub selected: usize,
    pub searching: bool,
}

fn first_asset_named(assets: &Vec<Asset>, name: &Vec<char>) -> (r: Option<usize>)
    ensures
        match r {
            Some(i) => i < assets.len() && first_named(assets_view(assets@), name@) == Some(assets@[i as int]@),
            None => first_named(assets_view(assets@), name@) is None,
        },
{
    let ghost s = assets_view(assets@);
    let mut k: usize = 0;
    assert(s.skip(0) =~= s);
    while k < assets.len()
        invariant
            k <= assets.len(),
            s == assets_view(assets@),
            first_named(s, name@) == first_named(s.skip(k as int), name@),
        decreases assets.len() - k,
    {
        assert(s.skip(k as int)[0] == assets@[k as int]@);
        let n = to_chars(assets[k].name.as_str());
        if chars_eq(&n, name) {
            return Some(k);
        }
        assert(s.skip(k as int).drop_first() =~= s.skip(k + 1));
        k += 1;
    }
    None
}

impl TuiApp {
    /// The picker over the assets a key may reach, with nothing searched.
    pub fn new(assets: Vec<Asset>) -> (r: TuiApp)
        ensures
            assets_view(r.assets@) == assets_view(assets@),
            r.query@.len() == 0,
            r.selected == 0,
            !r.searching,
    {
        TuiApp { assets, query: String::new(), selected: 0, searching: false }
    }

    /// The assets currently listed.
    pub open spec fn listed(&self) -> Seq<AssetView> {
        listed_assets(assets_view(self.assets@), self.query@)
    }

    /// The assets the current query lists (see `listed_assets`).
    pub fn filtered_assets(&self) -> (r: Vec<Asset>)
        ensures
            assets_view(r@) == self.listed(),
    {
        let q = trim_chars(&to_chars(self.query.as_str()));
        if q.len() == 0 {
            let mut all: Vec<Asset> = Vec::new();
            let mut i: usize = 0;
            while i < self.assets.len()
                invariant
                    i <= self.assets.len(),
                    assets_view(all@) == assets_view(self.assets@).take(i as int),
                decreases self.assets.len() - i,
            {
                let ghost before = all@;
                all.push(self.assets[i].clone());
                assert(assets_view(all@) =~= assets_view(before).push(self.assets@[i as int]@));
                assert(assets_view(self.assets@).take(i + 1) =~= assets_view(self.assets@).take(i as int).push(self.assets@[i as int]@));
                i += 1;
            }
            assert(assets_view(self.assets@).take(self.assets.len() as int) =~= assets_view(self.assets@));
            return all;
        }
        let ghost s = assets_view(self.assets@);
        let mut names: Vec<String> = Vec::new();
        let mut i: usize = 0;
        while i < self.assets.len()
            invariant
                i <= self.assets.len(),
                s == assets_view(self.assets@),
                strings_view(names@) == names_of(s).take(i as int),
            decreases self.assets.len() - i,
        {
            let ghost before = names@;
            names.push(self.assets[i].name.clone());
            assert(strings_view(names@) =~= strings_view(before).push(self.assets@[i as int].name@));
            assert(names_of(s).take(i + 1) =~= names_of(s).take(i as int).push(s[i as int].name));
            i += 1;
        }
        assert(names_of(s).take(self.assets.len() as int) =~= names_of(s));
        let matched = fuzzy_match_names(self.query.as_str(), names);
        let ghost ms = strings_view(matched@);
        let mut out: Vec<Asset> = Vec::new();
        let mut j: usize = 0;
        while j < matched.len()
            invariant
                j <= matched.len(),
                s == assets_view(self.assets@),
                ms == strings_view(matched@),
                assets_view(out@) == assets_named(s, ms.take(j as int)),
            decreases matched.len() - j,
        {
            assert(ms.take(j + 1).drop_last() =~= ms.take(j as int));
            assert(ms.take(j + 1).last() == matched@[j as int]@);
            let name = to_chars(matched[j].as_str());
            let ghost before = out@;
            match first_asset_named(&self.assets, &name) {
                Some(k) => {
                    out.push(self.assets[k].clone());
                    assert(assets_view(out@) =~= assets_view(before).push(self.assets@[k as int]@));
                },
                None => {},
            }
            j += 1;
        }
        assert(ms.take(matched.len() as int) =~= ms);
        out
    }

    /// The highlighted asset, if the list is not empty.
    pub fn selected_asset(&self) -> (r: Option<Asset>)
        ensures
            match r {
                Some(a) => self.listed().len() > 0 && a@ == self.listed()[clamped(self.selected as nat, self.listed().len()) as int],
                None => self.listed().len() == 0,
            },
    {
        let items = self.filtered_assets();
        if items.len() == 0 {
            return None;
        }
        let idx = if self.selected < items.len() { self.selected } else { items.len() - 1 };
        Some(items[idx].clone())
    }
}

/// A text without its last character (`String::pop`).
pub open spec fn popped(s: Seq<char>) -> Seq<char> {
    if s.len() > 0 { s.drop_last() } else { s }
}

/// The selection moved down one row, kept on the list.
pub open spec fn moved_down(selected: nat, len: nat) -> nat {
    if len == 0 {
        selected
    } else if selected + 1 < len {
        selected + 1
    } else {
        (len - 1) as nat
    }
}

impl TuiApp {
    /// Applies a key: `q` quits and `/` opens the search unless searching;
    /// while searching, characters extend the query and Backspace shortens
    /// it (both reset the selection); Escape closes the search; Ctrl+C
    /// clears it; the arrows move the selection within the list; Enter
    /// connects to the highlighted asset.
    pub fn handle_input(&mut self, input: TuiInput) -> (r: TuiAction)
        ensures
            assets_view(final(self).assets@) == assets_view(old(self).assets@),
            match input {
                TuiInput::Char(c) => if c == 'q' && !old(self).searching {
                    r is Quit && final(self).query@ == old(self).query@ && final(self).selected == old(self).selected
                        && final(self).searching == old(self).searching
                } else if c == '/' && !old(self).searching {
                    r is Idle && final(self).searching && final(self).query@.len() == 0 && final(self).selected == 0
                } else if old(self).searching {
                    r is Idle && final(self).searching && final(self).query@ == old(self).query@.push(c) && final(self).selected == 0
                } else {
                    r is Idle && final(self).query@ == old(self).query@ && final(self).selected == old(self).selected
                        && final(self).searching == old(self).searching
                },
                TuiInput::Backspace => if old(self).searching {
                    r is Idle && final(self).searching && final(self).query@ == popped(old(self).query@) && final(self).selected == 0
                } else {
                    r is Idle && final(self).query@ == old(self).query@ && final(self).selected == old(self).selected
                        && final(self).searching == old(self).searching
                },
                TuiInput::Escape => r is Idle && !final(self).searching && final(self).query@ == old(self).query@
                    && final(self).selected == old(self).selected,
                TuiInput::CtrlC => r is Idle && !final(self).searching && final(self).query@.len() == 0 && final(self).selected == 0,
                TuiInput::Up => r is Idle && final(self).query@ == old(self).query@ && final(self).searching == old(self).searching
                    && final(self).selected == (if old(self).selected == 0 { 0 } else { old(self).selected - 1 }),
                TuiInput::Down => r is Idle && final(self).query@ == old(self).query@ && final(self).searching == old(self).searching
                    && final(self).selected == moved_down(old(self).selected as nat, old(self).listed().len()),
                TuiInput::Enter => final(self).query@ == old(self).query@ && final(self).searching == old(self).searching
                    && final(self).selected == old(self).selected && match r {
                        TuiAction::Connect(a) => old(self).listed().len() > 0
                            && a@ == old(self).listed()[clamped(old(self).selected as nat, old(self).listed().len()) as int],
                        TuiAction::Idle => old(self).listed().len() == 0,
                        TuiAction::Quit => false,
                    },
            },
    {
        match input {
            TuiInput::Char(c) => {
                if c == 'q' && !self.searching {
                    return TuiAction::Quit;
                }
                if c == '/' && !self.searching {
                    self.searching = true;
                    self.query = String::new();
                    self.selected = 0;
                } else if self.searching {
                    push_char(&mut self.query, c);
                    self.selected = 0;
                }
            },
            TuiInput::Backspace => {
                if self.searching {
                    let v = to_chars(self.query.as_str());
                    if v.len() > 0 {
                        let kept = crate::text::slice_chars(&v, 0, v.len() - 1);
                        assert(kept@ =~= v@.drop_last());
                        self.query = from_chars(&kept);
                    }
                    self.selected = 0;
                }
            },
            TuiInput::Escape => {
                self.searching = false;
            },
            TuiInput::CtrlC => {
                self.query = String::new();
                self.searching = false;
                self.selected = 0;
            },
            TuiInput::Up => {
                if self.selected > 0 {
                    self.selected = self.selected - 1;
                }
            },
            TuiInput::Down => {
                let len = self.filtered_assets().len();
                if len > 0 {
                    if self.selected < len - 1 {
                        self.selected = self.selected + 1;
                    } else {
                        self.selected = len - 1;
                    }
                }
            },
            TuiInput::Enter => {
                if let Some(asset) = self.selected_asset() {
                    return TuiAction::Connect(asset);
                }
            },
        }
        TuiAction::Idle
    }
}


// ---------------------------------------------------------------------------
// A chunk of keys
// ---------------------------------------------------------------------------

/// The picker's state as mathematical values.
pub struct PickerView {
    pub assets: Seq<AssetView>,
    pub query: Seq<char>,
    pub selected: nat,
    pub searching: bool,
}

/// What a key asks of the session, the asset taken by its view.
pub enum ActionView {
    Idle,
    Quit,
    Connect(AssetView),
}

impl TuiApp {
    /// The picker's state.
    pub open spec fn picker(&self) -> PickerView {
        PickerView {
            assets: assets_view(self.assets@),
            query: self.query@,
            selected: self.selected as nat,
            searching: self.searching,
        }
    }
}

/// The view of an action.
pub open spec fn action_view(a: TuiAction) -> ActionView {
    match a {
        TuiAction::Idle => ActionView::Idle,
        TuiAction::Quit => ActionView::Quit,
        TuiAction::Connect(x) => ActionView::Connect(x@),
    }
}

/// One key applied to the picker (see `TuiApp::handle_input`).
pub open spec fn picker_step(p: PickerView, input: TuiInput) -> (PickerView, ActionView) {
    let listed = listed_assets(p.assets, p.query);
    match input {
        TuiInput::Char(c) => if c == 'q' && !p.searching {
            (p, ActionView::Quit)
        } else if c == '/' && !p.searching {
            (PickerView { searching: true, query: Seq::empty(), selected: 0, ..p }, ActionView::Idle)
        } else if p.searching {
            (PickerView { query: p.query.push(c), selected: 0, ..p }, ActionView::Idle)
        } else {
            (p, ActionView::Idle)
        },
        TuiInput::Backspace => if p.searching {
            (PickerView { query: popped(p.query), selected: 0, ..p }, ActionView::Idle)
        } else {
            (p, ActionView::Idle)
        },
        TuiInput::Escape => (PickerView { searching: false, ..p }, ActionView::Idle),
        TuiInput::CtrlC => (PickerView { searching: false, query: Seq::empty(), selected: 0, ..p }, ActionView::Idle),
        TuiInput::Up => (PickerView { selected: if p.selected == 0 { 0 } else { (p.selected - 1) as nat }, ..p }, ActionView::Idle),
        TuiInput::Down => (PickerView { selected: moved_down(p.selected, listed.len()), ..p }, ActionView::Idle),
        TuiInput::Enter => if listed.len() > 0 {
            (p, ActionView::Connect(listed[clamped(p.selected, listed.len()) as int]))
        } else {
            (p, ActionView::Idle)
        },
    }
}

/// Keys applied in order until one asks something of the session; the
/// keys after it are not applied.
pub open spec fn picker_run(p: PickerView, inputs: Seq<TuiInput>) -> (PickerView, ActionView)
    decreases inputs.len(),
{
    if inputs.len() == 0 {
        (p, ActionView::Idle)
    } else {
        let (q, a) = picker_step(p, inputs[0]);
        if a is Idle {
            picker_run(q, inputs.drop_first())
        } else {
            (q, a)
        }
    }
}

impl TuiApp {
    /// Applies the keys of a chunk in order, stopping at the first that
    /// quits or connects; the action returned is that one's, or `Idle`.
    pub fn handle_inputs(&mut self, inputs: &Vec<TuiInput>) -> (r: TuiAction)
        ensures
            (final(self).picker(), action_view(r)) == picker_run(old(self).picker(), inputs@),
    {
        let ghost start = self.picker();
        let mut i: usize = 0;
        assert(inputs@.skip(0) =~= inputs@);
        while i < inputs.len()
            invariant
                i <= inputs.len(),
                start == old(self).picker(),
                picker_run(start, inputs@) == picker_run(self.picker(), inputs@.skip(i as int)),
            decreases inputs.len() - i,
        {
            let ghost before = self.picker();
            assert(inputs@.skip(i as int)[0] == inputs@[i as int]);
            assert(inputs@.skip(i as int).drop_first() =~= inputs@.skip(i + 1));
            let action = self.handle_input(inputs[i]);
            proof {
                if self.query@.len() == 0 {
                    assert(self.query@ =~= Seq::<char>::empty());
                }
            }
            assert((self.picker(), action_view(action)) == picker_step(before, inputs@[i as int]));
            match action {
                TuiAction::Idle => {},
                _ => {
                    assert(picker_run(before, inputs@.skip(i as int)) == picker_step(before, inputs@[i as int]));
                    return action;
                },
            }
            i += 1;
        }
        assert(inputs@.skip(inputs.len() as int) =~= Seq::<TuiInput>::empty());
        TuiAction::Idle
    }
}

} // verus!
