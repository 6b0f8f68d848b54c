//! The command line of the gateway binary: which words name commands, which
//! options each command takes, and how a list of arguments becomes a
//! command. Arguments are read left to right; the first error, or a request
//! for help or the version, ends the reading.
use vstd::prelude::*;

use crate::model::{strings_view, AssetAccessMode, AuthType, ASSET_PROTOCOL_SSH, ASSET_PROTOCOL_TCP};
use crate::text::{chars_eq, chars_eq_str, from_chars, parse_i64, parse_i64_chars, to_chars};
use crate::transfer::{ConflictPolicy, TransferFormat, TransferKind};

verus! {

// ---------------------------------------------------------------------------
// The command tree
// ---------------------------------------------------------------------------

/// A command that runs.
#[derive(Debug, Clone, Copy, PartialEq, Eq, Structural)]
pub enum LeafCmd {
    Serve,
    ConfigValidate,
    ConfigDiff,
    ConfigStatus,
    Apply,
    KeyAdd,
    KeyList,
    KeyDeactivate,
    KeyActivate,
    KeyAccessShow,
    KeyAccessSet,
    CredentialAdd,
    CredentialList,
    CredentialDelete,
    AssetAdd,
    AssetList,
    AssetDelete,
    Export,
    Import,
}

/// Where the reading stands in the command tree.
#[derive(Debug, Clone, Copy, PartialEq, Eq, Structural)]
pub enum CmdNode {
    Root,
    Config,
    Key,
    KeyAccess,
    Credential,
    Asset,
    Leaf(LeafCmd),
}

/// The command a word names below a node.
pub open spec fn child_of(node: CmdNode, w: Seq<char>) -> Option<CmdNode> {
    match node {
        CmdNode::Root => if w == "serve"@ {
            Some(CmdNode::Leaf(LeafCmd::Serve))
        } else if w == "config"@ {
            Some(CmdNode::Config)
        } else if w == "apply"@ {
            Some(CmdNode::Leaf(LeafCmd::Apply))
        } else if w == "key"@ {
            Some(CmdNode::Key)
        } else if w == "credential"@ {
            Some(CmdNode::Credential)
        } else if w == "asset"@ {
            Some(CmdNode::Asset)
        } else if w == "export"@ {
            Some(CmdNode::Leaf(LeafCmd::Export))
        } else if w == "import"@ {
            Some(CmdNode::Leaf(LeafCmd::Import))
        } else {
            None
        },
        CmdNode::Config => if w == "validate"@ {
            Some(CmdNode::Leaf(LeafCmd::ConfigValidate))
        } else if w == "diff"@ {
            Some(CmdNode::Leaf(LeafCmd::ConfigDiff))
        } else if w == "status"@ {
            Some(CmdNode::Leaf(LeafCmd::ConfigStatus))
        } else {
            None
        },
        CmdNode::Key => if w == "add"@ {
            Some(CmdNode::Leaf(LeafCmd::KeyAdd))
        } else if w == "list"@ {
            Some(CmdNode::Leaf(LeafCmd::KeyList))
        } else if w == "deactivate"@ {
            Some(CmdNode::Leaf(LeafCmd::KeyDeactivate))
        } else if w == "activate"@ {
            Some(CmdNode::Leaf(LeafCmd::KeyActivate))
        } else if w == "access"@ {
            Some(CmdNode::KeyAccess)
        } else {
            None
        },
        CmdNode::KeyAccess => if w == "show"@ {
            Some(CmdNode::Leaf(LeafCmd::KeyAccessShow))
        } else if w == "set"@ {
            Some(CmdNode::Leaf(LeafCmd::KeyAccessSet))
        } else {
            None
        },
        CmdNode::Credential => if w == "add"@ {
            Some(CmdNode::Leaf(LeafCmd::CredentialAdd))
        } else if w == "list"@ {
            Some(CmdNode::Leaf(LeafCmd::CredentialList))
        } else if w == "delete"@ {
            Some(CmdNode::Leaf(LeafCmd::CredentialDelete))
        } else {
            None
        },
        CmdNode::Asset => if w == "add"@ {
            Some(CmdNode::Leaf(LeafCmd::AssetAdd))
        } else if w == "list"@ {
            Some(CmdNode::Leaf(LeafCmd::AssetList))
        } else if w == "delete"@ {
            Some(CmdNode::Leaf(LeafCmd::AssetDelete))
        } else {
            None
        },
        CmdNode::Leaf(_) => None,
    }
}

fn child_exec(node: CmdNode, w: &Vec<char>) -> (r: Option<CmdNode>)
    ensures
        r == child_of(node, w@),
{
    match node {
        CmdNode::Root => {
            if chars_eq_str(w, "serve") {
                Some(CmdNode::Leaf(LeafCmd::Serve))
            } else if chars_eq_str(w, "config") {
                Some(CmdNode::Config)
            } else if chars_eq_str(w, "apply") {
                Some(CmdNode::Leaf(LeafCmd::Apply))
            } else if chars_eq_str(w, "key") {
                Some(CmdNode::Key)
            } else if chars_eq_str(w, "credential") {
                Some(CmdNode::Credential)
            } else if chars_eq_str(w, "asset") {
                Some(CmdNode::Asset)
            } else if chars_eq_str(w, "export") {
                Some(CmdNode::Leaf(LeafCmd::Export))
            } else if chars_eq_str(w, "import") {
                Some(CmdNode::Leaf(LeafCmd::Import))
            } else {
                None
            }
        },
        CmdNode::Config => {
            if chars_eq_str(w, "validate") {
                Some(CmdNode::Leaf(LeafCmd::ConfigValidate))
            } else if chars_eq_str(w, "diff") {
                Some(CmdNode::Leaf(LeafCmd::ConfigDiff))
            } else if chars_eq_str(w, "status") {
                Some(CmdNode::Leaf(LeafCmd::ConfigStatus))
            } else {
                None
            }
        },
        CmdNode::Key => {
            if chars_eq_str(w, "add") {
                Some(CmdNode::Leaf(LeafCmd::KeyAdd))
            } else if chars_eq_str(w, "list") {
                Some(CmdNode::Leaf(LeafCmd::KeyList))
            } else if chars_eq_str(w, "deactivate") {
                Some(CmdNode::Leaf(LeafCmd::KeyDeactivate))
            } else if chars_eq_str(w, "activate") {
                Some(CmdNode::Leaf(LeafCmd::KeyActivate))
            } else if chars_eq_str(w, "access") {
                Some(CmdNode::KeyAccess)
            } else {
                None
            }
        },
        CmdNode::KeyAccess => {
            if chars_eq_str(w, "show") {
                Some(CmdNode::Leaf(LeafCmd::KeyAccessShow))
            } else if chars_eq_str(w, "set") {
                Some(CmdNode::Leaf(LeafCmd::KeyAccessSet))
            } else {
                None
            }
        },
        CmdNode::Credential => {
            if chars_eq_str(w, "add") {
                Some(CmdNode::Leaf(LeafCmd::CredentialAdd))
            } else if chars_eq_str(w, "list") {
                Some(CmdNode::Leaf(LeafCmd::CredentialList))
            } else if chars_eq_str(w, "delete") {
                Some(CmdNode::Leaf(LeafCmd::CredentialDelete))
            } else {
                None
            }
        },
        CmdNode::Asset => {
            if chars_eq_str(w, "add") {
                Some(CmdNode::Leaf(LeafCmd::AssetAdd))
            } else if chars_eq_str(w, "list") {
                Some(CmdNode::Leaf(LeafCmd::AssetList))
            } else if chars_eq_str(w, "delete") {
                Some(CmdNode::Leaf(LeafCmd::AssetDelete))
            } else {
                None
            }
        },
        CmdNode::Leaf(_) => None,
    }
}

/// How an option takes values.
#[derive(Debug, Clone, Copy, PartialEq, Eq, Structural)]
pub enum Arity {
    /// A switch without a value.
    Flag,
    /// One value, given once.
    Single,
    /// A value per occurrence, repeatable.
    Multi,
}

/// The long options of a command.
pub open spec fn arity_of(leaf: LeafCmd, name: Seq<char>) -> Option<Arity> {
    match leaf {
        LeafCmd::ConfigValidate => if name == "file"@ {
            Some(Arity::Multi)
        } else if name == "offline"@ || name == "json"@ {
            Some(Arity::Flag)
        } else {
            None
        },
        LeafCmd::ConfigDiff => if name == "file"@ {
            Some(Arity::Multi)
        } else if name == "source"@ {
            Some(Arity::Single)
        } else if name == "prune"@ || name == "json"@ {
            Some(Arity::Flag)
        } else {
            None
        },
        LeafCmd::ConfigStatus => if name == "json"@ { Some(Arity::Flag) } else { None },
        LeafCmd::Apply => if name == "file"@ {
            Some(Arity::Multi)
        } else if name == "source"@ || name == "base-revision"@ {
            Some(Arity::Single)
        } else if name == "dry-run"@ || name == "prune"@ || name == "json"@ {
            Some(Arity::Flag)
        } else {
            None
        },
        LeafCmd::KeyAdd => if name == "name"@ || name == "public-key"@ || name == "public-key-file"@ {
            Some(Arity::Single)
        } else {
            None
        },
        LeafCmd::KeyAccessSet => if name == "mode"@ {
            Some(Arity::Single)
        } else if name == "asset-id"@ {
            Some(Arity::Multi)
        } else {
            None
        },
        LeafCmd::CredentialAdd => if name == "name"@ || name == "username"@ || name == "auth-type"@ || name == "password"@
            || name == "private-key-file"@ || name == "passphrase"@ {
            Some(Arity::Single)
        } else if name == "password-stdin"@ {
            Some(Arity::Flag)
        } else {
            None
        },
        LeafCmd::AssetAdd => if name == "name"@ || name == "protocol"@ || name == "hostname"@ || name == "port"@
            || name == "description"@ || name == "credential-id"@ {
            Some(Arity::Single)
        } else if name == "tags"@ {
            Some(Arity::Multi)
        } else {
            None
        },
        LeafCmd::Export => if name == "kind"@ || name == "format"@ || name == "output"@ {
            Some(Arity::Single)
        } else {
            None
        },
        LeafCmd::Import => if name == "kind"@ || name == "file"@ || name == "format"@ || name == "on-conflict"@ {
            Some(Arity::Single)
        } else {
            None
        },
        _ => None,
    }
}

fn arity_exec(leaf: LeafCmd, name: &Vec<char>) -> (r: Option<Arity>)
    ensures
        r == arity_of(leaf, name@),
{
    match leaf {
        LeafCmd::ConfigValidate => {
            if chars_eq_str(name, "file") {
                Some(Arity::Multi)
            } else if chars_eq_str(name, "offline") || chars_eq_str(name, "json") {
                Some(Arity::Flag)
            } else {
                None
            }
        },
        LeafCmd::ConfigDiff => {
            if chars_eq_str(name, "file") {
                Some(Arity::Multi)
            } else if chars_eq_str(name, "source") {
                Some(Arity::Single)
            } else if chars_eq_str(name, "prune") || chars_eq_str(name, "json") {
                Some(Arity::Flag)
            } else {
                None
            }
        },
        LeafCmd::ConfigStatus => if chars_eq_str(name, "json") { Some(Arity::Flag) } else { None },
        LeafCmd::Apply => {
            if chars_eq_str(name, "file") {
                Some(Arity::Multi)
            } else if chars_eq_str(name, "source") || chars_eq_str(name, "base-revision") {
                Some(Arity::Single)
            } else if chars_eq_str(name, "dry-run") || chars_eq_str(name, "prune") || chars_eq_str(name, "json") {
                Some(Arity::Flag)
            } else {
                None
            }
        },
        LeafCmd::KeyAdd => {
            if chars_eq_str(name, "name") || chars_eq_str(name, "public-key") || chars_eq_str(name, "public-key-file") {
                Some(Arity::Single)
            } else {
                None
            }
        },
        LeafCmd::KeyAccessSet => {
            if chars_eq_str(name, "mode") {
                Some(Arity::Single)
            } else if chars_eq_str(name, "asset-id") {
                Some(Arity::Multi)
            } else {
                None
            }
        },
        LeafCmd::CredentialAdd => {
            if chars_eq_str(name, "name") || chars_eq_str(name, "username") || chars_eq_str(name, "auth-type") || chars_eq_str(name, "password") || chars_eq_str(name, "private-key-file") || chars_eq_str(name, "passphrase") {
                Some(Arity::Single)
            } else if chars_eq_str(name, "password-stdin") {
                Some(Arity::Flag)
            } else {
                None
            }
        },
        LeafCmd::AssetAdd => {
            if chars_eq_str(name, "name") || chars_eq_str(name, "protocol") || chars_eq_str(name, "hostname") || chars_eq_str(name, "port") || chars_eq_str(name, "description") || chars_eq_str(name, "credential-id") {
                Some(Arity::Single)
            } else if chars_eq_str(name, "tags") {
                Some(Arity::Multi)
            } else {
                None
            }
        },
        LeafCmd::Export => {
            if chars_eq_str(name, "kind") || chars_eq_str(name, "format") || chars_eq_str(name, "output") {
                Some(Arity::Single)
            } else {
                None
            }
        },
        LeafCmd::Import => {
            if chars_eq_str(name, "kind") || chars_eq_str(name, "file") || chars_eq_str(name, "format") || chars_eq_str(name, "on-conflict") {
                Some(Arity::Single)
            } else {
                None
            }
        },
        _ => None,
    }
}

/// The commands whose `--file` also reads as `-f`.
pub open spec fn takes_short_f(leaf: LeafCmd) -> bool {
    leaf == LeafCmd::ConfigValidate || leaf == LeafCmd::ConfigDiff || leaf == LeafCmd::Apply
}

/// The commands that take an id as their one positional argument.
pub open spec fn takes_id(leaf: LeafCmd) -> bool {
    leaf == LeafCmd::KeyDeactivate || leaf == LeafCmd::KeyActivate || leaf == LeafCmd::KeyAccessShow
        || leaf == LeafCmd::KeyAccessSet || leaf == LeafCmd::CredentialDelete || leaf == LeafCmd::AssetDelete
}

// ---------------------------------------------------------------------------
// Reading the arguments
// ---------------------------------------------------------------------------

/// Why the arguments were not a command.
#[derive(Debug, Clone, Copy, PartialEq, Eq, Structural)]
pub enum CliErrorKind {
    /// An option or argument the command does not take.
    UnexpectedArgument,
    /// A word that names no command here.
    UnrecognizedSubcommand,
    /// An option without its value.
    MissingValue,
    /// A command group without a command.
    MissingSubcommand,
    /// A required option or argument is missing.
    MissingRequired,
    /// A value that the option does not accept.
    InvalidValue,
    /// An option given twice, or two options that exclude each other.
    ArgumentConflict,
    /// A value given to a switch.
    UnexpectedValue,
    /// `--help`, `-h` or `help` asked for the usage text.
    HelpRequested,
    /// `--version` or `-V` asked for the version.
    VersionRequested,
}

/// A refusal, with the argument or option it concerns.
#[derive(Debug, Clone, PartialEq, Eq)]
pub struct CliError {
    pub kind: CliErrorKind,
    pub argument: String,
}

/// Where the reading stands, as mathematical values.
pub struct ScanView {
    pub node: CmdNode,
    pub config: Option<Seq<char>>,
    pub opts: Seq<(Seq<char>, Seq<char>)>,
    pub positionals: Seq<Seq<char>>,
    pub pending: Option<Seq<char>>,
    pub after_dashdash: bool,
    pub stop: Option<(CliErrorKind, Seq<char>)>,
}

/// Nothing read yet.
pub open spec fn scan_start() -> ScanView {
    ScanView {
        node: CmdNode::Root,
        config: None,
        opts: Seq::empty(),
        positionals: Seq::empty(),
        pending: None,
        after_dashdash: false,
        stop: None,
    }
}

/// An argument that reads as an option rather than a value: a dash
/// followed by something.
pub open spec fn looks_like_option(t: Seq<char>) -> bool {
    t.len() > 1 && t[0] == '-'
}

/// The position of the first `=`, if any.
pub open spec fn first_eq(s: Seq<char>) -> Option<int>
    decreases s.len(),
{
    if s.len() == 0 {
        None
    } else if s[0] == '=' {
        Some(0)
    } else {
        match first_eq(s.drop_first()) {
            Some(i) => Some(i + 1),
            None => None,
        }
    }
}

/// A value for an option: the global `--config` is remembered apart (given
/// twice, it conflicts); others are recorded in order.
pub open spec fn take_value(s: ScanView, name: Seq<char>, v: Seq<char>) -> ScanView {
    if name == "config"@ {
        if s.config is Some {
            ScanView { stop: Some((CliErrorKind::ArgumentConflict, "config"@)), ..s }
        } else {
            ScanView { config: Some(v), ..s }
        }
    } else {
        ScanView { opts: s.opts.push((name, v)), ..s }
    }
}

/// A positional argument: at a command it is an argument; in a group it
/// names the next command (or asks for help).
pub open spec fn take_positional(s: ScanView, t: Seq<char>) -> ScanView {
    match s.node {
        CmdNode::Leaf(_) => ScanView { positionals: s.positionals.push(t), ..s },
        _ => if s.after_dashdash {
            ScanView { stop: Some((CliErrorKind::UnexpectedArgument, t)), ..s }
        } else if t == "help"@ {
            ScanView { stop: Some((CliErrorKind::HelpRequested, t)), ..s }
        } else {
            match child_of(s.node, t) {
                Some(n) => ScanView { node: n, ..s },
                None => ScanView { stop: Some((CliErrorKind::UnrecognizedSubcommand, t)), ..s },
            }
        },
    }
}

/// A long option `--name` or `--name=value`.
pub open spec fn take_long(s: ScanView, t: Seq<char>) -> ScanView {
    let body = t.skip(2);
    let (name, inline) = match first_eq(body) {
        Some(i) => (body.take(i), Some(body.skip(i + 1))),
        None => (body, None),
    };
    if name == "help"@ {
        ScanView { stop: Some((CliErrorKind::HelpRequested, t)), ..s }
    } else if name == "version"@ && s.node == CmdNode::Root {
        ScanView { stop: Some((CliErrorKind::VersionRequested, t)), ..s }
    } else if name == "config"@ {
        match inline {
            Some(v) => take_value(s, name, v),
            None => ScanView { pending: Some(name), ..s },
        }
    } else {
        match s.node {
            CmdNode::Leaf(l) => match arity_of(l, name) {
                Some(Arity::Flag) => match inline {
                    Some(_) => ScanView { stop: Some((CliErrorKind::UnexpectedValue, name)), ..s },
                    None => take_value(s, name, "true"@),
                },
                Some(_) => match inline {
                    Some(v) => take_value(s, name, v),
                    None => ScanView { pending: Some(name), ..s },
                },
                None => ScanView { stop: Some((CliErrorKind::UnexpectedArgument, t)), ..s },
            },
            _ => ScanView { stop: Some((CliErrorKind::UnexpectedArgument, t)), ..s },
        }
    }
}

/// A short option: `-h`, `-V` at the top, or `-f` with its value attached
/// (optionally after `=`) or following.
pub open spec fn take_short(s: ScanView, t: Seq<char>) -> ScanView {
    let c = t[1];
    let rest = t.skip(2);
    if c == 'h' && rest.len() == 0 {
        ScanView { stop: Some((CliErrorKind::HelpRequested, t)), ..s }
    } else if c == 'V' && rest.len() == 0 && s.node == CmdNode::Root {
        ScanView { stop: Some((CliErrorKind::VersionRequested, t)), ..s }
    } else if c == 'f' && (s.node matches CmdNode::Leaf(l) && takes_short_f(l)) {
        if rest.len() == 0 {
            ScanView { pending: Some("file"@), ..s }
        } else if rest[0] == '=' {
            take_value(s, "file"@, rest.skip(1))
        } else {
            take_value(s, "file"@, rest)
        }
    } else {
        ScanView { stop: Some((CliErrorKind::UnexpectedArgument, t)), ..s }
    }
}

/// One argument read.
pub open spec fn step_spec(s: ScanView, t: Seq<char>) -> ScanView {
    if s.stop is Some {
        s
    } else {
        match s.pending {
            Some(name) => if looks_like_option(t) {
                ScanView { pending: None, stop: Some((CliErrorKind::MissingValue, name)), ..s }
            } else {
                take_value(ScanView { pending: None, ..s }, name, t)
            },
            None => if s.after_dashdash {
                take_positional(s, t)
            } else if t == "--"@ {
                ScanView { after_dashdash: true, ..s }
            } else if t.len() > 2 && t[0] == '-' && t[1] == '-' {
                take_long(s, t)
            } else if looks_like_option(t) {
                take_short(s, t)
            } else {
                take_positional(s, t)
            },
        }
    }
}

/// The arguments read in order.
pub open spec fn scan_all(ts: Seq<Seq<char>>) -> ScanView
    decreases ts.len(),
{
    if ts.len() == 0 {
        scan_start()
    } else {
        step_spec(scan_all(ts.drop_last()), ts.last())
    }
}

struct Scan {
    node: CmdNode,
    config: Option<Vec<char>>,
    opts: Vec<(Vec<char>, Vec<char>)>,
    positionals: Vec<Vec<char>>,
    pending: Option<Vec<char>>,
    after_dashdash: bool,
    stop: Option<(CliErrorKind, Vec<char>)>,
}

/// The views of character-buffer pairs.
pub open spec fn pairs_of(v: Seq<(Vec<char>, Vec<char>)>) -> Seq<(Seq<char>, Seq<char>)> {
    v.map_values(|p: (Vec<char>, Vec<char>)| (p.0@, p.1@))
}

/// The views of character buffers.
pub open spec fn bufs_of(v: Seq<Vec<char>>) -> Seq<Seq<char>> {
    v.map_values(|b: Vec<char>| b@)
}

impl View for Scan {
    type V = ScanView;

    closed spec fn view(&self) -> ScanView {
        ScanView {
            node: self.node,
            config: match self.config { Some(c) => Some(c@), None => None },
            opts: pairs_of(self.opts@),
            positionals: bufs_of(self.positionals@),
            pending: match self.pending { Some(p) => Some(p@), None => None },
            after_dashdash: self.after_dashdash,
            stop: match self.stop { Some((k, a)) => Some((k, a@)), None => None },
        }
    }
}

fn lit(s: &str) -> (r: Vec<char>)
    ensures
        r@ == s@,
{
    to_chars(s)
}

fn copy_buf(v: &Vec<char>) -> (r: Vec<char>)
    ensures
        r@ == v@,
{
    crate::text::slice_chars(v, 0, v.len())
}

fn take_value_exec(s: &mut Scan, name: Vec<char>, v: Vec<char>)
    ensures
        final(s)@ == take_value(old(s)@, name@, v@),
{
    if chars_eq_str(&name, "config") {
        if s.config.is_some() {
            s.stop = Some((CliErrorKind::ArgumentConflict, lit("config")));
        } else {
            s.config = Some(v);
        }
    } else {
        let ghost before = s.opts@;
        s.opts.push((name, v));
        assert(pairs_of(s.opts@) =~= pairs_of(before).push((name@, v@)));
    }
}

fn take_positional_exec(s: &mut Scan, t: &Vec<char>)
    ensures
        final(s)@ == take_positional(old(s)@, t@),
{
    match s.node {
        CmdNode::Leaf(_) => {
            let ghost before = s.positionals@;
            s.positionals.push(copy_buf(t));
            assert(bufs_of(s.positionals@) =~= bufs_of(before).push(t@));
        },
        _ => {
            if s.after_dashdash {
                s.stop = Some((CliErrorKind::UnexpectedArgument, copy_buf(t)));
            } else if chars_eq_str(t, "help") {
                s.stop = Some((CliErrorKind::HelpRequested, copy_buf(t)));
            } else {
                match child_exec(s.node, t) {
                    Some(n) => {
                        s.node = n;
                    },
                    None => {
                        s.stop = Some((CliErrorKind::UnrecognizedSubcommand, copy_buf(t)));
                    },
                }
            }
        },
    }
}

fn first_eq_exec(v: &Vec<char>) -> (r: Option<usize>)
    ensures
        match r {
            Some(i) => first_eq(v@) == Some(i as int) && i < v.len(),
            None => first_eq(v@) is None,
        },
{
    let mut i: usize = 0;
    assert(v@.skip(0) =~= v@);
    while i < v.len()
        invariant
            i <= v.len(),
            forall|j: int| 0 <= j < i ==> v@[j] != '=',
            first_eq(v@) == match first_eq(v@.skip(i as int)) { Some(k) => Some(k + i), None => None::<int> },
        decreases v.len() - i,
    {
        assert(v@.skip(i as int)[0] == v@[i as int]);
        if v[i] == '=' {
            return Some(i);
        }
        assert(v@.skip(i as int).drop_first() =~= v@.skip(i + 1));
        i += 1;
    }
    assert(v@.skip(i as int) =~= Seq::<char>::empty());
    None
}

fn take_long_exec(s: &mut Scan, t: &Vec<char>)
    requires
        t.len() > 2,
    ensures
        final(s)@ == take_long(old(s)@, t@),
{
    let body = crate::text::slice_chars(t, 2, t.len());
    assert(body@ =~= t@.skip(2));
    let (name, inline): (Vec<char>, Option<Vec<char>>) = match first_eq_exec(&body) {
        Some(i) => {
            let n = crate::text::slice_chars(&body, 0, i);
            let v = crate::text::slice_chars(&body, i + 1, body.len());
            assert(n@ =~= body@.take(i as int));
            assert(v@ =~= body@.skip(i + 1));
            (n, Some(v))
        },
        None => (copy_buf(&body), None),
    };
    if chars_eq_str(&name, "help") {
        s.stop = Some((CliErrorKind::HelpRequested, copy_buf(t)));
    } else if chars_eq_str(&name, "version") && s.node == CmdNode::Root {
        s.stop = Some((CliErrorKind::VersionRequested, copy_buf(t)));
    } else if chars_eq_str(&name, "config") {
        match inline {
            Some(v) => take_value_exec(s, name, v),
            None => {
                s.pending = Some(name);
            },
        }
    } else {
        match s.node {
            CmdNode::Leaf(l) => match arity_exec(l, &name) {
                Some(Arity::Flag) => match inline {
                    Some(_) => {
                        s.stop = Some((CliErrorKind::UnexpectedValue, name));
                    },
                    None => take_value_exec(s, name, lit("true")),
                },
                Some(_) => match inline {
                    Some(v) => take_value_exec(s, name, v),
                    None => {
                        s.pending = Some(name);
                    },
                },
                None => {
                    s.stop = Some((CliErrorKind::UnexpectedArgument, copy_buf(t)));
                },
            },
            _ => {
                s.stop = Some((CliErrorKind::UnexpectedArgument, copy_buf(t)));
            },
        }
    }
}

fn take_short_exec(s: &mut Scan, t: &Vec<char>)
    requires
        t.len() > 1,
    ensures
        final(s)@ == take_short(old(s)@, t@),
{
    let c = t[1];
    let rest = crate::text::slice_chars(t, 2, t.len());
    assert(rest@ =~= t@.skip(2));
    let short_f = match s.node {
        CmdNode::Leaf(l) => match l {
            LeafCmd::ConfigValidate | LeafCmd::ConfigDiff | LeafCmd::Apply => true,
            _ => false,
        },
        _ => false,
    };
    if c == 'h' && rest.len() == 0 {
        s.stop = Some((CliErrorKind::HelpRequested, copy_buf(t)));
    } else if c == 'V' && rest.len() == 0 && s.node == CmdNode::Root {
        s.stop = Some((CliErrorKind::VersionRequested, copy_buf(t)));
    } else if c == 'f' && short_f {
        if rest.len() == 0 {
            s.pending = Some(lit("file"));
        } else if rest[0] == '=' {
            let v = crate::text::slice_chars(&rest, 1, rest.len());
            assert(v@ =~= rest@.skip(1));
            take_value_exec(s, lit("file"), v);
        } else {
            take_value_exec(s, lit("file"), rest);
        }
    } else {
        s.stop = Some((CliErrorKind::UnexpectedArgument, copy_buf(t)));
    }
}

fn step_exec(s: &mut Scan, t: &Vec<char>)
    ensures
        final(s)@ == step_spec(old(s)@, t@),
{
    if s.stop.is_some() {
        return;
    }
    match s.pending.take() {
        Some(name) => {
            if t.len() > 1 && t[0] == '-' {
                s.stop = Some((CliErrorKind::MissingValue, name));
            } else {
                take_value_exec(s, name, copy_buf(t));
            }
        },
        None => {
            if s.after_dashdash {
                take_positional_exec(s, t);
            } else if chars_eq_str(t, "--") {
                s.after_dashdash = true;
            } else if t.len() > 2 && t[0] == '-' && t[1] == '-' {
                take_long_exec(s, t);
            } else if t.len() > 1 && t[0] == '-' {
                take_short_exec(s, t);
            } else {
                take_positional_exec(s, t);
            }
        },
    }
}

// ---------------------------------------------------------------------------
// The command
// ---------------------------------------------------------------------------

/// What `--kind` names.
#[derive(Debug, Clone, Copy, PartialEq, Eq, Structural)]
pub enum TransferKindArg {
    Assets,
    Credentials,
}

/// What `--format` names.
#[derive(Debug, Clone, Copy, PartialEq, Eq, Structural)]
pub enum TransferFormatArg {
    Csv,
    Json,
}

/// What `--on-conflict` names.
#[derive(Debug, Clone, Copy, PartialEq, Eq, Structural)]
pub enum ConflictPolicyArg {
    Skip,
    Overwrite,
    Error,
}

/// What `--mode` names.
#[derive(Debug, Clone, Copy, PartialEq, Eq, Structural)]
pub enum AssetAccessModeArg {
    All,
    Restricted,
}

/// What `--auth-type` names.
#[derive(Debug, Clone, Copy, PartialEq, Eq, Structural)]
pub enum AuthTypeArg {
    Password,
    Key,
    KeyPassphrase,
}

/// What `--protocol` names.
#[derive(Debug, Clone, Copy, PartialEq, Eq, Structural)]
pub enum AssetProtocolArg {
    Ssh,
    Tcp,
}

impl TransferKindArg {
    /// The transfer kind it names.
    pub fn kind(self) -> (r: TransferKind)
        ensures
            r == match self { TransferKindArg::Assets => TransferKind::Assets, TransferKindArg::Credentials => TransferKind::Credentials },
    {
        match self {
            TransferKindArg::Assets => TransferKind::Assets,
            TransferKindArg::Credentials => TransferKind::Credentials,
        }
    }
}

impl TransferFormatArg {
    /// The transfer format it names.
    pub fn format(self) -> (r: TransferFormat)
        ensures
            r == match self { TransferFormatArg::Csv => TransferFormat::Csv, TransferFormatArg::Json => TransferFormat::Json },
    {
        match self {
            TransferFormatArg::Csv => TransferFormat::Csv,
            TransferFormatArg::Json => TransferFormat::Json,
        }
    }
}

impl ConflictPolicyArg {
    /// The conflict policy it names.
    pub fn policy(self) -> (r: ConflictPolicy)
        ensures
            r == match self {
                ConflictPolicyArg::Skip => ConflictPolicy::Skip,
                ConflictPolicyArg::Overwrite => ConflictPolicy::Overwrite,
                ConflictPolicyArg::Error => ConflictPolicy::Error,
            },
    {
        match self {
            ConflictPolicyArg::Skip => ConflictPolicy::Skip,
            ConflictPolicyArg::Overwrite => ConflictPolicy::Overwrite,
            ConflictPolicyArg::Error => ConflictPolicy::Error,
        }
    }
}

impl AssetAccessModeArg {
    /// The access mode it names.
    pub fn mode(self) -> (r: AssetAccessMode)
        ensures
            r == match self { AssetAccessModeArg::All => AssetAccessMode::All, AssetAccessModeArg::Restricted => AssetAccessMode::Restricted },
    {
        match self {
            AssetAccessModeArg::All => AssetAccessMode::All,
            AssetAccessModeArg::Restricted => AssetAccessMode::Restricted,
        }
    }
}

impl AuthTypeArg {
    /// The auth type it names.
    pub fn auth_type(self) -> (r: AuthType)
        ensures
            r == match self {
                AuthTypeArg::Password => AuthType::Password,
                AuthTypeArg::Key => AuthType::Key,
                AuthTypeArg::KeyPassphrase => AuthType::KeyWithPassphrase,
            },
    {
        match self {
            AuthTypeArg::Password => AuthType::Password,
            AuthTypeArg::Key => AuthType::Key,
            AuthTypeArg::KeyPassphrase => AuthType::KeyWithPassphrase,
        }
    }
}

impl AssetProtocolArg {
    /// The stored protocol name: `ssh` or `tcp`.
    pub fn as_str(&self) -> (r: &'static str)
        ensures
            r@ == match self { AssetProtocolArg::Ssh => ASSET_PROTOCOL_SSH@, AssetProtocolArg::Tcp => ASSET_PROTOCOL_TCP@ },
    {
        match self {
            AssetProtocolArg::Ssh => ASSET_PROTOCOL_SSH,
            AssetProtocolArg::Tcp => ASSET_PROTOCOL_TCP,
        }
    }
}

/// The value names of the choice options.
pub open spec fn kind_arg(v: Seq<char>) -> Option<TransferKindArg> {
    if v == "assets"@ { Some(TransferKindArg::Assets) } else if v == "credentials"@ { Some(TransferKindArg::Credentials) } else { None }
}

/// See `kind_arg`.
pub open spec fn format_arg(v: Seq<char>) -> Option<TransferFormatArg> {
    if v == "csv"@ { Some(TransferFormatArg::Csv) } else if v == "json"@ { Some(TransferFormatArg::Json) } else { None }
}

/// See `kind_arg`.
pub open spec fn conflict_arg(v: Seq<char>) -> Option<ConflictPolicyArg> {
    if v == "skip"@ {
        Some(ConflictPolicyArg::Skip)
    } else if v == "overwrite"@ {
        Some(ConflictPolicyArg::Overwrite)
    } else if v == "error"@ {
        Some(ConflictPolicyArg::Error)
    } else {
        None
    }
}

/// See `kind_arg`.
pub open spec fn mode_arg(v: Seq<char>) -> Option<AssetAccessModeArg> {
    if v == "all"@ { Some(AssetAccessModeArg::All) } else if v == "restricted"@ { Some(AssetAccessModeArg::Restricted) } else { None }
}

/// See `kind_arg`.
pub open spec fn auth_arg(v: Seq<char>) -> Option<AuthTypeArg> {
    if v == "password"@ {
        Some(AuthTypeArg::Password)
    } else if v == "key"@ {
        Some(AuthTypeArg::Key)
    } else if v == "key-passphrase"@ {
        Some(AuthTypeArg::KeyPassphrase)
    } else {
        None
    }
}

/// See `kind_arg`.
pub open spec fn protocol_arg(v: Seq<char>) -> Option<AssetProtocolArg> {
    if v == "ssh"@ { Some(AssetProtocolArg::Ssh) } else if v == "tcp"@ { Some(AssetProtocolArg::Tcp) } else { None }
}

/// The values given to an option, in order.
pub open spec fn values_of(opts: Seq<(Seq<char>, Seq<char>)>, name: Seq<char>) -> Seq<Seq<char>>
    decreases opts.len(),
{
    if opts.len() == 0 {
        Seq::empty()
    } else {
        let r = values_of(opts.drop_last(), name);
        if opts.last().0 == name { r.push(opts.last().1) } else { r }
    }
}

/// The value given to an option, if any.
pub open spec fn value_of(opts: Seq<(Seq<char>, Seq<char>)>, name: Seq<char>) -> Option<Seq<char>> {
    if values_of(opts, name).len() > 0 { Some(values_of(opts, name)[0]) } else { None }
}

/// Whether a switch was given.
pub open spec fn flag_of(opts: Seq<(Seq<char>, Seq<char>)>, name: Seq<char>) -> bool {
    values_of(opts, name).len() > 0
}

/// The first option, in order, that may be given once but was given again.
pub open spec fn first_repeated(leaf: LeafCmd, opts: Seq<(Seq<char>, Seq<char>)>) -> Option<Seq<char>>
    decreases opts.len(),
{
    if opts.len() == 0 {
        None
    } else {
        match first_repeated(leaf, opts.drop_last()) {
            Some(n) => Some(n),
            None => if arity_of(leaf, opts.last().0) != Some(Arity::Multi) && values_of(opts.drop_last(), opts.last().0).len() > 0 {
                Some(opts.last().0)
            } else {
                None
            },
        }
    }
}

/// The comma-separated pieces of each value, in order (`--tags`).
pub open spec fn split_values(vs: Seq<Seq<char>>) -> Seq<Seq<char>>
    decreases vs.len(),
{
    if vs.len() == 0 {
        Seq::empty()
    } else {
        split_values(vs.drop_last()) + crate::asset_search::split_commas(vs.last())
    }
}

/// An error of a command's options, checked in declaration order: a
/// missing required option, a value a choice or number option refuses, or
/// both `--password` and `--password-stdin`.
pub open spec fn options_error(leaf: LeafCmd, o: Seq<(Seq<char>, Seq<char>)>) -> Option<(CliErrorKind, Seq<char>)> {
    let missing = |n: Seq<char>| Some((CliErrorKind::MissingRequired, n));
    let invalid = |n: Seq<char>| Some((CliErrorKind::InvalidValue, n));
    match leaf {
        LeafCmd::ConfigValidate => if values_of(o, "file"@).len() == 0 { missing("file"@) } else { None },
        LeafCmd::ConfigDiff => if values_of(o, "file"@).len() == 0 {
            missing("file"@)
        } else if value_of(o, "source"@) is None {
            missing("source"@)
        } else {
            None
        },
        LeafCmd::Apply => if values_of(o, "file"@).len() == 0 {
            missing("file"@)
        } else if value_of(o, "source"@) is None {
            missing("source"@)
        } else if (value_of(o, "base-revision"@) matches Some(v) && parse_i64(v) is None) {
            invalid("base-revision"@)
        } else {
            None
        },
        LeafCmd::KeyAdd => if value_of(o, "name"@) is None { missing("name"@) } else { None },
        LeafCmd::KeyAccessSet => match value_of(o, "mode"@) {
            None => missing("mode"@),
            Some(v) => if mode_arg(v) is None { invalid("mode"@) } else { None },
        },
        LeafCmd::CredentialAdd => if value_of(o, "name"@) is None {
            missing("name"@)
        } else if value_of(o, "username"@) is None {
            missing("username"@)
        } else {
            match value_of(o, "auth-type"@) {
                None => missing("auth-type"@),
                Some(v) => if auth_arg(v) is None {
                    invalid("auth-type"@)
                } else if value_of(o, "password"@) is Some && flag_of(o, "password-stdin"@) {
                    Some((CliErrorKind::ArgumentConflict, "password-stdin"@))
                } else {
                    None
                },
            }
        },
        LeafCmd::AssetAdd => if value_of(o, "name"@) is None {
            missing("name"@)
        } else if (value_of(o, "protocol"@) matches Some(v) && protocol_arg(v) is None) {
            invalid("protocol"@)
        } else if value_of(o, "hostname"@) is None {
            missing("hostname"@)
        } else if (value_of(o, "port"@) matches Some(v) && parse_i64(v) is None) {
            invalid("port"@)
        } else {
            None
        },
        LeafCmd::Export => if (value_of(o, "kind"@) matches Some(v) && kind_arg(v) is None) {
            invalid("kind"@)
        } else if (value_of(o, "format"@) matches Some(v) && format_arg(v) is None) {
            invalid("format"@)
        } else {
            None
        },
        LeafCmd::Import => if (value_of(o, "kind"@) matches Some(v) && kind_arg(v) is None) {
            invalid("kind"@)
        } else if value_of(o, "file"@) is None {
            missing("file"@)
        } else if (value_of(o, "format"@) matches Some(v) && format_arg(v) is None) {
            invalid("format"@)
        } else if (value_of(o, "on-conflict"@) matches Some(v) && conflict_arg(v) is None) {
            invalid("on-conflict"@)
        } else {
            None
        },
        _ => None,
    }
}

/// Why the arguments gathered for a command do not make it, if they do
/// not: an option repeated, the id missing or an extra argument, or an
/// error of its options.
pub open spec fn command_error(leaf: LeafCmd, o: Seq<(Seq<char>, Seq<char>)>, pos: Seq<Seq<char>>) -> Option<(CliErrorKind, Seq<char>)> {
    let expected: int = if takes_id(leaf) { 1 } else { 0 };
    match first_repeated(leaf, o) {
        Some(n) => Some((CliErrorKind::ArgumentConflict, n)),
        None => if pos.len() < expected {
            Some((CliErrorKind::MissingRequired, "id"@))
        } else if pos.len() > expected {
            Some((CliErrorKind::UnexpectedArgument, pos[expected]))
        } else {
            options_error(leaf, o)
        },
    }
}

/// What the arguments amount to: a refusal (or a request for help or the
/// version), no command, or a command with its options and arguments.
pub open spec fn scan_error(s: ScanView) -> Option<(CliErrorKind, Seq<char>)> {
    match s.stop {
        Some(e) => Some(e),
        None => match s.pending {
            Some(n) => Some((CliErrorKind::MissingValue, n)),
            None => match s.node {
                CmdNode::Root => None,
                CmdNode::Leaf(l) => command_error(l, s.opts, s.positionals),
                _ => Some((CliErrorKind::MissingSubcommand, Seq::empty())),
            },
        },
    }
}

/// The parsed command line.
#[derive(Debug)]
pub struct Cli {
    pub config: Option<String>,
    pub command: Option<Command>,
}

/// A command of the gateway binary.
#[derive(Debug)]
pub enum Command {
    Serve,
    Config { command: ConfigCommand },
    Apply { files: Vec<String>, source: String, dry_run: bool, prune: bool, base_revision: Option<i64>, json: bool },
    Key { command: KeyCommand },
    Credential { command: CredentialCommand },
    Asset { command: AssetCommand },
    Export { kind: TransferKindArg, format: TransferFormatArg, output: Option<String> },
    Import { kind: TransferKindArg, file: String, format: Option<TransferFormatArg>, on_conflict: ConflictPolicyArg },
}

/// `config` commands.
#[derive(Debug)]
pub enum ConfigCommand {
    Validate { files: Vec<String>, offline: bool, json: bool },
    Diff { files: Vec<String>, source: String, prune: bool, json: bool },
    Status { json: bool },
}

/// `key` commands.
#[derive(Debug)]
pub enum KeyCommand {
    Add { name: String, public_key: Option<String>, public_key_file: Option<String> },
    List,
    Deactivate { id: String },
    Activate { id: String },
    Access { command: KeyAccessCommand },
}

/// `key access` commands.
#[derive(Debug)]
pub enum KeyAccessCommand {
    Show { id: String },
    SetAccess { id: String, mode: AssetAccessModeArg, asset_ids: Vec<String> },
}

/// `credential` commands.
#[derive(Debug)]
pub enum CredentialCommand {
    Add {
        name: String,
        username: String,
        auth_type: AuthTypeArg,
        password: Option<String>,
        password_stdin: bool,
        private_key_file: Option<String>,
        passphrase: Option<String>,
    },
    List,
    Delete { id: String },
}

/// `asset` commands.
#[derive(Debug)]
pub enum AssetCommand {
    Add {
        name: String,
        protocol: AssetProtocolArg,
        hostname: String,
        port: i64,
        description: Option<String>,
        tags: Vec<String>,
        credential_id: Option<String>,
    },
    List,
    Delete { id: String },
}

/// The view of an optional string.
pub open spec fn ov(o: Option<String>) -> Option<Seq<char>> {
    crate::model::opt_view(o)
}

/// A command holds what its gathered options and arguments say: each
/// option's value (or its default: `ssh` and port 22 for assets, `assets`
/// and `json` for exports, `assets` and `skip` for imports), each switch,
/// each repeatable option's values in order, and the id.
pub open spec fn command_fits(c: Command, leaf: LeafCmd, o: Seq<(Seq<char>, Seq<char>)>, pos: Seq<Seq<char>>) -> bool {
    match leaf {
        LeafCmd::Serve => c is Serve,
        LeafCmd::ConfigValidate => (c matches Command::Config { command: ConfigCommand::Validate { files, offline, json } }
            && strings_view(files@) == values_of(o, "file"@) && offline == flag_of(o, "offline"@) && json == flag_of(o, "json"@)),
        LeafCmd::ConfigDiff => (c matches Command::Config { command: ConfigCommand::Diff { files, source, prune, json } }
            && strings_view(files@) == values_of(o, "file"@) && Some(source@) == value_of(o, "source"@)
            && prune == flag_of(o, "prune"@) && json == flag_of(o, "json"@)),
        LeafCmd::ConfigStatus => (c matches Command::Config { command: ConfigCommand::Status { json } } && json == flag_of(o, "json"@)),
        LeafCmd::Apply => (c matches Command::Apply { files, source, dry_run, prune, base_revision, json }
            && strings_view(files@) == values_of(o, "file"@) && Some(source@) == value_of(o, "source"@)
            && dry_run == flag_of(o, "dry-run"@) && prune == flag_of(o, "prune"@) && json == flag_of(o, "json"@)
            && base_revision == match value_of(o, "base-revision"@) { Some(v) => parse_i64(v), None => None }),
        LeafCmd::KeyAdd => (c matches Command::Key { command: KeyCommand::Add { name, public_key, public_key_file } }
            && Some(name@) == value_of(o, "name"@) && ov(public_key) == value_of(o, "public-key"@)
            && ov(public_key_file) == value_of(o, "public-key-file"@)),
        LeafCmd::KeyList => (c matches Command::Key { command: KeyCommand::List }),
        LeafCmd::KeyDeactivate => (c matches Command::Key { command: KeyCommand::Deactivate { id } } && id@ == pos[0]),
        LeafCmd::KeyActivate => (c matches Command::Key { command: KeyCommand::Activate { id } } && id@ == pos[0]),
        LeafCmd::KeyAccessShow => (c matches Command::Key { command: KeyCommand::Access { command: KeyAccessCommand::Show { id } } }
            && id@ == pos[0]),
        LeafCmd::KeyAccessSet => (c matches Command::Key { command: KeyCommand::Access { command: KeyAccessCommand::SetAccess { id, mode, asset_ids } } }
            && id@ == pos[0] && Some(mode) == mode_arg(value_of(o, "mode"@).unwrap())
            && strings_view(asset_ids@) == values_of(o, "asset-id"@)),
        LeafCmd::CredentialAdd => (c matches Command::Credential {
            command: CredentialCommand::Add { name, username, auth_type, password, password_stdin, private_key_file, passphrase },
        } && Some(name@) == value_of(o, "name"@) && Some(username@) == value_of(o, "username"@)
            && Some(auth_type) == auth_arg(value_of(o, "auth-type"@).unwrap()) && ov(password) == value_of(o, "password"@)
            && password_stdin == flag_of(o, "password-stdin"@) && ov(private_key_file) == value_of(o, "private-key-file"@)
            && ov(passphrase) == value_of(o, "passphrase"@)),
        LeafCmd::CredentialList => (c matches Command::Credential { command: CredentialCommand::List }),
        LeafCmd::CredentialDelete => (c matches Command::Credential { command: CredentialCommand::Delete { id } } && id@ == pos[0]),
        LeafCmd::AssetAdd => (c matches Command::Asset {
            command: AssetCommand::Add { name, protocol, hostname, port, description, tags, credential_id },
        } && Some(name@) == value_of(o, "name"@) && Some(hostname@) == value_of(o, "hostname"@)
            && protocol == match value_of(o, "protocol"@) { Some(v) => protocol_arg(v).unwrap(), None => AssetProtocolArg::Ssh }
            && port == match value_of(o, "port"@) { Some(v) => parse_i64(v).unwrap(), None => 22 }
            && ov(description) == value_of(o, "description"@) && strings_view(tags@) == split_values(values_of(o, "tags"@))
            && ov(credential_id) == value_of(o, "credential-id"@)),
        LeafCmd::AssetList => (c matches Command::Asset { command: AssetCommand::List }),
        LeafCmd::AssetDelete => (c matches Command::Asset { command: AssetCommand::Delete { id } } && id@ == pos[0]),
        LeafCmd::Export => (c matches Command::Export { kind, format, output }
            && kind == match value_of(o, "kind"@) { Some(v) => kind_arg(v).unwrap(), None => TransferKindArg::Assets }
            && format == match value_of(o, "format"@) { Some(v) => format_arg(v).unwrap(), None => TransferFormatArg::Json }
            && ov(output) == value_of(o, "output"@)),
        LeafCmd::Import => (c matches Command::Import { kind, file, format, on_conflict }
            && kind == match value_of(o, "kind"@) { Some(v) => kind_arg(v).unwrap(), None => TransferKindArg::Assets }
            && Some(file@) == value_of(o, "file"@)
            && format == match value_of(o, "format"@) { Some(v) => format_arg(v), None => None }
            && on_conflict == match value_of(o, "on-conflict"@) { Some(v) => conflict_arg(v).unwrap(), None => ConflictPolicyArg::Skip }),
    }
}


// ---------------------------------------------------------------------------
// Reading the gathered options
// ---------------------------------------------------------------------------

proof fn lemma_values_prefix(opts: Seq<(Seq<char>, Seq<char>)>, i: int, name: Seq<char>)
    requires
        0 <= i < opts.len(),
    ensures
        values_of(opts.take(i + 1), name) == if opts[i].0 == name {
            values_of(opts.take(i), name).push(opts[i].1)
        } else {
            values_of(opts.take(i), name)
        },
{
    assert(opts.take(i + 1).drop_last() =~= opts.take(i));
}

/// The values given to an option, in order.
fn opt_values(opts: &Vec<(Vec<char>, Vec<char>)>, name: &str) -> (r: Vec<String>)
    ensures
        strings_view(r@) == values_of(pairs_of(opts@), name@),
{
    let ghost p = pairs_of(opts@);
    let mut r: Vec<String> = Vec::new();
    let mut i: usize = 0;
    assert(p.take(0) =~= Seq::<(Seq<char>, Seq<char>)>::empty());
    while i < opts.len()
        invariant
            i <= opts.len(),
            p == pairs_of(opts@),
            strings_view(r@) == values_of(p.take(i as int), name@),
        decreases opts.len() - i,
    {
        proof {
            lemma_values_prefix(p, i as int, name@);
        }
        if chars_eq_str(&opts[i].0, name) {
            let ghost before = r@;
            r.push(from_chars(&opts[i].1));
            assert(strings_view(r@) =~= strings_view(before).push(opts@[i as int].1@));
        }
        i += 1;
    }
    assert(p.take(opts.len() as int) =~= p);
    r
}

/// The value given to an option, if any.
fn opt_value(opts: &Vec<(Vec<char>, Vec<char>)>, name: &str) -> (r: Option<String>)
    ensures
        ov(r) == value_of(pairs_of(opts@), name@),
{
    let mut vs = opt_values(opts, name);
    if vs.len() > 0 {
        let v = vs.remove(0);
        Some(v)
    } else {
        None
    }
}

/// Whether an option was given.
fn given(opts: &Vec<(Vec<char>, Vec<char>)>, name: &str) -> (r: bool)
    ensures
        r == flag_of(pairs_of(opts@), name@),
        r == (value_of(pairs_of(opts@), name@) is Some),
{
    opt_values(opts, name).len() > 0
}

/// Whether the option given at `i` was given before.
fn given_before(opts: &Vec<(Vec<char>, Vec<char>)>, i: usize, name: &Vec<char>) -> (r: bool)
    requires
        i <= opts.len(),
    ensures
        r == (values_of(pairs_of(opts@).take(i as int), name@).len() > 0),
{
    let ghost p = pairs_of(opts@);
    let mut found = false;
    let mut j: usize = 0;
    assert(p.take(0) =~= Seq::<(Seq<char>, Seq<char>)>::empty());
    while j < i
        invariant
            j <= i <= opts.len(),
            p == pairs_of(opts@),
            found == (values_of(p.take(j as int), name@).len() > 0),
        decreases i - j,
    {
        proof {
            lemma_values_prefix(p, j as int, name@);
        }
        if chars_eq(&opts[j].0, name) {
            found = true;
        }
        j += 1;
    }
    found
}

proof fn lemma_first_repeated_extends(leaf: LeafCmd, s: Seq<(Seq<char>, Seq<char>)>, k: int)
    requires
        0 <= k <= s.len(),
        first_repeated(leaf, s.take(k)) is Some,
    ensures
        first_repeated(leaf, s) == first_repeated(leaf, s.take(k)),
    decreases s.len(),
{
    if k < s.len() {
        assert(s.drop_last().take(k) =~= s.take(k));
        lemma_first_repeated_extends(leaf, s.drop_last(), k);
    } else {
        assert(s.take(k) =~= s);
    }
}

fn first_repeated_exec(leaf: LeafCmd, opts: &Vec<(Vec<char>, Vec<char>)>) -> (r: Option<Vec<char>>)
    ensures
        match r {
            Some(n) => first_repeated(leaf, pairs_of(opts@)) == Some(n@),
            None => first_repeated(leaf, pairs_of(opts@)) is None,
        },
{
    let ghost p = pairs_of(opts@);
    let mut i: usize = 0;
    assert(p.take(0) =~= Seq::<(Seq<char>, Seq<char>)>::empty());
    while i < opts.len()
        invariant
            i <= opts.len(),
            p == pairs_of(opts@),
            first_repeated(leaf, p.take(i as int)) is None,
        decreases opts.len() - i,
    {
        assert(p.take(i + 1).drop_last() =~= p.take(i as int));
        let name = &opts[i].0;
        let repeated = match arity_exec(leaf, name) {
            Some(Arity::Multi) => false,
            _ => given_before(opts, i, name),
        };
        if repeated {
            proof {
                lemma_first_repeated_extends(leaf, p, i + 1);
            }
            return Some(copy_buf(name));
        }
        i += 1;
    }
    assert(p.take(opts.len() as int) =~= p);
    None
}

fn kind_exec(v: &String) -> (r: Option<TransferKindArg>)
    ensures
        r == kind_arg(v@),
{
    if crate::text::str_eq(v.as_str(), "assets") {
        Some(TransferKindArg::Assets)
    } else if crate::text::str_eq(v.as_str(), "credentials") {
        Some(TransferKindArg::Credentials)
    } else {
        None
    }
}

fn format_exec(v: &String) -> (r: Option<TransferFormatArg>)
    ensures
        r == format_arg(v@),
{
    if crate::text::str_eq(v.as_str(), "csv") {
        Some(TransferFormatArg::Csv)
    } else if crate::text::str_eq(v.as_str(), "json") {
        Some(TransferFormatArg::Json)
    } else {
        None
    }
}

fn conflict_exec(v: &String) -> (r: Option<ConflictPolicyArg>)
    ensures
        r == conflict_arg(v@),
{
    if crate::text::str_eq(v.as_str(), "skip") {
        Some(ConflictPolicyArg::Skip)
    } else if crate::text::str_eq(v.as_str(), "overwrite") {
        Some(ConflictPolicyArg::Overwrite)
    } else if crate::text::str_eq(v.as_str(), "error") {
        Some(ConflictPolicyArg::Error)
    } else {
        None
    }
}

fn mode_exec(v: &String) -> (r: Option<AssetAccessModeArg>)
    ensures
        r == mode_arg(v@),
{
    if crate::text::str_eq(v.as_str(), "all") {
        Some(AssetAccessModeArg::All)
    } else if crate::text::str_eq(v.as_str(), "restricted") {
        Some(AssetAccessModeArg::Restricted)
    } else {
        None
    }
}

fn auth_exec(v: &String) -> (r: Option<AuthTypeArg>)
    ensures
        r == auth_arg(v@),
{
    if crate::text::str_eq(v.as_str(), "password") {
        Some(AuthTypeArg::Password)
    } else if crate::text::str_eq(v.as_str(), "key") {
        Some(AuthTypeArg::Key)
    } else if crate::text::str_eq(v.as_str(), "key-passphrase") {
        Some(AuthTypeArg::KeyPassphrase)
    } else {
        None
    }
}

fn protocol_exec(v: &String) -> (r: Option<AssetProtocolArg>)
    ensures
        r == protocol_arg(v@),
{
    if crate::text::str_eq(v.as_str(), "ssh") {
        Some(AssetProtocolArg::Ssh)
    } else if crate::text::str_eq(v.as_str(), "tcp") {
        Some(AssetProtocolArg::Tcp)
    } else {
        None
    }
}

fn number_exec(v: &String) -> (r: Option<i64>)
    ensures
        r == parse_i64(v@),
{
    parse_i64_chars(&to_chars(v.as_str()))
}


fn missing(name: &str) -> (r: Option<(CliErrorKind, Vec<char>)>)
    ensures
        r matches Some((k, a)) && k == CliErrorKind::MissingRequired && a@ == name@,
{
    Some((CliErrorKind::MissingRequired, lit(name)))
}

fn invalid(name: &str) -> (r: Option<(CliErrorKind, Vec<char>)>)
    ensures
        r matches Some((k, a)) && k == CliErrorKind::InvalidValue && a@ == name@,
{
    Some((CliErrorKind::InvalidValue, lit(name)))
}

/// Whether an optional choice or number option holds a value it accepts.
fn choice_ok(opts: &Vec<(Vec<char>, Vec<char>)>, name: &str, which: u8) -> (r: bool)
    requires
        which < 4,
    ensures
        r == match value_of(pairs_of(opts@), name@) {
            Some(v) => if which == 0 {
                kind_arg(v) is Some
            } else if which == 1 {
                format_arg(v) is Some
            } else if which == 2 {
                conflict_arg(v) is Some
            } else {
                parse_i64(v) is Some
            },
            None => true,
        },
{
    match opt_value(opts, name) {
        Some(v) => if which == 0 {
            kind_exec(&v).is_some()
        } else if which == 1 {
            format_exec(&v).is_some()
        } else if which == 2 {
            conflict_exec(&v).is_some()
        } else {
            number_exec(&v).is_some()
        },
        None => true,
    }
}

fn options_error_exec(leaf: LeafCmd, opts: &Vec<(Vec<char>, Vec<char>)>) -> (r: Option<(CliErrorKind, Vec<char>)>)
    ensures
        match r {
            Some((k, a)) => options_error(leaf, pairs_of(opts@)) == Some((k, a@)),
            None => options_error(leaf, pairs_of(opts@)) is None,
        },
{
    match leaf {
        LeafCmd::ConfigValidate => if !given(opts, "file") { missing("file") } else { None },
        LeafCmd::ConfigDiff => if !given(opts, "file") {
            missing("file")
        } else if !given(opts, "source") {
            missing("source")
        } else {
            None
        },
        LeafCmd::Apply => if !given(opts, "file") {
            missing("file")
        } else if !given(opts, "source") {
            missing("source")
        } else if !choice_ok(opts, "base-revision", 3) {
            invalid("base-revision")
        } else {
            None
        },
        LeafCmd::KeyAdd => if !given(opts, "name") { missing("name") } else { None },
        LeafCmd::KeyAccessSet => match opt_value(opts, "mode") {
            None => missing("mode"),
            Some(v) => if mode_exec(&v).is_none() { invalid("mode") } else { None },
        },
        LeafCmd::CredentialAdd => if !given(opts, "name") {
            missing("name")
        } else if !given(opts, "username") {
            missing("username")
        } else {
            match opt_value(opts, "auth-type") {
                None => missing("auth-type"),
                Some(v) => if auth_exec(&v).is_none() {
                    invalid("auth-type")
                } else if given(opts, "password") && given(opts, "password-stdin") {
                    Some((CliErrorKind::ArgumentConflict, lit("password-stdin")))
                } else {
                    None
                },
            }
        },
        LeafCmd::AssetAdd => if !given(opts, "name") {
            missing("name")
        } else if !(match opt_value(opts, "protocol") { Some(v) => protocol_exec(&v).is_some(), None => true }) {
            invalid("protocol")
        } else if !given(opts, "hostname") {
            missing("hostname")
        } else if !choice_ok(opts, "port", 3) {
            invalid("port")
        } else {
            None
        },
        LeafCmd::Export => if !choice_ok(opts, "kind", 0) {
            invalid("kind")
        } else if !choice_ok(opts, "format", 1) {
            invalid("format")
        } else {
            None
        },
        LeafCmd::Import => if !choice_ok(opts, "kind", 0) {
            invalid("kind")
        } else if !given(opts, "file") {
            missing("file")
        } else if !choice_ok(opts, "format", 1) {
            invalid("format")
        } else if !choice_ok(opts, "on-conflict", 2) {
            invalid("on-conflict")
        } else {
            None
        },
        _ => None,
    }
}

fn command_error_exec(leaf: LeafCmd, opts: &Vec<(Vec<char>, Vec<char>)>, pos: &Vec<Vec<char>>) -> (r: Option<(CliErrorKind, Vec<char>)>)
    ensures
        match r {
            Some((k, a)) => command_error(leaf, pairs_of(opts@), bufs_of(pos@)) == Some((k, a@)),
            None => command_error(leaf, pairs_of(opts@), bufs_of(pos@)) is None,
        },
{
    let expected: usize = match leaf {
        LeafCmd::KeyDeactivate | LeafCmd::KeyActivate | LeafCmd::KeyAccessShow | LeafCmd::KeyAccessSet
        | LeafCmd::CredentialDelete | LeafCmd::AssetDelete => 1,
        _ => 0,
    };
    assert(expected == if takes_id(leaf) { 1int } else { 0int });
    match first_repeated_exec(leaf, opts) {
        Some(n) => Some((CliErrorKind::ArgumentConflict, n)),
        None => if pos.len() < expected {
            Some((CliErrorKind::MissingRequired, lit("id")))
        } else if pos.len() > expected {
            Some((CliErrorKind::UnexpectedArgument, copy_buf(&pos[expected])))
        } else {
            options_error_exec(leaf, opts)
        },
    }
}


/// Appends the comma-separated pieces of a value.
fn push_pieces(out: &mut Vec<String>, value: &String)
    ensures
        strings_view(final(out)@) == strings_view(old(out)@) + crate::asset_search::split_commas(value@),
{
    let v = to_chars(value.as_str());
    let ghost start = strings_view(out@);
    let mut piece: Vec<char> = Vec::new();
    let mut i: usize = 0;
    assert(v@.take(0) =~= Seq::<char>::empty());
    while i < v.len()
        invariant
            i <= v.len(),
            v@ == value@,
            crate::asset_search::split_commas(v@.take(i as int)).len() >= 1,
            piece@ == crate::asset_search::split_commas(v@.take(i as int)).last(),
            strings_view(out@) == start + crate::asset_search::split_commas(v@.take(i as int)).drop_last(),
        decreases v.len() - i,
    {
        let ghost pre = v@.take(i as int);
        assert(v@.take(i + 1).drop_last() =~= pre);
        assert(v@.take(i + 1).last() == v@[i as int]);
        proof {
            crate::asset_search::lemma_split_commas_nonempty(pre);
        }
        let c = v[i];
        if c == ',' {
            let ghost before = out@;
            out.push(from_chars(&piece));
            let ghost p = crate::asset_search::split_commas(pre);
            assert(strings_view(out@) =~= strings_view(before).push(piece@));
            assert(crate::asset_search::split_commas(v@.take(i + 1)) == p.push(Seq::empty()));
            assert(crate::asset_search::split_commas(v@.take(i + 1)).drop_last() =~= p);
            assert(p =~= p.drop_last().push(p.last()));
            assert(start + p =~= (start + p.drop_last()).push(p.last()));
            piece = Vec::new();
        } else {
            piece.push(c);
            let ghost p = crate::asset_search::split_commas(pre);
            assert(crate::asset_search::split_commas(v@.take(i + 1)).drop_last() =~= p.drop_last());
        }
        i += 1;
    }
    assert(v@.take(v.len() as int) =~= v@);
    let ghost p = crate::asset_search::split_commas(v@);
    let ghost before = out@;
    out.push(from_chars(&piece));
    assert(strings_view(out@) =~= strings_view(before).push(piece@));
    assert(p =~= p.drop_last().push(p.last()));
    assert(start + p =~= (start + p.drop_last()).push(p.last()));
}

/// The pieces of all values given to `--tags`, in order.
fn tag_values(opts: &Vec<(Vec<char>, Vec<char>)>) -> (r: Vec<String>)
    ensures
        strings_view(r@) == split_values(values_of(pairs_of(opts@), "tags"@)),
{
    let vs = opt_values(opts, "tags");
    let ghost w = strings_view(vs@);
    let mut out: Vec<String> = Vec::new();
    let mut k: usize = 0;
    assert(w.take(0) =~= Seq::<Seq<char>>::empty());
    while k < vs.len()
        invariant
            k <= vs.len(),
            w == strings_view(vs@),
            strings_view(out@) == split_values(w.take(k as int)),
        decreases vs.len() - k,
    {
        assert(w.take(k + 1).drop_last() =~= w.take(k as int));
        push_pieces(&mut out, &vs[k]);
        k += 1;
    }
    assert(w.take(vs.len() as int) =~= w);
    out
}

/// A value the gathered options are known to hold.
fn required(opts: &Vec<(Vec<char>, Vec<char>)>, name: &str) -> (r: String)
    requires
        value_of(pairs_of(opts@), name@) is Some,
    ensures
        Some(r@) == value_of(pairs_of(opts@), name@),
{
    match opt_value(opts, name) {
        Some(v) => v,
        None => String::new(),
    }
}

/// The command that gathered options and arguments make, when they make
/// one.
fn build_command(leaf: LeafCmd, opts: &Vec<(Vec<char>, Vec<char>)>, pos: &Vec<Vec<char>>) -> (c: Command)
    requires
        command_error(leaf, pairs_of(opts@), bufs_of(pos@)) is None,
    ensures
        command_fits(c, leaf, pairs_of(opts@), bufs_of(pos@)),
{
    let ghost o = pairs_of(opts@);
    let ghost expected: int = if takes_id(leaf) { 1 } else { 0 };
    assert(pos.len() == expected);
    match leaf {
        LeafCmd::Serve => Command::Serve,
        LeafCmd::ConfigValidate => Command::Config {
            command: ConfigCommand::Validate {
                files: opt_values(opts, "file"),
                offline: given(opts, "offline"),
                json: given(opts, "json"),
            },
        },
        LeafCmd::ConfigDiff => Command::Config {
            command: ConfigCommand::Diff {
                files: opt_values(opts, "file"),
                source: required(opts, "source"),
                prune: given(opts, "prune"),
                json: given(opts, "json"),
            },
        },
        LeafCmd::ConfigStatus => Command::Config { command: ConfigCommand::Status { json: given(opts, "json") } },
        LeafCmd::Apply => {
            let base_revision = match opt_value(opts, "base-revision") {
                Some(v) => number_exec(&v),
                None => None,
            };
            Command::Apply {
                files: opt_values(opts, "file"),
                source: required(opts, "source"),
                dry_run: given(opts, "dry-run"),
                prune: given(opts, "prune"),
                base_revision,
                json: given(opts, "json"),
            }
        },
        LeafCmd::KeyAdd => Command::Key {
            command: KeyCommand::Add {
                name: required(opts, "name"),
                public_key: opt_value(opts, "public-key"),
                public_key_file: opt_value(opts, "public-key-file"),
            },
        },
        LeafCmd::KeyList => Command::Key { command: KeyCommand::List },
        LeafCmd::KeyDeactivate => Command::Key { command: KeyCommand::Deactivate { id: from_chars(&pos[0]) } },
        LeafCmd::KeyActivate => Command::Key { command: KeyCommand::Activate { id: from_chars(&pos[0]) } },
        LeafCmd::KeyAccessShow => Command::Key {
            command: KeyCommand::Access { command: KeyAccessCommand::Show { id: from_chars(&pos[0]) } },
        },
        LeafCmd::KeyAccessSet => {
            let v = required(opts, "mode");
            let mode = match mode_exec(&v) {
                Some(m) => m,
                None => AssetAccessModeArg::All,
            };
            Command::Key {
                command: KeyCommand::Access {
                    command: KeyAccessCommand::SetAccess { id: from_chars(&pos[0]), mode, asset_ids: opt_values(opts, "asset-id") },
                },
            }
        },
        LeafCmd::CredentialAdd => {
            let v = required(opts, "auth-type");
            let auth_type = match auth_exec(&v) {
                Some(a) => a,
                None => AuthTypeArg::Password,
            };
            Command::Credential {
                command: CredentialCommand::Add {
                    name: required(opts, "name"),
                    username: required(opts, "username"),
                    auth_type,
                    password: opt_value(opts, "password"),
                    password_stdin: given(opts, "password-stdin"),
                    private_key_file: opt_value(opts, "private-key-file"),
                    passphrase: opt_value(opts, "passphrase"),
                },
            }
        },
        LeafCmd::CredentialList => Command::Credential { command: CredentialCommand::List },
        LeafCmd::CredentialDelete => Command::Credential { command: CredentialCommand::Delete { id: from_chars(&pos[0]) } },
        LeafCmd::AssetAdd => {
            let protocol = match opt_value(opts, "protocol") {
                Some(v) => match protocol_exec(&v) {
                    Some(p) => p,
                    None => AssetProtocolArg::Ssh,
                },
                None => AssetProtocolArg::Ssh,
            };
            let port: i64 = match opt_value(opts, "port") {
                Some(v) => match number_exec(&v) {
                    Some(n) => n,
                    None => 22,
                },
                None => 22,
            };
            Command::Asset {
                command: AssetCommand::Add {
                    name: required(opts, "name"),
                    protocol,
                    hostname: required(opts, "hostname"),
                    port,
                    description: opt_value(opts, "description"),
                    tags: tag_values(opts),
                    credential_id: opt_value(opts, "credential-id"),
                },
            }
        },
        LeafCmd::AssetList => Command::Asset { command: AssetCommand::List },
        LeafCmd::AssetDelete => Command::Asset { command: AssetCommand::Delete { id: from_chars(&pos[0]) } },
        LeafCmd::Export => {
            let kind = match opt_value(opts, "kind") {
                Some(v) => match kind_exec(&v) {
                    Some(k) => k,
                    None => TransferKindArg::Assets,
                },
                None => TransferKindArg::Assets,
            };
            let format = match opt_value(opts, "format") {
                Some(v) => match format_exec(&v) {
                    Some(f) => f,
                    None => TransferFormatArg::Json,
                },
                None => TransferFormatArg::Json,
            };
            Command::Export { kind, format, output: opt_value(opts, "output") }
        },
        LeafCmd::Import => {
            let kind = match opt_value(opts, "kind") {
                Some(v) => match kind_exec(&v) {
                    Some(k) => k,
                    None => TransferKindArg::Assets,
                },
                None => TransferKindArg::Assets,
            };
            let format = match opt_value(opts, "format") {
                Some(v) => format_exec(&v),
                None => None,
            };
            let on_conflict = match opt_value(opts, "on-conflict") {
                Some(v) => match conflict_exec(&v) {
                    Some(p) => p,
                    None => ConflictPolicyArg::Skip,
                },
                None => ConflictPolicyArg::Skip,
            };
            Command::Import { kind, file: required(opts, "file"), format, on_conflict }
        },
    }
}


/// The arguments after the program's name.
pub open spec fn cli_tokens(args: Seq<String>) -> Seq<Seq<char>> {
    if args.len() == 0 {
        Seq::empty()
    } else {
        strings_view(args).drop_first()
    }
}

/// What a command line amounts to: the arguments after the program's name
/// are read in order; the first refusal (or request for help or the
/// version) is returned as an error; otherwise the global `--config` and
/// the command, if one was named, holding what its options and arguments
/// say.
pub open spec fn cli_outcome(args: Seq<String>, r: Result<Cli, CliError>) -> bool {
    let s = scan_all(cli_tokens(args));
    match scan_error(s) {
        Some((k, a)) => r matches Err(e) && e.kind == k && e.argument@ == a,
        None => r matches Ok(cli) && ov(cli.config) == s.config && match s.node {
            CmdNode::Leaf(l) => cli.command matches Some(c) && command_fits(c, l, s.opts, s.positionals),
            _ => cli.command is None,
        },
    }
}

/// Reads a command line; the first argument is the program's name.
pub fn parse_cli(args: &Vec<String>) -> (r: Result<Cli, CliError>)
    ensures
        cli_outcome(args@, r),
{
    let mut s = Scan {
        node: CmdNode::Root,
        config: None,
        opts: Vec::new(),
        positionals: Vec::new(),
        pending: None,
        after_dashdash: false,
        stop: None,
    };
    let ghost toks = cli_tokens(args@);
    let start: usize = if args.len() > 0 { 1 } else { 0 };
    assert(s@.opts =~= Seq::<(Seq<char>, Seq<char>)>::empty());
    assert(s@.positionals =~= Seq::<Seq<char>>::empty());
    assert(toks.take(0) =~= Seq::<Seq<char>>::empty());
    let mut i: usize = start;
    while i < args.len()
        invariant
            start <= i <= args.len(),
            start == (if args.len() > 0 { 1int } else { 0int }),
            toks == cli_tokens(args@),
            s@ == scan_all(toks.take(i - start)),
        decreases args.len() - i,
    {
        let t = to_chars(args[i].as_str());
        let ghost k: int = i - start;
        assert(toks.take(k + 1).drop_last() =~= toks.take(k));
        assert(toks.take(k + 1).last() == t@);
        step_exec(&mut s, &t);
        i += 1;
    }
    assert(toks.take(args.len() - start) =~= toks);
    let Scan { node, config, opts, positionals, pending, after_dashdash: _, stop } = s;
    if let Some((k, a)) = stop {
        return Err(CliError { kind: k, argument: from_chars(&a) });
    }
    if let Some(n) = pending {
        return Err(CliError { kind: CliErrorKind::MissingValue, argument: from_chars(&n) });
    }
    let config_text: Option<String> = match config {
        Some(c) => Some(from_chars(&c)),
        None => None,
    };
    match node {
        CmdNode::Root => Ok(Cli { config: config_text, command: None }),
        CmdNode::Leaf(l) => match command_error_exec(l, &opts, &positionals) {
            Some((k, a)) => Err(CliError { kind: k, argument: from_chars(&a) }),
            None => Ok(Cli { config: config_text, command: Some(build_command(l, &opts, &positionals)) }),
        },
        _ => Err(CliError { kind: CliErrorKind::MissingSubcommand, argument: String::new() }),
    }
}

} // verus!
