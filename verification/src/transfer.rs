//! Bulk import and export of assets and credentials: the option parsers,
//! the import summary, the transfer rows and their CSV form.
use vstd::prelude::*;

use crate::csv::{
    lemma_read_written_records, parse_records, push_record_chars, read_csv_records, records_view,
    render_record, render_records, row_view,
};
use crate::model::{
    clone_opt, opt_view, strings_view, Asset, AssetView, Credential, CredentialView, NewAsset,
    ASSET_PROTOCOL_SSH,
};
use crate::text::{is_ws, lemma_trim_fixed, lemma_trim_ignores_padding, lower_char, trim_start};
use crate::text::{
    all_ws, chars_eq_str, dec, dec_int, digits_value, from_chars, is_blank, is_digit, is_whitespace,
    lemma_dec_digits, lemma_trim_shape, lower, lower_chars, parse_i64, parse_i64_chars, push_dec,
    push_dec_i64, to_chars, trim, trim_chars, unsigned_part,
};

verus! {

// ---------------------------------------------------------------------------
// Options
// ---------------------------------------------------------------------------

/// What is imported or exported.
#[derive(Debug, Clone, Copy, PartialEq, Eq, Structural)]
pub enum TransferKind {
    Assets,
    Credentials,
}

/// The encoding of an import or export.
#[derive(Debug, Clone, Copy, PartialEq, Eq, Structural)]
pub enum TransferFormat {
    Csv,
    Json,
}

/// What an import does with a row whose resource already exists.
#[derive(Debug, Clone, Copy, PartialEq, Eq, Structural)]
pub enum ConflictPolicy {
    Skip,
    Overwrite,
    Error,
}

/// Why an option or a CSV text was refused.
#[derive(Debug, Clone, PartialEq, Eq)]
pub enum TransferError {
    /// The kind named is neither assets nor credentials (the normalized text).
    UnsupportedKind(String),
    /// The format named is neither csv nor json (the normalized text).
    UnsupportedFormat(String),
    /// The conflict policy named is not skip, overwrite or error (the normalized text).
    UnsupportedConflictPolicy(String),
    /// A CSV record (numbered from one) has fewer fields than expected.
    ShortRow { row: usize, fields: usize, expected: usize },
    /// The port field of a CSV record (numbered from one) is not an integer.
    InvalidPort { row: usize },
}

/// The text an option is compared in: trimmed and ASCII lower-cased.
pub open spec fn normalized(s: Seq<char>) -> Seq<char> {
    lower(trim(s))
}

/// The kind a normalized option names.
pub open spec fn kind_named(s: Seq<char>) -> Option<TransferKind> {
    if s == "assets"@ || s == "asset"@ {
        Some(TransferKind::Assets)
    } else if s == "credentials"@ || s == "credential"@ {
        Some(TransferKind::Credentials)
    } else {
        None
    }
}

/// The format a normalized option names.
pub open spec fn format_named(s: Seq<char>) -> Option<TransferFormat> {
    if s == "csv"@ {
        Some(TransferFormat::Csv)
    } else if s == "json"@ {
        Some(TransferFormat::Json)
    } else {
        None
    }
}

/// The conflict policy a normalized option names.
pub open spec fn policy_named(s: Seq<char>) -> Option<ConflictPolicy> {
    if s == "skip"@ {
        Some(ConflictPolicy::Skip)
    } else if s == "overwrite"@ {
        Some(ConflictPolicy::Overwrite)
    } else if s == "error"@ {
        Some(ConflictPolicy::Error)
    } else {
        None
    }
}

fn normalize(value: &str) -> (r: Vec<char>)
    ensures
        r@ == normalized(value@),
{
    let v = to_chars(value);
    let t = trim_chars(&v);
    lower_chars(&t)
}

/// The name an export kind is written under: `assets` or `credentials`.
pub open spec fn kind_name(k: TransferKind) -> Seq<char> {
    match k {
        TransferKind::Assets => "assets"@,
        TransferKind::Credentials => "credentials"@,
    }
}

/// The extension of a format: `csv` or `json`.
pub open spec fn format_extension(f: TransferFormat) -> Seq<char> {
    match f {
        TransferFormat::Csv => "csv"@,
        TransferFormat::Json => "json"@,
    }
}

proof fn lemma_read_back_trims(w1: Seq<char>, v: Seq<char>, w2: Seq<char>, name: Seq<char>)
    requires
        all_ws(w1),
        all_ws(w2),
        lower(v) == name,
        name.len() > 0,
        forall|i: int| 0 <= i < name.len() ==> 'a' <= #[trigger] name[i] && name[i] <= 'z',
    ensures
        normalized(w1 + v + w2) == name,
{
    lemma_trim_ignores_padding(w1, v, w2);
    assert(lower(v).len() == v.len());
    assert forall|i: int| 0 <= i < v.len() implies !is_ws(#[trigger] v[i]) by {
        assert(lower(v)[i] == lower_char(v[i]));
        assert('a' <= name[i] && name[i] <= 'z');
    }
    lemma_trim_fixed(v);
    lemma_trim_fixed(trim_start(v));
}

/// A kind option reads back the name it is written under, in any ASCII
/// case and with whitespace around it.
pub proof fn lemma_kind_names_read_back(k: TransferKind, w1: Seq<char>, v: Seq<char>, w2: Seq<char>)
    requires
        all_ws(w1),
        all_ws(w2),
        lower(v) == kind_name(k),
    ensures
        kind_named(normalized(w1 + v + w2)) == Some(k),
{
    reveal_strlit("assets");
    reveal_strlit("asset");
    reveal_strlit("credentials");
    reveal_strlit("credential");
    assert("assets"@.len() == 6 && "asset"@.len() == 5 && "credentials"@.len() == 11 && "credential"@.len() == 10);
    lemma_read_back_trims(w1, v, w2, kind_name(k));
    assert(normalized(w1 + v + w2) == kind_name(k));
}

/// A format option reads back the format's extension, in any ASCII case
/// and with whitespace around it.
pub proof fn lemma_format_names_read_back(f: TransferFormat, w1: Seq<char>, v: Seq<char>, w2: Seq<char>)
    requires
        all_ws(w1),
        all_ws(w2),
        lower(v) == format_extension(f),
    ensures
        format_named(normalized(w1 + v + w2)) == Some(f),
{
    reveal_strlit("csv");
    reveal_strlit("json");
    assert("csv"@.len() == 3 && "json"@.len() == 4);
    lemma_read_back_trims(w1, v, w2, format_extension(f));
    assert(normalized(w1 + v + w2) == format_extension(f));
}

/// The name a conflict policy is chosen by, on the command line and in the
/// import form.
pub open spec fn policy_name(p: ConflictPolicy) -> Seq<char> {
    match p {
        ConflictPolicy::Skip => "skip"@,
        ConflictPolicy::Overwrite => "overwrite"@,
        ConflictPolicy::Error => "error"@,
    }
}

/// Every conflict policy reads back from its name, in any ASCII case and
/// with whitespace around it, and the three names choose three different
/// policies.
pub proof fn lemma_policy_names_read_back(p: ConflictPolicy, w1: Seq<char>, v: Seq<char>, w2: Seq<char>)
    requires
        all_ws(w1),
        all_ws(w2),
        lower(v) == policy_name(p),
    ensures
        policy_named(normalized(w1 + v + w2)) == Some(p),
{
    reveal_strlit("skip");
    reveal_strlit("overwrite");
    reveal_strlit("error");
    assert("skip"@.len() == 4 && "overwrite"@.len() == 9 && "error"@.len() == 5);
    lemma_read_back_trims(w1, v, w2, policy_name(p));
    assert(normalized(w1 + v + w2) == policy_name(p));
    match p {
        ConflictPolicy::Skip => {},
        ConflictPolicy::Overwrite => {
            assert("overwrite"@ != "skip"@);
        },
        ConflictPolicy::Error => {
            assert("error"@ != "skip"@);
            assert("error"@ != "overwrite"@);
        },
    }
}

/// A file named by a stem and a format's extension is read in that format.
pub proof fn lemma_format_of_file_name(f: TransferFormat, stem: Seq<char>)
    requires
        stem.len() > 0,
        !stem.contains('.'),
        !stem.contains('/'),
    ensures
        crate::manifest_scope::file_extension(stem + "."@ + format_extension(f)) == Some(format_extension(f)),
        format_named(lower(format_extension(f))) == Some(f),
{
    reveal_strlit("csv");
    reveal_strlit("json");
    assert("csv"@.len() == 3 && "json"@.len() == 4);
    assert(!format_extension(f).contains('.') && !format_extension(f).contains('/')) by {
        if format_extension(f).contains('.') || format_extension(f).contains('/') {
            let i = choose|i: int| 0 <= i < format_extension(f).len() && (format_extension(f)[i] == '.' || format_extension(f)[i] == '/');
        }
    }
    crate::manifest_scope::lemma_extension_of_file_name(stem, format_extension(f));
    assert(lower(format_extension(f)) =~= format_extension(f));
}

impl TransferKind {
    /// Reads a kind option, ignoring surrounding whitespace and ASCII case.
    pub fn parse(value: &str) -> (r: Result<TransferKind, TransferError>)
        ensures
            match kind_named(normalized(value@)) {
                Some(k) => r == Ok::<TransferKind, TransferError>(k),
                None => r matches Err(TransferError::UnsupportedKind(t)) && t@ == normalized(value@),
            },
    {
        let n = normalize(value);
        if chars_eq_str(&n, "assets") || chars_eq_str(&n, "asset") {
            Ok(TransferKind::Assets)
        } else if chars_eq_str(&n, "credentials") || chars_eq_str(&n, "credential") {
            Ok(TransferKind::Credentials)
        } else {
            Err(TransferError::UnsupportedKind(from_chars(&n)))
        }
    }
}

impl TransferFormat {
    /// Reads a format option, ignoring surrounding whitespace and ASCII case.
    pub fn parse(value: &str) -> (r: Result<TransferFormat, TransferError>)
        ensures
            match format_named(normalized(value@)) {
                Some(f) => r == Ok::<TransferFormat, TransferError>(f),
                None => r matches Err(TransferError::UnsupportedFormat(t)) && t@ == normalized(value@),
            },
    {
        let n = normalize(value);
        if chars_eq_str(&n, "csv") {
            Ok(TransferFormat::Csv)
        } else if chars_eq_str(&n, "json") {
            Ok(TransferFormat::Json)
        } else {
            Err(TransferError::UnsupportedFormat(from_chars(&n)))
        }
    }

    /// The format a file extension names, in any ASCII case.
    pub fn from_extension(extension: &str) -> (r: Option<TransferFormat>)
        ensures
            r == format_named(lower(extension@)),
    {
        let v = to_chars(extension);
        let n = lower_chars(&v);
        if chars_eq_str(&n, "csv") {
            Some(TransferFormat::Csv)
        } else if chars_eq_str(&n, "json") {
            Some(TransferFormat::Json)
        } else {
            None
        }
    }

    /// The format a file's extension names, in any ASCII case.
    pub fn from_path(path: &str) -> (r: Option<TransferFormat>)
        ensures
            r == match crate::manifest_scope::file_extension(path@) {
                Some(e) => format_named(lower(e)),
                None => None,
            },
    {
        match crate::manifest_scope::path_extension(path) {
            Some(extension) => TransferFormat::from_extension(extension.as_str()),
            None => None,
        }
    }

    /// The media type of a download in this format.
    pub fn content_type(self) -> (r: &'static str)
        ensures
            self == TransferFormat::Csv ==> r@ == "text/csv; charset=utf-8"@,
            self == TransferFormat::Json ==> r@ == "application/json; charset=utf-8"@,
    {
        match self {
            TransferFormat::Csv => "text/csv; charset=utf-8",
            TransferFormat::Json => "application/json; charset=utf-8",
        }
    }

    /// The file extension of a download in this format.
    pub fn extension(self) -> (r: &'static str)
        ensures
            self == TransferFormat::Csv ==> r@ == "csv"@,
            self == TransferFormat::Json ==> r@ == "json"@,
    {
        match self {
            TransferFormat::Csv => "csv",
            TransferFormat::Json => "json",
        }
    }
}

impl ConflictPolicy {
    /// Reads a conflict policy option, ignoring surrounding whitespace and ASCII case.
    pub fn parse(value: &str) -> (r: Result<ConflictPolicy, TransferError>)
        ensures
            match policy_named(normalized(value@)) {
                Some(p) => r == Ok::<ConflictPolicy, TransferError>(p),
                None => r matches Err(TransferError::UnsupportedConflictPolicy(t)) && t@ == normalized(value@),
            },
    {
        let n = normalize(value);
        if chars_eq_str(&n, "skip") {
            Ok(ConflictPolicy::Skip)
        } else if chars_eq_str(&n, "overwrite") {
            Ok(ConflictPolicy::Overwrite)
        } else if chars_eq_str(&n, "error") {
            Ok(ConflictPolicy::Error)
        } else {
            Err(TransferError::UnsupportedConflictPolicy(from_chars(&n)))
        }
    }
}

/// The message an error is reported with.
pub open spec fn error_message(e: TransferError) -> Seq<char> {
    match e {
        TransferError::UnsupportedKind(t) => "unsupported import/export kind: "@ + t@,
        TransferError::UnsupportedFormat(t) => "unsupported import/export format: "@ + t@,
        TransferError::UnsupportedConflictPolicy(t) => "unsupported conflict policy: "@ + t@,
        TransferError::ShortRow { row, fields, expected } => "CSV row "@ + dec(row as nat) + " has "@
            + dec(fields as nat) + " fields, expected "@ + dec(expected as nat),
        TransferError::InvalidPort { row } => "invalid port on CSV row "@ + dec(row as nat),
    }
}

impl TransferError {
    /// The message the error is reported with.
    pub fn message(&self) -> (r: String)
        ensures
            r@ == error_message(*self),
    {
        let mut out: Vec<char> = Vec::new();
        match self {
            TransferError::UnsupportedKind(t) => {
                crate::text::extend_str(&mut out, "unsupported import/export kind: ");
                crate::text::extend_str(&mut out, t.as_str());
            },
            TransferError::UnsupportedFormat(t) => {
                crate::text::extend_str(&mut out, "unsupported import/export format: ");
                crate::text::extend_str(&mut out, t.as_str());
            },
            TransferError::UnsupportedConflictPolicy(t) => {
                crate::text::extend_str(&mut out, "unsupported conflict policy: ");
                crate::text::extend_str(&mut out, t.as_str());
            },
            TransferError::ShortRow { row, fields, expected } => {
                crate::text::extend_str(&mut out, "CSV row ");
                push_dec(&mut out, *row as u64);
                crate::text::extend_str(&mut out, " has ");
                push_dec(&mut out, *fields as u64);
                crate::text::extend_str(&mut out, " fields, expected ");
                push_dec(&mut out, *expected as u64);
            },
            TransferError::InvalidPort { row } => {
                crate::text::extend_str(&mut out, "invalid port on CSV row ");
                push_dec(&mut out, *row as u64);
            },
        }
        assert(out@ =~= error_message(*self));
        from_chars(&out)
    }
}

// ---------------------------------------------------------------------------
// Import summary
// ---------------------------------------------------------------------------

/// Counts of what an import did, and the errors it met.
#[derive(Debug, Clone, PartialEq, Eq)]
pub struct ImportSummary {
    pub imported: usize,
    pub skipped: usize,
    pub overwritten: usize,
    pub errors: Vec<String>,
}

impl Default for ImportSummary {
    fn default() -> (r: ImportSummary)
        ensures
            r.imported == 0,
            r.skipped == 0,
            r.overwritten == 0,
            r.errors@.len() == 0,
    {
        ImportSummary { imported: 0, skipped: 0, overwritten: 0, errors: Vec::new() }
    }
}

impl ImportSummary {
    /// Counts one newly imported row.
    pub fn record_imported(&mut self)
        requires
            old(self).imported < usize::MAX,
        ensures
            final(self).imported == old(self).imported + 1,
            final(self).skipped == old(self).skipped,
            final(self).overwritten == old(self).overwritten,
            final(self).errors@ == old(self).errors@,
    {
        self.imported = self.imported + 1;
    }

    /// Counts one row left out because its resource exists.
    pub fn record_skipped(&mut self)
        requires
            old(self).skipped < usize::MAX,
        ensures
            final(self).skipped == old(self).skipped + 1,
            final(self).imported == old(self).imported,
            final(self).overwritten == old(self).overwritten,
            final(self).errors@ == old(self).errors@,
    {
        self.skipped = self.skipped + 1;
    }

    /// Counts one row written over an existing resource.
    pub fn record_overwritten(&mut self)
        requires
            old(self).overwritten < usize::MAX,
        ensures
            final(self).overwritten == old(self).overwritten + 1,
            final(self).imported == old(self).imported,
            final(self).skipped == old(self).skipped,
            final(self).errors@ == old(self).errors@,
    {
        self.overwritten = self.overwritten + 1;
    }

    /// Records an error met on one row.
    pub fn record_error(&mut self, error: String)
        ensures
            final(self).errors@ == old(self).errors@.push(error),
            final(self).imported == old(self).imported,
            final(self).skipped == old(self).skipped,
            final(self).overwritten == old(self).overwritten,
    {
        self.errors.push(error);
    }
}

// ---------------------------------------------------------------------------
// Transfer rows
// ---------------------------------------------------------------------------

/// An asset as it is imported or exported.
#[derive(Debug, Clone, PartialEq, Eq)]
pub struct AssetTransferRow {
    pub name: String,
    pub hostname: String,
    pub port: i64,
    pub description: Option<String>,
    pub tags: Vec<String>,
    pub credential_id: Option<String>,
}

/// What an asset row holds.
pub struct AssetRowView {
    pub name: Seq<char>,
    pub hostname: Seq<char>,
    pub port: i64,
    pub description: Option<Seq<char>>,
    pub tags: Seq<Seq<char>>,
    pub credential_id: Option<Seq<char>>,
}

impl View for AssetTransferRow {
    type V = AssetRowView;

    open spec fn view(&self) -> AssetRowView {
        AssetRowView {
            name: self.name@,
            hostname: self.hostname@,
            port: self.port,
            description: opt_view(self.description),
            tags: strings_view(self.tags@),
            credential_id: opt_view(self.credential_id),
        }
    }
}

/// A credential as it is imported or exported: no secret field.
#[derive(Debug, Clone, PartialEq, Eq)]
pub struct CredentialTransferRow {
    pub name: String,
    pub username: String,
    pub auth_type: String,
}

/// What a credential row holds.
pub struct CredentialRowView {
    pub name: Seq<char>,
    pub username: Seq<char>,
    pub auth_type: Seq<char>,
}

impl View for CredentialTransferRow {
    type V = CredentialRowView;

    open spec fn view(&self) -> CredentialRowView {
        CredentialRowView { name: self.name@, username: self.username@, auth_type: self.auth_type@ }
    }
}

impl From<Asset> for AssetTransferRow {
    fn from(asset: Asset) -> (r: AssetTransferRow) {
        AssetTransferRow {
            name: asset.name,
            hostname: asset.hostname,
            port: asset.port,
            description: asset.description,
            tags: asset.tags,
            credential_id: asset.credential_id,
        }
    }
}

impl vstd::std_specs::convert::FromSpecImpl<Asset> for AssetTransferRow {
    open spec fn obeys_from_spec() -> bool {
        true
    }

    open spec fn from_spec(asset: Asset) -> AssetTransferRow {
        AssetTransferRow {
            name: asset.name,
            hostname: asset.hostname,
            port: asset.port,
            description: asset.description,
            tags: asset.tags,
            credential_id: asset.credential_id,
        }
    }
}

impl From<AssetTransferRow> for NewAsset {
    fn from(row: AssetTransferRow) -> (r: NewAsset)
        ensures
            r.name == row.name,
            r.hostname == row.hostname,
            r.port == row.port,
            r.description == row.description,
            r.tags == row.tags,
            r.credential_id == row.credential_id,
            r.protocol@ == ASSET_PROTOCOL_SSH@,
            r.preset.is_none(),
    {
        NewAsset {
            name: row.name,
            protocol: ASSET_PROTOCOL_SSH.to_string(),
            preset: None,
            hostname: row.hostname,
            port: row.port,
            description: row.description,
            tags: row.tags,
            credential_id: row.credential_id,
        }
    }
}

impl vstd::std_specs::convert::FromSpecImpl<AssetTransferRow> for NewAsset {
    open spec fn obeys_from_spec() -> bool {
        false
    }

    open spec fn from_spec(row: AssetTransferRow) -> NewAsset {
        arbitrary()
    }
}

impl From<Credential> for CredentialTransferRow {
    fn from(credential: Credential) -> (r: CredentialTransferRow) {
        CredentialTransferRow {
            name: credential.name,
            username: credential.username,
            auth_type: credential.auth_type,
        }
    }
}

impl vstd::std_specs::convert::FromSpecImpl<Credential> for CredentialTransferRow {
    open spec fn obeys_from_spec() -> bool {
        true
    }

    open spec fn from_spec(credential: Credential) -> CredentialTransferRow {
        CredentialTransferRow {
            name: credential.name,
            username: credential.username,
            auth_type: credential.auth_type,
        }
    }
}

// ---------------------------------------------------------------------------
// Import decisions
// ---------------------------------------------------------------------------

/// What an import does with one row.
#[derive(Debug, Clone, PartialEq, Eq)]
pub enum ImportStep {
    /// Nothing exists under the row's name: add it.
    Insert,
    /// Something exists and the policy is to skip it.
    Skip,
    /// Something exists and the policy is to report it.
    Fail(String),
    /// Something exists and the policy is to write over it.
    Overwrite,
}

/// The step for a row of the given kind (`asset` or `credential`), by
/// whether it exists already and the conflict policy.
pub open spec fn step_of(kind: Seq<char>, name: Seq<char>, exists: bool, policy: ConflictPolicy) -> ImportStepView {
    if !exists {
        ImportStepView::Insert
    } else {
        match policy {
            ConflictPolicy::Skip => ImportStepView::Skip,
            ConflictPolicy::Error => ImportStepView::Fail(kind + " already exists: "@ + name),
            ConflictPolicy::Overwrite => ImportStepView::Overwrite,
        }
    }
}

/// An import step as mathematical values.
pub enum ImportStepView {
    Insert,
    Skip,
    Fail(Seq<char>),
    Overwrite,
}

/// The view of an import step.
pub open spec fn step_view(s: ImportStep) -> ImportStepView {
    match s {
        ImportStep::Insert => ImportStepView::Insert,
        ImportStep::Skip => ImportStepView::Skip,
        ImportStep::Fail(m) => ImportStepView::Fail(m@),
        ImportStep::Overwrite => ImportStepView::Overwrite,
    }
}

fn plan_row(kind: &str, name: &str, exists: bool, policy: ConflictPolicy) -> (r: ImportStep)
    ensures
        step_view(r) == step_of(kind@, name@, exists, policy),
{
    if !exists {
        return ImportStep::Insert;
    }
    match policy {
        ConflictPolicy::Skip => ImportStep::Skip,
        ConflictPolicy::Error => {
            let mut out: Vec<char> = Vec::new();
            crate::text::extend_str(&mut out, kind);
            crate::text::extend_str(&mut out, " already exists: ");
            crate::text::extend_str(&mut out, name);
            ImportStep::Fail(from_chars(&out))
        },
        ConflictPolicy::Overwrite => ImportStep::Overwrite,
    }
}

/// The step for an asset row; `exists` is whether an asset of that name is
/// in the catalog now.
pub fn plan_asset_row(row: &AssetTransferRow, exists: bool, policy: ConflictPolicy) -> (r: ImportStep)
    ensures
        step_view(r) == step_of("asset"@, row.name@, exists, policy),
{
    plan_row("asset", row.name.as_str(), exists, policy)
}

/// The step for a credential row; `exists` is whether a credential with its
/// name and username was in the catalog when the import began.
pub fn plan_credential_row(row: &CredentialTransferRow, exists: bool, policy: ConflictPolicy) -> (r: ImportStep)
    ensures
        step_view(r) == step_of("credential"@, row.name@, exists, policy),
{
    plan_row("credential", row.name.as_str(), exists, policy)
}

/// Counts a step that needs no catalog write: a skip, or a reported
/// conflict. Inserts and overwrites are counted once written.
pub fn note_step(summary: &mut ImportSummary, step: &ImportStep)
    requires
        old(summary).skipped < usize::MAX,
    ensures
        match step {
            ImportStep::Skip => final(summary).skipped == old(summary).skipped + 1 && final(summary).errors@ == old(summary).errors@,
            ImportStep::Fail(m) => final(summary).skipped == old(summary).skipped && final(summary).errors@ == old(summary).errors@.push(*m),
            _ => final(summary).skipped == old(summary).skipped && final(summary).errors@ == old(summary).errors@,
        },
        final(summary).imported == old(summary).imported,
        final(summary).overwritten == old(summary).overwritten,
{
    match step {
        ImportStep::Skip => summary.record_skipped(),
        ImportStep::Fail(m) => summary.record_error(m.clone()),
        _ => {},
    }
}

/// The first stored credential with the row's name and username.
pub fn find_existing_credential(existing: &[Credential], row: &CredentialTransferRow) -> (r: Option<usize>)
    ensures
        match r {
            Some(i) => i < existing@.len() && existing@[i as int].name@ == row.name@ && existing@[i as int].username@ == row.username@
                && forall|j: int| 0 <= j < i ==> !(#[trigger] existing@[j].name@ == row.name@ && existing@[j].username@ == row.username@),
            None => forall|j: int| 0 <= j < existing@.len() ==> !(#[trigger] existing@[j].name@ == row.name@ && existing@[j].username@ == row.username@),
        },
{
    let mut i: usize = 0;
    while i < existing.len()
        invariant
            i <= existing.len(),
            forall|j: int| 0 <= j < i ==> !(#[trigger] existing@[j].name@ == row.name@ && existing@[j].username@ == row.username@),
        decreases existing.len() - i,
    {
        if crate::text::str_eq(existing[i].name.as_str(), row.name.as_str())
            && crate::text::str_eq(existing[i].username.as_str(), row.username.as_str()) {
            return Some(i);
        }
        i += 1;
    }
    None
}

/// A credential to store.
#[derive(Debug, Clone, PartialEq, Eq)]
pub struct NewCredential {
    pub id: Option<String>,
    pub name: String,
    pub username: String,
    pub auth_type: crate::model::AuthType,
    pub password_enc: Option<String>,
    pub private_key_enc: Option<String>,
    pub passphrase_enc: Option<String>,
}

/// A credential imported from a row: its name, username and auth type, and
/// no secret; an unknown auth type is refused.
pub fn credential_from_row(row: &CredentialTransferRow) -> (r: Result<NewCredential, String>)
    ensures
        r is Ok <==> crate::credential_form::auth_type_named(row.auth_type@) is Some,
        match r {
            Ok(c) => c.id is None && c.name@ == row.name@ && c.username@ == row.username@
                && crate::model::auth_type_name(c.auth_type) == row.auth_type@
                && c.password_enc is None && c.private_key_enc is None && c.passphrase_enc is None,
            Err(e) => e@ == "unsupported auth type: "@ + row.auth_type@,
        },
{
    let auth_type = match crate::model::AuthType::parse(row.auth_type.as_str()) {
        Ok(t) => t,
        Err(e) => return Err(e),
    };
    Ok(NewCredential {
        id: None,
        name: row.name.clone(),
        username: row.username.clone(),
        auth_type,
        password_enc: None,
        private_key_enc: None,
        passphrase_enc: None,
    })
}

/// A credential written over by an imported row: the row's name, username
/// and auth type, and the stored credential's id and sealed secrets.
pub fn credential_overwrite(existing: &Credential, row: &CredentialTransferRow) -> (r: Result<NewCredential, String>)
    ensures
        r is Ok <==> crate::credential_form::auth_type_named(row.auth_type@) is Some,
        match r {
            Ok(c) => opt_view(c.id) == Some(existing.id@) && c.name@ == row.name@ && c.username@ == row.username@
                && crate::model::auth_type_name(c.auth_type) == row.auth_type@
                && c.password_enc == existing.password_enc && c.private_key_enc == existing.private_key_enc
                && c.passphrase_enc == existing.passphrase_enc,
            Err(e) => e@ == "unsupported auth type: "@ + row.auth_type@,
        },
{
    let auth_type = match crate::model::AuthType::parse(row.auth_type.as_str()) {
        Ok(t) => t,
        Err(e) => return Err(e),
    };
    Ok(NewCredential {
        id: Some(existing.id.clone()),
        name: row.name.clone(),
        username: row.username.clone(),
        auth_type,
        password_enc: clone_opt(&existing.password_enc),
        private_key_enc: clone_opt(&existing.private_key_enc),
        passphrase_enc: clone_opt(&existing.passphrase_enc),
    })
}

} // verus!
