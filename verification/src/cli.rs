//! The local command line's own rules: what a command prints, how secrets
//! read from standard input are cleaned, which inputs `key add` and
//! `credential add` accept, and how an import ends.
use vstd::prelude::*;

use russh::keys::PublicKeyBase64;

use crate::model::{auth_type_name, opt_view, Asset, AssetView, AuthType};
use crate::text::{dec, dec_int, extend_str, from_chars, is_whitespace, is_ws, push_dec, push_dec_i64, to_chars};
use crate::transfer::{ImportSummary, TransferKind};

verus! {

// ---------------------------------------------------------------------------
// Secrets from standard input
// ---------------------------------------------------------------------------

/// A text without its trailing carriage returns and line feeds.
pub open spec fn without_line_ends(s: Seq<char>) -> Seq<char>
    decreases s.len(),
{
    if s.len() > 0 && (s.last() == '\r' || s.last() == '\n') {
        without_line_ends(s.drop_last())
    } else {
        s
    }
}

/// Cleaning a cleaned secret changes nothing: it no longer ends in a line
/// end.
pub proof fn lemma_without_line_ends_idempotent(s: Seq<char>)
    ensures
        without_line_ends(without_line_ends(s)) == without_line_ends(s),
        without_line_ends(s).len() > 0 ==> without_line_ends(s).last() != '\r' && without_line_ends(s).last() != '\n',
    decreases s.len(),
{
    if s.len() > 0 && (s.last() == '\r' || s.last() == '\n') {
        lemma_without_line_ends_idempotent(s.drop_last());
    }
}

/// A secret read from standard input loses only its trailing line ends;
/// spaces stay.
pub fn normalize_stdin_secret(value: &str) -> (r: String)
    ensures
        r@ == without_line_ends(value@),
{
    let v = to_chars(value);
    let mut end: usize = v.len();
    assert(v@.take(v.len() as int) =~= v@);
    while end > 0 && (v[end - 1] == '\r' || v[end - 1] == '\n')
        invariant
            end <= v.len(),
            without_line_ends(v@) == without_line_ends(v@.take(end as int)),
        decreases end,
    {
        assert(v@.take(end as int).drop_last() =~= v@.take(end - 1));
        end = end - 1;
    }
    let kept = crate::text::slice_chars(&v, 0, end);
    assert(kept@ =~= v@.take(end as int));
    assert(v@.take(v.len() as int) =~= v@);
    from_chars(&kept)
}

// ---------------------------------------------------------------------------
// Exports and imports
// ---------------------------------------------------------------------------

/// How an export kind is named in messages.
pub fn export_kind_name(kind: TransferKind) -> (r: &'static str)
    ensures
        r@ == match kind { TransferKind::Assets => "assets"@, TransferKind::Credentials => "credentials"@ },
{
    match kind {
        TransferKind::Assets => "assets",
        TransferKind::Credentials => "credentials",
    }
}

/// `exported <kind> to <path>`.
pub fn export_done_message(kind: TransferKind, path: &str) -> (r: String)
    ensures
        r@ == "exported "@ + (match kind { TransferKind::Assets => "assets"@, TransferKind::Credentials => "credentials"@ })
            + " to "@ + path@,
{
    let mut out: Vec<char> = Vec::new();
    extend_str(&mut out, "exported ");
    extend_str(&mut out, export_kind_name(kind));
    extend_str(&mut out, " to ");
    extend_str(&mut out, path);
    from_chars(&out)
}

/// `imported=<n> skipped=<n> overwritten=<n> errors=<n>`.
pub fn import_report(summary: &ImportSummary) -> (r: String)
    ensures
        r@ == "imported="@ + dec(summary.imported as nat) + " skipped="@ + dec(summary.skipped as nat) + " overwritten="@
            + dec(summary.overwritten as nat) + " errors="@ + dec(summary.errors@.len()),
{
    let mut out: Vec<char> = Vec::new();
    extend_str(&mut out, "imported=");
    push_dec(&mut out, summary.imported as u64);
    extend_str(&mut out, " skipped=");
    push_dec(&mut out, summary.skipped as u64);
    extend_str(&mut out, " overwritten=");
    push_dec(&mut out, summary.overwritten as u64);
    extend_str(&mut out, " errors=");
    push_dec(&mut out, summary.errors.len() as u64);
    from_chars(&out)
}

/// An import with errors fails as a whole: `import completed with <n>
/// error(s)`.
pub fn import_outcome(summary: &ImportSummary) -> (r: Result<(), String>)
    ensures
        summary.errors@.len() == 0 ==> r is Ok,
        summary.errors@.len() > 0 ==> (r matches Err(m) && m@ == "import completed with "@ + dec(summary.errors@.len())
            + " error(s)"@),
{
    if summary.errors.len() == 0 {
        return Ok(());
    }
    let mut out: Vec<char> = Vec::new();
    extend_str(&mut out, "import completed with ");
    push_dec(&mut out, summary.errors.len() as u64);
    extend_str(&mut out, " error(s)");
    Err(from_chars(&out))
}

/// `import error: <error>`.
pub fn import_error_line(error: &str) -> (r: String)
    ensures
        r@ == "import error: "@ + error@,
{
    let mut out: Vec<char> = Vec::new();
    extend_str(&mut out, "import error: ");
    extend_str(&mut out, error);
    from_chars(&out)
}

// ---------------------------------------------------------------------------
// Keys
// ---------------------------------------------------------------------------

/// Where `key add` reads the public key from.
#[derive(Debug, Clone, PartialEq, Eq)]
pub enum PublicKeySource {
    /// The key text given on the command line.
    Text(String),
    /// A file to read it from.
    File(String),
}

/// Why `key add` was refused.
#[derive(Debug, Clone, Copy, PartialEq, Eq, Structural)]
pub enum KeyAddError {
    BothSources,
    NoSource,
    EmptyKey,
    NotOpenSshFormat,
    /// The key blob is not a public key `russh` can read.
    UnreadableKey,
}

impl KeyAddError {
    /// The error text.
    pub fn message(&self) -> (r: &'static str)
        ensures
            r@ == match self {
                KeyAddError::BothSources => "choose either --public-key or --public-key-file, not both"@,
                KeyAddError::NoSource => "--public-key or --public-key-file is required"@,
                KeyAddError::EmptyKey => "empty public key"@,
                KeyAddError::NotOpenSshFormat => "public key must be OpenSSH '<type> <base64>' format"@,
                KeyAddError::UnreadableKey => "parse OpenSSH public key"@,
            },
    {
        match self {
            KeyAddError::BothSources => "choose either --public-key or --public-key-file, not both",
            KeyAddError::NoSource => "--public-key or --public-key-file is required",
            KeyAddError::EmptyKey => "empty public key",
            KeyAddError::NotOpenSshFormat => "public key must be OpenSSH '<type> <base64>' format",
            KeyAddError::UnreadableKey => "parse OpenSSH public key",
        }
    }
}

/// Exactly one of `--public-key` and `--public-key-file` is taken.
pub fn public_key_source(public_key: Option<String>, public_key_file: Option<String>) -> (r: Result<PublicKeySource, KeyAddError>)
    ensures
        match (public_key, public_key_file) {
            (Some(k), None) => r == Ok::<PublicKeySource, KeyAddError>(PublicKeySource::Text(k)),
            (None, Some(p)) => r == Ok::<PublicKeySource, KeyAddError>(PublicKeySource::File(p)),
            (Some(_), Some(_)) => r == Err::<PublicKeySource, KeyAddError>(KeyAddError::BothSources),
            (None, None) => r == Err::<PublicKeySource, KeyAddError>(KeyAddError::NoSource),
        },
{
    match (public_key, public_key_file) {
        (Some(k), None) => Ok(PublicKeySource::Text(k)),
        (None, Some(p)) => Ok(PublicKeySource::File(p)),
        (Some(_), Some(_)) => Err(KeyAddError::BothSources),
        (None, None) => Err(KeyAddError::NoSource),
    }
}

/// `line[a..b]` and `line[c..d]` are its first two whitespace-separated
/// words.
pub open spec fn first_two_words_at(line: Seq<char>, a: int, b: int, c: int, d: int) -> bool {
    &&& 0 <= a < b < c < d <= line.len()
    &&& forall|i: int| 0 <= i < a ==> is_ws(#[trigger] line[i])
    &&& forall|i: int| b <= i < c ==> is_ws(#[trigger] line[i])
    &&& forall|i: int| a <= i < b ==> !is_ws(#[trigger] line[i])
    &&& forall|i: int| c <= i < d ==> !is_ws(#[trigger] line[i])
    &&& (d == line.len() || is_ws(line[d]))
}

/// `line[a..b]` is its only word.
pub open spec fn only_word_at(line: Seq<char>, a: int, b: int) -> bool {
    &&& 0 <= a < b <= line.len()
    &&& forall|i: int| 0 <= i < a ==> is_ws(#[trigger] line[i])
    &&& forall|i: int| a <= i < b ==> !is_ws(#[trigger] line[i])
    &&& forall|i: int| b <= i < line.len() ==> is_ws(#[trigger] line[i])
}

/// The first word of a text and where it ends.
fn next_word(v: &Vec<char>, from: usize) -> (r: (usize, usize))
    requires
        from <= v.len(),
    ensures
        from <= r.0 <= r.1 <= v.len(),
        forall|i: int| from <= i < r.0 ==> is_ws(#[trigger] v@[i]),
        forall|i: int| r.0 <= i < r.1 ==> !is_ws(#[trigger] v@[i]),
        r.1 < v.len() ==> is_ws(v@[r.1 as int]),
        r.0 == r.1 ==> r.1 == v.len(),
{
    let mut a = from;
    while a < v.len() && is_whitespace(v[a])
        invariant
            from <= a <= v.len(),
            forall|i: int| from <= i < a ==> is_ws(#[trigger] v@[i]),
        decreases v.len() - a,
    {
        a += 1;
    }
    let mut b = a;
    while b < v.len() && !is_whitespace(v[b])
        invariant
            a <= b <= v.len(),
            forall|i: int| a <= i < b ==> !is_ws(#[trigger] v@[i]),
        decreases v.len() - b,
    {
        b += 1;
    }
    (a, b)
}

/// The key type and the base64 blob of an OpenSSH public key line: its
/// first two whitespace-separated words. A line without words is empty; a
/// line with one word is not in OpenSSH form.
pub fn split_public_key_line(line: &str) -> (r: Result<(String, String), KeyAddError>)
    ensures
        match r {
            Ok((key_type, blob)) => exists|a: int, b: int, c: int, d: int| #[trigger] first_two_words_at(line@, a, b, c, d)
                && key_type@ == line@.subrange(a, b) && blob@ == line@.subrange(c, d),
            Err(KeyAddError::EmptyKey) => forall|i: int| 0 <= i < line@.len() ==> is_ws(#[trigger] line@[i]),
            Err(KeyAddError::NotOpenSshFormat) => exists|a: int, b: int| #[trigger] only_word_at(line@, a, b),
            Err(_) => false,
        },
{
    let v = to_chars(line);
    let (a, b) = next_word(&v, 0);
    if a == b {
        return Err(KeyAddError::EmptyKey);
    }
    let (c, d) = next_word(&v, b);
    if c == d {
        assert(only_word_at(line@, a as int, b as int));
        return Err(KeyAddError::NotOpenSshFormat);
    }
    let key_type = crate::text::slice_chars(&v, a, b);
    let blob = crate::text::slice_chars(&v, c, d);
    assert(first_two_words_at(line@, a as int, b as int, c as int, d as int));
    Ok((from_chars(&key_type), from_chars(&blob)))
}

/// What `russh` makes of the base64 blob of an OpenSSH public key: the
/// key's blob as it encodes it again, and its SHA-256 fingerprint; none
/// when the blob is not a key it reads.
pub uninterp spec fn openssh_public_key(blob: Seq<char>) -> Option<(Seq<char>, Seq<char>)>;

/// `russh::keys::parse_public_key_base64`, then `public_key_base64` and
/// the `Display` text of `fingerprint(HashAlg::Sha256)` of the key read.
/// The contract claims that the result is a function of the blob, named
/// `openssh_public_key`, and, as the fingerprint's `Display` writes its
/// algorithm, a colon and the digest, that the fingerprint starts with
/// `SHA256:`.
#[verifier::external_body]
fn read_openssh_key(blob: &str) -> (r: Option<(String, String)>)
    ensures
        match r {
            Some((key, fingerprint)) => openssh_public_key(blob@) == Some((key@, fingerprint@))
                && fingerprint@.len() >= 7 && fingerprint@.take(7) == "SHA256:"@,
            None => openssh_public_key(blob@) is None,
        },
{
    let key = russh::keys::parse_public_key_base64(blob).ok()?;
    Some((key.public_key_base64(), format!("{}", key.fingerprint(russh::keys::ssh_key::HashAlg::Sha256))))
}

/// The stored form of a key from its type and what `russh` read from its
/// blob: `<type> <blob>` and the fingerprint; a blob it did not read is
/// refused.
pub fn key_line_from(key_type: &str, read: Option<(String, String)>) -> (r: Result<(String, String), KeyAddError>)
    ensures
        match read {
            Some((key, fingerprint)) => r matches Ok((canonical, fp)) && canonical@ == key_type@ + " "@ + key@ && fp@ == fingerprint@,
            None => r == Err::<(String, String), KeyAddError>(KeyAddError::UnreadableKey),
        },
{
    match read {
        Some((key, fingerprint)) => {
            let mut out: Vec<char> = Vec::new();
            extend_str(&mut out, key_type);
            extend_str(&mut out, " ");
            extend_str(&mut out, key.as_str());
            Ok((from_chars(&out), fingerprint))
        },
        None => Err(KeyAddError::UnreadableKey),
    }
}

/// An OpenSSH public key line in stored form: its type and blob (see
/// `split_public_key_line`) read by `russh`, as `<type> <blob>` and the
/// SHA-256 fingerprint.
pub fn parse_public_key_line(line: &str) -> (r: Result<(String, String), KeyAddError>)
    ensures
        match r {
            Ok((canonical, fingerprint)) => exists|a: int, b: int, c: int, d: int| #[trigger] first_two_words_at(line@, a, b, c, d)
                && (openssh_public_key(line@.subrange(c, d)) matches Some((key, fp))
                && canonical@ == line@.subrange(a, b) + " "@ + key && fingerprint@ == fp),
            Err(KeyAddError::EmptyKey) => forall|i: int| 0 <= i < line@.len() ==> is_ws(#[trigger] line@[i]),
            Err(KeyAddError::NotOpenSshFormat) => exists|a: int, b: int| #[trigger] only_word_at(line@, a, b),
            Err(KeyAddError::UnreadableKey) => exists|a: int, b: int, c: int, d: int| #[trigger] first_two_words_at(line@, a, b, c, d)
                && openssh_public_key(line@.subrange(c, d)) is None,
            Err(_) => false,
        },
{
    let (key_type, blob) = split_public_key_line(line)?;
    let read = read_openssh_key(blob.as_str());
    key_line_from(key_type.as_str(), read)
}

/// `<id>\t<active|inactive>\t<fingerprint>\t<name>`.
pub fn key_list_line(id: &str, is_active: bool, fingerprint: &str, name: &str) -> (r: String)
    ensures
        r@ == id@ + "\t"@ + (if is_active { "active"@ } else { "inactive"@ }) + "\t"@ + fingerprint@ + "\t"@ + name@,
{
    let mut out: Vec<char> = Vec::new();
    extend_str(&mut out, id);
    extend_str(&mut out, "\t");
    extend_str(&mut out, if is_active { "active" } else { "inactive" });
    extend_str(&mut out, "\t");
    extend_str(&mut out, fingerprint);
    extend_str(&mut out, "\t");
    extend_str(&mut out, name);
    from_chars(&out)
}

/// `key <id> activated` or `key <id> deactivated`.
pub fn key_state_message(id: &str, active: bool) -> (r: String)
    ensures
        r@ == "key "@ + id@ + " "@ + (if active { "activated"@ } else { "deactivated"@ }),
{
    let mut out: Vec<char> = Vec::new();
    extend_str(&mut out, "key ");
    extend_str(&mut out, id);
    extend_str(&mut out, " ");
    extend_str(&mut out, if active { "activated" } else { "deactivated" });
    from_chars(&out)
}

// ---------------------------------------------------------------------------
// Credentials
// ---------------------------------------------------------------------------

/// Why `credential add` was refused.
#[derive(Debug, Clone, Copy, PartialEq, Eq, Structural)]
pub enum CredentialMaterialError {
    PasswordRequired,
    PrivateKeyRequired,
    PrivateKeyAndPassphraseRequired,
}

impl CredentialMaterialError {
    /// The error text.
    pub fn message(&self) -> (r: &'static str)
        ensures
            r@ == match self {
                CredentialMaterialError::PasswordRequired => "password auth requires --password"@,
                CredentialMaterialError::PrivateKeyRequired => "key auth requires --private-key-file"@,
                CredentialMaterialError::PrivateKeyAndPassphraseRequired => "key+passphrase auth requires --private-key-file and --passphrase"@,
            },
    {
        match self {
            CredentialMaterialError::PasswordRequired => "password auth requires --password",
            CredentialMaterialError::PrivateKeyRequired => "key auth requires --private-key-file",
            CredentialMaterialError::PrivateKeyAndPassphraseRequired => "key+passphrase auth requires --private-key-file and --passphrase",
        }
    }
}

/// The secrets an auth type needs on the command line: a password; a
/// private key; a private key and a passphrase.
pub fn check_credential_material(auth_type: AuthType, has_password: bool, has_private_key: bool, has_passphrase: bool) -> (r: Result<(), CredentialMaterialError>)
    ensures
        match auth_type {
            AuthType::Password => if has_password { r is Ok } else { r == Err::<(), CredentialMaterialError>(CredentialMaterialError::PasswordRequired) },
            AuthType::Key => if has_private_key { r is Ok } else { r == Err::<(), CredentialMaterialError>(CredentialMaterialError::PrivateKeyRequired) },
            AuthType::KeyWithPassphrase => if has_private_key && has_passphrase {
                r is Ok
            } else {
                r == Err::<(), CredentialMaterialError>(CredentialMaterialError::PrivateKeyAndPassphraseRequired)
            },
        },
{
    match auth_type {
        AuthType::Password => if has_password { Ok(()) } else { Err(CredentialMaterialError::PasswordRequired) },
        AuthType::Key => if has_private_key { Ok(()) } else { Err(CredentialMaterialError::PrivateKeyRequired) },
        AuthType::KeyWithPassphrase => {
            if has_private_key && has_passphrase {
                Ok(())
            } else {
                Err(CredentialMaterialError::PrivateKeyAndPassphraseRequired)
            }
        },
    }
}

/// `<id>\t<auth type>\t<username>\t<name>`.
pub fn credential_list_line(id: &str, auth_type: &str, username: &str, name: &str) -> (r: String)
    ensures
        r@ == id@ + "\t"@ + auth_type@ + "\t"@ + username@ + "\t"@ + name@,
{
    let mut out: Vec<char> = Vec::new();
    extend_str(&mut out, id);
    extend_str(&mut out, "\t");
    extend_str(&mut out, auth_type);
    extend_str(&mut out, "\t");
    extend_str(&mut out, username);
    extend_str(&mut out, "\t");
    extend_str(&mut out, name);
    from_chars(&out)
}

// ---------------------------------------------------------------------------
// Assets
// ---------------------------------------------------------------------------

/// `<id>\t<name>\t<host>:<port>\t<tags joined by commas>\t<credential or ->`.
pub open spec fn asset_list_text(a: AssetView) -> Seq<char> {
    a.id + "\t"@ + a.name + "\t"@ + a.hostname + ":"@ + dec_int(a.port as int) + "\t"@
        + crate::tui_view::join_text(a.tags, ","@) + "\t"@ + match a.credential_id { Some(c) => c, None => "-"@ }
}

/// The line `asset list` prints for an asset.
pub fn asset_list_line(asset: &Asset) -> (r: String)
    ensures
        r@ == asset_list_text(asset@),
{
    let mut out: Vec<char> = Vec::new();
    extend_str(&mut out, asset.id.as_str());
    extend_str(&mut out, "\t");
    extend_str(&mut out, asset.name.as_str());
    extend_str(&mut out, "\t");
    extend_str(&mut out, asset.hostname.as_str());
    extend_str(&mut out, ":");
    push_dec_i64(&mut out, asset.port);
    extend_str(&mut out, "\t");
    let ghost before = out@;
    let ghost ts = crate::model::strings_view(asset.tags@);
    let mut i: usize = 0;
    while i < asset.tags.len()
        invariant
            i <= asset.tags.len(),
            ts == crate::model::strings_view(asset.tags@),
            out@ == before + crate::tui_view::join_text(ts.take(i as int), ","@),
        decreases asset.tags.len() - i,
    {
        if i > 0 {
            extend_str(&mut out, ",");
        }
        extend_str(&mut out, asset.tags[i].as_str());
        assert(ts.take(i + 1).drop_last() =~= ts.take(i as int));
        proof {
            if i == 0 {
                assert(ts.take(1) =~= seq![ts[0]]);
            }
        }
        assert(out@ =~= before + crate::tui_view::join_text(ts.take(i + 1), ","@));
        i += 1;
    }
    assert(ts.take(asset.tags.len() as int) =~= ts);
    extend_str(&mut out, "\t");
    match &asset.credential_id {
        Some(c) => extend_str(&mut out, c.as_str()),
        None => extend_str(&mut out, "-"),
    }
    from_chars(&out)
}

} // verus!
