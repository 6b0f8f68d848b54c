//! The console forms that are read from raw `application/x-www-form-urlencoded`
//! bodies (those with repeated fields), and the asset form.
use vstd::prelude::*;

use crate::asset_search::{or_empty, parse_tags, split_commas};
use crate::model::{
    normalize_asset_protocol, opt_view, protocol_rule, protocol_supports_managed_credentials,
    strings_view, tcp_port_ok, validate_tcp_port, NewAsset, NewAssetView, ASSET_PROTOCOL_SSH,
};
use crate::text::{is_blank, str_eq, to_chars, trim, trim_chars};
use crate::transfer_csv::keep_tags;

verus! {

/// The name and value pairs of a form body.
pub type FormPairs = Seq<(Seq<char>, Seq<char>)>;

/// The pairs `form_urlencoded::parse` yields for a body: the body split at
/// `&`, empty pieces skipped, each piece split at its first `=`, `+` read as
/// a space, percent escapes decoded and the bytes read as UTF-8 with
/// replacement characters.
pub uninterp spec fn form_pairs_of(body: Seq<u8>) -> FormPairs;

/// The views of owned pairs.
pub open spec fn pairs_view(v: Seq<(String, String)>) -> FormPairs {
    v.map_values(|p: (String, String)| (p.0@, p.1@))
}

/// `form_urlencoded::parse(body).into_owned()`, collected. The contract
/// claims that the pairs are a function of the body alone, named
/// `form_pairs_of`.
#[verifier::external_body]
fn decode_form(body: &[u8]) -> (r: Vec<(String, String)>)
    ensures
        pairs_view(r@) == form_pairs_of(body@),
{
    form_urlencoded::parse(body).into_owned().collect()
}

/// Why a submitted form was refused.
#[derive(Debug, Clone, Copy, PartialEq, Eq, Structural)]
pub enum FormError {
    MissingCsrfToken,
    KeyNameRequired,
    PublicKeyRequired,
    AccessModeRequired,
}

impl FormError {
    /// The error text.
    pub fn message(&self) -> (r: &'static str)
        ensures
            r@ == form_error_text(*self),
    {
        match self {
            FormError::MissingCsrfToken => "missing CSRF token",
            FormError::KeyNameRequired => "key name is required",
            FormError::PublicKeyRequired => "public key is required",
            FormError::AccessModeRequired => "asset access mode is required",
        }
    }
}

/// The text of a form error.
pub open spec fn form_error_text(e: FormError) -> Seq<char> {
    match e {
        FormError::MissingCsrfToken => "missing CSRF token"@,
        FormError::KeyNameRequired => "key name is required"@,
        FormError::PublicKeyRequired => "public key is required"@,
        FormError::AccessModeRequired => "asset access mode is required"@,
    }
}

// ---------------------------------------------------------------------------
// Bulk tag update
// ---------------------------------------------------------------------------

/// The bulk tag form: the assets to update and the new tags field.
#[derive(Debug, Clone, PartialEq, Eq)]
pub struct BulkTagsForm {
    pub csrf_token: String,
    pub asset_ids: Vec<String>,
    pub tags: Option<String>,
}

/// What the bulk tag form holds.
pub struct BulkTagsFormView {
    pub csrf_token: Seq<char>,
    pub asset_ids: Seq<Seq<char>>,
    pub tags: Option<Seq<char>>,
}

impl View for BulkTagsForm {
    type V = BulkTagsFormView;

    open spec fn view(&self) -> BulkTagsFormView {
        BulkTagsFormView { csrf_token: self.csrf_token@, asset_ids: strings_view(self.asset_ids@), tags: opt_view(self.tags) }
    }
}

/// The bulk tag form the pairs fill in order: a later `csrf_token` or
/// `tags` replaces an earlier one, every `asset_ids` adds an id, other names
/// are ignored.
pub open spec fn bulk_form_of(pairs: FormPairs) -> BulkTagsFormView
    decreases pairs.len(),
{
    if pairs.len() == 0 {
        BulkTagsFormView { csrf_token: Seq::empty(), asset_ids: Seq::empty(), tags: None }
    } else {
        let f = bulk_form_of(pairs.drop_last());
        let (k, v) = pairs.last();
        if k == "csrf_token"@ {
            BulkTagsFormView { csrf_token: v, ..f }
        } else if k == "asset_ids"@ {
            BulkTagsFormView { asset_ids: f.asset_ids.push(v), ..f }
        } else if k == "tags"@ {
            BulkTagsFormView { tags: Some(v), ..f }
        } else {
            f
        }
    }
}

/// Reads the bulk tag form from its pairs; a form without a CSRF token is
/// refused.
pub fn bulk_tags_form_from_pairs(pairs: &Vec<(String, String)>) -> (r: Result<BulkTagsForm, FormError>)
    ensures
        bulk_form_of(pairs_view(pairs@)).csrf_token.len() == 0 ==> r == Err::<BulkTagsForm, FormError>(FormError::MissingCsrfToken),
        bulk_form_of(pairs_view(pairs@)).csrf_token.len() > 0 ==> (r matches Ok(f) && f@ == bulk_form_of(pairs_view(pairs@))),
{
    let mut form = BulkTagsForm { csrf_token: String::new(), asset_ids: Vec::new(), tags: None };
    let mut i: usize = 0;
    assert(pairs_view(pairs@).take(0) =~= Seq::<(Seq<char>, Seq<char>)>::empty());
    assert(form@.asset_ids =~= Seq::<Seq<char>>::empty());
    while i < pairs.len()
        invariant
            i <= pairs.len(),
            form@ == bulk_form_of(pairs_view(pairs@).take(i as int)),
        decreases pairs.len() - i,
    {
        let ghost pre = pairs_view(pairs@).take(i as int);
        assert(pairs_view(pairs@).take(i + 1).drop_last() =~= pre);
        assert(pairs_view(pairs@).take(i + 1).last() == (pairs@[i as int].0@, pairs@[i as int].1@));
        let (k, v) = &pairs[i];
        if str_eq(k.as_str(), "csrf_token") {
            form.csrf_token = v.clone();
        } else if str_eq(k.as_str(), "asset_ids") {
            let ghost before = form.asset_ids@;
            form.asset_ids.push(v.clone());
            assert(strings_view(form.asset_ids@) =~= strings_view(before).push(v@));
        } else if str_eq(k.as_str(), "tags") {
            form.tags = Some(v.clone());
        }
        i += 1;
    }
    assert(pairs_view(pairs@).take(pairs.len() as int) =~= pairs_view(pairs@));
    if form.csrf_token.as_str().is_empty() {
        return Err(FormError::MissingCsrfToken);
    }
    Ok(form)
}

/// Reads the bulk tag form from a raw body (`asset_ids` repeats).
pub fn parse_bulk_tags_body(body: &[u8]) -> (r: Result<BulkTagsForm, FormError>)
    ensures
        bulk_form_of(form_pairs_of(body@)).csrf_token.len() == 0 ==> r == Err::<BulkTagsForm, FormError>(FormError::MissingCsrfToken),
        bulk_form_of(form_pairs_of(body@)).csrf_token.len() > 0 ==> (r matches Ok(f) && f@ == bulk_form_of(form_pairs_of(body@))),
{
    let pairs = decode_form(body);
    bulk_tags_form_from_pairs(&pairs)
}

// ---------------------------------------------------------------------------
// SSH identity form
// ---------------------------------------------------------------------------

/// The SSH identity form: name, public key, access mode and, for restricted
/// access, the assets.
#[derive(Debug, Clone, PartialEq, Eq)]
pub struct KeyAccessForm {
    pub csrf_token: String,
    pub name: String,
    pub public_key: String,
    pub asset_access_mode: String,
    pub asset_ids: Vec<String>,
}

/// What the SSH identity form holds.
pub struct KeyAccessFormView {
    pub csrf_token: Seq<char>,
    pub name: Seq<char>,
    pub public_key: Seq<char>,
    pub asset_access_mode: Seq<char>,
    pub asset_ids: Seq<Seq<char>>,
}

impl View for KeyAccessForm {
    type V = KeyAccessFormView;

    open spec fn view(&self) -> KeyAccessFormView {
        KeyAccessFormView {
            csrf_token: self.csrf_token@,
            name: self.name@,
            public_key: self.public_key@,
            asset_access_mode: self.asset_access_mode@,
            asset_ids: strings_view(self.asset_ids@),
        }
    }
}

/// The identity form the pairs fill in order: later single fields replace
/// earlier ones, every `asset_id` adds an asset, other names are ignored.
pub open spec fn key_form_of(pairs: FormPairs) -> KeyAccessFormView
    decreases pairs.len(),
{
    if pairs.len() == 0 {
        KeyAccessFormView {
            csrf_token: Seq::empty(),
            name: Seq::empty(),
            public_key: Seq::empty(),
            asset_access_mode: Seq::empty(),
            asset_ids: Seq::empty(),
        }
    } else {
        let f = key_form_of(pairs.drop_last());
        let (k, v) = pairs.last();
        if k == "csrf_token"@ {
            KeyAccessFormView { csrf_token: v, ..f }
        } else if k == "name"@ {
            KeyAccessFormView { name: v, ..f }
        } else if k == "public_key"@ {
            KeyAccessFormView { public_key: v, ..f }
        } else if k == "asset_access_mode"@ {
            KeyAccessFormView { asset_access_mode: v, ..f }
        } else if k == "asset_id"@ {
            KeyAccessFormView { asset_ids: f.asset_ids.push(v), ..f }
        } else {
            f
        }
    }
}

/// The first check an identity form fails, if any: no CSRF token, a blank
/// name, a blank public key, no access mode.
pub open spec fn key_form_problem(f: KeyAccessFormView) -> Option<FormError> {
    if f.csrf_token.len() == 0 {
        Some(FormError::MissingCsrfToken)
    } else if trim(f.name).len() == 0 {
        Some(FormError::KeyNameRequired)
    } else if trim(f.public_key).len() == 0 {
        Some(FormError::PublicKeyRequired)
    } else if f.asset_access_mode.len() == 0 {
        Some(FormError::AccessModeRequired)
    } else {
        None
    }
}

/// Reads the SSH identity form from its pairs and checks it.
pub fn key_access_form_from_pairs(pairs: &Vec<(String, String)>) -> (r: Result<KeyAccessForm, FormError>)
    ensures
        match key_form_problem(key_form_of(pairs_view(pairs@))) {
            Some(e) => r == Err::<KeyAccessForm, FormError>(e),
            None => r matches Ok(f) && f@ == key_form_of(pairs_view(pairs@)),
        },
{
    let mut form = KeyAccessForm {
        csrf_token: String::new(),
        name: String::new(),
        public_key: String::new(),
        asset_access_mode: String::new(),
        asset_ids: Vec::new(),
    };
    let mut i: usize = 0;
    assert(pairs_view(pairs@).take(0) =~= Seq::<(Seq<char>, Seq<char>)>::empty());
    assert(form@.asset_ids =~= Seq::<Seq<char>>::empty());
    while i < pairs.len()
        invariant
            i <= pairs.len(),
            form@ == key_form_of(pairs_view(pairs@).take(i as int)),
        decreases pairs.len() - i,
    {
        let ghost pre = pairs_view(pairs@).take(i as int);
        assert(pairs_view(pairs@).take(i + 1).drop_last() =~= pre);
        assert(pairs_view(pairs@).take(i + 1).last() == (pairs@[i as int].0@, pairs@[i as int].1@));
        let (k, v) = &pairs[i];
        if str_eq(k.as_str(), "csrf_token") {
            form.csrf_token = v.clone();
        } else if str_eq(k.as_str(), "name") {
            form.name = v.clone();
        } else if str_eq(k.as_str(), "public_key") {
            form.public_key = v.clone();
        } else if str_eq(k.as_str(), "asset_access_mode") {
            form.asset_access_mode = v.clone();
        } else if str_eq(k.as_str(), "asset_id") {
            let ghost before = form.asset_ids@;
            form.asset_ids.push(v.clone());
            assert(strings_view(form.asset_ids@) =~= strings_view(before).push(v@));
        }
        i += 1;
    }
    assert(pairs_view(pairs@).take(pairs.len() as int) =~= pairs_view(pairs@));
    if form.csrf_token.as_str().is_empty() {
        return Err(FormError::MissingCsrfToken);
    }
    if trim_chars(&to_chars(form.name.as_str())).len() == 0 {
        return Err(FormError::KeyNameRequired);
    }
    if trim_chars(&to_chars(form.public_key.as_str())).len() == 0 {
        return Err(FormError::PublicKeyRequired);
    }
    if form.asset_access_mode.as_str().is_empty() {
        return Err(FormError::AccessModeRequired);
    }
    Ok(form)
}

/// Reads the SSH identity form from a raw body (`asset_id` repeats).
pub fn parse_key_access_form(body: &[u8]) -> (r: Result<KeyAccessForm, FormError>)
    ensures
        match key_form_problem(key_form_of(form_pairs_of(body@))) {
            Some(e) => r == Err::<KeyAccessForm, FormError>(e),
            None => r matches Ok(f) && f@ == key_form_of(form_pairs_of(body@)),
        },
{
    let pairs = decode_form(body);
    key_access_form_from_pairs(&pairs)
}

// ---------------------------------------------------------------------------
// Asset form
// ---------------------------------------------------------------------------

/// The asset form of the console.
#[derive(Debug, Clone, PartialEq, Eq)]
pub struct AssetForm {
    pub csrf_token: String,
    pub return_to: Option<String>,
    pub name: String,
    pub protocol: Option<String>,
    pub preset: Option<String>,
    pub hostname: String,
    pub port: i64,
    pub description: Option<String>,
    pub tags: Option<String>,
    pub credential_id: Option<String>,
}

/// An optional field kept only when it is not blank (kept as submitted).
pub open spec fn unless_blank(o: Option<Seq<char>>) -> Option<Seq<char>> {
    match o {
        Some(v) => if trim(v).len() == 0 { None } else { Some(v) },
        None => None,
    }
}

fn unless_blank_exec(o: Option<String>) -> (r: Option<String>)
    ensures
        opt_view(r) == unless_blank(opt_view(o)),
{
    match o {
        Some(v) => {
            if is_blank(&to_chars(v.as_str())) {
                None
            } else {
                Some(v)
            }
        },
        None => None,
    }
}

/// The asset an asset form describes, or nothing when its protocol, preset
/// or port is refused. The protocol defaults to SSH; only SSH assets keep a
/// credential; blank descriptions and credentials are dropped; the tags
/// field is split at commas.
pub open spec fn asset_of_form(
    protocol: Option<Seq<char>>,
    preset: Option<Seq<char>>,
    name: Seq<char>,
    hostname: Seq<char>,
    port: i64,
    description: Option<Seq<char>>,
    tags: Option<Seq<char>>,
    credential_id: Option<Seq<char>>,
) -> Option<NewAssetView> {
    let p = match protocol {
        Some(p) => p,
        None => ASSET_PROTOCOL_SSH@,
    };
    match protocol_rule(p, preset) {
        Err(_) => None,
        Ok((proto, pre)) => if !tcp_port_ok(port) {
            None
        } else {
            Some(NewAssetView {
                name,
                protocol: proto,
                preset: pre,
                hostname,
                port,
                description: unless_blank(description),
                tags: keep_tags(split_commas(or_empty(tags))),
                credential_id: if proto == ASSET_PROTOCOL_SSH@ { unless_blank(credential_id) } else { None },
            })
        },
    }
}

/// Builds the asset an asset form describes (see `asset_of_form`).
pub fn new_asset_from_form(form: AssetForm) -> (r: Option<NewAsset>)
    ensures
        match r {
            Some(a) => asset_of_form(opt_view(form.protocol), opt_view(form.preset), form.name@, form.hostname@, form.port,
                opt_view(form.description), opt_view(form.tags), opt_view(form.credential_id)) == Some(a@),
            None => asset_of_form(opt_view(form.protocol), opt_view(form.preset), form.name@, form.hostname@, form.port,
                opt_view(form.description), opt_view(form.tags), opt_view(form.credential_id)) is None,
        },
{
    let ghost spec_result = asset_of_form(opt_view(form.protocol), opt_view(form.preset), form.name@, form.hostname@,
        form.port, opt_view(form.description), opt_view(form.tags), opt_view(form.credential_id));
    let AssetForm { csrf_token: _, return_to: _, name, protocol, preset, hostname, port, description, tags, credential_id } = form;
    let requested: &str = match &protocol {
        Some(p) => p.as_str(),
        None => ASSET_PROTOCOL_SSH,
    };
    let preset_ref: Option<&str> = match &preset {
        Some(p) => Some(p.as_str()),
        None => None,
    };
    let (proto, pre) = match normalize_asset_protocol(requested, preset_ref) {
        Ok(pair) => pair,
        Err(_) => return None,
    };
    if validate_tcp_port(port).is_err() {
        return None;
    }
    let credential_id = if protocol_supports_managed_credentials(proto.as_str()) {
        unless_blank_exec(credential_id)
    } else {
        None
    };
    let asset = NewAsset {
        name,
        protocol: proto,
        preset: pre,
        hostname,
        port,
        description: unless_blank_exec(description),
        tags: parse_tags(tags),
        credential_id,
    };
    Some(asset)
}

} // verus!
