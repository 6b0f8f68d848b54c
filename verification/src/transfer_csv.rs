//! The CSV form of asset and credential transfer rows.
use vstd::prelude::*;

use crate::csv::{
    lemma_read_written_records, parse_records, push_record_chars, read_csv_records, records_view,
    render_records, row_view,
};
use crate::model::{clone_opt, opt_view, strings_view};
use crate::text::{
    all_ws, dec, dec_int, digits_value, from_chars, is_blank, is_digit, is_ws, lemma_dec_digits,
    parse_i64, parse_i64_chars, push_dec_i64, to_chars, trim, trim_chars, unsigned_part,
};
use crate::transfer::{AssetRowView, AssetTransferRow, CredentialRowView, CredentialTransferRow, TransferError};

verus! {

// ---------------------------------------------------------------------------
// Specifications
// ---------------------------------------------------------------------------

/// A character that separates tags in a tags field.
pub open spec fn is_tag_sep(c: char) -> bool {
    c == '|' || c == ','
}

/// The pieces of a text between tag separators (`str::split(['|', ','])`).
pub open spec fn split_seps(s: Seq<char>) -> Seq<Seq<char>>
    decreases s.len(),
{
    if s.len() == 0 {
        seq![Seq::empty()]
    } else {
        let p = split_seps(s.drop_last());
        if is_tag_sep(s.last()) {
            p.push(Seq::empty())
        } else {
            p.update(p.len() - 1, p.last().push(s.last()))
        }
    }
}

/// The trimmed pieces that are not empty.
pub open spec fn keep_tags(ps: Seq<Seq<char>>) -> Seq<Seq<char>>
    decreases ps.len(),
{
    if ps.len() == 0 {
        Seq::empty()
    } else {
        let r = keep_tags(ps.drop_last());
        let t = trim(ps.last());
        if t.len() > 0 {
            r.push(t)
        } else {
            r
        }
    }
}

/// The tags a tags field holds (`split_tags`).
pub open spec fn tags_of(s: Seq<char>) -> Seq<Seq<char>> {
    keep_tags(split_seps(s))
}

/// A trimmed field, or nothing when it is blank (`nonempty`).
pub open spec fn nonempty_value(v: Seq<char>) -> Option<Seq<char>> {
    if trim(v).len() == 0 {
        None
    } else {
        Some(trim(v))
    }
}

/// Texts joined with a separator (`[String]::join`).
pub open spec fn join_with(ts: Seq<Seq<char>>, sep: char) -> Seq<char>
    decreases ts.len(),
{
    if ts.len() == 0 {
        Seq::empty()
    } else if ts.len() == 1 {
        ts[0]
    } else {
        join_with(ts.drop_last(), sep) + seq![sep] + ts.last()
    }
}

/// An optional text, or the empty text.
pub open spec fn or_empty(o: Option<Seq<char>>) -> Seq<char> {
    match o {
        Some(v) => v,
        None => Seq::empty(),
    }
}

/// The header record of the asset CSV.
pub open spec fn asset_header() -> Seq<Seq<char>> {
    seq!["name"@, "hostname"@, "port"@, "description"@, "tags"@, "credential_id"@]
}

/// The record an asset row is written as.
pub open spec fn asset_record(r: AssetRowView) -> Seq<Seq<char>> {
    seq![r.name, r.hostname, dec_int(r.port as int), or_empty(r.description), join_with(r.tags, '|'), or_empty(r.credential_id)]
}

/// The header record of the credential CSV.
pub open spec fn credential_header() -> Seq<Seq<char>> {
    seq!["name"@, "username"@, "auth_type"@]
}

/// The record a credential row is written as.
pub open spec fn credential_record(r: CredentialRowView) -> Seq<Seq<char>> {
    seq![r.name, r.username, r.auth_type]
}

/// The views of asset rows.
pub open spec fn asset_rows_view(rows: Seq<AssetTransferRow>) -> Seq<AssetRowView> {
    rows.map_values(|r: AssetTransferRow| r@)
}

/// The views of credential rows.
pub open spec fn credential_rows_view(rows: Seq<CredentialTransferRow>) -> Seq<CredentialRowView> {
    rows.map_values(|r: CredentialTransferRow| r@)
}

/// The asset CSV text of some rows.
pub open spec fn asset_csv(rows: Seq<AssetRowView>) -> Seq<char> {
    render_records(seq![asset_header()] + rows.map_values(|r: AssetRowView| asset_record(r)))
}

/// The credential CSV text of some rows.
pub open spec fn credential_csv(rows: Seq<CredentialRowView>) -> Seq<char> {
    render_records(seq![credential_header()] + rows.map_values(|r: CredentialRowView| credential_record(r)))
}

/// A record whose fields are all blank; such records are passed over.
pub open spec fn blank_record(rec: Seq<Seq<char>>) -> bool {
    forall|k: int| 0 <= k < rec.len() ==> all_ws(#[trigger] rec[k])
}

/// The asset row a record of six or more fields holds, its port given.
pub open spec fn asset_row_of(rec: Seq<Seq<char>>, port: i64) -> AssetRowView {
    AssetRowView {
        name: rec[0],
        hostname: rec[1],
        port,
        description: nonempty_value(rec[3]),
        tags: tags_of(rec[4]),
        credential_id: nonempty_value(rec[5]),
    }
}

/// Prepends rows to a successful result.
pub open spec fn prepend<T>(a: Seq<T>, r: Result<Seq<T>, TransferError>) -> Result<Seq<T>, TransferError> {
    match r {
        Ok(t) => Ok(a + t),
        Err(e) => Err(e),
    }
}

/// The asset rows read from the records from index `idx` on: blank records
/// are passed over, the first short record or bad port is the error.
pub open spec fn read_asset_records(rs: Seq<Seq<Seq<char>>>, idx: nat) -> Result<Seq<AssetRowView>, TransferError>
    decreases rs.len() - idx,
{
    if idx >= rs.len() {
        Ok(Seq::empty())
    } else {
        let rec = rs[idx as int];
        if blank_record(rec) {
            read_asset_records(rs, idx + 1)
        } else if rec.len() < 6 {
            Err(TransferError::ShortRow { row: (idx + 1) as usize, fields: rec.len() as usize, expected: 6 })
        } else {
            match parse_i64(rec[2]) {
                None => Err(TransferError::InvalidPort { row: (idx + 1) as usize }),
                Some(port) => prepend(seq![asset_row_of(rec, port)], read_asset_records(rs, idx + 1)),
            }
        }
    }
}

/// The credential rows read from the records from index `idx` on.
pub open spec fn read_credential_records(rs: Seq<Seq<Seq<char>>>, idx: nat) -> Result<Seq<CredentialRowView>, TransferError>
    decreases rs.len() - idx,
{
    if idx >= rs.len() {
        Ok(Seq::empty())
    } else {
        let rec = rs[idx as int];
        if blank_record(rec) {
            read_credential_records(rs, idx + 1)
        } else if rec.len() < 3 {
            Err(TransferError::ShortRow { row: (idx + 1) as usize, fields: rec.len() as usize, expected: 3 })
        } else {
            prepend(
                seq![CredentialRowView { name: rec[0], username: rec[1], auth_type: rec[2] }],
                read_credential_records(rs, idx + 1),
            )
        }
    }
}

/// The views of a successful read.
pub open spec fn asset_result_view(r: Result<Vec<AssetTransferRow>, TransferError>) -> Result<Seq<AssetRowView>, TransferError> {
    match r {
        Ok(v) => Ok(asset_rows_view(v@)),
        Err(e) => Err(e),
    }
}

/// The views of a successful read.
pub open spec fn credential_result_view(r: Result<Vec<CredentialTransferRow>, TransferError>) -> Result<Seq<CredentialRowView>, TransferError> {
    match r {
        Ok(v) => Ok(credential_rows_view(v@)),
        Err(e) => Err(e),
    }
}

// ---------------------------------------------------------------------------
// Executable code
// ---------------------------------------------------------------------------

/// Splits a tags field on `|` and `,`, trims each piece and keeps the
/// non-empty ones.
pub fn split_tags(value: &str) -> (r: Vec<String>)
    ensures
        strings_view(r@) == tags_of(value@),
{
    let v = to_chars(value);
    let mut out: Vec<String> = Vec::new();
    let mut piece: Vec<char> = Vec::new();
    let mut i: usize = 0;
    proof {
        assert(v@.take(0) =~= Seq::<char>::empty());
    }
    while i < v.len()
        invariant
            i <= v.len(),
            split_seps(v@.take(i as int)).len() >= 1,
            piece@ == split_seps(v@.take(i as int)).last(),
            strings_view(out@) == keep_tags(split_seps(v@.take(i as int)).drop_last()),
        decreases v.len() - i,
    {
        let ghost pre = v@.take(i as int);
        assert(v@.take(i + 1).drop_last() =~= pre);
        assert(v@.take(i + 1).last() == v@[i as int]);
        let c = v[i];
        if c == '|' || c == ',' {
            let t = trim_chars(&piece);
            let ghost before = out@;
            if t.len() > 0 {
                out.push(from_chars(&t));
                assert(strings_view(out@) =~= strings_view(before).push(t@));
            }
            assert(split_seps(v@.take(i + 1)) == split_seps(pre).push(Seq::empty()));
            assert(split_seps(v@.take(i + 1)).drop_last() =~= split_seps(pre));
            assert(split_seps(pre) =~= split_seps(pre).drop_last().push(split_seps(pre).last()));
            piece = Vec::new();
        } else {
            piece.push(c);
            let ghost p = split_seps(pre);
            assert(split_seps(v@.take(i + 1)).drop_last() =~= p.drop_last());
        }
        i += 1;
    }
    assert(v@.take(v.len() as int) =~= v@);
    let t = trim_chars(&piece);
    let ghost before = out@;
    let ghost p = split_seps(v@);
    assert(p =~= p.drop_last().push(p.last()));
    if t.len() > 0 {
        out.push(from_chars(&t));
        assert(strings_view(out@) =~= strings_view(before).push(t@));
    }
    out
}

/// A trimmed value, or `None` when it is blank.
pub fn nonempty(value: String) -> (r: Option<String>)
    ensures
        opt_view(r) == nonempty_value(value@),
{
    let v = to_chars(value.as_str());
    let t = trim_chars(&v);
    if t.len() == 0 {
        None
    } else {
        Some(from_chars(&t))
    }
}

/// Fails when a record has fewer than `expected` fields.
pub fn ensure_len(record: &Vec<String>, expected: usize, idx: usize) -> (r: Result<(), TransferError>)
    requires
        idx < usize::MAX,
    ensures
        record.len() < expected ==> r == Err::<(), TransferError>(
            TransferError::ShortRow { row: (idx + 1) as usize, fields: record.len(), expected },
        ),
        record.len() >= expected ==> r is Ok,
{
    if record.len() < expected {
        return Err(TransferError::ShortRow { row: idx + 1, fields: record.len(), expected });
    }
    Ok(())
}

fn join_pipe(tags: &Vec<String>) -> (r: String)
    ensures
        r@ == join_with(strings_view(tags@), '|'),
{
    let mut out: Vec<char> = Vec::new();
    let mut i: usize = 0;
    while i < tags.len()
        invariant
            i <= tags.len(),
            out@ == join_with(strings_view(tags@.take(i as int)), '|'),
        decreases tags.len() - i,
    {
        let ghost before = out@;
        if i > 0 {
            out.push('|');
        }
        let t = to_chars(tags[i].as_str());
        crate::text::extend_chars(&mut out, &t);
        assert(strings_view(tags@.take(i + 1)).drop_last() =~= strings_view(tags@.take(i as int)));
        assert(strings_view(tags@.take(i + 1)).last() == tags@[i as int]@);
        if i == 0 {
            assert(strings_view(tags@.take(1)) =~= seq![tags@[0]@]);
            assert(out@ =~= tags@[0]@);
        } else {
            assert(out@ =~= before + seq!['|'] + tags@[i as int]@);
        }
        i += 1;
    }
    assert(tags@.take(tags.len() as int) =~= tags@);
    from_chars(&out)
}

fn str_or_empty(o: &Option<String>) -> (r: String)
    ensures
        r@ == or_empty(opt_view(*o)),
{
    match o {
        Some(s) => s.clone(),
        None => String::new(),
    }
}

fn header_record(names: &[&str]) -> (r: Vec<String>)
    ensures
        r@.len() == names@.len(),
        forall|k: int| 0 <= k < names@.len() ==> (#[trigger] r@[k])@ == names@[k]@,
{
    let mut r: Vec<String> = Vec::new();
    let mut i: usize = 0;
    while i < names.len()
        invariant
            i <= names@.len(),
            r@.len() == i,
            forall|k: int| 0 <= k < i ==> (#[trigger] r@[k])@ == names@[k]@,
        decreases names.len() - i,
    {
        r.push(names[i].to_string());
        i += 1;
    }
    r
}

/// Writes asset rows as CSV under the header
/// `name,hostname,port,description,tags,credential_id`, tags joined with `|`.
pub fn write_asset_csv(rows: &[AssetTransferRow]) -> (r: String)
    ensures
        r@ == asset_csv(asset_rows_view(rows@)),
{
    let ghost recs = seq![asset_header()] + asset_rows_view(rows@).map_values(|x: AssetRowView| asset_record(x));
    let mut out: Vec<char> = Vec::new();
    let header = header_record(&["name", "hostname", "port", "description", "tags", "credential_id"]);
    assert(row_view(header@) =~= asset_header());
    push_record_chars(&mut out, &header);
    let mut i: usize = 0;
    assert(recs.skip(1) =~= asset_rows_view(rows@).map_values(|x: AssetRowView| asset_record(x)));
    proof {
        lemma_render_records_split(recs);
    }
    while i < rows.len()
        invariant
            i <= rows@.len(),
            recs == seq![asset_header()] + asset_rows_view(rows@).map_values(|x: AssetRowView| asset_record(x)),
            out@ + render_records(recs.skip(i + 1)) == render_records(recs),
        decreases rows.len() - i,
    {
        let ghost before = out@;
        let row = &rows[i];
        let mut port: Vec<char> = Vec::new();
        push_dec_i64(&mut port, row.port);
        let fields = vec![
            row.name.clone(),
            row.hostname.clone(),
            from_chars(&port),
            str_or_empty(&row.description),
            join_pipe(&row.tags),
            str_or_empty(&row.credential_id),
        ];
        assert(row_view(fields@) =~= asset_record(row@));
        assert(recs[i + 1] == asset_record(row@));
        push_record_chars(&mut out, &fields);
        proof {
            lemma_render_records_split(recs.skip(i + 1));
            assert(recs.skip(i + 1).skip(1) =~= recs.skip(i + 2));
            assert(recs.skip(i + 1)[0] == recs[i + 1]);
        }
        i += 1;
    }
    assert(recs.skip(rows.len() + 1) =~= Seq::<Seq<Seq<char>>>::empty());
    assert(out@ =~= render_records(recs));
    from_chars(&out)
}

/// Writes credential rows as CSV under the header `name,username,auth_type`.
pub fn write_credential_csv(rows: &[CredentialTransferRow]) -> (r: String)
    ensures
        r@ == credential_csv(credential_rows_view(rows@)),
{
    let ghost recs = seq![credential_header()] + credential_rows_view(rows@).map_values(|x: CredentialRowView| credential_record(x));
    let mut out: Vec<char> = Vec::new();
    let header = header_record(&["name", "username", "auth_type"]);
    assert(row_view(header@) =~= credential_header());
    push_record_chars(&mut out, &header);
    let mut i: usize = 0;
    proof {
        lemma_render_records_split(recs);
    }
    while i < rows.len()
        invariant
            i <= rows@.len(),
            recs == seq![credential_header()] + credential_rows_view(rows@).map_values(|x: CredentialRowView| credential_record(x)),
            out@ + render_records(recs.skip(i + 1)) == render_records(recs),
        decreases rows.len() - i,
    {
        let row = &rows[i];
        let fields = vec![row.name.clone(), row.username.clone(), row.auth_type.clone()];
        assert(row_view(fields@) =~= credential_record(row@));
        assert(recs[i + 1] == credential_record(row@));
        push_record_chars(&mut out, &fields);
        proof {
            lemma_render_records_split(recs.skip(i + 1));
            assert(recs.skip(i + 1).skip(1) =~= recs.skip(i + 2));
            assert(recs.skip(i + 1)[0] == recs[i + 1]);
        }
        i += 1;
    }
    assert(recs.skip(rows.len() + 1) =~= Seq::<Seq<Seq<char>>>::empty());
    assert(out@ =~= render_records(recs));
    from_chars(&out)
}

proof fn lemma_render_records_split(rs: Seq<Seq<Seq<char>>>)
    requires
        rs.len() > 0,
    ensures
        render_records(rs) == crate::csv::render_record(rs[0]) + render_records(rs.skip(1)),
{
    assert(rs.skip(1) =~= rs.drop_first());
}

fn record_is_blank(record: &Vec<String>) -> (r: bool)
    ensures
        r == blank_record(row_view(record@)),
{
    let mut k: usize = 0;
    while k < record.len()
        invariant
            k <= record.len(),
            forall|j: int| 0 <= j < k ==> all_ws(#[trigger] row_view(record@)[j]),
        decreases record.len() - k,
    {
        let f = to_chars(record[k].as_str());
        if !is_blank(&f) {
            assert(!all_ws(row_view(record@)[k as int]));
            return false;
        }
        k += 1;
    }
    true
}

/// Reads asset rows from CSV: the first record is the header, blank records
/// are passed over, and a record needs six fields and an integer port.
pub fn read_asset_csv(input: &str) -> (r: Result<Vec<AssetTransferRow>, TransferError>)
    ensures
        asset_result_view(r) == read_asset_records(parse_records(input@), 1),
{
    let records = read_csv_records(input);
    let ghost rs = parse_records(input@);
    let mut rows: Vec<AssetTransferRow> = Vec::new();
    let mut idx: usize = 1;
    while idx < records.len()
        invariant
            1 <= idx,
            records_view(records@) == rs,
            rs == parse_records(input@),
            read_asset_records(rs, 1) == prepend(asset_rows_view(rows@), read_asset_records(rs, idx as nat)),
        decreases records.len() - idx,
    {
        let record = &records[idx];
        assert(rs[idx as int] == row_view(record@));
        if record_is_blank(record) {
            idx += 1;
            continue;
        }
        if record.len() < 6 {
            return Err(TransferError::ShortRow { row: idx + 1, fields: record.len(), expected: 6 });
        }
        let port_chars = to_chars(record[2].as_str());
        let port = match parse_i64_chars(&port_chars) {
            Some(p) => p,
            None => {
                return Err(TransferError::InvalidPort { row: idx + 1 });
            },
        };
        let row = AssetTransferRow {
            name: record[0].clone(),
            hostname: record[1].clone(),
            port,
            description: nonempty(record[3].clone()),
            tags: split_tags(record[4].as_str()),
            credential_id: nonempty(record[5].clone()),
        };
        assert(row@ == asset_row_of(rs[idx as int], port));
        let ghost before = rows@;
        rows.push(row);
        assert(asset_rows_view(rows@) =~= asset_rows_view(before) + seq![asset_row_of(rs[idx as int], port)]);
        assert(read_asset_records(rs, 1) == prepend(asset_rows_view(rows@), read_asset_records(rs, (idx + 1) as nat))) by {
            let tail = read_asset_records(rs, (idx + 1) as nat);
            match tail {
                Ok(t) => {
                    assert(asset_rows_view(before) + (seq![asset_row_of(rs[idx as int], port)] + t) =~= asset_rows_view(rows@) + t);
                },
                Err(e) => {},
            }
        }
        idx += 1;
    }
    assert(read_asset_records(rs, idx as nat) == Ok::<Seq<AssetRowView>, TransferError>(Seq::empty()));
    assert(asset_rows_view(rows@) + Seq::<AssetRowView>::empty() =~= asset_rows_view(rows@));
    Ok(rows)
}

/// Reads credential rows from CSV: the first record is the header, blank
/// records are passed over, and a record needs three fields.
pub fn read_credential_csv(input: &str) -> (r: Result<Vec<CredentialTransferRow>, TransferError>)
    ensures
        credential_result_view(r) == read_credential_records(parse_records(input@), 1),
{
    let records = read_csv_records(input);
    let ghost rs = parse_records(input@);
    let mut rows: Vec<CredentialTransferRow> = Vec::new();
    let mut idx: usize = 1;
    while idx < records.len()
        invariant
            1 <= idx,
            records_view(records@) == rs,
            rs == parse_records(input@),
            read_credential_records(rs, 1) == prepend(credential_rows_view(rows@), read_credential_records(rs, idx as nat)),
        decreases records.len() - idx,
    {
        let record = &records[idx];
        assert(rs[idx as int] == row_view(record@));
        if record_is_blank(record) {
            idx += 1;
            continue;
        }
        if record.len() < 3 {
            return Err(TransferError::ShortRow { row: idx + 1, fields: record.len(), expected: 3 });
        }
        let row = CredentialTransferRow {
            name: record[0].clone(),
            username: record[1].clone(),
            auth_type: record[2].clone(),
        };
        let ghost rv = CredentialRowView { name: rs[idx as int][0], username: rs[idx as int][1], auth_type: rs[idx as int][2] };
        assert(row@ == rv);
        let ghost before = rows@;
        rows.push(row);
        assert(credential_rows_view(rows@) =~= credential_rows_view(before) + seq![rv]);
        assert(read_credential_records(rs, 1) == prepend(credential_rows_view(rows@), read_credential_records(rs, (idx + 1) as nat))) by {
            let tail = read_credential_records(rs, (idx + 1) as nat);
            match tail {
                Ok(t) => {
                    assert(credential_rows_view(before) + (seq![rv] + t) =~= credential_rows_view(rows@) + t);
                },
                Err(e) => {},
            }
        }
        idx += 1;
    }
    assert(credential_rows_view(rows@) + Seq::<CredentialRowView>::empty() =~= credential_rows_view(rows@));
    Ok(rows)
}


// ---------------------------------------------------------------------------
// Reading back what was written
// ---------------------------------------------------------------------------

/// An optional field that reads back as written: absent, or non-empty
/// without surrounding whitespace.
pub open spec fn canonical_opt(o: Option<Seq<char>>) -> bool {
    match o {
        None => true,
        Some(v) => v.len() > 0 && trim(v) == v,
    }
}

/// A tag that reads back as written: non-empty, without surrounding
/// whitespace and without a tag separator.
pub open spec fn canonical_tag(t: Seq<char>) -> bool {
    t.len() > 0 && trim(t) == t && !t.contains('|') && !t.contains(',')
}

/// An asset row whose CSV form reads back as the same row.
pub open spec fn canonical_asset_row(r: AssetRowView) -> bool {
    &&& canonical_opt(r.description)
    &&& canonical_opt(r.credential_id)
    &&& forall|k: int| 0 <= k < r.tags.len() ==> canonical_tag(#[trigger] r.tags[k])
}

/// A credential row that is not passed over when read back: one of its
/// fields is not blank.
pub open spec fn readable_credential_row(r: CredentialRowView) -> bool {
    !(all_ws(r.name) && all_ws(r.username) && all_ws(r.auth_type))
}

proof fn lemma_digits_value_dec(n: nat)
    ensures
        digits_value(dec(n)) == n,
    decreases n,
{
    let d = n % 10;
    let c = crate::text::digit_char(d);
    assert((c as u32) == d + 48);
    if n >= 10 {
        lemma_digits_value_dec(n / 10);
        assert(dec(n).drop_last() =~= dec(n / 10));
        assert(dec(n).last() == c);
        assert(dec(n).len() > 0);
        assert(digits_value(dec(n)) == digits_value(dec(n).drop_last()) * 10 + ((dec(n).last() as u32) - 48) as nat);
        assert(digits_value(dec(n)) == (n / 10) * 10 + d);
    } else {
        assert(dec(n).drop_last() =~= Seq::<char>::empty());
        assert(dec(n).last() == c);
        assert(digits_value(dec(n)) == digits_value(dec(n).drop_last()) * 10 + ((dec(n).last() as u32) - 48) as nat);
        assert(digits_value(Seq::<char>::empty()) == 0);
    }
}

/// Parsing the decimal form of an integer gives the integer back.
pub proof fn lemma_parse_dec_int(p: i64)
    ensures
        parse_i64(dec_int(p as int)) == Some(p),
{
    if p < 0 {
        let m = (-p) as nat;
        lemma_dec_digits(m);
        lemma_digits_value_dec(m);
        let s = dec_int(p as int);
        assert(s =~= seq!['-'] + dec(m));
        assert(unsigned_part(s) =~= dec(m));
    } else {
        let n = p as nat;
        lemma_dec_digits(n);
        lemma_digits_value_dec(n);
        assert(is_digit(dec(n)[0]));
        assert(unsigned_part(dec(n)) == dec(n));
    }
}

proof fn lemma_nonempty_canonical(o: Option<Seq<char>>)
    requires
        canonical_opt(o),
    ensures
        nonempty_value(or_empty(o)) == o,
{
    if o is None {
        assert(trim(Seq::<char>::empty()) =~= Seq::<char>::empty());
    }
}

proof fn lemma_split_len(s: Seq<char>)
    ensures
        split_seps(s).len() >= 1,
    decreases s.len(),
{
    if s.len() > 0 {
        lemma_split_len(s.drop_last());
    }
}

proof fn lemma_split_plain(a: Seq<char>, c: Seq<char>)
    requires
        !c.contains('|'),
        !c.contains(','),
    ensures
        split_seps(a + c).len() == split_seps(a).len(),
        split_seps(a + c) == split_seps(a).update(split_seps(a).len() - 1, split_seps(a).last() + c),
    decreases c.len(),
{
    lemma_split_len(a);
    if c.len() == 0 {
        assert(a + c =~= a);
        assert(split_seps(a).last() + c =~= split_seps(a).last());
        assert(split_seps(a).update(split_seps(a).len() - 1, split_seps(a).last()) =~= split_seps(a));
    } else {
        let c2 = c.drop_last();
        let x = c.last();
        assert(c.contains(x));
        assert(!c2.contains('|')) by {
            if c2.contains('|') {
                let k = choose|k: int| 0 <= k < c2.len() && c2[k] == '|';
                assert(c[k] == '|');
            }
        }
        assert(!c2.contains(',')) by {
            if c2.contains(',') {
                let k = choose|k: int| 0 <= k < c2.len() && c2[k] == ',';
                assert(c[k] == ',');
            }
        }
        lemma_split_plain(a, c2);
        assert((a + c).drop_last() =~= a + c2);
        assert((a + c).last() == x);
        let pa = split_seps(a);
        let p = split_seps(a + c2);
        assert(p.last() == pa.last() + c2);
        assert((pa.last() + c2).push(x) =~= pa.last() + c);
        assert(split_seps(a + c) =~= pa.update(pa.len() - 1, pa.last() + c));
    }
}

proof fn lemma_split_join(ts: Seq<Seq<char>>)
    requires
        ts.len() >= 1,
        forall|k: int| 0 <= k < ts.len() ==> !(#[trigger] ts[k]).contains('|') && !ts[k].contains(','),
    ensures
        split_seps(join_with(ts, '|')) == ts,
    decreases ts.len(),
{
    if ts.len() == 1 {
        lemma_split_plain(Seq::empty(), ts[0]);
        assert(Seq::<char>::empty() + ts[0] =~= ts[0]);
        assert(split_seps(Seq::<char>::empty()) =~= seq![Seq::<char>::empty()]);
        assert(Seq::<char>::empty() + ts[0] =~= ts[0]);
        assert(seq![Seq::<char>::empty()].update(0, Seq::<char>::empty() + ts[0]) =~= ts);
    } else {
        let init = ts.drop_last();
        assert forall|k: int| 0 <= k < init.len() implies !(#[trigger] init[k]).contains('|') && !init[k].contains(',') by {
            assert(init[k] == ts[k]);
        }
        lemma_split_join(init);
        let j = join_with(init, '|');
        let jp = j.push('|');
        assert(jp.drop_last() =~= j);
        assert(split_seps(jp) == split_seps(j).push(Seq::empty()));
        assert(join_with(ts, '|') =~= jp + ts.last());
        lemma_split_plain(jp, ts.last());
        assert(Seq::<char>::empty() + ts.last() =~= ts.last());
        assert(init.push(Seq::<char>::empty()).update(init.len() as int, Seq::<char>::empty() + ts.last()) =~= ts);
    }
}

proof fn lemma_keep_canonical(ts: Seq<Seq<char>>)
    requires
        forall|k: int| 0 <= k < ts.len() ==> (#[trigger] ts[k]).len() > 0 && trim(ts[k]) == ts[k],
    ensures
        keep_tags(ts) == ts,
    decreases ts.len(),
{
    if ts.len() > 0 {
        let init = ts.drop_last();
        assert forall|k: int| 0 <= k < init.len() implies (#[trigger] init[k]).len() > 0 && trim(init[k]) == init[k] by {
            assert(init[k] == ts[k]);
        }
        lemma_keep_canonical(init);
        assert(ts.last() == ts[ts.len() - 1]);
        assert(init.push(ts.last()) =~= ts);
    }
}


proof fn lemma_split_seps_same_sep(a: Seq<char>, b: Seq<char>)
    ensures
        split_seps(a + seq![','] + b) == split_seps(a + seq!['|'] + b),
    decreases b.len(),
{
    if b.len() == 0 {
        let x = a + seq![','] + b;
        let y = a + seq!['|'] + b;
        assert(x.drop_last() =~= a);
        assert(y.drop_last() =~= a);
        assert(x.last() == ',');
        assert(y.last() == '|');
    } else {
        let x = a + seq![','] + b;
        let y = a + seq!['|'] + b;
        lemma_split_seps_same_sep(a, b.drop_last());
        assert(x.drop_last() =~= a + seq![','] + b.drop_last());
        assert(y.drop_last() =~= a + seq!['|'] + b.drop_last());
        assert(x.last() == b.last());
        assert(y.last() == b.last());
    }
}

proof fn lemma_split_seps_at_comma(a: Seq<char>, b: Seq<char>)
    ensures
        split_seps(a + seq![','] + b) == split_seps(a) + split_seps(b),
    decreases b.len(),
{
    let x = a + seq![','] + b;
    if b.len() == 0 {
        assert(x.drop_last() =~= a);
        assert(x.last() == ',');
        assert(split_seps(b) =~= seq![Seq::<char>::empty()]);
        assert(split_seps(a).push(Seq::empty()) =~= split_seps(a) + split_seps(b));
    } else {
        lemma_split_seps_at_comma(a, b.drop_last());
        assert(x.drop_last() =~= a + seq![','] + b.drop_last());
        assert(x.last() == b.last());
        let pb = split_seps(b.drop_last());
        lemma_split_seps_nonempty(b.drop_last());
        let pa = split_seps(a);
        if is_tag_sep(b.last()) {
            assert((pa + pb).push(Seq::empty()) =~= pa + pb.push(Seq::empty()));
        } else {
            assert((pa + pb).update((pa + pb).len() - 1, (pa + pb).last().push(b.last()))
                =~= pa + pb.update(pb.len() - 1, pb.last().push(b.last())));
        }
    }
}

proof fn lemma_split_seps_nonempty(s: Seq<char>)
    ensures
        split_seps(s).len() >= 1,
    decreases s.len(),
{
    if s.len() > 0 {
        lemma_split_seps_nonempty(s.drop_last());
    }
}

proof fn lemma_keep_tags_concat(p: Seq<Seq<char>>, q: Seq<Seq<char>>)
    ensures
        keep_tags(p + q) == keep_tags(p) + keep_tags(q),
    decreases q.len(),
{
    if q.len() == 0 {
        assert(p + q =~= p);
        assert(keep_tags(p) + keep_tags(q) =~= keep_tags(p));
    } else {
        lemma_keep_tags_concat(p, q.drop_last());
        assert((p + q).drop_last() =~= p + q.drop_last());
        assert((p + q).last() == q.last());
        if trim(q.last()).len() > 0 {
            assert((keep_tags(p) + keep_tags(q.drop_last())).push(trim(q.last()))
                =~= keep_tags(p) + keep_tags(q.drop_last()).push(trim(q.last())));
        }
    }
}

/// A comma between two parts of a tags field separates their tags: the
/// field holds the tags of the first part followed by those of the second.
pub proof fn lemma_comma_splits_tags(a: Seq<char>, b: Seq<char>)
    ensures
        tags_of(a + seq![','] + b) == tags_of(a) + tags_of(b),
{
    lemma_split_seps_at_comma(a, b);
    lemma_keep_tags_concat(split_seps(a), split_seps(b));
}

proof fn lemma_blank_pieces(s: Seq<char>)
    requires
        forall|i: int| 0 <= i < s.len() ==> is_tag_sep(#[trigger] s[i]) || is_ws(s[i]),
    ensures
        forall|k: int| 0 <= k < split_seps(s).len() ==> all_ws(#[trigger] split_seps(s)[k]),
    decreases s.len(),
{
    if s.len() > 0 {
        let t = s.drop_last();
        assert forall|i: int| 0 <= i < t.len() implies is_tag_sep(#[trigger] t[i]) || is_ws(t[i]) by {
            assert(t[i] == s[i]);
        }
        lemma_blank_pieces(t);
        lemma_split_seps_nonempty(t);
        let p = split_seps(t);
        let c = s.last();
        assert(is_tag_sep(c) || is_ws(s[s.len() - 1]));
        if !is_tag_sep(c) {
            let last = p.last().push(c);
            assert(all_ws(p[p.len() - 1]));
            assert forall|j: int| 0 <= j < last.len() implies is_ws(#[trigger] last[j]) by {
                if j < last.len() - 1 {
                    assert(last[j] == p[p.len() - 1][j]);
                }
            }
            let q = p.update(p.len() - 1, last);
            assert forall|k: int| 0 <= k < q.len() implies all_ws(#[trigger] q[k]) by {
                if k < q.len() - 1 {
                    assert(q[k] == p[k]);
                }
            }
        } else {
            let q = p.push(Seq::<char>::empty());
            assert forall|k: int| 0 <= k < q.len() implies all_ws(#[trigger] q[k]) by {
                if k < q.len() - 1 {
                    assert(q[k] == p[k]);
                }
            }
        }
    }
}

proof fn lemma_keep_blank(ps: Seq<Seq<char>>)
    requires
        forall|k: int| 0 <= k < ps.len() ==> all_ws(#[trigger] ps[k]),
    ensures
        keep_tags(ps) == Seq::<Seq<char>>::empty(),
    decreases ps.len(),
{
    if ps.len() > 0 {
        assert forall|k: int| 0 <= k < ps.drop_last().len() implies all_ws(#[trigger] ps.drop_last()[k]) by {
            assert(ps.drop_last()[k] == ps[k]);
        }
        lemma_keep_blank(ps.drop_last());
        crate::text::lemma_trim_empty_iff_all_ws(ps.last());
        assert(all_ws(ps[ps.len() - 1]));
    }
}

/// A tags field made only of separators and whitespace holds no tag: empty
/// pieces are dropped.
pub proof fn lemma_blank_field_has_no_tags(s: Seq<char>)
    requires
        forall|i: int| 0 <= i < s.len() ==> is_tag_sep(#[trigger] s[i]) || is_ws(s[i]),
    ensures
        tags_of(s) == Seq::<Seq<char>>::empty(),
{
    lemma_blank_pieces(s);
    lemma_keep_blank(split_seps(s));
}

/// A comma separates tags just as `|` does: a tags field reads the same
/// tags whichever of the two stands between two parts.
pub proof fn lemma_comma_separates_tags(a: Seq<char>, b: Seq<char>)
    ensures
        tags_of(a + seq![','] + b) == tags_of(a + seq!['|'] + b),
{
    lemma_split_seps_same_sep(a, b);
}

/// Tags written with `|` read back as the same tags when each is canonical.
pub proof fn lemma_tags_round_trip(ts: Seq<Seq<char>>)
    requires
        forall|k: int| 0 <= k < ts.len() ==> canonical_tag(#[trigger] ts[k]),
    ensures
        tags_of(join_with(ts, '|')) == ts,
{
    if ts.len() == 0 {
        assert(split_seps(Seq::<char>::empty()) =~= seq![Seq::<char>::empty()]);
        assert(trim(Seq::<char>::empty()) =~= Seq::<char>::empty());
        let one = seq![Seq::<char>::empty()];
        assert(one.drop_last() =~= Seq::<Seq<char>>::empty());
        assert(one.last() =~= Seq::<char>::empty());
        assert(trim(one.last()).len() == 0);
        assert(keep_tags(one.drop_last()) =~= Seq::<Seq<char>>::empty());
        assert(keep_tags(one) =~= ts);
    } else {
        assert forall|k: int| 0 <= k < ts.len() implies !(#[trigger] ts[k]).contains('|') && !ts[k].contains(',') by {
            assert(canonical_tag(ts[k]));
        }
        lemma_split_join(ts);
        assert forall|k: int| 0 <= k < ts.len() implies (#[trigger] ts[k]).len() > 0 && trim(ts[k]) == ts[k] by {
            assert(canonical_tag(ts[k]));
        }
        lemma_keep_canonical(ts);
    }
}

proof fn lemma_asset_records_suffix(rows: Seq<AssetRowView>, recs: Seq<Seq<Seq<char>>>, k: int)
    requires
        0 <= k <= rows.len(),
        recs == seq![asset_header()] + rows.map_values(|r: AssetRowView| asset_record(r)),
        forall|j: int| 0 <= j < rows.len() ==> canonical_asset_row(#[trigger] rows[j]),
    ensures
        read_asset_records(recs, (k + 1) as nat) == Ok::<Seq<AssetRowView>, TransferError>(rows.skip(k)),
    decreases rows.len() - k,
{
    if k == rows.len() {
        assert(rows.skip(k) =~= Seq::<AssetRowView>::empty());
    } else {
        let r = rows[k];
        let rec = recs[k + 1];
        assert(rec == asset_record(r));
        assert(canonical_asset_row(r));
        let port_text = dec_int(r.port as int);
        assert(rec[2] == port_text);
        assert(!all_ws(port_text)) by {
            if r.port < 0 {
                assert(port_text[0] == '-');
            } else {
                lemma_dec_digits(r.port as nat);
                assert(is_digit(port_text[0]));
            }
            assert(!is_ws(port_text[0]));
        }
        assert(!blank_record(rec));
        lemma_parse_dec_int(r.port);
        lemma_nonempty_canonical(r.description);
        lemma_nonempty_canonical(r.credential_id);
        lemma_tags_round_trip(r.tags);
        assert(asset_row_of(rec, r.port) == r);
        lemma_asset_records_suffix(rows, recs, k + 1);
        assert(seq![r] + rows.skip(k + 1) =~= rows.skip(k));
    }
}

/// Reading the CSV that `write_asset_csv` writes gives back the same rows,
/// for rows whose optional fields and tags are canonical (what the reader
/// trims, splits or drops is not there to lose).
pub proof fn lemma_asset_csv_round_trip(rows: Seq<AssetRowView>)
    requires
        forall|j: int| 0 <= j < rows.len() ==> canonical_asset_row(#[trigger] rows[j]),
    ensures
        read_asset_records(parse_records(asset_csv(rows)), 1) == Ok::<Seq<AssetRowView>, TransferError>(rows),
{
    let recs = seq![asset_header()] + rows.map_values(|r: AssetRowView| asset_record(r));
    assert forall|k: int| 0 <= k < recs.len() implies (#[trigger] recs[k]).len() >= 1 by {
        if k > 0 {
            assert(recs[k] == asset_record(rows[k - 1]));
        }
    }
    lemma_read_written_records(recs);
    lemma_asset_records_suffix(rows, recs, 0);
    assert(rows.skip(0) =~= rows);
}

proof fn lemma_credential_records_suffix(rows: Seq<CredentialRowView>, recs: Seq<Seq<Seq<char>>>, k: int)
    requires
        0 <= k <= rows.len(),
        recs == seq![credential_header()] + rows.map_values(|r: CredentialRowView| credential_record(r)),
        forall|j: int| 0 <= j < rows.len() ==> readable_credential_row(#[trigger] rows[j]),
    ensures
        read_credential_records(recs, (k + 1) as nat) == Ok::<Seq<CredentialRowView>, TransferError>(rows.skip(k)),
    decreases rows.len() - k,
{
    if k == rows.len() {
        assert(rows.skip(k) =~= Seq::<CredentialRowView>::empty());
    } else {
        let r = rows[k];
        let rec = recs[k + 1];
        assert(rec == credential_record(r));
        assert(readable_credential_row(r));
        assert(!blank_record(rec)) by {
            if blank_record(rec) {
                assert(all_ws(rec[0]));
                assert(all_ws(rec[1]));
                assert(all_ws(rec[2]));
            }
        }
        lemma_credential_records_suffix(rows, recs, k + 1);
        assert(seq![r] + rows.skip(k + 1) =~= rows.skip(k));
    }
}

/// Reading the CSV that `write_credential_csv` writes gives back the same
/// rows, for rows that are not blank in every field.
pub proof fn lemma_credential_csv_round_trip(rows: Seq<CredentialRowView>)
    requires
        forall|j: int| 0 <= j < rows.len() ==> readable_credential_row(#[trigger] rows[j]),
    ensures
        read_credential_records(parse_records(credential_csv(rows)), 1) == Ok::<Seq<CredentialRowView>, TransferError>(rows),
{
    let recs = seq![credential_header()] + rows.map_values(|r: CredentialRowView| credential_record(r));
    assert forall|k: int| 0 <= k < recs.len() implies (#[trigger] recs[k]).len() >= 1 by {
        if k > 0 {
            assert(recs[k] == credential_record(rows[k - 1]));
        }
    }
    lemma_read_written_records(recs);
    lemma_credential_records_suffix(rows, recs, 0);
    assert(rows.skip(0) =~= rows);
}

// ---------------------------------------------------------------------------
// Exports
// ---------------------------------------------------------------------------

/// The transfer row of an asset: its name, address, description, tags and
/// credential.
pub open spec fn row_of_asset(a: crate::model::AssetView) -> AssetRowView {
    AssetRowView {
        name: a.name,
        hostname: a.hostname,
        port: a.port,
        description: a.description,
        tags: a.tags,
        credential_id: a.credential_id,
    }
}

/// The transfer row of a credential: no secret field.
pub open spec fn row_of_credential(c: crate::model::CredentialView) -> CredentialRowView {
    CredentialRowView { name: c.name, username: c.username, auth_type: c.auth_type }
}

/// A credential export does not depend on the stored secrets: credentials
/// that agree in name, username and auth type export to the same text.
pub proof fn lemma_credential_export_ignores_secrets(a: Seq<crate::model::Credential>, b: Seq<crate::model::Credential>)
    requires
        a.len() == b.len(),
        forall|i: int| 0 <= i < a.len() ==> (#[trigger] a[i]).name@ == b[i].name@ && a[i].username@ == b[i].username@
            && a[i].auth_type@ == b[i].auth_type@,
    ensures
        credential_csv(a.map_values(|c: crate::model::Credential| row_of_credential(c@)))
            == credential_csv(b.map_values(|c: crate::model::Credential| row_of_credential(c@))),
{
    assert(a.map_values(|c: crate::model::Credential| row_of_credential(c@)) =~= b.map_values(
        |c: crate::model::Credential| row_of_credential(c@),
    ));
}

/// The assets as CSV transfer rows.
pub fn export_assets_csv(assets: &[crate::model::Asset]) -> (r: String)
    ensures
        r@ == asset_csv(crate::asset_search::assets_view(assets@).map_values(|a: crate::model::AssetView| row_of_asset(a))),
{
    let mut rows: Vec<AssetTransferRow> = Vec::new();
    let mut i: usize = 0;
    while i < assets.len()
        invariant
            i <= assets.len(),
            asset_rows_view(rows@) == crate::asset_search::assets_view(assets@).take(i as int).map_values(|a: crate::model::AssetView| row_of_asset(a)),
        decreases assets.len() - i,
    {
        let a = assets[i].clone();
        let ghost av = a@;
        let row = AssetTransferRow::from(a);
        assert(row@ == row_of_asset(av));
        assert(av == assets@[i as int]@);
        let ghost before = rows@;
        rows.push(row);
        assert(asset_rows_view(rows@) =~= asset_rows_view(before).push(row_of_asset(av)));
        assert(asset_rows_view(rows@) =~= crate::asset_search::assets_view(assets@).take(i + 1).map_values(|a: crate::model::AssetView| row_of_asset(a)));
        i += 1;
    }
    assert(crate::asset_search::assets_view(assets@).take(assets.len() as int) =~= crate::asset_search::assets_view(assets@));
    write_asset_csv(rows.as_slice())
}

/// The credentials as CSV transfer rows (names, usernames, auth types only).
pub fn export_credentials_csv(credentials: &[crate::model::Credential]) -> (r: String)
    ensures
        r@ == credential_csv(credentials@.map_values(|c: crate::model::Credential| row_of_credential(c@))),
{
    let mut rows: Vec<CredentialTransferRow> = Vec::new();
    let mut i: usize = 0;
    while i < credentials.len()
        invariant
            i <= credentials.len(),
            credential_rows_view(rows@) == credentials@.take(i as int).map_values(|c: crate::model::Credential| row_of_credential(c@)),
        decreases credentials.len() - i,
    {
        let c = credentials[i].clone();
        let ghost cv = c@;
        let row = CredentialTransferRow::from(c);
        assert(row@ == row_of_credential(cv));
        let ghost before = rows@;
        rows.push(row);
        assert(credential_rows_view(rows@) =~= credential_rows_view(before).push(row_of_credential(cv)));
        assert(credential_rows_view(rows@) =~= credentials@.take(i + 1).map_values(|c: crate::model::Credential| row_of_credential(c@)));
        i += 1;
    }
    assert(credentials@.take(credentials.len() as int) =~= credentials@);
    write_credential_csv(rows.as_slice())
}

} // verus!
