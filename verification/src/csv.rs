//! The small CSV dialect used by asset and credential import/export:
//! fields are separated by `,`, records end with `\n`, a field holding `,`,
//! `"`, `\n` or `\r` is written in double quotes with inner quotes doubled,
//! and a `\r` outside quotes is ignored when reading.
use vstd::prelude::*;

use crate::text::{extend_chars, from_chars, has_char, to_chars};

verus! {

// ---------------------------------------------------------------------------
// Writing
// ---------------------------------------------------------------------------

/// A field that must be quoted when written.
pub open spec fn needs_quotes(f: Seq<char>) -> bool {
    f.contains(',') || f.contains('"') || f.contains('\n') || f.contains('\r')
}

/// The field with every `"` doubled.
pub open spec fn double_quotes(f: Seq<char>) -> Seq<char>
    decreases f.len(),
{
    if f.len() == 0 {
        Seq::empty()
    } else {
        (if f[0] == '"' { seq!['"', '"'] } else { seq![f[0]] }) + double_quotes(f.drop_first())
    }
}

/// A field as it is written (`escape_csv_field`).
pub open spec fn escape_field(f: Seq<char>) -> Seq<char> {
    if needs_quotes(f) {
        seq!['"'] + double_quotes(f) + seq!['"']
    } else {
        f
    }
}

/// The fields of a record written one after another, separated by `,`.
pub open spec fn join_fields(fs: Seq<Seq<char>>) -> Seq<char>
    decreases fs.len(),
{
    if fs.len() == 0 {
        Seq::empty()
    } else if fs.len() == 1 {
        escape_field(fs[0])
    } else {
        escape_field(fs[0]) + seq![','] + join_fields(fs.drop_first())
    }
}

/// A record as it is written (`push_csv_row`): its fields and a `\n`.
pub open spec fn render_record(fs: Seq<Seq<char>>) -> Seq<char> {
    join_fields(fs) + seq!['\n']
}

/// A sequence of records as it is written.
pub open spec fn render_records(rs: Seq<Seq<Seq<char>>>) -> Seq<char>
    decreases rs.len(),
{
    if rs.len() == 0 {
        Seq::empty()
    } else {
        render_record(rs[0]) + render_records(rs.drop_first())
    }
}

/// Records written with Windows line ends: each record's fields, then
/// `\r\n`.
pub open spec fn render_records_crlf(rs: Seq<Seq<Seq<char>>>) -> Seq<char>
    decreases rs.len(),
{
    if rs.len() == 0 {
        Seq::empty()
    } else {
        join_fields(rs[0]) + seq!['\r', '\n'] + render_records_crlf(rs.drop_first())
    }
}

// ---------------------------------------------------------------------------
// Reading
// ---------------------------------------------------------------------------

/// The state of the reader after a prefix of the input.
pub struct ScanState {
    pub records: Seq<Seq<Seq<char>>>,
    pub row: Seq<Seq<char>>,
    pub field: Seq<char>,
    pub quoted: bool,
}

/// The reader's state before any input.
pub open spec fn scan_start() -> ScanState {
    ScanState { records: Seq::empty(), row: Seq::empty(), field: Seq::empty(), quoted: false }
}

/// The reader run over `input` from state `st` (`read_csv_records`' loop).
pub open spec fn scan(input: Seq<char>, st: ScanState) -> ScanState
    decreases input.len(),
{
    if input.len() == 0 {
        st
    } else {
        let ch = input[0];
        let rest = input.drop_first();
        if ch == '"' && st.quoted && rest.len() > 0 && rest[0] == '"' {
            scan(rest.drop_first(), ScanState { field: st.field.push('"'), ..st })
        } else if ch == '"' {
            scan(rest, ScanState { quoted: !st.quoted, ..st })
        } else if ch == ',' && !st.quoted {
            scan(rest, ScanState { row: st.row.push(st.field), field: Seq::empty(), ..st })
        } else if ch == '\n' && !st.quoted {
            scan(
                rest,
                ScanState {
                    records: st.records.push(st.row.push(st.field)),
                    row: Seq::empty(),
                    field: Seq::empty(),
                    ..st
                },
            )
        } else if ch == '\r' && !st.quoted {
            scan(rest, st)
        } else {
            scan(rest, ScanState { field: st.field.push(ch), ..st })
        }
    }
}

/// The records once the input is exhausted: a pending field or row becomes
/// a last record.
pub open spec fn scan_finish(st: ScanState) -> Seq<Seq<Seq<char>>> {
    if st.field.len() > 0 || st.row.len() > 0 {
        st.records.push(st.row.push(st.field))
    } else {
        st.records
    }
}

/// The records read from a CSV text.
pub open spec fn parse_records(input: Seq<char>) -> Seq<Seq<Seq<char>>> {
    scan_finish(scan(input, scan_start()))
}

/// The character view of a record of owned strings.
pub open spec fn row_view(r: Seq<String>) -> Seq<Seq<char>> {
    r.map_values(|f: String| f@)
}

/// The character view of a sequence of records.
pub open spec fn records_view(rs: Seq<Vec<String>>) -> Seq<Seq<Seq<char>>> {
    rs.map_values(|r: Vec<String>| row_view(r@))
}

// ---------------------------------------------------------------------------
// Executable code
// ---------------------------------------------------------------------------

/// Writes one field, quoting it when it holds `,`, `"`, `\n` or `\r`.
pub fn escape_csv_field(field: &str) -> (r: String)
    ensures
        r@ == escape_field(field@),
{
    let v = to_chars(field);
    let e = escape_chars(&v);
    from_chars(&e)
}

fn escape_chars(v: &Vec<char>) -> (r: Vec<char>)
    ensures
        r@ == escape_field(v@),
{
    let quote = has_char(v, ',') || has_char(v, '"') || has_char(v, '\n') || has_char(v, '\r');
    if !quote {
        return v.clone();
    }
    let mut out: Vec<char> = Vec::new();
    out.push('"');
    let mut i: usize = 0;
    assert(v@.skip(0) =~= v@);
    while i < v.len()
        invariant
            i <= v.len(),
            out@ + double_quotes(v@.skip(i as int)) + seq!['"'] == seq!['"'] + double_quotes(v@) + seq!['"'],
        decreases v.len() - i,
    {
        let ghost before = out@;
        assert(v@.skip(i as int).drop_first() =~= v@.skip(i + 1));
        if v[i] == '"' {
            out.push('"');
            out.push('"');
        } else {
            out.push(v[i]);
        }
        assert(before + double_quotes(v@.skip(i as int)) =~= out@ + double_quotes(v@.skip(i + 1)));
        i += 1;
    }
    out.push('"');
    assert(v@.skip(v.len() as int) =~= Seq::<char>::empty());
    assert(out@ =~= seq!['"'] + double_quotes(v@) + seq!['"']);
    out
}

proof fn lemma_join_fields_push(fs: Seq<Seq<char>>, f: Seq<char>)
    requires
        fs.len() > 0,
    ensures
        join_fields(fs.push(f)) == join_fields(fs) + seq![','] + escape_field(f),
    decreases fs.len(),
{
    if fs.len() == 1 {
        assert(fs.push(f).drop_first() =~= seq![f]);
        assert(join_fields(seq![f]) == escape_field(f));
    } else {
        lemma_join_fields_push(fs.drop_first(), f);
        assert(fs.push(f).drop_first() =~= fs.drop_first().push(f));
        assert(join_fields(fs.push(f)) =~= join_fields(fs) + seq![','] + escape_field(f));
    }
}

/// Appends one record: the escaped fields separated by `,`, then `\n`.
pub fn push_csv_row(output: &mut String, fields: &Vec<String>)
    ensures
        final(output)@ == old(output)@ + render_record(row_view(fields@)),
{
    let mut out = to_chars_owned(output);
    push_record_chars(&mut out, fields);
    *output = from_chars(&out);
}

fn to_chars_owned(s: &String) -> (v: Vec<char>)
    ensures
        v@ == s@,
{
    to_chars(s.as_str())
}

/// Appends a rendered record to a character buffer.
pub fn push_record_chars(out: &mut Vec<char>, fields: &Vec<String>)
    ensures
        final(out)@ == old(out)@ + render_record(row_view(fields@)),
{
    let ghost start = out@;
    let mut i: usize = 0;
    while i < fields.len()
        invariant
            i <= fields.len(),
            out@ == start + join_fields(row_view(fields@.take(i as int))),
        decreases fields.len() - i,
    {
        let ghost before = out@;
        if i > 0 {
            out.push(',');
        }
        let f = to_chars(fields[i].as_str());
        let e = escape_chars(&f);
        extend_chars(out, &e);
        proof {
            assert(row_view(fields@.take(i + 1)) =~= row_view(fields@.take(i as int)).push(fields@[i as int]@));
            if i > 0 {
                lemma_join_fields_push(row_view(fields@.take(i as int)), fields@[i as int]@);
                assert(out@ =~= start + join_fields(row_view(fields@.take(i + 1))));
            } else {
                assert(row_view(fields@.take(1)) =~= seq![fields@[0]@]);
                assert(out@ =~= start + join_fields(row_view(fields@.take(i + 1))));
            }
        }
        i += 1;
    }
    out.push('\n');
    assert(fields@.take(fields.len() as int) =~= fields@);
    assert(out@ =~= start + render_record(row_view(fields@)));
}

/// Renders a sequence of records.
pub fn write_records(records: &Vec<Vec<String>>) -> (r: String)
    ensures
        r@ == render_records(records_view(records@)),
{
    let mut out: Vec<char> = Vec::new();
    let mut i: usize = 0;
    assert(records@.skip(0) =~= records@);
    while i < records.len()
        invariant
            i <= records.len(),
            out@ + render_records(records_view(records@.skip(i as int))) == render_records(records_view(records@)),
        decreases records.len() - i,
    {
        let ghost before = out@;
        assert(records_view(records@.skip(i as int)).drop_first() =~= records_view(records@.skip(i + 1)));
        assert(records_view(records@.skip(i as int))[0] == row_view(records@[i as int]@));
        push_record_chars(&mut out, &records[i]);
        assert(before + render_records(records_view(records@.skip(i as int))) =~= out@ + render_records(records_view(records@.skip(i + 1))));
        i += 1;
    }
    assert(records_view(records@.skip(records.len() as int)) =~= Seq::<Seq<Seq<char>>>::empty());
    assert(out@ =~= render_records(records_view(records@)));
    from_chars(&out)
}

/// Splits a CSV text into records of fields (`read_csv_records`).
pub fn read_csv_records(input: &str) -> (r: Vec<Vec<String>>)
    ensures
        records_view(r@) == parse_records(input@),
{
    let chars = to_chars(input);
    let mut records: Vec<Vec<String>> = Vec::new();
    let mut row: Vec<String> = Vec::new();
    let mut field: Vec<char> = Vec::new();
    let mut quoted = false;
    let mut i: usize = 0;
    assert(chars@.skip(0) =~= chars@);
    assert(records_view(records@) =~= Seq::<Seq<Seq<char>>>::empty());
    assert(row_view(row@) =~= Seq::<Seq<char>>::empty());
    while i < chars.len()
        invariant
            i <= chars.len(),
            scan(chars@.skip(i as int), ScanState { records: records_view(records@), row: row_view(row@), field: field@, quoted })
                == scan(chars@, scan_start()),
        decreases chars.len() - i,
    {
        let ghost st = ScanState { records: records_view(records@), row: row_view(row@), field: field@, quoted };
        let ghost rest = chars@.skip(i as int);
        assert(rest.drop_first() =~= chars@.skip(i + 1));
        let ch = chars[i];
        if ch == '"' && quoted && i + 1 < chars.len() && chars[i + 1] == '"' {
            field.push('"');
            assert(rest.drop_first().drop_first() =~= chars@.skip(i + 2));
            i += 2;
        } else if ch == '"' {
            quoted = !quoted;
            i += 1;
        } else if ch == ',' && !quoted {
            let f = from_chars(&field);
            row.push(f);
            field = Vec::new();
            assert(row_view(row@) =~= st.row.push(st.field));
            i += 1;
        } else if ch == '\n' && !quoted {
            let f = from_chars(&field);
            row.push(f);
            let mut done: Vec<String> = Vec::new();
            std::mem::swap(&mut done, &mut row);
            assert(row_view(done@) =~= st.row.push(st.field));
            let ghost before = records@;
            records.push(done);
            assert(records_view(records@) =~= records_view(before).push(row_view(done@)));
            field = Vec::new();
            assert(row_view(row@) =~= Seq::<Seq<char>>::empty());
            assert(records_view(records@) =~= st.records.push(st.row.push(st.field)));
            i += 1;
        } else if ch == '\r' && !quoted {
            i += 1;
        } else {
            field.push(ch);
            i += 1;
        }
    }
    assert(chars@.skip(i as int) =~= Seq::<char>::empty());
    if field.len() > 0 || row.len() > 0 {
        let f = from_chars(&field);
        let ghost pre_row = row@;
        row.push(f);
        assert(row_view(row@) =~= row_view(pre_row).push(field@));
        let ghost old_records = records@;
        let ghost last = row@;
        records.push(row);
        assert(records_view(records@) =~= records_view(old_records).push(row_view(last)));
        assert(records_view(records@) =~= scan_finish(scan(chars@, scan_start())));
    } else {
        assert(records_view(records@) =~= scan_finish(scan(chars@, scan_start())));
    }
    records
}

// ---------------------------------------------------------------------------
// Reading back what was written
// ---------------------------------------------------------------------------

proof fn lemma_scan_plain(f: Seq<char>, rest: Seq<char>, st: ScanState)
    requires
        !st.quoted,
        !needs_quotes(f),
    ensures
        scan(f + rest, st) == scan(rest, ScanState { field: st.field + f, ..st }),
    decreases f.len(),
{
    if f.len() == 0 {
        assert(f + rest =~= rest);
        assert(st.field + f =~= st.field);
    } else {
        let c = f[0];
        assert((f + rest)[0] == c);
        assert((f + rest).drop_first() =~= f.drop_first() + rest);
        assert(c != ',' && c != '"' && c != '\n' && c != '\r') by {
            assert(f.contains(c));
        }
        assert(!needs_quotes(f.drop_first())) by {
            if f.drop_first().contains(',') {
                let k = choose|k: int| 0 <= k < f.drop_first().len() && f.drop_first()[k] == ',';
                assert(f[k + 1] == ',');
            }
            if f.drop_first().contains('"') {
                let k = choose|k: int| 0 <= k < f.drop_first().len() && f.drop_first()[k] == '"';
                assert(f[k + 1] == '"');
            }
            if f.drop_first().contains('\n') {
                let k = choose|k: int| 0 <= k < f.drop_first().len() && f.drop_first()[k] == '\n';
                assert(f[k + 1] == '\n');
            }
            if f.drop_first().contains('\r') {
                let k = choose|k: int| 0 <= k < f.drop_first().len() && f.drop_first()[k] == '\r';
                assert(f[k + 1] == '\r');
            }
        }
        let st2 = ScanState { field: st.field.push(c), ..st };
        lemma_scan_plain(f.drop_first(), rest, st2);
        assert(st2.field + f.drop_first() =~= st.field + f);
    }
}

proof fn lemma_scan_doubled(f: Seq<char>, rest: Seq<char>, st: ScanState)
    requires
        st.quoted,
        rest.len() >= 2,
        rest[0] == '"',
        rest[1] != '"',
    ensures
        scan(double_quotes(f) + rest, st) == scan(rest, ScanState { field: st.field + f, ..st }),
    decreases f.len(),
{
    if f.len() == 0 {
        assert(double_quotes(f) + rest =~= rest);
        assert(st.field + f =~= st.field);
    } else {
        let c = f[0];
        let tail = double_quotes(f.drop_first()) + rest;
        let st2 = ScanState { field: st.field.push(c), ..st };
        lemma_scan_doubled(f.drop_first(), rest, st2);
        assert(st2.field + f.drop_first() =~= st.field + f);
        if c == '"' {
            let input = seq!['"', '"'] + tail;
            assert(double_quotes(f) + rest =~= input);
            assert(input[0] == '"');
            assert(input.drop_first()[0] == '"');
            assert(input.drop_first().drop_first() =~= tail);
        } else {
            let input = seq![c] + tail;
            assert(double_quotes(f) + rest =~= input);
            assert(input[0] == c);
            assert(input.drop_first() =~= tail);
            if tail.len() > 0 && c == '"' {
                assert(false);
            }
        }
    }
}

proof fn lemma_scan_field(f: Seq<char>, rest: Seq<char>, st: ScanState)
    requires
        !st.quoted,
        st.field.len() == 0,
        rest.len() >= 1,
        rest[0] == ',' || rest[0] == '\n' || rest[0] == '\r',
    ensures
        scan(escape_field(f) + rest, st) == scan(rest, ScanState { field: f, ..st }),
{
    if needs_quotes(f) {
        let input = seq!['"'] + (double_quotes(f) + (seq!['"'] + rest));
        assert(escape_field(f) + rest =~= input);
        assert(input[0] == '"');
        assert(input.drop_first() =~= double_quotes(f) + (seq!['"'] + rest));
        let st_open = ScanState { quoted: true, ..st };
        lemma_scan_doubled(f, seq!['"'] + rest, st_open);
        let st_in = ScanState { field: st.field + f, ..st_open };
        let tail = seq!['"'] + rest;
        assert(tail[0] == '"');
        assert(tail.drop_first() =~= rest);
        assert(st.field + f =~= f);
    } else {
        lemma_scan_plain(f, rest, st);
        assert(st.field + f =~= f);
    }
}

proof fn lemma_scan_fields(fs: Seq<Seq<char>>, rest: Seq<char>, st: ScanState)
    requires
        !st.quoted,
        st.field.len() == 0,
        fs.len() >= 1,
    ensures
        (scan(join_fields(fs) + seq!['\n'] + rest, st) == scan(
            rest,
            ScanState { records: st.records.push(st.row + fs), row: Seq::empty(), field: Seq::empty(), quoted: false },
        )),
    decreases fs.len(),
{
    let f = fs[0];
    if fs.len() == 1 {
        let after = seq!['\n'] + rest;
        assert(join_fields(fs) + seq!['\n'] + rest =~= escape_field(f) + after);
        lemma_scan_field(f, after, st);
        let st2 = ScanState { field: f, ..st };
        assert(after[0] == '\n');
        assert(after.drop_first() =~= rest);
        assert(st.row.push(f) =~= st.row + fs);
    } else {
        let after = seq![','] + (join_fields(fs.drop_first()) + seq!['\n'] + rest);
        assert(join_fields(fs) + seq!['\n'] + rest =~= escape_field(f) + after);
        lemma_scan_field(f, after, st);
        assert(after[0] == ',');
        assert(after.drop_first() =~= join_fields(fs.drop_first()) + seq!['\n'] + rest);
        let st3 = ScanState { row: st.row.push(f), field: Seq::empty(), ..st };
        lemma_scan_fields(fs.drop_first(), rest, st3);
        assert(st.row.push(f) + fs.drop_first() =~= st.row + fs);
    }
}

proof fn lemma_scan_records(rs: Seq<Seq<Seq<char>>>, st: ScanState)
    requires
        !st.quoted,
        st.field.len() == 0,
        st.row.len() == 0,
        forall|k: int| 0 <= k < rs.len() ==> (#[trigger] rs[k]).len() >= 1,
    ensures
        (scan(render_records(rs), st) == ScanState { records: st.records + rs, row: Seq::empty(), field: Seq::empty(), quoted: false }),
    decreases rs.len(),
{
    if rs.len() == 0 {
        assert(st.records + rs =~= st.records);
        assert(st.row =~= Seq::<Seq<char>>::empty());
        assert(st.field =~= Seq::<char>::empty());
    } else {
        let rest = render_records(rs.drop_first());
        assert(render_records(rs) =~= join_fields(rs[0]) + seq!['\n'] + rest);
        lemma_scan_fields(rs[0], rest, st);
        let st2 = ScanState { records: st.records.push(st.row + rs[0]), row: Seq::empty(), field: Seq::empty(), quoted: false };
        assert forall|k: int| 0 <= k < rs.drop_first().len() implies (#[trigger] rs.drop_first()[k]).len() >= 1 by {
            assert(rs.drop_first()[k] == rs[k + 1]);
        }
        lemma_scan_records(rs.drop_first(), st2);
        assert(st.row + rs[0] =~= rs[0]);
        assert(st.records.push(rs[0]) + rs.drop_first() =~= st.records + rs);
    }
}

/// Reading a written text gives back the written records, each record of
/// at least one field (a record of none is written as an empty line, which
/// reads as one empty field).
pub proof fn lemma_read_written_records(rs: Seq<Seq<Seq<char>>>)
    requires
        forall|k: int| 0 <= k < rs.len() ==> (#[trigger] rs[k]).len() >= 1,
    ensures
        parse_records(render_records(rs)) == rs,
{
    lemma_scan_records(rs, scan_start());
    assert(Seq::<Seq<Seq<char>>>::empty() + rs =~= rs);
}

proof fn lemma_scan_fields_crlf(fs: Seq<Seq<char>>, rest: Seq<char>, st: ScanState)
    requires
        !st.quoted,
        st.field.len() == 0,
        fs.len() >= 1,
    ensures
        (scan(join_fields(fs) + seq!['\r', '\n'] + rest, st) == scan(
            rest,
            ScanState { records: st.records.push(st.row + fs), row: Seq::empty(), field: Seq::empty(), quoted: false },
        )),
    decreases fs.len(),
{
    let f = fs[0];
    if fs.len() == 1 {
        let after = seq!['\r', '\n'] + rest;
        assert(join_fields(fs) + seq!['\r', '\n'] + rest =~= escape_field(f) + after);
        lemma_scan_field(f, after, st);
        assert(after[0] == '\r');
        let nl = after.drop_first();
        assert(nl =~= seq!['\n'] + rest);
        assert(nl[0] == '\n');
        assert(nl.drop_first() =~= rest);
        let stf = ScanState { field: f, ..st };
        assert(scan(after, stf) == scan(nl, stf));
        assert(scan(nl, stf) == scan(
            rest,
            ScanState { records: st.records.push(st.row.push(f)), row: Seq::empty(), field: Seq::empty(), ..stf },
        ));
        assert(st.row.push(f) =~= st.row + fs);
    } else {
        let after = seq![','] + (join_fields(fs.drop_first()) + seq!['\r', '\n'] + rest);
        assert(join_fields(fs) + seq!['\r', '\n'] + rest =~= escape_field(f) + after);
        lemma_scan_field(f, after, st);
        assert(after[0] == ',');
        assert(after.drop_first() =~= join_fields(fs.drop_first()) + seq!['\r', '\n'] + rest);
        let st3 = ScanState { row: st.row.push(f), field: Seq::empty(), ..st };
        lemma_scan_fields_crlf(fs.drop_first(), rest, st3);
        assert(st.row.push(f) + fs.drop_first() =~= st.row + fs);
    }
}

proof fn lemma_scan_records_crlf(rs: Seq<Seq<Seq<char>>>, st: ScanState)
    requires
        !st.quoted,
        st.field.len() == 0,
        st.row.len() == 0,
        forall|k: int| 0 <= k < rs.len() ==> (#[trigger] rs[k]).len() >= 1,
    ensures
        (scan(render_records_crlf(rs), st) == ScanState { records: st.records + rs, row: Seq::empty(), field: Seq::empty(), quoted: false }),
    decreases rs.len(),
{
    if rs.len() == 0 {
        assert(st.records + rs =~= st.records);
        assert(st.row =~= Seq::<Seq<char>>::empty());
        assert(st.field =~= Seq::<char>::empty());
    } else {
        let rest = render_records_crlf(rs.drop_first());
        assert(render_records_crlf(rs) =~= join_fields(rs[0]) + seq!['\r', '\n'] + rest);
        lemma_scan_fields_crlf(rs[0], rest, st);
        let st2 = ScanState { records: st.records.push(st.row + rs[0]), row: Seq::empty(), field: Seq::empty(), quoted: false };
        assert forall|k: int| 0 <= k < rs.drop_first().len() implies (#[trigger] rs.drop_first()[k]).len() >= 1 by {
            assert(rs.drop_first()[k] == rs[k + 1]);
        }
        lemma_scan_records_crlf(rs.drop_first(), st2);
        assert(st.row + rs[0] =~= rs[0]);
        assert(st.records.push(rs[0]) + rs.drop_first() =~= st.records + rs);
    }
}

/// A text saved with Windows line ends (`\r\n` after each record) reads
/// back the same records as the text written with `\n` alone: a `\r`
/// outside quotes is not part of any field.
pub proof fn lemma_read_crlf_records(rs: Seq<Seq<Seq<char>>>)
    requires
        forall|k: int| 0 <= k < rs.len() ==> (#[trigger] rs[k]).len() >= 1,
    ensures
        parse_records(render_records_crlf(rs)) == rs,
        parse_records(render_records_crlf(rs)) == parse_records(render_records(rs)),
{
    lemma_scan_records_crlf(rs, scan_start());
    assert(Seq::<Seq<Seq<char>>>::empty() + rs =~= rs);
    lemma_read_written_records(rs);
}

} // verus!
