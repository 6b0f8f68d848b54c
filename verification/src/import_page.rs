//! The markup of the import page.
use crate::layout::{layout, layout_html};
use vstd::prelude::*;

use crate::console_pages::{csrf_html, esc, panel_head_html, push_csrf_field, push_escaped, push_panel_head};
use crate::i18n::L10n;
use crate::model::strings_view;
use crate::text::{dec, extend_str, from_chars, push_dec};
use crate::transfer::ImportSummary;

verus! {

/// The form that uploads a file to import: what it holds, its format, what
/// a conflict does, and the file.
#[verifier::opaque]
pub open spec fn import_form_html(t: L10n, csrf: Seq<char>) -> Seq<char> {
    "<div class=\"page-intro\"><h2>"@ + esc(t.import_heading@) + "</h2><p>"@ + esc(t.import_intro@) + "</p></div>"@
        + panel_head_html(t.import_form_heading@, t.import_form_intro@)
        + "<form method=\"post\" action=\"/import\" enctype=\"multipart/form-data\">"@ + csrf_html(csrf)
        + "<div class=\"grid\"><label class=\"field\">"@ + esc(t.import_kind@) + "<select name=\"kind\"><option value=\"assets\">"@
        + esc(t.kind_assets@) + "</option><option value=\"credentials\">"@ + esc(t.kind_credentials@)
        + "</option></select></label><label class=\"field\">"@ + esc(t.import_format@)
        + "<select name=\"format\"><option value=\"csv\">CSV</option><option value=\"json\">JSON</option></select></label><label class=\"field\">"@
        + esc(t.import_conflict@) + "<select name=\"on_conflict\"><option value=\"skip\">"@ + esc(t.conflict_skip@)
        + "</option><option value=\"overwrite\">"@ + esc(t.conflict_overwrite@) + "</option><option value=\"error\">"@
        + esc(t.conflict_error@) + "</option></select></label><label class=\"field field-wide\">"@ + esc(t.import_file@)
        + "<input type=\"file\" name=\"file\" required></label></div><div class=\"button-row\"><button type=\"submit\">"@
        + esc(t.import_submit@) + "</button></div></form></section>"@
}

/// The errors of an import, each in a list item.
pub open spec fn error_items_html(errors: Seq<Seq<char>>) -> Seq<char>
    decreases errors.len(),
{
    if errors.len() == 0 {
        Seq::empty()
    } else {
        error_items_html(errors.drop_last()) + "<li>"@ + esc(errors.last()) + "</li>"@
    }
}

/// What an import did: how many rows it imported, skipped and overwrote,
/// and its errors when there are any.
#[verifier::opaque]
pub open spec fn import_summary_html(t: L10n, imported: nat, skipped: nat, overwritten: nat, errors: Seq<Seq<char>>) -> Seq<char> {
    "<section class=\"panel\"><div class=\"panel-header\"><div><h2>"@ + esc(t.import_summary@)
        + "</h2></div></div><div class=\"import-summary\"><p>"@ + esc(t.imported@) + ": "@ + dec(imported) + "</p><p>"@
        + esc(t.skipped@) + ": "@ + dec(skipped) + "</p><p>"@ + esc(t.overwritten@) + ": "@ + dec(overwritten) + "</p>"@
        + (if errors.len() > 0 {
        "<p>"@ + esc(t.errors@) + ":</p><ul>"@ + error_items_html(errors) + "</ul>"@
    } else {
        Seq::empty()
    }) + "</div></section>"@
}

/// The content of the import page.
pub open spec fn import_export_html(t: L10n, csrf: Seq<char>, summary: Option<ImportSummary>) -> Seq<char> {
    import_form_html(t, csrf) + match summary {
        Some(s) => import_summary_html(t, s.imported as nat, s.skipped as nat, s.overwritten as nat, strings_view(s.errors@)),
        None => Seq::empty(),
    }
}

#[verifier::rlimit(100)]
fn push_import_form(out: &mut Vec<char>, t: &L10n, csrf: &str)
    ensures
        final(out)@ == old(out)@ + import_form_html(*t, csrf@),
{
    proof {
        reveal(import_form_html);
    }
    let ghost start = out@;
    extend_str(out, "<div class=\"page-intro\"><h2>");
    push_escaped(out, t.import_heading);
    extend_str(out, "</h2><p>");
    push_escaped(out, t.import_intro);
    extend_str(out, "</p></div>");
    push_panel_head(out, t.import_form_heading, t.import_form_intro);
    extend_str(out, "<form method=\"post\" action=\"/import\" enctype=\"multipart/form-data\">");
    push_csrf_field(out, csrf);
    let ghost m = out@;
    extend_str(out, "<div class=\"grid\"><label class=\"field\">");
    push_escaped(out, t.import_kind);
    extend_str(out, "<select name=\"kind\"><option value=\"assets\">");
    push_escaped(out, t.kind_assets);
    extend_str(out, "</option><option value=\"credentials\">");
    push_escaped(out, t.kind_credentials);
    extend_str(out, "</option></select></label><label class=\"field\">");
    push_escaped(out, t.import_format);
    extend_str(out, "<select name=\"format\"><option value=\"csv\">CSV</option><option value=\"json\">JSON</option></select></label><label class=\"field\">");
    push_escaped(out, t.import_conflict);
    extend_str(out, "<select name=\"on_conflict\"><option value=\"skip\">");
    push_escaped(out, t.conflict_skip);
    extend_str(out, "</option><option value=\"overwrite\">");
    push_escaped(out, t.conflict_overwrite);
    extend_str(out, "</option><option value=\"error\">");
    push_escaped(out, t.conflict_error);
    extend_str(out, "</option></select></label><label class=\"field field-wide\">");
    push_escaped(out, t.import_file);
    extend_str(out, "<input type=\"file\" name=\"file\" required></label></div><div class=\"button-row\"><button type=\"submit\">");
    push_escaped(out, t.import_submit);
    extend_str(out, "</button></div></form></section>");
    assert(out@ =~= start + import_form_html(*t, csrf@));
}

#[verifier::rlimit(100)]
fn push_import_summary(out: &mut Vec<char>, t: &L10n, s: &ImportSummary)
    ensures
        final(out)@ == old(out)@ + import_summary_html(*t, s.imported as nat, s.skipped as nat, s.overwritten as nat, strings_view(s.errors@)),
{
    proof {
        reveal(import_summary_html);
    }
    let ghost start = out@;
    let ghost errs = strings_view(s.errors@);
    extend_str(out, "<section class=\"panel\"><div class=\"panel-header\"><div><h2>");
    push_escaped(out, t.import_summary);
    extend_str(out, "</h2></div></div><div class=\"import-summary\"><p>");
    push_escaped(out, t.imported);
    extend_str(out, ": ");
    push_dec(out, s.imported as u64);
    extend_str(out, "</p><p>");
    push_escaped(out, t.skipped);
    extend_str(out, ": ");
    push_dec(out, s.skipped as u64);
    extend_str(out, "</p><p>");
    push_escaped(out, t.overwritten);
    extend_str(out, ": ");
    push_dec(out, s.overwritten as u64);
    extend_str(out, "</p>");
    let ghost m = out@;
    if s.errors.len() > 0 {
        extend_str(out, "<p>");
        push_escaped(out, t.errors);
        extend_str(out, ":</p><ul>");
        let ghost m2 = out@;
        let mut i: usize = 0;
        assert(errs.take(0) =~= Seq::<Seq<char>>::empty());
        assert(m2 + Seq::<char>::empty() =~= m2);
        while i < s.errors.len()
            invariant
                i <= s.errors.len(),
                errs == strings_view(s.errors@),
                out@ == m2 + error_items_html(errs.take(i as int)),
            decreases s.errors.len() - i,
        {
            extend_str(out, "<li>");
            push_escaped(out, s.errors[i].as_str());
            extend_str(out, "</li>");
            assert(errs.take(i + 1).drop_last() =~= errs.take(i as int));
            assert(errs.take(i + 1).last() == s.errors@[i as int]@);
            assert(out@ =~= m2 + error_items_html(errs.take(i + 1)));
            i += 1;
        }
        assert(errs.take(s.errors.len() as int) =~= errs);
        extend_str(out, "</ul>");
    } else {
        assert(m + Seq::<char>::empty() =~= m);
    }
    extend_str(out, "</div></section>");
    assert(out@ =~= start + import_summary_html(*t, s.imported as nat, s.skipped as nat, s.overwritten as nat, errs));
}

/// The content of the import page, as the console layout frames it: the
/// form that uploads a file, and what the last import did.
#[verifier::rlimit(100)]
fn import_export_content(t: &L10n, csrf_token: &str, summary: Option<&ImportSummary>) -> (r: String)
    ensures
        r@ == import_export_html(*t, csrf_token@, match summary {
            Some(s) => Some(*s),
            None => None,
        }),
{
    let mut out: Vec<char> = Vec::new();
    push_import_form(&mut out, t, csrf_token);
    let ghost m = out@;
    match summary {
        Some(s) => {
            push_import_summary(&mut out, t, s);
        },
        None => {
            assert(m + Seq::<char>::empty() =~= m);
        },
    }
    from_chars(&out)
}

/// The import and export page: the content above in the console frame, under its title.
#[verifier::rlimit(100)]
pub fn import_export(t: &L10n, csrf_token: &str, summary: Option<&ImportSummary>) -> (r: String)
    ensures
        r@ == layout_html(*t, t.import_title@, "import"@, import_export_html(*t, csrf_token@, match summary {
            Some(s) => Some(*s),
            None => None,
        })),
{
    let content = import_export_content(t, csrf_token, summary);
    layout(t.import_title, "import", t, content.as_str())
}

} // verus!
