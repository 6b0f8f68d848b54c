//! The frame around every console page: the document head with the console
//! stylesheet, the sidebar navigation with the language switch, the top bar
//! with the page title and the mobile tab bar; and the smaller frame of the
//! sign-in page, which offers no navigation.
use vstd::prelude::*;

use crate::console_pages::{esc, push_escaped};
use crate::i18n::{locale_code, locale_label, L10n, Locale};
use crate::layout_assets::{
    CONSOLE_CSS_1, CONSOLE_CSS_2, CONSOLE_CSS_3, CONSOLE_CSS_4, CONSOLE_CSS_5, CONSOLE_CSS_6, CONSOLE_CSS_7, CONSOLE_CSS_8, CONSOLE_CSS_9, CONSOLE_CSS_10, CONSOLE_CSS_11, CONSOLE_CSS_12, CONSOLE_CSS_13, CONSOLE_CSS_14,
    ICON_ASSETS, ICON_CREDENTIALS, ICON_IMPORT, ICON_KEYS, ICON_KNOWN_HOSTS, ICON_OVERVIEW,
    ICON_SESSIONS, ICON_SETTINGS, LOGIN_CSS,
};
use crate::pages::{encoded_bytes, language_switch_href, page_path};
use crate::text::{extend_str, from_chars, str_eq};

verus! {

/// The language the switch offers.
pub open spec fn other_locale(l: Locale) -> Locale {
    match l {
        Locale::En => Locale::Zh,
        Locale::Zh => Locale::En,
    }
}

/// The link that switches to a language and comes back to the page named
/// `active`.
pub open spec fn language_link(l: Locale, active: Seq<char>) -> Seq<char> {
    "/set-language?lang="@ + locale_code(l) + "&redirect="@ + encoded_bytes(vstd::utf8::encode_utf8(page_path(active)))
}

/// The console stylesheet, escaped as the text of its element.
#[verifier::opaque]
pub open spec fn console_css_html() -> Seq<char> {
    esc(CONSOLE_CSS_1@)
        + esc(CONSOLE_CSS_2@)
        + esc(CONSOLE_CSS_3@)
        + esc(CONSOLE_CSS_4@)
        + esc(CONSOLE_CSS_5@)
        + esc(CONSOLE_CSS_6@)
        + esc(CONSOLE_CSS_7@)
        + esc(CONSOLE_CSS_8@)
        + esc(CONSOLE_CSS_9@)
        + esc(CONSOLE_CSS_10@)
        + esc(CONSOLE_CSS_11@)
        + esc(CONSOLE_CSS_12@)
        + esc(CONSOLE_CSS_13@)
        + esc(CONSOLE_CSS_14@)
}

/// The document head: language, title (page title, then product name) and
/// the given style element.
pub open spec fn head_html(t: L10n, title: Seq<char>, style: Seq<char>) -> Seq<char> {
    "<!DOCTYPE html><html lang=\""@ + esc(locale_code(t.locale)) + "\"><head><meta charset=\"utf-8\">"@
        + "<meta name=\"viewport\" content=\"width=device-width, initial-scale=1\"><title>"@ + esc(title)
        + " - "@ + esc(t.app_title@) + "</title><style>"@ + style + "</style></head>"@
}

/// A sidebar link; the active one is marked as the current page.
pub open spec fn nav_link_html(href: Seq<char>, label: Seq<char>, icon: Seq<char>, active: bool) -> Seq<char> {
    if active {
        "<a class=\"nav-link active\" href=\""@ + esc(href) + "\" aria-current=\"page\">"@ + icon + esc(label) + "</a>"@
    } else {
        "<a class=\"nav-link\" href=\""@ + esc(href) + "\">"@ + icon + esc(label) + "</a>"@
    }
}

/// A link of the mobile tab bar; the active one is marked as the current
/// page.
pub open spec fn mobile_nav_link_html(href: Seq<char>, label: Seq<char>, icon: Seq<char>, active: bool) -> Seq<char> {
    if active {
        "<a class=\"mobile-tab active\" href=\""@ + esc(href) + "\" aria-current=\"page\">"@ + icon + "<span>"@ + esc(
            label,
        ) + "</span></a>"@
    } else {
        "<a class=\"mobile-tab\" href=\""@ + esc(href) + "\">"@ + icon + "<span>"@ + esc(label) + "</span></a>"@
    }
}

/// The first four sidebar links: overview, assets, credentials, SSH access.
#[verifier::opaque]
pub open spec fn nav_links_first_html(t: L10n, active: Seq<char>) -> Seq<char> {
    nav_link_html("/"@, t.nav_overview@, ICON_OVERVIEW@, active == "overview"@)
        + nav_link_html("/assets"@, t.nav_assets@, ICON_ASSETS@, active == "assets"@)
        + nav_link_html("/credentials"@, t.nav_credentials@, ICON_CREDENTIALS@, active == "credentials"@)
        + nav_link_html("/keys"@, t.nav_keys@, ICON_KEYS@, active == "keys"@)
}

/// The last four sidebar links: known hosts, audit log, import and export,
/// settings.
#[verifier::opaque]
pub open spec fn nav_links_rest_html(t: L10n, active: Seq<char>) -> Seq<char> {
    nav_link_html("/known-hosts"@, t.nav_known_hosts@, ICON_KNOWN_HOSTS@, active == "known-hosts"@)
        + nav_link_html("/sessions"@, t.nav_sessions@, ICON_SESSIONS@, active == "sessions"@)
        + nav_link_html("/import"@, t.nav_import_export@, ICON_IMPORT@, active == "import"@)
        + nav_link_html("/settings"@, t.nav_settings@, ICON_SETTINGS@, active == "settings"@)
}

/// The eight sidebar links, in order.
pub open spec fn nav_links_html(t: L10n, active: Seq<char>) -> Seq<char> {
    nav_links_first_html(t, active) + nav_links_rest_html(t, active)
}

/// The four links of the mobile tab bar.
#[verifier::opaque]
pub open spec fn mobile_links_html(t: L10n, active: Seq<char>) -> Seq<char> {
    mobile_nav_link_html("/"@, t.nav_overview@, ICON_OVERVIEW@, active == "overview"@)
        + mobile_nav_link_html("/assets"@, t.nav_assets@, ICON_ASSETS@, active == "assets"@)
        + mobile_nav_link_html("/sessions"@, t.nav_sessions@, ICON_SESSIONS@, active == "sessions"@)
        + mobile_nav_link_html("/settings"@, t.nav_settings@, ICON_SETTINGS@, active == "settings"@)
}

/// The sidebar: brand, navigation, and the footer with where the console
/// listens and the language switch.
#[verifier::opaque]
pub open spec fn sidebar_html(t: L10n, active: Seq<char>) -> Seq<char> {
    "<aside class=\"sidebar\"><div class=\"brand\"><div class=\"brand-mark\">H</div><div><strong>Hop</strong><span>"@
        + esc(t.admin_console@) + "</span></div></div><nav class=\"nav\" aria-label=\""@ + esc(t.nav_primary@) + "\">"@
        + nav_links_html(t, active) + "</nav><div class=\"sidebar-footer\"><span class=\"status-dot\"></span>"@
        + esc(t.loopback_admin@) + "<small>"@ + esc(t.loopback_note@) + "</small><div class=\"language-switch\"><span>"@
        + esc(t.language_label@) + ": "@ + esc(locale_label(t.locale)) + "</span><a href=\""@ + esc(
        language_link(other_locale(t.locale), active),
    ) + "\">"@ + esc(t.switch_language_to@) + " "@ + esc(locale_label(other_locale(t.locale)))
        + "</a></div></div></aside>"@
}

/// The content column: the top bar with the title (and the sign-out link),
/// the page's content, and the mobile tab bar.
#[verifier::opaque]
pub open spec fn content_shell_html(t: L10n, title: Seq<char>, active: Seq<char>, body: Seq<char>) -> Seq<char> {
    "<div class=\"content-shell\"><header class=\"topbar\"><div><p class=\"eyebrow\">"@ + esc(t.admin_web@)
        + "</p><h1>"@ + esc(title) + "</h1></div>"@ + (if active != "login"@ {
        "<a class=\"ghost-button\" href=\"/logout\">"@ + esc(t.logout@) + "</a>"@
    } else {
        Seq::empty()
    }) + "</header><main class=\"workspace\">"@ + body + "</main><nav class=\"mobile-tabbar\" aria-label=\""@
        + esc(t.nav_primary@) + "\">"@ + mobile_links_html(t, active) + "</nav></div>"@
}

/// The frame of the sign-in page: brand and language switch, where the
/// console listens, then the content; no navigation.
#[verifier::opaque]
pub open spec fn login_layout_html(t: L10n, title: Seq<char>, body: Seq<char>) -> Seq<char> {
    head_html(t, title, LOGIN_CSS@)
        + "<body class=\"admin-shell login-shell\" data-theme=\"operator\"><div class=\"login-page\"><header class=\"login-header\"><div class=\"login-brand\" aria-label=\""@
        + esc(t.app_title@) + "\"><div class=\"login-brand-mark\" aria-hidden=\"true\">H</div><div><strong>Hop</strong><span>"@
        + esc(t.admin_console@) + "</span></div></div><a class=\"login-language\" href=\""@ + esc(
        language_link(other_locale(t.locale), "login"@),
    ) + "\"><span>"@ + esc(t.language_label@) + ": "@ + esc(locale_label(t.locale)) + "</span><strong>"@ + esc(
        t.switch_language_to@,
    ) + " "@ + esc(locale_label(other_locale(t.locale)))
        + "</strong></a></header><main class=\"login-main\"><div class=\"login-context\"><span class=\"status-dot\" aria-hidden=\"true\"></span><div><strong>"@
        + esc(t.loopback_admin@) + "</strong><p>"@ + esc(t.loopback_note@) + "</p></div></div>"@ + body
        + "</main></div></body></html>"@
}

/// A whole console page: the sign-in frame for `login`, else the console
/// frame with the page named `active` marked in the navigation. The content
/// is written as it stands; every text of the frame is escaped.
pub open spec fn layout_html(t: L10n, title: Seq<char>, active: Seq<char>, body: Seq<char>) -> Seq<char> {
    if active == "login"@ {
        login_layout_html(t, title, body)
    } else {
        head_html(t, title, console_css_html()) + "<body class=\"admin-shell\" data-theme=\"operator\"><div class=\"app-frame\">"@
            + sidebar_html(t, active) + content_shell_html(t, title, active, body) + "</div></body></html>"@
    }
}

fn other_locale_exec(l: Locale) -> (r: Locale)
    ensures
        r == other_locale(l),
{
    l.alternate()
}

#[verifier::rlimit(100)]
fn push_console_css(out: &mut Vec<char>)
    ensures
        final(out)@ == old(out)@ + console_css_html(),
{
    reveal(console_css_html);
    let ghost start = out@;
    push_escaped(out, CONSOLE_CSS_1);
    push_escaped(out, CONSOLE_CSS_2);
    push_escaped(out, CONSOLE_CSS_3);
    push_escaped(out, CONSOLE_CSS_4);
    push_escaped(out, CONSOLE_CSS_5);
    push_escaped(out, CONSOLE_CSS_6);
    push_escaped(out, CONSOLE_CSS_7);
    push_escaped(out, CONSOLE_CSS_8);
    push_escaped(out, CONSOLE_CSS_9);
    push_escaped(out, CONSOLE_CSS_10);
    push_escaped(out, CONSOLE_CSS_11);
    push_escaped(out, CONSOLE_CSS_12);
    push_escaped(out, CONSOLE_CSS_13);
    push_escaped(out, CONSOLE_CSS_14);
    assert(out@ =~= start + console_css_html());
}

#[verifier::rlimit(100)]
fn push_head(out: &mut Vec<char>, t: &L10n, title: &str, console: bool)
    ensures
        final(out)@ == old(out)@ + head_html(*t, title@, if console { console_css_html() } else { LOGIN_CSS@ }),
{
    extend_str(out, "<!DOCTYPE html><html lang=\"");
    push_escaped(out, t.locale.code());
    extend_str(out, "\"><head><meta charset=\"utf-8\">");
    extend_str(out, "<meta name=\"viewport\" content=\"width=device-width, initial-scale=1\"><title>");
    push_escaped(out, title);
    extend_str(out, " - ");
    push_escaped(out, t.app_title);
    extend_str(out, "</title><style>");
    if console {
        push_console_css(out);
    } else {
        extend_str(out, LOGIN_CSS);
    }
    extend_str(out, "</style></head>");
}

fn push_nav_link(out: &mut Vec<char>, href: &str, label: &str, icon: &str, active: bool)
    ensures
        final(out)@ == old(out)@ + nav_link_html(href@, label@, icon@, active),
{
    if active {
        extend_str(out, "<a class=\"nav-link active\" href=\"");
        push_escaped(out, href);
        extend_str(out, "\" aria-current=\"page\">");
    } else {
        extend_str(out, "<a class=\"nav-link\" href=\"");
        push_escaped(out, href);
        extend_str(out, "\">");
    }
    extend_str(out, icon);
    push_escaped(out, label);
    extend_str(out, "</a>");
}

fn push_mobile_nav_link(out: &mut Vec<char>, href: &str, label: &str, icon: &str, active: bool)
    ensures
        final(out)@ == old(out)@ + mobile_nav_link_html(href@, label@, icon@, active),
{
    if active {
        extend_str(out, "<a class=\"mobile-tab active\" href=\"");
        push_escaped(out, href);
        extend_str(out, "\" aria-current=\"page\">");
    } else {
        extend_str(out, "<a class=\"mobile-tab\" href=\"");
        push_escaped(out, href);
        extend_str(out, "\">");
    }
    extend_str(out, icon);
    extend_str(out, "<span>");
    push_escaped(out, label);
    extend_str(out, "</span></a>");
}

#[verifier::rlimit(100)]
fn push_nav_links_first(out: &mut Vec<char>, t: &L10n, active: &str)
    ensures
        final(out)@ == old(out)@ + nav_links_first_html(*t, active@),
{
    reveal(nav_links_first_html);
    push_nav_link(out, "/", t.nav_overview, ICON_OVERVIEW, str_eq(active, "overview"));
    push_nav_link(out, "/assets", t.nav_assets, ICON_ASSETS, str_eq(active, "assets"));
    push_nav_link(out, "/credentials", t.nav_credentials, ICON_CREDENTIALS, str_eq(active, "credentials"));
    push_nav_link(out, "/keys", t.nav_keys, ICON_KEYS, str_eq(active, "keys"));
}

#[verifier::rlimit(100)]
fn push_nav_links_rest(out: &mut Vec<char>, t: &L10n, active: &str)
    ensures
        final(out)@ == old(out)@ + nav_links_rest_html(*t, active@),
{
    reveal(nav_links_rest_html);
    push_nav_link(out, "/known-hosts", t.nav_known_hosts, ICON_KNOWN_HOSTS, str_eq(active, "known-hosts"));
    push_nav_link(out, "/sessions", t.nav_sessions, ICON_SESSIONS, str_eq(active, "sessions"));
    push_nav_link(out, "/import", t.nav_import_export, ICON_IMPORT, str_eq(active, "import"));
    push_nav_link(out, "/settings", t.nav_settings, ICON_SETTINGS, str_eq(active, "settings"));
}

#[verifier::rlimit(100)]
fn push_mobile_links(out: &mut Vec<char>, t: &L10n, active: &str)
    ensures
        final(out)@ == old(out)@ + mobile_links_html(*t, active@),
{
    reveal(mobile_links_html);
    push_mobile_nav_link(out, "/", t.nav_overview, ICON_OVERVIEW, str_eq(active, "overview"));
    push_mobile_nav_link(out, "/assets", t.nav_assets, ICON_ASSETS, str_eq(active, "assets"));
    push_mobile_nav_link(out, "/sessions", t.nav_sessions, ICON_SESSIONS, str_eq(active, "sessions"));
    push_mobile_nav_link(out, "/settings", t.nav_settings, ICON_SETTINGS, str_eq(active, "settings"));
}

#[verifier::rlimit(100)]
fn push_sidebar(out: &mut Vec<char>, t: &L10n, active: &str)
    ensures
        final(out)@ == old(out)@ + sidebar_html(*t, active@),
{
    reveal(sidebar_html);
    let alternate = other_locale_exec(t.locale);
    let href = language_switch_href(alternate, active);
    extend_str(out, "<aside class=\"sidebar\"><div class=\"brand\"><div class=\"brand-mark\">H</div><div><strong>Hop</strong><span>");
    push_escaped(out, t.admin_console);
    extend_str(out, "</span></div></div><nav class=\"nav\" aria-label=\"");
    push_escaped(out, t.nav_primary);
    extend_str(out, "\">");
    push_nav_links_first(out, t, active);
    push_nav_links_rest(out, t, active);
    extend_str(out, "</nav><div class=\"sidebar-footer\"><span class=\"status-dot\"></span>");
    push_escaped(out, t.loopback_admin);
    extend_str(out, "<small>");
    push_escaped(out, t.loopback_note);
    extend_str(out, "</small><div class=\"language-switch\"><span>");
    push_escaped(out, t.language_label);
    extend_str(out, ": ");
    push_escaped(out, t.locale.label());
    extend_str(out, "</span><a href=\"");
    push_escaped(out, href.as_str());
    extend_str(out, "\">");
    push_escaped(out, t.switch_language_to);
    extend_str(out, " ");
    push_escaped(out, alternate.label());
    extend_str(out, "</a></div></div></aside>");
}

#[verifier::rlimit(100)]
fn push_content_shell(out: &mut Vec<char>, t: &L10n, title: &str, active: &str, body: &str)
    ensures
        final(out)@ == old(out)@ + content_shell_html(*t, title@, active@, body@),
{
    reveal(content_shell_html);
    extend_str(out, "<div class=\"content-shell\"><header class=\"topbar\"><div><p class=\"eyebrow\">");
    push_escaped(out, t.admin_web);
    extend_str(out, "</p><h1>");
    push_escaped(out, title);
    extend_str(out, "</h1></div>");
    if !str_eq(active, "login") {
        extend_str(out, "<a class=\"ghost-button\" href=\"/logout\">");
        push_escaped(out, t.logout);
        extend_str(out, "</a>");
    }
    extend_str(out, "</header><main class=\"workspace\">");
    extend_str(out, body);
    extend_str(out, "</main><nav class=\"mobile-tabbar\" aria-label=\"");
    push_escaped(out, t.nav_primary);
    extend_str(out, "\">");
    push_mobile_links(out, t, active);
    extend_str(out, "</nav></div>");
}

/// The sign-in page's frame around its content (see `login_layout_html`).
#[verifier::rlimit(100)]
pub fn login_layout(title: &str, t: &L10n, body_content: &str) -> (r: String)
    ensures
        r@ == login_layout_html(*t, title@, body_content@),
{
    reveal(login_layout_html);
    let alternate = other_locale_exec(t.locale);
    let href = language_switch_href(alternate, "login");
    let mut out: Vec<char> = Vec::new();
    push_head(&mut out, t, title, false);
    extend_str(
        &mut out,
        "<body class=\"admin-shell login-shell\" data-theme=\"operator\"><div class=\"login-page\"><header class=\"login-header\"><div class=\"login-brand\" aria-label=\"",
    );
    push_escaped(&mut out, t.app_title);
    extend_str(&mut out, "\"><div class=\"login-brand-mark\" aria-hidden=\"true\">H</div><div><strong>Hop</strong><span>");
    push_escaped(&mut out, t.admin_console);
    extend_str(&mut out, "</span></div></div><a class=\"login-language\" href=\"");
    push_escaped(&mut out, href.as_str());
    extend_str(&mut out, "\"><span>");
    push_escaped(&mut out, t.language_label);
    extend_str(&mut out, ": ");
    push_escaped(&mut out, t.locale.label());
    extend_str(&mut out, "</span><strong>");
    push_escaped(&mut out, t.switch_language_to);
    extend_str(&mut out, " ");
    push_escaped(&mut out, alternate.label());
    extend_str(
        &mut out,
        "</strong></a></header><main class=\"login-main\"><div class=\"login-context\"><span class=\"status-dot\" aria-hidden=\"true\"></span><div><strong>",
    );
    push_escaped(&mut out, t.loopback_admin);
    extend_str(&mut out, "</strong><p>");
    push_escaped(&mut out, t.loopback_note);
    extend_str(&mut out, "</p></div></div>");
    extend_str(&mut out, body_content);
    extend_str(&mut out, "</main></div></body></html>");
    from_chars(&out)
}

/// A whole console page around its content (see `layout_html`).
#[verifier::rlimit(100)]
pub fn layout(title: &str, active: &str, t: &L10n, body_content: &str) -> (r: String)
    ensures
        r@ == layout_html(*t, title@, active@, body_content@),
{
    if str_eq(active, "login") {
        return login_layout(title, t, body_content);
    }
    let mut out: Vec<char> = Vec::new();
    push_head(&mut out, t, title, true);
    extend_str(&mut out, "<body class=\"admin-shell\" data-theme=\"operator\"><div class=\"app-frame\">");
    push_sidebar(&mut out, t, active);
    push_content_shell(&mut out, t, title, active, body_content);
    extend_str(&mut out, "</div></body></html>");
    from_chars(&out)
}

} // verus!
