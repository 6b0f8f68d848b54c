//! The fixed parts of the console frame: the navigation icons and the
//! stylesheets of the console and of the sign-in page.
use vstd::prelude::*;

verus! {

/// The navigation icon of the overview page.
pub const ICON_OVERVIEW: &'static str = r#"<svg xmlns="http://www.w3.org/2000/svg" viewBox="0 0 24 24" fill="none" stroke="currentColor" stroke-width="2" stroke-linecap="round" stroke-linejoin="round"><rect x="3" y="3" width="7" height="7" rx="1"/><rect x="14" y="3" width="7" height="7" rx="1"/><rect x="3" y="14" width="7" height="7" rx="1"/><rect x="14" y="14" width="7" height="7" rx="1"/></svg>"#;

/// The navigation icon of the assets page.
pub const ICON_ASSETS: &'static str = r#"<svg xmlns="http://www.w3.org/2000/svg" viewBox="0 0 24 24" fill="none" stroke="currentColor" stroke-width="2" stroke-linecap="round" stroke-linejoin="round"><rect x="2" y="2" width="20" height="8" rx="2"/><rect x="2" y="14" width="20" height="8" rx="2"/><circle cx="6" cy="6" r="1"/><circle cx="6" cy="18" r="1"/></svg>"#;

/// The navigation icon of the credentials page.
pub const ICON_CREDENTIALS: &'static str = r#"<svg xmlns="http://www.w3.org/2000/svg" viewBox="0 0 24 24" fill="none" stroke="currentColor" stroke-width="2" stroke-linecap="round" stroke-linejoin="round"><path d="M21 2l-2 2m-7.61 7.61a5.5 5.5 0 1 1-7.778 7.778 5.5 5.5 0 0 1 7.777-7.777zm0 0L15.5 7.5m0 0l3 3L22 7l-3-3m-3.5 3.5L19 4"/></svg>"#;

/// The navigation icon of the SSH access page.
pub const ICON_KEYS: &'static str = r#"<svg xmlns="http://www.w3.org/2000/svg" viewBox="0 0 24 24" fill="none" stroke="currentColor" stroke-width="2" stroke-linecap="round" stroke-linejoin="round"><path d="M12 10a4 4 0 0 0-8 0c0 3 2 5.5 4 7.5C10 15.5 12 13 12 10z"/><path d="M12 10a4 4 0 0 1 8 0c0 3-2 5.5-4 7.5C14 15.5 12 13 12 10z"/><path d="M12 2v2"/><path d="M12 18v4"/></svg>"#;

/// The navigation icon of the known hosts page.
pub const ICON_KNOWN_HOSTS: &'static str = r#"<svg xmlns="http://www.w3.org/2000/svg" viewBox="0 0 24 24" fill="none" stroke="currentColor" stroke-width="2" stroke-linecap="round" stroke-linejoin="round"><path d="M12 22s8-4 8-10V5l-8-3-8 3v7c0 6 8 10 8 10z"/><path d="m9 12 2 2 4-4"/></svg>"#;

/// The navigation icon of the audit log page.
pub const ICON_SESSIONS: &'static str = r#"<svg xmlns="http://www.w3.org/2000/svg" viewBox="0 0 24 24" fill="none" stroke="currentColor" stroke-width="2" stroke-linecap="round" stroke-linejoin="round"><polyline points="4 17 10 11 4 5"/><line x1="12" y1="19" x2="20" y2="19"/></svg>"#;

/// The navigation icon of the import and export page.
pub const ICON_IMPORT: &'static str = r#"<svg xmlns="http://www.w3.org/2000/svg" viewBox="0 0 24 24" fill="none" stroke="currentColor" stroke-width="2" stroke-linecap="round" stroke-linejoin="round"><path d="M16 3h5v5"/><path d="M8 21H3v-5"/><path d="M21 3l-9 9"/><path d="M3 21l9-9"/></svg>"#;

/// The navigation icon of the settings page.
pub const ICON_SETTINGS: &'static str = r#"<svg xmlns="http://www.w3.org/2000/svg" viewBox="0 0 24 24" fill="none" stroke="currentColor" stroke-width="2" stroke-linecap="round" stroke-linejoin="round"><circle cx="12" cy="12" r="3"/><path d="M19.4 15a1.65 1.65 0 0 0 .33 1.82l.06.06a2 2 0 1 1-2.83 2.83l-.06-.06A1.65 1.65 0 0 0 15 19.4a1.65 1.65 0 0 0-1 .6 1.65 1.65 0 0 0-.33 1.82V22a2 2 0 1 1-4 0v-.09A1.65 1.65 0 0 0 8.6 20a1.65 1.65 0 0 0-1.82-.33l-.06.06a2 2 0 1 1-2.83-2.83l.06-.06A1.65 1.65 0 0 0 4.6 15a1.65 1.65 0 0 0-.6-1 1.65 1.65 0 0 0-1.82-.33H2a2 2 0 1 1 0-4h.09A1.65 1.65 0 0 0 4 8.6a1.65 1.65 0 0 0-.33-1.82l-.06-.06a2 2 0 1 1 2.83-2.83l.06.06A1.65 1.65 0 0 0 8.6 4a1.65 1.65 0 0 0 1-.6 1.65 1.65 0 0 0 .33-1.82V2a2 2 0 1 1 4 0v.09A1.65 1.65 0 0 0 15 4.6a1.65 1.65 0 0 0 1.82.33l.06-.06a2 2 0 1 1 2.83 2.83l-.06.06A1.65 1.65 0 0 0 19.4 8.6a1.65 1.65 0 0 0 .6 1 1.65 1.65 0 0 0 1.82.33H22a2 2 0 1 1 0 4h-.09A1.65 1.65 0 0 0 19.4 15z"/></svg>"#;

/// The console stylesheet, part 1 of 14. The page escapes it as text, as
/// it does every text it writes into an element.
pub const CONSOLE_CSS_1: &'static str = r#"
                    :root {
                        color-scheme: dark;
                        --canvas: #0d1117;
                        --panel: #111827;
                        --panel-muted: #0f1724;
                        --field: #0a0f16;
                        --ink: #f9fafb;
                        --ink-soft: #cbd5e1;
                        --muted: #8b949e;
                        --border: #1f2937;
                        --border-strong: #263244;
                        --sidebar: #0a0f16;
                        --sidebar-panel: #0e1724;
                        --sidebar-ink: #f9fafb;
                        --sidebar-muted: #8b949e;
                        --control: #3b82f6;
                        --control-hover: #2563eb;
                        --secure: #22c55e;
                        --secure-soft: #0b2e1c;
                        --console-green: #22c55e;
                        --warn: #f59e0b;
                        --warn-soft: #312313;
                        --danger: #ef4444;
                        --danger-hover: #dc2626;
                        --danger-soft: #311216;
                        --row-hover: #101d2f;
                        --tag-bg: #122c4e;
                        --tag-ink: #bfdbfe;
                        --terminal: #060a10;
                        --shadow: 0 20px 54px rgba(0, 0, 0, 0.35);
                    }

                    * { box-sizing: border-box; }

                    body.admin-shell {
                        margin: 0;
                        min-height: 100vh;
                        background: var(--canvas);
                        color: var(--ink);
                        font-family: Inter, system-ui, sans-serif;
                        letter-spacing: 0;
                    }

                    a { color: inherit; }

                    a:focus-visible,
                    button:focus-visible,
                    input:focus-visible,
                    select:focus-visible,
                    textarea:focus-visible {
                        outline: 3px solid rgba(37, 99, 235, 0.28);
                        outline-offset: 2px;
                    }

                    .app-frame {
                        display: grid;
                        grid-template-columns: 272px minmax(0, 1fr);
                        min-height: 100vh;
                    }

                    .sidebar {
                        position: sticky;
                        top: 0;
                        height: 100svh;
                        padding: 22px 16px;
                        background: var(--sidebar);
                        border-right: 1px solid var(--border);
                        color: var(--sidebar-ink);
                        display: flex;
                        flex-direction: column;
                        gap: 24px;
                    }

                    .brand {
                        display: grid;
                        grid-template-columns: 40px minmax(0, 1fr);
                        gap: 12px;
                        align-items: center;
                        padding: 0 6px 14px;
                        border-bottom: 1px solid #263244;
                    }
"#;

/// The console stylesheet, part 2 of 14.
pub const CONSOLE_CSS_2: &'static str = r#"
                    .brand-mark {
                        width: 40px;
                        height: 40px;
                        border-radius: 8px;
                        display: grid;
                        place-items: center;
                        background: #122c4e;
                        border: 1px solid rgba(255, 255, 255, 0.16);
                        color: #bfdbfe;
                        font-weight: 850;
                        font-size: 1rem;
                        font-family: ui-monospace, SFMono-Regular, Menlo, monospace;
                    }

                    .brand strong {
                        display: block;
                        font-size: 1.02rem;
                        color: #ffffff;
                    }

                    .brand span {
                        color: var(--sidebar-muted);
                        font-size: 0.82rem;
                    }

                    .nav {
                        display: grid;
                        gap: 3px;
                    }

                    .nav-link {
                        position: relative;
                        min-height: 40px;
                        display: flex;
                        align-items: center;
                        gap: 10px;
                        padding: 9px 10px 9px 14px;
                        border-radius: 8px;
                        color: var(--sidebar-ink);
                        text-decoration: none;
                        font-weight: 650;
                        font-size: 0.9rem;
                        transition: background 160ms ease, color 160ms ease;
                    }

                    .nav-link svg {
                        width: 18px;
                        height: 18px;
                        opacity: 0.72;
                        flex-shrink: 0;
                        transition: opacity 160ms ease, color 160ms ease;
                    }

                    .nav-link:hover {
                        background: #0e1724;
                        color: #ffffff;
                    }

                    .nav-link:hover svg { opacity: 1; }

                    .nav-link.active {
                        background: #0f2a4a;
                        color: #ffffff;
                        box-shadow: inset 3px 0 0 var(--control);
                    }

                    .nav-link.active svg { opacity: 1; color: var(--control); }

                    .sidebar-footer {
                        margin-top: auto;
                        padding: 14px;
                        border: 1px solid #2d3a4d;
                        border-radius: 8px;
                        background: var(--sidebar-panel);
                        color: var(--sidebar-ink);
                        font-size: 0.84rem;
                    }

                    .sidebar-footer small {
                        display: block;
                        margin-top: 5px;
                        color: var(--sidebar-muted);
                        line-height: 1.45;
                    }
"#;

/// The console stylesheet, part 3 of 14.
pub const CONSOLE_CSS_3: &'static str = r#"
                    .status-dot {
                        width: 8px;
                        height: 8px;
                        display: inline-block;
                        margin-right: 8px;
                        border-radius: 999px;
                        background: #34d399;
                    }

                    .language-switch {
                        display: flex;
                        align-items: center;
                        justify-content: space-between;
                        gap: 10px;
                        margin-top: 12px;
                        padding-top: 12px;
                        border-top: 1px solid #2d3a4d;
                    }

                    .language-switch a {
                        color: #bfdbfe;
                        font-weight: 750;
                        text-decoration: none;
                    }

                    .language-switch a:hover { color: #ffffff; }

                    .content-shell {
                        min-width: 0;
                        background: var(--canvas);
                    }

                    .topbar {
                        position: sticky;
                        top: 0;
                        z-index: 10;
                        display: flex;
                        align-items: flex-start;
                        justify-content: space-between;
                        gap: 20px;
                        padding: 26px 38px 18px;
                        border-bottom: 1px solid var(--border);
                        background: rgba(13, 17, 23, 0.92);
                        backdrop-filter: blur(12px);
                    }

                    .eyebrow {
                        margin: 0 0 6px;
                        color: var(--control);
                        font-size: 0.76rem;
                        font-weight: 800;
                        text-transform: uppercase;
                        letter-spacing: 0;
                    }

                    .topbar h1 {
                        margin: 0;
                        font-size: 2rem;
                        line-height: 1.1;
                    }

                    .workspace {
                        width: min(1280px, 100%);
                        padding: 26px 38px 58px;
                    }

                    .page-intro {
                        display: grid;
                        gap: 7px;
                        margin-bottom: 20px;
                    }

                    .page-intro h2 {
                        margin: 0;
                        font-size: 1.2rem;
                    }

                    .page-intro p {
                        margin: 0;
                        color: var(--ink-soft);
                        max-width: 800px;
                        line-height: 1.58;
                    }

                    .panel {
                        min-width: 0;
                        margin: 0 0 18px;
                        padding: 20px;
                        border: 1px solid var(--border);
                        border-radius: 8px;
                        background: var(--panel);
                        box-shadow: var(--shadow);
                    }
"#;

/// The console stylesheet, part 4 of 14.
pub const CONSOLE_CSS_4: &'static str = r#"
                    .panel-header {
                        display: flex;
                        align-items: flex-start;
                        justify-content: space-between;
                        gap: 18px;
                        margin-bottom: 16px;
                    }

                    .panel-header h2 {
                        margin: 0;
                        font-size: 1.02rem;
                    }

                    .panel-header p {
                        margin: 5px 0 0;
                        color: var(--muted);
                        line-height: 1.5;
                    }

                    .grid {
                        display: grid;
                        grid-template-columns: repeat(auto-fit, minmax(230px, 1fr));
                        gap: 14px;
                    }

                    .field-wide { grid-column: 1 / -1; }

                    .button-row {
                        display: flex;
                        align-items: center;
                        flex-wrap: wrap;
                        gap: 9px;
                        margin-top: 16px;
                    }

                    .metric-grid {
                        display: grid;
                        grid-template-columns: repeat(auto-fit, minmax(190px, 1fr));
                        gap: 14px;
                        margin-bottom: 20px;
                    }

                    .metric {
                        min-height: 118px;
                        padding: 16px;
                        border: 1px solid var(--border);
                        border-radius: 8px;
                        background: var(--panel);
                        display: flex;
                        flex-direction: column;
                        justify-content: space-between;
                        box-shadow: var(--shadow);
                    }

                    .metric-label {
                        color: var(--muted);
                        font-size: 0.78rem;
                        font-weight: 780;
                        text-transform: uppercase;
                        letter-spacing: 0;
                    }

                    .metric-value {
                        font-size: 2.15rem;
                        line-height: 1;
                        font-weight: 850;
                        color: var(--ink);
                    }

                    .metric-note {
                        color: var(--ink-soft);
                        font-size: 0.84rem;
                    }

                    label.field {
                        display: grid;
                        gap: 7px;
                        color: var(--ink-soft);
                        font-size: 0.84rem;
                        font-weight: 720;
                    }

                    input, select, textarea {
                        width: 100%;
                        min-height: 40px;
                        padding: 9px 11px;
                        border: 1px solid var(--border-strong);
                        border-radius: 7px;
                        background: var(--field);
                        color: var(--ink);
                        font: inherit;
                        font-size: 0.94rem;
                        transition: border-color 140ms ease, box-shadow 140ms ease, background 140ms ease;
                    }
"#;

/// The console stylesheet, part 5 of 14.
pub const CONSOLE_CSS_5: &'static str = r#"
                    textarea {
                        min-height: 110px;
                        resize: vertical;
                        line-height: 1.45;
                    }

                    input:focus, select:focus, textarea:focus {
                        outline: 0;
                        border-color: var(--control);
                        background: #08111f;
                        box-shadow: 0 0 0 3px rgba(37, 99, 235, 0.12);
                    }

                    input[type=hidden] { display: none; }

                    input[type=checkbox] {
                        accent-color: var(--control);
                        cursor: pointer;
                    }

                    button, .button, .ghost-button {
                        min-height: 36px;
                        display: inline-flex;
                        align-items: center;
                        justify-content: center;
                        gap: 8px;
                        border-radius: 7px;
                        padding: 8px 12px;
                        font: inherit;
                        font-weight: 740;
                        font-size: 0.9rem;
                        text-decoration: none;
                        cursor: pointer;
                        transition: background 140ms ease, border-color 140ms ease, color 140ms ease, box-shadow 140ms ease;
                    }

                    button, .button {
                        border: 1px solid var(--control);
                        background: var(--control);
                        color: #ffffff;
                        box-shadow: 0 1px 2px rgba(15, 23, 42, 0.08);
                    }

                    button:hover, .button:hover {
                        background: var(--control-hover);
                        border-color: var(--control-hover);
                    }

                    .ghost-button {
                        border: 1px solid var(--border-strong);
                        background: #0a0f16;
                        color: var(--ink-soft);
                    }

                    .ghost-button:hover {
                        border-color: var(--control);
                        color: #bfdbfe;
                        background: #0f2a4a;
                    }

                    button.danger, .danger {
                        border-color: var(--danger);
                        background: var(--danger);
                        color: #ffffff;
                        box-shadow: none;
                    }

                    button.danger:hover, .danger:hover {
                        background: var(--danger-hover);
                        border-color: var(--danger-hover);
                    }

                    .muted, .fine-print {
                        color: var(--muted);
                        line-height: 1.55;
                    }

                    .error-message {
                        margin: 0 0 16px;
                        padding: 10px 12px;
                        border-radius: 7px;
                        background: var(--danger-soft);
                        color: var(--danger);
                        font-weight: 720;
                        border: 1px solid #fda29b;
                    }
"#;

/// The console stylesheet, part 6 of 14.
pub const CONSOLE_CSS_6: &'static str = r#"
                    .fine-print {
                        margin: 14px 0 0;
                        font-size: 0.86rem;
                    }

                    .table-wrap {
                        width: 100%;
                        max-width: 100%;
                        overflow-x: auto;
                        border: 1px solid var(--border);
                        border-radius: 8px;
                        background: var(--panel);
                    }

                    table.data-table {
                        width: 100%;
                        min-width: 760px;
                        border-collapse: collapse;
                    }

                    .data-table th,
                    .data-table td {
                        padding: 12px 14px;
                        border-bottom: 1px solid var(--border);
                        text-align: left;
                        vertical-align: top;
                    }

                    .data-table th {
                        color: #94a3b8;
                        background: var(--panel-muted);
                        font-size: 0.76rem;
                        font-weight: 820;
                        text-transform: uppercase;
                        letter-spacing: 0;
                    }

                    .data-table tr:last-child td { border-bottom: 0; }
                    .data-table tbody tr { transition: background 160ms ease, box-shadow 160ms ease; }
                    .data-table tbody tr:hover {
                        background: var(--row-hover);
                        box-shadow: inset 3px 0 0 var(--control);
                    }

                    .primary-cell {
                        display: grid;
                        gap: 4px;
                        font-weight: 760;
                    }

                    .subtle {
                        color: var(--muted);
                        font-size: 0.84rem;
                        font-weight: 500;
                    }

                    .mono {
                        font-family: ui-monospace, monospace;
                        font-size: 0.84rem;
                        line-height: 1.45;
                        word-break: break-all;
                        color: #93c5fd;
                    }

                    .tag-list, .secret-list, .action-row {
                        display: flex;
                        align-items: center;
                        flex-wrap: wrap;
                        gap: 7px;
                    }

                    .filter-row {
                        display: flex;
                        align-items: center;
                        flex-wrap: wrap;
                        gap: 8px;
                    }

                    .checkbox-cell {
                        width: 42px;
                        text-align: center;
                    }

                    .checkbox-cell input {
                        width: 18px;
                        min-height: 18px;
                    }
"#;

/// The console stylesheet, part 7 of 14.
pub const CONSOLE_CSS_7: &'static str = r#"
                    .asset-access-list {
                        display: grid;
                        gap: 10px;
                        margin-top: 14px;
                    }

                    .asset-access-item {
                        display: grid;
                        grid-template-columns: 22px minmax(0, 1fr);
                        gap: 10px;
                        align-items: start;
                        padding: 12px;
                        border: 1px solid var(--border);
                        border-radius: 8px;
                        background: var(--panel-muted);
                    }

                    .asset-access-item input {
                        width: 18px;
                        min-height: 18px;
                        margin-top: 2px;
                    }

                    .asset-access-item[hidden], [data-asset-access-list][hidden] {
                        display: none;
                    }

                    .import-summary {
                        display: grid;
                        gap: 8px;
                    }

                    .command-block {
                        display: grid;
                        gap: 8px;
                        margin-top: 8px;
                    }

                    .command-input {
                        font-family: ui-monospace, monospace;
                    }

                    .tag, .status-pill {
                        display: inline-flex;
                        align-items: center;
                        min-height: 24px;
                        border-radius: 999px;
                        padding: 3px 9px;
                        font-size: 0.78rem;
                        font-weight: 760;
                        white-space: nowrap;
                    }

                    .tag {
                        background: var(--tag-bg);
                        color: var(--tag-ink);
                        text-decoration: none;
                    }

                    .tag:hover {
                        background: #dbe7f6;
                        color: #17202a;
                    }

                    .status-pill {
                        background: var(--secure-soft);
                        color: var(--secure);
                    }

                    .status-pill.neutral {
                        background: var(--panel-muted);
                        color: #94a3b8;
                        border: 1px solid var(--border);
                    }

                    .status-pill.danger {
                        background: var(--danger-soft);
                        color: var(--danger);
                        border: 1px solid #fda29b;
                        box-shadow: none;
                    }

                    .action-row form { margin: 0; }

                    .empty-row td {
                        padding: 28px 14px;
                        color: var(--muted);
                        text-align: center;
                    }
"#;

/// The console stylesheet, part 8 of 14.
pub const CONSOLE_CSS_8: &'static str = r#"
                    .login-wrap {
                        max-width: 440px;
                        margin: 8vh auto 0;
                    }

                    pre {
                        white-space: pre-wrap;
                        border: 1px solid var(--border);
                        border-radius: 8px;
                        background: var(--terminal);
                        padding: 14px;
                        color: #bfdbfe;
                    }

                    .dashboard-page,
                    .assets-page,
                    .audit-page {
                        display: grid;
                        gap: 18px;
                    }

                    .console-hero {
                        display: flex;
                        align-items: flex-start;
                        justify-content: space-between;
                        gap: 18px;
                        padding: 2px 0 4px;
                    }

                    .console-hero h2 {
                        margin: 0;
                        font-size: 1.5rem;
                        line-height: 1.12;
                    }

                    .console-hero p {
                        margin: 7px 0 0;
                        color: var(--muted);
                        line-height: 1.5;
                    }

                    .console-actions,
                    .status-row {
                        display: flex;
                        align-items: center;
                        flex-wrap: wrap;
                        gap: 9px;
                    }

                    .status-chip,
                    .command-chip {
                        display: inline-flex;
                        align-items: center;
                        gap: 8px;
                        min-height: 28px;
                        padding: 5px 10px;
                        border-radius: 999px;
                        border: 1px solid var(--border);
                        background: #0a0f16;
                        color: var(--ink-soft);
                        font-size: 0.82rem;
                        font-weight: 760;
                        white-space: nowrap;
                    }

                    .status-chip.good {
                        background: var(--secure-soft);
                        border-color: #14532d;
                        color: var(--secure);
                    }

                    .status-chip.warn {
                        background: var(--warn-soft);
                        border-color: #713f12;
                        color: var(--warn);
                    }

                    .status-chip.danger {
                        background: var(--danger-soft);
                        border-color: #7f1d1d;
                        color: var(--danger);
                    }

                    .status-dot.good { background: var(--console-green); }
                    .status-dot.warn { background: var(--warn); }
                    .status-dot.danger { background: var(--danger); }

                    .dashboard-grid,
                    .audit-grid {
                        display: grid;
                        grid-template-columns: minmax(0, 1fr) 320px;
                        gap: 18px;
                        align-items: start;
                    }
"#;

/// The console stylesheet, part 9 of 14.
pub const CONSOLE_CSS_9: &'static str = r#"
                    .panel-stack {
                        display: grid;
                        gap: 18px;
                        min-width: 0;
                    }

                    .metric {
                        background: #111827;
                    }

                    .metric-value {
                        font-family: ui-monospace, SFMono-Regular, Menlo, monospace;
                    }

                    .metric-note strong {
                        color: var(--secure);
                        font-weight: 850;
                    }

                    .chart-bars {
                        height: 132px;
                        display: grid;
                        grid-template-columns: repeat(24, minmax(6px, 1fr));
                        align-items: end;
                        gap: 5px;
                    }

                    .chart-bars span {
                        min-height: 14px;
                        border-radius: 5px 5px 2px 2px;
                        background: linear-gradient(180deg, #60a5fa, #1d4ed8);
                        opacity: 0.86;
                    }

                    .heatmap {
                        display: grid;
                        grid-template-columns: repeat(12, 1fr);
                        gap: 5px;
                    }

                    .heatmap span {
                        aspect-ratio: 1;
                        min-width: 12px;
                        border-radius: 4px;
                        background: #0f1724;
                        border: 1px solid #172033;
                    }

                    .heatmap .level-1 { background: #0b2e1c; }
                    .heatmap .level-2 { background: #14532d; }
                    .heatmap .level-3 { background: #166534; }
                    .heatmap .level-4 { background: #22c55e; }

                    .posture-list,
                    .incident-list,
                    .feed-list {
                        display: grid;
                        gap: 10px;
                    }

                    .posture-item,
                    .incident-item,
                    .feed-item {
                        display: grid;
                        grid-template-columns: 10px minmax(0, 1fr) auto;
                        gap: 10px;
                        align-items: center;
                        padding: 10px 0;
                        border-bottom: 1px solid var(--border);
                    }

                    .posture-item:last-child,
                    .incident-item:last-child,
                    .feed-item:last-child {
                        border-bottom: 0;
                    }

                    .posture-item b,
                    .incident-item b,
                    .feed-item b {
                        color: var(--ink);
                        font-size: 0.9rem;
                    }

                    .posture-item span:last-child,
                    .incident-item span:last-child,
                    .feed-item span:last-child {
                        color: var(--muted);
                        font-size: 0.82rem;
                    }
"#;

/// The console stylesheet, part 10 of 14.
pub const CONSOLE_CSS_10: &'static str = r#"
                    .dashboard-activity-list,
                    .dashboard-event-list,
                    .coverage-list {
                        display: grid;
                        gap: 0;
                    }

                    .dashboard-activity-item,
                    .dashboard-event-item {
                        min-width: 0;
                        display: grid;
                        grid-template-columns: 10px minmax(0, 1.45fr) minmax(100px, 0.8fr) minmax(110px, auto);
                        gap: 12px;
                        align-items: center;
                        padding: 12px 0;
                        border-bottom: 1px solid var(--border);
                    }

                    .dashboard-event-item {
                        grid-template-columns: 10px minmax(0, 1fr) minmax(150px, 1fr) auto;
                    }

                    .dashboard-activity-item:last-child,
                    .dashboard-event-item:last-child {
                        border-bottom: 0;
                    }

                    .dashboard-activity-item b,
                    .dashboard-event-item b {
                        display: block;
                        overflow: hidden;
                        color: var(--ink);
                        font-size: 0.9rem;
                        text-overflow: ellipsis;
                        white-space: nowrap;
                    }

                    .dashboard-activity-item small,
                    .dashboard-event-item small,
                    .coverage-item small {
                        display: block;
                        margin-top: 3px;
                        color: var(--muted);
                        font-size: 0.78rem;
                    }

                    .dashboard-result {
                        display: grid;
                        justify-items: end;
                        gap: 4px;
                    }

                    .coverage-item {
                        padding: 12px 0;
                        border-bottom: 1px solid var(--border);
                    }

                    .coverage-item:last-child {
                        border-bottom: 0;
                    }

                    .coverage-label {
                        display: flex;
                        align-items: center;
                        justify-content: space-between;
                        gap: 12px;
                        color: var(--ink-soft);
                        font-size: 0.86rem;
                    }

                    .coverage-label strong {
                        color: var(--ink);
                        font-family: ui-monospace, SFMono-Regular, Menlo, monospace;
                    }

                    .coverage-track {
                        height: 7px;
                        margin-top: 8px;
                        overflow: hidden;
                        border-radius: 999px;
                        background: #0a0f16;
                        border: 1px solid var(--border);
                    }
"#;

/// The console stylesheet, part 11 of 14.
pub const CONSOLE_CSS_11: &'static str = r#"
                    .coverage-track span {
                        display: block;
                        height: 100%;
                        border-radius: inherit;
                        background: var(--control);
                    }

                    .dashboard-panel-link {
                        color: #93c5fd;
                        font-size: 0.82rem;
                        font-weight: 750;
                        text-decoration: none;
                    }

                    .dashboard-panel-link:hover {
                        color: #ffffff;
                        text-decoration: underline;
                    }

                    .admin-access-list {
                        display: grid;
                        gap: 12px;
                    }

                    .admin-access-item {
                        min-width: 0;
                        display: grid;
                        grid-template-columns: minmax(180px, 1fr) minmax(260px, 1.5fr);
                        gap: 18px;
                        align-items: center;
                        padding: 16px;
                        border: 1px solid var(--border);
                        border-radius: 8px;
                        background: var(--panel-muted);
                    }

                    .admin-access-item form {
                        display: grid;
                        grid-template-columns: minmax(150px, 1fr) auto auto;
                        gap: 10px;
                        align-items: end;
                    }

                    .admin-access-item .field {
                        margin: 0;
                    }

                    .checkbox-line {
                        min-height: 40px;
                        display: inline-flex;
                        align-items: center;
                        gap: 8px;
                        white-space: nowrap;
                    }

                    .checkbox-line input[type=checkbox] {
                        width: 18px;
                        height: 18px;
                        min-height: 0;
                        flex: 0 0 auto;
                    }

                    .admin-access-item button {
                        width: auto;
                    }

                    .admin-person {
                        min-width: 0;
                    }

                    .admin-person b {
                        color: var(--ink);
                    }

                    .admin-person .mono {
                        display: block;
                        margin-top: 4px;
                    }

                    .terminal-strip {
                        display: flex;
                        align-items: center;
                        gap: 10px;
                        padding: 12px 14px;
                        border: 1px solid var(--border);
                        border-radius: 8px;
                        background: var(--terminal);
                        color: #bfdbfe;
                        font-family: ui-monospace, SFMono-Regular, Menlo, monospace;
                        font-size: 0.84rem;
                        overflow-x: auto;
                    }
"#;

/// The console stylesheet, part 12 of 14.
pub const CONSOLE_CSS_12: &'static str = r#"
                    .assets-layout {
                        display: grid;
                        grid-template-columns: minmax(0, 1fr) 360px;
                        gap: 18px;
                        align-items: start;
                    }

                    .assets-layout > * {
                        min-width: 0;
                    }

                    .filter-console {
                        display: flex;
                        align-items: center;
                        justify-content: space-between;
                        gap: 12px;
                        flex-wrap: wrap;
                    }

                    .filter-console .filter-row {
                        flex: 1;
                        min-width: 260px;
                    }

                    .asset-form-panel {
                        position: sticky;
                        top: 106px;
                    }

                    .assets-page .panel-header {
                        flex-wrap: wrap;
                    }

                    .assets-page .data-table {
                        min-width: 660px;
                    }

                    .os-badge {
                        display: inline-grid;
                        place-items: center;
                        min-width: 34px;
                        min-height: 26px;
                        border-radius: 6px;
                        background: #122c4e;
                        color: #bfdbfe;
                        font-family: ui-monospace, SFMono-Regular, Menlo, monospace;
                        font-size: 0.72rem;
                        font-weight: 850;
                    }

                    .audit-toolbar {
                        display: flex;
                        align-items: center;
                        justify-content: space-between;
                        flex-wrap: wrap;
                        gap: 10px;
                        padding: 12px;
                        border: 1px solid var(--border);
                        border-radius: 8px;
                        background: #0a0f16;
                    }

                    .audit-event {
                        font-family: ui-monospace, SFMono-Regular, Menlo, monospace;
                        color: #bfdbfe;
                        font-size: 0.82rem;
                    }

                    .replay-box {
                        display: grid;
                        gap: 12px;
                        padding: 14px;
                        border: 1px solid var(--border);
                        border-radius: 8px;
                        background: var(--terminal);
                    }

                    .replay-progress {
                        height: 8px;
                        border-radius: 999px;
                        background: #111827;
                        overflow: hidden;
                    }

                    .replay-progress span {
                        display: block;
                        width: 46%;
                        height: 100%;
                        background: linear-gradient(90deg, #3b82f6, #22c55e);
                    }
"#;

/// The console stylesheet, part 13 of 14.
pub const CONSOLE_CSS_13: &'static str = r#"
                    .mobile-tabbar {
                        display: none;
                    }

                    @media (prefers-reduced-motion: reduce) {
                        *, *::before, *::after {
                            scroll-behavior: auto !important;
                            transition-duration: 0.01ms !important;
                            animation-duration: 0.01ms !important;
                            animation-iteration-count: 1 !important;
                        }
                    }

                    @media (max-width: 1080px) {
                        .app-frame { grid-template-columns: 1fr; }
                        .sidebar {
                            display: none;
                        }
                        .topbar {
                            position: static;
                            padding: 22px 20px 16px;
                        }
                        .workspace {
                            padding: 22px 20px 96px;
                        }
                        .dashboard-grid,
                        .audit-grid,
                        .assets-layout {
                            grid-template-columns: 1fr;
                        }
                        .asset-form-panel {
                            position: static;
                        }
                        .mobile-tabbar {
                            position: fixed;
                            left: 0;
                            right: 0;
                            bottom: 0;
                            z-index: 20;
                            display: grid;
                            grid-template-columns: repeat(4, minmax(0, 1fr));
                            gap: 1px;
                            padding: 8px 10px calc(8px + env(safe-area-inset-bottom));
                            border-top: 1px solid var(--border);
                            background: rgba(10, 15, 22, 0.96);
                            backdrop-filter: blur(16px);
                        }
                        .mobile-tab {
                            min-height: 48px;
                            display: grid;
                            place-items: center;
                            gap: 3px;
                            border-radius: 8px;
                            color: var(--muted);
                            text-decoration: none;
                            font-size: 0.72rem;
                            font-weight: 760;
                        }
                        .mobile-tab svg {
                            width: 18px;
                            height: 18px;
                        }
                        .mobile-tab.active {
                            background: #0f2a4a;
                            color: #bfdbfe;
                        }
                    }

                    @media (max-width: 560px) {
                        .topbar {
                            flex-direction: column;
                            align-items: stretch;
                        }
"#;

/// The console stylesheet, part 14 of 14.
pub const CONSOLE_CSS_14: &'static str = r#"                        .ghost-button, .button, button { width: 100%; }
                        .panel { padding: 16px; }
                        .panel-header { flex-direction: column; }
                        .topbar h1 { font-size: 1.65rem; }
                        .console-hero {
                            flex-direction: column;
                        }
                        .console-actions,
                        .status-row,
                        .filter-console,
                        .audit-toolbar {
                            align-items: stretch;
                            flex-direction: column;
                        }
                        .status-chip,
                        .command-chip {
                            justify-content: center;
                        }
                        .metric-grid {
                            grid-template-columns: repeat(2, minmax(0, 1fr));
                        }
                        .metric-value {
                            font-size: 1.8rem;
                        }
                        .dashboard-activity-item,
                        .dashboard-event-item {
                            grid-template-columns: 10px minmax(0, 1fr) auto;
                        }
                        .dashboard-activity-item > :nth-child(3),
                        .dashboard-event-item > :nth-child(3) {
                            grid-column: 2;
                        }
                        .dashboard-result {
                            grid-column: 3;
                            grid-row: 1 / span 2;
                        }
                        .admin-access-item,
                        .admin-access-item form {
                            grid-template-columns: 1fr;
                        }
                        .admin-access-item button {
                            width: 100%;
                        }
                        .heatmap {
                            grid-template-columns: repeat(8, 1fr);
                        }
                    }
                    "#;

/// The stylesheet of the sign-in page, written into the page as it stands.
pub const LOGIN_CSS: &'static str = r#"
body.login-shell {
    margin: 0;
    min-height: 100vh;
    background: #0d1117;
    color: #f9fafb;
    font-family: Inter, system-ui, sans-serif;
}
.login-page { min-height: 100vh; display: flex; flex-direction: column; }
.login-header {
    display: flex;
    justify-content: space-between;
    align-items: center;
    padding: 20px 28px;
    border-bottom: 1px solid #1f2937;
}
.login-brand { display: flex; gap: 12px; align-items: center; }
.login-brand-mark {
    width: 40px;
    height: 40px;
    border-radius: 8px;
    display: grid;
    place-items: center;
    background: #122c4e;
    color: #bfdbfe;
    font-weight: 850;
}
.login-brand strong { display: block; }
.login-brand span, .login-language span { color: #8b949e; font-size: 0.82rem; }
.login-language { display: grid; color: inherit; text-decoration: none; text-align: right; }
.login-main { flex: 1; display: grid; place-content: center; gap: 18px; padding: 32px 16px; }
.login-context { display: flex; gap: 10px; align-items: flex-start; color: #cbd5e1; }
.login-context p { margin: 4px 0 0; color: #8b949e; }
.status-dot { width: 10px; height: 10px; border-radius: 50%; background: #22c55e; margin-top: 5px; }
.login-wrap .panel {
    width: min(420px, 92vw);
    padding: 24px;
    background: #111827;
    border: 1px solid #1f2937;
    border-radius: 8px;
}
.field { display: grid; gap: 6px; margin-bottom: 14px; font-weight: 650; }
.field input {
    min-height: 40px;
    padding: 8px 10px;
    border-radius: 8px;
    border: 1px solid #263244;
    background: #0a0f16;
    color: inherit;
}
.field input[aria-invalid="true"] { border-color: #ef4444; }
.error-message { color: #fecaca; background: #311216; padding: 10px 12px; border-radius: 8px; }
.button-row button {
    width: 100%;
    min-height: 40px;
    border: 0;
    border-radius: 8px;
    background: #3b82f6;
    color: #ffffff;
    font-weight: 700;
}
"#;

}
