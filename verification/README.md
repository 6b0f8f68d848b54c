# hop_server

The rules of Hop, a lightweight self-hosted SSH jump host, as a Verus
library: each function states in its contract what it returns, and Verus
proves it.

## Layout

- `src/` — the verified library.
  - `cli_args.rs` reads the command line; `cli.rs` holds the local
    commands' own rules and texts.
  - `manifest_scope.rs` turns the inputs of an inventory source into the
    sorted list of manifest files; `watcher.rs` decides when a watched
    source is applied again.
  - `transfer.rs`, `transfer_csv.rs` and `csv.rs` plan imports and write and
    read the CSV exports (reading back what was written is proved).
  - `admin_auth.rs`, `admin_password.rs`, `console.rs`, `forms.rs`,
    `credential_form.rs`, `asset_search.rs`, `pages.rs`, `i18n.rs` and
    `page_scripts.rs` are the admin console: sessions and cookies,
    passwords, access checks, form parsing, filters and what the pages
    compute.
  - `console_pages.rs` escapes HTML and writes the SSH identities pages and
    their asset access selector; `known_hosts_page.rs`, `sessions_page.rs`,
    `auth_pages.rs`, `settings_page.rs`, `credentials_page.rs`,
    `overview_page.rs`, `import_page.rs` and `asset_pages.rs` write the
    other console pages; `layout.rs` (with `layout_assets.rs`) writes the
    frame around each of them: head and console stylesheet, sidebar
    navigation, language switch, top bar and mobile tab bar, or the smaller
    sign-in frame. Each page function's result equals a spec of its markup.
  - `control_api.rs` holds the Control API's token, CORS and secret rules.
  - `ssh.rs`, `bridge.rs`, `relay.rs`, `target_auth.rs` and
    `session_registry.rs` decide what the SSH gateway does with a request,
    a managed session, a relayed byte stream and a target's host key.
  - `tui.rs` and `tui_view.rs` are the asset picker: keys, fuzzy filter,
    selection and the texts it draws.
- `tests/` — tests run against the compiled library.
- `app/` — the binary around the library: the command dispatch, file and
  terminal work, JSON copies of the transfer rows and the byte relay.
