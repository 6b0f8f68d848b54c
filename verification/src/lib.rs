use vstd::prelude::*;

pub mod admin_auth;
pub mod admin_password;
pub mod asset_search;
pub mod bridge;
pub mod cli;
pub mod cli_args;
pub mod console;
pub mod console_pages;
pub mod known_hosts_page;
pub mod layout;
pub mod layout_assets;
pub mod sessions_page;
pub mod auth_pages;
pub mod settings_page;
pub mod credentials_page;
pub mod overview_page;
pub mod import_page;
pub mod asset_pages;
pub mod control_api;
pub mod credential_form;
pub mod csv;
pub mod forms;
pub mod i18n;
pub mod manifest_scope;
pub mod model;
pub mod page_scripts;
pub mod pages;
pub mod relay;
pub mod session_registry;
pub mod ssh;
pub mod target_auth;
pub mod text;
pub mod transfer;
pub mod transfer_csv;
pub mod tui;
pub mod tui_view;
pub mod watcher;
