//! The scripts the console pages embed.
use vstd::prelude::*;

verus! {

/// The `onchange` handler of the protocol selector: fills in the usual port and shows the RDP hint.
pub const ASSET_PROTOCOL_ONCHANGE: &'static str = "const p=this.form.querySelector('[name=port]'); const d={ssh:22,tcp:22,rdp:3389,vnc:5900,mysql:3306,postgres:5432,redis:6379}; if(p&&d[this.value])p.value=d[this.value]; const h=this.form.querySelector('[data-rdp-port-hint]'); if(h)h.hidden=this.value!=='rdp';";

/// The `onchange` handler of the protocol selector: fills in the usual port and shows the RDP hint.
pub fn asset_protocol_onchange() -> (r: &'static str)
    ensures
        r@ == ASSET_PROTOCOL_ONCHANGE@,
{
    ASSET_PROTOCOL_ONCHANGE
}

/// The script of the credential drawer: shows the secret fields of the chosen auth type and opens the editor.
pub const CREDENTIAL_DRAWER_SCRIPT: &'static str = r#"
        window.hopToggleCredentialSecrets = (form) => {
            if (!form) return;
            const type = form.querySelector('[data-credential-auth-type]').value;
            const creating = form.dataset.mode === 'create';
            form.querySelectorAll('[data-secret-for]').forEach((group) => {
                const visible = group.dataset.secretFor.split(' ').includes(type);
                group.hidden = !visible;
                group.querySelectorAll('input, textarea').forEach((field) => {
                    field.disabled = !visible;
                    field.required = creating && visible;
                });
            });
        };

        window.openCredentialEditor = (trigger) => {
            const dialog = document.getElementById('edit-credential-dialog');
            const form = dialog.querySelector('form');
            form.action = `/credentials/${encodeURIComponent(trigger.dataset.credentialId)}`;
            form.querySelector('[name="name"]').value = trigger.dataset.credentialName;
            form.querySelector('[name="username"]').value = trigger.dataset.credentialUsername;
            form.querySelector('[name="auth_type"]').value = trigger.dataset.credentialAuthType;
            form.querySelectorAll('[name="password"], [name="private_key"], [name="passphrase"]')
                .forEach((field) => field.value = '');

            const states = {
                password: trigger.dataset.hasPassword === 'true',
                'private-key': trigger.dataset.hasPrivateKey === 'true',
                passphrase: trigger.dataset.hasPassphrase === 'true'
            };
            form.querySelectorAll('[data-secret-state]').forEach((state) => {
                const stored = states[state.dataset.secretState];
                state.textContent = stored
                    ? form.dataset.secretStored
                    : form.dataset.secretMissing;
                state.classList.toggle('stored', stored);
            });

            window.hopToggleCredentialSecrets(form);
            dialog.dataset.returnFocusId = trigger.id;
            dialog.showModal();
        };

        document.querySelectorAll('[data-credential-form]').forEach(
            window.hopToggleCredentialSecrets
        );
    "#;

/// The script of the credential drawer: shows the secret fields of the chosen auth type and opens the editor.
pub fn credential_drawer_script() -> (r: &'static str)
    ensures
        r@ == CREDENTIAL_DRAWER_SCRIPT@,
{
    CREDENTIAL_DRAWER_SCRIPT
}

/// The `onchange` handler of the access mode selector.
pub const KEY_ACCESS_MODE_ONCHANGE: &'static str = "window.hopToggleKeyAccess(this.form)";

/// The `onchange` handler of the access mode selector.
pub fn key_access_mode_onchange() -> (r: &'static str)
    ensures
        r@ == KEY_ACCESS_MODE_ONCHANGE@,
{
    KEY_ACCESS_MODE_ONCHANGE
}

/// The `oninput` handler that filters the asset list of the identity form.
pub const KEY_ASSET_FILTER_ONINPUT: &'static str = "const q=this.value.toLowerCase();this.form.querySelectorAll('[data-asset-search]').forEach((row)=>row.hidden=!row.dataset.assetSearch.includes(q))";

/// The `oninput` handler that filters the asset list of the identity form.
pub fn key_asset_filter_oninput() -> (r: &'static str)
    ensures
        r@ == KEY_ASSET_FILTER_ONINPUT@,
{
    KEY_ASSET_FILTER_ONINPUT
}

/// The script that shows the asset list only for restricted access.
pub const KEY_ACCESS_SCRIPT: &'static str = r#"window.hopToggleKeyAccess=function(form){const mode=form.querySelector('[data-asset-access-mode]').value;const restricted=mode==='restricted';const list=form.querySelector('[data-asset-access-list]');const note=form.querySelector('[data-access-all-note]');list.hidden=!restricted;note.hidden=restricted;list.querySelectorAll('input[type=checkbox]').forEach((input)=>input.disabled=!restricted);};"#;

/// The script that shows the asset list only for restricted access.
pub fn key_access_script() -> (r: &'static str)
    ensures
        r@ == KEY_ACCESS_SCRIPT@,
{
    KEY_ACCESS_SCRIPT
}

/// The script of the trusted host keys page: copies fingerprints and opens the reset dialog.
pub const KNOWN_HOST_SCRIPT: &'static str = r#"
        window.copyKnownHostFingerprint = async (button) => {
            const value = button.dataset.copyValue;
            let copied = false;
            try {
                await navigator.clipboard.writeText(value);
                copied = true;
            } catch (_) {
                const fallback = document.createElement('textarea');
                fallback.value = value;
                fallback.setAttribute('readonly', '');
                fallback.style.position = 'fixed';
                fallback.style.opacity = '0';
                document.body.appendChild(fallback);
                fallback.select();
                copied = document.execCommand('copy');
                fallback.remove();
            }

            window.clearTimeout(button.copyResetTimer);
            button.textContent = copied
                ? button.dataset.copySuccess
                : button.dataset.copyFailed;
            button.classList.toggle('copy-success', copied);
            button.copyResetTimer = window.setTimeout(() => {
                button.textContent = button.dataset.copyDefault;
                button.classList.remove('copy-success');
            }, 1800);
        };

        window.openKnownHostReset = (trigger) => {
            const dialog = document.getElementById('reset-known-host-dialog');
            const form = dialog.querySelector('[data-known-host-reset-form]');
            form.action = `/known-hosts/${encodeURIComponent(trigger.dataset.hostname)}/${trigger.dataset.port}/delete`;
            form.querySelector('[name="key_type"]').value = trigger.dataset.keyType;
            form.querySelector('[name="confirm_reset"]').checked = false;
            form.querySelector('[data-reset-submit]').disabled = true;
            dialog.querySelector('[data-reset-host]').textContent =
                `${trigger.dataset.hostname}:${trigger.dataset.port} · ${trigger.dataset.keyType}`;
            dialog.querySelector('[data-reset-fingerprint]').textContent =
                trigger.dataset.fingerprint;
            dialog.dataset.returnFocusId = trigger.id;
            dialog.showModal();
        };
    "#;

/// The script of the trusted host keys page: copies fingerprints and opens the reset dialog.
pub fn known_host_script() -> (r: &'static str)
    ensures
        r@ == KNOWN_HOST_SCRIPT@,
{
    KNOWN_HOST_SCRIPT
}


/// The script of the asset list: the bulk tag controls follow the checked
/// rows, the editor drawer is filled from a row, and targets are copied.
pub const ASSETS_PAGE_SCRIPT: &'static str = r#"
                        (() => {
                            const form = document.querySelector('[data-assets-form]');
                            if (!form) return;
                            window.syncAssetBulkControls = () => {
                                const count = form.querySelectorAll('input[name="asset_ids"]:checked').length;
                                const controls = form.querySelector('[data-assets-bulk-controls]');
                                const countLabel = form.querySelector('[data-assets-selected-count]');
                                controls.hidden = count === 0;
                                controls.querySelectorAll('input, button').forEach((control) => {
                                    control.disabled = count === 0;
                                });
                                countLabel.textContent = `${count} ${countLabel.dataset.suffix}`;
                            };
                            window.addEventListener('pageshow', window.syncAssetBulkControls);
                            window.syncAssetBulkControls();

                            window.openAssetEditor = (trigger) => {
                                const dialog = document.getElementById('edit-asset-dialog');
                                const editForm = dialog.querySelector('[data-edit-asset-form]');
                                const fields = editForm.elements;
                                editForm.action = `/assets/${encodeURIComponent(trigger.dataset.assetId)}`;
                                fields.name.value = trigger.dataset.assetName;
                                fields.protocol.value = trigger.dataset.assetProtocol;
                                fields.hostname.value = trigger.dataset.assetHostname;
                                fields.port.value = trigger.dataset.assetPort;
                                fields.tags.value = trigger.dataset.assetTags;
                                fields.credential_id.value = trigger.dataset.assetCredential;
                                fields.description.value = trigger.dataset.assetDescription;
                                fields.return_to.value = trigger.dataset.returnTo;
                                const rdpHint = editForm.querySelector('[data-rdp-port-hint]');
                                if (rdpHint) rdpHint.hidden = fields.protocol.value !== 'rdp';
                                dialog.dataset.returnFocusId = trigger.id;
                                dialog.showModal();
                            };

                            window.copyAssetTarget = async (button) => {
                                const value = button.dataset.copyValue;
                                let copied = false;
                                try {
                                    await navigator.clipboard.writeText(value);
                                    copied = true;
                                } catch (_) {
                                    const fallback = document.createElement('textarea');
                                    fallback.value = value;
                                    fallback.setAttribute('readonly', '');
                                    fallback.style.position = 'fixed';
                                    fallback.style.opacity = '0';
                                    document.body.appendChild(fallback);
                                    fallback.select();
                                    copied = document.execCommand('copy');
                                    fallback.remove();
                                }

                                window.clearTimeout(button.copyResetTimer);
                                button.textContent = copied
                                    ? button.dataset.copySuccess
                                    : button.dataset.copyFailed;
                                button.classList.toggle('copy-success', copied);
                                button.copyResetTimer = window.setTimeout(() => {
                                    button.textContent = button.dataset.copyDefault;
                                    button.classList.remove('copy-success');
                                }, 1800);
                            };
                        })();
                    "#;

} // verus!
