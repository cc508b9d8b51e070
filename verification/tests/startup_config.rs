use insta_shell::startup::{
    resolve_updater_pubkey, startup_config, tray_config, MenuEntry, Plugin,
};

#[test]
fn pubkey_unset_becomes_empty() {
    let k = resolve_updater_pubkey(None);
    assert_eq!(k, "");
}

#[test]
fn pubkey_set_passes_through_unchanged() {
    let k = resolve_updater_pubkey(Some("dW50cnVzdGVkIGNvbW1lbnQ=".to_owned()));
    assert_eq!(k, "dW50cnVzdGVkIGNvbW1lbnQ=");
}

#[test]
fn startup_completes_without_signing_key() {
    let c = startup_config(None);
    assert_eq!(c.updater_pubkey, "");
    assert_eq!(c.plugins.len(), 8);
}

#[test]
fn plugins_register_in_fixed_order() {
    let c = startup_config(Some("key".to_owned()));
    assert_eq!(
        c.plugins,
        vec![
            Plugin::Store,
            Plugin::Notification,
            Plugin::Dialog,
            Plugin::FileSystem,
            Plugin::ShellExecute,
            Plugin::Process,
            Plugin::Updater,
            Plugin::WindowStatePersistence,
        ]
    );
    assert_eq!(c.updater_pubkey, "key");
}

#[test]
fn tray_is_main_with_reserved_left_click() {
    let c = tray_config();
    assert_eq!(c.tray_id, "main");
    assert_eq!(c.tooltip, "Insta");
    assert!(!c.menu_on_left_click);
}

#[test]
fn tray_menu_is_open_separator_quit() {
    let c = tray_config();
    assert_eq!(c.menu.len(), 3);
    match &c.menu[0] {
        MenuEntry::Item { id, title } => {
            assert_eq!(id, "open");
            assert_eq!(title, "Open Insta");
        }
        MenuEntry::Separator => panic!("first entry must be the open item"),
    }
    assert_eq!(c.menu[1], MenuEntry::Separator);
    match &c.menu[2] {
        MenuEntry::Item { id, title } => {
            assert_eq!(id, "quit");
            assert_eq!(title, "Quit");
        }
        MenuEntry::Separator => panic!("last entry must be the quit item"),
    }
}
