//! What the shell hands the runtime before the event loop starts: the
//! fixed list of capability plugins in registration order, the
//! update-verification key (empty when the environment provides none),
//! and the tray icon with its two-action context menu.

use vstd::prelude::*;

verus! {

/// The capability plugins the shell registers at startup.
#[derive(Clone, Copy, PartialEq, Eq, Structural, Debug)]
pub enum Plugin {
    Store,
    Notification,
    Dialog,
    FileSystem,
    ShellExecute,
    Process,
    Updater,
    WindowStatePersistence,
}

/// The fixed order in which the plugins are registered.
pub open spec fn plugin_order() -> Seq<Plugin> {
    seq![
        Plugin::Store,
        Plugin::Notification,
        Plugin::Dialog,
        Plugin::FileSystem,
        Plugin::ShellExecute,
        Plugin::Process,
        Plugin::Updater,
        Plugin::WindowStatePersistence,
    ]
}

/// One entry of the tray's context menu.
#[derive(Debug, PartialEq)]
pub enum MenuEntry {
    Item { id: String, title: String },
    Separator,
}

/// Whether `e` is an actionable item with exactly this identifier and title.
pub open spec fn entry_is_item(e: MenuEntry, id: Seq<char>, title: Seq<char>) -> bool {
    match e {
        MenuEntry::Item { id: i, title: t } => i@ == id && t@ == title,
        MenuEntry::Separator => false,
    }
}

/// The tray icon the shell builds at startup.
pub struct TrayConfig {
    /// The tray icon's fixed identifier.
    pub tray_id: String,
    /// The tooltip shown over the icon.
    pub tooltip: String,
    /// Whether a left click opens the context menu. The shell keeps this
    /// off: a left click is reserved for the show-and-focus handler.
    pub menu_on_left_click: bool,
    /// The context menu attached to the icon, in display order.
    pub menu: Vec<MenuEntry>,
}

/// Everything the shell configures before the event loop starts.
pub struct StartupConfig {
    /// The plugins to register, in order.
    pub plugins: Vec<Plugin>,
    /// The public key the updater plugin verifies update signatures with.
    pub updater_pubkey: String,
}

/// The update-verification key handed to the updater plugin: the signing
/// key the environment provides, or the empty string when it provides
/// none. The value is passed through unvalidated; its consequences are
/// the updater plugin's business.
pub fn resolve_updater_pubkey(signing_key: Option<String>) -> (k: String)
    ensures
        signing_key matches Some(v) ==> k@ == v@,
        signing_key is None ==> k@ == Seq::<char>::empty(),
{
    match signing_key {
        Some(v) => v,
        None => String::new(),
    }
}

/// Assemble the startup configuration: the full plugin list in its fixed
/// order, and the updater key resolved from the environment's signing
/// key. Startup completes for every input, the absent key included.
pub fn startup_config(signing_key: Option<String>) -> (c: StartupConfig)
    ensures
        c.plugins@ == plugin_order(),
        signing_key matches Some(v) ==> c.updater_pubkey@ == v@,
        signing_key is None ==> c.updater_pubkey@ == Seq::<char>::empty(),
{
    let mut plugins: Vec<Plugin> = Vec::new();
    plugins.push(Plugin::Store);
    plugins.push(Plugin::Notification);
    plugins.push(Plugin::Dialog);
    plugins.push(Plugin::FileSystem);
    plugins.push(Plugin::ShellExecute);
    plugins.push(Plugin::Process);
    plugins.push(Plugin::Updater);
    plugins.push(Plugin::WindowStatePersistence);
    proof {
        assert(plugins@ =~= plugin_order());
    }
    StartupConfig { plugins, updater_pubkey: resolve_updater_pubkey(signing_key) }
}

/// Build the tray icon's configuration: fixed identifier and tooltip, a
/// left click reserved for the click handler rather than the menu, and a
/// context menu of the two actions split by a separator.
pub fn tray_config() -> (c: TrayConfig)
    ensures
        c.tray_id@ == "main"@,
        c.tooltip@ == "Insta"@,
        !c.menu_on_left_click,
        c.menu@.len() == 3,
        entry_is_item(c.menu@[0], "open"@, "Open Insta"@),
        c.menu@[1] is Separator,
        entry_is_item(c.menu@[2], "quit"@, "Quit"@),
{
    let mut menu: Vec<MenuEntry> = Vec::new();
    menu.push(MenuEntry::Item { id: "open".to_owned(), title: "Open Insta".to_owned() });
    menu.push(MenuEntry::Separator);
    menu.push(MenuEntry::Item { id: "quit".to_owned(), title: "Quit".to_owned() });
    TrayConfig {
        tray_id: "main".to_owned(),
        tooltip: "Insta".to_owned(),
        menu_on_left_click: false,
        menu,
    }
}

} // verus!
