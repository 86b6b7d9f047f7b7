//! The native menu: a platform-dependent model of the menu bar, and the
//! fixed table that translates a clicked menu item's identifier into the
//! front-end script snippet to evaluate.  Every custom item the builder
//! places in a menu has an entry in that table.

use vstd::prelude::*;

verus! {

use crate::commands::HostOs;
use crate::text::concat3;
use crate::text::str_eq;

/// The menu items the GUI shell predefines; the backend only places them.
#[derive(Debug, Clone, Copy, PartialEq, Eq, Structural)]
pub enum NativeItem {
    Separator,
    Hide,
    HideOthers,
    ShowAll,
    Quit,
    Cut,
    Copy,
    Paste,
    SelectAll,
    Minimize,
    Maximize,
}

/// A custom menu item: its click identifier, display label, and optional
/// keyboard accelerator.
#[derive(Debug, Clone)]
pub struct MenuItemDef {
    pub id: String,
    pub label: String,
    pub accelerator: Option<String>,
}

/// One entry of a submenu: an item of the backend's own, or a predefined
/// one with an optional label override.
#[derive(Debug, Clone)]
pub enum MenuEntry {
    Custom(MenuItemDef),
    Native(NativeItem, Option<String>),
}

/// A titled submenu of the menu bar.
#[derive(Debug, Clone)]
pub struct SubmenuDef {
    pub title: String,
    pub entries: Vec<MenuEntry>,
}

/// The script snippet evaluated in the front end for a menu identifier;
/// `None` for an identifier the table does not know.
pub open spec fn menu_script(id: Seq<char>) -> Option<Seq<char>> {
    if id == "new_file"@ {
        Some("try { if (window.newFile) window.newFile(); } catch(e) { console.error('newFile error:', e); }"@)
    } else if id == "open_file"@ {
        Some("try { if (window.openFile) window.openFile(); } catch(e) { console.error('openFile error:', e); }"@)
    } else if id == "save_file"@ {
        Some("try { if (window.saveFile) window.saveFile(); } catch(e) { console.error('saveFile error:', e); }"@)
    } else if id == "save_as_file"@ {
        Some("try { if (window.saveAsFile) window.saveAsFile(); } catch(e) { console.error('saveAsFile error:', e); }"@)
    } else if id == "exit_app"@ {
        Some("try { if (window.exitApp) window.exitApp(); } catch(e) { console.error('exitApp error:', e); }"@)
    } else if id == "undo"@ {
        Some("try { if (window.undo) window.undo(); } catch(e) { console.error('undo error:', e); }"@)
    } else if id == "redo"@ {
        Some("try { if (window.redo) window.redo(); } catch(e) { console.error('redo error:', e); }"@)
    } else if id == "font_settings"@ {
        Some("try { if (window.showFontSettingsDialog) window.showFontSettingsDialog(); } catch(e) { console.error('fontSettings error:', e); }"@)
    } else if id == "font_size_input"@ {
        Some("try { if (window.showFontSizeInputDialog) window.showFontSizeInputDialog(); } catch(e) { console.error('fontSizeInput error:', e); }"@)
    } else if id == "increase_font"@ {
        Some("try { if (window.increaseFontSize) window.increaseFontSize(); } catch(e) { console.error('increaseFontSize error:', e); }"@)
    } else if id == "decrease_font"@ {
        Some("try { if (window.decreaseFontSize) window.decreaseFontSize(); } catch(e) { console.error('decreaseFontSize error:', e); }"@)
    } else if id == "toggle_line_highlight"@ {
        Some("try { if (window.toggleLineHighlight) window.toggleLineHighlight(); } catch(e) { console.error('toggleLineHighlight error:', e); }"@)
    } else if id == "toggle_typewriter_mode"@ {
        Some("try { if (window.toggleTypewriterMode) window.toggleTypewriterMode(); } catch(e) { console.error('toggleTypewriterMode error:', e); }"@)
    } else if id == "toggle_whitespace_visualization"@ {
        Some("try { if (window.toggleWhitespaceVisualization) window.toggleWhitespaceVisualization(); } catch(e) { console.error('toggleWhitespaceVisualization error:', e); }"@)
    } else if id == "whitespace_settings"@ {
        Some("try { if (window.showWhitespaceVisualizationDialog) window.showWhitespaceVisualizationDialog(); } catch(e) { console.error('whitespaceSettings error:', e); }"@)
    } else if id == "show_search"@ {
        Some("try { if (window.showSearchDialog) window.showSearchDialog(); } catch(e) { console.error('showSearchDialog error:', e); }"@)
    } else if id == "show_replace"@ {
        Some("try { if (window.showReplaceDialog) window.showReplaceDialog(); } catch(e) { console.error('showReplaceDialog error:', e); }"@)
    } else if id == "extension_settings"@ {
        Some("try { if (window.showExtensionSettingsDialog) window.showExtensionSettingsDialog(); } catch(e) { console.error('extensionSettings error:', e); }"@)
    } else if id == "language_settings"@ {
        Some("try { if (window.showLanguageSettingsDialog) window.showLanguageSettingsDialog(); } catch(e) { console.error('languageSettings error:', e); }"@)
    } else if id == "show_theme"@ {
        Some("try { if (window.showThemeDialog) window.showThemeDialog(); } catch(e) { console.error('showTheme error:', e); }"@)
    } else if id == "open_app_folder"@ {
        Some("try { if (window.openAppFolder) window.openAppFolder(); } catch(e) { console.error('openAppFolder error:', e); }"@)
    } else if id == "about"@ {
        Some("try { if (window.showAboutDialog) window.showAboutDialog(); } catch(e) { console.error('showAboutDialog error:', e); }"@)
    } else {
        None
    }
}

/// Look up the front-end script for a clicked menu identifier.
pub fn script_for_menu_id(id: &str) -> (r: Option<&'static str>)
    ensures
        (r is Some) == (menu_script(id@) is Some),
        r matches Some(s) ==> menu_script(id@) == Some(s@),
{
    if str_eq(id, "new_file") {
        Some("try { if (window.newFile) window.newFile(); } catch(e) { console.error('newFile error:', e); }")
    } else if str_eq(id, "open_file") {
        Some("try { if (window.openFile) window.openFile(); } catch(e) { console.error('openFile error:', e); }")
    } else if str_eq(id, "save_file") {
        Some("try { if (window.saveFile) window.saveFile(); } catch(e) { console.error('saveFile error:', e); }")
    } else if str_eq(id, "save_as_file") {
        Some("try { if (window.saveAsFile) window.saveAsFile(); } catch(e) { console.error('saveAsFile error:', e); }")
    } else if str_eq(id, "exit_app") {
        Some("try { if (window.exitApp) window.exitApp(); } catch(e) { console.error('exitApp error:', e); }")
    } else if str_eq(id, "undo") {
        Some("try { if (window.undo) window.undo(); } catch(e) { console.error('undo error:', e); }")
    } else if str_eq(id, "redo") {
        Some("try { if (window.redo) window.redo(); } catch(e) { console.error('redo error:', e); }")
    } else if str_eq(id, "font_settings") {
        Some("try { if (window.showFontSettingsDialog) window.showFontSettingsDialog(); } catch(e) { console.error('fontSettings error:', e); }")
    } else if str_eq(id, "font_size_input") {
        Some("try { if (window.showFontSizeInputDialog) window.showFontSizeInputDialog(); } catch(e) { console.error('fontSizeInput error:', e); }")
    } else if str_eq(id, "increase_font") {
        Some("try { if (window.increaseFontSize) window.increaseFontSize(); } catch(e) { console.error('increaseFontSize error:', e); }")
    } else if str_eq(id, "decrease_font") {
        Some("try { if (window.decreaseFontSize) window.decreaseFontSize(); } catch(e) { console.error('decreaseFontSize error:', e); }")
    } else if str_eq(id, "toggle_line_highlight") {
        Some("try { if (window.toggleLineHighlight) window.toggleLineHighlight(); } catch(e) { console.error('toggleLineHighlight error:', e); }")
    } else if str_eq(id, "toggle_typewriter_mode") {
        Some("try { if (window.toggleTypewriterMode) window.toggleTypewriterMode(); } catch(e) { console.error('toggleTypewriterMode error:', e); }")
    } else if str_eq(id, "toggle_whitespace_visualization") {
        Some("try { if (window.toggleWhitespaceVisualization) window.toggleWhitespaceVisualization(); } catch(e) { console.error('toggleWhitespaceVisualization error:', e); }")
    } else if str_eq(id, "whitespace_settings") {
        Some("try { if (window.showWhitespaceVisualizationDialog) window.showWhitespaceVisualizationDialog(); } catch(e) { console.error('whitespaceSettings error:', e); }")
    } else if str_eq(id, "show_search") {
        Some("try { if (window.showSearchDialog) window.showSearchDialog(); } catch(e) { console.error('showSearchDialog error:', e); }")
    } else if str_eq(id, "show_replace") {
        Some("try { if (window.showReplaceDialog) window.showReplaceDialog(); } catch(e) { console.error('showReplaceDialog error:', e); }")
    } else if str_eq(id, "extension_settings") {
        Some("try { if (window.showExtensionSettingsDialog) window.showExtensionSettingsDialog(); } catch(e) { console.error('extensionSettings error:', e); }")
    } else if str_eq(id, "language_settings") {
        Some("try { if (window.showLanguageSettingsDialog) window.showLanguageSettingsDialog(); } catch(e) { console.error('languageSettings error:', e); }")
    } else if str_eq(id, "show_theme") {
        Some("try { if (window.showThemeDialog) window.showThemeDialog(); } catch(e) { console.error('showTheme error:', e); }")
    } else if str_eq(id, "open_app_folder") {
        Some("try { if (window.openAppFolder) window.openAppFolder(); } catch(e) { console.error('openAppFolder error:', e); }")
    } else if str_eq(id, "about") {
        Some("try { if (window.showAboutDialog) window.showAboutDialog(); } catch(e) { console.error('showAboutDialog error:', e); }")
    } else {
        None
    }
}

/// The deferred re-attempt wrapped around a script whose first evaluation
/// failed: the same snippet, retried once after a short delay.
pub fn fallback_script(script: &str) -> (r: String)
    ensures
        r@ == "setTimeout(() => { try { "@ + script@
            + " } catch(e) { console.error('Fallback execution error:', e); } }, 100);"@,
{
    concat3(
        "setTimeout(() => { try { ",
        script,
        " } catch(e) { console.error('Fallback execution error:', e); } }, 100);",
    )
}

/// The entry is a custom item with this click identifier.
pub open spec fn entry_is_custom(e: MenuEntry, id: Seq<char>) -> bool {
    e matches MenuEntry::Custom(item) && item.id@ == id
}

/// The entry is a predefined item of this kind.
pub open spec fn entry_is_native(e: MenuEntry, kind: NativeItem) -> bool {
    e matches MenuEntry::Native(k, _) && k == kind
}

/// The application menu shown on macOS: about, then the predefined
/// hide/show group, then quit.
pub open spec fn mac_app_menu_shape(m: SubmenuDef) -> bool {
    &&& m.title@ == "Vinsert"@
    &&& m.entries@.len() == 7
    &&& entry_is_custom(m.entries@[0], "about"@)
    &&& entry_is_native(m.entries@[1], NativeItem::Separator)
    &&& entry_is_native(m.entries@[2], NativeItem::Hide)
    &&& entry_is_native(m.entries@[3], NativeItem::HideOthers)
    &&& entry_is_native(m.entries@[4], NativeItem::ShowAll)
    &&& entry_is_native(m.entries@[5], NativeItem::Separator)
    &&& entry_is_native(m.entries@[6], NativeItem::Quit)
}

/// The application menu shown on Windows: about, then a custom exit item.
pub open spec fn windows_app_menu_shape(m: SubmenuDef) -> bool {
    &&& m.title@ == "Application"@
    &&& m.entries@.len() == 3
    &&& entry_is_custom(m.entries@[0], "about"@)
    &&& entry_is_native(m.entries@[1], NativeItem::Separator)
    &&& entry_is_custom(m.entries@[2], "exit_app"@)
}

/// The file menu: new and open, then save and save-as; platforms without
/// an application menu carry the exit item at its end.
pub open spec fn file_menu_shape(m: SubmenuDef, with_exit: bool) -> bool {
    &&& m.title@ == "File"@
    &&& m.entries@.len() == (if with_exit {
        7int
    } else {
        5int
    })
    &&& entry_is_custom(m.entries@[0], "new_file"@)
    &&& entry_is_custom(m.entries@[1], "open_file"@)
    &&& entry_is_native(m.entries@[2], NativeItem::Separator)
    &&& entry_is_custom(m.entries@[3], "save_file"@)
    &&& entry_is_custom(m.entries@[4], "save_as_file"@)
    &&& (with_exit ==> entry_is_native(m.entries@[5], NativeItem::Separator) && entry_is_custom(
        m.entries@[6],
        "exit_app"@,
    ))
}

/// The edit menu: undo and redo, the predefined clipboard group, then
/// select-all.
pub open spec fn edit_menu_shape(m: SubmenuDef) -> bool {
    &&& m.title@ == "Edit"@
    &&& m.entries@.len() == 8
    &&& entry_is_custom(m.entries@[0], "undo"@)
    &&& entry_is_custom(m.entries@[1], "redo"@)
    &&& entry_is_native(m.entries@[2], NativeItem::Separator)
    &&& entry_is_native(m.entries@[3], NativeItem::Cut)
    &&& entry_is_native(m.entries@[4], NativeItem::Copy)
    &&& entry_is_native(m.entries@[5], NativeItem::Paste)
    &&& entry_is_native(m.entries@[6], NativeItem::Separator)
    &&& entry_is_native(m.entries@[7], NativeItem::SelectAll)
}

/// The view menu: font settings and sizing, then the display toggles.
pub open spec fn view_menu_shape(m: SubmenuDef) -> bool {
    &&& m.title@ == "View"@
    &&& m.entries@.len() == 11
    &&& entry_is_custom(m.entries@[0], "font_settings"@)
    &&& entry_is_custom(m.entries@[1], "font_size_input"@)
    &&& entry_is_native(m.entries@[2], NativeItem::Separator)
    &&& entry_is_custom(m.entries@[3], "increase_font"@)
    &&& entry_is_custom(m.entries@[4], "decrease_font"@)
    &&& entry_is_native(m.entries@[5], NativeItem::Separator)
    &&& entry_is_custom(m.entries@[6], "toggle_line_highlight"@)
    &&& entry_is_custom(m.entries@[7], "toggle_typewriter_mode"@)
    &&& entry_is_native(m.entries@[8], NativeItem::Separator)
    &&& entry_is_custom(m.entries@[9], "toggle_whitespace_visualization"@)
    &&& entry_is_custom(m.entries@[10], "whitespace_settings"@)
}

/// The search menu: find and replace.
pub open spec fn search_menu_shape(m: SubmenuDef) -> bool {
    &&& m.title@ == "Search"@
    &&& m.entries@.len() == 2
    &&& entry_is_custom(m.entries@[0], "show_search"@)
    &&& entry_is_custom(m.entries@[1], "show_replace"@)
}

/// The extensions menu: extension, language and theme settings, then the
/// application-folder opener.
pub open spec fn extensions_menu_shape(m: SubmenuDef) -> bool {
    &&& m.title@ == "Extensions"@
    &&& m.entries@.len() == 6
    &&& entry_is_custom(m.entries@[0], "extension_settings"@)
    &&& entry_is_native(m.entries@[1], NativeItem::Separator)
    &&& entry_is_custom(m.entries@[2], "language_settings"@)
    &&& entry_is_custom(m.entries@[3], "show_theme"@)
    &&& entry_is_native(m.entries@[4], NativeItem::Separator)
    &&& entry_is_custom(m.entries@[5], "open_app_folder"@)
}

/// The window menu shown on macOS: minimize and zoom.
pub open spec fn mac_window_menu_shape(m: SubmenuDef) -> bool {
    &&& m.title@ == "Window"@
    &&& m.entries@.len() == 2
    &&& entry_is_native(m.entries@[0], NativeItem::Minimize)
    &&& entry_is_native(m.entries@[1], NativeItem::Maximize)
}

/// Every custom item of the submenu has a script in the dispatch table.
pub open spec fn submenu_dispatchable(m: SubmenuDef) -> bool {
    forall|j: int|
        0 <= j < m.entries@.len() ==> (#[trigger] m.entries@[j] matches MenuEntry::Custom(item)
            ==> menu_script(item.id@) is Some)
}

/// Every custom item anywhere in the menu bar has a script in the dispatch
/// table: a click is never silently dropped.
pub open spec fn menu_dispatchable(menu: Seq<SubmenuDef>) -> bool {
    forall|i: int| 0 <= i < menu.len() ==> submenu_dispatchable(#[trigger] menu[i])
}

fn custom(id: &str, label: &str, accelerator: Option<&str>) -> (e: MenuEntry)
    ensures
        e matches MenuEntry::Custom(item) && item.id@ == id@ && item.label@ == label@,
{
    MenuEntry::Custom(
        MenuItemDef {
            id: id.to_owned(),
            label: label.to_owned(),
            accelerator: match accelerator {
                Some(a) => Some(a.to_owned()),
                None => None,
            },
        },
    )
}

fn native(kind: NativeItem, label: Option<&str>) -> (e: MenuEntry)
    ensures
        e matches MenuEntry::Native(k, _) && k == kind,
{
    MenuEntry::Native(
        kind,
        match label {
            Some(l) => Some(l.to_owned()),
            None => None,
        },
    )
}

fn separator() -> (e: MenuEntry)
    ensures
        e matches MenuEntry::Native(k, _) && k == NativeItem::Separator,
{
    MenuEntry::Native(NativeItem::Separator, None)
}

/// The application menu shown on macOS.
fn mac_app_menu() -> (m: SubmenuDef)
    ensures
        submenu_dispatchable(m),
        mac_app_menu_shape(m),
{
    let mut entries: Vec<MenuEntry> = Vec::new();
    entries.push(custom("about", "About Vinsert", None));
    entries.push(separator());
    entries.push(native(NativeItem::Hide, Some("Hide Vinsert")));
    entries.push(native(NativeItem::HideOthers, Some("Hide Others")));
    entries.push(native(NativeItem::ShowAll, Some("Show All")));
    entries.push(separator());
    entries.push(native(NativeItem::Quit, Some("Quit Vinsert")));
    SubmenuDef { title: "Vinsert".to_owned(), entries }
}

/// The application menu shown on Windows.
fn windows_app_menu() -> (m: SubmenuDef)
    ensures
        submenu_dispatchable(m),
        windows_app_menu_shape(m),
{
    let mut entries: Vec<MenuEntry> = Vec::new();
    entries.push(custom("about", "About Vinsert", None));
    entries.push(separator());
    entries.push(custom("exit_app", "Exit", Some("Alt+F4")));
    SubmenuDef { title: "Application".to_owned(), entries }
}

/// The file menu; platforms without an application menu carry the exit item
/// at its end.
fn file_menu(with_exit: bool) -> (m: SubmenuDef)
    ensures
        submenu_dispatchable(m),
        file_menu_shape(m, with_exit),
{
    let mut entries: Vec<MenuEntry> = Vec::new();
    entries.push(custom("new_file", "New", Some("CmdOrCtrl+N")));
    entries.push(custom("open_file", "Open", Some("CmdOrCtrl+O")));
    entries.push(separator());
    entries.push(custom("save_file", "Save", Some("CmdOrCtrl+S")));
    entries.push(custom("save_as_file", "Save As", Some("CmdOrCtrl+Shift+S")));
    if with_exit {
        entries.push(separator());
        entries.push(custom("exit_app", "Exit", Some("Ctrl+Q")));
    }
    SubmenuDef { title: "File".to_owned(), entries }
}

/// The edit menu.
fn edit_menu() -> (m: SubmenuDef)
    ensures
        submenu_dispatchable(m),
        edit_menu_shape(m),
{
    let mut entries: Vec<MenuEntry> = Vec::new();
    entries.push(custom("undo", "Undo", Some("CmdOrCtrl+Z")));
    entries.push(custom("redo", "Redo", Some("CmdOrCtrl+Shift+Z")));
    entries.push(separator());
    entries.push(native(NativeItem::Cut, Some("Cut")));
    entries.push(native(NativeItem::Copy, Some("Copy")));
    entries.push(native(NativeItem::Paste, Some("Paste")));
    entries.push(separator());
    entries.push(native(NativeItem::SelectAll, Some("Select All")));
    SubmenuDef { title: "Edit".to_owned(), entries }
}

/// The view menu.
fn view_menu() -> (m: SubmenuDef)
    ensures
        submenu_dispatchable(m),
        view_menu_shape(m),
{
    let mut entries: Vec<MenuEntry> = Vec::new();
    entries.push(custom("font_settings", "Font Settings", None));
    entries.push(custom("font_size_input", "Set Font Size", None));
    entries.push(separator());
    entries.push(custom("increase_font", "Increase Font Size", Some("CmdOrCtrl+Plus")));
    entries.push(custom("decrease_font", "Decrease Font Size", Some("CmdOrCtrl+Minus")));
    entries.push(separator());
    entries.push(custom("toggle_line_highlight", "Line Highlight", None));
    entries.push(custom("toggle_typewriter_mode", "Typewriter Mode", None));
    entries.push(separator());
    entries.push(custom("toggle_whitespace_visualization", "Show Whitespace", None));
    entries.push(custom("whitespace_settings", "Whitespace Settings", None));
    SubmenuDef { title: "View".to_owned(), entries }
}

/// The search menu.
fn search_menu() -> (m: SubmenuDef)
    ensures
        submenu_dispatchable(m),
        search_menu_shape(m),
{
    let mut entries: Vec<MenuEntry> = Vec::new();
    entries.push(custom("show_search", "Find", Some("CmdOrCtrl+F")));
    entries.push(custom("show_replace", "Replace", Some("CmdOrCtrl+H")));
    SubmenuDef { title: "Search".to_owned(), entries }
}

/// The extensions menu.
fn extensions_menu() -> (m: SubmenuDef)
    ensures
        submenu_dispatchable(m),
        extensions_menu_shape(m),
{
    let mut entries: Vec<MenuEntry> = Vec::new();
    entries.push(custom("extension_settings", "Extension Settings", None));
    entries.push(separator());
    entries.push(custom("language_settings", "Language Settings", None));
    entries.push(custom("show_theme", "Theme", None));
    entries.push(separator());
    entries.push(custom("open_app_folder", "Open Application Folder", None));
    SubmenuDef { title: "Extensions".to_owned(), entries }
}

/// The window menu shown on macOS.
fn mac_window_menu() -> (m: SubmenuDef)
    ensures
        submenu_dispatchable(m),
        mac_window_menu_shape(m),
{
    let mut entries: Vec<MenuEntry> = Vec::new();
    entries.push(native(NativeItem::Minimize, Some("Minimize")));
    entries.push(native(NativeItem::Maximize, Some("Zoom")));
    SubmenuDef { title: "Window".to_owned(), entries }
}

/// Build the menu bar for a host platform: the fixed per-platform sequence
/// of submenus, each with its fixed title and entry sequence.  Every custom
/// item it contains is dispatchable, every submenu is non-empty, and every
/// platform gets a way to exit: a predefined quit item inside the macOS
/// application menu, a custom exit item otherwise.
pub fn build_menu(os: HostOs) -> (menu: Vec<SubmenuDef>)
    ensures
        menu_dispatchable(menu@),
        forall|i: int| 0 <= i < menu@.len() ==> (#[trigger] menu@[i]).entries@.len() > 0,
        os == HostOs::MacOs ==> menu@.len() == 7 && mac_app_menu_shape(menu@[0])
            && file_menu_shape(menu@[1], false) && edit_menu_shape(menu@[2]) && view_menu_shape(
            menu@[3],
        ) && search_menu_shape(menu@[4]) && extensions_menu_shape(menu@[5])
            && mac_window_menu_shape(menu@[6]),
        os == HostOs::Windows ==> menu@.len() == 6 && windows_app_menu_shape(menu@[0])
            && file_menu_shape(menu@[1], false) && edit_menu_shape(menu@[2]) && view_menu_shape(
            menu@[3],
        ) && search_menu_shape(menu@[4]) && extensions_menu_shape(menu@[5]),
        os == HostOs::Linux || os == HostOs::Other ==> menu@.len() == 5 && file_menu_shape(
            menu@[0],
            true,
        ) && edit_menu_shape(menu@[1]) && view_menu_shape(menu@[2]) && search_menu_shape(menu@[3])
            && extensions_menu_shape(menu@[4]),
{
    let mut menu: Vec<SubmenuDef> = Vec::new();
    match os {
        HostOs::MacOs => {
            menu.push(mac_app_menu());
            menu.push(file_menu(false));
            menu.push(edit_menu());
            menu.push(view_menu());
            menu.push(search_menu());
            menu.push(extensions_menu());
            menu.push(mac_window_menu());
        },
        HostOs::Windows => {
            menu.push(windows_app_menu());
            menu.push(file_menu(false));
            menu.push(edit_menu());
            menu.push(view_menu());
            menu.push(search_menu());
            menu.push(extensions_menu());
        },
        HostOs::Linux | HostOs::Other => {
            menu.push(file_menu(true));
            menu.push(edit_menu());
            menu.push(view_menu());
            menu.push(search_menu());
            menu.push(extensions_menu());
        },
    }
    menu
}

} // verus!
