use vinsert_backend::commands::HostOs;
use vinsert_backend::menu::build_menu;
use vinsert_backend::menu::fallback_script;
use vinsert_backend::menu::script_for_menu_id;
use vinsert_backend::menu::MenuEntry;
use vinsert_backend::menu::NativeItem;

#[test]
fn script_lookup_known_ids() {
    assert_eq!(
        script_for_menu_id("new_file"),
        Some("try { if (window.newFile) window.newFile(); } catch(e) { console.error('newFile error:', e); }")
    );
    assert_eq!(
        script_for_menu_id("about"),
        Some("try { if (window.showAboutDialog) window.showAboutDialog(); } catch(e) { console.error('showAboutDialog error:', e); }")
    );
    assert_eq!(
        script_for_menu_id("show_search"),
        Some("try { if (window.showSearchDialog) window.showSearchDialog(); } catch(e) { console.error('showSearchDialog error:', e); }")
    );
}

#[test]
fn script_lookup_unknown_id() {
    assert_eq!(script_for_menu_id("no_such_item"), None);
    assert_eq!(script_for_menu_id(""), None);
}

#[test]
fn fallback_wraps_script() {
    let s = fallback_script("doThing();");
    assert_eq!(
        s,
        "setTimeout(() => { try { doThing(); } catch(e) { console.error('Fallback execution error:', e); } }, 100);"
    );
}

#[test]
fn menu_sizes_per_platform() {
    assert_eq!(build_menu(HostOs::MacOs).len(), 7);
    assert_eq!(build_menu(HostOs::Windows).len(), 6);
    assert_eq!(build_menu(HostOs::Linux).len(), 5);
    assert_eq!(build_menu(HostOs::Other).len(), 5);
}

#[test]
fn every_custom_item_is_dispatchable() {
    for os in [HostOs::MacOs, HostOs::Windows, HostOs::Linux, HostOs::Other] {
        for submenu in build_menu(os) {
            assert!(!submenu.entries.is_empty());
            for entry in submenu.entries {
                if let MenuEntry::Custom(item) = entry {
                    assert!(
                        script_for_menu_id(&item.id).is_some(),
                        "no script for {}",
                        item.id
                    );
                }
            }
        }
    }
}

#[test]
fn mac_menu_ends_app_menu_with_quit() {
    let menu = build_menu(HostOs::MacOs);
    assert_eq!(menu[0].title, "Vinsert");
    match menu[0].entries.last() {
        Some(MenuEntry::Native(NativeItem::Quit, _)) => {},
        other => panic!("expected predefined quit, got {:?}", other),
    }
}

#[test]
fn windows_menu_has_custom_exit() {
    let menu = build_menu(HostOs::Windows);
    match menu[0].entries.last() {
        Some(MenuEntry::Custom(item)) => assert_eq!(item.id, "exit_app"),
        other => panic!("expected custom exit item, got {:?}", other),
    }
}

#[test]
fn linux_file_menu_has_custom_exit() {
    let menu = build_menu(HostOs::Linux);
    assert_eq!(menu[0].title, "File");
    assert_eq!(menu[0].entries.len(), 7);
    match menu[0].entries.last() {
        Some(MenuEntry::Custom(item)) => {
            assert_eq!(item.id, "exit_app");
            assert_eq!(item.accelerator.as_deref(), Some("Ctrl+Q"));
        },
        other => panic!("expected custom exit item, got {:?}", other),
    }
}
