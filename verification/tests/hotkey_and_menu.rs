use any_crosshair::hotkey::{hotkey_for_command, hotkey_info, MOD_CONTROL};
use any_crosshair::menu::{tray_menu, tray_tip, MenuEntry, MF_CHECKED, MF_STRING};

#[test]
fn hotkey_table() {
    assert_eq!(hotkey_info(0), ("F9", 0, 0x78));
    assert_eq!(hotkey_info(1), ("F10", 0, 0x79));
    assert_eq!(hotkey_info(2), ("F11", 0, 0x7A));
    assert_eq!(hotkey_info(3), ("F12", 0, 0x7B));
    assert_eq!(hotkey_info(4), ("Ctrl+F9", MOD_CONTROL, 0x78));
    assert_eq!(hotkey_info(5), ("Ctrl+F10", 2, 0x79));
    assert_eq!(hotkey_info(6), ("Ctrl+F11", 2, 0x7A));
    assert_eq!(hotkey_info(7), ("Ctrl+F12", 2, 0x7B));
}

#[test]
fn hotkey_out_of_range_is_f9() {
    assert_eq!(hotkey_info(8), ("F9", 0, 0x78));
    assert_eq!(hotkey_info(-1), ("F9", 0, 0x78));
    assert_eq!(hotkey_info(i32::MAX), ("F9", 0, 0x78));
}

#[test]
fn hotkey_commands() {
    for i in 0..8 {
        assert_eq!(hotkey_for_command(1010 + i as u32), Some(i));
    }
    assert_eq!(hotkey_for_command(1009), None);
    assert_eq!(hotkey_for_command(1018), None);
    assert_eq!(hotkey_for_command(1001), None);
}

#[test]
fn menu_layout_hidden_without_autostart() {
    let m = tray_menu(false, false, 0);
    assert_eq!(
        m.entries,
        vec![
            MenuEntry::Item { flags: MF_STRING, id: 1001, text: "显示准心" },
            MenuEntry::Separator,
            MenuEntry::Submenu { text: "热键" },
            MenuEntry::Separator,
            MenuEntry::Item { flags: 0, id: 1002, text: "开机自启" },
            MenuEntry::Separator,
            MenuEntry::Item { flags: 0, id: 1003, text: "退出" },
        ]
    );
}

#[test]
fn menu_layout_visible_with_autostart() {
    let m = tray_menu(true, true, 5);
    assert_eq!(m.entries[0], MenuEntry::Item { flags: 0, id: 1001, text: "隐藏准心" });
    assert_eq!(m.entries[4], MenuEntry::Item { flags: MF_CHECKED, id: 1002, text: "开机自启" });
}

#[test]
fn hotkey_submenu_checks_only_current() {
    for cur in 0..8 {
        let m = tray_menu(false, false, cur);
        assert_eq!(m.hotkeys.len(), 8);
        for (i, e) in m.hotkeys.iter().enumerate() {
            let (name, _, _) = hotkey_info(i as i32);
            let flags = if i as i32 == cur { MF_CHECKED } else { MF_STRING };
            assert_eq!(*e, MenuEntry::Item { flags, id: 1010 + i as u32, text: name });
        }
    }
}

#[test]
fn tooltip_text() {
    let mut expected: Vec<u16> = "Any Crosshair - Ctrl+F11".encode_utf16().collect();
    expected.push(0);
    assert_eq!(tray_tip(6), expected);
    let mut f9: Vec<u16> = "Any Crosshair - F9".encode_utf16().collect();
    f9.push(0);
    assert_eq!(tray_tip(0), f9);
    assert_eq!(tray_tip(42), f9);
}
