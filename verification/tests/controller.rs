use any_crosshair::controller::{Action, TrayState};

const WM_DESTROY: u32 = 0x0002;
const WM_COMMAND: u32 = 0x0111;
const WM_HOTKEY: u32 = 0x0312;
const WM_TRAYICON: u32 = 0x0401;
const WM_PAINT: u32 = 0x000F;

fn registered(hotkey: i32) -> TrayState {
    let mut s = TrayState::new(hotkey);
    s.tray_icon_added(true);
    s.hotkey_registered(true);
    s
}

#[test]
fn start_state_and_registration() {
    let s = TrayState::new(3);
    assert_eq!(s, TrayState { visible: false, tray_added: false, hotkey_id: 0, hotkey: 3 });
    assert_eq!(
        s.registration_actions(),
        vec![Action::RegisterHotkey { id: 0x7000, modifiers: 0, vk: 0x7B }]
    );
    let r = registered(4);
    assert_eq!(
        r.registration_actions(),
        vec![
            Action::UnregisterHotkey(0x7000),
            Action::RegisterHotkey { id: 0x7000, modifiers: 2, vk: 0x78 }
        ]
    );
}

#[test]
fn failed_registration_keeps_previous_id() {
    let mut s = TrayState::new(0);
    s.hotkey_registered(false);
    assert_eq!(s.hotkey_id, 0);
    s.hotkey_registered(true);
    s.hotkey_registered(false);
    assert_eq!(s.hotkey_id, 0x7000);
    let mut t = TrayState::new(0);
    t.tray_icon_added(false);
    assert!(!t.tray_added);
}

#[test]
fn left_click_toggles_twice() {
    let mut s = registered(0);
    let before = s;
    assert_eq!(s.handle_message(WM_TRAYICON, 1, 0x0202), Some(vec![Action::ShowWindow(true)]));
    assert!(s.visible);
    assert_eq!(s.handle_message(WM_TRAYICON, 1, 0x0202), Some(vec![Action::ShowWindow(false)]));
    assert_eq!(s, before);
}

#[test]
fn right_click_opens_menu_and_other_tray_events_do_nothing() {
    let mut s = registered(0);
    assert_eq!(s.handle_message(WM_TRAYICON, 1, 0x0205), Some(vec![Action::ShowMenu]));
    assert_eq!(s.handle_message(WM_TRAYICON, 1, 0x0200), Some(vec![]));
    assert_eq!(s, registered(0));
}

#[test]
fn show_hide_and_autostart_commands() {
    let mut s = registered(0);
    assert_eq!(s.handle_message(WM_COMMAND, 1001, 0), Some(vec![Action::ShowWindow(true)]));
    assert_eq!(s.handle_message(WM_COMMAND, 1002, 0), Some(vec![Action::ToggleAutostart]));
    assert!(s.visible);
    assert_eq!(s.handle_message(WM_COMMAND, 4242, 0), Some(vec![]));
}

#[test]
fn selecting_a_hotkey() {
    let mut s = registered(0);
    let r = s.handle_message(WM_COMMAND, 1015, 0);
    assert_eq!(
        r,
        Some(vec![
            Action::SaveHotkey(5),
            Action::UnregisterHotkey(0x7000),
            Action::RegisterHotkey { id: 0x7000, modifiers: 2, vk: 0x79 },
            Action::UpdateTip,
        ])
    );
    assert_eq!(s.hotkey, 5);
    let mut fresh = TrayState::new(1);
    assert_eq!(
        fresh.handle_message(WM_COMMAND, 1010, 0),
        Some(vec![Action::SaveHotkey(0), Action::RegisterHotkey { id: 0x7000, modifiers: 0, vk: 0x78 }])
    );
    assert_eq!(fresh.hotkey, 0);
}

#[test]
fn command_id_is_truncated_to_32_bits() {
    let mut s = registered(0);
    let w: usize = if usize::BITS == 64 { (1usize << 32) as usize + 1001 } else { 1001 };
    assert_eq!(s.handle_message(WM_COMMAND, w, 0), Some(vec![Action::ShowWindow(true)]));
}

#[test]
fn hotkey_message_toggles_only_for_registered_id() {
    let mut s = registered(0);
    assert_eq!(s.handle_message(WM_HOTKEY, 0x7000, 0), Some(vec![Action::ShowWindow(true)]));
    assert_eq!(s.handle_message(WM_HOTKEY, 0x7001, 0), Some(vec![]));
    assert!(s.visible);
    let mut unregistered = TrayState::new(0);
    assert_eq!(unregistered.handle_message(WM_HOTKEY, 0, 0), Some(vec![Action::ShowWindow(true)]));
}

#[test]
fn exit_command() {
    let mut s = registered(2);
    assert_eq!(
        s.handle_message(WM_COMMAND, 1003, 0),
        Some(vec![Action::RemoveTray, Action::UnregisterHotkey(0x7000), Action::PostQuit])
    );
    assert!(!s.tray_added);
    assert_eq!(s.hotkey_id, 0x7000);
    let mut bare = TrayState::new(0);
    assert_eq!(bare.handle_message(WM_COMMAND, 1003, 0), Some(vec![Action::PostQuit]));
}

#[test]
fn destroy_removes_tray_once() {
    let mut s = registered(0);
    assert_eq!(s.handle_message(WM_DESTROY, 0, 0), Some(vec![Action::RemoveTray, Action::PostQuit]));
    assert_eq!(s.handle_message(WM_DESTROY, 0, 0), Some(vec![Action::PostQuit]));
}

#[test]
fn other_messages_go_to_default_procedure() {
    let mut s = registered(0);
    assert_eq!(s.handle_message(WM_PAINT, 0, 0), None);
    assert_eq!(s, registered(0));
}

#[test]
fn toggle_twice_restores_state() {
    let mut s = registered(3);
    let before = s;
    assert_eq!(s.toggle(), vec![Action::ShowWindow(true)]);
    assert_eq!(s.toggle(), vec![Action::ShowWindow(false)]);
    assert_eq!(s, before);
}
