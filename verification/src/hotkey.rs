//! The eight selectable hotkeys: F9 to F12, alone or with Ctrl.
use vstd::prelude::*;

verus! {

/// How many hotkeys can be chosen from.
pub const HOTKEY_COUNT: i32 = 8;

/// The `MOD_CONTROL` modifier flag of `RegisterHotKey`.
pub const MOD_CONTROL: u32 = 0x0002;

/// Virtual-key code of F9; F10 to F12 follow it.
pub const VK_F9: u32 = 0x78;

/// Menu command of the first hotkey entry; hotkey `i` has command `IDM_HOTKEY_F9 + i`.
pub const IDM_HOTKEY_F9: u32 = 1010;

/// The hotkey that index `idx` stands for: out-of-range indices stand for
/// the first one, F9.
pub open spec fn effective_hotkey(idx: i32) -> i32 {
    if 0 <= idx < HOTKEY_COUNT {
        idx
    } else {
        0
    }
}

/// The display name of hotkey `idx`.
pub open spec fn hotkey_name(idx: i32) -> Seq<char> {
    let i: i32 = effective_hotkey(idx);
    if i == 0 {
        "F9"@
    } else if i == 1 {
        "F10"@
    } else if i == 2 {
        "F11"@
    } else if i == 3 {
        "F12"@
    } else if i == 4 {
        "Ctrl+F9"@
    } else if i == 5 {
        "Ctrl+F10"@
    } else if i == 6 {
        "Ctrl+F11"@
    } else {
        "Ctrl+F12"@
    }
}

/// The modifier flags of hotkey `idx`: Ctrl for indices 4 to 7, none otherwise.
pub open spec fn hotkey_modifiers(idx: i32) -> u32 {
    if 4 <= effective_hotkey(idx) {
        MOD_CONTROL
    } else {
        0
    }
}

/// The virtual-key code of hotkey `idx`: F9, F10, F11, F12 in turn.
pub open spec fn hotkey_vk(idx: i32) -> u32 {
    (VK_F9 + effective_hotkey(idx) % 4) as u32
}

/// The menu command that selects hotkey `idx`.
pub open spec fn hotkey_command(idx: i32) -> u32 {
    (IDM_HOTKEY_F9 + idx) as u32
}

/// Name, modifier flags and virtual-key code of hotkey `idx`; an index
/// outside 0..=7 gives those of F9.
pub fn hotkey_info(idx: i32) -> (r: (&'static str, u32, u32))
    ensures
        r.0@ == hotkey_name(idx),
        r.1 == hotkey_modifiers(idx),
        r.2 == hotkey_vk(idx),
{
    match idx {
        0 => ("F9", 0, 0x78),
        1 => ("F10", 0, 0x79),
        2 => ("F11", 0, 0x7A),
        3 => ("F12", 0, 0x7B),
        4 => ("Ctrl+F9", MOD_CONTROL, 0x78),
        5 => ("Ctrl+F10", MOD_CONTROL, 0x79),
        6 => ("Ctrl+F11", MOD_CONTROL, 0x7A),
        7 => ("Ctrl+F12", MOD_CONTROL, 0x7B),
        _ => ("F9", 0, 0x78),
    }
}

/// The hotkey that menu command `id` selects, if it is one of the eight
/// hotkey commands.
pub fn hotkey_for_command(id: u32) -> (r: Option<i32>)
    ensures
        r == if IDM_HOTKEY_F9 <= id < IDM_HOTKEY_F9 + HOTKEY_COUNT {
            Some((id - IDM_HOTKEY_F9) as i32)
        } else {
            None::<i32>
        },
{
    if IDM_HOTKEY_F9 <= id && id < IDM_HOTKEY_F9 + 8 {
        Some((id - IDM_HOTKEY_F9) as i32)
    } else {
        None
    }
}

/// Law: the menu command of each hotkey selects that hotkey, and no other
/// hotkey shares it.
pub proof fn lemma_hotkey_command_round_trip(idx: i32, other: i32)
    requires
        0 <= idx < HOTKEY_COUNT,
        0 <= other < HOTKEY_COUNT,
    ensures
        IDM_HOTKEY_F9 <= hotkey_command(idx) < IDM_HOTKEY_F9 + HOTKEY_COUNT,
        (hotkey_command(idx) - IDM_HOTKEY_F9) as i32 == idx,
        hotkey_command(idx) == hotkey_command(other) ==> idx == other,
{
}

} // verus!
