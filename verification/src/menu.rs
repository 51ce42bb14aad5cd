//! The tray icon's right-click menu and its tooltip.
use vstd::prelude::*;
use crate::controller::{IDM_AUTOSTART, IDM_EXIT, IDM_SHOW_HIDE};
use crate::hotkey::{hotkey_info, hotkey_name, HOTKEY_COUNT, IDM_HOTKEY_F9};
use crate::text::{chars_of, utf16_encode, wide_of};

verus! {

/// `MF_STRING`: a plain text item.
pub const MF_STRING: u32 = 0x0000;

/// `MF_UNCHECKED`: no check mark.
pub const MF_UNCHECKED: u32 = 0x0000;

/// `MF_CHECKED`: a check mark beside the item.
pub const MF_CHECKED: u32 = 0x0008;

/// `MF_POPUP`: the item opens a submenu.
pub const MF_POPUP: u32 = 0x0010;

/// `MF_SEPARATOR`: a separator line.
pub const MF_SEPARATOR: u32 = 0x0800;

/// The room for a tooltip in the tray icon's data, in UTF-16 units.
pub const TIP_CAPACITY: usize = 128;

/// One entry of a menu, in the order in which it is appended.
#[derive(Clone, Copy, Debug, PartialEq, Eq)]
pub enum MenuEntry {
    /// A command item with its `MF_*` flags, command id and label.
    Item { flags: u32, id: u32, text: &'static str },
    /// A separator line.
    Separator,
    /// The hotkey submenu, under this label.
    Submenu { text: &'static str },
}

/// A menu entry with its label as characters.
pub enum EntryModel {
    Item(u32, u32, Seq<char>),
    Separator,
    Submenu(Seq<char>),
}

pub open spec fn entry_model(e: MenuEntry) -> EntryModel {
    match e {
        MenuEntry::Item { flags, id, text } => EntryModel::Item(flags, id, text@),
        MenuEntry::Separator => EntryModel::Separator,
        MenuEntry::Submenu { text } => EntryModel::Submenu(text@),
    }
}

pub open spec fn entries_model(es: Seq<MenuEntry>) -> Seq<EntryModel> {
    es.map_values(|e: MenuEntry| entry_model(e))
}

/// The tray menu: its entries, and the entries of the hotkey submenu.
pub struct TrayMenu {
    pub entries: Vec<MenuEntry>,
    pub hotkeys: Vec<MenuEntry>,
}

/// The main menu: show/hide (labelled by what it will do), the hotkey
/// submenu, start with Windows (checked when enabled) and exit, separated
/// by lines.
pub open spec fn main_menu(visible: bool, autostart: bool) -> Seq<EntryModel> {
    seq![
        EntryModel::Item(
            MF_STRING,
            IDM_SHOW_HIDE,
            if visible {
                "隐藏准心"@
            } else {
                "显示准心"@
            },
        ),
        EntryModel::Separator,
        EntryModel::Submenu("热键"@),
        EntryModel::Separator,
        EntryModel::Item(
            if autostart {
                MF_STRING | MF_CHECKED
            } else {
                MF_STRING | MF_UNCHECKED
            },
            IDM_AUTOSTART,
            "开机自启"@,
        ),
        EntryModel::Separator,
        EntryModel::Item(MF_STRING, IDM_EXIT, "退出"@),
    ]
}

/// The hotkey submenu: one item per hotkey, in index order, the selected
/// one checked.
pub open spec fn hotkey_menu(current: i32) -> Seq<EntryModel> {
    Seq::new(
        HOTKEY_COUNT as nat,
        |i: int|
            EntryModel::Item(
                if i == current {
                    MF_STRING | MF_CHECKED
                } else {
                    MF_STRING
                },
                (IDM_HOTKEY_F9 + i) as u32,
                hotkey_name(i as i32),
            ),
    )
}

/// The tray menu for the given visibility, start-with-Windows setting and
/// selected hotkey.
pub fn tray_menu(visible: bool, autostart: bool, current: i32) -> (m: TrayMenu)
    ensures
        entries_model(m.entries@) == main_menu(visible, autostart),
        entries_model(m.hotkeys@) == hotkey_menu(current),
{
    let mut entries: Vec<MenuEntry> = Vec::new();
    let show_hide = if visible {
        "隐藏准心"
    } else {
        "显示准心"
    };
    entries.push(MenuEntry::Item { flags: MF_STRING, id: IDM_SHOW_HIDE, text: show_hide });
    entries.push(MenuEntry::Separator);
    entries.push(MenuEntry::Submenu { text: "热键" });
    entries.push(MenuEntry::Separator);
    let autostart_flags: u32 = if autostart {
        MF_STRING | MF_CHECKED
    } else {
        MF_STRING | MF_UNCHECKED
    };
    entries.push(MenuEntry::Item { flags: autostart_flags, id: IDM_AUTOSTART, text: "开机自启" });
    entries.push(MenuEntry::Separator);
    entries.push(MenuEntry::Item { flags: MF_STRING, id: IDM_EXIT, text: "退出" });
    assert(entries_model(entries@) == main_menu(visible, autostart));

    let mut hotkeys: Vec<MenuEntry> = Vec::new();
    let mut idx: i32 = 0;
    while idx < 8
        invariant
            0 <= idx <= HOTKEY_COUNT,
            entries_model(hotkeys@) == hotkey_menu(current).take(idx as int),
        decreases 8 - idx,
    {
        let (name, _, _) = hotkey_info(idx);
        let flags: u32 = if idx == current {
            MF_STRING | MF_CHECKED
        } else {
            MF_STRING
        };
        let ghost before = hotkeys@;
        let item = MenuEntry::Item { flags, id: IDM_HOTKEY_F9 + idx as u32, text: name };
        hotkeys.push(item);
        assert(entries_model(hotkeys@) == entries_model(before).push(entry_model(item)));
        assert(hotkey_menu(current).take(idx + 1) == hotkey_menu(current).take(idx as int).push(
            hotkey_menu(current)[idx as int],
        ));
        idx += 1;
    }
    assert(hotkey_menu(current).take(8) == hotkey_menu(current));
    TrayMenu { entries, hotkeys }
}

/// The tooltip text for hotkey `idx`: the application's name and the
/// hotkey's name.
pub open spec fn tip_text(idx: i32) -> Seq<char> {
    "Any Crosshair - "@ + hotkey_name(idx)
}

/// The tooltip as stored in the tray icon's data: the NUL-terminated
/// UTF-16 text, cut to the tooltip's capacity.
pub open spec fn tip_units(idx: i32) -> Seq<u16> {
    let w = wide_of(tip_text(idx));
    w.take(if w.len() < TIP_CAPACITY { w.len() as int } else { TIP_CAPACITY as int })
}

/// The tooltip of the tray icon while hotkey `idx` is selected.
pub fn tray_tip(idx: i32) -> (units: Vec<u16>)
    ensures
        units@ == tip_units(idx),
        units@.len() <= TIP_CAPACITY,
{
    let (name, _, _) = hotkey_info(idx);
    let mut chars = chars_of("Any Crosshair - ");
    let mut name_chars = chars_of(name);
    chars.append(&mut name_chars);
    let mut units = utf16_encode(chars.as_slice());
    units.push(0u16);
    if units.len() > TIP_CAPACITY {
        units.truncate(TIP_CAPACITY);
    }
    units
}

/// Law: the start-with-Windows item is the fifth entry, carries the
/// start-with-Windows command, and is checked exactly when starting with
/// Windows is enabled, whether the crosshair is shown or not; the first
/// entry, show/hide, depends on the visibility alone.
pub proof fn lemma_menu_items(visible: bool, autostart: bool)
    ensures
        main_menu(visible, autostart).len() == 7,
        main_menu(visible, autostart)[4] matches EntryModel::Item(flags, id, text) && id
            == IDM_AUTOSTART && text == "开机自启"@ && ((flags & MF_CHECKED != 0) <==> autostart),
        main_menu(visible, autostart)[4] == main_menu(!visible, autostart)[4],
        main_menu(visible, autostart)[0] matches EntryModel::Item(_, id, _) && id == IDM_SHOW_HIDE,
        main_menu(visible, autostart)[0] == main_menu(visible, !autostart)[0],
{
    assert(MF_STRING | MF_CHECKED == 8u32) by (bit_vector);
    assert(MF_STRING | MF_UNCHECKED == 0u32) by (bit_vector);
    assert(8u32 & MF_CHECKED != 0) by (bit_vector);
    assert(0u32 & MF_CHECKED == 0) by (bit_vector);
}

proof fn lemma_utf16_ascii(s: Seq<char>)
    requires
        forall|k: int| 0 <= k < s.len() ==> (#[trigger] s[k] as int) < 0x80,
    ensures
        crate::text::utf16_of(s).len() == s.len(),
        forall|k: int| 0 <= k < s.len() ==> #[trigger] crate::text::utf16_of(s)[k] == s[k] as u16,
    decreases s.len(),
{
    if s.len() > 0 {
        lemma_utf16_ascii(s.drop_last());
        let p = crate::text::utf16_of(s.drop_last());
        assert(crate::text::utf16_of(s) == p + seq![s.last() as u16]);
        assert forall|k: int| 0 <= k < s.len() implies #[trigger] crate::text::utf16_of(s)[k]
            == s[k] as u16 by {
            if k < s.len() - 1 {
                assert(s.drop_last()[k] == s[k]);
            }
        }
    }
}

/// Law: the tooltip spells, unit by unit, "Any Crosshair - " followed by
/// the name that [`hotkey_info`] gives for the same index, then a NUL; it
/// always fits the tooltip's room, so nothing is cut.
pub proof fn lemma_tip_names_hotkey(idx: i32)
    ensures
        ({
            let t = tip_units(idx);
            let prefix = "Any Crosshair - "@;
            let name = hotkey_name(idx);
            &&& prefix.len() == 16
            &&& t.len() == 17 + name.len()
            &&& t.len() <= TIP_CAPACITY
            &&& forall|k: int| 0 <= k < 16 ==> t[k] == prefix[k] as u16
            &&& forall|k: int| 0 <= k < name.len() ==> t[16 + k] == name[k] as u16
            &&& t[16 + name.len() as int] == 0
        }),
{
    reveal_strlit("Any Crosshair - ");
    reveal_strlit("F9");
    reveal_strlit("F10");
    reveal_strlit("F11");
    reveal_strlit("F12");
    reveal_strlit("Ctrl+F9");
    reveal_strlit("Ctrl+F10");
    reveal_strlit("Ctrl+F11");
    reveal_strlit("Ctrl+F12");
    let prefix = "Any Crosshair - "@;
    let name = hotkey_name(idx);
    let text = prefix + name;
    assert(name.len() <= 8);
    assert forall|k: int| 0 <= k < text.len() implies (#[trigger] text[k] as int) < 0x80 by {
        if k < 16 {
            assert(text[k] == prefix[k]);
        } else {
            assert(text[k] == name[k - 16]);
        }
    }
    lemma_utf16_ascii(text);
    let w = wide_of(text);
    assert(w.len() == text.len() + 1);
    assert(tip_units(idx) == w);
    assert forall|k: int| 0 <= k < 16 implies w[k] == prefix[k] as u16 by {
        assert(w[k] == crate::text::utf16_of(text)[k]);
        assert(text[k] == prefix[k]);
    }
    assert forall|k: int| 0 <= k < name.len() implies w[16 + k] == name[k] as u16 by {
        assert(w[16 + k] == crate::text::utf16_of(text)[16 + k]);
        assert(text[16 + k] == name[k]);
    }
}

/// Law: in the hotkey submenu exactly one item is checked, the one of the
/// selected hotkey, and each item carries the command that selects its
/// hotkey.
pub proof fn lemma_one_hotkey_checked(current: i32, i: int)
    requires
        0 <= current < HOTKEY_COUNT,
        0 <= i < HOTKEY_COUNT,
    ensures
        hotkey_menu(current)[i] matches EntryModel::Item(flags, id, _) && ((flags & MF_CHECKED
            != 0) <==> i == current) && id == crate::hotkey::hotkey_command(i as i32),
{
    assert(MF_STRING | MF_CHECKED == 8u32) by (bit_vector);
    assert(MF_STRING == 0u32);
    assert(8u32 & MF_CHECKED != 0) by (bit_vector);
    assert(0u32 & MF_CHECKED == 0) by (bit_vector);
}

} // verus!
