//! The overlay's decisions: what each window message does to the
//! overlay's state, and which operations the message loop must perform.
//!
//! The caller owns the window, the tray icon and the registered hotkey;
//! it performs the returned actions in order and reports back the
//! outcome of the operations that can fail.
use vstd::prelude::*;
use crate::hotkey::{hotkey_for_command, hotkey_info, hotkey_modifiers, hotkey_vk, HOTKEY_COUNT};

verus! {

pub const WM_DESTROY: u32 = 0x0002;

pub const WM_COMMAND: u32 = 0x0111;

pub const WM_HOTKEY: u32 = 0x0312;

pub const WM_LBUTTONUP: u32 = 0x0202;

pub const WM_RBUTTONUP: u32 = 0x0205;

/// The tray icon's callback message (`WM_USER + 1`).
pub const WM_TRAYICON: u32 = 0x0401;

pub const IDM_SHOW_HIDE: u32 = 1001;

pub const IDM_AUTOSTART: u32 = 1002;

pub const IDM_EXIT: u32 = 1003;

/// The id under which the hotkey is registered.
pub const HOTKEY_REGISTRATION_ID: i32 = 0x7000;

/// What the overlay remembers between messages.
#[derive(Clone, Copy, Debug, PartialEq, Eq, Structural)]
pub struct TrayState {
    /// Whether the crosshair window is shown.
    pub visible: bool,
    /// Whether the tray icon has been added.
    pub tray_added: bool,
    /// The id of the registered hotkey, 0 while none has been registered.
    pub hotkey_id: i32,
    /// The selected hotkey, 0 to 7.
    pub hotkey: i32,
}

/// An operation that the message loop performs for the overlay.
#[derive(Clone, Copy, Debug, PartialEq, Eq, Structural)]
pub enum Action {
    /// Show (`true`) or hide (`false`) the crosshair window.
    ShowWindow(bool),
    /// Open the tray menu at the cursor.
    ShowMenu,
    /// Flip the start-with-Windows registry entry.
    ToggleAutostart,
    /// Write the setting file for this hotkey index.
    SaveHotkey(i32),
    /// Unregister the hotkey registered under this id.
    UnregisterHotkey(i32),
    /// Register a hotkey under `id`, then report the outcome with
    /// [`TrayState::hotkey_registered`].
    RegisterHotkey { id: i32, modifiers: u32, vk: u32 },
    /// Refresh the tray icon's tooltip for the selected hotkey.
    UpdateTip,
    /// Remove the tray icon.
    RemoveTray,
    /// Leave the message loop.
    PostQuit,
}

/// The state and the actions after one message; `None` in place of the
/// actions means that the message goes to the default window procedure.
pub open spec fn step(s: TrayState, msg: u32, wparam: usize, lparam: isize) -> (
    TrayState,
    Option<Seq<Action>>,
) {
    if msg == WM_TRAYICON {
        let event: u32 = lparam as u32;
        if event == WM_LBUTTONUP {
            (toggled(s), Some(seq![Action::ShowWindow(!s.visible)]))
        } else if event == WM_RBUTTONUP {
            (s, Some(seq![Action::ShowMenu]))
        } else {
            (s, Some(seq![]))
        }
    } else if msg == WM_COMMAND {
        let id: u32 = wparam as u32;
        if id == IDM_SHOW_HIDE {
            (toggled(s), Some(seq![Action::ShowWindow(!s.visible)]))
        } else if id == IDM_AUTOSTART {
            (s, Some(seq![Action::ToggleAutostart]))
        } else if crate::hotkey::IDM_HOTKEY_F9 <= id < crate::hotkey::IDM_HOTKEY_F9 + HOTKEY_COUNT {
            let idx: i32 = (id - crate::hotkey::IDM_HOTKEY_F9) as i32;
            (
                TrayState { hotkey: idx, ..s },
                Some(
                    seq![Action::SaveHotkey(idx)] + registration(TrayState { hotkey: idx, ..s })
                        + tip_refresh(s),
                ),
            )
        } else if id == IDM_EXIT {
            (
                TrayState { tray_added: false, ..s },
                Some(tray_removal(s) + unregistration(s) + seq![Action::PostQuit]),
            )
        } else {
            (s, Some(seq![]))
        }
    } else if msg == WM_HOTKEY {
        if wparam as i32 == s.hotkey_id {
            (toggled(s), Some(seq![Action::ShowWindow(!s.visible)]))
        } else {
            (s, Some(seq![]))
        }
    } else if msg == WM_DESTROY {
        (TrayState { tray_added: false, ..s }, Some(tray_removal(s) + seq![Action::PostQuit]))
    } else {
        (s, None)
    }
}

/// `s` with the window's visibility flipped.
pub open spec fn toggled(s: TrayState) -> TrayState {
    TrayState { visible: !s.visible, ..s }
}

/// Removing the tray icon: only when it was added.
pub open spec fn tray_removal(s: TrayState) -> Seq<Action> {
    if s.tray_added {
        seq![Action::RemoveTray]
    } else {
        seq![]
    }
}

/// Unregistering the hotkey: only when one was registered.
pub open spec fn unregistration(s: TrayState) -> Seq<Action> {
    if s.hotkey_id != 0 {
        seq![Action::UnregisterHotkey(s.hotkey_id)]
    } else {
        seq![]
    }
}

/// (Re)registering the selected hotkey: the registered one, if any, is
/// unregistered first.
pub open spec fn registration(s: TrayState) -> Seq<Action> {
    unregistration(s) + seq![
        Action::RegisterHotkey {
            id: HOTKEY_REGISTRATION_ID,
            modifiers: hotkey_modifiers(s.hotkey),
            vk: hotkey_vk(s.hotkey),
        },
    ]
}

/// Refreshing the tooltip: only when the tray icon is there.
pub open spec fn tip_refresh(s: TrayState) -> Seq<Action> {
    if s.tray_added {
        seq![Action::UpdateTip]
    } else {
        seq![]
    }
}

impl TrayState {
    /// The state's invariant: a valid hotkey, and a registration id that is
    /// either none or the one this overlay registers under.
    pub open spec fn wf(&self) -> bool {
        &&& 0 <= self.hotkey < HOTKEY_COUNT
        &&& (self.hotkey_id == 0 || self.hotkey_id == HOTKEY_REGISTRATION_ID)
    }

    /// The state at start-up: hidden, no tray icon, no hotkey registered,
    /// and the hotkey read from the setting file.
    pub fn new(hotkey: i32) -> (s: TrayState)
        requires
            0 <= hotkey < HOTKEY_COUNT,
        ensures
            s.wf(),
            s == (TrayState { visible: false, tray_added: false, hotkey_id: 0, hotkey }),
    {
        TrayState { visible: false, tray_added: false, hotkey_id: 0, hotkey }
    }

    fn push_unregistration(&self, actions: &mut Vec<Action>)
        ensures
            final(actions)@ == old(actions)@ + unregistration(*self),
    {
        if self.hotkey_id != 0 {
            actions.push(Action::UnregisterHotkey(self.hotkey_id));
        }
    }

    fn push_registration(&self, actions: &mut Vec<Action>)
        ensures
            final(actions)@ == old(actions)@ + registration(*self),
    {
        self.push_unregistration(actions);
        let (_, modifiers, vk) = hotkey_info(self.hotkey);
        actions.push(Action::RegisterHotkey { id: HOTKEY_REGISTRATION_ID, modifiers, vk });
        assert(final(actions)@ == old(actions)@ + unregistration(*self) + seq![
            Action::RegisterHotkey { id: HOTKEY_REGISTRATION_ID, modifiers, vk },
        ]);
    }

    /// The actions that (re)register the selected hotkey, as at start-up.
    pub fn registration_actions(&self) -> (actions: Vec<Action>)
        ensures
            actions@ == registration(*self),
    {
        let mut actions: Vec<Action> = Vec::new();
        self.push_registration(&mut actions);
        assert(actions@ == registration(*self));
        actions
    }

    /// Records the outcome of a `RegisterHotkey` action: on success the
    /// hotkey is registered under [`HOTKEY_REGISTRATION_ID`]; on failure
    /// the recorded id stays as it was.
    pub fn hotkey_registered(&mut self, ok: bool)
        requires
            old(self).wf(),
        ensures
            final(self).wf(),
            *final(self) == (TrayState {
                hotkey_id: if ok {
                    HOTKEY_REGISTRATION_ID
                } else {
                    old(self).hotkey_id
                },
                ..*old(self)
            }),
    {
        if ok {
            self.hotkey_id = HOTKEY_REGISTRATION_ID;
        }
    }

    /// Records the outcome of adding the tray icon: on success it is there;
    /// a failure changes nothing.
    pub fn tray_icon_added(&mut self, ok: bool)
        requires
            old(self).wf(),
        ensures
            final(self).wf(),
            *final(self) == (TrayState { tray_added: old(self).tray_added || ok, ..*old(self) }),
    {
        if ok {
            self.tray_added = true;
        }
    }

    /// Shows the window when it is hidden and hides it when it is shown:
    /// flips the visibility and asks for the matching `ShowWindow`.
    pub fn toggle(&mut self) -> (actions: Vec<Action>)
        ensures
            final(self).wf() == old(self).wf(),
            *final(self) == toggled(*old(self)),
            actions@ == seq![Action::ShowWindow(!old(self).visible)],
    {
        self.visible = !self.visible;
        let mut actions: Vec<Action> = Vec::new();
        actions.push(Action::ShowWindow(self.visible));
        actions
    }

    /// Handles one window message: updates the state and returns the
    /// actions to perform, or `None` when the message is not the overlay's
    /// and goes to the default window procedure.
    pub fn handle_message(&mut self, msg: u32, wparam: usize, lparam: isize) -> (r: Option<
        Vec<Action>,
    >)
        requires
            old(self).wf(),
        ensures
            final(self).wf(),
            *final(self) == step(*old(self), msg, wparam, lparam).0,
            match r {
                Some(actions) => step(*old(self), msg, wparam, lparam).1 == Some(actions@),
                None => step(*old(self), msg, wparam, lparam).1 is None,
            },
    {
        if msg == WM_TRAYICON {
            let event: u32 = lparam as u32;
            if event == WM_LBUTTONUP {
                Some(self.toggle())
            } else if event == WM_RBUTTONUP {
                let mut actions: Vec<Action> = Vec::new();
                actions.push(Action::ShowMenu);
                Some(actions)
            } else {
                Some(Vec::new())
            }
        } else if msg == WM_COMMAND {
            let id: u32 = wparam as u32;
            if id == IDM_SHOW_HIDE {
                Some(self.toggle())
            } else if id == IDM_AUTOSTART {
                let mut actions: Vec<Action> = Vec::new();
                actions.push(Action::ToggleAutostart);
                Some(actions)
            } else if let Some(idx) = hotkey_for_command(id) {
                let old_state = *self;
                let mut actions: Vec<Action> = Vec::new();
                actions.push(Action::SaveHotkey(idx));
                self.hotkey = idx;
                self.push_registration(&mut actions);
                if self.tray_added {
                    actions.push(Action::UpdateTip);
                }
                assert(actions@ == seq![Action::SaveHotkey(idx)] + registration(*self)
                    + tip_refresh(old_state));
                Some(actions)
            } else if id == IDM_EXIT {
                let mut actions: Vec<Action> = Vec::new();
                if self.tray_added {
                    actions.push(Action::RemoveTray);
                    self.tray_added = false;
                }
                self.push_unregistration(&mut actions);
                actions.push(Action::PostQuit);
                assert(actions@ == tray_removal(*old(self)) + unregistration(*old(self)) + seq![
                    Action::PostQuit,
                ]);
                Some(actions)
            } else {
                Some(Vec::new())
            }
        } else if msg == WM_HOTKEY {
            if wparam as i32 == self.hotkey_id {
                Some(self.toggle())
            } else {
                Some(Vec::new())
            }
        } else if msg == WM_DESTROY {
            let mut actions: Vec<Action> = Vec::new();
            if self.tray_added {
                actions.push(Action::RemoveTray);
                self.tray_added = false;
            }
            actions.push(Action::PostQuit);
            assert(actions@ == tray_removal(*old(self)) + seq![Action::PostQuit]);
            Some(actions)
        } else {
            None
        }
    }
}


/// Law: showing/hiding undoes itself. Two left clicks on the tray icon,
/// two show/hide menu commands, or two presses of the registered hotkey
/// leave the state as it was, and each one shows the window exactly when
/// it was hidden.
pub proof fn lemma_toggle_twice(s: TrayState, msg: u32, wparam: usize, lparam: isize)
    requires
        s.wf(),
        (msg == WM_TRAYICON && lparam as u32 == WM_LBUTTONUP) || (msg == WM_COMMAND && wparam as u32
            == IDM_SHOW_HIDE) || (msg == WM_HOTKEY && s.hotkey_id != 0 && wparam as i32
            == s.hotkey_id),
    ensures
        step(s, msg, wparam, lparam).0 == toggled(s),
        step(s, msg, wparam, lparam).1 == Some(seq![Action::ShowWindow(!s.visible)]),
        step(step(s, msg, wparam, lparam).0, msg, wparam, lparam).0 == s,
{
}

/// Law: of the tray icon's callback events only the release of the left
/// button (show/hide) and of the right button (open the menu) do
/// anything; every other event (button presses, moves, double clicks, ...)
/// leaves the state as it was and asks for nothing.
pub proof fn lemma_tray_events(s: TrayState, wparam: usize, lparam: isize)
    ensures
        lparam as u32 == WM_LBUTTONUP ==> step(s, WM_TRAYICON, wparam, lparam) == (
            TrayState { visible: !s.visible, ..s },
            Some(seq![Action::ShowWindow(!s.visible)]),
        ),
        lparam as u32 == WM_RBUTTONUP ==> step(s, WM_TRAYICON, wparam, lparam) == (
            s,
            Some(seq![Action::ShowMenu]),
        ),
        lparam as u32 != WM_LBUTTONUP && lparam as u32 != WM_RBUTTONUP ==> step(
            s,
            WM_TRAYICON,
            wparam,
            lparam,
        ) == (s, Some(Seq::<Action>::empty())),
{
}

/// Law: toggling undoes itself. After two calls of [`TrayState::toggle`]
/// the state is what it was, and the two `ShowWindow` actions asked for
/// are "show" then "hide" from a hidden window, "hide" then "show" from a
/// shown one.
pub proof fn lemma_toggle_undoes_itself(s: TrayState)
    ensures
        toggled(toggled(s)) == s,
        toggled(s).visible == !s.visible,
        toggled(toggled(s)).visible == s.visible,
{
}

/// Law: whatever the message, the window is shown or hidden only to
/// match the new visibility, and visibility changes only together with
/// such an action.
pub proof fn lemma_visibility_follows_actions(s: TrayState, msg: u32, wparam: usize, lparam: isize)
    requires
        s.wf(),
    ensures
        ({
            let (t, actions) = step(s, msg, wparam, lparam);
            &&& t.wf()
            &&& actions matches Some(a) ==> forall|i: int|
                0 <= i < a.len() && (#[trigger] a[i]) is ShowWindow ==> a[i]->ShowWindow_0 == t.visible
            &&& t.visible != s.visible ==> actions == Some(seq![Action::ShowWindow(t.visible)])
        }),
{
    let (t, actions) = step(s, msg, wparam, lparam);
    if let Some(a) = actions {
        assert forall|i: int| 0 <= i < a.len() && (#[trigger] a[i]) is ShowWindow implies a[i]->ShowWindow_0
            == t.visible by {
            if msg == WM_COMMAND && crate::hotkey::IDM_HOTKEY_F9 <= (wparam as u32)
                < crate::hotkey::IDM_HOTKEY_F9 + HOTKEY_COUNT {
                let idx: i32 = (wparam as u32 - crate::hotkey::IDM_HOTKEY_F9) as i32;
                let u = TrayState { hotkey: idx, ..s };
                assert(a == seq![Action::SaveHotkey(idx)] + registration(u) + tip_refresh(s));
                assert(a.len() == 1 + registration(u).len() + tip_refresh(s).len());
                if i == 0 {
                } else if i < 1 + registration(u).len() {
                    assert(a[i] == registration(u)[i - 1]);
                    if i - 1 < unregistration(u).len() {
                        assert(registration(u)[i - 1] == unregistration(u)[i - 1]);
                    } else {
                        assert(registration(u)[i - 1] == seq![
                            Action::RegisterHotkey {
                                id: HOTKEY_REGISTRATION_ID,
                                modifiers: hotkey_modifiers(u.hotkey),
                                vk: hotkey_vk(u.hotkey),
                            },
                        ][i - 1 - unregistration(u).len()]);
                    }
                } else {
                    assert(a[i] == tip_refresh(s)[i - 1 - registration(u).len()]);
                }
            } else if msg == WM_COMMAND && wparam as u32 == IDM_EXIT {
                let rm = tray_removal(s);
                let un = unregistration(s);
                assert(a == rm + un + seq![Action::PostQuit]);
                if i < rm.len() {
                    assert(a[i] == rm[i]);
                } else if i < rm.len() + un.len() {
                    assert(a[i] == un[i - rm.len()]);
                } else {
                    assert(a[i] == Action::PostQuit);
                }
            } else if msg == WM_DESTROY {
                let rm = tray_removal(s);
                if i < rm.len() {
                    assert(a[i] == rm[i]);
                } else {
                    assert(a[i] == Action::PostQuit);
                }
            }
        }
    }
}

/// Law: choosing hotkey `k` from the menu selects it, saves it, registers
/// exactly its key combination under the overlay's id (after unregistering
/// the previous one, if any) and refreshes the tooltip when there is a
/// tray icon; nothing else in the state changes.
pub proof fn lemma_select_hotkey(s: TrayState, k: i32, lparam: isize)
    requires
        s.wf(),
        0 <= k < HOTKEY_COUNT,
    ensures
        ({
            let (t, actions) = step(
                s,
                WM_COMMAND,
                crate::hotkey::hotkey_command(k) as usize,
                lparam,
            );
            &&& t == TrayState { hotkey: k, ..s }
            &&& actions == Some(
                seq![Action::SaveHotkey(k)] + unregistration(s) + seq![
                    Action::RegisterHotkey {
                        id: HOTKEY_REGISTRATION_ID,
                        modifiers: hotkey_modifiers(k),
                        vk: hotkey_vk(k),
                    },
                ] + tip_refresh(s),
            )
        }),
{
    let u = TrayState { hotkey: k, ..s };
    assert(unregistration(u) == unregistration(s));
}

/// Law: quitting (the exit command) and window destruction end the
/// message loop as their last action, remove the tray icon exactly when
/// it was added, and leave no tray icon recorded; the exit command also
/// unregisters the hotkey when one is registered.
pub proof fn lemma_quit(s: TrayState, msg: u32, wparam: usize, lparam: isize)
    requires
        s.wf(),
        msg == WM_DESTROY || (msg == WM_COMMAND && wparam as u32 == IDM_EXIT),
    ensures
        ({
            let (t, actions) = step(s, msg, wparam, lparam);
            &&& !t.tray_added
            &&& t == TrayState { tray_added: false, ..s }
            &&& actions matches Some(a) && a.len() > 0 && a.last() == Action::PostQuit && (
            a.contains(Action::RemoveTray) <==> s.tray_added) && (msg == WM_COMMAND ==> a
                == tray_removal(s) + unregistration(s) + seq![Action::PostQuit])
        }),
{
    let (t, actions) = step(s, msg, wparam, lparam);
    let a = actions.unwrap();
    if !s.tray_added {
        assert(tray_removal(s) == Seq::<Action>::empty());
        if a.contains(Action::RemoveTray) {
            let i: int = choose|i: int| 0 <= i < a.len() && a[i] == Action::RemoveTray;
            if msg == WM_COMMAND {
                let un = unregistration(s);
                if i < un.len() {
                    assert(a[i] == un[i]);
                }
            }
        }
    } else {
        assert(a[0] == Action::RemoveTray);
    }
}

/// Law: messages other than the tray callback, menu commands, hotkeys and
/// window destruction change nothing and go to the default procedure.
pub proof fn lemma_other_messages(s: TrayState, msg: u32, wparam: usize, lparam: isize)
    requires
        msg != WM_TRAYICON,
        msg != WM_COMMAND,
        msg != WM_HOTKEY,
        msg != WM_DESTROY,
    ensures
        step(s, msg, wparam, lparam) == (s, None::<Seq<Action>>),
{
}

} // verus!
