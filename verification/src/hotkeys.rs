//! Hotkeys that are found by hooks on the keyboard and the mouse, for games in which the
//! shortcuts of the system do not arrive.

use crate::text::{blank, chars_of, concat2, is_blank, str_eq};
use std::collections::HashSet;
use vstd::prelude::*;

verus! {

pub const VK_MBUTTON_CODE: u32 = 0x04;

pub const VK_XBUTTON1_CODE: u32 = 0x05;

pub const VK_XBUTTON2_CODE: u32 = 0x06;

pub const VK_F1_CODE: u32 = 0x70;

pub const VK_F24_CODE: u32 = 0x87;

// ---------------------------------------------------------------------------
// Keys
// ---------------------------------------------------------------------------

/// The key of a hotkey.
#[derive(Debug, PartialEq, Eq)]
pub enum HotkeyKey {
    Function(u8),
    Keyboard(String),
    Middle,
    Mouse4,
    Mouse5,
}

/// A hotkey as it is written in the settings.
#[derive(Debug, PartialEq, Eq)]
pub struct HotkeySpec {
    pub ctrl: bool,
    pub alt: bool,
    pub shift: bool,
    pub key: HotkeyKey,
}

/// A hotkey as the hooks see it.
#[derive(Debug, Clone, Copy, PartialEq, Eq, Structural)]
pub struct HookHotkey {
    pub ctrl: bool,
    pub alt: bool,
    pub shift: bool,
    pub key_vk: u32,
}

#[derive(Debug, Clone, Copy, PartialEq, Eq, Structural)]
pub enum HookAction {
    SaveReplay,
    ToggleRecording,
    Bookmark,
}

#[derive(Debug, Clone, Copy, PartialEq, Eq, Structural)]
pub struct HookBinding {
    pub hotkey: HookHotkey,
    pub action: HookAction,
}

/// An upper-case ASCII letter or a digit.
pub open spec fn is_key_character(c: char) -> bool {
    'A' <= c <= 'Z' || '0' <= c <= '9'
}

/// The virtual key of a key that has a name.
pub open spec fn named_key(key: Seq<char>) -> Option<u32> {
    if key == "Backspace"@ {
        Some(0x08)
    } else if key == "Tab"@ {
        Some(0x09)
    } else if key == "Enter"@ {
        Some(0x0D)
    } else if key == "Space"@ {
        Some(0x20)
    } else if key == "PageUp"@ {
        Some(0x21)
    } else if key == "PageDown"@ {
        Some(0x22)
    } else if key == "End"@ {
        Some(0x23)
    } else if key == "Home"@ {
        Some(0x24)
    } else if key == "ArrowLeft"@ {
        Some(0x25)
    } else if key == "ArrowUp"@ {
        Some(0x26)
    } else if key == "ArrowRight"@ {
        Some(0x27)
    } else if key == "ArrowDown"@ {
        Some(0x28)
    } else if key == "Insert"@ {
        Some(0x2D)
    } else if key == "Delete"@ {
        Some(0x2E)
    } else if key == "Semicolon"@ {
        Some(0xBA)
    } else if key == "Equal"@ {
        Some(0xBB)
    } else if key == "Comma"@ {
        Some(0xBC)
    } else if key == "Minus"@ {
        Some(0xBD)
    } else if key == "Period"@ {
        Some(0xBE)
    } else if key == "Slash"@ {
        Some(0xBF)
    } else if key == "Backquote"@ {
        Some(0xC0)
    } else if key == "BracketLeft"@ {
        Some(0xDB)
    } else if key == "Backslash"@ {
        Some(0xDC)
    } else if key == "BracketRight"@ {
        Some(0xDD)
    } else if key == "Quote"@ {
        Some(0xDE)
    } else {
        None
    }
}

/// The virtual key of a key: a letter or a digit is its own, others have names.
pub open spec fn keyboard_vk(key: Seq<char>) -> Option<u32> {
    if key.len() == 1 && is_key_character(key[0]) {
        Some(key[0] as u32)
    } else {
        named_key(key)
    }
}

pub fn keyboard_key_vk_code(key: &str) -> (vk: Option<u32>)
    ensures
        vk == keyboard_vk(key@),
{
    let chars = chars_of(key);
    if chars.len() == 1 {
        let c = chars[0];
        if ('A' <= c && c <= 'Z') || ('0' <= c && c <= '9') {
            return Some(c as u32);
        }
    }
    if str_eq(key, "Backspace") {
        Some(0x08)
    } else if str_eq(key, "Tab") {
        Some(0x09)
    } else if str_eq(key, "Enter") {
        Some(0x0D)
    } else if str_eq(key, "Space") {
        Some(0x20)
    } else if str_eq(key, "PageUp") {
        Some(0x21)
    } else if str_eq(key, "PageDown") {
        Some(0x22)
    } else if str_eq(key, "End") {
        Some(0x23)
    } else if str_eq(key, "Home") {
        Some(0x24)
    } else if str_eq(key, "ArrowLeft") {
        Some(0x25)
    } else if str_eq(key, "ArrowUp") {
        Some(0x26)
    } else if str_eq(key, "ArrowRight") {
        Some(0x27)
    } else if str_eq(key, "ArrowDown") {
        Some(0x28)
    } else if str_eq(key, "Insert") {
        Some(0x2D)
    } else if str_eq(key, "Delete") {
        Some(0x2E)
    } else if str_eq(key, "Semicolon") {
        Some(0xBA)
    } else if str_eq(key, "Equal") {
        Some(0xBB)
    } else if str_eq(key, "Comma") {
        Some(0xBC)
    } else if str_eq(key, "Minus") {
        Some(0xBD)
    } else if str_eq(key, "Period") {
        Some(0xBE)
    } else if str_eq(key, "Slash") {
        Some(0xBF)
    } else if str_eq(key, "Backquote") {
        Some(0xC0)
    } else if str_eq(key, "BracketLeft") {
        Some(0xDB)
    } else if str_eq(key, "Backslash") {
        Some(0xDC)
    } else if str_eq(key, "BracketRight") {
        Some(0xDD)
    } else if str_eq(key, "Quote") {
        Some(0xDE)
    } else {
        None
    }
}

/// Whether the keyboard hook looks at a virtual key.
pub open spec fn is_hooked_vk(vk: u32) -> bool {
    ||| VK_F1_CODE <= vk <= VK_F24_CODE
    ||| 0x30 <= vk <= 0x39
    ||| 0x41 <= vk <= 0x5A
    ||| vk == 0x08
    ||| vk == 0x09
    ||| vk == 0x0D
    ||| 0x20 <= vk <= 0x28
    ||| vk == 0x2D
    ||| vk == 0x2E
    ||| 0xBA <= vk <= 0xC0
    ||| 0xDB <= vk <= 0xDE
}

pub fn is_supported_keyboard_hook_vk(vk_code: u32) -> (r: bool)
    ensures
        r == is_hooked_vk(vk_code),
{
    (VK_F1_CODE <= vk_code && vk_code <= VK_F24_CODE) || (0x30 <= vk_code && vk_code <= 0x39) || (
    0x41 <= vk_code && vk_code <= 0x5A) || vk_code == 0x08 || vk_code == 0x09 || vk_code == 0x0D
        || (0x20 <= vk_code && vk_code <= 0x28) || vk_code == 0x2D || vk_code == 0x2E || (0xBA
        <= vk_code && vk_code <= 0xC0) || (0xDB <= vk_code && vk_code <= 0xDE)
}

/// The virtual key of a mouse button beside the thumb; its number is in the upper half of
/// the data.
pub open spec fn thumb_button(mouse_data: u32) -> Option<u32> {
    if mouse_data / 0x10000 == 1 {
        Some(VK_XBUTTON1_CODE)
    } else if mouse_data / 0x10000 == 2 {
        Some(VK_XBUTTON2_CODE)
    } else {
        None
    }
}

pub fn xbutton_vk_code(mouse_data: u32) -> (vk: Option<u32>)
    ensures
        vk == thumb_button(mouse_data),
{
    let button: u32 = (mouse_data >> 16) & 0xffff;
    assert((mouse_data >> 16u32) & 0xffffu32 == mouse_data / 0x10000u32) by (bit_vector);
    if button == 1 {
        Some(VK_XBUTTON1_CODE)
    } else if button == 2 {
        Some(VK_XBUTTON2_CODE)
    } else {
        None
    }
}

impl HookHotkey {
    pub fn matches(&self, vk_code: u32, ctrl: bool, alt: bool, shift: bool) -> (r: bool)
        ensures
            r == is_pressed(*self, vk_code, ctrl, alt, shift),
    {
        self.key_vk == vk_code && self.ctrl == ctrl && self.alt == alt && self.shift == shift
    }

    pub fn requires_mouse_hook(&self) -> (r: bool)
        ensures
            r == is_mouse_button(self.key_vk),
    {
        self.key_vk == VK_MBUTTON_CODE || self.key_vk == VK_XBUTTON1_CODE || self.key_vk
            == VK_XBUTTON2_CODE
    }
}

/// Whether a key with exactly these modifiers is a hotkey.
pub open spec fn is_pressed(
    hotkey: HookHotkey,
    vk_code: u32,
    ctrl: bool,
    alt: bool,
    shift: bool,
) -> bool {
    hotkey == (HookHotkey { ctrl, alt, shift, key_vk: vk_code })
}

/// Whether a virtual key is a button of the mouse.
pub open spec fn is_mouse_button(vk: u32) -> bool {
    vk == VK_MBUTTON_CODE || vk == VK_XBUTTON1_CODE || vk == VK_XBUTTON2_CODE
}

// ---------------------------------------------------------------------------
// Bindings
// ---------------------------------------------------------------------------

/// The hotkeys of each action, as the settings hold them.
#[derive(Debug, Clone, Copy)]
pub struct HookHotkeys<'a> {
    pub save: &'a [&'a str],
    pub recording: &'a [&'a str],
    pub bookmark: &'a [&'a str],
}

/// What reading the hotkeys of each action gave, one by one.
#[derive(Debug, PartialEq, Eq)]
pub struct ReadHotkeys {
    pub save: Vec<Result<HotkeySpec, String>>,
    pub recording: Vec<Result<HotkeySpec, String>>,
    pub bookmark: Vec<Result<HotkeySpec, String>>,
}

/// Each hotkey was read.
pub open spec fn reads(hotkeys: HookHotkeys<'_>, read: ReadHotkeys) -> bool {
    &&& read.save@.len() == hotkeys.save@.len()
    &&& read.recording@.len() == hotkeys.recording@.len()
    &&& read.bookmark@.len() == hotkeys.bookmark@.len()
}

/// The virtual key of the key of a hotkey.
pub open spec fn key_vk(key: HotkeyKey) -> Option<u32> {
    match key {
        HotkeyKey::Function(number) => Some((VK_F1_CODE + number - 1) as u32),
        HotkeyKey::Keyboard(key) => keyboard_vk(key@),
        HotkeyKey::Middle => Some(VK_MBUTTON_CODE),
        HotkeyKey::Mouse4 => Some(VK_XBUTTON1_CODE),
        HotkeyKey::Mouse5 => Some(VK_XBUTTON2_CODE),
    }
}

/// A hotkey as the hooks see it, or why it cannot be used.
pub open spec fn hook_hotkey(read: Result<HotkeySpec, String>) -> Result<HookHotkey, Seq<char>> {
    match read {
        Err(error) => Err(error@),
        Ok(spec) => match key_vk(spec.key) {
            Some(vk) => Ok(
                HookHotkey { ctrl: spec.ctrl, alt: spec.alt, shift: spec.shift, key_vk: vk },
            ),
            None => Err("unsupported hotkey key: "@ + spec.key->Keyboard_0@),
        },
    }
}

/// The same outcome, with its error as text.
pub open spec fn outcome<T>(res: Result<T, String>) -> Result<T, Seq<char>> {
    match res {
        Ok(value) => Ok(value),
        Err(error) => Err(error@),
    }
}

pub fn parse_hook_hotkey(read: &Result<HotkeySpec, String>) -> (res: Result<HookHotkey, String>)
    ensures
        outcome(res) == hook_hotkey(*read),
{
    let spec = match read {
        Ok(spec) => spec,
        Err(error) => return Err(error.clone()),
    };
    let key_vk: u32 = match &spec.key {
        HotkeyKey::Function(number) => VK_F1_CODE + *number as u32 - 1,
        HotkeyKey::Keyboard(key) => match keyboard_key_vk_code(key.as_str()) {
            Some(vk) => vk,
            None => return Err(concat2("unsupported hotkey key: ", key.as_str())),
        },
        HotkeyKey::Middle => VK_MBUTTON_CODE,
        HotkeyKey::Mouse4 => VK_XBUTTON1_CODE,
        HotkeyKey::Mouse5 => VK_XBUTTON2_CODE,
    };
    Ok(HookHotkey { ctrl: spec.ctrl, alt: spec.alt, shift: spec.shift, key_vk })
}

/// Whether a hotkey is bound.
pub open spec fn is_bound(bindings: Seq<HookBinding>, hotkey: HookHotkey) -> bool {
    exists|i: int| 0 <= i < bindings.len() && (#[trigger] bindings[i]).hotkey == hotkey
}

/// The bindings with the first `n` hotkeys of an action, or the first error. The hotkeys of
/// an optional action may be blank, and may not be bound already.
pub open spec fn bound_with(
    bindings: Seq<HookBinding>,
    raws: Seq<&str>,
    read: Seq<Result<HotkeySpec, String>>,
    action: HookAction,
    label: Option<Seq<char>>,
    n: nat,
) -> Result<Seq<HookBinding>, Seq<char>>
    decreases n,
{
    if n == 0 {
        Ok(bindings)
    } else {
        match bound_with(bindings, raws, read, action, label, (n - 1) as nat) {
            Err(error) => Err(error),
            Ok(before) => if label is Some && is_blank(raws[n - 1]@) {
                Ok(before)
            } else {
                match hook_hotkey(read[n - 1]) {
                    Err(error) => Err(error),
                    Ok(hotkey) => if label is Some && is_bound(before, hotkey) {
                        Err(label->0 + " hotkey matches another configured hotkey"@)
                    } else {
                        Ok(before.push(HookBinding { hotkey, action }))
                    },
                }
            },
        }
    }
}

/// The bindings that hotkeys ask for. Saving comes first and is always bound; the other
/// actions do not take a hotkey that is bound already.
pub open spec fn hook_bindings(hotkeys: HookHotkeys<'_>, read: ReadHotkeys) -> Result<
    Seq<HookBinding>,
    Seq<char>,
> {
    match bound_with(
        Seq::empty(),
        hotkeys.save@,
        read.save@,
        HookAction::SaveReplay,
        None,
        hotkeys.save@.len(),
    ) {
        Err(error) => Err(error),
        Ok(saving) => match bound_with(
            saving,
            hotkeys.recording@,
            read.recording@,
            HookAction::ToggleRecording,
            Some("recording"@),
            hotkeys.recording@.len(),
        ) {
            Err(error) => Err(error),
            Ok(recording) => bound_with(
                recording,
                hotkeys.bookmark@,
                read.bookmark@,
                HookAction::Bookmark,
                Some("bookmark"@),
                hotkeys.bookmark@.len(),
            ),
        },
    }
}

fn hotkey_is_bound(bindings: &Vec<HookBinding>, hotkey: HookHotkey) -> (r: bool)
    ensures
        r == is_bound(bindings@, hotkey),
{
    let mut i: usize = 0;
    while i < bindings.len()
        invariant
            i <= bindings@.len(),
            forall|k: int| 0 <= k < i ==> (#[trigger] bindings@[k]).hotkey != hotkey,
        decreases bindings@.len() - i,
    {
        if bindings[i].hotkey == hotkey {
            assert(bindings@[i as int].hotkey == hotkey);
            return true;
        }
        i += 1;
    }
    false
}

/// An error stays once it has come.
proof fn lemma_error_stays(
    bindings: Seq<HookBinding>,
    raws: Seq<&str>,
    read: Seq<Result<HotkeySpec, String>>,
    action: HookAction,
    label: Option<Seq<char>>,
    n: nat,
    more: nat,
)
    requires
        n <= more,
        bound_with(bindings, raws, read, action, label, n) is Err,
    ensures
        bound_with(bindings, raws, read, action, label, more) == bound_with(
            bindings,
            raws,
            read,
            action,
            label,
            n,
        ),
    decreases more,
{
    if n < more {
        lemma_error_stays(bindings, raws, read, action, label, n, (more - 1) as nat);
    }
}

fn bind_action(
    bindings: &mut Vec<HookBinding>,
    raws: &[&str],
    read: &Vec<Result<HotkeySpec, String>>,
    action: HookAction,
    label: Option<&str>,
) -> (res: Result<(), String>)
    requires
        read@.len() == raws@.len(),
    ensures
        ({
            let label_text = match label {
                Some(label) => Some(label@),
                None => None,
            };
            let all = bound_with(
                old(bindings)@,
                raws@,
                read@,
                action,
                label_text,
                raws@.len(),
            );
            match res {
                Ok(_) => all == Ok::<Seq<HookBinding>, Seq<char>>(final(bindings)@),
                Err(error) => all == Err::<Seq<HookBinding>, Seq<char>>(error@),
            }
        }),
{
    let ghost start = bindings@;
    let ghost label_text = match label {
        Some(label) => Some(label@),
        None => None,
    };
    let mut i: usize = 0;
    while i < raws.len()
        invariant
            i <= raws@.len() == read@.len(),
            label_text == match label {
                Some(label) => Some(label@),
                None => None,
            },
            start == old(bindings)@,
            bound_with(start, raws@, read@, action, label_text, i as nat) == Ok::<
                Seq<HookBinding>,
                Seq<char>,
            >(bindings@),
        decreases raws@.len() - i,
    {
        let skipped = label.is_some() && blank(raws[i]);
        if !skipped {
            let hotkey = match parse_hook_hotkey(&read[i]) {
                Ok(hotkey) => hotkey,
                Err(error) => {
                    proof {
                        lemma_error_stays(
                            start,
                            raws@,
                            read@,
                            action,
                            label_text,
                            (i + 1) as nat,
                            raws@.len(),
                        );
                    }
                    return Err(error);
                },
            };
            if let Some(label) = label {
                if hotkey_is_bound(bindings, hotkey) {
                    let error = concat2(label, " hotkey matches another configured hotkey");
                    proof {
                        lemma_error_stays(
                            start,
                            raws@,
                            read@,
                            action,
                            label_text,
                            (i + 1) as nat,
                            raws@.len(),
                        );
                    }
                    return Err(error);
                }
            }
            bindings.push(HookBinding { hotkey, action });
        }
        i += 1;
    }
    Ok(())
}

pub fn parse_hook_bindings(hotkeys: HookHotkeys<'_>, read: &ReadHotkeys) -> (res: Result<
    Vec<HookBinding>,
    String,
>)
    requires
        reads(hotkeys, *read),
    ensures
        match res {
            Ok(bindings) => hook_bindings(hotkeys, *read) == Ok::<Seq<HookBinding>, Seq<char>>(
                bindings@,
            ),
            Err(error) => hook_bindings(hotkeys, *read) == Err::<Seq<HookBinding>, Seq<char>>(
                error@,
            ),
        },
{
    let mut bindings: Vec<HookBinding> = Vec::new();
    assert(bindings@ =~= Seq::<HookBinding>::empty());
    if let Err(error) = bind_action(
        &mut bindings,
        hotkeys.save,
        &read.save,
        HookAction::SaveReplay,
        None,
    ) {
        return Err(error);
    }
    if let Err(error) = bind_action(
        &mut bindings,
        hotkeys.recording,
        &read.recording,
        HookAction::ToggleRecording,
        Some("recording"),
    ) {
        return Err(error);
    }
    if let Err(error) = bind_action(
        &mut bindings,
        hotkeys.bookmark,
        &read.bookmark,
        HookAction::Bookmark,
        Some("bookmark"),
    ) {
        return Err(error);
    }
    Ok(bindings)
}

/// Whether a binding needs the mouse hook.
pub open spec fn needs_mouse(bindings: Seq<HookBinding>) -> bool {
    exists|i: int|
        0 <= i < bindings.len() && is_mouse_button((#[trigger] bindings[i]).hotkey.key_vk)
}

fn bindings_need_mouse(bindings: &Vec<HookBinding>) -> (r: bool)
    ensures
        r == needs_mouse(bindings@),
{
    let mut i: usize = 0;
    while i < bindings.len()
        invariant
            i <= bindings@.len(),
            forall|k: int|
                0 <= k < i ==> !is_mouse_button((#[trigger] bindings@[k]).hotkey.key_vk),
        decreases bindings@.len() - i,
    {
        if bindings[i].hotkey.requires_mouse_hook() {
            assert(is_mouse_button(bindings@[i as int].hotkey.key_vk));
            return true;
        }
        i += 1;
    }
    false
}

// ---------------------------------------------------------------------------
// The hooks at work
// ---------------------------------------------------------------------------

/// The bindings, the keys that are held down, and the threads of the hooks.
#[derive(Debug)]
pub struct HookState {
    pub bindings: Vec<HookBinding>,
    pub down_keys: HashSet<u32>,
    pub keyboard_hook: Option<u32>,
    pub mouse_hook: Option<u32>,
}

/// The action of the first binding that a key with exactly these modifiers is.
pub open spec fn triggered(
    bindings: Seq<HookBinding>,
    vk_code: u32,
    ctrl: bool,
    alt: bool,
    shift: bool,
) -> Option<HookAction>
    decreases bindings.len(),
{
    if bindings.len() == 0 {
        None
    } else if is_pressed(bindings[0].hotkey, vk_code, ctrl, alt, shift) {
        Some(bindings[0].action)
    } else {
        triggered(bindings.skip(1), vk_code, ctrl, alt, shift)
    }
}

/// What a key that goes down triggers: nothing where it is held down already.
pub open spec fn pressed_action(
    down: Set<u32>,
    bindings: Seq<HookBinding>,
    vk_code: u32,
    ctrl: bool,
    alt: bool,
    shift: bool,
) -> Option<HookAction> {
    if down.contains(vk_code) {
        None
    } else {
        triggered(bindings, vk_code, ctrl, alt, shift)
    }
}

impl HookState {
    pub fn new(bindings: Vec<HookBinding>, keyboard_hook: Option<u32>) -> (s: Self)
        ensures
            s.bindings == bindings,
            s.down_keys@ == Set::<u32>::empty(),
            s.keyboard_hook == keyboard_hook,
            s.mouse_hook is None,
    {
        broadcast use vstd::std_specs::hash::group_hash_axioms;

        HookState { bindings, down_keys: HashSet::new(), keyboard_hook, mouse_hook: None }
    }

    /// A key went down. Only the first of the events that a held key repeats counts.
    pub fn on_key_down(&mut self, vk_code: u32, ctrl: bool, alt: bool, shift: bool) -> (action:
        Option<HookAction>)
        ensures
            final(self).down_keys@ == old(self).down_keys@.insert(vk_code),
            final(self).bindings == old(self).bindings,
            final(self).keyboard_hook == old(self).keyboard_hook,
            final(self).mouse_hook == old(self).mouse_hook,
            action == pressed_action(
                old(self).down_keys@,
                old(self).bindings@,
                vk_code,
                ctrl,
                alt,
                shift,
            ),
    {
        broadcast use vstd::std_specs::hash::group_hash_axioms;

        if !self.down_keys.insert(vk_code) {
            assert(self.down_keys@ =~= old(self).down_keys@.insert(vk_code));
            return None;
        }
        let mut i: usize = 0;
        assert(self.bindings@.skip(0) =~= self.bindings@);
        while i < self.bindings.len()
            invariant
                i <= self.bindings@.len(),
                self.bindings == old(self).bindings,
                self.down_keys@ == old(self).down_keys@.insert(vk_code),
                self.keyboard_hook == old(self).keyboard_hook,
                self.mouse_hook == old(self).mouse_hook,
                !old(self).down_keys@.contains(vk_code),
                triggered(self.bindings@.skip(i as int), vk_code, ctrl, alt, shift) == triggered(
                    old(self).bindings@,
                    vk_code,
                    ctrl,
                    alt,
                    shift,
                ),
            decreases self.bindings@.len() - i,
        {
            if self.bindings[i].hotkey.matches(vk_code, ctrl, alt, shift) {
                return Some(self.bindings[i].action);
            }
            assert(self.bindings@.skip(i as int).skip(1) =~= self.bindings@.skip(i + 1));
            i += 1;
        }
        None
    }

    pub fn on_key_up(&mut self, vk_code: u32)
        ensures
            final(self).down_keys@ == old(self).down_keys@.remove(vk_code),
            final(self).bindings == old(self).bindings,
            final(self).keyboard_hook == old(self).keyboard_hook,
            final(self).mouse_hook == old(self).mouse_hook,
    {
        broadcast use vstd::std_specs::hash::group_hash_axioms;

        self.down_keys.remove(&vk_code);
    }

    /// Puts other hotkeys into force. The mouse hook is started before they are, where they
    /// need it; where they do not, it is taken out, and its thread is returned to be stopped.
    pub fn set_hotkeys<M>(
        &mut self,
        hotkeys: HookHotkeys<'_>,
        read: &ReadHotkeys,
        start_mouse_hook: M,
    ) -> (res: Result<Option<u32>, String>) where M: FnOnce() -> Result<u32, String>
        requires
            reads(hotkeys, *read),
            mouse_due(*old(self), hook_bindings(hotkeys, *read)) ==> call_requires(
                start_mouse_hook,
                (),
            ),
        ensures
            replaced(
                *old(self),
                *final(self),
                hook_bindings(hotkeys, *read),
                start_mouse_hook,
                res,
            ),
    {
        let parsed = match parse_hook_bindings(hotkeys, read) {
            Ok(parsed) => parsed,
            Err(error) => return Err(error),
        };
        let needed = bindings_need_mouse(&parsed);
        if needed {
            if let Err(error) = self.ensure_mouse_hook(start_mouse_hook) {
                return Err(error);
            }
        }
        self.bindings = parsed;
        if needed {
            return Ok(None);
        }
        let stopped = self.mouse_hook;
        self.mouse_hook = None;
        Ok(stopped)
    }

    fn ensure_mouse_hook<M>(&mut self, start: M) -> (res: Result<(), String>) where
        M: FnOnce() -> Result<u32, String>,

        requires
            old(self).mouse_hook is None ==> call_requires(start, ()),
        ensures
            mouse_ensured(*old(self), *final(self), start, res),
    {
        if self.mouse_hook.is_some() {
            return Ok(());
        }
        match start() {
            Ok(thread) => {
                self.mouse_hook = Some(thread);
                Ok(())
            },
            Err(error) => Err(error),
        }
    }
}

/// Whether the mouse hook is started for other hotkeys: they are valid, need it, and it does
/// not run.
pub open spec fn mouse_due(
    before: HookState,
    bindings: Result<Seq<HookBinding>, Seq<char>>,
) -> bool {
    bindings is Ok && needs_mouse(bindings->Ok_0) && before.mouse_hook is None
}

/// Whether the keyboard hook was started.
pub open spec fn keyboard_started<K>(start: K) -> bool where K: FnOnce() -> Result<u32, String> {
    exists|thread: u32| #[trigger] call_ensures(start, (), Ok::<u32, String>(thread))
}

/// The mouse hook runs: it did before, or it was started.
pub open spec fn mouse_ensured<M>(
    before: HookState,
    after: HookState,
    start: M,
    res: Result<(), String>,
) -> bool where M: FnOnce() -> Result<u32, String> {
    if before.mouse_hook is Some {
        res is Ok && after == before
    } else {
        match res {
            Ok(_) => {
                &&& after.mouse_hook is Some
                &&& call_ensures(start, (), Ok::<u32, String>(after.mouse_hook->0))
                &&& after == (HookState { mouse_hook: after.mouse_hook, ..before })
            },
            Err(error) => call_ensures(start, (), Err::<u32, String>(error)) && after == before,
        }
    }
}

/// How other hotkeys are put into force: nothing changes where they are not valid or the
/// mouse hook that they need cannot be started.
pub open spec fn replaced<M>(
    before: HookState,
    after: HookState,
    bindings: Result<Seq<HookBinding>, Seq<char>>,
    start_mouse_hook: M,
    res: Result<Option<u32>, String>,
) -> bool where M: FnOnce() -> Result<u32, String> {
    match bindings {
        Err(text) => res is Err && res->Err_0@ == text && after == before,
        Ok(bindings) => if needs_mouse(bindings) {
            if before.mouse_hook is Some {
                &&& res == Ok::<Option<u32>, String>(None)
                &&& after.bindings@ == bindings
                &&& after == (HookState { bindings: after.bindings, ..before })
            } else {
                match res {
                    Ok(stopped) => {
                        &&& stopped is None
                        &&& after.mouse_hook is Some
                        &&& call_ensures(
                            start_mouse_hook,
                            (),
                            Ok::<u32, String>(after.mouse_hook->0),
                        )
                        &&& after.bindings@ == bindings
                        &&& after == (HookState {
                            bindings: after.bindings,
                            mouse_hook: after.mouse_hook,
                            ..before
                        })
                    },
                    Err(error) => {
                        &&& call_ensures(start_mouse_hook, (), Err::<u32, String>(error))
                        &&& after == before
                    },
                }
            }
        } else {
            &&& res == Ok::<Option<u32>, String>(before.mouse_hook)
            &&& after.bindings@ == bindings
            &&& after == (HookState { bindings: after.bindings, mouse_hook: None, ..before })
        },
    }
}

/// The hook of the process, once it is installed.
#[derive(Debug)]
pub struct HotkeyHook {
    pub state: Option<HookState>,
}

/// Puts other hotkeys into force. Before the hook is installed they are only looked at.
pub fn set_hotkeys<M>(
    hook: &mut HotkeyHook,
    hotkeys: HookHotkeys<'_>,
    read: &ReadHotkeys,
    start_mouse_hook: M,
) -> (res: Result<Option<u32>, String>) where M: FnOnce() -> Result<u32, String>
    requires
        reads(hotkeys, *read),
        old(hook).state matches Some(before) ==> mouse_due(before, hook_bindings(hotkeys, *read))
            ==> call_requires(start_mouse_hook, ()),
    ensures
        match old(hook).state {
            Some(before) => final(hook).state is Some && replaced(
                before,
                final(hook).state->0,
                hook_bindings(hotkeys, *read),
                start_mouse_hook,
                res,
            ),
            None => *final(hook) == *old(hook) && match hook_bindings(hotkeys, *read) {
                Ok(_) => res == Ok::<Option<u32>, String>(None),
                Err(text) => res is Err && res->Err_0@ == text,
            },
        },
{
    match &mut hook.state {
        Some(state) => state.set_hotkeys(hotkeys, read, start_mouse_hook),
        None => match parse_hook_bindings(hotkeys, read) {
            Ok(_) => Ok(None),
            Err(error) => Err(error),
        },
    }
}

/// Installs the hook, or puts other hotkeys into force where it is installed. The dispatcher
/// is started first, then the keyboard hook, then the mouse hook where the hotkeys need it;
/// where one of them fails, the hook is not installed.
pub fn install_hotkey_hook<D, K, M>(
    hook: &mut HotkeyHook,
    hotkeys: HookHotkeys<'_>,
    read: &ReadHotkeys,
    start_dispatcher: D,
    start_keyboard_hook: K,
    start_mouse_hook: M,
) -> (res: Result<Option<u32>, String>) where
    D: FnOnce() -> Result<(), String>,
    K: FnOnce() -> Result<u32, String>,
    M: FnOnce() -> Result<u32, String>,

    requires
        reads(hotkeys, *read),
        old(hook).state is None && hook_bindings(hotkeys, *read) is Ok ==> call_requires(
            start_dispatcher,
            (),
        ),
        old(hook).state is None && hook_bindings(hotkeys, *read) is Ok && call_ensures(
            start_dispatcher,
            (),
            Ok::<(), String>(()),
        ) ==> call_requires(start_keyboard_hook, ()),
        old(hook).state matches Some(before) ==> mouse_due(before, hook_bindings(hotkeys, *read))
            ==> call_requires(start_mouse_hook, ()),
        old(hook).state is None && hook_bindings(hotkeys, *read) is Ok && needs_mouse(
            hook_bindings(hotkeys, *read)->Ok_0,
        ) && keyboard_started(start_keyboard_hook) ==> call_requires(start_mouse_hook, ()),
    ensures
        old(hook).state matches Some(before) ==> final(hook).state is Some && replaced(
            before,
            final(hook).state->0,
            hook_bindings(hotkeys, *read),
            start_mouse_hook,
            res,
        ),
        old(hook).state is None ==> match hook_bindings(hotkeys, *read) {
            Err(text) => res is Err && res->Err_0@ == text && final(hook).state is None,
            Ok(bindings) => match res {
                Ok(stopped) => {
                    &&& stopped is None
                    &&& final(hook).state is Some
                    &&& ({
                        let state = final(hook).state->0;
                        &&& state.bindings@ == bindings
                        &&& state.down_keys@ == Set::<u32>::empty()
                        &&& call_ensures(start_dispatcher, (), Ok::<(), String>(()))
                        &&& state.keyboard_hook is Some
                        &&& call_ensures(
                            start_keyboard_hook,
                            (),
                            Ok::<u32, String>(state.keyboard_hook->0),
                        )
                        &&& state.mouse_hook is Some <==> needs_mouse(bindings)
                        &&& state.mouse_hook is Some ==> call_ensures(
                            start_mouse_hook,
                            (),
                            Ok::<u32, String>(state.mouse_hook->0),
                        )
                    })
                },
                Err(error) => {
                    &&& final(hook).state is None
                    &&& {
                        ||| call_ensures(start_dispatcher, (), Err::<(), String>(error))
                        ||| call_ensures(start_keyboard_hook, (), Err::<u32, String>(error))
                        ||| needs_mouse(bindings) && call_ensures(
                            start_mouse_hook,
                            (),
                            Err::<u32, String>(error),
                        )
                    }
                },
            },
        },
{
    if hook.state.is_some() {
        return set_hotkeys(hook, hotkeys, read, start_mouse_hook);
    }
    let bindings = match parse_hook_bindings(hotkeys, read) {
        Ok(bindings) => bindings,
        Err(error) => return Err(error),
    };
    let dispatched = start_dispatcher();
    if let Err(error) = dispatched {
        return Err(error);
    }
    assert(dispatched->Ok_0 == ());
    let needed = bindings_need_mouse(&bindings);
    let keyboard_hook = match start_keyboard_hook() {
        Ok(thread) => thread,
        Err(error) => return Err(error),
    };
    let mut state = HookState::new(bindings, Some(keyboard_hook));
    if needed {
        if let Err(error) = state.ensure_mouse_hook(start_mouse_hook) {
            return Err(error);
        }
    }
    hook.state = Some(state);
    Ok(None)
}

/// What the thread of the keyboard hook answered.
#[derive(Debug, PartialEq, Eq)]
pub enum HookReady {
    Answered(Result<u32, String>),
    TimedOut,
    Disconnected,
}

/// The thread of the keyboard hook once it is ready.
pub fn wait_for_keyboard_hook_ready(ready: HookReady) -> (res: Result<u32, String>)
    ensures
        match ready {
            HookReady::Answered(answer) => res == answer,
            HookReady::TimedOut => res is Err && res->Err_0@
                == "install keyboard hotkey hook: timed out"@,
            HookReady::Disconnected => res is Err && res->Err_0@
                == "install keyboard hotkey hook: disconnected"@,
        },
{
    match ready {
        HookReady::Answered(answer) => answer,
        HookReady::TimedOut => Err("install keyboard hotkey hook: timed out".to_owned()),
        HookReady::Disconnected => Err("install keyboard hotkey hook: disconnected".to_owned()),
    }
}

/// What a hook was told.
#[derive(Debug, Clone, Copy, PartialEq, Eq, Structural)]
pub enum HookMessage {
    KeyDown { vk_code: u32, alt_down: bool },
    KeyUp { released: u32 },
    MiddleDown,
    MiddleUp,
    ThumbDown { mouse_data: u32 },
    ThumbUp { released_data: u32 },
    Other,
}

/// What follows: a key went down, a key came up, or nothing.
#[derive(Debug, Clone, Copy, PartialEq, Eq, Structural)]
pub enum HookInput {
    Down { vk: u32, alt_flag: bool },
    Up { up_vk: u32 },
    Ignored,
}

/// What a message stands for. Keys that no hotkey can have are passed over when they go
/// down.
pub fn hook_input(message: HookMessage) -> (input: HookInput)
    ensures
        input == match message {
            HookMessage::KeyDown { vk_code, alt_down } => if is_hooked_vk(vk_code) {
                HookInput::Down { vk: vk_code, alt_flag: alt_down }
            } else {
                HookInput::Ignored
            },
            HookMessage::KeyUp { released } => HookInput::Up { up_vk: released },
            HookMessage::MiddleDown => HookInput::Down { vk: VK_MBUTTON_CODE, alt_flag: false },
            HookMessage::MiddleUp => HookInput::Up { up_vk: VK_MBUTTON_CODE },
            HookMessage::ThumbDown { mouse_data } => match thumb_button(mouse_data) {
                Some(vk) => HookInput::Down { vk, alt_flag: false },
                None => HookInput::Ignored,
            },
            HookMessage::ThumbUp { released_data } => match thumb_button(released_data) {
                Some(vk) => HookInput::Up { up_vk: vk },
                None => HookInput::Ignored,
            },
            HookMessage::Other => HookInput::Ignored,
        },
{
    match message {
        HookMessage::KeyDown { vk_code, alt_down } => if is_supported_keyboard_hook_vk(vk_code) {
            HookInput::Down { vk: vk_code, alt_flag: alt_down }
        } else {
            HookInput::Ignored
        },
        HookMessage::KeyUp { released } => HookInput::Up { up_vk: released },
        HookMessage::MiddleDown => HookInput::Down { vk: VK_MBUTTON_CODE, alt_flag: false },
        HookMessage::MiddleUp => HookInput::Up { up_vk: VK_MBUTTON_CODE },
        HookMessage::ThumbDown { mouse_data } => match xbutton_vk_code(mouse_data) {
            Some(vk) => HookInput::Down { vk, alt_flag: false },
            None => HookInput::Ignored,
        },
        HookMessage::ThumbUp { released_data } => match xbutton_vk_code(released_data) {
            Some(vk) => HookInput::Up { up_vk: vk },
            None => HookInput::Ignored,
        },
        HookMessage::Other => HookInput::Ignored,
    }
}

// ---------------------------------------------------------------------------
// Laws
// ---------------------------------------------------------------------------

/// Every key that a hotkey can have arrives: the keyboard hook looks at it, or it is a
/// button of the mouse.
pub proof fn law_every_hotkey_arrives(key: HotkeyKey)
    requires
        key_vk(key) is Some,
        key matches HotkeyKey::Function(number) ==> 1 <= number <= 24,
    ensures
        is_hooked_vk(key_vk(key)->0) || is_mouse_button(key_vk(key)->0),
{
}

/// The virtual key of every key is the one that Windows gives it: that of a key with a name is in
/// its table, that of a letter or a digit is its own character, and no other key has one.
pub proof fn law_keys_have_the_codes_of_windows(key: Seq<char>)
    ensures
        keyboard_vk("Backspace"@) == Some(0x08u32),
        keyboard_vk("Tab"@) == Some(0x09u32),
        keyboard_vk("Enter"@) == Some(0x0Du32),
        keyboard_vk("Space"@) == Some(0x20u32),
        keyboard_vk("PageUp"@) == Some(0x21u32),
        keyboard_vk("PageDown"@) == Some(0x22u32),
        keyboard_vk("End"@) == Some(0x23u32),
        keyboard_vk("Home"@) == Some(0x24u32),
        keyboard_vk("ArrowLeft"@) == Some(0x25u32),
        keyboard_vk("ArrowUp"@) == Some(0x26u32),
        keyboard_vk("ArrowRight"@) == Some(0x27u32),
        keyboard_vk("ArrowDown"@) == Some(0x28u32),
        keyboard_vk("Insert"@) == Some(0x2Du32),
        keyboard_vk("Delete"@) == Some(0x2Eu32),
        keyboard_vk("Semicolon"@) == Some(0xBAu32),
        keyboard_vk("Equal"@) == Some(0xBBu32),
        keyboard_vk("Comma"@) == Some(0xBCu32),
        keyboard_vk("Minus"@) == Some(0xBDu32),
        keyboard_vk("Period"@) == Some(0xBEu32),
        keyboard_vk("Slash"@) == Some(0xBFu32),
        keyboard_vk("Backquote"@) == Some(0xC0u32),
        keyboard_vk("BracketLeft"@) == Some(0xDBu32),
        keyboard_vk("Backslash"@) == Some(0xDCu32),
        keyboard_vk("BracketRight"@) == Some(0xDDu32),
        keyboard_vk("Quote"@) == Some(0xDEu32),
        key.len() == 1 && ('A' <= key[0] <= 'Z' || '0' <= key[0] <= '9') ==> keyboard_vk(key)
            == Some(key[0] as u32),
        keyboard_vk(key) is Some ==> {
            ||| key.len() == 1 && ('A' <= key[0] <= 'Z' || '0' <= key[0] <= '9')
            ||| key == "Backspace"@
            ||| key == "Tab"@
            ||| key == "Enter"@
            ||| key == "Space"@
            ||| key == "PageUp"@
            ||| key == "PageDown"@
            ||| key == "End"@
            ||| key == "Home"@
            ||| key == "ArrowLeft"@
            ||| key == "ArrowUp"@
            ||| key == "ArrowRight"@
            ||| key == "ArrowDown"@
            ||| key == "Insert"@
            ||| key == "Delete"@
            ||| key == "Semicolon"@
            ||| key == "Equal"@
            ||| key == "Comma"@
            ||| key == "Minus"@
            ||| key == "Period"@
            ||| key == "Slash"@
            ||| key == "Backquote"@
            ||| key == "BracketLeft"@
            ||| key == "Backslash"@
            ||| key == "BracketRight"@
            ||| key == "Quote"@
        },
{
    reveal_strlit("Backspace");
    reveal_strlit("Tab");
    reveal_strlit("Enter");
    reveal_strlit("Space");
    reveal_strlit("PageUp");
    reveal_strlit("PageDown");
    reveal_strlit("End");
    reveal_strlit("Home");
    reveal_strlit("ArrowLeft");
    reveal_strlit("ArrowUp");
    reveal_strlit("ArrowRight");
    reveal_strlit("ArrowDown");
    reveal_strlit("Insert");
    reveal_strlit("Delete");
    reveal_strlit("Semicolon");
    reveal_strlit("Equal");
    reveal_strlit("Comma");
    reveal_strlit("Minus");
    reveal_strlit("Period");
    reveal_strlit("Slash");
    reveal_strlit("Backquote");
    reveal_strlit("BracketLeft");
    reveal_strlit("Backslash");
    reveal_strlit("BracketRight");
    reveal_strlit("Quote");
    assert("Backspace"@[0] != "ArrowLeft"@[0]);
    assert("Backspace"@[0] != "ArrowDown"@[0]);
    assert("Backspace"@[0] != "Semicolon"@[0]);
    assert("Backspace"@[4] != "Backquote"@[4]);
    assert("Backspace"@[5] != "Backslash"@[5]);
    assert("ArrowLeft"@[5] != "ArrowDown"@[5]);
    assert("ArrowLeft"@[0] != "Semicolon"@[0]);
    assert("ArrowLeft"@[0] != "Backquote"@[0]);
    assert("ArrowLeft"@[0] != "Backslash"@[0]);
    assert("ArrowDown"@[0] != "Semicolon"@[0]);
    assert("ArrowDown"@[0] != "Backquote"@[0]);
    assert("ArrowDown"@[0] != "Backslash"@[0]);
    assert("Semicolon"@[0] != "Backquote"@[0]);
    assert("Semicolon"@[0] != "Backslash"@[0]);
    assert("Backquote"@[4] != "Backslash"@[4]);
    assert("Tab"@[0] != "End"@[0]);
    assert("Enter"@[0] != "Space"@[0]);
    assert("Enter"@[1] != "Equal"@[1]);
    assert("Enter"@[0] != "Comma"@[0]);
    assert("Enter"@[0] != "Minus"@[0]);
    assert("Enter"@[0] != "Slash"@[0]);
    assert("Enter"@[0] != "Quote"@[0]);
    assert("Space"@[0] != "Equal"@[0]);
    assert("Space"@[0] != "Comma"@[0]);
    assert("Space"@[0] != "Minus"@[0]);
    assert("Space"@[1] != "Slash"@[1]);
    assert("Space"@[0] != "Quote"@[0]);
    assert("Equal"@[0] != "Comma"@[0]);
    assert("Equal"@[0] != "Minus"@[0]);
    assert("Equal"@[0] != "Slash"@[0]);
    assert("Equal"@[0] != "Quote"@[0]);
    assert("Comma"@[0] != "Minus"@[0]);
    assert("Comma"@[0] != "Slash"@[0]);
    assert("Comma"@[0] != "Quote"@[0]);
    assert("Minus"@[0] != "Slash"@[0]);
    assert("Minus"@[0] != "Quote"@[0]);
    assert("Slash"@[0] != "Quote"@[0]);
    assert("PageUp"@[0] != "Insert"@[0]);
    assert("PageUp"@[0] != "Delete"@[0]);
    assert("PageUp"@[1] != "Period"@[1]);
    assert("Insert"@[0] != "Delete"@[0]);
    assert("Insert"@[0] != "Period"@[0]);
    assert("Delete"@[0] != "Period"@[0]);
}

/// No hotkey of an optional action shadows one that is bound before it.
pub proof fn law_optional_hotkeys_do_not_shadow(
    bindings: Seq<HookBinding>,
    raws: Seq<&str>,
    read: Seq<Result<HotkeySpec, String>>,
    action: HookAction,
    label: Seq<char>,
    n: nat,
)
    requires
        bound_with(bindings, raws, read, action, Some(label), n) is Ok,
        forall|i: int, j: int|
            0 <= i < j < bindings.len() ==> (#[trigger] bindings[i]).hotkey
                != (#[trigger] bindings[j]).hotkey,
    ensures
        ({
            let after = bound_with(bindings, raws, read, action, Some(label), n)->Ok_0;
            &&& bindings.len() <= after.len()
            &&& after.take(bindings.len() as int) == bindings
            &&& forall|i: int, j: int|
                0 <= i < j < after.len() ==> (#[trigger] after[i]).hotkey
                    != (#[trigger] after[j]).hotkey
        }),
    decreases n,
{
    if n > 0 {
        law_optional_hotkeys_do_not_shadow(bindings, raws, read, action, label, (n - 1) as nat);
        let before = bound_with(bindings, raws, read, action, Some(label), (n - 1) as nat)->Ok_0;
        let after = bound_with(bindings, raws, read, action, Some(label), n)->Ok_0;
        if after != before {
            assert(after == before.push(after.last()));
            assert(after.take(bindings.len() as int) =~= before.take(bindings.len() as int));
            assert forall|i: int, j: int| 0 <= i < j < after.len() implies (#[trigger] after[i]).hotkey
                != (#[trigger] after[j]).hotkey by {
                assert(after[i] == before[i]);
                if j < before.len() {
                    assert(after[j] == before[j]);
                }
            }
        }
    } else {
        assert(bindings.take(bindings.len() as int) =~= bindings);
    }
}

/// A key that is held down triggers once: after it went down it triggers nothing, whatever
/// is held with it, until it came up.
pub proof fn law_held_key_triggers_once(
    down: Set<u32>,
    bindings: Seq<HookBinding>,
    vk_code: u32,
    ctrl: bool,
    alt: bool,
    shift: bool,
)
    ensures
        pressed_action(down.insert(vk_code), bindings, vk_code, ctrl, alt, shift) is None,
        pressed_action(
            down.insert(vk_code).remove(vk_code),
            bindings,
            vk_code,
            ctrl,
            alt,
            shift,
        ) == triggered(bindings, vk_code, ctrl, alt, shift),
{
}

/// A hotkey that is read is looked for with its own modifiers and with the code that Windows gives
/// its key: the function keys follow each other, and the buttons of the mouse have their own.
pub proof fn law_hotkeys_keep_their_keys(ctrl: bool, alt: bool, shift: bool, key: HotkeyKey)
    ensures
        ({
            let res = hook_hotkey(Ok(HotkeySpec { ctrl, alt, shift, key }));
            &&& res matches Ok(hotkey) ==> hotkey.ctrl == ctrl && hotkey.alt == alt && hotkey.shift
                == shift
            &&& key matches HotkeyKey::Function(number) ==> res is Ok && (1 <= number <= 24
                ==> res->Ok_0.key_vk == 0x6F + number)
            &&& key is Middle ==> res is Ok && res->Ok_0.key_vk == 0x04
            &&& key is Mouse4 ==> res is Ok && res->Ok_0.key_vk == 0x05
            &&& key is Mouse5 ==> res is Ok && res->Ok_0.key_vk == 0x06
            &&& key matches HotkeyKey::Keyboard(name) ==> match keyboard_vk(name@) {
                Some(vk) => res is Ok && res->Ok_0.key_vk == vk,
                None => res == Err::<HookHotkey, Seq<char>>("unsupported hotkey key: "@ + name@),
            }
        }),
{
}

/// What could not be read is not bound; its error is told as it is.
pub proof fn law_unread_hotkeys_are_told(error: String)
    ensures
        hook_hotkey(Err(error)) == Err::<HookHotkey, Seq<char>>(error@),
{
}

/// The keyboard hook looks at the function keys and at the keys that a hotkey can name, and at no
/// other.
pub proof fn law_hook_looks_at_the_keys_of_hotkeys(vk: u32)
    ensures
        is_hooked_vk(vk) <==> 0x70 <= vk <= 0x87 || exists|key: Seq<char>| #[trigger]
            keyboard_vk(key) == Some(vk),
{
    if exists|key: Seq<char>| #[trigger] keyboard_vk(key) == Some(vk) {
        let key = choose|key: Seq<char>| #[trigger] keyboard_vk(key) == Some(vk);
        law_keys_have_the_codes_of_windows(key);
    }
    if is_hooked_vk(vk) && !(0x70 <= vk <= 0x87) {
        if 0x30 <= vk <= 0x39 || 0x41 <= vk <= 0x5A {
            let key = seq![vk as char];
            assert(key[0] as u32 == vk);
            assert(keyboard_vk(key) == Some(vk));
        } else {
            law_keys_have_the_codes_of_windows(Seq::empty());
        }
    }
}

/// The buttons of the mouse that a hotkey can have: the middle one and the two at the thumb, whose
/// number stands above the lower sixteen bits.
pub proof fn law_mouse_buttons(vk: u32, mouse_data: u32)
    ensures
        is_mouse_button(vk) <==> vk == 0x04 || vk == 0x05 || vk == 0x06,
        0x1_0000 <= mouse_data < 0x2_0000 ==> thumb_button(mouse_data) == Some(0x05u32),
        0x2_0000 <= mouse_data < 0x3_0000 ==> thumb_button(mouse_data) == Some(0x06u32),
        mouse_data < 0x1_0000 || mouse_data >= 0x3_0000 ==> thumb_button(mouse_data) is None,
{
}

/// A key triggers the first binding that has its code and exactly its modifiers, and nothing where
/// no binding has.
pub proof fn law_first_binding_is_triggered(
    bindings: Seq<HookBinding>,
    vk_code: u32,
    ctrl: bool,
    alt: bool,
    shift: bool,
    i: int,
)
    requires
        forall|k: int|
            0 <= k < i && k < bindings.len() ==> {
                let hotkey = (#[trigger] bindings[k]).hotkey;
                hotkey.key_vk != vk_code || hotkey.ctrl != ctrl || hotkey.alt != alt || hotkey.shift
                    != shift
            },
    ensures
        0 <= i < bindings.len() && bindings[i].hotkey.key_vk == vk_code && bindings[i].hotkey.ctrl
            == ctrl && bindings[i].hotkey.alt == alt && bindings[i].hotkey.shift == shift
            ==> triggered(bindings, vk_code, ctrl, alt, shift) == Some(bindings[i].action),
        i >= bindings.len() ==> triggered(bindings, vk_code, ctrl, alt, shift) is None,
    decreases bindings.len(),
{
    if bindings.len() > 0 && i > 0 {
        assert(!is_pressed(bindings[0].hotkey, vk_code, ctrl, alt, shift));
        let rest = bindings.skip(1);
        assert forall|k: int| 0 <= k < i - 1 && k < rest.len() implies {
            let hotkey = (#[trigger] rest[k]).hotkey;
            hotkey.key_vk != vk_code || hotkey.ctrl != ctrl || hotkey.alt != alt || hotkey.shift
                != shift
        } by {
            assert(rest[k] == bindings[k + 1]);
        }
        law_first_binding_is_triggered(rest, vk_code, ctrl, alt, shift, i - 1);
        assert(i < bindings.len() ==> rest[i - 1] == bindings[i]);
    }
}

/// Whether a hotkey is among the new bindings of an action.
spec fn is_new_binding(
    before: nat,
    after: Seq<HookBinding>,
    hotkey: HookHotkey,
    action: HookAction,
) -> bool {
    exists|k: int|
        before <= k < after.len() && #[trigger] after[k] == (HookBinding { hotkey, action })
}

proof fn lemma_bound_with(
    bindings: Seq<HookBinding>,
    raws: Seq<&str>,
    read: Seq<Result<HotkeySpec, String>>,
    action: HookAction,
    label: Option<Seq<char>>,
    n: nat,
)
    requires
        n <= raws.len(),
        n <= read.len(),
        bound_with(bindings, raws, read, action, label, n) is Ok,
    ensures
        ({
            let after = bound_with(bindings, raws, read, action, label, n)->Ok_0;
            &&& bindings.len() <= after.len()
            &&& forall|k: int| 0 <= k < bindings.len() ==> #[trigger] after[k] == bindings[k]
            &&& forall|k: int|
                bindings.len() <= k < after.len() ==> (#[trigger] after[k]).action == action
            &&& forall|i: int|
                #![trigger read[i]]
                0 <= i < n && !(label is Some && is_blank(raws[i]@)) ==> hook_hotkey(
                    read[i],
                ) is Ok && is_new_binding(
                    bindings.len(),
                    after,
                    hook_hotkey(read[i])->Ok_0,
                    action,
                )
        }),
    decreases n,
{
    if n > 0 {
        let m = (n - 1) as nat;
        lemma_bound_with(bindings, raws, read, action, label, m);
        let before = bound_with(bindings, raws, read, action, label, m)->Ok_0;
        let after = bound_with(bindings, raws, read, action, label, n)->Ok_0;
        let skipped = label is Some && is_blank(raws[n - 1]@);
        if !skipped {
            assert(after == before.push(after.last()));
            assert forall|i: int|
                #![trigger read[i]]
                0 <= i < n && !(label is Some && is_blank(raws[i]@)) implies hook_hotkey(
                read[i],
            ) is Ok && is_new_binding(
                bindings.len(),
                after,
                hook_hotkey(read[i])->Ok_0,
                action,
            ) by {
                let hotkey = hook_hotkey(read[i])->Ok_0;
                if i < m {
                    assert(is_new_binding(bindings.len(), before, hotkey, action));
                    let k = choose|k: int|
                        bindings.len() <= k < before.len() && #[trigger] before[k] == (HookBinding {
                            hotkey,
                            action,
                        });
                    assert(after[k] == before[k]);
                } else {
                    assert(after[before.len() as int] == (HookBinding { hotkey, action }));
                }
            }
        } else {
            assert(after == before);
        }
    }
}

/// Every hotkey of the settings is bound to its own action: all of saving, and those of toggling
/// the recording and of setting a bookmark that are not blank.
pub proof fn law_every_hotkey_is_bound(
    hotkeys: HookHotkeys<'_>,
    read: ReadHotkeys,
    bindings: Seq<HookBinding>,
    i: int,
)
    requires
        reads(hotkeys, read),
        hook_bindings(hotkeys, read) == Ok::<Seq<HookBinding>, Seq<char>>(bindings),
    ensures
        0 <= i < read.save@.len() ==> hook_hotkey(read.save@[i]) is Ok && bindings.contains(
            HookBinding {
                hotkey: hook_hotkey(read.save@[i])->Ok_0,
                action: HookAction::SaveReplay,
            },
        ),
        0 <= i < read.recording@.len() && !is_blank(hotkeys.recording@[i]@) ==> hook_hotkey(
            read.recording@[i],
        ) is Ok && bindings.contains(
            HookBinding {
                hotkey: hook_hotkey(read.recording@[i])->Ok_0,
                action: HookAction::ToggleRecording,
            },
        ),
        0 <= i < read.bookmark@.len() && !is_blank(hotkeys.bookmark@[i]@) ==> hook_hotkey(
            read.bookmark@[i],
        ) is Ok && bindings.contains(
            HookBinding {
                hotkey: hook_hotkey(read.bookmark@[i])->Ok_0,
                action: HookAction::Bookmark,
            },
        ),
{
    let saving = bound_with(
        Seq::empty(),
        hotkeys.save@,
        read.save@,
        HookAction::SaveReplay,
        None,
        hotkeys.save@.len(),
    )->Ok_0;
    let recording = bound_with(
        saving,
        hotkeys.recording@,
        read.recording@,
        HookAction::ToggleRecording,
        Some("recording"@),
        hotkeys.recording@.len(),
    )->Ok_0;
    lemma_bound_with(
        Seq::empty(),
        hotkeys.save@,
        read.save@,
        HookAction::SaveReplay,
        None,
        hotkeys.save@.len(),
    );
    lemma_bound_with(
        saving,
        hotkeys.recording@,
        read.recording@,
        HookAction::ToggleRecording,
        Some("recording"@),
        hotkeys.recording@.len(),
    );
    lemma_bound_with(
        recording,
        hotkeys.bookmark@,
        read.bookmark@,
        HookAction::Bookmark,
        Some("bookmark"@),
        hotkeys.bookmark@.len(),
    );
    if 0 <= i < read.save@.len() {
        let hotkey = hook_hotkey(read.save@[i])->Ok_0;
        assert(is_new_binding(0, saving, hotkey, HookAction::SaveReplay));
        let k = choose|k: int|
            0 <= k < saving.len() && #[trigger] saving[k] == (HookBinding {
                hotkey,
                action: HookAction::SaveReplay,
            });
        assert(recording[k] == saving[k]);
        assert(bindings[k] == recording[k]);
    }
    if 0 <= i < read.recording@.len() && !is_blank(hotkeys.recording@[i]@) {
        let hotkey = hook_hotkey(read.recording@[i])->Ok_0;
        assert(is_new_binding(saving.len(), recording, hotkey, HookAction::ToggleRecording));
        let k = choose|k: int|
            saving.len() <= k < recording.len() && #[trigger] recording[k] == (HookBinding {
                hotkey,
                action: HookAction::ToggleRecording,
            });
        assert(bindings[k] == recording[k]);
    }
    if 0 <= i < read.bookmark@.len() && !is_blank(hotkeys.bookmark@[i]@) {
        let hotkey = hook_hotkey(read.bookmark@[i])->Ok_0;
        assert(is_new_binding(recording.len(), bindings, hotkey, HookAction::Bookmark));
    }
}

/// Hotkeys of saving are refused only where one could not be read: where each could, and the other
/// actions have none, they are all bound.
pub proof fn law_saving_is_refused_only_for_its_errors(
    hotkeys: HookHotkeys<'_>,
    read: ReadHotkeys,
)
    requires
        reads(hotkeys, read),
        hotkeys.recording@.len() == 0,
        hotkeys.bookmark@.len() == 0,
        forall|i: int| 0 <= i < read.save@.len() ==> hook_hotkey(#[trigger] read.save@[i]) is Ok,
    ensures
        hook_bindings(hotkeys, read) is Ok,
        hook_bindings(hotkeys, read)->Ok_0.len() == read.save@.len(),
        forall|i: int|
            0 <= i < read.save@.len() ==> #[trigger] hook_bindings(hotkeys, read)->Ok_0[i] == (
            HookBinding {
                hotkey: hook_hotkey(read.save@[i])->Ok_0,
                action: HookAction::SaveReplay,
            }),
{
    lemma_saving_bound(hotkeys.save@, read.save@, hotkeys.save@.len());
}

proof fn lemma_saving_bound(raws: Seq<&str>, read: Seq<Result<HotkeySpec, String>>, n: nat)
    requires
        n <= read.len(),
        forall|i: int| 0 <= i < read.len() ==> hook_hotkey(#[trigger] read[i]) is Ok,
    ensures
        ({
            let all = bound_with(Seq::empty(), raws, read, HookAction::SaveReplay, None, n);
            &&& all is Ok
            &&& all->Ok_0.len() == n
            &&& forall|i: int|
                0 <= i < n ==> #[trigger] all->Ok_0[i] == (HookBinding {
                    hotkey: hook_hotkey(read[i])->Ok_0,
                    action: HookAction::SaveReplay,
                })
        }),
    decreases n,
{
    if n > 0 {
        lemma_saving_bound(raws, read, (n - 1) as nat);
        assert(hook_hotkey(read[n - 1]) is Ok);
    }
}

/// The mouse is hooked exactly where a binding is one of its buttons.
pub proof fn law_mouse_is_hooked_for_its_buttons(bindings: Seq<HookBinding>)
    ensures
        needs_mouse(bindings) <==> exists|i: int|
            0 <= i < bindings.len() && {
                let vk = (#[trigger] bindings[i]).hotkey.key_vk;
                vk == 0x04 || vk == 0x05 || vk == 0x06
            },
{
}

/// Other hotkeys are in force once they were accepted, with the mouse hooked exactly where they
/// need it; where they were not, everything stays as it was.
pub proof fn law_accepted_hotkeys_are_in_force<M>(
    before: HookState,
    after: HookState,
    bindings: Result<Seq<HookBinding>, Seq<char>>,
    start_mouse_hook: M,
    res: Result<Option<u32>, String>,
) where M: FnOnce() -> Result<u32, String>
    requires
        replaced(before, after, bindings, start_mouse_hook, res),
    ensures
        res is Ok ==> bindings is Ok && after.bindings@ == bindings->Ok_0 && (after.mouse_hook is Some
            <==> needs_mouse(after.bindings@)),
        res is Err ==> after == before,
        after.down_keys == before.down_keys,
        after.keyboard_hook == before.keyboard_hook,
        bindings is Err ==> res is Err && res->Err_0@ == bindings->Err_0,
        bindings is Ok && (!needs_mouse(bindings->Ok_0) || before.mouse_hook is Some) ==> res is Ok,
        res is Ok && before.mouse_hook is Some && !needs_mouse(after.bindings@) ==> res->Ok_0
            == before.mouse_hook,
        res is Ok && needs_mouse(after.bindings@) ==> res->Ok_0 is None,
        before.mouse_hook is Some && needs_mouse(after.bindings@) && res is Ok ==> after.mouse_hook
            == before.mouse_hook,
{
}

/// A mouse hook that runs is left alone; one that does not is started, and kept where it came.
pub proof fn law_mouse_hook_is_started_once<M>(
    before: HookState,
    after: HookState,
    start: M,
    res: Result<(), String>,
) where M: FnOnce() -> Result<u32, String>
    requires
        mouse_ensured(before, after, start, res),
    ensures
        before.mouse_hook is Some ==> res is Ok && after == before,
        before.mouse_hook is None && res is Ok ==> after.mouse_hook is Some && call_ensures(
            start,
            (),
            Ok::<u32, String>(after.mouse_hook->0),
        ),
        res matches Err(error) ==> after == before && before.mouse_hook is None && call_ensures(
            start,
            (),
            Err::<u32, String>(error),
        ),
        after.bindings == before.bindings && after.down_keys == before.down_keys,
{
}

} // verus!
