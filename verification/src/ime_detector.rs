//! The input signals: is the input method in its native mode, is Caps Lock
//! on?
//!
//! The questions go to the input method's window by message; each is asked
//! only if the answers before it leave the outcome open.

use vstd::prelude::*;
use crate::desktop::GuiThreadInfo;

verus! {

/// The message that controls an input method window.
pub const WM_IME_CONTROL: u32 = 0x283;

/// The control command that asks whether the input method is open.
pub const IMC_GETOPENSTATUS: usize = 0x5;

/// The control command that asks for the conversion mode.
pub const IMC_GETCONVERSIONMODE: usize = 0x1;

/// The bit of the conversion mode that stands for native text.
pub const IME_CMODE_NATIVE: u32 = 0x0001;

/// How long an input method window may take to answer, in milliseconds.
pub const IME_TIMEOUT_MS: u32 = 500;

/// The window that takes the keyboard input: of the foreground window's
/// thread the focused window, else the active one, else the foreground
/// window itself; null when there is no foreground window.
pub open spec fn focused_window(foreground: isize, info: Option<GuiThreadInfo>) -> isize {
    if foreground == 0 {
        0
    } else {
        match info {
            Some(info) => if info.hwnd_focus != 0 {
                info.hwnd_focus
            } else if info.hwnd_active != 0 {
                info.hwnd_active
            } else {
                foreground
            },
            None => foreground,
        }
    }
}

/// Picks the window that takes the keyboard input. `info` is the input
/// state of the foreground window's thread, `None` when it was not to be
/// had.
pub fn get_focused_window(foreground: isize, info: Option<GuiThreadInfo>) -> (window: isize)
    ensures
        window == focused_window(foreground, info),
{
    if foreground == 0 {
        return 0;
    }
    match info {
        Some(info) => if info.hwnd_focus != 0 {
            info.hwnd_focus
        } else if info.hwnd_active != 0 {
            info.hwnd_active
        } else {
            foreground
        },
        None => foreground,
    }
}

/// The input method is open: its window exists and answered the question
/// for the open status with something other than zero.
pub open spec fn ime_open(ime_window: isize, open_status: Option<usize>) -> bool {
    ime_window != 0 && match open_status {
        Some(status) => status != 0,
        None => false,
    }
}

/// The native mode: the input method is open and the conversion mode that it
/// answered has the native bit set.
pub open spec fn chinese_mode(
    ime_window: isize,
    open_status: Option<usize>,
    conversion_mode: Option<usize>,
) -> bool {
    ime_open(ime_window, open_status) && match conversion_mode {
        Some(mode) => (mode as u32) & IME_CMODE_NATIVE != 0,
        None => false,
    }
}

/// Whether the open status is worth asking for: there is a window to ask.
pub fn needs_open_status(ime_window: isize) -> (ask: bool)
    ensures
        ask == (ime_window != 0),
        !ask ==> forall|open_status: Option<usize>, conversion_mode: Option<usize>|
            !chinese_mode(ime_window, open_status, conversion_mode),
{
    ime_window != 0
}

/// Whether the conversion mode is worth asking for: the input method is
/// open.
pub fn needs_conversion_mode(ime_window: isize, open_status: Option<usize>) -> (ask: bool)
    ensures
        ask == ime_open(ime_window, open_status),
        !ask ==> forall|conversion_mode: Option<usize>|
            !chinese_mode(ime_window, open_status, conversion_mode),
{
    ime_window != 0 && match open_status {
        Some(status) => status != 0,
        None => false,
    }
}

/// Whether the input method is in its native mode. `open_status` and
/// `conversion_mode` are the answers of the input method's window, `None`
/// where it did not answer in time or was not asked.
pub fn is_chinese_mode(
    ime_window: isize,
    open_status: Option<usize>,
    conversion_mode: Option<usize>,
) -> (native: bool)
    ensures
        native == chinese_mode(ime_window, open_status, conversion_mode),
{
    if !needs_conversion_mode(ime_window, open_status) {
        return false;
    }
    match conversion_mode {
        Some(mode) => {
            let low: u32 = #[verifier::truncate]
            (mode as u32);
            low & IME_CMODE_NATIVE != 0
        },
        None => false,
    }
}

/// Whether Caps Lock is toggled on: the low bit of the key's state.
pub fn is_caps_lock_on(key_state: i16) -> (on: bool)
    ensures
        on == (key_state & 1 != 0),
{
    key_state & 1 != 0
}

} // verus!
