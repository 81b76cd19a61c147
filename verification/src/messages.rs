//! The window messages, notifications and events that are looked at.

use vstd::prelude::*;

verus! {

/// A window is being destroyed.
pub const WM_DESTROY: u32 = 0x0002;

/// A window has got the focus.
pub const WM_SETFOCUS: u32 = 0x0007;

/// A window has lost the focus.
pub const WM_KILLFOCUS: u32 = 0x0008;

/// The text of a window is set.
pub const WM_SETTEXT: u32 = 0x000C;

/// A window is to be painted.
pub const WM_PAINT: u32 = 0x000F;

/// The background of a window is to be painted.
pub const WM_ERASEBKGND: u32 = 0x0014;

/// The frame of a window is to be painted.
pub const WM_NCPAINT: u32 = 0x0085;

/// A key has been released.
pub const WM_KEYUP: u32 = 0x0101;

/// A character has been typed.
pub const WM_CHAR: u32 = 0x0102;

/// A composition begins.
pub const WM_IME_STARTCOMPOSITION: u32 = 0x010D;

/// A composition ends.
pub const WM_IME_ENDCOMPOSITION: u32 = 0x010E;

/// A composition has changed.
pub const WM_IME_COMPOSITION: u32 = 0x010F;

/// A timer has run out.
pub const WM_TIMER: u32 = 0x0113;

/// An edit control asks for its colours.
pub const WM_CTLCOLOREDIT: u32 = 0x0133;

/// A static control asks for its colours.
pub const WM_CTLCOLORSTATIC: u32 = 0x0138;

/// The input context of a window is switched on or off.
pub const WM_IME_SETCONTEXT: u32 = 0x0281;

/// The input method reports a change of its windows.
pub const WM_IME_NOTIFY: u32 = 0x0282;

/// The input method delivers a character.
pub const WM_IME_CHAR: u32 = 0x0286;

/// A window is asked to print its client area.
pub const WM_PRINTCLIENT: u32 = 0x0318;

/// The first message that an application may use for itself.
pub const WM_APP: u32 = 0x8000;

/// The text services are to be started on the thread that gets this message.
pub const WM_TSF_INIT_ON_UI_THREAD: u32 = WM_APP + 1;

/// The list of candidates has changed.
pub const IMN_CHANGECANDIDATE: usize = 0x03;

/// The list of candidates has been closed.
pub const IMN_CLOSECANDIDATE: usize = 0x04;

/// A list of candidates has been opened.
pub const IMN_OPENCANDIDATE: usize = 0x05;

/// The bit of a composition message that says that the composition string has changed.
pub const GCS_COMPSTR: u32 = 0x0008;

/// A window has been created.
pub const EVENT_OBJECT_CREATE: u32 = 0x8000;

/// A window has got the focus.
pub const EVENT_OBJECT_FOCUS: u32 = 0x8005;

/// The library has been loaded into a process.
pub const DLL_PROCESS_ATTACH: u32 = 1;

/// The numbers under which the system knows its messages, notifications and events.
pub proof fn law_numbers_of_the_system()
    ensures
        WM_DESTROY == 0x0002,
        WM_SETFOCUS == 0x0007,
        WM_KILLFOCUS == 0x0008,
        WM_SETTEXT == 0x000C,
        WM_PAINT == 0x000F,
        WM_ERASEBKGND == 0x0014,
        WM_NCPAINT == 0x0085,
        WM_KEYUP == 0x0101,
        WM_CHAR == 0x0102,
        WM_IME_STARTCOMPOSITION == 0x010D,
        WM_IME_ENDCOMPOSITION == 0x010E,
        WM_IME_COMPOSITION == 0x010F,
        WM_TIMER == 0x0113,
        WM_CTLCOLOREDIT == 0x0133,
        WM_CTLCOLORSTATIC == 0x0138,
        WM_IME_SETCONTEXT == 0x0281,
        WM_IME_NOTIFY == 0x0282,
        WM_IME_CHAR == 0x0286,
        WM_PRINTCLIENT == 0x0318,
        WM_APP == 0x8000,
        WM_TSF_INIT_ON_UI_THREAD == 0x8001,
        IMN_CHANGECANDIDATE == 0x03,
        IMN_CLOSECANDIDATE == 0x04,
        IMN_OPENCANDIDATE == 0x05,
        GCS_COMPSTR == 0x0008,
        EVENT_OBJECT_CREATE == 0x8000,
        EVENT_OBJECT_FOCUS == 0x8005,
        DLL_PROCESS_ATTACH == 1,
{
}

} // verus!
