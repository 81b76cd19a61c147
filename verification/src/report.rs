//! What is reported to the log of windows, hooks and candidates.

use crate::dbg::{self, Line};
use crate::geometry::{self, Rect};
use crate::tsf_sink::{EventKind, UiList};
use vstd::prelude::*;

verus! {

/// A call on a drawing surface.
pub fn call_line(name: &str, count: u64, this: usize, is_primary: bool, extra: &str) -> (r: String)
    ensures
        r@ == "[ddraw] "@ + name@ + " #"@ + dbg::decimal(count as nat) + " this=0x"@
            + dbg::hex(this as nat) + " is_primary="@ + dbg::yes_no(is_primary) + " "@
            + extra@,
{
    Line::new("[ddraw] ")
        .text(name)
        .text(" #")
        .decimal(count as u64)
        .text(" this=0x")
        .hex(this as u64)
        .text(" is_primary=")
        .yes_no(is_primary)
        .text(" ")
        .text(extra)
        .done()
}

/// The arguments of a call that flips a surface.
pub fn flip_args(target: usize, flags: u32) -> (r: String)
    ensures
        r@ == "target=0x"@ + dbg::hex(target as nat) + " flags=0x"@ + dbg::hex(flags as nat),
{
    Line::new("target=0x").hex(target as u64).text(" flags=0x").hex(flags as u64).done()
}

/// The arguments of a call that copies to a surface.
pub fn blt_args(
    dst_rect: usize,
    src_surf: usize,
    src_rect: usize,
    flags: u32,
    blt_fx: usize,
) -> (r: String)
    ensures
        r@ == "dstR=0x"@ + dbg::hex(dst_rect as nat) + " srcS=0x"@ + dbg::hex(src_surf as nat)
            + " srcR=0x"@ + dbg::hex(src_rect as nat) + " flags=0x"@
            + dbg::hex(flags as nat) + " fx=0x"@ + dbg::hex(blt_fx as nat),
{
    Line::new("dstR=0x")
        .hex(dst_rect as u64)
        .text(" srcS=0x")
        .hex(src_surf as u64)
        .text(" srcR=0x")
        .hex(src_rect as u64)
        .text(" flags=0x")
        .hex(flags as u64)
        .text(" fx=0x")
        .hex(blt_fx as u64)
        .done()
}

/// The arguments of a call that copies fast to a surface.
pub fn bltfast_args(
    dst_x: u32,
    dst_y: u32,
    src_surf: usize,
    src_rect: usize,
    flags: u32,
) -> (r: String)
    ensures
        r@ == "dst=("@ + dbg::decimal(dst_x as nat) + ","@ + dbg::decimal(dst_y as nat) + ") srcS=0x"@
            + dbg::hex(src_surf as nat) + " srcR=0x"@ + dbg::hex(src_rect as nat)
            + " flags=0x"@ + dbg::hex(flags as nat),
{
    Line::new("dst=(")
        .decimal(dst_x as u64)
        .text(",")
        .decimal(dst_y as u64)
        .text(") srcS=0x")
        .hex(src_surf as u64)
        .text(" srcR=0x")
        .hex(src_rect as u64)
        .text(" flags=0x")
        .hex(flags as u64)
        .done()
}

/// A capture for which there was no device context.
pub fn capture_without_dc(count: u64, status: u32, this: usize) -> (r: String)
    ensures
        r@ == "[ddraw] capture GetDC FAIL #"@ + dbg::decimal(count as nat) + " hr=0x"@
            + dbg::hex_wide(status as nat, 8) + " this=0x"@ + dbg::hex(this as nat),
{
    Line::new("[ddraw] capture GetDC FAIL #")
        .decimal(count as u64)
        .text(" hr=0x")
        .hex_wide(status as u64, 8)
        .text(" this=0x")
        .hex(this as u64)
        .done()
}

/// A capture that succeeded.
pub fn capture_done(count: u64, this: usize, width: i32, height: i32) -> (r: String)
    ensures
        r@ == "[ddraw] capture OK #"@ + dbg::decimal(count as nat) + " this=0x"@
            + dbg::hex(this as nat) + " "@ + dbg::signed(width as int) + "x"@
            + dbg::signed(height as int),
{
    Line::new("[ddraw] capture OK #")
        .decimal(count as u64)
        .text(" this=0x")
        .hex(this as u64)
        .text(" ")
        .signed(width)
        .text("x")
        .signed(height)
        .done()
}

/// A capture whose picture could not be copied.
pub fn capture_failed(count: u64, this: usize) -> (r: String)
    ensures
        r@ == "[ddraw] capture BitBlt FAIL #"@ + dbg::decimal(count as nat) + " this=0x"@
            + dbg::hex(this as nat),
{
    Line::new("[ddraw] capture BitBlt FAIL #")
        .decimal(count as u64)
        .text(" this=0x")
        .hex(this as u64)
        .done()
}

/// The creation of an edit control through a hook.
pub fn window_created(function: &str, count: usize, before: u32, after: u32) -> (r: String)
    ensures
        r@ == "[ime] "@ + function@ + " LUnicodeEdit #"@ + dbg::decimal(count as nat) + ": ex 0x"@
            + dbg::hex_wide(before as nat, 8) + " -> 0x"@
            + dbg::hex_wide(after as nat, 8),
{
    Line::new("[ime] ")
        .text(function)
        .text(" LUnicodeEdit #")
        .decimal(count as u64)
        .text(": ex 0x")
        .hex_wide(before as u64, 8)
        .text(" -> 0x")
        .hex_wide(after as u64, 8)
        .done()
}

/// The registration of the class of the edit controls through a hook.
pub fn class_registered(function: &str, count: usize, before: u32, after: u32) -> (r: String)
    ensures
        r@ == "[ime] "@ + function@ + " LUnicodeEdit #"@ + dbg::decimal(count as nat) + ": style 0x"@
            + dbg::hex_wide(before as nat, 8) + " -> 0x"@
            + dbg::hex_wide(after as nat, 8),
{
    Line::new("[ime] ")
        .text(function)
        .text(" LUnicodeEdit #")
        .decimal(count as u64)
        .text(": style 0x")
        .hex_wide(before as u64, 8)
        .text(" -> 0x")
        .hex_wide(after as u64, 8)
        .done()
}

/// A plain class name that an input method was told.
pub fn class_name_told(function: &str, count: usize, hwnd: isize, ret_addr: usize) -> (r: String)
    ensures
        r@ == "[ime] "@ + function@ + " LIE #"@ + dbg::decimal(count as nat) + " hwnd=0x"@
            + dbg::hex(hwnd as usize as nat) + " ret=0x"@ + dbg::hex(ret_addr as nat)
            + " → 'Edit'"@,
{
    Line::new("[ime] ")
        .text(function)
        .text(" LIE #")
        .decimal(count as u64)
        .text(" hwnd=0x")
        .hex(hwnd as usize as u64)
        .text(" ret=0x")
        .hex(ret_addr as u64)
        .text(" → 'Edit'")
        .done()
}

/// The first module that is told a plain class name.
pub fn module_told(name: &str) -> (r: String)
    ensures
        r@ == "[ime] GetClassName lie target module: '"@ + name@ + "'"@,
{
    Line::new("[ime] GetClassName lie target module: '").text(name).text("'").done()
}

/// A function that has been hooked.
pub fn function_hooked(tag: &str, target: usize, trampoline: usize, detour: usize) -> (r: String)
    ensures
        r@ == "[ime] "@ + tag@ + " hooked: target=0x"@ + dbg::hex(target as nat) + " trampoline=0x"@
            + dbg::hex(trampoline as nat) + " detour=0x"@ + dbg::hex(detour as nat),
{
    Line::new("[ime] ")
        .text(tag)
        .text(" hooked: target=0x")
        .hex(target as u64)
        .text(" trampoline=0x")
        .hex(trampoline as u64)
        .text(" detour=0x")
        .hex(detour as u64)
        .done()
}

/// A message to an edit control, with a note and a description of the control.
pub fn edit_message_seen(
    name: &str,
    hwnd: isize,
    wparam: usize,
    lparam: isize,
    note: &str,
    window: &str,
) -> (r: String)
    ensures
        r@ == "[ime-diag] edit msg "@ + name@ + " hwnd=0x"@ + dbg::hex(hwnd as usize as nat)
            + " wp=0x"@ + dbg::hex(wparam as nat) + " lp=0x"@
            + dbg::hex(lparam as usize as nat) + " "@ + note@ + " "@ + window@,
{
    Line::new("[ime-diag] edit msg ")
        .text(name)
        .text(" hwnd=0x")
        .hex(hwnd as usize as u64)
        .text(" wp=0x")
        .hex(wparam as u64)
        .text(" lp=0x")
        .hex(lparam as usize as u64)
        .text(" ")
        .text(note)
        .text(" ")
        .text(window)
        .done()
}

/// A question for the colours of an edit control, with a description of the control.
pub fn colours_asked(
    name: &str,
    parent: isize,
    child: isize,
    hdc: usize,
    window: &str,
) -> (r: String)
    ensures
        r@ == "[ime-diag] parent "@ + name@ + " parent=0x"@ + dbg::hex(parent as usize as nat)
            + " child=0x"@ + dbg::hex(child as usize as nat) + " hdc=0x"@
            + dbg::hex(hdc as nat) + " child_info="@ + window@,
{
    Line::new("[ime-diag] parent ")
        .text(name)
        .text(" parent=0x")
        .hex(parent as usize as u64)
        .text(" child=0x")
        .hex(child as usize as u64)
        .text(" hdc=0x")
        .hex(hdc as u64)
        .text(" child_info=")
        .text(window)
        .done()
}

/// A message of the input method.
pub fn ime_message_seen(name: &str, hwnd: isize, wparam: usize, lparam: isize) -> (r: String)
    ensures
        r@ == "[ime-trace] "@ + name@ + " hwnd=0x"@ + dbg::hex(hwnd as usize as nat) + " wp=0x"@
            + dbg::hex(wparam as nat) + " lp=0x"@ + dbg::hex(lparam as usize as nat),
{
    Line::new("[ime-trace] ")
        .text(name)
        .text(" hwnd=0x")
        .hex(hwnd as usize as u64)
        .text(" wp=0x")
        .hex(wparam as u64)
        .text(" lp=0x")
        .hex(lparam as usize as u64)
        .done()
}

/// Width and height of a rectangle.
pub open spec fn size_text(rc: Rect) -> Seq<char> {
    dbg::signed(geometry::clamped(rc.right - rc.left)) + "x"@ + dbg::signed(
        geometry::clamped(rc.bottom - rc.top),
    )
}

/// Left upper corner, width and height of a rectangle.
pub open spec fn place_text(rc: Rect) -> Seq<char> {
    dbg::signed(rc.left as int) + ","@ + dbg::signed(rc.top as int) + " "@ + size_text(rc)
}

/// Adds width and height of a rectangle.
fn add_size(line: Line, rc: &Rect) -> (r: Line)
    ensures
        r@ == line@ + size_text(*rc),
{
    let (w, h) = rc.extents_clamped();
    let r = line.signed(w).text("x").signed(h);
    assert(r@ =~= line@ + size_text(*rc));
    r
}

/// Adds left upper corner, width and height of a rectangle.
fn add_place(line: Line, rc: &Rect) -> (r: Line)
    ensures
        r@ == line@ + place_text(*rc),
{
    let r = add_size(line.signed(rc.left).text(",").signed(rc.top).text(" "), rc);
    assert(r@ =~= line@ + place_text(*rc));
    r
}

/// The place of a window on the screen, where it is known.
pub open spec fn window_place(rc: Option<Rect>) -> Seq<char> {
    match rc {
        Some(rc) => "win=("@ + place_text(rc) + ")"@,
        None => "win=<err>"@,
    }
}

/// The size of the client area of a window, where it is known.
pub open spec fn client_size(rc: Option<Rect>) -> Seq<char> {
    match rc {
        Some(rc) => "client="@ + size_text(rc),
        None => "client=<err>"@,
    }
}

/// A description of a window: its parent, whether it is visible, its styles, its place and the size
/// of its client area.
pub fn describe_window(
    parent: isize,
    visible: bool,
    style: u32,
    ex_style: u32,
    win: Option<Rect>,
    client: Option<Rect>,
) -> (r: String)
    ensures
        r@ == "parent=0x"@ + dbg::hex(parent as usize as nat) + " visible="@ + dbg::yes_no(visible)
            + " style=0x"@ + dbg::hex_wide(style as nat, 8) + " ex=0x"@ + dbg::hex_wide(
            ex_style as nat,
            8,
        ) + " "@ + window_place(win) + " "@ + client_size(client),
{
    let win_text = match win {
        Some(rc) => add_place(Line::new("win=("), &rc).text(")").done(),
        None => Line::new("win=<err>").done(),
    };
    let client_text = match client {
        Some(rc) => add_size(Line::new("client="), &rc).done(),
        None => Line::new("client=<err>").done(),
    };
    Line::new("parent=0x").hex(parent as usize as u64).text(" visible=").yes_no(visible).text(
        " style=0x",
    ).hex_wide(style as u64, 8).text(" ex=0x").hex_wide(ex_style as u64, 8).text(" ").text(
        win_text.as_str(),
    ).text(" ").text(client_text.as_str()).done()
}

/// What is told of a window in the search for those of the input method.
pub struct WindowReport {
    /// The window.
    pub hwnd: isize,
    /// The name of its class.
    pub class: String,
    /// Whether it is visible.
    pub visible: bool,
    /// Its extended style.
    pub ex_style: u32,
    /// Its parent.
    pub parent: isize,
    /// Its place on the screen; empty where it is not known.
    pub place: Rect,
}

/// The text of what is told of a window.
pub open spec fn window_text(w: WindowReport) -> Seq<char> {
    " hwnd=0x"@ + dbg::hex(w.hwnd as usize as nat) + " class='"@ + w.class@ + "' visible="@
        + dbg::yes_no(w.visible) + " ex=0x"@ + dbg::hex_wide(w.ex_style as nat, 8) + " parent=0x"@
        + dbg::hex(w.parent as usize as nat) + " rect=("@ + place_text(w.place) + ")"@
}

/// The text of what is told of a window.
fn describe(w: &WindowReport) -> (r: String)
    ensures
        r@ == window_text(*w),
{
    let line = Line::new(" hwnd=0x").hex(w.hwnd as usize as u64).text(" class='").text(
        w.class.as_str(),
    ).text("' visible=").yes_no(w.visible).text(" ex=0x").hex_wide(w.ex_style as u64, 8).text(
        " parent=0x",
    ).hex(w.parent as usize as u64).text(" rect=(");
    add_place(line, &w.place).text(")").done()
}

/// A window of the thread of an edit control; `count` tells how often they have been searched for.
pub fn thread_window(count: usize, w: &WindowReport) -> (r: String)
    ensures
        r@ == "[ime-enum] #"@ + dbg::decimal(count as nat) + " thread-wnd"@ + window_text(*w),
{
    let text = describe(w);
    Line::new("[ime-enum] #").decimal(count as u64).text(" thread-wnd").text(text.as_str()).done()
}

/// A window of the process that looks like one of an input method.
pub fn ime_like_window(w: &WindowReport) -> (r: String)
    ensures
        r@ == "[ime-enum] global IME-like"@ + window_text(*w),
{
    let text = describe(w);
    Line::new("[ime-enum] global IME-like").text(text.as_str()).done()
}

/// The name of what happens to an element.
pub open spec fn event_name(kind: EventKind) -> Seq<char> {
    match kind {
        EventKind::Begin => "BEGIN"@,
        EventKind::Update => "UPDATE"@,
        EventKind::End => "END"@,
    }
}

/// What happens to an element of the text services, with what is read of its list. Only the element
/// is told of an end, and an element without candidates is not reported.
pub fn element_event(kind: EventKind, id: u32, list: Option<&UiList>, focus: isize) -> (r: Option<
    String,
>)
    ensures
        r is Some <==> kind == EventKind::End || (list matches Some(l) && l.count > 0),
        r matches Some(line) ==> line@ == if kind == EventKind::End {
            "[tsf] END id="@ + dbg::decimal(id as nat)
        } else {
            let l = *list->0;
            "[tsf] "@ + event_name(kind) + " id="@ + dbg::decimal(id as nat) + " count="@
                + dbg::decimal(l.count as nat) + " sel="@ + dbg::decimal(l.selection as nat)
                + " page=("@ + dbg::decimal(l.page_start() as nat) + ",+"@ + dbg::decimal(
                l.visible() as nat,
            ) + ") focus=0x"@ + dbg::hex(focus as usize as nat)
        },
{
    let name: &'static str = match kind {
        EventKind::Begin => "BEGIN",
        EventKind::Update => "UPDATE",
        EventKind::End => {
            return Some(Line::new("[tsf] END id=").decimal(id as u64).done());
        },
    };
    let l = list?;
    if l.count == 0 {
        return None;
    }
    let (start, visible) = l.page();
    Some(
        Line::new("[tsf] ").text(name).text(" id=").decimal(id as u64).text(" count=").decimal(
            l.count as u64,
        ).text(" sel=").decimal(l.selection as u64).text(" page=(").decimal(start as u64).text(
            ",+",
        ).decimal(visible as u64).text(") focus=0x").hex(focus as usize as u64).done(),
    )
}

/// A rectangle is told by its left upper corner, its width and its height, in this order; a place
/// or a size that is not known is told as an error.
pub proof fn law_rectangles_are_told(rc: Rect)
    ensures
        ({
            let width = dbg::signed(geometry::clamped(rc.right - rc.left));
            let height = dbg::signed(geometry::clamped(rc.bottom - rc.top));
            let corner = dbg::signed(rc.left as int) + ","@ + dbg::signed(rc.top as int);
            &&& size_text(rc) == width + "x"@ + height
            &&& place_text(rc) == corner + " "@ + width + "x"@ + height
            &&& window_place(Some(rc)) == "win=("@ + corner + " "@ + width + "x"@ + height + ")"@
            &&& client_size(Some(rc)) == "client="@ + width + "x"@ + height
        }),
        window_place(None) == "win=<err>"@,
        client_size(None) == "client=<err>"@,
{
    let width = dbg::signed(geometry::clamped(rc.right - rc.left));
    let height = dbg::signed(geometry::clamped(rc.bottom - rc.top));
    let corner = dbg::signed(rc.left as int) + ","@ + dbg::signed(rc.top as int);
    assert(place_text(rc) =~= corner + " "@ + width + "x"@ + height);
    assert(window_place(Some(rc)) =~= "win=("@ + corner + " "@ + width + "x"@ + height + ")"@);
    assert(client_size(Some(rc)) =~= "client="@ + width + "x"@ + height);
}

/// A window is told by its handle, its class, whether it is visible, its extended style, its parent
/// and its place, each behind its own name.
pub proof fn law_windows_are_told(w: WindowReport)
    ensures
        window_text(w) == " hwnd=0x"@ + dbg::hex(w.hwnd as usize as nat) + " class='"@ + w.class@
            + "' visible="@ + (if w.visible {
            "true"@
        } else {
            "false"@
        }) + " ex=0x"@ + dbg::hex_wide(w.ex_style as nat, 8) + " parent=0x"@ + dbg::hex(
            w.parent as usize as nat,
        ) + " rect=("@ + place_text(w.place) + ")"@,
        event_name(EventKind::Begin) == "BEGIN"@,
        event_name(EventKind::Update) == "UPDATE"@,
        event_name(EventKind::End) == "END"@,
{
}

} // verus!
