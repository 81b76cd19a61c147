//! The lines that are reported to the log.

use ime_overlay::calls::Reply;
use ime_overlay::create_hook::{
    report_lied_module_once, trampoline_code, HookError, HookInstall, HookTarget, MemoryRequest,
    SetupError, TRAMPOLINE_LEN,
};
use ime_overlay::dbg::Line;
use ime_overlay::ddraw_hook::{capture_line, Outcome, SlotError, SurfaceError};
use ime_overlay::geometry::Rect;
use ime_overlay::report::{
    blt_args, bltfast_args, class_name_told, class_registered, colours_asked, describe_window,
    edit_message_seen, element_event, flip_args, function_hooked, ime_like_window, ime_message_seen,
    thread_window, window_created, WindowReport,
};
use ime_overlay::tsf_sink::{EventKind, UiList};

const PROLOGUE: [u8; 5] = [0x8B, 0xFF, 0x55, 0x8B, 0xEC];

fn wide(text: &str) -> Vec<u16> {
    text.encode_utf16().collect()
}

fn line(text: &str) -> Option<String> {
    Some(text.to_string())
}

#[test]
fn numbers_are_written_as_std_does() {
    for n in [0u64, 1, 9, 10, 15, 16, 255, 256, 0xDEAD_BEEF, 0xFFFF_FFFF, 1 << 32, u64::MAX] {
        assert_eq!(Line::new("").decimal(n).done(), format!("{n}"));
        assert_eq!(Line::new("").hex(n).done(), format!("{n:X}"));
    }
    for n in [0u32, 1, 0xA0, 0x0BAD_F00D, u32::MAX] {
        assert_eq!(Line::new("").hex_wide(n as u64, 8).done(), format!("{n:08X}"));
    }
    for n in [0u8, 7, 0xA0, u8::MAX] {
        assert_eq!(Line::new("").hex_wide(n as u64, 2).done(), format!("{n:02X}"));
    }
    assert_eq!(Line::new("").hex_wide(0x123, 2).done(), "23");
    for n in [0i32, 1, -1, 42, -42, i32::MAX, i32::MIN] {
        assert_eq!(Line::new("").signed(n).done(), format!("{n}"));
    }
    assert_eq!(Line::new("a").text("b").yes_no(true).text(" ").yes_no(false).done(), "abtrue false");
}

#[test]
fn the_arguments_of_surface_calls_are_told() {
    assert_eq!(flip_args(0xAB, 0x10), "target=0xAB flags=0x10");
    assert_eq!(
        blt_args(1, 0x2F, 3, 0x0100_0000, 0),
        "dstR=0x1 srcS=0x2F srcR=0x3 flags=0x1000000 fx=0x0"
    );
    assert_eq!(
        bltfast_args(640, 480, 0xABC, 0, 0x11),
        "dst=(640,480) srcS=0xABC srcR=0x0 flags=0x11"
    );
}

#[test]
fn captures_are_reported_by_their_outcome() {
    assert_eq!(capture_line(Outcome::Skipped, 1, 0, 5, 1200, 900), None);
    assert_eq!(
        capture_line(Outcome::NoDc, 1, 0x8876_01B0, 0x5A, 1200, 900),
        line("[ddraw] capture GetDC FAIL #1 hr=0x887601B0 this=0x5A")
    );
    assert_eq!(
        capture_line(Outcome::Copied, 60, 0, 0x5A, 1200, 900),
        line("[ddraw] capture OK #60 this=0x5A 1200x900")
    );
    assert_eq!(
        capture_line(Outcome::NotCopied, 3, 0, 0x5A, 1200, 900),
        line("[ddraw] capture BitBlt FAIL #3 this=0x5A")
    );
    assert_eq!(capture_line(Outcome::Copied, 4, 0, 0x5A, 1200, 900), None);
    assert_eq!(capture_line(Outcome::NoDc, 59, 0, 0x5A, 1200, 900), None);
}

#[test]
fn hooked_calls_are_told() {
    assert_eq!(
        window_created("CreateWindowExA", 2, 0x200, 0x0200_0200),
        "[ime] CreateWindowExA LUnicodeEdit #2: ex 0x00000200 -> 0x02000200"
    );
    assert_eq!(
        class_registered("RegisterClassExW", 1, 0x6B, 0x0B),
        "[ime] RegisterClassExW LUnicodeEdit #1: style 0x0000006B -> 0x0000000B"
    );
    assert_eq!(
        class_name_told("GetClassNameW", 7, 0x1F2, 0x7000_1234),
        "[ime] GetClassNameW LIE #7 hwnd=0x1F2 ret=0x70001234 \u{2192} 'Edit'"
    );
    assert_eq!(
        function_hooked("CreateWindowExW", 0x7700_0000, 0x3000, 0x1000_0000),
        "[ime] CreateWindowExW hooked: target=0x77000000 trampoline=0x3000 detour=0x10000000"
    );
}

#[test]
fn messages_are_told_with_their_window() {
    let win = Rect { left: -5, top: 10, right: 195, bottom: 30 };
    let client = Rect { left: 0, top: 0, right: 196, bottom: 18 };
    let window = describe_window(0x10, true, 0x5000_0000, 0x200, Some(win), Some(client));
    assert_eq!(
        window,
        "parent=0x10 visible=true style=0x50000000 ex=0x00000200 win=(-5,10 200x20) client=196x18"
    );
    assert_eq!(
        describe_window(0, false, 0, 0, None, None),
        "parent=0x0 visible=false style=0x00000000 ex=0x00000000 win=<err> client=<err>"
    );
    assert_eq!(
        edit_message_seen("WM_PAINT", 0xA1, 2, 3, "before_orig", &window),
        format!("[ime-diag] edit msg WM_PAINT hwnd=0xA1 wp=0x2 lp=0x3 before_orig {window}")
    );
    assert_eq!(
        colours_asked("WM_CTLCOLOREDIT", 0xB0, 0xB1, 0xDC, &window),
        format!(
            "[ime-diag] parent WM_CTLCOLOREDIT parent=0xB0 child=0xB1 hdc=0xDC child_info={window}"
        )
    );
    assert_eq!(
        ime_message_seen("WM_IME_NOTIFY", 0xA1, 5, -1),
        format!("[ime-trace] WM_IME_NOTIFY hwnd=0xA1 wp=0x5 lp=0x{:X}", -1isize)
    );
}

#[test]
fn windows_that_were_searched_for_are_told() {
    let w = WindowReport {
        hwnd: 0xC0,
        class: "MSCTFIME UI".to_string(),
        visible: false,
        ex_style: 0x88,
        parent: 0xC1,
        place: Rect { left: 1, top: 2, right: 11, bottom: 22 },
    };
    let text = "hwnd=0xC0 class='MSCTFIME UI' visible=false ex=0x00000088 parent=0xC1 rect=(1,2 10x20)";
    assert_eq!(thread_window(3, &w), format!("[ime-enum] #3 thread-wnd {text}"));
    assert_eq!(ime_like_window(&w), format!("[ime-enum] global IME-like {text}"));
}

#[test]
fn elements_with_candidates_are_told() {
    let list = UiList { count: 12, selection: 10, current_page: 1, pages: vec![0, 9] };
    assert_eq!(
        element_event(EventKind::Begin, 4, Some(&list), 0x2A),
        line("[tsf] BEGIN id=4 count=12 sel=10 page=(9,+3) focus=0x2A")
    );
    assert_eq!(
        element_event(EventKind::Update, 4, Some(&list), 0),
        line("[tsf] UPDATE id=4 count=12 sel=10 page=(9,+3) focus=0x0")
    );
    assert_eq!(element_event(EventKind::End, 4, None, 0x2A), line("[tsf] END id=4"));
    assert_eq!(element_event(EventKind::Begin, 4, None, 0x2A), None);
    let empty = UiList { count: 0, selection: 0, current_page: 0, pages: vec![] };
    assert_eq!(element_event(EventKind::Update, 4, Some(&empty), 0x2A), None);
}

#[test]
fn the_first_module_of_an_input_method_is_told_once() {
    let ime = wide("C:\\Windows\\System32\\MSCTF.dll");
    let game = wide("C:\\Game\\game.exe");
    let mut reported = false;
    assert_eq!(report_lied_module_once(&mut reported, None), None);
    assert_eq!(report_lied_module_once(&mut reported, Some(&game)), None);
    assert!(!reported);
    assert_eq!(
        report_lied_module_once(&mut reported, Some(&ime)),
        line("[ime] GetClassName lie target module: 'msctf.dll'")
    );
    assert!(reported);
    assert_eq!(report_lied_module_once(&mut reported, Some(&ime)), None);
    assert!(reported);
}

#[test]
fn a_trampoline_is_given_memory_once() {
    assert_eq!(TRAMPOLINE_LEN, 32);
    let mut m = HookInstall::Prologue;
    let replies = [
        Reply::Flag(true),
        Reply::Handle(0x3000),
        Reply::Done,
        Reply::Done,
        Reply::Flag(true),
        Reply::Done,
        Reply::Done,
    ];
    let mut requests = Vec::new();
    for reply in replies {
        if let Some(request) = m.memory() {
            requests.push(request);
        }
        m = m.step(reply);
    }
    assert_eq!(m, HookInstall::Finished { result: Ok(()) });
    assert_eq!(m.memory(), None);
    assert_eq!(requests, [MemoryRequest { len: 32, allocation: 0x3000, protection: 0x40 }]);
    assert!(trampoline_code(PROLOGUE, 0x7700_0000, 0x3000).len() <= TRAMPOLINE_LEN);
}

#[test]
fn a_hook_that_fails_is_told() {
    let found = [0xE9, 0x00, 0x0A, 0xFF, 0x10];
    assert_eq!(
        HookError::NotHotPatchable.message("CreateWindowExA", found, ""),
        format!(
            "CreateWindowExA prologue not hot-patchable: {found:02X?} (expected {PROLOGUE:02X?})"
        )
    );
    assert_eq!(
        HookError::NoTrampoline.message("CreateWindowExA", PROLOGUE, ""),
        "CreateWindowExA: VirtualAlloc trampoline failed"
    );
    assert_eq!(
        HookError::NotWritable.message("CreateWindowExA", PROLOGUE, "denied"),
        "CreateWindowExA: VirtualProtect RWX failed: denied"
    );
    assert_eq!(SetupError::NoModule.message("gone"), "GetModuleHandleA(user32.dll): gone");
    let name: Result<&str, std::str::Utf8Error> = Ok("RegisterClassExW\0");
    assert_eq!(
        SetupError::NotFound(HookTarget::RegisterClassExW).message(""),
        format!("GetProcAddress({name:?}) returned NULL")
    );
    assert_eq!(SetupError::NotHooked(HookTarget::CreateWindowExA).message("why"), "why");
    let names = [
        (HookTarget::RegisterClassExA, "RegisterClassExA"),
        (HookTarget::RegisterClassExW, "RegisterClassExW"),
        (HookTarget::CreateWindowExA, "CreateWindowExA"),
        (HookTarget::CreateWindowExW, "CreateWindowExW"),
    ];
    for (target, name) in names {
        assert_eq!(target.name(), name);
    }
}

#[test]
fn a_surface_that_is_not_hooked_is_told() {
    assert_eq!(SlotError::Null.message(5, 0x2F), "vtable[5] slot @ 0x2F \u{662F} null");
    assert_eq!(SlotError::NotWritable.message(5, 0x2F), "VirtualProtect failed at 0x2F");
    assert_eq!(
        SurfaceError::NoSurface.message(0, ""),
        "primary surface global @ 0x9A84E8 \u{662F} null \u{2014} game \u{9084}\u{6C92} init?"
    );
    assert_eq!(
        SurfaceError::NoTable.message(0xAB, ""),
        "surface 0xAB \u{7684} vtable \u{662F} null"
    );
    assert_eq!(
        SurfaceError::NoDcEntries.message(0, ""),
        "GetDC / ReleaseDC vtable entry \u{662F} null"
    );
    assert_eq!(SurfaceError::NoBuffer.message(0, ""), "create capture buffer failed");
    assert_eq!(SurfaceError::BufferInUse.message(0, "locked"), "locked");
    assert_eq!(SurfaceError::NotPatched.message(0, "slot"), "slot");
}
