//! The hooks on window creation and on the drawing surface.

use ime_overlay::calls::Reply;
use ime_overlay::create_hook::{
    caller_should_be_lied_to, class_matches_a, class_matches_w, class_name_is_atom, hit_is_reported,
    hooked_a, hooked_gcn_a, hooked_gcn_w, hooked_register_class_a, hooked_register_class_w, hooked_w,
    install, is_hot_patchable, jump_code, module_is_ime, trampoline_code, try_disable_tsf_once,
    write_edit_lie_a, write_edit_lie_w, CallerCache, HookError, HookInstall, HookTarget, SetupError,
    SetupPhase,
};
use ime_overlay::ddraw_hook::{
    counted, granted, maybe_log_call, maybe_log_capture, should_capture, slot_address,
    with_capture_dc, BufferBuild, BuildPhase, CaptureBuffer, CapturePhase, Outcome, SlotError,
    SlotPatch, SlotPhase, SurfaceCapture, SurfaceError, SurfacePhase,
};
use ime_overlay::subclass::Subclasses;

fn wide(text: &str) -> Vec<u16> {
    text.encode_utf16().collect()
}

#[test]
fn the_target_class_is_found_whatever_the_case() {
    assert!(class_matches_a(b"LUnicodeEdit\0"));
    assert!(class_matches_a(b"lunicodeedit\0"));
    assert!(class_matches_a(b"LUNICODEEDIT\0rest"));
    assert!(!class_matches_a(b"LUnicodeEdit2\0"));
    assert!(!class_matches_a(b"LUnicodeEdi\0"));
    assert!(!class_matches_a(b"LUnicodeEdit"));
    assert!(!class_matches_a(b"Edit\0"));
    assert!(!class_matches_a(b"\xCCUnicodeEdit\0"));
    assert!(class_matches_w(&wide("lUNICODEeDIT\0")));
    assert!(!class_matches_w(&wide("LUnicodeEdit")));
    assert!(!class_matches_w(&wide("\u{14C}UnicodeEdit\0")));
    assert!(!class_matches_w(&wide("\u{FF2C}UnicodeEdit\0")));
}

#[test]
fn small_addresses_are_atoms() {
    assert!(class_name_is_atom(0));
    assert!(class_name_is_atom(0xFFFF));
    assert!(!class_name_is_atom(0x1_0000));
}

#[test]
fn styles_pass_through_the_hooks() {
    let r = hooked_a(Some(b"LUnicodeEdit\0"), 0x100);
    assert_eq!((r.style, r.target), (0x100, true));
    let r = hooked_a(Some(b"Button\0"), 0x200);
    assert_eq!((r.style, r.target), (0x200, false));
    let r = hooked_a(None, 0x300);
    assert_eq!((r.style, r.target), (0x300, false));
    let r = hooked_w(Some(&wide("LUnicodeEdit\0")), 0x100);
    assert_eq!((r.style, r.target), (0x100, true));
    let r = hooked_w(None, 0x101);
    assert_eq!((r.style, r.target), (0x101, false));
    let r = hooked_register_class_a(Some(b"LUnicodeEdit\0"), 0x68);
    assert_eq!((r.style, r.target), (0x68, true));
    let r = hooked_register_class_a(Some(b"Other\0"), 0x68);
    assert_eq!((r.style, r.target), (0x68, false));
    let r = hooked_register_class_w(Some(&wide("LUnicodeEdit\0")), 0x60);
    assert_eq!((r.style, r.target), (0x60, true));
    let r = hooked_register_class_w(None, 0);
    assert_eq!((r.style, r.target), (0, false));
}

#[test]
fn modules_of_the_input_method_are_known_by_their_file_name() {
    for path in [
        "C:\\Windows\\System32\\MSCTF.dll",
        "C:\\Windows\\System32\\imm32.DLL",
        "C:\\Windows\\System32\\msctfime.ime",
        "C:\\x\\ctfime.dll",
        "C:\\x\\Chewing.IME",
        "C:\\x\\TextInputFramework.dll",
        "C:\\x\\Windows.Input.dll",
    ] {
        assert!(module_is_ime(&wide(path)), "{path}");
    }
    for path in [
        "",
        "C:\\imm32\\user32.dll",
        "C:\\x\\Chewing.ime.dll",
        "C:\\msctf.dll\\",
        "game.exe",
    ] {
        assert!(!module_is_ime(&wide(path)), "{path}");
    }
}

#[test]
fn a_caller_is_looked_up_once_for_its_page() {
    let ime = wide("C:\\Windows\\System32\\imm32.dll");
    let game = wide("C:\\game.exe");
    let mut cache = CallerCache::new();
    assert_eq!(cache.known(0x1234_5678), None);
    assert!(caller_should_be_lied_to(&mut cache, 0x1234_5678, Some(&ime)));
    assert_eq!(cache.known(0x1234_5000), Some(true));
    assert_eq!(cache.known(0x1234_5FFF), Some(true));
    assert_eq!(cache.known(0x1234_6000), None);
    assert!(caller_should_be_lied_to(&mut cache, 0x1234_5001, Some(&game)));
    assert!(!caller_should_be_lied_to(&mut cache, 0x1234_6000, None));
    assert!(!caller_should_be_lied_to(&mut cache, 0x1234_6001, Some(&ime)));
    assert!(!caller_should_be_lied_to(&mut cache, 0x1234_7000, Some(&game)));
}

#[test]
fn the_plain_class_name_is_cut_to_the_buffer() {
    assert_eq!(write_edit_lie_w(false, 64), (wide("Edit\0"), 4));
    assert_eq!(write_edit_lie_w(false, 5), (wide("Edit\0"), 4));
    assert_eq!(write_edit_lie_w(false, 4), (wide("Edi\0"), 3));
    assert_eq!(write_edit_lie_w(false, 3), (wide("Ed\0"), 2));
    assert_eq!(write_edit_lie_w(false, 2), (wide("E\0"), 1));
    assert_eq!(write_edit_lie_w(false, 1), (wide("\0"), 0));
    assert_eq!(write_edit_lie_w(false, 0), (vec![], 0));
    assert_eq!(write_edit_lie_w(false, -1), (vec![], 0));
    assert_eq!(write_edit_lie_w(true, 64), (vec![], 0));
    assert_eq!(write_edit_lie_a(false, 64), (b"Edit\0".to_vec(), 4));
    assert_eq!(write_edit_lie_a(false, 2), (b"E\0".to_vec(), 1));
    assert_eq!(write_edit_lie_a(true, 2), (vec![], 0));
}

#[test]
fn only_the_input_method_is_told_a_plain_class_name() {
    let ime = wide("C:\\Windows\\System32\\msctf.dll");
    let mut cache = CallerCache::new();
    let mut windows = Subclasses::new();
    assert_eq!(hooked_gcn_w(&mut cache, &windows, 0x5000, Some(&ime), 9, false, 16), None);
    windows.keep(9, 77);
    assert_eq!(
        hooked_gcn_w(&mut cache, &windows, 0x5000, Some(&ime), 9, false, 16),
        Some((wide("Edit\0"), 4))
    );
    assert_eq!(
        hooked_gcn_a(&mut cache, &windows, 0x5123, None, 9, false, 3),
        Some((b"Ed\0".to_vec(), 2))
    );
    assert_eq!(hooked_gcn_a(&mut cache, &windows, 0x9000, None, 9, false, 16), None);
    assert_eq!(hooked_gcn_a(&mut cache, &windows, 0x5000, None, 10, false, 16), None);
}

#[test]
fn the_first_hits_are_reported() {
    assert!(hit_is_reported(1));
    assert!(hit_is_reported(8));
    assert!(!hit_is_reported(9));
}

#[test]
fn the_text_services_are_switched_off_once() {
    let mut tried = false;
    assert!(try_disable_tsf_once(&mut tried));
    assert!(tried);
    assert!(!try_disable_tsf_once(&mut tried));
    assert!(tried);
}

#[test]
fn only_the_hot_patch_prologue_is_replaced() {
    assert!(is_hot_patchable([0x8B, 0xFF, 0x55, 0x8B, 0xEC]));
    assert!(!is_hot_patchable([0xE9, 0xFF, 0x55, 0x8B, 0xEC]));
    assert!(!is_hot_patchable([0x8B, 0xFF, 0x55, 0x8B, 0xED]));
}

#[test]
fn a_jump_leads_to_its_target() {
    assert_eq!(jump_code(0x1000, 0x2000), [0xE9, 0xFB, 0x0F, 0x00, 0x00]);
    assert_eq!(jump_code(0x2000, 0x1000), [0xE9, 0xFB, 0xEF, 0xFF, 0xFF]);
    assert_eq!(jump_code(0xFFFF_FFFE, 0x3), [0xE9, 0x00, 0x00, 0x00, 0x00]);
    for (from, to) in [(0u32, 0u32), (0x7654_3210, 0x0012_3456), (u32::MAX, 0), (5, u32::MAX)] {
        let code = jump_code(from, to);
        let rel = i32::from_le_bytes([code[1], code[2], code[3], code[4]]);
        assert_eq!(code[0], 0xE9);
        assert_eq!(from.wrapping_add(5).wrapping_add(rel as u32), to);
    }
}

#[test]
fn a_trampoline_goes_on_behind_the_prologue() {
    let prologue = [0x8B, 0xFF, 0x55, 0x8B, 0xEC];
    let code = trampoline_code(prologue, 0x7700_1000, 0x0340_0000);
    assert_eq!(code[..5], prologue);
    assert_eq!(code[5], 0xE9);
    let rel = i32::from_le_bytes([code[6], code[7], code[8], code[9]]);
    assert_eq!(0x0340_000Au32.wrapping_add(rel as u32), 0x7700_1005);
    assert_eq!(
        rel,
        0x7700_1000i32.wrapping_add(5).wrapping_sub(0x0340_0000i32.wrapping_add(10))
    );
}

#[test]
fn a_function_is_hooked_step_by_step() {
    let m = HookInstall::Prologue.step(Reply::Flag(true));
    assert_eq!(m, HookInstall::Allocate);
    let m = m.step(Reply::Handle(64));
    assert_eq!(m, HookInstall::WriteTrampoline { trampoline: 64 });
    assert_eq!(m.step(Reply::Flag(true)), m);
    let m = m.step(Reply::Done);
    assert_eq!(m, HookInstall::Publish { trampoline: 64 });
    let m = m.step(Reply::Done);
    assert_eq!(m, HookInstall::Unprotect { trampoline: 64 });
    let m = m.step(Reply::Flag(true));
    assert_eq!(m, HookInstall::Patch { trampoline: 64 });
    let m = m.step(Reply::Done).step(Reply::Done);
    assert_eq!(m, HookInstall::Finished { result: Ok(()) });
}

#[test]
fn a_function_that_cannot_be_hooked_is_left_alone() {
    assert_eq!(
        HookInstall::Prologue.step(Reply::Flag(false)),
        HookInstall::Finished { result: Err(HookError::NotHotPatchable) }
    );
    assert_eq!(
        HookInstall::Allocate.step(Reply::Handle(0)),
        HookInstall::Finished { result: Err(HookError::NoTrampoline) }
    );
    assert_eq!(
        HookInstall::Unprotect { trampoline: 1 }.step(Reply::Flag(false)),
        HookInstall::Finished { result: Err(HookError::NotWritable) }
    );
}

#[test]
fn the_hooks_are_installed_in_their_order() {
    let mut m = install();
    let order = [
        SetupPhase::FindModule,
        SetupPhase::ResolveRegisterClassExA,
        SetupPhase::ResolveRegisterClassExW,
        SetupPhase::HookRegisterClassExA,
        SetupPhase::HookRegisterClassExW,
        SetupPhase::ResolveCreateWindowExA,
        SetupPhase::ResolveCreateWindowExW,
        SetupPhase::HookCreateWindowExA,
        SetupPhase::HookCreateWindowExW,
    ];
    for phase in order {
        assert_eq!(m.phase, phase);
        m = m.step(Reply::Flag(true));
    }
    assert_eq!(m.phase, SetupPhase::Finished);
    assert_eq!(m.result, Ok(()));
}

#[test]
fn the_first_failure_ends_the_installation() {
    let errors = [
        SetupError::NoModule,
        SetupError::NotFound(HookTarget::RegisterClassExA),
        SetupError::NotFound(HookTarget::RegisterClassExW),
        SetupError::NotHooked(HookTarget::RegisterClassExA),
        SetupError::NotHooked(HookTarget::RegisterClassExW),
        SetupError::NotFound(HookTarget::CreateWindowExA),
        SetupError::NotFound(HookTarget::CreateWindowExW),
        SetupError::NotHooked(HookTarget::CreateWindowExA),
        SetupError::NotHooked(HookTarget::CreateWindowExW),
    ];
    let mut m = install();
    for error in errors {
        let failed = m.step(Reply::Flag(false));
        assert_eq!(failed.phase, SetupPhase::Finished);
        assert_eq!(failed.result, Err(error));
        m = m.step(Reply::Flag(true));
    }
}

#[test]
fn calls_on_the_surface_are_reported_now_and_then() {
    assert_eq!(
        maybe_log_call("Blt", 1, 0x5AF, 0x5AF, "x"),
        Some("[ddraw] Blt #1 this=0x5AF is_primary=true x".to_string())
    );
    assert_eq!(
        maybe_log_call("Flip", 3, 5, 6, ""),
        Some("[ddraw] Flip #3 this=0x5 is_primary=false ".to_string())
    );
    assert_eq!(maybe_log_call("Blt", 4, 5, 5, "x"), None);
    assert_eq!(
        maybe_log_call("Blt", 600, 5, 0, "x"),
        Some("[ddraw] Blt #600 this=0x5 is_primary=false x".to_string())
    );
    assert_eq!(maybe_log_call("Blt", 601, 5, 5, "x"), None);
    assert!(maybe_log_capture(3));
    assert!(!maybe_log_capture(59));
    assert!(maybe_log_capture(60));
}

#[test]
fn one_picture_in_four_of_the_primary_surface_is_captured() {
    assert!(should_capture(0, 5, 5, 4));
    assert!(should_capture(7, 5, 5, 8));
    assert!(!should_capture(-1, 5, 5, 4));
    assert!(!should_capture(0, 5, 6, 4));
    assert!(!should_capture(0, 5, 5, 5));
}

#[test]
fn entries_are_four_bytes_apart() {
    assert_eq!(slot_address(0x1000, 5), Some(0x1014));
    assert_eq!(slot_address(0x1000, 0), Some(0x1000));
    assert_eq!(slot_address(usize::MAX, 1), None);
    assert_eq!(slot_address(0, usize::MAX), None);
}

#[test]
fn a_failed_status_grants_nothing() {
    assert_eq!(granted(0, 9), 9);
    assert_eq!(granted(1, 9), 9);
    assert_eq!(granted(-5, 9), 0);
}

#[test]
fn a_capture_buffer_is_made_of_a_context_and_a_bitmap() {
    let m = BufferBuild::new();
    assert_eq!(m.phase, BuildPhase::CreateDc);
    let m = m.step(Reply::Handle(3)).step(Reply::Handle(4)).step(Reply::Handle(5));
    assert_eq!(m.phase, BuildPhase::Finished);
    let buffer = m.buffer(1200, 900);
    assert_eq!(
        buffer,
        Some(CaptureBuffer { dc: 3, bitmap: 4, previous: 5, width: 1200, height: 900 })
    );
    assert_eq!(with_capture_dc(&buffer), Some((3, 1200, 900)));
    assert_eq!(with_capture_dc(&None), None);
}

#[test]
fn a_capture_buffer_that_fails_leaves_nothing() {
    for handle in [0, -1] {
        let m = BufferBuild::new().step(Reply::Handle(handle));
        assert_eq!(m.phase, BuildPhase::Finished);
        assert_eq!(m.buffer(1200, 900), None);
    }
    let m = BufferBuild::new().step(Reply::Handle(3)).step(Reply::Handle(0));
    assert_eq!(m.phase, BuildPhase::DeleteDc);
    assert_eq!(m.dc, 3);
    let m = m.step(Reply::Done);
    assert_eq!(m.phase, BuildPhase::Finished);
    assert_eq!(m.buffer(1200, 900), None);
}

#[test]
fn a_capture_is_counted_by_its_outcome() {
    assert_eq!(counted(Outcome::Skipped), None);
    assert_eq!(counted(Outcome::Copied), Some(true));
    assert_eq!(counted(Outcome::NoDc), Some(false));
    assert_eq!(counted(Outcome::NotCopied), Some(false));
}

#[test]
fn a_capture_gives_its_context_back() {
    assert_eq!(SurfaceCapture::new(0, 1, true).phase, CapturePhase::Finished);
    assert_eq!(SurfaceCapture::new(1, 0, true).phase, CapturePhase::Finished);
    assert_eq!(SurfaceCapture::new(1, 1, false).phase, CapturePhase::Finished);
    let m = SurfaceCapture::new(1, 1, true);
    assert_eq!(m.outcome, Outcome::Skipped);
    assert_eq!(m.step(Reply::Handle(0)).outcome, Outcome::NoDc);
    assert_eq!(m.step(Reply::Handle(-1)).phase, CapturePhase::Finished);
    let m = m.step(Reply::Handle(8));
    assert_eq!(m.phase, CapturePhase::Copy);
    for (ok, outcome) in [(true, Outcome::Copied), (false, Outcome::NotCopied)] {
        let m = m.step(Reply::Flag(ok));
        assert_eq!((m.phase, m.hdc, m.outcome), (CapturePhase::GiveDc, 8, outcome));
        assert_eq!(m.step(Reply::Done).phase, CapturePhase::Finished);
    }
}

#[test]
fn an_entry_is_kept_before_it_is_replaced() {
    let m = SlotPatch::new();
    assert_eq!(m.step(Reply::Handle(0)).result, Err(SlotError::Null));
    let m = m.step(Reply::Handle(0x42));
    assert_eq!((m.phase, m.original), (SlotPhase::Unprotect, 0x42));
    assert_eq!(m.step(Reply::Flag(false)).result, Err(SlotError::NotWritable));
    let m = m.step(Reply::Flag(true));
    assert_eq!(m.phase, SlotPhase::Save);
    let m = m.step(Reply::Done);
    assert_eq!(m.phase, SlotPhase::Write);
    let m = m.step(Reply::Done);
    assert_eq!(m.phase, SlotPhase::Protect);
    let m = m.step(Reply::Done);
    assert_eq!((m.phase, m.result), (SlotPhase::Finished, Ok(())));
}

#[test]
fn the_surface_is_hooked_once() {
    let done = ime_overlay::ddraw_hook::install(true);
    assert_eq!((done.phase, done.result), (SurfacePhase::Finished, Ok(())));
    let replies = [
        (SurfacePhase::ReadSurface, Reply::Handle(1)),
        (SurfacePhase::ReadTable, Reply::Handle(2)),
        (SurfacePhase::StoreSurface, Reply::Done),
        (SurfacePhase::ReadGetDc, Reply::Handle(3)),
        (SurfacePhase::ReadReleaseDc, Reply::Handle(4)),
        (SurfacePhase::StoreDcEntries, Reply::Done),
        (SurfacePhase::CreateBuffer, Reply::Flag(true)),
        (SurfacePhase::StoreBuffer, Reply::Flag(true)),
        (SurfacePhase::PatchBlt, Reply::Flag(true)),
        (SurfacePhase::PatchBltFast, Reply::Flag(true)),
        (SurfacePhase::PatchFlip, Reply::Flag(true)),
        (SurfacePhase::MarkInstalled, Reply::Done),
    ];
    let mut m = ime_overlay::ddraw_hook::install(false);
    for (phase, reply) in replies {
        assert_eq!(m.phase, phase);
        m = m.step(reply);
    }
    assert_eq!((m.phase, m.result), (SurfacePhase::Finished, Ok(())));
    assert_eq!((m.surface, m.table, m.getdc, m.releasedc), (1, 2, 3, 4));
}

#[test]
fn a_surface_that_cannot_be_hooked_is_told() {
    let m = ime_overlay::ddraw_hook::install(false);
    assert_eq!(m.step(Reply::Handle(0)).result, Err(SurfaceError::NoSurface));
    let m = m.step(Reply::Handle(1));
    assert_eq!(m.step(Reply::Handle(0)).result, Err(SurfaceError::NoTable));
    let m = m.step(Reply::Handle(2)).step(Reply::Done);
    let null = m.step(Reply::Handle(0)).step(Reply::Handle(4));
    assert_eq!((null.phase, null.result), (SurfacePhase::Finished, Err(SurfaceError::NoDcEntries)));
    let m = m.step(Reply::Handle(3));
    assert_eq!(m.step(Reply::Handle(0)).result, Err(SurfaceError::NoDcEntries));
    let m = m.step(Reply::Handle(4)).step(Reply::Done);
    assert_eq!(m.step(Reply::Flag(false)).result, Err(SurfaceError::NoBuffer));
    let m = m.step(Reply::Flag(true));
    assert_eq!(m.step(Reply::Flag(false)).result, Err(SurfaceError::BufferInUse));
    let mut m = m.step(Reply::Flag(true));
    for _ in 0..3 {
        assert_eq!(m.step(Reply::Flag(false)).result, Err(SurfaceError::NotPatched));
        m = m.step(Reply::Flag(true));
    }
    assert_eq!(m.phase, SurfacePhase::MarkInstalled);
}
