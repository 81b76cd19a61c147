//! The window procedures, the edit controls and what is known of them.

use ime_overlay::calls::Reply;
use ime_overlay::edit_message::{EditMessage, EditStep};
use ime_overlay::game_message::{GameMessage, GamePhase};
use ime_overlay::geometry::{Point, Rect};
use ime_overlay::messages::{
    EVENT_OBJECT_CREATE, EVENT_OBJECT_FOCUS, GCS_COMPSTR, IMN_CHANGECANDIDATE, IMN_CLOSECANDIDATE,
    IMN_OPENCANDIDATE, WM_APP, WM_CHAR, WM_CTLCOLOREDIT, WM_CTLCOLORSTATIC, WM_DESTROY, WM_ERASEBKGND,
    WM_IME_CHAR, WM_IME_COMPOSITION, WM_IME_ENDCOMPOSITION, WM_IME_NOTIFY, WM_IME_SETCONTEXT,
    WM_IME_STARTCOMPOSITION, WM_KEYUP, WM_KILLFOCUS, WM_NCPAINT, WM_PAINT, WM_PRINTCLIENT, WM_SETFOCUS,
    WM_SETTEXT, WM_TIMER, WM_TSF_INIT_ON_UI_THREAD,
};
use ime_overlay::rescue::{Rescue, RescuePhase};
use ime_overlay::subclass::{
    apply_double_buffer_post, class_is_target, diag_log_ctlcolor, diag_log_edit_msg, diag_msg_bit,
    edit_bg_brush, ensure_repaint_timer, enum_global_log_proc, enum_thread_log_proc,
    erase_edit_background, ime_message_name, install_create_watcher, is_ime_notify_message,
    is_subclassed_lunicode_edit, print_edit_client, should_refresh_edit, subclass_all_existing,
    subclass_game_window_pub, subclass_window, timer_fire_is_reported, win_event_proc, ChildWindow,
    DiagSeen, FillPhase, FireCounts, ReplacePhase, Subclasses, Timers, EDIT_PRINT_FLAGS,
    REPAINT_TIMER_ID, WS_EX_COMPOSITED_STYLE,
};

fn wide(text: &str) -> Vec<u16> {
    text.encode_utf16().collect()
}

fn reply_at(m: &EditMessage, flag: bool, original: i64, answer: i64) -> Reply {
    match m.step {
        EditStep::Erase | EditStep::AskVisible | EditStep::Fetch | EditStep::Blit => Reply::Flag(flag),
        EditStep::LookUp => Reply::Number(original),
        EditStep::CallOriginal => Reply::Number(answer),
        _ => Reply::Done,
    }
}

fn trace(msg: u32, wparam: usize, lparam: isize, flag: bool, original: i64) -> (Vec<EditStep>, i64) {
    let mut m = EditMessage::new(msg, wparam, lparam);
    let mut steps = Vec::new();
    while m.step != EditStep::Finished {
        steps.push(m.step);
        m = m.step(reply_at(&m, flag, original, 55));
    }
    (steps, m.result)
}

#[test]
fn an_opened_list_is_shown_and_kept_from_the_control() {
    let (steps, result) = trace(WM_IME_NOTIFY, IMN_OPENCANDIDATE, 0, true, 99);
    assert_eq!(
        steps,
        vec![
            EditStep::Report,
            EditStep::Trace,
            EditStep::Forward,
            EditStep::Fetch,
            EditStep::Show,
            EditStep::Rescue,
            EditStep::LookUp,
        ]
    );
    assert_eq!(result, 0);
    let (steps, _) = trace(WM_IME_NOTIFY, IMN_OPENCANDIDATE, 0, false, 99);
    assert!(!steps.contains(&EditStep::Show));
    assert!(steps.contains(&EditStep::Rescue));
}

#[test]
fn a_changed_list_is_updated() {
    let (steps, _) = trace(WM_IME_NOTIFY, IMN_CHANGECANDIDATE, 0, true, 99);
    assert_eq!(
        steps,
        vec![
            EditStep::Report,
            EditStep::Trace,
            EditStep::Forward,
            EditStep::Fetch,
            EditStep::Update,
            EditStep::LookUp,
        ]
    );
    let (steps, _) = trace(WM_IME_NOTIFY, IMN_CHANGECANDIDATE, 0, false, 99);
    assert!(!steps.contains(&EditStep::Update));
}

#[test]
fn a_closed_list_is_hidden() {
    let (steps, _) = trace(WM_IME_NOTIFY, IMN_CLOSECANDIDATE, 0, true, 99);
    assert_eq!(
        steps,
        vec![
            EditStep::Report,
            EditStep::Trace,
            EditStep::Forward,
            EditStep::HideWindow,
            EditStep::LookUp,
        ]
    );
}

#[test]
fn another_notification_only_passes() {
    let (steps, result) = trace(WM_IME_NOTIFY, 0x0F, 0, true, 99);
    assert_eq!(
        steps,
        vec![EditStep::Report, EditStep::Trace, EditStep::Forward, EditStep::LookUp]
    );
    assert_eq!(result, 0);
}

#[test]
fn a_composition_is_shown_in_a_visible_window() {
    let (steps, result) = trace(WM_IME_COMPOSITION, 0, GCS_COMPSTR as isize, true, 99);
    assert_eq!(
        steps,
        vec![
            EditStep::Report,
            EditStep::Trace,
            EditStep::AskVisible,
            EditStep::Fetch,
            EditStep::Update,
            EditStep::LookUp,
            EditStep::CallOriginal,
            EditStep::Blit,
        ]
    );
    assert_eq!(result, 55);
    let (steps, _) = trace(WM_IME_COMPOSITION, 0, GCS_COMPSTR as isize, false, 99);
    assert!(!steps.contains(&EditStep::Fetch));
    assert_eq!(steps.last(), Some(&EditStep::Invalidate));
    let (steps, _) = trace(WM_IME_COMPOSITION, 0, 0x0800, true, 99);
    assert!(!steps.contains(&EditStep::AskVisible));
    let (steps, _) = trace(WM_IME_COMPOSITION, 0, -1, true, 99);
    assert!(steps.contains(&EditStep::AskVisible));
}

#[test]
fn the_focus_is_noted_and_the_control_repainted() {
    let (steps, result) = trace(WM_SETFOCUS, 0, 0, true, 99);
    assert_eq!(
        steps,
        vec![
            EditStep::NoteFocus,
            EditStep::Report,
            EditStep::LookUp,
            EditStep::CallOriginal,
            EditStep::Blit,
        ]
    );
    assert_eq!(result, 55);
}

#[test]
fn leaving_a_control_hides_the_window() {
    let (steps, _) = trace(WM_KILLFOCUS, 0, 0, true, 99);
    assert_eq!(
        steps,
        vec![EditStep::Report, EditStep::HideWindow, EditStep::LookUp, EditStep::CallOriginal]
    );
    let (steps, _) = trace(WM_DESTROY, 0, 0, true, 99);
    assert_eq!(
        steps,
        vec![
            EditStep::KillTimer,
            EditStep::Report,
            EditStep::HideWindow,
            EditStep::LookUp,
            EditStep::CallOriginal,
        ]
    );
}

#[test]
fn painting_is_answered_at_once() {
    assert_eq!(trace(WM_PAINT, 0, 0, true, 99), (vec![EditStep::Paint], 0));
    assert_eq!(trace(WM_ERASEBKGND, 5, 0, true, 99), (vec![EditStep::Erase], 1));
    let (steps, result) = trace(WM_ERASEBKGND, 5, 0, false, 99);
    assert_eq!(
        steps,
        vec![EditStep::Erase, EditStep::Report, EditStep::LookUp, EditStep::CallOriginal]
    );
    assert_eq!(result, 55);
}

#[test]
fn a_plain_message_goes_to_the_original_procedure() {
    assert_eq!(trace(0x0200, 0, 0, true, 99), (vec![EditStep::LookUp, EditStep::CallOriginal], 55));
    assert_eq!(trace(0x0200, 0, 0, true, 0), (vec![EditStep::LookUp], 0));
    assert_eq!(
        trace(WM_TIMER, REPAINT_TIMER_ID, 0, true, 99),
        (vec![EditStep::LookUp, EditStep::CallOriginal], 55)
    );
}

#[test]
fn characters_are_not_forwarded() {
    for msg in [WM_CHAR, WM_IME_CHAR, WM_IME_COMPOSITION] {
        let (steps, _) = trace(msg, 0x41, 0, true, 99);
        assert!(!steps.contains(&EditStep::Forward));
        assert!(steps.contains(&EditStep::CallOriginal));
    }
    for msg in [WM_IME_STARTCOMPOSITION, WM_IME_ENDCOMPOSITION, WM_IME_SETCONTEXT] {
        let (steps, _) = trace(msg, 0, 0, true, 99);
        let forward = steps.iter().position(|s| *s == EditStep::Forward).unwrap();
        let original = steps.iter().position(|s| *s == EditStep::CallOriginal).unwrap();
        assert!(forward < original);
    }
}

#[test]
fn input_that_cannot_be_painted_at_once_is_painted_by_the_system() {
    for msg in [WM_CHAR, WM_KEYUP, WM_SETTEXT, WM_SETFOCUS, WM_IME_COMPOSITION] {
        let (steps, _) = trace(msg, 0, 0, true, 99);
        assert_eq!(steps.last(), Some(&EditStep::Blit));
        let (steps, _) = trace(msg, 0, 0, false, 99);
        assert_eq!(steps[steps.len() - 2..], [EditStep::Blit, EditStep::Invalidate]);
    }
}

#[test]
fn an_answer_of_another_kind_changes_nothing() {
    let m = EditMessage::new(WM_PAINT, 0, 0);
    assert_eq!(m.step(Reply::Flag(true)), m);
    let m = EditMessage::new(WM_ERASEBKGND, 0, 0);
    assert_eq!(m.step(Reply::Done), m);
}

#[test]
fn no_message_takes_a_step_twice() {
    for msg in 0..0x400u32 {
        for wparam in 0..7usize {
            for flag in [true, false] {
                let (steps, _) = trace(msg, wparam, 8, flag, 1);
                let mut seen = Vec::new();
                for s in steps {
                    assert!(!seen.contains(&s));
                    seen.push(s);
                }
            }
        }
    }
}

#[test]
fn notifications_are_four() {
    let notifications: Vec<u32> = (0..0x1000).filter(|m| is_ime_notify_message(*m)).collect();
    assert_eq!(
        notifications,
        vec![WM_IME_STARTCOMPOSITION, WM_IME_ENDCOMPOSITION, WM_IME_SETCONTEXT, WM_IME_NOTIFY]
    );
    let traced: Vec<u32> = (0..0x1000).filter(|m| ime_message_name(*m).is_some()).collect();
    assert_eq!(traced.len(), 6);
    assert_eq!(ime_message_name(WM_IME_CHAR), Some("WM_IME_CHAR"));
    assert_eq!(ime_message_name(WM_IME_NOTIFY), Some("WM_IME_NOTIFY"));
    assert_eq!(ime_message_name(WM_IME_COMPOSITION), Some("WM_IME_COMPOSITION"));
    assert_eq!(ime_message_name(WM_IME_SETCONTEXT), Some("WM_IME_SETCONTEXT"));
    assert_eq!(ime_message_name(WM_IME_STARTCOMPOSITION), Some("WM_IME_STARTCOMPOSITION"));
    assert_eq!(ime_message_name(WM_IME_ENDCOMPOSITION), Some("WM_IME_ENDCOMPOSITION"));
    let refreshed: Vec<u32> = (0..0x1000).filter(|m| should_refresh_edit(*m)).collect();
    assert_eq!(refreshed, vec![WM_SETFOCUS, WM_SETTEXT, WM_KEYUP, WM_CHAR, WM_IME_COMPOSITION]);
}

#[test]
fn each_kind_of_message_is_reported_once_for_a_window() {
    let mut seen = DiagSeen::new();
    assert_eq!(diag_log_edit_msg(&mut seen, 1, WM_CHAR), Some("WM_CHAR"));
    assert_eq!(diag_log_edit_msg(&mut seen, 1, WM_CHAR), None);
    assert_eq!(diag_log_edit_msg(&mut seen, 2, WM_CHAR), Some("WM_CHAR"));
    assert_eq!(diag_log_edit_msg(&mut seen, 1, WM_KEYUP), Some("WM_KEYUP"));
    assert_eq!(diag_log_edit_msg(&mut seen, 1, WM_TIMER), None);
    assert_eq!(diag_log_ctlcolor(&mut seen, 1, WM_CTLCOLOREDIT), Some("WM_CTLCOLOREDIT"));
    assert_eq!(diag_log_ctlcolor(&mut seen, 1, WM_CTLCOLOREDIT), None);
    assert_eq!(diag_log_ctlcolor(&mut seen, 1, WM_CTLCOLORSTATIC), Some("WM_CTLCOLORSTATIC"));
    assert_eq!(diag_log_ctlcolor(&mut seen, 2, WM_CTLCOLORSTATIC), Some("WM_CTLCOLORSTATIC"));
    assert_eq!(diag_log_ctlcolor(&mut seen, 2, WM_CTLCOLORSTATIC), None);
}

#[test]
fn reported_messages_have_places_of_their_own() {
    let expected = [
        (WM_ERASEBKGND, "WM_ERASEBKGND"),
        (WM_PAINT, "WM_PAINT"),
        (WM_NCPAINT, "WM_NCPAINT"),
        (WM_CHAR, "WM_CHAR"),
        (WM_KEYUP, "WM_KEYUP"),
        (WM_SETTEXT, "WM_SETTEXT"),
        (WM_SETFOCUS, "WM_SETFOCUS"),
        (WM_KILLFOCUS, "WM_KILLFOCUS"),
        (WM_IME_COMPOSITION, "WM_IME_COMPOSITION"),
        (WM_IME_NOTIFY, "WM_IME_NOTIFY"),
        (WM_DESTROY, "WM_DESTROY"),
    ];
    for (i, (msg, name)) in expected.iter().enumerate() {
        assert_eq!(diag_msg_bit(*msg), Some((1u64 << i, *name)));
    }
    assert_eq!(diag_msg_bit(WM_TIMER), None);
}

#[test]
fn originals_are_kept_for_each_window() {
    let mut windows = Subclasses::new();
    assert_eq!(windows.original(5), 0);
    assert!(!is_subclassed_lunicode_edit(&windows, 5));
    windows.keep(5, -77);
    assert_eq!(windows.original(5), -77);
    assert_eq!(windows.original(6), 0);
    assert!(is_subclassed_lunicode_edit(&windows, 5));
}

#[test]
fn the_class_name_has_to_be_exact() {
    assert!(class_is_target(&wide("LUnicodeEdit")));
    assert!(!class_is_target(&wide("lunicodeedit")));
    assert!(!class_is_target(&wide("LUnicodeEdit2")));
    assert!(!class_is_target(&wide("LUnicodeEdi")));
    assert!(!class_is_target(&[]));
}

#[test]
fn the_children_of_the_game_window_are_gone_through() {
    let child = |hwnd, class: &str, proc| ChildWindow { hwnd, class: wide(class), proc };
    let mut windows = Subclasses::new();
    windows.keep(3, 30);
    let children = [
        child(1, "LUnicodeEdit", 10),
        child(2, "Button", 20),
        child(3, "LUnicodeEdit", 31),
        child(4, "LUnicodeEdit", 0),
        child(1, "LUnicodeEdit", 11),
        child(5, "LUnicodeEdit", 50),
    ];
    let (fresh, count) = subclass_all_existing(&mut windows, &children);
    assert_eq!(fresh, vec![1, 5]);
    assert_eq!(count, 3);
    assert_eq!(windows.original(1), 10);
    assert_eq!(windows.original(3), 30);
    assert_eq!(windows.original(4), 0);
    assert_eq!(windows.original(5), 50);
}

#[test]
fn a_window_procedure_is_replaced_once() {
    let mut windows = Subclasses::new();
    let m = subclass_window(&windows, 9);
    assert_eq!(m.phase, ReplacePhase::ReadProc);
    let failed = m.step(Reply::Number(0));
    assert_eq!((failed.phase, failed.replaced), (ReplacePhase::Finished, false));
    let m = m.step(Reply::Number(70));
    assert_eq!((m.phase, m.original), (ReplacePhase::SetProc, 70));
    let m = m.step(Reply::Done);
    assert_eq!(m.phase, ReplacePhase::Keep);
    windows.keep(9, m.original as i32);
    let m = m.step(Reply::Done);
    assert_eq!((m.phase, m.replaced), (ReplacePhase::Finished, true));
    let again = subclass_window(&windows, 9);
    assert_eq!((again.phase, again.replaced), (ReplacePhase::Finished, false));
    assert_eq!(subclass_game_window_pub(0).phase, ReplacePhase::ReadProc);
    assert_eq!(subclass_game_window_pub(70).phase, ReplacePhase::Finished);
}

#[test]
fn only_windows_that_are_created_or_focused_are_looked_at() {
    assert!(win_event_proc(EVENT_OBJECT_CREATE, 0, 9));
    assert!(win_event_proc(EVENT_OBJECT_FOCUS, 0, 9));
    assert!(!win_event_proc(EVENT_OBJECT_CREATE + 1, 0, 9));
    assert!(!win_event_proc(EVENT_OBJECT_CREATE, -4, 9));
    assert!(!win_event_proc(EVENT_OBJECT_CREATE, 0, 0));
    let watch = install_create_watcher(1234);
    assert_eq!((watch.first, watch.last, watch.process, watch.thread), (0x8000, 0x8005, 1234, 0));
}

#[test]
fn windows_of_the_input_method_are_searched_by_class() {
    for class in ["IME", "MSCTFIME UI", "Candidate_X", "BopoMofo", "NaturalInput", "ReadingWnd", "TSF"] {
        assert_eq!(enum_global_log_proc(7, 7, &wide(class)), Some(class.to_string()), "{class}");
    }
    assert_eq!(enum_global_log_proc(7, 7, &wide("Button")), None);
    assert_eq!(enum_global_log_proc(7, 8, &wide("IME")), None);
    assert_eq!(enum_global_log_proc(7, 7, &[]), None);
    assert_eq!(enum_thread_log_proc(&wide("Button")), "Button");
    assert_eq!(enum_thread_log_proc(&[]), "<?>");
}

#[test]
fn a_control_is_asked_to_print_itself() {
    let mut windows = Subclasses::new();
    assert_eq!(print_edit_client(&windows, 9, 4), None);
    windows.keep(9, 70);
    let request = print_edit_client(&windows, 9, 4).unwrap();
    assert_eq!(
        (request.proc, request.msg, request.hdc, request.flags),
        (70, WM_PRINTCLIENT, 4, EDIT_PRINT_FLAGS)
    );
}

#[test]
fn the_composited_style_is_set_once() {
    let styled = apply_double_buffer_post(0x100).unwrap();
    assert_eq!(styled, 0x0200_0100);
    assert_eq!(styled & WS_EX_COMPOSITED_STYLE, WS_EX_COMPOSITED_STYLE);
    assert_eq!(apply_double_buffer_post(styled), None);
}

#[test]
fn the_brush_is_made_once() {
    let mut slot = 0;
    assert_eq!(edit_bg_brush(&mut slot, 12), 12);
    assert_eq!(edit_bg_brush(&mut slot, 13), 12);
    assert_eq!(slot, 12);
}

#[test]
fn a_timer_is_asked_for_once() {
    let mut timers = Timers::new();
    assert!(ensure_repaint_timer(&timers, 9));
    timers.arm(9, 0);
    assert!(!ensure_repaint_timer(&timers, 9));
    assert!(ensure_repaint_timer(&timers, 10));
}

#[test]
fn timers_are_counted_for_each_window() {
    let mut counts = FireCounts::new();
    assert_eq!(counts.fire(1), 1);
    assert_eq!(counts.fire(1), 2);
    assert_eq!(counts.fire(2), 1);
    assert_eq!(counts.fire(1), 3);
    assert!(timer_fire_is_reported(3));
    assert!(!timer_fire_is_reported(4));
    assert!(timer_fire_is_reported(300));
    assert!(!timer_fire_is_reported(301));
}

#[test]
fn the_background_is_filled_where_there_is_one() {
    assert_eq!(erase_edit_background(0).phase, FillPhase::Finished);
    let m = erase_edit_background(4);
    assert_eq!(m.phase, FillPhase::ClientRect);
    assert_eq!(m.step(Reply::Area(None)).phase, FillPhase::Finished);
    let rc = Rect { left: 0, top: 0, right: 5, bottom: 6 };
    let m = m.step(Reply::Area(Some(rc)));
    assert_eq!((m.phase, m.area), (FillPhase::Fill, rc));
    assert_eq!(m.step(Reply::Done).phase, FillPhase::Finished);
}

#[test]
fn the_services_are_started_by_their_own_message() {
    assert_eq!(WM_TSF_INIT_ON_UI_THREAD, WM_APP + 1);
    let m = GameMessage::new(WM_TSF_INIT_ON_UI_THREAD, 0);
    assert_eq!(m.phase, GamePhase::InitServices);
    let m = m.step(Reply::Done);
    assert_eq!((m.phase, m.result), (GamePhase::Finished, 0));
}

#[test]
fn an_edit_control_gets_its_colours_from_the_game_window() {
    for msg in [WM_CTLCOLOREDIT, WM_CTLCOLORSTATIC] {
        let m = GameMessage::new(msg, 9);
        assert_eq!(m.phase, GamePhase::AskClass);
        let m = m.step(Reply::Flag(true));
        assert_eq!(m.phase, GamePhase::Report);
        let m = m.step(Reply::Done);
        assert_eq!(m.phase, GamePhase::SetBackground);
        let m = m.step(Reply::Done);
        assert_eq!(m.phase, GamePhase::SetText);
        let m = m.step(Reply::Done);
        assert_eq!(m.phase, GamePhase::Brush);
        let m = m.step(Reply::Number(12));
        assert_eq!((m.phase, m.result), (GamePhase::Finished, 12));
        assert_eq!(GameMessage::new(msg, 0).phase, GamePhase::LookUp);
    }
}

#[test]
fn other_messages_to_the_game_window_go_on() {
    let m = GameMessage::new(WM_CTLCOLOREDIT, 9).step(Reply::Flag(false));
    assert_eq!(m.phase, GamePhase::LookUp);
    let lost = m.step(Reply::Number(0));
    assert_eq!((lost.phase, lost.result), (GamePhase::Finished, 0));
    let m = m.step(Reply::Number(70));
    assert_eq!((m.phase, m.original), (GamePhase::CallOriginal, 70));
    let m = m.step(Reply::Number(-3));
    assert_eq!((m.phase, m.result), (GamePhase::Finished, -3));
    assert_eq!(GameMessage::new(WM_PAINT, 1).phase, GamePhase::LookUp);
}

#[test]
fn the_windows_of_the_input_method_are_placed_a_few_times() {
    assert_eq!(Rescue::new(9, 4).phase, RescuePhase::Finished);
    let m = Rescue::new(9, 3);
    assert_eq!(m.phase, RescuePhase::Context);
    assert_eq!(m.step(Reply::Handle(0)).phase, RescuePhase::Thread);
    assert_eq!(m.step(Reply::Handle(-1)).phase, RescuePhase::Thread);
    let m = m.step(Reply::Handle(6));
    assert_eq!((m.phase, m.himc), (RescuePhase::ClientRect, 6));
    assert_eq!(m.step(Reply::Area(None)).candidate_place(), Point { x: 0, y: 0 });
    let m = m.step(Reply::Area(Some(Rect { left: 0, top: 0, right: 90, bottom: 18 })));
    assert_eq!(m.composition_place(), Point { x: 0, y: 0 });
    assert_eq!(m.candidate_place(), Point { x: 0, y: 18 });
    let order = [
        RescuePhase::ToScreen,
        RescuePhase::PlaceComposition,
        RescuePhase::PlaceCandidates,
        RescuePhase::Release,
        RescuePhase::Thread,
        RescuePhase::ThreadWindows,
        RescuePhase::AllWindows,
    ];
    let mut m = m;
    for phase in order {
        assert_eq!(m.phase, phase);
        m = m.step(Reply::Done);
    }
    assert_eq!(m.phase, RescuePhase::Finished);
}
