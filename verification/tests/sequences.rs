//! Painting, reading, the text services, and the start of the library.

use ime_overlay::calls::Reply;
use ime_overlay::dbg::log;
use ime_overlay::fetch::Fetch;
use ime_overlay::geometry::{Point, Rect};
use ime_overlay::messages::{DLL_PROCESS_ATTACH, WM_PAINT};
use ime_overlay::overlay::Placement;
use ime_overlay::paint::{
    Backdrop, BackdropPhase, BlitPhase, BufferedPaint, BufferedPhase, EditPaint, EditPhase,
    LayeredPaint, LayeredPhase, PaintSession, SessionPhase, WindowBlit,
};
use ime_overlay::startup::{keeps_waiting, starts, worker, StartPhase};
use ime_overlay::tsf_sink::{
    given_pages, handle_event, init, last_focus_edit, set_last_focus_edit, EventKind, InitError,
    InitPhase, LastFocus, SinkAction, UiList, CHANGED_MODE,
};
use ime_overlay::window::{
    create_overlay, overlay_wndproc, paint_is_reported, wait_for_game_window, CreateError, CreatePhase,
    WindowWait, FIRST_H, FIRST_W,
};

fn area(right: i32, bottom: i32) -> Reply {
    Reply::Area(Some(Rect { left: 0, top: 0, right, bottom }))
}

#[test]
fn the_context_of_the_window_comes_first() {
    let m = Fetch::OwnContext { hwnd: 1 };
    assert_eq!(m.step(Reply::Handle(50)), Fetch::CompositionSize { himc: 50, owner: 1 });
    let m = m.step(Reply::Handle(0));
    assert_eq!(m, Fetch::Parent { hwnd: 1 });
    assert_eq!(m.step(Reply::Handle(0)), Fetch::Root { hwnd: 1 });
    let m = m.step(Reply::Handle(2));
    assert_eq!(m, Fetch::ParentContext { hwnd: 1, parent: 2 });
    assert_eq!(m.step(Reply::Handle(51)), Fetch::CompositionSize { himc: 51, owner: 2 });
    let m = m.step(Reply::Handle(0));
    assert_eq!(m, Fetch::Root { hwnd: 1 });
    assert_eq!(m.step(Reply::Handle(0)), Fetch::Finished { resolved: false });
    let m = m.step(Reply::Handle(3));
    assert_eq!(m, Fetch::RootContext { root: 3 });
    assert_eq!(m.step(Reply::Handle(52)), Fetch::CompositionSize { himc: 52, owner: 3 });
    assert_eq!(m.step(Reply::Handle(0)), Fetch::Finished { resolved: false });
}

#[test]
fn the_context_is_given_back_whatever_was_read() {
    let m = Fetch::CompositionSize { himc: 50, owner: 2 };
    assert_eq!(m.step(Reply::Number(0)), Fetch::ListSize { himc: 50, owner: 2 });
    assert_eq!(m.step(Reply::Number(4097)), Fetch::ListSize { himc: 50, owner: 2 });
    let m = m.step(Reply::Number(4096));
    assert_eq!(m, Fetch::CompositionFill { himc: 50, owner: 2, bytes: 4096 });
    let m = m.step(Reply::Done);
    assert_eq!(m.step(Reply::Number(0)), Fetch::Release { himc: 50, owner: 2 });
    assert_eq!(m.step(Reply::Number(32769)), Fetch::Release { himc: 50, owner: 2 });
    let m = m.step(Reply::Number(32768));
    assert_eq!(m, Fetch::ListFill { himc: 50, owner: 2, bytes: 32768 });
    let m = m.step(Reply::Done);
    assert_eq!(m, Fetch::Release { himc: 50, owner: 2 });
    assert_eq!(m.step(Reply::Done), Fetch::Finished { resolved: true });
}

#[test]
fn the_candidate_window_is_painted_through_a_bitmap() {
    let place = Placement { x: 1, y: 2, w: 220, h: 100 };
    let mut m = LayeredPaint::new(place);
    let replies = [
        (LayeredPhase::TakeScreen, Reply::Handle(1)),
        (LayeredPhase::CreateBitmap, Reply::Handle(2)),
        (LayeredPhase::CreateDc, Reply::Handle(3)),
        (LayeredPhase::Select, Reply::Handle(4)),
        (LayeredPhase::Draw, Reply::Done),
        (LayeredPhase::MakeOpaque, Reply::Done),
        (LayeredPhase::Commit, Reply::Done),
        (LayeredPhase::Unselect, Reply::Done),
        (LayeredPhase::DeleteBitmap, Reply::Done),
        (LayeredPhase::DeleteDc, Reply::Done),
        (LayeredPhase::GiveScreen, Reply::Done),
    ];
    for (phase, reply) in replies {
        assert_eq!(m.phase, phase);
        m = m.step(reply);
    }
    assert_eq!(m.phase, LayeredPhase::Finished);
    assert_eq!((m.screen, m.bitmap, m.dc, m.previous), (1, 2, 3, 4));
    assert_eq!(m.place, place);
}

#[test]
fn a_painting_that_breaks_off_gives_back_what_it_has() {
    let place = Placement { x: 0, y: 0, w: 220, h: 100 };
    let m = LayeredPaint::new(place);
    assert_eq!(m.step(Reply::Handle(0)).phase, LayeredPhase::Finished);
    let m = m.step(Reply::Handle(1)).step(Reply::Handle(0));
    assert_eq!((m.phase, m.screen), (LayeredPhase::GiveScreen, 1));
    assert_eq!(LayeredPaint::new(Placement { w: 0, ..place }).phase, LayeredPhase::Finished);
    assert_eq!(LayeredPaint::new(Placement { h: -1, ..place }).phase, LayeredPhase::Finished);
}

#[test]
fn an_edit_control_is_painted_over_its_background() {
    let mut m = EditPaint::new();
    let replies = [
        (EditPhase::ClientRect, area(30, 18)),
        (EditPhase::CreateDc, Reply::Handle(3)),
        (EditPhase::CreateBitmap, Reply::Handle(4)),
        (EditPhase::Select, Reply::Handle(5)),
        (EditPhase::Backdrop, Reply::Flag(true)),
        (EditPhase::Print, Reply::Done),
        (EditPhase::Blit, Reply::Done),
        (EditPhase::Unselect, Reply::Done),
        (EditPhase::DeleteBitmap, Reply::Done),
        (EditPhase::DeleteDc, Reply::Done),
    ];
    for (phase, reply) in replies {
        assert_eq!(m.phase, phase);
        m = m.step(reply);
    }
    assert_eq!(m.phase, EditPhase::Finished);
    assert!(m.painted);
    assert_eq!((m.w, m.h), (30, 18));
}

#[test]
fn an_edit_control_without_background_is_left_as_it_is() {
    let m = EditPaint::new();
    assert_eq!(m.step(Reply::Area(None)).phase, EditPhase::Finished);
    assert_eq!(m.step(area(0, 18)).phase, EditPhase::Finished);
    assert_eq!(m.step(area(30, 0)).phase, EditPhase::Finished);
    let m = m.step(area(30, 18));
    assert_eq!(m.step(Reply::Handle(0)).phase, EditPhase::Finished);
    let m = m.step(Reply::Handle(3));
    assert_eq!(m.step(Reply::Handle(0)).phase, EditPhase::DeleteDc);
    let m = m.step(Reply::Handle(4)).step(Reply::Handle(5)).step(Reply::Flag(false));
    assert_eq!((m.phase, m.painted), (EditPhase::Unselect, false));
}

#[test]
fn the_background_is_found_in_the_root_window() {
    let m = Backdrop::new(1);
    assert_eq!(m.step(Reply::Handle(0)).phase, BackdropPhase::Finished);
    let m = m.step(Reply::Handle(8));
    assert_eq!((m.phase, m.root), (BackdropPhase::WindowRect, 8));
    assert_eq!(m.step(Reply::Area(None)).phase, BackdropPhase::Finished);
    assert_eq!(m.step(area(0, 5)).phase, BackdropPhase::Finished);
    let m = m.step(Reply::Area(Some(Rect { left: 100, top: 50, right: 130, bottom: 68 })));
    assert_eq!((m.phase, m.w, m.h), (BackdropPhase::Origin, 30, 18));
    assert_eq!(m.origin, Point { x: 100, y: 50 });
    assert_eq!(m.step(Reply::Place(None)).phase, BackdropPhase::Finished);
    let m = m.step(Reply::Place(Some(Point { x: 10, y: 20 })));
    assert_eq!((m.phase, m.origin), (BackdropPhase::Copy, Point { x: 10, y: 20 }));
    assert!(m.step(Reply::Flag(true)).copied);
    assert!(!m.step(Reply::Flag(false)).copied);
}

#[test]
fn a_painting_that_was_begun_is_ended() {
    let m = PaintSession::new();
    let null = m.step(Reply::Handle(0));
    assert_eq!(null.phase, SessionPhase::End);
    assert_eq!(null.step(Reply::Done).phase, SessionPhase::Finished);
    let m = m.step(Reply::Handle(4));
    assert_eq!((m.phase, m.hdc), (SessionPhase::Paint, 4));
    assert_eq!(m.step(Reply::Done).phase, SessionPhase::End);
}

#[test]
fn a_context_taken_for_a_blit_is_given_back() {
    let m = WindowBlit::new();
    let null = m.step(Reply::Handle(0));
    assert_eq!((null.phase, null.painted), (BlitPhase::Finished, false));
    let m = m.step(Reply::Handle(4));
    assert_eq!(m.phase, BlitPhase::Paint);
    for painted in [true, false] {
        let m = m.step(Reply::Flag(painted));
        assert_eq!((m.phase, m.hdc, m.painted), (BlitPhase::GiveDc, 4, painted));
        assert_eq!(m.step(Reply::Done).phase, BlitPhase::Finished);
    }
}

#[test]
fn the_brush_of_the_parent_is_asked_for_first() {
    let m = BufferedPaint::new();
    assert_eq!(m.step(Reply::Handle(0)).phase, BufferedPhase::Finished);
    let m = m.step(Reply::Handle(1));
    assert_eq!(m.step(Reply::Area(None)).phase, BufferedPhase::End);
    assert_eq!(m.step(area(0, 0)).phase, BufferedPhase::End);
    let m = m.step(area(30, 18));
    assert_eq!(m.step(Reply::Handle(0)).phase, BufferedPhase::End);
    let m = m.step(Reply::Handle(2));
    assert_eq!(m.step(Reply::Handle(0)).phase, BufferedPhase::DeleteDc);
    let m = m.step(Reply::Handle(3)).step(Reply::Handle(4));
    assert_eq!(m.phase, BufferedPhase::Parent);
    assert_eq!(m.step(Reply::Handle(0)).phase, BufferedPhase::SystemBrush);
    let m = m.step(Reply::Handle(5));
    assert_eq!(m.phase, BufferedPhase::AskBrush);
    let given = m.step(Reply::Handle(6));
    assert_eq!((given.phase, given.brush), (BufferedPhase::Fill, 6));
    let m = m.step(Reply::Handle(0));
    assert_eq!(m.phase, BufferedPhase::SystemBrush);
    assert_eq!(m.step(Reply::Handle(0)).phase, BufferedPhase::Print);
    let mut m = m.step(Reply::Handle(7));
    assert_eq!(m.brush, 7);
    let order = [
        BufferedPhase::Fill,
        BufferedPhase::Print,
        BufferedPhase::Blit,
        BufferedPhase::Unselect,
        BufferedPhase::DeleteBitmap,
        BufferedPhase::DeleteDc,
        BufferedPhase::End,
    ];
    for phase in order {
        assert_eq!(m.phase, phase);
        m = m.step(Reply::Done);
    }
    assert_eq!(m.phase, BufferedPhase::Finished);
}

fn ui_list(count: u32, selection: u32, current_page: u32, pages: &[u32]) -> UiList {
    UiList { count, selection, current_page, pages: pages.to_vec() }
}

#[test]
fn a_page_reaches_to_the_next_one() {
    assert_eq!(ui_list(20, 0, 0, &[0, 9, 18]).page(), (0, 9));
    assert_eq!(ui_list(20, 0, 1, &[0, 9, 18]).page(), (9, 9));
    assert_eq!(ui_list(20, 0, 2, &[0, 9, 18]).page(), (18, 2));
    assert_eq!(ui_list(20, 0, 3, &[0, 9, 18]).page(), (0, 9));
    assert_eq!(ui_list(4, 0, 0, &[]).page(), (0, 4));
    assert_eq!(ui_list(20, 0, 0, &[5, 3]).page(), (5, 0));
    assert_eq!(ui_list(20, 0, u32::MAX, &[0]).page(), (0, 9));
    assert_eq!(ui_list(u32::MAX, 0, 0, &[u32::MAX - 2]).page(), (u32::MAX - 2, 2));
}

#[test]
fn the_candidates_of_the_page_are_read() {
    assert_eq!(ui_list(20, 0, 2, &[0, 9, 18]).page_indices(), vec![18, 19]);
    assert_eq!(ui_list(20, 0, 0, &[3, 5]).page_indices(), vec![3, 4]);
    assert_eq!(ui_list(20, 0, 0, &[5, 3]).page_indices(), Vec::<u32>::new());
    assert_eq!(
        ui_list(u32::MAX, 0, 0, &[u32::MAX - 2]).page_indices(),
        vec![u32::MAX - 2, u32::MAX - 1]
    );
    assert_eq!(ui_list(100, 0, 0, &[0]).page_indices().len(), 9);
}

#[test]
fn pages_that_were_not_given_are_cut_off() {
    assert_eq!(given_pages(vec![0, 9, 0, 0], 2), vec![0, 9]);
    assert_eq!(given_pages(vec![0, 9], 2), vec![0, 9]);
    assert_eq!(given_pages(vec![0, 9], 5), vec![0, 9]);
    assert_eq!(given_pages(vec![0, 9], 0), Vec::<u32>::new());
}

#[test]
fn an_element_that_begins_is_shown_at_the_focus() {
    let items = vec!["a".to_string(), "b".to_string()];
    match handle_event(EventKind::Begin, Some((ui_list(2, 1, 0, &[0]), items)), 9) {
        SinkAction::Show { input, state } => {
            assert_eq!(input, 9);
            assert_eq!(state.composition, "");
            assert_eq!((state.total, state.selection), (2, 1));
            assert_eq!((state.page_start, state.page_size), (0, 2));
            assert_eq!(state.items, vec!["a", "b"]);
            assert_eq!(state.page_items(), ["a", "b"]);
            assert!(state.page_end_fits());
            assert_eq!(state.page_selection(), Some(1));
        }
        _ => panic!("nothing is shown"),
    }
}

#[test]
fn an_element_that_is_updated_updates_the_window() {
    let items = vec!["x".to_string()];
    match handle_event(EventKind::Update, Some((ui_list(10, 9, 1, &[0, 9]), items)), 9) {
        SinkAction::Update { state } => {
            assert_eq!((state.total, state.selection), (10, 9));
            assert_eq!((state.page_start, state.page_size), (9, 1));
            assert_eq!((state.items.len(), state.first), (1, 9));
            assert_eq!(state.page_items(), ["x"]);
            assert_eq!(state.page_selection(), Some(0));
        }
        _ => panic!("nothing is updated"),
    }
}

/// The strings of the candidates that are read for a list.
fn read(list: &UiList) -> Vec<String> {
    list.page_indices().iter().map(|i| format!("s_{i}")).collect()
}

#[test]
fn the_second_page_is_shown_too() {
    let list = ui_list(12, 10, 1, &[0, 9]);
    let items = read(&list);
    match handle_event(EventKind::Begin, Some((list, items)), 7) {
        SinkAction::Show { input, state } => {
            assert_eq!((input, state.total, state.selection), (7, 12, 10));
            assert_eq!((state.page_start, state.page_size, state.first), (9, 3, 9));
            assert_eq!(state.page_items(), ["s_9", "s_10", "s_11"]);
            assert_eq!(state.page_selection(), Some(1));
            assert!(state.page_end_fits());
        }
        _ => panic!("nothing is shown"),
    }
}

#[test]
fn every_page_is_shown_with_its_candidates() {
    for page in 0..3u32 {
        let list = ui_list(20, 12, page, &[0, 9, 18]);
        let items = read(&list);
        match handle_event(EventKind::Update, Some((list, items)), 7) {
            SinkAction::Update { state } => {
                let end = if page == 2 { 20 } else { page * 9 + 9 };
                let expected: Vec<String> = (page * 9..end).map(|i| format!("s_{i}")).collect();
                assert_eq!((state.total, state.selection), (20, 12));
                assert_eq!(state.page_start, page * 9);
                assert_eq!(state.page_items(), &expected[..]);
                assert_eq!(state.page_selection(), if page == 1 { Some(3) } else { None });
            }
            _ => panic!("nothing is updated"),
        }
    }
}

#[test]
fn an_element_that_ends_hides_the_window() {
    assert!(matches!(handle_event(EventKind::End, None, 0), SinkAction::HideWindow));
    let list = Some((ui_list(2, 0, 0, &[0]), vec![]));
    assert!(matches!(handle_event(EventKind::End, list, 9), SinkAction::HideWindow));
}

#[test]
fn an_element_without_candidates_or_focus_is_passed_over() {
    assert!(matches!(handle_event(EventKind::Begin, None, 9), SinkAction::Nothing));
    let empty = Some((ui_list(0, 0, 0, &[0]), vec![]));
    assert!(matches!(handle_event(EventKind::Begin, empty, 9), SinkAction::Nothing));
    let list = Some((ui_list(1, 0, 0, &[0]), vec!["a".to_string()]));
    assert!(matches!(handle_event(EventKind::Update, list, 0), SinkAction::Nothing));
}

#[test]
fn the_last_focus_is_remembered() {
    let mut focus = LastFocus::new();
    assert_eq!(last_focus_edit(&focus), 0);
    set_last_focus_edit(&mut focus, 9);
    set_last_focus_edit(&mut focus, 10);
    assert_eq!(last_focus_edit(&focus), 10);
}

#[test]
fn the_services_are_started_step_by_step() {
    assert_eq!(CHANGED_MODE, 0x8001_0106u32 as i32 as i64);
    let m = init();
    let failed = m.step(Reply::Number(-1));
    assert_eq!((failed.phase, failed.result), (InitPhase::Finished, Err(InitError::Apartment)));
    assert_eq!(m.step(Reply::Number(0)).phase, InitPhase::Create);
    assert_eq!(m.step(Reply::Number(1)).phase, InitPhase::Create);
    let mut m = m.step(Reply::Number(CHANGED_MODE));
    let steps = [
        (InitPhase::Create, InitError::Create),
        (InitPhase::Activate, InitError::Activate),
        (InitPhase::AskSource, InitError::AskSource),
        (InitPhase::AskElements, InitError::AskElements),
        (InitPhase::Advise, InitError::Advise),
    ];
    for (phase, error) in steps {
        assert_eq!(m.phase, phase);
        assert_eq!(m.step(Reply::Flag(false)).result, Err(error));
        m = m.step(Reply::Flag(true));
    }
    assert_eq!(m.phase, InitPhase::KeepElements);
    let m = m.step(Reply::Done);
    assert_eq!(m.phase, InitPhase::KeepThread);
    let m = m.step(Reply::Done);
    assert_eq!((m.phase, m.result), (InitPhase::Finished, Ok(())));
}

#[test]
fn the_library_starts_when_it_is_loaded() {
    assert!(starts(DLL_PROCESS_ATTACH));
    assert!(!starts(0));
    assert!(!starts(2));
    assert!(keeps_waiting(1));
    assert!(!keeps_waiting(0));
    assert!(!keeps_waiting(-1));
}

#[test]
fn the_start_needs_hooks_and_a_game_window() {
    let m = worker();
    let failed = m.step(Reply::Flag(false));
    assert_eq!((failed.phase, failed.started), (StartPhase::Finished, false));
    let m = m.step(Reply::Flag(true));
    let lost = m.step(Reply::Handle(0));
    assert_eq!((lost.phase, lost.started), (StartPhase::Finished, false));
    let m = m.step(Reply::Handle(5));
    assert_eq!((m.phase, m.game), (StartPhase::Settle, 5));
    let m = m.step(Reply::Done);
    assert_eq!(m.phase, StartPhase::Watch);
    let m = m.step(Reply::Done);
    assert_eq!(m.phase, StartPhase::CreateWindow);
    assert_eq!(m.step(Reply::Handle(0)).phase, StartPhase::SubclassGame);
    let m = m.step(Reply::Handle(6));
    assert_eq!((m.phase, m.window), (StartPhase::KeepWindow, 6));
    let mut m = m.step(Reply::Done);
    for phase in [StartPhase::SubclassGame, StartPhase::PostInit, StartPhase::HookSurface] {
        assert_eq!(m.phase, phase);
        m = m.step(Reply::Done);
    }
    assert_eq!((m.phase, m.started), (StartPhase::Finished, true));
}

#[test]
fn the_game_window_is_waited_for() {
    let m = wait_for_game_window(1000);
    assert_eq!(m, WindowWait::FindByClass { timeout: 1000 });
    assert_eq!(m.step(Reply::Handle(5)), WindowWait::Finished { window: 5 });
    let title = m.step(Reply::Handle(0));
    assert_eq!(title, WindowWait::FindByTitle { timeout: 1000 });
    assert_eq!(title.step(Reply::Handle(6)), WindowWait::Finished { window: 6 });
    let time = title.step(Reply::Handle(0));
    assert_eq!(time, WindowWait::Elapsed { timeout: 1000 });
    assert_eq!(time.step(Reply::Number(1000)), WindowWait::Finished { window: 0 });
    let sleep = time.step(Reply::Number(999));
    assert_eq!(sleep, WindowWait::Sleep { timeout: 1000 });
    assert_eq!(sleep.step(Reply::Done), m);
}

#[test]
fn the_candidate_window_is_created_step_by_step() {
    let m = create_overlay();
    assert_eq!(m.phase, CreatePhase::Module);
    assert_eq!(m.step(Reply::Flag(false)).result, Err(CreateError::NoModule));
    let m = m.step(Reply::Flag(true));
    assert_eq!(m.step(Reply::Flag(false)).result, Err(CreateError::NoCursor));
    let m = m.step(Reply::Flag(true));
    assert_eq!(m.phase, CreatePhase::Register);
    let m = m.step(Reply::Done);
    assert_eq!(m.step(Reply::Handle(0)).result, Err(CreateError::NoWindow));
    let m = m.step(Reply::Handle(7));
    assert_eq!(m.phase, CreatePhase::Corner);
    let m = m.step(Reply::Done);
    assert_eq!((m.phase, m.window, m.result), (CreatePhase::Finished, 7, Ok(())));
    assert_eq!((FIRST_W, FIRST_H), (220, 246));
    assert_eq!(CreateError::NoModule.name(), "GetModuleHandle");
    assert_eq!(CreateError::NoCursor.name(), "LoadCursor");
    assert_eq!(CreateError::NoWindow.name(), "CreateWindowEx");
}

#[test]
fn the_candidate_window_does_not_paint_on_demand() {
    assert!(overlay_wndproc(WM_PAINT));
    assert!(!overlay_wndproc(WM_PAINT + 1));
    assert!(paint_is_reported(5));
    assert!(!paint_is_reported(6));
}

#[test]
fn a_line_of_the_log_has_its_time() {
    assert_eq!(log(Some(1_700_000_000), "[ime] x"), "[1700000000] [ime] x\n");
    assert_eq!(log(None, ""), "[0] \n");
    assert_eq!(log(Some(0), "a"), "[0] a\n");
    assert_eq!(log(Some(10), "a"), "[10] a\n");
    assert_eq!(log(Some(u64::MAX), "\u{4E2D}"), format!("[{}] \u{4E2D}\n", u64::MAX));
}
