//! The fixed choices of the hooks and of the window procedures.

use ime_overlay::create_hook::{
    patched_lunicodeedit_class_style, patched_lunicodeedit_ex_style, CS_CLASSDC, CS_OWNDC,
};
use ime_overlay::subclass::{
    needs_post_create_composited, EDIT_PRINT_FLAGS, PRF_CLIENT, PRF_ERASEBKGND,
    USE_DDRAW_ERASE_BACKGROUND, USE_DDRAW_EVENT_REPAINT, USE_DDRAW_PAINT_OVERRIDE,
    USE_DDRAW_REPAINT_TIMER, WS_EX_COMPOSITED_STYLE,
};

#[test]
fn ddraw_mode_keeps_window_ex_style_unchanged() {
    let original = 0x0000_0100;

    let patched = patched_lunicodeedit_ex_style(original);

    assert_eq!(patched, original);
}

#[test]
fn ddraw_mode_keeps_class_dc_styles_unchanged() {
    let original = CS_OWNDC | CS_CLASSDC | 0x0008;

    let patched = patched_lunicodeedit_class_style(original);

    assert_eq!(patched, original);
}

#[test]
fn edit_print_flags_keep_ddraw_background() {
    assert_ne!(EDIT_PRINT_FLAGS & PRF_CLIENT, 0);
    assert_eq!(EDIT_PRINT_FLAGS & PRF_ERASEBKGND, 0);
}

#[test]
fn ddraw_mode_uses_paint_and_erase_without_timer() {
    assert!(!USE_DDRAW_REPAINT_TIMER);
    assert!(USE_DDRAW_PAINT_OVERRIDE);
    assert!(USE_DDRAW_ERASE_BACKGROUND);
}

#[test]
fn ddraw_mode_repaints_input_events_immediately() {
    assert!(USE_DDRAW_EVENT_REPAINT);
}

#[test]
fn ddraw_mode_never_applies_post_create_composited() {
    assert!(!needs_post_create_composited(0));
    assert!(!needs_post_create_composited(WS_EX_COMPOSITED_STYLE));
}
