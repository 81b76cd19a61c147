//! The candidate window: its height, its place, what it shows.

use ime_overlay::candidates::ImeState;
use ime_overlay::draw::{draw_into, DrawOp, Font, ACCENT_COLOR, BG_COLOR, BORDER_COLOR, COMP_COLOR,
    NUM_COLOR, SEL_BG, TEXT_COLOR};
use ime_overlay::geometry::{Point, Rect};
use ime_overlay::overlay::{
    can_place, compute_height, hide_overlay, is_visible, position_near, set_overlay_hwnd, show_for,
    update, Overlay, Placement, Presentation,
};
use ime_overlay::paint::{
    bitmap_header, capture_covers, copy_source, edges_fit, make_opaque, pixel_bytes, Backdrop,
    BackdropPhase,
};

fn state(composition: &str, selection: u32, items: &[&str]) -> ImeState {
    ImeState {
        composition: composition.to_string(),
        total: items.len() as u32,
        selection,
        page_start: 0,
        page_size: 9,
        items: items.iter().map(|s| s.to_string()).collect(),
        first: 0,
    }
}

#[test]
fn the_height_follows_the_content() {
    assert_eq!(compute_height(&state("", 0, &["a", "b", "c"])), 12 + 3 * 26);
    assert_eq!(compute_height(&state("x", 0, &["a", "b", "c"])), 12 + 24 + 3 * 26);
    assert_eq!(compute_height(&state("", 0, &[])), 38);
    assert_eq!(compute_height(&state("x", 0, &[])), 38);
    assert_eq!(compute_height(&state("", 0, &["a"])), 38);
    let many = ["a"; 12];
    let mut s = state("", 0, &many);
    s.page_size = 12;
    assert_eq!(compute_height(&s), 12 + 9 * 26);
}

#[test]
fn a_new_window_is_hidden_and_has_the_size_of_a_full_page() {
    let o = Overlay::new();
    assert_eq!(o.window, 0);
    assert!(o.current.is_none());
    assert_eq!(o.attached, 0);
    assert!(!is_visible(&o));
    assert_eq!(o.place, Placement { x: 0, y: 0, w: 220, h: 246 });
}

#[test]
fn showing_makes_visible_also_without_a_window() {
    let mut o = Overlay::new();
    assert_eq!(show_for(&mut o, 7, state("", 0, &["a"])), None);
    assert!(is_visible(&o));
    assert_eq!(o.attached, 7);
    assert_eq!(o.current.as_ref().unwrap().items, vec!["a"]);
    set_overlay_hwnd(&mut o, 5);
    assert_eq!(
        show_for(&mut o, 8, state("x", 0, &["a"])),
        Some(Presentation { window: 5, near: Some(8), height: 62, show: true })
    );
    assert_eq!(o.attached, 8);
}

#[test]
fn an_update_does_not_show_the_window() {
    let mut o = Overlay::new();
    assert_eq!(update(&mut o, state("", 0, &["a"])), None);
    assert!(!is_visible(&o));
    set_overlay_hwnd(&mut o, 5);
    assert_eq!(
        update(&mut o, state("", 0, &["a", "b"])),
        Some(Presentation { window: 5, near: None, height: 64, show: false })
    );
    assert!(!is_visible(&o));
    show_for(&mut o, 8, state("", 0, &["a"]));
    assert_eq!(
        update(&mut o, state("", 0, &["a", "b"])),
        Some(Presentation { window: 5, near: Some(8), height: 64, show: false })
    );
    assert!(is_visible(&o));
}

#[test]
fn hiding_keeps_the_content() {
    let mut o = Overlay::new();
    assert_eq!(hide_overlay(&mut o), None);
    set_overlay_hwnd(&mut o, 5);
    show_for(&mut o, 8, state("", 0, &["a"]));
    assert_eq!(hide_overlay(&mut o), Some(5));
    assert!(!is_visible(&o));
    assert_eq!(o.attached, 8);
    assert!(o.current.is_some());
}

fn place(input: Rect, screen_w: i32, screen_h: i32, height: i32) -> Placement {
    let mut o = Overlay::new();
    assert!(can_place(input, screen_w, screen_h, height));
    position_near(&mut o, Some(input), screen_w, screen_h, height);
    o.place
}

#[test]
fn the_window_stands_below_the_input_field() {
    let input = Rect { left: 100, top: 200, right: 300, bottom: 220 };
    assert_eq!(place(input, 1920, 1080, 100), Placement { x: 100, y: 224, w: 220, h: 100 });
}

#[test]
fn the_window_stands_above_where_there_is_no_room_below() {
    let input = Rect { left: 100, top: 1000, right: 300, bottom: 1020 };
    assert_eq!(place(input, 1920, 1080, 100), Placement { x: 100, y: 896, w: 220, h: 100 });
    let edge = Rect { left: 100, top: 956, right: 300, bottom: 976 };
    assert_eq!(place(edge, 1920, 1080, 100).y, 980);
}

#[test]
fn the_window_is_moved_onto_the_screen() {
    let input = Rect { left: 1900, top: 10, right: 1910, bottom: 30 };
    assert_eq!(place(input, 1920, 1080, 100).x, 1700);
    let left = Rect { left: -50, top: 10, right: 0, bottom: 30 };
    assert_eq!(place(left, 1920, 1080, 100).x, 0);
    let high = Rect { left: 0, top: 20, right: 10, bottom: 1070 };
    assert_eq!(place(high, 1920, 1080, 100).y, 0);
    assert_eq!(place(Rect { left: 50, top: 0, right: 60, bottom: 20 }, 100, 1080, 100).x, 0);
}

#[test]
fn a_field_without_a_place_leaves_the_window_where_it_is() {
    let mut o = Overlay::new();
    let before = o.place;
    position_near(&mut o, None, 1920, 1080, 100);
    assert_eq!(o.place, before);
}

#[test]
fn places_that_no_coordinate_can_hold_are_told() {
    let low = Rect { left: 0, top: 0, right: 0, bottom: i32::MAX };
    assert!(!can_place(low, 1920, 1080, 100));
    let high = Rect { left: 0, top: i32::MIN, right: 0, bottom: 2000 };
    assert!(!can_place(high, 1920, 1080, 100));
    assert!(!can_place(Rect { left: 0, top: 0, right: 0, bottom: 0 }, i32::MIN, 1080, 100));
    assert!(can_place(Rect { left: 0, top: i32::MIN, right: 0, bottom: 0 }, 1920, 1080, 100));
}

#[test]
fn a_drawing_has_background_border_composition_and_rows() {
    let ops = draw_into(&Some(state("zh", 1, &["a", "b"])), 220, 88);
    assert_eq!(ops.len(), 9);
    let full = Rect { left: 0, top: 0, right: 220, bottom: 88 };
    assert!(matches!(&ops[0], DrawOp::Fill { area, color } if *area == full && *color == BG_COLOR));
    assert!(matches!(&ops[1], DrawOp::Frame { area, color } if *area == full && *color == BORDER_COLOR));
    assert!(matches!(&ops[2], DrawOp::Text { font, area, color, text }
        if *font == Font::Composition
            && *area == Rect { left: 8, top: 6, right: 212, bottom: 28 }
            && *color == COMP_COLOR && text == "zh"));
    assert!(matches!(&ops[3], DrawOp::Text { font, area, color, text }
        if *font == Font::Candidate
            && *area == Rect { left: 11, top: 30, right: 33, bottom: 56 }
            && *color == NUM_COLOR && text == "1"));
    assert!(matches!(&ops[4], DrawOp::Text { area, color, text, .. }
        if *area == Rect { left: 33, top: 30, right: 212, bottom: 56 }
            && *color == TEXT_COLOR && text == "a"));
    assert!(matches!(&ops[5], DrawOp::Fill { area, color }
        if *area == Rect { left: 1, top: 56, right: 219, bottom: 82 } && *color == SEL_BG));
    assert!(matches!(&ops[6], DrawOp::Fill { area, color }
        if *area == Rect { left: 1, top: 60, right: 4, bottom: 78 } && *color == ACCENT_COLOR));
    assert!(matches!(&ops[7], DrawOp::Text { text, .. } if text == "2"));
    assert!(matches!(&ops[8], DrawOp::Text { text, .. } if text == "b"));
}

#[test]
fn nothing_but_the_ground_is_drawn_without_a_state() {
    assert_eq!(draw_into(&None, 220, 88).len(), 2);
    assert_eq!(draw_into(&Some(state("", 0, &[])), 220, 38).len(), 2);
}

#[test]
fn nine_candidates_are_drawn_with_their_digits() {
    let many = ["x"; 20];
    let mut s = state("", 100, &many);
    s.page_size = 20;
    let ops = draw_into(&Some(s), 220, 246);
    assert_eq!(ops.len(), 2 + 18);
    for i in 0..9 {
        let digit = format!("{}", i + 1);
        assert!(matches!(&ops[2 + 2 * i], DrawOp::Text { text, .. } if *text == digit));
    }
}

#[test]
fn everything_is_drawn_inside_the_window() {
    let s = state("comp", 2, &["a", "b", "c", "d"]);
    let h = compute_height(&s);
    for op in draw_into(&Some(s), 220, h) {
        let area = match op {
            DrawOp::Fill { area, .. } | DrawOp::Frame { area, .. } | DrawOp::Text { area, .. } => area,
        };
        assert!(0 <= area.left && area.left <= area.right && area.right <= 220);
        assert!(0 <= area.top && area.top <= area.bottom && area.bottom <= h);
    }
}

#[test]
fn fonts_have_their_sizes() {
    assert_eq!(Font::Candidate.size(), 16);
    assert_eq!(Font::Composition.size(), 14);
}

#[test]
fn every_pixel_becomes_opaque() {
    let mut bits: Vec<u8> = (0..10).collect();
    make_opaque(&mut bits);
    assert_eq!(bits, vec![0, 1, 2, 0xFF, 4, 5, 6, 0xFF, 8, 9]);
    let mut none: Vec<u8> = vec![];
    make_opaque(&mut none);
    assert!(none.is_empty());
}

#[test]
fn bitmaps_have_four_bytes_a_pixel_and_go_top_down() {
    assert_eq!(pixel_bytes(220, 246), Some(216480));
    assert_eq!(pixel_bytes(i32::MAX, 2), None);
    assert_eq!(pixel_bytes(i32::MAX, 1), None);
    assert_eq!(pixel_bytes(0, 5), Some(0));
    let header = bitmap_header(220, 246);
    assert_eq!((header.width, header.height, header.planes, header.bits), (220, -246, 1, 32));
}

#[test]
fn a_control_has_to_lie_within_the_captured_picture() {
    let p = |x, y| Point { x, y };
    assert!(capture_covers(p(0, 0), 1200, 900, 1200, 900));
    assert!(!capture_covers(p(1, 0), 1200, 900, 1200, 900));
    assert!(!capture_covers(p(0, 1), 1200, 900, 1200, 900));
    assert!(!capture_covers(p(-1, 0), 10, 10, 1200, 900));
    assert!(!capture_covers(p(0, -1), 10, 10, 1200, 900));
    assert!(edges_fit(p(0, 0), 10, 10, 1200));
    assert!(!edges_fit(p(1, 0), i32::MAX, 10, 1200));
    assert!(!edges_fit(p(0, 1), 10, i32::MAX, 1200));
    assert!(edges_fit(p(-1, 0), i32::MAX, 10, 1200));
    assert!(edges_fit(p(1191, i32::MAX), 10, 10, 1200));
}

#[test]
fn the_background_is_copied_from_a_picture_that_covers_the_control() {
    let mut b = Backdrop::new(1);
    assert_eq!(b.phase, BackdropPhase::Root);
    b.w = 100;
    b.h = 20;
    b.origin = Point { x: 10, y: 10 };
    assert_eq!(copy_source(&b, Some((77, 1200, 900))), Some(77));
    assert_eq!(copy_source(&b, Some((77, 109, 900))), None);
    assert_eq!(copy_source(&b, Some((77, 110, 30))), Some(77));
    assert_eq!(copy_source(&b, None), None);
    assert_eq!(Backdrop::new(0).phase, BackdropPhase::Finished);
}

#[test]
fn extents_are_told_as_far_as_they_fit() {
    let rc = Rect { left: i32::MIN, top: 3, right: i32::MAX, bottom: 10 };
    assert!(!rc.extents_fit());
    assert_eq!(rc.extents_clamped(), (i32::MAX, 7));
    let back = Rect { left: i32::MAX, top: 10, right: i32::MIN, bottom: 3 };
    assert_eq!(back.extents_clamped(), (i32::MIN, -7));
    let small = Rect { left: 1, top: 2, right: 11, bottom: 7 };
    assert!(small.extents_fit());
    assert_eq!((small.width(), small.height()), (10, 5));
}

#[test]
fn the_rows_fill_the_window() {
    for composition in ["", "zh"] {
        let s = state(composition, 1, &["a", "b", "c"]);
        let h = compute_height(&s);
        let mut rows = Vec::new();
        for op in draw_into(&Some(s), 220, h) {
            if let DrawOp::Text { area, color, .. } = op {
                if color == TEXT_COLOR {
                    rows.push(area);
                }
            }
        }
        assert_eq!(rows.len(), 3);
        assert_eq!(rows[0].top, if composition.is_empty() { 6 } else { 30 });
        assert_eq!(rows[0].bottom, rows[1].top);
        assert_eq!(rows[1].bottom, rows[2].top);
        assert_eq!(rows[2].bottom, h - 6);
    }
}
