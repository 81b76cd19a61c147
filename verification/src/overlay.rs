//! The candidate window: what it shows, whether it is visible, and where it stands.

use crate::candidates::ImeState;
use crate::geometry::Rect;
use vstd::prelude::*;

verus! {

/// Margin at the left and right.
pub const PADDING_X: i32 = 8;

/// Margin at the top and bottom.
pub const PADDING_Y: i32 = 6;

/// Height of the composition line.
pub const COMP_H: i32 = 22;

/// Space below the composition line.
pub const COMP_GAP: i32 = 2;

/// Height of a candidate row.
pub const ITEM_H: i32 = 26;

/// Width of the number in front of a candidate.
pub const NUM_W: i32 = 22;

/// Width of the accent bar of the selected row.
pub const ACCENT_W: i32 = 3;

/// Width of the window.
pub const WIN_W: i32 = 220;

/// Space between the window and the input field.
pub const GAP: i32 = 4;

/// At most so many candidates are shown, one for each digit key.
pub const MAX_PAGE_SIZE: usize = 9;

/// Where a window stands and how large it is.
#[derive(Clone, Copy, Debug, PartialEq, Eq, Structural)]
pub struct Placement {
    pub x: i32,
    pub y: i32,
    pub w: i32,
    pub h: i32,
}

/// The state of the candidate window.
pub struct Overlay {
    /// The handle of the window; zero as long as there is none.
    pub window: isize,
    /// What is shown.
    pub current: Option<ImeState>,
    /// The input field that the window belongs to; zero where it belongs to none.
    pub attached: isize,
    /// Whether the window is shown.
    pub visible: bool,
    /// Where the window stands.
    pub place: Placement,
}

/// What has to be done to the window after a change, in this order: to place it near an input
/// field, to show it, and to paint it.
#[derive(Clone, Copy, Debug, PartialEq, Eq, Structural)]
pub struct Presentation {
    /// The window.
    pub window: isize,
    /// The input field to place it at; `None` leaves it where it is.
    pub near: Option<isize>,
    /// The height that the content takes.
    pub height: i32,
    /// Whether the window is to be shown.
    pub show: bool,
}

/// The size that the window is created with.
pub open spec fn initial_place() -> Placement {
    Placement { x: 0, y: 0, w: WIN_W, h: (ITEM_H * 9 + PADDING_Y * 2) as i32 }
}

impl Overlay {
    /// The state before there is a window.
    pub fn new() -> (r: Self)
        ensures
            r.window == 0,
            r.current is None,
            r.attached == 0,
            !r.visible,
            r.place == initial_place(),
    {
        Overlay {
            window: 0,
            current: None,
            attached: 0,
            visible: false,
            place: Placement { x: 0, y: 0, w: WIN_W, h: ITEM_H * 9 + PADDING_Y * 2 },
        }
    }
}

/// How many candidates of a state are shown.
pub open spec fn shown(state: ImeState) -> int {
    if state.page().len() < MAX_PAGE_SIZE {
        state.page().len() as int
    } else {
        MAX_PAGE_SIZE as int
    }
}

/// Where the rows of the candidates begin.
pub open spec fn rows_top(state: ImeState) -> int {
    if state.composition@.len() == 0 {
        PADDING_Y as int
    } else {
        PADDING_Y + COMP_H + COMP_GAP
    }
}

/// The height that a state takes; there is always room for one row.
pub open spec fn height_of(state: ImeState) -> int {
    let h = rows_top(state) + ITEM_H * shown(state) + PADDING_Y;
    if h < PADDING_Y * 2 + ITEM_H {
        PADDING_Y * 2 + ITEM_H
    } else {
        h
    }
}

/// The height that a state takes.
pub fn compute_height(state: &ImeState) -> (r: i32)
    ensures
        r == height_of(*state),
{
    let mut h: i32 = PADDING_Y * 2;
    if !state.composition.as_str().is_empty() {
        h = h + COMP_H + COMP_GAP;
    }
    let len: usize = state.page_items().len();
    let n: usize = if len < MAX_PAGE_SIZE { len } else { MAX_PAGE_SIZE };
    h = h + n as i32 * ITEM_H;
    let least: i32 = PADDING_Y * 2 + ITEM_H;
    if h < least {
        least
    } else {
        h
    }
}

/// Makes the window known.
pub fn set_overlay_hwnd(overlay: &mut Overlay, window: isize)
    ensures
        final(overlay).window == window,
        final(overlay).current == old(overlay).current,
        final(overlay).attached == old(overlay).attached,
        final(overlay).visible == old(overlay).visible,
        final(overlay).place == old(overlay).place,
{
    overlay.window = window;
}

/// Whether the window is shown.
pub fn is_visible(overlay: &Overlay) -> (r: bool)
    ensures
        r == overlay.visible,
{
    overlay.visible
}

/// Candidates have been opened for an input field: they are shown at that field. There is nothing
/// to be done as long as there is no window.
pub fn show_for(overlay: &mut Overlay, input: isize, state: ImeState) -> (r: Option<Presentation>)
    ensures
        final(overlay).window == old(overlay).window,
        final(overlay).current == Some(state),
        final(overlay).attached == input,
        final(overlay).visible,
        final(overlay).place == old(overlay).place,
        r == if old(overlay).window == 0 {
            None
        } else {
            Some(
                Presentation {
                    window: old(overlay).window,
                    near: Some(input),
                    height: height_of(state) as i32,
                    show: true,
                },
            )
        },
{
    let height: i32 = compute_height(&state);
    overlay.attached = input;
    overlay.current = Some(state);
    overlay.visible = true;
    if overlay.window == 0 {
        return None;
    }
    Some(Presentation { window: overlay.window, near: Some(input), height, show: true })
}

/// The candidates or the composition string have changed. There is nothing to be done as long as
/// there is no window.
pub fn update(overlay: &mut Overlay, state: ImeState) -> (r: Option<Presentation>)
    ensures
        final(overlay).window == old(overlay).window,
        final(overlay).current == Some(state),
        final(overlay).attached == old(overlay).attached,
        final(overlay).visible == old(overlay).visible,
        final(overlay).place == old(overlay).place,
        r == if old(overlay).window == 0 {
            None
        } else {
            Some(
                Presentation {
                    window: old(overlay).window,
                    near: if old(overlay).attached == 0 {
                        None
                    } else {
                        Some(old(overlay).attached)
                    },
                    height: height_of(state) as i32,
                    show: false,
                },
            )
        },
{
    let height: i32 = compute_height(&state);
    overlay.current = Some(state);
    if overlay.window == 0 {
        return None;
    }
    let near: Option<isize> = if overlay.attached == 0 { None } else { Some(overlay.attached) };
    Some(Presentation { window: overlay.window, near, height, show: false })
}

/// The window is hidden; returns the window to hide, where there is one.
pub fn hide_overlay(overlay: &mut Overlay) -> (r: Option<isize>)
    ensures
        final(overlay).window == old(overlay).window,
        final(overlay).current == old(overlay).current,
        final(overlay).attached == old(overlay).attached,
        !final(overlay).visible,
        final(overlay).place == old(overlay).place,
        r == if old(overlay).window == 0 {
            None
        } else {
            Some(old(overlay).window)
        },
{
    overlay.visible = false;
    if overlay.window == 0 {
        return None;
    }
    Some(overlay.window)
}

/// The window does not fit between the input field and the lower edge of the screen.
pub open spec fn too_low(input: Rect, screen_h: i32, height: i32) -> bool {
    input.bottom + GAP + height > screen_h
}

/// Every coordinate on the way to the place of the window is a number that a coordinate can hold.
pub open spec fn placeable(input: Rect, screen_w: i32, screen_h: i32, height: i32) -> bool {
    &&& input.bottom + GAP <= i32::MAX
    &&& i32::MIN <= input.bottom + GAP + height <= i32::MAX
    &&& i32::MIN <= screen_w - WIN_W
    &&& too_low(input, screen_h, height) ==> {
        &&& i32::MIN <= input.top - height <= i32::MAX
        &&& i32::MIN <= input.top - height - GAP
    }
}

/// Where the window stands near an input field: below it, or above it where there is no room below,
/// and moved as far as needed to stay on the screen.
pub open spec fn place_near(input: Rect, screen_w: i32, screen_h: i32, height: i32) -> Placement {
    let x = if input.left < screen_w - WIN_W { input.left as int } else { screen_w - WIN_W };
    let y = if too_low(input, screen_h, height) {
        input.top - height - GAP
    } else {
        input.bottom + GAP
    };
    Placement {
        x: (if x < 0 { 0 } else { x }) as i32,
        y: (if y < 0 { 0 } else { y }) as i32,
        w: WIN_W,
        h: height,
    }
}

/// Whether every coordinate on the way to the place of the window is a number that a coordinate can
/// hold.
pub fn can_place(input: Rect, screen_w: i32, screen_h: i32, height: i32) -> (r: bool)
    ensures
        r == placeable(input, screen_w, screen_h, height),
{
    let bottom: i64 = input.bottom as i64 + GAP as i64 + height as i64;
    let least: i64 = i32::MIN as i64;
    let most: i64 = i32::MAX as i64;
    if input.bottom as i64 + GAP as i64 > most || bottom < least || bottom > most {
        return false;
    }
    if (screen_w as i64) < least + WIN_W as i64 {
        return false;
    }
    let above: i64 = input.top as i64 - height as i64;
    bottom <= screen_h as i64 || (above <= most && above >= least + GAP as i64)
}

/// Places the window near an input field; it stays where it is where the field has no place.
pub fn position_near(
    overlay: &mut Overlay,
    input: Option<Rect>,
    screen_w: i32,
    screen_h: i32,
    height: i32,
)
    requires
        input matches Some(rc) ==> placeable(rc, screen_w, screen_h, height),
    ensures
        final(overlay).window == old(overlay).window,
        final(overlay).current == old(overlay).current,
        final(overlay).attached == old(overlay).attached,
        final(overlay).visible == old(overlay).visible,
        final(overlay).place == match input {
            Some(rc) => place_near(rc, screen_w, screen_h, height),
            None => old(overlay).place,
        },
{
    match input {
        Some(rc) => {
            let mut y: i32 = rc.bottom + GAP;
            let right: i32 = screen_w - WIN_W;
            let x: i32 = if rc.left < right { rc.left } else { right };
            if y + height > screen_h {
                y = rc.top - height - GAP;
            }
            overlay.place =
            Placement {
                x: if x < 0 { 0 } else { x },
                y: if y < 0 { 0 } else { y },
                w: WIN_W,
                h: height,
            };
        },
        None => {},
    }
}

/// The window stays on the screen: its left upper corner always, its right edge where the screen is
/// as wide as the window, and its lower edge where it stands below the input field.
pub proof fn law_place_on_screen(input: Rect, screen_w: i32, screen_h: i32, height: i32)
    requires
        placeable(input, screen_w, screen_h, height),
    ensures
        ({
            let p = place_near(input, screen_w, screen_h, height);
            &&& 0 <= p.x && 0 <= p.y
            &&& screen_w >= WIN_W ==> p.x + p.w <= screen_w
            &&& !too_low(input, screen_h, height) && 0 <= input.bottom + GAP ==> p.y + p.h <= screen_h
        }),
{
}

/// The window leaves the input field free: it stands below it or above it with the gap between
/// them, but for a window that would reach over the upper edge of the screen.
pub proof fn law_place_leaves_input_free(input: Rect, screen_w: i32, screen_h: i32, height: i32)
    requires
        placeable(input, screen_w, screen_h, height),
    ensures
        ({
            let p = place_near(input, screen_w, screen_h, height);
            ||| p.y >= input.bottom + GAP
            ||| p.y + p.h + GAP <= input.top
            ||| p.y == 0 && input.top < height + GAP
        }),
{
}

/// The window is as high as its content: the margins, the composition line where there is one, and
/// a row for each candidate of the page, up to nine; never lower than one row with its margins.
pub proof fn law_height_follows_content(state: ImeState)
    ensures
        ({
            let rows = state.page().len();
            let line: int = if state.composition@.len() > 0 {
                24
            } else {
                0
            };
            &&& rows <= 9 ==> shown(state) == rows
            &&& rows > 9 ==> shown(state) == 9
            &&& rows_top(state) == 6 + line
            &&& height_of(state) >= 38
            &&& height_of(state) == 12 + line + 26 * shown(state) || height_of(state) == 38 && rows
                == 0
        }),
{
}

/// The window stays with the input field: at its left edge wherever there is room for the width of
/// the window, and below it wherever there is room for the height, else above it. It is moved only
/// as far as the edges of the screen demand, and keeps its size.
pub proof fn law_window_stays_with_the_field(
    input: Rect,
    screen_w: i32,
    screen_h: i32,
    height: i32,
)
    requires
        placeable(input, screen_w, screen_h, height),
    ensures
        ({
            let p = place_near(input, screen_w, screen_h, height);
            let below = input.bottom + 4;
            let above = input.top - height - 4;
            let room = below + height <= screen_h;
            &&& p.w == 220 && p.h == height
            &&& 0 <= input.left && input.left + 220 <= screen_w ==> p.x == input.left
            &&& input.left + 220 > screen_w && screen_w >= 220 ==> p.x + 220 == screen_w
            &&& input.left < 0 || screen_w < 220 ==> p.x == 0
            &&& room && below >= 0 ==> p.y == below
            &&& !room && above >= 0 ==> p.y == above
            &&& room && below < 0 || !room && above < 0 ==> p.y == 0
        }),
{
}

/// A window can be placed where no number on the way leaves the 32 bits of a coordinate: the lower
/// edges of the field and of the window below it, the right edge of the screen less the width, and
/// the upper edge of a window above the field where there is no room below. It is created as high
/// as a full page and stands in the corner of the screen until it is placed.
pub proof fn law_what_can_be_placed(input: Rect, screen_w: i32, screen_h: i32, height: i32)
    ensures
        ({
            let below = input.bottom + 4;
            let above = input.top - height;
            &&& placeable(input, screen_w, screen_h, height) <==> {
                &&& below <= 0x7FFF_FFFF
                &&& -0x8000_0000 <= below + height <= 0x7FFF_FFFF
                &&& -0x8000_0000 <= screen_w - 220
                &&& below + height <= screen_h || (-0x8000_0000 <= above - 4 && above
                    <= 0x7FFF_FFFF)
            }
            &&& too_low(input, screen_h, height) <==> below + height > screen_h
        }),
        initial_place() == (Placement { x: 0, y: 0, w: 220, h: 246 }),
{
}

} // verus!
