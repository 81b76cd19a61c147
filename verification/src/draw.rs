//! What is drawn in the candidate window.

use crate::candidates::ImeState;
use crate::geometry::Rect;
use crate::overlay::{
    self, ACCENT_W, COMP_GAP, COMP_H, ITEM_H, MAX_PAGE_SIZE, NUM_W, PADDING_X, PADDING_Y, WIN_W,
};
use vstd::prelude::*;

verus! {

/// Background.
pub const BG_COLOR: u32 = 0x0020_2020;

/// Border.
pub const BORDER_COLOR: u32 = 0x003C_3C3C;

/// Candidates.
pub const TEXT_COLOR: u32 = 0x00FF_FFFF;

/// Numbers.
pub const NUM_COLOR: u32 = 0x00B4_B4B4;

/// Composition string.
pub const COMP_COLOR: u32 = 0x00AA_AAAA;

/// Background of the selected row.
pub const SEL_BG: u32 = 0x003C_3C3C;

/// Accent bar of the selected row.
pub const ACCENT_COLOR: u32 = 0x00D7_7800;

/// How far the accent bar stays off the edges of its row.
pub const ACCENT_INSET: i32 = 4;

/// The fonts in use.
#[derive(Clone, Copy, Debug, PartialEq, Eq, Structural)]
pub enum Font {
    /// The smaller font of the composition string.
    Composition,
    /// The font of the candidates and their numbers.
    Candidate,
}

/// Size of the font of the candidates.
pub const FONT_SIZE: i32 = 16;

/// Size of the font of the composition string.
pub const COMP_FONT_SIZE: i32 = 14;

/// The face of the fonts.
pub const FONT_FACE: &'static str = "Microsoft JhengHei";

impl Font {
    /// The size of the font.
    pub fn size(&self) -> (r: i32)
        ensures
            r == match self {
                Font::Composition => COMP_FONT_SIZE,
                Font::Candidate => FONT_SIZE,
            },
    {
        match self {
            Font::Composition => COMP_FONT_SIZE,
            Font::Candidate => FONT_SIZE,
        }
    }
}

/// A step of the drawing.
pub enum DrawOp {
    /// Fill a rectangle.
    Fill { area: Rect, color: u32 },
    /// Draw the border of a rectangle.
    Frame { area: Rect, color: u32 },
    /// Write a line of text, at the left and vertically centred.
    Text { font: Font, area: Rect, color: u32, text: String },
}

/// A step of the drawing, with its text as a sequence of characters.
pub enum DrawView {
    Fill { area: Rect, color: u32 },
    Frame { area: Rect, color: u32 },
    Text { font: Font, area: Rect, color: u32, text: Seq<char> },
}

impl View for DrawOp {
    type V = DrawView;

    open spec fn view(&self) -> DrawView {
        match self {
            DrawOp::Fill { area, color } => DrawView::Fill { area: *area, color: *color },
            DrawOp::Frame { area, color } => DrawView::Frame { area: *area, color: *color },
            DrawOp::Text { font, area, color, text } => DrawView::Text {
                font: *font,
                area: *area,
                color: *color,
                text: text@,
            },
        }
    }
}

/// The views of a list of steps.
pub open spec fn views(ops: Seq<DrawOp>) -> Seq<DrawView> {
    ops.map_values(|op: DrawOp| op@)
}

/// A rectangle with these edges.
pub open spec fn rect(left: int, top: int, right: int, bottom: int) -> Rect {
    Rect { left: left as i32, top: top as i32, right: right as i32, bottom: bottom as i32 }
}

/// The composition string, where there is one.
pub open spec fn composition_ops(state: ImeState, w: int) -> Seq<DrawView> {
    if state.composition@.len() == 0 {
        Seq::empty()
    } else {
        seq![
            DrawView::Text {
                font: Font::Composition,
                area: rect(PADDING_X as int, PADDING_Y as int, w - PADDING_X, PADDING_Y + COMP_H),
                color: COMP_COLOR,
                text: state.composition@,
            },
        ]
    }
}

/// The top of row `i`.
pub open spec fn row_top(state: ImeState, i: int) -> int {
    overlay::rows_top(state) + ITEM_H * i
}

/// The highlight of row `i`, where its candidate is the selected one.
pub open spec fn highlight_ops(state: ImeState, w: int, i: int) -> Seq<DrawView> {
    let top = row_top(state, i);
    if state.selected() == Some(i) {
        seq![
            DrawView::Fill { area: rect(1, top, w - 1, top + ITEM_H), color: SEL_BG },
            DrawView::Fill {
                area: rect(1, top + ACCENT_INSET, 1 + ACCENT_W, top + ITEM_H - ACCENT_INSET),
                color: ACCENT_COLOR,
            },
        ]
    } else {
        Seq::empty()
    }
}

/// The number of row `i`: the digit key that chooses its candidate.
pub open spec fn number_op(state: ImeState, i: int) -> DrawView {
    let top = row_top(state, i);
    DrawView::Text {
        font: Font::Candidate,
        area: rect(PADDING_X + ACCENT_W, top, PADDING_X + ACCENT_W + NUM_W, top + ITEM_H),
        color: NUM_COLOR,
        text: seq![('0' as u32 + i + 1) as char],
    }
}

/// The candidate of row `i`.
pub open spec fn candidate_op(state: ImeState, w: int, i: int) -> DrawView {
    let top = row_top(state, i);
    DrawView::Text {
        font: Font::Candidate,
        area: rect(PADDING_X + ACCENT_W + NUM_W, top, w - PADDING_X, top + ITEM_H),
        color: TEXT_COLOR,
        text: state.page()[i]@,
    }
}

/// Row `i`: its highlight, its number and its candidate.
pub open spec fn row_ops(state: ImeState, w: int, i: int) -> Seq<DrawView> {
    highlight_ops(state, w, i) + seq![number_op(state, i), candidate_op(state, w, i)]
}

/// The first `n` rows.
pub open spec fn rows_ops(state: ImeState, w: int, n: nat) -> Seq<DrawView>
    decreases n,
{
    if n == 0 {
        Seq::empty()
    } else {
        rows_ops(state, w, (n - 1) as nat) + row_ops(state, w, n - 1)
    }
}

/// The background and the border of a window of this size.
pub open spec fn ground_ops(w: int, h: int) -> Seq<DrawView> {
    seq![
        DrawView::Fill { area: rect(0, 0, w, h), color: BG_COLOR },
        DrawView::Frame { area: rect(0, 0, w, h), color: BORDER_COLOR },
    ]
}

/// The drawing of a state in a window of this size: background and border, the composition string,
/// then the rows of the page from the top down.
pub open spec fn drawing(current: Option<ImeState>, w: int, h: int) -> Seq<DrawView> {
    match current {
        Some(state) => ground_ops(w, h) + composition_ops(state, w) + rows_ops(
            state,
            w,
            overlay::shown(state) as nat,
        ),
        None => ground_ops(w, h),
    }
}

/// Adds row `i` to a drawing.
fn push_row(
    ops: &mut Vec<DrawOp>,
    state: &ImeState,
    w: i32,
    i: usize,
    top: i32,
    selected: bool,
    cand: &String,
)
    requires
        w - PADDING_X >= i32::MIN,
        i < MAX_PAGE_SIZE,
        i < state.page().len(),
        top == row_top(*state, i as int),
        selected == (state.selected() == Some(i as int)),
        *cand == state.page()[i as int],
    ensures
        views(final(ops)@) == views(old(ops)@) + row_ops(*state, w as int, i as int),
{
    let ghost before = views(ops@);
    let bottom: i32 = top + ITEM_H;
    if selected {
        ops.push(
            DrawOp::Fill { area: Rect { left: 1, top, right: w - 1, bottom }, color: SEL_BG },
        );
        ops.push(
            DrawOp::Fill {
                area: Rect {
                    left: 1,
                    top: top + ACCENT_INSET,
                    right: 1 + ACCENT_W,
                    bottom: bottom - ACCENT_INSET,
                },
                color: ACCENT_COLOR,
            },
        );
    }
    assert(views(ops@) =~= before + highlight_ops(*state, w as int, i as int));
    let mut number = String::new();
    number.push((0x31u8 + i as u8) as char);
    let left: i32 = PADDING_X + ACCENT_W;
    ops.push(
        DrawOp::Text {
            font: Font::Candidate,
            area: Rect { left, top, right: left + NUM_W, bottom },
            color: NUM_COLOR,
            text: number,
        },
    );
    ops.push(
        DrawOp::Text {
            font: Font::Candidate,
            area: Rect { left: left + NUM_W, top, right: w - PADDING_X, bottom },
            color: TEXT_COLOR,
            text: cand.clone(),
        },
    );
    assert(views(ops@) =~= before + row_ops(*state, w as int, i as int));
}

/// The drawing of a state in a window of this size.
pub fn draw_into(current: &Option<ImeState>, w: i32, h: i32) -> (r: Vec<DrawOp>)
    requires
        w - PADDING_X >= i32::MIN,
        current matches Some(state) ==> state.page_bounded(),
    ensures
        views(r@) == drawing(*current, w as int, h as int),
{
    let full = Rect { left: 0, top: 0, right: w, bottom: h };
    let mut ops: Vec<DrawOp> = Vec::new();
    ops.push(DrawOp::Fill { area: full, color: BG_COLOR });
    ops.push(DrawOp::Frame { area: full, color: BORDER_COLOR });
    assert(views(ops@) =~= ground_ops(w as int, h as int));
    if let Some(state) = current {
        let mut y: i32 = PADDING_Y;
        if !state.composition.as_str().is_empty() {
            ops.push(
                DrawOp::Text {
                    font: Font::Composition,
                    area: Rect { left: PADDING_X, top: y, right: w - PADDING_X, bottom: y + COMP_H },
                    color: COMP_COLOR,
                    text: state.composition.clone(),
                },
            );
            y = y + COMP_H + COMP_GAP;
        }
        let ghost head = ground_ops(w as int, h as int) + composition_ops(*state, w as int);
        assert(views(ops@) =~= head);
        let page = state.page_items();
        let selection: Option<usize> = state.page_selection();
        let n: usize = if page.len() < MAX_PAGE_SIZE { page.len() } else { MAX_PAGE_SIZE };
        let mut i: usize = 0;
        while i < n
            invariant
                w - PADDING_X >= i32::MIN,
                n == overlay::shown(*state),
                i <= n <= MAX_PAGE_SIZE,
                page@ == state.page(),
                n <= page@.len(),
                y == overlay::rows_top(*state),
                state.page_bounded(),
                selection == match state.selected() {
                    Some(k) => Some(k as usize),
                    None => None,
                },
                views(ops@) == head + rows_ops(*state, w as int, i as nat),
            decreases n - i,
        {
            let is_selected: bool = match selection {
                Some(k) => k == i,
                None => false,
            };
            push_row(&mut ops, state, w, i, y + i as i32 * ITEM_H, is_selected, &page[i]);
            i = i + 1;
            assert(views(ops@) =~= head + rows_ops(*state, w as int, i as nat));
        }
    }
    ops
}

/// The rectangle that a step draws in.
pub open spec fn area_of(op: DrawView) -> Rect {
    match op {
        DrawView::Fill { area, .. } => area,
        DrawView::Frame { area, .. } => area,
        DrawView::Text { area, .. } => area,
    }
}

/// Every step of the first `n` rows lies in the window.
proof fn lemma_rows_fit(state: ImeState, n: nat)
    requires
        n <= overlay::shown(state),
    ensures
        forall|k: int|
            0 <= k < rows_ops(state, WIN_W as int, n).len() ==> area_of(
                #[trigger] rows_ops(state, WIN_W as int, n)[k],
            ).within(rect(0, 0, WIN_W as int, overlay::height_of(state))),
    decreases n,
{
    if n > 0 {
        lemma_rows_fit(state, (n - 1) as nat);
        let upper = rows_ops(state, WIN_W as int, (n - 1) as nat);
        let row = row_ops(state, WIN_W as int, n - 1);
        let rows = rows_ops(state, WIN_W as int, n);
        assert forall|k: int| 0 <= k < rows.len() implies area_of(#[trigger] rows[k]).within(
            rect(0, 0, WIN_W as int, overlay::height_of(state)),
        ) by {
            if k >= upper.len() {
                assert(rows[k] == row[k - upper.len()]);
            } else {
                assert(rows[k] == upper[k]);
            }
        }
    }
}

/// In a window that is as high as its state takes, everything is drawn inside the window.
pub proof fn law_drawing_fits(state: ImeState)
    ensures
        forall|k: int|
            0 <= k < drawing(Some(state), WIN_W as int, overlay::height_of(state)).len() ==> area_of(
                #[trigger] drawing(Some(state), WIN_W as int, overlay::height_of(state))[k],
            ).within(rect(0, 0, WIN_W as int, overlay::height_of(state))),
{
    lemma_rows_fit(state, overlay::shown(state) as nat);
    let w = WIN_W as int;
    let h = overlay::height_of(state);
    let all = drawing(Some(state), w, h);
    let ground = ground_ops(w, h);
    let head = ground + composition_ops(state, w);
    let rows = rows_ops(state, w, overlay::shown(state) as nat);
    assert forall|k: int| 0 <= k < all.len() implies area_of(#[trigger] all[k]).within(
        rect(0, 0, w, h),
    ) by {
        if k >= head.len() {
            assert(all[k] == rows[k - head.len()]);
        } else if k >= ground.len() {
            assert(all[k] == composition_ops(state, w)[k - ground.len()]);
        } else {
            assert(all[k] == ground[k]);
        }
    }
}

/// The steps of row `i` are among those of the first `n` rows.
proof fn lemma_row_in_rows(state: ImeState, w: int, n: nat, i: int, op: DrawView)
    requires
        0 <= i < n,
        row_ops(state, w, i).contains(op),
    ensures
        rows_ops(state, w, n).contains(op),
    decreases n,
{
    let upper = rows_ops(state, w, (n - 1) as nat);
    let row = row_ops(state, w, n - 1);
    let rows = rows_ops(state, w, n);
    if i == n - 1 {
        let k = choose|k: int| 0 <= k < row.len() && row[k] == op;
        assert(rows[upper.len() + k] == op);
    } else {
        lemma_row_in_rows(state, w, (n - 1) as nat, i, op);
        let k = choose|k: int| 0 <= k < upper.len() && upper[k] == op;
        assert(rows[k] == op);
    }
}

/// A step of the first `n` rows is a step of one of them.
proof fn lemma_rows_hold_rows(state: ImeState, w: int, n: nat, op: DrawView)
    requires
        rows_ops(state, w, n).contains(op),
    ensures
        exists|i: int| 0 <= i < n && #[trigger] row_ops(state, w, i).contains(op),
    decreases n,
{
    if n > 0 {
        let upper = rows_ops(state, w, (n - 1) as nat);
        let row = row_ops(state, w, n - 1);
        let rows = rows_ops(state, w, n);
        let k = choose|k: int| 0 <= k < rows.len() && rows[k] == op;
        if k >= upper.len() {
            assert(row[k - upper.len()] == op);
            assert(row_ops(state, w, n - 1).contains(op));
        } else {
            assert(upper[k] == op);
            assert(upper.contains(op));
            lemma_rows_hold_rows(state, w, (n - 1) as nat, op);
        }
    }
}

/// Each of the first nine candidates of the page is drawn, with the digit key that chooses it, in a
/// row of its own.
pub proof fn law_candidates_are_drawn(state: ImeState, w: int, h: int, i: int)
    requires
        0 <= i < overlay::shown(state),
    ensures
        drawing(Some(state), w, h).contains(number_op(state, i)),
        drawing(Some(state), w, h).contains(candidate_op(state, w, i)),
        row_top(state, i) + ITEM_H == row_top(state, i + 1),
{
    let n = overlay::shown(state) as nat;
    let head = ground_ops(w, h) + composition_ops(state, w);
    let rows = rows_ops(state, w, n);
    let row = row_ops(state, w, i);
    let lights = highlight_ops(state, w, i).len() as int;
    assert(row[lights] == number_op(state, i));
    assert(row[lights + 1] == candidate_op(state, w, i));
    lemma_row_in_rows(state, w, n, i, number_op(state, i));
    lemma_row_in_rows(state, w, n, i, candidate_op(state, w, i));
    let j = choose|j: int| 0 <= j < rows.len() && rows[j] == number_op(state, i);
    assert(drawing(Some(state), w, h)[head.len() + j] == number_op(state, i));
    let k = choose|k: int| 0 <= k < rows.len() && rows[k] == candidate_op(state, w, i);
    assert(drawing(Some(state), w, h)[head.len() + k] == candidate_op(state, w, i));
}

/// The highlight of row `i`.
pub open spec fn highlight(state: ImeState, w: int, i: int) -> DrawView {
    DrawView::Fill {
        area: rect(1, row_top(state, i), w - 1, row_top(state, i) + ITEM_H),
        color: SEL_BG,
    }
}

/// A step of the drawing is the highlight of a row: it fills a rectangle with the colour of the
/// selection.
pub open spec fn is_highlight(op: DrawView) -> bool {
    op matches DrawView::Fill { color, .. } && color == SEL_BG
}

/// The selected candidate is highlighted where it is shown, and nothing else is.
pub proof fn law_selection_is_highlighted(state: ImeState, w: int, h: int, op: DrawView)
    ensures
        drawing(Some(state), w, h).contains(op) && is_highlight(op) <==> (state.selected() matches Some(
            i,
        ) && i < overlay::shown(state) && op == highlight(state, w, i)),
{
    let n = overlay::shown(state) as nat;
    let all = drawing(Some(state), w, h);
    let head = ground_ops(w, h) + composition_ops(state, w);
    let rows = rows_ops(state, w, n);
    if all.contains(op) && is_highlight(op) {
        let k = choose|k: int| 0 <= k < all.len() && all[k] == op;
        if k < head.len() {
            assert(all[k] == head[k]);
            assert(false);
        }
        assert(rows[k - head.len()] == op);
        assert(rows.contains(op));
        lemma_rows_hold_rows(state, w, n, op);
        let i = choose|i: int| 0 <= i < n && #[trigger] row_ops(state, w, i).contains(op);
        let row = row_ops(state, w, i);
        let j = choose|j: int| 0 <= j < row.len() && row[j] == op;
        assert(op == highlight(state, w, i));
    }
    if state.selected() is Some && state.selected()->0 < overlay::shown(state) && op == highlight(
        state,
        w,
        state.selected()->0,
    ) {
        let i = state.selected()->0;
        assert(row_ops(state, w, i)[0] == op);
        lemma_row_in_rows(state, w, n, i, op);
        let j = choose|j: int| 0 <= j < rows.len() && rows[j] == op;
        assert(all[head.len() + j] == op);
    }
}

/// The composition string stands above the candidates, the rows below it do not overlap, and in
/// each row the number stands in front of the candidate.
pub proof fn law_composition_on_top(state: ImeState, w: int, i: int, j: int)
    ensures
        state.composition@.len() > 0 ==> composition_ops(state, w).len() == 1 && area_of(
            composition_ops(state, w)[0],
        ).bottom <= row_top(state, 0),
        0 <= i < j < overlay::shown(state) ==> area_of(candidate_op(state, w, i)).bottom <= area_of(
            candidate_op(state, w, j),
        ).top,
        0 <= i < overlay::shown(state) ==> area_of(number_op(state, i)).right == area_of(
            candidate_op(state, w, i),
        ).left,
{
}

/// The height that a state takes and its drawing agree: in a window of that height the rows of the
/// candidates follow each other without a gap from below the composition string, and the last one
/// ends where the lower margin begins.
pub proof fn law_rows_fill_the_window(state: ImeState, w: int, i: int)
    requires
        0 <= i < overlay::shown(state),
    ensures
        ({
            let all = drawing(Some(state), w, overlay::height_of(state));
            let row = area_of(candidate_op(state, w, i));
            &&& all.contains(candidate_op(state, w, i))
            &&& all.contains(number_op(state, i))
            &&& area_of(number_op(state, i)).top == row.top
            &&& area_of(number_op(state, i)).bottom == row.bottom
            &&& row.bottom == row.top + ITEM_H
            &&& i == 0 ==> row.top == overlay::rows_top(state)
            &&& i > 0 ==> row.top == area_of(candidate_op(state, w, i - 1)).bottom
            &&& i == overlay::shown(state) - 1 ==> row.bottom == overlay::height_of(state)
                - PADDING_Y
        }),
{
    law_candidates_are_drawn(state, w, overlay::height_of(state), i);
}

/// Where the steps of row `i` stand among those of the rows: two steps for each row in front of it,
/// and two more from the selected row on.
pub open spec fn row_at(state: ImeState, i: int) -> int {
    2 * i + if state.selected() is Some && state.selected()->0 <= i {
        2int
    } else {
        0int
    }
}

/// The steps of the rows stand one after the other.
proof fn lemma_rows_in_turn(state: ImeState, w: int, n: nat)
    ensures
        ({
            let rows = rows_ops(state, w, n);
            &&& rows.len() == if n == 0 {
                0
            } else {
                row_at(state, n - 1) + 2
            }
            &&& forall|i: int|
                #![trigger row_at(state, i)]
                0 <= i < n ==> {
                    &&& rows[row_at(state, i)] == number_op(state, i)
                    &&& rows[row_at(state, i) + 1] == candidate_op(state, w, i)
                    &&& state.selected() == Some(i) ==> rows[row_at(state, i) - 2]
                        == highlight_ops(state, w, i)[0] && rows[row_at(state, i) - 1]
                        == highlight_ops(state, w, i)[1]
                }
        }),
    decreases n,
{
    if n > 0 {
        let upper = rows_ops(state, w, (n - 1) as nat);
        let row = row_ops(state, w, n - 1);
        lemma_rows_in_turn(state, w, (n - 1) as nat);
        let rows = rows_ops(state, w, n);
        assert(rows =~= upper + row);
        assert(state.selected() is Some ==> state.selected()->0 >= 0);
        if n > 1 {
            assert(upper.len() == row_at(state, n - 2) + 2);
        }
        assert forall|i: int|
            #![trigger row_at(state, i)]
            0 <= i < n implies {
            &&& rows[row_at(state, i)] == number_op(state, i)
            &&& rows[row_at(state, i) + 1] == candidate_op(state, w, i)
            &&& state.selected() == Some(i) ==> rows[row_at(state, i) - 2] == highlight_ops(
                state,
                w,
                i,
            )[0] && rows[row_at(state, i) - 1] == highlight_ops(state, w, i)[1]
        } by {
            if i == n - 1 {
                let lights = highlight_ops(state, w, i).len() as int;
                assert(row[lights] == number_op(state, i));
                assert(row[lights + 1] == candidate_op(state, w, i));
                assert(rows[upper.len() + lights] == row[lights]);
                assert(rows[upper.len() + lights + 1] == row[lights + 1]);
                if lights == 2 {
                    assert(rows[upper.len() as int] == row[0]);
                    assert(rows[upper.len() + 1int] == row[1]);
                }
            } else {
                assert(row_at(state, i) + 1 < upper.len());
            }
        }
    }
}

/// The drawing from its first step to its last. The background and the border fill the window. The
/// composition string, where there is one, is written in whole on top. Then comes a row for each
/// candidate of the page, up to nine: the number of the row, counted from one, and the whole text
/// of the candidate behind it; the row of the selected one has a bar and an accent under them.
/// Nothing else is drawn.
pub proof fn law_drawing_step_by_step(state: ImeState, w: i32, h: i32)
    requires
        w - 8 >= i32::MIN,
    ensures
        ({
            let all = drawing(Some(state), w as int, h as int);
            let page = state.page();
            let rows = if page.len() < 9 {
                page.len() as int
            } else {
                9
            };
            let line = state.composition@.len() > 0;
            let head: int = if line {
                3
            } else {
                2
            };
            let first: int = if line {
                30
            } else {
                6
            };
            let window = Rect { left: 0, top: 0, right: w, bottom: h };
            let chosen = state.selected();
            let marked = chosen is Some && chosen->0 < rows;
            &&& all.len() == head + 2 * rows + if marked {
                2int
            } else {
                0int
            }
            &&& all[0] == (DrawView::Fill { area: window, color: 0x0020_2020 })
            &&& all[1] == (DrawView::Frame { area: window, color: 0x003C_3C3C })
            &&& line ==> all[2] == (DrawView::Text {
                font: Font::Composition,
                area: Rect { left: 8, top: 6, right: (w - 8) as i32, bottom: 28 },
                color: 0x00AA_AAAA,
                text: state.composition@,
            })
            &&& forall|i: int|
                #![trigger page[i]]
                0 <= i < rows ==> {
                    let top = first + 26 * i;
                    let at = head + 2 * i + if marked && chosen->0 <= i {
                        2int
                    } else {
                        0int
                    };
                    &&& all[at] == (DrawView::Text {
                        font: Font::Candidate,
                        area: Rect {
                            left: 11,
                            top: top as i32,
                            right: 33,
                            bottom: (top + 26) as i32,
                        },
                        color: 0x00B4_B4B4,
                        text: seq![(0x31 + i) as char],
                    })
                    &&& all[at + 1] == (DrawView::Text {
                        font: Font::Candidate,
                        area: Rect {
                            left: 33,
                            top: top as i32,
                            right: (w - 8) as i32,
                            bottom: (top + 26) as i32,
                        },
                        color: 0x00FF_FFFF,
                        text: page[i]@,
                    })
                    &&& chosen == Some(i) ==> {
                        &&& all[at - 2] == (DrawView::Fill {
                            area: Rect {
                                left: 1,
                                top: top as i32,
                                right: (w - 1) as i32,
                                bottom: (top + 26) as i32,
                            },
                            color: 0x003C_3C3C,
                        })
                        &&& all[at - 1] == (DrawView::Fill {
                            area: Rect {
                                left: 1,
                                top: (top + 4) as i32,
                                right: 4,
                                bottom: (top + 22) as i32,
                            },
                            color: 0x00D7_7800,
                        })
                    }
                }
        }),
{
    let page = state.page();
    let n = overlay::shown(state) as nat;
    let all = drawing(Some(state), w as int, h as int);
    let head = ground_ops(w as int, h as int) + composition_ops(state, w as int);
    let rows = rows_ops(state, w as int, n);
    lemma_rows_in_turn(state, w as int, n);
    assert(all =~= head + rows);
    assert forall|i: int| #![trigger page[i]] 0 <= i < n implies {
        &&& all[head.len() + row_at(state, i)] == number_op(state, i)
        &&& all[head.len() + row_at(state, i) + 1] == candidate_op(state, w as int, i)
        &&& state.selected() == Some(i) ==> all[head.len() + row_at(state, i) - 2]
            == highlight_ops(state, w as int, i)[0] && all[head.len() + row_at(state, i) - 1]
            == highlight_ops(state, w as int, i)[1]
    } by {
        let at = row_at(state, i);
        assert(rows[at] == number_op(state, i));
        assert(0 <= at);
        if i < n - 1 {
            assert(at + 1 < row_at(state, n - 1));
        }
    }
}

/// Without a state nothing but the background and the border is drawn.
pub proof fn law_empty_window(w: i32, h: i32)
    ensures
        ({
            let window = Rect { left: 0, top: 0, right: w, bottom: h };
            drawing(None, w as int, h as int) == seq![
                DrawView::Fill { area: window, color: 0x0020_2020 },
                DrawView::Frame { area: window, color: 0x003C_3C3C },
            ]
        }),
{
}

/// The view of a drawing tells all of its steps, each with all that it holds.
pub proof fn law_view_tells_all(ops: Seq<DrawOp>, i: int)
    requires
        0 <= i < ops.len(),
    ensures
        views(ops).len() == ops.len(),
        match ops[i] {
            DrawOp::Fill { area, color } => views(ops)[i] == (DrawView::Fill { area, color }),
            DrawOp::Frame { area, color } => views(ops)[i] == (DrawView::Frame { area, color }),
            DrawOp::Text { font, area, color, text } => views(ops)[i] == (DrawView::Text {
                font,
                area,
                color,
                text: text@,
            }),
        },
{
}

} // verus!
