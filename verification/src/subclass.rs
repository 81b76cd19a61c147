//! The edit controls and the game window whose window procedures are replaced.

use crate::calls::{self, CallSequence, Reply, Resource};
use crate::create_hook::TARGET_CLASS;
use crate::geometry::Rect;
use crate::messages::{
    EVENT_OBJECT_CREATE, EVENT_OBJECT_FOCUS, WM_CHAR, WM_CTLCOLOREDIT, WM_CTLCOLORSTATIC, WM_DESTROY,
    WM_ERASEBKGND, WM_IME_CHAR, WM_IME_COMPOSITION, WM_IME_ENDCOMPOSITION, WM_IME_NOTIFY,
    WM_IME_SETCONTEXT, WM_IME_STARTCOMPOSITION, WM_KEYUP, WM_KILLFOCUS, WM_NCPAINT, WM_PAINT,
    WM_PRINTCLIENT, WM_SETFOCUS, WM_SETTEXT,
};
use crate::text::{self, chars_of, contains, decode_chars, string_of, to_ascii_lower};
use std::collections::HashMap;
use vstd::multiset::Multiset;
use vstd::prelude::*;

verus! {

broadcast use vstd::std_specs::hash::group_hash_axioms;

/// Print flag: the client area.
pub const PRF_CLIENT: usize = 0x0000_0004;

/// Print flag: the frame.
pub const PRF_NONCLIENT: usize = 0x0000_0002;

/// Print flag: the background is to be erased.
pub const PRF_ERASEBKGND: usize = 0x0000_0008;

/// What an edit control is asked to print; its background is not among it.
pub const EDIT_PRINT_FLAGS: usize = PRF_CLIENT | PRF_NONCLIENT;

/// The timer that repaints an edit control.
pub const REPAINT_TIMER_ID: usize = 0xAB7C_5E01;

/// The period of that timer in milliseconds.
pub const REPAINT_TIMER_MS: u32 = 33;

/// Whether edit controls are repainted by a timer.
pub const USE_DDRAW_REPAINT_TIMER: bool = false;

/// Whether edit controls are painted over the captured picture.
pub const USE_DDRAW_PAINT_OVERRIDE: bool = true;

/// Whether the captured picture is the background of edit controls.
pub const USE_DDRAW_ERASE_BACKGROUND: bool = true;

/// Whether edit controls are repainted at once after an input event.
pub const USE_DDRAW_EVENT_REPAINT: bool = true;

/// Extended style: the window is painted through a buffer of the system.
pub const WS_EX_COMPOSITED_STYLE: u32 = 0x0200_0000;

/// Background of an edit control.
pub const EDIT_BG_COLOR: u32 = 0x00FF_FFFF;

/// Text of an edit control.
pub const EDIT_TEXT_COLOR: u32 = 0x0000_0000;

/// Whether an edit control gets the composited style after its creation: it never does.
pub fn needs_post_create_composited(ex_style: u32) -> (r: bool)
    ensures
        !r,
{
    let _ = ex_style;
    false
}

/// A message is a mere notification of the input method: the default window procedure makes no
/// characters of it.
pub open spec fn is_notification(msg: u32) -> bool {
    ||| msg == WM_IME_STARTCOMPOSITION
    ||| msg == WM_IME_ENDCOMPOSITION
    ||| msg == WM_IME_NOTIFY
    ||| msg == WM_IME_SETCONTEXT
}

/// Whether a message is a mere notification of the input method.
pub fn is_ime_notify_message(msg: u32) -> (r: bool)
    ensures
        r == is_notification(msg),
{
    msg == WM_IME_STARTCOMPOSITION || msg == WM_IME_ENDCOMPOSITION || msg == WM_IME_NOTIFY || msg
        == WM_IME_SETCONTEXT
}

/// A message comes from the input method.
pub open spec fn is_ime(msg: u32) -> bool {
    is_notification(msg) || msg == WM_IME_COMPOSITION || msg == WM_IME_CHAR
}

/// The name under which a message of the input method is traced; `None` for any other message.
pub fn ime_message_name(msg: u32) -> (r: Option<&'static str>)
    ensures
        r is Some <==> is_ime(msg),
        r matches Some(name) ==> name@ == if msg == WM_IME_NOTIFY {
            "WM_IME_NOTIFY"@
        } else if msg == WM_IME_COMPOSITION {
            "WM_IME_COMPOSITION"@
        } else if msg == WM_IME_STARTCOMPOSITION {
            "WM_IME_STARTCOMPOSITION"@
        } else if msg == WM_IME_ENDCOMPOSITION {
            "WM_IME_ENDCOMPOSITION"@
        } else if msg == WM_IME_CHAR {
            "WM_IME_CHAR"@
        } else {
            "WM_IME_SETCONTEXT"@
        },
{
    if msg == WM_IME_NOTIFY {
        Some("WM_IME_NOTIFY")
    } else if msg == WM_IME_COMPOSITION {
        Some("WM_IME_COMPOSITION")
    } else if msg == WM_IME_STARTCOMPOSITION {
        Some("WM_IME_STARTCOMPOSITION")
    } else if msg == WM_IME_ENDCOMPOSITION {
        Some("WM_IME_ENDCOMPOSITION")
    } else if msg == WM_IME_CHAR {
        Some("WM_IME_CHAR")
    } else if msg == WM_IME_SETCONTEXT {
        Some("WM_IME_SETCONTEXT")
    } else {
        None
    }
}

/// A message changes what an edit control shows.
pub open spec fn changes_edit(msg: u32) -> bool {
    ||| msg == WM_CHAR
    ||| msg == WM_KEYUP
    ||| msg == WM_SETTEXT
    ||| msg == WM_SETFOCUS
    ||| msg == WM_IME_COMPOSITION
}

/// Whether an edit control is painted anew after a message.
pub fn should_refresh_edit(msg: u32) -> (r: bool)
    ensures
        r == changes_edit(msg),
{
    msg == WM_CHAR || msg == WM_KEYUP || msg == WM_SETTEXT || msg == WM_SETFOCUS || msg
        == WM_IME_COMPOSITION
}

/// The place of a message in the record of what has been reported of a window, and its name; `None`
/// for a message that is not reported.
pub open spec fn report_of(msg: u32) -> Option<(u64, Seq<char>)> {
    if msg == WM_ERASEBKGND {
        Some((0, "WM_ERASEBKGND"@))
    } else if msg == WM_PAINT {
        Some((1, "WM_PAINT"@))
    } else if msg == WM_NCPAINT {
        Some((2, "WM_NCPAINT"@))
    } else if msg == WM_CHAR {
        Some((3, "WM_CHAR"@))
    } else if msg == WM_KEYUP {
        Some((4, "WM_KEYUP"@))
    } else if msg == WM_SETTEXT {
        Some((5, "WM_SETTEXT"@))
    } else if msg == WM_SETFOCUS {
        Some((6, "WM_SETFOCUS"@))
    } else if msg == WM_KILLFOCUS {
        Some((7, "WM_KILLFOCUS"@))
    } else if msg == WM_IME_COMPOSITION {
        Some((8, "WM_IME_COMPOSITION"@))
    } else if msg == WM_IME_NOTIFY {
        Some((9, "WM_IME_NOTIFY"@))
    } else if msg == WM_DESTROY {
        Some((10, "WM_DESTROY"@))
    } else {
        None
    }
}

/// The place of a message in the record of what has been reported of a window, as a number with
/// that one bit set, and its name; `None` for a message that is not reported.
pub fn diag_msg_bit(msg: u32) -> (r: Option<(u64, &'static str)>)
    ensures
        r is Some <==> report_of(msg) is Some,
        r matches Some((bit, name)) ==> bit == 1u64 << (report_of(msg)->0).0 && name@ == (report_of(
            msg,
        )->0).1,
{
    assert(1u64 << 0u64 == 1 && 1u64 << 1u64 == 2 && 1u64 << 2u64 == 4 && 1u64 << 3u64 == 8 && 1u64
        << 4u64 == 0x10 && 1u64 << 5u64 == 0x20 && 1u64 << 6u64 == 0x40 && 1u64 << 7u64 == 0x80
        && 1u64 << 8u64 == 0x100 && 1u64 << 9u64 == 0x200 && 1u64 << 10u64 == 0x400) by (bit_vector);
    if msg == WM_ERASEBKGND {
        Some((1, "WM_ERASEBKGND"))
    } else if msg == WM_PAINT {
        Some((2, "WM_PAINT"))
    } else if msg == WM_NCPAINT {
        Some((4, "WM_NCPAINT"))
    } else if msg == WM_CHAR {
        Some((8, "WM_CHAR"))
    } else if msg == WM_KEYUP {
        Some((0x10, "WM_KEYUP"))
    } else if msg == WM_SETTEXT {
        Some((0x20, "WM_SETTEXT"))
    } else if msg == WM_SETFOCUS {
        Some((0x40, "WM_SETFOCUS"))
    } else if msg == WM_KILLFOCUS {
        Some((0x80, "WM_KILLFOCUS"))
    } else if msg == WM_IME_COMPOSITION {
        Some((0x100, "WM_IME_COMPOSITION"))
    } else if msg == WM_IME_NOTIFY {
        Some((0x200, "WM_IME_NOTIFY"))
    } else if msg == WM_DESTROY {
        Some((0x400, "WM_DESTROY"))
    } else {
        None
    }
}

/// The place of a question for colours in the record of what has been reported of a window, and its
/// name.
pub open spec fn color_report_of(msg: u32) -> (u64, Seq<char>) {
    if msg == WM_CTLCOLOREDIT {
        (20, "WM_CTLCOLOREDIT"@)
    } else {
        (21, "WM_CTLCOLORSTATIC"@)
    }
}

/// What has been reported of each window. Each kind of message is reported once.
pub struct DiagSeen {
    seen: HashMap<isize, u64>,
}

impl View for DiagSeen {
    type V = Set<(isize, u64)>;

    /// The windows with the places of what has been reported of them.
    closed spec fn view(&self) -> Set<(isize, u64)> {
        Set::new(
            |p: (isize, u64)|
                p.1 < 64 && self.seen@.dom().contains(p.0) && self.seen@[p.0] & (1u64 << p.1) != 0,
        )
    }
}

/// Setting one bit of a number leaves the others as they are.
proof fn lemma_set_bit(seen: u64, i: u64, j: u64)
    requires
        i < 64,
        j < 64,
    ensures
        (seen | (1u64 << i)) & (1u64 << j) != 0 <==> i == j || seen & (1u64 << j) != 0,
        0u64 & (1u64 << j) == 0,
{
    assert((seen | (1u64 << i)) & (1u64 << j) != 0 <==> i == j || seen & (1u64 << j) != 0)
        by (bit_vector)
        requires
            i < 64,
            j < 64,
    ;
    assert(0u64 & (1u64 << j) == 0) by (bit_vector);
}

impl DiagSeen {
    /// Nothing has been reported.
    pub fn new() -> (r: Self)
        ensures
            r@ == Set::<(isize, u64)>::empty(),
    {
        let r = DiagSeen { seen: HashMap::new() };
        assert(r@ =~= Set::<(isize, u64)>::empty());
        r
    }

    /// Notes that a message is reported of a window; returns whether that is the first time. The
    /// place of the message is given as a number with that one bit set.
    fn first(&mut self, hwnd: isize, bit: u64, Ghost(place): Ghost<u64>) -> (r: bool)
        requires
            place < 64,
            bit == 1u64 << place,
        ensures
            r == !old(self)@.contains((hwnd, place)),
            final(self)@ == old(self)@.insert((hwnd, place)),
    {
        let seen: u64 = match self.seen.get(&hwnd) {
            Some(s) => *s,
            None => 0,
        };
        let ghost before = self@;
        proof {
            lemma_set_bit(seen, place, place);
        }
        let first: bool = seen & bit == 0;
        self.seen.insert(hwnd, seen | bit);
        assert forall|p: (isize, u64)|
            #[trigger] self@.contains(p) <==> before.insert((hwnd, place)).contains(p) by {
            if p.1 < 64 {
                lemma_set_bit(seen, place, p.1);
            }
        }
        assert(self@ =~= before.insert((hwnd, place)));
        first
    }
}

/// Notes that an edit control gets a message; returns the name of the message where it is reported,
/// which is the first time that the control gets it.
pub fn diag_log_edit_msg(seen: &mut DiagSeen, hwnd: isize, msg: u32) -> (r: Option<&'static str>)
    ensures
        r is Some <==> (report_of(msg) matches Some((place, _)) && !old(seen)@.contains(
            (hwnd, place),
        )),
        r matches Some(name) ==> name@ == (report_of(msg)->0).1,
        final(seen)@ == match report_of(msg) {
            Some((place, _)) => old(seen)@.insert((hwnd, place)),
            None => old(seen)@,
        },
{
    let (bit, name) = diag_msg_bit(msg)?;
    if seen.first(hwnd, bit, Ghost((report_of(msg)->0).0)) {
        Some(name)
    } else {
        None
    }
}

/// Notes that an edit control is asked about its colours; returns the name of the question where it
/// is reported, which is the first time for the control.
pub fn diag_log_ctlcolor(seen: &mut DiagSeen, child: isize, msg: u32) -> (r: Option<&'static str>)
    ensures
        r is Some <==> !old(seen)@.contains((child, color_report_of(msg).0)),
        r matches Some(name) ==> name@ == color_report_of(msg).1,
        final(seen)@ == old(seen)@.insert((child, color_report_of(msg).0)),
{
    assert(1u64 << 20u64 == 0x10_0000 && 1u64 << 21u64 == 0x20_0000) by (bit_vector);
    let edit: bool = msg == WM_CTLCOLOREDIT;
    let bit: u64 = if edit { 0x10_0000 } else { 0x20_0000 };
    let name: &'static str = if edit { "WM_CTLCOLOREDIT" } else { "WM_CTLCOLORSTATIC" };
    if seen.first(child, bit, Ghost(color_report_of(msg).0)) {
        Some(name)
    } else {
        None
    }
}

/// No two kinds of messages share a place in the record, so the report of one never stands in for
/// that of another.
pub proof fn law_reports_are_apart(a: u32, b: u32)
    requires
        a != b,
        report_of(a) is Some,
    ensures
        report_of(b) matches Some((place, _)) ==> place != (report_of(a)->0).0,
        color_report_of(b).0 != (report_of(a)->0).0,
{
}

/// The edit controls whose window procedure has been replaced, each with its original one.
pub struct Subclasses {
    originals: HashMap<isize, i32>,
}

impl View for Subclasses {
    type V = Map<isize, i32>;

    closed spec fn view(&self) -> Map<isize, i32> {
        self.originals@
    }
}

/// The original window procedure of a window; zero where it was not replaced.
pub open spec fn original_of(windows: Map<isize, i32>, hwnd: isize) -> i32 {
    if windows.dom().contains(hwnd) {
        windows[hwnd]
    } else {
        0
    }
}

impl Subclasses {
    /// No window procedure has been replaced.
    pub fn new() -> (r: Self)
        ensures
            r@ == Map::<isize, i32>::empty(),
    {
        Subclasses { originals: HashMap::new() }
    }

    /// The original window procedure of a window; zero where it was not replaced.
    pub fn original(&self, hwnd: isize) -> (r: i32)
        ensures
            r == original_of(self@, hwnd),
    {
        match self.originals.get(&hwnd) {
            Some(original) => *original,
            None => 0,
        }
    }

    /// Notes the original window procedure of a window.
    pub fn keep(&mut self, hwnd: isize, original: i32)
        ensures
            final(self)@ == old(self)@.insert(hwnd, original),
    {
        self.originals.insert(hwnd, original);
    }
}

/// Whether the window procedure of a window has been replaced.
pub fn is_subclassed_lunicode_edit(windows: &Subclasses, hwnd: isize) -> (r: bool)
    ensures
        r == windows@.dom().contains(hwnd),
{
    windows.originals.contains_key(&hwnd)
}

/// A window with these units as its class name is an edit control to look after. A window whose
/// class name could not be read has none.
pub open spec fn is_target(name: Seq<u16>) -> bool {
    name.len() > 0 && text::utf16_lossy(name) == TARGET_CLASS@
}

/// Whether a window is an edit control to look after, by the units of its class name.
pub fn class_is_target(name: &[u16]) -> (r: bool)
    ensures
        r == is_target(name@),
{
    if name.len() == 0 {
        return false;
    }
    let chars = decode_chars(name);
    let target = chars_of(TARGET_CLASS);
    same_chars(chars.as_slice(), target.as_slice())
}

/// Whether two texts are the same.
fn same_chars(a: &[char], b: &[char]) -> (r: bool)
    ensures
        r == (a@ == b@),
{
    let n: usize = a.len();
    if n != b.len() {
        return false;
    }
    let mut i: usize = 0;
    while i < n
        invariant
            n == a@.len(),
            n == b@.len(),
            i <= n,
            forall|k: int| 0 <= k < i ==> a@[k] == b@[k],
        decreases n - i,
    {
        if a[i] != b[i] {
            return false;
        }
        i = i + 1;
    }
    assert(a@ =~= b@);
    true
}

/// A child of the game window.
pub struct ChildWindow {
    /// The window.
    pub hwnd: isize,
    /// The units of its class name; none where it could not be read.
    pub class: Vec<u16>,
    /// Its window procedure; zero where it could not be read.
    pub proc: i32,
}

/// The window procedure of a child is replaced: it is an edit control to look after, that has not
/// been done yet, and the original is known.
pub open spec fn is_new(windows: Map<isize, i32>, child: ChildWindow) -> bool {
    is_target(child.class@) && !windows.dom().contains(child.hwnd) && child.proc != 0
}

/// The edit controls with their originals after the children have been gone through in turn.
pub open spec fn with_children(windows: Map<isize, i32>, children: Seq<ChildWindow>) -> Map<
    isize,
    i32,
>
    decreases children.len(),
{
    if children.len() == 0 {
        windows
    } else {
        let before = with_children(windows, children.drop_last());
        if is_new(before, children.last()) {
            before.insert(children.last().hwnd, children.last().proc)
        } else {
            before
        }
    }
}

/// The children whose window procedure is replaced, in turn.
pub open spec fn new_children(windows: Map<isize, i32>, children: Seq<ChildWindow>) -> Seq<isize>
    decreases children.len(),
{
    if children.len() == 0 {
        Seq::empty()
    } else {
        let before = new_children(windows, children.drop_last());
        if is_new(with_children(windows, children.drop_last()), children.last()) {
            before.push(children.last().hwnd)
        } else {
            before
        }
    }
}

/// Goes through the children of the game window and notes the originals of those whose window
/// procedure is to be replaced; returns these, and how many edit controls there are in all.
pub fn subclass_all_existing(windows: &mut Subclasses, children: &[ChildWindow]) -> (r: (
    Vec<isize>,
    usize,
))
    ensures
        final(windows)@ == with_children(old(windows)@, children@),
        r.0@ == new_children(old(windows)@, children@),
        r.1 == final(windows)@.len(),
{
    let mut fresh: Vec<isize> = Vec::new();
    let n: usize = children.len();
    let ghost start = windows@;
    let mut i: usize = 0;
    assert(children@.take(0) =~= Seq::<ChildWindow>::empty());
    while i < n
        invariant
            n == children@.len(),
            i <= n,
            windows@ == with_children(start, children@.take(i as int)),
            fresh@ == new_children(start, children@.take(i as int)),
        decreases n - i,
    {
        let child = &children[i];
        assert(children@.take(i + 1).drop_last() =~= children@.take(i as int));
        assert(children@.take(i + 1).last() == child);
        if class_is_target(child.class.as_slice()) && !is_subclassed_lunicode_edit(
            windows,
            child.hwnd,
        ) && child.proc != 0 {
            windows.keep(child.hwnd, child.proc);
            fresh.push(child.hwnd);
        }
        i = i + 1;
    }
    assert(children@.take(n as int) =~= children@);
    (fresh, windows.originals.len())
}

/// Going through the children replaces the window procedure of every edit control among them whose
/// original is known, and never touches what is known of a window already.
pub proof fn law_all_children_are_seen(windows: Map<isize, i32>, children: Seq<ChildWindow>)
    ensures
        forall|i: int|
            0 <= i < children.len() && is_target((#[trigger] children[i]).class@) && children[i].proc
                != 0 ==> with_children(windows, children).dom().contains(children[i].hwnd),
        forall|hwnd: isize|
            #[trigger] windows.dom().contains(hwnd) ==> with_children(
                windows,
                children,
            ).dom().contains(hwnd) && with_children(windows, children)[hwnd] == windows[hwnd],
    decreases children.len(),
{
    if children.len() > 0 {
        let head = children.drop_last();
        law_all_children_are_seen(windows, head);
        assert forall|i: int|
            0 <= i < children.len() && is_target((#[trigger] children[i]).class@) && children[i].proc
                != 0 implies with_children(windows, children).dom().contains(children[i].hwnd) by {
            if i < head.len() {
                assert(children[i] == head[i]);
            }
        }
    }
}

/// An event may concern an edit control: a window, not one of its parts, was created or got the
/// focus.
pub open spec fn concerns_edit(event: u32, id_object: i32, hwnd: isize) -> bool {
    (event == EVENT_OBJECT_CREATE || event == EVENT_OBJECT_FOCUS) && id_object == 0 && hwnd != 0
}

/// Whether an event may concern an edit control, so that the class of its window is looked at.
pub fn win_event_proc(event: u32, id_object: i32, hwnd: isize) -> (r: bool)
    ensures
        r == concerns_edit(event, id_object, hwnd),
{
    let interesting: bool = event == EVENT_OBJECT_CREATE || event == EVENT_OBJECT_FOCUS;
    !(!interesting || id_object != 0 || hwnd == 0)
}

/// Which events are watched for.
#[derive(Clone, Copy, Debug, PartialEq, Eq, Structural)]
pub struct EventWatch {
    /// The first event of the range.
    pub first: u32,
    /// The last event of the range.
    pub last: u32,
    /// The process whose windows are watched.
    pub process: u32,
    /// The thread whose windows are watched; zero for all of them.
    pub thread: u32,
}

/// The events to watch for in a process: all from the creation of a window to its getting the
/// focus, on every thread.
pub fn install_create_watcher(process: u32) -> (r: EventWatch)
    ensures
        r == (EventWatch {
            first: EVENT_OBJECT_CREATE,
            last: EVENT_OBJECT_FOCUS,
            process,
            thread: 0,
        }),
        forall|event: u32, id_object: i32, hwnd: isize|
            concerns_edit(event, id_object, hwnd) ==> r.first <= event <= r.last,
{
    EventWatch { first: EVENT_OBJECT_CREATE, last: EVENT_OBJECT_FOCUS, process, thread: 0 }
}

/// A class name looks like that of a window of an input method.
pub open spec fn is_ime_class(name: Seq<char>) -> bool {
    ||| text::holds(name, "ime"@)
    ||| text::holds(name, "candidate"@)
    ||| text::holds(name, "ctf"@)
    ||| text::holds(name, "tsf"@)
    ||| text::holds(name, "bopomofo"@)
    ||| text::holds(name, "pinyin"@)
    ||| text::holds(name, "reading"@)
    ||| text::holds(name, "composition"@)
    ||| text::holds(name, "chewing"@)
    ||| text::holds(name, "editcomposition"@)
    ||| text::holds(name, "phonetic"@)
    ||| text::holds(name, "hanyin"@)
    ||| text::holds(name, "natural"@)
}

/// The class name of a window that is reported in the search for the windows of an input method: a
/// window of the wanted process whose class name, the case of letters aside, looks like that of an
/// input method. `None` for any other window.
pub fn enum_global_log_proc(process: u32, wanted: u32, name: &[u16]) -> (r: Option<String>)
    ensures
        r is Some <==> process == wanted && name@.len() > 0 && is_ime_class(
            text::lower(text::utf16_lossy(name@)),
        ),
        r matches Some(class) ==> class@ == text::utf16_lossy(name@),
{
    if process != wanted || name.len() == 0 {
        return None;
    }
    let chars = decode_chars(name);
    let small = to_ascii_lower(chars.as_slice());
    let s = small.as_slice();
    if contains(s, "ime") || contains(s, "candidate") || contains(s, "ctf") || contains(s, "tsf")
        || contains(s, "bopomofo") || contains(s, "pinyin") || contains(s, "reading") || contains(
        s,
        "composition",
    ) || contains(s, "chewing") || contains(s, "editcomposition") || contains(s, "phonetic")
        || contains(s, "hanyin") || contains(s, "natural") {
        Some(string_of(chars.as_slice()))
    } else {
        None
    }
}

/// The class name under which a window of the thread is reported; one that could not be read is
/// reported as unknown.
pub fn enum_thread_log_proc(name: &[u16]) -> (r: String)
    ensures
        r@ == if name@.len() > 0 {
            text::utf16_lossy(name@)
        } else {
            "<?>"@
        },
{
    if name.len() > 0 {
        text::decode_string(name)
    } else {
        let unknown = chars_of("<?>");
        string_of(unknown.as_slice())
    }
}

/// What an edit control is asked to print.
#[derive(Clone, Copy, Debug, PartialEq, Eq, Structural)]
pub struct PrintRequest {
    /// The window procedure that is asked.
    pub proc: i32,
    /// The message.
    pub msg: u32,
    /// The device context to print to.
    pub hdc: isize,
    /// What to print.
    pub flags: usize,
}

/// The request that an edit control prints itself to a device context; `None` where its original
/// window procedure is not known.
pub fn print_edit_client(windows: &Subclasses, hwnd: isize, hdc: isize) -> (r: Option<PrintRequest>)
    ensures
        r == if original_of(windows@, hwnd) == 0 {
            None
        } else {
            Some(
                PrintRequest {
                    proc: original_of(windows@, hwnd),
                    msg: WM_PRINTCLIENT,
                    hdc,
                    flags: EDIT_PRINT_FLAGS,
                },
            )
        },
{
    let proc: i32 = windows.original(hwnd);
    if proc == 0 {
        return None;
    }
    Some(PrintRequest { proc, msg: WM_PRINTCLIENT, hdc, flags: EDIT_PRINT_FLAGS })
}

/// The extended style to set so that a window is composited; `None` where it is already.
pub fn apply_double_buffer_post(ex_style: u32) -> (r: Option<u32>)
    ensures
        r == if ex_style & WS_EX_COMPOSITED_STYLE != 0 {
            None
        } else {
            Some(ex_style | WS_EX_COMPOSITED_STYLE)
        },
{
    if ex_style & WS_EX_COMPOSITED_STYLE != 0 {
        return None;
    }
    Some(ex_style | WS_EX_COMPOSITED_STYLE)
}

/// A window that has been made composited is composited, and no other bit of its style has changed.
pub proof fn law_composited_once(ex_style: u32)
    ensures
        (ex_style | WS_EX_COMPOSITED_STYLE) & WS_EX_COMPOSITED_STYLE != 0,
        (ex_style | WS_EX_COMPOSITED_STYLE) & !WS_EX_COMPOSITED_STYLE == ex_style
            & !WS_EX_COMPOSITED_STYLE,
{
    assert((ex_style | 0x0200_0000u32) & 0x0200_0000u32 != 0) by (bit_vector);
    assert((ex_style | 0x0200_0000u32) & !0x0200_0000u32 == ex_style & !0x0200_0000u32)
        by (bit_vector);
}

/// The brush of the background of edit controls. It is created once: `created` is the brush made
/// where the slot was empty, and is not looked at where it was not.
pub fn edit_bg_brush(slot: &mut isize, created: isize) -> (r: isize)
    ensures
        r == *final(slot),
        *final(slot) == if *old(slot) == 0 {
            created
        } else {
            *old(slot)
        },
{
    if *slot == 0 {
        *slot = created;
    }
    *slot
}

/// The windows that have a repaint timer, with the number that the system gave it.
pub struct Timers {
    armed: HashMap<isize, u32>,
}

impl View for Timers {
    type V = Map<isize, u32>;

    closed spec fn view(&self) -> Map<isize, u32> {
        self.armed@
    }
}

impl Timers {
    /// No window has a timer.
    pub fn new() -> (r: Self)
        ensures
            r@ == Map::<isize, u32>::empty(),
    {
        Timers { armed: HashMap::new() }
    }

    /// Notes the timer of a window; zero where the system gave none.
    pub fn arm(&mut self, hwnd: isize, id: u32)
        ensures
            final(self)@ == old(self)@.insert(hwnd, id),
    {
        self.armed.insert(hwnd, id);
    }
}

/// Whether a window still needs its repaint timer. It is asked for once, also where that fails.
pub fn ensure_repaint_timer(timers: &Timers, hwnd: isize) -> (r: bool)
    ensures
        r == !timers@.dom().contains(hwnd),
{
    !timers.armed.contains_key(&hwnd)
}

/// How often the repaint timer of each window has run out.
pub struct FireCounts {
    counts: HashMap<isize, u32>,
}

impl View for FireCounts {
    type V = Map<isize, u32>;

    closed spec fn view(&self) -> Map<isize, u32> {
        self.counts@
    }
}

/// How often the repaint timer of a window has run out.
pub open spec fn fires_of(counts: Map<isize, u32>, hwnd: isize) -> u32 {
    if counts.dom().contains(hwnd) {
        counts[hwnd]
    } else {
        0
    }
}

impl FireCounts {
    /// No timer has run out.
    pub fn new() -> (r: Self)
        ensures
            r@ == Map::<isize, u32>::empty(),
    {
        FireCounts { counts: HashMap::new() }
    }

    /// Counts that the timer of a window has run out, up to the greatest number.
    pub fn fire(&mut self, hwnd: isize) -> (r: u32)
        ensures
            r == if fires_of(old(self)@, hwnd) < u32::MAX {
                fires_of(old(self)@, hwnd) + 1
            } else {
                u32::MAX as int
            },
            final(self)@ == old(self)@.insert(hwnd, r),
    {
        let count: u32 = match self.counts.get(&hwnd) {
            Some(c) => *c,
            None => 0,
        };
        let next: u32 = if count < u32::MAX { count + 1 } else { count };
        self.counts.insert(hwnd, next);
        next
    }
}

/// Whether the run of a timer with this number, counted from one, is reported: the first ones are,
/// and then one in many.
pub fn timer_fire_is_reported(count: u32) -> (r: bool)
    ensures
        r == (count <= 3 || count % 300 == 0),
{
    count <= 3 || count % 300 == 0
}

/// How far the replacement of a window procedure has come.
#[derive(Clone, Copy, Debug, PartialEq, Eq, Structural)]
pub enum ReplacePhase {
    /// Ask for the window procedure.
    ReadProc,
    /// Set the new window procedure.
    SetProc,
    /// Keep the original one.
    Keep,
    /// Everything is done.
    Finished,
}

/// The replacement of the window procedure of a window.
#[derive(Clone, Copy, Debug, PartialEq, Eq)]
pub struct Replacement {
    /// The call that is due.
    pub phase: ReplacePhase,
    /// The original window procedure.
    pub original: i64,
    /// Whether it has been replaced.
    pub replaced: bool,
}

impl CallSequence for Replacement {
    open spec fn after(self, reply: Reply) -> Replacement {
        match (self.phase, reply) {
            (ReplacePhase::ReadProc, Reply::Number(original)) => if original != 0 {
                Replacement { phase: ReplacePhase::SetProc, original, ..self }
            } else {
                Replacement { phase: ReplacePhase::Finished, ..self }
            },
            (ReplacePhase::SetProc, Reply::Done) => Replacement {
                phase: ReplacePhase::Keep,
                ..self
            },
            (ReplacePhase::Keep, Reply::Done) => Replacement {
                phase: ReplacePhase::Finished,
                replaced: true,
                ..self
            },
            _ => self,
        }
    }

    open spec fn awaits(self, reply: Reply) -> bool {
        match self.phase {
            ReplacePhase::ReadProc => reply is Number,
            ReplacePhase::Finished => false,
            _ => reply is Done,
        }
    }

    open spec fn rank(self) -> nat {
        match self.phase {
            ReplacePhase::ReadProc => 3,
            ReplacePhase::SetProc => 2,
            ReplacePhase::Keep => 1,
            ReplacePhase::Finished => 0,
        }
    }

    open spec fn held(self) -> Multiset<Resource> {
        Multiset::empty()
    }

    open spec fn takes(self, reply: Reply) -> Multiset<Resource> {
        Multiset::empty()
    }

    open spec fn gives(self) -> Multiset<Resource> {
        Multiset::empty()
    }

    proof fn lemma_call(self, reply: Reply) {
    }
}

impl Replacement {
    /// The replacement at its start; `done` tells that there is nothing to do.
    pub open spec fn fresh(done: bool) -> Replacement {
        Replacement {
            phase: if done {
                ReplacePhase::Finished
            } else {
                ReplacePhase::ReadProc
            },
            original: 0,
            replaced: false,
        }
    }

    /// The state after an answer.
    pub fn step(self, reply: Reply) -> (r: Replacement)
        ensures
            r == self.after(reply),
    {
        match (self.phase, reply) {
            (ReplacePhase::ReadProc, Reply::Number(original)) => {
                if original != 0 {
                    Replacement { phase: ReplacePhase::SetProc, original, ..self }
                } else {
                    Replacement { phase: ReplacePhase::Finished, ..self }
                }
            },
            (ReplacePhase::SetProc, Reply::Done) => {
                Replacement { phase: ReplacePhase::Keep, ..self }
            },
            (ReplacePhase::Keep, Reply::Done) => {
                Replacement { phase: ReplacePhase::Finished, replaced: true, ..self }
            },
            _ => self,
        }
    }
}

/// Starts the replacement of the window procedure of an edit control; nothing is done where it has
/// been replaced already.
pub fn subclass_window(windows: &Subclasses, hwnd: isize) -> (r: Replacement)
    ensures
        r == Replacement::fresh(windows@.dom().contains(hwnd)),
{
    let phase = if is_subclassed_lunicode_edit(windows, hwnd) {
        ReplacePhase::Finished
    } else {
        ReplacePhase::ReadProc
    };
    Replacement { phase, original: 0, replaced: false }
}

/// Starts the replacement of the window procedure of the game window, whose original one is zero
/// as long as it has not been replaced; nothing is done where it has.
pub fn subclass_game_window_pub(original: i32) -> (r: Replacement)
    ensures
        r == Replacement::fresh(original != 0),
{
    let phase = if original != 0 { ReplacePhase::Finished } else { ReplacePhase::ReadProc };
    Replacement { phase, original: 0, replaced: false }
}

/// A window procedure that is replaced has an original one that is kept: it was read, is not null,
/// and nothing else happened in between. A window whose procedure cannot be read is left alone.
pub proof fn law_replaced_keeps_original(replies: Seq<Reply>)
    requires
        calls::answered(Replacement::fresh(false), replies),
        calls::run(Replacement::fresh(false), replies).phase == ReplacePhase::Finished,
    ensures
        ({
            let f = calls::run(Replacement::fresh(false), replies);
            &&& f.replaced <==> replies.len() == 3
            &&& f.replaced ==> f.original != 0 && replies[0] == Reply::Number(f.original)
            &&& !f.replaced ==> replies.len() == 1 && replies[0] == Reply::Number(0)
        }),
{
    reveal_with_fuel(calls::run, 5);
    reveal_with_fuel(calls::answered, 5);
    calls::law_calls_end(Replacement::fresh(false), replies);
}

/// A window whose original procedure is kept is not touched again: its procedure is not even read.
pub proof fn law_replaced_once(
    windows: Map<isize, i32>,
    hwnd: isize,
    original: i32,
    replies: Seq<Reply>,
)
    requires
        calls::answered(
            Replacement::fresh(windows.insert(hwnd, original).dom().contains(hwnd)),
            replies,
        ),
    ensures
        replies.len() == 0,
{
}

/// How far the filling of the background of an edit control has come.
#[derive(Clone, Copy, Debug, PartialEq, Eq, Structural)]
pub enum FillPhase {
    /// Ask for the client area.
    ClientRect,
    /// Fill it.
    Fill,
    /// Everything is done.
    Finished,
}

/// The filling of the background of an edit control with its plain brush.
#[derive(Clone, Copy, Debug, PartialEq, Eq)]
pub struct BackgroundFill {
    /// The call that is due.
    pub phase: FillPhase,
    /// The client area.
    pub area: Rect,
}

impl CallSequence for BackgroundFill {
    open spec fn after(self, reply: Reply) -> BackgroundFill {
        match (self.phase, reply) {
            (FillPhase::ClientRect, Reply::Area(Some(area))) => BackgroundFill {
                phase: FillPhase::Fill,
                area,
                ..self
            },
            (FillPhase::ClientRect, Reply::Area(None)) => BackgroundFill {
                phase: FillPhase::Finished,
                ..self
            },
            (FillPhase::Fill, Reply::Done) => BackgroundFill { phase: FillPhase::Finished, ..self },
            _ => self,
        }
    }

    open spec fn awaits(self, reply: Reply) -> bool {
        match self.phase {
            FillPhase::ClientRect => reply is Area,
            FillPhase::Finished => false,
            _ => reply is Done,
        }
    }

    open spec fn rank(self) -> nat {
        match self.phase {
            FillPhase::ClientRect => 2,
            FillPhase::Fill => 1,
            FillPhase::Finished => 0,
        }
    }

    open spec fn held(self) -> Multiset<Resource> {
        Multiset::empty()
    }

    open spec fn takes(self, reply: Reply) -> Multiset<Resource> {
        Multiset::empty()
    }

    open spec fn gives(self) -> Multiset<Resource> {
        Multiset::empty()
    }

    proof fn lemma_call(self, reply: Reply) {
    }
}

impl BackgroundFill {
    /// The state after an answer.
    pub fn step(self, reply: Reply) -> (r: BackgroundFill)
        ensures
            r == self.after(reply),
    {
        match (self.phase, reply) {
            (FillPhase::ClientRect, Reply::Area(Some(area))) => {
                BackgroundFill { phase: FillPhase::Fill, area, ..self }
            },
            (FillPhase::ClientRect, Reply::Area(None)) => {
                BackgroundFill { phase: FillPhase::Finished, ..self }
            },
            (FillPhase::Fill, Reply::Done) => {
                BackgroundFill { phase: FillPhase::Finished, ..self }
            },
            _ => self,
        }
    }
}

/// Starts the filling of the background of an edit control; nothing is done where the device
/// context is null.
pub fn erase_edit_background(hdc: isize) -> (r: BackgroundFill)
    ensures
        r == (BackgroundFill {
            phase: if hdc == 0 {
                FillPhase::Finished
            } else {
                FillPhase::ClientRect
            },
            area: Rect { left: 0, top: 0, right: 0, bottom: 0 },
        }),
{
    let phase = if hdc == 0 { FillPhase::Finished } else { FillPhase::ClientRect };
    BackgroundFill { phase, area: Rect { left: 0, top: 0, right: 0, bottom: 0 } }
}

/// A window procedure is replaced wherever it can be read: the new one is set and then the one that
/// was read is kept.
pub proof fn law_procedure_is_replaced(replies: Seq<Reply>)
    requires
        calls::answered(Replacement::fresh(false), replies),
        calls::run(Replacement::fresh(false), replies).phase == ReplacePhase::Finished,
    ensures
        ({
            let m = Replacement::fresh(false);
            let f = calls::run(m, replies);
            let original = replies[0]->Number_0;
            let read = Replacement { original, ..m };
            &&& m.phase == ReplacePhase::ReadProc
            &&& if original == 0 {
                replies.len() == 1 && !f.replaced
            } else {
                &&& replies.len() == 3 && f.replaced
                &&& calls::at(m, replies, 1) == (Replacement {
                    phase: ReplacePhase::SetProc,
                    ..read
                })
                &&& calls::at(m, replies, 2) == (Replacement { phase: ReplacePhase::Keep, ..read })
                &&& f.original == original
            }
        }),
{
    calls::lemma_calls(Replacement::fresh(false), replies);
}

/// The background is filled wherever the client area is known, and just that area is.
pub proof fn law_background_is_filled(m: BackgroundFill, replies: Seq<Reply>)
    requires
        m.phase == FillPhase::ClientRect,
        calls::answered(m, replies),
        calls::run(m, replies).phase == FillPhase::Finished,
    ensures
        replies[0] == Reply::Area(None) ==> replies.len() == 1,
        replies[0] matches Reply::Area(Some(area)) ==> replies.len() == 2 && calls::at(
            m,
            replies,
            1,
        ) == (BackgroundFill { phase: FillPhase::Fill, area }),
{
    calls::lemma_calls(m, replies);
}

/// The notifications of the input method are the start and the end of a composition, the switching
/// of the input context, and the notification message itself; with a change of the composition and
/// a character they are all the messages of the input method.
pub proof fn law_messages_of_the_input_method(msg: u32)
    ensures
        is_notification(msg) <==> msg == 0x010D || msg == 0x010E || msg == 0x0281 || msg == 0x0282,
        is_ime(msg) <==> 0x010D <= msg <= 0x010F || 0x0281 <= msg <= 0x0282 || msg == 0x0286,
{
}

/// A control is painted anew after a character, a released key, a new text, the getting of the
/// focus and a change of the composition, and after nothing else.
pub proof fn law_messages_that_change_a_control(msg: u32)
    ensures
        changes_edit(msg) <==> msg == 0x0007 || msg == 0x000C || 0x0101 <= msg <= 0x0102 || msg
            == 0x010F,
{
}

/// The messages that are reported, each under its own name and at its own place.
pub proof fn law_messages_that_are_reported(msg: u32)
    ensures
        report_of(msg) is Some <==> seq![
            0x0002u32,
            0x0007u32,
            0x0008u32,
            0x000Cu32,
            0x000Fu32,
            0x0014u32,
            0x0085u32,
            0x0101u32,
            0x0102u32,
            0x010Fu32,
            0x0282u32,
        ].contains(msg),
        report_of(msg) matches Some((place, name)) ==> place <= 10 && name == match msg {
            0x0002u32 => "WM_DESTROY"@,
            0x0007u32 => "WM_SETFOCUS"@,
            0x0008u32 => "WM_KILLFOCUS"@,
            0x000Cu32 => "WM_SETTEXT"@,
            0x000Fu32 => "WM_PAINT"@,
            0x0014u32 => "WM_ERASEBKGND"@,
            0x0085u32 => "WM_NCPAINT"@,
            0x0101u32 => "WM_KEYUP"@,
            0x0102u32 => "WM_CHAR"@,
            0x010Fu32 => "WM_IME_COMPOSITION"@,
            _ => "WM_IME_NOTIFY"@,
        },
        color_report_of(0x0133) == (20u64, "WM_CTLCOLOREDIT"@),
        msg != 0x0133 ==> color_report_of(msg) == (21u64, "WM_CTLCOLORSTATIC"@),
{
    let listed = seq![
        0x0002u32,
        0x0007u32,
        0x0008u32,
        0x000Cu32,
        0x000Fu32,
        0x0014u32,
        0x0085u32,
        0x0101u32,
        0x0102u32,
        0x010Fu32,
        0x0282u32,
    ];
    assert(listed[0] == 0x0002 && listed[1] == 0x0007 && listed[2] == 0x0008 && listed[3] == 0x000C
        && listed[4] == 0x000F && listed[5] == 0x0014 && listed[6] == 0x0085 && listed[7] == 0x0101
        && listed[8] == 0x0102 && listed[9] == 0x010F && listed[10] == 0x0282);
}

/// What was kept for a window is found for it, and for no other window; a window for which nothing
/// was kept has none. The runs of its timer are counted likewise.
pub proof fn law_what_is_kept_is_found(
    windows: Map<isize, i32>,
    counts: Map<isize, u32>,
    hwnd: isize,
    other: isize,
    original: i32,
    count: u32,
)
    ensures
        original_of(windows.insert(hwnd, original), hwnd) == original,
        other != hwnd ==> original_of(windows.insert(hwnd, original), other) == original_of(
            windows,
            other,
        ),
        original_of(Map::empty(), other) == 0,
        fires_of(counts.insert(hwnd, count), hwnd) == count,
        other != hwnd ==> fires_of(counts.insert(hwnd, count), other) == fires_of(counts, other),
        fires_of(Map::empty(), other) == 0,
{
}

/// Only a window whose class is named `LUnicodeEdit`, letter by letter, is an edit control to look
/// after: the twelve units of that name and no more.
pub proof fn law_target_has_its_name(name: Seq<u16>)
    ensures
        is_target(name) <==> text::utf16_lossy(name) == "LUnicodeEdit"@,
        (forall|i: int| 0 <= i < name.len() ==> #[trigger] name[i] < 0xD800) ==> (is_target(name)
            <==> name == seq![
            0x4Cu16,
            0x55u16,
            0x6Eu16,
            0x69u16,
            0x63u16,
            0x6Fu16,
            0x64u16,
            0x65u16,
            0x45u16,
            0x64u16,
            0x69u16,
            0x74u16,
        ]),
{
    reveal_strlit("LUnicodeEdit");
    if forall|i: int| 0 <= i < name.len() ==> #[trigger] name[i] < 0xD800 {
        lemma_target_units(name);
    }
    assert(text::utf16_lossy(Seq::empty()).len() == 0);
    if name.len() == 0 {
        assert(name =~= Seq::empty());
    }
}

/// A name without surrogates is that of the target exactly where it has the units of it.
proof fn lemma_target_units(name: Seq<u16>)
    requires
        forall|i: int| 0 <= i < name.len() ==> #[trigger] name[i] < 0xD800,
    ensures
        is_target(name) <==> name == seq![
            0x4Cu16,
            0x55u16,
            0x6Eu16,
            0x69u16,
            0x63u16,
            0x6Fu16,
            0x64u16,
            0x65u16,
            0x45u16,
            0x64u16,
            0x69u16,
            0x74u16,
        ],
{
    reveal_strlit("LUnicodeEdit");
    text::law_plain_units_decode(name);
    let units = seq![
        0x4Cu16,
        0x55u16,
        0x6Eu16,
        0x69u16,
        0x63u16,
        0x6Fu16,
        0x64u16,
        0x65u16,
        0x45u16,
        0x64u16,
        0x69u16,
        0x74u16,
    ];
    let text = text::utf16_lossy(name);
    assert(text.len() == name.len());
    assert(TARGET_CLASS@ == "LUnicodeEdit"@);
    if is_target(name) {
        assert(name.len() == 12);
        assert forall|i: int| 0 <= i < 12 implies name[i] == units[i] by {
            assert(text[i] == name[i] as char);
            assert(text[i] == TARGET_CLASS@[i]);
        }
        assert(name =~= units);
    }
    if name == units {
        assert(text =~= TARGET_CLASS@);
    }
}

/// The children are gone through one by one: a child gets a new window procedure exactly where it
/// is an edit control with a known procedure that has not been seen before, neither earlier nor
/// among the children in front of it. What is kept for it is its own procedure, every window that
/// is not one of these children keeps what it had, and the ones that get a new procedure are listed
/// in their order, each once.
pub proof fn law_children_one_by_one(
    windows: Map<isize, i32>,
    children: Seq<ChildWindow>,
    child: ChildWindow,
)
    ensures
        ({
            let before = with_children(windows, children);
            let after = with_children(windows, children.push(child));
            let fresh = is_target(child.class@) && child.proc != 0 && !before.dom().contains(
                child.hwnd,
            );
            &&& with_children(windows, Seq::empty()) == windows
            &&& new_children(windows, Seq::empty()) == Seq::<isize>::empty()
            &&& fresh ==> after == before.insert(child.hwnd, child.proc) && new_children(
                windows,
                children.push(child),
            ) == new_children(windows, children).push(child.hwnd)
            &&& !fresh ==> after == before && new_children(windows, children.push(child))
                == new_children(windows, children)
        }),
{
    assert(children.push(child).drop_last() =~= children);
}

/// Events matter where they tell of the creation of a window or of its getting the focus, of the
/// window itself and not of a part of it.
pub proof fn law_events_that_matter(event: u32, id_object: i32, hwnd: isize)
    ensures
        concerns_edit(event, id_object, hwnd) <==> (event == 0x8000 || event == 0x8005)
            && id_object == 0 && hwnd != 0,
{
}

/// A class name looks like one of an input method exactly where one of these words stands in it,
/// with whatever before and behind.
pub proof fn law_words_of_an_input_method(name: Seq<char>)
    ensures
        is_ime_class(name) <==> exists|head: Seq<char>, word: Seq<char>, tail: Seq<char>|
            name == #[trigger] (head + word + tail) && seq![
                "ime"@,
                "candidate"@,
                "ctf"@,
                "tsf"@,
                "bopomofo"@,
                "pinyin"@,
                "reading"@,
                "composition"@,
                "chewing"@,
                "editcomposition"@,
                "phonetic"@,
                "hanyin"@,
                "natural"@,
            ].contains(word),
{
    let words = seq![
        "ime"@,
        "candidate"@,
        "ctf"@,
        "tsf"@,
        "bopomofo"@,
        "pinyin"@,
        "reading"@,
        "composition"@,
        "chewing"@,
        "editcomposition"@,
        "phonetic"@,
        "hanyin"@,
        "natural"@,
    ];
    assert(words[0] == "ime"@ && words[1] == "candidate"@ && words[2] == "ctf"@ && words[3]
        == "tsf"@ && words[4] == "bopomofo"@ && words[5] == "pinyin"@ && words[6] == "reading"@
        && words[7] == "composition"@ && words[8] == "chewing"@ && words[9] == "editcomposition"@
        && words[10] == "phonetic"@ && words[11] == "hanyin"@ && words[12] == "natural"@);
    assert(is_ime_class(name) <==> exists|k: int|
        0 <= k < 13 && text::holds(name, #[trigger] words[k]));
    if is_ime_class(name) {
        let k = choose|k: int| 0 <= k < 13 && text::holds(name, #[trigger] words[k]);
        text::law_part_stands_in_text(name, words[k]);
        let (head, tail) = choose|head: Seq<char>, tail: Seq<char>|
            name == #[trigger] (head + words[k] + tail);
        assert(words.contains(words[k]));
        assert(name == head + words[k] + tail);
    }
    if exists|head: Seq<char>, word: Seq<char>, tail: Seq<char>|
        name == #[trigger] (head + word + tail) && words.contains(word) {
        let (head, word, tail) = choose|head: Seq<char>, word: Seq<char>, tail: Seq<char>|
            name == #[trigger] (head + word + tail) && words.contains(word);
        let k = choose|k: int| 0 <= k < 13 && words[k] == word;
        text::law_part_stands_in_text(name, word);
        assert(text::holds(name, words[k]));
    }
}

} // verus!
