//! Candidate lists and composition strings.
//!
//! A candidate list arrives as one block of bytes in the layout of the system's `CANDIDATELIST`:
//! six little-endian 32-bit fields (size, style, count, selection, page start, page size), then one
//! 32-bit byte offset for each candidate, then the candidates themselves as NUL-terminated UTF-16
//! strings, each found at its offset from the start of the block.

use crate::text::{self, decode_string};
use vstd::prelude::*;

verus! {

/// Length of the fixed fields in front of the offsets.
pub const HEADER_LEN: usize = 0x18;

/// A list that claims more candidates than this is rejected.
pub const MAX_COUNT: u32 = 1024;

/// At most so many candidates are kept.
pub const MAX_ITEMS: usize = 64;

/// At most so many UTF-16 units of one candidate are kept.
pub const MAX_UNITS: usize = 65;

/// The little-endian 16-bit number at `p`.
pub open spec fn le_u16(s: Seq<u8>, p: int) -> u16 {
    (s[p] + 0x100 * s[p + 1]) as u16
}

/// The little-endian 32-bit number at `p`.
pub open spec fn le_u32(s: Seq<u8>, p: int) -> u32 {
    (s[p] + 0x100 * s[p + 1] + 0x1_0000 * s[p + 2] + 0x100_0000 * s[p + 3]) as u32
}

/// The units that stand from byte `p` on, up to a zero unit, the end of the bytes or `room` units.
pub open spec fn wide_units(s: Seq<u8>, p: int, room: nat) -> Seq<u16>
    decreases room,
{
    if room == 0 || p + 2 > s.len() || le_u16(s, p) == 0 {
        Seq::empty()
    } else {
        seq![le_u16(s, p)] + wide_units(s, p + 2, (room - 1) as nat)
    }
}

/// The byte position of the offset of candidate `i`.
pub open spec fn offset_pos(i: int) -> int {
    HEADER_LEN + 4 * i
}

/// Candidate `i`: the string at its offset, or nothing where the offset points past the end.
pub open spec fn item_text(s: Seq<u8>, i: int) -> Seq<char> {
    let off = le_u32(s, offset_pos(i)) as int;
    if off >= s.len() {
        Seq::empty()
    } else {
        text::utf16_lossy(wide_units(s, off, MAX_UNITS as nat))
    }
}

/// How many candidates are kept of a list: as many as it counts, as its bytes hold offsets for,
/// and no more than the maximum.
pub open spec fn item_count(s: Seq<u8>) -> int {
    let count = le_u32(s, 0x08) as int;
    let wanted = if count < MAX_ITEMS { count } else { MAX_ITEMS as int };
    let room = (s.len() - HEADER_LEN) / 4;
    if room < wanted { room } else { wanted }
}

/// A block of bytes is a candidate list where it holds the fixed fields and counts between one and
/// the maximum of candidates.
pub open spec fn is_candlist(s: Seq<u8>) -> bool {
    s.len() >= HEADER_LEN && 1 <= le_u32(s, 0x08) <= MAX_COUNT
}

/// The texts of a candidate list.
pub open spec fn item_texts(s: Seq<u8>) -> Seq<Seq<char>> {
    Seq::new(item_count(s) as nat, |i: int| item_text(s, i))
}

/// The texts that a list of strings holds.
pub open spec fn texts(items: Seq<String>) -> Seq<Seq<char>> {
    items.map_values(|t: String| t@)
}

/// Reads the little-endian 32-bit number at `off`; `None` where the bytes end before it does.
pub fn read_u32(buf: &[u8], off: usize) -> (r: Option<u32>)
    ensures
        r == if off + 4 <= buf@.len() {
            Some(le_u32(buf@, off as int))
        } else {
            None
        },
{
    if buf.len() < 4 || off > buf.len() - 4 {
        return None;
    }
    Some(
        buf[off] as u32 + 0x100 * buf[off + 1] as u32 + 0x1_0000 * buf[off + 2] as u32 + 0x100_0000
            * buf[off + 3] as u32,
    )
}

/// Reads the UTF-16 units from byte `off` on, up to a zero unit, the end of the bytes or the
/// maximum of units.
pub fn read_units(buf: &[u8], off: usize) -> (r: Vec<u16>)
    ensures
        r@ == wide_units(buf@, off as int, MAX_UNITS as nat),
{
    let mut wide: Vec<u16> = Vec::new();
    let n: usize = buf.len();
    let mut p: usize = off;
    while wide.len() < MAX_UNITS && n >= 2 && p <= n - 2
        invariant_except_break
            n == buf@.len(),
            wide@.len() <= MAX_UNITS,
            wide_units(buf@, off as int, MAX_UNITS as nat) =~= wide@ + wide_units(
                buf@,
                p as int,
                (MAX_UNITS - wide@.len()) as nat,
            ),
        ensures
            wide@ =~= wide_units(buf@, off as int, MAX_UNITS as nat),
        decreases MAX_UNITS - wide@.len(),
    {
        let ch: u16 = buf[p] as u16 + 0x100 * buf[p + 1] as u16;
        if ch == 0 {
            break;
        }
        wide.push(ch);
        p = p + 2;
    }
    wide
}

/// Parses a candidate list into its count, selection, page start, page size and candidates.
pub fn parse_candlist(buf: &[u8]) -> (r: Option<(u32, u32, u32, u32, Vec<String>)>)
    ensures
        r is Some <==> is_candlist(buf@),
        r matches Some(list) ==> {
            &&& list.0 == le_u32(buf@, 0x08)
            &&& list.1 == le_u32(buf@, 0x0C)
            &&& list.2 == le_u32(buf@, 0x10)
            &&& list.3 == le_u32(buf@, 0x14)
            &&& texts(list.4@) == item_texts(buf@)
        },
{
    if buf.len() < HEADER_LEN {
        return None;
    }
    let count: u32 = read_u32(buf, 0x08)?;
    let selection: u32 = read_u32(buf, 0x0C)?;
    let page_start: u32 = read_u32(buf, 0x10)?;
    let page_size: u32 = read_u32(buf, 0x14)?;
    if count == 0 || count > MAX_COUNT {
        return None;
    }
    let visible: usize = if count < 64 { count as usize } else { MAX_ITEMS };
    let mut items: Vec<String> = Vec::new();
    let mut i: usize = 0;
    while i < visible
        invariant_except_break
            i <= visible <= MAX_ITEMS,
            visible == if count < MAX_ITEMS { count as int } else { MAX_ITEMS as int },
            count == le_u32(buf@, 0x08),
            HEADER_LEN <= buf@.len(),
            i <= item_count(buf@),
            texts(items@) =~= item_texts(buf@).take(i as int),
        ensures
            texts(items@) =~= item_texts(buf@),
        decreases visible - i,
    {
        let ghost before = items@;
        match read_u32(buf, HEADER_LEN + i * 4) {
            Some(o) => {
                let off: usize = o as usize;
                if off >= buf.len() {
                    items.push(String::new());
                } else {
                    let wide = read_units(buf, off);
                    items.push(decode_string(wide.as_slice()));
                }
                assert(texts(items@) =~= texts(before).push(item_text(buf@, i as int)));
            },
            None => {
                break;
            },
        }
        i = i + 1;
    }
    Some((count, selection, page_start, page_size, items))
}

/// The block holds the units as a NUL-terminated string from byte `p` on.
pub open spec fn string_at(s: Seq<u8>, p: int, units: Seq<u16>) -> bool {
    &&& 0 <= p
    &&& p + 2 * units.len() + 2 <= s.len()
    &&& forall|k: int| 0 <= k < units.len() ==> #[trigger] units[k] == le_u16(s, p + 2 * k)
    &&& forall|k: int| 0 <= k < units.len() ==> #[trigger] units[k] != 0
    &&& le_u16(s, p + 2 * units.len()) == 0
}

/// A NUL-terminated string that is not longer than the maximum is read as a whole.
proof fn lemma_string_is_read(s: Seq<u8>, p: int, units: Seq<u16>, room: nat)
    requires
        string_at(s, p, units),
        units.len() <= room,
    ensures
        wide_units(s, p, room) == units,
    decreases units.len(),
{
    if units.len() == 0 {
        assert(wide_units(s, p, room) =~= units);
    } else {
        let rest = units.skip(1);
        assert forall|k: int| 0 <= k < rest.len() implies #[trigger] rest[k] == le_u16(
            s,
            p + 2 + 2 * k,
        ) by {
            assert(rest[k] == units[k + 1]);
        }
        assert(forall|k: int| 0 <= k < rest.len() ==> #[trigger] rest[k] == units[k + 1]);
        lemma_string_is_read(s, p + 2, rest, (room - 1) as nat);
        assert(units[0] == le_u16(s, p + 2 * 0));
        assert(wide_units(s, p, room) =~= seq![units[0]] + rest);
        assert(seq![units[0]] + rest =~= units);
    }
}

/// The block is laid out as a list of these candidates: it counts them, has room for their offsets,
/// and holds each of them at its offset.
pub open spec fn lists(s: Seq<u8>, strings: Seq<Seq<u16>>) -> bool {
    &&& 1 <= strings.len() <= MAX_COUNT
    &&& s.len() >= HEADER_LEN + 4 * strings.len()
    &&& le_u32(s, 0x08) == strings.len()
    &&& forall|i: int|
        0 <= i < strings.len() ==> {
            &&& (#[trigger] strings[i]).len() <= MAX_UNITS
            &&& string_at(s, le_u32(s, offset_pos(i)) as int, strings[i])
        }
}

/// What was laid out as a candidate list is read back: the first candidates, up to the number that
/// is kept, come out as their texts and in their order.
pub proof fn law_list_is_read_back(s: Seq<u8>, strings: Seq<Seq<u16>>)
    requires
        lists(s, strings),
    ensures
        is_candlist(s),
        item_texts(s) == Seq::new(
            (if strings.len() < MAX_ITEMS { strings.len() as int } else { MAX_ITEMS as int }) as nat,
            |i: int| text::utf16_lossy(strings[i]),
        ),
{
    let n = if strings.len() < MAX_ITEMS { strings.len() as int } else { MAX_ITEMS as int };
    assert(item_count(s) == n);
    assert forall|i: int| 0 <= i < n implies item_text(s, i) == text::utf16_lossy(
        #[trigger] strings[i],
    ) by {
        lemma_string_is_read(s, le_u32(s, offset_pos(i)) as int, strings[i], MAX_UNITS as nat);
    }
    assert(item_texts(s) =~= Seq::new(n as nat, |i: int| text::utf16_lossy(strings[i])));
}

/// A list of texts is read back as these texts: where the block is laid out as a list of them, each
/// encoded in UTF-16, the first ones, up to the number that is kept, come out as they were.
pub proof fn law_texts_are_read_back(s: Seq<u8>, listed: Seq<Seq<char>>)
    requires
        lists(s, listed.map_values(|t: Seq<char>| text::utf16(t))),
    ensures
        is_candlist(s),
        item_texts(s) == if listed.len() < MAX_ITEMS {
            listed
        } else {
            listed.take(MAX_ITEMS as int)
        },
{
    let strings = listed.map_values(|t: Seq<char>| text::utf16(t));
    law_list_is_read_back(s, strings);
    let n = if listed.len() < MAX_ITEMS {
        listed.len() as int
    } else {
        MAX_ITEMS as int
    };
    assert forall|i: int| 0 <= i < n implies item_texts(s)[i] == listed[i] by {
        text::law_text_is_read_back(listed[i]);
        assert(strings[i] == text::utf16(listed[i]));
    }
    assert(item_texts(s) =~= listed.take(n));
    assert(listed.take(listed.len() as int) =~= listed);
}

/// The units from a byte on depend on nothing that stands before it.
proof fn lemma_units_look_ahead(a: Seq<u8>, b: Seq<u8>, p: int, room: nat)
    requires
        8 <= p,
        a.len() == b.len(),
        forall|k: int| 8 <= k < a.len() ==> #[trigger] a[k] == b[k],
    ensures
        wide_units(a, p, room) == wide_units(b, p, room),
    decreases room,
{
    if room > 0 && p + 2 <= a.len() {
        lemma_units_look_ahead(a, b, p + 2, (room - 1) as nat);
    }
}

/// The first two fields, size and style, have no influence: blocks that differ in them alone are
/// read alike, where no offset points into these fields.
pub proof fn law_size_and_style_are_ignored(a: Seq<u8>, b: Seq<u8>)
    requires
        a.len() == b.len(),
        forall|k: int| 8 <= k < a.len() ==> #[trigger] a[k] == b[k],
        forall|i: int| 0 <= i < item_count(a) ==> 8 <= le_u32(a, #[trigger] offset_pos(i)),
    ensures
        is_candlist(a) <==> is_candlist(b),
        is_candlist(a) ==> {
            &&& le_u32(a, 0x08) == le_u32(b, 0x08)
            &&& le_u32(a, 0x0C) == le_u32(b, 0x0C)
            &&& le_u32(a, 0x10) == le_u32(b, 0x10)
            &&& le_u32(a, 0x14) == le_u32(b, 0x14)
            &&& item_texts(a) == item_texts(b)
        },
{
    if is_candlist(a) {
        assert(item_count(a) == item_count(b));
        assert forall|i: int| 0 <= i < item_count(a) implies item_text(a, i) == item_text(b, i) by {
            let off = le_u32(a, offset_pos(i)) as int;
            assert(off == le_u32(b, offset_pos(i)));
            lemma_units_look_ahead(a, b, off, MAX_UNITS as nat);
        }
        assert(item_texts(a) =~= item_texts(b));
    }
}

/// No more units are read than there is room for.
proof fn lemma_units_are_bounded(s: Seq<u8>, p: int, room: nat)
    ensures
        wide_units(s, p, room).len() <= room,
    decreases room,
{
    if room > 0 {
        lemma_units_are_bounded(s, p + 2, (room - 1) as nat);
    }
}

/// Whatever the block holds, what is read of it stays within the limits on the number of candidates
/// and on the length of each.
pub proof fn law_list_is_bounded(s: Seq<u8>)
    requires
        is_candlist(s),
    ensures
        item_texts(s).len() <= MAX_ITEMS,
        item_texts(s).len() <= le_u32(s, 0x08),
        forall|i: int| 0 <= i < item_texts(s).len() ==> (#[trigger] item_texts(s)[i]).len() <= MAX_UNITS,
{
    assert forall|i: int| 0 <= i < item_texts(s).len() implies (#[trigger] item_texts(s)[i]).len()
        <= MAX_UNITS by {
        let units = wide_units(s, le_u32(s, offset_pos(i)) as int, MAX_UNITS as nat);
        lemma_units_are_bounded(s, le_u32(s, offset_pos(i)) as int, MAX_UNITS as nat);
        text::law_text_is_no_longer(units);
    }
}

/// What the input method shows at one moment: the composition string and the candidates. All
/// indices count from the first of all candidates, over all pages.
#[derive(Clone)]
pub struct ImeState {
    /// The composition string, not committed yet.
    pub composition: String,
    /// How many candidates there are, over all pages.
    pub total: u32,
    /// The index of the selected candidate among all, not within its page.
    pub selection: u32,
    /// The index of the first candidate of the current page.
    pub page_start: u32,
    /// How many candidates a page holds.
    pub page_size: u32,
    /// The candidates that are at hand, in their order.
    pub items: Vec<String>,
    /// The index of the first candidate that is at hand: zero where the list was read from its
    /// start, the start of the page where only the page was read.
    pub first: u32,
}

impl Default for ImeState {
    fn default() -> (r: Self)
        ensures
            r.composition@ == Seq::<char>::empty(),
            r.total == 0 && r.selection == 0 && r.page_start == 0 && r.page_size == 0,
            r.items@ == Seq::<String>::empty(),
            r.first == 0,
    {
        ImeState {
            composition: String::new(),
            total: 0,
            selection: 0,
            page_start: 0,
            page_size: 0,
            items: Vec::new(),
            first: 0,
        }
    }
}

impl ImeState {
    /// Where the current page begins among the candidates that are at hand.
    pub open spec fn page_at(&self) -> int {
        self.page_start - self.first
    }

    /// Where the current page ends among the candidates that are at hand.
    pub open spec fn page_end(&self) -> int {
        if self.page_at() + self.page_size < self.items@.len() {
            self.page_at() + self.page_size
        } else {
            self.items@.len() as int
        }
    }

    /// The candidates of the current page that are at hand; none where the page begins before
    /// these do.
    pub open spec fn page(&self) -> Seq<String> {
        if 0 <= self.page_at() <= self.page_end() {
            self.items@.subrange(self.page_at(), self.page_end())
        } else {
            Seq::empty()
        }
    }

    /// The index within the page of the selected candidate, where it lies on the page.
    pub open spec fn selected(&self) -> Option<int> {
        if self.page_start <= self.selection < self.page_start + self.page_size {
            Some(self.selection - self.page_start)
        } else {
            None
        }
    }

    /// Where the selection does not lie before the page, the end of the page is a number that an
    /// index can hold.
    pub open spec fn page_bounded(&self) -> bool {
        self.selection >= self.page_start ==> self.page_start + self.page_size <= u32::MAX
    }

    /// Whether the end of the page is a number that an index can hold, where the selection does
    /// not lie before the page.
    pub fn page_end_fits(&self) -> (r: bool)
        ensures
            r == self.page_bounded(),
    {
        self.selection < self.page_start || self.page_start.checked_add(self.page_size).is_some()
    }

    /// The candidates of the current page.
    pub fn page_items(&self) -> (r: &[String])
        ensures
            r@ == self.page(),
    {
        let len: usize = self.items.len();
        let known: bool = self.first <= self.page_start;
        let at: u32 = if known { self.page_start - self.first } else { 0 };
        let end: u64 = at as u64 + self.page_size as u64;
        let start: usize = at as usize;
        let end: usize = if end < len as u64 { end as usize } else { len };
        if known && start <= end {
            &self.items[start..end]
        } else {
            let none = &self.items[0..0];
            assert(none@ =~= Seq::<String>::empty());
            none
        }
    }

    /// The index within the page of the selected candidate; `None` where it lies on another page.
    pub fn page_selection(&self) -> (r: Option<usize>)
        requires
            self.page_bounded(),
        ensures
            r == match self.selected() {
                Some(i) => Some(i as usize),
                None => None,
            },
    {
        if self.selection >= self.page_start && self.selection < self.page_start + self.page_size {
            Some((self.selection - self.page_start) as usize)
        } else {
            None
        }
    }
}

/// The index of the selection within the page finds the selected candidate: where the page holds
/// it, it is the candidate that the selection names among all.
pub proof fn law_selected_is_on_page(state: ImeState)
    ensures
        state.selected() matches Some(i) ==> {
            &&& 0 <= i < state.page_size
            &&& i < state.page().len() <==> state.first <= state.page_start && state.selection
                - state.first < state.items@.len()
            &&& i < state.page().len() ==> state.page()[i] == state.items@[state.selection
                - state.first]
        },
{
}

/// The page is a run of the candidates in their order, and no longer than a page is said to be.
pub proof fn law_page_is_a_run(state: ImeState)
    ensures
        state.page().len() <= state.page_size,
        forall|i: int|
            0 <= i < state.page().len() ==> #[trigger] state.page()[i]
                == state.items@[state.page_at() + i],
{
}

/// A composition string of more bytes than this is not read.
pub const MAX_COMPOSITION_BYTES: i32 = 4096;

/// A candidate list of more bytes than this is not read.
pub const MAX_LIST_BYTES: u32 = 32768;

/// How many UTF-16 units to make room for, where the system says that the composition string takes
/// `need` bytes; `None` where the string is not read.
pub fn composition_room(need: i32) -> (r: Option<usize>)
    ensures
        r == if 0 < need <= MAX_COMPOSITION_BYTES {
            Some((need / 2) as usize)
        } else {
            None
        },
{
    if need <= 0 || need > MAX_COMPOSITION_BYTES {
        return None;
    }
    Some(need as usize / 2)
}

/// The composition string, where the system says that it has put `got` bytes of it into `buf`.
pub fn read_composition(buf: &[u16], got: i32) -> (r: String)
    ensures
        r@ == if got <= 0 {
            Seq::empty()
        } else if got / 2 < buf@.len() {
            text::utf16_lossy(buf@.take(got as int / 2))
        } else {
            text::utf16_lossy(buf@)
        },
{
    if got <= 0 {
        return String::new();
    }
    let chars: usize = got as usize / 2;
    let n: usize = if chars < buf.len() { chars } else { buf.len() };
    assert(buf@.subrange(0, n as int) =~= buf@.take(n as int));
    assert(buf@.take(buf@.len() as int) =~= buf@);
    decode_string(&buf[0..n])
}

/// How many bytes to make room for, where the system says that the candidate list takes `need`
/// bytes; `None` where the list is not read.
pub fn list_room(need: u32) -> (r: Option<usize>)
    ensures
        r == if 0 < need <= MAX_LIST_BYTES {
            Some(need as usize)
        } else {
            None
        },
{
    if need == 0 || need > MAX_LIST_BYTES {
        return None;
    }
    Some(need as usize)
}

/// The candidate list in `buf`, where the system says that it has put `got` bytes there.
pub fn read_candidate_list(buf: &[u8], got: u32) -> (r: Option<(u32, u32, u32, u32, Vec<String>)>)
    ensures
        r is Some <==> got != 0 && is_candlist(buf@),
        r matches Some(list) ==> {
            &&& list.0 == le_u32(buf@, 0x08)
            &&& list.1 == le_u32(buf@, 0x0C)
            &&& list.2 == le_u32(buf@, 0x10)
            &&& list.3 == le_u32(buf@, 0x14)
            &&& texts(list.4@) == item_texts(buf@)
        },
{
    if got == 0 {
        return None;
    }
    parse_candlist(buf)
}

/// Puts a composition string and a candidate list together; there is no state without a list.
pub fn fetch_ime_state(
    composition: String,
    list: Option<(u32, u32, u32, u32, Vec<String>)>,
) -> (r: Option<ImeState>)
    ensures
        r == match list {
            Some(l) => Some(
                ImeState {
                    composition,
                    total: l.0,
                    selection: l.1,
                    page_start: l.2,
                    page_size: l.3,
                    items: l.4,
                    first: 0,
                },
            ),
            None => None,
        },
{
    let (total, selection, page_start, page_size, items) = list?;
    Some(ImeState { composition, total, selection, page_start, page_size, items, first: 0 })
}

/// The page is whole: every candidate that is at hand and whose index lies on the page is on it, at
/// its place, and nothing else is. A page that begins before the candidates at hand do is not at
/// hand.
pub proof fn law_page_is_whole(state: ImeState)
    ensures
        state.first <= state.page_start ==> {
            &&& forall|k: int|
                #![trigger state.page()[k - state.page_start]]
                #![trigger state.items@[k - state.first]]
                state.page_start <= k < state.page_start + state.page_size && k < state.first
                    + state.items@.len() ==> k - state.page_start < state.page().len()
                    && state.page()[k - state.page_start] == state.items@[k - state.first]
            &&& state.page().len() <= state.page_size
            &&& state.page().len() > 0 ==> state.page_start + state.page().len() <= state.first
                + state.items@.len()
        },
        state.first > state.page_start ==> state.page().len() == 0,
{
}

/// A place on the page is the selected one exactly where the candidate there has the index that is
/// selected.
pub proof fn law_selected_place(state: ImeState, i: int)
    ensures
        state.selected() == Some(i) <==> 0 <= i < state.page_size && state.page_start + i
            == state.selection,
        state.selected() is None <==> state.selection < state.page_start || state.selection
            >= state.page_start + state.page_size,
{
}

/// The bytes of a number are its digits to the base of 256, the lowest one first.
pub proof fn law_lowest_byte_first(s: Seq<u8>, p: int)
    ensures
        le_u16(s, p) % 0x100 == s[p],
        le_u16(s, p) / 0x100 == s[p + 1],
        le_u32(s, p) % 0x100 == s[p],
        le_u32(s, p) / 0x100 % 0x100 == s[p + 1],
        le_u32(s, p) / 0x1_0000 % 0x100 == s[p + 2],
        le_u32(s, p) / 0x100_0000 == s[p + 3],
{
    let n = s[p] + 0x100 * s[p + 1] + 0x1_0000 * s[p + 2] + 0x100_0000 * s[p + 3];
    assert(le_u32(s, p) == n);
    assert(n / 0x100 == s[p + 1] + 0x100 * s[p + 2] + 0x1_0000 * s[p + 3]);
    assert(n / 0x1_0000 == s[p + 2] + 0x100 * s[p + 3]);
}

/// The units of a string are those that stand in the block from its first byte on, in their order,
/// and they are read as far as they go: they end before a zero unit, before the end of the block,
/// or where there is no more room.
pub proof fn law_units_are_read_to_their_end(s: Seq<u8>, p: int, room: nat)
    ensures
        ({
            let units = wide_units(s, p, room);
            let n = units.len();
            &&& n <= room
            &&& n > 0 ==> p + 2 * n <= s.len()
            &&& forall|k: int|
                0 <= k < n ==> #[trigger] units[k] == s[p + 2 * k] + 0x100 * s[p + 2 * k + 1]
                    && units[k] != 0
            &&& n == room || p + 2 * n + 2 > s.len() || s[p + 2 * n] == 0 && s[p + 2 * n + 1] == 0
        }),
    decreases room,
{
    let units = wide_units(s, p, room);
    if room > 0 && p + 2 <= s.len() && le_u16(s, p) != 0 {
        let rest = wide_units(s, p + 2, (room - 1) as nat);
        law_units_are_read_to_their_end(s, p + 2, (room - 1) as nat);
        assert(units =~= seq![le_u16(s, p)] + rest);
        assert forall|k: int| 0 <= k < units.len() implies #[trigger] units[k] == s[p + 2 * k]
            + 0x100 * s[p + 2 * k + 1] && units[k] != 0 by {
            if k > 0 {
                assert(units[k] == rest[k - 1]);
            }
        }
    }
}

/// A list is read as far as it goes: as many candidates as it counts, but no more than 64 and none
/// whose offset stands behind the end of the block. The text of each is that of the units at its
/// offset, at most 65 of them, and empty where the offset lies behind the end. Only a block that
/// holds the fixed fields, and counts between one and 1024 candidates, is a list.
pub proof fn law_list_is_read_to_its_end(s: Seq<u8>)
    ensures
        is_candlist(s) <==> s.len() >= 24 && 1 <= le_u32(s, 8) <= 1024,
        is_candlist(s) ==> {
            let n = item_texts(s).len();
            &&& n <= le_u32(s, 8) && n <= 64 && 24 + 4 * n <= s.len()
            &&& n == le_u32(s, 8) || n == 64 || 24 + 4 * (n + 1) > s.len()
            &&& forall|i: int|
                0 <= i < n ==> #[trigger] item_texts(s)[i] == if le_u32(s, 24 + 4 * i) >= s.len() {
                    Seq::<char>::empty()
                } else {
                    text::utf16_lossy(wide_units(s, le_u32(s, 24 + 4 * i) as int, 65))
                }
        },
{
}

/// The texts of a list of strings are the whole texts of its strings, one by one.
pub proof fn law_texts_are_whole(items: Seq<String>)
    ensures
        texts(items).len() == items.len(),
        forall|i: int| 0 <= i < items.len() ==> #[trigger] texts(items)[i] == items[i]@,
{
}

/// The end of the page matters only where the selection does not lie before the page; there it has
/// to fit into 32 bits.
pub proof fn law_page_end_that_fits(state: ImeState)
    ensures
        state.page_bounded() <==> state.selection < state.page_start || state.page_start
            + state.page_size <= 0xFFFF_FFFF,
{
}

} // verus!
