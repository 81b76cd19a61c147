//! UTF-16 text as the window manager and the input method hand it out, and the few string
//! questions that are asked of it.

use vstd::prelude::*;

verus! {

/// The character that stands in for an unpaired surrogate.
pub const REPLACEMENT: char = '\u{FFFD}';

/// A unit that opens a surrogate pair.
pub open spec fn is_high_surrogate(u: u16) -> bool {
    0xD800 <= u <= 0xDBFF
}

/// A unit that closes a surrogate pair.
pub open spec fn is_low_surrogate(u: u16) -> bool {
    0xDC00 <= u <= 0xDFFF
}

/// The character that a surrogate pair encodes.
pub open spec fn pair_char(hi: u16, lo: u16) -> char {
    (0x10000 + (hi - 0xD800) * 0x400 + (lo - 0xDC00)) as char
}

/// The text of a run of UTF-16 units: a surrogate pair is one character, any other surrogate is
/// the replacement character, and every other unit is the character of that number.
pub open spec fn utf16_lossy(units: Seq<u16>) -> Seq<char>
    decreases units.len(),
{
    if units.len() == 0 {
        Seq::empty()
    } else if is_high_surrogate(units[0]) && units.len() >= 2 && is_low_surrogate(units[1]) {
        seq![pair_char(units[0], units[1])] + utf16_lossy(units.skip(2))
    } else if is_high_surrogate(units[0]) || is_low_surrogate(units[0]) {
        seq![REPLACEMENT] + utf16_lossy(units.skip(1))
    } else {
        seq![units[0] as char] + utf16_lossy(units.skip(1))
    }
}

/// `char::from_u32`: a number is turned into the character of that number where it is a Unicode
/// scalar value, that is at most 0x10FFFF and no surrogate, and into `None` elsewhere.
pub assume_specification[ char::from_u32 ](i: u32) -> (r: Option<char>)
    ensures
        r == if i <= 0xD7FF || 0xE000 <= i <= 0x10FFFF {
            Some(i as char)
        } else {
            None
        },
;

/// `String::push`: the character is appended to the end of the string.
pub assume_specification[ String::push ](s: &mut String, ch: char)
    ensures
        final(s)@ == old(s)@.push(ch),
;

/// Decodes UTF-16 units to characters, with the replacement character for each unpaired
/// surrogate.
pub fn decode_chars(units: &[u16]) -> (r: Vec<char>)
    ensures
        r@ == utf16_lossy(units@),
{
    let mut out: Vec<char> = Vec::new();
    let n: usize = units.len();
    let mut i: usize = 0;
    assert(units@.skip(0) =~= units@);
    while i < n
        invariant
            n == units@.len(),
            i <= n,
            utf16_lossy(units@) =~= out@ + utf16_lossy(units@.skip(i as int)),
        decreases n - i,
    {
        let u: u16 = units[i];
        let ghost rest = units@.skip(i as int);
        assert(rest.skip(1) =~= units@.skip(i + 1));
        if u >= 0xD800 && u <= 0xDBFF && n - i >= 2 && units[i + 1] >= 0xDC00 && units[i + 1] <= 0xDFFF {
            assert(rest.skip(2) =~= units@.skip(i + 2));
            let code: u32 = 0x10000 + (u as u32 - 0xD800) * 0x400 + (units[i + 1] as u32 - 0xDC00);
            match char::from_u32(code) {
                Some(c) => out.push(c),
                None => {},
            }
            i = i + 2;
        } else {
            if u >= 0xD800 && u <= 0xDFFF {
                out.push(REPLACEMENT);
            } else {
                match char::from_u32(u as u32) {
                    Some(c) => out.push(c),
                    None => {},
                }
            }
            i = i + 1;
        }
    }
    out
}

/// Collects characters into a string.
pub fn string_of(chars: &[char]) -> (r: String)
    ensures
        r@ == chars@,
{
    let mut s = String::new();
    let n: usize = chars.len();
    let mut i: usize = 0;
    while i < n
        invariant
            n == chars@.len(),
            i <= n,
            s@ =~= chars@.take(i as int),
        decreases n - i,
    {
        s.push(chars[i]);
        i = i + 1;
    }
    s
}

/// Decodes UTF-16 units to a string, with the replacement character for each unpaired surrogate.
pub fn decode_string(units: &[u16]) -> (r: String)
    ensures
        r@ == utf16_lossy(units@),
{
    let chars = decode_chars(units);
    string_of(chars.as_slice())
}

/// A character with the ASCII capital letters made small.
pub open spec fn ascii_lower(c: char) -> char {
    if 'A' <= c <= 'Z' {
        (c as u32 + 32) as char
    } else {
        c
    }
}

/// A text with the ASCII capital letters made small.
pub open spec fn lower(text: Seq<char>) -> Seq<char> {
    text.map_values(|c: char| ascii_lower(c))
}

/// The part stands somewhere in the text.
pub open spec fn holds(text: Seq<char>, part: Seq<char>) -> bool {
    exists|i: int| stands_at(text, part, i)
}

/// The part stands in the text from position `i` on.
pub open spec fn stands_at(text: Seq<char>, part: Seq<char>, i: int) -> bool {
    0 <= i <= text.len() - part.len() && text.subrange(i, i + part.len()) == part
}

/// The text ends with the part.
pub open spec fn ends(text: Seq<char>, part: Seq<char>) -> bool {
    stands_at(text, part, text.len() - part.len())
}

/// What stands behind the last backslash of a path; all of it where there is none.
pub open spec fn file_name(path: Seq<char>) -> Seq<char>
    decreases path.len(),
{
    if path.len() == 0 || path.last() == '\\' {
        Seq::empty()
    } else {
        file_name(path.drop_last()).push(path.last())
    }
}

/// Makes the ASCII capital letters small.
pub fn to_ascii_lower(text: &[char]) -> (r: Vec<char>)
    ensures
        r@ == lower(text@),
{
    let mut out: Vec<char> = Vec::new();
    let n: usize = text.len();
    let mut i: usize = 0;
    while i < n
        invariant
            n == text@.len(),
            i <= n,
            out@ =~= lower(text@.take(i as int)),
        decreases n - i,
    {
        let c: char = text[i];
        let d: char = if 'A' <= c && c <= 'Z' {
            ((c as u8) + 32) as char
        } else {
            c
        };
        out.push(d);
        i = i + 1;
    }
    assert(text@.take(n as int) =~= text@);
    out
}

/// The characters of a string.
pub fn chars_of(text: &str) -> (r: Vec<char>)
    ensures
        r@ == text@,
{
    let mut out: Vec<char> = Vec::new();
    let n: usize = text.unicode_len();
    let mut i: usize = 0;
    while i < n
        invariant
            n == text@.len(),
            i <= n,
            out@ =~= text@.take(i as int),
        decreases n - i,
    {
        out.push(text.get_char(i));
        i = i + 1;
    }
    out
}

/// Whether the part stands in the text from position `at` on.
fn part_at(text: &[char], part: &[char], at: usize) -> (r: bool)
    requires
        at + part@.len() <= text@.len(),
    ensures
        r == stands_at(text@, part@, at as int),
{
    let n: usize = part.len();
    let m: usize = text.len();
    let mut i: usize = 0;
    while i < n
        invariant
            n == part@.len(),
            m == text@.len(),
            i <= n,
            at + n <= m,
            forall|k: int| 0 <= k < i ==> text@[at + k] == part@[k],
        decreases n - i,
    {
        if text[at + i] != part[i] {
            assert(text@.subrange(at as int, at + n)[i as int] != part@[i as int]);
            return false;
        }
        i = i + 1;
    }
    assert(text@.subrange(at as int, at + n) =~= part@);
    true
}

/// Whether the part stands somewhere in the text.
pub fn contains(text: &[char], part: &str) -> (r: bool)
    ensures
        r == holds(text@, part@),
{
    let wanted = chars_of(part);
    if wanted.len() > text.len() {
        return false;
    }
    let last: usize = text.len() - wanted.len();
    let mut i: usize = 0;
    loop
        invariant
            wanted@ == part@,
            last == text@.len() - part@.len(),
            i <= last,
            forall|k: int| 0 <= k < i ==> !stands_at(text@, part@, k),
        decreases last - i,
    {
        if part_at(text, wanted.as_slice(), i) {
            return true;
        }
        if i == last {
            return false;
        }
        i = i + 1;
    }
}

/// Whether the text ends with the part.
pub fn ends_with(text: &[char], part: &str) -> (r: bool)
    ensures
        r == ends(text@, part@),
{
    let wanted = chars_of(part);
    if wanted.len() > text.len() {
        return false;
    }
    part_at(text, wanted.as_slice(), text.len() - wanted.len())
}

/// A file name is what is left of the path when a head that is empty or ends with a backslash is
/// taken off, and there is no backslash in it.
pub proof fn law_file_name(path: Seq<char>)
    ensures
        file_name(path).len() <= path.len(),
        file_name(path) == path.skip(path.len() - file_name(path).len()),
        !file_name(path).contains('\\'),
        file_name(path).len() < path.len() ==> path[path.len() - file_name(path).len() - 1] == '\\',
    decreases path.len(),
{
    if path.len() > 0 && path.last() != '\\' {
        let head = path.drop_last();
        law_file_name(head);
        let name = file_name(path);
        assert(name =~= path.skip(path.len() - name.len())) by {
            assert(head.skip(head.len() - file_name(head).len()).push(path.last()) =~= path.skip(
                path.len() - name.len(),
            ));
        }
        assert forall|k: int| 0 <= k < name.len() implies name[k] != '\\' by {
            if k < file_name(head).len() {
                assert(name[k] == file_name(head)[k]);
                assert(file_name(head).contains(file_name(head)[k]));
            }
        }
    } else {
        assert(file_name(path) =~= path.skip(path.len() as int));
    }
}

/// What stands behind the last backslash of a path.
pub fn base_name(path: &[char]) -> (r: Vec<char>)
    ensures
        r@ == file_name(path@),
{
    let n: usize = path.len();
    let mut start: usize = n;
    assert(path@.take(n as int) =~= path@);
    assert(file_name(path@) =~= file_name(path@) + path@.skip(n as int));
    while start > 0 && path[start - 1] != '\\'
        invariant
            n == path@.len(),
            start <= n,
            file_name(path@) =~= file_name(path@.take(start as int)) + path@.skip(start as int),
        decreases start,
    {
        let ghost head = path@.take(start as int);
        assert(head.drop_last() =~= path@.take(start - 1));
        start = start - 1;
        assert(path@.skip(start as int) =~= seq![path@[start as int]] + path@.skip(start + 1));
        assert(file_name(head) =~= file_name(path@.take(start as int)).push(path@[start as int]));
    }
    let mut out: Vec<char> = Vec::new();
    let mut i: usize = start;
    while i < n
        invariant
            n == path@.len(),
            start <= i <= n,
            out@ =~= path@.subrange(start as int, i as int),
        decreases n - i,
    {
        out.push(path[i]);
        i = i + 1;
    }
    assert(out@ =~= path@.skip(start as int));
    assert(start > 0 ==> path@.take(start as int).last() == path@[start - 1]);
    out
}

/// A text has no more characters than it has units.
pub proof fn law_text_is_no_longer(units: Seq<u16>)
    ensures
        utf16_lossy(units).len() <= units.len(),
    decreases units.len(),
{
    if units.len() > 0 {
        law_text_is_no_longer(units.skip(1));
        if units.len() > 1 {
            law_text_is_no_longer(units.skip(2));
        }
    }
}

/// A run of units without a surrogate decodes unit by unit.
pub proof fn law_plain_units_decode(units: Seq<u16>)
    requires
        forall|i: int|
            0 <= i < units.len() ==> !is_high_surrogate(#[trigger] units[i]) && !is_low_surrogate(
                units[i],
            ),
    ensures
        utf16_lossy(units) == Seq::new(units.len(), |i: int| units[i] as char),
    decreases units.len(),
{
    if units.len() > 0 {
        law_plain_units_decode(units.skip(1));
        assert(utf16_lossy(units) =~= Seq::new(units.len(), |i: int| units[i] as char));
    } else {
        assert(utf16_lossy(units) =~= Seq::new(units.len(), |i: int| units[i] as char));
    }
}

/// The UTF-16 units of a character: one, or a surrogate pair where one does not hold it.
pub open spec fn units_of(c: char) -> Seq<u16> {
    let n = c as u32;
    if n < 0x10000 {
        seq![n as u16]
    } else {
        seq![(0xD800 + (n - 0x10000) / 0x400) as u16, (0xDC00 + (n - 0x10000) % 0x400) as u16]
    }
}

/// The UTF-16 units of a text.
pub open spec fn utf16(text: Seq<char>) -> Seq<u16>
    decreases text.len(),
{
    if text.len() == 0 {
        Seq::empty()
    } else {
        units_of(text[0]) + utf16(text.skip(1))
    }
}

/// The units of a character stand for it: a pair where there are two, and no surrogate where there
/// is one.
proof fn lemma_units_of(c: char)
    ensures
        ({
            let units = units_of(c);
            if (c as u32) < 0x10000 {
                &&& units.len() == 1
                &&& !is_high_surrogate(units[0]) && !is_low_surrogate(units[0])
                &&& units[0] as char == c
            } else {
                &&& units.len() == 2
                &&& is_high_surrogate(units[0]) && is_low_surrogate(units[1])
                &&& pair_char(units[0], units[1]) == c
            }
        }),
{
}

/// A text that was encoded is decoded again as it was.
pub proof fn law_text_is_read_back(text: Seq<char>)
    ensures
        utf16_lossy(utf16(text)) == text,
    decreases text.len(),
{
    if text.len() > 0 {
        let rest = text.skip(1);
        let head = units_of(text[0]);
        let all = utf16(text);
        law_text_is_read_back(rest);
        lemma_units_of(text[0]);
        assert(all.skip(head.len() as int) =~= utf16(rest));
        assert(forall|k: int| 0 <= k < head.len() ==> all[k] == head[k]);
        assert(utf16_lossy(all) =~= seq![text[0]] + rest);
        assert(seq![text[0]] + rest =~= text);
    }
}

/// A part stands in a text exactly where the text is that part with something before and behind it,
/// and a text ends with it exactly where nothing is behind it.
pub proof fn law_part_stands_in_text(text: Seq<char>, part: Seq<char>)
    ensures
        holds(text, part) <==> exists|head: Seq<char>, tail: Seq<char>|
            text == #[trigger] (head + part + tail),
        ends(text, part) <==> exists|head: Seq<char>| text == #[trigger] (head + part),
{
    if holds(text, part) {
        let i = choose|i: int| stands_at(text, part, i);
        let head = text.take(i);
        let tail = text.skip(i + part.len());
        assert(text =~= head + part + tail) by {
            assert(forall|k: int|
                0 <= k < part.len() ==> #[trigger] part[k] == text[i + k]);
        }
    }
    if exists|head: Seq<char>, tail: Seq<char>| text == #[trigger] (head + part + tail) {
        let (head, tail) = choose|head: Seq<char>, tail: Seq<char>|
            text == #[trigger] (head + part + tail);
        assert(text.subrange(head.len() as int, (head.len() + part.len()) as int) =~= part);
        assert(stands_at(text, part, head.len() as int));
    }
    let at = text.len() - part.len();
    if ends(text, part) {
        assert(text =~= text.take(at) + part) by {
            assert(forall|k: int|
                0 <= k < part.len() ==> #[trigger] part[k] == text[at + k]);
        }
    }
    if exists|head: Seq<char>| text == #[trigger] (head + part) {
        let head = choose|head: Seq<char>| text == #[trigger] (head + part);
        assert(text.subrange(at, at + part.len()) =~= part);
    }
}

/// Making letters small changes the capital letters `A` to `Z`, each into the small letter of its
/// own, and nothing else.
pub proof fn law_small_letters(text: Seq<char>, i: int)
    requires
        0 <= i < text.len(),
    ensures
        lower(text).len() == text.len(),
        lower(text)[i] as u32 == if 0x41 <= text[i] as u32 <= 0x5A {
            text[i] as u32 + 0x20
        } else {
            text[i] as u32 as int
        },
{
}

/// A text is decoded piece by piece: wherever the units are cut, unless the cut parts the two units
/// of a pair, the text is that of both pieces together. A single unit is the character of its
/// number, or the replacement character where it is a surrogate; a pair is one character, whose
/// number has ten bits from each of its units.
pub proof fn law_text_is_decoded_piece_by_piece(a: Seq<u16>, b: Seq<u16>, hi: u16, lo: u16, u: u16)
    ensures
        !(a.len() > 0 && b.len() > 0 && 0xD800 <= a.last() <= 0xDBFF && 0xDC00 <= b[0] <= 0xDFFF)
            ==> utf16_lossy(a + b) == utf16_lossy(a) + utf16_lossy(b),
        0xD800 <= u <= 0xDFFF ==> utf16_lossy(seq![u]) == seq!['\u{FFFD}'],
        !(0xD800 <= u <= 0xDFFF) ==> utf16_lossy(seq![u]) == seq![u as char],
        0xD800 <= hi <= 0xDBFF && 0xDC00 <= lo <= 0xDFFF ==> utf16_lossy(seq![hi, lo]) == seq![
            (0x1_0000 + 0x400 * (hi - 0xD800) + (lo - 0xDC00)) as char,
        ],
        utf16_lossy(Seq::empty()) == Seq::<char>::empty(),
{
    reveal_with_fuel(utf16_lossy, 2);
    assert(seq![u].skip(1) =~= Seq::<u16>::empty());
    assert(seq![hi, lo].skip(2) =~= Seq::<u16>::empty());
    if !(a.len() > 0 && b.len() > 0 && is_high_surrogate(a.last()) && is_low_surrogate(b[0])) {
        lemma_pieces(a, b);
    }
}

/// The text of two pieces that do not part a pair.
proof fn lemma_pieces(a: Seq<u16>, b: Seq<u16>)
    requires
        !(a.len() > 0 && b.len() > 0 && is_high_surrogate(a.last()) && is_low_surrogate(b[0])),
    ensures
        utf16_lossy(a + b) == utf16_lossy(a) + utf16_lossy(b),
    decreases a.len(),
{
    if a.len() == 0 {
        assert(a + b =~= b);
        assert(utf16_lossy(a) + utf16_lossy(b) =~= utf16_lossy(b));
    } else {
        let all = a + b;
        assert(all.skip(1) =~= a.skip(1) + b);
        lemma_pieces(a.skip(1), b);
        if a.len() >= 2 {
            assert(all.skip(2) =~= a.skip(2) + b);
            lemma_pieces(a.skip(2), b);
        }
        assert(utf16_lossy(all) =~= utf16_lossy(a) + utf16_lossy(b));
    }
}

} // verus!
