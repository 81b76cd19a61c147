//! The hooks on window creation and class registration.
//!
//! A hooked function starts with the five-byte prologue that the system leaves for hot patching.
//! That prologue is replaced by a jump to the hook, after it has been copied to a trampoline that
//! goes on behind it.

use crate::calls::{self, CallSequence, Reply, Resource};
use crate::candidates;
use crate::dbg::{self, Line};
use crate::report::module_told;
use crate::subclass::{is_subclassed_lunicode_edit, Subclasses};
use crate::text::{
    self, base_name, chars_of, contains, decode_chars, ends_with, string_of, to_ascii_lower,
};
use std::collections::HashMap;
use vstd::multiset::Multiset;
use vstd::prelude::*;

verus! {

broadcast use vstd::std_specs::hash::group_hash_axioms;

/// Class style: each window has a device context of its own.
pub const CS_OWNDC: u32 = 0x0020;

/// Class style: the windows of the class share one device context.
pub const CS_CLASSDC: u32 = 0x0040;

/// The class of the edit controls that are looked after.
pub const TARGET_CLASS: &'static str = "LUnicodeEdit";

/// Where an address is below this, it is no address but the number of an atom.
pub const ATOM_LIMIT: usize = 0x1_0000;

/// The extended style that an edit control is created with, where it was asked for with `ex_style`.
pub fn patched_lunicodeedit_ex_style(ex_style: u32) -> (r: u32)
    ensures
        r == ex_style,
{
    ex_style
}

/// The style that the class of the edit controls is registered with, where it was asked for with
/// `style`.
pub fn patched_lunicodeedit_class_style(style: u32) -> (r: u32)
    ensures
        r == style,
{
    style
}

/// The NUL-terminated name is that of the target class, but for the case of its letters.
pub open spec fn names_target(name: Seq<int>) -> bool {
    let target = TARGET_CLASS@;
    &&& name.len() > target.len()
    &&& name[target.len() as int] == 0
    &&& forall|i: int|
        0 <= i < target.len() ==> 0 <= #[trigger] name[i] <= 0x7F && text::ascii_lower(name[i] as char)
            == text::ascii_lower(target[i])
}

/// Whether a class name, given up to its NUL, is that of the target class.
pub fn class_matches_a(name: &[u8]) -> (r: bool)
    ensures
        r == names_target(name@.map_values(|c: u8| c as int)),
{
    let target = to_ascii_lower(chars_of(TARGET_CLASS).as_slice());
    let ghost codes = name@.map_values(|c: u8| c as int);
    let n: usize = target.len();
    if name.len() <= n {
        return false;
    }
    let mut i: usize = 0;
    while i < n
        invariant
            n == target@.len(),
            n < name@.len(),
            target@ == text::lower(TARGET_CLASS@),
            codes == name@.map_values(|c: u8| c as int),
            forall|k: int|
                0 <= k < i ==> 0 <= #[trigger] codes[k] <= 0x7F && text::ascii_lower(codes[k] as char)
                    == target@[k],
        decreases n - i,
    {
        let c: u8 = name[i];
        assert(codes[i as int] == c);
        if c > 0x7F || lower_byte(c) != target[i] {
            return false;
        }
        i = i + 1;
    }
    assert(codes[n as int] == name@[n as int]);
    name[n] == 0
}

/// Whether a class name of 16-bit units, given up to its NUL, is that of the target class.
pub fn class_matches_w(name: &[u16]) -> (r: bool)
    ensures
        r == names_target(name@.map_values(|c: u16| c as int)),
{
    let target = to_ascii_lower(chars_of(TARGET_CLASS).as_slice());
    let ghost codes = name@.map_values(|c: u16| c as int);
    let n: usize = target.len();
    if name.len() <= n {
        return false;
    }
    let mut i: usize = 0;
    while i < n
        invariant
            n == target@.len(),
            n < name@.len(),
            target@ == text::lower(TARGET_CLASS@),
            codes == name@.map_values(|c: u16| c as int),
            forall|k: int|
                0 <= k < i ==> 0 <= #[trigger] codes[k] <= 0x7F && text::ascii_lower(codes[k] as char)
                    == target@[k],
        decreases n - i,
    {
        let c: u16 = name[i];
        assert(codes[i as int] == c);
        if c > 0x7F || lower_byte(c as u8) != target[i] {
            return false;
        }
        i = i + 1;
    }
    assert(codes[n as int] == name@[n as int]);
    name[n] == 0
}

/// The character of an ASCII byte, a capital letter made small.
fn lower_byte(c: u8) -> (r: char)
    requires
        c <= 0x7F,
    ensures
        r == text::ascii_lower(c as char),
{
    if 0x41 <= c && c <= 0x5A {
        (c + 32) as char
    } else {
        c as char
    }
}

/// Whether what stands in place of a pointer to a class name is the number of an atom.
pub fn class_name_is_atom(address: usize) -> (r: bool)
    ensures
        r == (address < ATOM_LIMIT),
{
    address < ATOM_LIMIT
}

/// The address of the page that an address lies in.
pub open spec fn page_of(address: usize) -> usize {
    (address - address % 0x1000) as usize
}

/// A module of this file name belongs to an input method or to the text services.
pub open spec fn is_ime_module(name: Seq<char>) -> bool {
    ||| text::holds(name, "msctf"@)
    ||| text::holds(name, "imm32"@)
    ||| text::holds(name, "ctfime"@)
    ||| text::ends(name, ".ime"@)
    ||| text::holds(name, "textinput"@)
    ||| text::holds(name, "input.dll"@)
}

/// The module of this path belongs to an input method or to the text services.
pub open spec fn is_ime_path(path: Seq<u16>) -> bool {
    path.len() > 0 && is_ime_module(text::file_name(text::lower(text::utf16_lossy(path))))
}

/// Whether the module of this path, given in UTF-16 units, belongs to an input method or to the
/// text services.
pub fn module_is_ime(path: &[u16]) -> (r: bool)
    ensures
        r == is_ime_path(path@),
{
    if path.len() == 0 {
        return false;
    }
    let chars = decode_chars(path);
    let small = to_ascii_lower(chars.as_slice());
    let name = base_name(small.as_slice());
    contains(name.as_slice(), "msctf") || contains(name.as_slice(), "imm32") || contains(
        name.as_slice(),
        "ctfime",
    ) || ends_with(name.as_slice(), ".ime") || contains(name.as_slice(), "textinput") || contains(
        name.as_slice(),
        "input.dll",
    )
}

/// Which callers, by the page of their return address, are told the plain class name of an edit
/// control.
pub struct CallerCache {
    pages: HashMap<usize, bool>,
}

impl View for CallerCache {
    type V = Map<usize, bool>;

    closed spec fn view(&self) -> Map<usize, bool> {
        self.pages@
    }
}

impl CallerCache {
    /// A cache that knows of no page.
    pub fn new() -> (r: Self)
        ensures
            r@ == Map::<usize, bool>::empty(),
    {
        CallerCache { pages: HashMap::new() }
    }

    /// The page that an address lies in.
    fn page(address: usize) -> (r: usize)
        ensures
            r == page_of(address),
    {
        address - address % 0x1000
    }

    /// What is known of the page of a return address.
    pub fn known(&self, ret_addr: usize) -> (r: Option<bool>)
        ensures
            r == if self@.dom().contains(page_of(ret_addr)) {
                Some(self@[page_of(ret_addr)])
            } else {
                None
            },
    {
        match self.pages.get(&Self::page(ret_addr)) {
            Some(b) => Some(*b),
            None => None,
        }
    }
}

/// The caller at a return address is told the plain class name of an edit control: what is known of
/// its page decides, or the path of its module where nothing is.
pub open spec fn is_lied_to(
    cache: Map<usize, bool>,
    ret_addr: usize,
    module: Option<&[u16]>,
) -> bool {
    if cache.dom().contains(page_of(ret_addr)) {
        cache[page_of(ret_addr)]
    } else {
        module matches Some(path) && is_ime_path(path@)
    }
}

/// Whether the caller at a return address is told the plain class name of an edit control. What is
/// known of its page decides; where nothing is, the path of its module does, and is remembered for
/// the page. An address in no module has no path.
pub fn caller_should_be_lied_to(
    cache: &mut CallerCache,
    ret_addr: usize,
    module: Option<&[u16]>,
) -> (r: bool)
    ensures
        r == is_lied_to(old(cache)@, ret_addr, module),
        final(cache)@ == old(cache)@.insert(page_of(ret_addr), r),
{
    match cache.known(ret_addr) {
        Some(b) => {
            assert(cache@ =~= cache@.insert(page_of(ret_addr), b));
            b
        },
        None => {
            let lie: bool = match module {
                Some(path) => module_is_ime(path),
                None => false,
            };
            cache.pages.insert(CallerCache::page(ret_addr), lie);
            lie
        },
    }
}

/// How many units of a class name are written, its NUL counted, into a buffer of `max` units.
pub open spec fn lie_len(null: bool, max: i32) -> int {
    if null || max <= 0 {
        0
    } else if max < 5 {
        max as int
    } else {
        5
    }
}

/// Unit `i` of the plain class name of an edit control, cut to `len` units with a NUL at the end.
pub open spec fn lie_unit(len: int, i: int) -> int {
    if i < len - 1 {
        "Edit"@[i] as int
    } else {
        0
    }
}

/// The length that is reported for a class name written into a buffer of `max` units.
pub open spec fn lie_reported(null: bool, max: i32) -> int {
    if lie_len(null, max) == 0 {
        0
    } else {
        lie_len(null, max) - 1
    }
}

/// The units to be written for a class name into a buffer of `max` units, and the length to be
/// reported: the plain name of an edit control, cut to the buffer and closed by a NUL. Nothing is
/// written where the buffer is null or has no room.
pub fn write_edit_lie_w(null: bool, max: i32) -> (r: (Vec<u16>, i32))
    ensures
        r.0@.len() == lie_len(null, max),
        forall|i: int| 0 <= i < r.0@.len() ==> r.0@[i] == lie_unit(lie_len(null, max), i),
        r.1 == lie_reported(null, max),
{
    let mut out: Vec<u16> = Vec::new();
    if null || max <= 0 {
        return (out, 0);
    }
    proof {
        reveal_strlit("Edit");
    }
    let n: i32 = if max < 5 { max } else { 5 };
    if n > 1 {
        out.push(0x45);
    }
    if n > 2 {
        out.push(0x64);
    }
    if n > 3 {
        out.push(0x69);
    }
    if n > 4 {
        out.push(0x74);
    }
    out.push(0);
    (out, n - 1)
}

/// The bytes to be written for a class name into a buffer of `max` bytes, and the length to be
/// reported: the plain name of an edit control, cut to the buffer and closed by a NUL. Nothing is
/// written where the buffer is null or has no room.
pub fn write_edit_lie_a(null: bool, max: i32) -> (r: (Vec<u8>, i32))
    ensures
        r.0@.len() == lie_len(null, max),
        forall|i: int| 0 <= i < r.0@.len() ==> r.0@[i] == lie_unit(lie_len(null, max), i),
        r.1 == lie_reported(null, max),
{
    let (units, written) = write_edit_lie_w(null, max);
    proof {
        reveal_strlit("Edit");
    }
    let mut out: Vec<u8> = Vec::new();
    let n: usize = units.len();
    let mut i: usize = 0;
    while i < n
        invariant
            n == units@.len(),
            i <= n,
            out@.len() == i,
            forall|k: int| 0 <= k < n ==> #[trigger] units@[k] <= 0x7F,
            forall|k: int| 0 <= k < i ==> out@[k] == units@[k],
        decreases n - i,
    {
        out.push(units[i] as u8);
        i = i + 1;
    }
    (out, written)
}

/// The length of the prologue that is replaced, and of the jump in its place.
pub const PATCH_LEN: usize = 5;

/// The length of the memory that a trampoline is given.
pub const TRAMPOLINE_LEN: usize = 32;

/// Memory is reserved and committed at once.
pub const RESERVE_AND_COMMIT: u32 = 0x3000;

/// Memory can be read, written and executed.
pub const EXECUTE_READ_WRITE: u32 = 0x40;

/// A request for memory.
#[derive(Clone, Copy, Debug, PartialEq, Eq, Structural)]
pub struct MemoryRequest {
    /// How many bytes.
    pub len: usize,
    /// How it is allocated.
    pub allocation: u32,
    /// What may be done with it.
    pub protection: u32,
}

/// The memory that a trampoline is given.
pub open spec fn trampoline_memory() -> MemoryRequest {
    MemoryRequest {
        len: TRAMPOLINE_LEN,
        allocation: RESERVE_AND_COMMIT,
        protection: EXECUTE_READ_WRITE,
    }
}

/// The prologue that the system leaves for hot patching: `mov edi, edi; push ebp; mov ebp, esp`.
pub open spec fn hot_patch_prologue() -> Seq<u8> {
    seq![0x8Bu8, 0xFFu8, 0x55u8, 0x8Bu8, 0xECu8]
}

/// Whether a function starts with the prologue that the system leaves for hot patching.
pub fn is_hot_patchable(prologue: [u8; 5]) -> (r: bool)
    ensures
        r == (prologue@ == hot_patch_prologue()),
{
    let r: bool = prologue[0] == 0x8B && prologue[1] == 0xFF && prologue[2] == 0x55 && prologue[3]
        == 0x8B && prologue[4] == 0xEC;
    proof {
        if r {
            assert(prologue@ =~= hot_patch_prologue());
        }
    }
    r
}

/// The code starts with a relative jump.
pub open spec fn is_jump(code: Seq<u8>) -> bool {
    code.len() >= 5 && code[0] == 0xE9
}

/// Where the relative jump in a piece of code leads that stands at `address`: its displacement
/// counts from the instruction behind it, and addresses have 32 bits.
pub open spec fn jump_target(code: Seq<u8>, address: int) -> int {
    (address + 5 + candidates::le_u32(code, 1)) % 0x1_0000_0000
}

/// A displacement that is the distance between two addresses leads from one to the other.
proof fn lemma_displacement(from: u32, to: u32, next: u32, rel: u32)
    requires
        next == (from + 5) % 0x1_0000_0000,
        rel == (to - next) % 0x1_0000_0000,
    ensures
        (from + 5 + rel) % 0x1_0000_0000 == to,
{
    assert(next == from + 5 || next == from + 5 - 0x1_0000_0000);
    assert(rel == to - next || rel == to - next + 0x1_0000_0000);
}

/// The four bytes of a number put together again give the number.
proof fn lemma_bytes(code: Seq<u8>, n: u32)
    requires
        code.len() == 5,
        code[1] == n % 0x100,
        code[2] == n / 0x100 % 0x100,
        code[3] == n / 0x1_0000 % 0x100,
        code[4] == n / 0x100_0000,
    ensures
        candidates::le_u32(code, 1) == n,
{
}

/// A jump that stands at `from` and leads to `to`.
pub fn jump_code(from: u32, to: u32) -> (r: [u8; 5])
    ensures
        is_jump(r@),
        jump_target(r@, from as int) == to,
{
    let next: u32 = from.wrapping_add(5);
    let rel: u32 = to.wrapping_sub(next);
    let b0: u8 = (rel % 0x100) as u8;
    let b1: u8 = (rel / 0x100 % 0x100) as u8;
    let b2: u8 = (rel / 0x1_0000 % 0x100) as u8;
    let b3: u8 = (rel / 0x100_0000) as u8;
    let code: [u8; 5] = [0xE9u8, b0, b1, b2, b3];
    proof {
        lemma_bytes(code@, rel);
        lemma_displacement(from, to, next, rel);
    }
    code
}

/// The trampoline of a hooked function: its prologue, and a jump to what follows the prologue.
pub fn trampoline_code(prologue: [u8; 5], target: u32, trampoline: u32) -> (r: [u8; 10])
    ensures
        r@.take(5) == prologue@,
        is_jump(r@.skip(5)),
        jump_target(r@.skip(5), trampoline + 5) == (target + 5) % 0x1_0000_0000,
        r@.len() <= TRAMPOLINE_LEN,
{
    let jump = jump_code(trampoline.wrapping_add(5), target.wrapping_add(5));
    let code: [u8; 10] = [
        prologue[0],
        prologue[1],
        prologue[2],
        prologue[3],
        prologue[4],
        jump[0],
        jump[1],
        jump[2],
        jump[3],
        jump[4],
    ];
    assert(code@.take(5) =~= prologue@);
    assert(code@.skip(5) =~= jump@);
    code
}

/// The lowest digit of a number and what stands above it are fixed by the number.
proof fn lemma_low_digit(a: int, high_a: int, b: int, high_b: int)
    requires
        0 <= a < 0x100,
        0 <= b < 0x100,
        a + 0x100 * high_a == b + 0x100 * high_b,
    ensures
        a == b,
        high_a == high_b,
{
}

/// Two jumps at one place that lead to one target are the same bytes.
pub proof fn law_jump_is_unique(a: Seq<u8>, b: Seq<u8>, address: int)
    requires
        a.len() == 5,
        b.len() == 5,
        is_jump(a),
        is_jump(b),
        jump_target(a, address) == jump_target(b, address),
    ensures
        a == b,
{
    let x = a[1] + 0x100 * a[2] + 0x1_0000 * a[3] + 0x100_0000 * a[4];
    let y = b[1] + 0x100 * b[2] + 0x1_0000 * b[3] + 0x100_0000 * b[4];
    assert(candidates::le_u32(a, 1) == x && candidates::le_u32(b, 1) == y);
    let p = (address + 5 + x) / 0x1_0000_0000;
    let q = (address + 5 + y) / 0x1_0000_0000;
    assert(x - y == 0x1_0000_0000 * (p - q));
    assert(x == y);
    lemma_low_digit(
        a[1] as int,
        a[2] + 0x100 * a[3] + 0x1_0000 * a[4],
        b[1] as int,
        b[2] + 0x100 * b[3] + 0x1_0000 * b[4],
    );
    lemma_low_digit(a[2] as int, a[3] + 0x100 * a[4], b[2] as int, b[3] + 0x100 * b[4]);
    lemma_low_digit(a[3] as int, a[4] as int, b[3] as int, b[4] as int);
    assert(a =~= b);
}

/// Why a function could not be hooked.
#[derive(Clone, Copy, Debug, PartialEq, Eq, Structural)]
pub enum HookError {
    /// It does not start with the prologue that the system leaves for hot patching.
    NotHotPatchable,
    /// There was no memory for the trampoline.
    NoTrampoline,
    /// The function could not be made writable.
    NotWritable,
}

/// How far the hooking of one function has come; the state names the call that is due.
#[derive(Clone, Copy, Debug, PartialEq, Eq)]
pub enum HookInstall {
    /// Look whether the function is hot patchable.
    Prologue,
    /// Allocate memory for the trampoline.
    Allocate,
    /// Write the trampoline.
    WriteTrampoline { trampoline: isize },
    /// Let the hook know of the trampoline.
    Publish { trampoline: isize },
    /// Make the function writable.
    Unprotect { trampoline: isize },
    /// Put the jump to the hook in place of the prologue.
    Patch { trampoline: isize },
    /// Protect the function again as it was.
    Protect { trampoline: isize },
    /// Everything is done.
    Finished { result: Result<(), HookError> },
}

impl CallSequence for HookInstall {
    open spec fn after(self, reply: Reply) -> HookInstall {
        match (self, reply) {
            (HookInstall::Prologue, Reply::Flag(ok)) => if ok {
                HookInstall::Allocate
            } else {
                HookInstall::Finished { result: Err(HookError::NotHotPatchable) }
            },
            (HookInstall::Allocate, Reply::Handle(trampoline)) => if trampoline != 0 {
                HookInstall::WriteTrampoline { trampoline }
            } else {
                HookInstall::Finished { result: Err(HookError::NoTrampoline) }
            },
            (HookInstall::WriteTrampoline { trampoline }, Reply::Done) => HookInstall::Publish {
                trampoline,
            },
            (HookInstall::Publish { trampoline }, Reply::Done) => HookInstall::Unprotect {
                trampoline,
            },
            (HookInstall::Unprotect { trampoline }, Reply::Flag(ok)) => if ok {
                HookInstall::Patch { trampoline }
            } else {
                HookInstall::Finished { result: Err(HookError::NotWritable) }
            },
            (HookInstall::Patch { trampoline }, Reply::Done) => HookInstall::Protect { trampoline },
            (HookInstall::Protect { .. }, Reply::Done) => HookInstall::Finished { result: Ok(()) },
            _ => self,
        }
    }

    open spec fn awaits(self, reply: Reply) -> bool {
        match self {
            HookInstall::Prologue | HookInstall::Unprotect { .. } => reply is Flag,
            HookInstall::Allocate => reply is Handle,
            HookInstall::Finished { .. } => false,
            _ => reply is Done,
        }
    }

    open spec fn rank(self) -> nat {
        match self {
            HookInstall::Prologue => 7,
            HookInstall::Allocate => 6,
            HookInstall::WriteTrampoline { .. } => 5,
            HookInstall::Publish { .. } => 4,
            HookInstall::Unprotect { .. } => 3,
            HookInstall::Patch { .. } => 2,
            HookInstall::Protect { .. } => 1,
            HookInstall::Finished { .. } => 0,
        }
    }

    open spec fn held(self) -> Multiset<Resource> {
        Multiset::empty()
    }

    open spec fn takes(self, reply: Reply) -> Multiset<Resource> {
        Multiset::empty()
    }

    open spec fn gives(self) -> Multiset<Resource> {
        Multiset::empty()
    }

    proof fn lemma_call(self, reply: Reply) {
    }
}

impl HookInstall {
    /// The state after an answer.
    pub fn step(self, reply: Reply) -> (r: HookInstall)
        ensures
            r == self.after(reply),
    {
        match (self, reply) {
            (HookInstall::Prologue, Reply::Flag(ok)) => {
                if ok {
                    HookInstall::Allocate
                } else {
                    HookInstall::Finished { result: Err(HookError::NotHotPatchable) }
                }
            },
            (HookInstall::Allocate, Reply::Handle(trampoline)) => {
                if trampoline != 0 {
                    HookInstall::WriteTrampoline { trampoline }
                } else {
                    HookInstall::Finished { result: Err(HookError::NoTrampoline) }
                }
            },
            (HookInstall::WriteTrampoline { trampoline }, Reply::Done) => {
                HookInstall::Publish { trampoline }
            },
            (HookInstall::Publish { trampoline }, Reply::Done) => {
                HookInstall::Unprotect { trampoline }
            },
            (HookInstall::Unprotect { trampoline }, Reply::Flag(ok)) => {
                if ok {
                    HookInstall::Patch { trampoline }
                } else {
                    HookInstall::Finished { result: Err(HookError::NotWritable) }
                }
            },
            (HookInstall::Patch { trampoline }, Reply::Done) => HookInstall::Protect { trampoline },
            (HookInstall::Protect { .. }, Reply::Done) => HookInstall::Finished { result: Ok(()) },
            _ => self,
        }
    }
}

impl HookInstall {
    /// The memory that is asked for in this state, if any.
    pub open spec fn asks_for(self) -> Option<MemoryRequest> {
        if self is Allocate {
            Some(trampoline_memory())
        } else {
            None
        }
    }

    /// The memory that is asked for in this state, if any: that for the trampoline, where it is to
    /// be allocated.
    pub fn memory(&self) -> (r: Option<MemoryRequest>)
        ensures
            r == self.asks_for(),
    {
        match self {
            HookInstall::Allocate => Some(
                MemoryRequest {
                    len: TRAMPOLINE_LEN,
                    allocation: RESERVE_AND_COMMIT,
                    protection: EXECUTE_READ_WRITE,
                },
            ),
            _ => None,
        }
    }
}

/// The requests for memory that a run of answers makes.
pub open spec fn requests(m: HookInstall, replies: Seq<Reply>) -> Seq<MemoryRequest>
    decreases replies.len(),
{
    if replies.len() == 0 {
        Seq::empty()
    } else {
        let rest = requests(m.after(replies[0]), replies.skip(1));
        match m.asks_for() {
            Some(request) => seq![request] + rest,
            None => rest,
        }
    }
}

/// A function that is hot patchable makes one request for memory, that for its trampoline; any
/// other one makes none.
pub proof fn law_one_request_for_memory(replies: Seq<Reply>)
    requires
        calls::answered(HookInstall::Prologue, replies),
        calls::run(HookInstall::Prologue, replies) is Finished,
    ensures
        replies[0] matches Reply::Flag(patchable) && requests(HookInstall::Prologue, replies)
            == if patchable {
            seq![trampoline_memory()]
        } else {
            Seq::empty()
        },
{
    reveal_with_fuel(calls::run, 8);
    reveal_with_fuel(calls::answered, 8);
    reveal_with_fuel(requests, 8);
    calls::law_calls_end(HookInstall::Prologue, replies);
    let rest = requests(HookInstall::Prologue.after(replies[0]), replies.skip(1));
    assert(requests(HookInstall::Prologue, replies) =~= rest);
}

/// A function is never patched without a way back: wherever the patch is due after a run of
/// answers, the function was found hot patchable, its trampoline has been allocated, written and
/// made known to the hook, and the function has been made writable, in this order and with no
/// other call.
pub proof fn law_patch_comes_last(replies: Seq<Reply>)
    requires
        calls::answered(HookInstall::Prologue, replies),
        calls::run(HookInstall::Prologue, replies) is Patch,
    ensures
        replies.len() == 5,
        replies[0] == Reply::Flag(true),
        replies[1] == Reply::Handle(calls::run(HookInstall::Prologue, replies)->Patch_trampoline),
        calls::run(HookInstall::Prologue, replies)->Patch_trampoline != 0,
        replies[2] is Done && replies[3] is Done,
        replies[4] == Reply::Flag(true),
{
    reveal_with_fuel(calls::run, 8);
    reveal_with_fuel(calls::answered, 8);
    calls::law_calls_end(HookInstall::Prologue, replies);
}

/// The functions that are hooked.
#[derive(Clone, Copy, Debug, PartialEq, Eq, Structural)]
pub enum HookTarget {
    RegisterClassExA,
    RegisterClassExW,
    CreateWindowExA,
    CreateWindowExW,
}

impl HookTarget {
    /// The name of the function.
    pub open spec fn called(self) -> Seq<char> {
        match self {
            HookTarget::RegisterClassExA => "RegisterClassExA"@,
            HookTarget::RegisterClassExW => "RegisterClassExW"@,
            HookTarget::CreateWindowExA => "CreateWindowExA"@,
            HookTarget::CreateWindowExW => "CreateWindowExW"@,
        }
    }

    /// The name of the function.
    pub fn name(&self) -> (r: &'static str)
        ensures
            r@ == self.called(),
    {
        match self {
            HookTarget::RegisterClassExA => "RegisterClassExA",
            HookTarget::RegisterClassExW => "RegisterClassExW",
            HookTarget::CreateWindowExA => "CreateWindowExA",
            HookTarget::CreateWindowExW => "CreateWindowExW",
        }
    }
}

/// The bytes of a prologue as a list of pairs of hexadecimal digits.
pub open spec fn bytes_text(bytes: Seq<u8>) -> Seq<char> {
    "["@ + dbg::hex_wide(bytes[0] as nat, 2) + ", "@ + dbg::hex_wide(bytes[1] as nat, 2) + ", "@
        + dbg::hex_wide(bytes[2] as nat, 2) + ", "@ + dbg::hex_wide(bytes[3] as nat, 2) + ", "@
        + dbg::hex_wide(bytes[4] as nat, 2) + "]"@
}

/// The bytes of a prologue as a list of pairs of hexadecimal digits.
fn describe_bytes(bytes: [u8; 5]) -> (r: String)
    ensures
        r@ == bytes_text(bytes@),
{
    Line::new("[").hex_wide(bytes[0] as u64, 2).text(", ").hex_wide(bytes[1] as u64, 2).text(
        ", ",
    ).hex_wide(bytes[2] as u64, 2).text(", ").hex_wide(bytes[3] as u64, 2).text(", ").hex_wide(
        bytes[4] as u64,
        2,
    ).text("]").done()
}

impl HookError {
    /// What is said of the failure: the function, and the prologue that was found or the cause that
    /// the system gave.
    pub fn message(&self, tag: &str, prologue: [u8; 5], cause: &str) -> (r: String)
        ensures
            r@ == match self {
                HookError::NotHotPatchable => tag@ + " prologue not hot-patchable: "@ + bytes_text(
                    prologue@,
                ) + " (expected "@ + bytes_text(hot_patch_prologue()) + ")"@,
                HookError::NoTrampoline => tag@ + ": VirtualAlloc trampoline failed"@,
                HookError::NotWritable => tag@ + ": VirtualProtect RWX failed: "@ + cause@,
            },
    {
        match self {
            HookError::NotHotPatchable => {
                let expected: [u8; 5] = [0x8Bu8, 0xFFu8, 0x55u8, 0x8Bu8, 0xECu8];
                assert(expected@ =~= hot_patch_prologue());
                let found = describe_bytes(prologue);
                let wanted = describe_bytes(expected);
                Line::new(tag).text(" prologue not hot-patchable: ").text(found.as_str()).text(
                    " (expected ",
                ).text(wanted.as_str()).text(")").done()
            },
            HookError::NoTrampoline => Line::new(tag).text(
                ": VirtualAlloc trampoline failed",
            ).done(),
            HookError::NotWritable => Line::new(tag).text(": VirtualProtect RWX failed: ").text(
                cause,
            ).done(),
        }
    }
}

/// Why the hooks could not be installed.
#[derive(Clone, Copy, Debug, PartialEq, Eq, Structural)]
pub enum SetupError {
    /// The module of the window functions was not found.
    NoModule,
    /// The function was not found.
    NotFound(HookTarget),
    /// The function could not be hooked.
    NotHooked(HookTarget),
}

impl SetupError {
    /// What is said of the failure; `cause` is what the system gave as the cause, or what was said
    /// of the function that could not be hooked.
    pub fn message(&self, cause: &str) -> (r: String)
        ensures
            r@ == match self {
                SetupError::NoModule => "GetModuleHandleA(user32.dll): "@ + cause@,
                SetupError::NotFound(target) => "GetProcAddress(Ok(\""@ + target.called()
                    + "\\0\")) returned NULL"@,
                SetupError::NotHooked(_) => cause@,
            },
    {
        match self {
            SetupError::NoModule => Line::new("GetModuleHandleA(user32.dll): ").text(cause).done(),
            SetupError::NotFound(target) => Line::new("GetProcAddress(Ok(\"").text(
                target.name(),
            ).text("\\0\")) returned NULL").done(),
            SetupError::NotHooked(_) => Line::new(cause).done(),
        }
    }
}

/// How far the installation of the hooks has come.
#[derive(Clone, Copy, Debug, PartialEq, Eq, Structural)]
pub enum SetupPhase {
    /// Find the module of the window functions.
    FindModule,
    /// Look up the address of `RegisterClassExA`.
    ResolveRegisterClassExA,
    /// Look up the address of `RegisterClassExW`.
    ResolveRegisterClassExW,
    /// Hook `RegisterClassExA`.
    HookRegisterClassExA,
    /// Hook `RegisterClassExW`.
    HookRegisterClassExW,
    /// Look up the address of `CreateWindowExA`.
    ResolveCreateWindowExA,
    /// Look up the address of `CreateWindowExW`.
    ResolveCreateWindowExW,
    /// Hook `CreateWindowExA`.
    HookCreateWindowExA,
    /// Hook `CreateWindowExW`.
    HookCreateWindowExW,
    /// Everything is done.
    Finished,
}

/// The installation of the hooks. A class is registered before its first window is created, so the
/// hooks on registration come first. The first failure ends it.
#[derive(Clone, Copy, Debug, PartialEq, Eq)]
pub struct HookSetup {
    /// The call that is due.
    pub phase: SetupPhase,
    /// What has come of it.
    pub result: Result<(), SetupError>,
}

impl CallSequence for HookSetup {
    open spec fn after(self, reply: Reply) -> HookSetup {
        match (self.phase, reply) {
            (SetupPhase::FindModule, Reply::Flag(ok)) => if ok {
                HookSetup { phase: SetupPhase::ResolveRegisterClassExA, ..self }
            } else {
                HookSetup {
                    phase: SetupPhase::Finished,
                    result: Err(SetupError::NoModule),
                    ..self
                }
            },
            (SetupPhase::ResolveRegisterClassExA, Reply::Flag(ok)) => if ok {
                HookSetup { phase: SetupPhase::ResolveRegisterClassExW, ..self }
            } else {
                HookSetup {
                    phase: SetupPhase::Finished,
                    result: Err(SetupError::NotFound(HookTarget::RegisterClassExA)),
                    ..self
                }
            },
            (SetupPhase::ResolveRegisterClassExW, Reply::Flag(ok)) => if ok {
                HookSetup { phase: SetupPhase::HookRegisterClassExA, ..self }
            } else {
                HookSetup {
                    phase: SetupPhase::Finished,
                    result: Err(SetupError::NotFound(HookTarget::RegisterClassExW)),
                    ..self
                }
            },
            (SetupPhase::HookRegisterClassExA, Reply::Flag(ok)) => if ok {
                HookSetup { phase: SetupPhase::HookRegisterClassExW, ..self }
            } else {
                HookSetup {
                    phase: SetupPhase::Finished,
                    result: Err(SetupError::NotHooked(HookTarget::RegisterClassExA)),
                    ..self
                }
            },
            (SetupPhase::HookRegisterClassExW, Reply::Flag(ok)) => if ok {
                HookSetup { phase: SetupPhase::ResolveCreateWindowExA, ..self }
            } else {
                HookSetup {
                    phase: SetupPhase::Finished,
                    result: Err(SetupError::NotHooked(HookTarget::RegisterClassExW)),
                    ..self
                }
            },
            (SetupPhase::ResolveCreateWindowExA, Reply::Flag(ok)) => if ok {
                HookSetup { phase: SetupPhase::ResolveCreateWindowExW, ..self }
            } else {
                HookSetup {
                    phase: SetupPhase::Finished,
                    result: Err(SetupError::NotFound(HookTarget::CreateWindowExA)),
                    ..self
                }
            },
            (SetupPhase::ResolveCreateWindowExW, Reply::Flag(ok)) => if ok {
                HookSetup { phase: SetupPhase::HookCreateWindowExA, ..self }
            } else {
                HookSetup {
                    phase: SetupPhase::Finished,
                    result: Err(SetupError::NotFound(HookTarget::CreateWindowExW)),
                    ..self
                }
            },
            (SetupPhase::HookCreateWindowExA, Reply::Flag(ok)) => if ok {
                HookSetup { phase: SetupPhase::HookCreateWindowExW, ..self }
            } else {
                HookSetup {
                    phase: SetupPhase::Finished,
                    result: Err(SetupError::NotHooked(HookTarget::CreateWindowExA)),
                    ..self
                }
            },
            (SetupPhase::HookCreateWindowExW, Reply::Flag(ok)) => if ok {
                HookSetup { phase: SetupPhase::Finished, result: Ok(()), ..self }
            } else {
                HookSetup {
                    phase: SetupPhase::Finished,
                    result: Err(SetupError::NotHooked(HookTarget::CreateWindowExW)),
                    ..self
                }
            },
            _ => self,
        }
    }

    open spec fn awaits(self, reply: Reply) -> bool {
        match self.phase {
            SetupPhase::FindModule
            | SetupPhase::ResolveRegisterClassExA
            | SetupPhase::ResolveRegisterClassExW
            | SetupPhase::HookRegisterClassExA
            | SetupPhase::HookRegisterClassExW
            | SetupPhase::ResolveCreateWindowExA
            | SetupPhase::ResolveCreateWindowExW
            | SetupPhase::HookCreateWindowExA
            | SetupPhase::HookCreateWindowExW => reply is Flag,
            SetupPhase::Finished => false,
        }
    }

    open spec fn rank(self) -> nat {
        match self.phase {
            SetupPhase::FindModule => 9,
            SetupPhase::ResolveRegisterClassExA => 8,
            SetupPhase::ResolveRegisterClassExW => 7,
            SetupPhase::HookRegisterClassExA => 6,
            SetupPhase::HookRegisterClassExW => 5,
            SetupPhase::ResolveCreateWindowExA => 4,
            SetupPhase::ResolveCreateWindowExW => 3,
            SetupPhase::HookCreateWindowExA => 2,
            SetupPhase::HookCreateWindowExW => 1,
            SetupPhase::Finished => 0,
        }
    }

    open spec fn held(self) -> Multiset<Resource> {
        Multiset::empty()
    }

    open spec fn takes(self, reply: Reply) -> Multiset<Resource> {
        Multiset::empty()
    }

    open spec fn gives(self) -> Multiset<Resource> {
        Multiset::empty()
    }

    proof fn lemma_call(self, reply: Reply) {
    }
}

impl HookSetup {
    /// The state after an answer.
    pub fn step(self, reply: Reply) -> (r: HookSetup)
        ensures
            r == self.after(reply),
    {
        match (self.phase, reply) {
            (SetupPhase::FindModule, Reply::Flag(ok)) => {
                if ok {
                    HookSetup { phase: SetupPhase::ResolveRegisterClassExA, ..self }
                } else {
                    HookSetup {
                        phase: SetupPhase::Finished,
                        result: Err(SetupError::NoModule),
                        ..self
                    }
                }
            },
            (SetupPhase::ResolveRegisterClassExA, Reply::Flag(ok)) => {
                if ok {
                    HookSetup { phase: SetupPhase::ResolveRegisterClassExW, ..self }
                } else {
                    HookSetup {
                        phase: SetupPhase::Finished,
                        result: Err(SetupError::NotFound(HookTarget::RegisterClassExA)),
                        ..self
                    }
                }
            },
            (SetupPhase::ResolveRegisterClassExW, Reply::Flag(ok)) => {
                if ok {
                    HookSetup { phase: SetupPhase::HookRegisterClassExA, ..self }
                } else {
                    HookSetup {
                        phase: SetupPhase::Finished,
                        result: Err(SetupError::NotFound(HookTarget::RegisterClassExW)),
                        ..self
                    }
                }
            },
            (SetupPhase::HookRegisterClassExA, Reply::Flag(ok)) => {
                if ok {
                    HookSetup { phase: SetupPhase::HookRegisterClassExW, ..self }
                } else {
                    HookSetup {
                        phase: SetupPhase::Finished,
                        result: Err(SetupError::NotHooked(HookTarget::RegisterClassExA)),
                        ..self
                    }
                }
            },
            (SetupPhase::HookRegisterClassExW, Reply::Flag(ok)) => {
                if ok {
                    HookSetup { phase: SetupPhase::ResolveCreateWindowExA, ..self }
                } else {
                    HookSetup {
                        phase: SetupPhase::Finished,
                        result: Err(SetupError::NotHooked(HookTarget::RegisterClassExW)),
                        ..self
                    }
                }
            },
            (SetupPhase::ResolveCreateWindowExA, Reply::Flag(ok)) => {
                if ok {
                    HookSetup { phase: SetupPhase::ResolveCreateWindowExW, ..self }
                } else {
                    HookSetup {
                        phase: SetupPhase::Finished,
                        result: Err(SetupError::NotFound(HookTarget::CreateWindowExA)),
                        ..self
                    }
                }
            },
            (SetupPhase::ResolveCreateWindowExW, Reply::Flag(ok)) => {
                if ok {
                    HookSetup { phase: SetupPhase::HookCreateWindowExA, ..self }
                } else {
                    HookSetup {
                        phase: SetupPhase::Finished,
                        result: Err(SetupError::NotFound(HookTarget::CreateWindowExW)),
                        ..self
                    }
                }
            },
            (SetupPhase::HookCreateWindowExA, Reply::Flag(ok)) => {
                if ok {
                    HookSetup { phase: SetupPhase::HookCreateWindowExW, ..self }
                } else {
                    HookSetup {
                        phase: SetupPhase::Finished,
                        result: Err(SetupError::NotHooked(HookTarget::CreateWindowExA)),
                        ..self
                    }
                }
            },
            (SetupPhase::HookCreateWindowExW, Reply::Flag(ok)) => {
                if ok {
                    HookSetup { phase: SetupPhase::Finished, result: Ok(()), ..self }
                } else {
                    HookSetup {
                        phase: SetupPhase::Finished,
                        result: Err(SetupError::NotHooked(HookTarget::CreateWindowExW)),
                        ..self
                    }
                }
            },
            _ => self,
        }
    }
}

/// Starts the installation of the hooks.
pub fn install() -> (r: HookSetup)
    ensures
        r == (HookSetup { phase: SetupPhase::FindModule, result: Ok(()) }),
{
    HookSetup { phase: SetupPhase::FindModule, result: Ok(()) }
}

/// The installation succeeds exactly where every step of it does: the module is found, and all four
/// functions are found and hooked.
pub proof fn law_installed_when_all_is_hooked(replies: Seq<Reply>)
    requires
        calls::answered(
            (HookSetup { phase: SetupPhase::FindModule, result: Ok(()) }),
            replies,
        ),
        calls::run(
            (HookSetup { phase: SetupPhase::FindModule, result: Ok(()) }),
            replies,
        ).phase == SetupPhase::Finished,
    ensures
        calls::run(
            (HookSetup { phase: SetupPhase::FindModule, result: Ok(()) }),
            replies,
        ).result is Ok <==> replies.len() == 9 && (forall|k: int|
            0 <= k < 9 ==> #[trigger] replies[k] == Reply::Flag(true)),
        forall|k: int|
            0 <= k < replies.len() - 1 ==> #[trigger] replies[k] == Reply::Flag(true),
{
    reveal_with_fuel(calls::run, 11);
    reveal_with_fuel(calls::answered, 11);
    let m = HookSetup { phase: SetupPhase::FindModule, result: Ok(()) };
    calls::law_calls_end(m, replies);
}

/// What becomes of the creation of a window or the registration of a class.
#[derive(Clone, Copy, Debug, PartialEq, Eq, Structural)]
pub struct Styled {
    /// The style that is handed on.
    pub style: u32,
    /// Whether the class is the target class.
    pub target: bool,
}

/// The creation of a window through the hook. The name of the class is given up to its NUL; there
/// is none where an atom stands for the class.
pub fn hooked_a(class: Option<&[u8]>, ex_style: u32) -> (r: Styled)
    ensures
        r.target == (class matches Some(name) && names_target(name@.map_values(|c: u8| c as int))),
        r.style == ex_style,
{
    let target: bool = match class {
        Some(name) => class_matches_a(name),
        None => false,
    };
    let style: u32 = if target { patched_lunicodeedit_ex_style(ex_style) } else { ex_style };
    Styled { style, target }
}

/// The creation of a window through the hook, with the class name in 16-bit units.
pub fn hooked_w(class: Option<&[u16]>, ex_style: u32) -> (r: Styled)
    ensures
        r.target == (class matches Some(name) && names_target(name@.map_values(|c: u16| c as int))),
        r.style == ex_style,
{
    let target: bool = match class {
        Some(name) => class_matches_w(name),
        None => false,
    };
    let style: u32 = if target { patched_lunicodeedit_ex_style(ex_style) } else { ex_style };
    Styled { style, target }
}

/// The registration of a class through the hook. The name of the class is given up to its NUL;
/// there is none where nothing is registered or an atom stands for the class.
pub fn hooked_register_class_a(class: Option<&[u8]>, style: u32) -> (r: Styled)
    ensures
        r.target == (class matches Some(name) && names_target(name@.map_values(|c: u8| c as int))),
        r.style == style,
{
    let target: bool = match class {
        Some(name) => class_matches_a(name),
        None => false,
    };
    Styled { style: if target { patched_lunicodeedit_class_style(style) } else { style }, target }
}

/// The registration of a class through the hook, with the class name in 16-bit units.
pub fn hooked_register_class_w(class: Option<&[u16]>, style: u32) -> (r: Styled)
    ensures
        r.target == (class matches Some(name) && names_target(name@.map_values(|c: u16| c as int))),
        r.style == style,
{
    let target: bool = match class {
        Some(name) => class_matches_w(name),
        None => false,
    };
    Styled { style: if target { patched_lunicodeedit_class_style(style) } else { style }, target }
}

/// The question for a class name through the hook. A module of the input method that asks for the
/// class of an edit control is told that of a plain one: what is written and reported is returned.
/// `None` leaves the answer to the system.
pub fn hooked_gcn_w(
    cache: &mut CallerCache,
    windows: &Subclasses,
    ret_addr: usize,
    module: Option<&[u16]>,
    hwnd: isize,
    null: bool,
    max: i32,
) -> (r: Option<(Vec<u16>, i32)>)
    ensures
        r is Some <==> is_lied_to(old(cache)@, ret_addr, module) && windows@.dom().contains(hwnd),
        r matches Some((units, written)) ==> {
            &&& units@.len() == lie_len(null, max)
            &&& forall|i: int|
                0 <= i < units@.len() ==> units@[i] == lie_unit(lie_len(null, max), i)
            &&& written == lie_reported(null, max)
        },
        final(cache)@ == old(cache)@.insert(
            page_of(ret_addr),
            is_lied_to(old(cache)@, ret_addr, module),
        ),
{
    if caller_should_be_lied_to(cache, ret_addr, module) && is_subclassed_lunicode_edit(
        windows,
        hwnd,
    ) {
        Some(write_edit_lie_w(null, max))
    } else {
        None
    }
}

/// The question for a class name in bytes through the hook.
pub fn hooked_gcn_a(
    cache: &mut CallerCache,
    windows: &Subclasses,
    ret_addr: usize,
    module: Option<&[u16]>,
    hwnd: isize,
    null: bool,
    max: i32,
) -> (r: Option<(Vec<u8>, i32)>)
    ensures
        r is Some <==> is_lied_to(old(cache)@, ret_addr, module) && windows@.dom().contains(hwnd),
        r matches Some((bytes, written)) ==> {
            &&& bytes@.len() == lie_len(null, max)
            &&& forall|i: int|
                0 <= i < bytes@.len() ==> bytes@[i] == lie_unit(lie_len(null, max), i)
            &&& written == lie_reported(null, max)
        },
        final(cache)@ == old(cache)@.insert(
            page_of(ret_addr),
            is_lied_to(old(cache)@, ret_addr, module),
        ),
{
    if caller_should_be_lied_to(cache, ret_addr, module) && is_subclassed_lunicode_edit(
        windows,
        hwnd,
    ) {
        Some(write_edit_lie_a(null, max))
    } else {
        None
    }
}

/// What is known of a page decides for every caller in it: a second question from the same page is
/// answered as the first one was, whatever module is named.
pub proof fn law_page_is_asked_once(
    cache: Map<usize, bool>,
    first: usize,
    second: usize,
    module: Option<&[u16]>,
    other: Option<&[u16]>,
)
    requires
        page_of(first) == page_of(second),
    ensures
        is_lied_to(
            cache.insert(page_of(first), is_lied_to(cache, first, module)),
            second,
            other,
        ) == is_lied_to(cache, first, module),
{
}

/// Whether a class name that an input method is told, or a window that is created, is reported: the
/// first few are.
pub fn hit_is_reported(count: usize) -> (r: bool)
    ensures
        r == (count <= 8),
{
    count <= 8
}

/// The report of the first module that is told a plain class name, by the path that was looked up
/// for a caller: it names the file of the module in small letters. Later modules are not reported,
/// and neither are callers that are told the truth.
pub fn report_lied_module_once(reported: &mut bool, module: Option<&[u16]>) -> (r: Option<String>)
    ensures
        r is Some <==> !*old(reported) && (module matches Some(path) && is_ime_path(path@)),
        r matches Some(line) ==> line@ == "[ime] GetClassName lie target module: '"@
            + text::file_name(text::lower(text::utf16_lossy(module->0@))) + "'"@,
        *final(reported) == (*old(reported) || (module matches Some(path) && is_ime_path(path@))),
{
    let path = module?;
    if !module_is_ime(path) {
        return None;
    }
    let first: bool = !*reported;
    *reported = true;
    if first {
        let small = to_ascii_lower(decode_chars(path).as_slice());
        let name = string_of(base_name(small.as_slice()).as_slice());
        Some(module_told(name.as_str()))
    } else {
        None
    }
}

/// Stands for all threads of the process where a thread is named.
pub const ALL_THREADS: u32 = 0xFFFF_FFFF;

/// Whether the text services are to be switched off now: that is tried once.
pub fn try_disable_tsf_once(tried: &mut bool) -> (r: bool)
    ensures
        r == !*old(tried),
        *final(tried),
{
    let first: bool = !*tried;
    *tried = true;
    first
}

/// The hooks on registration stand before anything is done about those on creation: wherever the
/// hook on the creation of a window is due, both functions that register a class have been hooked.
pub proof fn law_registration_is_hooked_first(replies: Seq<Reply>)
    requires
        calls::answered(
            (HookSetup { phase: SetupPhase::FindModule, result: Ok(()) }),
            replies,
        ),
        calls::run(
            (HookSetup { phase: SetupPhase::FindModule, result: Ok(()) }),
            replies,
        ).phase == SetupPhase::HookCreateWindowExA,
    ensures
        replies.len() == 7,
        forall|k: int| 0 <= k < 7 ==> #[trigger] replies[k] == Reply::Flag(true),
        calls::run(
            (HookSetup { phase: SetupPhase::FindModule, result: Ok(()) }),
            replies.take(3),
        ).phase == SetupPhase::HookRegisterClassExA,
        calls::run(
            (HookSetup { phase: SetupPhase::FindModule, result: Ok(()) }),
            replies.take(4),
        ).phase == SetupPhase::HookRegisterClassExW,
{
    reveal_with_fuel(calls::run, 11);
    reveal_with_fuel(calls::answered, 11);
    let m = HookSetup { phase: SetupPhase::FindModule, result: Ok(()) };
    calls::law_calls_end(m, replies);
    let three = replies.take(3);
    assert(three.skip(1).skip(1)[0] == replies[2]);
    assert(three.skip(1)[0] == replies[1]);
    let four = replies.take(4);
    assert(four.skip(1)[0] == replies[1]);
    assert(four.skip(1).skip(1)[0] == replies[2]);
    assert(four.skip(1).skip(1).skip(1)[0] == replies[3]);
}

/// A function is hooked wherever it is hot patchable, there is memory for its trampoline, and it
/// can be made writable: the trampoline is written and made known, the function patched and
/// protected again, all with the memory that was given. The first of the three that is missing ends
/// it with its own error, before the function has been changed.
pub proof fn law_function_is_hooked(replies: Seq<Reply>)
    requires
        calls::answered(HookInstall::Prologue, replies),
        calls::run(HookInstall::Prologue, replies) is Finished,
    ensures
        ({
            let m = HookInstall::Prologue;
            let f = calls::run(m, replies);
            let n = replies.len();
            let trampoline = replies[1]->Handle_0;
            &&& n == 1 || n == 2 || n == 5 || n == 7
            &&& replies[0] == Reply::Flag(false) <==> n == 1
            &&& n > 1 ==> calls::at(m, replies, 1) == HookInstall::Allocate && (replies[1]
                == Reply::Handle(0) <==> n == 2)
            &&& n > 2 ==> {
                &&& calls::at(m, replies, 2) == (HookInstall::WriteTrampoline { trampoline })
                &&& calls::at(m, replies, 3) == (HookInstall::Publish { trampoline })
                &&& calls::at(m, replies, 4) == (HookInstall::Unprotect { trampoline })
                &&& replies[4] == Reply::Flag(false) <==> n == 5
            }
            &&& n == 7 ==> {
                &&& calls::at(m, replies, 5) == (HookInstall::Patch { trampoline })
                &&& calls::at(m, replies, 6) == (HookInstall::Protect { trampoline })
            }
            &&& f->Finished_result == if n == 1 {
                Err::<(), HookError>(HookError::NotHotPatchable)
            } else if n == 2 {
                Err::<(), HookError>(HookError::NoTrampoline)
            } else if n == 5 {
                Err::<(), HookError>(HookError::NotWritable)
            } else {
                Ok::<(), HookError>(())
            }
        }),
{
    calls::lemma_calls(HookInstall::Prologue, replies);
}

/// The hooks are installed one after the other, first those on registration and then those on
/// creation, each pair being looked up before it is hooked. The first step that fails ends the
/// installation with an error that names the function.
pub proof fn law_hooks_are_installed_in_turn(replies: Seq<Reply>)
    requires
        calls::answered((HookSetup { phase: SetupPhase::FindModule, result: Ok(()) }), replies),
        calls::run(
            (HookSetup { phase: SetupPhase::FindModule, result: Ok(()) }),
            replies,
        ).phase == SetupPhase::Finished,
    ensures
        ({
            let m = HookSetup { phase: SetupPhase::FindModule, result: Ok(()) };
            let f = calls::run(m, replies);
            let n = replies.len();
            let order = seq![
                SetupPhase::FindModule,
                SetupPhase::ResolveRegisterClassExA,
                SetupPhase::ResolveRegisterClassExW,
                SetupPhase::HookRegisterClassExA,
                SetupPhase::HookRegisterClassExW,
                SetupPhase::ResolveCreateWindowExA,
                SetupPhase::ResolveCreateWindowExW,
                SetupPhase::HookCreateWindowExA,
                SetupPhase::HookCreateWindowExW,
            ];
            let errors = seq![
                SetupError::NoModule,
                SetupError::NotFound(HookTarget::RegisterClassExA),
                SetupError::NotFound(HookTarget::RegisterClassExW),
                SetupError::NotHooked(HookTarget::RegisterClassExA),
                SetupError::NotHooked(HookTarget::RegisterClassExW),
                SetupError::NotFound(HookTarget::CreateWindowExA),
                SetupError::NotFound(HookTarget::CreateWindowExW),
                SetupError::NotHooked(HookTarget::CreateWindowExA),
                SetupError::NotHooked(HookTarget::CreateWindowExW),
            ];
            &&& 1 <= n <= 9
            &&& forall|k: int|
                0 <= k < n ==> (#[trigger] calls::at(m, replies, k)).phase == order[k]
            &&& forall|k: int| 0 <= k < n - 1 ==> #[trigger] replies[k] == Reply::Flag(true)
            &&& n < 9 ==> replies[n - 1] == Reply::Flag(false)
            &&& f.result == if replies[n - 1] == Reply::Flag(true) {
                Ok::<(), SetupError>(())
            } else {
                Err::<(), SetupError>(errors[n - 1])
            }
        }),
{
    let m = HookSetup { phase: SetupPhase::FindModule, result: Ok(()) };
    calls::lemma_calls(m, replies);
}

/// A class is the target class exactly where its name has the twelve letters of `LUnicodeEdit`,
/// each of them small or capital, and the NUL right behind them.
pub proof fn law_target_is_found_by_its_letters(name: Seq<int>)
    ensures
        ({
            let letters = seq![
                0x6Cint,
                0x75int,
                0x6Eint,
                0x69int,
                0x63int,
                0x6Fint,
                0x64int,
                0x65int,
                0x65int,
                0x64int,
                0x69int,
                0x74int,
            ];
            names_target(name) <==> name.len() > 12 && name[12] == 0 && (forall|i: int|
                0 <= i < 12 ==> name[i] == #[trigger] letters[i] || name[i] == letters[i] - 0x20)
        }),
{
    reveal_strlit("LUnicodeEdit");
    assert(TARGET_CLASS@ == "LUnicodeEdit"@);
    let letters = seq![
        0x6Cint,
        0x75int,
        0x6Eint,
        0x69int,
        0x63int,
        0x6Fint,
        0x64int,
        0x65int,
        0x65int,
        0x64int,
        0x69int,
        0x74int,
    ];
    assert forall|i: int| 0 <= i < 12 implies text::ascii_lower(TARGET_CLASS@[i]) as int
        == #[trigger] letters[i] by {}
    if names_target(name) {
        assert forall|i: int| 0 <= i < 12 implies name[i] == #[trigger] letters[i] || name[i]
            == letters[i] - 0x20 by {
            assert(0 <= name[i] <= 0x7F && text::ascii_lower(name[i] as char) == text::ascii_lower(
                TARGET_CLASS@[i],
            ));
        }
    }
    if name.len() > 12 && name[12] == 0 && (forall|i: int|
        0 <= i < 12 ==> name[i] == #[trigger] letters[i] || name[i] == letters[i] - 0x20) {
        assert forall|i: int| 0 <= i < 12 implies 0 <= #[trigger] name[i] <= 0x7F
            && text::ascii_lower(name[i] as char) == text::ascii_lower(TARGET_CLASS@[i]) by {
            assert(name[i] == letters[i] || name[i] == letters[i] - 0x20);
            assert(text::ascii_lower(TARGET_CLASS@[i]) as int == letters[i]);
        }
    }
}

/// The page of an address starts at a multiple of 4096, and the address lies in the 4096 bytes from
/// there on.
pub proof fn law_address_lies_in_its_page(address: usize)
    ensures
        page_of(address) % 0x1000 == 0,
        page_of(address) <= address < page_of(address) + 0x1000,
{
}

/// A module belongs to an input method exactly where the name of its file, its letters made small,
/// has one of these words in it or ends with `.ime`. The folders in front of the name do not count,
/// and a path that is empty names no module.
pub proof fn law_words_of_an_ime_module(name: Seq<char>, path: Seq<u16>)
    ensures
        is_ime_module(name) <==> (exists|head: Seq<char>, word: Seq<char>, tail: Seq<char>|
            name == #[trigger] (head + word + tail) && seq![
                "msctf"@,
                "imm32"@,
                "ctfime"@,
                "textinput"@,
                "input.dll"@,
            ].contains(word)) || (exists|head: Seq<char>| name == #[trigger] (head + ".ime"@)),
        is_ime_path(path) <==> path.len() > 0 && is_ime_module(
            text::file_name(text::lower(text::utf16_lossy(path))),
        ),
{
    let words = seq!["msctf"@, "imm32"@, "ctfime"@, "textinput"@, "input.dll"@];
    assert(words[0] == "msctf"@ && words[1] == "imm32"@ && words[2] == "ctfime"@ && words[3]
        == "textinput"@ && words[4] == "input.dll"@);
    text::law_part_stands_in_text(name, ".ime"@);
    assert(is_ime_module(name) <==> (exists|k: int|
        0 <= k < 5 && text::holds(name, #[trigger] words[k])) || text::ends(name, ".ime"@));
    if exists|k: int| 0 <= k < 5 && text::holds(name, #[trigger] words[k]) {
        let k = choose|k: int| 0 <= k < 5 && text::holds(name, #[trigger] words[k]);
        text::law_part_stands_in_text(name, words[k]);
        let (head, tail) = choose|head: Seq<char>, tail: Seq<char>|
            name == #[trigger] (head + words[k] + tail);
        assert(words.contains(words[k]));
        assert(name == head + words[k] + tail);
    }
    if exists|head: Seq<char>, word: Seq<char>, tail: Seq<char>|
        name == #[trigger] (head + word + tail) && words.contains(word) {
        let (head, word, tail) = choose|head: Seq<char>, word: Seq<char>, tail: Seq<char>|
            name == #[trigger] (head + word + tail) && words.contains(word);
        let k = choose|k: int| 0 <= k < 5 && words[k] == word;
        text::law_part_stands_in_text(name, word);
        assert(text::holds(name, words[k]));
    }
}

/// What is known of the page of a caller decides; where nothing is known, its module does, and a
/// caller in no module is told the truth.
pub proof fn law_who_is_told_the_plain_name(
    cache: Map<usize, bool>,
    ret_addr: usize,
    path: &[u16],
)
    ensures
        cache.dom().contains(page_of(ret_addr)) ==> is_lied_to(cache, ret_addr, Some(path))
            == cache[page_of(ret_addr)] && is_lied_to(cache, ret_addr, None)
            == cache[page_of(ret_addr)],
        !cache.dom().contains(page_of(ret_addr)) ==> is_lied_to(cache, ret_addr, Some(path))
            == is_ime_path(path@) && !is_lied_to(cache, ret_addr, None),
{
}

/// The plain name is written as far as the buffer goes: `Edit` with its NUL into a buffer of five
/// units or more, the first letters of it with a NUL into a smaller one, and nothing where there is
/// no buffer. What is reported is the number of letters.
pub proof fn law_plain_name_fits_the_buffer(null: bool, max: i32, i: int)
    ensures
        ({
            let len = lie_len(null, max);
            let letters = seq![0x45int, 0x64int, 0x69int, 0x74int];
            &&& null || max <= 0 ==> len == 0 && lie_reported(null, max) == 0
            &&& !null && max > 0 ==> {
                &&& 1 <= len <= max && len <= 5
                &&& len == max || len == 5
                &&& lie_reported(null, max) == len - 1
                &&& 0 <= i < len - 1 ==> lie_unit(len, i) == letters[i]
                &&& lie_unit(len, len - 1) == 0
            }
        }),
{
    reveal_strlit("Edit");
}

/// A jump is the byte 0xE9 with four bytes behind it, the lowest first; it leads that far from the
/// instruction behind it, addresses starting over after 32 bits.
pub proof fn law_where_a_jump_leads(code: Seq<u8>, address: int)
    requires
        code.len() >= 5,
    ensures
        is_jump(code) <==> code[0] == 0xE9,
        jump_target(code, address) == (address + 5 + code[1] + 0x100 * code[2] + 0x1_0000 * code[3]
            + 0x100_0000 * code[4]) % 0x1_0000_0000,
{
    assert(candidates::le_u32(code, 1) == code[1] + 0x100 * code[2] + 0x1_0000 * code[3]
        + 0x100_0000 * code[4]);
}

/// A function is hot patchable exactly where its first five bytes are those that the system leaves
/// for it, and the one request for memory that its hook makes is for 32 bytes, reserved and
/// committed, that can be read, written and executed.
pub proof fn law_hot_patching(prologue: Seq<u8>)
    ensures
        prologue == hot_patch_prologue() <==> prologue.len() == 5 && prologue[0] == 0x8B
            && prologue[1] == 0xFF && prologue[2] == 0x55 && prologue[3] == 0x8B && prologue[4]
            == 0xEC,
        trampoline_memory() == (MemoryRequest { len: 32, allocation: 0x3000, protection: 0x40 }),
{
    if prologue.len() == 5 && prologue[0] == 0x8B && prologue[1] == 0xFF && prologue[2] == 0x55
        && prologue[3] == 0x8B && prologue[4] == 0xEC {
        assert(prologue =~= hot_patch_prologue());
    }
}

/// The bytes of a prologue are told one by one, each with its two digits.
pub proof fn law_prologue_is_told_byte_by_byte(bytes: Seq<u8>)
    requires
        bytes.len() == 5,
    ensures
        bytes_text(bytes).len() == 20,
        bytes_text(bytes)[0] == '[',
        bytes_text(bytes)[19] == ']',
        forall|i: int|
            0 <= i < 5 ==> dbg::hex_number(
                #[trigger] bytes_text(bytes).subrange(1 + 4 * i, 3 + 4 * i),
            ) == bytes[i],
        forall|i: int|
            0 <= i < 4 ==> #[trigger] bytes_text(bytes).subrange(3 + 4 * i, 5 + 4 * i) == seq![
                ',',
                ' ',
            ],
{
    reveal_strlit("[");
    reveal_strlit("]");
    reveal_strlit(", ");
    dbg::law_two_digits_hold_a_byte(bytes[0]);
    dbg::law_two_digits_hold_a_byte(bytes[1]);
    dbg::law_two_digits_hold_a_byte(bytes[2]);
    dbg::law_two_digits_hold_a_byte(bytes[3]);
    dbg::law_two_digits_hold_a_byte(bytes[4]);
    let text = bytes_text(bytes);
    assert forall|i: int| 0 <= i < 5 implies #[trigger] text.subrange(1 + 4 * i, 3 + 4 * i)
        == dbg::hex_wide(bytes[i] as nat, 2) by {
        assert(i == 0 || i == 1 || i == 2 || i == 3 || i == 4);
        assert(text.subrange(1 + 4 * i, 3 + 4 * i) =~= dbg::hex_wide(bytes[i] as nat, 2));
    }
    assert forall|i: int| 0 <= i < 4 implies #[trigger] text.subrange(3 + 4 * i, 5 + 4 * i) == seq![
        ',',
        ' ',
    ] by {
        assert(i == 0 || i == 1 || i == 2 || i == 3);
        assert(text.subrange(3 + 4 * i, 5 + 4 * i) =~= seq![',', ' ']);
    }
}

/// Each function that is hooked is looked up and reported under its own name.
pub proof fn law_targets_have_their_names(target: HookTarget)
    ensures
        target.called() == match target {
            HookTarget::RegisterClassExA => "RegisterClassExA"@,
            HookTarget::RegisterClassExW => "RegisterClassExW"@,
            HookTarget::CreateWindowExA => "CreateWindowExA"@,
            HookTarget::CreateWindowExW => "CreateWindowExW"@,
        },
{
}

} // verus!
