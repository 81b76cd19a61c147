//! The hooks on the primary drawing surface, and the capture of its picture.
//!
//! The picture is captured after the surface has been drawn to, so that it can serve as the
//! background of an edit control.

use crate::calls::{self, CallSequence, Reply, Resource};
use crate::dbg::{self, Line};
use crate::report::{call_line, capture_done, capture_failed, capture_without_dc};
use vstd::multiset::Multiset;
use vstd::prelude::*;

verus! {

/// Where the address of the primary surface is found.
pub const PRIMARY_SURFACE_GLOBAL: usize = 0x009A_84E8;

/// The entry that copies.
pub const BLT_VTABLE_INDEX: usize = 5;

/// The entry that copies fast.
pub const BLTFAST_VTABLE_INDEX: usize = 7;

/// The entry that flips.
pub const FLIP_VTABLE_INDEX: usize = 11;

/// The entry that takes the device context.
pub const GETDC_VTABLE_INDEX: usize = 17;

/// The entry that gives the device context back.
pub const RELEASEDC_VTABLE_INDEX: usize = 26;

/// The size of an entry in bytes.
pub const SLOT_SIZE: usize = 4;

/// One in so many pictures is captured.
pub const CAPTURE_EVERY_N: u64 = 4;

/// Width of the capture buffer.
pub const CAPTURE_W: i32 = 1200;

/// Height of the capture buffer.
pub const CAPTURE_H: i32 = 900;

/// The line that reports a call with this number, counted from one: the first calls are reported,
/// and then one in many. It tells the call, its number, the surface, whether that is the primary
/// one, and the arguments.
pub fn maybe_log_call(name: &str, count: u64, this: usize, primary: usize, extra: &str) -> (r:
    Option<String>)
    ensures
        r is Some <==> count <= 3 || count % 600 == 0,
        r matches Some(line) ==> line@ == "[ddraw] "@ + name@ + " #"@ + dbg::decimal(count as nat)
            + " this=0x"@ + dbg::hex(this as nat) + " is_primary="@ + dbg::yes_no(this == primary)
            + " "@ + extra@,
{
    if count <= 3 || count % 600 == 0 {
        Some(call_line(name, count, this, this == primary, extra))
    } else {
        None
    }
}

/// Whether the capture with this number, counted from one among those that went the same way, is
/// reported.
pub fn maybe_log_capture(count: u64) -> (r: bool)
    ensures
        r == (count <= 3 || count % 60 == 0),
{
    count <= 3 || count % 60 == 0
}

/// Whether the picture is captured after a call with this number: where the call succeeded, it was
/// made on the primary surface, and its turn has come.
pub fn should_capture(result: i32, this: usize, primary: usize, count: u64) -> (r: bool)
    ensures
        r == (result >= 0 && this == primary && count % CAPTURE_EVERY_N == 0),
{
    result >= 0 && this == primary && count % CAPTURE_EVERY_N == 0
}

/// The address of an entry in a table; `None` where it lies beyond the last address.
pub fn slot_address(table: usize, index: usize) -> (r: Option<usize>)
    ensures
        r == if table + index * SLOT_SIZE <= usize::MAX {
            Some((table + index * SLOT_SIZE) as usize)
        } else {
            None
        },
{
    let offset: usize = index.checked_mul(SLOT_SIZE)?;
    table.checked_add(offset)
}

/// The handle that a surface has answered with, or null where the answer is a failure.
pub fn granted(status: i32, hdc: isize) -> (r: isize)
    ensures
        r == if status < 0 {
            0
        } else {
            hdc
        },
{
    if status < 0 {
        0
    } else {
        hdc
    }
}

/// What has come of a capture.
#[derive(Clone, Copy, Debug, PartialEq, Eq, Structural)]
pub enum Outcome {
    /// It was not tried.
    Skipped,
    /// There was no device context.
    NoDc,
    /// The picture has been copied.
    Copied,
    /// The picture could not be copied.
    NotCopied,
}

/// How a capture is counted: among those that succeeded, among those that failed, or not at all
/// where it was not tried.
pub fn counted(outcome: Outcome) -> (r: Option<bool>)
    ensures
        r == match outcome {
            Outcome::Skipped => None,
            Outcome::Copied => Some(true),
            _ => Some(false),
        },
{
    match outcome {
        Outcome::Skipped => None,
        Outcome::Copied => Some(true),
        Outcome::NoDc | Outcome::NotCopied => Some(false),
    }
}

/// The line that reports a capture with this number among those that went the same way; a capture
/// that was not tried is not reported.
pub fn capture_line(
    outcome: Outcome,
    count: u64,
    status: u32,
    this: usize,
    width: i32,
    height: i32,
) -> (r: Option<String>)
    ensures
        r is Some <==> outcome != Outcome::Skipped && (count <= 3 || count % 60 == 0),
        r matches Some(line) ==> line@ == match outcome {
            Outcome::NoDc => "[ddraw] capture GetDC FAIL #"@ + dbg::decimal(count as nat)
                + " hr=0x"@ + dbg::hex_wide(status as nat, 8) + " this=0x"@ + dbg::hex(this as nat),
            Outcome::Copied => "[ddraw] capture OK #"@ + dbg::decimal(count as nat) + " this=0x"@
                + dbg::hex(this as nat) + " "@ + dbg::signed(width as int) + "x"@ + dbg::signed(
                height as int,
            ),
            _ => "[ddraw] capture BitBlt FAIL #"@ + dbg::decimal(count as nat) + " this=0x"@
                + dbg::hex(this as nat),
        },
{
    if !maybe_log_capture(count) {
        return None;
    }
    match outcome {
        Outcome::Skipped => None,
        Outcome::NoDc => Some(capture_without_dc(count, status, this)),
        Outcome::Copied => Some(capture_done(count, this, width, height)),
        Outcome::NotCopied => Some(capture_failed(count, this)),
    }
}

/// Why an entry could not be replaced.
#[derive(Clone, Copy, Debug, PartialEq, Eq, Structural)]
pub enum SlotError {
    /// The entry is null.
    Null,
    /// The entry could not be made writable.
    NotWritable,
}

impl SlotError {
    /// What is said of the failure, by the number and the address of the entry.
    pub fn message(&self, index: usize, address: usize) -> (r: String)
        ensures
            r@ == match self {
                SlotError::Null => "vtable["@ + dbg::decimal(index as nat) + "] slot @ 0x"@
                    + dbg::hex(address as nat) + " 是 null"@,
                SlotError::NotWritable => "VirtualProtect failed at 0x"@ + dbg::hex(address as nat),
            },
    {
        match self {
            SlotError::Null => Line::new("vtable[").decimal(index as u64).text("] slot @ 0x").hex(
                address as u64,
            ).text(" 是 null").done(),
            SlotError::NotWritable => Line::new("VirtualProtect failed at 0x").hex(
                address as u64,
            ).done(),
        }
    }
}

/// Why the primary surface could not be hooked.
#[derive(Clone, Copy, Debug, PartialEq, Eq, Structural)]
pub enum SurfaceError {
    /// There is no primary surface yet.
    NoSurface,
    /// The surface has no table.
    NoTable,
    /// An entry for the device context is null.
    NoDcEntries,
    /// The capture buffer could not be made.
    NoBuffer,
    /// The capture buffer could not be kept.
    BufferInUse,
    /// An entry could not be replaced.
    NotPatched,
}

impl SurfaceError {
    /// What is said of the failure, by the address of the surface; `cause` is what was said of the
    /// lock or the entry that failed.
    pub fn message(&self, surface: usize, cause: &str) -> (r: String)
        ensures
            r@ == match self {
                SurfaceError::NoSurface => "primary surface global @ 0x"@ + dbg::hex(
                    PRIMARY_SURFACE_GLOBAL as nat,
                ) + " 是 null — game 還沒 init?"@,
                SurfaceError::NoTable => "surface 0x"@ + dbg::hex(surface as nat)
                    + " 的 vtable 是 null"@,
                SurfaceError::NoDcEntries => "GetDC / ReleaseDC vtable entry 是 null"@,
                SurfaceError::NoBuffer => "create capture buffer failed"@,
                SurfaceError::BufferInUse => cause@,
                SurfaceError::NotPatched => cause@,
            },
    {
        match self {
            SurfaceError::NoSurface => Line::new("primary surface global @ 0x").hex(
                PRIMARY_SURFACE_GLOBAL as u64,
            ).text(" 是 null — game 還沒 init?").done(),
            SurfaceError::NoTable => Line::new("surface 0x").hex(surface as u64).text(
                " 的 vtable 是 null",
            ).done(),
            SurfaceError::NoDcEntries => Line::new("GetDC / ReleaseDC vtable entry 是 null").done(),
            SurfaceError::NoBuffer => Line::new("create capture buffer failed").done(),
            SurfaceError::BufferInUse | SurfaceError::NotPatched => Line::new(cause).done(),
        }
    }
}

/// How far the making of the capture buffer has come.
#[derive(Clone, Copy, Debug, PartialEq, Eq, Structural)]
pub enum BuildPhase {
    /// Create the device context.
    CreateDc,
    /// Create the bitmap.
    CreateBitmap,
    /// Select the bitmap.
    Select,
    /// Delete the device context.
    DeleteDc,
    /// Everything is done.
    Finished,
}

/// The making of the capture buffer: a device context in memory with a bitmap selected into it.
#[derive(Clone, Copy, Debug, PartialEq, Eq)]
pub struct BufferBuild {
    /// The call that is due.
    pub phase: BuildPhase,
    /// The device context.
    pub dc: isize,
    /// The bitmap.
    pub bitmap: isize,
    /// What was selected before.
    pub previous: isize,
    /// Whether the buffer has been made.
    pub built: bool,
}

impl CallSequence for BufferBuild {
    open spec fn after(self, reply: Reply) -> BufferBuild {
        match (self.phase, reply) {
            (BuildPhase::CreateDc, Reply::Handle(dc)) => if dc != 0 && dc != -1 {
                BufferBuild { phase: BuildPhase::CreateBitmap, dc, ..self }
            } else {
                BufferBuild { phase: BuildPhase::Finished, built: false, ..self }
            },
            (BuildPhase::CreateBitmap, Reply::Handle(bitmap)) => if bitmap != 0 {
                BufferBuild { phase: BuildPhase::Select, bitmap, ..self }
            } else {
                BufferBuild { phase: BuildPhase::DeleteDc, ..self }
            },
            (BuildPhase::Select, Reply::Handle(previous)) => BufferBuild {
                phase: BuildPhase::Finished,
                previous,
                built: true,
                ..self
            },
            (BuildPhase::DeleteDc, Reply::Done) => BufferBuild {
                phase: BuildPhase::Finished,
                built: false,
                ..self
            },
            _ => self,
        }
    }

    open spec fn awaits(self, reply: Reply) -> bool {
        match self.phase {
            BuildPhase::CreateDc
            | BuildPhase::CreateBitmap
            | BuildPhase::Select => reply is Handle,
            BuildPhase::Finished => false,
            _ => reply is Done,
        }
    }

    open spec fn rank(self) -> nat {
        match self.phase {
            BuildPhase::CreateDc => 4,
            BuildPhase::CreateBitmap => 3,
            BuildPhase::Select => 2,
            BuildPhase::DeleteDc => 1,
            BuildPhase::Finished => 0,
        }
    }

    open spec fn held(self) -> Multiset<Resource> {
        let dc = Multiset::singleton(Resource::MemoryDc { hdc: self.dc });
        let bitmap = Multiset::singleton(Resource::Bitmap { bitmap: self.bitmap });
        let selection = Multiset::singleton(
            Resource::Selection { hdc: self.dc, previous: self.previous },
        );
        match self.phase {
            BuildPhase::CreateDc => Multiset::empty(),
            BuildPhase::CreateBitmap
            | BuildPhase::DeleteDc => dc,
            BuildPhase::Select => dc.add(bitmap),
            BuildPhase::Finished => if self.built {
                dc.add(bitmap).add(selection)
            } else {
                Multiset::empty()
            },
        }
    }

    open spec fn takes(self, reply: Reply) -> Multiset<Resource> {
        match (self.phase, reply) {
            (BuildPhase::CreateDc, Reply::Handle(hdc)) => if hdc != 0 && hdc != -1 {
                Multiset::singleton(Resource::MemoryDc { hdc })
            } else {
                Multiset::empty()
            },
            (BuildPhase::CreateBitmap, Reply::Handle(bitmap)) => if bitmap != 0 {
                Multiset::singleton(Resource::Bitmap { bitmap })
            } else {
                Multiset::empty()
            },
            (BuildPhase::Select, Reply::Handle(previous)) => Multiset::singleton(
                Resource::Selection { hdc: self.dc, previous },
            ),
            _ => Multiset::empty(),
        }
    }

    open spec fn gives(self) -> Multiset<Resource> {
        match self.phase {
            BuildPhase::DeleteDc => Multiset::singleton(Resource::MemoryDc { hdc: self.dc }),
            _ => Multiset::empty(),
        }
    }

    proof fn lemma_call(self, reply: Reply) {
    }
}

impl BufferBuild {
    /// The making of the capture buffer that has not begun yet.
    pub fn new() -> (r: Self)
        ensures
            r == (BufferBuild {
                phase: BuildPhase::CreateDc,
                dc: 0,
                bitmap: 0,
                previous: 0,
                built: false,
            }),
    {
        BufferBuild { phase: BuildPhase::CreateDc, dc: 0, bitmap: 0, previous: 0, built: false }
    }

    /// The state after an answer.
    pub fn step(self, reply: Reply) -> (r: BufferBuild)
        ensures
            r == self.after(reply),
    {
        match (self.phase, reply) {
            (BuildPhase::CreateDc, Reply::Handle(dc)) => {
                if dc != 0 && dc != -1 {
                    BufferBuild { phase: BuildPhase::CreateBitmap, dc, ..self }
                } else {
                    BufferBuild { phase: BuildPhase::Finished, built: false, ..self }
                }
            },
            (BuildPhase::CreateBitmap, Reply::Handle(bitmap)) => {
                if bitmap != 0 {
                    BufferBuild { phase: BuildPhase::Select, bitmap, ..self }
                } else {
                    BufferBuild { phase: BuildPhase::DeleteDc, ..self }
                }
            },
            (BuildPhase::Select, Reply::Handle(previous)) => {
                BufferBuild { phase: BuildPhase::Finished, previous, built: true, ..self }
            },
            (BuildPhase::DeleteDc, Reply::Done) => {
                BufferBuild { phase: BuildPhase::Finished, built: false, ..self }
            },
            _ => self,
        }
    }
}

/// The captured picture: a device context with a bitmap selected into it, and its size.
#[derive(Clone, Copy, Debug, PartialEq, Eq, Structural)]
pub struct CaptureBuffer {
    /// The device context.
    pub dc: isize,
    /// The bitmap.
    pub bitmap: isize,
    /// What was selected before.
    pub previous: isize,
    /// Width of the bitmap.
    pub width: i32,
    /// Height of the bitmap.
    pub height: i32,
}

impl BufferBuild {
    /// The buffer of this size that has been made; `None` where it could not be.
    pub fn buffer(&self, width: i32, height: i32) -> (r: Option<CaptureBuffer>)
        ensures
            r == if self.built {
                Some(
                    CaptureBuffer {
                        dc: self.dc,
                        bitmap: self.bitmap,
                        previous: self.previous,
                        width,
                        height,
                    },
                )
            } else {
                None
            },
    {
        if self.built {
            Some(
                CaptureBuffer {
                    dc: self.dc,
                    bitmap: self.bitmap,
                    previous: self.previous,
                    width,
                    height,
                },
            )
        } else {
            None
        }
    }
}

/// The device context of the captured picture and its size, where there is one.
pub fn with_capture_dc(buffer: &Option<CaptureBuffer>) -> (r: Option<(isize, i32, i32)>)
    ensures
        r == match buffer {
            Some(b) => Some((b.dc, b.width, b.height)),
            None => None,
        },
{
    match buffer {
        Some(b) => Some((b.dc, b.width, b.height)),
        None => None,
    }
}

/// How far the capture of the primary surface has come.
#[derive(Clone, Copy, Debug, PartialEq, Eq, Structural)]
pub enum CapturePhase {
    /// Take the device context of the surface.
    TakeDc,
    /// Copy the picture.
    Copy,
    /// Give the device context back.
    GiveDc,
    /// Everything is done.
    Finished,
}

/// The capture of the primary surface: its picture is copied to the capture buffer.
#[derive(Clone, Copy, Debug, PartialEq, Eq)]
pub struct SurfaceCapture {
    /// The call that is due.
    pub phase: CapturePhase,
    /// The device context of the surface.
    pub hdc: isize,
    /// What has come of it.
    pub outcome: Outcome,
}

impl CallSequence for SurfaceCapture {
    open spec fn after(self, reply: Reply) -> SurfaceCapture {
        match (self.phase, reply) {
            (CapturePhase::TakeDc, Reply::Handle(hdc)) => if hdc != 0 && hdc != -1 {
                SurfaceCapture { phase: CapturePhase::Copy, hdc, ..self }
            } else {
                SurfaceCapture { phase: CapturePhase::Finished, outcome: Outcome::NoDc, ..self }
            },
            (CapturePhase::Copy, Reply::Flag(copied)) => if copied {
                SurfaceCapture { phase: CapturePhase::GiveDc, outcome: Outcome::Copied, ..self }
            } else {
                SurfaceCapture {
                    phase: CapturePhase::GiveDc,
                    outcome: Outcome::NotCopied,
                    ..self
                }
            },
            (CapturePhase::GiveDc, Reply::Done) => SurfaceCapture {
                phase: CapturePhase::Finished,
                ..self
            },
            _ => self,
        }
    }

    open spec fn awaits(self, reply: Reply) -> bool {
        match self.phase {
            CapturePhase::TakeDc => reply is Handle,
            CapturePhase::Copy => reply is Flag,
            CapturePhase::Finished => false,
            _ => reply is Done,
        }
    }

    open spec fn rank(self) -> nat {
        match self.phase {
            CapturePhase::TakeDc => 3,
            CapturePhase::Copy => 2,
            CapturePhase::GiveDc => 1,
            CapturePhase::Finished => 0,
        }
    }

    open spec fn held(self) -> Multiset<Resource> {
        let dc = Multiset::singleton(Resource::SurfaceDc { hdc: self.hdc });
        match self.phase {
            CapturePhase::TakeDc
            | CapturePhase::Finished => Multiset::empty(),
            CapturePhase::Copy
            | CapturePhase::GiveDc => dc,
        }
    }

    open spec fn takes(self, reply: Reply) -> Multiset<Resource> {
        match (self.phase, reply) {
            (CapturePhase::TakeDc, Reply::Handle(hdc)) => if hdc != 0 && hdc != -1 {
                Multiset::singleton(Resource::SurfaceDc { hdc })
            } else {
                Multiset::empty()
            },
            _ => Multiset::empty(),
        }
    }

    open spec fn gives(self) -> Multiset<Resource> {
        match self.phase {
            CapturePhase::GiveDc => Multiset::singleton(Resource::SurfaceDc { hdc: self.hdc }),
            _ => Multiset::empty(),
        }
    }

    proof fn lemma_call(self, reply: Reply) {
    }
}

impl SurfaceCapture {
    /// The capture of the primary surface. Nothing is done as long as one of the two entries for
    /// the device context is not known, or there is no buffer.
    pub fn new(getdc: usize, releasedc: usize, buffer: bool) -> (r: Self)
        ensures
            r == (SurfaceCapture {
                phase: if getdc == 0 || releasedc == 0 || !buffer {
                    CapturePhase::Finished
                } else {
                    CapturePhase::TakeDc
                },
                hdc: 0,
                outcome: Outcome::Skipped,
            }),
    {
        let phase = if getdc == 0 || releasedc == 0 || !buffer {
            CapturePhase::Finished
        } else {
            CapturePhase::TakeDc
        };
        SurfaceCapture { phase, hdc: 0, outcome: Outcome::Skipped }
    }

    /// The state after an answer.
    pub fn step(self, reply: Reply) -> (r: SurfaceCapture)
        ensures
            r == self.after(reply),
    {
        match (self.phase, reply) {
            (CapturePhase::TakeDc, Reply::Handle(hdc)) => {
                if hdc != 0 && hdc != -1 {
                    SurfaceCapture { phase: CapturePhase::Copy, hdc, ..self }
                } else {
                    SurfaceCapture {
                        phase: CapturePhase::Finished,
                        outcome: Outcome::NoDc,
                        ..self
                    }
                }
            },
            (CapturePhase::Copy, Reply::Flag(copied)) => {
                if copied {
                    SurfaceCapture {
                        phase: CapturePhase::GiveDc,
                        outcome: Outcome::Copied,
                        ..self
                    }
                } else {
                    SurfaceCapture {
                        phase: CapturePhase::GiveDc,
                        outcome: Outcome::NotCopied,
                        ..self
                    }
                }
            },
            (CapturePhase::GiveDc, Reply::Done) => {
                SurfaceCapture { phase: CapturePhase::Finished, ..self }
            },
            _ => self,
        }
    }
}

/// How far the replacement of one entry has come.
#[derive(Clone, Copy, Debug, PartialEq, Eq, Structural)]
pub enum SlotPhase {
    /// Read the entry.
    Read,
    /// Make the entry writable.
    Unprotect,
    /// Keep the entry as the original.
    Save,
    /// Write the new entry.
    Write,
    /// Protect the entry again as it was.
    Protect,
    /// Everything is done.
    Finished,
}

/// The replacement of one entry in the table of a surface.
#[derive(Clone, Copy, Debug, PartialEq, Eq)]
pub struct SlotPatch {
    /// The call that is due.
    pub phase: SlotPhase,
    /// The original entry.
    pub original: isize,
    /// What has come of it.
    pub result: Result<(), SlotError>,
}

impl CallSequence for SlotPatch {
    open spec fn after(self, reply: Reply) -> SlotPatch {
        match (self.phase, reply) {
            (SlotPhase::Read, Reply::Handle(original)) => if original != 0 {
                SlotPatch { phase: SlotPhase::Unprotect, original, ..self }
            } else {
                SlotPatch { phase: SlotPhase::Finished, result: Err(SlotError::Null), ..self }
            },
            (SlotPhase::Unprotect, Reply::Flag(ok)) => if ok {
                SlotPatch { phase: SlotPhase::Save, ..self }
            } else {
                SlotPatch {
                    phase: SlotPhase::Finished,
                    result: Err(SlotError::NotWritable),
                    ..self
                }
            },
            (SlotPhase::Save, Reply::Done) => SlotPatch { phase: SlotPhase::Write, ..self },
            (SlotPhase::Write, Reply::Done) => SlotPatch { phase: SlotPhase::Protect, ..self },
            (SlotPhase::Protect, Reply::Done) => SlotPatch {
                phase: SlotPhase::Finished,
                result: Ok(()),
                ..self
            },
            _ => self,
        }
    }

    open spec fn awaits(self, reply: Reply) -> bool {
        match self.phase {
            SlotPhase::Read => reply is Handle,
            SlotPhase::Unprotect => reply is Flag,
            SlotPhase::Finished => false,
            _ => reply is Done,
        }
    }

    open spec fn rank(self) -> nat {
        match self.phase {
            SlotPhase::Read => 5,
            SlotPhase::Unprotect => 4,
            SlotPhase::Save => 3,
            SlotPhase::Write => 2,
            SlotPhase::Protect => 1,
            SlotPhase::Finished => 0,
        }
    }

    open spec fn held(self) -> Multiset<Resource> {
        Multiset::empty()
    }

    open spec fn takes(self, reply: Reply) -> Multiset<Resource> {
        Multiset::empty()
    }

    open spec fn gives(self) -> Multiset<Resource> {
        Multiset::empty()
    }

    proof fn lemma_call(self, reply: Reply) {
    }
}

impl SlotPatch {
    /// The replacement of an entry that has not begun yet.
    pub fn new() -> (r: Self)
        ensures
            r == (SlotPatch { phase: SlotPhase::Read, original: 0, result: Ok(()) }),
    {
        SlotPatch { phase: SlotPhase::Read, original: 0, result: Ok(()) }
    }

    /// The state after an answer.
    pub fn step(self, reply: Reply) -> (r: SlotPatch)
        ensures
            r == self.after(reply),
    {
        match (self.phase, reply) {
            (SlotPhase::Read, Reply::Handle(original)) => {
                if original != 0 {
                    SlotPatch { phase: SlotPhase::Unprotect, original, ..self }
                } else {
                    SlotPatch {
                        phase: SlotPhase::Finished,
                        result: Err(SlotError::Null),
                        ..self
                    }
                }
            },
            (SlotPhase::Unprotect, Reply::Flag(ok)) => {
                if ok {
                    SlotPatch { phase: SlotPhase::Save, ..self }
                } else {
                    SlotPatch {
                        phase: SlotPhase::Finished,
                        result: Err(SlotError::NotWritable),
                        ..self
                    }
                }
            },
            (SlotPhase::Save, Reply::Done) => {
                SlotPatch { phase: SlotPhase::Write, ..self }
            },
            (SlotPhase::Write, Reply::Done) => {
                SlotPatch { phase: SlotPhase::Protect, ..self }
            },
            (SlotPhase::Protect, Reply::Done) => {
                SlotPatch { phase: SlotPhase::Finished, result: Ok(()), ..self }
            },
            _ => self,
        }
    }
}

/// How far the hooking of the primary surface has come.
#[derive(Clone, Copy, Debug, PartialEq, Eq, Structural)]
pub enum SurfacePhase {
    /// Read the address of the primary surface.
    ReadSurface,
    /// Read the address of its table.
    ReadTable,
    /// Note the surface.
    StoreSurface,
    /// Read the entry that takes the device context.
    ReadGetDc,
    /// Read the entry that gives it back.
    ReadReleaseDc,
    /// Note the two entries.
    StoreDcEntries,
    /// Make the capture buffer.
    CreateBuffer,
    /// Keep the capture buffer.
    StoreBuffer,
    /// Replace the entry that copies.
    PatchBlt,
    /// Replace the entry that copies fast.
    PatchBltFast,
    /// Replace the entry that flips.
    PatchFlip,
    /// Note that the surface is hooked.
    MarkInstalled,
    /// Everything is done.
    Finished,
}

/// The hooking of the primary surface: its table is found, the entries for the device context are
/// noted, the capture buffer is made, and three entries are replaced. The first failure ends it.
#[derive(Clone, Copy, Debug, PartialEq, Eq)]
pub struct SurfaceInstall {
    /// The call that is due.
    pub phase: SurfacePhase,
    /// The primary surface.
    pub surface: isize,
    /// Its table.
    pub table: isize,
    /// The entry that takes the device context.
    pub getdc: isize,
    /// The entry that gives it back.
    pub releasedc: isize,
    /// What has come of it.
    pub result: Result<(), SurfaceError>,
}

impl CallSequence for SurfaceInstall {
    open spec fn after(self, reply: Reply) -> SurfaceInstall {
        match (self.phase, reply) {
            (SurfacePhase::ReadSurface, Reply::Handle(surface)) => if surface != 0 {
                SurfaceInstall { phase: SurfacePhase::ReadTable, surface, ..self }
            } else {
                SurfaceInstall {
                    phase: SurfacePhase::Finished,
                    result: Err(SurfaceError::NoSurface),
                    ..self
                }
            },
            (SurfacePhase::ReadTable, Reply::Handle(table)) => if table != 0 {
                SurfaceInstall { phase: SurfacePhase::StoreSurface, table, ..self }
            } else {
                SurfaceInstall {
                    phase: SurfacePhase::Finished,
                    result: Err(SurfaceError::NoTable),
                    ..self
                }
            },
            (SurfacePhase::StoreSurface, Reply::Done) => SurfaceInstall {
                phase: SurfacePhase::ReadGetDc,
                ..self
            },
            (SurfacePhase::ReadGetDc, Reply::Handle(getdc)) => SurfaceInstall {
                phase: SurfacePhase::ReadReleaseDc,
                getdc,
                ..self
            },
            (SurfacePhase::ReadReleaseDc, Reply::Handle(releasedc)) => if self.getdc != 0
                && releasedc != 0 {
                SurfaceInstall { phase: SurfacePhase::StoreDcEntries, releasedc, ..self }
            } else {
                SurfaceInstall {
                    phase: SurfacePhase::Finished,
                    result: Err(SurfaceError::NoDcEntries),
                    ..self
                }
            },
            (SurfacePhase::StoreDcEntries, Reply::Done) => SurfaceInstall {
                phase: SurfacePhase::CreateBuffer,
                ..self
            },
            (SurfacePhase::CreateBuffer, Reply::Flag(ok)) => if ok {
                SurfaceInstall { phase: SurfacePhase::StoreBuffer, ..self }
            } else {
                SurfaceInstall {
                    phase: SurfacePhase::Finished,
                    result: Err(SurfaceError::NoBuffer),
                    ..self
                }
            },
            (SurfacePhase::StoreBuffer, Reply::Flag(ok)) => if ok {
                SurfaceInstall { phase: SurfacePhase::PatchBlt, ..self }
            } else {
                SurfaceInstall {
                    phase: SurfacePhase::Finished,
                    result: Err(SurfaceError::BufferInUse),
                    ..self
                }
            },
            (SurfacePhase::PatchBlt, Reply::Flag(ok)) => if ok {
                SurfaceInstall { phase: SurfacePhase::PatchBltFast, ..self }
            } else {
                SurfaceInstall {
                    phase: SurfacePhase::Finished,
                    result: Err(SurfaceError::NotPatched),
                    ..self
                }
            },
            (SurfacePhase::PatchBltFast, Reply::Flag(ok)) => if ok {
                SurfaceInstall { phase: SurfacePhase::PatchFlip, ..self }
            } else {
                SurfaceInstall {
                    phase: SurfacePhase::Finished,
                    result: Err(SurfaceError::NotPatched),
                    ..self
                }
            },
            (SurfacePhase::PatchFlip, Reply::Flag(ok)) => if ok {
                SurfaceInstall { phase: SurfacePhase::MarkInstalled, ..self }
            } else {
                SurfaceInstall {
                    phase: SurfacePhase::Finished,
                    result: Err(SurfaceError::NotPatched),
                    ..self
                }
            },
            (SurfacePhase::MarkInstalled, Reply::Done) => SurfaceInstall {
                phase: SurfacePhase::Finished,
                result: Ok(()),
                ..self
            },
            _ => self,
        }
    }

    open spec fn awaits(self, reply: Reply) -> bool {
        match self.phase {
            SurfacePhase::ReadSurface
            | SurfacePhase::ReadTable
            | SurfacePhase::ReadGetDc
            | SurfacePhase::ReadReleaseDc => reply is Handle,
            SurfacePhase::CreateBuffer
            | SurfacePhase::StoreBuffer
            | SurfacePhase::PatchBlt
            | SurfacePhase::PatchBltFast
            | SurfacePhase::PatchFlip => reply is Flag,
            SurfacePhase::Finished => false,
            _ => reply is Done,
        }
    }

    open spec fn rank(self) -> nat {
        match self.phase {
            SurfacePhase::ReadSurface => 12,
            SurfacePhase::ReadTable => 11,
            SurfacePhase::StoreSurface => 10,
            SurfacePhase::ReadGetDc => 9,
            SurfacePhase::ReadReleaseDc => 8,
            SurfacePhase::StoreDcEntries => 7,
            SurfacePhase::CreateBuffer => 6,
            SurfacePhase::StoreBuffer => 5,
            SurfacePhase::PatchBlt => 4,
            SurfacePhase::PatchBltFast => 3,
            SurfacePhase::PatchFlip => 2,
            SurfacePhase::MarkInstalled => 1,
            SurfacePhase::Finished => 0,
        }
    }

    open spec fn held(self) -> Multiset<Resource> {
        Multiset::empty()
    }

    open spec fn takes(self, reply: Reply) -> Multiset<Resource> {
        Multiset::empty()
    }

    open spec fn gives(self) -> Multiset<Resource> {
        Multiset::empty()
    }

    proof fn lemma_call(self, reply: Reply) {
    }
}

impl SurfaceInstall {
    /// The hooking of the primary surface that has not begun yet.
    pub open spec fn fresh(installed: bool) -> SurfaceInstall {
        SurfaceInstall {
            phase: if installed {
                SurfacePhase::Finished
            } else {
                SurfacePhase::ReadSurface
            },
            surface: 0,
            table: 0,
            getdc: 0,
            releasedc: 0,
            result: Ok(()),
        }
    }

    /// The state after an answer.
    pub fn step(self, reply: Reply) -> (r: SurfaceInstall)
        ensures
            r == self.after(reply),
    {
        match (self.phase, reply) {
            (SurfacePhase::ReadSurface, Reply::Handle(surface)) => {
                if surface != 0 {
                    SurfaceInstall { phase: SurfacePhase::ReadTable, surface, ..self }
                } else {
                    SurfaceInstall {
                        phase: SurfacePhase::Finished,
                        result: Err(SurfaceError::NoSurface),
                        ..self
                    }
                }
            },
            (SurfacePhase::ReadTable, Reply::Handle(table)) => {
                if table != 0 {
                    SurfaceInstall { phase: SurfacePhase::StoreSurface, table, ..self }
                } else {
                    SurfaceInstall {
                        phase: SurfacePhase::Finished,
                        result: Err(SurfaceError::NoTable),
                        ..self
                    }
                }
            },
            (SurfacePhase::StoreSurface, Reply::Done) => {
                SurfaceInstall { phase: SurfacePhase::ReadGetDc, ..self }
            },
            (SurfacePhase::ReadGetDc, Reply::Handle(getdc)) => {
                SurfaceInstall { phase: SurfacePhase::ReadReleaseDc, getdc, ..self }
            },
            (SurfacePhase::ReadReleaseDc, Reply::Handle(releasedc)) => {
                if self.getdc != 0 && releasedc != 0 {
                    SurfaceInstall { phase: SurfacePhase::StoreDcEntries, releasedc, ..self }
                } else {
                    SurfaceInstall {
                        phase: SurfacePhase::Finished,
                        result: Err(SurfaceError::NoDcEntries),
                        ..self
                    }
                }
            },
            (SurfacePhase::StoreDcEntries, Reply::Done) => {
                SurfaceInstall { phase: SurfacePhase::CreateBuffer, ..self }
            },
            (SurfacePhase::CreateBuffer, Reply::Flag(ok)) => {
                if ok {
                    SurfaceInstall { phase: SurfacePhase::StoreBuffer, ..self }
                } else {
                    SurfaceInstall {
                        phase: SurfacePhase::Finished,
                        result: Err(SurfaceError::NoBuffer),
                        ..self
                    }
                }
            },
            (SurfacePhase::StoreBuffer, Reply::Flag(ok)) => {
                if ok {
                    SurfaceInstall { phase: SurfacePhase::PatchBlt, ..self }
                } else {
                    SurfaceInstall {
                        phase: SurfacePhase::Finished,
                        result: Err(SurfaceError::BufferInUse),
                        ..self
                    }
                }
            },
            (SurfacePhase::PatchBlt, Reply::Flag(ok)) => {
                if ok {
                    SurfaceInstall { phase: SurfacePhase::PatchBltFast, ..self }
                } else {
                    SurfaceInstall {
                        phase: SurfacePhase::Finished,
                        result: Err(SurfaceError::NotPatched),
                        ..self
                    }
                }
            },
            (SurfacePhase::PatchBltFast, Reply::Flag(ok)) => {
                if ok {
                    SurfaceInstall { phase: SurfacePhase::PatchFlip, ..self }
                } else {
                    SurfaceInstall {
                        phase: SurfacePhase::Finished,
                        result: Err(SurfaceError::NotPatched),
                        ..self
                    }
                }
            },
            (SurfacePhase::PatchFlip, Reply::Flag(ok)) => {
                if ok {
                    SurfaceInstall { phase: SurfacePhase::MarkInstalled, ..self }
                } else {
                    SurfaceInstall {
                        phase: SurfacePhase::Finished,
                        result: Err(SurfaceError::NotPatched),
                        ..self
                    }
                }
            },
            (SurfacePhase::MarkInstalled, Reply::Done) => {
                SurfaceInstall { phase: SurfacePhase::Finished, result: Ok(()), ..self }
            },
            _ => self,
        }
    }
}

/// Starts the hooking of the primary surface; where it has been hooked already, nothing is done.
pub fn install(installed: bool) -> (r: SurfaceInstall)
    ensures
        r == SurfaceInstall::fresh(installed),
{
    let phase = if installed { SurfacePhase::Finished } else { SurfacePhase::ReadSurface };
    SurfaceInstall { phase, surface: 0, table: 0, getdc: 0, releasedc: 0, result: Ok(()) }
}

/// A capture gives the device context of the surface back, wherever it breaks off.
pub proof fn law_capture_gives_back(m: SurfaceCapture, replies: Seq<Reply>)
    requires
        m.phase == CapturePhase::TakeDc,
        calls::answered(m, replies),
        calls::run(m, replies).phase == CapturePhase::Finished,
    ensures
        calls::taken(m, replies) == calls::given(m, replies),
{
    calls::law_all_is_given_back(m, replies);
}

/// The making of the capture buffer leaves nothing behind where it fails.
pub proof fn law_failed_build_gives_back(m: BufferBuild, replies: Seq<Reply>)
    requires
        m.phase == BuildPhase::CreateDc,
        calls::answered(m, replies),
        calls::run(m, replies).phase == BuildPhase::Finished,
        !calls::run(m, replies).built,
    ensures
        calls::taken(m, replies) == calls::given(m, replies),
{
    calls::law_all_is_given_back(m, replies);
}

/// A capture buffer that has been made holds its device context, its bitmap and the selection, and
/// no more: that is all that was taken for it.
pub proof fn law_build_holds_its_parts(m: BufferBuild, replies: Seq<Reply>)
    requires
        m.phase == BuildPhase::CreateDc,
        calls::answered(m, replies),
        calls::run(m, replies).phase == BuildPhase::Finished,
        calls::run(m, replies).built,
    ensures
        ({
            let b = calls::run(m, replies);
            calls::taken(m, replies) == Multiset::singleton(Resource::MemoryDc { hdc: b.dc }).add(
                Multiset::singleton(Resource::Bitmap { bitmap: b.bitmap }),
            ).add(Multiset::singleton(Resource::Selection { hdc: b.dc, previous: b.previous }))
        }),
        calls::given(m, replies) == Multiset::<Resource>::empty(),
{
    reveal_with_fuel(calls::run, 5);
    reveal_with_fuel(calls::answered, 5);
    reveal_with_fuel(calls::given, 5);
    calls::law_calls_end(m, replies);
    calls::law_calls_balance(m, replies);
    assert(replies.len() == 3);
    let none = Multiset::<Resource>::empty();
    assert(calls::given(m, replies) == none.add(none.add(none.add(none))));
    assert(calls::given(m, replies) =~= Multiset::<Resource>::empty());
    assert forall|r: Resource| calls::taken(m, replies).count(r) == calls::run(m, replies).held().count(r) by {
        assert(m.held().add(calls::taken(m, replies)).count(r) == calls::run(m, replies).held().add(
            calls::given(m, replies),
        ).count(r));
    }
    assert(calls::taken(m, replies) =~= calls::run(m, replies).held());
}

/// An entry is replaced only after the original has been kept, so that the hook can always go on to
/// it: wherever the new entry is about to be written, the entry that was read is not null, has been
/// made writable and has been kept.
pub proof fn law_original_is_kept(m: SlotPatch, replies: Seq<Reply>)
    requires
        m.phase == SlotPhase::Read,
        calls::answered(m, replies),
        calls::run(m, replies).phase == SlotPhase::Write,
    ensures
        replies.len() == 3,
        replies[0] == Reply::Handle(calls::run(m, replies).original),
        calls::run(m, replies).original != 0,
        replies[1] == Reply::Flag(true),
        replies[2] is Done,
{
    reveal_with_fuel(calls::run, 7);
    reveal_with_fuel(calls::answered, 7);
    calls::law_calls_end(m, replies);
}

/// The surface counts as hooked only after everything else has succeeded: the surface, its table
/// and both entries for the device context were there, the buffer has been made and kept, and all
/// three entries have been replaced.
pub proof fn law_marked_when_all_is_done(replies: Seq<Reply>)
    requires
        calls::answered(SurfaceInstall::fresh(false), replies),
        calls::run(SurfaceInstall::fresh(false), replies).phase == SurfacePhase::MarkInstalled,
    ensures
        ({
            let m = calls::run(SurfaceInstall::fresh(false), replies);
            &&& m.surface != 0 && m.table != 0 && m.getdc != 0 && m.releasedc != 0
            &&& replies.len() == 11
            &&& replies[0] == Reply::Handle(m.surface)
            &&& replies[1] == Reply::Handle(m.table)
            &&& replies[3] == Reply::Handle(m.getdc)
            &&& replies[4] == Reply::Handle(m.releasedc)
        }),
        forall|k: int| 6 <= k < 11 ==> #[trigger] replies[k] == Reply::Flag(true),
{
    reveal_with_fuel(calls::run, 13);
    reveal_with_fuel(calls::answered, 13);
    calls::law_calls_end(SurfaceInstall::fresh(false), replies);
}

/// The capture buffer is made wherever there are a device context and a bitmap, and holds just
/// these; without the first nothing is done, and without the second the first is deleted.
pub proof fn law_buffer_is_made_of_its_parts(m: BufferBuild, replies: Seq<Reply>)
    requires
        m.phase == BuildPhase::CreateDc,
        calls::answered(m, replies),
        calls::run(m, replies).phase == BuildPhase::Finished,
    ensures
        ({
            let f = calls::run(m, replies);
            let dc = replies[0]->Handle_0;
            let bitmap = replies[1]->Handle_0;
            if dc == 0 || dc == -1 {
                replies.len() == 1 && !f.built
            } else {
                &&& calls::at(m, replies, 1).phase == BuildPhase::CreateBitmap
                &&& calls::at(m, replies, 1).dc == dc
                &&& if bitmap == 0 {
                    &&& replies.len() == 3 && !f.built
                    &&& calls::at(m, replies, 2).phase == BuildPhase::DeleteDc
                    &&& calls::at(m, replies, 2).dc == dc
                } else {
                    &&& replies.len() == 3 && f.built
                    &&& calls::at(m, replies, 2).phase == BuildPhase::Select
                    &&& calls::at(m, replies, 2).dc == dc
                    &&& calls::at(m, replies, 2).bitmap == bitmap
                    &&& f.dc == dc && f.bitmap == bitmap
                    &&& replies[2] == Reply::Handle(f.previous)
                }
            }
        }),
{
    calls::lemma_calls(m, replies);
}

/// The picture is copied wherever the surface gives its device context, and that is given back
/// whether the copy succeeds or not; the outcome tells which of it happened.
pub proof fn law_capture_copies_the_picture(m: SurfaceCapture, replies: Seq<Reply>)
    requires
        m.phase == CapturePhase::TakeDc,
        calls::answered(m, replies),
        calls::run(m, replies).phase == CapturePhase::Finished,
    ensures
        ({
            let f = calls::run(m, replies);
            let hdc = replies[0]->Handle_0;
            if hdc == 0 || hdc == -1 {
                replies.len() == 1 && f.outcome == Outcome::NoDc
            } else {
                &&& replies.len() == 3
                &&& calls::at(m, replies, 1).phase == CapturePhase::Copy
                &&& calls::at(m, replies, 1).hdc == hdc
                &&& calls::at(m, replies, 2).phase == CapturePhase::GiveDc
                &&& calls::at(m, replies, 2).hdc == hdc
                &&& replies[1] == Reply::Flag(true) ==> f.outcome == Outcome::Copied
                &&& replies[1] == Reply::Flag(false) ==> f.outcome == Outcome::NotCopied
            }
        }),
{
    calls::lemma_calls(m, replies);
}

/// An entry is replaced wherever it is not null and can be made writable: it is kept, written and
/// protected again, in this order. The result tells which of the two was missing elsewhere.
pub proof fn law_entry_is_replaced(m: SlotPatch, replies: Seq<Reply>)
    requires
        m.phase == SlotPhase::Read,
        calls::answered(m, replies),
        calls::run(m, replies).phase == SlotPhase::Finished,
    ensures
        ({
            let f = calls::run(m, replies);
            let original = replies[0]->Handle_0;
            if original == 0 {
                replies.len() == 1 && f.result == Err::<(), SlotError>(SlotError::Null)
            } else {
                let read = SlotPatch { original, ..m };
                &&& calls::at(m, replies, 1) == (SlotPatch { phase: SlotPhase::Unprotect, ..read })
                &&& if replies[1] == Reply::Flag(true) {
                    &&& replies.len() == 5
                    &&& calls::at(m, replies, 2) == (SlotPatch { phase: SlotPhase::Save, ..read })
                    &&& calls::at(m, replies, 3) == (SlotPatch { phase: SlotPhase::Write, ..read })
                    &&& calls::at(m, replies, 4) == (SlotPatch {
                        phase: SlotPhase::Protect,
                        ..read
                    })
                    &&& f.result == Ok::<(), SlotError>(())
                } else {
                    replies.len() == 2 && f.result == Err::<(), SlotError>(SlotError::NotWritable)
                }
            }
        }),
{
    calls::lemma_calls(m, replies);
}

/// The surface is hooked step by step: the surface and its table are read and the surface is kept,
/// the two entries for the device context are read and kept, the buffer is made and kept, and the
/// three drawing entries are replaced. Wherever nothing is missing all twelve calls are made; the
/// first thing that is missing ends it with its own error.
pub proof fn law_surface_is_hooked_step_by_step(replies: Seq<Reply>)
    requires
        calls::answered(SurfaceInstall::fresh(false), replies),
        calls::run(SurfaceInstall::fresh(false), replies).phase == SurfacePhase::Finished,
    ensures
        ({
            let m = SurfaceInstall::fresh(false);
            let f = calls::run(m, replies);
            let none = Reply::Handle(0);
            let no = Reply::Flag(false);
            let n = replies.len();
            let order = seq![
                SurfacePhase::ReadSurface,
                SurfacePhase::ReadTable,
                SurfacePhase::StoreSurface,
                SurfacePhase::ReadGetDc,
                SurfacePhase::ReadReleaseDc,
                SurfacePhase::StoreDcEntries,
                SurfacePhase::CreateBuffer,
                SurfacePhase::StoreBuffer,
                SurfacePhase::PatchBlt,
                SurfacePhase::PatchBltFast,
                SurfacePhase::PatchFlip,
                SurfacePhase::MarkInstalled,
            ];
            &&& 1 <= n <= 12
            &&& forall|k: int|
                0 <= k < n ==> (#[trigger] calls::at(m, replies, k)).phase == order[k]
            &&& replies[0] == none <==> n == 1
            &&& n > 1 ==> (replies[1] == none <==> n == 2)
            &&& n > 2 ==> n >= 5 && (replies[3] == none || replies[4] == none <==> n == 5)
            &&& n > 5 ==> n >= 7 && (replies[6] == no <==> n == 7)
            &&& n > 7 ==> (replies[7] == no <==> n == 8)
            &&& n > 8 ==> (replies[8] == no <==> n == 9)
            &&& n > 9 ==> (replies[9] == no <==> n == 10)
            &&& n > 10 ==> (replies[10] == no <==> n == 11)
            &&& f.result == if n == 1 {
                Err::<(), SurfaceError>(SurfaceError::NoSurface)
            } else if n == 2 {
                Err::<(), SurfaceError>(SurfaceError::NoTable)
            } else if n == 5 {
                Err::<(), SurfaceError>(SurfaceError::NoDcEntries)
            } else if n == 7 {
                Err::<(), SurfaceError>(SurfaceError::NoBuffer)
            } else if n == 8 {
                Err::<(), SurfaceError>(SurfaceError::BufferInUse)
            } else if n < 12 {
                Err::<(), SurfaceError>(SurfaceError::NotPatched)
            } else {
                Ok::<(), SurfaceError>(())
            }
            &&& n > 2 ==> calls::at(m, replies, 2).surface == replies[0]->Handle_0 && calls::at(
                m,
                replies,
                2,
            ).table == replies[1]->Handle_0
            &&& n > 5 ==> {
                let kept = calls::at(m, replies, 5);
                &&& kept.surface == replies[0]->Handle_0 && kept.table == replies[1]->Handle_0
                &&& kept.getdc == replies[3]->Handle_0 && kept.releasedc == replies[4]->Handle_0
                &&& f.surface == kept.surface && f.table == kept.table
                &&& f.getdc == kept.getdc && f.releasedc == kept.releasedc
            }
        }),
{
    let m = SurfaceInstall::fresh(false);
    calls::lemma_calls(m, replies);
}

/// A surface that has been hooked is not touched again.
pub proof fn law_surface_is_hooked_once(replies: Seq<Reply>)
    requires
        calls::answered(SurfaceInstall::fresh(true), replies),
    ensures
        replies.len() == 0,
        calls::run(SurfaceInstall::fresh(true), replies).result == Ok::<(), SurfaceError>(()),
{
    calls::lemma_calls(SurfaceInstall::fresh(true), replies);
}

} // verus!
