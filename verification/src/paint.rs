//! The painting of the candidate window and of the edit controls.
//!
//! Everything is painted into a bitmap in memory and then brought to the screen at once. Each way
//! of painting is a sequence of system calls in which device contexts and bitmaps are taken and
//! have to be given back wherever it breaks off.

use crate::calls::{self, CallSequence, Reply, Resource};
use crate::geometry::{Point, Rect};
use crate::overlay::Placement;
use vstd::multiset::Multiset;
use vstd::prelude::*;

verus! {

/// How many bytes a bitmap of this size takes at four bytes a pixel; `None` where the number is not
/// one that a coordinate can hold.
pub fn pixel_bytes(w: i32, h: i32) -> (r: Option<i32>)
    ensures
        r == if i32::MIN <= w * h <= i32::MAX && i32::MIN <= w * h * 4 <= i32::MAX {
            Some((w * h * 4) as i32)
        } else {
            None
        },
{
    let pixels: i32 = w.checked_mul(h)?;
    pixels.checked_mul(4)
}

/// Makes every pixel of a bitmap opaque: the fourth byte of each pixel, its alpha, is set to the
/// maximum, and the colours are left as they are.
pub fn make_opaque(bits: &mut [u8])
    ensures
        final(bits)@.len() == old(bits)@.len(),
        forall|i: int|
            0 <= i < old(bits)@.len() ==> final(bits)@[i] == if i % 4 == 3 {
                0xFF
            } else {
                old(bits)@[i]
            },
{
    let n: usize = bits.len();
    let ghost before = bits@;
    let mut i: usize = 0;
    while n - i >= 4
        invariant
            n == bits@.len(),
            n == before.len(),
            i <= n,
            i % 4 == 0,
            forall|k: int|
                0 <= k < n ==> bits@[k] == if k % 4 == 3 && k < i {
                    0xFF
                } else {
                    before[k]
                },
        decreases n - i,
    {
        bits[i + 3] = 0xFF;
        i = i + 4;
    }
}

/// The header of a bitmap with 32 bits a pixel whose rows go from the top down.
#[derive(Clone, Copy, Debug, PartialEq, Eq, Structural)]
pub struct BitmapHeader {
    /// Width in pixels.
    pub width: i32,
    /// Height in pixels; a negative one lets the rows go from the top down.
    pub height: i32,
    /// Number of planes.
    pub planes: u16,
    /// Bits a pixel.
    pub bits: u16,
}

/// The header of a bitmap of this size.
pub fn bitmap_header(width: i32, height: i32) -> (r: BitmapHeader)
    requires
        height != i32::MIN,
    ensures
        r == (BitmapHeader { width, height: (-height) as i32, planes: 1, bits: 32 }),
{
    BitmapHeader { width, height: -height, planes: 1, bits: 32 }
}

/// How far the painting of the candidate window has come.
#[derive(Clone, Copy, Debug, PartialEq, Eq, Structural)]
pub enum LayeredPhase {
    /// Take the device context of the screen.
    TakeScreen,
    /// Create the bitmap.
    CreateBitmap,
    /// Create the device context in memory.
    CreateDc,
    /// Select the bitmap into it.
    Select,
    /// Draw into it.
    Draw,
    /// Make the bitmap opaque.
    MakeOpaque,
    /// Bring the bitmap to the screen.
    Commit,
    /// Select what was selected before.
    Unselect,
    /// Delete the bitmap.
    DeleteBitmap,
    /// Delete the device context in memory.
    DeleteDc,
    /// Give the device context of the screen back.
    GiveScreen,
    /// Everything is done.
    Finished,
}

/// The painting of the candidate window. The phase names the call that is due.
#[derive(Clone, Copy, Debug, PartialEq, Eq, Structural)]
pub struct LayeredPaint {
    pub phase: LayeredPhase,
    /// Where the window stands.
    pub place: Placement,
    /// The device context of the screen.
    pub screen: isize,
    /// The bitmap.
    pub bitmap: isize,
    /// The device context in memory.
    pub dc: isize,
    /// What was selected into it before.
    pub previous: isize,
}

impl CallSequence for LayeredPaint {
    open spec fn after(self, reply: Reply) -> LayeredPaint {
        match (self.phase, reply) {
            (LayeredPhase::TakeScreen, Reply::Handle(screen)) => if screen != 0 {
                LayeredPaint { phase: LayeredPhase::CreateBitmap, screen, ..self }
            } else {
                LayeredPaint { phase: LayeredPhase::Finished, ..self }
            },
            (LayeredPhase::CreateBitmap, Reply::Handle(bitmap)) => if bitmap != 0 {
                LayeredPaint { phase: LayeredPhase::CreateDc, bitmap, ..self }
            } else {
                LayeredPaint { phase: LayeredPhase::GiveScreen, ..self }
            },
            (LayeredPhase::CreateDc, Reply::Handle(dc)) => LayeredPaint {
                phase: LayeredPhase::Select,
                dc,
                ..self
            },
            (LayeredPhase::Select, Reply::Handle(previous)) => LayeredPaint {
                phase: LayeredPhase::Draw,
                previous,
                ..self
            },
            (LayeredPhase::Draw, Reply::Done) => LayeredPaint {
                phase: LayeredPhase::MakeOpaque,
                ..self
            },
            (LayeredPhase::MakeOpaque, Reply::Done) => LayeredPaint {
                phase: LayeredPhase::Commit,
                ..self
            },
            (LayeredPhase::Commit, Reply::Done) => LayeredPaint {
                phase: LayeredPhase::Unselect,
                ..self
            },
            (LayeredPhase::Unselect, Reply::Done) => LayeredPaint {
                phase: LayeredPhase::DeleteBitmap,
                ..self
            },
            (LayeredPhase::DeleteBitmap, Reply::Done) => LayeredPaint {
                phase: LayeredPhase::DeleteDc,
                ..self
            },
            (LayeredPhase::DeleteDc, Reply::Done) => LayeredPaint {
                phase: LayeredPhase::GiveScreen,
                ..self
            },
            (LayeredPhase::GiveScreen, Reply::Done) => LayeredPaint {
                phase: LayeredPhase::Finished,
                ..self
            },
            _ => self,
        }
    }

    open spec fn awaits(self, reply: Reply) -> bool {
        match self.phase {
            LayeredPhase::TakeScreen
            | LayeredPhase::CreateBitmap
            | LayeredPhase::CreateDc
            | LayeredPhase::Select => reply is Handle,
            LayeredPhase::Finished => false,
            _ => reply is Done,
        }
    }

    open spec fn rank(self) -> nat {
        match self.phase {
            LayeredPhase::TakeScreen => 11,
            LayeredPhase::CreateBitmap => 10,
            LayeredPhase::CreateDc => 9,
            LayeredPhase::Select => 8,
            LayeredPhase::Draw => 7,
            LayeredPhase::MakeOpaque => 6,
            LayeredPhase::Commit => 5,
            LayeredPhase::Unselect => 4,
            LayeredPhase::DeleteBitmap => 3,
            LayeredPhase::DeleteDc => 2,
            LayeredPhase::GiveScreen => 1,
            LayeredPhase::Finished => 0,
        }
    }

    open spec fn held(self) -> Multiset<Resource> {
        let screen = Multiset::singleton(Resource::WindowDc { hdc: self.screen });
        let bitmap = Multiset::singleton(Resource::Bitmap { bitmap: self.bitmap });
        let dc = Multiset::singleton(Resource::MemoryDc { hdc: self.dc });
        let selection = Multiset::singleton(
            Resource::Selection { hdc: self.dc, previous: self.previous },
        );
        match self.phase {
            LayeredPhase::TakeScreen | LayeredPhase::Finished => Multiset::empty(),
            LayeredPhase::CreateBitmap | LayeredPhase::GiveScreen => screen,
            LayeredPhase::CreateDc => screen.add(bitmap),
            LayeredPhase::Select | LayeredPhase::DeleteBitmap => screen.add(bitmap).add(dc),
            LayeredPhase::DeleteDc => screen.add(dc),
            _ => screen.add(bitmap).add(dc).add(selection),
        }
    }

    open spec fn takes(self, reply: Reply) -> Multiset<Resource> {
        match (self.phase, reply) {
            (LayeredPhase::TakeScreen, Reply::Handle(hdc)) => if hdc != 0 {
                Multiset::singleton(Resource::WindowDc { hdc })
            } else {
                Multiset::empty()
            },
            (LayeredPhase::CreateBitmap, Reply::Handle(bitmap)) => if bitmap != 0 {
                Multiset::singleton(Resource::Bitmap { bitmap })
            } else {
                Multiset::empty()
            },
            (LayeredPhase::CreateDc, Reply::Handle(hdc)) => Multiset::singleton(
                Resource::MemoryDc { hdc },
            ),
            (LayeredPhase::Select, Reply::Handle(previous)) => Multiset::singleton(
                Resource::Selection { hdc: self.dc, previous },
            ),
            _ => Multiset::empty(),
        }
    }

    open spec fn gives(self) -> Multiset<Resource> {
        match self.phase {
            LayeredPhase::Unselect => Multiset::singleton(
                Resource::Selection { hdc: self.dc, previous: self.previous },
            ),
            LayeredPhase::DeleteBitmap => Multiset::singleton(
                Resource::Bitmap { bitmap: self.bitmap },
            ),
            LayeredPhase::DeleteDc => Multiset::singleton(Resource::MemoryDc { hdc: self.dc }),
            LayeredPhase::GiveScreen => Multiset::singleton(
                Resource::WindowDc { hdc: self.screen },
            ),
            _ => Multiset::empty(),
        }
    }

    proof fn lemma_call(self, reply: Reply) {
    }
}

impl LayeredPaint {
    /// The painting of the candidate window at a place; there is nothing to be done where the place
    /// is empty.
    pub fn new(place: Placement) -> (r: Self)
        ensures
            r == (LayeredPaint {
                phase: if place.w <= 0 || place.h <= 0 {
                    LayeredPhase::Finished
                } else {
                    LayeredPhase::TakeScreen
                },
                place,
                screen: 0,
                bitmap: 0,
                dc: 0,
                previous: 0,
            }),
    {
        let phase = if place.w <= 0 || place.h <= 0 {
            LayeredPhase::Finished
        } else {
            LayeredPhase::TakeScreen
        };
        LayeredPaint { phase, place, screen: 0, bitmap: 0, dc: 0, previous: 0 }
    }

    /// The state after an answer.
    pub fn step(self, reply: Reply) -> (r: LayeredPaint)
        ensures
            r == self.after(reply),
    {
        match (self.phase, reply) {
            (LayeredPhase::TakeScreen, Reply::Handle(screen)) => {
                if screen != 0 {
                    LayeredPaint { phase: LayeredPhase::CreateBitmap, screen, ..self }
                } else {
                    LayeredPaint { phase: LayeredPhase::Finished, ..self }
                }
            },
            (LayeredPhase::CreateBitmap, Reply::Handle(bitmap)) => {
                if bitmap != 0 {
                    LayeredPaint { phase: LayeredPhase::CreateDc, bitmap, ..self }
                } else {
                    LayeredPaint { phase: LayeredPhase::GiveScreen, ..self }
                }
            },
            (LayeredPhase::CreateDc, Reply::Handle(dc)) => {
                LayeredPaint { phase: LayeredPhase::Select, dc, ..self }
            },
            (LayeredPhase::Select, Reply::Handle(previous)) => {
                LayeredPaint { phase: LayeredPhase::Draw, previous, ..self }
            },
            (LayeredPhase::Draw, Reply::Done) => {
                LayeredPaint { phase: LayeredPhase::MakeOpaque, ..self }
            },
            (LayeredPhase::MakeOpaque, Reply::Done) => {
                LayeredPaint { phase: LayeredPhase::Commit, ..self }
            },
            (LayeredPhase::Commit, Reply::Done) => {
                LayeredPaint { phase: LayeredPhase::Unselect, ..self }
            },
            (LayeredPhase::Unselect, Reply::Done) => {
                LayeredPaint { phase: LayeredPhase::DeleteBitmap, ..self }
            },
            (LayeredPhase::DeleteBitmap, Reply::Done) => {
                LayeredPaint { phase: LayeredPhase::DeleteDc, ..self }
            },
            (LayeredPhase::DeleteDc, Reply::Done) => {
                LayeredPaint { phase: LayeredPhase::GiveScreen, ..self }
            },
            (LayeredPhase::GiveScreen, Reply::Done) => {
                LayeredPaint { phase: LayeredPhase::Finished, ..self }
            },
            _ => self,
        }
    }
}

/// How far the painting of an edit control has come.
#[derive(Clone, Copy, Debug, PartialEq, Eq, Structural)]
pub enum EditPhase {
    /// Ask for the client area.
    ClientRect,
    /// Create the device context in memory.
    CreateDc,
    /// Create a bitmap of the size of the client area.
    CreateBitmap,
    /// Select the bitmap.
    Select,
    /// Paint the captured background.
    Backdrop,
    /// Let the control print itself on top.
    Print,
    /// Bring the bitmap to the control.
    Blit,
    /// Select what was selected before.
    Unselect,
    /// Delete the bitmap.
    DeleteBitmap,
    /// Delete the device context in memory.
    DeleteDc,
    /// Everything is done.
    Finished,
}

/// The painting of an edit control over the captured background: the background and the text of
/// the control are painted in memory and brought to the control at once. Where there is no
/// background, the control is left as it is.
#[derive(Clone, Copy, Debug, PartialEq, Eq)]
pub struct EditPaint {
    /// The call that is due.
    pub phase: EditPhase,
    /// Width of the client area.
    pub w: i32,
    /// Height of the client area.
    pub h: i32,
    /// The device context in memory.
    pub dc: isize,
    /// The bitmap.
    pub bitmap: isize,
    /// What was selected before.
    pub previous: isize,
    /// Whether the control has been painted.
    pub painted: bool,
}

impl CallSequence for EditPaint {
    open spec fn after(self, reply: Reply) -> EditPaint {
        match (self.phase, reply) {
            (EditPhase::ClientRect, Reply::Area(Some(rc))) => if rc.left < rc.right
                && rc.top < rc.bottom {
                EditPaint {
                    phase: EditPhase::CreateDc,
                    w: (rc.right - rc.left) as i32,
                    h: (rc.bottom - rc.top) as i32,
                    ..self
                }
            } else {
                EditPaint { phase: EditPhase::Finished, ..self }
            },
            (EditPhase::ClientRect, Reply::Area(None)) => EditPaint {
                phase: EditPhase::Finished,
                ..self
            },
            (EditPhase::CreateDc, Reply::Handle(dc)) => if dc != 0 {
                EditPaint { phase: EditPhase::CreateBitmap, dc, ..self }
            } else {
                EditPaint { phase: EditPhase::Finished, ..self }
            },
            (EditPhase::CreateBitmap, Reply::Handle(bitmap)) => if bitmap != 0 {
                EditPaint { phase: EditPhase::Select, bitmap, ..self }
            } else {
                EditPaint { phase: EditPhase::DeleteDc, ..self }
            },
            (EditPhase::Select, Reply::Handle(previous)) => EditPaint {
                phase: EditPhase::Backdrop,
                previous,
                ..self
            },
            (EditPhase::Backdrop, Reply::Flag(painted)) => if painted {
                EditPaint { phase: EditPhase::Print, painted, ..self }
            } else {
                EditPaint { phase: EditPhase::Unselect, ..self }
            },
            (EditPhase::Print, Reply::Done) => EditPaint { phase: EditPhase::Blit, ..self },
            (EditPhase::Blit, Reply::Done) => EditPaint { phase: EditPhase::Unselect, ..self },
            (EditPhase::Unselect, Reply::Done) => EditPaint {
                phase: EditPhase::DeleteBitmap,
                ..self
            },
            (EditPhase::DeleteBitmap, Reply::Done) => EditPaint {
                phase: EditPhase::DeleteDc,
                ..self
            },
            (EditPhase::DeleteDc, Reply::Done) => EditPaint { phase: EditPhase::Finished, ..self },
            _ => self,
        }
    }

    open spec fn awaits(self, reply: Reply) -> bool {
        match self.phase {
            EditPhase::ClientRect => reply is Area,
            EditPhase::CreateDc
            | EditPhase::CreateBitmap
            | EditPhase::Select => reply is Handle,
            EditPhase::Backdrop => reply is Flag,
            EditPhase::Finished => false,
            _ => reply is Done,
        }
    }

    open spec fn rank(self) -> nat {
        match self.phase {
            EditPhase::ClientRect => 10,
            EditPhase::CreateDc => 9,
            EditPhase::CreateBitmap => 8,
            EditPhase::Select => 7,
            EditPhase::Backdrop => 6,
            EditPhase::Print => 5,
            EditPhase::Blit => 4,
            EditPhase::Unselect => 3,
            EditPhase::DeleteBitmap => 2,
            EditPhase::DeleteDc => 1,
            EditPhase::Finished => 0,
        }
    }

    open spec fn held(self) -> Multiset<Resource> {
        let dc = Multiset::singleton(Resource::MemoryDc { hdc: self.dc });
        let bitmap = Multiset::singleton(Resource::Bitmap { bitmap: self.bitmap });
        let selection = Multiset::singleton(
            Resource::Selection { hdc: self.dc, previous: self.previous },
        );
        match self.phase {
            EditPhase::ClientRect
            | EditPhase::CreateDc
            | EditPhase::Finished => Multiset::empty(),
            EditPhase::CreateBitmap
            | EditPhase::DeleteDc => dc,
            EditPhase::Select
            | EditPhase::DeleteBitmap => dc.add(bitmap),
            EditPhase::Backdrop
            | EditPhase::Print
            | EditPhase::Blit
            | EditPhase::Unselect => dc.add(bitmap).add(selection),
        }
    }

    open spec fn takes(self, reply: Reply) -> Multiset<Resource> {
        match (self.phase, reply) {
            (EditPhase::CreateDc, Reply::Handle(hdc)) => if hdc != 0 {
                Multiset::singleton(Resource::MemoryDc { hdc })
            } else {
                Multiset::empty()
            },
            (EditPhase::CreateBitmap, Reply::Handle(bitmap)) => if bitmap != 0 {
                Multiset::singleton(Resource::Bitmap { bitmap })
            } else {
                Multiset::empty()
            },
            (EditPhase::Select, Reply::Handle(previous)) => Multiset::singleton(
                Resource::Selection { hdc: self.dc, previous },
            ),
            _ => Multiset::empty(),
        }
    }

    open spec fn gives(self) -> Multiset<Resource> {
        match self.phase {
            EditPhase::Unselect => Multiset::singleton(
                Resource::Selection { hdc: self.dc, previous: self.previous },
            ),
            EditPhase::DeleteBitmap => Multiset::singleton(
                Resource::Bitmap { bitmap: self.bitmap },
            ),
            EditPhase::DeleteDc => Multiset::singleton(Resource::MemoryDc { hdc: self.dc }),
            _ => Multiset::empty(),
        }
    }

    proof fn lemma_call(self, reply: Reply) {
    }
}

impl EditPaint {
    /// The painting of an edit control that has not begun yet.
    pub fn new() -> (r: Self)
        ensures
            r == (EditPaint {
                phase: EditPhase::ClientRect,
                w: 0,
                h: 0,
                dc: 0,
                bitmap: 0,
                previous: 0,
                painted: false,
            }),
    {
        EditPaint {
            phase: EditPhase::ClientRect,
            w: 0,
            h: 0,
            dc: 0,
            bitmap: 0,
            previous: 0,
            painted: false,
        }
    }

    /// The state after an answer.
    pub fn step(self, reply: Reply) -> (r: EditPaint)
        requires
            reply.fits(),
        ensures
            r == self.after(reply),
    {
        match (self.phase, reply) {
            (EditPhase::ClientRect, Reply::Area(Some(rc))) => {
                if rc.left < rc.right && rc.top < rc.bottom {
                    EditPaint {
                        phase: EditPhase::CreateDc,
                        w: rc.width(),
                        h: rc.height(),
                        ..self
                    }
                } else {
                    EditPaint { phase: EditPhase::Finished, ..self }
                }
            },
            (EditPhase::ClientRect, Reply::Area(None)) => {
                EditPaint { phase: EditPhase::Finished, ..self }
            },
            (EditPhase::CreateDc, Reply::Handle(dc)) => {
                if dc != 0 {
                    EditPaint { phase: EditPhase::CreateBitmap, dc, ..self }
                } else {
                    EditPaint { phase: EditPhase::Finished, ..self }
                }
            },
            (EditPhase::CreateBitmap, Reply::Handle(bitmap)) => {
                if bitmap != 0 {
                    EditPaint { phase: EditPhase::Select, bitmap, ..self }
                } else {
                    EditPaint { phase: EditPhase::DeleteDc, ..self }
                }
            },
            (EditPhase::Select, Reply::Handle(previous)) => {
                EditPaint { phase: EditPhase::Backdrop, previous, ..self }
            },
            (EditPhase::Backdrop, Reply::Flag(painted)) => {
                if painted {
                    EditPaint { phase: EditPhase::Print, painted, ..self }
                } else {
                    EditPaint { phase: EditPhase::Unselect, ..self }
                }
            },
            (EditPhase::Print, Reply::Done) => {
                EditPaint { phase: EditPhase::Blit, ..self }
            },
            (EditPhase::Blit, Reply::Done) => {
                EditPaint { phase: EditPhase::Unselect, ..self }
            },
            (EditPhase::Unselect, Reply::Done) => {
                EditPaint { phase: EditPhase::DeleteBitmap, ..self }
            },
            (EditPhase::DeleteBitmap, Reply::Done) => {
                EditPaint { phase: EditPhase::DeleteDc, ..self }
            },
            (EditPhase::DeleteDc, Reply::Done) => {
                EditPaint { phase: EditPhase::Finished, ..self }
            },
            _ => self,
        }
    }
}

/// How far the painting of the captured background has come.
#[derive(Clone, Copy, Debug, PartialEq, Eq, Structural)]
pub enum BackdropPhase {
    /// Ask for the root window.
    Root,
    /// Ask for the place of the control on the screen.
    WindowRect,
    /// Turn the place into coordinates of the root window.
    Origin,
    /// Copy that part of the captured picture, where the picture covers it.
    Copy,
    /// Everything is done.
    Finished,
}

/// The painting of the captured background: the part of the captured picture that lies behind an
/// edit control is copied to a device context.
#[derive(Clone, Copy, Debug, PartialEq, Eq)]
pub struct Backdrop {
    /// The call that is due.
    pub phase: BackdropPhase,
    /// The root window.
    pub root: isize,
    /// Width of the control.
    pub w: i32,
    /// Height of the control.
    pub h: i32,
    /// Left upper corner of the control.
    pub origin: Point,
    /// Whether the background has been copied.
    pub copied: bool,
}

impl CallSequence for Backdrop {
    open spec fn after(self, reply: Reply) -> Backdrop {
        match (self.phase, reply) {
            (BackdropPhase::Root, Reply::Handle(root)) => if root != 0 {
                Backdrop { phase: BackdropPhase::WindowRect, root, ..self }
            } else {
                Backdrop { phase: BackdropPhase::Finished, ..self }
            },
            (BackdropPhase::WindowRect, Reply::Area(Some(rc))) => if rc.left < rc.right
                && rc.top < rc.bottom {
                Backdrop {
                    phase: BackdropPhase::Origin,
                    w: (rc.right - rc.left) as i32,
                    h: (rc.bottom - rc.top) as i32,
                    origin: Point { x: rc.left, y: rc.top },
                    ..self
                }
            } else {
                Backdrop { phase: BackdropPhase::Finished, ..self }
            },
            (BackdropPhase::WindowRect, Reply::Area(None)) => Backdrop {
                phase: BackdropPhase::Finished,
                ..self
            },
            (BackdropPhase::Origin, Reply::Place(Some(origin))) => Backdrop {
                phase: BackdropPhase::Copy,
                origin,
                ..self
            },
            (BackdropPhase::Origin, Reply::Place(None)) => Backdrop {
                phase: BackdropPhase::Finished,
                ..self
            },
            (BackdropPhase::Copy, Reply::Flag(copied)) => Backdrop {
                phase: BackdropPhase::Finished,
                copied,
                ..self
            },
            _ => self,
        }
    }

    open spec fn awaits(self, reply: Reply) -> bool {
        match self.phase {
            BackdropPhase::Root => reply is Handle,
            BackdropPhase::WindowRect => reply is Area,
            BackdropPhase::Origin => reply is Place,
            BackdropPhase::Copy => reply is Flag,
            BackdropPhase::Finished => false,
        }
    }

    open spec fn rank(self) -> nat {
        match self.phase {
            BackdropPhase::Root => 4,
            BackdropPhase::WindowRect => 3,
            BackdropPhase::Origin => 2,
            BackdropPhase::Copy => 1,
            BackdropPhase::Finished => 0,
        }
    }

    open spec fn held(self) -> Multiset<Resource> {
        Multiset::empty()
    }

    open spec fn takes(self, reply: Reply) -> Multiset<Resource> {
        Multiset::empty()
    }

    open spec fn gives(self) -> Multiset<Resource> {
        Multiset::empty()
    }

    proof fn lemma_call(self, reply: Reply) {
    }
}

impl Backdrop {
    /// The painting of the background to a device context; there is nothing to be done where it is
    /// null.
    pub fn new(hdc: isize) -> (r: Self)
        ensures
            r == (Backdrop {
                phase: if hdc == 0 {
                    BackdropPhase::Finished
                } else {
                    BackdropPhase::Root
                },
                root: 0,
                w: 0,
                h: 0,
                origin: Point { x: 0, y: 0 },
                copied: false,
            }),
    {
        let phase = if hdc == 0 { BackdropPhase::Finished } else { BackdropPhase::Root };
        Backdrop { phase, root: 0, w: 0, h: 0, origin: Point { x: 0, y: 0 }, copied: false }
    }

    /// The state after an answer.
    pub fn step(self, reply: Reply) -> (r: Backdrop)
        requires
            reply.fits(),
        ensures
            r == self.after(reply),
    {
        match (self.phase, reply) {
            (BackdropPhase::Root, Reply::Handle(root)) => {
                if root != 0 {
                    Backdrop { phase: BackdropPhase::WindowRect, root, ..self }
                } else {
                    Backdrop { phase: BackdropPhase::Finished, ..self }
                }
            },
            (BackdropPhase::WindowRect, Reply::Area(Some(rc))) => {
                if rc.left < rc.right && rc.top < rc.bottom {
                    Backdrop {
                        phase: BackdropPhase::Origin,
                        w: rc.width(),
                        h: rc.height(),
                        origin: Point { x: rc.left, y: rc.top },
                        ..self
                    }
                } else {
                    Backdrop { phase: BackdropPhase::Finished, ..self }
                }
            },
            (BackdropPhase::WindowRect, Reply::Area(None)) => {
                Backdrop { phase: BackdropPhase::Finished, ..self }
            },
            (BackdropPhase::Origin, Reply::Place(Some(origin))) => {
                Backdrop { phase: BackdropPhase::Copy, origin, ..self }
            },
            (BackdropPhase::Origin, Reply::Place(None)) => {
                Backdrop { phase: BackdropPhase::Finished, ..self }
            },
            (BackdropPhase::Copy, Reply::Flag(copied)) => {
                Backdrop { phase: BackdropPhase::Finished, copied, ..self }
            },
            _ => self,
        }
    }
}

/// The picture covers the rectangle of this size at the origin.
pub open spec fn covers(origin: Point, w: i32, h: i32, cap_w: i32, cap_h: i32) -> bool {
    &&& 0 <= origin.x && 0 <= origin.y
    &&& origin.x + w <= cap_w
    &&& origin.y + h <= cap_h
}

/// The edges that have to be looked at are numbers that a coordinate can hold.
pub open spec fn edges_bounded(origin: Point, w: i32, h: i32, cap_w: i32) -> bool {
    0 <= origin.x && 0 <= origin.y ==> {
        &&& origin.x + w <= i32::MAX
        &&& origin.x + w <= cap_w ==> origin.y + h <= i32::MAX
    }
}

/// Whether the edges that have to be looked at are numbers that a coordinate can hold.
pub fn edges_fit(origin: Point, w: i32, h: i32, cap_w: i32) -> (r: bool)
    ensures
        r == edges_bounded(origin, w, h, cap_w),
{
    if origin.x < 0 || origin.y < 0 {
        return true;
    }
    let right: i64 = origin.x as i64 + w as i64;
    let bottom: i64 = origin.y as i64 + h as i64;
    right <= i32::MAX as i64 && (right > cap_w as i64 || bottom <= i32::MAX as i64)
}

/// Whether a captured picture covers the whole of an edit control; one that it covers in part only
/// gets no background.
pub fn capture_covers(origin: Point, w: i32, h: i32, cap_w: i32, cap_h: i32) -> (r: bool)
    requires
        edges_bounded(origin, w, h, cap_w),
    ensures
        r == covers(origin, w, h, cap_w, cap_h),
{
    !(origin.x < 0 || origin.y < 0 || origin.x + w > cap_w || origin.y + h > cap_h)
}

/// The device context to copy the background from: that of the captured picture, where there is one
/// and it covers the whole control. `None` where the control gets no background.
pub fn copy_source(backdrop: &Backdrop, capture: Option<(isize, i32, i32)>) -> (r: Option<isize>)
    requires
        capture matches Some((_, cap_w, _)) ==> edges_bounded(
            backdrop.origin,
            backdrop.w,
            backdrop.h,
            cap_w,
        ),
    ensures
        r == match capture {
            Some((dc, cap_w, cap_h)) => if covers(
                backdrop.origin,
                backdrop.w,
                backdrop.h,
                cap_w,
                cap_h,
            ) {
                Some(dc)
            } else {
                None
            },
            None => None,
        },
{
    let (dc, cap_w, cap_h) = capture?;
    if capture_covers(backdrop.origin, backdrop.w, backdrop.h, cap_w, cap_h) {
        Some(dc)
    } else {
        None
    }
}

/// How far the answer to a paint message has come.
#[derive(Clone, Copy, Debug, PartialEq, Eq, Structural)]
pub enum SessionPhase {
    /// Begin the painting.
    Begin,
    /// Paint the control over the captured background.
    Paint,
    /// End the painting.
    End,
    /// Everything is done.
    Finished,
}

/// The answer to the paint message of an edit control. The painting is ended in any case, also
/// where there was nothing to paint on.
#[derive(Clone, Copy, Debug, PartialEq, Eq)]
pub struct PaintSession {
    /// The call that is due.
    pub phase: SessionPhase,
    /// The device context of the control.
    pub hdc: isize,
}

impl CallSequence for PaintSession {
    open spec fn after(self, reply: Reply) -> PaintSession {
        match (self.phase, reply) {
            (SessionPhase::Begin, Reply::Handle(hdc)) => if hdc != 0 {
                PaintSession { phase: SessionPhase::Paint, hdc, ..self }
            } else {
                PaintSession { phase: SessionPhase::End, hdc, ..self }
            },
            (SessionPhase::Paint, Reply::Done) => PaintSession { phase: SessionPhase::End, ..self },
            (SessionPhase::End, Reply::Done) => PaintSession {
                phase: SessionPhase::Finished,
                ..self
            },
            _ => self,
        }
    }

    open spec fn awaits(self, reply: Reply) -> bool {
        match self.phase {
            SessionPhase::Begin => reply is Handle,
            SessionPhase::Finished => false,
            _ => reply is Done,
        }
    }

    open spec fn rank(self) -> nat {
        match self.phase {
            SessionPhase::Begin => 3,
            SessionPhase::Paint => 2,
            SessionPhase::End => 1,
            SessionPhase::Finished => 0,
        }
    }

    open spec fn held(self) -> Multiset<Resource> {
        let painting = Multiset::singleton(Resource::Painting { hdc: self.hdc });
        match self.phase {
            SessionPhase::Begin
            | SessionPhase::Finished => Multiset::empty(),
            SessionPhase::Paint
            | SessionPhase::End => painting,
        }
    }

    open spec fn takes(self, reply: Reply) -> Multiset<Resource> {
        match (self.phase, reply) {
            (SessionPhase::Begin, Reply::Handle(hdc)) => Multiset::singleton(
                Resource::Painting { hdc },
            ),
            _ => Multiset::empty(),
        }
    }

    open spec fn gives(self) -> Multiset<Resource> {
        match self.phase {
            SessionPhase::End => Multiset::singleton(Resource::Painting { hdc: self.hdc }),
            _ => Multiset::empty(),
        }
    }

    proof fn lemma_call(self, reply: Reply) {
    }
}

impl PaintSession {
    /// The answer to a paint message that has not begun yet.
    pub fn new() -> (r: Self)
        ensures
            r == (PaintSession { phase: SessionPhase::Begin, hdc: 0 }),
    {
        PaintSession { phase: SessionPhase::Begin, hdc: 0 }
    }

    /// The state after an answer.
    pub fn step(self, reply: Reply) -> (r: PaintSession)
        ensures
            r == self.after(reply),
    {
        match (self.phase, reply) {
            (SessionPhase::Begin, Reply::Handle(hdc)) => {
                if hdc != 0 {
                    PaintSession { phase: SessionPhase::Paint, hdc, ..self }
                } else {
                    PaintSession { phase: SessionPhase::End, hdc, ..self }
                }
            },
            (SessionPhase::Paint, Reply::Done) => {
                PaintSession { phase: SessionPhase::End, ..self }
            },
            (SessionPhase::End, Reply::Done) => {
                PaintSession { phase: SessionPhase::Finished, ..self }
            },
            _ => self,
        }
    }
}

/// How far the painting of an edit control outside a paint message has come.
#[derive(Clone, Copy, Debug, PartialEq, Eq, Structural)]
pub enum BlitPhase {
    /// Take the device context of the control.
    TakeDc,
    /// Paint the control over the captured background.
    Paint,
    /// Give the device context back.
    GiveDc,
    /// Everything is done.
    Finished,
}

/// The painting of an edit control over the captured background at once, outside a paint message.
#[derive(Clone, Copy, Debug, PartialEq, Eq)]
pub struct WindowBlit {
    /// The call that is due.
    pub phase: BlitPhase,
    /// The device context of the control.
    pub hdc: isize,
    /// Whether the control has been painted.
    pub painted: bool,
}

impl CallSequence for WindowBlit {
    open spec fn after(self, reply: Reply) -> WindowBlit {
        match (self.phase, reply) {
            (BlitPhase::TakeDc, Reply::Handle(hdc)) => if hdc != 0 {
                WindowBlit { phase: BlitPhase::Paint, hdc, ..self }
            } else {
                WindowBlit { phase: BlitPhase::Finished, ..self }
            },
            (BlitPhase::Paint, Reply::Flag(painted)) => WindowBlit {
                phase: BlitPhase::GiveDc,
                painted,
                ..self
            },
            (BlitPhase::GiveDc, Reply::Done) => WindowBlit { phase: BlitPhase::Finished, ..self },
            _ => self,
        }
    }

    open spec fn awaits(self, reply: Reply) -> bool {
        match self.phase {
            BlitPhase::TakeDc => reply is Handle,
            BlitPhase::Paint => reply is Flag,
            BlitPhase::Finished => false,
            _ => reply is Done,
        }
    }

    open spec fn rank(self) -> nat {
        match self.phase {
            BlitPhase::TakeDc => 3,
            BlitPhase::Paint => 2,
            BlitPhase::GiveDc => 1,
            BlitPhase::Finished => 0,
        }
    }

    open spec fn held(self) -> Multiset<Resource> {
        let dc = Multiset::singleton(Resource::WindowDc { hdc: self.hdc });
        match self.phase {
            BlitPhase::TakeDc
            | BlitPhase::Finished => Multiset::empty(),
            BlitPhase::Paint
            | BlitPhase::GiveDc => dc,
        }
    }

    open spec fn takes(self, reply: Reply) -> Multiset<Resource> {
        match (self.phase, reply) {
            (BlitPhase::TakeDc, Reply::Handle(hdc)) => if hdc != 0 {
                Multiset::singleton(Resource::WindowDc { hdc })
            } else {
                Multiset::empty()
            },
            _ => Multiset::empty(),
        }
    }

    open spec fn gives(self) -> Multiset<Resource> {
        match self.phase {
            BlitPhase::GiveDc => Multiset::singleton(Resource::WindowDc { hdc: self.hdc }),
            _ => Multiset::empty(),
        }
    }

    proof fn lemma_call(self, reply: Reply) {
    }
}

impl WindowBlit {
    /// The painting of an edit control that has not begun yet.
    pub fn new() -> (r: Self)
        ensures
            r == (WindowBlit { phase: BlitPhase::TakeDc, hdc: 0, painted: false }),
    {
        WindowBlit { phase: BlitPhase::TakeDc, hdc: 0, painted: false }
    }

    /// The state after an answer.
    pub fn step(self, reply: Reply) -> (r: WindowBlit)
        ensures
            r == self.after(reply),
    {
        match (self.phase, reply) {
            (BlitPhase::TakeDc, Reply::Handle(hdc)) => {
                if hdc != 0 {
                    WindowBlit { phase: BlitPhase::Paint, hdc, ..self }
                } else {
                    WindowBlit { phase: BlitPhase::Finished, ..self }
                }
            },
            (BlitPhase::Paint, Reply::Flag(painted)) => {
                WindowBlit { phase: BlitPhase::GiveDc, painted, ..self }
            },
            (BlitPhase::GiveDc, Reply::Done) => {
                WindowBlit { phase: BlitPhase::Finished, ..self }
            },
            _ => self,
        }
    }
}

/// How far the buffered painting of an edit control has come.
#[derive(Clone, Copy, Debug, PartialEq, Eq, Structural)]
pub enum BufferedPhase {
    /// Begin the painting.
    Begin,
    /// Ask for the client area.
    ClientRect,
    /// Create the device context in memory.
    CreateDc,
    /// Create a bitmap of the size of the client area.
    CreateBitmap,
    /// Select the bitmap.
    Select,
    /// Ask for the parent.
    Parent,
    /// Ask the parent for the brush of the background.
    AskBrush,
    /// Ask for the brush of the system.
    SystemBrush,
    /// Fill the background.
    Fill,
    /// Let the control print itself on top.
    Print,
    /// Bring the bitmap to the control.
    Blit,
    /// Select what was selected before.
    Unselect,
    /// Delete the bitmap.
    DeleteBitmap,
    /// Delete the device context in memory.
    DeleteDc,
    /// End the painting.
    End,
    /// Everything is done.
    Finished,
}

/// The painting of an edit control over a plain background: the brush that the parent gives, or
/// that of the system where it gives none, and the text of the control are painted in memory and
/// brought to the control at once.
#[derive(Clone, Copy, Debug, PartialEq, Eq)]
pub struct BufferedPaint {
    /// The call that is due.
    pub phase: BufferedPhase,
    /// The device context of the control.
    pub hdc: isize,
    /// The client area.
    pub area: Rect,
    /// The device context in memory.
    pub dc: isize,
    /// The bitmap.
    pub bitmap: isize,
    /// What was selected before.
    pub previous: isize,
    /// The parent.
    pub parent: isize,
    /// The brush of the background.
    pub brush: isize,
}

impl CallSequence for BufferedPaint {
    open spec fn after(self, reply: Reply) -> BufferedPaint {
        match (self.phase, reply) {
            (BufferedPhase::Begin, Reply::Handle(hdc)) => if hdc != 0 {
                BufferedPaint { phase: BufferedPhase::ClientRect, hdc, ..self }
            } else {
                BufferedPaint { phase: BufferedPhase::Finished, ..self }
            },
            (BufferedPhase::ClientRect, Reply::Area(Some(rc))) => if rc.left < rc.right
                && rc.top < rc.bottom {
                BufferedPaint { phase: BufferedPhase::CreateDc, area: rc, ..self }
            } else {
                BufferedPaint { phase: BufferedPhase::End, ..self }
            },
            (BufferedPhase::ClientRect, Reply::Area(None)) => BufferedPaint {
                phase: BufferedPhase::End,
                ..self
            },
            (BufferedPhase::CreateDc, Reply::Handle(dc)) => if dc != 0 {
                BufferedPaint { phase: BufferedPhase::CreateBitmap, dc, ..self }
            } else {
                BufferedPaint { phase: BufferedPhase::End, ..self }
            },
            (BufferedPhase::CreateBitmap, Reply::Handle(bitmap)) => if bitmap != 0 {
                BufferedPaint { phase: BufferedPhase::Select, bitmap, ..self }
            } else {
                BufferedPaint { phase: BufferedPhase::DeleteDc, ..self }
            },
            (BufferedPhase::Select, Reply::Handle(previous)) => BufferedPaint {
                phase: BufferedPhase::Parent,
                previous,
                ..self
            },
            (BufferedPhase::Parent, Reply::Handle(parent)) => if parent != 0 {
                BufferedPaint { phase: BufferedPhase::AskBrush, parent, ..self }
            } else {
                BufferedPaint { phase: BufferedPhase::SystemBrush, ..self }
            },
            (BufferedPhase::AskBrush, Reply::Handle(brush)) => if brush != 0 {
                BufferedPaint { phase: BufferedPhase::Fill, brush, ..self }
            } else {
                BufferedPaint { phase: BufferedPhase::SystemBrush, ..self }
            },
            (BufferedPhase::SystemBrush, Reply::Handle(brush)) => if brush != 0 {
                BufferedPaint { phase: BufferedPhase::Fill, brush, ..self }
            } else {
                BufferedPaint { phase: BufferedPhase::Print, ..self }
            },
            (BufferedPhase::Fill, Reply::Done) => BufferedPaint {
                phase: BufferedPhase::Print,
                ..self
            },
            (BufferedPhase::Print, Reply::Done) => BufferedPaint {
                phase: BufferedPhase::Blit,
                ..self
            },
            (BufferedPhase::Blit, Reply::Done) => BufferedPaint {
                phase: BufferedPhase::Unselect,
                ..self
            },
            (BufferedPhase::Unselect, Reply::Done) => BufferedPaint {
                phase: BufferedPhase::DeleteBitmap,
                ..self
            },
            (BufferedPhase::DeleteBitmap, Reply::Done) => BufferedPaint {
                phase: BufferedPhase::DeleteDc,
                ..self
            },
            (BufferedPhase::DeleteDc, Reply::Done) => BufferedPaint {
                phase: BufferedPhase::End,
                ..self
            },
            (BufferedPhase::End, Reply::Done) => BufferedPaint {
                phase: BufferedPhase::Finished,
                ..self
            },
            _ => self,
        }
    }

    open spec fn awaits(self, reply: Reply) -> bool {
        match self.phase {
            BufferedPhase::Begin
            | BufferedPhase::CreateDc
            | BufferedPhase::CreateBitmap
            | BufferedPhase::Select
            | BufferedPhase::Parent
            | BufferedPhase::AskBrush
            | BufferedPhase::SystemBrush => reply is Handle,
            BufferedPhase::ClientRect => reply is Area,
            BufferedPhase::Finished => false,
            _ => reply is Done,
        }
    }

    open spec fn rank(self) -> nat {
        match self.phase {
            BufferedPhase::Begin => 15,
            BufferedPhase::ClientRect => 14,
            BufferedPhase::CreateDc => 13,
            BufferedPhase::CreateBitmap => 12,
            BufferedPhase::Select => 11,
            BufferedPhase::Parent => 10,
            BufferedPhase::AskBrush => 9,
            BufferedPhase::SystemBrush => 8,
            BufferedPhase::Fill => 7,
            BufferedPhase::Print => 6,
            BufferedPhase::Blit => 5,
            BufferedPhase::Unselect => 4,
            BufferedPhase::DeleteBitmap => 3,
            BufferedPhase::DeleteDc => 2,
            BufferedPhase::End => 1,
            BufferedPhase::Finished => 0,
        }
    }

    open spec fn held(self) -> Multiset<Resource> {
        let painting = Multiset::singleton(Resource::Painting { hdc: self.hdc });
        let dc = Multiset::singleton(Resource::MemoryDc { hdc: self.dc });
        let bitmap = Multiset::singleton(Resource::Bitmap { bitmap: self.bitmap });
        let selection = Multiset::singleton(
            Resource::Selection { hdc: self.dc, previous: self.previous },
        );
        match self.phase {
            BufferedPhase::Begin
            | BufferedPhase::Finished => Multiset::empty(),
            BufferedPhase::ClientRect
            | BufferedPhase::CreateDc
            | BufferedPhase::End => painting,
            BufferedPhase::CreateBitmap
            | BufferedPhase::DeleteDc => painting.add(dc),
            BufferedPhase::Select
            | BufferedPhase::DeleteBitmap => painting.add(dc).add(bitmap),
            BufferedPhase::Parent
            | BufferedPhase::AskBrush
            | BufferedPhase::SystemBrush
            | BufferedPhase::Fill
            | BufferedPhase::Print
            | BufferedPhase::Blit
            | BufferedPhase::Unselect => painting.add(dc).add(bitmap).add(selection),
        }
    }

    open spec fn takes(self, reply: Reply) -> Multiset<Resource> {
        match (self.phase, reply) {
            (BufferedPhase::Begin, Reply::Handle(hdc)) => if hdc != 0 {
                Multiset::singleton(Resource::Painting { hdc })
            } else {
                Multiset::empty()
            },
            (BufferedPhase::CreateDc, Reply::Handle(hdc)) => if hdc != 0 {
                Multiset::singleton(Resource::MemoryDc { hdc })
            } else {
                Multiset::empty()
            },
            (BufferedPhase::CreateBitmap, Reply::Handle(bitmap)) => if bitmap != 0 {
                Multiset::singleton(Resource::Bitmap { bitmap })
            } else {
                Multiset::empty()
            },
            (BufferedPhase::Select, Reply::Handle(previous)) => Multiset::singleton(
                Resource::Selection { hdc: self.dc, previous },
            ),
            _ => Multiset::empty(),
        }
    }

    open spec fn gives(self) -> Multiset<Resource> {
        match self.phase {
            BufferedPhase::Unselect => Multiset::singleton(
                Resource::Selection { hdc: self.dc, previous: self.previous },
            ),
            BufferedPhase::DeleteBitmap => Multiset::singleton(
                Resource::Bitmap { bitmap: self.bitmap },
            ),
            BufferedPhase::DeleteDc => Multiset::singleton(Resource::MemoryDc { hdc: self.dc }),
            BufferedPhase::End => Multiset::singleton(Resource::Painting { hdc: self.hdc }),
            _ => Multiset::empty(),
        }
    }

    proof fn lemma_call(self, reply: Reply) {
    }
}

impl BufferedPaint {
    /// The painting of an edit control that has not begun yet.
    pub fn new() -> (r: Self)
        ensures
            r == (BufferedPaint {
                phase: BufferedPhase::Begin,
                hdc: 0,
                area: Rect { left: 0, top: 0, right: 0, bottom: 0 },
                dc: 0,
                bitmap: 0,
                previous: 0,
                parent: 0,
                brush: 0,
            }),
    {
        BufferedPaint {
            phase: BufferedPhase::Begin,
            hdc: 0,
            area: Rect { left: 0, top: 0, right: 0, bottom: 0 },
            dc: 0,
            bitmap: 0,
            previous: 0,
            parent: 0,
            brush: 0,
        }
    }

    /// The state after an answer.
    pub fn step(self, reply: Reply) -> (r: BufferedPaint)
        requires
            reply.fits(),
        ensures
            r == self.after(reply),
    {
        match (self.phase, reply) {
            (BufferedPhase::Begin, Reply::Handle(hdc)) => {
                if hdc != 0 {
                    BufferedPaint { phase: BufferedPhase::ClientRect, hdc, ..self }
                } else {
                    BufferedPaint { phase: BufferedPhase::Finished, ..self }
                }
            },
            (BufferedPhase::ClientRect, Reply::Area(Some(rc))) => {
                if rc.left < rc.right && rc.top < rc.bottom {
                    BufferedPaint { phase: BufferedPhase::CreateDc, area: rc, ..self }
                } else {
                    BufferedPaint { phase: BufferedPhase::End, ..self }
                }
            },
            (BufferedPhase::ClientRect, Reply::Area(None)) => {
                BufferedPaint { phase: BufferedPhase::End, ..self }
            },
            (BufferedPhase::CreateDc, Reply::Handle(dc)) => {
                if dc != 0 {
                    BufferedPaint { phase: BufferedPhase::CreateBitmap, dc, ..self }
                } else {
                    BufferedPaint { phase: BufferedPhase::End, ..self }
                }
            },
            (BufferedPhase::CreateBitmap, Reply::Handle(bitmap)) => {
                if bitmap != 0 {
                    BufferedPaint { phase: BufferedPhase::Select, bitmap, ..self }
                } else {
                    BufferedPaint { phase: BufferedPhase::DeleteDc, ..self }
                }
            },
            (BufferedPhase::Select, Reply::Handle(previous)) => {
                BufferedPaint { phase: BufferedPhase::Parent, previous, ..self }
            },
            (BufferedPhase::Parent, Reply::Handle(parent)) => {
                if parent != 0 {
                    BufferedPaint { phase: BufferedPhase::AskBrush, parent, ..self }
                } else {
                    BufferedPaint { phase: BufferedPhase::SystemBrush, ..self }
                }
            },
            (BufferedPhase::AskBrush, Reply::Handle(brush)) => {
                if brush != 0 {
                    BufferedPaint { phase: BufferedPhase::Fill, brush, ..self }
                } else {
                    BufferedPaint { phase: BufferedPhase::SystemBrush, ..self }
                }
            },
            (BufferedPhase::SystemBrush, Reply::Handle(brush)) => {
                if brush != 0 {
                    BufferedPaint { phase: BufferedPhase::Fill, brush, ..self }
                } else {
                    BufferedPaint { phase: BufferedPhase::Print, ..self }
                }
            },
            (BufferedPhase::Fill, Reply::Done) => {
                BufferedPaint { phase: BufferedPhase::Print, ..self }
            },
            (BufferedPhase::Print, Reply::Done) => {
                BufferedPaint { phase: BufferedPhase::Blit, ..self }
            },
            (BufferedPhase::Blit, Reply::Done) => {
                BufferedPaint { phase: BufferedPhase::Unselect, ..self }
            },
            (BufferedPhase::Unselect, Reply::Done) => {
                BufferedPaint { phase: BufferedPhase::DeleteBitmap, ..self }
            },
            (BufferedPhase::DeleteBitmap, Reply::Done) => {
                BufferedPaint { phase: BufferedPhase::DeleteDc, ..self }
            },
            (BufferedPhase::DeleteDc, Reply::Done) => {
                BufferedPaint { phase: BufferedPhase::End, ..self }
            },
            (BufferedPhase::End, Reply::Done) => {
                BufferedPaint { phase: BufferedPhase::Finished, ..self }
            },
            _ => self,
        }
    }
}

/// The painting of the candidate window gives back all that it takes, wherever it breaks off.
pub proof fn law_window_paint_gives_back(m: LayeredPaint, replies: Seq<Reply>)
    requires
        m.phase == LayeredPhase::TakeScreen,
        calls::answered(m, replies),
        calls::run(m, replies).phase == LayeredPhase::Finished,
    ensures
        calls::taken(m, replies) == calls::given(m, replies),
{
    calls::law_all_is_given_back(m, replies);
}

/// The painting of an edit control gives back all that it takes, wherever it breaks off.
pub proof fn law_edit_paint_gives_back(m: EditPaint, replies: Seq<Reply>)
    requires
        m.phase == EditPhase::ClientRect,
        calls::answered(m, replies),
        calls::run(m, replies).phase == EditPhase::Finished,
    ensures
        calls::taken(m, replies) == calls::given(m, replies),
{
    calls::law_all_is_given_back(m, replies);
}

/// A painting that was begun is ended.
pub proof fn law_session_gives_back(m: PaintSession, replies: Seq<Reply>)
    requires
        m.phase == SessionPhase::Begin,
        calls::answered(m, replies),
        calls::run(m, replies).phase == SessionPhase::Finished,
    ensures
        calls::taken(m, replies) == calls::given(m, replies),
{
    calls::law_all_is_given_back(m, replies);
}

/// The painting of an edit control outside a paint message gives its device context back.
pub proof fn law_blit_gives_back(m: WindowBlit, replies: Seq<Reply>)
    requires
        m.phase == BlitPhase::TakeDc,
        calls::answered(m, replies),
        calls::run(m, replies).phase == BlitPhase::Finished,
    ensures
        calls::taken(m, replies) == calls::given(m, replies),
{
    calls::law_all_is_given_back(m, replies);
}

/// The buffered painting of an edit control gives back all that it takes, wherever it breaks off.
pub proof fn law_buffered_paint_gives_back(m: BufferedPaint, replies: Seq<Reply>)
    requires
        m.phase == BufferedPhase::Begin,
        calls::answered(m, replies),
        calls::run(m, replies).phase == BufferedPhase::Finished,
    ensures
        calls::taken(m, replies) == calls::given(m, replies),
{
    calls::law_all_is_given_back(m, replies);
}

/// An edit control is reported as painted exactly where its background was there: the step that
/// asks for the background decides, and the control prints itself and is brought to the screen
/// only after it.
pub proof fn law_edit_paint_needs_background(m: EditPaint, reply: Reply)
    requires
        m.phase != EditPhase::Backdrop,
    ensures
        m.after(reply).painted == m.painted,
        m.phase != EditPhase::Print ==> m.after(reply).phase != EditPhase::Print,
        m.phase != EditPhase::Print && m.phase != EditPhase::Blit ==> m.after(reply).phase
            != EditPhase::Blit,
{
}

/// The candidate window is brought to the screen only after it has been drawn and made opaque: the
/// system takes a pixel without alpha for a transparent one.
pub proof fn law_committed_when_opaque(m: LayeredPaint, replies: Seq<Reply>)
    requires
        m.phase == LayeredPhase::TakeScreen,
        calls::answered(m, replies),
        calls::run(m, replies).phase == LayeredPhase::Commit,
    ensures
        replies.len() == 6,
        calls::run(m, replies.take(4)).phase == LayeredPhase::Draw,
        calls::run(m, replies.take(5)).phase == LayeredPhase::MakeOpaque,
{
    reveal_with_fuel(calls::run, 13);
    reveal_with_fuel(calls::answered, 13);
    calls::law_calls_end(m, replies);
    let four = replies.take(4);
    assert(four.skip(1)[0] == replies[1]);
    assert(four.skip(1).skip(1)[0] == replies[2]);
    assert(four.skip(1).skip(1).skip(1)[0] == replies[3]);
    let five = replies.take(5);
    assert(five.skip(1)[0] == replies[1]);
    assert(five.skip(1).skip(1)[0] == replies[2]);
    assert(five.skip(1).skip(1).skip(1)[0] == replies[3]);
    assert(five.skip(1).skip(1).skip(1).skip(1)[0] == replies[4]);
}

/// A background that is copied is not empty, and its place is that of the control in the root
/// window.
pub proof fn law_backdrop_is_not_empty(m: Backdrop, replies: Seq<Reply>)
    requires
        m.phase == BackdropPhase::Root,
        calls::answered(m, replies),
        calls::run(m, replies).phase == BackdropPhase::Copy,
        forall|k: int| 0 <= k < replies.len() ==> (#[trigger] replies[k]).fits(),
    ensures
        ({
            let f = calls::run(m, replies);
            &&& f.w > 0 && f.h > 0
            &&& f.root != 0 && replies[0] == Reply::Handle(f.root)
            &&& replies[1] matches Reply::Area(Some(rc)) && f.w == rc.right - rc.left && f.h
                == rc.bottom - rc.top
            &&& replies[2] == Reply::Place(Some(f.origin))
        }),
{
    reveal_with_fuel(calls::run, 6);
    reveal_with_fuel(calls::answered, 6);
    calls::law_calls_end(m, replies);
    assert(replies[1].fits());
}

/// The background of the buffered painting is filled with the brush that was given last, and the
/// system is asked for one only where there is no parent or it gives none.
pub proof fn law_brush_of_parent_first(m: BufferedPaint, reply: Reply)
    requires
        m.awaits(reply),
    ensures
        m.after(reply).phase == BufferedPhase::Fill ==> {
            &&& reply == Reply::Handle(m.after(reply).brush)
            &&& m.after(reply).brush != 0
            &&& m.phase == BufferedPhase::AskBrush || m.phase == BufferedPhase::SystemBrush
        },
        m.after(reply).phase == BufferedPhase::SystemBrush ==> {
            &&& reply == Reply::Handle(0)
            &&& m.phase == BufferedPhase::Parent || m.phase == BufferedPhase::AskBrush
        },
{
}

/// The candidate window is painted wherever there are a screen and a bitmap to paint with: it is
/// drawn, made opaque and brought to the screen with just these, and all of them are cleaned up
/// after that. Without a screen nothing is done, and without a bitmap the screen is given back.
pub proof fn law_candidate_window_is_painted(m: LayeredPaint, replies: Seq<Reply>)
    requires
        m.phase == LayeredPhase::TakeScreen,
        calls::answered(m, replies),
        calls::run(m, replies).phase == LayeredPhase::Finished,
    ensures
        ({
            let none = Reply::Handle(0);
            let screen = replies[0]->Handle_0;
            &&& replies[0] == none ==> replies.len() == 1
            &&& replies[0] != none ==> calls::at(m, replies, 1) == (LayeredPaint {
                phase: LayeredPhase::CreateBitmap,
                screen,
                ..m
            })
            &&& replies[0] != none && replies[1] == none ==> replies.len() == 3 && calls::at(
                m,
                replies,
                2,
            ) == (LayeredPaint { phase: LayeredPhase::GiveScreen, screen, ..m })
            &&& replies[0] != none && replies[1] != none ==> {
                let bitmap = replies[1]->Handle_0;
                let dc = replies[2]->Handle_0;
                let previous = replies[3]->Handle_0;
                let parts = LayeredPaint { screen, bitmap, dc, previous, ..m };
                &&& replies.len() == 11
                &&& calls::at(m, replies, 2).phase == LayeredPhase::CreateDc
                &&& calls::at(m, replies, 2).screen == screen
                &&& calls::at(m, replies, 3).phase == LayeredPhase::Select
                &&& calls::at(m, replies, 3).dc == dc && calls::at(m, replies, 3).bitmap == bitmap
                &&& calls::at(m, replies, 4) == (LayeredPaint { phase: LayeredPhase::Draw, ..parts })
                &&& calls::at(m, replies, 5) == (LayeredPaint { phase: LayeredPhase::MakeOpaque, ..parts })
                &&& calls::at(m, replies, 6) == (LayeredPaint { phase: LayeredPhase::Commit, ..parts })
                &&& calls::at(m, replies, 7) == (LayeredPaint { phase: LayeredPhase::Unselect, ..parts })
                &&& calls::at(m, replies, 8) == (LayeredPaint { phase: LayeredPhase::DeleteBitmap, ..parts })
                &&& calls::at(m, replies, 9) == (LayeredPaint { phase: LayeredPhase::DeleteDc, ..parts })
                &&& calls::at(m, replies, 10) == (LayeredPaint { phase: LayeredPhase::GiveScreen, ..parts })
            }
        }),
{
    calls::lemma_calls(m, replies);
}

/// An edit control is painted wherever its client area is not empty and there are a device context,
/// a bitmap and a background: the background is painted first, the control prints itself over it,
/// and the whole is brought to the control. Where one of these is missing the control is left as it
/// is. Whatever was made is cleaned up.
pub proof fn law_edit_is_painted_over_background(m: EditPaint, replies: Seq<Reply>)
    requires
        m.phase == EditPhase::ClientRect,
        !m.painted,
        calls::answered(m, replies),
        calls::run(m, replies).phase == EditPhase::Finished,
        replies[0].fits(),
    ensures
        ({
            let none = Reply::Handle(0);
            let f = calls::run(m, replies);
            let full = replies[0] matches Reply::Area(Some(rc)) && rc.left < rc.right && rc.top
                < rc.bottom;
            let dc = replies[1]->Handle_0;
            let bitmap = replies[2]->Handle_0;
            let previous = replies[3]->Handle_0;
            &&& f.painted <==> full && replies[1] != none && replies[2] != none && replies[4]
                == Reply::Flag(true)
            &&& !full ==> replies.len() == 1
            &&& full ==> {
                let rc = replies[0]->Area_0->Some_0;
                let sized = EditPaint {
                    w: (rc.right - rc.left) as i32,
                    h: (rc.bottom - rc.top) as i32,
                    ..m
                };
                let parts = EditPaint { dc, bitmap, previous, ..sized };
                let painted = EditPaint { painted: true, ..parts };
                &&& calls::at(m, replies, 1) == (EditPaint { phase: EditPhase::CreateDc, ..sized })
                &&& replies[1] == none ==> replies.len() == 2
                &&& replies[1] != none ==> calls::at(m, replies, 2) == (EditPaint {
                    phase: EditPhase::CreateBitmap,
                    dc,
                    ..sized
                })
                &&& replies[1] != none && replies[2] == none ==> replies.len() == 4 && calls::at(
                    m,
                    replies,
                    3,
                ) == (EditPaint { phase: EditPhase::DeleteDc, dc, ..sized })
                &&& replies[1] != none && replies[2] != none ==> {
                    &&& calls::at(m, replies, 3) == (EditPaint {
                        phase: EditPhase::Select,
                        dc,
                        bitmap,
                        ..sized
                    })
                    &&& calls::at(m, replies, 4) == (EditPaint {
                        phase: EditPhase::Backdrop,
                        ..parts
                    })
                    &&& replies[4] == Reply::Flag(true) ==> {
                        &&& replies.len() == 10
                        &&& calls::at(m, replies, 5) == (EditPaint { phase: EditPhase::Print, ..painted })
                        &&& calls::at(m, replies, 6) == (EditPaint { phase: EditPhase::Blit, ..painted })
                        &&& calls::at(m, replies, 7) == (EditPaint { phase: EditPhase::Unselect, ..painted })
                        &&& calls::at(m, replies, 8) == (EditPaint { phase: EditPhase::DeleteBitmap, ..painted })
                        &&& calls::at(m, replies, 9) == (EditPaint { phase: EditPhase::DeleteDc, ..painted })
                    }
                    &&& replies[4] == Reply::Flag(false) ==> {
                        &&& replies.len() == 8
                        &&& calls::at(m, replies, 5) == (EditPaint { phase: EditPhase::Unselect, ..parts })
                        &&& calls::at(m, replies, 6) == (EditPaint { phase: EditPhase::DeleteBitmap, ..parts })
                        &&& calls::at(m, replies, 7) == (EditPaint { phase: EditPhase::DeleteDc, ..parts })
                    }
                }
            }
        }),
{
    calls::lemma_calls(m, replies);
}

/// The background is looked for behind the control: in the root window, at the place that the left
/// upper corner of the control has there, and as large as the control is. It is copied wherever
/// there is a root window, the control is not empty and its place is known, and nowhere else.
pub proof fn law_background_lies_behind_the_control(m: Backdrop, replies: Seq<Reply>)
    requires
        m.phase == BackdropPhase::Root,
        !m.copied,
        calls::answered(m, replies),
        calls::run(m, replies).phase == BackdropPhase::Finished,
        replies.len() > 1 ==> replies[1].fits(),
    ensures
        ({
            let rooted = replies[0] != Reply::Handle(0);
            let full = replies[1] matches Reply::Area(Some(rc)) && rc.left < rc.right && rc.top
                < rc.bottom;
            let rc = replies[1]->Area_0->Some_0;
            let root = replies[0]->Handle_0;
            let f = calls::run(m, replies);
            &&& !rooted ==> replies.len() == 1
            &&& rooted ==> calls::at(m, replies, 1) == (Backdrop {
                phase: BackdropPhase::WindowRect,
                root,
                ..m
            })
            &&& rooted && !full ==> replies.len() == 2
            &&& rooted && full ==> {
                let found = Backdrop {
                    root,
                    w: (rc.right - rc.left) as i32,
                    h: (rc.bottom - rc.top) as i32,
                    ..m
                };
                &&& calls::at(m, replies, 2) == (Backdrop {
                    phase: BackdropPhase::Origin,
                    origin: Point { x: rc.left, y: rc.top },
                    ..found
                })
                &&& replies[2] == Reply::Place(None) ==> replies.len() == 3
                &&& replies[2] matches Reply::Place(Some(origin)) ==> replies.len() == 4
                    && calls::at(m, replies, 3) == (Backdrop {
                    phase: BackdropPhase::Copy,
                    origin,
                    ..found
                })
            }
            &&& f.copied <==> replies.len() == 4 && replies[3] == Reply::Flag(true)
        }),
{
    calls::lemma_calls(m, replies);
}

/// A picture covers a control exactly where every pixel of the control lies in the picture.
pub proof fn law_cover_is_pixel_by_pixel(origin: Point, w: i32, h: i32, cap_w: i32, cap_h: i32)
    requires
        w > 0,
        h > 0,
    ensures
        covers(origin, w, h, cap_w, cap_h) <==> forall|x: int, y: int|
            #![trigger pixel(x, y)]
            origin.x <= x < origin.x + w && origin.y <= y < origin.y + h ==> 0 <= x < cap_w && 0
                <= y < cap_h,
{
    assert(pixel(origin.x as int, origin.y as int) == (origin.x as int, origin.y as int));
    assert(pixel(origin.x + w - 1, origin.y + h - 1) == (origin.x + w - 1, origin.y + h - 1));
}

/// The pixel with these coordinates.
pub open spec fn pixel(x: int, y: int) -> (int, int) {
    (x, y)
}

/// A paint message is answered by painting between a begin and an end: where there is a device
/// context, the control is painted with it, and the painting is ended in any case.
pub proof fn law_session_paints(m: PaintSession, replies: Seq<Reply>)
    requires
        m.phase == SessionPhase::Begin,
        calls::answered(m, replies),
        calls::run(m, replies).phase == SessionPhase::Finished,
    ensures
        replies[0] matches Reply::Handle(hdc) && if hdc != 0 {
            &&& replies.len() == 3
            &&& calls::at(m, replies, 1) == (PaintSession { phase: SessionPhase::Paint, hdc })
            &&& calls::at(m, replies, 2) == (PaintSession { phase: SessionPhase::End, hdc })
        } else {
            replies.len() == 2 && calls::at(m, replies, 1) == (PaintSession {
                phase: SessionPhase::End,
                hdc,
            })
        },
{
    calls::lemma_calls(m, replies);
}

/// Outside a paint message the control is painted with its own device context, which is given back;
/// it counts as painted where that painting succeeded. Without a device context nothing is done.
pub proof fn law_blit_paints(m: WindowBlit, replies: Seq<Reply>)
    requires
        m.phase == BlitPhase::TakeDc,
        !m.painted,
        calls::answered(m, replies),
        calls::run(m, replies).phase == BlitPhase::Finished,
    ensures
        ({
            let f = calls::run(m, replies);
            replies[0] matches Reply::Handle(hdc) && if hdc != 0 {
                &&& replies.len() == 3
                &&& calls::at(m, replies, 1) == (WindowBlit { phase: BlitPhase::Paint, hdc, ..m })
                &&& replies[1] == Reply::Flag(f.painted)
                &&& calls::at(m, replies, 2).phase == BlitPhase::GiveDc
                &&& calls::at(m, replies, 2).hdc == hdc
            } else {
                replies.len() == 1 && !f.painted
            }
        }),
{
    calls::lemma_calls(m, replies);
}

/// The buffered painting goes all the way wherever the painting can begin, the client area is not
/// empty and there are a device context and a bitmap in memory: the background is filled with the
/// brush of the parent, or with that of the system where there is no parent or it gives none, the
/// control prints itself over it, and the whole is brought to the control. A missing brush leaves
/// only the filling out. The painting that has begun is ended, whatever is missing.
pub proof fn law_buffered_paint_goes_all_the_way(m: BufferedPaint, replies: Seq<Reply>)
    requires
        m.phase == BufferedPhase::Begin,
        calls::answered(m, replies),
        calls::run(m, replies).phase == BufferedPhase::Finished,
    ensures
        ({
            let none = Reply::Handle(0);
            let full = replies[1] matches Reply::Area(Some(rc)) && rc.left < rc.right && rc.top
                < rc.bottom;
            let begun = BufferedPaint { hdc: replies[0]->Handle_0, ..m };
            let sized = BufferedPaint { area: replies[1]->Area_0->Some_0, ..begun };
            let drawn = BufferedPaint { dc: replies[2]->Handle_0, ..sized };
            let made = BufferedPaint { bitmap: replies[3]->Handle_0, ..drawn };
            let parts = BufferedPaint { previous: replies[4]->Handle_0, ..made };
            &&& replies[0] == none ==> replies.len() == 1
            &&& replies[0] != none ==> {
                &&& calls::at(m, replies, 1) == (BufferedPaint {
                    phase: BufferedPhase::ClientRect,
                    ..begun
                })
                &&& calls::at(m, replies, replies.len() - 1).phase == BufferedPhase::End
                &&& calls::at(m, replies, replies.len() - 1).hdc == begun.hdc
                &&& !full ==> replies.len() == 3
                &&& full ==> {
                    &&& calls::at(m, replies, 2) == (BufferedPaint {
                        phase: BufferedPhase::CreateDc,
                        ..sized
                    })
                    &&& replies[2] == none ==> replies.len() == 4
                    &&& replies[2] != none ==> {
                        &&& calls::at(m, replies, 3) == (BufferedPaint {
                            phase: BufferedPhase::CreateBitmap,
                            ..drawn
                        })
                        &&& replies[3] == none ==> replies.len() == 6 && calls::at(
                            m,
                            replies,
                            4,
                        ) == (BufferedPaint { phase: BufferedPhase::DeleteDc, ..drawn })
                        &&& replies[3] != none ==> {
                            &&& calls::at(m, replies, 4) == (BufferedPaint {
                                phase: BufferedPhase::Select,
                                ..made
                            })
                            &&& calls::at(m, replies, 5) == (BufferedPaint {
                                phase: BufferedPhase::Parent,
                                ..parts
                            })
                            &&& brush_is_sought(m, parts, replies)
                        }
                    }
                }
            }
        }),
{
    calls::lemma_calls(m, replies);
}

/// From the question for the parent on, which is call five: the brush is sought, and with what was
/// found the control is painted and everything cleaned up.
pub open spec fn brush_is_sought(
    m: BufferedPaint,
    parts: BufferedPaint,
    replies: Seq<Reply>,
) -> bool {
    let none = Reply::Handle(0);
    let orphan = replies[5] == none;
    let asked = if orphan {
        parts
    } else {
        BufferedPaint { parent: replies[5]->Handle_0, ..parts }
    };
    let of_parent = !orphan && replies[6] != none;
    // The call after the last question for a brush.
    let q: int = if orphan || of_parent {
        7
    } else {
        8
    };
    let brush = replies[q - 1];
    let p = if brush == none {
        q
    } else {
        q + 1
    };
    let ready = if brush == none {
        asked
    } else {
        BufferedPaint { brush: brush->Handle_0, ..asked }
    };
    &&& orphan ==> calls::at(m, replies, 6) == (BufferedPaint {
        phase: BufferedPhase::SystemBrush,
        ..asked
    })
    &&& !orphan ==> calls::at(m, replies, 6) == (BufferedPaint {
        phase: BufferedPhase::AskBrush,
        ..asked
    })
    &&& !orphan && !of_parent ==> calls::at(m, replies, 7) == (BufferedPaint {
        phase: BufferedPhase::SystemBrush,
        ..asked
    })
    &&& brush != none ==> calls::at(m, replies, q) == (BufferedPaint {
        phase: BufferedPhase::Fill,
        ..ready
    })
    &&& calls::at(m, replies, p) == (BufferedPaint { phase: BufferedPhase::Print, ..ready })
    &&& calls::at(m, replies, p + 1) == (BufferedPaint { phase: BufferedPhase::Blit, ..ready })
    &&& calls::at(m, replies, p + 2) == (BufferedPaint { phase: BufferedPhase::Unselect, ..ready })
    &&& calls::at(m, replies, p + 3) == (BufferedPaint {
        phase: BufferedPhase::DeleteBitmap,
        ..ready
    })
    &&& calls::at(m, replies, p + 4) == (BufferedPaint { phase: BufferedPhase::DeleteDc, ..ready })
    &&& replies.len() == p + 6
}

/// The edges of a control decide whether a picture covers it, and they are looked at in turn: the
/// left and the upper one, then the right one, and the lower one only where the right one lies in
/// the picture. Those that are looked at have to fit into the 32 bits of a coordinate.
pub proof fn law_edges_in_turn(origin: Point, w: i32, h: i32, cap_w: i32, cap_h: i32)
    ensures
        covers(origin, w, h, cap_w, cap_h) <==> !(origin.x < 0 || origin.y < 0 || origin.x + w
            > cap_w || origin.y + h > cap_h),
        edges_bounded(origin, w, h, cap_w) <==> origin.x < 0 || origin.y < 0 || (origin.x + w
            <= 0x7FFF_FFFF && (origin.x + w > cap_w || origin.y + h <= 0x7FFF_FFFF)),
{
}

} // verus!
