//! The finding of the game window and the creation of the candidate window.

use crate::calls::{self, CallSequence, Reply, Resource};
use crate::messages::WM_PAINT;
use crate::overlay::{ITEM_H, PADDING_Y, WIN_W};
use vstd::multiset::Multiset;
use vstd::prelude::*;

verus! {

/// The class of the game window.
pub const GAME_CLASS: &'static str = "Lineage";

/// The title of the game window.
pub const GAME_TITLE: &'static str = "Lineage Windows Client (13081901)";

/// The class of the candidate window.
pub const CLASS_NAME: &'static str = "LineageImeOverlay";

/// The title of the candidate window.
pub const WINDOW_TITLE: &'static str = "LineageIME";

/// The width that the candidate window is created with.
pub const FIRST_W: i32 = WIN_W;

/// The height that the candidate window is created with: that of a full page.
pub const FIRST_H: i32 = ITEM_H * 9 + PADDING_Y * 2;

/// Window attribute: the corners are rounded.
pub const ROUND_CORNERS: u32 = 2;

/// The time between two looks for the game window, in milliseconds.
pub const LOOK_EVERY_MS: u64 = 200;

/// How far the wait for the game window has come; the state names the call that is due.
#[derive(Clone, Copy, Debug, PartialEq, Eq, Structural)]
pub enum WindowWait {
    /// Look for a window by its class.
    FindByClass { timeout: u32 },
    /// Look for a window by its title.
    FindByTitle { timeout: u32 },
    /// Ask for the milliseconds since the wait began.
    Elapsed { timeout: u32 },
    /// Wait for a moment.
    Sleep { timeout: u32 },
    /// The wait is over; the window is zero where it was not found.
    Finished { window: isize },
}

impl WindowWait {
    /// The state after an answer. A window that is found ends the wait; where neither look finds
    /// one, the wait goes on with another round until its time is up.
    pub open spec fn after(self, reply: Reply) -> WindowWait {
        match (self, reply) {
            (WindowWait::FindByClass { timeout }, Reply::Handle(window)) => if window != 0 {
                WindowWait::Finished { window }
            } else {
                WindowWait::FindByTitle { timeout }
            },
            (WindowWait::FindByTitle { timeout }, Reply::Handle(window)) => if window != 0 {
                WindowWait::Finished { window }
            } else {
                WindowWait::Elapsed { timeout }
            },
            (WindowWait::Elapsed { timeout }, Reply::Number(ms)) => if ms >= timeout {
                WindowWait::Finished { window: 0 }
            } else {
                WindowWait::Sleep { timeout }
            },
            (WindowWait::Sleep { timeout }, Reply::Done) => WindowWait::FindByClass { timeout },
            _ => self,
        }
    }

    /// The state after an answer.
    pub fn step(self, reply: Reply) -> (r: WindowWait)
        ensures
            r == self.after(reply),
    {
        match (self, reply) {
            (WindowWait::FindByClass { timeout }, Reply::Handle(window)) => {
                if window != 0 {
                    WindowWait::Finished { window }
                } else {
                    WindowWait::FindByTitle { timeout }
                }
            },
            (WindowWait::FindByTitle { timeout }, Reply::Handle(window)) => {
                if window != 0 {
                    WindowWait::Finished { window }
                } else {
                    WindowWait::Elapsed { timeout }
                }
            },
            (WindowWait::Elapsed { timeout }, Reply::Number(ms)) => {
                if ms >= timeout as i64 {
                    WindowWait::Finished { window: 0 }
                } else {
                    WindowWait::Sleep { timeout }
                }
            },
            (WindowWait::Sleep { timeout }, Reply::Done) => WindowWait::FindByClass { timeout },
            _ => self,
        }
    }
}

/// Starts the wait for the game window.
pub fn wait_for_game_window(timeout_ms: u32) -> (r: WindowWait)
    ensures
        r == (WindowWait::FindByClass { timeout: timeout_ms }),
{
    WindowWait::FindByClass { timeout: timeout_ms }
}

/// The wait ends in two ways only: with a window that has just been found, or without one when the
/// time is up after both looks have found none.
pub proof fn law_wait_ends(m: WindowWait, reply: Reply)
    requires
        !(m is Finished),
        m.after(reply) is Finished,
    ensures
        m.after(reply)->window != 0 ==> reply == Reply::Handle(m.after(reply)->window) && (
        m is FindByClass || m is FindByTitle),
        m.after(reply)->window == 0 ==> (m matches WindowWait::Elapsed { timeout } && reply matches Reply::Number(
            ms,
        ) && ms >= timeout),
{
}

/// A round of the wait that finds no window and whose time is not up comes back to where it began.
pub proof fn law_wait_goes_round(timeout: u32, ms: i64)
    requires
        ms < timeout,
    ensures
        (WindowWait::FindByClass { timeout }).after(Reply::Handle(0)).after(Reply::Handle(0)).after(
            Reply::Number(ms),
        ).after(Reply::Done) == (WindowWait::FindByClass { timeout }),
{
}

/// Why the candidate window could not be created.
#[derive(Clone, Copy, Debug, PartialEq, Eq, Structural)]
pub enum CreateError {
    /// The module of this process was not found.
    NoModule,
    /// The cursor could not be loaded.
    NoCursor,
    /// The window could not be created.
    NoWindow,
}

impl CreateError {
    /// The name of the call that failed.
    pub fn name(&self) -> (r: &'static str)
        ensures
            r@ == match self {
                CreateError::NoModule => "GetModuleHandle"@,
                CreateError::NoCursor => "LoadCursor"@,
                CreateError::NoWindow => "CreateWindowEx"@,
            },
    {
        match self {
            CreateError::NoModule => "GetModuleHandle",
            CreateError::NoCursor => "LoadCursor",
            CreateError::NoWindow => "CreateWindowEx",
        }
    }
}

/// How far the creation of the candidate window has come.
#[derive(Clone, Copy, Debug, PartialEq, Eq, Structural)]
pub enum CreatePhase {
    /// Ask for the module of this process.
    Module,
    /// Load the cursor.
    Cursor,
    /// Register the class of the window.
    Register,
    /// Create the window.
    Create,
    /// Round the corners of the window.
    Corner,
    /// Everything is done.
    Finished,
}

/// The creation of the candidate window. A class that cannot be registered may be there already,
/// so only the creation itself tells.
#[derive(Clone, Copy, Debug, PartialEq, Eq)]
pub struct OverlayCreate {
    /// The call that is due.
    pub phase: CreatePhase,
    /// The window; zero as long as there is none.
    pub window: isize,
    /// What has come of it.
    pub result: Result<(), CreateError>,
}

impl CallSequence for OverlayCreate {
    open spec fn after(self, reply: Reply) -> OverlayCreate {
        match (self.phase, reply) {
            (CreatePhase::Module, Reply::Flag(ok)) => if ok {
                OverlayCreate { phase: CreatePhase::Cursor, ..self }
            } else {
                OverlayCreate {
                    phase: CreatePhase::Finished,
                    result: Err(CreateError::NoModule),
                    ..self
                }
            },
            (CreatePhase::Cursor, Reply::Flag(ok)) => if ok {
                OverlayCreate { phase: CreatePhase::Register, ..self }
            } else {
                OverlayCreate {
                    phase: CreatePhase::Finished,
                    result: Err(CreateError::NoCursor),
                    ..self
                }
            },
            (CreatePhase::Register, Reply::Done) => OverlayCreate {
                phase: CreatePhase::Create,
                ..self
            },
            (CreatePhase::Create, Reply::Handle(window)) => if window != 0 {
                OverlayCreate { phase: CreatePhase::Corner, window, ..self }
            } else {
                OverlayCreate {
                    phase: CreatePhase::Finished,
                    result: Err(CreateError::NoWindow),
                    ..self
                }
            },
            (CreatePhase::Corner, Reply::Done) => OverlayCreate {
                phase: CreatePhase::Finished,
                result: Ok(()),
                ..self
            },
            _ => self,
        }
    }

    open spec fn awaits(self, reply: Reply) -> bool {
        match self.phase {
            CreatePhase::Module
            | CreatePhase::Cursor => reply is Flag,
            CreatePhase::Create => reply is Handle,
            CreatePhase::Finished => false,
            _ => reply is Done,
        }
    }

    open spec fn rank(self) -> nat {
        match self.phase {
            CreatePhase::Module => 5,
            CreatePhase::Cursor => 4,
            CreatePhase::Register => 3,
            CreatePhase::Create => 2,
            CreatePhase::Corner => 1,
            CreatePhase::Finished => 0,
        }
    }

    open spec fn held(self) -> Multiset<Resource> {
        Multiset::empty()
    }

    open spec fn takes(self, reply: Reply) -> Multiset<Resource> {
        Multiset::empty()
    }

    open spec fn gives(self) -> Multiset<Resource> {
        Multiset::empty()
    }

    proof fn lemma_call(self, reply: Reply) {
    }
}

impl OverlayCreate {
    /// The state after an answer.
    pub fn step(self, reply: Reply) -> (r: OverlayCreate)
        ensures
            r == self.after(reply),
    {
        match (self.phase, reply) {
            (CreatePhase::Module, Reply::Flag(ok)) => {
                if ok {
                    OverlayCreate { phase: CreatePhase::Cursor, ..self }
                } else {
                    OverlayCreate {
                        phase: CreatePhase::Finished,
                        result: Err(CreateError::NoModule),
                        ..self
                    }
                }
            },
            (CreatePhase::Cursor, Reply::Flag(ok)) => {
                if ok {
                    OverlayCreate { phase: CreatePhase::Register, ..self }
                } else {
                    OverlayCreate {
                        phase: CreatePhase::Finished,
                        result: Err(CreateError::NoCursor),
                        ..self
                    }
                }
            },
            (CreatePhase::Register, Reply::Done) => {
                OverlayCreate { phase: CreatePhase::Create, ..self }
            },
            (CreatePhase::Create, Reply::Handle(window)) => {
                if window != 0 {
                    OverlayCreate { phase: CreatePhase::Corner, window, ..self }
                } else {
                    OverlayCreate {
                        phase: CreatePhase::Finished,
                        result: Err(CreateError::NoWindow),
                        ..self
                    }
                }
            },
            (CreatePhase::Corner, Reply::Done) => {
                OverlayCreate { phase: CreatePhase::Finished, result: Ok(()), ..self }
            },
            _ => self,
        }
    }
}

/// Starts the creation of the candidate window.
pub fn create_overlay() -> (r: OverlayCreate)
    ensures
        r == (OverlayCreate { phase: CreatePhase::Module, window: 0, result: Ok(()) }),
{
    OverlayCreate { phase: CreatePhase::Module, window: 0, result: Ok(()) }
}

/// The creation succeeds exactly where there is a window in the end.
pub proof fn law_created_with_window(replies: Seq<Reply>)
    requires
        calls::answered(
            (OverlayCreate { phase: CreatePhase::Module, window: 0, result: Ok(()) }),
            replies,
        ),
        calls::run(
            (OverlayCreate { phase: CreatePhase::Module, window: 0, result: Ok(()) }),
            replies,
        ).phase == CreatePhase::Finished,
    ensures
        ({
            let f = calls::run(
                (OverlayCreate { phase: CreatePhase::Module, window: 0, result: Ok(()) }),
                replies,
            );
            &&& f.result is Ok <==> f.window != 0
            &&& f.result is Ok ==> replies[3] == Reply::Handle(f.window)
        }),
{
    reveal_with_fuel(calls::run, 7);
    reveal_with_fuel(calls::answered, 7);
    let m = OverlayCreate { phase: CreatePhase::Module, window: 0, result: Ok(()) };
    calls::law_calls_end(m, replies);
}

/// Whether a message to the candidate window asks for its painting. Such a message is answered with
/// zero and its area declared valid, since the window is painted whenever its content changes; any
/// other message goes to the default window procedure.
pub fn overlay_wndproc(msg: u32) -> (r: bool)
    ensures
        r == (msg == WM_PAINT),
{
    msg == WM_PAINT
}

/// Whether a painting of the candidate window is reported: the first few are.
pub fn paint_is_reported(count: usize) -> (r: bool)
    ensures
        r == (count <= 5),
{
    count <= 5
}

/// A round of the wait looks for the window by its class and then by its title, and asks for the
/// time only after both. A window that is found ends the wait with that window, and so does the
/// time once it has reached the limit; otherwise the wait sleeps and starts over.
pub proof fn law_wait_looks_twice(timeout: u32, window: isize, ms: i64)
    requires
        window != 0,
    ensures
        ({
            let by_class = WindowWait::FindByClass { timeout };
            let by_title = WindowWait::FindByTitle { timeout };
            let elapsed = WindowWait::Elapsed { timeout };
            let sleep = WindowWait::Sleep { timeout };
            &&& by_class.after(Reply::Handle(window)) == (WindowWait::Finished { window })
            &&& by_class.after(Reply::Handle(0)) == by_title
            &&& by_title.after(Reply::Handle(window)) == (WindowWait::Finished { window })
            &&& by_title.after(Reply::Handle(0)) == elapsed
            &&& ms >= timeout ==> elapsed.after(Reply::Number(ms)) == (WindowWait::Finished {
                window: 0,
            })
            &&& ms < timeout ==> elapsed.after(Reply::Number(ms)) == sleep
            &&& sleep.after(Reply::Done) == by_class
        }),
{
}

/// The creation goes through its steps in order, and the first failure ends it with its own error:
/// the module, the cursor, and the window itself can be missing. A class that cannot be registered
/// ends nothing.
pub proof fn law_creation_goes_through_its_steps(replies: Seq<Reply>)
    requires
        calls::answered(
            (OverlayCreate { phase: CreatePhase::Module, window: 0, result: Ok(()) }),
            replies,
        ),
        calls::run(
            (OverlayCreate { phase: CreatePhase::Module, window: 0, result: Ok(()) }),
            replies,
        ).phase == CreatePhase::Finished,
    ensures
        ({
            let m = OverlayCreate { phase: CreatePhase::Module, window: 0, result: Ok(()) };
            let f = calls::run(m, replies);
            let n = replies.len();
            let order = seq![
                CreatePhase::Module,
                CreatePhase::Cursor,
                CreatePhase::Register,
                CreatePhase::Create,
                CreatePhase::Corner,
            ];
            &&& 1 <= n <= 5
            &&& forall|k: int|
                0 <= k < n ==> (#[trigger] calls::at(m, replies, k)).phase == order[k]
            &&& replies[0] == Reply::Flag(false) <==> n == 1
            &&& n > 1 ==> (replies[1] == Reply::Flag(false) <==> n == 2)
            &&& n > 2 ==> n >= 4 && (replies[3] == Reply::Handle(0) <==> n == 4)
            &&& f.result == if n == 1 {
                Err::<(), CreateError>(CreateError::NoModule)
            } else if n == 2 {
                Err::<(), CreateError>(CreateError::NoCursor)
            } else if n == 4 {
                Err::<(), CreateError>(CreateError::NoWindow)
            } else {
                Ok::<(), CreateError>(())
            }
            &&& n == 5 ==> {
                &&& replies[3] == Reply::Handle(f.window)
                &&& calls::at(m, replies, 4).window == f.window
            }
            &&& n < 5 ==> f.window == 0
        }),
{
    let m = OverlayCreate { phase: CreatePhase::Module, window: 0, result: Ok(()) };
    calls::lemma_calls(m, replies);
}

} // verus!
