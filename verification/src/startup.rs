//! The start of the library in the game.

use crate::calls::{self, CallSequence, Reply, Resource};
use crate::messages::DLL_PROCESS_ATTACH;
use vstd::multiset::Multiset;
use vstd::prelude::*;

verus! {

/// How long the game window is waited for, in milliseconds.
pub const WINDOW_TIMEOUT_MS: u32 = 180_000;

/// How long the game is given to settle, in seconds.
pub const SETTLE_SECS: u64 = 5;

/// Whether the library is started: where it has just been loaded into a process.
pub fn starts(reason: u32) -> (r: bool)
    ensures
        r == (reason == DLL_PROCESS_ATTACH),
{
    reason == DLL_PROCESS_ATTACH
}

/// Whether another message is waited for, by what the wait for the last one returned: zero ends the
/// loop, and so does a failure.
pub fn keeps_waiting(answer: i32) -> (r: bool)
    ensures
        r == (answer > 0),
{
    !(answer <= 0)
}

/// How far the start of the library has come.
#[derive(Clone, Copy, Debug, PartialEq, Eq, Structural)]
pub enum StartPhase {
    /// Install the hooks on window creation.
    InstallHooks,
    /// Wait for the game window.
    FindWindow,
    /// Wait until the game has settled.
    Settle,
    /// Watch for edit controls.
    Watch,
    /// Create the candidate window.
    CreateWindow,
    /// Keep the candidate window.
    KeepWindow,
    /// Replace the window procedure of the game window.
    SubclassGame,
    /// Have the text services started on the thread of the game window.
    PostInit,
    /// Hook the primary drawing surface.
    HookSurface,
    /// Everything is done.
    Finished,
}

/// The start of the library in the game. The hooks come first, before the game registers its
/// classes; the rest waits until the game has its window and has settled.
#[derive(Clone, Copy, Debug, PartialEq, Eq)]
pub struct Startup {
    /// The call that is due.
    pub phase: StartPhase,
    /// The game window.
    pub game: isize,
    /// The candidate window; zero where it could not be created.
    pub window: isize,
    /// Whether the library has been started, so that messages are to be waited for.
    pub started: bool,
}

impl CallSequence for Startup {
    open spec fn after(self, reply: Reply) -> Startup {
        match (self.phase, reply) {
            (StartPhase::InstallHooks, Reply::Flag(ok)) => if ok {
                Startup { phase: StartPhase::FindWindow, ..self }
            } else {
                Startup { phase: StartPhase::Finished, ..self }
            },
            (StartPhase::FindWindow, Reply::Handle(game)) => if game != 0 {
                Startup { phase: StartPhase::Settle, game, ..self }
            } else {
                Startup { phase: StartPhase::Finished, ..self }
            },
            (StartPhase::Settle, Reply::Done) => Startup { phase: StartPhase::Watch, ..self },
            (StartPhase::Watch, Reply::Done) => Startup { phase: StartPhase::CreateWindow, ..self },
            (StartPhase::CreateWindow, Reply::Handle(window)) => if window != 0 {
                Startup { phase: StartPhase::KeepWindow, window, ..self }
            } else {
                Startup { phase: StartPhase::SubclassGame, ..self }
            },
            (StartPhase::KeepWindow, Reply::Done) => Startup {
                phase: StartPhase::SubclassGame,
                ..self
            },
            (StartPhase::SubclassGame, Reply::Done) => Startup {
                phase: StartPhase::PostInit,
                ..self
            },
            (StartPhase::PostInit, Reply::Done) => Startup {
                phase: StartPhase::HookSurface,
                ..self
            },
            (StartPhase::HookSurface, Reply::Done) => Startup {
                phase: StartPhase::Finished,
                started: true,
                ..self
            },
            _ => self,
        }
    }

    open spec fn awaits(self, reply: Reply) -> bool {
        match self.phase {
            StartPhase::InstallHooks => reply is Flag,
            StartPhase::FindWindow
            | StartPhase::CreateWindow => reply is Handle,
            StartPhase::Finished => false,
            _ => reply is Done,
        }
    }

    open spec fn rank(self) -> nat {
        match self.phase {
            StartPhase::InstallHooks => 9,
            StartPhase::FindWindow => 8,
            StartPhase::Settle => 7,
            StartPhase::Watch => 6,
            StartPhase::CreateWindow => 5,
            StartPhase::KeepWindow => 4,
            StartPhase::SubclassGame => 3,
            StartPhase::PostInit => 2,
            StartPhase::HookSurface => 1,
            StartPhase::Finished => 0,
        }
    }

    open spec fn held(self) -> Multiset<Resource> {
        Multiset::empty()
    }

    open spec fn takes(self, reply: Reply) -> Multiset<Resource> {
        Multiset::empty()
    }

    open spec fn gives(self) -> Multiset<Resource> {
        Multiset::empty()
    }

    proof fn lemma_call(self, reply: Reply) {
    }
}

impl Startup {
    /// The state after an answer.
    pub fn step(self, reply: Reply) -> (r: Startup)
        ensures
            r == self.after(reply),
    {
        match (self.phase, reply) {
            (StartPhase::InstallHooks, Reply::Flag(ok)) => {
                if ok {
                    Startup { phase: StartPhase::FindWindow, ..self }
                } else {
                    Startup { phase: StartPhase::Finished, ..self }
                }
            },
            (StartPhase::FindWindow, Reply::Handle(game)) => {
                if game != 0 {
                    Startup { phase: StartPhase::Settle, game, ..self }
                } else {
                    Startup { phase: StartPhase::Finished, ..self }
                }
            },
            (StartPhase::Settle, Reply::Done) => {
                Startup { phase: StartPhase::Watch, ..self }
            },
            (StartPhase::Watch, Reply::Done) => {
                Startup { phase: StartPhase::CreateWindow, ..self }
            },
            (StartPhase::CreateWindow, Reply::Handle(window)) => {
                if window != 0 {
                    Startup { phase: StartPhase::KeepWindow, window, ..self }
                } else {
                    Startup { phase: StartPhase::SubclassGame, ..self }
                }
            },
            (StartPhase::KeepWindow, Reply::Done) => {
                Startup { phase: StartPhase::SubclassGame, ..self }
            },
            (StartPhase::SubclassGame, Reply::Done) => {
                Startup { phase: StartPhase::PostInit, ..self }
            },
            (StartPhase::PostInit, Reply::Done) => {
                Startup { phase: StartPhase::HookSurface, ..self }
            },
            (StartPhase::HookSurface, Reply::Done) => {
                Startup { phase: StartPhase::Finished, started: true, ..self }
            },
            _ => self,
        }
    }
}

/// The start of the library, at its first step.
pub fn worker() -> (r: Startup)
    ensures
        r == (Startup { phase: StartPhase::InstallHooks, game: 0, window: 0, started: false }),
{
    Startup { phase: StartPhase::InstallHooks, game: 0, window: 0, started: false }
}

/// The library is started exactly where the hooks could be installed and the game window was found;
/// that the candidate window cannot be created does not stop it.
pub proof fn law_started_with_hooks_and_window(replies: Seq<Reply>)
    requires
        calls::answered(
            (Startup { phase: StartPhase::InstallHooks, game: 0, window: 0, started: false }),
            replies,
        ),
        calls::run(
            (Startup { phase: StartPhase::InstallHooks, game: 0, window: 0, started: false }),
            replies,
        ).phase == StartPhase::Finished,
    ensures
        ({
            let f = calls::run(
                (Startup { phase: StartPhase::InstallHooks, game: 0, window: 0, started: false }),
                replies,
            );
            &&& f.started <==> replies[0] == Reply::Flag(true) && replies.len() > 1 && replies[1]
                == Reply::Handle(f.game) && f.game != 0
            &&& !f.started ==> replies.len() <= 2
        }),
{
    reveal_with_fuel(calls::run, 11);
    reveal_with_fuel(calls::answered, 11);
    let m = Startup { phase: StartPhase::InstallHooks, game: 0, window: 0, started: false };
    calls::law_calls_end(m, replies);
}

/// Nothing in the game is watched or changed, the hooks aside, before its window has been found
/// and it has been given time to settle.
pub proof fn law_game_settles_first(replies: Seq<Reply>)
    requires
        calls::answered(
            (Startup { phase: StartPhase::InstallHooks, game: 0, window: 0, started: false }),
            replies,
        ),
        calls::run(
            (Startup { phase: StartPhase::InstallHooks, game: 0, window: 0, started: false }),
            replies,
        ).phase == StartPhase::Watch,
    ensures
        replies.len() == 3,
        replies[0] == Reply::Flag(true),
        replies[1] matches Reply::Handle(game) && game != 0,
        replies[2] is Done,
{
    reveal_with_fuel(calls::run, 11);
    reveal_with_fuel(calls::answered, 11);
    let m = Startup { phase: StartPhase::InstallHooks, game: 0, window: 0, started: false };
    calls::law_calls_end(m, replies);
}

/// The start goes through its steps in order. It ends early only where the hooks cannot be
/// installed or the game window is not found; from then on every step is taken, with the game
/// window that was found, and only the keeping of the candidate window is left out where there is
/// none.
pub proof fn law_start_goes_through_its_steps(replies: Seq<Reply>)
    requires
        calls::answered(
            (Startup { phase: StartPhase::InstallHooks, game: 0, window: 0, started: false }),
            replies,
        ),
        calls::run(
            (Startup { phase: StartPhase::InstallHooks, game: 0, window: 0, started: false }),
            replies,
        ).phase == StartPhase::Finished,
    ensures
        ({
            let m = Startup {
                phase: StartPhase::InstallHooks,
                game: 0,
                window: 0,
                started: false,
            };
            let f = calls::run(m, replies);
            let none = Reply::Handle(0);
            let found = Startup { game: replies[1]->Handle_0, ..m };
            &&& replies[0] == Reply::Flag(false) ==> replies.len() == 1 && !f.started
            &&& replies[0] == Reply::Flag(true) ==> calls::at(m, replies, 1) == (Startup {
                phase: StartPhase::FindWindow,
                ..m
            })
            &&& replies[0] == Reply::Flag(true) && replies[1] == none ==> replies.len() == 2
                && !f.started
            &&& replies[0] == Reply::Flag(true) && replies[1] != none ==> {
                let kept = replies[4] != none;
                let made = if kept {
                    Startup { window: replies[4]->Handle_0, ..found }
                } else {
                    found
                };
                let s: int = if kept {
                    6
                } else {
                    5
                };
                &&& calls::at(m, replies, 2) == (Startup { phase: StartPhase::Settle, ..found })
                &&& calls::at(m, replies, 3) == (Startup { phase: StartPhase::Watch, ..found })
                &&& calls::at(m, replies, 4) == (Startup {
                    phase: StartPhase::CreateWindow,
                    ..found
                })
                &&& kept ==> calls::at(m, replies, 5) == (Startup {
                    phase: StartPhase::KeepWindow,
                    ..made
                })
                &&& calls::at(m, replies, s) == (Startup {
                    phase: StartPhase::SubclassGame,
                    ..made
                })
                &&& calls::at(m, replies, s + 1) == (Startup {
                    phase: StartPhase::PostInit,
                    ..made
                })
                &&& calls::at(m, replies, s + 2) == (Startup {
                    phase: StartPhase::HookSurface,
                    ..made
                })
                &&& replies.len() == s + 3
                &&& f.started
            }
        }),
{
    let m = Startup { phase: StartPhase::InstallHooks, game: 0, window: 0, started: false };
    calls::lemma_calls(m, replies);
}

} // verus!
