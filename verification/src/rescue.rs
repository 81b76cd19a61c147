//! The windows of the input method itself.

use crate::calls::{self, CallSequence, Reply, Resource};
use crate::geometry::Point;
use vstd::multiset::Multiset;
use vstd::prelude::*;

verus! {

/// The windows of the input method are placed and searched for so many times.
pub const MAX_RESCUES: usize = 3;

/// How far the placing of the windows of the input method has come.
#[derive(Clone, Copy, Debug, PartialEq, Eq, Structural)]
pub enum RescuePhase {
    /// Ask for the input context of the control.
    Context,
    /// Ask for the client area of the control.
    ClientRect,
    /// Turn its lower left corner into screen coordinates, for the report.
    ToScreen,
    /// Place the composition window at the left upper corner of the control.
    PlaceComposition,
    /// Place the candidate window at its lower left corner.
    PlaceCandidates,
    /// Give the context back.
    Release,
    /// Ask for the thread and the process of the control.
    Thread,
    /// Report the windows of the thread.
    ThreadWindows,
    /// Report the windows of the process that look like those of an input method.
    AllWindows,
    /// Everything is done.
    Finished,
}

/// The placing of the windows of the input method at an edit control, and the search for them. An
/// input method that is not told a place may put its windows out of sight.
#[derive(Clone, Copy, Debug, PartialEq, Eq)]
pub struct Rescue {
    /// The call that is due.
    pub phase: RescuePhase,
    /// The control.
    pub hwnd: isize,
    /// The input context.
    pub himc: isize,
    /// Lower edge of the client area; zero where it is not known.
    pub bottom: i32,
}

impl CallSequence for Rescue {
    open spec fn after(self, reply: Reply) -> Rescue {
        match (self.phase, reply) {
            (RescuePhase::Context, Reply::Handle(himc)) => if himc != 0 && himc != -1 {
                Rescue { phase: RescuePhase::ClientRect, himc, ..self }
            } else {
                Rescue { phase: RescuePhase::Thread, ..self }
            },
            (RescuePhase::ClientRect, Reply::Area(Some(rc))) => Rescue {
                phase: RescuePhase::ToScreen,
                bottom: rc.bottom,
                ..self
            },
            (RescuePhase::ClientRect, Reply::Area(None)) => Rescue {
                phase: RescuePhase::ToScreen,
                bottom: 0,
                ..self
            },
            (RescuePhase::ToScreen, Reply::Done) => Rescue {
                phase: RescuePhase::PlaceComposition,
                ..self
            },
            (RescuePhase::PlaceComposition, Reply::Done) => Rescue {
                phase: RescuePhase::PlaceCandidates,
                ..self
            },
            (RescuePhase::PlaceCandidates, Reply::Done) => Rescue {
                phase: RescuePhase::Release,
                ..self
            },
            (RescuePhase::Release, Reply::Done) => Rescue { phase: RescuePhase::Thread, ..self },
            (RescuePhase::Thread, Reply::Done) => Rescue {
                phase: RescuePhase::ThreadWindows,
                ..self
            },
            (RescuePhase::ThreadWindows, Reply::Done) => Rescue {
                phase: RescuePhase::AllWindows,
                ..self
            },
            (RescuePhase::AllWindows, Reply::Done) => Rescue {
                phase: RescuePhase::Finished,
                ..self
            },
            _ => self,
        }
    }

    open spec fn awaits(self, reply: Reply) -> bool {
        match self.phase {
            RescuePhase::Context => reply is Handle,
            RescuePhase::ClientRect => reply is Area,
            RescuePhase::Finished => false,
            _ => reply is Done,
        }
    }

    open spec fn rank(self) -> nat {
        match self.phase {
            RescuePhase::Context => 9,
            RescuePhase::ClientRect => 8,
            RescuePhase::ToScreen => 7,
            RescuePhase::PlaceComposition => 6,
            RescuePhase::PlaceCandidates => 5,
            RescuePhase::Release => 4,
            RescuePhase::Thread => 3,
            RescuePhase::ThreadWindows => 2,
            RescuePhase::AllWindows => 1,
            RescuePhase::Finished => 0,
        }
    }

    open spec fn held(self) -> Multiset<Resource> {
        let context = Multiset::singleton(
            Resource::InputContext { himc: self.himc, owner: self.hwnd },
        );
        match self.phase {
            RescuePhase::Context
            | RescuePhase::Thread
            | RescuePhase::ThreadWindows
            | RescuePhase::AllWindows
            | RescuePhase::Finished => Multiset::empty(),
            RescuePhase::ClientRect
            | RescuePhase::ToScreen
            | RescuePhase::PlaceComposition
            | RescuePhase::PlaceCandidates
            | RescuePhase::Release => context,
        }
    }

    open spec fn takes(self, reply: Reply) -> Multiset<Resource> {
        match (self.phase, reply) {
            (RescuePhase::Context, Reply::Handle(himc)) => if himc != 0 && himc != -1 {
                Multiset::singleton(Resource::InputContext { himc, owner: self.hwnd })
            } else {
                Multiset::empty()
            },
            _ => Multiset::empty(),
        }
    }

    open spec fn gives(self) -> Multiset<Resource> {
        match self.phase {
            RescuePhase::Release => Multiset::singleton(
                Resource::InputContext { himc: self.himc, owner: self.hwnd },
            ),
            _ => Multiset::empty(),
        }
    }

    proof fn lemma_call(self, reply: Reply) {
    }
}

impl Rescue {
    /// Starts the placing for a control. It is done for the first few times only that candidates
    /// are opened; `count` tells how often they have been, this time counted.
    pub fn new(hwnd: isize, count: usize) -> (r: Self)
        ensures
            r == (Rescue {
                phase: if count > MAX_RESCUES {
                    RescuePhase::Finished
                } else {
                    RescuePhase::Context
                },
                hwnd,
                himc: 0,
                bottom: 0,
            }),
    {
        let phase = if count > MAX_RESCUES { RescuePhase::Finished } else { RescuePhase::Context };
        Rescue { phase, hwnd, himc: 0, bottom: 0 }
    }

    /// Where the composition window is placed in the control.
    pub fn composition_place(&self) -> (r: Point)
        ensures
            r == (Point { x: 0, y: 0 }),
    {
        Point { x: 0, y: 0 }
    }

    /// Where the candidate window is placed in the control.
    pub fn candidate_place(&self) -> (r: Point)
        ensures
            r == (Point { x: 0, y: self.bottom }),
    {
        Point { x: 0, y: self.bottom }
    }

    /// The state after an answer.
    pub fn step(self, reply: Reply) -> (r: Rescue)
        ensures
            r == self.after(reply),
    {
        match (self.phase, reply) {
            (RescuePhase::Context, Reply::Handle(himc)) => {
                if himc != 0 && himc != -1 {
                    Rescue { phase: RescuePhase::ClientRect, himc, ..self }
                } else {
                    Rescue { phase: RescuePhase::Thread, ..self }
                }
            },
            (RescuePhase::ClientRect, Reply::Area(Some(rc))) => {
                Rescue { phase: RescuePhase::ToScreen, bottom: rc.bottom, ..self }
            },
            (RescuePhase::ClientRect, Reply::Area(None)) => {
                Rescue { phase: RescuePhase::ToScreen, bottom: 0, ..self }
            },
            (RescuePhase::ToScreen, Reply::Done) => {
                Rescue { phase: RescuePhase::PlaceComposition, ..self }
            },
            (RescuePhase::PlaceComposition, Reply::Done) => {
                Rescue { phase: RescuePhase::PlaceCandidates, ..self }
            },
            (RescuePhase::PlaceCandidates, Reply::Done) => {
                Rescue { phase: RescuePhase::Release, ..self }
            },
            (RescuePhase::Release, Reply::Done) => {
                Rescue { phase: RescuePhase::Thread, ..self }
            },
            (RescuePhase::Thread, Reply::Done) => {
                Rescue { phase: RescuePhase::ThreadWindows, ..self }
            },
            (RescuePhase::ThreadWindows, Reply::Done) => {
                Rescue { phase: RescuePhase::AllWindows, ..self }
            },
            (RescuePhase::AllWindows, Reply::Done) => {
                Rescue { phase: RescuePhase::Finished, ..self }
            },
            _ => self,
        }
    }
}

/// The placing gives the input context back to the control it was taken from.
pub proof fn law_rescue_gives_back(m: Rescue, replies: Seq<Reply>)
    requires
        m.phase == RescuePhase::Context,
        calls::answered(m, replies),
        calls::run(m, replies).phase == RescuePhase::Finished,
    ensures
        calls::taken(m, replies) == calls::given(m, replies),
{
    calls::law_all_is_given_back(m, replies);
}

/// Where the control has an input context, both windows of the input method are told their places
/// with it and it is given back; then, in any case, the windows of the thread and those of the
/// process are gone through. The place of the candidates follows the lower edge of the client area,
/// which counts as zero where it is not known.
pub proof fn law_windows_are_placed_and_sought(m: Rescue, replies: Seq<Reply>)
    requires
        m.phase == RescuePhase::Context,
        calls::answered(m, replies),
        calls::run(m, replies).phase == RescuePhase::Finished,
    ensures
        ({
            let himc = replies[0]->Handle_0;
            let found = himc != 0 && himc != -1;
            let s: int = if found {
                6
            } else {
                1
            };
            &&& replies.len() == s + 3
            &&& found ==> {
                let bottom = match replies[1] {
                    Reply::Area(Some(rc)) => rc.bottom,
                    _ => 0,
                };
                let told = Rescue { himc, bottom, ..m };
                &&& calls::at(m, replies, 1) == (Rescue {
                    phase: RescuePhase::ClientRect,
                    himc,
                    ..m
                })
                &&& calls::at(m, replies, 2) == (Rescue { phase: RescuePhase::ToScreen, ..told })
                &&& calls::at(m, replies, 3) == (Rescue {
                    phase: RescuePhase::PlaceComposition,
                    ..told
                })
                &&& calls::at(m, replies, 4) == (Rescue {
                    phase: RescuePhase::PlaceCandidates,
                    ..told
                })
                &&& calls::at(m, replies, 5) == (Rescue { phase: RescuePhase::Release, ..told })
            }
            &&& calls::at(m, replies, s).phase == RescuePhase::Thread
            &&& calls::at(m, replies, s + 1).phase == RescuePhase::ThreadWindows
            &&& calls::at(m, replies, s + 2).phase == RescuePhase::AllWindows
        }),
{
    calls::lemma_calls(m, replies);
}

} // verus!
