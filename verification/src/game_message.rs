//! The window procedure of the game window.

use crate::calls::{self, CallSequence, Reply, Resource};
use crate::messages::{WM_CTLCOLOREDIT, WM_CTLCOLORSTATIC, WM_TSF_INIT_ON_UI_THREAD};
use vstd::multiset::Multiset;
use vstd::prelude::*;

verus! {

/// A child asks with this message for its colours.
pub open spec fn asks_for_colours(msg: u32) -> bool {
    msg == WM_CTLCOLOREDIT || msg == WM_CTLCOLORSTATIC
}

/// How far the handling of a message to the game window has come.
#[derive(Clone, Copy, Debug, PartialEq, Eq, Structural)]
pub enum GamePhase {
    /// Start the text services on this thread.
    InitServices,
    /// Ask for the class of the child.
    AskClass,
    /// Report the question, where it is the first one for the child.
    Report,
    /// Set the colour of the background.
    SetBackground,
    /// Set the colour of the text.
    SetText,
    /// Ask for the brush of the background.
    Brush,
    /// Look up the original window procedure.
    LookUp,
    /// Hand the message to the original window procedure.
    CallOriginal,
    /// Everything is done.
    Finished,
}

/// The handling of one message to the game window: the start of the text services, the colours of
/// the edit controls, and the original window procedure for everything else.
#[derive(Clone, Copy, Debug, PartialEq, Eq)]
pub struct GameMessage {
    /// The call that is due.
    pub phase: GamePhase,
    /// The original window procedure; zero where it is not known.
    pub original: i64,
    /// The answer to the message.
    pub result: i64,
}

impl CallSequence for GameMessage {
    open spec fn after(self, reply: Reply) -> GameMessage {
        match (self.phase, reply) {
            (GamePhase::InitServices, Reply::Done) => GameMessage {
                phase: GamePhase::Finished,
                result: 0,
                ..self
            },
            (GamePhase::AskClass, Reply::Flag(target)) => if target {
                GameMessage { phase: GamePhase::Report, ..self }
            } else {
                GameMessage { phase: GamePhase::LookUp, ..self }
            },
            (GamePhase::Report, Reply::Done) => GameMessage {
                phase: GamePhase::SetBackground,
                ..self
            },
            (GamePhase::SetBackground, Reply::Done) => GameMessage {
                phase: GamePhase::SetText,
                ..self
            },
            (GamePhase::SetText, Reply::Done) => GameMessage { phase: GamePhase::Brush, ..self },
            (GamePhase::Brush, Reply::Number(result)) => GameMessage {
                phase: GamePhase::Finished,
                result,
                ..self
            },
            (GamePhase::LookUp, Reply::Number(original)) => if original != 0 {
                GameMessage { phase: GamePhase::CallOriginal, original, ..self }
            } else {
                GameMessage { phase: GamePhase::Finished, original, result: 0, ..self }
            },
            (GamePhase::CallOriginal, Reply::Number(result)) => GameMessage {
                phase: GamePhase::Finished,
                result,
                ..self
            },
            _ => self,
        }
    }

    open spec fn awaits(self, reply: Reply) -> bool {
        match self.phase {
            GamePhase::AskClass => reply is Flag,
            GamePhase::Brush
            | GamePhase::LookUp
            | GamePhase::CallOriginal => reply is Number,
            GamePhase::Finished => false,
            _ => reply is Done,
        }
    }

    open spec fn rank(self) -> nat {
        match self.phase {
            GamePhase::InitServices => 8,
            GamePhase::AskClass => 7,
            GamePhase::Report => 6,
            GamePhase::SetBackground => 5,
            GamePhase::SetText => 4,
            GamePhase::Brush => 3,
            GamePhase::LookUp => 2,
            GamePhase::CallOriginal => 1,
            GamePhase::Finished => 0,
        }
    }

    open spec fn held(self) -> Multiset<Resource> {
        Multiset::empty()
    }

    open spec fn takes(self, reply: Reply) -> Multiset<Resource> {
        Multiset::empty()
    }

    open spec fn gives(self) -> Multiset<Resource> {
        Multiset::empty()
    }

    proof fn lemma_call(self, reply: Reply) {
    }
}

impl GameMessage {
    /// The handling of a message at its start.
    pub open spec fn begin(msg: u32, lparam: isize) -> GameMessage {
        GameMessage {
            phase: if msg == WM_TSF_INIT_ON_UI_THREAD {
                GamePhase::InitServices
            } else if asks_for_colours(msg) && lparam != 0 {
                GamePhase::AskClass
            } else {
                GamePhase::LookUp
            },
            original: 0,
            result: 0,
        }
    }

    /// Starts the handling of a message; the second value that came with it is the child where the
    /// message asks for colours.
    pub fn new(msg: u32, lparam: isize) -> (r: Self)
        ensures
            r == GameMessage::begin(msg, lparam),
    {
        let phase = if msg == WM_TSF_INIT_ON_UI_THREAD {
            GamePhase::InitServices
        } else if (msg == WM_CTLCOLOREDIT || msg == WM_CTLCOLORSTATIC) && lparam != 0 {
            GamePhase::AskClass
        } else {
            GamePhase::LookUp
        };
        GameMessage { phase, original: 0, result: 0 }
    }

    /// The state after an answer.
    pub fn step(self, reply: Reply) -> (r: GameMessage)
        ensures
            r == self.after(reply),
    {
        match (self.phase, reply) {
            (GamePhase::InitServices, Reply::Done) => {
                GameMessage { phase: GamePhase::Finished, result: 0, ..self }
            },
            (GamePhase::AskClass, Reply::Flag(target)) => {
                if target {
                    GameMessage { phase: GamePhase::Report, ..self }
                } else {
                    GameMessage { phase: GamePhase::LookUp, ..self }
                }
            },
            (GamePhase::Report, Reply::Done) => {
                GameMessage { phase: GamePhase::SetBackground, ..self }
            },
            (GamePhase::SetBackground, Reply::Done) => {
                GameMessage { phase: GamePhase::SetText, ..self }
            },
            (GamePhase::SetText, Reply::Done) => {
                GameMessage { phase: GamePhase::Brush, ..self }
            },
            (GamePhase::Brush, Reply::Number(result)) => {
                GameMessage { phase: GamePhase::Finished, result, ..self }
            },
            (GamePhase::LookUp, Reply::Number(original)) => {
                if original != 0 {
                    GameMessage { phase: GamePhase::CallOriginal, original, ..self }
                } else {
                    GameMessage { phase: GamePhase::Finished, original, result: 0, ..self }
                }
            },
            (GamePhase::CallOriginal, Reply::Number(result)) => {
                GameMessage { phase: GamePhase::Finished, result, ..self }
            },
            _ => self,
        }
    }
}

/// The message that starts the text services is handled here alone: it takes that one call, is
/// answered with zero and does not reach the original window procedure.
pub proof fn law_start_of_services(lparam: isize, replies: Seq<Reply>)
    requires
        calls::answered(GameMessage::begin(WM_TSF_INIT_ON_UI_THREAD, lparam), replies),
        replies.len() > 0,
    ensures
        replies.len() == 1,
        ({
            let f = calls::run(GameMessage::begin(WM_TSF_INIT_ON_UI_THREAD, lparam), replies);
            f.phase == GamePhase::Finished && f.result == 0
        }),
{
    reveal_with_fuel(calls::run, 3);
    reveal_with_fuel(calls::answered, 3);
}

/// An edit control that asks for its colours gets the background and text colours and the brush;
/// the original window procedure is not asked.
pub proof fn law_edit_gets_its_colours(msg: u32, lparam: isize, replies: Seq<Reply>)
    requires
        asks_for_colours(msg),
        lparam != 0,
        calls::answered(GameMessage::begin(msg, lparam), replies),
        calls::run(GameMessage::begin(msg, lparam), replies).phase == GamePhase::Finished,
        replies[0] == Reply::Flag(true),
    ensures
        replies.len() == 5,
        replies[4] == Reply::Number(calls::run(GameMessage::begin(msg, lparam), replies).result),
        calls::run(GameMessage::begin(msg, lparam), replies.take(1)).phase == GamePhase::Report,
        calls::run(GameMessage::begin(msg, lparam), replies.take(2)).phase
            == GamePhase::SetBackground,
        calls::run(GameMessage::begin(msg, lparam), replies.take(3)).phase == GamePhase::SetText,
        calls::run(GameMessage::begin(msg, lparam), replies.take(4)).phase == GamePhase::Brush,
{
    reveal_with_fuel(calls::run, 8);
    reveal_with_fuel(calls::answered, 8);
    let m = GameMessage::begin(msg, lparam);
    calls::law_calls_end(m, replies);
    assert(replies.take(1).skip(1) =~= Seq::<Reply>::empty());
    assert(replies.take(2).skip(1) =~= seq![replies[1]]);
    assert(replies.take(3).skip(1) =~= seq![replies[1], replies[2]]);
    assert(replies.take(3).skip(1).skip(1) =~= seq![replies[2]]);
    assert(replies.take(4).skip(1) =~= seq![replies[1], replies[2], replies[3]]);
    assert(replies.take(4).skip(1).skip(1) =~= seq![replies[2], replies[3]]);
    assert(replies.take(4).skip(1).skip(1).skip(1) =~= seq![replies[3]]);
}

/// Every other message goes to the original window procedure, where that is known, and the answer
/// is what it answers; where it is not known, the answer is zero. That holds also for the colours
/// of a child that is no edit control.
pub proof fn law_original_gets_other_messages(msg: u32, lparam: isize, replies: Seq<Reply>)
    requires
        msg != WM_TSF_INIT_ON_UI_THREAD,
        calls::answered(GameMessage::begin(msg, lparam), replies),
        calls::run(GameMessage::begin(msg, lparam), replies).phase == GamePhase::Finished,
        asks_for_colours(msg) && lparam != 0 ==> replies[0] == Reply::Flag(false),
    ensures
        ({
            let f = calls::run(GameMessage::begin(msg, lparam), replies);
            let asked = if asks_for_colours(msg) && lparam != 0 {
                1int
            } else {
                0int
            };
            &&& replies[asked] == Reply::Number(f.original)
            &&& if f.original != 0 {
                replies.len() == asked + 2 && replies[asked + 1] == Reply::Number(f.result)
            } else {
                replies.len() == asked + 1 && f.result == 0
            }
        }),
{
    reveal_with_fuel(calls::run, 5);
    reveal_with_fuel(calls::answered, 5);
    calls::law_calls_end(GameMessage::begin(msg, lparam), replies);
}

/// Each message takes its own way: `WM_APP + 1` starts the services and no other message does; a
/// question for colours, `WM_CTLCOLOREDIT` or `WM_CTLCOLORSTATIC`, asks for the class of the child
/// first where there is a child, and the colours and the brush are set for an edit control alone;
/// everything else is looked up and handed to the original window procedure.
pub proof fn law_each_message_takes_its_way(msg: u32, lparam: isize, replies: Seq<Reply>)
    requires
        calls::answered(GameMessage::begin(msg, lparam), replies),
        calls::run(GameMessage::begin(msg, lparam), replies).phase == GamePhase::Finished,
    ensures
        ({
            let m = GameMessage::begin(msg, lparam);
            let f = calls::run(m, replies);
            let asks = (msg == 0x0133 || msg == 0x0138) && lparam != 0;
            let edit = asks && replies[0] == Reply::Flag(true);
            let l: int = if asks {
                1
            } else {
                0
            };
            if msg == 0x8001 {
                m.phase == GamePhase::InitServices && replies.len() == 1 && f.result == 0
            } else {
                &&& asks ==> m.phase == GamePhase::AskClass
                &&& edit ==> {
                    &&& replies.len() == 5
                    &&& calls::at(m, replies, 1).phase == GamePhase::Report
                    &&& calls::at(m, replies, 2).phase == GamePhase::SetBackground
                    &&& calls::at(m, replies, 3).phase == GamePhase::SetText
                    &&& calls::at(m, replies, 4).phase == GamePhase::Brush
                    &&& replies[4] == Reply::Number(f.result)
                }
                &&& !edit ==> {
                    let original = replies[l]->Number_0;
                    &&& calls::at(m, replies, l).phase == GamePhase::LookUp
                    &&& original == 0 ==> replies.len() == l + 1 && f.result == 0
                    &&& original != 0 ==> {
                        &&& replies.len() == l + 2
                        &&& calls::at(m, replies, l + 1).phase == GamePhase::CallOriginal
                        &&& calls::at(m, replies, l + 1).original == original
                        &&& replies[l + 1] == Reply::Number(f.result)
                    }
                }
            }
        }),
{
    calls::lemma_calls(GameMessage::begin(msg, lparam), replies);
}

} // verus!
