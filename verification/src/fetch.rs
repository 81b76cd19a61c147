//! The calls that read the state of the input method of a window.
//!
//! A child window often has no input context of its own, so the context is asked for in turn at the
//! window, its parent and its root. With a context at hand the composition string and the candidate
//! list are read, each by a call that tells its size and one that fills a buffer. Whatever comes of
//! that, the context is given back to the window it was taken from.

use crate::candidates::{MAX_COMPOSITION_BYTES, MAX_LIST_BYTES};
use crate::calls::{self, CallSequence, Reply, Resource};
use vstd::multiset::Multiset;
use vstd::prelude::*;

verus! {

/// Where the reading stands; the state names the call that is due.
#[derive(Clone, Copy, Debug, PartialEq, Eq)]
pub enum Fetch {
    /// Ask for the context of the window.
    OwnContext { hwnd: isize },
    /// Ask for the parent of the window.
    Parent { hwnd: isize },
    /// Ask for the context of the parent.
    ParentContext { hwnd: isize, parent: isize },
    /// Ask for the root of the window.
    Root { hwnd: isize },
    /// Ask for the context of the root.
    RootContext { root: isize },
    /// Ask for the size of the composition string.
    CompositionSize { himc: isize, owner: isize },
    /// Fill a buffer of `bytes` bytes with the composition string.
    CompositionFill { himc: isize, owner: isize, bytes: u32 },
    /// Ask for the size of the candidate list.
    ListSize { himc: isize, owner: isize },
    /// Fill a buffer of `bytes` bytes with the candidate list.
    ListFill { himc: isize, owner: isize, bytes: u32 },
    /// Give the context back to its window.
    Release { himc: isize, owner: isize },
    /// Everything is done; `resolved` tells whether there was a context.
    Finished { resolved: bool },
}

impl CallSequence for Fetch {
    /// The state after an answer.
    open spec fn after(self, reply: Reply) -> Fetch {
        match (self, reply) {
            (Fetch::OwnContext { hwnd }, Reply::Handle(himc)) => if himc != 0 {
                Fetch::CompositionSize { himc, owner: hwnd }
            } else {
                Fetch::Parent { hwnd }
            },
            (Fetch::Parent { hwnd }, Reply::Handle(parent)) => if parent != 0 {
                Fetch::ParentContext { hwnd, parent }
            } else {
                Fetch::Root { hwnd }
            },
            (Fetch::ParentContext { hwnd, parent }, Reply::Handle(himc)) => if himc != 0 {
                Fetch::CompositionSize { himc, owner: parent }
            } else {
                Fetch::Root { hwnd }
            },
            (Fetch::Root { hwnd }, Reply::Handle(root)) => if root != 0 {
                Fetch::RootContext { root }
            } else {
                Fetch::Finished { resolved: false }
            },
            (Fetch::RootContext { root }, Reply::Handle(himc)) => if himc != 0 {
                Fetch::CompositionSize { himc, owner: root }
            } else {
                Fetch::Finished { resolved: false }
            },
            (Fetch::CompositionSize { himc, owner }, Reply::Number(need)) => if 0 < need
                <= MAX_COMPOSITION_BYTES {
                Fetch::CompositionFill { himc, owner, bytes: need as u32 }
            } else {
                Fetch::ListSize { himc, owner }
            },
            (Fetch::CompositionFill { himc, owner, .. }, Reply::Done) => Fetch::ListSize {
                himc,
                owner,
            },
            (Fetch::ListSize { himc, owner }, Reply::Number(need)) => if 0 < need
                <= MAX_LIST_BYTES {
                Fetch::ListFill { himc, owner, bytes: need as u32 }
            } else {
                Fetch::Release { himc, owner }
            },
            (Fetch::ListFill { himc, owner, .. }, Reply::Done) => Fetch::Release { himc, owner },
            (Fetch::Release { .. }, Reply::Done) => Fetch::Finished { resolved: true },
            _ => self,
        }
    }

    open spec fn awaits(self, reply: Reply) -> bool {
        match self {
            Fetch::OwnContext { .. }
            | Fetch::Parent { .. }
            | Fetch::ParentContext { .. }
            | Fetch::Root { .. }
            | Fetch::RootContext { .. } => reply is Handle,
            Fetch::CompositionSize { .. } | Fetch::ListSize { .. } => reply is Number,
            Fetch::CompositionFill { .. } | Fetch::ListFill { .. } | Fetch::Release { .. } => reply is Done,
            Fetch::Finished { .. } => false,
        }
    }

    open spec fn rank(self) -> nat {
        match self {
            Fetch::OwnContext { .. } => 10,
            Fetch::Parent { .. } => 9,
            Fetch::ParentContext { .. } => 8,
            Fetch::Root { .. } => 7,
            Fetch::RootContext { .. } => 6,
            Fetch::CompositionSize { .. } => 5,
            Fetch::CompositionFill { .. } => 4,
            Fetch::ListSize { .. } => 3,
            Fetch::ListFill { .. } => 2,
            Fetch::Release { .. } => 1,
            Fetch::Finished { .. } => 0,
        }
    }

    open spec fn held(self) -> Multiset<Resource> {
        match self {
            Fetch::CompositionSize { himc, owner }
            | Fetch::CompositionFill { himc, owner, .. }
            | Fetch::ListSize { himc, owner }
            | Fetch::ListFill { himc, owner, .. }
            | Fetch::Release { himc, owner } => Multiset::singleton(
                Resource::InputContext { himc, owner },
            ),
            _ => Multiset::empty(),
        }
    }

    open spec fn takes(self, reply: Reply) -> Multiset<Resource> {
        match (self, reply) {
            (Fetch::OwnContext { hwnd: owner }, Reply::Handle(himc))
            | (Fetch::ParentContext { parent: owner, .. }, Reply::Handle(himc))
            | (Fetch::RootContext { root: owner }, Reply::Handle(himc)) => if himc != 0 {
                Multiset::singleton(Resource::InputContext { himc, owner })
            } else {
                Multiset::empty()
            },
            _ => Multiset::empty(),
        }
    }

    open spec fn gives(self) -> Multiset<Resource> {
        match self {
            Fetch::Release { himc, owner } => Multiset::singleton(
                Resource::InputContext { himc, owner },
            ),
            _ => Multiset::empty(),
        }
    }

    proof fn lemma_call(self, reply: Reply) {
    }
}

impl Fetch {
    /// The state after an answer.
    pub fn step(self, reply: Reply) -> (r: Fetch)
        ensures
            r == self.after(reply),
    {
        match (self, reply) {
            (Fetch::OwnContext { hwnd }, Reply::Handle(himc)) => {
                if himc != 0 {
                    Fetch::CompositionSize { himc, owner: hwnd }
                } else {
                    Fetch::Parent { hwnd }
                }
            },
            (Fetch::Parent { hwnd }, Reply::Handle(parent)) => {
                if parent != 0 {
                    Fetch::ParentContext { hwnd, parent }
                } else {
                    Fetch::Root { hwnd }
                }
            },
            (Fetch::ParentContext { hwnd, parent }, Reply::Handle(himc)) => {
                if himc != 0 {
                    Fetch::CompositionSize { himc, owner: parent }
                } else {
                    Fetch::Root { hwnd }
                }
            },
            (Fetch::Root { hwnd }, Reply::Handle(root)) => {
                if root != 0 {
                    Fetch::RootContext { root }
                } else {
                    Fetch::Finished { resolved: false }
                }
            },
            (Fetch::RootContext { root }, Reply::Handle(himc)) => {
                if himc != 0 {
                    Fetch::CompositionSize { himc, owner: root }
                } else {
                    Fetch::Finished { resolved: false }
                }
            },
            (Fetch::CompositionSize { himc, owner }, Reply::Number(need)) => {
                if 0 < need && need <= MAX_COMPOSITION_BYTES as i64 {
                    Fetch::CompositionFill { himc, owner, bytes: need as u32 }
                } else {
                    Fetch::ListSize { himc, owner }
                }
            },
            (Fetch::CompositionFill { himc, owner, .. }, Reply::Done) => {
                Fetch::ListSize { himc, owner }
            },
            (Fetch::ListSize { himc, owner }, Reply::Number(need)) => {
                if 0 < need && need <= MAX_LIST_BYTES as i64 {
                    Fetch::ListFill { himc, owner, bytes: need as u32 }
                } else {
                    Fetch::Release { himc, owner }
                }
            },
            (Fetch::ListFill { himc, owner, .. }, Reply::Done) => Fetch::Release { himc, owner },
            (Fetch::Release { .. }, Reply::Done) => Fetch::Finished { resolved: true },
            _ => self,
        }
    }
}

/// The reading gives the input context back to the window it was taken from, whatever could be
/// read.
pub proof fn law_fetch_gives_back(hwnd: isize, replies: Seq<Reply>)
    requires
        calls::answered((Fetch::OwnContext { hwnd }), replies),
        calls::run((Fetch::OwnContext { hwnd }), replies) is Finished,
    ensures
        calls::taken((Fetch::OwnContext { hwnd }), replies) == calls::given(
            (Fetch::OwnContext { hwnd }),
            replies,
        ),
{
    calls::law_all_is_given_back(Fetch::OwnContext { hwnd }, replies);
}

/// The context is that of the window where it has one, else that of its parent, else that of its
/// root: wherever a context is at hand, those asked before had none.
pub proof fn law_context_order(hwnd: isize, replies: Seq<Reply>)
    requires
        calls::answered((Fetch::OwnContext { hwnd }), replies),
        calls::run((Fetch::OwnContext { hwnd }), replies) is CompositionSize,
    ensures
        ({
            let f = calls::run((Fetch::OwnContext { hwnd }), replies);
            let himc = f->CompositionSize_himc;
            let owner = f->CompositionSize_owner;
            let n = replies.len();
            &&& himc != 0
            &&& replies.last() == Reply::Handle(himc)
            &&& Reply::Handle(owner) == (if n == 1 {
                Reply::Handle(hwnd)
            } else {
                replies[n - 2]
            })
            &&& n == 1 || n == 3 || n == 4 || n == 5
            &&& n > 1 ==> replies[0] == Reply::Handle(0) && owner != 0
            &&& n == 4 ==> replies[1] == Reply::Handle(0)
            &&& n == 5 ==> replies[1] != Reply::Handle(0) && replies[2] == Reply::Handle(0)
        }),
{
    reveal_with_fuel(calls::run, 12);
    reveal_with_fuel(calls::answered, 12);
    calls::law_calls_end(Fetch::OwnContext { hwnd }, replies);
}

/// Where none of the three windows has a context, nothing is read and there is no state.
pub proof fn law_no_context_no_state(hwnd: isize, replies: Seq<Reply>)
    requires
        calls::answered((Fetch::OwnContext { hwnd }), replies),
        calls::run((Fetch::OwnContext { hwnd }), replies) == (Fetch::Finished { resolved: false }),
    ensures
        replies.len() <= 5,
        replies[0] == Reply::Handle(0),
        replies.last() == Reply::Handle(0),
        calls::taken((Fetch::OwnContext { hwnd }), replies) == Multiset::<Resource>::empty(),
{
    reveal_with_fuel(calls::run, 12);
    reveal_with_fuel(calls::answered, 12);
    reveal_with_fuel(calls::taken, 12);
    calls::law_calls_end(Fetch::OwnContext { hwnd }, replies);
    assert(calls::taken((Fetch::OwnContext { hwnd }), replies) =~= Multiset::<Resource>::empty());
}

/// The context is sought in turn at the window, its parent and its root, and each of them is asked
/// only where those before had none; a parent or a root that is null is not asked. There is no
/// context exactly where the last question of this row was answered with null.
pub proof fn law_context_is_sought(hwnd: isize, replies: Seq<Reply>)
    requires
        calls::answered((Fetch::OwnContext { hwnd }), replies),
        calls::run((Fetch::OwnContext { hwnd }), replies) is Finished,
    ensures
        ({
            let m = Fetch::OwnContext { hwnd };
            let none = Reply::Handle(0);
            let lost = calls::run(m, replies) == (Fetch::Finished { resolved: false });
            let own = replies[0] != none;
            let parent = replies[1] != none;
            &&& lost ==> replies.last() == none
            &&& !own ==> calls::at(m, replies, 1) == (Fetch::Parent { hwnd })
            &&& !own && parent ==> {
                &&& calls::at(m, replies, 2) == (Fetch::ParentContext {
                    hwnd,
                    parent: replies[1]->Handle_0,
                })
                &&& replies[2] == none ==> {
                    &&& calls::at(m, replies, 3) == (Fetch::Root { hwnd })
                    &&& replies[3] == none ==> lost && replies.len() == 4
                    &&& replies[3] != none ==> {
                        &&& calls::at(m, replies, 4) == (Fetch::RootContext {
                            root: replies[3]->Handle_0,
                        })
                        &&& replies[4] == none ==> lost && replies.len() == 5
                    }
                }
            }
            &&& !own && !parent ==> {
                &&& calls::at(m, replies, 2) == (Fetch::Root { hwnd })
                &&& replies[2] == none ==> lost && replies.len() == 3
                &&& replies[2] != none ==> {
                    &&& calls::at(m, replies, 3) == (Fetch::RootContext {
                        root: replies[2]->Handle_0,
                    })
                    &&& replies[3] == none ==> lost && replies.len() == 4
                }
            }
        }),
{
    let m = Fetch::OwnContext { hwnd };
    calls::lemma_calls(m, replies);
}

/// With a context at hand both the composition string and the candidate list are read from it. Each
/// is read once, into a buffer of as many bytes as the system says it takes, wherever that number
/// is above zero and within the limit, and is passed over elsewhere; then the context goes back to
/// the window it was taken from.
pub proof fn law_composition_and_list_are_read(hwnd: isize, replies: Seq<Reply>)
    requires
        calls::answered((Fetch::OwnContext { hwnd }), replies),
        calls::run((Fetch::OwnContext { hwnd }), replies) == (Fetch::Finished { resolved: true }),
    ensures
        ({
            let m = Fetch::OwnContext { hwnd };
            let none = Reply::Handle(0);
            let c: int = if replies[0] != none {
                1
            } else if replies[1] == none {
                4
            } else if replies[2] != none {
                3
            } else {
                5
            };
            let himc = replies[c - 1]->Handle_0;
            let owner = if c == 1 {
                hwnd
            } else {
                replies[c - 2]->Handle_0
            };
            let composition = replies[c]->Number_0;
            let l = if 0 < composition <= 4096 {
                c + 2
            } else {
                c + 1
            };
            let list = replies[l]->Number_0;
            let e = if 0 < list <= 32768 {
                l + 2
            } else {
                l + 1
            };
            &&& himc != 0
            &&& calls::at(m, replies, c) == (Fetch::CompositionSize { himc, owner })
            &&& replies[c] is Number
            &&& 0 < composition <= 4096 ==> calls::at(m, replies, c + 1) == (
            Fetch::CompositionFill { himc, owner, bytes: composition as u32 })
            &&& calls::at(m, replies, l) == (Fetch::ListSize { himc, owner })
            &&& replies[l] is Number
            &&& 0 < list <= 32768 ==> calls::at(m, replies, l + 1) == (Fetch::ListFill {
                himc,
                owner,
                bytes: list as u32,
            })
            &&& calls::at(m, replies, e) == (Fetch::Release { himc, owner })
            &&& replies.len() == e + 1
        }),
{
    let m = Fetch::OwnContext { hwnd };
    calls::lemma_calls(m, replies);
}

} // verus!
