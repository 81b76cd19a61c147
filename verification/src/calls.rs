//! Sequences of system calls.
//!
//! A sequence of system calls whose course depends on the answers is a small machine: a state names
//! the call that is due, and the answer to that call leads to the next state. An answer of another
//! kind than the state waits for leaves it where it is.

use crate::geometry::{Point, Rect};
use vstd::multiset::Multiset;
use vstd::prelude::*;

verus! {

/// The answer to one system call. A handle or an address of zero stands for a null one, a missing
/// rectangle or point for a call that failed.
#[derive(Clone, Copy, Debug, PartialEq, Eq)]
pub enum Reply {
    /// The call was made; nothing depends on how it went.
    Done,
    /// Whether the call succeeded, or what a question was answered with.
    Flag(bool),
    /// A handle or an address.
    Handle(isize),
    /// A length, a count or a status code.
    Number(i64),
    /// A rectangle.
    Area(Option<Rect>),
    /// A point.
    Place(Option<Point>),
}

impl Reply {
    /// The extents of a rectangle in the answer are numbers that a coordinate can hold.
    pub open spec fn fits(&self) -> bool {
        self matches Reply::Area(Some(rc)) ==> rc.fits()
    }
}

/// What a call takes from the system and another one has to give back.
#[derive(Clone, Copy, Debug, PartialEq, Eq)]
pub enum Resource {
    /// An input context, with the window it was taken from.
    InputContext { himc: isize, owner: isize },
    /// The device context of a window or of the screen.
    WindowDc { hdc: isize },
    /// The device context of a drawing surface.
    SurfaceDc { hdc: isize },
    /// A device context in memory.
    MemoryDc { hdc: isize },
    /// A bitmap.
    Bitmap { bitmap: isize },
    /// A bitmap selected into a device context, in place of `previous`.
    Selection { hdc: isize, previous: isize },
    /// The painting of a window, between its begin and its end.
    Painting { hdc: isize },
}

/// A machine of system calls.
pub trait CallSequence: Sized {
    /// The state after an answer.
    spec fn after(self, reply: Reply) -> Self;

    /// The answer is of the kind that the due call gives.
    spec fn awaits(self, reply: Reply) -> bool;

    /// A bound on how many more calls there can be.
    spec fn rank(self) -> nat;

    /// What has been taken from the system and not been given back.
    spec fn held(self) -> Multiset<Resource>;

    /// What the due call takes where it is answered so.
    spec fn takes(self, reply: Reply) -> Multiset<Resource>;

    /// What the due call gives back.
    spec fn gives(self) -> Multiset<Resource>;

    /// Each call brings the end nearer, and what is held follows what was taken and given back.
    proof fn lemma_call(self, reply: Reply)
        ensures
            !self.awaits(reply) ==> self.after(reply) == self,
            self.awaits(reply) ==> self.after(reply).rank() < self.rank(),
            self.awaits(reply) ==> self.gives().subset_of(self.held()),
            self.awaits(reply) ==> self.after(reply).held() =~= self.held().sub(self.gives()).add(
                self.takes(reply),
            ),
    ;
}

/// The state after a run of answers.
pub open spec fn run<M: CallSequence>(m: M, replies: Seq<Reply>) -> M
    decreases replies.len(),
{
    if replies.len() == 0 {
        m
    } else {
        run(m.after(replies[0]), replies.skip(1))
    }
}

/// Each answer in the run is of the kind that the call due at that point gives.
pub open spec fn answered<M: CallSequence>(m: M, replies: Seq<Reply>) -> bool
    decreases replies.len(),
{
    replies.len() > 0 ==> m.awaits(replies[0]) && answered(m.after(replies[0]), replies.skip(1))
}

/// What the calls of a run take.
pub open spec fn taken<M: CallSequence>(m: M, replies: Seq<Reply>) -> Multiset<Resource>
    decreases replies.len(),
{
    if replies.len() == 0 {
        Multiset::empty()
    } else {
        m.takes(replies[0]).add(taken(m.after(replies[0]), replies.skip(1)))
    }
}

/// What the calls of a run give back.
pub open spec fn given<M: CallSequence>(m: M, replies: Seq<Reply>) -> Multiset<Resource>
    decreases replies.len(),
{
    if replies.len() == 0 {
        Multiset::empty()
    } else {
        m.gives().add(given(m.after(replies[0]), replies.skip(1)))
    }
}

/// Whatever the system answers, a sequence of calls comes to its end: a run in which every call is
/// answered is no longer than the rank of the state it starts from.
pub proof fn law_calls_end<M: CallSequence>(m: M, replies: Seq<Reply>)
    requires
        answered(m, replies),
    ensures
        replies.len() <= m.rank(),
    decreases replies.len(),
{
    if replies.len() > 0 {
        m.lemma_call(replies[0]);
        law_calls_end(m.after(replies[0]), replies.skip(1));
    }
}

/// Whatever the system answers, what was held and what was taken is what is held and what was given
/// back.
pub proof fn law_calls_balance<M: CallSequence>(m: M, replies: Seq<Reply>)
    requires
        answered(m, replies),
    ensures
        m.held().add(taken(m, replies)) =~= run(m, replies).held().add(given(m, replies)),
    decreases replies.len(),
{
    if replies.len() > 0 {
        let next = m.after(replies[0]);
        m.lemma_call(replies[0]);
        law_calls_balance(next, replies.skip(1));
        assert forall|r: Resource|
            m.held().add(taken(m, replies)).count(r) == run(m, replies).held().add(
                given(m, replies),
            ).count(r) by {
            assert(next.held().add(taken(next, replies.skip(1))).count(r) == run(
                next,
                replies.skip(1),
            ).held().add(given(next, replies.skip(1))).count(r));
            assert(next.held().count(r) == m.held().sub(m.gives()).add(m.takes(replies[0])).count(
                r,
            ));
            assert(m.gives().count(r) <= m.held().count(r));
        }
    }
}

/// A sequence that starts and ends with nothing in hand gives back what it takes, and nothing else.
pub proof fn law_all_is_given_back<M: CallSequence>(m: M, replies: Seq<Reply>)
    requires
        answered(m, replies),
        m.held() == Multiset::<Resource>::empty(),
        run(m, replies).held() == Multiset::<Resource>::empty(),
    ensures
        taken(m, replies) == given(m, replies),
{
    law_calls_balance(m, replies);
    assert forall|r: Resource| taken(m, replies).count(r) == given(m, replies).count(r) by {
        assert(m.held().add(taken(m, replies)).count(r) == run(m, replies).held().add(
            given(m, replies),
        ).count(r));
    }
    assert(taken(m, replies) =~= given(m, replies));
}

/// The state after the first `k` answers of a run: the call that answer `k` is given to is due
/// there.
pub open spec fn at<M: CallSequence>(m: M, replies: Seq<Reply>, k: int) -> M {
    run(m, replies.take(k))
}

/// A run goes from state to state: it starts in the first one, each answer is one that the due call
/// gives and leads to the next state, and where the answers end the run ends.
pub proof fn law_call_by_call<M: CallSequence>(m: M, replies: Seq<Reply>, k: int)
    requires
        answered(m, replies),
        0 <= k <= replies.len(),
    ensures
        k == 0 ==> at(m, replies, k) == m,
        k == replies.len() ==> at(m, replies, k) == run(m, replies),
        k < replies.len() ==> at(m, replies, k).awaits(replies[k]) && at(m, replies, k + 1) == at(
            m,
            replies,
            k,
        ).after(replies[k]),
    decreases k,
{
    assert(replies.take(replies.len() as int) =~= replies);
    if k == 0 {
        if replies.len() > 0 {
            assert(replies.take(1).skip(1) =~= Seq::<Reply>::empty());
            reveal_with_fuel(run, 2);
        }
    } else {
        let next = m.after(replies[0]);
        let rest = replies.skip(1);
        law_call_by_call(next, rest, k - 1);
        assert(replies.take(k).skip(1) =~= rest.take(k - 1));
        assert(at(m, replies, k) == at(next, rest, k - 1));
        if k < replies.len() {
            assert(replies.take(k + 1).skip(1) =~= rest.take(k));
            assert(at(m, replies, k + 1) == at(next, rest, k));
            assert(rest[k - 1] == replies[k]);
        }
    }
}

/// Answer `k`, where there is one, is one that the due call gives, and leads to the next state.
pub open spec fn linked<M: CallSequence>(m: M, replies: Seq<Reply>, k: int) -> bool {
    0 <= k < replies.len() ==> at(m, replies, k).awaits(replies[k]) && at(m, replies, k + 1) == at(
        m,
        replies,
        k,
    ).after(replies[k])
}

/// The calls of a short run, one by one.
pub proof fn lemma_calls<M: CallSequence>(m: M, replies: Seq<Reply>)
    requires
        answered(m, replies),
    ensures
        at(m, replies, 0) == m,
        at(m, replies, replies.len() as int) == run(m, replies),
        replies.len() <= m.rank(),
        linked(m, replies, 0),
        linked(m, replies, 1),
        linked(m, replies, 2),
        linked(m, replies, 3),
        linked(m, replies, 4),
        linked(m, replies, 5),
        linked(m, replies, 6),
        linked(m, replies, 7),
        linked(m, replies, 8),
        linked(m, replies, 9),
        linked(m, replies, 10),
        linked(m, replies, 11),
        linked(m, replies, 12),
        linked(m, replies, 13),
        linked(m, replies, 14),
        linked(m, replies, 15),
        linked(m, replies, 16),
{
    law_calls_end(m, replies);
    law_call_by_call(m, replies, 0);
    law_call_by_call(m, replies, replies.len() as int);
    assert forall|k: int| linked(m, replies, k) by {
        if 0 <= k < replies.len() {
            law_call_by_call(m, replies, k);
        }
    }
}

} // verus!
