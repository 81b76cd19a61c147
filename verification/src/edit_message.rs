//! The window procedure of an edit control that is looked after.
//!
//! A message is taken through a fixed row of steps, of which each applies to some messages only.
//! Most messages end with the original window procedure; what it answers is the answer. The
//! notifications of the input method do not reach it: the default window procedure gets them in
//! its place, since the original one would keep them from the system.

use crate::calls::{self, CallSequence, Reply, Resource};
use crate::messages::{
    GCS_COMPSTR, IMN_CHANGECANDIDATE, IMN_CLOSECANDIDATE, IMN_OPENCANDIDATE, WM_DESTROY, WM_ERASEBKGND,
    WM_IME_CHAR, WM_IME_COMPOSITION, WM_IME_NOTIFY, WM_KILLFOCUS, WM_PAINT, WM_SETFOCUS, WM_TIMER,
};
use crate::subclass::{
    self, diag_msg_bit, ime_message_name, is_ime_notify_message, should_refresh_edit, REPAINT_TIMER_ID,
    USE_DDRAW_ERASE_BACKGROUND, USE_DDRAW_EVENT_REPAINT, USE_DDRAW_PAINT_OVERRIDE,
    USE_DDRAW_REPAINT_TIMER,
};
use vstd::multiset::Multiset;
use vstd::prelude::*;

verus! {

/// The steps that a message is taken through, in their order.
#[derive(Clone, Copy, Debug, PartialEq, Eq, Structural)]
pub enum EditStep {
    /// See that the control has its repaint timer.
    ArmTimer,
    /// Note the control as the one that has the focus.
    NoteFocus,
    /// Paint the captured background to the device context that came with the message.
    Erase,
    /// Paint the control because its timer has run out.
    TimerPaint,
    /// Paint the control in answer to a paint message.
    Paint,
    /// Stop the repaint timer.
    KillTimer,
    /// Report the message, where it is the first one of its kind.
    Report,
    /// Trace the message.
    Trace,
    /// Hand the message to the default window procedure.
    Forward,
    /// Ask whether the candidate window is shown.
    AskVisible,
    /// Read the state of the input method.
    Fetch,
    /// Show that state in the candidate window at the control.
    Show,
    /// Show that state in the candidate window where it is.
    Update,
    /// Hide the candidate window.
    HideWindow,
    /// Tell the input method where to put a candidate window of its own.
    Rescue,
    /// Look up the original window procedure.
    LookUp,
    /// Hand the message to the original window procedure.
    CallOriginal,
    /// Paint the control at once.
    Blit,
    /// Let the system paint the control.
    Invalidate,
    /// Everything is done.
    Finished,
}

/// The handling of one message. The step names the call that is due.
#[derive(Clone, Copy, Debug, PartialEq, Eq, Structural)]
pub struct EditMessage {
    /// The step that has been reached.
    pub step: EditStep,
    /// The message.
    pub msg: u32,
    /// The first value that came with it.
    pub wparam: usize,
    /// The second value that came with it.
    pub lparam: isize,
    /// Whether the candidate window was shown.
    pub visible: bool,
    /// Whether the state of the input method could be read.
    pub fetched: bool,
    /// The original window procedure; zero where it is not known.
    pub original: i64,
    /// Whether the control has been painted at once.
    pub painted: bool,
    /// The answer to the message.
    pub result: i64,
}

impl EditStep {
    /// How many steps are left.
    pub open spec fn left(self) -> nat {
        match self {
            EditStep::ArmTimer => 19,
            EditStep::NoteFocus => 18,
            EditStep::Erase => 17,
            EditStep::TimerPaint => 16,
            EditStep::Paint => 15,
            EditStep::KillTimer => 14,
            EditStep::Report => 13,
            EditStep::Trace => 12,
            EditStep::Forward => 11,
            EditStep::AskVisible => 10,
            EditStep::Fetch => 9,
            EditStep::Show => 8,
            EditStep::Update => 7,
            EditStep::HideWindow => 6,
            EditStep::Rescue => 5,
            EditStep::LookUp => 4,
            EditStep::CallOriginal => 3,
            EditStep::Blit => 2,
            EditStep::Invalidate => 1,
            EditStep::Finished => 0,
        }
    }

    /// The step behind this one.
    pub open spec fn behind(self) -> EditStep {
        match self {
            EditStep::ArmTimer => EditStep::NoteFocus,
            EditStep::NoteFocus => EditStep::Erase,
            EditStep::Erase => EditStep::TimerPaint,
            EditStep::TimerPaint => EditStep::Paint,
            EditStep::Paint => EditStep::KillTimer,
            EditStep::KillTimer => EditStep::Report,
            EditStep::Report => EditStep::Trace,
            EditStep::Trace => EditStep::Forward,
            EditStep::Forward => EditStep::AskVisible,
            EditStep::AskVisible => EditStep::Fetch,
            EditStep::Fetch => EditStep::Show,
            EditStep::Show => EditStep::Update,
            EditStep::Update => EditStep::HideWindow,
            EditStep::HideWindow => EditStep::Rescue,
            EditStep::Rescue => EditStep::LookUp,
            EditStep::LookUp => EditStep::CallOriginal,
            EditStep::CallOriginal => EditStep::Blit,
            EditStep::Blit => EditStep::Invalidate,
            EditStep::Invalidate => EditStep::Finished,
            EditStep::Finished => EditStep::Finished,
        }
    }

    /// The step behind this one.
    fn following(self) -> (r: EditStep)
        ensures
            r == self.behind(),
    {
        match self {
            EditStep::ArmTimer => EditStep::NoteFocus,
            EditStep::NoteFocus => EditStep::Erase,
            EditStep::Erase => EditStep::TimerPaint,
            EditStep::TimerPaint => EditStep::Paint,
            EditStep::Paint => EditStep::KillTimer,
            EditStep::KillTimer => EditStep::Report,
            EditStep::Report => EditStep::Trace,
            EditStep::Trace => EditStep::Forward,
            EditStep::Forward => EditStep::AskVisible,
            EditStep::AskVisible => EditStep::Fetch,
            EditStep::Fetch => EditStep::Show,
            EditStep::Show => EditStep::Update,
            EditStep::Update => EditStep::HideWindow,
            EditStep::HideWindow => EditStep::Rescue,
            EditStep::Rescue => EditStep::LookUp,
            EditStep::LookUp => EditStep::CallOriginal,
            EditStep::CallOriginal => EditStep::Blit,
            EditStep::Blit => EditStep::Invalidate,
            EditStep::Invalidate => EditStep::Finished,
            EditStep::Finished => EditStep::Finished,
        }
    }
}

impl EditMessage {
    /// The message is the given notification of the input method.
    pub open spec fn notifies(self, what: usize) -> bool {
        self.msg == WM_IME_NOTIFY && self.wparam == what
    }

    /// The message tells that the composition string has changed.
    pub open spec fn composes(self) -> bool {
        self.msg == WM_IME_COMPOSITION && self.lparam & GCS_COMPSTR as isize != 0
    }

    /// The step applies to the message, as far as it has been handled.
    pub open spec fn due(self, step: EditStep) -> bool {
        match step {
            EditStep::ArmTimer => USE_DDRAW_REPAINT_TIMER,
            EditStep::NoteFocus => self.msg == WM_SETFOCUS,
            EditStep::Erase => USE_DDRAW_ERASE_BACKGROUND && self.msg == WM_ERASEBKGND,
            EditStep::TimerPaint => USE_DDRAW_REPAINT_TIMER && self.msg == WM_TIMER && self.wparam
                == REPAINT_TIMER_ID,
            EditStep::Paint => USE_DDRAW_PAINT_OVERRIDE && self.msg == WM_PAINT,
            EditStep::KillTimer => self.msg == WM_DESTROY,
            EditStep::Report => subclass::report_of(self.msg) is Some,
            EditStep::Trace => subclass::is_ime(self.msg),
            EditStep::Forward => subclass::is_notification(self.msg),
            EditStep::AskVisible => self.composes(),
            EditStep::Fetch => self.notifies(IMN_OPENCANDIDATE) || self.notifies(
                IMN_CHANGECANDIDATE,
            ) || self.composes() && self.visible,
            EditStep::Show => self.notifies(IMN_OPENCANDIDATE) && self.fetched,
            EditStep::Update => !self.notifies(IMN_OPENCANDIDATE) && self.fetched,
            EditStep::HideWindow => self.notifies(IMN_CLOSECANDIDATE) || self.msg == WM_KILLFOCUS
                || self.msg == WM_DESTROY,
            EditStep::Rescue => self.notifies(IMN_OPENCANDIDATE),
            EditStep::LookUp => true,
            EditStep::CallOriginal => self.msg != WM_IME_NOTIFY && self.original != 0,
            EditStep::Blit => USE_DDRAW_EVENT_REPAINT && subclass::changes_edit(self.msg),
            EditStep::Invalidate => subclass::changes_edit(self.msg) && !self.painted,
            EditStep::Finished => true,
        }
    }

    /// The first step that applies among those with no more than `left` steps left.
    pub open spec fn first_due(self, left: nat) -> EditStep {
        if left >= 19 && self.due(EditStep::ArmTimer) {
            EditStep::ArmTimer
        } else if left >= 18 && self.due(EditStep::NoteFocus) {
            EditStep::NoteFocus
        } else if left >= 17 && self.due(EditStep::Erase) {
            EditStep::Erase
        } else if left >= 16 && self.due(EditStep::TimerPaint) {
            EditStep::TimerPaint
        } else if left >= 15 && self.due(EditStep::Paint) {
            EditStep::Paint
        } else if left >= 14 && self.due(EditStep::KillTimer) {
            EditStep::KillTimer
        } else if left >= 13 && self.due(EditStep::Report) {
            EditStep::Report
        } else if left >= 12 && self.due(EditStep::Trace) {
            EditStep::Trace
        } else if left >= 11 && self.due(EditStep::Forward) {
            EditStep::Forward
        } else if left >= 10 && self.due(EditStep::AskVisible) {
            EditStep::AskVisible
        } else if left >= 9 && self.due(EditStep::Fetch) {
            EditStep::Fetch
        } else if left >= 8 && self.due(EditStep::Show) {
            EditStep::Show
        } else if left >= 7 && self.due(EditStep::Update) {
            EditStep::Update
        } else if left >= 6 && self.due(EditStep::HideWindow) {
            EditStep::HideWindow
        } else if left >= 5 && self.due(EditStep::Rescue) {
            EditStep::Rescue
        } else if left >= 4 && self.due(EditStep::LookUp) {
            EditStep::LookUp
        } else if left >= 3 && self.due(EditStep::CallOriginal) {
            EditStep::CallOriginal
        } else if left >= 2 && self.due(EditStep::Blit) {
            EditStep::Blit
        } else if left >= 1 && self.due(EditStep::Invalidate) {
            EditStep::Invalidate
        } else {
            EditStep::Finished
        }
    }

    /// The handling at the first step from `step` on that applies.
    pub open spec fn reach(self, step: EditStep) -> EditMessage {
        EditMessage { step: self.first_due(step.left()), ..self }
    }

    /// The handling at the next step that applies.
    pub open spec fn next(self) -> EditMessage {
        self.reach(self.step.behind())
    }

    /// The message has been answered, with nothing left to do.
    pub open spec fn answer(self, result: i64) -> EditMessage {
        EditMessage { step: EditStep::Finished, result, ..self }
    }

    /// The handling of a message at its start.
    pub open spec fn begin(msg: u32, wparam: usize, lparam: isize) -> EditMessage {
        (EditMessage {
            step: EditStep::ArmTimer,
            msg,
            wparam,
            lparam,
            visible: false,
            fetched: false,
            original: 0,
            painted: false,
            result: 0,
        }).reach(EditStep::ArmTimer)
    }
}

/// Going on from a step reaches one that is not before it.
proof fn lemma_reach(m: EditMessage, step: EditStep)
    ensures
        m.reach(step).step.left() <= step.left(),
        m.reach(step) == (EditMessage { step: m.reach(step).step, ..m }),
        m.due(m.reach(step).step),
        forall|s: EditStep|
            m.reach(step).step.left() < s.left() <= step.left() ==> !#[trigger] m.due(s),
{
}

impl CallSequence for EditMessage {
    open spec fn after(self, reply: Reply) -> EditMessage {
        match (self.step, reply) {
            (EditStep::Erase, Reply::Flag(painted)) => if painted {
                self.answer(1)
            } else {
                self.next()
            },
            (EditStep::TimerPaint, Reply::Done) => self.answer(0),
            (EditStep::Paint, Reply::Done) => self.answer(0),
            (EditStep::AskVisible, Reply::Flag(visible)) => (EditMessage {
                visible,
                ..self
            }).next(),
            (EditStep::Fetch, Reply::Flag(fetched)) => (EditMessage { fetched, ..self }).next(),
            (EditStep::LookUp, Reply::Number(original)) => (EditMessage {
                original,
                ..self
            }).next(),
            (EditStep::CallOriginal, Reply::Number(result)) => (EditMessage {
                result,
                ..self
            }).next(),
            (EditStep::Blit, Reply::Flag(painted)) => (EditMessage { painted, ..self }).next(),
            (EditStep::ArmTimer, Reply::Done)
            | (EditStep::NoteFocus, Reply::Done)
            | (EditStep::KillTimer, Reply::Done)
            | (EditStep::Report, Reply::Done)
            | (EditStep::Trace, Reply::Done)
            | (EditStep::Forward, Reply::Done)
            | (EditStep::Show, Reply::Done)
            | (EditStep::Update, Reply::Done)
            | (EditStep::HideWindow, Reply::Done)
            | (EditStep::Rescue, Reply::Done)
            | (EditStep::Invalidate, Reply::Done) => self.next(),
            _ => self,
        }
    }

    open spec fn awaits(self, reply: Reply) -> bool {
        match self.step {
            EditStep::Erase | EditStep::AskVisible | EditStep::Fetch | EditStep::Blit => reply is Flag,
            EditStep::LookUp | EditStep::CallOriginal => reply is Number,
            EditStep::Finished => false,
            _ => reply is Done,
        }
    }

    open spec fn rank(self) -> nat {
        self.step.left()
    }

    open spec fn held(self) -> Multiset<Resource> {
        Multiset::empty()
    }

    open spec fn takes(self, reply: Reply) -> Multiset<Resource> {
        Multiset::empty()
    }

    open spec fn gives(self) -> Multiset<Resource> {
        Multiset::empty()
    }

    proof fn lemma_call(self, reply: Reply) {
        let next = match reply {
            Reply::Flag(b) => match self.step {
                EditStep::AskVisible => EditMessage { visible: b, ..self },
                EditStep::Fetch => EditMessage { fetched: b, ..self },
                EditStep::Blit => EditMessage { painted: b, ..self },
                _ => self,
            },
            Reply::Number(n) => if self.step == EditStep::LookUp {
                EditMessage { original: n, ..self }
            } else {
                EditMessage { result: n, ..self }
            },
            _ => self,
        };
        lemma_reach(next, self.step.behind());
    }
}

impl EditMessage {
    /// Whether the step applies to the message, as far as it has been handled.
    fn applies(&self, step: EditStep) -> (r: bool)
        ensures
            r == self.due(step),
    {
        let open: bool = self.msg == WM_IME_NOTIFY && self.wparam == IMN_OPENCANDIDATE;
        let change: bool = self.msg == WM_IME_NOTIFY && self.wparam == IMN_CHANGECANDIDATE;
        let close: bool = self.msg == WM_IME_NOTIFY && self.wparam == IMN_CLOSECANDIDATE;
        let composes: bool = self.msg == WM_IME_COMPOSITION && self.lparam & GCS_COMPSTR as isize
            != 0;
        match step {
            EditStep::ArmTimer => USE_DDRAW_REPAINT_TIMER,
            EditStep::NoteFocus => self.msg == WM_SETFOCUS,
            EditStep::Erase => USE_DDRAW_ERASE_BACKGROUND && self.msg == WM_ERASEBKGND,
            EditStep::TimerPaint => USE_DDRAW_REPAINT_TIMER && self.msg == WM_TIMER && self.wparam
                == REPAINT_TIMER_ID,
            EditStep::Paint => USE_DDRAW_PAINT_OVERRIDE && self.msg == WM_PAINT,
            EditStep::KillTimer => self.msg == WM_DESTROY,
            EditStep::Report => diag_msg_bit(self.msg).is_some(),
            EditStep::Trace => ime_message_name(self.msg).is_some(),
            EditStep::Forward => is_ime_notify_message(self.msg),
            EditStep::AskVisible => composes,
            EditStep::Fetch => open || change || composes && self.visible,
            EditStep::Show => open && self.fetched,
            EditStep::Update => !open && self.fetched,
            EditStep::HideWindow => close || self.msg == WM_KILLFOCUS || self.msg == WM_DESTROY,
            EditStep::Rescue => open,
            EditStep::LookUp => true,
            EditStep::CallOriginal => self.msg != WM_IME_NOTIFY && self.original != 0,
            EditStep::Blit => USE_DDRAW_EVENT_REPAINT && should_refresh_edit(self.msg),
            EditStep::Invalidate => should_refresh_edit(self.msg) && !self.painted,
            EditStep::Finished => true,
        }
    }

    /// The handling at the first step from `from` on that applies.
    fn seek(self, from: EditStep) -> (r: EditMessage)
        ensures
            r == self.reach(from),
    {
        let mut step = from;
        while !self.applies(step)
            invariant
                self.reach(from) == self.reach(step),
            decreases step.left(),
        {
            step = step.following();
        }
        EditMessage { step, ..self }
    }

    /// Starts the handling of a message.
    pub fn new(msg: u32, wparam: usize, lparam: isize) -> (r: EditMessage)
        ensures
            r == EditMessage::begin(msg, wparam, lparam),
    {
        let fresh = EditMessage {
            step: EditStep::ArmTimer,
            msg,
            wparam,
            lparam,
            visible: false,
            fetched: false,
            original: 0,
            painted: false,
            result: 0,
        };
        fresh.seek(EditStep::ArmTimer)
    }

    /// The handling after an answer.
    pub fn step(self, reply: Reply) -> (r: EditMessage)
        ensures
            r == self.after(reply),
    {
        let behind = self.step.following();
        match (self.step, reply) {
            (EditStep::Erase, Reply::Flag(painted)) => {
                if painted {
                    EditMessage { step: EditStep::Finished, result: 1, ..self }
                } else {
                    self.seek(behind)
                }
            },
            (EditStep::TimerPaint, Reply::Done) | (EditStep::Paint, Reply::Done) => {
                EditMessage { step: EditStep::Finished, result: 0, ..self }
            },
            (EditStep::AskVisible, Reply::Flag(visible)) => {
                (EditMessage { visible, ..self }).seek(behind)
            },
            (EditStep::Fetch, Reply::Flag(fetched)) => {
                (EditMessage { fetched, ..self }).seek(behind)
            },
            (EditStep::LookUp, Reply::Number(original)) => {
                (EditMessage { original, ..self }).seek(behind)
            },
            (EditStep::CallOriginal, Reply::Number(result)) => {
                (EditMessage { result, ..self }).seek(behind)
            },
            (EditStep::Blit, Reply::Flag(painted)) => {
                (EditMessage { painted, ..self }).seek(behind)
            },
            (EditStep::ArmTimer, Reply::Done)
            | (EditStep::NoteFocus, Reply::Done)
            | (EditStep::KillTimer, Reply::Done)
            | (EditStep::Report, Reply::Done)
            | (EditStep::Trace, Reply::Done)
            | (EditStep::Forward, Reply::Done)
            | (EditStep::Show, Reply::Done)
            | (EditStep::Update, Reply::Done)
            | (EditStep::HideWindow, Reply::Done)
            | (EditStep::Rescue, Reply::Done)
            | (EditStep::Invalidate, Reply::Done) => self.seek(behind),
            _ => self,
        }
    }
}

/// Two steps with as many left are the same.
proof fn lemma_distinct(a: EditStep, b: EditStep)
    ensures
        a.left() == b.left() ==> a == b,
{
}

/// How often a step is taken in a run of answers.
pub open spec fn visits(m: EditMessage, replies: Seq<Reply>, step: EditStep) -> nat
    decreases replies.len(),
{
    if replies.len() == 0 {
        0
    } else {
        (if m.step == step {
            1nat
        } else {
            0nat
        }) + visits(m.after(replies[0]), replies.skip(1), step)
    }
}

/// What the original window procedure has answered in a run of answers; `None` where it was not
/// asked.
pub open spec fn original_answer(m: EditMessage, replies: Seq<Reply>) -> Option<i64>
    decreases replies.len(),
{
    if replies.len() == 0 {
        None
    } else if m.step == EditStep::CallOriginal {
        match replies[0] {
            Reply::Number(n) => Some(n),
            _ => None,
        }
    } else {
        original_answer(m.after(replies[0]), replies.skip(1))
    }
}

/// The handling of a message is cut short: the message asks for the painting of the control or of
/// its background, and that has been done.
pub open spec fn cut_short(msg: u32, replies: Seq<Reply>) -> bool {
    ||| msg == WM_PAINT
    ||| msg == WM_ERASEBKGND && replies.len() > 0 && replies[0] == Reply::Flag(true)
}

/// The steps are taken in their order: none is taken twice, and none after one that stands behind
/// it. In particular nothing is forwarded any more once the original window procedure is called.
pub proof fn law_steps_in_order(m: EditMessage, replies: Seq<Reply>, step: EditStep)
    requires
        calls::answered(m, replies),
    ensures
        visits(m, replies, step) <= 1,
        m.step.left() < step.left() ==> visits(m, replies, step) == 0,
    decreases replies.len(),
{
    if replies.len() > 0 {
        m.lemma_call(replies[0]);
        law_steps_in_order(m.after(replies[0]), replies.skip(1), step);
    }
}

/// The state that goes on after an answer, before the next step is sought.
spec fn noted(m: EditMessage, reply: Reply) -> EditMessage {
    match (m.step, reply) {
        (EditStep::AskVisible, Reply::Flag(visible)) => EditMessage { visible, ..m },
        (EditStep::Fetch, Reply::Flag(fetched)) => EditMessage { fetched, ..m },
        (EditStep::LookUp, Reply::Number(original)) => EditMessage { original, ..m },
        (EditStep::CallOriginal, Reply::Number(result)) => EditMessage { result, ..m },
        (EditStep::Blit, Reply::Flag(painted)) => EditMessage { painted, ..m },
        _ => m,
    }
}

/// The answer does not cut the handling short.
spec fn goes_on(m: EditMessage, reply: Reply) -> bool {
    m.step != EditStep::Paint && m.step != EditStep::TimerPaint && !(m.step == EditStep::Erase && reply
        == Reply::Flag(true))
}

/// An answer that does not cut the handling short leads to the next step that applies; those before
/// it do not.
proof fn lemma_goes_on(m: EditMessage, reply: Reply)
    requires
        m.awaits(reply),
        goes_on(m, reply),
    ensures
        m.after(reply).step.left() < m.step.left(),
        m.after(reply).due(m.after(reply).step),
        forall|s: EditStep|
            m.after(reply).step.left() < s.left() < m.step.left() ==> !#[trigger] m.after(reply).due(
                s,
            ),
        m.after(reply).msg == m.msg,
{
    let n = noted(m, reply);
    lemma_reach(n, m.step.behind());
    let r = n.reach(m.step.behind());
    assert(m.after(reply) == r);
    assert forall|s: EditStep| r.step.left() < s.left() < m.step.left() implies !#[trigger] r.due(
        s,
    ) by {
        assert(!n.due(s));
        assert(r == (EditMessage { step: r.step, ..n }));
    }
}

/// What applied at a step that has been reached still does after an answer.
proof fn lemma_due_is_kept(m: EditMessage, reply: Reply, step: EditStep)
    requires
        m.awaits(reply),
        m.step.left() <= step.left(),
    ensures
        m.after(reply).due(step) == m.due(step),
        noted(m, reply).due(step) == m.due(step),
{
    lemma_reach(noted(m, reply), m.step.behind());
}

/// From a step that applies on, a run to the end takes each step that applies in the end once.
proof fn lemma_steps_taken(m: EditMessage, replies: Seq<Reply>, step: EditStep)
    requires
        calls::answered(m, replies),
        calls::run(m, replies).step == EditStep::Finished,
        m.due(m.step),
        m.msg != WM_PAINT,
        m.msg == WM_ERASEBKGND && m.step == EditStep::Erase ==> replies.len() > 0 && replies[0]
            != Reply::Flag(true),
        step != EditStep::Finished,
        step.left() <= m.step.left(),
    ensures
        visits(m, replies, step) == if calls::run(m, replies).due(step) {
            1nat
        } else {
            0nat
        },
    decreases replies.len(),
{
    if replies.len() > 0 {
        let next = m.after(replies[0]);
        let rest = replies.skip(1);
        lemma_goes_on(m, replies[0]);
        if next.step.left() >= step.left() {
            lemma_steps_taken(next, rest, step);
        } else {
            law_steps_in_order(next, rest, step);
            lemma_passed(next, rest, step);
            if step == m.step {
                lemma_due_is_kept(m, replies[0], step);
            } else {
                lemma_distinct(m.step, step);
            }
        }
    }
}

/// What applied at a step that has been passed is what applies in the end.
proof fn lemma_passed(m: EditMessage, replies: Seq<Reply>, step: EditStep)
    requires
        calls::answered(m, replies),
        m.step.left() <= step.left(),
    ensures
        calls::run(m, replies).due(step) == m.due(step),
    decreases replies.len(),
{
    if replies.len() > 0 {
        m.lemma_call(replies[0]);
        lemma_due_is_kept(m, replies[0], step);
        lemma_passed(m.after(replies[0]), replies.skip(1), step);
    }
}

/// A message that is not cut short is taken through every step that applies to it, and through each
/// of them once; what applies is what is known in the end.
pub proof fn law_steps_taken(
    msg: u32,
    wparam: usize,
    lparam: isize,
    replies: Seq<Reply>,
    step: EditStep,
)
    requires
        calls::answered(EditMessage::begin(msg, wparam, lparam), replies),
        calls::run(EditMessage::begin(msg, wparam, lparam), replies).step == EditStep::Finished,
        !cut_short(msg, replies),
        step != EditStep::Finished,
    ensures
        visits(EditMessage::begin(msg, wparam, lparam), replies, step) == if calls::run(
            EditMessage::begin(msg, wparam, lparam),
            replies,
        ).due(step) {
            1nat
        } else {
            0nat
        },
{
    let m = EditMessage::begin(msg, wparam, lparam);
    let fresh = EditMessage {
        step: EditStep::ArmTimer,
        msg,
        wparam,
        lparam,
        visible: false,
        fetched: false,
        original: 0,
        painted: false,
        result: 0,
    };
    lemma_reach(fresh, EditStep::ArmTimer);
    if step.left() <= m.step.left() {
        if replies.len() == 0 {
            assert(m.step == EditStep::Finished);
            assert(fresh.due(EditStep::LookUp));
        }
        lemma_steps_taken(m, replies, step);
    } else {
        law_steps_in_order(m, replies, step);
        lemma_passed(m, replies, step);
        assert(!fresh.due(step));
        assert(!m.due(step));
    }
}

/// The answer to a message that is not cut short is that of the original window procedure, where it
/// was asked.
proof fn lemma_result(m: EditMessage, replies: Seq<Reply>)
    requires
        calls::answered(m, replies),
        m.due(m.step),
        m.msg != WM_PAINT,
        m.msg == WM_ERASEBKGND && m.step == EditStep::Erase && replies.len() > 0 ==> replies[0]
            != Reply::Flag(true),
    ensures
        calls::run(m, replies).result == match original_answer(m, replies) {
            Some(n) => n,
            None => m.result,
        },
        original_answer(m, replies) is Some <==> visits(m, replies, EditStep::CallOriginal) > 0,
        m.step.left() < EditStep::CallOriginal.left() ==> original_answer(m, replies) is None,
    decreases replies.len(),
{
    if replies.len() > 0 {
        lemma_goes_on(m, replies[0]);
        lemma_reach(noted(m, replies[0]), m.step.behind());
        lemma_result(m.after(replies[0]), replies.skip(1));
    }
}

/// A notification of the input method goes to the default window procedure, once, and never to the
/// original one; its answer is zero.
pub proof fn law_notification_bypasses_original(wparam: usize, lparam: isize, replies: Seq<Reply>)
    requires
        calls::answered(EditMessage::begin(WM_IME_NOTIFY, wparam, lparam), replies),
        calls::run(EditMessage::begin(WM_IME_NOTIFY, wparam, lparam), replies).step
            == EditStep::Finished,
    ensures
        ({
            let m = EditMessage::begin(WM_IME_NOTIFY, wparam, lparam);
            &&& visits(m, replies, EditStep::Forward) == 1
            &&& visits(m, replies, EditStep::CallOriginal) == 0
            &&& calls::run(m, replies).result == 0
        }),
{
    let m = EditMessage::begin(WM_IME_NOTIFY, wparam, lparam);
    lemma_begin(WM_IME_NOTIFY, wparam, lparam);
    lemma_kept(m, replies);
    law_steps_taken(WM_IME_NOTIFY, wparam, lparam, replies, EditStep::Forward);
    law_steps_taken(WM_IME_NOTIFY, wparam, lparam, replies, EditStep::CallOriginal);
    lemma_result(m, replies);
}

/// At its start the handling of a message has come to a step that applies, and nothing is known
/// yet.
proof fn lemma_begin(msg: u32, wparam: usize, lparam: isize)
    ensures
        ({
            let m = EditMessage::begin(msg, wparam, lparam);
            &&& m.due(m.step)
            &&& m.step != EditStep::Finished
            &&& m.msg == msg && m.wparam == wparam && m.lparam == lparam
            &&& !m.visible && !m.fetched && !m.painted
            &&& m.original == 0 && m.result == 0
        }),
{
    let fresh = EditMessage {
        step: EditStep::ArmTimer,
        msg,
        wparam,
        lparam,
        visible: false,
        fetched: false,
        original: 0,
        painted: false,
        result: 0,
    };
    lemma_reach(fresh, EditStep::ArmTimer);
    assert(fresh.due(EditStep::LookUp));
}

/// The message stays what it is.
proof fn lemma_kept(m: EditMessage, replies: Seq<Reply>)
    requires
        calls::answered(m, replies),
    ensures
        ({
            let f = calls::run(m, replies);
            f.msg == m.msg && f.wparam == m.wparam && f.lparam == m.lparam
        }),
    decreases replies.len(),
{
    if replies.len() > 0 {
        lemma_reach(noted(m, replies[0]), m.step.behind());
        lemma_kept(m.after(replies[0]), replies.skip(1));
    }
}

/// Every other message that is not cut short goes to the original window procedure, once, where
/// that is known, and the answer is what it answers. Where it is not known, the answer is zero.
pub proof fn law_original_gets_the_rest(
    msg: u32,
    wparam: usize,
    lparam: isize,
    replies: Seq<Reply>,
)
    requires
        msg != WM_IME_NOTIFY,
        calls::answered(EditMessage::begin(msg, wparam, lparam), replies),
        calls::run(EditMessage::begin(msg, wparam, lparam), replies).step == EditStep::Finished,
        !cut_short(msg, replies),
    ensures
        ({
            let m = EditMessage::begin(msg, wparam, lparam);
            let f = calls::run(m, replies);
            if f.original != 0 {
                &&& visits(m, replies, EditStep::CallOriginal) == 1
                &&& original_answer(m, replies) == Some(f.result)
            } else {
                &&& visits(m, replies, EditStep::CallOriginal) == 0
                &&& f.result == 0
            }
        }),
{
    let m = EditMessage::begin(msg, wparam, lparam);
    lemma_begin(msg, wparam, lparam);
    lemma_kept(m, replies);
    law_steps_taken(msg, wparam, lparam, replies, EditStep::CallOriginal);
    lemma_result(m, replies);
}

/// A message that is cut short takes a single call: the painting of the control, which is answered
/// with zero, or that of its background, which is answered with one.
pub proof fn law_painting_is_one_call(
    msg: u32,
    wparam: usize,
    lparam: isize,
    replies: Seq<Reply>,
)
    requires
        calls::answered(EditMessage::begin(msg, wparam, lparam), replies),
        replies.len() > 0,
        cut_short(msg, replies),
    ensures
        replies.len() == 1,
        ({
            let m = EditMessage::begin(msg, wparam, lparam);
            let f = calls::run(m, replies);
            &&& m.step == if msg == WM_PAINT {
                EditStep::Paint
            } else {
                EditStep::Erase
            }
            &&& f.step == EditStep::Finished
            &&& f.result == if msg == WM_PAINT {
                0int
            } else {
                1int
            }
        }),
{
    let m = EditMessage::begin(msg, wparam, lparam);
    assert(m.step == if msg == WM_PAINT {
        EditStep::Paint
    } else {
        EditStep::Erase
    });
    let next = m.after(replies[0]);
    assert(next.step == EditStep::Finished);
    if replies.len() > 1 {
        assert(calls::answered(next, replies.skip(1)));
        assert(next.awaits(replies.skip(1)[0]));
    }
    assert(replies.skip(1) =~= Seq::<Reply>::empty());
    reveal_with_fuel(calls::run, 2);
}

/// The default window procedure gets the notifications of the input method and nothing else. In
/// particular it does not get the messages that it would make characters of: the control, which
/// gets them too, would take each character twice.
pub proof fn law_only_notifications_are_forwarded(
    msg: u32,
    wparam: usize,
    lparam: isize,
    replies: Seq<Reply>,
)
    requires
        calls::answered(EditMessage::begin(msg, wparam, lparam), replies),
        calls::run(EditMessage::begin(msg, wparam, lparam), replies).step == EditStep::Finished,
    ensures
        visits(EditMessage::begin(msg, wparam, lparam), replies, EditStep::Forward)
            == if subclass::is_notification(msg) {
            1nat
        } else {
            0nat
        },
        msg == WM_IME_COMPOSITION || msg == WM_IME_CHAR ==> visits(
            EditMessage::begin(msg, wparam, lparam),
            replies,
            EditStep::Forward,
        ) == 0,
{
    let m = EditMessage::begin(msg, wparam, lparam);
    lemma_begin(msg, wparam, lparam);
    lemma_kept(m, replies);
    if cut_short(msg, replies) {
        law_painting_is_one_call(msg, wparam, lparam, replies);
        reveal_with_fuel(visits, 2);
    } else {
        law_steps_taken(msg, wparam, lparam, replies, EditStep::Forward);
    }
}

/// The candidate window follows the notifications of the input method: when candidates are opened
/// or change, the state of the input method is read, and what could be read is shown at the
/// control or where the window is; when they are closed, the window is hidden.
pub proof fn law_window_follows_notifications(wparam: usize, lparam: isize, replies: Seq<Reply>)
    requires
        calls::answered(EditMessage::begin(WM_IME_NOTIFY, wparam, lparam), replies),
        calls::run(EditMessage::begin(WM_IME_NOTIFY, wparam, lparam), replies).step
            == EditStep::Finished,
    ensures
        ({
            let m = EditMessage::begin(WM_IME_NOTIFY, wparam, lparam);
            let fetched = calls::run(m, replies).fetched;
            let open = wparam == IMN_OPENCANDIDATE;
            let change = wparam == IMN_CHANGECANDIDATE;
            &&& visits(m, replies, EditStep::Fetch) == if open || change {
                1nat
            } else {
                0nat
            }
            &&& visits(m, replies, EditStep::Show) == if open && fetched {
                1nat
            } else {
                0nat
            }
            &&& visits(m, replies, EditStep::Update) == if change && fetched {
                1nat
            } else {
                0nat
            }
            &&& visits(m, replies, EditStep::HideWindow) == if wparam == IMN_CLOSECANDIDATE {
                1nat
            } else {
                0nat
            }
        }),
{
    let m = EditMessage::begin(WM_IME_NOTIFY, wparam, lparam);
    lemma_begin(WM_IME_NOTIFY, wparam, lparam);
    lemma_kept(m, replies);
    lemma_fetched(m, replies);
    law_steps_taken(WM_IME_NOTIFY, wparam, lparam, replies, EditStep::Fetch);
    law_steps_taken(WM_IME_NOTIFY, wparam, lparam, replies, EditStep::Show);
    law_steps_taken(WM_IME_NOTIFY, wparam, lparam, replies, EditStep::Update);
    law_steps_taken(WM_IME_NOTIFY, wparam, lparam, replies, EditStep::HideWindow);
}

/// A state counts as read only where it was asked for, and the window as shown likewise.
proof fn lemma_fetched(m: EditMessage, replies: Seq<Reply>)
    requires
        calls::answered(m, replies),
    ensures
        calls::run(m, replies).fetched ==> m.fetched || visits(m, replies, EditStep::Fetch) > 0,
        calls::run(m, replies).visible ==> m.visible || visits(m, replies, EditStep::AskVisible) > 0,
    decreases replies.len(),
{
    if replies.len() > 0 {
        lemma_reach(noted(m, replies[0]), m.step.behind());
        lemma_fetched(m.after(replies[0]), replies.skip(1));
    }
}

/// A change of the composition string is shown where the candidate window is shown, and only there;
/// the window is neither shown nor hidden by it.
pub proof fn law_composition_is_shown(lparam: isize, wparam: usize, replies: Seq<Reply>)
    requires
        calls::answered(EditMessage::begin(WM_IME_COMPOSITION, wparam, lparam), replies),
        calls::run(EditMessage::begin(WM_IME_COMPOSITION, wparam, lparam), replies).step
            == EditStep::Finished,
    ensures
        ({
            let m = EditMessage::begin(WM_IME_COMPOSITION, wparam, lparam);
            let f = calls::run(m, replies);
            &&& visits(m, replies, EditStep::AskVisible) == if lparam & GCS_COMPSTR as isize != 0 {
                1nat
            } else {
                0nat
            }
            &&& visits(m, replies, EditStep::Fetch) == if f.visible {
                1nat
            } else {
                0nat
            }
            &&& visits(m, replies, EditStep::Update) == if f.fetched {
                1nat
            } else {
                0nat
            }
            &&& f.fetched ==> f.visible
            &&& f.visible ==> lparam & GCS_COMPSTR as isize != 0
            &&& visits(m, replies, EditStep::Show) == 0
            &&& visits(m, replies, EditStep::HideWindow) == 0
        }),
{
    let m = EditMessage::begin(WM_IME_COMPOSITION, wparam, lparam);
    lemma_begin(WM_IME_COMPOSITION, wparam, lparam);
    lemma_kept(m, replies);
    lemma_fetched(m, replies);
    law_steps_taken(WM_IME_COMPOSITION, wparam, lparam, replies, EditStep::AskVisible);
    law_steps_taken(WM_IME_COMPOSITION, wparam, lparam, replies, EditStep::Fetch);
    law_steps_taken(WM_IME_COMPOSITION, wparam, lparam, replies, EditStep::Update);
    law_steps_taken(WM_IME_COMPOSITION, wparam, lparam, replies, EditStep::Show);
    law_steps_taken(WM_IME_COMPOSITION, wparam, lparam, replies, EditStep::HideWindow);
}

/// The candidate window is hidden when the control loses the focus and when it is destroyed.
pub proof fn law_window_is_hidden_on_leaving(
    msg: u32,
    wparam: usize,
    lparam: isize,
    replies: Seq<Reply>,
)
    requires
        msg == WM_KILLFOCUS || msg == WM_DESTROY,
        calls::answered(EditMessage::begin(msg, wparam, lparam), replies),
        calls::run(EditMessage::begin(msg, wparam, lparam), replies).step == EditStep::Finished,
    ensures
        visits(EditMessage::begin(msg, wparam, lparam), replies, EditStep::HideWindow) == 1,
{
    let m = EditMessage::begin(msg, wparam, lparam);
    lemma_begin(msg, wparam, lparam);
    lemma_kept(m, replies);
    law_steps_taken(msg, wparam, lparam, replies, EditStep::HideWindow);
}

/// An input event is followed by a repaint of the control: at once, or by the system where that
/// fails. No other message is.
pub proof fn law_input_is_repainted(
    msg: u32,
    wparam: usize,
    lparam: isize,
    replies: Seq<Reply>,
)
    requires
        calls::answered(EditMessage::begin(msg, wparam, lparam), replies),
        calls::run(EditMessage::begin(msg, wparam, lparam), replies).step == EditStep::Finished,
        !cut_short(msg, replies),
    ensures
        ({
            let m = EditMessage::begin(msg, wparam, lparam);
            let f = calls::run(m, replies);
            &&& visits(m, replies, EditStep::Blit) == if subclass::changes_edit(msg) {
                1nat
            } else {
                0nat
            }
            &&& visits(m, replies, EditStep::Invalidate) == if subclass::changes_edit(msg)
                && !f.painted {
                1nat
            } else {
                0nat
            }
        }),
{
    let m = EditMessage::begin(msg, wparam, lparam);
    lemma_begin(msg, wparam, lparam);
    lemma_kept(m, replies);
    law_steps_taken(msg, wparam, lparam, replies, EditStep::Blit);
    law_steps_taken(msg, wparam, lparam, replies, EditStep::Invalidate);
}

/// The answer that a step gets in a run of answers; `None` where the step is not taken.
pub open spec fn answer_at(m: EditMessage, replies: Seq<Reply>, step: EditStep) -> Option<Reply>
    decreases replies.len(),
{
    if replies.len() == 0 {
        None
    } else if m.step == step {
        Some(replies[0])
    } else {
        answer_at(m.after(replies[0]), replies.skip(1), step)
    }
}

/// What is known in the end is what the steps were answered, where they were taken.
proof fn lemma_answers(m: EditMessage, replies: Seq<Reply>)
    requires
        calls::answered(m, replies),
    ensures
        ({
            let f = calls::run(m, replies);
            &&& f.visible == match answer_at(m, replies, EditStep::AskVisible) {
                Some(reply) => reply == Reply::Flag(true),
                None => m.visible,
            }
            &&& f.fetched == match answer_at(m, replies, EditStep::Fetch) {
                Some(reply) => reply == Reply::Flag(true),
                None => m.fetched,
            }
            &&& f.painted == match answer_at(m, replies, EditStep::Blit) {
                Some(reply) => reply == Reply::Flag(true),
                None => m.painted,
            }
            &&& match answer_at(m, replies, EditStep::LookUp) {
                Some(reply) => reply == Reply::Number(f.original),
                None => f.original == m.original,
            }
        }),
        forall|step: EditStep|
            #[trigger] answer_at(m, replies, step) is Some <==> visits(m, replies, step) > 0,
    decreases replies.len(),
{
    if replies.len() > 0 {
        let next = m.after(replies[0]);
        let rest = replies.skip(1);
        m.lemma_call(replies[0]);
        lemma_reach(noted(m, replies[0]), m.step.behind());
        lemma_answers(next, rest);
        law_steps_in_order(next, rest, m.step);
        assert(answer_at(next, rest, m.step) is None);
        assert forall|step: EditStep|
            #[trigger] answer_at(m, replies, step) is Some <==> visits(m, replies, step) > 0 by {
            assert(answer_at(next, rest, step) is Some <==> visits(next, rest, step) > 0);
        }
    }
}

/// A number that tells whether something happens once or not at all.
pub open spec fn once(b: bool) -> nat {
    if b {
        1
    } else {
        0
    }
}

/// Every message, whatever comes with it and whatever the answers are, takes just these steps, each
/// at most once. The candidate window is shown when candidates are opened, shown anew when they or
/// the composition change, and hidden when they are closed and when the control loses the focus or
/// is destroyed; no other message touches it, and it is shown only with a state that could be read.
/// The default window procedure gets the notifications, the original one everything but the
/// notification message, and a change of the control is followed by a repaint. Only a paint
/// message, and one that has had its background painted, go no further than that.
pub proof fn law_each_message_takes_its_steps(
    msg: u32,
    wparam: usize,
    lparam: isize,
    replies: Seq<Reply>,
)
    requires
        calls::answered(EditMessage::begin(msg, wparam, lparam), replies),
        calls::run(EditMessage::begin(msg, wparam, lparam), replies).step == EditStep::Finished,
    ensures
        ({
            let m = EditMessage::begin(msg, wparam, lparam);
            let yes = Some(Reply::Flag(true));
            let opened = msg == 0x0282 && wparam == 5;
            let changed = msg == 0x0282 && wparam == 3;
            let closed = msg == 0x0282 && wparam == 4;
            let composed = msg == 0x010F && lparam & 8 != 0;
            let erased = answer_at(m, replies, EditStep::Erase) == yes;
            let shown = answer_at(m, replies, EditStep::AskVisible) == yes;
            let fetched = answer_at(m, replies, EditStep::Fetch) == yes;
            let painted = answer_at(m, replies, EditStep::Blit) == yes;
            let original = match answer_at(m, replies, EditStep::LookUp) {
                Some(Reply::Number(n)) => n,
                _ => 0,
            };
            let on = msg != 0x000F && !erased;
            &&& visits(m, replies, EditStep::ArmTimer) == once(false)
            &&& visits(m, replies, EditStep::NoteFocus) == once(msg == 0x0007)
            &&& visits(m, replies, EditStep::Erase) == once(msg == 0x0014)
            &&& visits(m, replies, EditStep::TimerPaint) == once(false)
            &&& visits(m, replies, EditStep::Paint) == once(msg == 0x000F)
            &&& visits(m, replies, EditStep::KillTimer) == once(msg == 0x0002)
            &&& visits(m, replies, EditStep::Report) == once(on && subclass::report_of(msg) is Some)
            &&& visits(m, replies, EditStep::Trace) == once(subclass::is_ime(msg))
            &&& visits(m, replies, EditStep::Forward) == once(subclass::is_notification(msg))
            &&& visits(m, replies, EditStep::AskVisible) == once(composed)
            &&& visits(m, replies, EditStep::Fetch) == once(opened || changed || composed && shown)
            &&& visits(m, replies, EditStep::Show) == once(opened && fetched)
            &&& visits(m, replies, EditStep::Update) == once((changed || composed) && fetched)
            &&& visits(m, replies, EditStep::HideWindow) == once(closed || msg == 0x0008 || msg == 0x0002)
            &&& visits(m, replies, EditStep::Rescue) == once(opened)
            &&& visits(m, replies, EditStep::LookUp) == once(on)
            &&& visits(m, replies, EditStep::CallOriginal) == once(on && msg != 0x0282 && original != 0)
            &&& visits(m, replies, EditStep::Blit) == once(subclass::changes_edit(msg))
            &&& visits(m, replies, EditStep::Invalidate) == once(subclass::changes_edit(msg) && !painted)
            &&& calls::run(m, replies).result == if erased {
                1i64
            } else {
                match answer_at(m, replies, EditStep::CallOriginal) {
                    Some(Reply::Number(n)) => n,
                    _ => 0,
                }
            }
        }),
{
    let m = EditMessage::begin(msg, wparam, lparam);
    lemma_begin(msg, wparam, lparam);
    lemma_kept(m, replies);
    lemma_answers(m, replies);
    if cut_short(msg, replies) {
        law_painting_is_one_call(msg, wparam, lparam, replies);
        assert(replies.skip(1) =~= Seq::<Reply>::empty());
        reveal_with_fuel(visits, 2);
        reveal_with_fuel(answer_at, 2);
    } else {
        if msg == WM_ERASEBKGND {
            assert(m.step == EditStep::Erase);
        }
        lemma_result(m, replies);
        lemma_original_answer(m, replies);
        law_steps_taken(msg, wparam, lparam, replies, EditStep::ArmTimer);
        law_steps_taken(msg, wparam, lparam, replies, EditStep::NoteFocus);
        law_steps_taken(msg, wparam, lparam, replies, EditStep::Erase);
        law_steps_taken(msg, wparam, lparam, replies, EditStep::TimerPaint);
        law_steps_taken(msg, wparam, lparam, replies, EditStep::Paint);
        law_steps_taken(msg, wparam, lparam, replies, EditStep::KillTimer);
        law_steps_taken(msg, wparam, lparam, replies, EditStep::Report);
        law_steps_taken(msg, wparam, lparam, replies, EditStep::Trace);
        law_steps_taken(msg, wparam, lparam, replies, EditStep::Forward);
        law_steps_taken(msg, wparam, lparam, replies, EditStep::AskVisible);
        law_steps_taken(msg, wparam, lparam, replies, EditStep::Fetch);
        law_steps_taken(msg, wparam, lparam, replies, EditStep::Show);
        law_steps_taken(msg, wparam, lparam, replies, EditStep::Update);
        law_steps_taken(msg, wparam, lparam, replies, EditStep::HideWindow);
        law_steps_taken(msg, wparam, lparam, replies, EditStep::Rescue);
        law_steps_taken(msg, wparam, lparam, replies, EditStep::LookUp);
        law_steps_taken(msg, wparam, lparam, replies, EditStep::CallOriginal);
        law_steps_taken(msg, wparam, lparam, replies, EditStep::Blit);
        law_steps_taken(msg, wparam, lparam, replies, EditStep::Invalidate);
    }
}

/// The answer of the original window procedure is the one that its step gets.
proof fn lemma_original_answer(m: EditMessage, replies: Seq<Reply>)
    requires
        calls::answered(m, replies),
    ensures
        original_answer(m, replies) == match answer_at(m, replies, EditStep::CallOriginal) {
            Some(Reply::Number(n)) => Some(n),
            _ => None,
        },
    decreases replies.len(),
{
    if replies.len() > 0 && m.step != EditStep::CallOriginal {
        lemma_original_answer(m.after(replies[0]), replies.skip(1));
    }
}

/// A run takes its steps in one order: the focus is noted and the control painted before anything
/// else, the message is forwarded before the candidate window is touched, that before the original
/// window procedure is asked, and the repaint comes last.
pub proof fn law_steps_have_one_order(m: EditMessage, replies: Seq<Reply>, k: int)
    requires
        calls::answered(m, replies),
        0 <= k < replies.len(),
    ensures
        ({
            let order = seq![
                EditStep::ArmTimer,
                EditStep::NoteFocus,
                EditStep::Erase,
                EditStep::TimerPaint,
                EditStep::Paint,
                EditStep::KillTimer,
                EditStep::Report,
                EditStep::Trace,
                EditStep::Forward,
                EditStep::AskVisible,
                EditStep::Fetch,
                EditStep::Show,
                EditStep::Update,
                EditStep::HideWindow,
                EditStep::Rescue,
                EditStep::LookUp,
                EditStep::CallOriginal,
                EditStep::Blit,
                EditStep::Invalidate,
                EditStep::Finished,
            ];
            forall|i: int, j: int|
                0 <= i < 20 && 0 <= j < 20 && calls::at(m, replies, k).step == #[trigger] order[i]
                    && calls::at(m, replies, k + 1).step == #[trigger] order[j] ==> i < j
        }),
{
    calls::law_call_by_call(m, replies, k);
    calls::at(m, replies, k).lemma_call(replies[k]);
}

} // verus!
