//! The candidates that the text services report.
//!
//! Some input methods do not keep a candidate list for the window system. Their candidates are
//! reported to a sink: an element of their user interface begins, is updated and ends.

use crate::calls::{self, CallSequence, Reply, Resource};
use crate::candidates::ImeState;
use crate::overlay::MAX_PAGE_SIZE;
use vstd::multiset::Multiset;
use vstd::prelude::*;

verus! {

/// Status: the thread is an apartment of another kind already. The services work there too.
pub const CHANGED_MODE: i64 = -0x7FFE_FEFA;

/// At most so many page starts are asked for.
pub const MAX_PAGES: usize = 32;

/// Whether the input method shows its own window when an element begins.
pub const SHOW_OWN_WINDOW: bool = false;

/// What happens to an element.
#[derive(Clone, Copy, Debug, PartialEq, Eq, Structural)]
pub enum EventKind {
    Begin,
    Update,
    End,
}

/// What an element tells of its list of candidates.
pub struct UiList {
    /// How many candidates there are.
    pub count: u32,
    /// The index of the selected candidate.
    pub selection: u32,
    /// The number of the current page.
    pub current_page: u32,
    /// The index of the first candidate of each page.
    pub pages: Vec<u32>,
}

/// The page starts that the input method has given: of those that were asked for, the first `got`.
pub fn given_pages(pages: Vec<u32>, got: u32) -> (r: Vec<u32>)
    ensures
        r@ == if got < pages@.len() {
            pages@.take(got as int)
        } else {
            pages@
        },
{
    let n: usize = if (got as u64) < pages.len() as u64 { got as usize } else { pages.len() };
    let mut out: Vec<u32> = Vec::new();
    let mut i: usize = 0;
    while i < n
        invariant
            i <= n <= pages@.len(),
            out@ =~= pages@.take(i as int),
        decreases n - i,
    {
        out.push(pages[i]);
        i = i + 1;
    }
    assert(pages@.take(pages@.len() as int) =~= pages@);
    out
}

impl UiList {
    /// The index of the first candidate of the current page; zero where it is not known.
    pub open spec fn page_start(&self) -> int {
        if self.current_page < self.pages@.len() {
            self.pages@[self.current_page as int] as int
        } else {
            0
        }
    }

    /// The index behind the last candidate of the current page: where the next page starts, or the
    /// number of candidates where that is not known.
    pub open spec fn page_end(&self) -> int {
        if self.current_page + 1 < self.pages@.len() {
            self.pages@[self.current_page + 1] as int
        } else {
            self.count as int
        }
    }

    /// How many candidates of the current page are read.
    pub open spec fn visible(&self) -> int {
        let size = self.page_end() - self.page_start();
        if size < 0 {
            0
        } else if size < MAX_PAGE_SIZE {
            size
        } else {
            MAX_PAGE_SIZE as int
        }
    }

    /// The index within the current page of the selected candidate, where it is among those that
    /// are read.
    pub open spec fn selected(&self) -> Option<int> {
        if self.page_start() <= self.selection < self.page_start() + self.visible() {
            Some(self.selection - self.page_start())
        } else {
            None
        }
    }

    /// The indices of the candidates of the current page that are read.
    pub open spec fn indices(&self) -> Seq<u32> {
        Seq::new(self.visible() as nat, |i: int| (self.page_start() + i) as u32)
    }

    /// The index of the first candidate of the current page, and how many candidates are read.
    pub fn page(&self) -> (r: (u32, u32))
        ensures
            r.0 == self.page_start(),
            r.1 == self.visible(),
            r.1 > 0 ==> self.page_start() + self.visible() <= u32::MAX,
    {
        let len: u64 = self.pages.len() as u64;
        let page: u64 = self.current_page as u64;
        let start: u32 = if page < len { self.pages[self.current_page as usize] } else { 0 };
        let end: u32 = if page + 1 < len {
            self.pages[self.current_page as usize + 1]
        } else {
            self.count
        };
        let size: u32 = if end < start { 0 } else { end - start };
        (start, if size < 9 { size } else { 9 })
    }

    /// The indices of the candidates of the current page that are read.
    pub fn page_indices(&self) -> (r: Vec<u32>)
        ensures
            r@ == self.indices(),
    {
        let (start, visible) = self.page();
        let mut out: Vec<u32> = Vec::new();
        let mut i: u32 = 0;
        while i < visible
            invariant
                i <= visible,
                start == self.page_start(),
                visible == self.visible(),
                visible > 0 ==> start + visible <= u32::MAX,
                out@ =~= self.indices().take(i as int),
            decreases visible - i,
        {
            out.push(start + i);
            i = i + 1;
        }
        assert(self.indices().take(visible as int) =~= self.indices());
        out
    }
}

/// What is to be done about an event.
pub enum SinkAction {
    /// Nothing.
    Nothing,
    /// Hide the candidate window.
    HideWindow,
    /// Show the state in the candidate window at the input field.
    Show { input: isize, state: ImeState },
    /// Show the state in the candidate window where it is.
    Update { state: ImeState },
}

/// The state that a list stands for, with the candidates that were read of its current page. These
/// are all that the state holds, so they begin where the page does and its page is their whole.
/// There is no composition string.
pub open spec fn state_of(list: UiList, items: Vec<String>, state: ImeState) -> bool {
    &&& state.composition@ == Seq::<char>::empty()
    &&& state.total == list.count
    &&& state.selection == list.selection
    &&& state.page_start == list.page_start()
    &&& state.page_size == list.visible()
    &&& state.items == items
    &&& state.first == list.page_start()
    &&& items@.len() == list.visible() ==> state.page() == items@
}

/// What is to be done about an event. `list` is what the element tells of its candidates, where it
/// is a list of candidates at all, with the candidates that were read of it, and `focus` is the
/// edit control that had the focus last. An end hides the candidate window; a list without
/// candidates, and one that belongs to no edit control, is passed over.
pub fn handle_event(kind: EventKind, list: Option<(UiList, Vec<String>)>, focus: isize) -> (r:
    SinkAction)
    ensures
        kind == EventKind::End ==> r is HideWindow,
        kind != EventKind::End ==> match list {
            Some((l, items)) => if l.count == 0 || focus == 0 {
                r is Nothing
            } else if kind == EventKind::Begin {
                r matches SinkAction::Show { input, state } && input == focus && state_of(
                    l,
                    items,
                    state,
                )
            } else {
                r matches SinkAction::Update { state } && state_of(l, items, state)
            },
            None => r is Nothing,
        },
{
    match kind {
        EventKind::End => SinkAction::HideWindow,
        _ => match list {
            Some((l, items)) => {
                if l.count == 0 || focus == 0 {
                    return SinkAction::Nothing;
                }
                let (page_start, page_size) = l.page();
                let state = ImeState {
                    composition: String::new(),
                    total: l.count,
                    selection: l.selection,
                    page_start,
                    page_size,
                    items,
                    first: page_start,
                };
                proof {
                    if state.items@.len() == l.visible() {
                        assert(state.page() =~= state.items@);
                    }
                }
                if kind == EventKind::Begin {
                    SinkAction::Show { input: focus, state }
                } else {
                    SinkAction::Update { state }
                }
            },
            None => SinkAction::Nothing,
        },
    }
}

/// The candidates that are read lie on the current page and among the first nine of it, and each of
/// them is asked for once.
pub proof fn law_page_is_read(list: UiList)
    ensures
        list.indices().len() <= MAX_PAGE_SIZE,
        forall|i: int|
            0 <= i < list.indices().len() ==> list.page_start() <= #[trigger] list.indices()[i]
                < list.page_end(),
        forall|i: int, j: int|
            0 <= i < j < list.indices().len() ==> #[trigger] list.indices()[i]
                < #[trigger] list.indices()[j],
{
    assert(list.page_start() + list.visible() <= u32::MAX || list.visible() == 0);
}

/// Whatever page is current, its candidates are shown: where each candidate was read at its index,
/// the page of the state is the run of candidates from the start of the page on, and the one that
/// is selected on it is the one that the list selects.
pub proof fn law_page_is_shown(
    list: UiList,
    all: Seq<String>,
    items: Vec<String>,
    state: ImeState,
)
    requires
        items@ == Seq::new(list.indices().len(), |i: int| all[list.indices()[i] as int]),
        state_of(list, items, state),
    ensures
        state.page().len() == list.visible(),
        forall|i: int|
            0 <= i < list.visible() ==> #[trigger] state.page()[i] == all[list.page_start() + i],
        state.selected() matches Some(k) ==> 0 <= k < state.page().len() && state.page()[k]
            == all[list.selection as int],
        state.selected() == list.selected(),
{
    law_page_is_read(list);
    assert forall|i: int| 0 <= i < list.visible() implies #[trigger] state.page()[i]
        == all[list.page_start() + i] by {
        assert(list.indices()[i] == list.page_start() + i);
    }
}

/// The page of a state that the text services report has an end that an index can hold.
pub proof fn law_page_end_fits(list: UiList, items: Vec<String>, state: ImeState)
    requires
        state_of(list, items, state),
    ensures
        state.page_bounded(),
{
}

/// The edit control that had the focus last; zero where none had.
pub struct LastFocus {
    hwnd: isize,
}

impl View for LastFocus {
    type V = isize;

    closed spec fn view(&self) -> isize {
        self.hwnd
    }
}

impl LastFocus {
    /// No edit control has had the focus.
    pub fn new() -> (r: Self)
        ensures
            r@ == 0,
    {
        LastFocus { hwnd: 0 }
    }
}

/// Notes that an edit control has the focus.
pub fn set_last_focus_edit(focus: &mut LastFocus, hwnd: isize)
    ensures
        final(focus)@ == hwnd,
{
    focus.hwnd = hwnd;
}

/// The edit control that had the focus last.
pub fn last_focus_edit(focus: &LastFocus) -> (r: isize)
    ensures
        r == focus@,
{
    focus.hwnd
}

/// Why the text services could not be started: the step that failed.
#[derive(Clone, Copy, Debug, PartialEq, Eq, Structural)]
pub enum InitError {
    Apartment,
    Create,
    Activate,
    AskSource,
    AskElements,
    Advise,
}

/// How far the start of the text services has come.
#[derive(Clone, Copy, Debug, PartialEq, Eq, Structural)]
pub enum InitPhase {
    /// Make the thread a single-threaded apartment.
    Apartment,
    /// Create the manager of the thread.
    Create,
    /// Activate it.
    Activate,
    /// Ask the manager for its source of events.
    AskSource,
    /// Ask the manager for the manager of the elements.
    AskElements,
    /// Have the events delivered to the sink.
    Advise,
    /// Keep the manager of the elements.
    KeepElements,
    /// Keep the manager of the thread.
    KeepThread,
    /// Everything is done.
    Finished,
}

/// The start of the text services on a thread. The first failure ends it.
#[derive(Clone, Copy, Debug, PartialEq, Eq)]
pub struct ServiceInit {
    /// The call that is due.
    pub phase: InitPhase,
    /// What has come of it.
    pub result: Result<(), InitError>,
}

impl CallSequence for ServiceInit {
    open spec fn after(self, reply: Reply) -> ServiceInit {
        match (self.phase, reply) {
            (InitPhase::Apartment, Reply::Number(status)) => if status >= 0 || status == CHANGED_MODE {
                ServiceInit { phase: InitPhase::Create, ..self }
            } else {
                ServiceInit {
                    phase: InitPhase::Finished,
                    result: Err(InitError::Apartment),
                    ..self
                }
            },
            (InitPhase::Create, Reply::Flag(ok)) => if ok {
                ServiceInit { phase: InitPhase::Activate, ..self }
            } else {
                ServiceInit {
                    phase: InitPhase::Finished,
                    result: Err(InitError::Create),
                    ..self
                }
            },
            (InitPhase::Activate, Reply::Flag(ok)) => if ok {
                ServiceInit { phase: InitPhase::AskSource, ..self }
            } else {
                ServiceInit {
                    phase: InitPhase::Finished,
                    result: Err(InitError::Activate),
                    ..self
                }
            },
            (InitPhase::AskSource, Reply::Flag(ok)) => if ok {
                ServiceInit { phase: InitPhase::AskElements, ..self }
            } else {
                ServiceInit {
                    phase: InitPhase::Finished,
                    result: Err(InitError::AskSource),
                    ..self
                }
            },
            (InitPhase::AskElements, Reply::Flag(ok)) => if ok {
                ServiceInit { phase: InitPhase::Advise, ..self }
            } else {
                ServiceInit {
                    phase: InitPhase::Finished,
                    result: Err(InitError::AskElements),
                    ..self
                }
            },
            (InitPhase::Advise, Reply::Flag(ok)) => if ok {
                ServiceInit { phase: InitPhase::KeepElements, ..self }
            } else {
                ServiceInit {
                    phase: InitPhase::Finished,
                    result: Err(InitError::Advise),
                    ..self
                }
            },
            (InitPhase::KeepElements, Reply::Done) => ServiceInit {
                phase: InitPhase::KeepThread,
                ..self
            },
            (InitPhase::KeepThread, Reply::Done) => ServiceInit {
                phase: InitPhase::Finished,
                result: Ok(()),
                ..self
            },
            _ => self,
        }
    }

    open spec fn awaits(self, reply: Reply) -> bool {
        match self.phase {
            InitPhase::Apartment => reply is Number,
            InitPhase::Create
            | InitPhase::Activate
            | InitPhase::AskSource
            | InitPhase::AskElements
            | InitPhase::Advise => reply is Flag,
            InitPhase::Finished => false,
            _ => reply is Done,
        }
    }

    open spec fn rank(self) -> nat {
        match self.phase {
            InitPhase::Apartment => 8,
            InitPhase::Create => 7,
            InitPhase::Activate => 6,
            InitPhase::AskSource => 5,
            InitPhase::AskElements => 4,
            InitPhase::Advise => 3,
            InitPhase::KeepElements => 2,
            InitPhase::KeepThread => 1,
            InitPhase::Finished => 0,
        }
    }

    open spec fn held(self) -> Multiset<Resource> {
        Multiset::empty()
    }

    open spec fn takes(self, reply: Reply) -> Multiset<Resource> {
        Multiset::empty()
    }

    open spec fn gives(self) -> Multiset<Resource> {
        Multiset::empty()
    }

    proof fn lemma_call(self, reply: Reply) {
    }
}

impl ServiceInit {
    /// The state after an answer.
    pub fn step(self, reply: Reply) -> (r: ServiceInit)
        ensures
            r == self.after(reply),
    {
        match (self.phase, reply) {
            (InitPhase::Apartment, Reply::Number(status)) => {
                if status >= 0 || status == CHANGED_MODE {
                    ServiceInit { phase: InitPhase::Create, ..self }
                } else {
                    ServiceInit {
                        phase: InitPhase::Finished,
                        result: Err(InitError::Apartment),
                        ..self
                    }
                }
            },
            (InitPhase::Create, Reply::Flag(ok)) => {
                if ok {
                    ServiceInit { phase: InitPhase::Activate, ..self }
                } else {
                    ServiceInit {
                        phase: InitPhase::Finished,
                        result: Err(InitError::Create),
                        ..self
                    }
                }
            },
            (InitPhase::Activate, Reply::Flag(ok)) => {
                if ok {
                    ServiceInit { phase: InitPhase::AskSource, ..self }
                } else {
                    ServiceInit {
                        phase: InitPhase::Finished,
                        result: Err(InitError::Activate),
                        ..self
                    }
                }
            },
            (InitPhase::AskSource, Reply::Flag(ok)) => {
                if ok {
                    ServiceInit { phase: InitPhase::AskElements, ..self }
                } else {
                    ServiceInit {
                        phase: InitPhase::Finished,
                        result: Err(InitError::AskSource),
                        ..self
                    }
                }
            },
            (InitPhase::AskElements, Reply::Flag(ok)) => {
                if ok {
                    ServiceInit { phase: InitPhase::Advise, ..self }
                } else {
                    ServiceInit {
                        phase: InitPhase::Finished,
                        result: Err(InitError::AskElements),
                        ..self
                    }
                }
            },
            (InitPhase::Advise, Reply::Flag(ok)) => {
                if ok {
                    ServiceInit { phase: InitPhase::KeepElements, ..self }
                } else {
                    ServiceInit {
                        phase: InitPhase::Finished,
                        result: Err(InitError::Advise),
                        ..self
                    }
                }
            },
            (InitPhase::KeepElements, Reply::Done) => {
                ServiceInit { phase: InitPhase::KeepThread, ..self }
            },
            (InitPhase::KeepThread, Reply::Done) => {
                ServiceInit { phase: InitPhase::Finished, result: Ok(()), ..self }
            },
            _ => self,
        }
    }
}

/// The start of the text services, at its first step.
pub fn init() -> (r: ServiceInit)
    ensures
        r == (ServiceInit { phase: InitPhase::Apartment, result: Ok(()) }),
{
    ServiceInit { phase: InitPhase::Apartment, result: Ok(()) }
}

/// The managers are kept only where the events are delivered: wherever the services have been
/// started, every step before has succeeded, and the thread was or has become an apartment.
pub proof fn law_started_when_advised(replies: Seq<Reply>)
    requires
        calls::answered((ServiceInit { phase: InitPhase::Apartment, result: Ok(()) }), replies),
        calls::run(
            (ServiceInit { phase: InitPhase::Apartment, result: Ok(()) }),
            replies,
        ).phase == InitPhase::Finished,
    ensures
        calls::run(
            (ServiceInit { phase: InitPhase::Apartment, result: Ok(()) }),
            replies,
        ).result is Ok <==> replies.len() == 8,
        replies[0] matches Reply::Number(status) && (replies.len() > 1 <==> status >= 0 || status
            == CHANGED_MODE),
        replies.len() == 8 ==> forall|k: int|
            1 <= k < 6 ==> #[trigger] replies[k] == Reply::Flag(true),
{
    reveal_with_fuel(calls::run, 10);
    reveal_with_fuel(calls::answered, 10);
    let m = ServiceInit { phase: InitPhase::Apartment, result: Ok(()) };
    calls::law_calls_end(m, replies);
}

/// The services are started step by step, and the first step that fails ends the start with its own
/// error. A thread that is an apartment already, of whatever kind, is as good as one that has just
/// become one.
pub proof fn law_services_start_step_by_step(replies: Seq<Reply>)
    requires
        calls::answered((ServiceInit { phase: InitPhase::Apartment, result: Ok(()) }), replies),
        calls::run(
            (ServiceInit { phase: InitPhase::Apartment, result: Ok(()) }),
            replies,
        ).phase == InitPhase::Finished,
    ensures
        ({
            let m = ServiceInit { phase: InitPhase::Apartment, result: Ok(()) };
            let f = calls::run(m, replies);
            let n = replies.len();
            let no = Reply::Flag(false);
            let order = seq![
                InitPhase::Apartment,
                InitPhase::Create,
                InitPhase::Activate,
                InitPhase::AskSource,
                InitPhase::AskElements,
                InitPhase::Advise,
                InitPhase::KeepElements,
                InitPhase::KeepThread,
            ];
            let errors = seq![
                InitError::Apartment,
                InitError::Create,
                InitError::Activate,
                InitError::AskSource,
                InitError::AskElements,
                InitError::Advise,
            ];
            &&& 1 <= n <= 6 || n == 8
            &&& forall|k: int|
                0 <= k < n ==> (#[trigger] calls::at(m, replies, k)).phase == order[k]
            &&& replies[0] matches Reply::Number(status) && (n > 1 <==> status >= 0 || status
                == -0x7FFE_FEFA)
            &&& forall|k: int| 1 <= k < n - 1 && k < 6 ==> #[trigger] replies[k] != no
            &&& 1 < n <= 6 ==> replies[n - 1] == no
            &&& f.result == if n <= 6 {
                Err::<(), InitError>(errors[n - 1])
            } else {
                Ok::<(), InitError>(())
            }
        }),
{
    let m = ServiceInit { phase: InitPhase::Apartment, result: Ok(()) };
    calls::lemma_calls(m, replies);
}

/// The current page is read whole, up to its ninth candidate: it reaches from its own start to that
/// of the next page, or to the number of candidates where there is no next page; each index of it
/// is asked for, in turn, and no other is.
pub proof fn law_page_is_read_whole(list: UiList)
    ensures
        ({
            let page = list.current_page as int;
            let start = if page < list.pages@.len() {
                list.pages@[page] as int
            } else {
                0
            };
            let end = if page + 1 < list.pages@.len() {
                list.pages@[page + 1] as int
            } else {
                list.count as int
            };
            let read = list.indices();
            &&& list.page_start() == start
            &&& list.visible() == read.len()
            &&& forall|k: int|
                start <= k < end && k < start + 9 ==> k - start < read.len() && #[trigger] read[k
                    - start] == k
            &&& forall|i: int|
                0 <= i < read.len() ==> i < 9 && start + i < end && #[trigger] read[i] == start + i
        }),
{
}

/// The state tells of the list just what the list tells: how many candidates there are, which one
/// is selected and where the page starts, all counted from the first candidate, and the candidates
/// that were read, which begin where the page does. There is no composition string.
pub proof fn law_state_tells_of_the_list(list: UiList, items: Vec<String>, state: ImeState)
    requires
        state_of(list, items, state),
    ensures
        state.composition@.len() == 0,
        state.total == list.count,
        state.selection == list.selection,
        state.page_start == list.page_start(),
        state.page_size == list.indices().len(),
        state.items@ == items@,
        state.first == state.page_start,
{
}

} // verus!
