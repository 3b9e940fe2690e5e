//! The scan loop as a state machine: the caller performs each action and
//! reports its outcome as an event; `step` decides what to do next.

use vstd::prelude::*;
use crate::message::{MessageRef, RawMessage};

verus! {

/// Messages requested per search page; the offset advances by this much.
pub const PAGE_SIZE: u64 = 25;

/// Delay before the first fetch, in milliseconds.
pub const INITIAL_DELAY_MS: u64 = 1000;

/// Added to the delay after a failed page fetch.
pub const BACKOFF_STEP_MS: u64 = 500;

/// Taken off the delay, down to zero, after each page handled.
pub const RECOVERY_STEP_MS: u64 = 100;

#[derive(Clone, Copy, Debug, PartialEq, Eq, Structural)]
pub enum Phase {
    /// Waiting for the delay to pass.
    Sleeping,
    /// Waiting for the page at the current offset.
    Fetching,
    /// Waiting to learn whether the current message is recorded.
    Checking,
    /// Waiting for the replacement text of the current message.
    Generating,
    /// Waiting for the edit of the current message.
    Editing,
    /// Waiting for the record of the current message to be stored.
    Recording,
    /// No more messages: the scan is complete.
    Done,
    /// Storing a record failed: the scan stopped.
    Halted,
}

/// The outcome of the last action, as reported by the caller.
#[derive(Debug)]
pub enum Event {
    Slept,
    PageFetched(Vec<RawMessage>),
    FetchFailed,
    RecordChecked(bool),
    ContentReady(String),
    EditFinished(bool),
    RecordStored(bool),
}

/// What the caller is to do next.
#[derive(Debug)]
pub enum Action {
    /// Sleep this many milliseconds, then report `Slept`.
    Sleep(u64),
    /// Fetch the search page at this offset.
    FetchPage(u64),
    /// Ask the record store whether this message was already rewritten.
    CheckRecord(MessageRef),
    /// Produce replacement text.
    GenerateContent,
    /// Replace the content of this message with the text.
    EditMessage(MessageRef, String),
    /// Store a record for this message with its former content.
    StoreRecord(MessageRef, String),
    /// The scan is complete.
    Finish,
    /// The scan stopped on a failed record write.
    Fail,
}

pub enum ActionView {
    Sleep(u64),
    FetchPage(u64),
    CheckRecord(MessageRef),
    GenerateContent,
    EditMessage(MessageRef, Seq<char>),
    StoreRecord(MessageRef, Seq<char>),
    Finish,
    Fail,
}

impl View for Action {
    type V = ActionView;

    open spec fn view(&self) -> ActionView {
        match self {
            Action::Sleep(d) => ActionView::Sleep(*d),
            Action::FetchPage(o) => ActionView::FetchPage(*o),
            Action::CheckRecord(r) => ActionView::CheckRecord(*r),
            Action::GenerateContent => ActionView::GenerateContent,
            Action::EditMessage(r, c) => ActionView::EditMessage(*r, c@),
            Action::StoreRecord(r, c) => ActionView::StoreRecord(*r, c@),
            Action::Finish => ActionView::Finish,
            Action::Fail => ActionView::Fail,
        }
    }
}

pub struct ScanView {
    pub offset: u64,
    pub delay_ms: u64,
    pub phase: Phase,
    pub page: Seq<RawMessage>,
    pub index: int,
    /// The messages known to be recorded: reported so by the store, or
    /// recorded by this loop.
    pub recorded: Set<MessageRef>,
}

/// State of a scan. Between two calls of `step`, `phase` names the event it
/// waits for.
pub struct ScanLoop {
    pub offset: u64,
    pub delay_ms: u64,
    pub phase: Phase,
    pub page: Vec<RawMessage>,
    pub index: usize,
    pub recorded: Ghost<Set<MessageRef>>,
}

impl View for ScanLoop {
    type V = ScanView;

    open spec fn view(&self) -> ScanView {
        ScanView {
            offset: self.offset,
            delay_ms: self.delay_ms,
            phase: self.phase,
            page: self.page@,
            index: self.index as int,
            recorded: self.recorded@,
        }
    }
}

pub open spec fn sat_add(a: u64, b: u64) -> u64 {
    if a + b > u64::MAX {
        u64::MAX
    } else {
        (a + b) as u64
    }
}

pub open spec fn sat_sub(a: u64, b: u64) -> u64 {
    if a < b {
        0
    } else {
        (a - b) as u64
    }
}

pub open spec fn on_message(p: Phase) -> bool {
    p == Phase::Checking || p == Phase::Generating || p == Phase::Editing || p == Phase::Recording
}

impl ScanView {
    /// A message is in hand while the loop works through a page; between
    /// pages no page is held.
    pub open spec fn wf(self) -> bool {
        &&& on_message(self.phase) ==> 0 <= self.index < self.page.len()
        &&& (self.phase == Phase::Sleeping || self.phase == Phase::Fetching) ==> self.index == 0
            && self.page.len() == 0
    }

    pub open spec fn current(self) -> MessageRef {
        self.page[self.index].key()
    }

    pub open spec fn expects(self, e: Event) -> bool {
        match self.phase {
            Phase::Sleeping => e is Slept,
            Phase::Fetching => e is PageFetched || e is FetchFailed,
            Phase::Checking => e is RecordChecked,
            Phase::Generating => e is ContentReady,
            Phase::Editing => e is EditFinished,
            Phase::Recording => e is RecordStored,
            Phase::Done | Phase::Halted => false,
        }
    }

    /// While the message in hand waits for its text or its edit, it is not
    /// known to be recorded.
    pub open spec fn edit_target_clear(self) -> bool {
        (self.phase == Phase::Generating || self.phase == Phase::Editing) ==> !self.recorded.contains(
            self.current(),
        )
    }

    /// Done with the current message: on to the next one, or, after the last,
    /// to the next page.
    pub open spec fn next_message(self) -> (ScanView, ActionView) {
        if self.index < self.page.len() - 1 {
            (
                ScanView { phase: Phase::Checking, index: self.index + 1, ..self },
                ActionView::CheckRecord(self.page[self.index + 1].key()),
            )
        } else {
            let d = sat_sub(self.delay_ms, RECOVERY_STEP_MS);
            (
                ScanView {
                    offset: sat_add(self.offset, PAGE_SIZE),
                    delay_ms: d,
                    phase: Phase::Sleeping,
                    page: Seq::empty(),
                    index: 0,
                    ..self
                },
                ActionView::Sleep(d),
            )
        }
    }

    /// The state after `e` and the action the caller is to perform.
    pub open spec fn transition(self, e: Event) -> (ScanView, ActionView) {
        match e {
            Event::Slept => (
                ScanView { phase: Phase::Fetching, ..self },
                ActionView::FetchPage(self.offset),
            ),
            Event::FetchFailed => {
                let d = sat_add(self.delay_ms, BACKOFF_STEP_MS);
                (ScanView { phase: Phase::Sleeping, delay_ms: d, ..self }, ActionView::Sleep(d))
            },
            Event::PageFetched(p) => if p@.len() == 0 {
                (ScanView { phase: Phase::Done, ..self }, ActionView::Finish)
            } else {
                (
                    ScanView { phase: Phase::Checking, page: p@, index: 0, ..self },
                    ActionView::CheckRecord(p@[0].key()),
                )
            },
            Event::RecordChecked(true) => ScanView {
                recorded: self.recorded.insert(self.current()),
                ..self
            }.next_message(),
            Event::RecordChecked(false) => (
                ScanView { phase: Phase::Generating, ..self },
                ActionView::GenerateContent,
            ),
            Event::ContentReady(c) => (
                ScanView { phase: Phase::Editing, ..self },
                ActionView::EditMessage(self.current(), c@),
            ),
            Event::EditFinished(true) => (
                ScanView { phase: Phase::Recording, ..self },
                ActionView::StoreRecord(self.current(), self.page[self.index].content@),
            ),
            Event::EditFinished(false) => self.next_message(),
            Event::RecordStored(true) => ScanView {
                recorded: self.recorded.insert(self.current()),
                ..self
            }.next_message(),
            Event::RecordStored(false) => (
                ScanView { phase: Phase::Halted, ..self },
                ActionView::Fail,
            ),
        }
    }
}

/// Once a message is known to be recorded, the loop never asks to edit it:
/// the known records only grow, and an edit is only asked for a message
/// outside them. This holds as long as the record store keeps its records,
/// that is, never answers "not recorded" for a message known to be recorded.
pub proof fn lemma_recorded_never_edited(s: ScanView, e: Event)
    requires
        s.wf(),
        s.expects(e),
        s.edit_target_clear(),
        e == Event::RecordChecked(false) ==> !s.recorded.contains(s.current()),
    ensures
        ({
            let (t, a) = s.transition(e);
            &&& t.wf()
            &&& t.edit_target_clear()
            &&& s.recorded.subset_of(t.recorded)
            &&& (a matches ActionView::EditMessage(r, _) ==> !t.recorded.contains(r))
        }),
{
}

/// A record that the store confirms as written is known to the loop from then on.
pub proof fn lemma_stored_record_known(s: ScanView)
    requires
        s.wf(),
        s.phase == Phase::Recording,
    ensures
        s.transition(Event::RecordStored(true)).0.recorded.contains(s.current()),
        s.recorded.subset_of(s.transition(Event::RecordStored(true)).0.recorded),
{
}

/// An empty page ends the scan: the loop finishes, and from then on it waits
/// for no outcome, so it asks for no more text and no more edits.
pub proof fn lemma_empty_page_finishes(s: ScanView, p: Vec<RawMessage>)
    requires
        s.wf(),
        s.phase == Phase::Fetching,
        p@.len() == 0,
    ensures
        ({
            let (t, a) = s.transition(Event::PageFetched(p));
            &&& t.phase == Phase::Done
            &&& a == ActionView::Finish
            &&& forall|e: Event| !t.expects(e)
        }),
{
}

impl ScanLoop {
    /// A fresh scan at offset zero with the initial delay; its first action
    /// is to sleep `delay_ms`.
    pub fn new() -> (r: ScanLoop)
        ensures
            r@.wf(),
            r@.offset == 0,
            r@.delay_ms == INITIAL_DELAY_MS,
            r@.phase == Phase::Sleeping,
            r@.recorded == Set::<MessageRef>::empty(),
            r@.edit_target_clear(),
    {
        ScanLoop {
            offset: 0,
            delay_ms: INITIAL_DELAY_MS,
            phase: Phase::Sleeping,
            page: Vec::new(),
            index: 0,
            recorded: Ghost(Set::empty()),
        }
    }

    /// Whether `e` is an outcome the loop is waiting for.
    pub fn expects(&self, e: &Event) -> (r: bool)
        ensures
            r == self@.expects(*e),
    {
        match self.phase {
            Phase::Sleeping => matches!(e, Event::Slept),
            Phase::Fetching => matches!(e, Event::PageFetched(_)) || matches!(e, Event::FetchFailed),
            Phase::Checking => matches!(e, Event::RecordChecked(_)),
            Phase::Generating => matches!(e, Event::ContentReady(_)),
            Phase::Editing => matches!(e, Event::EditFinished(_)),
            Phase::Recording => matches!(e, Event::RecordStored(_)),
            Phase::Done | Phase::Halted => false,
        }
    }

    pub fn is_finished(&self) -> (r: bool)
        ensures
            r == (self.phase == Phase::Done || self.phase == Phase::Halted),
    {
        self.phase == Phase::Done || self.phase == Phase::Halted
    }

    fn next_message(&mut self) -> (a: Action)
        requires
            old(self)@.wf(),
            on_message(old(self).phase),
        ensures
            (final(self)@, a@) == old(self)@.next_message(),
            final(self)@.wf(),
    {
        if self.index < self.page.len() - 1 {
            self.index = self.index + 1;
            self.phase = Phase::Checking;
            Action::CheckRecord(self.page[self.index].message_ref())
        } else {
            self.delay_ms = self.delay_ms.saturating_sub(RECOVERY_STEP_MS);
            self.offset = self.offset.saturating_add(PAGE_SIZE);
            self.phase = Phase::Sleeping;
            self.page = Vec::new();
            self.index = 0;
            Action::Sleep(self.delay_ms)
        }
    }

    /// Takes the outcome of the last action and returns the next one.
    pub fn step(&mut self, e: Event) -> (a: Action)
        requires
            old(self)@.wf(),
            old(self)@.expects(e),
        ensures
            (final(self)@, a@) == old(self)@.transition(e),
            final(self)@.wf(),
    {
        let ghost cur = self@.current();
        match e {
            Event::Slept => {
                self.phase = Phase::Fetching;
                Action::FetchPage(self.offset)
            },
            Event::FetchFailed => {
                self.delay_ms = self.delay_ms.saturating_add(BACKOFF_STEP_MS);
                self.phase = Phase::Sleeping;
                Action::Sleep(self.delay_ms)
            },
            Event::PageFetched(p) => {
                if p.len() == 0 {
                    self.phase = Phase::Done;
                    Action::Finish
                } else {
                    let first = p[0].message_ref();
                    self.page = p;
                    self.index = 0;
                    self.phase = Phase::Checking;
                    Action::CheckRecord(first)
                }
            },
            Event::RecordChecked(found) => {
                if found {
                    self.recorded = Ghost(self.recorded@.insert(cur));
                    self.next_message()
                } else {
                    self.phase = Phase::Generating;
                    Action::GenerateContent
                }
            },
            Event::ContentReady(c) => {
                self.phase = Phase::Editing;
                Action::EditMessage(self.page[self.index].message_ref(), c)
            },
            Event::EditFinished(ok) => {
                if ok {
                    self.phase = Phase::Recording;
                    let m = &self.page[self.index];
                    Action::StoreRecord(m.message_ref(), m.content.clone())
                } else {
                    self.next_message()
                }
            },
            Event::RecordStored(ok) => {
                if ok {
                    self.recorded = Ghost(self.recorded@.insert(cur));
                    self.next_message()
                } else {
                    self.phase = Phase::Halted;
                    Action::Fail
                }
            },
        }
    }
}

} // verus!
