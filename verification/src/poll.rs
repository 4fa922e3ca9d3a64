//! The polling loop as a state machine: what each timer tick and each fetch
//! result does to the loop's state and to the display summary.

use crate::feed::FeedError;
use crate::segment::{segment_views, MatchSegment, SegmentView};
use crate::summary::{format_match_text, summary_text};
use vstd::prelude::*;
use vstd::string::StringExecFns;

verus! {

/// Seconds between two timer ticks.
pub const POLL_INTERVAL_SECS: u64 = 30;

/// What the tray shows in front of every summary.
pub const TOOLTIP_PREFIX: &'static str = "Valorant: ";

/// The summary shown until the first poll has succeeded.
pub const LOADING: &'static str = "Loading...";

/// Whether a fetch is in flight.
#[derive(Debug, Clone, Copy, PartialEq, Eq, Structural)]
pub enum PollState {
    /// Between ticks.
    Idle,
    /// A fetch was started and has not reported back.
    Fetching,
}

/// What can happen to the loop.
#[derive(Debug, Clone, PartialEq, Eq)]
pub enum PollEvent {
    /// The interval timer fired.
    Tick,
    /// The fetch came back with these segments.
    Fetched(Vec<MatchSegment>),
    /// The fetch failed.
    Failed(FeedError),
}

/// What the caller of the loop has to do next.
#[derive(Debug, Clone, PartialEq, Eq)]
pub enum PollAction {
    /// Nothing.
    Wait,
    /// Start a fetch of the score feed and hand its result back.
    Fetch,
    /// Show the new display summary, which is carried here.
    Publish(String),
    /// Report the fetch error with this message and carry on.
    Report(String),
}

/// The polling loop: its state and the one display summary. There is no
/// terminal state.
#[derive(Debug, Clone, PartialEq, Eq)]
pub struct PollLoop {
    pub state: PollState,
    pub summary: String,
}

/// The mathematical content of a [`PollLoop`].
pub struct PollView {
    pub state: PollState,
    pub summary: Seq<char>,
}

/// The mathematical content of a [`PollEvent`].
pub enum EventView {
    Tick,
    Fetched(Seq<SegmentView>),
    Failed(Seq<char>),
}

/// The mathematical content of a [`PollAction`].
pub enum ActionView {
    Wait,
    Fetch,
    Publish(Seq<char>),
    Report(Seq<char>),
}

impl View for PollLoop {
    type V = PollView;

    open spec fn view(&self) -> PollView {
        PollView { state: self.state, summary: self.summary@ }
    }
}

impl View for PollEvent {
    type V = EventView;

    open spec fn view(&self) -> EventView {
        match self {
            PollEvent::Tick => EventView::Tick,
            PollEvent::Fetched(segments) => EventView::Fetched(segment_views(segments@)),
            PollEvent::Failed(error) => EventView::Failed(error.detail()),
        }
    }
}

impl View for PollAction {
    type V = ActionView;

    open spec fn view(&self) -> ActionView {
        match self {
            PollAction::Wait => ActionView::Wait,
            PollAction::Fetch => ActionView::Fetch,
            PollAction::Publish(text) => ActionView::Publish(text@),
            PollAction::Report(message) => ActionView::Report(message@),
        }
    }
}

/// The loop after an event.
///
/// A tick starts a fetch only while the loop is idle. A fetch that comes back
/// ends the fetch in flight; its first segment, if it has one, replaces the
/// display summary. A failed fetch ends the fetch in flight and leaves the
/// summary as it was.
pub open spec fn next_loop(before: PollView, event: EventView) -> PollView {
    match event {
        EventView::Tick => PollView { state: PollState::Fetching, summary: before.summary },
        EventView::Fetched(segments) => PollView {
            state: PollState::Idle,
            summary: if segments.len() > 0 {
                summary_text(segments[0])
            } else {
                before.summary
            },
        },
        EventView::Failed(_) => PollView { state: PollState::Idle, summary: before.summary },
    }
}

/// What the caller is asked to do after an event.
pub open spec fn next_action(before: PollView, event: EventView) -> ActionView {
    match event {
        EventView::Tick => if before.state == PollState::Idle {
            ActionView::Fetch
        } else {
            ActionView::Wait
        },
        EventView::Fetched(segments) => if segments.len() > 0 {
            ActionView::Publish(summary_text(segments[0]))
        } else {
            ActionView::Wait
        },
        EventView::Failed(detail) => ActionView::Report(detail),
    }
}

/// The text of the tray's tooltip for a display summary.
pub open spec fn tooltip_text(summary: Seq<char>) -> Seq<char> {
    TOOLTIP_PREFIX@ + summary
}

/// Builds the tray's tooltip for a display summary.
pub fn tray_tooltip(summary: &str) -> (r: String)
    ensures
        r@ == tooltip_text(summary@),
{
    let mut text = TOOLTIP_PREFIX.to_owned();
    text.append(summary);
    text
}

impl PollLoop {
    /// An idle loop that shows the loading notice.
    pub fn new() -> (r: PollLoop)
        ensures
            r@ == (PollView { state: PollState::Idle, summary: LOADING@ }),
    {
        PollLoop { state: PollState::Idle, summary: LOADING.to_owned() }
    }

    /// Takes one event and says what to do next.
    pub fn step(&mut self, event: PollEvent) -> (action: PollAction)
        ensures
            final(self)@ == next_loop(old(self)@, event@),
            action@ == next_action(old(self)@, event@),
    {
        match event {
            PollEvent::Tick => {
                let idle = self.state == PollState::Idle;
                self.state = PollState::Fetching;
                if idle {
                    PollAction::Fetch
                } else {
                    PollAction::Wait
                }
            },
            PollEvent::Fetched(segments) => {
                self.state = PollState::Idle;
                if segments.len() > 0 {
                    let text = format_match_text(&segments[0]);
                    self.summary = text.clone();
                    PollAction::Publish(text)
                } else {
                    PollAction::Wait
                }
            },
            PollEvent::Failed(error) => {
                self.state = PollState::Idle;
                PollAction::Report(error.message())
            },
        }
    }
}

/// A fetch that returns no segments leaves the display summary untouched.
pub proof fn lemma_empty_fetch_keeps_summary(before: PollView)
    ensures
        next_loop(before, EventView::Fetched(Seq::empty())).summary == before.summary,
        next_action(before, EventView::Fetched(Seq::empty())) == ActionView::Wait,
{
}

/// A failed fetch leaves the display summary untouched and the loop idle,
/// ready for the next tick: stale data is kept, and the loop goes on.
pub proof fn lemma_failure_keeps_summary(before: PollView, detail: Seq<char>)
    ensures
        next_loop(before, EventView::Failed(detail)).summary == before.summary,
        next_loop(before, EventView::Failed(detail)).state == PollState::Idle,
        next_action(
            next_loop(before, EventView::Failed(detail)),
            EventView::Tick,
        ) == ActionView::Fetch,
{
}

/// While a fetch is in flight, further ticks start no second one.
pub proof fn lemma_one_fetch_at_a_time(before: PollView)
    ensures
        next_action(next_loop(before, EventView::Tick), EventView::Tick) == ActionView::Wait,
{
}

} // verus!
