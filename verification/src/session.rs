//! The course of a run: which prompt is sent when, what is printed for each
//! answer, and when the run ends.
//!
//! A session does no input or output. It is told what happened and says
//! what to do next; whoever drives it prints the text, asks the completion
//! service with the prompt, and reports the answer back.

use crate::batch::{
    batch, batch_count, batch_items, batch_total, ceil_div, ceil_div_is_least,
};
use crate::decimal::{decimal, decimal_string};
use crate::event::{event_views, line_break, DiffEvent, DiffEventView};
use crate::prompt::{assemble_prompt, prompt_text};
use crate::report::{report, report_text};
use crate::response::{json_decoded, read_reply, reply_of, DecodeError};
use vstd::prelude::*;

verus! {

/// Number of events to a prompt.
pub const CHUNK_SIZE: usize = 2;

/// Number of prompts that a run sends at most, so as to stay within the
/// service's limit on requests per minute.
pub const MAX_BATCHES: usize = 3;

/// How far a run has come.
#[derive(Debug, Clone, Copy, PartialEq, Eq, Structural)]
pub enum Phase {
    /// Nothing has been sent yet.
    Fresh,
    /// The prompt of the batch with this index has been sent, and its answer
    /// is awaited.
    Waiting(usize),
    /// The run is over.
    Done,
}

/// What happened outside.
#[derive(Debug, PartialEq, Eq)]
pub enum Event {
    /// The run begins.
    Begin,
    /// The service answered with this body.
    Answered(String),
    /// The request failed before a body arrived.
    Failed,
}

/// What an [`Event`] is.
pub enum EventView {
    Begin,
    Answered(Seq<char>),
    Failed,
}

impl View for Event {
    type V = EventView;

    open spec fn view(&self) -> EventView {
        match self {
            Event::Begin => EventView::Begin,
            Event::Answered(body) => EventView::Answered(body@),
            Event::Failed => EventView::Failed,
        }
    }
}

/// Why a run was given up.
#[derive(Debug)]
pub enum RunError {
    /// The request failed.
    Transport,
    /// The answer's body was no JSON document.
    Undecodable(DecodeError),
    /// The event does not fit the phase the run is in.
    OutOfTurn,
}

/// What a [`RunError`] is.
pub enum Failure {
    Transport,
    Undecodable(serde_json::Error),
    OutOfTurn,
}

impl View for RunError {
    type V = Failure;

    open spec fn view(&self) -> Failure {
        match self {
            RunError::Transport => Failure::Transport,
            RunError::Undecodable(error) => Failure::Undecodable(error.cause),
            RunError::OutOfTurn => Failure::OutOfTurn,
        }
    }
}

/// What is to be done next.
#[derive(Debug)]
pub enum Action {
    /// Print the text, then ask the service with the prompt.
    Send { print: String, prompt: String },
    /// Print the text; the run has ended.
    Finish { print: String },
    /// Give the run up with this error.
    Abort(RunError),
}

/// What an [`Action`] is.
pub enum ActionView {
    Send { print: Seq<char>, prompt: Seq<char> },
    Finish { print: Seq<char> },
    Abort(Failure),
}

impl View for Action {
    type V = ActionView;

    open spec fn view(&self) -> ActionView {
        match self {
            Action::Send { print, prompt } => ActionView::Send { print: print@, prompt: prompt@ },
            Action::Finish { print } => ActionView::Finish { print: print@ },
            Action::Abort(error) => ActionView::Abort(error@),
        }
    }
}

/// A run over a list of events.
pub struct Session {
    events: Vec<DiffEvent>,
    chunk_size: usize,
    max_batches: usize,
    phase: Phase,
}

/// What a [`Session`] is.
pub struct SessionView {
    pub events: Seq<DiffEventView>,
    pub chunk_size: nat,
    pub max_batches: nat,
    pub phase: Phase,
}

impl SessionView {
    /// The number of prompts that the run sends in all.
    pub open spec fn total(self) -> nat {
        batch_total(self.events.len(), self.chunk_size, self.max_batches)
    }

    /// The events of the batch with the given index.
    pub open spec fn batch(self, index: nat) -> Seq<DiffEventView> {
        batch_items(self.events, self.chunk_size, index)
    }

    /// The session in another phase.
    pub open spec fn at(self, phase: Phase) -> SessionView {
        SessionView { phase, ..self }
    }

    /// Goes on to the batch with the given index, having `print` to show:
    /// its prompt is sent, or, where there is no such batch, the run ends.
    pub open spec fn proceed(self, index: nat, print: Seq<char>) -> (SessionView, ActionView) {
        if index < self.total() {
            (
                self.at(Phase::Waiting(index as usize)),
                ActionView::Send { print, prompt: prompt_text(self.batch(index)) },
            )
        } else {
            (self.at(Phase::Done), ActionView::Finish { print })
        }
    }

    /// The phase that follows on an event, and what is to be done.
    ///
    /// At its begin the run shows how many events there are. An answer is
    /// shown by its report, also where it holds no generated text. A request
    /// that failed, a body that is no JSON document, and an event out of
    /// turn end the run.
    pub open spec fn step(self, event: EventView) -> (SessionView, ActionView) {
        match (self.phase, event) {
            (Phase::Fresh, EventView::Begin) => self.proceed(0, banner_text(self.events.len())),
            (Phase::Waiting(index), EventView::Answered(body)) => match json_decoded(body) {
                Ok(value) => self.proceed(
                    (index + 1) as nat,
                    report_text(reply_of(value), self.batch(index as nat)),
                ),
                Err(cause) => (
                    self.at(Phase::Done),
                    ActionView::Abort(Failure::Undecodable(cause)),
                ),
            },
            (Phase::Waiting(_), EventView::Failed) => (
                self.at(Phase::Done),
                ActionView::Abort(Failure::Transport),
            ),
            _ => (self.at(Phase::Done), ActionView::Abort(Failure::OutOfTurn)),
        }
    }
}

/// A prompt is sent only for a batch that there is: its index is below the
/// limit on the number of batches, and it starts inside the list.
pub proof fn sent_batch_is_within_limits(session: SessionView, event: EventView)
    requires
        session.chunk_size > 0,
    ensures
        session.step(event).1 is Send ==> (session.step(event).0.phase matches Phase::Waiting(
            index,
        ) && index < session.max_batches && index * session.chunk_size
            < session.events.len()),
{
    let (next, action) = session.step(event);
    if action is Send {
        match next.phase {
            Phase::Waiting(index) => {
                ceil_div_is_least(session.events.len(), session.chunk_size, index as nat);
            },
            _ => {},
        }
    }
}

/// An answer that decodes never ends the run with an error, whether or not
/// it holds a generated text: its report is printed, and the run goes on to
/// the next batch where there is one.
pub proof fn decoded_answer_goes_on(session: SessionView, index: usize, body: Seq<char>)
    requires
        session.phase == Phase::Waiting(index),
        json_decoded(body) is Ok,
    ensures
        session.step(EventView::Answered(body)) == session.proceed(
            (index + 1) as nat,
            report_text(reply_of(json_decoded(body).unwrap()), session.batch(index as nat)),
        ),
        !(session.step(EventView::Answered(body)).1 is Abort),
        index + 1 < session.total() ==> session.step(EventView::Answered(body)).1 is Send,
{
}

/// Once a run is over, it stays so.
pub proof fn done_stays_done(session: SessionView, event: EventView)
    requires
        session.phase == Phase::Done,
    ensures
        session.step(event).0.phase == Phase::Done,
        session.step(event).1 == ActionView::Abort(Failure::OutOfTurn),
{
}

/// The line that a run begins with: the number of events.
pub open spec fn banner_text(len: nat) -> Seq<char> {
    "diff_events len: "@ + decimal(len) + line_break()
}

/// Writes the line that a run begins with.
pub fn banner(len: usize) -> (text: String)
    ensures
        text@ == banner_text(len as nat),
{
    let mut text = "diff_events len: ".to_owned();
    let count = decimal_string(len as u64);
    text.append(count.as_str());
    text.append("\n");
    proof {
        reveal_strlit("\n");
        assert("\n"@ =~= line_break());
    }
    text
}

/// The views of a batch are the batch of the views.
proof fn views_of_batch(events: Seq<DiffEvent>, chunk: nat, index: nat)
    requires
        chunk > 0,
        index < ceil_div(events.len(), chunk),
    ensures
        event_views(batch_items(events, chunk, index)) == batch_items(
            event_views(events),
            chunk,
            index,
        ),
{
    ceil_div_is_least(events.len(), chunk, index);
    assert((index + 1) * chunk == index * chunk + chunk) by (nonlinear_arith);
    assert(event_views(batch_items(events, chunk, index)) =~= batch_items(
        event_views(events),
        chunk,
        index,
    ));
}

impl View for Session {
    type V = SessionView;

    closed spec fn view(&self) -> SessionView {
        SessionView {
            events: event_views(self.events@),
            chunk_size: self.chunk_size as nat,
            max_batches: self.max_batches as nat,
            phase: self.phase,
        }
    }
}

impl Session {
    /// Batches are not empty, and an awaited answer belongs to a batch that
    /// there is.
    #[verifier::type_invariant]
    spec fn well_formed(&self) -> bool {
        &&& self.chunk_size > 0
        &&& match self.phase {
            Phase::Waiting(index) => index < self@.total(),
            _ => true,
        }
    }

    /// Makes a fresh run over `events`, with `chunk_size` events to a prompt
    /// and no more than `max_batches` prompts.
    pub fn new(events: Vec<DiffEvent>, chunk_size: usize, max_batches: usize) -> (session: Session)
        requires
            chunk_size > 0,
        ensures
            session@ == (SessionView {
                events: event_views(events@),
                chunk_size: chunk_size as nat,
                max_batches: max_batches as nat,
                phase: Phase::Fresh,
            }),
    {
        Session { events, chunk_size, max_batches, phase: Phase::Fresh }
    }

    /// The phase the run is in.
    pub fn phase(&self) -> (phase: Phase)
        ensures
            phase == self@.phase,
            phase matches Phase::Waiting(index) ==> index < self@.total(),
    {
        proof {
            use_type_invariant(self);
        }
        self.phase
    }

    /// The number of prompts that the run sends in all.
    pub fn total(&self) -> (total: usize)
        ensures
            total == self@.total(),
    {
        proof {
            use_type_invariant(self);
        }
        batch_count(self.events.len(), self.chunk_size, self.max_batches)
    }

    /// Goes on to the batch with the given index.
    fn proceed(&mut self, index: usize, print: String) -> (action: Action)
        requires
            index <= old(self)@.total(),
        ensures
            (final(self)@, action@) == old(self)@.proceed(index as nat, print@),
    {
        proof {
            use_type_invariant(&*self);
            ceil_div_is_least(
                self.events@.len() as nat,
                self.chunk_size as nat,
                index as nat,
            );
        }
        let total = batch_count(self.events.len(), self.chunk_size, self.max_batches);
        if index < total {
            let group = batch(self.events.as_slice(), self.chunk_size, index).unwrap();
            let prompt = assemble_prompt(group);
            proof {
                views_of_batch(self.events@, self.chunk_size as nat, index as nat);
            }
            self.phase = Phase::Waiting(index);
            Action::Send { print, prompt }
        } else {
            self.phase = Phase::Done;
            Action::Finish { print }
        }
    }

    /// Takes in what happened and says what is to be done next.
    pub fn step(&mut self, event: Event) -> (action: Action)
        ensures
            (final(self)@, action@) == old(self)@.step(event@),
    {
        proof {
            use_type_invariant(&*self);
        }
        match (self.phase, event) {
            (Phase::Fresh, Event::Begin) => {
                let print = banner(self.events.len());
                self.proceed(0, print)
            },
            (Phase::Waiting(index), Event::Answered(body)) => {
                match read_reply(body.as_str()) {
                    Ok(reply) => {
                        let group = batch(self.events.as_slice(), self.chunk_size, index).unwrap();
                        proof {
                            views_of_batch(self.events@, self.chunk_size as nat, index as nat);
                        }
                        let print = report(&reply, group);
                        self.proceed(index + 1, print)
                    },
                    Err(cause) => {
                        self.phase = Phase::Done;
                        Action::Abort(RunError::Undecodable(cause))
                    },
                }
            },
            (Phase::Waiting(_), Event::Failed) => {
                self.phase = Phase::Done;
                Action::Abort(RunError::Transport)
            },
            _ => {
                self.phase = Phase::Done;
                Action::Abort(RunError::OutOfTurn)
            },
        }
    }
}

} // verus!
