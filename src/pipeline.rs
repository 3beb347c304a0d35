//! The capture-and-forward loop as a state machine.
//!
//! The caller owns the devices. It asks the pipeline which action comes next,
//! carries it out (poll the input, read a batch, show and forward one event,
//! sleep), and hands back what came of it. Events read are dispatched onto
//! the channel in batch order and delivered from it one at a time.
use vstd::prelude::*;

use crate::channel::EventChannel;
use crate::message::{MidiEvent, MidiMessage};
use crate::startup::BUFFER_SIZE;

verus! {

/// Milliseconds between two polls of the input.
pub const POLL_INTERVAL_MS: u64 = 10;

/// The fixed parameters of a run.
#[derive(Clone, Copy, Debug, PartialEq, Eq, Structural)]
pub struct PipelineConfig {
    pub poll_interval_ms: u64,
    pub batch_size: usize,
    /// Each delivered event is shown on the console.
    pub monitor: bool,
    /// An output port is open and each delivered message is written to it.
    pub forward: bool,
}

impl PipelineConfig {
    pub fn new(monitor: bool, forward: bool) -> (r: Self)
        ensures
            r == (PipelineConfig {
                poll_interval_ms: POLL_INTERVAL_MS,
                batch_size: BUFFER_SIZE,
                monitor,
                forward,
            }),
    {
        PipelineConfig { poll_interval_ms: POLL_INTERVAL_MS, batch_size: BUFFER_SIZE, monitor, forward }
    }
}

/// Why a run ended.
#[derive(Clone, Copy, Debug, PartialEq, Eq, Structural)]
pub enum StopReason {
    /// Asking the input whether data is pending failed.
    InputFailed,
    /// Writing to the output failed.
    OutputFailed,
}

/// Where the pipeline stands: which outcome it waits for.
#[derive(Clone, Copy, Debug, PartialEq, Eq, Structural)]
pub enum Phase {
    Polling,
    Reading,
    Delivering(MidiEvent),
    Sleeping,
    Stopped(StopReason),
}

/// One event handed to the consumer side: shown when `show` holds, and
/// written to the output when `write` holds a message.
#[derive(Clone, Copy, Debug, PartialEq, Eq, Structural)]
pub struct Delivery {
    pub event: MidiEvent,
    pub show: bool,
    pub write: Option<MidiMessage>,
}

/// What the caller is to do next.
#[derive(Clone, Copy, Debug, PartialEq, Eq, Structural)]
pub enum Action {
    /// Ask the input whether data is pending.
    Poll,
    /// Read at most this many events from the input.
    Read(usize),
    /// Show and forward one event, as the delivery says.
    Deliver(Delivery),
    /// Sleep this many milliseconds.
    Sleep(u64),
    /// The run is over.
    Halt(StopReason),
}

/// What came of an action.
#[derive(Debug)]
pub enum Outcome {
    /// The poll answered: data pending or not.
    Polled(bool),
    /// The poll failed.
    PollFailed,
    /// The read returned a batch, or nothing.
    Read(Option<Vec<MidiEvent>>),
    /// The read failed.
    ReadFailed,
    /// The event was shown and written as asked.
    Delivered,
    /// Writing the message failed.
    WriteFailed,
    /// The sleep is over.
    Slept,
}

/// The pipeline as a value: its parameters, its phase, and the events on
/// its channel.
pub struct PipelineView {
    pub config: PipelineConfig,
    pub phase: Phase,
    pub queue: Seq<MidiEvent>,
}

/// How an event is handed out under a configuration.
pub open spec fn delivery_of(config: PipelineConfig, e: MidiEvent) -> Delivery {
    Delivery {
        event: e,
        show: config.monitor,
        write: if config.forward {
            Some(e.message)
        } else {
            None
        },
    }
}

/// The action that a phase waits on.
pub open spec fn awaited(config: PipelineConfig, phase: Phase) -> Action {
    match phase {
        Phase::Polling => Action::Poll,
        Phase::Reading => Action::Read(config.batch_size),
        Phase::Delivering(e) => Action::Deliver(delivery_of(config, e)),
        Phase::Sleeping => Action::Sleep(config.poll_interval_ms),
        Phase::Stopped(why) => Action::Halt(why),
    }
}

/// Hand out the oldest event on the channel, or sleep when it is empty.
pub open spec fn deliver_next(config: PipelineConfig, queue: Seq<MidiEvent>) -> (
    PipelineView,
    Action,
) {
    let phase = if queue.len() > 0 {
        Phase::Delivering(queue[0])
    } else {
        Phase::Sleeping
    };
    let rest = if queue.len() > 0 {
        queue.drop_first()
    } else {
        queue
    };
    (PipelineView { config, phase, queue: rest }, awaited(config, phase))
}

pub open spec fn enter(s: PipelineView, phase: Phase) -> (PipelineView, Action) {
    (PipelineView { config: s.config, phase, queue: s.queue }, awaited(s.config, phase))
}

/// One step: the next state and the next action, given the outcome of the
/// action awaited. An outcome that does not answer the awaited action
/// changes nothing, and the action is asked for again.
pub open spec fn transition(s: PipelineView, o: Outcome) -> (PipelineView, Action) {
    match (s.phase, o) {
        (Phase::Polling, Outcome::Polled(true)) => enter(s, Phase::Reading),
        (Phase::Polling, Outcome::Polled(false)) => enter(s, Phase::Sleeping),
        (Phase::Polling, Outcome::PollFailed) => enter(s, Phase::Stopped(StopReason::InputFailed)),
        (Phase::Reading, Outcome::Read(Some(batch))) => deliver_next(s.config, s.queue + batch@),
        (Phase::Reading, Outcome::Read(None)) => deliver_next(s.config, s.queue),
        (Phase::Reading, Outcome::ReadFailed) => deliver_next(s.config, s.queue),
        (Phase::Delivering(_), Outcome::Delivered) => deliver_next(s.config, s.queue),
        (Phase::Delivering(_), Outcome::WriteFailed) => enter(
            s,
            Phase::Stopped(StopReason::OutputFailed),
        ),
        (Phase::Sleeping, Outcome::Slept) => enter(s, Phase::Polling),
        _ => (s, awaited(s.config, s.phase)),
    }
}

/// The actions asked for along a sequence of outcomes.
pub open spec fn run(s: PipelineView, outcomes: Seq<Outcome>) -> Seq<Action>
    decreases outcomes.len(),
{
    if outcomes.len() == 0 {
        Seq::empty()
    } else {
        let (next, a) = transition(s, outcomes[0]);
        seq![a] + run(next, outcomes.drop_first())
    }
}

/// The capture-and-forward pipeline.
pub struct Pipeline {
    config: PipelineConfig,
    phase: Phase,
    channel: EventChannel,
}

impl View for Pipeline {
    type V = PipelineView;

    closed spec fn view(&self) -> PipelineView {
        PipelineView { config: self.config, phase: self.phase, queue: self.channel@ }
    }
}

impl Pipeline {
    /// A pipeline about to poll, with an empty channel.
    pub fn new(config: PipelineConfig) -> (r: Self)
        ensures
            r@ == (PipelineView { config, phase: Phase::Polling, queue: Seq::empty() }),
    {
        Pipeline { config, phase: Phase::Polling, channel: EventChannel::new() }
    }

    pub fn config(&self) -> (r: PipelineConfig)
        ensures
            r == self@.config,
    {
        self.config
    }

    pub fn phase(&self) -> (r: Phase)
        ensures
            r == self@.phase,
    {
        self.phase
    }

    /// The number of events dispatched and not yet delivered.
    pub fn pending(&self) -> (r: usize)
        ensures
            r == self@.queue.len(),
    {
        self.channel.len()
    }

    /// The action the pipeline waits on.
    pub fn action(&self) -> (r: Action)
        ensures
            r == awaited(self@.config, self@.phase),
    {
        self.awaited_action()
    }

    fn awaited_action(&self) -> (r: Action)
        ensures
            r == awaited(self.config, self.phase),
    {
        match self.phase {
            Phase::Polling => Action::Poll,
            Phase::Reading => Action::Read(self.config.batch_size),
            Phase::Delivering(e) => Action::Deliver(
                Delivery {
                    event: e,
                    show: self.config.monitor,
                    write: if self.config.forward {
                        Some(e.message)
                    } else {
                        None
                    },
                },
            ),
            Phase::Sleeping => Action::Sleep(self.config.poll_interval_ms),
            Phase::Stopped(why) => Action::Halt(why),
        }
    }

    fn enter(&mut self, phase: Phase) -> (r: Action)
        ensures
            (final(self)@, r) == enter(old(self)@, phase),
    {
        self.phase = phase;
        self.awaited_action()
    }

    fn deliver_next(&mut self) -> (r: Action)
        ensures
            (final(self)@, r) == deliver_next(old(self)@.config, old(self)@.queue),
    {
        match self.channel.recv() {
            Some(e) => self.enter(Phase::Delivering(e)),
            None => self.enter(Phase::Sleeping),
        }
    }

    /// Takes the outcome of the awaited action and says what to do next.
    pub fn handle(&mut self, o: Outcome) -> (r: Action)
        ensures
            (final(self)@, r) == transition(old(self)@, o),
    {
        match (self.phase, o) {
            (Phase::Polling, Outcome::Polled(true)) => self.enter(Phase::Reading),
            (Phase::Polling, Outcome::Polled(false)) => self.enter(Phase::Sleeping),
            (Phase::Polling, Outcome::PollFailed) => self.enter(
                Phase::Stopped(StopReason::InputFailed),
            ),
            (Phase::Reading, Outcome::Read(Some(batch))) => {
                self.channel.dispatch(batch);
                self.deliver_next()
            },
            (Phase::Reading, Outcome::Read(None)) => self.deliver_next(),
            (Phase::Reading, Outcome::ReadFailed) => self.deliver_next(),
            (Phase::Delivering(_), Outcome::Delivered) => self.deliver_next(),
            (Phase::Delivering(_), Outcome::WriteFailed) => self.enter(
                Phase::Stopped(StopReason::OutputFailed),
            ),
            (Phase::Sleeping, Outcome::Slept) => self.enter(Phase::Polling),
            _ => self.awaited_action(),
        }
    }
}

} // verus!
