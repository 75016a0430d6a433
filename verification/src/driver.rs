//! The operation sequencer. Every operation of the supply is a short
//! exchange with the transport: commands to write and, for queries, a line
//! to read. The sequencer decides each next step from what the transport
//! reported of the last one; whoever owns the transport carries the steps
//! out.

use vstd::prelude::*;
use crate::command::Command;
use crate::error::Error;
use crate::vocab::{Channel, State};

verus! {

pub const MANUFACTURER: &'static str = "Keithley Instruments";

pub const MODEL: &'static str = "2230";

/// What the transport reported of the step it was asked to carry out.
#[derive(Debug, PartialEq)]
pub enum Event<E> {
    /// The command was written.
    Written,
    /// A line was read.
    Line(String),
    /// The write or read failed.
    Failed(E),
}

/// What an operation hands back when it is done.
#[derive(Debug, PartialEq)]
pub enum Reply {
    /// Nothing: the operation only wrote.
    Done,
    /// The channel that the supply has selected.
    Selected(Channel),
    /// The response line of one "query all" round trip.
    Reading(String),
    /// The response lines of the three round trips of a full measurement.
    Readings { voltage: String, current: String, power: String },
}

/// The next step of an operation.
#[derive(Debug, PartialEq)]
pub enum Action<E> {
    /// Write this command, then report `Written` or `Failed`.
    Write(Command),
    /// Read one line, then report `Line` or `Failed`.
    Read,
    /// The operation is done.
    Finish(Reply),
    /// The operation is given up with this error. Nothing is retried and
    /// nothing is rolled back.
    Fail(Error<E>),
}

/// What the sequencer waits to hear of.
#[derive(Clone, Copy, Debug, PartialEq, Eq, Structural)]
pub enum Pending {
    /// No operation is under way.
    Nothing,
    /// A command was handed out to be written.
    Write,
    /// A line is to be read.
    Line,
}

/// Where an operation stands.
#[derive(Debug)]
pub enum Task {
    /// No operation is under way.
    Idle,
    /// The last command of an operation is being written.
    Closing,
    /// The channel query is being written.
    AskChannel,
    /// The answer to the channel query is awaited.
    HearChannel,
    /// A "query all" command is being written.
    AskReading,
    /// The answer to a "query all" command is awaited.
    HearReading,
    /// Scoped toggle: the channel query is being written.
    ScopedAsk { target: Channel, state: State },
    /// Scoped toggle: the selected channel is awaited.
    ScopedHear { target: Channel, state: State },
    /// Scoped toggle: the selection of the target is being written.
    ScopedSelect { previous: Channel, state: State },
    /// Scoped toggle: the toggle is being written.
    ScopedToggle { previous: Channel },
    /// Full measurement: the voltage query is being written.
    AskVoltage,
    /// Full measurement: the voltages are awaited.
    HearVoltage,
    /// Full measurement: the current query is being written.
    AskCurrent { voltage: String },
    /// Full measurement: the currents are awaited.
    HearCurrent { voltage: String },
    /// Full measurement: the power query is being written.
    AskPower { voltage: String, current: String },
    /// Full measurement: the powers are awaited.
    HearPower { voltage: String, current: String },
}

impl Task {
    /// What the task waits to hear of.
    pub open spec fn pending(self) -> Pending {
        match self {
            Task::Idle => Pending::Nothing,
            Task::HearChannel | Task::HearReading | Task::ScopedHear { .. } | Task::HearVoltage
            | Task::HearCurrent { .. } | Task::HearPower { .. } => Pending::Line,
            _ => Pending::Write,
        }
    }

    /// How many steps the operation still has before it, at most.
    pub open spec fn steps_left(self) -> nat {
        match self {
            Task::Idle => 0,
            Task::Closing | Task::HearChannel | Task::HearReading | Task::HearPower { .. } => 1,
            Task::AskChannel | Task::AskReading | Task::ScopedToggle { .. } | Task::AskPower {
                ..
            } => 2,
            Task::ScopedSelect { .. } | Task::HearCurrent { .. } => 3,
            Task::ScopedHear { .. } | Task::AskCurrent { .. } => 4,
            Task::ScopedAsk { .. } | Task::HearVoltage => 5,
            Task::AskVoltage => 6,
        }
    }

    /// Whether `event` answers what the task waits for. A failure answers
    /// either kind of step.
    pub open spec fn accepts<E>(self, event: Event<E>) -> bool {
        match event {
            Event::Written => self.pending() == Pending::Write,
            Event::Line(_) => self.pending() == Pending::Line,
            Event::Failed(_) => self.pending() != Pending::Nothing,
        }
    }

    /// The task and the step that follow when the transport reports
    /// `event`, where the task accepts it. A failure ends any operation at
    /// once with the transport's error; an answer to the channel query that
    /// names no channel ends it with a decode error.
    pub open spec fn next<E>(self, event: Event<E>) -> (Task, Action<E>)
        recommends
            self.accepts(event),
    {
        match (self, event) {
            (_, Event::Failed(e)) => (Task::Idle, Action::Fail(Error::VisaApiError(e))),
            (Task::Closing, Event::Written) => (Task::Idle, Action::Finish(Reply::Done)),
            (Task::AskChannel, Event::Written) => (Task::HearChannel, Action::Read),
            (Task::HearChannel, Event::Line(line)) => match Channel::decode(line@) {
                Some(channel) => (Task::Idle, Action::Finish(Reply::Selected(channel))),
                None => (Task::Idle, Action::Fail(Error::StrumParseError())),
            },
            (Task::AskReading, Event::Written) => (Task::HearReading, Action::Read),
            (Task::HearReading, Event::Line(line)) => (
                Task::Idle,
                Action::Finish(Reply::Reading(line)),
            ),
            (Task::ScopedAsk { target, state }, Event::Written) => (
                Task::ScopedHear { target, state },
                Action::Read,
            ),
            (Task::ScopedHear { target, state }, Event::Line(line)) => match Channel::decode(
                line@,
            ) {
                Some(previous) => (
                    Task::ScopedSelect { previous, state },
                    Action::Write(Command::Select(target)),
                ),
                None => (Task::Idle, Action::Fail(Error::StrumParseError())),
            },
            (Task::ScopedSelect { previous, state }, Event::Written) => (
                Task::ScopedToggle { previous },
                Action::Write(Command::ChannelOutput(state)),
            ),
            (Task::ScopedToggle { previous }, Event::Written) => (
                Task::Closing,
                Action::Write(Command::Select(previous)),
            ),
            (Task::AskVoltage, Event::Written) => (Task::HearVoltage, Action::Read),
            (Task::HearVoltage, Event::Line(voltage)) => (
                Task::AskCurrent { voltage },
                Action::Write(Command::FetchCurrent),
            ),
            (Task::AskCurrent { voltage }, Event::Written) => (
                Task::HearCurrent { voltage },
                Action::Read,
            ),
            (Task::HearCurrent { voltage }, Event::Line(current)) => (
                Task::AskPower { voltage, current },
                Action::Write(Command::FetchPower),
            ),
            (Task::AskPower { voltage, current }, Event::Written) => (
                Task::HearPower { voltage, current },
                Action::Read,
            ),
            (Task::HearPower { voltage, current }, Event::Line(power)) => (
                Task::Idle,
                Action::Finish(Reply::Readings { voltage, current, power }),
            ),
            // an event that the task does not accept
            _ => arbitrary(),
        }
    }
}


/// The driver of one supply: the session it talks through, which it owns
/// and never looks into, and the operation that is under way.
pub struct Keithley2230<S> {
    pub inner: S,
    task: Task,
}

impl<S> Keithley2230<S> {
    /// Where the operation under way stands.
    pub closed spec fn task(&self) -> Task {
        self.task
    }

    /// The session that the driver owns.
    pub closed spec fn session(&self) -> S {
        self.inner
    }

    /// A driver for the session that the lookup gave, with no operation
    /// under way. Without a session there is no driver.
    pub fn new<E>(session: Option<S>) -> (made: Result<Self, Error<E>>)
        ensures
            match made {
                Ok(driver) => session == Some(driver.session()) && driver.task() == Task::Idle,
                Err(e) => session is None && e is NoInstrumentFound,
            },
    {
        match session {
            Some(inner) => Ok(Keithley2230 { inner, task: Task::Idle }),
            None => Err(Error::NoInstrumentFound()),
        }
    }

    /// What the driver waits to hear of.
    pub fn pending(&self) -> (pending: Pending)
        ensures
            pending == self.task().pending(),
    {
        match &self.task {
            Task::Idle => Pending::Nothing,
            Task::HearChannel => Pending::Line,
            Task::HearReading => Pending::Line,
            Task::ScopedHear { .. } => Pending::Line,
            Task::HearVoltage => Pending::Line,
            Task::HearCurrent { .. } => Pending::Line,
            Task::HearPower { .. } => Pending::Line,
            _ => Pending::Write,
        }
    }

    /// Starts an operation that is one command and nothing more.
    fn send(&mut self, command: Command) -> (first: Command)
        ensures
            first == command,
            final(self).task() == Task::Closing,
            final(self).session() == old(self).session(),
    {
        self.task = Task::Closing;
        command
    }

    /// Starts setting a channel's voltage and current, given as they are to
    /// stand on the wire. Returns the command to write.
    pub fn set_channel(&mut self, ch: Channel, v: String, i: String) -> (first: Command)
        ensures
            first == (Command::Apply { channel: ch, voltage: v, current: i }),
            final(self).task() == Task::Closing,
            final(self).session() == old(self).session(),
    {
        self.send(Command::Apply { channel: ch, voltage: v, current: i })
    }

    /// Starts switching all outputs. Returns the command to write.
    pub fn enable_output(&mut self, state: State) -> (first: Command)
        ensures
            first == Command::OutputEnable(state),
            final(self).task() == Task::Closing,
            final(self).session() == old(self).session(),
    {
        self.send(Command::OutputEnable(state))
    }

    /// Starts switching the output of one channel, whichever channel is
    /// selected, and leaving the selection as it was found: ask for the
    /// selected channel, select `ch`, switch, select the former channel
    /// again. Returns the first command to write, the channel query.
    pub fn enable_channel(&mut self, ch: Channel, state: State) -> (first: Command)
        ensures
            first == Command::QueryChannel,
            final(self).task() == (Task::ScopedAsk { target: ch, state }),
            final(self).session() == old(self).session(),
    {
        self.task = Task::ScopedAsk { target: ch, state };
        Command::QueryChannel
    }

    /// Starts asking which channel is selected. Returns the command to
    /// write.
    pub fn get_channel(&mut self) -> (first: Command)
        ensures
            first == Command::QueryChannel,
            final(self).task() == Task::AskChannel,
            final(self).session() == old(self).session(),
    {
        self.task = Task::AskChannel;
        Command::QueryChannel
    }

    /// Starts selecting a channel. Returns the command to write.
    pub fn select_channel(&mut self, ch: Channel) -> (first: Command)
        ensures
            first == Command::Select(ch),
            final(self).task() == Task::Closing,
            final(self).session() == old(self).session(),
    {
        self.send(Command::Select(ch))
    }

    /// Starts handing control to the front panel. Returns the command to
    /// write.
    pub fn front_panel_ctrl(&mut self) -> (first: Command)
        ensures
            first == Command::Local,
            final(self).task() == Task::Closing,
            final(self).session() == old(self).session(),
    {
        self.send(Command::Local)
    }

    /// Starts taking remote control. Returns the command to write.
    pub fn remote_ctrl(&mut self) -> (first: Command)
        ensures
            first == Command::Remote,
            final(self).task() == Task::Closing,
            final(self).session() == old(self).session(),
    {
        self.send(Command::Remote)
    }

    /// Starts one "query all" round trip.
    fn ask(&mut self, command: Command) -> (first: Command)
        ensures
            first == command,
            final(self).task() == Task::AskReading,
            final(self).session() == old(self).session(),
    {
        self.task = Task::AskReading;
        command
    }

    /// Starts reading the current of every channel. Returns the command to
    /// write.
    pub fn read_i(&mut self) -> (first: Command)
        ensures
            first == Command::FetchCurrent,
            final(self).task() == Task::AskReading,
            final(self).session() == old(self).session(),
    {
        self.ask(Command::FetchCurrent)
    }

    /// Starts reading the voltage of every channel. Returns the command to
    /// write.
    pub fn read_v(&mut self) -> (first: Command)
        ensures
            first == Command::FetchVoltage,
            final(self).task() == Task::AskReading,
            final(self).session() == old(self).session(),
    {
        self.ask(Command::FetchVoltage)
    }

    /// Starts reading the power of every channel. Returns the command to
    /// write.
    pub fn read_p(&mut self) -> (first: Command)
        ensures
            first == Command::FetchPower,
            final(self).task() == Task::AskReading,
            final(self).session() == old(self).session(),
    {
        self.ask(Command::FetchPower)
    }

    /// Starts a full measurement: voltage, current and power, in three
    /// round trips one after the other. Returns the first command to write.
    pub fn read_all(&mut self) -> (first: Command)
        ensures
            first == Command::FetchVoltage,
            final(self).task() == Task::AskVoltage,
            final(self).session() == old(self).session(),
    {
        self.task = Task::AskVoltage;
        Command::FetchVoltage
    }

    /// Starts setting the parallel coupling of channels 1 and 2. Returns
    /// the command to write.
    pub fn set_paralel(&mut self, state: State) -> (first: Command)
        ensures
            first == Command::Parallel(state),
            final(self).task() == Task::Closing,
            final(self).session() == old(self).session(),
    {
        self.send(Command::Parallel(state))
    }

    /// Starts setting the series coupling. Returns the command to write.
    pub fn set_series(&mut self, state: State) -> (first: Command)
        ensures
            first == Command::Series(state),
            final(self).task() == Task::Closing,
            final(self).session() == old(self).session(),
    {
        self.send(Command::Series(state))
    }

    /// Takes what the transport reported and gives the next step. An event
    /// that does not answer what the driver waits for gives `None` and
    /// changes nothing.
    pub fn step<E>(&mut self, event: Event<E>) -> (action: Option<Action<E>>)
        ensures
            final(self).session() == old(self).session(),
            old(self).task().accepts(event) ==> action == Some(old(self).task().next(event).1)
                && final(self).task() == old(self).task().next(event).0,
            !old(self).task().accepts(event) ==> action is None && final(self).task() == old(
                self,
            ).task(),
    {
        let mut task = Task::Idle;
        std::mem::swap(&mut self.task, &mut task);
        let (next, action) = match (task, event) {
            (Task::Idle, _) => (Task::Idle, None),
            (_, Event::Failed(e)) => (Task::Idle, Some(Action::Fail(Error::VisaApiError(e)))),
            (Task::Closing, Event::Written) => (Task::Idle, Some(Action::Finish(Reply::Done))),
            (Task::AskChannel, Event::Written) => (Task::HearChannel, Some(Action::Read)),
            (Task::HearChannel, Event::Line(line)) => match Channel::from_str::<E>(line.as_str()) {
                Ok(channel) => (Task::Idle, Some(Action::Finish(Reply::Selected(channel)))),
                Err(_) => (Task::Idle, Some(Action::Fail(Error::StrumParseError()))),
            },
            (Task::AskReading, Event::Written) => (Task::HearReading, Some(Action::Read)),
            (Task::HearReading, Event::Line(line)) => (
                Task::Idle,
                Some(Action::Finish(Reply::Reading(line))),
            ),
            (Task::ScopedAsk { target, state }, Event::Written) => (
                Task::ScopedHear { target, state },
                Some(Action::Read),
            ),
            (Task::ScopedHear { target, state }, Event::Line(line)) => match Channel::from_str::<
                E,
            >(line.as_str()) {
                Ok(previous) => (
                    Task::ScopedSelect { previous, state },
                    Some(Action::Write(Command::Select(target))),
                ),
                Err(_) => (Task::Idle, Some(Action::Fail(Error::StrumParseError()))),
            },
            (Task::ScopedSelect { previous, state }, Event::Written) => (
                Task::ScopedToggle { previous },
                Some(Action::Write(Command::ChannelOutput(state))),
            ),
            (Task::ScopedToggle { previous }, Event::Written) => (
                Task::Closing,
                Some(Action::Write(Command::Select(previous))),
            ),
            (Task::AskVoltage, Event::Written) => (Task::HearVoltage, Some(Action::Read)),
            (Task::HearVoltage, Event::Line(voltage)) => (
                Task::AskCurrent { voltage },
                Some(Action::Write(Command::FetchCurrent)),
            ),
            (Task::AskCurrent { voltage }, Event::Written) => (
                Task::HearCurrent { voltage },
                Some(Action::Read),
            ),
            (Task::HearCurrent { voltage }, Event::Line(current)) => (
                Task::AskPower { voltage, current },
                Some(Action::Write(Command::FetchPower)),
            ),
            (Task::AskPower { voltage, current }, Event::Written) => (
                Task::HearPower { voltage, current },
                Some(Action::Read),
            ),
            (Task::HearPower { voltage, current }, Event::Line(power)) => (
                Task::Idle,
                Some(Action::Finish(Reply::Readings { voltage, current, power })),
            ),
            (task, _) => (task, None),
        };
        self.task = next;
        action
    }
}

} // verus!
