//! A model of the state that the supply keeps and the driver cannot see,
//! and what the driver's operations are proved to do to it.

use vstd::prelude::*;
use crate::command::Command;
use crate::driver::{Action, Event, Pending, Reply, Task};
use crate::error::Error;
use crate::vocab::{Channel, State};

verus! {

/// The selected channel and the output state of each channel.
pub struct Device {
    pub selected: Channel,
    pub output1: State,
    pub output2: State,
    pub output3: State,
}

impl Device {
    /// The output state of a channel.
    pub open spec fn output(self, channel: Channel) -> State {
        match channel {
            Channel::CH1 => self.output1,
            Channel::CH2 => self.output2,
            Channel::CH3 => self.output3,
        }
    }

    /// The device with the output of `channel` set to `state`.
    pub open spec fn with_output(self, channel: Channel, state: State) -> Device {
        match channel {
            Channel::CH1 => Device { output1: state, ..self },
            Channel::CH2 => Device { output2: state, ..self },
            Channel::CH3 => Device { output3: state, ..self },
        }
    }

    /// The device after it took a command. Selecting changes the selection;
    /// the channel toggle acts on whichever channel is selected; no other
    /// command touches what this model holds.
    pub open spec fn after(self, command: Command) -> Device {
        match command {
            Command::Select(channel) => Device { selected: channel, ..self },
            Command::ChannelOutput(state) => self.with_output(self.selected, state),
            _ => self,
        }
    }

    /// The device after it took the commands one after the other.
    pub open spec fn after_all(self, commands: Seq<Command>) -> Device
        decreases commands.len(),
    {
        if commands.len() == 0 {
            self
        } else {
            self.after(commands.first()).after_all(commands.drop_first())
        }
    }

    /// The line with which the device answers the channel query.
    pub open spec fn answer(self) -> Seq<char> {
        self.selected.wire()
    }
}

/// The commands that a scoped toggle writes when nothing fails.
pub open spec fn scoped_toggle(previous: Channel, target: Channel, state: State) -> Seq<Command> {
    seq![
        Command::QueryChannel,
        Command::Select(target),
        Command::ChannelOutput(state),
        Command::Select(previous),
    ]
}

/// A scoped toggle leaves the selection as it found it. Started on a device
/// that answers the channel query truthfully, with a transport that never
/// fails, the operation reads once, writes the channel query, the selection
/// of the target, the toggle and the selection of the former channel, in
/// that order, and is done. After these commands the device has the
/// channel selected that it had before, the target's output is in the
/// state asked for, and every other output is as it was; asked again, the
/// device names the channel that it named before.
pub proof fn lemma_scoped_toggle_restores<E>(
    device: Device,
    target: Channel,
    state: State,
    line: String,
    again: String,
)
    requires
        line@ == device.answer(),
        again@ == device.after_all(scoped_toggle(device.selected, target, state)).answer(),
    ensures
        Task::HearChannel.next::<E>(Event::Line(again)) == (
            Task::Idle,
            Action::<E>::Finish(Reply::Selected(device.selected)),
        ),
        ({
            let asked = Task::ScopedAsk { target, state }.next::<E>(Event::Written);
            let heard = asked.0.next::<E>(Event::Line(line));
            let selected = heard.0.next::<E>(Event::Written);
            let toggled = selected.0.next::<E>(Event::Written);
            let restored = toggled.0.next::<E>(Event::Written);
            let end = device.after_all(scoped_toggle(device.selected, target, state));
            &&& asked.1 == Action::<E>::Read
            &&& heard.1 == Action::<E>::Write(Command::Select(target))
            &&& selected.1 == Action::<E>::Write(Command::ChannelOutput(state))
            &&& toggled.1 == Action::<E>::Write(Command::Select(device.selected))
            &&& restored == (Task::Idle, Action::<E>::Finish(Reply::Done))
            &&& end.selected == device.selected
            &&& end.output(target) == state
            &&& forall|other: Channel| other != target ==> end.output(other) == device.output(other)
        }),
{
    crate::vocab::lemma_channel_round_trip(device.selected);
    let commands = scoped_toggle(device.selected, target, state);
    let d1 = device.after(commands[0]);
    let d2 = d1.after(commands[1]);
    let d3 = d2.after(commands[2]);
    let d4 = d3.after(commands[3]);
    let c1 = commands.drop_first();
    let c2 = c1.drop_first();
    let c3 = c2.drop_first();
    let c4 = c3.drop_first();
    assert(c4.len() == 0);
    assert(d3.after_all(c3) == d4) by {
        assert(d4.after_all(c4) == d4);
    }
    assert(d2.after_all(c2) == d4);
    assert(d1.after_all(c1) == d4);
    assert(device.after_all(commands) == d4);
}

/// The channel query reports the channel that the device has selected.
pub proof fn lemma_query_reports_selection<E>(device: Device, line: String)
    requires
        line@ == device.answer(),
    ensures
        Task::AskChannel.next::<E>(Event::Written) == (Task::HearChannel, Action::<E>::Read),
        Task::HearChannel.next::<E>(Event::Line(line)) == (
            Task::Idle,
            Action::<E>::Finish(Reply::Selected(device.selected)),
        ),
{
    crate::vocab::lemma_channel_round_trip(device.selected);
}

/// Every operation ends: each step that is answered brings the end nearer,
/// an operation takes six steps at most, and the driver waits for nothing
/// exactly when no step is left.
pub proof fn lemma_steps_run_out<E>(task: Task, event: Event<E>)
    ensures
        task.steps_left() <= 6,
        task.steps_left() == 0 <==> task.pending() == Pending::Nothing,
        task.accepts(event) ==> task.next(event).0.steps_left() < task.steps_left(),
{
}

/// A scoped toggle whose toggle command cannot be written stops there. The
/// channel query and the selection of the target were written, and nothing
/// else: the operation ends with the transport's error, the driver is idle,
/// and the former channel is never selected again. The device is left with
/// the target selected, whether or not the toggle reached it.
pub proof fn lemma_failed_toggle_stops<E>(
    device: Device,
    target: Channel,
    state: State,
    line: String,
    e: E,
)
    requires
        line@ == device.answer(),
    ensures
        ({
            let asked = Task::ScopedAsk { target, state }.next::<E>(Event::Written);
            let heard = asked.0.next::<E>(Event::Line(line));
            let selected = heard.0.next::<E>(Event::Written);
            let failed = selected.0.next::<E>(Event::Failed(e));
            let reached = device.after(Command::QueryChannel).after(Command::Select(target));
            &&& asked.1 == Action::<E>::Read
            &&& heard.1 == Action::<E>::Write(Command::Select(target))
            &&& selected.1 == Action::<E>::Write(Command::ChannelOutput(state))
            &&& selected.0.accepts(Event::Failed(e))
            &&& failed == (Task::Idle, Action::Fail(Error::VisaApiError(e)))
            &&& forall|event: Event<E>| !failed.0.accepts(event)
            &&& reached.selected == target
            &&& reached.after(Command::ChannelOutput(state)).selected == target
        }),
{
    crate::vocab::lemma_channel_round_trip(device.selected);
}

/// A failure of the transport ends whatever operation is under way: the
/// transport's error is handed on as it came, and the driver is idle, so
/// that no step of the operation follows. In a scoped toggle this leaves
/// the selection wherever the commands written so far have put it.
pub proof fn lemma_failure_ends_operation<E>(task: Task, e: E)
    requires
        task.pending() != Pending::Nothing,
    ensures
        task.accepts(Event::Failed(e)),
        task.next(Event::Failed(e)) == (Task::Idle, Action::Fail(Error::VisaApiError(e))),
        forall|event: Event<E>| !Task::Idle.accepts(event),
{
}

/// Each step that the driver hands out is the one it then waits to hear
/// of: a write, a read, or nothing once the operation has ended.
pub proof fn lemma_step_matches_pending<E>(task: Task, event: Event<E>)
    requires
        task.accepts(event),
    ensures
        ({
            let (next, action) = task.next(event);
            match action {
                Action::Write(_) => next.pending() == Pending::Write,
                Action::Read => next.pending() == Pending::Line,
                Action::Finish(_) => next.pending() == Pending::Nothing,
                Action::Fail(_) => next.pending() == Pending::Nothing,
            }
        }),
{
}

/// A scoped toggle whose channel query is answered with a line that names
/// no channel ends with a decode error before anything is selected.
pub proof fn lemma_scoped_toggle_rejects_unknown_channel<E>(
    target: Channel,
    state: State,
    line: String,
)
    requires
        (Channel::decode(line@) is None),
    ensures
        ({
            let heard = Task::ScopedHear { target, state }.next::<E>(Event::Line(line));
            heard == (Task::Idle, Action::<E>::Fail(Error::StrumParseError()))
        }),
{
}

} // verus!
