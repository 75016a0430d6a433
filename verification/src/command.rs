//! The commands of the supply and their exact text on the wire.

use vstd::prelude::*;
use crate::vocab::{Channel, State};

verus! {

/// A command of the supply. Numeric arguments are held as the text that
/// goes on the wire; nothing here checks their range.
#[derive(Debug, PartialEq)]
pub enum Command {
    /// Set a channel's voltage and current in one step.
    Apply { channel: Channel, voltage: String, current: String },
    /// Switch all outputs on or off.
    OutputEnable(State),
    /// Switch the selected channel's output on or off.
    ChannelOutput(State),
    /// Select a channel.
    Select(Channel),
    /// Ask which channel is selected.
    QueryChannel,
    /// Hand control to the front panel.
    Local,
    /// Take remote control.
    Remote,
    /// Ask for the current of every channel.
    FetchCurrent,
    /// Ask for the voltage of every channel.
    FetchVoltage,
    /// Ask for the power of every channel.
    FetchPower,
    /// Couple channels 1 and 2 in parallel, or end that coupling.
    Parallel(State),
    /// Couple channels in series, or end that coupling.
    Series(State),
}

impl Command {
    /// The command as it goes on the wire, character for character.
    pub open spec fn wire(self) -> Seq<char> {
        match self {
            Command::Apply { channel, voltage, current } => "APPL "@ + channel.wire() + ", "@
                + voltage@ + ", "@ + current@,
            Command::OutputEnable(state) => "OUTP:ENAB "@ + state.wire(),
            Command::ChannelOutput(state) => "CHAN:OUTP "@ + state.wire(),
            Command::Select(channel) => "INST "@ + channel.wire(),
            Command::QueryChannel => "INST?"@,
            Command::Local => "SYST:LOC"@,
            Command::Remote => "SYST:REM"@,
            Command::FetchCurrent => "FETC:CURR? ALL"@,
            Command::FetchVoltage => "FETC:VOLT? ALL"@,
            Command::FetchPower => "FETC:POW? ALL"@,
            Command::Parallel(state) => match state {
                State::ON => "OUTP:PAR CH1CH2"@,
                State::OFF => "OUTP:PAR OFF"@,
            },
            Command::Series(state) => "OUTP:SER "@ + state.wire(),
        }
    }

    /// Formats the command for the wire.
    pub fn text(&self) -> (line: String)
        ensures
            line@ == self.wire(),
    {
        match self {
            Command::Apply { channel, voltage, current } => {
                let mut line = "APPL ".to_owned();
                line.append(channel.as_ref());
                line.append(", ");
                line.append(voltage.as_str());
                line.append(", ");
                line.append(current.as_str());
                line
            },
            Command::OutputEnable(state) => "OUTP:ENAB ".to_owned().concat(state.as_ref()),
            Command::ChannelOutput(state) => "CHAN:OUTP ".to_owned().concat(state.as_ref()),
            Command::Select(channel) => "INST ".to_owned().concat(channel.as_ref()),
            Command::QueryChannel => "INST?".to_owned(),
            Command::Local => "SYST:LOC".to_owned(),
            Command::Remote => "SYST:REM".to_owned(),
            Command::FetchCurrent => "FETC:CURR? ALL".to_owned(),
            Command::FetchVoltage => "FETC:VOLT? ALL".to_owned(),
            Command::FetchPower => "FETC:POW? ALL".to_owned(),
            Command::Parallel(state) => match state {
                State::ON => "OUTP:PAR CH1CH2".to_owned(),
                State::OFF => "OUTP:PAR OFF".to_owned(),
            },
            Command::Series(state) => "OUTP:SER ".to_owned().concat(state.as_ref()),
        }
    }
}

/// Selecting a channel is written as `INST CH1`, `INST CH2` or `INST CH3`,
/// by the channel's number.
pub proof fn lemma_select_text(channel: Channel)
    ensures
        channel == Channel::CH1 ==> Command::Select(channel).wire() == "INST CH1"@,
        channel == Channel::CH2 ==> Command::Select(channel).wire() == "INST CH2"@,
        channel == Channel::CH3 ==> Command::Select(channel).wire() == "INST CH3"@,
        Command::Select(channel).wire().len() == 8,
        Command::Select(channel).wire().subrange(0, 7) == "INST CH"@,
        Command::Select(channel).wire()[7] as int == '0' as int + channel.number(),
{
    reveal_strlit("INST ");
    reveal_strlit("INST CH");
    reveal_strlit("INST CH1");
    reveal_strlit("INST CH2");
    reveal_strlit("INST CH3");
    let line = Command::Select(channel).wire();
    assert(line.len() == 8);
    assert(line.subrange(0, 7) =~= "INST CH"@);
    if channel == Channel::CH1 {
        assert(line =~= "INST CH1"@);
    } else if channel == Channel::CH2 {
        assert(line =~= "INST CH2"@);
    } else {
        assert(line =~= "INST CH3"@);
    }
}

/// The per-state commands spelled out: the text of each for `ON` and `OFF`.
pub proof fn lemma_state_command_text()
    ensures
        Command::OutputEnable(State::ON).wire() == "OUTP:ENAB ON"@,
        Command::OutputEnable(State::OFF).wire() == "OUTP:ENAB OFF"@,
        Command::ChannelOutput(State::ON).wire() == "CHAN:OUTP ON"@,
        Command::ChannelOutput(State::OFF).wire() == "CHAN:OUTP OFF"@,
        Command::Series(State::ON).wire() == "OUTP:SER ON"@,
        Command::Series(State::OFF).wire() == "OUTP:SER OFF"@,
        Command::Parallel(State::ON).wire() == "OUTP:PAR CH1CH2"@,
        Command::Parallel(State::OFF).wire() == "OUTP:PAR OFF"@,
{
    reveal_strlit("OUTP:ENAB ");
    reveal_strlit("OUTP:ENAB ON");
    reveal_strlit("OUTP:ENAB OFF");
    reveal_strlit("CHAN:OUTP ");
    reveal_strlit("CHAN:OUTP ON");
    reveal_strlit("CHAN:OUTP OFF");
    reveal_strlit("OUTP:SER ");
    reveal_strlit("OUTP:SER ON");
    reveal_strlit("OUTP:SER OFF");
    assert(Command::OutputEnable(State::ON).wire() =~= "OUTP:ENAB ON"@);
    assert(Command::OutputEnable(State::OFF).wire() =~= "OUTP:ENAB OFF"@);
    assert(Command::ChannelOutput(State::ON).wire() =~= "CHAN:OUTP ON"@);
    assert(Command::ChannelOutput(State::OFF).wire() =~= "CHAN:OUTP OFF"@);
    assert(Command::Series(State::ON).wire() =~= "OUTP:SER ON"@);
    assert(Command::Series(State::OFF).wire() =~= "OUTP:SER OFF"@);
}

/// The text of a command that holds no number tells which command it is:
/// no two of them are written alike.
pub proof fn lemma_text_tells_commands_apart(a: Command, b: Command)
    requires
        !(a is Apply),
        !(b is Apply),
        a.wire() == b.wire(),
    ensures
        a == b,
{
    lemma_fixed_text(a);
    lemma_fixed_text(b);
}

/// The marks by which the text of a command without a number is known: its
/// length and the characters at four places.
spec fn marks(text: Seq<char>) -> (nat, char, char, char, char) {
    (text.len(), text[0], text[5], text[6], text[text.len() - 2])
}

proof fn lemma_fixed_text(c: Command)
    requires
        !(c is Apply),
    ensures
        c.wire().len() >= 5,
        match c {
            Command::Apply { .. } => true,
            Command::OutputEnable(State::ON) => marks(c.wire()) == (12nat, 'O', 'E', 'N', 'O'),
            Command::OutputEnable(State::OFF) => marks(c.wire()) == (13nat, 'O', 'E', 'N', 'F'),
            Command::ChannelOutput(State::ON) => marks(c.wire()) == (12nat, 'C', 'O', 'U', 'O'),
            Command::ChannelOutput(State::OFF) => marks(c.wire()) == (13nat, 'C', 'O', 'U', 'F'),
            Command::Select(Channel::CH1) => c.wire() == "INST CH1"@,
            Command::Select(Channel::CH2) => c.wire() == "INST CH2"@,
            Command::Select(Channel::CH3) => c.wire() == "INST CH3"@,
            Command::QueryChannel => c.wire().len() == 5,
            Command::Local => marks(c.wire()) == (8nat, 'S', 'L', 'O', 'O'),
            Command::Remote => marks(c.wire()) == (8nat, 'S', 'R', 'E', 'E'),
            Command::FetchCurrent => marks(c.wire()) == (14nat, 'F', 'C', 'U', 'L'),
            Command::FetchVoltage => marks(c.wire()) == (14nat, 'F', 'V', 'O', 'L'),
            Command::FetchPower => marks(c.wire()) == (13nat, 'F', 'P', 'O', 'L'),
            Command::Parallel(State::ON) => marks(c.wire()) == (15nat, 'O', 'P', 'A', 'H'),
            Command::Parallel(State::OFF) => marks(c.wire()) == (12nat, 'O', 'P', 'A', 'F'),
            Command::Series(State::ON) => marks(c.wire()) == (11nat, 'O', 'S', 'E', 'O'),
            Command::Series(State::OFF) => marks(c.wire()) == (12nat, 'O', 'S', 'E', 'F'),
        },
        c is Select ==> marks(c.wire()) == (8nat, 'I', 'C', 'H', 'H') && c.wire()[7] as int == '0'
            as int + c->Select_0.number(),
{
    reveal_strlit("OUTP:ENAB ");
    reveal_strlit("CHAN:OUTP ");
    reveal_strlit("INST ");
    reveal_strlit("INST?");
    reveal_strlit("SYST:LOC");
    reveal_strlit("SYST:REM");
    reveal_strlit("FETC:CURR? ALL");
    reveal_strlit("FETC:VOLT? ALL");
    reveal_strlit("FETC:POW? ALL");
    reveal_strlit("OUTP:PAR CH1CH2");
    reveal_strlit("OUTP:PAR OFF");
    reveal_strlit("OUTP:SER ");
    match c {
        Command::Select(channel) => {
            lemma_select_text(channel);
            reveal_strlit("INST CH1");
            reveal_strlit("INST CH2");
            reveal_strlit("INST CH3");
        },
        _ => {},
    }
}

} // verus!
