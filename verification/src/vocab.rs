//! Channel identifiers and on/off states, with their wire tokens.

use vstd::prelude::*;
use crate::error::Error;

verus! {

/// One of the three output channels of the supply.
#[derive(Clone, Copy, Debug, PartialEq, Eq, Structural)]
pub enum Channel {
    CH1,
    CH2,
    CH3,
}

/// An on/off state, used for the global output, a channel's output and the
/// coupling modes.
#[derive(Clone, Copy, Debug, PartialEq, Eq, Structural)]
pub enum State {
    ON,
    OFF,
}

impl Channel {
    /// The channel's number, 1 to 3.
    pub open spec fn number(self) -> nat {
        match self {
            Channel::CH1 => 1,
            Channel::CH2 => 2,
            Channel::CH3 => 3,
        }
    }

    /// The token that stands for the channel on the wire.
    pub open spec fn wire(self) -> Seq<char> {
        match self {
            Channel::CH1 => seq!['C', 'H', '1'],
            Channel::CH2 => seq!['C', 'H', '2'],
            Channel::CH3 => seq!['C', 'H', '3'],
        }
    }

    /// The channel that a token names, if it names one. Matching is exact
    /// and case sensitive.
    pub open spec fn decode(token: Seq<char>) -> Option<Channel> {
        if token == Channel::CH1.wire() {
            Some(Channel::CH1)
        } else if token == Channel::CH2.wire() {
            Some(Channel::CH2)
        } else if token == Channel::CH3.wire() {
            Some(Channel::CH3)
        } else {
            None
        }
    }

    /// The wire token as a string slice.
    pub fn as_ref(&self) -> (token: &'static str)
        ensures
            token@ == self.wire(),
    {
        proof {
            reveal_strlit("CH1");
            reveal_strlit("CH2");
            reveal_strlit("CH3");
        }
        let token = match self {
            Channel::CH1 => "CH1",
            Channel::CH2 => "CH2",
            Channel::CH3 => "CH3",
        };
        assert(token@ =~= self.wire());
        token
    }

    /// The wire token as an owned string.
    pub fn to_string(&self) -> (token: String)
        ensures
            token@ == self.wire(),
    {
        self.as_ref().to_owned()
    }

    /// Decodes a channel token. Anything but one of the three tokens is an
    /// error; no token is coerced to a default.
    pub fn from_str<E>(s: &str) -> (decoded: Result<Channel, Error<E>>)
        ensures
            match decoded {
                Ok(ch) => Channel::decode(s@) == Some(ch),
                Err(e) => Channel::decode(s@) is None && e is StrumParseError,
            },
    {
        if s.unicode_len() == 3 && s.get_char(0) == 'C' && s.get_char(1) == 'H' {
            let digit = s.get_char(2);
            if digit == '1' {
                assert(s@ =~= Channel::CH1.wire());
                return Ok(Channel::CH1);
            } else if digit == '2' {
                assert(s@ =~= Channel::CH2.wire());
                return Ok(Channel::CH2);
            } else if digit == '3' {
                assert(s@ =~= Channel::CH3.wire());
                return Ok(Channel::CH3);
            }
        }
        Err(Error::StrumParseError())
    }
}

impl Default for Channel {
    fn default() -> (ch: Channel)
        ensures
            ch == Channel::CH1,
    {
        Channel::CH1
    }
}

impl State {
    /// The token that is sent for the state.
    pub open spec fn wire(self) -> Seq<char> {
        match self {
            State::ON => seq!['O', 'N'],
            State::OFF => seq!['O', 'F', 'F'],
        }
    }

    /// The state that a received token names, if it names one: `ON` and `1`
    /// are the same state, and so are `OFF` and `0`.
    pub open spec fn decode(token: Seq<char>) -> Option<State> {
        if token == State::ON.wire() || token == seq!['1'] {
            Some(State::ON)
        } else if token == State::OFF.wire() || token == seq!['0'] {
            Some(State::OFF)
        } else {
            None
        }
    }

    /// The wire token as a string slice.
    pub fn as_ref(&self) -> (token: &'static str)
        ensures
            token@ == self.wire(),
    {
        proof {
            reveal_strlit("ON");
            reveal_strlit("OFF");
        }
        let token = match self {
            State::ON => "ON",
            State::OFF => "OFF",
        };
        assert(token@ =~= self.wire());
        token
    }

    /// The wire token as an owned string.
    pub fn to_string(&self) -> (token: String)
        ensures
            token@ == self.wire(),
    {
        self.as_ref().to_owned()
    }

    /// Decodes a state token, in either of its spellings. Anything else is
    /// an error.
    pub fn from_str<E>(s: &str) -> (decoded: Result<State, Error<E>>)
        ensures
            match decoded {
                Ok(state) => State::decode(s@) == Some(state),
                Err(e) => State::decode(s@) is None && e is StrumParseError,
            },
    {
        let n: usize = s.unicode_len();
        if n == 1 {
            let c = s.get_char(0);
            if c == '1' {
                assert(s@ =~= seq!['1']);
                return Ok(State::ON);
            } else if c == '0' {
                assert(s@ =~= seq!['0']);
                return Ok(State::OFF);
            }
        } else if n == 2 {
            if s.get_char(0) == 'O' && s.get_char(1) == 'N' {
                assert(s@ =~= State::ON.wire());
                return Ok(State::ON);
            }
        } else if n == 3 {
            if s.get_char(0) == 'O' && s.get_char(1) == 'F' && s.get_char(2) == 'F' {
                assert(s@ =~= State::OFF.wire());
                return Ok(State::OFF);
            }
        }
        Err(Error::StrumParseError())
    }
}

impl Default for State {
    fn default() -> (state: State)
        ensures
            state == State::ON,
    {
        State::ON
    }
}

/// Decoding the token that is sent for a state gives that state back.
pub proof fn lemma_state_round_trip(state: State)
    ensures
        State::decode(state.wire()) == Some(state),
{
    assert(State::OFF.wire().len() == 3);
    assert(State::ON.wire().len() == 2);
    assert(seq!['1'].len() == 1);
    assert(seq!['0'].len() == 1);
}

/// Decoding the token that is sent for a channel gives that channel back,
/// and no two channels share a token.
pub proof fn lemma_channel_round_trip(ch: Channel)
    ensures
        Channel::decode(ch.wire()) == Some(ch),
{
    assert(Channel::CH1.wire()[2] == '1');
    assert(Channel::CH2.wire()[2] == '2');
    assert(Channel::CH3.wire()[2] == '3');
}

} // verus!
