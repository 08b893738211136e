//! Relay boards: the states of relays and the bytes exchanged with the boards.
//!
//! Relay boards we support:
//!  * STR1XX (`str1`), framed with a `Bytestring`
//!  * Waveshare Modbus RTU relay (`waveshare`)
pub mod bytestring;
pub mod str1;
pub mod str1xx;
pub mod waveshare;

use vstd::prelude::*;

use crate::text::{hex_upper, push_hex_upper};

pub use bytestring::Bytestring;

verus! {

/// The state of a relay. This can be 'On' or 'Off'.
#[derive(Debug, PartialEq, Eq, Structural, Clone, Copy)]
pub enum State {
    On,
    Off,
}

/// The relay state of a boolean: `true` is `On`.
pub open spec fn state_of(value: bool) -> State {
    if value {
        State::On
    } else {
        State::Off
    }
}

/// The text a relay state is displayed with.
pub open spec fn state_text(s: State) -> Seq<char> {
    match s {
        State::On => "on"@,
        State::Off => "off"@,
    }
}

impl State {
    /// Converts a `bool` to a `State`: `true` is `On`.
    pub fn from(state: bool) -> (s: State)
        ensures
            s == state_of(state),
    {
        if state {
            State::On
        } else {
            State::Off
        }
    }

    /// The text this state is displayed with: "on" or "off".
    pub fn to_string(&self) -> (s: String)
        ensures
            s@ == state_text(*self),
    {
        match self {
            State::On => String::from_str("on"),
            State::Off => String::from_str("off"),
        }
    }
}

/// A generic board error, used when communication with any board is unsuccessful.
#[derive(Debug)]
pub struct BoardError {
    msg: String,
    address: Option<u8>,
}

/// The text a board error is displayed with: the message, prefixed with the board
/// address in hexadecimal when there is one.
pub open spec fn board_error_text(msg: Seq<char>, address: Option<u8>) -> Seq<char> {
    match address {
        Some(a) => "Board 0x"@ + hex_upper(a as nat) + ": "@ + msg,
        None => msg,
    }
}

impl BoardError {
    /// The message of the error.
    pub closed spec fn msg_view(&self) -> Seq<char> {
        self.msg@
    }

    /// The address of the board the error concerns, if known.
    pub closed spec fn address_view(&self) -> Option<u8> {
        self.address
    }

    /// An error with the message, concerning the board at the address if given.
    pub fn new(msg: String, address: Option<u8>) -> (e: BoardError)
        ensures
            e.msg_view() == msg@,
            e.address_view() == address,
    {
        BoardError { msg, address }
    }

    /// Parses an error from a message; this never fails, and the error concerns no
    /// particular board.
    pub fn parse(s: &str) -> (r: Result<BoardError, ()>)
        ensures
            r matches Ok(e) && e.msg_view() == s@ && e.address_view() is None,
    {
        Ok(BoardError { msg: s.to_owned(), address: None })
    }

    /// The text this error is displayed with.
    pub fn to_string(&self) -> (s: String)
        ensures
            s@ == board_error_text(self.msg_view(), self.address_view()),
    {
        match self.address {
            Some(addr) => {
                let mut s = String::from_str("Board 0x");
                push_hex_upper(&mut s, addr as u64);
                s.append(": ");
                s.append(self.msg.as_str());
                s
            },
            None => self.msg.clone(),
        }
    }
}

impl std::str::FromStr for BoardError {
    type Err = ();

    /// Parses an error from a message; this never fails, and the error concerns no
    /// particular board.
    fn from_str(s: &str) -> (r: Result<Self, Self::Err>)
        ensures
            r matches Ok(e) && e.msg_view() == s@ && e.address_view() is None,
    {
        BoardError::parse(s)
    }
}

} // verus!
