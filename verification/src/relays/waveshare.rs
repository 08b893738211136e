//! The Waveshare Modbus RTU relay board.
//!
//! Every command is a Modbus RTU frame: the board address, the function code and
//! its data, followed by the CRC-16/MODBUS checksum of those bytes, low byte first.
//! This module builds the frames and reads the board's replies; a [`Waveshare`]
//! holds the settings of one board.
use vstd::prelude::*;

use crate::relays::{BoardError, State};
use crate::text::{comma_joined, decimal_digit, debug_list, decimal_items, push_char, push_debug_bytes};

verus! {

/// The baudrate the Waveshare board talks at.
pub const WAVESHARE_BAUD: usize = 9600;

/// The CRC-16/MODBUS checksum of the bytes.
pub uninterp spec fn crc16_modbus(data: Seq<u8>) -> u16;

/// The CRC-16/MODBUS checksum of the bytes, computed by the `crc` crate
/// (`Crc::<u16>::checksum` with the `CRC_16_MODBUS` algorithm). The checksum is a
/// function of the bytes alone; what it is on given bytes is left to the crate.
#[verifier::external_body]
fn modbus_checksum(data: &[u8]) -> (c: u16)
    ensures
        c == crc16_modbus(data@),
{
    crc::Crc::<u16>::new(&crc::CRC_16_MODBUS).checksum(data)
}

/// The bytes followed by their checksum, low byte first.
pub open spec fn with_checksum(bytes: Seq<u8>) -> Seq<u8> {
    let c = crc16_modbus(bytes);
    bytes + seq![(c % 256) as u8, (c / 256) as u8]
}

/// The byte pair that sets one relay to a state: `FF 00` for on, `00 00` for off.
pub open spec fn relay_state_byte(s: State) -> u8 {
    match s {
        State::On => 0xFF,
        State::Off => 0x00,
    }
}

/// The bytes, before the checksum, that set one relay.
pub open spec fn set_relay_body(address: u8, relay_num: u8, s: State) -> Seq<u8> {
    seq![address, 0x05u8, 0x00u8, relay_num, relay_state_byte(s), 0x00u8]
}

/// The bytes, before the checksum, that read the states of all relays.
pub open spec fn get_relay_body(address: u8) -> Seq<u8> {
    seq![address, 0x01u8, 0x00u8, 0xFFu8, 0x00u8, 0x01u8]
}

/// The bytes, before the checksum, that set all relays.
pub open spec fn set_all_relays_body(address: u8, s: State) -> Seq<u8> {
    seq![address, 0x05u8, 0x00u8, 0xFFu8, relay_state_byte(s), relay_state_byte(s)]
}

/// The binary digits of `n`, most significant first, without leading zeros
/// (`format!("{:b}", n)`).
pub open spec fn binary(n: nat) -> Seq<char>
    decreases n,
{
    if n < 2 {
        seq![decimal_digit(n)]
    } else {
        binary(n / 2).push(decimal_digit(n % 2))
    }
}

/// Each character as a one-character string printed by `{:?}`: `"c"`.
pub open spec fn quoted_chars(cs: Seq<char>) -> Seq<Seq<char>> {
    cs.map_values(|c: char| seq!['"', c, '"'])
}

/// The message of the error returned when the relay has no digit in the board's reply.
pub open spec fn bad_states_message(states: Seq<char>) -> Seq<char> {
    "Something went wrong with the boards response: "@ + debug_list(quoted_chars(states))
}

/// The message of the error returned when the reply holds no relay states.
pub open spec fn bad_reply_message(resp: Seq<u8>) -> Seq<char> {
    "Something went wrong, resp: "@ + debug_list(decimal_items(resp))
}

/// What the board's reply to the read command says of a relay: its fourth byte holds
/// the states, one binary digit per relay, read from the most significant digit.
/// The message is that of the error returned when the reply says nothing of it.
pub open spec fn reported_relay_state(resp: Seq<u8>, relay_num: u8) -> Result<State, Seq<char>> {
    if resp.len() < 4 {
        Err(bad_reply_message(resp))
    } else {
        let states = binary(resp[3] as nat);
        if (relay_num as int) < states.len() {
            if states[relay_num as int] == '1' {
                Ok(State::On)
            } else {
                Ok(State::Off)
            }
        } else {
            Err(bad_states_message(states))
        }
    }
}

/// A generic relay board: its address and the baudrate it talks at.
#[derive(Debug)]
pub struct Board {
    address: u8,
    baudrate: usize,
}

impl Board {
    /// The board's address.
    pub closed spec fn address_view(&self) -> u8 {
        self.address
    }

    /// The board's baudrate.
    pub closed spec fn baudrate_view(&self) -> usize {
        self.baudrate
    }

    /// A board with this address and baudrate.
    pub fn new(address: u8, baudrate: usize) -> (b: Board)
        ensures
            b.address_view() == address,
            b.baudrate_view() == baudrate,
    {
        Board { address, baudrate }
    }

    /// Returns the board address.
    pub fn address(&self) -> (a: u8)
        ensures
            a == self.address_view(),
    {
        self.address
    }

    /// Updates the stored address.
    pub fn set_address(&mut self, new_addr: u8)
        ensures
            final(self).address_view() == new_addr,
            final(self).baudrate_view() == old(self).baudrate_view(),
    {
        self.address = new_addr;
    }

    /// Returns the baudrate.
    pub fn baudrate(&self) -> (b: usize)
        ensures
            b == self.baudrate_view(),
    {
        self.baudrate
    }
}

/// Appends the binary digits of `n` to `digits`.
fn push_binary(digits: &mut Vec<char>, n: u8)
    ensures
        final(digits)@ == old(digits)@ + binary(n as nat),
    decreases n,
{
    if n >= 2 {
        push_binary(digits, n / 2);
    }
    let d: u8 = n % 2;
    digits.push(if d == 0 { '0' } else { '1' });
    assert(final(digits)@ =~= old(digits)@ + binary(n as nat));
}

/// Appends the characters as `{:?}` prints a list of one-character strings to `s`.
fn push_debug_quoted(s: &mut String, cs: &Vec<char>)
    ensures
        final(s)@ == old(s)@ + debug_list(quoted_chars(cs@)),
{
    let ghost start = s@;
    s.append("[");
    let mut i: usize = 0;
    while i < cs.len()
        invariant
            i <= cs@.len(),
            s@ == start + "["@ + comma_joined(quoted_chars(cs@.take(i as int))),
        decreases cs@.len() - i,
    {
        if i > 0 {
            s.append(", ");
        }
        push_char(s, '"');
        push_char(s, cs[i]);
        push_char(s, '"');
        proof {
            let items = quoted_chars(cs@.take(i + 1));
            assert(items.drop_last() =~= quoted_chars(cs@.take(i as int)));
            assert(items.last() == seq!['"', cs@[i as int], '"']);
            if i == 0 {
                assert(quoted_chars(cs@.take(0)) =~= Seq::<Seq<char>>::empty());
            }
        }
        i = i + 1;
        proof {
            assert(s@ =~= start + "["@ + comma_joined(quoted_chars(cs@.take(i as int))));
        }
    }
    s.append("]");
    assert(cs@.take(cs@.len() as int) =~= cs@);
    assert(s@ =~= old(s)@ + debug_list(quoted_chars(cs@)));
}

/// A Waveshare relay board.
#[derive(Debug)]
pub struct Waveshare(pub Board);

impl Waveshare {
    /// The board with this address, at the Waveshare baudrate.
    pub fn new(address: u8) -> (w: Waveshare)
        ensures
            w.0.address_view() == address,
            w.0.baudrate_view() == WAVESHARE_BAUD,
    {
        Waveshare(Board::new(address, WAVESHARE_BAUD))
    }

    /// Appends the CRC-16/MODBUS checksum of the bytes, low byte first. This never
    /// fails.
    pub fn append_checksum(bytes: &mut Vec<u8>) -> (r: Result<(), BoardError>)
        ensures
            r is Ok,
            final(bytes)@ == with_checksum(old(bytes)@),
    {
        let checksum = modbus_checksum(bytes.as_slice());
        Waveshare::push_checksum(bytes, checksum);
        Ok(())
    }

    /// Appends a checksum, low byte first.
    pub fn push_checksum(bytes: &mut Vec<u8>, checksum: u16)
        ensures
            final(bytes)@ == old(bytes)@ + seq![(checksum % 256) as u8, (checksum / 256) as u8],
    {
        bytes.push((checksum % 256) as u8);
        bytes.push((checksum / 256) as u8);
        assert(bytes@ =~= old(bytes)@ + seq![(checksum % 256) as u8, (checksum / 256) as u8]);
    }

    /// The command that sets a relay on or off.
    pub fn set_relay_command(&self, relay_num: u8, state: State) -> (bytes: Vec<u8>)
        ensures
            bytes@ == with_checksum(set_relay_body(self.0.address_view(), relay_num, state)),
    {
        let mut bytes: Vec<u8> = vec![self.0.address(), 0x05, 0x00, relay_num];
        match state {
            State::On => bytes.push(0xFF),
            State::Off => bytes.push(0x00),
        };
        bytes.push(0x00);
        assert(bytes@ =~= set_relay_body(self.0.address_view(), relay_num, state));
        let _ = Waveshare::append_checksum(&mut bytes);
        bytes
    }

    /// The command that reads the states of all relays.
    pub fn get_relay_command(&self) -> (bytes: Vec<u8>)
        ensures
            bytes@ == with_checksum(get_relay_body(self.0.address_view())),
    {
        let mut bytes: Vec<u8> = vec![self.0.address(), 0x01, 0x00, 0xFF, 0x00, 0x01];
        assert(bytes@ =~= get_relay_body(self.0.address_view()));
        let _ = Waveshare::append_checksum(&mut bytes);
        bytes
    }

    /// The state of a relay as the board's reply to the read command reports it,
    /// or the error that the reply does not say.
    pub fn relay_state_from_response(resp: &Vec<u8>, relay_num: u8) -> (r: Result<State, BoardError>)
        ensures
            match (r, reported_relay_state(resp@, relay_num)) {
                (Ok(s), Ok(t)) => s == t,
                (Err(e), Err(msg)) => e.msg_view() == msg && e.address_view() is None,
                _ => false,
            },
    {
        if resp.len() < 4 {
            let mut msg = String::from_str("Something went wrong, resp: ");
            push_debug_bytes(&mut msg, resp);
            proof {
                reveal_strlit("Something went wrong, resp: ");
            }
            assert(msg@ =~= bad_reply_message(resp@));
            return Err(BoardError::new(msg, None));
        }
        let mut states: Vec<char> = Vec::new();
        push_binary(&mut states, resp[3]);
        assert(states@ =~= binary(resp@[3] as nat));
        if (relay_num as usize) < states.len() {
            if states[relay_num as usize] == '1' {
                Ok(State::On)
            } else {
                Ok(State::Off)
            }
        } else {
            let mut msg = String::from_str("Something went wrong with the boards response: ");
            push_debug_quoted(&mut msg, &states);
            proof {
                reveal_strlit("Something went wrong with the boards response: ");
            }
            assert(msg@ =~= bad_states_message(states@));
            Err(BoardError::new(msg, None))
        }
    }

    /// The command that sets all relays on or off.
    pub fn set_all_relays_command(&self, state: State) -> (bytes: Vec<u8>)
        ensures
            bytes@ == with_checksum(set_all_relays_body(self.0.address_view(), state)),
    {
        let mut bytes: Vec<u8> = vec![self.0.address(), 0x05, 0x00, 0xFF];
        match state {
            State::On => {
                bytes.push(0xFF);
                bytes.push(0xFF);
            },
            State::Off => {
                bytes.push(0x00);
                bytes.push(0x00);
            },
        }
        assert(bytes@ =~= set_all_relays_body(self.0.address_view(), state));
        let _ = Waveshare::append_checksum(&mut bytes);
        bytes
    }
}

/// A number below `2^m` has at most `m` binary digits.
proof fn lemma_binary_len(n: nat, m: nat)
    requires
        m >= 1,
        n < vstd::arithmetic::power2::pow2(m),
    ensures
        binary(n).len() <= m,
    decreases n,
{
    if n >= 2 {
        vstd::arithmetic::power2::lemma_pow2_unfold(m);
        if m == 1 {
            vstd::arithmetic::power2::lemma2_to64();
        } else {
            lemma_binary_len(n / 2, (m - 1) as nat);
        }
    }
}

/// The reply of a Waveshare board tells the states of at most 8 relays: a relay
/// number of 8 or more is answered with an error.
pub proof fn lemma_at_most_eight_relays(resp: Seq<u8>, relay_num: u8)
    requires
        relay_num >= 8,
    ensures
        reported_relay_state(resp, relay_num) is Err,
{
    if resp.len() >= 4 {
        vstd::arithmetic::power2::lemma2_to64();
        lemma_binary_len(resp[3] as nat, 8);
    }
}

} // verus!
