//! The STR108 and STR116 relay boards from smarthardware.
//!
//! Both boards run the same software; they differ only in the number of relays
//! (8 or 16). An [`STR1`] holds the settings of one board: its controller number,
//! the serial port it is reached on and the baudrate. Each operation is a command,
//! framed as a [`Bytestring`], that is written to the board, and for reads a reply
//! that the board sends back; this module builds the commands and reads the replies.
use vstd::prelude::*;

use crate::controllers::STR1_BAUDRATES;
use crate::relays::bytestring::{frame, lemma_byte_sum_bound, Bytestring};
use crate::relays::State;
use crate::text::{
    debug_list, decimal, hex_encode, hex_encoding, push_debug_usizes, push_decimal, usize_items,
};

verus! {

/// An error returned when using an STR1 board.
#[derive(Debug)]
pub struct STR1Error(String);

impl STR1Error {
    /// The message of the error.
    pub closed spec fn message(&self) -> Seq<char> {
        self.0@
    }

    /// An error with this message.
    pub fn new(msg: String) -> (e: STR1Error)
        ensures
            e.message() == msg@,
    {
        STR1Error(msg)
    }

    /// The text this error is displayed with: its message.
    pub fn to_string(&self) -> (s: String)
        ensures
            s@ == self.message(),
    {
        self.0.clone()
    }
}

/// The data byte that sets a relay to a state: 1 for `On`, 0 for `Off`.
pub open spec fn state_byte(s: State) -> u8 {
    match s {
        State::On => 1,
        State::Off => 0,
    }
}

/// The data bytes that read the state of a relay.
pub open spec fn get_relay_data(address: u8, relay_num: u8) -> Seq<u8> {
    seq![0x07u8, 0x14u8, address, relay_num, 1u8]
}

/// The data bytes that set one relay to a state.
pub open spec fn set_relay_data(address: u8, relay_num: u8, new_state: State) -> Seq<u8> {
    seq![0x08u8, 0x17u8, address, relay_num, 1u8, state_byte(new_state)]
}

/// The data bytes that program a new controller number.
pub open spec fn set_controller_num_data(address: u8, new_cn: u8) -> Seq<u8> {
    seq![0x06u8, 0x01u8, address, new_cn]
}

/// The data bytes that program a new baudrate, given by its index in the list of
/// baudrates the board supports.
pub open spec fn set_baudrate_data(address: u8, index: u8) -> Seq<u8> {
    seq![0x08u8, 0x33u8, address, 0xAAu8, 0x55u8, index]
}

/// The data bytes that ask the board for its numbers of inputs and outputs.
pub open spec fn relay_count_data(address: u8) -> Seq<u8> {
    seq![0x05u8, 0x02u8, address]
}

/// The state of a relay as the hexadecimal text of the board's reply reports it: the
/// relay is on when the eighth digit is `1`.
pub open spec fn reported_state(reply_hex: Seq<char>) -> State {
    if reply_hex.len() > 7 && reply_hex[7] == '1' {
        State::On
    } else {
        State::Off
    }
}

/// The number of relays in the board's reply to the relay count command: its fourth
/// byte, when the reply has one.
pub open spec fn reported_relay_count(reply: Seq<u8>) -> Option<u8> {
    if reply.len() < 4 {
        None
    } else {
        Some(reply[3])
    }
}

/// `i` is the position of the baudrate in the list of baudrates the board supports.
pub open spec fn is_baudrate_index(baud: u32, i: int) -> bool {
    &&& 0 <= i < STR1_BAUDRATES@.len()
    &&& STR1_BAUDRATES@[i] == baud
}

/// The message of the error returned for a baudrate the board does not support.
pub open spec fn unacceptable_baudrate_message(baud: u32) -> Seq<char> {
    "Unacceptable baudrate "@ + decimal(baud as nat) + ", options are "@ + debug_list(
        usize_items(STR1_BAUDRATES@),
    )
}

/// The settings of an STR1XX board: its controller number (`0xFE` from the
/// factory), the path of its serial port and the baudrate.
#[derive(Debug)]
pub struct STR1 {
    pub address: u8,
    pub port_path: String,
    pub baudrate: u32,
}

/// The full frame of a command with these data bytes.
fn framed(data: Vec<u8>) -> (bytes: Vec<u8>)
    requires
        data@.len() <= 8,
    ensures
        bytes@ == frame(data@),
{
    proof {
        lemma_byte_sum_bound(data@);
    }
    Bytestring::from(data).to_bytes()
}

/// The position of the baudrate in the list of baudrates the board supports, or the
/// error message when it is not one of them.
pub fn baudrate_index(new_baud: u32) -> (r: Result<u8, String>)
    ensures
        match r {
            Ok(i) => is_baudrate_index(new_baud, i as int),
            Err(msg) => msg@ == unacceptable_baudrate_message(new_baud) && forall|i: int|
                !is_baudrate_index(new_baud, i),
        },
{
    let acceptable = STR1_BAUDRATES;
    let mut i: usize = 0;
    while i < 10
        invariant
            i <= 10,
            acceptable@ == STR1_BAUDRATES@,
            forall|k: int| 0 <= k < i ==> acceptable@[k] != new_baud,
        decreases 10 - i,
    {
        if acceptable[i] == new_baud as usize {
            return Ok(i as u8);
        }
        i = i + 1;
    }
    let mut msg = String::from_str("Unacceptable baudrate ");
    push_decimal(&mut msg, new_baud as u64);
    msg.append(", options are ");
    push_debug_usizes(&mut msg, &acceptable);
    proof {
        reveal_strlit("Unacceptable baudrate ");
        reveal_strlit(", options are ");
    }
    assert(msg@ =~= unacceptable_baudrate_message(new_baud));
    Err(msg)
}

impl STR1 {
    /// The settings of the board with this controller number, reached at the port
    /// with the baudrate.
    pub fn new(address: u8, port_path: &str, baudrate: u32) -> (board: STR1)
        ensures
            board.address == address,
            board.port_path@ == port_path@,
            board.baudrate == baudrate,
    {
        STR1 { address, port_path: port_path.to_owned(), baudrate }
    }

    /// The framed command that reads the state of a relay.
    pub fn get_relay_command(&self, relay_num: u8) -> (bytes: Vec<u8>)
        ensures
            bytes@ == frame(get_relay_data(self.address, relay_num)),
    {
        framed(vec![0x07, 0x14, self.address, relay_num, 1])
    }

    /// The state of the relay as the board's reply to the read command reports it.
    pub fn relay_state_from_response(output: &Vec<u8>) -> (s: State)
        ensures
            s == reported_state(hex_encoding(output@)),
    {
        let result = hex_encode(output.as_slice());
        let text = result.as_str();
        if text.unicode_len() > 7 && text.get_char(7) == '1' {
            State::On
        } else {
            State::Off
        }
    }

    /// The framed command that sets a relay on or off.
    pub fn set_relay_command(&self, relay_num: u8, new_state: State) -> (bytes: Vec<u8>)
        ensures
            bytes@ == frame(set_relay_data(self.address, relay_num, new_state)),
    {
        let new_state_num: u8 = match new_state {
            State::On => 1,
            State::Off => 0,
        };
        framed(vec![0x08, 0x17, self.address, relay_num, 1, new_state_num])
    }

    /// Programs a new controller number: returns the framed command, addressed to
    /// the current controller number, and from then on addresses the board by the
    /// new one.
    pub fn set_controller_num(&mut self, new_cn: u8) -> (bytes: Vec<u8>)
        ensures
            bytes@ == frame(set_controller_num_data(old(self).address, new_cn)),
            final(self).address == new_cn,
            final(self).port_path == old(self).port_path,
            final(self).baudrate == old(self).baudrate,
    {
        let bytes = framed(vec![0x06, 0x01, self.address, new_cn]);
        self.address = new_cn;
        bytes
    }

    /// Programs a new baudrate. For a baudrate the board supports, returns the framed
    /// command and from then on uses the new baudrate; for any other, the error
    /// message, and nothing changes.
    pub fn set_baudrate(&mut self, new_baud: u32) -> (r: Result<Vec<u8>, String>)
        ensures
            match r {
                Ok(bytes) => exists|i: u8|
                    #![trigger set_baudrate_data(old(self).address, i)]
                    is_baudrate_index(new_baud, i as int) && bytes@ == frame(
                        set_baudrate_data(old(self).address, i),
                    ),
                Err(msg) => msg@ == unacceptable_baudrate_message(new_baud),
            },
            r is Ok <==> exists|i: int| is_baudrate_index(new_baud, i),
            r is Ok ==> final(self).baudrate == new_baud,
            r is Err ==> final(self).baudrate == old(self).baudrate,
            final(self).address == old(self).address,
            final(self).port_path == old(self).port_path,
    {
        match baudrate_index(new_baud) {
            Ok(index) => {
                let bytes = framed(vec![0x08, 0x33, self.address, 0xAA, 0x55, index]);
                assert(set_baudrate_data(old(self).address, index) == set_baudrate_data(
                    old(self).address,
                    index,
                ));
                self.baudrate = new_baud;
                Ok(bytes)
            },
            Err(msg) => Err(msg),
        }
    }

    /// The framed command that asks the board for its number of relays.
    pub fn relay_count_command(&self) -> (bytes: Vec<u8>)
        ensures
            bytes@ == frame(relay_count_data(self.address)),
    {
        framed(vec![0x05, 0x02, self.address])
    }

    /// The number of relays in the board's reply to the relay count command, if the
    /// reply is long enough to hold it.
    pub fn relay_count_from_response(out: &Vec<u8>) -> (n: Option<u8>)
        ensures
            n == reported_relay_count(out@),
    {
        if out.len() < 4 {
            None
        } else {
            Some(out[3])
        }
    }
}

/// The reply to a relay read reports the relay on exactly when its fourth byte has
/// the low nibble 1.
pub proof fn lemma_reported_state_reads_low_nibble(output: Seq<u8>)
    ensures
        reported_state(hex_encoding(output)) == (if output.len() >= 4 && output[3] % 16 == 1 {
            State::On
        } else {
            State::Off
        }),
{
    crate::text::lemma_hex_encoding_index(output);
    if output.len() >= 4 {
        let h = hex_encoding(output);
        assert(h[2 * 3int + 1] == crate::text::hex_digit((output[3] % 16) as nat));
    }
}

/// The framed read command names the board and the relay asked for: after the
/// master bytes, the byte count `0x07` and the command `0x14`, the controller
/// number, then the relay number, one relay, the checksum and the end byte.
pub proof fn lemma_get_relay_command_names_relay(address: u8, relay_num: u8)
    ensures
        ({
            let f = frame(get_relay_data(address, relay_num));
            &&& f.len() == 9
            &&& f[0] == 0x55 && f[1] == 0xAA && f[2] == 0x07 && f[3] == 0x14
            &&& f[4] == address
            &&& f[5] == relay_num
            &&& f[6] == 1
            &&& f[7] == ((0x07 + 0x14 + address + relay_num + 1) % 256) as u8
            &&& f[8] == 0x77
        }),
        forall|other: u8|
            other != relay_num ==> frame(get_relay_data(address, other)) != frame(
                get_relay_data(address, relay_num),
            ),
{
    reveal_with_fuel(crate::relays::bytestring::byte_sum, 6);
    let d = get_relay_data(address, relay_num);
    assert(d.drop_last().drop_last().drop_last().drop_last().drop_last() =~= Seq::<u8>::empty());
    assert forall|other: u8| other != relay_num implies frame(get_relay_data(address, other))
        != frame(get_relay_data(address, relay_num)) by {
        assert(frame(get_relay_data(address, other))[5] == other);
    }
}

/// The framed set command names the board, the relay and the state: 1 for on,
/// 0 for off.
pub proof fn lemma_set_relay_command_names_relay_and_state(address: u8, relay_num: u8, s: State)
    ensures
        ({
            let f = frame(set_relay_data(address, relay_num, s));
            &&& f.len() == 10
            &&& f[2] == 0x08 && f[3] == 0x17
            &&& f[4] == address
            &&& f[5] == relay_num
            &&& f[6] == 1
            &&& f[7] == (if s == State::On { 1u8 } else { 0u8 })
            &&& f[9] == 0x77
        }),
{
}

/// The framed controller number command names the current and the new number.
pub proof fn lemma_set_controller_num_command_names_numbers(address: u8, new_cn: u8)
    ensures
        ({
            let f = frame(set_controller_num_data(address, new_cn));
            &&& f.len() == 8
            &&& f[2] == 0x06 && f[3] == 0x01
            &&& f[4] == address
            &&& f[5] == new_cn
        }),
{
}

} // verus!
