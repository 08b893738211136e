//! The first STR1XX driver, which writes its commands to the board as hexadecimal
//! text.
//!
//! An STR116 or STR108 board answers a status request with a reply whose hexadecimal
//! text holds, from its seventh digit on, two digits per relay: `01` when the relay
//! is on.
use vstd::prelude::*;

use crate::relays::bytestring::{byte_sum, checksum, frame, frame_hex, low_byte_of_sum};
use crate::relays::str1::{set_controller_num_data, set_relay_data};
use crate::relays::State;
use crate::text::{
    hex_byte, hex_decode, hex_decoding, hex_encode, hex_encoding, hex_pair_value, is_hex_text,
    lemma_hex_decode_encoding, lemma_hex_encoding_concat, lemma_hex_encoding_index,
    lemma_hex_encoding_push, lemma_hex_encoding_single,
    lemma_hex_text_is_ascii, push_hex_byte, str_eq,
};

verus! {

/// The text of the request for the states of all relays of the board.
pub open spec fn status_request_text(address: u8) -> Seq<char> {
    "55aa0714"@ + hex_byte(address) + "0000102d77"@
}

/// The state of a relay in the hexadecimal text of a status reply: on when its pair
/// of digits, after the first six digits, is `01`.
pub open spec fn status_pair_state(reply_hex: Seq<char>, relay_num: u8) -> State {
    let i = 6 + 2 * relay_num;
    if reply_hex.subrange(i, i + 2) == "01"@ {
        State::On
    } else {
        State::Off
    }
}

/// The text of the command that programs a new controller number.
pub open spec fn controller_num_text(address: u8, new_cn: u8) -> Seq<char> {
    "55aa0601"@ + hex_byte(address) + hex_byte(new_cn) + hex_byte(
        checksum(set_controller_num_data(address, new_cn)),
    ) + "77"@
}

/// The state of a relay in a status reply. The reply must hold the states of all 16
/// relays.
pub fn status_reply_state(output: &Vec<u8>, relay_num: u8) -> (s: State)
    requires
        output@.len() >= 19,
        relay_num < 16,
    ensures
        s == status_pair_state(hex_encoding(output@), relay_num),
{
    proof {
        lemma_hex_encoding_index(output@);
    }
    let text = hex_encode(output.as_slice());
    let statuses = text.as_str().substring_char(6, 38);
    let i: usize = relay_num as usize * 2;
    let pair = statuses.substring_char(i, i + 2);
    let ghost h = hex_encoding(output@);
    assert(pair@ =~= h.subrange(6 + 2 * relay_num, 6 + 2 * relay_num + 2));
    if str_eq(pair, "01") {
        State::On
    } else {
        State::Off
    }
}

/// The bytes that the text of a command encodes, as they are written to the board;
/// `None` when the text is not hexadecimal.
pub fn command_bytes(text: &str) -> (r: Option<Vec<u8>>)
    ensures
        r is Some <==> is_hex_text(text@),
        r matches Some(b) ==> b@ == hex_decoding(text@),
{
    if !text.is_ascii() {
        proof {
            if is_hex_text(text@) {
                lemma_hex_text_is_ascii(text@);
            }
        }
        return None;
    }
    match hex_decode(text) {
        Ok(bytes) => Some(bytes),
        Err(_) => None,
    }
}

/// An STR1XX board, addressed by its controller number.
#[derive(Debug)]
pub struct Str1xx {
    pub address: u8,
}

/// A message to an STR1XX board, written as hexadecimal text: its data bytes,
/// without the master bytes and the checksum.
#[derive(Debug)]
pub struct Bytestring {
    pub data: Vec<u8>,
}

impl Bytestring {
    /// A message with these data bytes.
    pub fn from(bytes: Vec<u8>) -> (b: Bytestring)
        ensures
            b.data@ == bytes@,
    {
        Bytestring { data: bytes }
    }

    /// The two lowercase hexadecimal digits of a byte.
    pub fn to_hex(val: u8) -> (s: String)
        ensures
            s@ == hex_byte(val),
    {
        let mut s = String::new();
        push_hex_byte(&mut s, val);
        assert(s@ =~= hex_byte(val));
        s
    }

    /// The byte that two hexadecimal digits encode; `None` for any other text.
    pub fn to_u8(hex: &str) -> (r: Option<u8>)
        requires
            hex@.len() > 0,
        ensures
            r == (if hex@.len() == 2 && is_hex_text(hex@) {
                Some(hex_pair_value(hex@[0], hex@[1]))
            } else {
                None
            }),
    {
        // Text that is not ASCII holds a byte that is no hexadecimal digit; for ASCII
        // text, characters and bytes are the same.
        if !hex.is_ascii() {
            proof {
                if is_hex_text(hex@) {
                    lemma_hex_text_is_ascii(hex@);
                }
            }
            return None;
        }
        if hex.unicode_len() > 2 {
            return None;
        }
        match hex_decode(hex) {
            Ok(val) => {
                assert(hex@.len() == 2);
                assert(val@[0] == hex_decoding(hex@)[0]);
                Some(val[0])
            },
            Err(_) => None,
        }
    }

    /// The checksum of the message as two lowercase hexadecimal digits. The sum is
    /// taken as an `i32`, so it must fit in one.
    pub fn checksum_as_hex(&self) -> (s: String)
        requires
            byte_sum(self.data@) <= i32::MAX,
        ensures
            s@ == hex_byte(checksum(self.data@)),
    {
        Bytestring::to_hex(low_byte_of_sum(self.data.as_slice()))
    }

    /// All bytes of the message, including the master bytes and the checksum, as
    /// lowercase hexadecimal text.
    pub fn full(&self) -> (s: String)
        requires
            byte_sum(self.data@) <= i32::MAX,
        ensures
            s@ == hex_encoding(frame(self.data@)),
    {
        frame_hex(self.data.as_slice())
    }
}

impl Str1xx {
    /// The board with this controller number.
    pub fn new(address: u8) -> (b: Str1xx)
        ensures
            b.address == address,
    {
        Str1xx { address }
    }

    /// The checksum of the bytes that hexadecimal text encodes, as its last two
    /// hexadecimal digits. The text must be hexadecimal, and the sum at least 16 and
    /// within a `u32`.
    pub fn get_checksum(bytestring: &str) -> (s: String)
        requires
            is_hex_text(bytestring@),
            16 <= byte_sum(hex_decoding(bytestring@)) <= u32::MAX,
        ensures
            s@ == hex_byte(checksum(hex_decoding(bytestring@))),
    {
        proof {
            lemma_hex_text_is_ascii(bytestring@);
        }
        match hex_decode(bytestring) {
            Ok(bytes) => Bytestring::to_hex(low_byte_of_sum(bytes.as_slice())),
            Err(_) => {
                assert(false);
                String::new()
            },
        }
    }

    /// The text of the command that sets a relay on or off.
    pub fn set_relay_command(&self, relay_num: u8, state: State) -> (s: String)
        ensures
            s@ == hex_encoding(frame(set_relay_data(self.address, relay_num, state))),
    {
        let new_state: u8 = match state {
            State::On => 1,
            State::Off => 0,
        };
        let bytestring = Bytestring::from(vec![8, 23, self.address, relay_num, 1, new_state]);
        assert(bytestring.data@ =~= set_relay_data(self.address, relay_num, state));
        proof {
            crate::relays::bytestring::lemma_byte_sum_bound(bytestring.data@);
        }
        bytestring.full()
    }

    /// The text of the request for the states of all relays.
    pub fn get_relay_command(&self) -> (s: String)
        ensures
            s@ == status_request_text(self.address),
    {
        let mut s = String::from_str("55aa0714");
        push_hex_byte(&mut s, self.address);
        s.append("0000102d77");
        proof {
            reveal_strlit("55aa0714");
            reveal_strlit("0000102d77");
        }
        assert(s@ =~= status_request_text(self.address));
        s
    }

    /// The state of a relay in the board's status reply, which must hold the states
    /// of all 16 relays.
    pub fn relay_state_from_response(output: &Vec<u8>, relay_num: u8) -> (s: State)
        requires
            output@.len() >= 19,
            relay_num < 16,
        ensures
            s == status_pair_state(hex_encoding(output@), relay_num),
    {
        status_reply_state(output, relay_num)
    }

    /// Programs a new controller number: returns the text of the command, addressed
    /// to the current controller number, and from then on addresses the board by the
    /// new one. The checksum is read off the hexadecimal sum, which needs at least
    /// two digits.
    pub fn set_controller_num(&mut self, new_cn: u8) -> (s: String)
        requires
            7 + old(self).address + new_cn >= 16,
        ensures
            s@ == controller_num_text(old(self).address, new_cn),
            final(self).address == new_cn,
    {
        let ghost data = set_controller_num_data(self.address, new_cn);
        let mut piece = String::from_str("0601");
        push_hex_byte(&mut piece, self.address);
        push_hex_byte(&mut piece, new_cn);
        proof {
            reveal_strlit("0601");
            assert(hex_byte(6) =~= seq!['0', '6']);
            assert(hex_byte(1) =~= seq!['0', '1']);
            lemma_hex_encoding_push(Seq::empty(), 6);
            lemma_hex_encoding_push(seq![6u8], 1);
            lemma_hex_encoding_push(seq![6u8, 1u8], self.address);
            lemma_hex_encoding_push(seq![6u8, 1u8, self.address], new_cn);
            assert(Seq::<u8>::empty().push(6) =~= seq![6u8]);
            assert(seq![6u8].push(1) =~= seq![6u8, 1u8]);
            assert(seq![6u8, 1u8].push(self.address) =~= seq![6u8, 1u8, self.address]);
            assert(seq![6u8, 1u8, self.address].push(new_cn) =~= data);
            assert(hex_encoding(Seq::<u8>::empty()) =~= Seq::<char>::empty());
            assert(piece@ =~= hex_encoding(data));
            lemma_hex_decode_encoding(data);
            reveal_with_fuel(byte_sum, 5);
            assert(data.drop_last().drop_last().drop_last().drop_last() =~= Seq::<u8>::empty());
        }
        let cs = Str1xx::get_checksum(piece.as_str());
        let mut s = String::from_str("55aa0601");
        push_hex_byte(&mut s, self.address);
        push_hex_byte(&mut s, new_cn);
        s.append(cs.as_str());
        s.append("77");
        proof {
            reveal_strlit("55aa0601");
            reveal_strlit("77");
        }
        assert(s@ =~= controller_num_text(old(self).address, new_cn));
        self.address = new_cn;
        s
    }
}

/// Reading the two digits of a byte back gives the byte: `to_u8(to_hex(v))` is
/// `Some(v)`.
pub proof fn lemma_to_u8_inverts_to_hex(v: u8)
    ensures
        hex_byte(v).len() == 2,
        is_hex_text(hex_byte(v)),
        hex_pair_value(hex_byte(v)[0], hex_byte(v)[1]) == v,
{
    lemma_hex_encoding_single(v);
    lemma_hex_decode_encoding(seq![v]);
    assert(hex_decoding(hex_byte(v))[0] == v);
}

/// In a status reply, a relay is on exactly when its byte, the one after the first
/// three, is 1.
pub proof fn lemma_status_pair_reads_byte(output: Seq<u8>, relay_num: u8)
    requires
        output.len() >= 19,
        relay_num < 16,
    ensures
        status_pair_state(hex_encoding(output), relay_num) == (if output[3 + relay_num] == 1 {
            State::On
        } else {
            State::Off
        }),
{
    let h = hex_encoding(output);
    let i = 3 + relay_num;
    let b = output[i];
    lemma_hex_encoding_index(output);
    assert(h[2 * i] == crate::text::hex_digit((b / 16) as nat));
    assert(h[2 * i + 1] == crate::text::hex_digit((b % 16) as nat));
    let pair = h.subrange(6 + 2 * relay_num, 6 + 2 * relay_num + 2);
    assert(pair =~= seq![h[2 * i], h[2 * i + 1]]);
    reveal_strlit("01");
    if b == 1 {
        assert(pair =~= "01"@);
    } else {
        if b / 16 == 0 {
            assert(pair[1] != '1');
        } else {
            assert(pair[0] != '0');
        }
    }
}

/// The text of the controller number command is the hexadecimal text of the framed
/// command an `STR1` sends.
pub proof fn lemma_controller_num_text_is_frame_hex(address: u8, new_cn: u8)
    ensures
        controller_num_text(address, new_cn) == hex_encoding(
            frame(set_controller_num_data(address, new_cn)),
        ),
{
    let data = set_controller_num_data(address, new_cn);
    let cs = checksum(data);
    let f = frame(data);
    assert(f =~= seq![0x55u8] + seq![0xAAu8] + seq![6u8] + seq![1u8] + seq![address] + seq![
        new_cn,
    ] + seq![cs] + seq![0x77u8]);
    lemma_hex_encoding_concat(seq![0x55u8], seq![0xAAu8]);
    lemma_hex_encoding_concat(seq![0x55u8] + seq![0xAAu8], seq![6u8]);
    lemma_hex_encoding_concat(seq![0x55u8] + seq![0xAAu8] + seq![6u8], seq![1u8]);
    lemma_hex_encoding_concat(seq![0x55u8] + seq![0xAAu8] + seq![6u8] + seq![1u8], seq![address]);
    lemma_hex_encoding_concat(
        seq![0x55u8] + seq![0xAAu8] + seq![6u8] + seq![1u8] + seq![address],
        seq![new_cn],
    );
    lemma_hex_encoding_concat(
        seq![0x55u8] + seq![0xAAu8] + seq![6u8] + seq![1u8] + seq![address] + seq![new_cn],
        seq![cs],
    );
    lemma_hex_encoding_concat(
        seq![0x55u8] + seq![0xAAu8] + seq![6u8] + seq![1u8] + seq![address] + seq![new_cn]
            + seq![cs],
        seq![0x77u8],
    );
    lemma_hex_encoding_single(0x55);
    lemma_hex_encoding_single(0xAA);
    lemma_hex_encoding_single(6);
    lemma_hex_encoding_single(1);
    lemma_hex_encoding_single(address);
    lemma_hex_encoding_single(new_cn);
    lemma_hex_encoding_single(cs);
    lemma_hex_encoding_single(0x77);
    reveal_strlit("55aa0601");
    reveal_strlit("77");
    assert(hex_byte(0x55) =~= seq!['5', '5']);
    assert(hex_byte(0xAA) =~= seq!['a', 'a']);
    assert(hex_byte(6) =~= seq!['0', '6']);
    assert(hex_byte(1) =~= seq!['0', '1']);
    assert(hex_byte(0x77) =~= seq!['7', '7']);
    assert(controller_num_text(address, new_cn) =~= hex_encoding(f));
}

} // verus!
