//! The first driver for STR1XX relay boards, which addresses a board by its
//! controller number written as two decimal digits.
//!
//! Commands are hexadecimal text: the master bytes `55aa`, the command, the data,
//! a checksum and the master end byte `77`. The checksum is the sum of the bytes
//! that the command and data digits encode, which must fit in a byte.
use vstd::prelude::*;

use crate::relays::bytestring::{byte_sum, lemma_byte_sum_prefix};
use crate::relays::str1xx::{command_bytes, status_pair_state, status_reply_state};
use crate::relays::State;
use crate::text::{
    decimal, hex_byte, hex_decode, hex_decoding, hex_encode, hex_encoding, is_hex_text,
    lemma_hex_encoding_push, lemma_hex_text_is_ascii, push_char, push_decimal,
};

verus! {

/// A byte in decimal, zero-filled to at least two digits (`format!("{:02}", val)`).
pub open spec fn zfilled(val: u8) -> Seq<char> {
    if val < 10 {
        seq!['0'] + decimal(val as nat)
    } else {
        decimal(val as nat)
    }
}

/// Whether every character of the text is a decimal digit.
pub open spec fn is_decimal_text(s: Seq<char>) -> bool {
    forall|i: int| 0 <= i < s.len() ==> '0' <= #[trigger] s[i] <= '9'
}

/// The digits that set a relay to a state: `01` for on, `00` for off.
pub open spec fn state_digits(s: State) -> Seq<char> {
    match s {
        State::On => "01"@,
        State::Off => "00"@,
    }
}

/// The command that sets a relay, with a placeholder where the checksum goes.
pub open spec fn set_relay_template(address: Seq<char>, relay_num: u8, s: State) -> Seq<char> {
    "55aa0817"@ + address + zfilled(relay_num) + "01"@ + state_digits(s) + "checksum77"@
}

/// The digits whose bytes the checksum of the set relay command sums: the 5th to the
/// 16th character of the command.
pub open spec fn set_relay_summed(address: Seq<char>, relay_num: u8, s: State) -> Seq<char> {
    set_relay_template(address, relay_num, s).subrange(4, 16)
}

/// The text of the command that sets a relay.
pub open spec fn set_relay_text(address: Seq<char>, relay_num: u8, s: State) -> Seq<char> {
    "55aa0817"@ + address + zfilled(relay_num) + "01"@ + state_digits(s) + hex_byte(
        byte_sum(hex_decoding(set_relay_summed(address, relay_num, s))) as u8,
    ) + "77"@
}

/// The text of the request for the states of all relays.
pub open spec fn status_request_text(address: Seq<char>) -> Seq<char> {
    "55aa0714"@ + address + "00102d77"@
}

/// The command that programs a new controller number, with a placeholder where the
/// checksum goes.
pub open spec fn controller_num_template(address: Seq<char>, new_cn: u8) -> Seq<char> {
    "55aa0601"@ + address + zfilled(new_cn) + "checksum77"@
}

/// The digits whose bytes the checksum of the controller number command sums: the
/// 5th to the 12th character of the command.
pub open spec fn controller_num_summed(address: Seq<char>, new_cn: u8) -> Seq<char> {
    controller_num_template(address, new_cn).subrange(4, 12)
}

/// The text of the command that programs a new controller number.
pub open spec fn controller_num_text(address: Seq<char>, new_cn: u8) -> Seq<char> {
    "55aa0601"@ + address + zfilled(new_cn) + hex_byte(
        byte_sum(hex_decoding(controller_num_summed(address, new_cn))) as u8,
    ) + "77"@
}

/// A byte in decimal, zero-filled to at least two digits.
pub fn zfill(val: u8) -> (s: String)
    ensures
        s@ == zfilled(val),
{
    let mut s = String::new();
    if val < 10 {
        push_char(&mut s, '0');
    }
    push_decimal(&mut s, val as u64);
    assert(s@ =~= zfilled(val));
    s
}

/// Whether every character of the text is a decimal digit.
fn all_decimal(s: &str) -> (b: bool)
    ensures
        b == is_decimal_text(s@),
{
    let n = s.unicode_len();
    let mut i: usize = 0;
    while i < n
        invariant
            n == s@.len(),
            i <= n,
            forall|k: int| 0 <= k < i ==> '0' <= #[trigger] s@[k] <= '9',
        decreases n - i,
    {
        let c = s.get_char(i);
        if !('0' <= c && c <= '9') {
            return false;
        }
        i = i + 1;
    }
    true
}

/// Whether the text is hexadecimal and the bytes it encodes sum to at most 255, as
/// the digits a checksum of these commands sums must.
fn summable(text: &str) -> (b: bool)
    ensures
        b == (is_hex_text(text@) && byte_sum(hex_decoding(text@)) <= 255),
{
    let bytes = match command_bytes(text) {
        Some(bytes) => bytes,
        None => return false,
    };
    let ghost total = byte_sum(bytes@);
    let mut sum: u64 = 0;
    let mut i: usize = 0;
    while i < bytes.len()
        invariant
            i <= bytes@.len(),
            total == byte_sum(bytes@),
            bytes@ == hex_decoding(text@),
            is_hex_text(text@),
            sum == byte_sum(bytes@.take(i as int)),
            sum <= 255,
        decreases bytes@.len() - i,
    {
        proof {
            lemma_byte_sum_prefix(bytes@, i as int);
            if i + 1 < bytes@.len() {
                lemma_byte_sum_prefix(bytes@, i + 1);
            } else {
                assert(bytes@.take(i + 1) =~= bytes@);
            }
        }
        sum = sum + bytes[i] as u64;
        if sum > 255 {
            return false;
        }
        i = i + 1;
    }
    assert(bytes@.take(bytes@.len() as int) =~= bytes@);
    true
}

/// An STR1XX board, addressed by its controller number in zero-filled decimal.
#[derive(Debug)]
pub struct Str1 {
    pub address: String,
}

impl Str1 {
    /// The board with this controller number.
    pub fn new(address: u8) -> (b: Str1)
        ensures
            b.address@ == zfilled(address),
    {
        Str1 { address: zfill(address) }
    }

    /// The sum of the bytes that hexadecimal text encodes, as two lowercase
    /// hexadecimal digits. The text must be hexadecimal and the sum fit in a byte.
    pub fn get_checksum(bytestring: &str) -> (s: String)
        requires
            is_hex_text(bytestring@),
            byte_sum(hex_decoding(bytestring@)) <= 255,
        ensures
            s@ == hex_byte(byte_sum(hex_decoding(bytestring@)) as u8),
    {
        proof {
            lemma_hex_text_is_ascii(bytestring@);
        }
        let bytes = match hex_decode(bytestring) {
            Ok(bytes) => bytes,
            Err(_) => {
                assert(false);
                Vec::new()
            },
        };
        let ghost total = byte_sum(bytes@);
        let mut raw_sum: u8 = 0;
        let mut i: usize = 0;
        while i < bytes.len()
            invariant
                i <= bytes@.len(),
                total == byte_sum(bytes@),
                total <= 255,
                raw_sum == byte_sum(bytes@.take(i as int)),
            decreases bytes@.len() - i,
        {
            proof {
                lemma_byte_sum_prefix(bytes@, i as int);
                if i + 1 < bytes@.len() {
                    lemma_byte_sum_prefix(bytes@, i + 1);
                } else {
                    assert(bytes@.take(i + 1) =~= bytes@);
                }
            }
            raw_sum = raw_sum + bytes[i];
            i = i + 1;
        }
        assert(bytes@.take(bytes@.len() as int) =~= bytes@);
        let one = vec![raw_sum];
        proof {
            lemma_hex_encoding_push(Seq::empty(), raw_sum);
            assert(Seq::<u8>::empty().push(raw_sum) =~= one@);
            assert(hex_encoding(Seq::<u8>::empty()) =~= Seq::<char>::empty());
        }
        let s = hex_encode(one.as_slice());
        assert(s@ =~= hex_byte(raw_sum));
        s
    }

    /// The text of the command that sets a relay on or off. The controller number
    /// must be decimal, the summed digits hexadecimal and their sum fit in a byte.
    pub fn set_relay_command(&self, relay_num: u8, state: State) -> (s: String)
        requires
            is_decimal_text(self.address@),
            is_hex_text(set_relay_summed(self.address@, relay_num, state)),
            byte_sum(hex_decoding(set_relay_summed(self.address@, relay_num, state))) <= 255,
        ensures
            s@ == set_relay_text(self.address@, relay_num, state),
    {
        let new_state = match state {
            State::On => "01",
            State::Off => "00",
        };
        let mut bytestring = String::from_str("55aa0817");
        bytestring.append(self.address.as_str());
        let relay = zfill(relay_num);
        bytestring.append(relay.as_str());
        bytestring.append("01");
        bytestring.append(new_state);
        let mut template = bytestring.clone();
        template.append("checksum77");
        proof {
            reveal_strlit("55aa0817");
            reveal_strlit("01");
            reveal_strlit("00");
            reveal_strlit("checksum77");
        }
        assert(template@ =~= set_relay_template(self.address@, relay_num, state));
        let summed = template.as_str().substring_char(4, 16);
        let checksum = Str1::get_checksum(summed);
        bytestring.append(checksum.as_str());
        bytestring.append("77");
        proof {
            reveal_strlit("77");
        }
        assert(bytestring@ =~= set_relay_text(self.address@, relay_num, state));
        bytestring
    }

    /// The text of the command that sets a relay on or off, or `None` when it cannot
    /// be built: the controller number is not decimal, the summed digits are not
    /// hexadecimal, or their sum does not fit in a byte.
    pub fn checked_set_relay_command(&self, relay_num: u8, state: State) -> (r: Option<String>)
        ensures
            r is Some <==> (is_decimal_text(self.address@) && is_hex_text(
                set_relay_summed(self.address@, relay_num, state),
            ) && byte_sum(hex_decoding(set_relay_summed(self.address@, relay_num, state)))
                <= 255),
            r matches Some(s) ==> s@ == set_relay_text(self.address@, relay_num, state),
    {
        if !all_decimal(self.address.as_str()) {
            return None;
        }
        let new_state = match state {
            State::On => "01",
            State::Off => "00",
        };
        let mut template = String::from_str("55aa0817");
        template.append(self.address.as_str());
        let relay = zfill(relay_num);
        template.append(relay.as_str());
        template.append("01");
        template.append(new_state);
        template.append("checksum77");
        proof {
            reveal_strlit("55aa0817");
            reveal_strlit("01");
            reveal_strlit("00");
            reveal_strlit("checksum77");
        }
        assert(template@ =~= set_relay_template(self.address@, relay_num, state));
        let summed = template.as_str().substring_char(4, 16);
        if !summable(summed) {
            return None;
        }
        Some(self.set_relay_command(relay_num, state))
    }

    /// Programs a new controller number as `set_controller_num` does, or returns
    /// `None` and changes nothing when the command cannot be built: the controller
    /// number is not decimal, the summed digits are not hexadecimal, or their sum
    /// does not fit in a byte.
    pub fn checked_set_controller_num(&mut self, new_cn: u8) -> (r: Option<String>)
        ensures
            r is Some <==> (is_decimal_text(old(self).address@) && is_hex_text(
                controller_num_summed(old(self).address@, new_cn),
            ) && byte_sum(hex_decoding(controller_num_summed(old(self).address@, new_cn))) <= 255),
            r matches Some(s) ==> s@ == controller_num_text(old(self).address@, new_cn)
                && final(self).address@ == zfilled(new_cn),
            r is None ==> final(self).address@ == old(self).address@,
    {
        if !all_decimal(self.address.as_str()) {
            return None;
        }
        let new_zfilled = zfill(new_cn);
        let mut template = String::from_str("55aa0601");
        template.append(self.address.as_str());
        template.append(new_zfilled.as_str());
        template.append("checksum77");
        proof {
            reveal_strlit("55aa0601");
            reveal_strlit("checksum77");
        }
        assert(template@ =~= controller_num_template(self.address@, new_cn));
        let summed = template.as_str().substring_char(4, 12);
        if !summable(summed) {
            return None;
        }
        Some(self.set_controller_num(new_cn))
    }

    /// The request for the states of all relays, or `None` when the relay is beyond
    /// the 16 a board has: such a relay is off.
    pub fn get_relay_command(&self, relay_num: u8) -> (r: Option<String>)
        ensures
            match r {
                Some(s) => relay_num <= 15 && s@ == status_request_text(self.address@),
                None => relay_num > 15,
            },
    {
        if relay_num > 15 {
            return None;
        }
        let mut s = String::from_str("55aa0714");
        s.append(self.address.as_str());
        s.append("00102d77");
        proof {
            reveal_strlit("55aa0714");
            reveal_strlit("00102d77");
        }
        assert(s@ =~= status_request_text(self.address@));
        Some(s)
    }

    /// The state of a relay in the board's status reply, which must hold the states
    /// of all 16 relays.
    pub fn relay_state_from_response(output: &Vec<u8>, relay_num: u8) -> (s: State)
        requires
            output@.len() >= 19,
            relay_num <= 15,
        ensures
            s == status_pair_state(hex_encoding(output@), relay_num),
    {
        status_reply_state(output, relay_num)
    }

    /// Programs a new controller number: returns the text of the command, addressed
    /// to the current controller number, and from then on addresses the board by the
    /// new one. The controller number must be decimal, the summed digits hexadecimal
    /// and their sum fit in a byte.
    pub fn set_controller_num(&mut self, new_cn: u8) -> (s: String)
        requires
            is_decimal_text(old(self).address@),
            is_hex_text(controller_num_summed(old(self).address@, new_cn)),
            byte_sum(hex_decoding(controller_num_summed(old(self).address@, new_cn))) <= 255,
        ensures
            s@ == controller_num_text(old(self).address@, new_cn),
            final(self).address@ == zfilled(new_cn),
    {
        let new_zfilled = zfill(new_cn);
        let mut bytestring = String::from_str("55aa0601");
        bytestring.append(self.address.as_str());
        bytestring.append(new_zfilled.as_str());
        let mut template = bytestring.clone();
        template.append("checksum77");
        proof {
            reveal_strlit("55aa0601");
            reveal_strlit("checksum77");
        }
        assert(template@ =~= controller_num_template(self.address@, new_cn));
        let summed = template.as_str().substring_char(4, 12);
        let checksum = Str1::get_checksum(summed);
        bytestring.append(checksum.as_str());
        bytestring.append("77");
        proof {
            reveal_strlit("77");
        }
        assert(bytestring@ =~= controller_num_text(old(self).address@, new_cn));
        self.address = new_zfilled;
        bytestring
    }
}

} // verus!
