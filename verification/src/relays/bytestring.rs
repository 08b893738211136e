//! A `Bytestring`: a message to an STR1XX relay board.
//!
//! The format is
//!
//! ```text
//! (MA0) (MA1) (BC) (CC) (CN) (Data)... (Data) (CS) (MAE)
//! ```
//!
//! with master start bytes `MA0 = 0x55`, `MA1 = 0xAA`, master end byte
//! `MAE = 0x77`, and the checksum `CS`: the sum of the data bytes, keeping only its
//! low byte. The data bytes are the byte count `BC`, the command `CC`, the
//! controller number `CN` and the command's data.
use vstd::prelude::*;

use crate::text::{hex_encoding, lemma_hex_encoding_push, push_hex_byte};

verus! {

/// Master start byte 0.
pub const MA0: u8 = 0x55;

/// Master start byte 1.
pub const MA1: u8 = 0xAA;

/// Master end byte.
pub const MAE: u8 = 0x77;

/// The sum of the bytes.
pub open spec fn byte_sum(bytes: Seq<u8>) -> nat
    decreases bytes.len(),
{
    if bytes.len() == 0 {
        0
    } else {
        byte_sum(bytes.drop_last()) + bytes.last() as nat
    }
}

/// The checksum of data bytes: the low byte of their sum.
pub open spec fn checksum(data: Seq<u8>) -> u8 {
    (byte_sum(data) % 256) as u8
}

/// The full frame of a message with these data bytes.
pub open spec fn frame(data: Seq<u8>) -> Seq<u8> {
    seq![MA0, MA1] + data + seq![checksum(data), MAE]
}

/// A message to an STR1XX board: its data bytes, without `MA0`, `MA1`, `CS` and `MAE`.
#[derive(Debug)]
pub struct Bytestring {
    pub data: Vec<u8>,
}

/// Each byte adds at most 255 to the sum.
pub proof fn lemma_byte_sum_bound(bytes: Seq<u8>)
    ensures
        byte_sum(bytes) <= 255 * bytes.len(),
    decreases bytes.len(),
{
    if bytes.len() > 0 {
        lemma_byte_sum_bound(bytes.drop_last());
    }
}

/// The sum of a prefix grows with the prefix.
pub proof fn lemma_byte_sum_prefix(bytes: Seq<u8>, i: int)
    requires
        0 <= i < bytes.len(),
    ensures
        byte_sum(bytes.take(i + 1)) == byte_sum(bytes.take(i)) + bytes[i],
        byte_sum(bytes.take(i)) <= byte_sum(bytes),
    decreases bytes.len(),
{
    assert(bytes.take(i + 1).drop_last() =~= bytes.take(i));
    if i + 1 < bytes.len() {
        lemma_byte_sum_prefix(bytes.drop_last(), i);
        assert(bytes.drop_last().take(i) =~= bytes.take(i));
    } else {
        assert(bytes.take(i + 1) =~= bytes);
    }
}

/// The low byte of the sum of the bytes.
pub fn low_byte_of_sum(data: &[u8]) -> (cs: u8)
    ensures
        cs == checksum(data@),
{
    let mut low: u32 = 0;
    let mut i: usize = 0;
    while i < data.len()
        invariant
            i <= data@.len(),
            low < 256,
            low == byte_sum(data@.take(i as int)) % 256,
        decreases data@.len() - i,
    {
        proof {
            lemma_byte_sum_prefix(data@, i as int);
            let before = byte_sum(data@.take(i as int));
            assert((before % 256 + data@[i as int]) % 256 == (before + data@[i as int]) % 256) by {
                vstd::arithmetic::div_mod::lemma_add_mod_noop(
                    before as int,
                    data@[i as int] as int,
                    256,
                );
            }
        }
        low = (low + data[i] as u32) % 256;
        i = i + 1;
    }
    assert(data@.take(data@.len() as int) =~= data@);
    low as u8
}

/// The full frame of a message with these data bytes, as lowercase hex with two
/// digits per byte.
pub fn frame_hex(data: &[u8]) -> (s: String)
    ensures
        s@ == hex_encoding(frame(data@)),
{
    let mut s = String::new();
    proof {
        lemma_hex_encoding_push(Seq::<u8>::empty(), MA0);
        lemma_hex_encoding_push(seq![MA0], MA1);
        assert(Seq::<u8>::empty().push(MA0) =~= seq![MA0]);
        assert(seq![MA0].push(MA1) =~= seq![MA0, MA1]);
        assert(hex_encoding(Seq::<u8>::empty()) =~= Seq::<char>::empty());
    }
    push_hex_byte(&mut s, MA0);
    push_hex_byte(&mut s, MA1);
    let ghost head = seq![MA0, MA1];
    assert(s@ =~= hex_encoding(head));
    let mut i: usize = 0;
    while i < data.len()
        invariant
            i <= data@.len(),
            head == seq![MA0, MA1],
            s@ == hex_encoding(head + data@.take(i as int)),
        decreases data@.len() - i,
    {
        proof {
            lemma_hex_encoding_push(head + data@.take(i as int), data@[i as int]);
            assert((head + data@.take(i as int)).push(data@[i as int]) =~= head + data@.take(
                i + 1,
            ));
        }
        push_hex_byte(&mut s, data[i]);
        i = i + 1;
    }
    let cs = low_byte_of_sum(data);
    let ghost body = head + data@;
    assert(data@.take(data@.len() as int) =~= data@);
    proof {
        lemma_hex_encoding_push(body, cs);
        lemma_hex_encoding_push(body.push(cs), MAE);
        assert(frame(data@) =~= body.push(cs).push(MAE));
    }
    push_hex_byte(&mut s, cs);
    push_hex_byte(&mut s, MAE);
    assert(s@ =~= hex_encoding(frame(data@)));
    s
}

impl Bytestring {
    /// A message with these data bytes.
    pub fn from(bytes: Vec<u8>) -> (b: Bytestring)
        ensures
            b.data@ == bytes@,
    {
        Bytestring { data: bytes }
    }

    /// The checksum of the message: the low byte of the sum of the data bytes. The
    /// sum is taken as an `i32`, so it must fit in one.
    pub fn checksum_as_hex(&self) -> (cs: u8)
        requires
            byte_sum(self.data@) <= i32::MAX,
        ensures
            cs == checksum(self.data@),
    {
        low_byte_of_sum(self.data.as_slice())
    }

    /// All bytes of the message, including the master bytes, as lowercase hex with
    /// two digits per byte.
    pub fn full(&self) -> (s: String)
        requires
            byte_sum(self.data@) <= i32::MAX,
        ensures
            s@ == hex_encoding(frame(self.data@)),
    {
        frame_hex(self.data.as_slice())
    }

    /// Consumes the message, returning all its bytes: `MA0`, `MA1`, the data bytes,
    /// the checksum and `MAE`.
    pub fn to_bytes(self) -> (bytes: Vec<u8>)
        requires
            byte_sum(self.data@) <= i32::MAX,
        ensures
            bytes@ == frame(self.data@),
    {
        let cs = self.checksum_as_hex();
        let mut bytes: Vec<u8> = Vec::new();
        bytes.push(MA0);
        bytes.push(MA1);
        let mut i: usize = 0;
        while i < self.data.len()
            invariant
                i <= self.data@.len(),
                bytes@ == seq![MA0, MA1] + self.data@.take(i as int),
            decreases self.data@.len() - i,
        {
            bytes.push(self.data[i]);
            assert(seq![MA0, MA1] + self.data@.take(i + 1) =~= (seq![MA0, MA1] + self.data@.take(
                i as int,
            )).push(self.data@[i as int]));
            i = i + 1;
        }
        assert(self.data@.take(self.data@.len() as int) =~= self.data@);
        bytes.push(cs);
        bytes.push(MAE);
        assert(bytes@ =~= frame(self.data@));
        bytes
    }
}

} // verus!
