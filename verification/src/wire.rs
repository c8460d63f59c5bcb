//! Framing of register transfers on the bus.
//!
//! A register write is two bytes: the command byte, which carries bits 9 and
//! 8 of the value, then bits 7..0 of the value. A register read is the
//! command byte alone, answered by two bytes, most significant first.
use crate::command::{lemma_pack_unpack, pack, unpack, Command, Op};
use vstd::prelude::*;

verus! {

/// The bytes of a write of `data` to the register at `reg`. Bits of `data`
/// above bit 9 have no place in the frame.
pub open spec fn write_frame(reg: u8, data: u16) -> Seq<u8> {
    seq![pack(reg as int, Op::Write, data as int / 256) as u8, (data % 256) as u8]
}

/// The bytes that ask for the value of the register at `reg`.
pub open spec fn read_request(reg: u8) -> Seq<u8> {
    seq![pack(reg as int, Op::Read, 0) as u8]
}

/// The value that a two-byte reply carries: the first byte is the high one.
pub open spec fn reply_value(reply: Seq<u8>) -> int
    recommends
        reply.len() == 2,
{
    256 * reply[0] + reply[1]
}

/// The register value that a device takes from a write frame: the two data
/// bits of the command byte above the data byte.
pub open spec fn frame_value(frame: Seq<u8>) -> int
    recommends
        frame.len() == 2,
{
    256 * unpack(frame[0] as int).msb + frame[1]
}

/// The reply of a device whose register holds `value`.
pub open spec fn reply_of(value: int) -> Seq<u8>
    recommends
        0 <= value < 0x1_0000,
{
    seq![(value / 256) as u8, (value % 256) as u8]
}

/// Builds the frame that writes `data` to the register at `reg`.
pub fn encode_write(reg: u8, data: u16) -> (frame: [u8; 2])
    ensures
        frame@ == write_frame(reg, data),
{
    let high: u8 = ((data >> 8) & 0b11) as u8;
    let low: u8 = (data & 0xff) as u8;
    proof {
        assert(((data >> 8) & 0b11) == (data / 256) % 4 && (data & 0xff) == data % 256)
            by (bit_vector);
        lemma_pack_unpack(reg as int, Op::Write, data as int / 256);
    }
    let command = Command::new().with_address(reg).with_operation(Op::Write).with_msb(high);
    let frame = [command.into_byte(), low];
    assert(frame@ =~= write_frame(reg, data));
    frame
}

/// Builds the request for the value of the register at `reg`.
pub fn encode_read(reg: u8) -> (request: [u8; 1])
    ensures
        request@ == read_request(reg),
{
    proof {
        lemma_pack_unpack(reg as int, Op::Read, 0);
    }
    let command = Command::new().with_address(reg).with_operation(Op::Read);
    let request = [command.into_byte()];
    assert(request@ =~= read_request(reg));
    request
}

/// Reassembles the value of a two-byte reply.
pub fn decode_reply(reply: &[u8; 2]) -> (value: u16)
    ensures
        value == reply_value(reply@),
{
    let high: u16 = reply[0] as u16;
    let low: u16 = reply[1] as u16;
    assert((high << 8) | low == 256 * high + low) by (bit_vector)
        requires
            high < 256,
            low < 256,
    ;
    (high << 8) | low
}

/// A write frame addresses the register it was built for, with the write
/// operation, and a device takes the low ten bits of the value from it.
pub proof fn lemma_write_frame(reg: u8, data: u16)
    ensures
        write_frame(reg, data).len() == 2,
        unpack(write_frame(reg, data)[0] as int).address == reg % 16,
        unpack(write_frame(reg, data)[0] as int).operation == Op::Write,
        frame_value(write_frame(reg, data)) == data % 1024,
{
    lemma_pack_unpack(reg as int, Op::Write, data as int / 256);
}

/// A read request addresses the register it was built for, with the read
/// operation and no data bits.
pub proof fn lemma_read_request(reg: u8)
    ensures
        read_request(reg).len() == 1,
        unpack(read_request(reg)[0] as int).address == reg % 16,
        unpack(read_request(reg)[0] as int).operation == Op::Read,
        unpack(read_request(reg)[0] as int).msb == 0,
{
    lemma_pack_unpack(reg as int, Op::Read, 0);
}

/// Bits of a value above bit 9 are cut off, not refused: a value and its low
/// ten bits give the same frame.
pub proof fn lemma_write_truncates(reg: u8, data: u16)
    ensures
        write_frame(reg, data) == write_frame(reg, (data % 1024) as u16),
{
    assert(write_frame(reg, data) =~= write_frame(reg, (data % 1024) as u16));
}

/// What a device took from a write frame and replays on a read is what was
/// written, up to its low ten bits: a value below 1024 comes back as it was.
pub proof fn lemma_write_read_round_trip(reg: u8, data: u16)
    ensures
        reply_value(reply_of(frame_value(write_frame(reg, data)))) == data % 1024,
        data < 1024 ==> reply_value(reply_of(frame_value(write_frame(reg, data)))) == data,
{
    lemma_write_frame(reg, data);
}

} // verus!
