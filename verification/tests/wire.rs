use mcp4xxx::command::Regs;
use mcp4xxx::wire::{decode_reply, encode_read, encode_write};

#[test]
fn write_frame_is_command_then_low_byte() {
    assert_eq!(encode_write(0x00, 0x000), [0x00, 0x00]);
    assert_eq!(encode_write(0x00, 0x0ab), [0x00, 0xab]);
    assert_eq!(encode_write(0x00, 0x3ff), [0x03, 0xff]);
    assert_eq!(encode_write(0x01, 0x100), [0x11, 0x00]);
    assert_eq!(encode_write(0x01, 0x2a5), [0x12, 0xa5]);
    assert_eq!(encode_write(0x04, 0x00f), [0x40, 0x0f]);
    assert_eq!(encode_write(0x04, 0x1ff), [0x41, 0xff]);
}

#[test]
fn write_frame_uses_the_register_map() {
    assert_eq!(encode_write(Regs::Wiper0.addr(), 0x155), [0x01, 0x55]);
    assert_eq!(encode_write(Regs::Wiper1.addr(), 0x155), [0x11, 0x55]);
    assert_eq!(encode_write(Regs::Tcon.addr(), 0x155), [0x41, 0x55]);
}

#[test]
fn write_frame_drops_bits_above_bit_nine() {
    assert_eq!(encode_write(0x00, 1024), [0x00, 0x00]);
    assert_eq!(encode_write(0x00, 1025), [0x00, 0x01]);
    assert_eq!(encode_write(0x00, 0x7ff), [0x03, 0xff]);
    assert_eq!(encode_write(0x01, 0xffff), [0x13, 0xff]);
    assert_eq!(encode_write(0x01, 0xfc00), [0x10, 0x00]);
    for data in [1024u16, 1500, 2047, 2048, 0x8123, 0xffff] {
        assert_eq!(encode_write(0x00, data), encode_write(0x00, data & 0x3ff));
    }
}

#[test]
fn write_frame_keeps_the_low_four_address_bits() {
    assert_eq!(encode_write(0x14, 0x0ff), [0x40, 0xff]);
    assert_eq!(encode_write(0xf1, 0x001), [0x10, 0x01]);
}

#[test]
fn read_request_is_one_command_byte() {
    assert_eq!(encode_read(0x00), [0x0c]);
    assert_eq!(encode_read(0x01), [0x1c]);
    assert_eq!(encode_read(0x04), [0x4c]);
    assert_eq!(encode_read(0x0f), [0xfc]);
    assert_eq!(encode_read(0x14), [0x4c]);
}

#[test]
fn reply_is_big_endian() {
    assert_eq!(decode_reply(&[0x00, 0x00]), 0x0000);
    assert_eq!(decode_reply(&[0x01, 0xff]), 0x01ff);
    assert_eq!(decode_reply(&[0x03, 0xff]), 0x03ff);
    assert_eq!(decode_reply(&[0x12, 0x34]), 0x1234);
    assert_eq!(decode_reply(&[0xff, 0x00]), 0xff00);
    assert_eq!(decode_reply(&[0x00, 0xff]), 0x00ff);
}

#[test]
fn frame_and_reply_agree_on_every_ten_bit_value() {
    for value in 0u16..1024 {
        let frame = encode_write(0x00, value);
        let stored = (((frame[0] & 0b11) as u16) << 8) | frame[1] as u16;
        assert_eq!(stored, value);
        assert_eq!(decode_reply(&[(stored >> 8) as u8, stored as u8]), value);
    }
}
