use mcp4xxx::command::{Command, Op, Regs};
use mcp4xxx::BASE_ADDR;

const OPS: [Op; 4] = [Op::Write, Op::Increment, Op::Decrement, Op::Read];

#[test]
fn base_address_is_the_documented_default() {
    assert_eq!(BASE_ADDR, 0x28);
}

#[test]
fn register_map_is_fixed() {
    assert_eq!(Regs::Wiper0.addr(), 0x00);
    assert_eq!(Regs::Wiper1.addr(), 0x01);
    assert_eq!(Regs::Tcon.addr(), 0x04);
}

#[test]
fn operation_codes_are_two_bits() {
    assert_eq!(Op::Write.code(), 0b00);
    assert_eq!(Op::Increment.code(), 0b01);
    assert_eq!(Op::Decrement.code(), 0b10);
    assert_eq!(Op::Read.code(), 0b11);
}

#[test]
fn operation_from_code_reads_low_two_bits() {
    for op in OPS {
        assert_eq!(Op::from_code(op.code()), op);
        assert_eq!(Op::from_code(op.code() | 0xfc), op);
    }
}

#[test]
fn encode_packs_address_operation_msb() {
    assert_eq!(Command::encode(0x00, Op::Write, 0b00), 0x00);
    assert_eq!(Command::encode(0x04, Op::Write, 0b01), 0x41);
    assert_eq!(Command::encode(0x01, Op::Read, 0b00), 0x1c);
    assert_eq!(Command::encode(0x04, Op::Read, 0b00), 0x4c);
    assert_eq!(Command::encode(0x0f, Op::Read, 0b11), 0xff);
    assert_eq!(Command::encode(0x0a, Op::Increment, 0b10), 0xa6);
    assert_eq!(Command::encode(0x05, Op::Decrement, 0b01), 0x59);
}

#[test]
fn encode_is_deterministic() {
    for address in 0u8..16 {
        for op in OPS {
            for msb in 0u8..4 {
                assert_eq!(Command::encode(address, op, msb), Command::encode(address, op, msb));
            }
        }
    }
}

#[test]
fn encode_is_injective_on_valid_triples() {
    let mut seen = [false; 256];
    for address in 0u8..16 {
        for op in OPS {
            for msb in 0u8..4 {
                let byte = Command::encode(address, op, msb);
                assert!(!seen[byte as usize], "byte {byte:#04x} produced twice");
                seen[byte as usize] = true;
            }
        }
    }
    assert!(seen.iter().all(|hit| *hit));
}

#[test]
fn encode_masks_out_of_range_fields() {
    assert_eq!(Command::encode(0x14, Op::Write, 0), Command::encode(0x04, Op::Write, 0));
    assert_eq!(Command::encode(0xff, Op::Write, 0), 0xf0);
    assert_eq!(Command::encode(0x00, Op::Write, 0x07), 0x03);
    assert_eq!(Command::encode(0x00, Op::Write, 0xfc), 0x00);
}

#[test]
fn new_command_is_all_zero() {
    let cmd = Command::new();
    assert_eq!(cmd.into_byte(), 0);
    assert_eq!(cmd.address(), 0);
    assert_eq!(cmd.operation(), Op::Write);
    assert_eq!(cmd.msb(), 0);
}

#[test]
fn builders_change_one_field_only() {
    let cmd = Command::from_byte(0xff);
    assert_eq!(cmd.with_address(0).into_byte(), 0x0f);
    assert_eq!(cmd.with_operation(Op::Write).into_byte(), 0xf3);
    assert_eq!(cmd.with_operation(Op::Decrement).into_byte(), 0xfb);
    assert_eq!(cmd.with_msb(0).into_byte(), 0xfc);
    let cmd = Command::new();
    assert_eq!(cmd.with_address(0x0f).into_byte(), 0xf0);
    assert_eq!(cmd.with_operation(Op::Read).into_byte(), 0x0c);
    assert_eq!(cmd.with_msb(3).into_byte(), 0x03);
}

#[test]
fn accessors_read_back_every_byte() {
    for byte in 0u8..=255 {
        let cmd = Command::from_byte(byte);
        assert_eq!(cmd.address(), byte >> 4);
        assert_eq!(cmd.operation().code(), (byte >> 2) & 0b11);
        assert_eq!(cmd.msb(), byte & 0b11);
        assert_eq!(cmd.into_byte(), byte);
        assert_eq!(cmd.into_bytes(), [byte]);
        assert_eq!(Command::encode(cmd.address(), cmd.operation(), cmd.msb()), byte);
    }
}

#[test]
fn commands_compare_by_byte() {
    assert_eq!(Command::from_byte(0x41), Command::new().with_address(4).with_msb(1));
    assert_ne!(Command::from_byte(0x41), Command::from_byte(0x40));
}
