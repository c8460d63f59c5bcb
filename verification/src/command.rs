//! The command byte: register address, operation and the two top data bits.
//!
//! Layout, most significant bit first: `[address:4][operation:2][msb:2]`.
use vstd::prelude::*;

verus! {

/// Register operation, a two-bit code.
#[derive(Clone, Copy, PartialEq, Eq, Structural, Debug)]
pub enum Op {
    Write,
    Increment,
    Decrement,
    Read,
}

impl Op {
    /// The two-bit code of this operation.
    pub open spec fn spec_code(self) -> u8 {
        match self {
            Op::Write => 0,
            Op::Increment => 1,
            Op::Decrement => 2,
            Op::Read => 3,
        }
    }

    /// The operation whose code is `code` modulo four.
    pub open spec fn spec_from_code(code: int) -> Op {
        let c = code % 4;
        if c == 0 {
            Op::Write
        } else if c == 1 {
            Op::Increment
        } else if c == 2 {
            Op::Decrement
        } else {
            Op::Read
        }
    }

    /// The two-bit code of this operation.
    #[verifier::when_used_as_spec(spec_code)]
    pub fn code(self) -> (code: u8)
        ensures
            code == self.spec_code(),
            code < 4,
    {
        match self {
            Op::Write => 0,
            Op::Increment => 1,
            Op::Decrement => 2,
            Op::Read => 3,
        }
    }

    /// Reads an operation from the low two bits of `code`; higher bits are
    /// ignored.
    pub fn from_code(code: u8) -> (op: Op)
        ensures
            op == Op::spec_from_code(code as int),
            op.code() == code % 4,
    {
        let low: u8 = code & 0b11;
        assert(low == code % 4) by (bit_vector)
            requires
                low == code & 0b11,
        ;
        if low == 0 {
            Op::Write
        } else if low == 1 {
            Op::Increment
        } else if low == 2 {
            Op::Decrement
        } else {
            Op::Read
        }
    }
}

/// Register addresses of the device.
#[derive(Clone, Copy, PartialEq, Eq, Structural, Debug)]
pub enum Regs {
    /// Wiper 0 register
    Wiper0,
    /// Wiper 1 register
    Wiper1,
    /// Terminal control register
    Tcon,
}

impl Regs {
    /// The four-bit address of this register.
    pub open spec fn spec_addr(self) -> u8 {
        match self {
            Regs::Wiper0 => 0x00,
            Regs::Wiper1 => 0x01,
            Regs::Tcon => 0x04,
        }
    }

    /// The four-bit address of this register.
    #[verifier::when_used_as_spec(spec_addr)]
    pub fn addr(self) -> (addr: u8)
        ensures
            addr == self.spec_addr(),
            addr < 16,
    {
        match self {
            Regs::Wiper0 => 0x00,
            Regs::Wiper1 => 0x01,
            Regs::Tcon => 0x04,
        }
    }
}

/// What a command byte says: the three fields as numbers.
pub struct CommandView {
    /// Register address, `0..16`.
    pub address: int,
    /// Register operation.
    pub operation: Op,
    /// Bits 9 and 8 of the value being transferred, `0..4`.
    pub msb: int,
}

impl CommandView {
    /// Every field lies in the range that its width allows.
    pub open spec fn wf(self) -> bool {
        &&& 0 <= self.address < 16
        &&& 0 <= self.msb < 4
    }

    /// The byte that carries these fields.
    pub open spec fn byte(self) -> int {
        pack(self.address, self.operation, self.msb)
    }
}

/// The command byte for an address, an operation and two top data bits. An
/// address is taken modulo 16 and the data bits modulo 4, so that no field
/// spills into its neighbour.
pub open spec fn pack(address: int, operation: Op, msb: int) -> int {
    16 * (address % 16) + 4 * operation.code() + msb % 4
}

/// The fields that a byte carries.
pub open spec fn unpack(byte: int) -> CommandView {
    CommandView {
        address: byte / 16 % 16,
        operation: Op::spec_from_code(byte / 4),
        msb: byte % 4,
    }
}

/// A command byte.
#[derive(Clone, Copy, PartialEq, Eq, Structural, Debug)]
pub struct Command {
    byte: u8,
}

impl View for Command {
    type V = CommandView;

    closed spec fn view(&self) -> CommandView {
        unpack(self.byte as int)
    }
}

impl Command {
    /// The command with every field zero: a write to register 0.
    pub fn new() -> (cmd: Command)
        ensures
            cmd@ == (CommandView { address: 0, operation: Op::Write, msb: 0 }),
    {
        Command { byte: 0 }
    }

    /// Packs the three fields into one byte.
    pub fn encode(address: u8, operation: Op, msb: u8) -> (byte: u8)
        ensures
            byte == pack(address as int, operation, msb as int),
    {
        Command::new().with_address(address).with_operation(operation).with_msb(msb).into_byte()
    }

    /// The command that `byte` carries.
    pub fn from_byte(byte: u8) -> (cmd: Command)
        ensures
            cmd@ == unpack(byte as int),
            cmd@.wf(),
    {
        Command { byte }
    }

    /// The byte that goes on the wire.
    pub fn into_byte(self) -> (byte: u8)
        ensures
            byte == self@.byte(),
            self@ == unpack(byte as int),
    {
        proof {
            lemma_unpack_pack(self.byte);
        }
        self.byte
    }

    /// The command as the one-byte array that a bus write takes.
    pub fn into_bytes(self) -> (bytes: [u8; 1])
        ensures
            bytes@ =~= seq![self@.byte() as u8],
            0 <= self@.byte() < 256,
    {
        let b = self.into_byte();
        [b]
    }

    /// The register address, `0..16`.
    pub fn address(&self) -> (address: u8)
        ensures
            address == self@.address,
            address < 16,
    {
        let b = self.byte;
        assert(b >> 4 == b / 16 % 16 && b >> 4 < 16) by (bit_vector);
        b >> 4
    }

    /// The register operation.
    pub fn operation(&self) -> (operation: Op)
        ensures
            operation == self@.operation,
    {
        let b = self.byte;
        assert((b >> 2) % 4 == (b / 4) % 4) by (bit_vector);
        Op::from_code(b >> 2)
    }

    /// Bits 9 and 8 of the value being transferred, `0..4`.
    pub fn msb(&self) -> (msb: u8)
        ensures
            msb == self@.msb,
            msb < 4,
    {
        let b = self.byte;
        assert(b & 0b11 == b % 4 && b & 0b11 < 4) by (bit_vector);
        b & 0b11
    }

    /// The same command with another register address. Only the low four
    /// bits of `address` are used.
    pub fn with_address(self, address: u8) -> (cmd: Command)
        ensures
            cmd@ == (CommandView { address: address as int % 16, ..self@ }),
    {
        let b = self.byte;
        let r: u8 = (b & 0x0f) | ((address & 0x0f) << 4);
        assert(r / 16 % 16 == address % 16 && r / 4 % 4 == b / 4 % 4 && r % 4 == b % 4)
            by (bit_vector)
            requires
                r == (b & 0x0f) | ((address & 0x0f) << 4),
        ;
        Command { byte: r }
    }

    /// The same command with another operation.
    pub fn with_operation(self, operation: Op) -> (cmd: Command)
        ensures
            cmd@ == (CommandView { operation, ..self@ }),
    {
        let b = self.byte;
        let c = operation.code();
        let r: u8 = (b & 0xf3) | (c << 2);
        assert(r / 16 % 16 == b / 16 % 16 && r / 4 % 4 == c && r % 4 == b % 4) by (bit_vector)
            requires
                r == (b & 0xf3) | (c << 2),
                c < 4,
        ;
        Command { byte: r }
    }

    /// The same command with other top data bits. Only the low two bits of
    /// `msb` are used.
    pub fn with_msb(self, msb: u8) -> (cmd: Command)
        ensures
            cmd@ == (CommandView { msb: msb as int % 4, ..self@ }),
    {
        let b = self.byte;
        let r: u8 = (b & 0xfc) | (msb & 0b11);
        assert(r / 16 % 16 == b / 16 % 16 && r / 4 % 4 == b / 4 % 4 && r % 4 == msb % 4)
            by (bit_vector)
            requires
                r == (b & 0xfc) | (msb & 0b11),
        ;
        Command { byte: r }
    }
}

/// Packing the fields of a byte gives the byte back.
pub proof fn lemma_unpack_pack(byte: u8)
    ensures
        unpack(byte as int).byte() == byte,
        unpack(byte as int).wf(),
{
}

/// Unpacking a packed triple gives the triple back, each field reduced to
/// its width.
pub proof fn lemma_pack_unpack(address: int, operation: Op, msb: int)
    ensures
        0 <= pack(address, operation, msb) < 256,
        unpack(pack(address, operation, msb)) == (CommandView {
            address: address % 16,
            operation,
            msb: msb % 4,
        }),
{
}

/// Two triples whose fields are in range and that pack to the same byte are
/// the same triple.
pub proof fn lemma_pack_injective(a1: int, o1: Op, m1: int, a2: int, o2: Op, m2: int)
    requires
        0 <= a1 < 16,
        0 <= a2 < 16,
        0 <= m1 < 4,
        0 <= m2 < 4,
        pack(a1, o1, m1) == pack(a2, o2, m2),
    ensures
        a1 == a2,
        o1 == o2,
        m1 == m2,
{
    lemma_pack_unpack(a1, o1, m1);
    lemma_pack_unpack(a2, o2, m2);
}

} // verus!
