//! The device: probe, register write and read, configuration with read-back.
//!
//! The transport promises nothing about its answers, so each operation is
//! stated over the handle's history: which transfers it asked for, in which
//! order, and what it returns for each answer that the transport gave.
use crate::bus::{Bus, Traced, Transaction};
use crate::command::Regs;
use crate::error::{passed_on, Mcp4xxxError};
use crate::tcon::{flags_of, Tcon};
use crate::wire::{
    decode_reply, encode_read, encode_write, frame_value, lemma_write_frame, read_request,
    reply_of, reply_value, write_frame,
};
use vstd::prelude::*;

verus! {

/// What a register read returns for each answer of the transport.
pub open spec fn read_result<E>(reply: Result<Seq<u8>, E>) -> Result<u16, Mcp4xxxError<E>> {
    match reply {
        Ok(bytes) => Ok(reply_value(bytes) as u16),
        Err(e) => Err(Mcp4xxxError::I2c(e)),
    }
}

/// What comparing a value read back from the control register returns:
/// success exactly when the value holds the flags that were asked for. Bits
/// above bit 8 of the value play no part.
pub open spec fn readback_result<E>(requested: Tcon, value: u16) -> Result<(), Mcp4xxxError<E>> {
    if flags_of(value) == requested@ {
        Ok(())
    } else {
        Err(Mcp4xxxError::Config)
    }
}

/// `after` is `before` followed by one write transfer of `data` to register
/// `reg` of the device at `address`, and `result` is what the transport
/// answered, passed on.
pub open spec fn wrote<E>(
    before: Seq<Transaction<E>>,
    after: Seq<Transaction<E>>,
    address: u8,
    reg: u8,
    data: u16,
    result: Result<(), Mcp4xxxError<E>>,
) -> bool {
    &&& after.len() == before.len() + 1
    &&& after.drop_last() == before
    &&& after.last() matches Transaction::Write { address: to, bytes, ack } && to == address
        && bytes == write_frame(reg, data) && result == passed_on(ack)
}

/// `after` is `before` followed by one write-then-read transfer that asks
/// the device at `address` for two bytes of register `reg`, and `result` is
/// the value that the reply carries, or the transport's error.
pub open spec fn fetched<E>(
    before: Seq<Transaction<E>>,
    after: Seq<Transaction<E>>,
    address: u8,
    reg: u8,
    result: Result<u16, Mcp4xxxError<E>>,
) -> bool {
    &&& after.len() == before.len() + 1
    &&& after.drop_last() == before
    &&& after.last() matches Transaction::WriteRead { address: to, bytes, len, reply } && to
        == address && bytes == read_request(reg) && len == 2 && result == read_result(reply)
}

/// `after` is `before` followed by the transfers of one configuration: a
/// write of the raw value of `tcon` to the control register and, unless that
/// write failed, a read of the same register. `result` is the first error of
/// the transport, if there was one, and else the comparison of the value read.
pub open spec fn configured<E>(
    before: Seq<Transaction<E>>,
    after: Seq<Transaction<E>>,
    address: u8,
    tcon: Tcon,
    result: Result<(), Mcp4xxxError<E>>,
) -> bool {
    &&& before.len() + 1 <= after.len() <= before.len() + 2
    &&& after.take(before.len() as int) == before
    &&& after[before.len() as int] matches Transaction::Write { address: to, bytes, ack } && to
        == address && bytes == write_frame(Regs::Tcon.addr(), tcon.bits()) && match ack {
        Err(e) => after.len() == before.len() + 1 && result == Err::<(), Mcp4xxxError<E>>(
            Mcp4xxxError::I2c(e),
        ),
        Ok(_) => {
            &&& after.len() == before.len() + 2
            &&& after.last() matches Transaction::WriteRead { address: from, bytes: request, len, reply }
                && from == address && request == read_request(Regs::Tcon.addr()) && len == 2
                && result == match reply {
                Err(e) => Err(Mcp4xxxError::I2c(e)),
                Ok(bytes) => readback_result::<E>(tcon, reply_value(bytes) as u16),
            }
        },
    }
}

/// Compares a value read back from the control register with the flags
/// that were asked for.
pub fn verify_readback<E>(requested: Tcon, value: u16) -> (result: Result<(), Mcp4xxxError<E>>)
    ensures
        result == readback_result::<E>(requested, value),
{
    let read = Tcon::from_bits_truncate(value);
    proof {
        use_type_invariant(requested);
        Tcon::lemma_equal_by_flags(requested, read);
    }
    if requested != read {
        Err(Mcp4xxxError::Config)
    } else {
        Ok(())
    }
}

/// Whether `answer` is a read that the transport answered with the value
/// that a device took from the write frame `frame`.
pub open spec fn echoes<E>(answer: Transaction<E>, frame: Seq<u8>) -> bool {
    answer matches Transaction::WriteRead { reply: Ok(bytes), .. } && bytes == reply_of(
        frame_value(frame),
    )
}

/// Comparing a value read back looks at the nine register bits and at
/// nothing else: it succeeds exactly when they are the raw value of the
/// flags that were asked for.
pub proof fn lemma_readback_decides<E>(requested: Tcon, value: u16)
    requires
        requested.wf(),
    ensures
        value % 0x200 == requested.bits() ==> readback_result::<E>(requested, value) == Ok::<
            (),
            Mcp4xxxError<E>,
        >(()),
        value % 0x200 != requested.bits() ==> readback_result::<E>(requested, value) == Err::<
            (),
            Mcp4xxxError<E>,
        >(Mcp4xxxError::Config),
        readback_result::<E>(requested, value) is Ok <==> Tcon::spec_from_bits_truncate(value)
            == requested,
{
    Tcon::lemma_from_bits_truncate(value);
    Tcon::lemma_equal_by_flags(requested, Tcon::spec_from_bits_truncate(value));
}

/// Over a transport that takes the write and answers the read with the value
/// that the write carried, configuration succeeds, whatever flags are asked
/// for, and the flags read back are the flags asked for.
pub proof fn lemma_configure_echo<E>(
    before: Seq<Transaction<E>>,
    after: Seq<Transaction<E>>,
    address: u8,
    tcon: Tcon,
    result: Result<(), Mcp4xxxError<E>>,
)
    requires
        tcon.wf(),
        configured(before, after, address, tcon, result),
        after[before.len() as int] matches Transaction::Write { bytes, ack, .. } && ack is Ok
            && echoes(after.last(), bytes),
    ensures
        result == Ok::<(), Mcp4xxxError<E>>(()),
        after.last() matches Transaction::WriteRead { reply: Ok(bytes), .. }
            && Tcon::spec_from_bits_truncate(reply_value(bytes) as u16) == tcon,
{
    tcon.lemma_bits();
    lemma_write_frame(Regs::Tcon.addr(), tcon.bits());
    lemma_readback_decides::<E>(tcon, tcon.bits());
}

/// Over a transport that takes the write and answers the read with a value
/// that differs from the one written in at least one of the nine register
/// bits, configuration fails with a configuration mismatch.
pub proof fn lemma_configure_mismatch<E>(
    before: Seq<Transaction<E>>,
    after: Seq<Transaction<E>>,
    address: u8,
    tcon: Tcon,
    result: Result<(), Mcp4xxxError<E>>,
)
    requires
        tcon.wf(),
        configured(before, after, address, tcon, result),
        after[before.len() as int] matches Transaction::Write { ack, .. } && ack is Ok,
        after.last() matches Transaction::WriteRead { reply: Ok(bytes), .. } && reply_value(bytes)
            % 0x200 != tcon.bits(),
    ensures
        result == Err::<(), Mcp4xxxError<E>>(Mcp4xxxError::Config),
{
    let value = match after.last() {
        Transaction::WriteRead { reply: Ok(bytes), .. } => reply_value(bytes) as u16,
        _ => 0,
    };
    lemma_readback_decides::<E>(tcon, value);
}

/// An MCP4xxx device on a bus.
pub struct Mcp4xxx<B: Bus> {
    addr: u8,
    i2c: Traced<B>,
}

impl<B: Bus> Mcp4xxx<B> {
    /// The bus address of the device.
    pub closed spec fn address(&self) -> u8 {
        self.addr
    }

    /// Every transfer made for this device so far, oldest first.
    pub closed spec fn history(&self) -> Seq<Transaction<B::Error>> {
        self.i2c.history()
    }

    /// Connects to the device at `addr` on `i2c`. One byte is read from the
    /// device to see that it answers; if that read fails, no handle is made
    /// and the transport's error is returned.
    pub fn new(addr: u8, i2c: B) -> (result: Result<Self, Mcp4xxxError<B::Error>>)
        ensures
            match result {
                Ok(device) => {
                    &&& device.address() == addr
                    &&& device.history().len() == 1
                    &&& device.history()[0] matches Transaction::Read { address, len, reply }
                        && address == addr && len == 1 && reply is Ok
                },
                Err(error) => error is I2c,
            },
    {
        let mut i2c = Traced::new(i2c);
        let mut buff = [0u8;1];
        let answer = i2c.read(addr, &mut buff);
        match Mcp4xxxError::pass_on(answer) {
            Ok(_) => Ok(Mcp4xxx { addr, i2c }),
            Err(e) => Err(e),
        }
    }

    /// Configures the device through the control register: writes `tcon`,
    /// reads the register back and compares.
    pub fn configure(&mut self, tcon: Tcon) -> (result: Result<(), Mcp4xxxError<B::Error>>)
        ensures
            final(self).address() == old(self).address(),
            configured(
                old(self).history(),
                final(self).history(),
                old(self).address(),
                tcon,
                result,
            ),
    {
        let written = self.write(Regs::Tcon.addr(), tcon.bits());
        let ghost first = self.history();
        assert(first.take(old(self).history().len() as int) =~= old(self).history());
        match written {
            Err(e) => {
                return Err(e);
            },
            Ok(_) => {},
        }
        let read = self.read(Regs::Tcon.addr());
        assert(self.history().take(old(self).history().len() as int) =~= old(self).history());
        match read {
            Err(e) => Err(e),
            Ok(value) => verify_readback(tcon, value),
        }
    }

    /// Set wiper 0 position.
    pub fn set_wiper0(&mut self, val: u16) -> (result: Result<(), Mcp4xxxError<B::Error>>)
        ensures
            final(self).address() == old(self).address(),
            wrote(
                old(self).history(),
                final(self).history(),
                old(self).address(),
                Regs::Wiper0.addr(),
                val,
                result,
            ),
    {
        self.write(Regs::Wiper0.addr(), val)
    }

    /// Set wiper 1 position.
    pub fn set_wiper1(&mut self, val: u16) -> (result: Result<(), Mcp4xxxError<B::Error>>)
        ensures
            final(self).address() == old(self).address(),
            wrote(
                old(self).history(),
                final(self).history(),
                old(self).address(),
                Regs::Wiper1.addr(),
                val,
                result,
            ),
    {
        self.write(Regs::Wiper1.addr(), val)
    }

    /// Write to a device register. The frame holds the low four bits of
    /// `reg` and the low ten bits of `data`.
    pub fn write(&mut self, reg: u8, data: u16) -> (result: Result<(), Mcp4xxxError<B::Error>>)
        ensures
            final(self).address() == old(self).address(),
            wrote(
                old(self).history(),
                final(self).history(),
                old(self).address(),
                reg,
                data,
                result,
            ),
    {
        let frame = encode_write(reg, data);
        let answer = self.i2c.write(self.addr, &frame);
        assert(self.history().drop_last() =~= old(self).history());
        Mcp4xxxError::pass_on(answer)
    }

    /// Read from a device register: the two bytes of the reply, the first
    /// one high.
    pub fn read(&mut self, reg: u8) -> (result: Result<u16, Mcp4xxxError<B::Error>>)
        ensures
            final(self).address() == old(self).address(),
            fetched(
                old(self).history(),
                final(self).history(),
                old(self).address(),
                reg,
                result,
            ),
    {
        let request = encode_read(reg);
        let mut buff = [0u8;2];
        let answer = self.i2c.write_read(self.addr, &request, &mut buff);
        assert(self.history().drop_last() =~= old(self).history());
        match Mcp4xxxError::pass_on(answer) {
            Ok(_) => Ok(decode_reply(&buff)),
            Err(e) => Err(e),
        }
    }
}

} // verus!
