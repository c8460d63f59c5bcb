//! The transport that a device is driven over.
use vstd::prelude::*;

verus! {

/// A blocking two-wire bus. Each method either completes the transfer or
/// fails with the transport's own error; nothing more is asked of it, and
/// nothing more is assumed.
pub trait Bus {
    /// What a failed transfer reports.
    type Error;

    /// Sends `bytes` to the device at `address`.
    fn write(&mut self, address: u8, bytes: &[u8]) -> Result<(), Self::Error>;

    /// Fills `buffer` from the device at `address`.
    fn read(&mut self, address: u8, buffer: &mut [u8]) -> Result<(), Self::Error>;

    /// Sends `bytes` to the device at `address`, then fills `buffer` from it,
    /// in one transaction.
    fn write_read(&mut self, address: u8, bytes: &[u8], buffer: &mut [u8]) -> Result<
        (),
        Self::Error,
    >;
}

/// One transfer on the bus, as the driver asked for it and as the transport
/// answered it.
pub enum Transaction<E> {
    /// A read of `len` bytes.
    Read { address: u8, len: nat, reply: Result<Seq<u8>, E> },
    /// A write of `bytes`.
    Write { address: u8, bytes: Seq<u8>, ack: Result<(), E> },
    /// A write of `bytes` followed by a read of `len` bytes.
    WriteRead { address: u8, bytes: Seq<u8>, len: nat, reply: Result<Seq<u8>, E> },
}

/// The answer to a read: the bytes that the transport left in the buffer, or
/// the error that it failed with.
pub open spec fn read_reply<E>(outcome: Result<(), E>, buffer: Seq<u8>) -> Result<Seq<u8>, E> {
    match outcome {
        Ok(_) => Ok(buffer),
        Err(e) => Err(e),
    }
}

/// A bus together with the record of every transfer made on it. The record
/// grows by one entry with each call, and by nothing else.
pub struct Traced<B: Bus> {
    bus: B,
    log: Ghost<Seq<Transaction<B::Error>>>,
}

impl<B: Bus> Traced<B> {
    /// Every transfer made so far, oldest first.
    pub closed spec fn history(&self) -> Seq<Transaction<B::Error>> {
        self.log@
    }

    /// Takes a bus on which nothing has been recorded yet.
    pub fn new(bus: B) -> (traced: Self)
        ensures
            traced.history() == Seq::<Transaction<B::Error>>::empty(),
    {
        Traced { bus, log: Ghost(Seq::empty()) }
    }

    /// Sends `bytes` to the device at `address`.
    pub fn write(&mut self, address: u8, bytes: &[u8]) -> (ack: Result<(), B::Error>)
        ensures
            final(self).history() == old(self).history().push(
                Transaction::Write { address, bytes: bytes@, ack },
            ),
    {
        let ack = self.bus.write(address, bytes);
        proof {
            self.log@ = self.log@.push(Transaction::Write { address, bytes: bytes@, ack });
        }
        ack
    }

    /// Fills `buffer` from the device at `address`.
    pub fn read(&mut self, address: u8, buffer: &mut [u8]) -> (answer: Result<(), B::Error>)
        ensures
            final(self).history() == old(self).history().push(
                Transaction::Read {
                    address,
                    len: old(buffer)@.len(),
                    reply: read_reply(answer, final(buffer)@),
                },
            ),
    {
        let ghost len = buffer@.len();
        let answer = self.bus.read(address, buffer);
        proof {
            self.log@ = self.log@.push(
                Transaction::Read { address, len, reply: read_reply(answer, buffer@) },
            );
        }
        answer
    }

    /// Sends `bytes` to the device at `address`, then fills `buffer` from it,
    /// in one transaction.
    pub fn write_read(&mut self, address: u8, bytes: &[u8], buffer: &mut [u8]) -> (answer: Result<
        (),
        B::Error,
    >)
        ensures
            final(self).history() == old(self).history().push(
                Transaction::WriteRead {
                    address,
                    bytes: bytes@,
                    len: old(buffer)@.len(),
                    reply: read_reply(answer, final(buffer)@),
                },
            ),
    {
        let ghost len = buffer@.len();
        let answer = self.bus.write_read(address, bytes, buffer);
        proof {
            self.log@ = self.log@.push(
                Transaction::WriteRead {
                    address,
                    bytes: bytes@,
                    len,
                    reply: read_reply(answer, buffer@),
                },
            );
        }
        answer
    }
}

} // verus!
