//! The bus the sensor hangs on, as the driver sees it.
//!
//! A [`Transport`] performs blocking transactions and is free to fail them.
//! A [`Bus`] owns a transport and keeps, as ghost state, the list of every
//! transaction it has asked the transport for, together with the outcome.

use vstd::prelude::*;

verus! {

/// A blocking two-wire bus master.
///
/// Nothing is promised about what a transaction returns: that is up to the
/// device on the other end of the wire. The two methods have the shape of the
/// blocking I2C traits `Write` and `WriteRead` of `embedded-hal`, so that an
/// adapter for such a bus only forwards its arguments.
pub trait Transport {
    /// What the transport reports when a transaction fails.
    type Error;

    /// Writes `bytes` to the device at `address`.
    fn write(&mut self, address: u8, bytes: &[u8]) -> Result<(), Self::Error>;

    /// Writes `bytes` to the device at `address`, then reads enough bytes to
    /// fill `buffer`, in a single transaction.
    fn write_read(
        &mut self,
        address: u8,
        bytes: &[u8],
        buffer: &mut [u8],
    ) -> Result<(), Self::Error>;
}

/// One transaction on the bus and how it ended.
pub enum Exchange<E> {
    /// `bytes` were written to the device at `address`; `status` is what the
    /// transport returned.
    Write { address: u8, bytes: Seq<u8>, status: Result<(), E> },
    /// `bytes` were written to the device at `address` and `wanted` bytes were
    /// asked back; `reply` holds the bytes that were read, or the error that
    /// the transport returned.
    WriteRead { address: u8, bytes: Seq<u8>, wanted: nat, reply: Result<Seq<u8>, E> },
}

/// The reply of a write-then-read transaction: what the buffer held when the
/// transport returned, if it returned without error.
pub open spec fn reply_of<E>(status: Result<(), E>, buffer: Seq<u8>) -> Result<Seq<u8>, E> {
    match status {
        Ok(_) => Ok(buffer),
        Err(e) => Err(e),
    }
}

/// A transport together with the record of what was asked of it.
pub struct Bus<T: Transport> {
    transport: T,
    trace: Ghost<Seq<Exchange<T::Error>>>,
}

impl<T: Transport> Bus<T> {
    /// The transport in its current state.
    pub closed spec fn transport(&self) -> T {
        self.transport
    }

    /// Every transaction performed through this bus, oldest first.
    pub closed spec fn trace(&self) -> Seq<Exchange<T::Error>> {
        self.trace@
    }

    /// A bus that owns `transport` and has performed nothing.
    pub closed spec fn fresh(transport: T) -> Self {
        Bus { transport, trace: Ghost(Seq::empty()) }
    }

    /// Takes ownership of `transport`. Nothing is sent.
    pub fn new(transport: T) -> (bus: Self)
        ensures
            bus == Self::fresh(transport),
            bus.transport() == transport,
            bus.trace() == Seq::<Exchange<T::Error>>::empty(),
    {
        Bus { transport, trace: Ghost(Seq::empty()) }
    }

    /// Gives the transport back. Nothing is sent.
    pub fn release(self) -> (transport: T)
        ensures
            transport == self.transport(),
    {
        self.transport
    }

    /// Performs one write transaction and records it.
    pub fn write(&mut self, address: u8, bytes: &[u8]) -> (status: Result<(), T::Error>)
        ensures
            final(self).trace() == old(self).trace().push(
                Exchange::Write { address, bytes: bytes@, status },
            ),
    {
        let status = self.transport.write(address, bytes);
        proof {
            self.trace@ = self.trace@.push(Exchange::Write { address, bytes: bytes@, status });
        }
        status
    }

    /// Performs one write-then-read transaction and records it. On success
    /// `buffer` holds the bytes that were read.
    pub fn write_read<const N: usize>(
        &mut self,
        address: u8,
        bytes: &[u8],
        buffer: &mut [u8; N],
    ) -> (status: Result<(), T::Error>)
        ensures
            final(self).trace() == old(self).trace().push(
                Exchange::WriteRead {
                    address,
                    bytes: bytes@,
                    wanted: N as nat,
                    reply: reply_of(status, final(buffer)@),
                },
            ),
    {
        let status = self.transport.write_read(address, bytes, buffer);
        proof {
            self.trace@ = self.trace@.push(
                Exchange::WriteRead {
                    address,
                    bytes: bytes@,
                    wanted: N as nat,
                    reply: reply_of(status, buffer@),
                },
            );
        }
        status
    }
}

/// A bus made from a transport holds it as it was given and has performed
/// nothing.
pub proof fn lemma_fresh_bus_holds_the_transport<T: Transport>(transport: T)
    ensures
        Bus::fresh(transport).transport() == transport,
        Bus::fresh(transport).trace() == Seq::<Exchange<T::Error>>::empty(),
{
}

} // verus!
