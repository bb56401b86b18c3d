//! The sensor driver: one bus transaction per operation, decoded on return.
//!
//! The sensor answers a read with the result of its last finished measurement.
//! A read that comes before a measurement was started, or before the sensor
//! has settled, is therefore no error: it returns the previous value. Waiting
//! long enough, or polling [`Chirp::busy`], is up to the caller.

use crate::decode::{combine, flag, lemma_word_bytes, signed, twos_complement, word};
use crate::register::Register;
use crate::transport::{lemma_fresh_bus_holds_the_transport, Bus, Exchange, Transport};
use vstd::prelude::*;

verus! {

/// The address the sensor answers to when it leaves the factory.
pub const DEFAULT_ADDRESS: u8 = 0x20;

/// What a one-byte reply says about the busy flag: any nonzero byte is busy.
pub open spec fn busy_reading<E>(reply: Result<Seq<u8>, E>) -> Result<bool, E> {
    match reply {
        Ok(bytes) => Ok(bytes[0] != 0),
        Err(e) => Err(e),
    }
}

/// The single byte of a one-byte reply.
pub open spec fn byte_reading<E>(reply: Result<Seq<u8>, E>) -> Result<u8, E> {
    match reply {
        Ok(bytes) => Ok(bytes[0]),
        Err(e) => Err(e),
    }
}

/// The two bytes of a two-byte reply, in the order in which they came.
pub open spec fn pair_reading<E>(reply: Result<Seq<u8>, E>) -> Result<(u8, u8), E> {
    match reply {
        Ok(bytes) => Ok((bytes[0], bytes[1])),
        Err(e) => Err(e),
    }
}

/// A two-byte reply as an unsigned number, high-order byte first.
pub open spec fn unsigned_reading<E>(reply: Result<Seq<u8>, E>) -> Result<u16, E> {
    match reply {
        Ok(bytes) => Ok(word(bytes[0], bytes[1]) as u16),
        Err(e) => Err(e),
    }
}

/// A two-byte reply as a signed number in two's complement, high-order byte
/// first.
pub open spec fn signed_reading<E>(reply: Result<Seq<u8>, E>) -> Result<i16, E> {
    match reply {
        Ok(bytes) => Ok(twos_complement(word(bytes[0], bytes[1]) as u16) as i16),
        Err(e) => Err(e),
    }
}

/// The address the driver holds after an address change was attempted: the
/// requested one if both the change and the reset went through, the current
/// one otherwise.
pub open spec fn address_after<E>(
    current: u8,
    requested: u8,
    change: Result<(), E>,
    reset: Result<(), E>,
) -> u8 {
    if change is Ok && reset is Ok {
        requested
    } else {
        current
    }
}

/// What an attempted address change reports: the reset's error if the reset
/// failed, otherwise what the change itself returned.
pub open spec fn change_result<E>(change: Result<(), E>, reset: Result<(), E>) -> Result<(), E> {
    if reset is Err {
        reset
    } else {
        change
    }
}

/// An attempted address change reports success exactly when both the change
/// and the reset went through, and that is exactly when the driver moves to
/// the requested address; in every other case it stays where it was.
pub proof fn lemma_address_change_is_atomic<E>(
    current: u8,
    requested: u8,
    change: Result<(), E>,
    reset: Result<(), E>,
)
    ensures
        change_result(change, reset) is Ok <==> change is Ok && reset is Ok,
        change_result(change, reset) is Ok ==> address_after(current, requested, change, reset)
            == requested,
        change_result(change, reset) is Err ==> address_after(current, requested, change, reset)
            == current,
        change is Err ==> address_after(current, requested, change, reset) == current,
        reset is Err ==> address_after(current, requested, change, reset) == current,
{
}

/// An attempted address change leaves a seven-bit address seven-bit when the
/// requested address is one.
pub proof fn lemma_address_stays_seven_bit<E>(
    current: u8,
    requested: u8,
    change: Result<(), E>,
    reset: Result<(), E>,
)
    requires
        current <= 127,
        requested <= 127,
    ensures
        address_after(current, requested, change, reset) <= 127,
{
}

/// A reading fails exactly when its transaction failed, and then with the
/// transport's own error. The driver has no error of its own: whatever bytes
/// the sensor answered with are decoded, also when they are the result of an
/// earlier measurement.
pub proof fn lemma_readings_fail_only_with_the_transport<E>(reply: Result<Seq<u8>, E>)
    ensures
        busy_reading(reply) is Err <==> reply is Err,
        byte_reading(reply) is Err <==> reply is Err,
        unsigned_reading(reply) is Err <==> reply is Err,
        signed_reading(reply) is Err <==> reply is Err,
        reply matches Err(e) ==> {
            &&& busy_reading(reply) == Err::<bool, E>(e)
            &&& byte_reading(reply) == Err::<u8, E>(e)
            &&& unsigned_reading(reply) == Err::<u16, E>(e)
            &&& signed_reading(reply) == Err::<i16, E>(e)
        },
{
}

/// A two-byte reply decodes to the number its bytes spell, high-order byte
/// first: unsigned as it stands, signed in two's complement.
pub proof fn lemma_two_byte_readings<E>(hi: u8, lo: u8)
    ensures
        ({
            let reply = Ok::<Seq<u8>, E>(seq![hi, lo]);
            &&& unsigned_reading(reply) is Ok
            &&& unsigned_reading(reply)->Ok_0 == hi * 256 + lo
            &&& signed_reading(reply) is Ok
            &&& hi < 0x80 ==> signed_reading(reply)->Ok_0 == hi * 256 + lo
            &&& hi >= 0x80 ==> signed_reading(reply)->Ok_0 == hi * 256 + lo - 0x1_0000
        }),
{
    lemma_word_bytes(hi, lo);
}

/// A transport handed to a new driver is held as it was given, with nothing
/// sent to it and nothing attached: releasing the driver returns it unchanged.
pub proof fn lemma_fresh_driver_holds_the_transport<I2C: Transport>(i2c: I2C, address: u8)
    ensures
        Chirp::fresh(i2c, address).transport() == i2c,
        Chirp::fresh(i2c, address).target() == address,
        Chirp::fresh(i2c, address).trace() == Seq::<Exchange<I2C::Error>>::empty(),
{
    lemma_fresh_bus_holds_the_transport(i2c);
}

/// Driver for one sensor on a bus.
pub struct Chirp<I2C: Transport> {
    bus: Bus<I2C>,
    address: u8,
}

impl<I2C: Transport> Chirp<I2C> {
    /// The bus address that the next transaction will go to.
    pub closed spec fn target(&self) -> u8 {
        self.address
    }

    /// The transport in its current state.
    pub closed spec fn transport(&self) -> I2C {
        self.bus.transport()
    }

    /// Every transaction this driver has performed, oldest first.
    pub closed spec fn trace(&self) -> Seq<Exchange<I2C::Error>> {
        self.bus.trace()
    }

    /// A driver that owns `i2c`, talks to `address` and has sent nothing.
    pub closed spec fn fresh(i2c: I2C, address: u8) -> Self {
        Chirp { bus: Bus::fresh(i2c), address }
    }

    /// `after` is `before` plus one command: a single write of `frame` to the
    /// address that `before` held, which the transport answered with `status`.
    /// The address is kept.
    pub open spec fn command_step(
        before: Self,
        after: Self,
        frame: Seq<u8>,
        status: Result<(), I2C::Error>,
    ) -> bool {
        &&& after.target() == before.target()
        &&& after.trace() == before.trace().push(
            Exchange::Write { address: before.target(), bytes: frame, status },
        )
    }

    /// `after` is `before` plus one query of `register`: a single
    /// write-then-read transaction to the address that `before` held, which
    /// sends the register's opcode and asks for as many bytes as the register
    /// answers. A reply that came without error has that length. The address
    /// is kept.
    pub open spec fn query_step(before: Self, after: Self, register: Register) -> bool {
        &&& after.target() == before.target()
        &&& after.trace().len() == before.trace().len() + 1
        &&& after.trace().drop_last() == before.trace()
        &&& after.trace().last() matches Exchange::WriteRead { address, bytes, wanted, reply }
        &&& address == before.target()
        &&& bytes == seq![register.opcode()]
        &&& wanted == register.reply_len()
        &&& (reply matches Ok(read) ==> read.len() == wanted)
    }

    /// `after` is `before` plus one attempt to move the sensor to `requested`:
    /// a write of the address register with `requested` as payload, answered
    /// with `change`, and then a reset, answered with `reset`. Both frames go
    /// to the address that `before` held. The driver has moved to `requested`
    /// if both went through, and has kept its address otherwise.
    pub open spec fn change_step(
        before: Self,
        after: Self,
        requested: u8,
        change: Result<(), I2C::Error>,
        reset: Result<(), I2C::Error>,
    ) -> bool {
        &&& after.target() == address_after(before.target(), requested, change, reset)
        &&& after.trace() == before.trace().push(
            Exchange::Write {
                address: before.target(),
                bytes: seq![Register::Address.opcode(), requested],
                status: change,
            },
        ).push(
            Exchange::Write {
                address: before.target(),
                bytes: seq![Register::Reset.opcode()],
                status: reset,
            },
        )
    }

    /// Creates a driver for the sensor at `address` on `i2c`. Nothing is sent,
    /// and `address` is taken as it is.
    pub fn new(i2c: I2C, address: u8) -> (chirp: Self)
        ensures
            chirp == Self::fresh(i2c, address),
            chirp.transport() == i2c,
            chirp.target() == address,
            chirp.trace() == Seq::<Exchange<I2C::Error>>::empty(),
    {
        Chirp { bus: Bus::new(i2c), address }
    }

    /// Gives the transport back. Nothing is sent.
    pub fn destroy(self) -> (i2c: I2C)
        ensures
            i2c == self.transport(),
    {
        self.bus.release()
    }

    /// Tells the sensor to answer to `address` from now on, then resets it, as
    /// the sensor takes on a new address only when it restarts.
    ///
    /// Both frames go to the address held before the call, the reset also
    /// when the change itself failed. The driver moves to `address` only if
    /// both went through. A failed reset is reported before a failed change.
    /// `address` is sent as it is, also when it is no seven-bit address.
    pub fn address(&mut self, address: u8) -> (r: Result<(), I2C::Error>)
        ensures
            final(self).trace().len() == old(self).trace().len() + 2,
            Self::change_step(
                *old(self),
                *final(self),
                address,
                final(self).trace()[final(self).trace().len() - 2]->status,
                final(self).trace().last()->status,
            ),
            r == change_result(
                final(self).trace()[final(self).trace().len() - 2]->status,
                final(self).trace().last()->status,
            ),
    {
        let frame: [u8; 2] = [Register::Address.opcode(), address];
        assert(frame@ =~= seq![Register::Address.opcode(), address]);
        let change = self.bus.write(self.address, &frame);
        let reset = self.reset();
        match reset {
            Err(e) => Err(e),
            Ok(()) => {
                if change.is_ok() {
                    self.address = address;
                }
                change
            },
        }
    }

    /// Resets the sensor.
    pub fn reset(&mut self) -> (r: Result<(), I2C::Error>)
        ensures
            Self::command_step(*old(self), *final(self), seq![Register::Reset.opcode()], r),
    {
        self.command(Register::Reset)
    }

    /// Starts a light measurement and returns at once. The sensor needs a few
    /// seconds before the result can be read; until then [`Chirp::busy`]
    /// reports true and [`Chirp::light`] returns the previous result.
    pub fn messure(&mut self) -> (r: Result<(), I2C::Error>)
        ensures
            Self::command_step(*old(self), *final(self), seq![Register::MeasureLight.opcode()], r),
    {
        self.command(Register::MeasureLight)
    }

    /// Asks the sensor whether a measurement is still running.
    pub fn busy(&mut self) -> (r: Result<bool, I2C::Error>)
        ensures
            Self::query_step(*old(self), *final(self), Register::Busy),
            r == busy_reading(final(self).trace().last()->reply),
    {
        match self.read_byte(Register::Busy) {
            Ok(byte) => Ok(flag(byte)),
            Err(e) => Err(e),
        }
    }

    /// Reads the firmware version, packed into one byte: `0x26` is version 2.6.
    pub fn version(&mut self) -> (r: Result<u8, I2C::Error>)
        ensures
            Self::query_step(*old(self), *final(self), Register::Version),
            r == byte_reading(final(self).trace().last()->reply),
    {
        self.read_byte(Register::Version)
    }

    /// Reads the result of the last light measurement, in tenths of the
    /// sensor's light unit.
    pub fn light(&mut self) -> (r: Result<u16, I2C::Error>)
        ensures
            Self::query_step(*old(self), *final(self), Register::Light),
            r == unsigned_reading(final(self).trace().last()->reply),
    {
        match self.read_pair(Register::Light) {
            Ok((hi, lo)) => Ok(combine(hi, lo)),
            Err(e) => Err(e),
        }
    }

    /// Reads the temperature, in tenths of a degree Celsius.
    pub fn temperature(&mut self) -> (r: Result<i16, I2C::Error>)
        ensures
            Self::query_step(*old(self), *final(self), Register::Temperature),
            r == signed_reading(final(self).trace().last()->reply),
    {
        match self.read_pair(Register::Temperature) {
            Ok((hi, lo)) => Ok(signed(combine(hi, lo))),
            Err(e) => Err(e),
        }
    }

    /// Reads the soil capacitance, as the sensor counts it.
    pub fn capacitance(&mut self) -> (r: Result<u16, I2C::Error>)
        ensures
            Self::query_step(*old(self), *final(self), Register::Capacitance),
            r == unsigned_reading(final(self).trace().last()->reply),
    {
        match self.read_pair(Register::Capacitance) {
            Ok((hi, lo)) => Ok(combine(hi, lo)),
            Err(e) => Err(e),
        }
    }

    /// Sends a command that is the opcode alone.
    fn command(&mut self, register: Register) -> (r: Result<(), I2C::Error>)
        requires
            !register.is_query(),
            register.payload_len() == 0,
        ensures
            Self::command_step(*old(self), *final(self), seq![register.opcode()], r),
    {
        let frame: [u8; 1] = [register.opcode()];
        assert(frame@ =~= seq![register.opcode()]);
        self.bus.write(self.address, &frame)
    }

    /// Queries a register that answers with one byte.
    fn read_byte(&mut self, register: Register) -> (r: Result<u8, I2C::Error>)
        requires
            register.reply_len() == 1,
        ensures
            Self::query_step(*old(self), *final(self), register),
            r == byte_reading(final(self).trace().last()->reply),
    {
        let frame: [u8; 1] = [register.opcode()];
        let mut buffer: [u8; 1] = [0u8; 1];
        assert(frame@ =~= seq![register.opcode()]);
        let status = self.bus.write_read(self.address, &frame, &mut buffer);
        assert(self.trace().drop_last() =~= old(self).trace());
        match status {
            Ok(()) => Ok(buffer[0]),
            Err(e) => Err(e),
        }
    }

    /// Queries a register that answers with two bytes.
    fn read_pair(&mut self, register: Register) -> (r: Result<(u8, u8), I2C::Error>)
        requires
            register.reply_len() == 2,
        ensures
            Self::query_step(*old(self), *final(self), register),
            r == pair_reading(final(self).trace().last()->reply),
    {
        let frame: [u8; 1] = [register.opcode()];
        let mut buffer: [u8; 2] = [0u8; 2];
        assert(frame@ =~= seq![register.opcode()]);
        let status = self.bus.write_read(self.address, &frame, &mut buffer);
        assert(self.trace().drop_last() =~= old(self).trace());
        match status {
            Ok(()) => Ok((buffer[0], buffer[1])),
            Err(e) => Err(e),
        }
    }
}

} // verus!
