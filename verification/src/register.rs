//! The sensor's register table: one opcode byte per register, with the number
//! of payload bytes that follow it and the number of bytes the sensor answers.

use vstd::prelude::*;

verus! {

/// A register of the sensor firmware.
#[derive(Clone, Copy, Debug, PartialEq, Eq, Structural)]
pub enum Register {
    /// Soil capacitance, a 16-bit count.
    Capacitance,
    /// Sets a new bus address; takes the address as payload.
    Address,
    /// Starts a light measurement.
    MeasureLight,
    /// Result of the last light measurement, 16 bits.
    Light,
    /// Temperature, 16 bits.
    Temperature,
    /// Resets the sensor.
    Reset,
    /// Firmware version, one byte.
    Version,
    /// Busy flag, one byte.
    Busy,
}

impl Register {
    /// The byte that selects this register on the wire.
    pub open spec fn spec_opcode(self) -> u8 {
        match self {
            Register::Capacitance => 0x00,
            Register::Address => 0x01,
            Register::MeasureLight => 0x03,
            Register::Light => 0x04,
            Register::Temperature => 0x05,
            Register::Reset => 0x06,
            Register::Version => 0x07,
            Register::Busy => 0x09,
        }
    }

    /// How many payload bytes follow the opcode in a frame.
    pub open spec fn spec_payload_len(self) -> usize {
        match self {
            Register::Address => 1,
            _ => 0,
        }
    }

    /// How many bytes the sensor sends back; zero for a write-only command.
    pub open spec fn spec_reply_len(self) -> usize {
        match self {
            Register::Capacitance | Register::Light | Register::Temperature => 2,
            Register::Version | Register::Busy => 1,
            Register::Address | Register::MeasureLight | Register::Reset => 0,
        }
    }

    /// Whether the register is read with a write-then-read transaction.
    pub open spec fn spec_is_query(self) -> bool {
        self.spec_reply_len() > 0
    }

    /// The byte that selects this register on the wire.
    #[verifier::when_used_as_spec(spec_opcode)]
    pub fn opcode(self) -> (b: u8)
        ensures
            b == self.spec_opcode(),
    {
        match self {
            Register::Capacitance => 0x00,
            Register::Address => 0x01,
            Register::MeasureLight => 0x03,
            Register::Light => 0x04,
            Register::Temperature => 0x05,
            Register::Reset => 0x06,
            Register::Version => 0x07,
            Register::Busy => 0x09,
        }
    }

    /// How many payload bytes follow the opcode in a frame.
    #[verifier::when_used_as_spec(spec_payload_len)]
    pub fn payload_len(self) -> (n: usize)
        ensures
            n == self.spec_payload_len(),
    {
        match self {
            Register::Address => 1,
            _ => 0,
        }
    }

    /// How many bytes the sensor sends back; zero for a write-only command.
    #[verifier::when_used_as_spec(spec_reply_len)]
    pub fn reply_len(self) -> (n: usize)
        ensures
            n == self.spec_reply_len(),
    {
        match self {
            Register::Capacitance | Register::Light | Register::Temperature => 2,
            Register::Version | Register::Busy => 1,
            Register::Address | Register::MeasureLight | Register::Reset => 0,
        }
    }

    /// Whether the register is read with a write-then-read transaction.
    #[verifier::when_used_as_spec(spec_is_query)]
    pub fn is_query(self) -> (q: bool)
        ensures
            q == self.spec_is_query(),
    {
        self.reply_len() > 0
    }
}

/// No two registers share an opcode.
pub proof fn lemma_opcodes_distinct(a: Register, b: Register)
    ensures
        a.opcode() == b.opcode() <==> a == b,
{
}

} // verus!
