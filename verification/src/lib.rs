//! A Modbus application-layer codec.
//!
//! The crate builds request Protocol Data Units (PDUs) for reading and
//! writing coils, discrete inputs, holding registers and input registers,
//! parses response PDUs (including exception responses), and wraps and
//! unwraps the two standard transport envelopes: serial RTU framing
//! (address byte plus CRC16 trailer) and TCP framing (MBAP header with a
//! transaction-id counter).  Every operation is a pure transformation over
//! in-memory byte buffers; transmission and reception belong to the caller.

use vstd::prelude::*;

pub mod rtu;
pub mod tcp;
pub mod unit;

pub use rtu::{ModbusRTU, ModbusRTUBuilder};
pub use tcp::{ModbusTCP, ModbusTCPBuilder};
pub use unit::{ModbusUnit, ModbusUnitBuilder, ModbusUnitError, RegisterType};

verus! {

/// Failures of the transport envelope layers, wrapping the unit-level
/// errors for failures inside the carried PDU.
#[derive(Copy, Clone, Debug, PartialEq, Eq, Structural)]
#[allow(inconsistent_fields)]
pub enum ModbusTransportError {
    /// The received frame is shorter than the smallest valid frame, or
    /// shorter than the length its own header declares.
    FrameTooShort,
    /// The MBAP protocol-id field of a TCP frame is not zero.
    InvalidProtocolId(u16),
    /// The device-address byte of a received frame differs from the
    /// configured device id.
    UnitIdMismatch { expected: u8, received: u8 },
    /// The CRC16 trailer of an RTU frame differs from the value recomputed
    /// over the frame body; `expected` is the recomputed value, `received`
    /// the one found in the frame.
    CrcMismatch { expected: u16, received: u16 },
    /// The transport builder was finalized without a device id.
    DeviceIdMissing,
    /// A unit-level failure, detected while building or parsing the PDU
    /// carried by the frame.
    Protocol(ModbusUnitError),
}

} // verus!
