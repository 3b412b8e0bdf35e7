//! Serial RTU transport framing: a device-address byte in front of the
//! PDU and a CRC16 trailer behind it.

use vstd::prelude::*;

use crate::unit::{
    build_spec, hi16, lo16, parse_response_spec, read_request_spec, write_request_spec, ModbusUnit,
    ModbusUnitBuilder, RegisterType,
};
use crate::ModbusTransportError;

verus! {

/// One step of the Modbus CRC16: shift right once, folding in the
/// reflected polynomial 0xA001 when a bit falls out.
pub open spec fn crc_shift(c: u16) -> u16 {
    if c & 1 != 0 {
        (c >> 1) ^ 0xA001
    } else {
        c >> 1
    }
}

/// `n` CRC shift steps.
pub open spec fn crc_shift_n(c: u16, n: nat) -> u16
    decreases n,
{
    if n == 0 {
        c
    } else {
        crc_shift(crc_shift_n(c, (n - 1) as nat))
    }
}

/// Folds one byte into a running CRC16: XOR into the low byte, then eight
/// shift steps.
pub open spec fn crc_update(c: u16, byte: u8) -> u16 {
    crc_shift_n(c ^ byte as u16, 8)
}

/// The CRC16 of the first `i` bytes of `data`, from the initial value
/// 0xFFFF.
pub open spec fn crc_prefix(data: Seq<u8>, i: int) -> u16
    decreases i,
{
    if i <= 0 {
        0xFFFF
    } else {
        crc_update(crc_prefix(data, i - 1), data[i - 1])
    }
}

/// The Modbus CRC16 of a byte sequence.
pub open spec fn crc16(data: Seq<u8>) -> u16 {
    crc_prefix(data, data.len() as int)
}

/// A full RTU frame: device address, PDU, then the CRC16 of both, low
/// byte first.
pub open spec fn rtu_frame(device_id: u8, pdu: Seq<u8>) -> Seq<u8> {
    let body = seq![device_id] + pdu;
    body + seq![lo16(crc16(body)), hi16(crc16(body))]
}

/// What unwrapping a received RTU frame returns: the carried PDU, or the
/// first failure among frame length, device address and CRC check.
pub open spec fn unwrap_rtu_spec(device_id: u8, frame: Seq<u8>) -> Result<
    Seq<u8>,
    ModbusTransportError,
> {
    if frame.len() < 4 {
        Err(ModbusTransportError::FrameTooShort)
    } else if frame[0] != device_id {
        Err(ModbusTransportError::UnitIdMismatch { expected: device_id, received: frame[0] })
    } else {
        let received = (frame[frame.len() - 1] * 256 + frame[frame.len() - 2]) as u16;
        let computed = crc16(frame.take(frame.len() - 2));
        if received != computed {
            Err(ModbusTransportError::CrcMismatch { expected: computed, received })
        } else {
            Ok(frame.subrange(1, frame.len() - 2))
        }
    }
}

/// Unwrapping any frame that `rtu_frame` wrapped gives back exactly the
/// wrapped PDU: the address byte matches, the recomputed CRC equals the
/// trailer, and the PDU is the frame minus its first and last two bytes.
/// An empty PDU is excluded only because its 3-byte frame is shorter than
/// the smallest frame the unwrapper accepts; every real PDU starts with a
/// function code.
pub proof fn lemma_rtu_round_trip(device_id: u8, pdu: Seq<u8>)
    requires
        pdu.len() >= 1,
    ensures
        unwrap_rtu_spec(device_id, rtu_frame(device_id, pdu)) == Ok::<Seq<u8>, ModbusTransportError>(
            pdu,
        ),
{
    let body = seq![device_id] + pdu;
    let frame = rtu_frame(device_id, pdu);
    let c = crc16(body);
    assert(frame.take(frame.len() - 2) =~= body);
    assert(frame[frame.len() - 1] == hi16(c) && frame[frame.len() - 2] == lo16(c));
    assert(hi16(c) * 256 + lo16(c) == c);
    assert(frame.subrange(1, frame.len() - 2) =~= pdu);
}

/// Round trip of a write request: for any unit and any payload its encoder
/// accepts, wrapping the encoded PDU into an RTU frame and unwrapping that
/// frame reproduces the PDU bytes exactly.
pub proof fn lemma_rtu_write_round_trip(device_id: u8, u: ModbusUnit, data: Seq<i32>)
    requires
        write_request_spec(u, data) is Ok,
    ensures
        ({
            let pdu = write_request_spec(u, data)->Ok_0;
            unwrap_rtu_spec(device_id, rtu_frame(device_id, pdu)) == Ok::<
                Seq<u8>,
                ModbusTransportError,
            >(pdu)
        }),
{
    let pdu = write_request_spec(u, data)->Ok_0;
    assert(pdu.len() >= 3);
    lemma_rtu_round_trip(device_id, pdu);
}

/// A session over the serial RTU transport: a configured device id and the
/// immutable unit; stateless across requests, the CRC recomputed per
/// frame.
pub struct ModbusRTU {
    pub unit: ModbusUnit,
    pub device_id: u8,
}

/// Accumulates the unit configuration and the device id of a
/// [`ModbusRTU`]; all validation happens at [`ModbusRTUBuilder::build`].
pub struct ModbusRTUBuilder {
    pub unit_builder: ModbusUnitBuilder,
    pub device_id: Option<u8>,
}

impl ModbusRTUBuilder {
    /// Sets the start address.
    pub fn address(self, addr: i32) -> (r: Self)
        ensures
            r.unit_builder == (ModbusUnitBuilder { start_addr: Some(addr), ..self.unit_builder }),
            r.device_id == self.device_id,
    {
        Self { unit_builder: self.unit_builder.address(addr), ..self }
    }

    /// Sets the number of addressed elements.
    pub fn length(self, length: i32) -> (r: Self)
        ensures
            r.unit_builder == (ModbusUnitBuilder { length: Some(length), ..self.unit_builder }),
            r.device_id == self.device_id,
    {
        Self { unit_builder: self.unit_builder.length(length), ..self }
    }

    /// Sets the register kind.
    pub fn register_type(self, register_type: RegisterType) -> (r: Self)
        ensures
            r.unit_builder == (ModbusUnitBuilder {
                register_type: Some(register_type),
                ..self.unit_builder
            }),
            r.device_id == self.device_id,
    {
        Self { unit_builder: self.unit_builder.register_type(register_type), ..self }
    }

    /// Overrides the read function code.
    pub fn with_read_cmd(self, spec_read_cmd: i32) -> (r: Self)
        ensures
            r.unit_builder == (ModbusUnitBuilder {
                spec_read_cmd: Some(spec_read_cmd),
                ..self.unit_builder
            }),
            r.device_id == self.device_id,
    {
        Self { unit_builder: self.unit_builder.with_read_cmd(spec_read_cmd), ..self }
    }

    /// Overrides the single-write function code.
    pub fn with_write_cmd(self, spec_write_cmd: i32) -> (r: Self)
        ensures
            r.unit_builder == (ModbusUnitBuilder {
                spec_write_cmd: Some(spec_write_cmd),
                ..self.unit_builder
            }),
            r.device_id == self.device_id,
    {
        Self { unit_builder: self.unit_builder.with_write_cmd(spec_write_cmd), ..self }
    }

    /// Overrides the multi-write function code.
    pub fn with_multi_write_cmd(self, multi_write_cmd: i32) -> (r: Self)
        ensures
            r.unit_builder == (ModbusUnitBuilder {
                spec_multi_write_cmd: Some(multi_write_cmd),
                ..self.unit_builder
            }),
            r.device_id == self.device_id,
    {
        Self { unit_builder: self.unit_builder.with_multi_write_cmd(multi_write_cmd), ..self }
    }

    /// Sets the device id the session addresses.
    pub fn device_id(self, device_id: u8) -> (r: Self)
        ensures
            r.unit_builder == self.unit_builder,
            r.device_id == Some(device_id),
    {
        Self { device_id: Some(device_id), ..self }
    }

    /// Validates the unit configuration, then requires a device id, and
    /// freezes both into a [`ModbusRTU`].
    pub fn build(self) -> (r: Result<ModbusRTU, ModbusTransportError>)
        ensures
            match build_spec(self.unit_builder) {
                Err(e) => r matches Err(te) && te == ModbusTransportError::Protocol(e),
                Ok(u) => match self.device_id {
                    None => r matches Err(te) && te == ModbusTransportError::DeviceIdMissing,
                    Some(d) => r matches Ok(m) && m.unit == u && m.device_id == d,
                },
            },
            r matches Ok(m) ==> m.unit.wf(),
    {
        let unit = match self.unit_builder.build() {
            Ok(u) => u,
            Err(e) => {
                return Err(ModbusTransportError::Protocol(e));
            },
        };
        let device_id = match self.device_id {
            Some(d) => d,
            None => {
                return Err(ModbusTransportError::DeviceIdMissing);
            },
        };
        Ok(ModbusRTU { unit, device_id })
    }
}

impl ModbusRTU {
    /// A builder with every field unset.
    pub fn builder() -> (r: ModbusRTUBuilder)
        ensures
            r.unit_builder == (ModbusUnitBuilder {
                start_addr: None,
                length: None,
                register_type: None,
                spec_read_cmd: None,
                spec_write_cmd: None,
                spec_multi_write_cmd: None,
            }),
            r.device_id is None,
    {
        ModbusRTUBuilder { unit_builder: ModbusUnit::builder(), device_id: None }
    }

    /// Builds the complete RTU frame of a read request.
    pub fn create_read_request(&self) -> (r: Result<Vec<u8>, ModbusTransportError>)
        requires
            self.unit.wf(),
        ensures
            r matches Ok(frame) && frame@ == rtu_frame(self.device_id, read_request_spec(self.unit)),
    {
        let pdu = match self.unit.create_read_request() {
            Ok(p) => p,
            Err(e) => {
                return Err(ModbusTransportError::Protocol(e));
            },
        };
        Ok(self.wrap_rtu(pdu))
    }

    /// Builds the complete RTU frame of a write request for a payload of
    /// one value per addressed element.
    pub fn create_write_request(&self, data: &[i32]) -> (r: Result<Vec<u8>, ModbusTransportError>)
        requires
            self.unit.wf(),
        ensures
            match write_request_spec(self.unit, data@) {
                Ok(pdu) => r matches Ok(frame) && frame@ == rtu_frame(self.device_id, pdu),
                Err(e) => r matches Err(te) && te == ModbusTransportError::Protocol(e),
            },
    {
        let pdu = match self.unit.get_write_request(data) {
            Ok(p) => p,
            Err(e) => {
                return Err(ModbusTransportError::Protocol(e));
            },
        };
        Ok(self.wrap_rtu(pdu))
    }

    /// Unwraps and validates a received RTU frame, then parses the carried
    /// response PDU into one value per configured element.
    pub fn parse_response(&self, frame: &[u8]) -> (r: Result<Vec<u16>, ModbusTransportError>)
        requires
            self.unit.wf(),
        ensures
            match unwrap_rtu_spec(self.device_id, frame@) {
                Err(te) => r matches Err(e) && e == te,
                Ok(pdu) => match parse_response_spec(self.unit, pdu) {
                    Ok(values) => r matches Ok(v) && v@ == values,
                    Err(e) => r matches Err(te) && te == ModbusTransportError::Protocol(e),
                },
            },
    {
        let pdu = match self.unwrap_rtu(frame) {
            Ok(p) => p,
            Err(e) => {
                return Err(e);
            },
        };
        match self.unit.parse_response(pdu.as_slice()) {
            Ok(v) => Ok(v),
            Err(e) => Err(ModbusTransportError::Protocol(e)),
        }
    }

    /// Frames a PDU: the device address in front, the CRC16 of address and
    /// PDU behind, low byte first.
    fn wrap_rtu(&self, pdu: Vec<u8>) -> (r: Vec<u8>)
        ensures
            r@ == rtu_frame(self.device_id, pdu@),
    {
        let mut frame: Vec<u8> = Vec::new();
        frame.push(self.device_id);
        let mut i: usize = 0;
        while i < pdu.len()
            invariant
                i <= pdu@.len(),
                frame@ == seq![self.device_id] + pdu@.take(i as int),
            decreases pdu@.len() - i,
        {
            frame.push(pdu[i]);
            proof {
                assert(frame@ =~= seq![self.device_id] + pdu@.take(i as int + 1));
            }
            i = i + 1;
        }
        proof {
            assert(frame@ =~= seq![self.device_id] + pdu@);
        }
        let crc = Self::calculate_crc(frame.as_slice());
        frame.push((crc % 256) as u8);
        frame.push((crc / 256) as u8);
        proof {
            assert(frame@ =~= rtu_frame(self.device_id, pdu@));
        }
        frame
    }

    /// Checks length, device address and CRC of a received frame, and
    /// strips the address byte and the two CRC bytes.
    fn unwrap_rtu(&self, frame: &[u8]) -> (r: Result<Vec<u8>, ModbusTransportError>)
        ensures
            match unwrap_rtu_spec(self.device_id, frame@) {
                Ok(pdu) => r matches Ok(v) && v@ == pdu,
                Err(te) => r matches Err(e) && e == te,
            },
    {
        if frame.len() < 4 {
            return Err(ModbusTransportError::FrameTooShort);
        }
        let unit_id = frame[0];
        if unit_id != self.device_id {
            return Err(
                ModbusTransportError::UnitIdMismatch {
                    expected: self.device_id,
                    received: unit_id,
                },
            );
        }
        let received_crc = (frame[frame.len() - 1] as u16) * 256 + (frame[frame.len() - 2] as u16);
        let body = vstd::slice::slice_subrange(frame, 0, frame.len() - 2);
        let calculated_crc = Self::calculate_crc(body);
        if received_crc != calculated_crc {
            return Err(
                ModbusTransportError::CrcMismatch {
                    expected: calculated_crc,
                    received: received_crc,
                },
            );
        }
        let pdu = vstd::slice::slice_subrange(frame, 1, frame.len() - 2);
        Ok(vstd::slice::slice_to_vec(pdu))
    }

    /// The Modbus CRC16 of a byte sequence: initial value 0xFFFF, each
    /// byte XORed into the low byte and shifted out bit by bit against the
    /// reflected polynomial 0xA001.
    fn calculate_crc(data: &[u8]) -> (r: u16)
        ensures
            r == crc16(data@),
    {
        let mut crc: u16 = 0xFFFF;
        let mut i: usize = 0;
        while i < data.len()
            invariant
                i <= data@.len(),
                crc == crc_prefix(data@, i as int),
            decreases data@.len() - i,
        {
            let mut c = crc ^ (data[i] as u16);
            let mut k: usize = 0;
            while k < 8
                invariant
                    k <= 8,
                    c == crc_shift_n(crc ^ (data@[i as int] as u16), k as nat),
                decreases 8 - k,
            {
                if c & 1 != 0 {
                    c = (c >> 1) ^ 0xA001;
                } else {
                    c = c >> 1;
                }
                k = k + 1;
            }
            crc = c;
            i = i + 1;
        }
        crc
    }
}

} // verus!
