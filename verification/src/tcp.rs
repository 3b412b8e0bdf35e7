//! TCP transport framing: a 7-byte MBAP header (transaction id, protocol
//! id, declared length, unit id) in front of the PDU, and a transaction-id
//! counter that increments once per outgoing request.

use vstd::prelude::*;

use crate::unit::{
    build_spec, hi16, lo16, parse_response_spec, read_request_spec, write_request_spec, ModbusUnit,
    ModbusUnitBuilder, RegisterType,
};
use crate::ModbusTransportError;

verus! {

/// A full TCP frame: transaction id, protocol id 0, the declared length
/// (PDU plus the unit-id byte, taken modulo 2^16 as the 16-bit field
/// holds it), the device id, then the PDU.
pub open spec fn tcp_frame(transaction_id: u16, device_id: u8, pdu: Seq<u8>) -> Seq<u8> {
    let len_field = ((pdu.len() + 1) % 65536) as u16;
    seq![
        hi16(transaction_id),
        lo16(transaction_id),
        0u8,
        0u8,
        hi16(len_field),
        lo16(len_field),
        device_id,
    ] + pdu
}

/// What unwrapping a received TCP frame returns: the carried PDU, cut to
/// the declared length, or the first failure among frame length, protocol
/// id, unit id and declared length.  A declared length of 0 counts as a
/// short frame: the MBAP length counts the unit-id byte, so a frame that
/// declares 0 carries less than even that byte claims.
pub open spec fn unwrap_tcp_spec(device_id: u8, frame: Seq<u8>) -> Result<
    Seq<u8>,
    ModbusTransportError,
> {
    if frame.len() < 7 {
        Err(ModbusTransportError::FrameTooShort)
    } else if frame[2] * 256 + frame[3] != 0 {
        Err(ModbusTransportError::InvalidProtocolId((frame[2] * 256 + frame[3]) as u16))
    } else if frame[6] != device_id {
        Err(ModbusTransportError::UnitIdMismatch { expected: device_id, received: frame[6] })
    } else {
        let declared = frame[4] * 256 + frame[5];
        if declared < 1 || frame.len() < 6 + declared {
            Err(ModbusTransportError::FrameTooShort)
        } else {
            Ok(frame.subrange(7, 6 + declared))
        }
    }
}

/// Unwrapping any frame that `tcp_frame` wrapped gives back exactly the
/// wrapped PDU.  The PDU plus the unit-id byte must fit the 16-bit MBAP
/// length field; a longer PDU has its declared length truncated on wire
/// and cannot survive the trip.
pub proof fn lemma_tcp_round_trip(transaction_id: u16, device_id: u8, pdu: Seq<u8>)
    requires
        pdu.len() + 1 <= 65535,
    ensures
        unwrap_tcp_spec(device_id, tcp_frame(transaction_id, device_id, pdu)) == Ok::<
            Seq<u8>,
            ModbusTransportError,
        >(pdu),
{
    let frame = tcp_frame(transaction_id, device_id, pdu);
    let len_field = ((pdu.len() + 1) % 65536) as u16;
    assert(len_field == pdu.len() + 1);
    assert(frame[4] * 256 + frame[5] == len_field);
    assert(frame.subrange(7, 6 + len_field as int) =~= pdu);
}

/// Round trip of a write request: for any unit and any payload its encoder
/// accepts, wrapping the encoded PDU into a TCP frame and unwrapping that
/// frame reproduces the PDU bytes exactly, as long as the PDU plus the
/// unit-id byte fits the 16-bit MBAP length field.
pub proof fn lemma_tcp_write_round_trip(
    transaction_id: u16,
    device_id: u8,
    u: ModbusUnit,
    data: Seq<i32>,
)
    requires
        write_request_spec(u, data) is Ok,
        write_request_spec(u, data)->Ok_0.len() + 1 <= 65535,
    ensures
        ({
            let pdu = write_request_spec(u, data)->Ok_0;
            unwrap_tcp_spec(device_id, tcp_frame(transaction_id, device_id, pdu)) == Ok::<
                Seq<u8>,
                ModbusTransportError,
            >(pdu)
        }),
{
    let pdu = write_request_spec(u, data)->Ok_0;
    lemma_tcp_round_trip(transaction_id, device_id, pdu);
}

/// A session over the TCP transport: a configured device id, the
/// immutable unit, and the transaction-id counter, which wraps on
/// overflow and increments exactly once per outgoing request.
pub struct ModbusTCP {
    pub unit: ModbusUnit,
    pub transaction_id: u16,
    pub device_id: u8,
}

/// Accumulates the unit configuration and the device id of a
/// [`ModbusTCP`]; all validation happens at [`ModbusTCPBuilder::build`].
pub struct ModbusTCPBuilder {
    pub unit_builder: ModbusUnitBuilder,
    pub device_id: Option<u8>,
}

impl ModbusTCPBuilder {
    /// Sets the start address.
    pub fn address(self, addr: i32) -> (r: Self)
        ensures
            r.unit_builder == (ModbusUnitBuilder { start_addr: Some(addr), ..self.unit_builder }),
            r.device_id == self.device_id,
    {
        Self { unit_builder: self.unit_builder.address(addr), ..self }
    }

    /// Sets the number of addressed elements.
    pub fn length(self, length: i32) -> (r: Self)
        ensures
            r.unit_builder == (ModbusUnitBuilder { length: Some(length), ..self.unit_builder }),
            r.device_id == self.device_id,
    {
        Self { unit_builder: self.unit_builder.length(length), ..self }
    }

    /// Sets the register kind.
    pub fn register_type(self, register_type: RegisterType) -> (r: Self)
        ensures
            r.unit_builder == (ModbusUnitBuilder {
                register_type: Some(register_type),
                ..self.unit_builder
            }),
            r.device_id == self.device_id,
    {
        Self { unit_builder: self.unit_builder.register_type(register_type), ..self }
    }

    /// Overrides the read function code.
    pub fn with_read_cmd(self, spec_read_cmd: i32) -> (r: Self)
        ensures
            r.unit_builder == (ModbusUnitBuilder {
                spec_read_cmd: Some(spec_read_cmd),
                ..self.unit_builder
            }),
            r.device_id == self.device_id,
    {
        Self { unit_builder: self.unit_builder.with_read_cmd(spec_read_cmd), ..self }
    }

    /// Overrides the single-write function code.
    pub fn with_write_cmd(self, spec_write_cmd: i32) -> (r: Self)
        ensures
            r.unit_builder == (ModbusUnitBuilder {
                spec_write_cmd: Some(spec_write_cmd),
                ..self.unit_builder
            }),
            r.device_id == self.device_id,
    {
        Self { unit_builder: self.unit_builder.with_write_cmd(spec_write_cmd), ..self }
    }

    /// Overrides the multi-write function code.
    pub fn with_multi_write_cmd(self, multi_write_cmd: i32) -> (r: Self)
        ensures
            r.unit_builder == (ModbusUnitBuilder {
                spec_multi_write_cmd: Some(multi_write_cmd),
                ..self.unit_builder
            }),
            r.device_id == self.device_id,
    {
        Self { unit_builder: self.unit_builder.with_multi_write_cmd(multi_write_cmd), ..self }
    }

    /// Sets the device id the session addresses.
    pub fn device_id(self, device_id: u8) -> (r: Self)
        ensures
            r.unit_builder == self.unit_builder,
            r.device_id == Some(device_id),
    {
        Self { device_id: Some(device_id), ..self }
    }

    /// Validates the unit configuration, then requires a device id, and
    /// freezes both into a [`ModbusTCP`] whose transaction counter starts
    /// at zero.
    pub fn build(self) -> (r: Result<ModbusTCP, ModbusTransportError>)
        ensures
            match build_spec(self.unit_builder) {
                Err(e) => r matches Err(te) && te == ModbusTransportError::Protocol(e),
                Ok(u) => match self.device_id {
                    None => r matches Err(te) && te == ModbusTransportError::DeviceIdMissing,
                    Some(d) => r matches Ok(m) && m.unit == u && m.device_id == d
                        && m.transaction_id == 0,
                },
            },
            r matches Ok(m) ==> m.unit.wf(),
    {
        let unit = match self.unit_builder.build() {
            Ok(u) => u,
            Err(e) => {
                return Err(ModbusTransportError::Protocol(e));
            },
        };
        let device_id = match self.device_id {
            Some(d) => d,
            None => {
                return Err(ModbusTransportError::DeviceIdMissing);
            },
        };
        Ok(ModbusTCP { unit, transaction_id: 0, device_id })
    }
}

impl ModbusTCP {
    /// A builder with every field unset.
    pub fn builder() -> (r: ModbusTCPBuilder)
        ensures
            r.unit_builder == (ModbusUnitBuilder {
                start_addr: None,
                length: None,
                register_type: None,
                spec_read_cmd: None,
                spec_write_cmd: None,
                spec_multi_write_cmd: None,
            }),
            r.device_id is None,
    {
        ModbusTCPBuilder { unit_builder: ModbusUnit::builder(), device_id: None }
    }

    /// Builds the complete TCP frame of a read request, spending one
    /// transaction id.
    pub fn create_read_request(&mut self) -> (r: Result<Vec<u8>, ModbusTransportError>)
        requires
            old(self).unit.wf(),
        ensures
            final(self).unit == old(self).unit && final(self).device_id == old(self).device_id,
            final(self).transaction_id == (old(self).transaction_id + 1) % 65536,
            r matches Ok(frame) && frame@ == tcp_frame(
                final(self).transaction_id,
                final(self).device_id,
                read_request_spec(final(self).unit),
            ),
    {
        let pdu = match self.unit.create_read_request() {
            Ok(p) => p,
            Err(e) => {
                return Err(ModbusTransportError::Protocol(e));
            },
        };
        Ok(self.wrap_tcp(pdu))
    }

    /// Builds the complete TCP frame of a write request for a payload of
    /// one value per addressed element.  A rejected payload spends no
    /// transaction id.
    pub fn create_write_request(&mut self, data: &[i32]) -> (r: Result<
        Vec<u8>,
        ModbusTransportError,
    >)
        requires
            old(self).unit.wf(),
        ensures
            final(self).unit == old(self).unit && final(self).device_id == old(self).device_id,
            match write_request_spec(old(self).unit, data@) {
                Ok(pdu) => {
                    &&& final(self).transaction_id == (old(self).transaction_id + 1) % 65536
                    &&& r matches Ok(frame) && frame@ == tcp_frame(
                        final(self).transaction_id,
                        final(self).device_id,
                        pdu,
                    )
                },
                Err(e) => {
                    &&& final(self).transaction_id == old(self).transaction_id
                    &&& r matches Err(te) && te == ModbusTransportError::Protocol(e)
                },
            },
    {
        let pdu = match self.unit.get_write_request(data) {
            Ok(p) => p,
            Err(e) => {
                return Err(ModbusTransportError::Protocol(e));
            },
        };
        Ok(self.wrap_tcp(pdu))
    }

    /// Unwraps and validates a received TCP frame, then parses the carried
    /// response PDU into one value per configured element.
    pub fn parse_response(&self, frame: &[u8]) -> (r: Result<Vec<u16>, ModbusTransportError>)
        requires
            self.unit.wf(),
        ensures
            match unwrap_tcp_spec(self.device_id, frame@) {
                Err(te) => r matches Err(e) && e == te,
                Ok(pdu) => match parse_response_spec(self.unit, pdu) {
                    Ok(values) => r matches Ok(v) && v@ == values,
                    Err(e) => r matches Err(te) && te == ModbusTransportError::Protocol(e),
                },
            },
    {
        let pdu = match self.unwrap_tcp(frame) {
            Ok(p) => p,
            Err(e) => {
                return Err(e);
            },
        };
        match self.unit.parse_response(pdu.as_slice()) {
            Ok(v) => Ok(v),
            Err(e) => Err(ModbusTransportError::Protocol(e)),
        }
    }

    /// Frames a PDU: increments the transaction id (wrapping on overflow)
    /// before building the frame, then emits the MBAP header and the PDU.
    fn wrap_tcp(&mut self, pdu: Vec<u8>) -> (r: Vec<u8>)
        ensures
            final(self).unit == old(self).unit && final(self).device_id == old(self).device_id,
            final(self).transaction_id == (old(self).transaction_id + 1) % 65536,
            r@ == tcp_frame(final(self).transaction_id, final(self).device_id, pdu@),
    {
        self.transaction_id = if self.transaction_id == 65535 {
            0
        } else {
            self.transaction_id + 1
        };
        let length: u16 = (((pdu.len() % 65536) + 1) % 65536) as u16;
        proof {
            vstd::arithmetic::div_mod::lemma_add_mod_noop(pdu@.len() as int, 1, 65536);
        }
        let mut frame: Vec<u8> = Vec::new();
        frame.push((self.transaction_id / 256) as u8);
        frame.push((self.transaction_id % 256) as u8);
        frame.push(0x00);
        frame.push(0x00);
        frame.push((length / 256) as u8);
        frame.push((length % 256) as u8);
        frame.push(self.device_id);
        let ghost head = frame@;
        let mut i: usize = 0;
        while i < pdu.len()
            invariant
                i <= pdu@.len(),
                frame@ == head + pdu@.take(i as int),
            decreases pdu@.len() - i,
        {
            frame.push(pdu[i]);
            proof {
                assert(frame@ =~= head + pdu@.take(i as int + 1));
            }
            i = i + 1;
        }
        proof {
            assert(frame@ =~= tcp_frame(self.transaction_id, self.device_id, pdu@));
        }
        frame
    }

    /// Checks length, protocol id, unit id and the declared length of a
    /// received frame, and cuts the PDU out behind the MBAP header.
    fn unwrap_tcp(&self, frame: &[u8]) -> (r: Result<Vec<u8>, ModbusTransportError>)
        ensures
            match unwrap_tcp_spec(self.device_id, frame@) {
                Ok(pdu) => r matches Ok(v) && v@ == pdu,
                Err(te) => r matches Err(e) && e == te,
            },
    {
        if frame.len() < 7 {
            return Err(ModbusTransportError::FrameTooShort);
        }
        let protocol_id = (frame[2] as u16) * 256 + (frame[3] as u16);
        if protocol_id != 0 {
            return Err(ModbusTransportError::InvalidProtocolId(protocol_id));
        }
        let unit_id = frame[6];
        if unit_id != self.device_id {
            return Err(
                ModbusTransportError::UnitIdMismatch {
                    expected: self.device_id,
                    received: unit_id,
                },
            );
        }
        let length = (frame[4] as usize) * 256 + (frame[5] as usize);
        let expected_len = 6 + length;
        if length < 1 || frame.len() < expected_len {
            return Err(ModbusTransportError::FrameTooShort);
        }
        let pdu = vstd::slice::slice_subrange(frame, 7, expected_len);
        Ok(vstd::slice::slice_to_vec(pdu))
    }
}

} // verus!
