//! The addressable-unit model: one validated read/write target (a
//! contiguous run of registers or coils of one kind), its builder, and the
//! PDU encoder and decoder that operate on it.

use vstd::prelude::*;

verus! {

/// The four Modbus register kinds.  The kind determines the default
/// function codes and the shape of a response (single bits against 16-bit
/// words).
#[derive(Copy, Clone, Debug, PartialEq, Eq, Structural)]
pub enum RegisterType {
    CoilRegister,
    DiscreteRegister,
    HoldingRegister,
    InputRegister,
}

/// Unit-level failures: configuration validation, write-payload
/// validation, and response-PDU validation.  Each variant carries the
/// offending values.
#[derive(Copy, Clone, Debug, PartialEq, Eq, Structural)]
pub enum ModbusUnitError {
    /// The configured start address lies outside `0..=65535`.
    InvalidAddress(i32),
    /// No start address was configured.
    AddressIsEmpty,
    /// The configured length lies outside `0..=65535`.
    InvalidLength(i32),
    /// Start address plus length exceeds 65535; carries address, length
    /// and their sum.
    RangeToMatch(i32, i32, i32),
    /// No register type was configured.
    InvalidRegisterType,
    /// A read-command override lies outside `0..=255`.
    InvalidReadCommand(i32),
    /// A write-command override lies outside `0..=255`.
    InvalidWriteCommand(i32),
    /// A multi-write-command override lies outside `0..=255`.
    InvalidWriteMultiCommand(i32),
    /// A write was requested on a register kind that has no write command.
    InvalidRegisterTypeForWriteCommand(RegisterType),
    /// A register write value does not fit in a signed 16-bit integer.
    ValueOverflow(i32),
    /// A coil write value other than 0 or 1, with its index.
    InvalidCoilValue(i32, usize),
    /// The response PDU is empty.
    EmptyResponse,
    /// The response is a protocol exception: function code (high bit set)
    /// and exception code.
    ModbusException(u8, u8),
    /// The response function code differs from the expected one:
    /// expected, then received.
    UnexpectedFunctionCode(u8, u8),
    /// The declared byte count or the actual size of a response PDU does
    /// not match the unit's configured length.
    InvalidResponseLength,
    /// The write payload holds more elements than the unit's configured
    /// length.
    DataLengthMismatch { expected: usize, actual: usize },
}

/// High byte of a 16-bit value.
pub open spec fn hi16(x: u16) -> u8 {
    (x / 256) as u8
}

/// Low byte of a 16-bit value.
pub open spec fn lo16(x: u16) -> u8 {
    (x % 256) as u8
}

/// One logical read/write target: a contiguous run of `length` registers
/// or coils of one kind starting at `start_addr`, with optional
/// non-standard function-code overrides.  Built once through
/// [`ModbusUnitBuilder`] and never mutated afterwards.
pub struct ModbusUnit {
    pub start_addr: u16,
    pub length: u16,
    pub register_type: RegisterType,
    pub read_cmd: Option<i32>,
    pub write_cmd: Option<i32>,
    pub multi_write_cmd: Option<i32>,
}

impl ModbusUnit {
    /// The invariant the builder establishes: the address range fits the
    /// 16-bit address space and every override fits in a byte.
    pub open spec fn wf(self) -> bool {
        &&& self.start_addr + self.length <= 65535
        &&& (self.read_cmd matches Some(c) ==> 0 <= c <= 255)
        &&& (self.write_cmd matches Some(c) ==> 0 <= c <= 255)
        &&& (self.multi_write_cmd matches Some(c) ==> 0 <= c <= 255)
    }
}

/// Accumulates the optional configuration fields of a [`ModbusUnit`]; all
/// validation happens at [`ModbusUnitBuilder::build`].
pub struct ModbusUnitBuilder {
    pub start_addr: Option<i32>,
    pub length: Option<i32>,
    pub register_type: Option<RegisterType>,
    pub spec_read_cmd: Option<i32>,
    pub spec_write_cmd: Option<i32>,
    pub spec_multi_write_cmd: Option<i32>,
}

/// What `build` returns for a given builder state: the first violated
/// invariant in validation order (address, register type, length, range,
/// read command, write command, multi-write command), or the frozen unit.
pub open spec fn build_spec(b: ModbusUnitBuilder) -> Result<ModbusUnit, ModbusUnitError> {
    if b.start_addr is None {
        Err(ModbusUnitError::AddressIsEmpty)
    } else if !(0 <= b.start_addr->0 <= 65535) {
        Err(ModbusUnitError::InvalidAddress(b.start_addr->0))
    } else if b.register_type is None {
        Err(ModbusUnitError::InvalidRegisterType)
    } else if b.length is Some && !(0 <= b.length->0 <= 65535) {
        Err(ModbusUnitError::InvalidLength(b.length->0))
    } else {
        let addr = b.start_addr->0;
        let len: i32 = if b.length is Some { b.length->0 } else { 1 };
        if addr + len > 65535 {
            Err(ModbusUnitError::RangeToMatch(addr, len, (addr + len) as i32))
        } else if b.spec_read_cmd is Some && !(0 <= b.spec_read_cmd->0 <= 255) {
            Err(ModbusUnitError::InvalidReadCommand(b.spec_read_cmd->0))
        } else if b.spec_write_cmd is Some && !(0 <= b.spec_write_cmd->0 <= 255) {
            Err(ModbusUnitError::InvalidWriteCommand(b.spec_write_cmd->0))
        } else if b.spec_multi_write_cmd is Some && !(0 <= b.spec_multi_write_cmd->0 <= 255) {
            Err(ModbusUnitError::InvalidWriteMultiCommand(b.spec_multi_write_cmd->0))
        } else {
            Ok(ModbusUnit {
                start_addr: addr as u16,
                length: len as u16,
                register_type: b.register_type->0,
                read_cmd: b.spec_read_cmd,
                write_cmd: b.spec_write_cmd,
                multi_write_cmd: b.spec_multi_write_cmd,
            })
        }
    }
}

impl ModbusUnitBuilder {
    /// Sets the start address.
    pub fn address(self, addr: i32) -> (r: Self)
        ensures
            r == (Self { start_addr: Some(addr), ..self }),
    {
        Self { start_addr: Some(addr), ..self }
    }

    /// Sets the number of addressed elements.
    pub fn length(self, length: i32) -> (r: Self)
        ensures
            r == (Self { length: Some(length), ..self }),
    {
        Self { length: Some(length), ..self }
    }

    /// Sets the register kind.
    pub fn register_type(self, register_type: RegisterType) -> (r: Self)
        ensures
            r == (Self { register_type: Some(register_type), ..self }),
    {
        Self { register_type: Some(register_type), ..self }
    }

    /// Overrides the read function code.
    pub fn with_read_cmd(self, spec_read_cmd: i32) -> (r: Self)
        ensures
            r == (Self { spec_read_cmd: Some(spec_read_cmd), ..self }),
    {
        Self { spec_read_cmd: Some(spec_read_cmd), ..self }
    }

    /// Overrides the single-write function code.
    pub fn with_write_cmd(self, spec_write_cmd: i32) -> (r: Self)
        ensures
            r == (Self { spec_write_cmd: Some(spec_write_cmd), ..self }),
    {
        Self { spec_write_cmd: Some(spec_write_cmd), ..self }
    }

    /// Overrides the multi-write function code.
    pub fn with_multi_write_cmd(self, multi_write_cmd: i32) -> (r: Self)
        ensures
            r == (Self { spec_multi_write_cmd: Some(multi_write_cmd), ..self }),
    {
        Self { spec_multi_write_cmd: Some(multi_write_cmd), ..self }
    }

    /// Validates every configured field and freezes them into an immutable
    /// [`ModbusUnit`], or fails with the first violated invariant.
    pub fn build(self) -> (r: Result<ModbusUnit, ModbusUnitError>)
        ensures
            r == build_spec(self),
            r matches Ok(u) ==> u.wf(),
    {
        let start_addr = match self.start_addr {
            Some(addr) => {
                if addr < 0 || addr > 65535 {
                    return Err(ModbusUnitError::InvalidAddress(addr));
                }
                addr
            },
            None => {
                return Err(ModbusUnitError::AddressIsEmpty);
            },
        };
        let reg_type = match self.register_type {
            Some(reg_type) => reg_type,
            None => {
                return Err(ModbusUnitError::InvalidRegisterType);
            },
        };
        let length = match self.length {
            Some(length) => {
                if length < 0 || length > 65535 {
                    return Err(ModbusUnitError::InvalidLength(length));
                }
                length
            },
            None => 1,
        };
        let end_addr = start_addr + length;
        if end_addr > 65535 {
            return Err(ModbusUnitError::RangeToMatch(start_addr, length, end_addr));
        }
        if let Some(cmd) = self.spec_read_cmd {
            if cmd < 0 || cmd > 255 {
                return Err(ModbusUnitError::InvalidReadCommand(cmd));
            }
        }
        if let Some(cmd) = self.spec_write_cmd {
            if cmd < 0 || cmd > 255 {
                return Err(ModbusUnitError::InvalidWriteCommand(cmd));
            }
        }
        if let Some(cmd) = self.spec_multi_write_cmd {
            if cmd < 0 || cmd > 255 {
                return Err(ModbusUnitError::InvalidWriteMultiCommand(cmd));
            }
        }
        Ok(
            ModbusUnit {
                start_addr: start_addr as u16,
                length: length as u16,
                register_type: reg_type,
                read_cmd: self.spec_read_cmd,
                write_cmd: self.spec_write_cmd,
                multi_write_cmd: self.spec_multi_write_cmd,
            },
        )
    }
}

/// The default read function code of a register kind.
pub open spec fn default_read_command(rt: RegisterType) -> u8 {
    match rt {
        RegisterType::CoilRegister => 0x01,
        RegisterType::DiscreteRegister => 0x02,
        RegisterType::HoldingRegister => 0x03,
        RegisterType::InputRegister => 0x04,
    }
}

/// The read function code a unit uses: the override if one is configured,
/// else the register kind's default.
pub open spec fn read_command_spec(u: ModbusUnit) -> u8 {
    match u.read_cmd {
        Some(c) => c as u8,
        None => default_read_command(u.register_type),
    }
}

/// The single-write function code a unit uses: the override if one is
/// configured, else Coil=0x05 / Holding=0x06; the other kinds have none.
pub open spec fn single_write_command_spec(u: ModbusUnit) -> Result<u8, ModbusUnitError> {
    match u.write_cmd {
        Some(c) => Ok(c as u8),
        None => match u.register_type {
            RegisterType::CoilRegister => Ok(0x05),
            RegisterType::HoldingRegister => Ok(0x06),
            _ => Err(ModbusUnitError::InvalidRegisterTypeForWriteCommand(u.register_type)),
        },
    }
}

/// The multi-write function code a unit uses: the override if one is
/// configured, else Coil=0x0F / Holding=0x10; the other kinds have none.
pub open spec fn multi_write_command_spec(u: ModbusUnit) -> Result<u8, ModbusUnitError> {
    match u.multi_write_cmd {
        Some(c) => Ok(c as u8),
        None => match u.register_type {
            RegisterType::CoilRegister => Ok(0x0F),
            RegisterType::HoldingRegister => Ok(0x10),
            _ => Err(ModbusUnitError::InvalidRegisterTypeForWriteCommand(u.register_type)),
        },
    }
}

/// The write function code for a payload of `n` elements: the single-write
/// code for exactly one element, the multi-write code otherwise.
pub open spec fn write_command_spec(u: ModbusUnit, n: int) -> Result<u8, ModbusUnitError> {
    if n == 1 {
        single_write_command_spec(u)
    } else {
        multi_write_command_spec(u)
    }
}

/// Whether a write value fits in a signed 16-bit register.
pub open spec fn fits_i16(v: i32) -> bool {
    -32768 <= v <= 32767
}

/// Whether a write value is a valid coil state.
pub open spec fn is_bit(v: i32) -> bool {
    v == 0 || v == 1
}

/// The 16-bit two's-complement image of a register write value.
pub open spec fn to_u16(v: i32) -> u16
    recommends
        fits_i16(v),
{
    if v >= 0 {
        v as u16
    } else {
        (v + 65536) as u16
    }
}

/// The least index of a payload element outside the signed 16-bit range,
/// if any.
pub open spec fn first_overflow(data: Seq<i32>) -> Option<int>
    decreases data.len(),
{
    if data.len() == 0 {
        None
    } else if !fits_i16(data[0]) {
        Some(0int)
    } else {
        match first_overflow(data.drop_first()) {
            Some(i) => Some(i + 1),
            None => None,
        }
    }
}

/// The least index of a payload element that is neither 0 nor 1, if any.
pub open spec fn first_non_bit(data: Seq<i32>) -> Option<int>
    decreases data.len(),
{
    if data.len() == 0 {
        None
    } else if !is_bit(data[0]) {
        Some(0int)
    } else {
        match first_non_bit(data.drop_first()) {
            Some(i) => Some(i + 1),
            None => None,
        }
    }
}

/// A left-to-right scan that has found no out-of-range element among the
/// first `i` pins `first_overflow` down: the scan's current position is the
/// first offender, or there is none.
pub proof fn lemma_first_overflow_scan(data: Seq<i32>, i: int)
    requires
        0 <= i <= data.len(),
        forall|j: int| 0 <= j < i ==> fits_i16(data[j]),
    ensures
        i < data.len() && !fits_i16(data[i]) ==> first_overflow(data) == Some(i),
        i == data.len() ==> first_overflow(data) is None,
    decreases i,
{
    if i > 0 {
        lemma_first_overflow_scan(data.drop_first(), i - 1);
    }
}

/// The counterpart of [`lemma_first_overflow_scan`] for coil payloads.
pub proof fn lemma_first_non_bit_scan(data: Seq<i32>, i: int)
    requires
        0 <= i <= data.len(),
        forall|j: int| 0 <= j < i ==> is_bit(data[j]),
    ensures
        i < data.len() && !is_bit(data[i]) ==> first_non_bit(data) == Some(i),
        i == data.len() ==> first_non_bit(data) is None,
    decreases i,
{
    if i > 0 {
        lemma_first_non_bit_scan(data.drop_first(), i - 1);
    }
}

/// The data section of a multi-register write: each value big-endian as a
/// signed 16-bit integer.
pub open spec fn holding_data_bytes(data: Seq<i32>) -> Seq<u8> {
    Seq::new(
        2 * data.len(),
        |k: int|
            if k % 2 == 0 {
                hi16(to_u16(data[k / 2]))
            } else {
                lo16(to_u16(data[k / 2]))
            },
    )
}

/// Bit `i` of a coil payload as 0 or 1; indices past the payload are the
/// zero padding of the final byte.
pub open spec fn coil_bit(data: Seq<i32>, i: int) -> u8 {
    if 0 <= i < data.len() && data[i] != 0 {
        1
    } else {
        0
    }
}

/// Byte `j` of a packed coil payload: payload bit `8*j + k` at bit `k`.
pub open spec fn coil_byte(data: Seq<i32>, j: int) -> u8 {
    (coil_bit(data, 8 * j) + 2 * coil_bit(data, 8 * j + 1) + 4 * coil_bit(data, 8 * j + 2) + 8
        * coil_bit(data, 8 * j + 3) + 16 * coil_bit(data, 8 * j + 4) + 32 * coil_bit(
        data,
        8 * j + 5,
    ) + 64 * coil_bit(data, 8 * j + 6) + 128 * coil_bit(data, 8 * j + 7)) as u8
}

/// A coil payload packed little-endian within each byte, the unused high
/// bits of the final byte zero.
pub open spec fn packed_coils(data: Seq<i32>) -> Seq<u8> {
    Seq::new((data.len() + 7) / 8, |j: int| coil_byte(data, j))
}

/// The write-request PDU for holding registers: function code and start
/// address; for more than one element also element count and byte count;
/// then each value big-endian.
pub open spec fn holding_write_pdu(u: ModbusUnit, data: Seq<i32>, cmd: u8) -> Seq<u8> {
    let head = seq![cmd, hi16(u.start_addr), lo16(u.start_addr)];
    let mid = if data.len() > 1 {
        seq![
            ((data.len() / 256) % 256) as u8,
            (data.len() % 256) as u8,
            ((data.len() * 2) % 256) as u8,
        ]
    } else {
        Seq::<u8>::empty()
    };
    head + mid + holding_data_bytes(data)
}

/// The write-request PDU for coils: for one element the force-coil
/// encoding (0xFF00 for on, 0x0000 for off); for more, element count, byte
/// count and the packed bits.
pub open spec fn coil_write_pdu(u: ModbusUnit, data: Seq<i32>, cmd: u8) -> Seq<u8> {
    let head = seq![cmd, hi16(u.start_addr), lo16(u.start_addr)];
    if data.len() == 1 {
        head + seq![
            if data[0] != 0 {
                0xFFu8
            } else {
                0x00u8
            },
            0x00u8,
        ]
    } else {
        head + seq![
            ((data.len() / 256) % 256) as u8,
            (data.len() % 256) as u8,
            (((data.len() + 7) / 8) % 256) as u8,
        ] + packed_coils(data)
    }
}

/// What a write request returns for a unit and a payload: the PDU, or the
/// first failure among payload length, function-code lookup, register-kind
/// support and element validation.
pub open spec fn write_request_spec(u: ModbusUnit, data: Seq<i32>) -> Result<
    Seq<u8>,
    ModbusUnitError,
> {
    if data.len() > u.length {
        Err(
            ModbusUnitError::DataLengthMismatch {
                expected: u.length as usize,
                actual: data.len() as usize,
            },
        )
    } else {
        match write_command_spec(u, data.len() as int) {
            Err(e) => Err(e),
            Ok(cmd) => match u.register_type {
                RegisterType::CoilRegister => match first_non_bit(data) {
                    Some(i) => Err(ModbusUnitError::InvalidCoilValue(data[i], i as usize)),
                    None => Ok(coil_write_pdu(u, data, cmd)),
                },
                RegisterType::HoldingRegister => match first_overflow(data) {
                    Some(i) => Err(ModbusUnitError::ValueOverflow(data[i])),
                    None => Ok(holding_write_pdu(u, data, cmd)),
                },
                _ => Err(ModbusUnitError::InvalidRegisterTypeForWriteCommand(u.register_type)),
            },
        }
    }
}

/// The register values of a word response: `n` big-endian 16-bit words
/// starting at offset 2.
pub open spec fn holding_words(pdu: Seq<u8>, n: int) -> Seq<u16> {
    Seq::new(n as nat, |i: int| (pdu[2 + 2 * i] * 256 + pdu[2 + 2 * i + 1]) as u16)
}

/// The coil values of a bit response: `n` single bits starting at offset
/// 2, little-endian within each byte, each widened to 0 or 1.
pub open spec fn coil_values(pdu: Seq<u8>, n: int) -> Seq<u16> {
    Seq::new(n as nat, |i: int| ((pdu[2 + i / 8] >> ((i % 8) as u8)) & 1) as u16)
}

/// What parsing a response PDU returns: an exception report, a mismatch
/// error, or one value per configured element.  The exception check comes
/// before any other validation.
pub open spec fn parse_response_spec(u: ModbusUnit, pdu: Seq<u8>) -> Result<
    Seq<u16>,
    ModbusUnitError,
> {
    if pdu.len() == 0 {
        Err(ModbusUnitError::EmptyResponse)
    } else if pdu[0] & 0x80 != 0 {
        Err(
            ModbusUnitError::ModbusException(
                pdu[0],
                if pdu.len() > 1 {
                    pdu[1]
                } else {
                    0
                },
            ),
        )
    } else if pdu[0] != read_command_spec(u) {
        Err(ModbusUnitError::UnexpectedFunctionCode(read_command_spec(u), pdu[0]))
    } else {
        match u.register_type {
            RegisterType::HoldingRegister | RegisterType::InputRegister => {
                if pdu.len() < 2 || pdu[1] != 2 * u.length || pdu.len() < 2 + pdu[1] {
                    Err(ModbusUnitError::InvalidResponseLength)
                } else {
                    Ok(holding_words(pdu, u.length as int))
                }
            },
            RegisterType::CoilRegister | RegisterType::DiscreteRegister => {
                if pdu.len() < 2 || pdu[1] != (u.length + 7) / 8 || pdu.len() < 2 + pdu[1] {
                    Err(ModbusUnitError::InvalidResponseLength)
                } else {
                    Ok(coil_values(pdu, u.length as int))
                }
            },
        }
    }
}

/// The fixed 5-byte read-request PDU of a unit: function code, then start
/// address and element count, each big-endian.
pub open spec fn read_request_spec(u: ModbusUnit) -> Seq<u8> {
    seq![
        read_command_spec(u),
        hi16(u.start_addr),
        lo16(u.start_addr),
        hi16(u.length),
        lo16(u.length),
    ]
}

/// Builder validation of the address range: with an address, a length and
/// a register kind configured and no overrides, building succeeds exactly
/// when address and length lie in `0..=65535` and their sum does not
/// exceed 65535; each violated bound yields its own error, in validation
/// order.
pub proof fn lemma_builder_address_length(addr: i32, length: i32, rt: RegisterType)
    ensures
        ({
            let b = ModbusUnitBuilder {
                start_addr: Some(addr),
                length: Some(length),
                register_type: Some(rt),
                spec_read_cmd: None,
                spec_write_cmd: None,
                spec_multi_write_cmd: None,
            };
            &&& (build_spec(b) is Ok <==> 0 <= addr <= 65535 && 0 <= length <= 65535 && addr
                + length <= 65535)
            &&& !(0 <= addr <= 65535) ==> build_spec(b) == Err::<ModbusUnit, ModbusUnitError>(
                ModbusUnitError::InvalidAddress(addr),
            )
            &&& 0 <= addr <= 65535 && !(0 <= length <= 65535) ==> build_spec(b) == Err::<
                ModbusUnit,
                ModbusUnitError,
            >(ModbusUnitError::InvalidLength(length))
            &&& 0 <= addr <= 65535 && 0 <= length <= 65535 && addr + length > 65535 ==> build_spec(
                b,
            ) == Err::<ModbusUnit, ModbusUnitError>(
                ModbusUnitError::RangeToMatch(addr, length, (addr + length) as i32),
            )
        }),
{
}

/// A response whose function code has the high bit set always parses to a
/// protocol exception, whatever the register kind or the declared length;
/// the exception code is the second byte, or 0 if the PDU has only one.
pub proof fn lemma_exception_response(u: ModbusUnit, pdu: Seq<u8>)
    requires
        pdu.len() > 0,
        pdu[0] & 0x80 != 0,
    ensures
        parse_response_spec(u, pdu) == Err::<Seq<u16>, ModbusUnitError>(
            ModbusUnitError::ModbusException(
                pdu[0],
                if pdu.len() > 1 {
                    pdu[1]
                } else {
                    0
                },
            ),
        ),
{
}

/// Register-kind support of the three operations: a read code is defined
/// for every kind; coils and holding registers always resolve a write
/// code, and their write requests succeed whenever every payload element
/// is valid; discrete inputs and input registers deterministically reject
/// every write with `InvalidRegisterTypeForWriteCommand`, with or without
/// configured overrides.
pub proof fn lemma_register_type_write_support(u: ModbusUnit, data: Seq<i32>)
    requires
        data.len() <= u.length,
    ensures
        (u.register_type == RegisterType::CoilRegister || u.register_type
            == RegisterType::HoldingRegister) ==> write_command_spec(u, data.len() as int) is Ok,
        u.register_type == RegisterType::CoilRegister && first_non_bit(data) is None
            ==> write_request_spec(u, data) is Ok,
        u.register_type == RegisterType::HoldingRegister && first_overflow(data) is None
            ==> write_request_spec(u, data) is Ok,
        (u.register_type == RegisterType::DiscreteRegister || u.register_type
            == RegisterType::InputRegister) ==> write_request_spec(u, data) == Err::<
            Seq<u8>,
            ModbusUnitError,
        >(ModbusUnitError::InvalidRegisterTypeForWriteCommand(u.register_type)),
{
}

/// Packs up to eight coil values into byte `j` of the packed payload,
/// payload bit `8*j + k` at bit `k`.
fn pack_coil_byte(data: &[i32], j: usize) -> (b: u8)
    requires
        data@.len() <= 65535,
        j < (data@.len() + 7) / 8,
    ensures
        b == coil_byte(data@, j as int),
{
    let n = data.len();
    let base = 8 * j;
    let mut b: u8 = 0;
    if base < n && data[base] != 0 {
        b = b + 1;
    }
    if base + 1 < n && data[base + 1] != 0 {
        b = b + 2;
    }
    if base + 2 < n && data[base + 2] != 0 {
        b = b + 4;
    }
    if base + 3 < n && data[base + 3] != 0 {
        b = b + 8;
    }
    if base + 4 < n && data[base + 4] != 0 {
        b = b + 16;
    }
    if base + 5 < n && data[base + 5] != 0 {
        b = b + 32;
    }
    if base + 6 < n && data[base + 6] != 0 {
        b = b + 64;
    }
    if base + 7 < n && data[base + 7] != 0 {
        b = b + 128;
    }
    b
}

impl ModbusUnit {
    /// A builder with every field unset.
    pub fn builder() -> (r: ModbusUnitBuilder)
        ensures
            r == (ModbusUnitBuilder {
                start_addr: None,
                length: None,
                register_type: None,
                spec_read_cmd: None,
                spec_write_cmd: None,
                spec_multi_write_cmd: None,
            }),
    {
        ModbusUnitBuilder {
            start_addr: None,
            length: None,
            register_type: None,
            spec_read_cmd: None,
            spec_write_cmd: None,
            spec_multi_write_cmd: None,
        }
    }

    /// Builds the 5-byte read-request PDU.  Every input was validated when
    /// the unit was built, so this always succeeds; the result type keeps
    /// the request-building interface uniform with the write side.
    pub fn create_read_request(&self) -> (r: Result<Vec<u8>, ModbusUnitError>)
        requires
            self.wf(),
        ensures
            r matches Ok(pdu) && pdu@ == read_request_spec(*self),
    {
        let command = self.get_read_command();
        let mut msg: Vec<u8> = Vec::new();
        msg.push(command);
        msg.push((self.start_addr / 256) as u8);
        msg.push((self.start_addr % 256) as u8);
        msg.push((self.length / 256) as u8);
        msg.push((self.length % 256) as u8);
        proof {
            assert(msg@ =~= read_request_spec(*self));
        }
        Ok(msg)
    }

    /// Parses a transport-unwrapped response PDU into one value per
    /// configured element: 16-bit words for register kinds, 0/1 values for
    /// bit kinds.  A set high bit of the function code is reported as a
    /// protocol exception before any other validation.
    pub fn parse_response(&self, pdu: &[u8]) -> (r: Result<Vec<u16>, ModbusUnitError>)
        requires
            self.wf(),
        ensures
            match parse_response_spec(*self, pdu@) {
                Ok(values) => r matches Ok(v) && v@ == values,
                Err(e) => r matches Err(e2) && e2 == e,
            },
    {
        if pdu.len() == 0 {
            return Err(ModbusUnitError::EmptyResponse);
        }
        let function_code = pdu[0];
        if function_code & 0x80 != 0 {
            let exception_code = if pdu.len() > 1 {
                pdu[1]
            } else {
                0
            };
            return Err(ModbusUnitError::ModbusException(function_code, exception_code));
        }
        let expected_fc = self.get_read_command();
        if function_code != expected_fc {
            return Err(ModbusUnitError::UnexpectedFunctionCode(expected_fc, function_code));
        }
        match self.register_type {
            RegisterType::HoldingRegister | RegisterType::InputRegister => {
                self.parse_holding_registers(pdu)
            },
            RegisterType::CoilRegister | RegisterType::DiscreteRegister => self.parse_coils(pdu),
        }
    }

    /// Decodes the words of a register response after checking the
    /// declared byte count against the configured length.
    fn parse_holding_registers(&self, pdu: &[u8]) -> (r: Result<Vec<u16>, ModbusUnitError>)
        requires
            self.wf(),
        ensures
            ({
                let valid = pdu@.len() >= 2 && pdu@[1] == 2 * self.length && pdu@.len() >= 2
                    + pdu@[1];
                if valid {
                    r matches Ok(v) && v@ == holding_words(pdu@, self.length as int)
                } else {
                    r matches Err(e) && e == ModbusUnitError::InvalidResponseLength
                }
            }),
    {
        if pdu.len() < 2 {
            return Err(ModbusUnitError::InvalidResponseLength);
        }
        let byte_count = pdu[1] as usize;
        let expected_bytes = self.length as usize * 2;
        if byte_count != expected_bytes || pdu.len() < 2 + byte_count {
            return Err(ModbusUnitError::InvalidResponseLength);
        }
        let n = self.length as usize;
        let mut result: Vec<u16> = Vec::new();
        let mut i: usize = 0;
        while i < n
            invariant
                n == self.length,
                i <= n,
                pdu@.len() >= 2 + 2 * n,
                result@ == holding_words(pdu@, n as int).take(i as int),
            decreases n - i,
        {
            let offset = 2 + i * 2;
            let value = (pdu[offset] as u16) * 256 + (pdu[offset + 1] as u16);
            result.push(value);
            proof {
                assert(result@ =~= holding_words(pdu@, n as int).take(i as int + 1));
            }
            i = i + 1;
        }
        proof {
            assert(result@ =~= holding_words(pdu@, self.length as int));
        }
        Ok(result)
    }

    /// Decodes the bits of a coil or discrete-input response after
    /// checking the declared byte count against the configured length.
    fn parse_coils(&self, pdu: &[u8]) -> (r: Result<Vec<u16>, ModbusUnitError>)
        requires
            self.wf(),
        ensures
            ({
                let valid = pdu@.len() >= 2 && pdu@[1] == (self.length + 7) / 8 && pdu@.len() >= 2
                    + pdu@[1];
                if valid {
                    r matches Ok(v) && v@ == coil_values(pdu@, self.length as int)
                } else {
                    r matches Err(e) && e == ModbusUnitError::InvalidResponseLength
                }
            }),
    {
        if pdu.len() < 2 {
            return Err(ModbusUnitError::InvalidResponseLength);
        }
        let byte_count = pdu[1] as usize;
        let expected_bytes = (self.length as usize + 7) / 8;
        if byte_count != expected_bytes || pdu.len() < 2 + byte_count {
            return Err(ModbusUnitError::InvalidResponseLength);
        }
        let n = self.length as usize;
        let mut result: Vec<u16> = Vec::new();
        let mut i: usize = 0;
        while i < n
            invariant
                n == self.length,
                i <= n,
                pdu@.len() >= 2 + (n + 7) / 8,
                result@ == coil_values(pdu@, n as int).take(i as int),
            decreases n - i,
        {
            let byte_idx = i / 8;
            let bit_idx = i % 8;
            let bit_value = (pdu[2 + byte_idx] >> (bit_idx as u8)) & 1;
            result.push(bit_value as u16);
            proof {
                assert(result@ =~= coil_values(pdu@, n as int).take(i as int + 1));
            }
            i = i + 1;
        }
        proof {
            assert(result@ =~= coil_values(pdu@, self.length as int));
        }
        Ok(result)
    }

    /// The read function code: the configured override, else the register
    /// kind's default.
    fn get_read_command(&self) -> (r: u8)
        requires
            self.wf(),
        ensures
            r == read_command_spec(*self),
    {
        match self.read_cmd {
            Some(cmd) => cmd as u8,
            None => match self.register_type {
                RegisterType::CoilRegister => 0x01,
                RegisterType::DiscreteRegister => 0x02,
                RegisterType::HoldingRegister => 0x03,
                RegisterType::InputRegister => 0x04,
            },
        }
    }

    /// The write function code for a payload of `length` elements.
    fn get_write_command(&self, length: usize) -> (r: Result<u8, ModbusUnitError>)
        requires
            self.wf(),
        ensures
            r == write_command_spec(*self, length as int),
    {
        match length {
            1 => self.get_single_write_command(),
            _ => self.get_multi_write_command(),
        }
    }

    /// The single-write function code, or the error for a kind without one.
    fn get_single_write_command(&self) -> (r: Result<u8, ModbusUnitError>)
        requires
            self.wf(),
        ensures
            r == single_write_command_spec(*self),
    {
        match self.write_cmd {
            Some(cmd) => Ok(cmd as u8),
            None => match self.register_type {
                RegisterType::CoilRegister => Ok(0x05),
                RegisterType::HoldingRegister => Ok(0x06),
                _ => Err(ModbusUnitError::InvalidRegisterTypeForWriteCommand(self.register_type)),
            },
        }
    }

    /// Builds a write-request PDU for a payload of one value per addressed
    /// element.  Rejects payloads longer than the configured length, write
    /// requests on register kinds without a write command, coil values
    /// other than 0 or 1, and register values outside the signed 16-bit
    /// range.
    pub fn get_write_request(&self, data: &[i32]) -> (r: Result<Vec<u8>, ModbusUnitError>)
        requires
            self.wf(),
        ensures
            match write_request_spec(*self, data@) {
                Ok(pdu) => r matches Ok(v) && v@ == pdu,
                Err(e) => r matches Err(e2) && e2 == e,
            },
    {
        if data.len() > self.length as usize {
            return Err(
                ModbusUnitError::DataLengthMismatch {
                    expected: self.length as usize,
                    actual: data.len(),
                },
            );
        }
        let cmd = match self.get_write_command(data.len()) {
            Ok(c) => c,
            Err(e) => {
                return Err(e);
            },
        };
        match self.register_type {
            RegisterType::CoilRegister => self.get_for_body_for_coils_write(data, cmd),
            RegisterType::HoldingRegister => self.get_for_body_for_holding_write(data, cmd),
            _ => Err(ModbusUnitError::InvalidRegisterTypeForWriteCommand(self.register_type)),
        }
    }

    /// Encodes a holding-register write body: head, the multi-element
    /// header when more than one value is written, then each value
    /// big-endian as a signed 16-bit integer.
    fn get_for_body_for_holding_write(&self, data: &[i32], cmd: u8) -> (r: Result<
        Vec<u8>,
        ModbusUnitError,
    >)
        requires
            self.wf(),
            data@.len() <= self.length,
        ensures
            match first_overflow(data@) {
                Some(i) => r matches Err(e) && e == ModbusUnitError::ValueOverflow(data@[i]),
                None => r matches Ok(pdu) && pdu@ == holding_write_pdu(*self, data@, cmd),
            },
    {
        let n = data.len();
        let mut result: Vec<u8> = Vec::new();
        result.push(cmd);
        result.push((self.start_addr / 256) as u8);
        result.push((self.start_addr % 256) as u8);
        if n > 1 {
            result.push(((n / 256) % 256) as u8);
            result.push((n % 256) as u8);
            result.push(((n * 2) % 256) as u8);
        }
        let ghost head_mid = result@;
        proof {
            assert(result@ =~= head_mid + holding_data_bytes(data@).take(0));
        }
        let mut i: usize = 0;
        while i < n
            invariant
                n == data@.len(),
                n <= 65535,
                i <= n,
                forall|j: int| 0 <= j < i ==> fits_i16(data@[j]),
                result@ == head_mid + holding_data_bytes(data@).take(2 * i as int),
            decreases n - i,
        {
            let v = data[i];
            if v < -32768 || v > 32767 {
                proof {
                    lemma_first_overflow_scan(data@, i as int);
                }
                return Err(ModbusUnitError::ValueOverflow(v));
            }
            let w: u16 = if v >= 0 {
                v as u16
            } else {
                (v + 65536) as u16
            };
            result.push((w / 256) as u8);
            result.push((w % 256) as u8);
            proof {
                assert(w == to_u16(data@[i as int]));
                assert(result@ =~= head_mid + holding_data_bytes(data@).take(2 * (i + 1) as int));
            }
            i = i + 1;
        }
        proof {
            lemma_first_overflow_scan(data@, n as int);
            assert(result@ =~= holding_write_pdu(*self, data@, cmd));
        }
        Ok(result)
    }

    /// Encodes a coil write body: validates every value, then uses the
    /// force-coil encoding for one element or the packed-bit encoding for
    /// several.
    fn get_for_body_for_coils_write(&self, data: &[i32], cmd: u8) -> (r: Result<
        Vec<u8>,
        ModbusUnitError,
    >)
        requires
            self.wf(),
            data@.len() <= self.length,
        ensures
            match first_non_bit(data@) {
                Some(i) => r matches Err(e) && e == ModbusUnitError::InvalidCoilValue(
                    data@[i],
                    i as usize,
                ),
                None => r matches Ok(pdu) && pdu@ == coil_write_pdu(*self, data@, cmd),
            },
    {
        let n = data.len();
        let mut i: usize = 0;
        while i < n
            invariant
                n == data@.len(),
                i <= n,
                forall|j: int| 0 <= j < i ==> is_bit(data@[j]),
            decreases n - i,
        {
            let v = data[i];
            if v != 0 && v != 1 {
                proof {
                    lemma_first_non_bit_scan(data@, i as int);
                }
                return Err(ModbusUnitError::InvalidCoilValue(v, i));
            }
            i = i + 1;
        }
        proof {
            lemma_first_non_bit_scan(data@, n as int);
        }
        let mut result: Vec<u8> = Vec::new();
        result.push(cmd);
        result.push((self.start_addr / 256) as u8);
        result.push((self.start_addr % 256) as u8);
        if n == 1 {
            let val: u8 = if data[0] != 0 {
                0xFF
            } else {
                0x00
            };
            result.push(val);
            result.push(0x00);
            proof {
                assert(result@ =~= coil_write_pdu(*self, data@, cmd));
            }
        } else {
            result.push(((n / 256) % 256) as u8);
            result.push((n % 256) as u8);
            let byte_count = (n + 7) / 8;
            result.push((byte_count % 256) as u8);
            let ghost head = result@;
            proof {
                assert(result@ =~= head + packed_coils(data@).take(0));
            }
            let mut j: usize = 0;
            while j < byte_count
                invariant
                    n == data@.len(),
                    n <= 65535,
                    byte_count == (n + 7) / 8,
                    j <= byte_count,
                    result@ == head + packed_coils(data@).take(j as int),
                decreases byte_count - j,
            {
                let b = pack_coil_byte(data, j);
                result.push(b);
                proof {
                    assert(result@ =~= head + packed_coils(data@).take(j as int + 1));
                }
                j = j + 1;
            }
            proof {
                assert(result@ =~= coil_write_pdu(*self, data@, cmd));
            }
        }
        Ok(result)
    }

    /// The multi-write function code, or the error for a kind without one.
    fn get_multi_write_command(&self) -> (r: Result<u8, ModbusUnitError>)
        requires
            self.wf(),
        ensures
            r == multi_write_command_spec(*self),
    {
        match self.multi_write_cmd {
            Some(cmd) => Ok(cmd as u8),
            None => match self.register_type {
                RegisterType::CoilRegister => Ok(0x0F),
                RegisterType::HoldingRegister => Ok(0x10),
                _ => Err(ModbusUnitError::InvalidRegisterTypeForWriteCommand(self.register_type)),
            },
        }
    }
}

} // verus!
