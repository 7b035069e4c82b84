//! NAT-PMP messages: request encoding, response decoding and validation, and
//! the meaning of result codes. Multi-byte integers are big-endian on the wire.

use vstd::prelude::*;
use crate::dotted::{dotted_quad, dotted_quad_string, lemma_octets_of_dotted_quad, octets_of};

verus! {

/// The UDP port a NAT-PMP gateway listens on.
pub const PORT: u16 = 5351;

/// How long to wait for the gateway's reply, in milliseconds.
pub const TIMEOUT: u64 = 200;

/// Size of the receive buffer: the larger of the two response layouts.
pub const RECEIVE_BUFFER_LEN: usize = 16;

/// Length of an address response on the wire.
pub const ADDRESS_RESPONSE_LEN: usize = 12;

/// Length of a mapping response on the wire.
pub const MAPPING_RESPONSE_LEN: usize = 16;

/// The transport protocol that a port mapping applies to.
#[derive(Debug, Clone, Copy, PartialEq, Eq, Structural)]
pub enum MappingType {
    Tcp,
    Udp,
}

/// Why an exchange with the gateway failed before a result code was read.
#[derive(Debug, Clone, Copy, PartialEq, Eq, Structural)]
pub enum PmpError {
    /// No reply: the socket failed or the receive timeout fired.
    NetworkError,
    /// The reply does not have the size of the expected response.
    InvalidLength,
    /// The reply declares a protocol version other than 0.
    UnsupportedVersion,
    /// The reply's opcode is not one for the operation attempted.
    InvalidOpCode,
}

impl PmpError {
    /// A short human-readable description of the error.
    pub fn message(&self) -> (r: &'static str)
        ensures
            r@ == self.message_text(),
    {
        match self {
            PmpError::NetworkError => "Networking error.",
            PmpError::InvalidLength => "Invalid response length.",
            PmpError::UnsupportedVersion => "Unsupported protocol version.",
            PmpError::InvalidOpCode => "Invalid operation code received.",
        }
    }

    pub open spec fn message_text(&self) -> Seq<char> {
        match self {
            PmpError::NetworkError => "Networking error."@,
            PmpError::InvalidLength => "Invalid response length."@,
            PmpError::UnsupportedVersion => "Unsupported protocol version."@,
            PmpError::InvalidOpCode => "Invalid operation code received."@,
        }
    }
}

/// The big-endian 16-bit integer in bytes `i` and `i + 1` of `b`.
pub open spec fn be_u16_at(b: Seq<u8>, i: int) -> u16 {
    (b[i] as int * 0x100 + b[i + 1] as int) as u16
}

/// The big-endian 32-bit integer in bytes `i` to `i + 3` of `b`.
pub open spec fn be_u32_at(b: Seq<u8>, i: int) -> u32 {
    (b[i] as int * 0x100_0000 + b[i + 1] as int * 0x1_0000 + b[i + 2] as int * 0x100
        + b[i + 3] as int) as u32
}

/// The two big-endian bytes of `v`.
pub open spec fn be_u16_bytes(v: u16) -> Seq<u8> {
    seq![(v / 0x100) as u8, (v % 0x100) as u8]
}

/// The four big-endian bytes of `v`.
pub open spec fn be_u32_bytes(v: u32) -> Seq<u8> {
    seq![
        (v / 0x100_0000) as u8,
        ((v / 0x1_0000) % 0x100) as u8,
        ((v / 0x100) % 0x100) as u8,
        (v % 0x100) as u8,
    ]
}

/// The reply to a public address request, as decoded.
#[derive(Debug)]
pub struct AddressResponse {
    pub version: u8,
    pub op_code: u8,
    pub result_code: u16,
    pub time_since_init: u32,
    pub ip_address: String,
}

/// What an `AddressResponse` holds, with the address as text.
pub struct AddressView {
    pub version: u8,
    pub op_code: u8,
    pub result_code: u16,
    pub time_since_init: u32,
    pub ip_address: Seq<char>,
}

impl View for AddressResponse {
    type V = AddressView;

    open spec fn view(&self) -> AddressView {
        AddressView {
            version: self.version,
            op_code: self.op_code,
            result_code: self.result_code,
            time_since_init: self.time_since_init,
            ip_address: self.ip_address@,
        }
    }
}

/// The reply to a port mapping request, as decoded.
#[derive(Debug, Clone, Copy, PartialEq, Eq, Structural)]
pub struct MappingResponse {
    pub version: u8,
    pub op_code: u8,
    pub result_code: u16,
    pub time_since_init: u32,
    pub private_port: u16,
    pub public_port: u16,
    pub lifetime: u32,
    pub mapping_type: MappingType,
}

/// The outcome of decoding `b` as an address response: 12 bytes, version 0,
/// opcode 128; then result code, seconds since start and four address octets.
pub open spec fn decode_address(b: Seq<u8>) -> Result<AddressView, PmpError> {
    if b.len() != 12 {
        Err(PmpError::InvalidLength)
    } else if b[0] != 0 {
        Err(PmpError::UnsupportedVersion)
    } else if b[1] != 128 {
        Err(PmpError::InvalidOpCode)
    } else {
        Ok(
            AddressView {
                version: b[0],
                op_code: b[1],
                result_code: be_u16_at(b, 2),
                time_since_init: be_u32_at(b, 4),
                ip_address: dotted_quad(b.subrange(8, 12)),
            },
        )
    }
}

/// The mapping protocol that a mapping response opcode stands for.
pub open spec fn response_mapping_type(op_code: u8) -> Option<MappingType> {
    if op_code == 129 {
        Some(MappingType::Udp)
    } else if op_code == 130 {
        Some(MappingType::Tcp)
    } else {
        None
    }
}

/// The outcome of decoding `b` as a mapping response: 16 bytes, version 0,
/// opcode 129 (UDP) or 130 (TCP); then result code, seconds since start,
/// private port, public port and lifetime.
pub open spec fn decode_mapping(b: Seq<u8>) -> Result<MappingResponse, PmpError> {
    if b.len() != 16 {
        Err(PmpError::InvalidLength)
    } else if b[0] != 0 {
        Err(PmpError::UnsupportedVersion)
    } else if response_mapping_type(b[1]) is None {
        Err(PmpError::InvalidOpCode)
    } else {
        Ok(
            MappingResponse {
                version: b[0],
                op_code: b[1],
                result_code: be_u16_at(b, 2),
                time_since_init: be_u32_at(b, 4),
                private_port: be_u16_at(b, 8),
                public_port: be_u16_at(b, 10),
                lifetime: be_u32_at(b, 12),
                mapping_type: response_mapping_type(b[1])->Some_0,
            },
        )
    }
}

/// The decoded view of an address decoding outcome.
pub open spec fn address_outcome(r: Result<AddressResponse, PmpError>) -> Result<AddressView, PmpError> {
    match r {
        Ok(resp) => Ok(resp@),
        Err(e) => Err(e),
    }
}

fn read_be_u16(data: &[u8], i: usize) -> (r: u16)
    requires
        i + 2 <= data@.len(),
    ensures
        r == be_u16_at(data@, i as int),
{
    (data[i] as u16) * 0x100 + data[i + 1] as u16
}

fn read_be_u32(data: &[u8], i: usize) -> (r: u32)
    requires
        i + 4 <= data@.len(),
    ensures
        r == be_u32_at(data@, i as int),
{
    (data[i] as u32) * 0x100_0000 + (data[i + 1] as u32) * 0x1_0000 + (data[i + 2] as u32) * 0x100
        + data[i + 3] as u32
}

impl AddressResponse {
    /// Decodes and validates an address response.
    pub fn new(data: &[u8]) -> (r: Result<AddressResponse, PmpError>)
        ensures
            address_outcome(r) == decode_address(data@),
    {
        if data.len() != ADDRESS_RESPONSE_LEN {
            return Err(PmpError::InvalidLength);
        }
        if data[0] != 0 {
            return Err(PmpError::UnsupportedVersion);
        }
        if data[1] != 128 {
            return Err(PmpError::InvalidOpCode);
        }
        let ip_address = dotted_quad_string(data[8], data[9], data[10], data[11]);
        assert(seq![data@[8], data@[9], data@[10], data@[11]] =~= data@.subrange(8, 12));
        Ok(
            AddressResponse {
                version: data[0],
                op_code: data[1],
                result_code: read_be_u16(data, 2),
                time_since_init: read_be_u32(data, 4),
                ip_address,
            },
        )
    }
}

impl MappingResponse {
    /// Decodes and validates a mapping response.
    pub fn new(data: &[u8]) -> (r: Result<MappingResponse, PmpError>)
        ensures
            r == decode_mapping(data@),
    {
        if data.len() != MAPPING_RESPONSE_LEN {
            return Err(PmpError::InvalidLength);
        }
        if data[0] != 0 {
            return Err(PmpError::UnsupportedVersion);
        }
        let mapping_type = if data[1] == 129 {
            MappingType::Udp
        } else if data[1] == 130 {
            MappingType::Tcp
        } else {
            return Err(PmpError::InvalidOpCode);
        };
        Ok(
            MappingResponse {
                version: data[0],
                op_code: data[1],
                result_code: read_be_u16(data, 2),
                time_since_init: read_be_u32(data, 4),
                private_port: read_be_u16(data, 8),
                public_port: read_be_u16(data, 10),
                lifetime: read_be_u32(data, 12),
                mapping_type,
            },
        )
    }
}

/// The opcode of a mapping request for protocol `t`: 1 for UDP, 2 for TCP.
/// (Responses use 129 and 130 instead.)
pub open spec fn request_op_code(t: MappingType) -> u8 {
    match t {
        MappingType::Udp => 1,
        MappingType::Tcp => 2,
    }
}

/// The 12 bytes of a mapping request: version 0, the opcode, two reserved
/// zero bytes, then private port, public port and lifetime.
pub open spec fn encode_mapping_request(
    mapping_type: MappingType,
    public_port: u16,
    private_port: u16,
    lifetime: u32,
) -> Seq<u8> {
    seq![0u8, request_op_code(mapping_type), 0u8, 0u8] + be_u16_bytes(private_port) + be_u16_bytes(
        public_port,
    ) + be_u32_bytes(lifetime)
}

/// The two bytes of a public address request: version 0, opcode 0.
pub fn address_request() -> (r: [u8; 2])
    ensures
        r@ == seq![0u8, 0u8],
{
    let r: [u8; 2] = [0, 0];
    assert(r@ =~= seq![0u8, 0u8]);
    r
}

/// Encodes a request to map `public_port` to `private_port` for `lifetime`
/// seconds.
pub fn gen_mapping_request(
    mapping_type: MappingType,
    public_port: u16,
    private_port: u16,
    lifetime: u32,
) -> (r: [u8; 12])
    ensures
        r@ == encode_mapping_request(mapping_type, public_port, private_port, lifetime),
        r@[1] == (if mapping_type == MappingType::Udp {
            1u8
        } else {
            2u8
        }),
{
    let op_code: u8 = match mapping_type {
        MappingType::Udp => 1,
        MappingType::Tcp => 2,
    };
    let r: [u8; 12] = [
        0,
        op_code,
        0,
        0,
        (private_port / 0x100) as u8,
        (private_port % 0x100) as u8,
        (public_port / 0x100) as u8,
        (public_port % 0x100) as u8,
        (lifetime / 0x100_0000) as u8,
        ((lifetime / 0x1_0000) % 0x100) as u8,
        ((lifetime / 0x100) % 0x100) as u8,
        (lifetime % 0x100) as u8,
    ];
    assert(r@ =~= encode_mapping_request(mapping_type, public_port, private_port, lifetime));
    r
}

/// The status text of a result code: codes 0 to 5 have fixed meanings, any
/// other code is unknown.
pub open spec fn status_text(code: u16) -> Seq<char> {
    if code == 0 {
        "Success"@
    } else if code == 1 {
        "Unsupported version"@
    } else if code == 2 {
        "Not authorized / Refused"@
    } else if code == 3 {
        "Network failure"@
    } else if code == 4 {
        "Out of resources"@
    } else if code == 5 {
        "Unsupported operation code"@
    } else {
        "Unknown"@
    }
}

/// A decoded response that carries a NAT-PMP result code.
pub trait PMPResultCode {
    spec fn result_code_spec(&self) -> u16;

    fn get_result_code(&self) -> (r: u16)
        ensures
            r == self.result_code_spec(),
    ;
}

impl PMPResultCode for AddressResponse {
    open spec fn result_code_spec(&self) -> u16 {
        self.result_code
    }

    fn get_result_code(&self) -> (r: u16) {
        self.result_code
    }
}

impl PMPResultCode for MappingResponse {
    open spec fn result_code_spec(&self) -> u16 {
        self.result_code
    }

    fn get_result_code(&self) -> (r: u16) {
        self.result_code
    }
}

/// Interprets a response's result code: `Ok` with "Success" for code 0,
/// otherwise `Err` with the code's status text.
pub fn get_result<T: PMPResultCode>(response: &T) -> (r: Result<&'static str, &'static str>)
    ensures
        r is Ok <==> response.result_code_spec() == 0,
        match r {
            Ok(s) => s@ == status_text(response.result_code_spec()),
            Err(s) => s@ == status_text(response.result_code_spec()),
        },
{
    let code = response.get_result_code();
    if code == 0 {
        Ok("Success")
    } else if code == 1 {
        Err("Unsupported version")
    } else if code == 2 {
        Err("Not authorized / Refused")
    } else if code == 3 {
        Err("Network failure")
    } else if code == 4 {
        Err("Out of resources")
    } else if code == 5 {
        Err("Unsupported operation code")
    } else {
        Err("Unknown")
    }
}

/// Completes a public address exchange: `received` is the reply datagram, or
/// `None` when no reply came (socket failure or timeout).
pub fn address_reply(received: Option<&[u8]>) -> (r: Result<AddressResponse, PmpError>)
    ensures
        match received {
            None => r matches Err(e) && e == PmpError::NetworkError,
            Some(data) => address_outcome(r) == decode_address(data@),
        },
{
    match received {
        None => Err(PmpError::NetworkError),
        Some(data) => AddressResponse::new(data),
    }
}

/// Completes a port mapping exchange: `received` is the reply datagram, or
/// `None` when no reply came (socket failure or timeout).
pub fn mapping_reply(received: Option<&[u8]>) -> (r: Result<MappingResponse, PmpError>)
    ensures
        match received {
            None => r == Err::<MappingResponse, PmpError>(PmpError::NetworkError),
            Some(data) => r == decode_mapping(data@),
        },
{
    match received {
        None => Err(PmpError::NetworkError),
        Some(data) => MappingResponse::new(data),
    }
}

/// A well-formed address response decodes, and reading the four octets back
/// from the decoded address text gives bytes 8 to 11 of the buffer.
pub proof fn lemma_address_octets_round_trip(b: Seq<u8>)
    requires
        b.len() == 12,
        b[0] == 0,
        b[1] == 128,
    ensures
        decode_address(b) is Ok,
        octets_of(decode_address(b)->Ok_0.ip_address) == b.subrange(8, 12),
{
    lemma_octets_of_dotted_quad(b.subrange(8, 12));
}

/// A well-formed mapping response decodes, with protocol UDP exactly when the
/// opcode is 129 and TCP exactly when it is 130.
pub proof fn lemma_mapping_protocol_from_op_code(b: Seq<u8>)
    requires
        b.len() == 16,
        b[0] == 0,
        b[1] == 129 || b[1] == 130,
    ensures
        decode_mapping(b) is Ok,
        decode_mapping(b)->Ok_0.mapping_type == MappingType::Udp <==> b[1] == 129,
        decode_mapping(b)->Ok_0.mapping_type == MappingType::Tcp <==> b[1] == 130,
{
}

/// A mapping request carries opcode 1 for UDP and 2 for TCP, whatever the
/// ports and lifetime.
pub proof fn lemma_request_op_code(
    mapping_type: MappingType,
    public_port: u16,
    private_port: u16,
    lifetime: u32,
)
    ensures
        mapping_type == MappingType::Udp ==> encode_mapping_request(
            mapping_type,
            public_port,
            private_port,
            lifetime,
        )[1] == 1,
        mapping_type == MappingType::Tcp ==> encode_mapping_request(
            mapping_type,
            public_port,
            private_port,
            lifetime,
        )[1] == 2,
{
}

/// A buffer of the wrong size is rejected with `InvalidLength`, whatever it
/// holds.
pub proof fn lemma_wrong_length_rejected(b: Seq<u8>)
    ensures
        b.len() != 12 ==> decode_address(b) == Err::<AddressView, PmpError>(
            PmpError::InvalidLength,
        ),
        b.len() != 16 ==> decode_mapping(b) == Err::<MappingResponse, PmpError>(
            PmpError::InvalidLength,
        ),
{
}

/// A buffer of the right size whose version byte is not 0 is rejected with
/// `UnsupportedVersion`.
pub proof fn lemma_wrong_version_rejected(b: Seq<u8>)
    requires
        b.len() > 0,
        b[0] != 0,
    ensures
        b.len() == 12 ==> decode_address(b) == Err::<AddressView, PmpError>(
            PmpError::UnsupportedVersion,
        ),
        b.len() == 16 ==> decode_mapping(b) == Err::<MappingResponse, PmpError>(
            PmpError::UnsupportedVersion,
        ),
{
}

} // verus!
