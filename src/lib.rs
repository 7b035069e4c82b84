//! A small NAT-PMP client library: request encoding, response decoding and
//! validation, and result-code interpretation, all proved against their
//! wire layouts. Sending and receiving the datagrams is left to the caller.

pub mod dotted;
pub mod pmp;

pub use pmp::{
    address_reply, address_request, gen_mapping_request, get_result, mapping_reply,
    AddressResponse, MappingResponse, MappingType, PMPResultCode, PmpError,
};
