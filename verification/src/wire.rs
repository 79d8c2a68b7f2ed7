//! The binary encoding of the protocol: protocol-buffers wire format for the
//! messages declared in `proto`.

pub mod fields;
pub mod frame;
pub mod laws;
pub mod messages;
pub mod scalar;
pub mod varint;
