//! Wire codecs for the SOE transport protocol and for the gateway protocol
//! that rides on it, the seeded CRC that protects SOE frames, and a uniform
//! grid that indexes moving entities by the cells they touch.
//!
//! Every codec is stated twice: as a function on sequences of bytes that
//! says what a datagram means, and as the executable code that is proved to
//! compute it. What holds between decoding and encoding is proved over the
//! first.

pub mod byte_cursor;
pub mod crc;
pub mod crc_table;
pub mod gatewayprotocol;
pub mod gatewayprotocol_laws;
pub mod gatewayprotocol_packets_structs;
pub mod jenkins;
pub mod lib_utils;
pub mod lz4;
pub mod protocol_errors;
pub mod rc4;
pub mod soeprotocol;
pub mod soeprotocol_functions;
pub mod soeprotocol_json;
pub mod soeprotocol_laws;
pub mod soeprotocol_packets_structs;
pub mod spatial_hash_grid;
pub mod utils;
