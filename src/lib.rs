//! Integer side of a color library: packing 8-bit channels into a 24-bit hex value.
mod hex;

pub use crate::hex::{hex_value, pack_hex};
