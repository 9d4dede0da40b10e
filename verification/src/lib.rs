//! Bit-accurate decoding of ASTERIX surveillance records, categories 21 and 48.
//!
//! A capture is a run of records, each framed by a category octet and a
//! 15-bit length. The body of a record opens with a presence bitmap that
//! says which data items follow. Every decoder here states in its contract
//! which bits it reads, what value they give and how many bits it consumes.
//!
//! Quantities that the wire carries with a fractional unit are kept exact, as
//! a numerator and a denominator ([`units::Scaled`]).

pub mod bds;
pub mod bits;
pub mod cat21;
pub mod cat48;
pub mod fspec;
pub mod names;
pub mod projection;
pub mod stream;
pub mod text;
pub mod units;

