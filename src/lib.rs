//! Decoding of the header of an LZ4 frame: magic number, frame and block
//! descriptor bytes, optional content size, header checksum byte and the
//! size field of the first data block.

pub mod checksum;
pub mod descriptor;
pub mod frame;
