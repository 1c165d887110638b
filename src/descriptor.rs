//! The two descriptor bytes that follow the magic number.

use vstd::prelude::*;

verus! {

/// Whether bit `i` (0 = least significant) of `b` is set.
pub open spec fn bit_set(b: u8, i: u8) -> bool {
    (b >> i) & 1 == 1
}

/// The frame descriptor (FLG byte).
#[derive(Clone, Copy, Debug, PartialEq, Eq, Structural)]
pub struct Flg {
    /// Format version, bits 7-6.
    pub version: u8,
    /// Blocks are independent, bit 5.
    pub b_indep: bool,
    /// Each block carries a checksum, bit 4.
    pub b_checksum: bool,
    /// The content size field is present, bit 3.
    pub c_size: bool,
    /// A checksum of the whole content follows the last block, bit 2.
    pub c_checksum: bool,
    /// A dictionary id field is present, bit 0.
    pub dict_id: bool,
}

/// The frame descriptor that the byte `b` encodes; bit 1 is reserved.
pub open spec fn flg_of(b: u8) -> Flg {
    Flg {
        version: b >> 6,
        b_indep: bit_set(b, 5),
        b_checksum: bit_set(b, 4),
        c_size: bit_set(b, 3),
        c_checksum: bit_set(b, 2),
        dict_id: bit_set(b, 0),
    }
}

impl From<u8> for Flg {
    fn from(byte: u8) -> (r: Flg) {
        assert(byte >> 0u8 == byte) by (bit_vector);
        Flg {
            version: byte >> 6,
            b_indep: byte >> 5 & 1 == 1,
            b_checksum: byte >> 4 & 1 == 1,
            c_size: byte >> 3 & 1 == 1,
            c_checksum: byte >> 2 & 1 == 1,
            dict_id: byte & 1 == 1,
        }
    }
}

impl vstd::std_specs::convert::FromSpecImpl<u8> for Flg {
    open spec fn obeys_from_spec() -> bool {
        true
    }

    open spec fn from_spec(v: u8) -> Flg {
        flg_of(v)
    }
}

/// The block descriptor (BD byte).
#[derive(Clone, Copy, Debug, PartialEq, Eq, Structural)]
pub struct Bd {
    /// Code of the largest block size, bits 6-4.
    pub block_maxsize: u8,
}

/// The block descriptor that the byte `b` encodes.
pub open spec fn bd_of(b: u8) -> Bd {
    Bd { block_maxsize: (b >> 4) & 7 }
}

impl From<u8> for Bd {
    fn from(byte: u8) -> (r: Bd) {
        Bd { block_maxsize: byte >> 4 & 0b111 }
    }
}

impl vstd::std_specs::convert::FromSpecImpl<u8> for Bd {
    open spec fn obeys_from_spec() -> bool {
        true
    }

    open spec fn from_spec(v: u8) -> Bd {
        bd_of(v)
    }
}

} // verus!
