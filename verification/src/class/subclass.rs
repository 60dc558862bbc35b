//! Subclass code tables: one decoder per class family that has subclass
//! structure, mapping a single subclass byte to a closed variant set and
//! back.

use vstd::prelude::*;
use crate::error::USBParseError;

pub mod av;
pub mod cdc;
pub mod hid;
pub mod storage;

verus! {

/// Common capability of every subclass leaf type: a partial, invertible
/// mapping between a byte and the family's closed variant set, given by the
/// family's entry in the USB-IF subclass code tables.
pub trait USBSubClass: Sized {
    /// The family's subclass code table: the variant a byte decodes to, if
    /// the byte is assigned in the table.
    spec fn spec_decode(byte: u8) -> Option<Self>;

    /// The canonical subclass code of a variant.
    spec fn spec_encode(self) -> u8;

    /// Decodes a subclass byte against the family's table. A byte outside
    /// the table is rejected with the offending byte attached, never
    /// silently defaulted.
    fn decode(byte: u8) -> (result: Result<Self, USBParseError>)
        ensures
            Self::spec_decode(byte) matches Some(v) ==> result == Ok::<Self, USBParseError>(v),
            Self::spec_decode(byte) is None ==> result == Err::<Self, USBParseError>(
                USBParseError::UnknownSubClass(byte),
            ),
    ;

    /// Encodes a variant to its canonical subclass code.
    fn encode(self) -> (byte: u8)
        ensures
            byte == self.spec_encode(),
    ;

    /// Every variant's canonical byte decodes back to that same variant:
    /// encoding never leaves the decodable domain.
    proof fn lemma_canonical_byte(self)
        ensures
            Self::spec_decode(self.spec_encode()) == Some(self),
    ;
}

} // verus!
