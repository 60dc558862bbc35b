//! Protocol code tables: one decoder per class family, mapping a single
//! protocol byte to a closed variant set and back.

use vstd::prelude::*;
use crate::error::USBParseError;

pub mod app;
pub mod cdc;
pub mod hid;
pub mod hub;
pub mod printer;
pub mod smartcard;
pub mod stillimage;
pub mod storage;
pub mod video;
pub mod wireless;

verus! {

/// Common capability of every protocol leaf type: a partial, invertible
/// mapping between a byte and the family's closed variant set, given by the
/// family's entry in the USB-IF protocol code tables.
pub trait USBProtocol: Sized {
    /// The family's protocol code table: the variant a byte decodes to, if
    /// the byte is assigned in the table.
    spec fn spec_decode(byte: u8) -> Option<Self>;

    /// The canonical protocol code of a variant.
    spec fn spec_encode(self) -> u8;

    /// Decodes a protocol byte against the family's table. A byte outside
    /// the table is rejected with the offending byte attached, never
    /// silently defaulted.
    fn decode(byte: u8) -> (result: Result<Self, USBParseError>)
        ensures
            Self::spec_decode(byte) matches Some(v) ==> result == Ok::<Self, USBParseError>(v),
            Self::spec_decode(byte) is None ==> result == Err::<Self, USBParseError>(
                USBParseError::UnknownProtocol(byte),
            ),
    ;

    /// Encodes a variant to its canonical protocol code.
    fn encode(self) -> (byte: u8)
        ensures
            byte == self.spec_encode(),
    ;

    /// Every variant's canonical byte decodes back to that same variant:
    /// encoding never leaves the decodable domain.
    proof fn lemma_canonical_byte(self)
        ensures
            Self::spec_decode(self.spec_encode()) == Some(self),
    ;

    /// Round trip over the decodable domain: every protocol table is an
    /// exact match, so a byte that decodes re-encodes to itself.
    proof fn lemma_round_trip(byte: u8)
        ensures
            Self::spec_decode(byte) matches Some(v) ==> v.spec_encode() == byte,
    ;
}

} // verus!
