//! Classification errors for USB class code triples.

use vstd::prelude::*;

verus! {

/// The ways a `(base, sub, protocol)` byte triple can fail to classify.
/// Every kind carries the offending byte so the caller can report it.
#[derive(Clone, Copy, Debug, PartialEq, Eq)]
pub enum USBParseError {
    /// The subclass byte was recognized but the protocol byte is not in the
    /// family's protocol code table.
    UnknownProtocol(u8),

    /// The subclass byte is not in the family's subclass code table; the
    /// protocol byte was not examined.
    UnknownSubClass(u8),

    /// The base class byte is not assigned in the USB-IF base class table.
    UnknownClass(u8),

    /// The base class byte is assigned by the USB-IF table, but this library
    /// does not model the family's sub-table yet. Distinct from
    /// `UnknownClass`: the code is real, only unmodeled here.
    Unimplemented(u8),
}

} // verus!
