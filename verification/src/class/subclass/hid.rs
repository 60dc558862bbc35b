//! Human Interface Device subclasses.

use vstd::prelude::*;

verus! {

/// Subclass structure of the Human Interface Device base class. The class
/// resolver selects the variant from the subclass and protocol bytes
/// together, so this type has no single-byte decoder of its own.
#[derive(Clone, Copy, Debug, PartialEq, Eq)]
pub enum HIDSubClass {
    /// Boot sub class.
    Boot,

    /// Keyboard protocol.
    Keyboard,

    /// Mouse protocol.
    Mouse,
}

} // verus!
