//! The set of dynamic element conditions that a pseudo-class can depend on.
use vstd::prelude::*;

verus! {

/// The element is being activated (for example, a pressed button).
pub const IN_ACTIVE_STATE: u16 = 0x0001;
/// The element has the focus.
pub const IN_FOCUS_STATE: u16 = 0x0002;
/// The element is shown full screen.
pub const IN_FULLSCREEN_STATE: u16 = 0x0004;
/// The pointer is over the element.
pub const IN_HOVER_STATE: u16 = 0x0008;
/// The element is enabled.
pub const IN_ENABLED_STATE: u16 = 0x0010;
/// The element is disabled.
pub const IN_DISABLED_STATE: u16 = 0x0020;
/// The element is checked.
pub const IN_CHECKED_STATE: u16 = 0x0040;
/// The element is in the indeterminate state.
pub const IN_INDETERMINATE_STATE: u16 = 0x0080;
/// The element can be edited; its absence means read-only.
pub const IN_READ_WRITE_STATE: u16 = 0x0100;

/// A set of element state bits.
#[derive(Clone, Copy, Debug, PartialEq, Eq, Hash, Structural)]
pub struct ElementState {
    bits: u16,
}

impl View for ElementState {
    type V = u16;

    closed spec fn view(&self) -> u16 {
        self.bits
    }
}

/// Whether `x` has exactly one bit set.
pub open spec fn is_single_bit(x: u16) -> bool {
    x != 0 && x & ((x - 1) as u16) == 0
}

impl ElementState {
    /// The empty set.
    pub fn empty() -> (r: ElementState)
        ensures
            r@ == 0,
    {
        ElementState { bits: 0 }
    }

    /// The set whose bits are `bits`.
    pub fn from_bits(bits: u16) -> (r: ElementState)
        ensures
            r@ == bits,
    {
        ElementState { bits }
    }

    /// The bits of the set.
    pub fn bits(&self) -> (r: u16)
        ensures
            r == self@,
    {
        self.bits
    }

    /// Whether the set has no bit.
    pub fn is_empty(&self) -> (r: bool)
        ensures
            r == (self@ == 0),
    {
        self.bits == 0
    }

    /// Whether every bit of `other` is in `self`.
    pub fn contains(&self, other: ElementState) -> (r: bool)
        ensures
            r == (self@ & other@ == other@),
    {
        self.bits & other.bits == other.bits
    }

    /// Whether `self` and `other` share a bit.
    pub fn intersects(&self, other: ElementState) -> (r: bool)
        ensures
            r == (self@ & other@ != 0),
    {
        self.bits & other.bits != 0
    }
}

} // verus!
