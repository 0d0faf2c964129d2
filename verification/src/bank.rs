use vstd::prelude::*;

verus! {

/// Addressing scheme of a variant whose two banks can be merged (the DBANK
/// option bit).
#[derive(Clone, Copy, PartialEq, Eq, Debug, Structural)]
pub enum DualBank {
    /// The two banks are independent regions.
    Dual,
    /// The two banks form one linear region with pages of twice the size.
    Single,
}

/// One of the two halves of flash memory.
#[derive(Clone, Copy, PartialEq, Eq, Debug, Structural)]
pub enum Bank {
    B1,
    B2,
}

} // verus!
