//! The date of a block.

use vstd::prelude::*;

verus! {

/// The epoch and the slot within it at which a block was made.
#[derive(Debug, Clone, Copy, PartialEq, Eq, PartialOrd, Ord, Hash)]
pub struct BlockDate {
    pub epoch: u32,
    pub slot_id: u32,
}

} // verus!
