//! Opening a token sale: the derived address of a sale's configuration record,
//! the record's fixed binary layout, the checks on every account that the open
//! instruction receives, and the single write that initializes the record.
use vstd::prelude::*;

pub mod bytes;
pub mod record;
pub mod address;
pub mod account;
pub mod asset;
pub mod processor;
pub mod laws;
pub mod instruction;

verus! {

} // verus!
