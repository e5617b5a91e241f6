//! The payload of the open instruction.
use vstd::prelude::*;
use crate::bytes::{read_key, read_u64_le, u64_from_le};

verus! {

/// The size of the payload: the price, the purchase limit and the whitelist root.
pub const OPEN_SALE_ARGS_LEN: usize = 48;

/// The terms of a sale as the open instruction carries them.
#[derive(Clone, Copy, Debug, PartialEq, Eq)]
pub struct OpenSaleArgs {
    pub price: u64,
    pub purchase_limit: u64,
    pub whitelist_root: [u8; 32],
}

impl OpenSaleArgs {
    /// Decodes the payload: the price and the purchase limit as little-endian
    /// `u64`s, then the 32 raw bytes of the whitelist root; no other length is
    /// a payload.
    pub fn unpack(data: &[u8]) -> (r: Option<OpenSaleArgs>)
        ensures
            r is Some <==> data@.len() == OPEN_SALE_ARGS_LEN,
            r matches Some(a) ==> a.price == u64_from_le(data@.subrange(0, 8))
                && a.purchase_limit == u64_from_le(data@.subrange(8, 16))
                && a.whitelist_root@ == data@.subrange(16, 48),
    {
        if data.len() != OPEN_SALE_ARGS_LEN {
            return None;
        }
        Some(
            OpenSaleArgs {
                price: read_u64_le(data, 0),
                purchase_limit: read_u64_le(data, 8),
                whitelist_root: read_key(data, 16),
            },
        )
    }
}

} // verus!
