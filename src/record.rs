//! The sale's configuration record and its fixed, versionless binary layout.
use vstd::prelude::*;
use crate::bytes::{
    key_is_zero, push_key, push_u64_le, read_key, read_u64_le, u64_from_le, u64_le_bytes,
    zero_key, lemma_u64_le_round_trip,
};

verus! {

/// The number of bytes of an encoded record: four keys, two `u64`s and the bump.
pub const TOKEN_BASE_LEN: usize = 145;

/// The configuration of one sale, kept at the address derived from its
/// sale authority and its mint.
#[derive(Clone, Copy, Debug, PartialEq, Eq)]
pub struct TokenBase {
    pub mint: [u8; 32],
    pub vault: [u8; 32],
    pub sale_authority: [u8; 32],
    pub whitelist_root: [u8; 32],
    pub price: u64,
    pub default_purchase_limit: u64,
    pub bump: u8,
}

impl TokenBase {
    /// The encoding: the fields in declaration order, integers little-endian.
    pub open spec fn layout(self) -> Seq<u8> {
        self.mint@ + self.vault@ + self.sale_authority@ + self.whitelist_root@ + u64_le_bytes(
            self.price,
        ) + u64_le_bytes(self.default_purchase_limit) + seq![self.bump]
    }

    /// Whether this record is what the bytes `d` of the layout's length encode.
    pub open spec fn decodes(self, d: Seq<u8>) -> bool {
        &&& d.len() == TOKEN_BASE_LEN
        &&& self.mint@ == d.subrange(0, 32)
        &&& self.vault@ == d.subrange(32, 64)
        &&& self.sale_authority@ == d.subrange(64, 96)
        &&& self.whitelist_root@ == d.subrange(96, 128)
        &&& self.price == u64_from_le(d.subrange(128, 136))
        &&& self.default_purchase_limit == u64_from_le(d.subrange(136, 144))
        &&& self.bump == d[144]
    }

    /// The sentinel state of a record that was allocated and never written:
    /// every field zero.
    pub open spec fn spec_is_uninitialized(self) -> bool {
        &&& self.mint@ == zero_key()
        &&& self.vault@ == zero_key()
        &&& self.sale_authority@ == zero_key()
        &&& self.whitelist_root@ == zero_key()
        &&& self.price == 0
        &&& self.default_purchase_limit == 0
        &&& self.bump == 0
    }

    /// Whether the record is in the sentinel, uninitialized state.
    pub fn is_uninitialized(&self) -> (r: bool)
        ensures
            r == self.spec_is_uninitialized(),
    {
        key_is_zero(&self.mint) && key_is_zero(&self.vault) && key_is_zero(&self.sale_authority)
            && key_is_zero(&self.whitelist_root) && self.price == 0 && self.default_purchase_limit
            == 0 && self.bump == 0
    }

    /// Encodes the record.
    pub fn pack(&self) -> (r: Vec<u8>)
        ensures
            r@ == self.layout(),
            r@.len() == TOKEN_BASE_LEN,
    {
        let mut out: Vec<u8> = Vec::new();
        push_key(&mut out, &self.mint);
        push_key(&mut out, &self.vault);
        push_key(&mut out, &self.sale_authority);
        push_key(&mut out, &self.whitelist_root);
        push_u64_le(&mut out, self.price);
        push_u64_le(&mut out, self.default_purchase_limit);
        out.push(self.bump);
        proof {
            assert(out@ =~= self.layout());
        }
        out
    }

    /// Decodes a record; only bytes of exactly the layout's length are a record.
    pub fn unpack(data: &[u8]) -> (r: Option<TokenBase>)
        ensures
            r is Some <==> data@.len() == TOKEN_BASE_LEN,
            r matches Some(t) ==> t.decodes(data@),
    {
        if data.len() != TOKEN_BASE_LEN {
            return None;
        }
        Some(
            TokenBase {
                mint: read_key(data, 0),
                vault: read_key(data, 32),
                sale_authority: read_key(data, 64),
                whitelist_root: read_key(data, 96),
                price: read_u64_le(data, 128),
                default_purchase_limit: read_u64_le(data, 136),
                bump: data[144],
            },
        )
    }
}

/// Decoding the encoding of a record gives that record back.
pub proof fn lemma_layout_round_trip(t: TokenBase)
    ensures
        t.layout().len() == TOKEN_BASE_LEN,
        t.decodes(t.layout()),
{
    let d = t.layout();
    assert(d.subrange(0, 32) =~= t.mint@);
    assert(d.subrange(32, 64) =~= t.vault@);
    assert(d.subrange(64, 96) =~= t.sale_authority@);
    assert(d.subrange(96, 128) =~= t.whitelist_root@);
    assert(d.subrange(128, 136) =~= u64_le_bytes(t.price));
    assert(d.subrange(136, 144) =~= u64_le_bytes(t.default_purchase_limit));
    lemma_u64_le_round_trip(t.price);
    lemma_u64_le_round_trip(t.default_purchase_limit);
}

} // verus!
