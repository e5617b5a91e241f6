//! What the open instruction reads of the asset's mint account.
use vstd::prelude::*;
use solana_program::program_pack::Pack;
use spl_token::state::Mint;

verus! {

/// The size of a mint account's data.
pub const MINT_LEN: usize = 82;

/// The fields of a mint that the checks read.
#[derive(Clone, Copy, Debug, PartialEq, Eq)]
pub struct AssetState {
    pub is_initialized: bool,
    pub mint_authority: Option<[u8; 32]>,
}

/// Whether the four bytes at `at` are a valid optional-key tag (`0` or `1`,
/// little-endian `u32`).
pub open spec fn coption_tag_valid(d: Seq<u8>, at: int) -> bool {
    (d[at] == 0 || d[at] == 1) && d[at + 1] == 0 && d[at + 2] == 0 && d[at + 3] == 0
}

/// The mint layout: a tagged optional authority key (36 bytes), the supply
/// (8), the decimals (1), the initialized flag (1) and a tagged optional freeze
/// authority (36). `None` where the bytes are not a mint; else the initialized
/// flag and the mint authority.
pub open spec fn mint_fields(d: Seq<u8>) -> Option<(bool, Option<Seq<u8>>)> {
    if d.len() == MINT_LEN && coption_tag_valid(d, 0) && (d[45] == 0 || d[45] == 1)
        && coption_tag_valid(d, 46) {
        Some(
            (
                d[45] == 1,
                if d[0] == 1 {
                    Some(d.subrange(4, 36))
                } else {
                    None
                },
            ),
        )
    } else {
        None
    }
}

/// The view of a decoded mint.
pub open spec fn asset_fields(a: AssetState) -> (bool, Option<Seq<u8>>) {
    (
        a.is_initialized,
        match a.mint_authority {
            Some(k) => Some(k@),
            None => None,
        },
    )
}

/// Relies on `spl_token::state::Mint`'s `Pack::unpack_unchecked`: it refuses
/// data whose length is not 82 and bytes that are not a valid tag or flag, and
/// otherwise reads the fields at their fixed offsets.
#[verifier::external_body]
pub(crate) fn unpack_mint_unchecked(data: &[u8]) -> (r: Option<AssetState>)
    ensures
        mint_fields(data@) == match r {
            Some(a) => Some(asset_fields(a)),
            None => None::<(bool, Option<Seq<u8>>)>,
        },
{
    Mint::unpack_unchecked(data).ok().map(
        |m| AssetState {
            is_initialized: m.is_initialized,
            mint_authority: Option::<solana_program::pubkey::Pubkey>::from(m.mint_authority).map(
                |k| k.to_bytes(),
            ),
        },
    )
}

} // verus!
