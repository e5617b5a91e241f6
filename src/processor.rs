//! Opening a sale. The work runs in two steps around the one action that only
//! the ledger runtime can take: the creation of the record account.
//! `plan_token_base_allocation` says which account to create and with which
//! signer seeds; once the runtime has tried, `process_open_sale` runs every
//! check on fresh snapshots of the accounts and, only when all pass, writes the
//! record.
use vstd::prelude::*;
use crate::account::{AccountView, OpenSaleAccounts, TokenSaleError};
use crate::address::{
    find_token_base_pda, token_base_derivation, token_base_seed_vec, token_base_seeds,
};
use crate::asset::{mint_fields, unpack_mint_unchecked};
use crate::bytes::keys_equal;
use crate::record::{TokenBase, TOKEN_BASE_LEN};

verus! {

/// The creation of the record account that the runtime is asked to perform.
#[derive(Clone, Debug, PartialEq, Eq)]
pub struct AllocationRequest {
    /// Pays the balance that keeps the new account exempt from rent.
    pub funder: [u8; 32],
    /// The address of the new account.
    pub target: [u8; 32],
    /// The balance to move from the funder to the new account.
    pub lamports: u64,
    /// The size of the new account's data.
    pub space: u64,
    /// The program that will own the new account.
    pub owner: [u8; 32],
    /// The seeds, bump last, that sign for the derived address.
    pub signer_seeds: Vec<Vec<u8>>,
}

/// Some record that the bytes `d` encode (any, where they encode none).
pub open spec fn stored_record(d: Seq<u8>) -> TokenBase {
    choose|t: TokenBase| t.decodes(d)
}

/// The record that a successful open writes.
pub open spec fn opened_record(
    accounts: OpenSaleAccounts,
    bump: u8,
    price: u64,
    purchase_limit: u64,
    whitelist_root: [u8; 32],
) -> TokenBase {
    TokenBase {
        mint: accounts.mint.key,
        vault: accounts.vault.key,
        sale_authority: accounts.sale_authority.key,
        whitelist_root: whitelist_root,
        price: price,
        default_purchase_limit: purchase_limit,
        bump: bump,
    }
}

/// Whether the record account passes its checks: owned by the program, of the
/// record's size, uninitialized.
pub open spec fn record_account_fresh(program_id: Seq<u8>, token_base: AccountView) -> bool {
    &&& token_base.owner@ == program_id
    &&& token_base.data@.len() == TOKEN_BASE_LEN
    &&& stored_record(token_base.data@).spec_is_uninitialized()
}

/// The failure of the reserved checks on the asset, if any.
pub open spec fn asset_error(accounts: OpenSaleAccounts) -> Option<TokenSaleError> {
    match mint_fields(accounts.mint.data@) {
        None => Some(TokenSaleError::InvalidAssetData),
        Some(fields) => if !fields.0 {
            Some(TokenSaleError::AssetNotInitialized)
        } else if fields.1 != Some(accounts.sale_authority.key@) {
            Some(TokenSaleError::AssetAuthorityMismatch)
        } else {
            None
        },
    }
}

/// The first check that fails, in the fixed order of the checks, or `None`
/// when all pass. `allocated` is whether the runtime created the record
/// account; `accounts` are the snapshots taken after that attempt.
pub open spec fn open_sale_error(
    program_id: Seq<u8>,
    accounts: OpenSaleAccounts,
    allocated: bool,
) -> Option<TokenSaleError> {
    let derived = token_base_derivation(
        program_id,
        accounts.sale_authority.key@,
        accounts.mint.key@,
    );
    let tb = accounts.token_base;
    if derived is None {
        Some(TokenSaleError::DerivationExhausted)
    } else if !allocated {
        Some(TokenSaleError::AllocationFailed)
    } else if tb.owner@ != program_id {
        Some(TokenSaleError::WrongOwner)
    } else if tb.data@.len() != TOKEN_BASE_LEN {
        Some(TokenSaleError::InvalidAccountDataLength)
    } else if !stored_record(tb.data@).spec_is_uninitialized() {
        Some(TokenSaleError::AlreadyInitialized)
    } else if tb.key@ != derived->Some_0.0 {
        Some(TokenSaleError::UnexpectedDerivation)
    } else if accounts.vault.executable || accounts.sale_authority.executable {
        Some(TokenSaleError::MustBeNonExecutable)
    } else if !accounts.sale_authority.is_signer {
        Some(TokenSaleError::AuthorityNotSigner)
    } else {
        asset_error(accounts)
    }
}

/// What `process_open_sale` does to the accounts: on `Err` nothing; on `Ok` the
/// record account's data becomes `data` and nothing else changes.
pub open spec fn only_record_written(
    before: OpenSaleAccounts,
    after: OpenSaleAccounts,
    data: Seq<u8>,
) -> bool {
    &&& after.mint == before.mint
    &&& after.vault == before.vault
    &&& after.sale_authority == before.sale_authority
    &&& after.token_base.key == before.token_base.key
    &&& after.token_base.owner == before.token_base.owner
    &&& after.token_base.is_signer == before.token_base.is_signer
    &&& after.token_base.executable == before.token_base.executable
    &&& after.token_base.data@ == data
}

/// Step one of opening a sale: derives the record's address and bump from the
/// sale authority and the mint, and asks for the record account to be created
/// at the supplied record address, of the record's size, owned by
/// `program_id`, funded by the sale authority with `rent_lamports`, signed for
/// by the derived seeds.
pub fn plan_token_base_allocation(
    program_id: &[u8; 32],
    accounts: &OpenSaleAccounts,
    rent_lamports: u64,
) -> (r: Result<AllocationRequest, TokenSaleError>)
    ensures
        match token_base_derivation(
            program_id@,
            accounts.sale_authority.key@,
            accounts.mint.key@,
        ) {
            None => r == Err::<AllocationRequest, TokenSaleError>(
                TokenSaleError::DerivationExhausted,
            ),
            Some(derived) => r matches Ok(req) && req.funder == accounts.sale_authority.key
                && req.target == accounts.token_base.key && req.lamports == rent_lamports
                && req.space == TOKEN_BASE_LEN && req.owner == *program_id
                && req.signer_seeds.deep_view() == token_base_seeds(
                accounts.sale_authority.key@,
                accounts.mint.key@,
            ).push(seq![derived.1]),
        },
{
    let found = find_token_base_pda(program_id, &accounts.sale_authority.key, &accounts.mint.key);
    match found {
        None => Err(TokenSaleError::DerivationExhausted),
        Some((_address, bump)) => {
            let mut signer_seeds = token_base_seed_vec(
                &accounts.sale_authority.key,
                &accounts.mint.key,
            );
            let ghost old_seeds = signer_seeds;
            let ghost seeds = signer_seeds.deep_view();
            let bump_seed: Vec<u8> = vec![bump];
            assert(bump_seed.deep_view() =~= seq![bump]);
            signer_seeds.push(bump_seed);
            assert(seeds.len() == 3 && seeds == token_base_seeds(
                accounts.sale_authority.key@,
                accounts.mint.key@,
            ));
            assert(old_seeds@.len() == 3);
            assert(signer_seeds@ == old_seeds@.push(bump_seed));
            assert(signer_seeds@[3] == bump_seed);
            assert(signer_seeds.deep_view()[3] == bump_seed.deep_view());
            assert forall|i: int| 0 <= i < 3 implies signer_seeds.deep_view()[i] == seeds[i] by {
                assert(signer_seeds@[i] == old_seeds@[i]);
            }
            assert(signer_seeds.deep_view() =~= seeds.push(seq![bump]));
            Ok(
                AllocationRequest {
                    funder: accounts.sale_authority.key,
                    target: accounts.token_base.key,
                    lamports: rent_lamports,
                    space: TOKEN_BASE_LEN as u64,
                    owner: *program_id,
                    signer_seeds,
                },
            )
        },
    }
}

/// Step two of opening a sale. `allocated` says whether the runtime created the
/// record account as `plan_token_base_allocation` asked; `accounts` are
/// snapshots taken after that attempt. Runs every check in its fixed order and
/// stops at the first failure, leaving the accounts as they were; when all pass,
/// writes the record (the mint, vault and sale authority keys, the whitelist
/// root, the price, the purchase limit and the derived bump) into the record
/// account's data, and changes nothing else.
pub fn process_open_sale(
    program_id: &[u8; 32],
    accounts: &mut OpenSaleAccounts,
    allocated: bool,
    price: u64,
    purchase_limit: u64,
    whitelist_root: [u8; 32],
) -> (r: Result<(), TokenSaleError>)
    ensures
        match open_sale_error(program_id@, *old(accounts), allocated) {
            Some(e) => r == Err::<(), TokenSaleError>(e) && *final(accounts) == *old(accounts),
            None => r is Ok && only_record_written(
                *old(accounts),
                *final(accounts),
                opened_record(
                    *old(accounts),
                    token_base_derivation(
                        program_id@,
                        old(accounts).sale_authority.key@,
                        old(accounts).mint.key@,
                    )->Some_0.1,
                    price,
                    purchase_limit,
                    whitelist_root,
                ).layout(),
            ),
        },
{
    // 1. derive the record's address and bump
    let found = find_token_base_pda(program_id, &accounts.sale_authority.key, &accounts.mint.key);
    let (address, bump) = match found {
        None => return Err(TokenSaleError::DerivationExhausted),
        Some(found) => found,
    };
    // 2. the runtime's attempt to create the record account
    if !allocated {
        return Err(TokenSaleError::AllocationFailed);
    }
    // 3. the record account: owner, size, state, address
    if !keys_equal(&accounts.token_base.owner, program_id) {
        return Err(TokenSaleError::WrongOwner);
    }
    let current = match TokenBase::unpack(accounts.token_base.data.as_slice()) {
        None => return Err(TokenSaleError::InvalidAccountDataLength),
        Some(t) => t,
    };
    proof {
        let d = accounts.token_base.data@;
        assert(current.decodes(d));
        let s = stored_record(d);
        assert(s.decodes(d));
        assert(s.spec_is_uninitialized() == current.spec_is_uninitialized());
    }
    if !current.is_uninitialized() {
        return Err(TokenSaleError::AlreadyInitialized);
    }
    if !keys_equal(&accounts.token_base.key, &address) {
        return Err(TokenSaleError::UnexpectedDerivation);
    }
    // 4. the vault and the sale authority
    if accounts.vault.executable {
        return Err(TokenSaleError::MustBeNonExecutable);
    }
    if accounts.sale_authority.executable {
        return Err(TokenSaleError::MustBeNonExecutable);
    }
    if !accounts.sale_authority.is_signer {
        return Err(TokenSaleError::AuthorityNotSigner);
    }
    // 5. the asset: a mint, initialized, managed by the sale authority
    let asset = match unpack_mint_unchecked(accounts.mint.data.as_slice()) {
        None => return Err(TokenSaleError::InvalidAssetData),
        Some(a) => a,
    };
    if !asset.is_initialized {
        return Err(TokenSaleError::AssetNotInitialized);
    }
    let authority_matches = match asset.mint_authority {
        None => false,
        Some(k) => keys_equal(&k, &accounts.sale_authority.key),
    };
    if !authority_matches {
        return Err(TokenSaleError::AssetAuthorityMismatch);
    }
    // 6. every check passed: write the record
    let record = TokenBase {
        mint: accounts.mint.key,
        vault: accounts.vault.key,
        sale_authority: accounts.sale_authority.key,
        whitelist_root,
        price,
        default_purchase_limit: purchase_limit,
        bump,
    };
    accounts.token_base.data = record.pack();
    Ok(())
}

} // verus!
