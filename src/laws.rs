//! What holds of every attempt to open a sale.
use vstd::prelude::*;
use crate::account::{OpenSaleAccounts, TokenSaleError};
use crate::address::token_base_derivation;
use crate::bytes::zero_key;
use crate::processor::{
    only_record_written, open_sale_error, opened_record, record_account_fresh, stored_record,
};
use crate::record::{lemma_layout_round_trip, TOKEN_BASE_LEN};

verus! {

/// Exactly once: after a sale was opened, every later attempt for the same
/// sale authority and mint fails, with `AlreadyInitialized` where the record
/// account exists as it was written, or `AllocationFailed` where its creation
/// already failed on the taken address; the failing attempt then leaves the
/// record as it was. Holds where the sale authority's key is not all zero (an
/// all-zero record would read as uninitialized).
pub proof fn lemma_open_is_exactly_once(
    program_id: Seq<u8>,
    first: OpenSaleAccounts,
    price: u64,
    purchase_limit: u64,
    whitelist_root: [u8; 32],
    after_first: OpenSaleAccounts,
    second: OpenSaleAccounts,
    allocated_again: bool,
)
    requires
        first.sale_authority.key@ != zero_key(),
        open_sale_error(program_id, first, true) is None,
        only_record_written(
            first,
            after_first,
            opened_record(
                first,
                token_base_derivation(
                    program_id,
                    first.sale_authority.key@,
                    first.mint.key@,
                )->Some_0.1,
                price,
                purchase_limit,
                whitelist_root,
            ).layout(),
        ),
        second.token_base == after_first.token_base,
        second.sale_authority.key == first.sale_authority.key,
        second.mint.key == first.mint.key,
    ensures
        open_sale_error(program_id, second, allocated_again) == Some(
            if allocated_again {
                TokenSaleError::AlreadyInitialized
            } else {
                TokenSaleError::AllocationFailed
            },
        ),
{
    let bump = token_base_derivation(
        program_id,
        first.sale_authority.key@,
        first.mint.key@,
    )->Some_0.1;
    let t = opened_record(first, bump, price, purchase_limit, whitelist_root);
    let d = second.token_base.data@;
    lemma_layout_round_trip(t);
    assert(d == t.layout());
    assert(d.len() == TOKEN_BASE_LEN);
    assert(t.decodes(d));
    let s = stored_record(d);
    assert(s.decodes(d));
    assert(s.sale_authority@ == t.sale_authority@);
    assert(!s.spec_is_uninitialized());
}

/// Authorization: an attempt whose sale authority did not sign always fails,
/// so it writes nothing; where every earlier check passes the failure is
/// `AuthorityNotSigner`.
pub proof fn lemma_unsigned_authority_rejected(
    program_id: Seq<u8>,
    accounts: OpenSaleAccounts,
    allocated: bool,
)
    requires
        !accounts.sale_authority.is_signer,
    ensures
        open_sale_error(program_id, accounts, allocated) is Some,
        ({
            let derived = token_base_derivation(
                program_id,
                accounts.sale_authority.key@,
                accounts.mint.key@,
            );
            derived is Some && allocated && record_account_fresh(program_id, accounts.token_base)
                && accounts.token_base.key@ == derived->Some_0.0 && !accounts.vault.executable
                && !accounts.sale_authority.executable
        }) ==> open_sale_error(program_id, accounts, allocated) == Some(
            TokenSaleError::AuthorityNotSigner,
        ),
{
}

/// Executable rejection: an attempt whose vault is an executable account
/// always fails, so it writes nothing; where the checks on the record account
/// pass the failure is `MustBeNonExecutable`.
pub proof fn lemma_executable_vault_rejected(
    program_id: Seq<u8>,
    accounts: OpenSaleAccounts,
    allocated: bool,
)
    requires
        accounts.vault.executable,
    ensures
        open_sale_error(program_id, accounts, allocated) is Some,
        ({
            let derived = token_base_derivation(
                program_id,
                accounts.sale_authority.key@,
                accounts.mint.key@,
            );
            derived is Some && allocated && record_account_fresh(program_id, accounts.token_base)
                && accounts.token_base.key@ == derived->Some_0.0
        }) ==> open_sale_error(program_id, accounts, allocated) == Some(
            TokenSaleError::MustBeNonExecutable,
        ),
{
}

/// Address integrity: a record account whose address is not the derived one
/// is refused with `UnexpectedDerivation`, even when it was created, is owned
/// by the program, has the record's size and is uninitialized.
pub proof fn lemma_underived_record_rejected(
    program_id: Seq<u8>,
    accounts: OpenSaleAccounts,
)
    requires
        token_base_derivation(
            program_id,
            accounts.sale_authority.key@,
            accounts.mint.key@,
        ) matches Some(derived) && accounts.token_base.key@ != derived.0,
        record_account_fresh(program_id, accounts.token_base),
    ensures
        open_sale_error(program_id, accounts, true) == Some(TokenSaleError::UnexpectedDerivation),
{
}

} // verus!
