//! Snapshots of the accounts that the open instruction receives, and the
//! reasons for which it fails.
use vstd::prelude::*;

verus! {

/// What the checks read of one account, taken once at the start of the work.
#[derive(Clone, Debug, PartialEq, Eq)]
pub struct AccountView {
    pub key: [u8; 32],
    pub owner: [u8; 32],
    pub is_signer: bool,
    pub executable: bool,
    pub data: Vec<u8>,
}

/// The accounts of the open instruction, in their order.
#[derive(Clone, Debug, PartialEq, Eq)]
pub struct OpenSaleAccounts {
    /// The configuration record, at the derived address.
    pub token_base: AccountView,
    /// The asset that the sale trades.
    pub mint: AccountView,
    /// The custody account of the sale.
    pub vault: AccountView,
    /// The signer that manages the sale and funds the record.
    pub sale_authority: AccountView,
}

/// Why opening a sale failed.
#[derive(Clone, Copy, Debug, PartialEq, Eq, Structural)]
pub enum TokenSaleError {
    /// The record account is not owned by this program.
    WrongOwner,
    /// The record account's size is not the record's fixed size.
    InvalidAccountDataLength,
    /// The record account already holds an initialized record.
    AlreadyInitialized,
    /// The record account's address is not the derived one.
    UnexpectedDerivation,
    /// The vault or the sale authority is an executable account.
    MustBeNonExecutable,
    /// The sale authority did not sign.
    AuthorityNotSigner,
    /// The record account could not be created.
    AllocationFailed,
    /// No bump gives a derived address.
    DerivationExhausted,
    /// The asset account does not hold a mint.
    InvalidAssetData,
    /// The asset's mint is not initialized.
    AssetNotInitialized,
    /// The asset's mint authority is not the sale authority.
    AssetAuthorityMismatch,
}

impl TokenSaleError {
    /// A stable numeric code for the error: its position in the list above.
    pub open spec fn spec_code(self) -> u32 {
        match self {
            TokenSaleError::WrongOwner => 0,
            TokenSaleError::InvalidAccountDataLength => 1,
            TokenSaleError::AlreadyInitialized => 2,
            TokenSaleError::UnexpectedDerivation => 3,
            TokenSaleError::MustBeNonExecutable => 4,
            TokenSaleError::AuthorityNotSigner => 5,
            TokenSaleError::AllocationFailed => 6,
            TokenSaleError::DerivationExhausted => 7,
            TokenSaleError::InvalidAssetData => 8,
            TokenSaleError::AssetNotInitialized => 9,
            TokenSaleError::AssetAuthorityMismatch => 10,
        }
    }

    /// The error's numeric code.
    pub fn code(&self) -> (r: u32)
        ensures
            r == self.spec_code(),
    {
        match self {
            TokenSaleError::WrongOwner => 0,
            TokenSaleError::InvalidAccountDataLength => 1,
            TokenSaleError::AlreadyInitialized => 2,
            TokenSaleError::UnexpectedDerivation => 3,
            TokenSaleError::MustBeNonExecutable => 4,
            TokenSaleError::AuthorityNotSigner => 5,
            TokenSaleError::AllocationFailed => 6,
            TokenSaleError::DerivationExhausted => 7,
            TokenSaleError::InvalidAssetData => 8,
            TokenSaleError::AssetNotInitialized => 9,
            TokenSaleError::AssetAuthorityMismatch => 10,
        }
    }
}

} // verus!
