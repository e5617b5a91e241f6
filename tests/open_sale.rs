use solana_program::program_option::COption;
use solana_program::program_pack::Pack;
use solana_program::pubkey::Pubkey;
use spl_token::state::Mint;
use token_sale::account::{AccountView, OpenSaleAccounts, TokenSaleError};
use token_sale::address::{find_token_base_pda, key_to_vec, token_base_seed_vec};
use token_sale::instruction::OpenSaleArgs;
use token_sale::bytes::{key_is_zero, keys_equal, read_u64_le};
use token_sale::processor::{plan_token_base_allocation, process_open_sale};
use token_sale::record::{TokenBase, TOKEN_BASE_LEN};

const PROGRAM: [u8; 32] = [7u8; 32];
const AUTHORITY: [u8; 32] = [11u8; 32];
const MINT: [u8; 32] = [22u8; 32];
const VAULT: [u8; 32] = [33u8; 32];
const SYSTEM: [u8; 32] = [0u8; 32];

fn mint_data(initialized: bool, authority: Option<[u8; 32]>) -> Vec<u8> {
    let mint = Mint {
        mint_authority: match authority {
            Some(k) => COption::Some(Pubkey::new_from_array(k)),
            None => COption::None,
        },
        supply: 1_000_000,
        decimals: 6,
        is_initialized: initialized,
        freeze_authority: COption::None,
    };
    let mut data = vec![0u8; Mint::LEN];
    Mint::pack_into_slice(&mint, &mut data);
    data
}

fn account(key: [u8; 32], owner: [u8; 32], data: Vec<u8>) -> AccountView {
    AccountView { key, owner, is_signer: false, executable: false, data }
}

fn derived() -> ([u8; 32], u8) {
    find_token_base_pda(&PROGRAM, &AUTHORITY, &MINT).unwrap()
}

/// The accounts before the record account is created.
fn fresh_accounts() -> OpenSaleAccounts {
    let (address, _) = derived();
    let mut authority = account(AUTHORITY, SYSTEM, Vec::new());
    authority.is_signer = true;
    OpenSaleAccounts {
        token_base: account(address, SYSTEM, Vec::new()),
        mint: account(MINT, [9u8; 32], mint_data(true, Some(AUTHORITY))),
        vault: account(VAULT, [9u8; 32], Vec::new()),
        sale_authority: authority,
    }
}

/// What the runtime leaves after creating the record account.
fn allocate(accounts: &mut OpenSaleAccounts) {
    accounts.token_base.owner = PROGRAM;
    accounts.token_base.data = vec![0u8; TOKEN_BASE_LEN];
}

fn allocated_accounts() -> OpenSaleAccounts {
    let mut accounts = fresh_accounts();
    allocate(&mut accounts);
    accounts
}

fn open(accounts: &mut OpenSaleAccounts) -> Result<(), TokenSaleError> {
    process_open_sale(&PROGRAM, accounts, true, 1000, 5, [0u8; 32])
}

#[test]
fn derivation_is_deterministic() {
    let first = find_token_base_pda(&PROGRAM, &AUTHORITY, &MINT);
    let second = find_token_base_pda(&PROGRAM, &AUTHORITY, &MINT);
    assert!(first.is_some());
    assert_eq!(first, second);
}

#[test]
fn derivation_matches_the_runtime_search() {
    let (address, bump) = derived();
    let (expected, expected_bump) = Pubkey::find_program_address(
        &[b"token_base", &AUTHORITY, &MINT],
        &Pubkey::new_from_array(PROGRAM),
    );
    assert_eq!(address, expected.to_bytes());
    assert_eq!(bump, expected_bump);
}

#[test]
fn derivation_depends_on_the_mint() {
    let (a, _) = derived();
    let (b, _) = find_token_base_pda(&PROGRAM, &AUTHORITY, &VAULT).unwrap();
    assert_ne!(a, b);
}

#[test]
fn seeds_are_label_authority_mint() {
    let seeds = token_base_seed_vec(&AUTHORITY, &MINT);
    assert_eq!(seeds, vec![b"token_base".to_vec(), AUTHORITY.to_vec(), MINT.to_vec()]);
    assert_eq!(key_to_vec(&MINT), MINT.to_vec());
}

#[test]
fn plan_asks_for_the_record_account() {
    let accounts = fresh_accounts();
    let (address, bump) = derived();
    let req = plan_token_base_allocation(&PROGRAM, &accounts, 2_000_000).unwrap();
    assert_eq!(req.funder, AUTHORITY);
    assert_eq!(req.target, address);
    assert_eq!(req.lamports, 2_000_000);
    assert_eq!(req.space, 145);
    assert_eq!(req.owner, PROGRAM);
    assert_eq!(
        req.signer_seeds,
        vec![b"token_base".to_vec(), AUTHORITY.to_vec(), MINT.to_vec(), vec![bump]]
    );
    let refs: Vec<&[u8]> = req.signer_seeds.iter().map(|s| s.as_slice()).collect();
    let signed = Pubkey::create_program_address(&refs, &Pubkey::new_from_array(PROGRAM)).unwrap();
    assert_eq!(signed.to_bytes(), address);
}

#[test]
fn record_layout_is_exact() {
    let record = TokenBase {
        mint: MINT,
        vault: VAULT,
        sale_authority: AUTHORITY,
        whitelist_root: [0u8; 32],
        price: 1000,
        default_purchase_limit: 5,
        bump: 254,
    };
    let bytes = record.pack();
    assert_eq!(bytes.len(), TOKEN_BASE_LEN);
    assert_eq!(&bytes[0..32], &MINT);
    assert_eq!(&bytes[32..64], &VAULT);
    assert_eq!(&bytes[64..96], &AUTHORITY);
    assert_eq!(&bytes[96..128], &[0u8; 32]);
    assert_eq!(&bytes[128..136], &[0xe8, 0x03, 0, 0, 0, 0, 0, 0]);
    assert_eq!(&bytes[136..144], &[5, 0, 0, 0, 0, 0, 0, 0]);
    assert_eq!(bytes[144], 254);
    assert_eq!(read_u64_le(&bytes, 128), 1000);
}

#[test]
fn record_layout_matches_borsh() {
    let record = TokenBase {
        mint: MINT,
        vault: VAULT,
        sale_authority: AUTHORITY,
        whitelist_root: [3u8; 32],
        price: 0x0102_0304_0506_0708,
        default_purchase_limit: u64::MAX,
        bump: 17,
    };
    let expected = borsh::to_vec(&(
        record.mint,
        record.vault,
        record.sale_authority,
        record.whitelist_root,
        record.price,
        record.default_purchase_limit,
        record.bump,
    ))
    .unwrap();
    assert_eq!(record.pack(), expected);
}

#[test]
fn record_round_trip() {
    let record = TokenBase {
        mint: MINT,
        vault: VAULT,
        sale_authority: AUTHORITY,
        whitelist_root: [200u8; 32],
        price: u64::MAX - 1,
        default_purchase_limit: 1 << 40,
        bump: 1,
    };
    assert_eq!(TokenBase::unpack(&record.pack()), Some(record));
    assert!(!record.is_uninitialized());
}

#[test]
fn unpack_needs_the_exact_length() {
    assert_eq!(TokenBase::unpack(&[0u8; 144]), None);
    assert_eq!(TokenBase::unpack(&[0u8; 146]), None);
    let blank = TokenBase::unpack(&[0u8; 145]).unwrap();
    assert!(blank.is_uninitialized());
}

#[test]
fn key_helpers() {
    assert!(keys_equal(&MINT, &MINT));
    assert!(!keys_equal(&MINT, &VAULT));
    let mut almost = [0u8; 32];
    assert!(key_is_zero(&almost));
    almost[31] = 1;
    assert!(!key_is_zero(&almost));
}

#[test]
fn end_to_end_open_then_reopen() {
    let mut accounts = allocated_accounts();
    let (_, bump) = derived();
    assert_eq!(open(&mut accounts), Ok(()));
    let record = TokenBase::unpack(&accounts.token_base.data).unwrap();
    assert_eq!(
        record,
        TokenBase {
            mint: MINT,
            vault: VAULT,
            sale_authority: AUTHORITY,
            whitelist_root: [0u8; 32],
            price: 1000,
            default_purchase_limit: 5,
            bump,
        }
    );
    let after_first = accounts.clone();
    assert_eq!(open(&mut accounts), Err(TokenSaleError::AlreadyInitialized));
    assert_eq!(accounts, after_first);
    assert_eq!(
        process_open_sale(&PROGRAM, &mut accounts, false, 1000, 5, [0u8; 32]),
        Err(TokenSaleError::AllocationFailed)
    );
    assert_eq!(accounts, after_first);
}

#[test]
fn reopen_with_other_terms_keeps_the_record() {
    let mut accounts = allocated_accounts();
    assert_eq!(open(&mut accounts), Ok(()));
    let written = accounts.token_base.data.clone();
    assert_eq!(
        process_open_sale(&PROGRAM, &mut accounts, true, 1, 1, [9u8; 32]),
        Err(TokenSaleError::AlreadyInitialized)
    );
    assert_eq!(accounts.token_base.data, written);
}

#[test]
fn unsigned_authority_is_rejected() {
    let mut accounts = allocated_accounts();
    accounts.sale_authority.is_signer = false;
    let before = accounts.clone();
    assert_eq!(open(&mut accounts), Err(TokenSaleError::AuthorityNotSigner));
    assert_eq!(accounts, before);
}

#[test]
fn executable_vault_is_rejected() {
    let mut accounts = allocated_accounts();
    accounts.vault.executable = true;
    let before = accounts.clone();
    assert_eq!(open(&mut accounts), Err(TokenSaleError::MustBeNonExecutable));
    assert_eq!(accounts, before);
}

#[test]
fn executable_authority_is_rejected() {
    let mut accounts = allocated_accounts();
    accounts.sale_authority.executable = true;
    assert_eq!(open(&mut accounts), Err(TokenSaleError::MustBeNonExecutable));
}

#[test]
fn underived_record_address_is_rejected() {
    let mut accounts = allocated_accounts();
    accounts.token_base.key = [44u8; 32];
    let before = accounts.clone();
    assert_eq!(open(&mut accounts), Err(TokenSaleError::UnexpectedDerivation));
    assert_eq!(accounts, before);
}

#[test]
fn foreign_owner_is_rejected() {
    let mut accounts = allocated_accounts();
    accounts.token_base.owner = [8u8; 32];
    assert_eq!(open(&mut accounts), Err(TokenSaleError::WrongOwner));
}

#[test]
fn wrong_record_size_is_rejected() {
    let mut accounts = allocated_accounts();
    accounts.token_base.data = vec![0u8; TOKEN_BASE_LEN + 1];
    assert_eq!(open(&mut accounts), Err(TokenSaleError::InvalidAccountDataLength));
}

#[test]
fn failed_allocation_is_reported() {
    let mut accounts = fresh_accounts();
    let before = accounts.clone();
    assert_eq!(
        process_open_sale(&PROGRAM, &mut accounts, false, 1000, 5, [0u8; 32]),
        Err(TokenSaleError::AllocationFailed)
    );
    assert_eq!(accounts, before);
}

#[test]
fn non_mint_asset_is_rejected() {
    let mut accounts = allocated_accounts();
    accounts.mint.data = vec![1u8; 10];
    assert_eq!(open(&mut accounts), Err(TokenSaleError::InvalidAssetData));
    let mut accounts = allocated_accounts();
    accounts.mint.data[45] = 2;
    assert_eq!(open(&mut accounts), Err(TokenSaleError::InvalidAssetData));
}

#[test]
fn uninitialized_asset_is_rejected() {
    let mut accounts = allocated_accounts();
    accounts.mint.data = mint_data(false, Some(AUTHORITY));
    assert_eq!(open(&mut accounts), Err(TokenSaleError::AssetNotInitialized));
}

#[test]
fn asset_authority_must_be_the_sale_authority() {
    let mut accounts = allocated_accounts();
    accounts.mint.data = mint_data(true, Some(VAULT));
    assert_eq!(open(&mut accounts), Err(TokenSaleError::AssetAuthorityMismatch));
    let mut accounts = allocated_accounts();
    accounts.mint.data = mint_data(true, None);
    assert_eq!(open(&mut accounts), Err(TokenSaleError::AssetAuthorityMismatch));
}

#[test]
fn error_codes_are_distinct() {
    let all = [
        TokenSaleError::WrongOwner,
        TokenSaleError::InvalidAccountDataLength,
        TokenSaleError::AlreadyInitialized,
        TokenSaleError::UnexpectedDerivation,
        TokenSaleError::MustBeNonExecutable,
        TokenSaleError::AuthorityNotSigner,
        TokenSaleError::AllocationFailed,
        TokenSaleError::DerivationExhausted,
        TokenSaleError::InvalidAssetData,
        TokenSaleError::AssetNotInitialized,
        TokenSaleError::AssetAuthorityMismatch,
    ];
    for (i, e) in all.iter().enumerate() {
        assert_eq!(e.code() as usize, i);
    }
}

#[test]
fn payload_decodes_in_order() {
    let mut data = Vec::new();
    data.extend_from_slice(&1000u64.to_le_bytes());
    data.extend_from_slice(&5u64.to_le_bytes());
    data.extend_from_slice(&[4u8; 32]);
    assert_eq!(
        OpenSaleArgs::unpack(&data),
        Some(OpenSaleArgs { price: 1000, purchase_limit: 5, whitelist_root: [4u8; 32] })
    );
    assert_eq!(OpenSaleArgs::unpack(&data[..47]), None);
}
