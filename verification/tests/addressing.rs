use airpay::derive_associated_token_address;
use airpay::derive_config_address;
use airpay::derive_invoice_account_address;
use airpay::derive_payment_metadata_address;
use anchor_lang::solana_program::pubkey::Pubkey;

const PROGRAM: [u8; 32] = [1u8; 32];
const MERCHANT: [u8; 32] = [6u8; 32];
const MINT: [u8; 32] = [5u8; 32];

#[test]
fn config_address_matches_host_derivation() {
    let (address, bump) = derive_config_address(&PROGRAM, 1).unwrap();
    let (expected, expected_bump) = Pubkey::try_find_program_address(
        &[b"config", &1u64.to_le_bytes()],
        &Pubkey::new_from_array(PROGRAM),
    )
    .unwrap();
    assert_eq!(address, expected.to_bytes());
    assert_eq!(bump, expected_bump);
}

#[test]
fn invoice_address_matches_host_derivation() {
    let (address, bump) = derive_invoice_account_address(&PROGRAM, &MERCHANT, &MINT, 7).unwrap();
    let (expected, expected_bump) = Pubkey::try_find_program_address(
        &[b"invoice_account", &MERCHANT, &MINT, &7u64.to_le_bytes()],
        &Pubkey::new_from_array(PROGRAM),
    )
    .unwrap();
    assert_eq!(address, expected.to_bytes());
    assert_eq!(bump, expected_bump);
}

#[test]
fn receipt_address_matches_host_derivation() {
    let item = [11u8; 32];
    let buyer = [9u8; 32];
    let (address, bump) = derive_payment_metadata_address(&PROGRAM, &buyer, &item, 3).unwrap();
    let (expected, expected_bump) = Pubkey::try_find_program_address(
        &[b"pay_invoice_item", &buyer, &item, &3u16.to_le_bytes()],
        &Pubkey::new_from_array(PROGRAM),
    )
    .unwrap();
    assert_eq!(address, expected.to_bytes());
    assert_eq!(bump, expected_bump);
}

#[test]
fn derivation_is_deterministic_and_input_sensitive() {
    let a = derive_config_address(&PROGRAM, 1).unwrap();
    let b = derive_config_address(&PROGRAM, 1).unwrap();
    assert_eq!(a, b);
    let c = derive_config_address(&PROGRAM, 2).unwrap();
    assert_ne!(a.0, c.0);
    let d = derive_config_address(&[2u8; 32], 1).unwrap();
    assert_ne!(a.0, d.0);
}

#[test]
fn holding_account_address_matches_host_derivation() {
    let authority = [10u8; 32];
    let token_program = [3u8; 32];
    let ata_program = [2u8; 32];
    let (address, bump) =
        derive_associated_token_address(&ata_program, &authority, &token_program, &MINT).unwrap();
    let (expected, expected_bump) = Pubkey::try_find_program_address(
        &[&authority, &token_program, &MINT],
        &Pubkey::new_from_array(ata_program),
    )
    .unwrap();
    assert_eq!(address, expected.to_bytes());
    assert_eq!(bump, expected_bump);
}

#[test]
fn product_id_is_the_digest_of_sequence_and_invoice_address() {
    let mut registry = airpay::AddressRegistry::new();
    let config_op = airpay::InitializeConfig { program_id: PROGRAM, admin: [4u8; 32] };
    let config = config_op.initialize_config(&mut registry, 1, 100, 10000).unwrap();
    let (config_address, _) = derive_config_address(&PROGRAM, 1).unwrap();
    let register = airpay::SetMintAsPayment {
        associated_token_program_id: [2u8; 32],
        token_program_id: [3u8; 32],
        admin: [4u8; 32],
        config_address,
        config,
        mint: MINT,
    };
    register.set_mint_as_payment(&mut registry).unwrap();
    let invoice_op = airpay::InitializeInvoiceAccount {
        program_id: PROGRAM,
        associated_token_program_id: [2u8; 32],
        token_program_id: [3u8; 32],
        config_address,
        config,
        merchant: MERCHANT,
        mint: MINT,
    };
    let invoice = invoice_op.initialize_invoice_account(&mut registry, 1).unwrap();
    let (invoice_address, _) = derive_invoice_account_address(&PROGRAM, &MERCHANT, &MINT, 1).unwrap();
    let mut item_op = airpay::InitializeInvoiceItemAccount {
        program_id: PROGRAM,
        merchant: MERCHANT,
        invoice_account_address: invoice_address,
        invoice_account: invoice,
    };
    let item = item_op
        .initialize_invoice_item_account(&mut registry, 1, 5, 10_000, 2, 5)
        .unwrap();
    let mut preimage = Vec::new();
    preimage.extend_from_slice(&0u32.to_le_bytes());
    preimage.extend_from_slice(&invoice_address);
    let expected = solana_sha256_hasher::hash(&preimage).to_bytes();
    assert_eq!(item.product_id, expected);
    assert_ne!(item.product_id, [0u8; 32]);
}
