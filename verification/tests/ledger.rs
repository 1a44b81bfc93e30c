use airpay::AddressRegistry;
use airpay::EnvError;
use airpay::ErrorCode;
use airpay::InitializeConfig;
use airpay::InitializeInvoiceAccount;
use airpay::InitializeInvoiceItemAccount;
use airpay::InvoiceAccount;
use airpay::InvoiceItem;
use airpay::OpError;
use airpay::PayInvoiceItem;
use airpay::derive_associated_token_address;
use airpay::derive_config_address;
use airpay::derive_invoice_account_address;
use airpay::derive_invoice_item_address;
use airpay::derive_payment_metadata_address;

const PROGRAM: [u8; 32] = [1u8; 32];
const ATA_PROGRAM: [u8; 32] = [2u8; 32];
const TOKEN_PROGRAM: [u8; 32] = [3u8; 32];
const ADMIN: [u8; 32] = [4u8; 32];
const MINT_A: [u8; 32] = [5u8; 32];
const MERCHANT: [u8; 32] = [6u8; 32];
const BUYER: [u8; 32] = [9u8; 32];

fn setup_invoice(registry: &mut AddressRegistry) -> ([u8; 32], InvoiceAccount) {
    let config_op = InitializeConfig { program_id: PROGRAM, admin: ADMIN };
    let config = config_op.initialize_config(registry, 1, 100, 10000).unwrap();
    assert_eq!(config.seed, 1);
    assert_eq!(config.admin, ADMIN);
    assert_eq!(config.fee, 100);
    assert_eq!(config.basis_points, 10000);
    let (config_address, config_bump) = derive_config_address(&PROGRAM, 1).unwrap();
    assert_eq!(config.bump, config_bump);

    let register = set_mint_op(config_address, config);
    let (fee_vault, _) = register.set_mint_as_payment(registry).unwrap();
    let (expected_fee_vault, _) =
        derive_associated_token_address(&ATA_PROGRAM, &config_address, &TOKEN_PROGRAM, &MINT_A)
            .unwrap();
    assert_eq!(fee_vault, expected_fee_vault);

    let invoice_op = InitializeInvoiceAccount {
        program_id: PROGRAM,
        associated_token_program_id: ATA_PROGRAM,
        token_program_id: TOKEN_PROGRAM,
        config_address,
        config,
        merchant: MERCHANT,
        mint: MINT_A,
    };
    let invoice = invoice_op.initialize_invoice_account(registry, 1).unwrap();
    assert_eq!(invoice.seed, 1);
    assert_eq!(invoice.merchant, MERCHANT);
    assert_eq!(invoice.mint, MINT_A);
    assert_eq!(invoice.fee, 100);
    assert_eq!(invoice.basis_points, 10000);
    assert_eq!(invoice.fee_vault, fee_vault);
    assert_eq!(invoice.invoice_account_sequence_number, 0);
    let (invoice_address, _) =
        derive_invoice_account_address(&PROGRAM, &MERCHANT, &MINT_A, 1).unwrap();
    (invoice_address, invoice)
}

fn set_mint_op(config_address: [u8; 32], config: airpay::Config) -> airpay::SetMintAsPayment {
    airpay::SetMintAsPayment {
        associated_token_program_id: ATA_PROGRAM,
        token_program_id: TOKEN_PROGRAM,
        admin: ADMIN,
        config_address,
        config,
        mint: MINT_A,
    }
}

fn pay_context(
    invoice_address: [u8; 32],
    invoice: InvoiceAccount,
    item_address: [u8; 32],
    item: InvoiceItem,
) -> PayInvoiceItem {
    let (user_ata, _) =
        derive_associated_token_address(&ATA_PROGRAM, &BUYER, &TOKEN_PROGRAM, &invoice.mint)
            .unwrap();
    PayInvoiceItem {
        program_id: PROGRAM,
        associated_token_program_id: ATA_PROGRAM,
        token_program_id: TOKEN_PROGRAM,
        user: BUYER,
        invoice_account_address: invoice_address,
        invoice_account: invoice,
        invoice_item_address: item_address,
        invoice_item_account: item,
        mint: invoice.mint,
        mint_decimals: 6,
        user_ata,
        merchant_vault: invoice.vault,
        fee_vault: invoice.fee_vault,
    }
}

#[test]
fn full_sale_scenario() {
    let mut registry = AddressRegistry::new();
    let (invoice_address, invoice) = setup_invoice(&mut registry);

    let mut item_op = InitializeInvoiceItemAccount {
        program_id: PROGRAM,
        merchant: MERCHANT,
        invoice_account_address: invoice_address,
        invoice_account: invoice,
    };
    let item = item_op
        .initialize_invoice_item_account(&mut registry, 1, 1_000_000, 10_000, 2, 5)
        .unwrap();
    assert_eq!(item.price, 1_000_000);
    assert_eq!(item.remaining, 2);
    assert_eq!(item.count, 0);
    assert_eq!(item.creation_ts, 5);
    assert_eq!(item.expiry_ts, 10_000);
    assert_eq!(item.invoice_account, invoice_address);
    assert_eq!(item_op.invoice_account.invoice_account_sequence_number, 1);
    let (item_address, item_bump) =
        derive_invoice_item_address(&PROGRAM, &invoice_address, 1).unwrap();
    assert_eq!(item.bump, item_bump);

    let mut pay = pay_context(invoice_address, invoice, item_address, item);

    let (receipt, settlement) = pay.pay_invoice_item(&mut registry, [8u8; 32], 6).unwrap();
    assert_eq!(receipt.invoice_item_account, item_address);
    assert_eq!(receipt.price_paid, 1_000_000);
    assert_eq!(receipt.item_seq_number, 0);
    assert_eq!(receipt.buyer_metadata, [8u8; 32]);
    assert_eq!(settlement.net_amount, 990_000);
    assert_eq!(settlement.fee_amount, 10_000);
    assert_eq!(settlement.net_amount + settlement.fee_amount, 1_000_000);
    assert_eq!(settlement.net_to, invoice.vault);
    assert_eq!(settlement.fee_to, invoice.fee_vault);
    assert_eq!(settlement.mint, MINT_A);
    assert_eq!(settlement.decimals, 6);
    assert_eq!(pay.invoice_item_account.remaining, 1);
    assert_eq!(pay.invoice_item_account.count, 1);
    assert_eq!(pay.invoice_item_account.remaining + pay.invoice_item_account.count, 2);

    let (receipt2, settlement2) = pay.pay_invoice_item(&mut registry, [8u8; 32], 7).unwrap();
    assert_eq!(receipt2.item_seq_number, 1);
    assert_eq!(settlement2.net_amount, 990_000);
    assert_eq!(settlement2.fee_amount, 10_000);
    assert_eq!(pay.invoice_item_account.remaining, 0);
    assert_eq!(pay.invoice_item_account.count, 2);

    let third = pay.pay_invoice_item(&mut registry, [8u8; 32], 8);
    assert!(matches!(third, Err(OpError::Code(ErrorCode::ItemSoldOut))));
    assert_eq!(pay.invoice_item_account.remaining, 0);
    assert_eq!(pay.invoice_item_account.count, 2);
}

#[test]
fn expired_item_settles_nothing() {
    let mut registry = AddressRegistry::new();
    let (invoice_address, invoice) = setup_invoice(&mut registry);

    let mut item_op = InitializeInvoiceItemAccount {
        program_id: PROGRAM,
        merchant: MERCHANT,
        invoice_account_address: invoice_address,
        invoice_account: invoice,
    };
    // The sale window is already closed at creation: no guard exists there.
    let item = item_op
        .initialize_invoice_item_account(&mut registry, 1, 1_000_000, 10, 2, 20)
        .unwrap();
    let (item_address, _) = derive_invoice_item_address(&PROGRAM, &invoice_address, 1).unwrap();

    let mut pay = pay_context(invoice_address, invoice, item_address, item);
    let r = pay.pay_invoice_item(&mut registry, [8u8; 32], 21);
    assert!(matches!(r, Err(OpError::Code(ErrorCode::InvoiceExpired))));
    // Nothing was mutated and no receipt record was created.
    assert_eq!(pay.invoice_item_account.remaining, 2);
    assert_eq!(pay.invoice_item_account.count, 0);
    let (receipt_address, _) =
        derive_payment_metadata_address(&PROGRAM, &BUYER, &item_address, 0).unwrap();
    assert!(!registry.contains(&receipt_address));
}

#[test]
fn invoice_created_at_most_once() {
    let mut registry = AddressRegistry::new();
    let (_, invoice) = setup_invoice(&mut registry);
    let (config_address, _) = derive_config_address(&PROGRAM, 1).unwrap();
    let config = airpay::Config {
        seed: 1,
        admin: ADMIN,
        fee: 100,
        basis_points: 10000,
        bump: 0,
    };
    let invoice_op = InitializeInvoiceAccount {
        program_id: PROGRAM,
        associated_token_program_id: ATA_PROGRAM,
        token_program_id: TOKEN_PROGRAM,
        config_address,
        config,
        merchant: MERCHANT,
        mint: MINT_A,
    };
    let again = invoice_op.initialize_invoice_account(&mut registry, 1);
    assert!(matches!(again, Err(EnvError::AlreadyExists)));
    // A different seed derives a different address and succeeds.
    let other = invoice_op.initialize_invoice_account(&mut registry, 2).unwrap();
    assert_eq!(other.seed, 2);
    assert_eq!(other.fee, invoice.fee);
}

#[test]
fn unregistered_mint_is_a_missing_account() {
    let mut registry = AddressRegistry::new();
    let config_op = InitializeConfig { program_id: PROGRAM, admin: ADMIN };
    let config = config_op.initialize_config(&mut registry, 1, 100, 10000).unwrap();
    let (config_address, _) = derive_config_address(&PROGRAM, 1).unwrap();
    // No fee-holding account was created for this mint.
    let invoice_op = InitializeInvoiceAccount {
        program_id: PROGRAM,
        associated_token_program_id: ATA_PROGRAM,
        token_program_id: TOKEN_PROGRAM,
        config_address,
        config,
        merchant: MERCHANT,
        mint: [7u8; 32],
    };
    let r = invoice_op.initialize_invoice_account(&mut registry, 1);
    assert!(matches!(r, Err(EnvError::MissingAccount)));
}

#[test]
fn config_created_at_most_once_per_seed() {
    let mut registry = AddressRegistry::new();
    let config_op = InitializeConfig { program_id: PROGRAM, admin: ADMIN };
    config_op.initialize_config(&mut registry, 1, 100, 10000).unwrap();
    let again = config_op.initialize_config(&mut registry, 1, 250, 10000);
    assert!(matches!(again, Err(EnvError::AlreadyExists)));
    let other_seed = config_op.initialize_config(&mut registry, 2, 250, 10000);
    assert!(other_seed.is_ok());
}

#[test]
fn token_registration_needs_the_admin() {
    let mut registry = AddressRegistry::new();
    let config_op = InitializeConfig { program_id: PROGRAM, admin: ADMIN };
    let config = config_op.initialize_config(&mut registry, 1, 100, 10000).unwrap();
    let (config_address, _) = derive_config_address(&PROGRAM, 1).unwrap();
    let mut register = set_mint_op(config_address, config);
    register.admin = [13u8; 32];
    let r = register.set_mint_as_payment(&mut registry);
    assert!(matches!(r, Err(EnvError::Unauthorized)));
    // With the right admin it succeeds once, then the vault already exists.
    register.admin = ADMIN;
    register.set_mint_as_payment(&mut registry).unwrap();
    let again = register.set_mint_as_payment(&mut registry);
    assert!(matches!(again, Err(EnvError::AlreadyExists)));
}

#[test]
fn item_creation_needs_the_invoices_merchant() {
    let mut registry = AddressRegistry::new();
    let (invoice_address, invoice) = setup_invoice(&mut registry);
    let mut item_op = InitializeInvoiceItemAccount {
        program_id: PROGRAM,
        merchant: [13u8; 32],
        invoice_account_address: invoice_address,
        invoice_account: invoice,
    };
    let r = item_op.initialize_invoice_item_account(&mut registry, 1, 5, 10_000, 2, 5);
    assert!(matches!(r, Err(OpError::Env(EnvError::Unauthorized))));
    assert_eq!(item_op.invoice_account.invoice_account_sequence_number, 0);
}

#[test]
fn item_sequence_numbers_advance_per_item() {
    let mut registry = AddressRegistry::new();
    let (invoice_address, invoice) = setup_invoice(&mut registry);
    let mut item_op = InitializeInvoiceItemAccount {
        program_id: PROGRAM,
        merchant: MERCHANT,
        invoice_account_address: invoice_address,
        invoice_account: invoice,
    };
    let first = item_op
        .initialize_invoice_item_account(&mut registry, 1, 5, 10_000, 2, 5)
        .unwrap();
    let second = item_op
        .initialize_invoice_item_account(&mut registry, 2, 5, 10_000, 2, 5)
        .unwrap();
    assert_eq!(item_op.invoice_account.invoice_account_sequence_number, 2);
    // Distinct sequence numbers digest distinct product ids.
    assert_ne!(first.product_id, second.product_id);
    // The same item seed, however, is taken.
    let again = item_op.initialize_invoice_item_account(&mut registry, 1, 5, 10_000, 2, 5);
    assert!(matches!(again, Err(OpError::Env(EnvError::AlreadyExists))));
}

#[test]
fn counter_wraparound_is_an_overflow() {
    let mut registry = AddressRegistry::new();
    let invoice_address = [10u8; 32];
    let item_address = [11u8; 32];
    registry.claim(&invoice_address).unwrap();
    registry.claim(&item_address).unwrap();
    let invoice = InvoiceAccount {
        seed: 1,
        merchant: MERCHANT,
        mint: MINT_A,
        vault: [12u8; 32],
        fee_vault: [13u8; 32],
        fee: 100,
        basis_points: 10000,
        invoice_account_sequence_number: 0,
        bump: 0,
    };
    let item = InvoiceItem {
        seed: 1,
        invoice_account: invoice_address,
        price: 5,
        product_id: [0u8; 32],
        creation_ts: 0,
        expiry_ts: u64::MAX,
        remaining: 1,
        count: u16::MAX,
        bump: 0,
    };
    let mut pay = pay_context(invoice_address, invoice, item_address, item);
    let r = pay.pay_invoice_item(&mut registry, [8u8; 32], 1);
    assert!(matches!(r, Err(OpError::Code(ErrorCode::OverflowError))));
    assert_eq!(pay.invoice_item_account.remaining, 1);
    assert_eq!(pay.invoice_item_account.count, u16::MAX);
}

#[test]
fn mismatched_accounts_fail_settlement() {
    let mut registry = AddressRegistry::new();
    let (invoice_address, invoice) = setup_invoice(&mut registry);
    let mut item_op = InitializeInvoiceItemAccount {
        program_id: PROGRAM,
        merchant: MERCHANT,
        invoice_account_address: invoice_address,
        invoice_account: invoice,
    };
    let item = item_op
        .initialize_invoice_item_account(&mut registry, 1, 1_000_000, 10_000, 2, 5)
        .unwrap();
    let (item_address, _) = derive_invoice_item_address(&PROGRAM, &invoice_address, 1).unwrap();

    let mut wrong_mint = pay_context(invoice_address, invoice, item_address, item);
    wrong_mint.mint = [7u8; 32];
    let r = wrong_mint.pay_invoice_item(&mut registry, [8u8; 32], 6);
    assert!(matches!(r, Err(OpError::Env(EnvError::AddressMismatch))));

    let mut wrong_vault = pay_context(invoice_address, invoice, item_address, item);
    wrong_vault.merchant_vault = [7u8; 32];
    let r = wrong_vault.pay_invoice_item(&mut registry, [8u8; 32], 6);
    assert!(matches!(r, Err(OpError::Env(EnvError::AddressMismatch))));

    let mut wrong_ata = pay_context(invoice_address, invoice, item_address, item);
    wrong_ata.user_ata = [7u8; 32];
    let r = wrong_ata.pay_invoice_item(&mut registry, [8u8; 32], 6);
    assert!(matches!(r, Err(OpError::Env(EnvError::AddressMismatch))));

    let mut foreign_item = pay_context(invoice_address, invoice, item_address, item);
    foreign_item.invoice_item_account.invoice_account = [7u8; 32];
    let r = foreign_item.pay_invoice_item(&mut registry, [8u8; 32], 6);
    assert!(matches!(r, Err(OpError::Env(EnvError::AddressMismatch))));
}

#[test]
fn registry_claims_an_address_once() {
    let mut registry = AddressRegistry::new();
    let addr = [1u8; 32];
    assert!(!registry.contains(&addr));
    registry.claim(&addr).unwrap();
    assert!(registry.contains(&addr));
    assert!(matches!(registry.claim(&addr), Err(EnvError::AlreadyExists)));
}

#[test]
fn fee_split_exact_values() {
    assert_eq!(airpay::fee_split(1_000_000, 100, 10000), (10_000, 990_000));
    assert_eq!(airpay::fee_split(1_000_000, 0, 10000), (0, 1_000_000));
    assert_eq!(airpay::fee_split(1_000_000, 10000, 10000), (1_000_000, 0));
    // Truncating division keeps the fee conservative.
    assert_eq!(airpay::fee_split(999, 1, 3), (333, 666));
    assert_eq!(airpay::fee_split(1000, 1, 3), (333, 667));
}

#[test]
fn stock_is_conserved_across_many_sales() {
    let mut registry = AddressRegistry::new();
    let (invoice_address, invoice) = setup_invoice(&mut registry);
    let mut item_op = InitializeInvoiceItemAccount {
        program_id: PROGRAM,
        merchant: MERCHANT,
        invoice_account_address: invoice_address,
        invoice_account: invoice,
    };
    let item = item_op
        .initialize_invoice_item_account(&mut registry, 1, 40, 10_000, 5, 5)
        .unwrap();
    let (item_address, _) = derive_invoice_item_address(&PROGRAM, &invoice_address, 1).unwrap();
    let mut pay = pay_context(invoice_address, invoice, item_address, item);
    for n in 1u16..=5 {
        let (receipt, _) = pay.pay_invoice_item(&mut registry, [8u8; 32], 6).unwrap();
        assert_eq!(receipt.item_seq_number, n - 1);
        assert_eq!(pay.invoice_item_account.remaining, 5 - n);
        assert_eq!(pay.invoice_item_account.count, n);
        assert_eq!(pay.invoice_item_account.remaining + pay.invoice_item_account.count, 5);
    }
    let exhausted = pay.pay_invoice_item(&mut registry, [8u8; 32], 6);
    assert!(matches!(exhausted, Err(OpError::Code(ErrorCode::ItemSoldOut))));
}
