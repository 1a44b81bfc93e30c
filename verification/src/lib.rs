use vstd::prelude::*;

mod address;
mod errors;
mod fees;
mod instructions;
mod layout;
mod registry;
mod states;

pub use address::associated_token_seeds;
pub use address::config_seeds;
pub use address::derive_associated_token_address;
pub use address::derive_config_address;
pub use address::derive_invoice_account_address;
pub use address::derive_invoice_item_address;
pub use address::derive_payment_metadata_address;
pub use address::derive_product_id;
pub use address::digest_of;
pub use address::invoice_account_seeds;
pub use address::invoice_item_seeds;
pub use address::payment_metadata_seeds;
pub use address::pda_of;
pub use address::pda_result;
pub use address::product_id_preimage;
pub use errors::EnvError;
pub use errors::ErrorCode;
pub use errors::OpError;
pub use fees::fee_split;
pub use fees::lemma_fee_split_total;
pub use fees::spec_fee_amount;
pub use instructions::initialize_config::InitializeConfig;
pub use instructions::initialize_config::config_outcome;
pub use instructions::initialize_invoice_account::InitializeInvoiceAccount;
pub use instructions::initialize_invoice_account::invoice_create_err;
pub use instructions::initialize_invoice_account::invoice_post_registry;
pub use instructions::initialize_invoice_account::lemma_invoice_created_at_most_once;
pub use instructions::initialize_invoice_item_account::InitializeInvoiceItemAccount;
pub use instructions::initialize_invoice_item_account::item_create_err;
pub use instructions::pay_invoice_item::PayInvoiceItem;
pub use instructions::pay_invoice_item::Settlement;
pub use instructions::pay_invoice_item::item_sold_once;
pub use instructions::pay_invoice_item::lemma_last_unit_single_success;
pub use instructions::pay_invoice_item::lemma_stock_conserved;
pub use instructions::pay_invoice_item::pay_err;
pub use instructions::set_mint_as_payment::SetMintAsPayment;
pub use instructions::set_mint_as_payment::set_mint_outcome;
pub use layout::config_from_bytes;
pub use layout::config_record_bytes;
pub use layout::config_to_bytes;
pub use layout::lemma_config_encoding_injective;
pub use layout::lemma_invoice_account_encoding_injective;
pub use layout::lemma_invoice_item_encoding_injective;
pub use layout::lemma_payment_metadata_encoding_injective;
pub use layout::invoice_account_from_bytes;
pub use layout::invoice_account_record_bytes;
pub use layout::invoice_account_to_bytes;
pub use layout::invoice_item_from_bytes;
pub use layout::invoice_item_record_bytes;
pub use layout::invoice_item_to_bytes;
pub use layout::payment_metadata_from_bytes;
pub use layout::payment_metadata_record_bytes;
pub use layout::payment_metadata_to_bytes;
pub use layout::CONFIG_RECORD_LEN;
pub use layout::INVOICE_ACCOUNT_RECORD_LEN;
pub use layout::INVOICE_ITEM_RECORD_LEN;
pub use layout::PAYMENT_METADATA_RECORD_LEN;
pub use registry::AddressRegistry;
pub use states::Config;
pub use states::InvoiceAccount;
pub use states::InvoiceItem;
pub use states::PaymentMetadata;

verus! {

/// Byte-for-byte comparison of two record addresses.
pub fn eq_bytes32(a: &[u8; 32], b: &[u8; 32]) -> (r: bool)
    ensures
        r == (a@ == b@),
{
    let mut i: usize = 0;
    while i < 32
        invariant
            i <= 32,
            forall|j: int| 0 <= j < i ==> a@[j] == b@[j],
        decreases 32 - i,
    {
        if a[i] != b[i] {
            return false;
        }
        i += 1;
    }
    proof {
        assert(a@ =~= b@);
    }
    true
}

} // verus!
