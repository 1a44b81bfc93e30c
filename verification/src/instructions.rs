pub mod initialize_config;
pub mod initialize_invoice_account;
pub mod initialize_invoice_item_account;
pub mod pay_invoice_item;
pub mod set_mint_as_payment;
