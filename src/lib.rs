pub mod amount;
pub mod decimal;
pub mod errors;
pub mod payouts;
pub mod status;
pub mod transformers;
pub mod types;
