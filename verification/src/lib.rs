//! An escrow-funded, one-time-credential claim protocol for assets held in a
//! remote registry.
//!
//! An asset owner pre-funds an escrow balance covering credential issuance
//! fees plus a fixed storage stake. Each issued credential (a one-time public
//! key) is bound to exactly one asset; presenting the credential consumes it
//! and produces a single outbound transfer request for the bound asset. The
//! host ledger that executes transfers, grants access keys and meters fees is
//! an external collaborator: its context arrives as plain arguments and the
//! requested effects are returned as plain action values.

use vstd::prelude::*;

pub mod account;
pub mod bytes;
pub mod contract;
pub mod keys;
pub mod laws;
pub mod model;
pub mod table;

verus! {

pub use crate::account::is_valid_account_id;
pub use crate::account::valid_account_id;
pub use crate::bytes::bytes_eq;
pub use crate::contract::ClaimReceipt;
pub use crate::contract::Contract;
pub use crate::contract::KeyGrant;
pub use crate::contract::NFT;
pub use crate::contract::NftTransferRequest;
pub use crate::contract::Transfer;
pub use crate::keys::key_of_msg;
pub use crate::keys::parse_public_key;
pub use crate::model::Error;
pub use crate::model::ACCESS_KEY_ALLOWANCE;
pub use crate::model::GAS_FOR_NFT_TRANSFER_CALL;
pub use crate::model::GAS_FOR_RESOLVE_TRANSFER;
pub use crate::model::STORAGE_AMOUNT;
pub use crate::table::KvTable;

} // verus!
