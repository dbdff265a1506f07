//! Decoding of Cosmos chain transactions into chain-agnostic transaction descriptors.
mod external;
pub mod keys;
pub mod laws;
pub mod provider;
pub mod types;
pub mod wide;

pub use keys::{convert_signer_info_into_account_id_and_nonce, normalize_public_key};
pub use provider::CosmosProvider;

pub use types::{
    AccountId, AddressStyle, BlockInfo, CanonicalKey, Coin, ConnectionConf, DecodeError, Fee,
    KeyCurve, Message, PublicKeyEncoding, RawTransaction, SignerInfo, TxnInfo, TxnReceiptInfo,
};
pub use wide::U256;
