use vstd::prelude::*;

use crate::wide::U256;

verus! {

/// Elliptic curve of a public key.
#[derive(Clone, Copy, Debug, PartialEq, Eq, Structural)]
pub enum KeyCurve {
    Ed25519,
    Secp256k1,
}

/// How an account address is derived from a public key.
#[derive(Clone, Copy, Debug, PartialEq, Eq, Structural)]
pub enum AddressStyle {
    /// RIPEMD160(SHA256(compressed key)), the usual Cosmos derivation.
    Bitcoin,
    /// Last 20 bytes of KECCAK256(uncompressed key without its tag byte).
    Ethereum,
}

/// A public key in its raw encoding: 32 bytes for Ed25519, a compressed SEC1 point
/// for secp256k1.
#[derive(Clone, Debug)]
pub struct CanonicalKey {
    pub bytes: Vec<u8>,
    pub curve: KeyCurve,
}

/// The ways a signer's public key may be carried in a transaction.
#[derive(Clone, Debug)]
pub enum PublicKeyEncoding {
    /// A key given directly.
    Single(CanonicalKey),
    /// A legacy amino multisig key, kept as its encoded bytes.
    LegacyMultisig(Vec<u8>),
    /// A key wrapped in a protobuf `Any`.
    TypedAny { type_url: String, value: Vec<u8> },
}

/// An account identifier: a human-readable prefix and the address bytes.
#[derive(Clone, Debug)]
pub struct AccountId {
    pub prefix: String,
    pub bytes: Vec<u8>,
}

impl View for AccountId {
    type V = (Seq<char>, Seq<u8>);

    open spec fn view(&self) -> (Seq<char>, Seq<u8>) {
        (self.prefix@, self.bytes@)
    }
}

impl View for AddressStyle {
    type V = AddressStyle;

    open spec fn view(&self) -> AddressStyle {
        *self
    }
}

/// What a `PublicKeyEncoding` holds, as mathematical values.
pub enum PublicKeyModel {
    Single(Seq<u8>, KeyCurve),
    LegacyMultisig(Seq<u8>),
    TypedAny(Seq<char>, Seq<u8>),
}

impl View for PublicKeyEncoding {
    type V = PublicKeyModel;

    open spec fn view(&self) -> PublicKeyModel {
        match self {
            PublicKeyEncoding::Single(k) => PublicKeyModel::Single(k.bytes@, k.curve),
            PublicKeyEncoding::LegacyMultisig(b) => PublicKeyModel::LegacyMultisig(b@),
            PublicKeyEncoding::TypedAny { type_url, value } => PublicKeyModel::TypedAny(type_url@, value@),
        }
    }
}

/// Signature information of one signer.
#[derive(Clone, Debug)]
pub struct SignerInfo {
    pub public_key: Option<PublicKeyEncoding>,
    pub sequence: u64,
}

/// An amount in a denomination.
#[derive(Clone, Debug)]
pub struct Coin {
    pub denom: String,
    pub amount: u128,
}

/// The fee section of a transaction.
#[derive(Clone, Debug)]
pub struct Fee {
    pub payer: Option<AccountId>,
    pub amount: Vec<Coin>,
    pub gas_limit: u64,
}

/// A message of a transaction body, as a protobuf `Any`.
#[derive(Clone, Debug)]
pub struct Message {
    pub type_url: String,
    pub value: Vec<u8>,
}

/// The fields of a decoded transaction that the decoder reads.
#[derive(Clone, Debug)]
pub struct RawTransaction {
    pub messages: Vec<Message>,
    pub fee: Fee,
    pub signer_infos: Vec<SignerInfo>,
}

/// Per-chain settings the decoder needs.
#[derive(Clone, Debug)]
pub struct ConnectionConf {
    /// Denomination of the native token, in which fees are normalized.
    pub native_denom: String,
    /// Number of decimals of the native denomination.
    pub native_decimals: u32,
    /// Bech32 prefix of account addresses.
    pub bech32_prefix: String,
}

impl ConnectionConf {
    /// The native denomination is at most atto-scaled.
    pub open spec fn wf(&self) -> bool {
        self.native_decimals <= 18
    }
}

/// Receipt data of a transaction.
#[derive(Clone, Copy, Debug, PartialEq, Eq, Structural)]
pub struct TxnReceiptInfo {
    pub gas_used: U256,
    pub cumulative_gas_used: U256,
    pub effective_gas_price: U256,
}

/// The chain-agnostic description of a transaction.
#[derive(Clone, Debug)]
pub struct TxnInfo {
    pub hash: Vec<u8>,
    pub gas_limit: U256,
    pub gas_price: U256,
    pub nonce: u64,
    pub sender: Vec<u8>,
    pub recipient: Vec<u8>,
    pub receipt: TxnReceiptInfo,
    /// Set when the computed gas price was zero and was raised to one.
    pub zero_gas_price_raised: bool,
}

/// What a `TxnInfo` holds, as mathematical values.
pub struct TxnInfoModel {
    pub hash: Seq<u8>,
    pub gas_limit: nat,
    pub gas_price: nat,
    pub nonce: u64,
    pub sender: Seq<u8>,
    pub recipient: Seq<u8>,
    pub gas_used: nat,
    pub cumulative_gas_used: nat,
    pub effective_gas_price: nat,
    pub zero_gas_price_raised: bool,
}

impl View for TxnInfo {
    type V = TxnInfoModel;

    open spec fn view(&self) -> TxnInfoModel {
        TxnInfoModel {
            hash: self.hash@,
            gas_limit: self.gas_limit.value(),
            gas_price: self.gas_price.value(),
            nonce: self.nonce,
            sender: self.sender@,
            recipient: self.recipient@,
            gas_used: self.receipt.gas_used.value(),
            cumulative_gas_used: self.receipt.cumulative_gas_used.value(),
            effective_gas_price: self.receipt.effective_gas_price.value(),
            zero_gas_price_raised: self.zero_gas_price_raised,
        }
    }
}

/// The chain-agnostic description of a block.
#[derive(Clone, Debug)]
pub struct BlockInfo {
    pub hash: Vec<u8>,
    pub timestamp: u64,
    pub number: u64,
}

/// Why a transaction or block could not be decoded.
#[derive(Clone, Debug)]
pub enum DecodeError {
    /// The fetched data has another hash than the one requested.
    HashMismatch,
    /// A block response without a block.
    EmptyBlock,
    /// A public key wrapped with a type URL that is not supported.
    UnrecognizedKeyType { type_url: String },
    /// A public key whose bytes cannot be read, or a signer without a key.
    PublicKeyEncodingError,
    /// No account address can be derived from the key or account bytes.
    AddressDerivationError,
    /// The transaction has no signer information.
    NoSignerInfo,
    /// The transaction has no contract execution message.
    NoContractMessage,
    /// The transaction has more than one contract execution message.
    MultipleContractMessages,
    /// The contract execution message cannot be decoded.
    MalformedContractMessage,
    /// Fees are paid in denominations other than the supported one.
    UnsupportedFeeDenomination { denoms: Vec<String> },
    /// The transaction bytes cannot be decoded.
    MalformedTransactionBytes,
    /// The transaction declares a gas limit of zero.
    ZeroGasLimit,
}

/// What a `DecodeError` holds, as mathematical values.
pub enum DecodeErrorModel {
    HashMismatch,
    EmptyBlock,
    UnrecognizedKeyType(Seq<char>),
    PublicKeyEncodingError,
    AddressDerivationError,
    NoSignerInfo,
    NoContractMessage,
    MultipleContractMessages,
    MalformedContractMessage,
    UnsupportedFeeDenomination(Seq<Seq<char>>),
    MalformedTransactionBytes,
    ZeroGasLimit,
}

impl View for DecodeError {
    type V = DecodeErrorModel;

    open spec fn view(&self) -> DecodeErrorModel {
        match self {
            DecodeError::HashMismatch => DecodeErrorModel::HashMismatch,
            DecodeError::EmptyBlock => DecodeErrorModel::EmptyBlock,
            DecodeError::UnrecognizedKeyType { type_url } => DecodeErrorModel::UnrecognizedKeyType(type_url@),
            DecodeError::PublicKeyEncodingError => DecodeErrorModel::PublicKeyEncodingError,
            DecodeError::AddressDerivationError => DecodeErrorModel::AddressDerivationError,
            DecodeError::NoSignerInfo => DecodeErrorModel::NoSignerInfo,
            DecodeError::NoContractMessage => DecodeErrorModel::NoContractMessage,
            DecodeError::MultipleContractMessages => DecodeErrorModel::MultipleContractMessages,
            DecodeError::MalformedContractMessage => DecodeErrorModel::MalformedContractMessage,
            DecodeError::UnsupportedFeeDenomination { denoms } => DecodeErrorModel::UnsupportedFeeDenomination(
                denoms@.map_values(|d: String| d@),
            ),
            DecodeError::MalformedTransactionBytes => DecodeErrorModel::MalformedTransactionBytes,
            DecodeError::ZeroGasLimit => DecodeErrorModel::ZeroGasLimit,
        }
    }
}

/// A result with both sides seen through their views.
pub open spec fn result_view<T: View>(r: Result<T, DecodeError>) -> Result<T::V, DecodeErrorModel> {
    match r {
        Ok(v) => Ok(v@),
        Err(e) => Err(e@),
    }
}

} // verus!
