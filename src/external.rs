//! Calls into cosmrs, tendermint, k256, sha3 and itertools, with what each is relied on for.
use vstd::prelude::*;

use crate::keys::account_result_view;
use crate::provider::{is_payer_entry, payer_position};
use crate::types::{AccountId, CanonicalKey, DecodeError, KeyCurve};

use cosmrs::proto::traits::MessageExt;
use cosmrs::tx::Msg;
use k256::elliptic_curve::sec1::ToEncodedPoint;
use itertools::Itertools;
use sha3::Digest;

verus! {

/// The raw key that a protobuf `Any` with a standard public key type URL decodes to.
pub uninterp spec fn any_public_key_bytes(type_url: Seq<char>, value: Seq<u8>) -> Option<Seq<u8>>;

/// The `key` field of a `cosmos.crypto.secp256k1.PubKey` protobuf message.
pub uninterp spec fn secp256k1_proto_key(value: Seq<u8>) -> Option<Seq<u8>>;

/// The uncompressed SEC1 encoding of a secp256k1 point given in SEC1 form.
pub uninterp spec fn uncompressed_secp256k1(key: Seq<u8>) -> Option<Seq<u8>>;

/// The compressed SEC1 encoding of a secp256k1 point given in SEC1 form.
pub uninterp spec fn compressed_secp256k1(key: Seq<u8>) -> Option<Seq<u8>>;

/// RIPEMD160(SHA256(key)): the Cosmos account hash of a compressed secp256k1 key.
pub uninterp spec fn cosmos_account_hash(key: Seq<u8>) -> Seq<u8>;

/// KECCAK256 of some bytes.
pub uninterp spec fn keccak256(data: Seq<u8>) -> Seq<u8>;

/// The account bytes of the contract addressed by an encoded `MsgExecuteContract`.
pub uninterp spec fn execute_contract_target(value: Seq<u8>) -> Option<Seq<u8>>;

/// Non-empty, lower-case ASCII letters and digits only: what cosmrs accepts as an address
/// prefix and reads back.
pub open spec fn valid_prefix(prefix: Seq<char>) -> bool {
    prefix.len() > 0 && forall|i: int|
        0 <= i < prefix.len() ==> (('a' <= #[trigger] prefix[i] && prefix[i] <= 'z') || ('0'
            <= prefix[i] && prefix[i] <= '9'))
}

/// Relies on `cosmrs::crypto::PublicKey::try_from(&Any)`: decodes an Ed25519 or secp256k1
/// protobuf key and checks it, and on `PublicKey::to_bytes` for the raw key.
#[verifier::external_body]
pub(crate) fn public_key_from_any(type_url: &String, value: &Vec<u8>) -> (r: Option<Vec<u8>>)
    ensures
        match r {
            Some(k) => any_public_key_bytes(type_url@, value@) == Some(k@),
            None => any_public_key_bytes(type_url@, value@) is None,
        },
{
    let any = cosmrs::Any { type_url: type_url.clone(), value: value.clone() };
    cosmrs::crypto::PublicKey::try_from(&any).ok().map(|pk| pk.to_bytes())
}

/// Relies on `MessageExt::from_any` for `cosmos.crypto.secp256k1.PubKey`: decodes the
/// protobuf message and hands back its `key` field.
#[verifier::external_body]
pub(crate) fn secp256k1_proto_from_any(value: &Vec<u8>) -> (r: Option<Vec<u8>>)
    ensures
        match r {
            Some(k) => secp256k1_proto_key(value@) == Some(k@),
            None => secp256k1_proto_key(value@) is None,
        },
{
    let any = cosmrs::Any {
        type_url: cosmrs::crypto::PublicKey::SECP256K1_TYPE_URL.to_owned(),
        value: value.clone(),
    };
    cosmrs::proto::cosmos::crypto::secp256k1::PubKey::from_any(&any).ok().map(|p| p.key)
}

/// Relies on `k256::PublicKey::from_sec1_bytes` and `to_encoded_point(false)`: a valid
/// point comes back as its 65-byte uncompressed encoding.
#[verifier::external_body]
pub(crate) fn decompress_public_key(key: &Vec<u8>) -> (r: Option<Vec<u8>>)
    ensures
        match r {
            Some(u) => uncompressed_secp256k1(key@) == Some(u@) && u@.len() == 65
                && uncompressed_secp256k1(u@) == Some(u@),
            None => uncompressed_secp256k1(key@) is None,
        },
{
    k256::PublicKey::from_sec1_bytes(key).ok().map(|pk| pk.to_encoded_point(false).as_bytes().to_vec())
}

/// Relies on `tendermint::PublicKey::from_raw_secp256k1`: accepts a valid SEC1 point, whose
/// `to_bytes` is then its compressed encoding.
#[verifier::external_body]
pub(crate) fn secp256k1_from_raw(bytes: &Vec<u8>) -> (r: Option<Vec<u8>>)
    ensures
        match r {
            Some(k) => compressed_secp256k1(bytes@) == Some(k@)
                && uncompressed_secp256k1(k@) == uncompressed_secp256k1(bytes@),
            None => compressed_secp256k1(bytes@) is None,
        },
{
    tendermint::PublicKey::from_raw_secp256k1(bytes).map(|pk| pk.to_bytes())
}

/// Relies on `cosmrs::crypto::PublicKey::account_id`: defined for secp256k1 keys only, it
/// hashes the compressed key to 20 bytes and fails on a prefix that is not lower-case
/// alphanumeric; `AccountId::to_bytes` panics on an empty prefix. The key is rebuilt with
/// tendermint's `from_raw_*` constructors.
#[verifier::external_body]
pub(crate) fn bitcoin_style_account_bytes(key: &CanonicalKey, prefix: &String) -> (r: Option<Vec<u8>>)
    requires
        prefix@.len() > 0,
    ensures
        key.curve is Ed25519 ==> r is None,
        r is Some ==> key.curve is Secp256k1 && valid_prefix(prefix@) && compressed_secp256k1(key.bytes@) is Some
            && r.unwrap()@ == cosmos_account_hash(compressed_secp256k1(key.bytes@).unwrap())
            && r.unwrap()@.len() == 20,
        key.curve is Secp256k1 && valid_prefix(prefix@) && compressed_secp256k1(key.bytes@) is Some ==> r is Some,
{
    let tm = match key.curve {
        KeyCurve::Secp256k1 => tendermint::PublicKey::from_raw_secp256k1(&key.bytes),
        KeyCurve::Ed25519 => tendermint::PublicKey::from_raw_ed25519(&key.bytes),
    }?;
    cosmrs::crypto::PublicKey::from(tm).account_id(prefix).ok().map(|a| a.to_bytes())
}

/// Relies on `sha3::Keccak256::digest`: a 32-byte digest.
#[verifier::external_body]
pub(crate) fn keccak256_digest(data: &Vec<u8>) -> (r: Vec<u8>)
    ensures
        r@ == keccak256(data@),
        r@.len() == 32,
{
    sha3::Keccak256::digest(data).to_vec()
}

/// Relies on `cosmrs::tx::Msg::from_any` for `cosmrs::cosmwasm::MsgExecuteContract`: decodes
/// the message and parses its contract address, whose bytes come back.
#[verifier::external_body]
pub(crate) fn execute_contract_from_any(value: &Vec<u8>) -> (r: Option<Vec<u8>>)
    ensures
        match r {
            Some(b) => execute_contract_target(value@) == Some(b@),
            None => execute_contract_target(value@) is None,
        },
{
    let any = cosmrs::Any {
        type_url: "/cosmwasm.wasm.v1.MsgExecuteContract".to_owned(),
        value: value.clone(),
    };
    cosmrs::cosmwasm::MsgExecuteContract::from_any(&any).ok().map(|m| m.contract.to_bytes())
}

/// Relies on `itertools::Itertools::find_or_first`: the first entry for which the predicate
/// holds, else the first entry, and nothing for no entries.
#[verifier::external_body]
pub(crate) fn find_payer_or_first(entries: Vec<Result<(AccountId, u64), DecodeError>>, payer: &AccountId) -> (r: Option<Result<(AccountId, u64), DecodeError>>)
    ensures
        entries@.len() == 0 ==> r is None,
        entries@.len() > 0 ==> r == Some(
            entries@[payer_position(entries@.map_values(|e| account_result_view(e)), payer@, 0)],
        ),
{
    entries.into_iter().find_or_first(|e| is_payer_entry(e, payer))
}

} // verus!
