//! Normalization of signer public keys and derivation of account identifiers from them.
use vstd::prelude::*;
use vstd::string::StrSliceExecFns;

use crate::external::{
    any_public_key_bytes, bitcoin_style_account_bytes, compressed_secp256k1, cosmos_account_hash,
    decompress_public_key, keccak256, keccak256_digest, public_key_from_any, secp256k1_from_raw,
    secp256k1_proto_from_any, secp256k1_proto_key, uncompressed_secp256k1, valid_prefix,
};
use crate::types::{
    result_view, AccountId, AddressStyle, CanonicalKey, DecodeError, DecodeErrorModel, KeyCurve,
    PublicKeyEncoding, PublicKeyModel, SignerInfo,
};

verus! {

/// Type URL of an Ed25519 public key wrapped in `Any`.
pub const ED25519_TYPE_URL: &'static str = "/cosmos.crypto.ed25519.PubKey";

/// Type URL of a secp256k1 public key wrapped in `Any`.
pub const SECP256K1_TYPE_URL: &'static str = "/cosmos.crypto.secp256k1.PubKey";

/// Type URL of an Injective ethsecp256k1 public key wrapped in `Any`.
pub const ETHSECP256K1_TYPE_URL: &'static str = "/injective.crypto.v1beta1.ethsecp256k1.PubKey";

/// The key and address style that an encoded public key normalizes to.
pub open spec fn normalized_key(enc: PublicKeyModel) -> Result<(PublicKeyModel, AddressStyle), DecodeErrorModel> {
    match enc {
        PublicKeyModel::Single(k, c) => Ok((PublicKeyModel::Single(k, c), AddressStyle::Bitcoin)),
        PublicKeyModel::LegacyMultisig(b) => Ok((PublicKeyModel::LegacyMultisig(b), AddressStyle::Bitcoin)),
        PublicKeyModel::TypedAny(url, value) => {
            if url == ETHSECP256K1_TYPE_URL@ {
                match secp256k1_proto_key(value) {
                    None => Err(DecodeErrorModel::PublicKeyEncodingError),
                    Some(compressed) => match uncompressed_secp256k1(compressed) {
                        None => Err(DecodeErrorModel::PublicKeyEncodingError),
                        Some(full) => match compressed_secp256k1(full) {
                            None => Err(DecodeErrorModel::PublicKeyEncodingError),
                            Some(k) => Ok((PublicKeyModel::Single(k, KeyCurve::Secp256k1), AddressStyle::Ethereum)),
                        },
                    },
                }
            } else if url == ED25519_TYPE_URL@ || url == SECP256K1_TYPE_URL@ {
                match any_public_key_bytes(url, value) {
                    None => Err(DecodeErrorModel::PublicKeyEncodingError),
                    Some(k) => Ok((
                        PublicKeyModel::Single(
                            k,
                            if url == ED25519_TYPE_URL@ { KeyCurve::Ed25519 } else { KeyCurve::Secp256k1 },
                        ),
                        AddressStyle::Bitcoin,
                    )),
                }
            } else {
                Err(DecodeErrorModel::UnrecognizedKeyType(url))
            }
        },
    }
}

/// The 20 address bytes of an Ethereum-style account: the tail of the KECCAK256 digest of
/// the uncompressed key without its leading tag byte.
pub open spec fn ethereum_account_hash(key: Seq<u8>) -> Option<Seq<u8>> {
    match uncompressed_secp256k1(key) {
        Some(full) => Some(keccak256(full.subrange(1, full.len() as int)).subrange(12, 32)),
        None => None,
    }
}

/// The address bytes derived from a normalized key in the given style.
pub open spec fn account_bytes(key: PublicKeyModel, style: AddressStyle, prefix: Seq<char>) -> Result<Seq<u8>, DecodeErrorModel> {
    match key {
        PublicKeyModel::Single(k, c) => {
            if !valid_prefix(prefix) {
                Err(DecodeErrorModel::AddressDerivationError)
            } else {
                match style {
                    AddressStyle::Bitcoin => {
                        if c is Secp256k1 && compressed_secp256k1(k) is Some {
                            Ok(cosmos_account_hash(compressed_secp256k1(k).unwrap()))
                        } else {
                            Err(DecodeErrorModel::AddressDerivationError)
                        }
                    },
                    AddressStyle::Ethereum => match ethereum_account_hash(k) {
                        Some(h) => Ok(h),
                        None => Err(DecodeErrorModel::AddressDerivationError),
                    },
                }
            }
        },
        _ => Err(DecodeErrorModel::PublicKeyEncodingError),
    }
}

/// The account id derived from a normalized key in the given style.
pub open spec fn derived_account(key: PublicKeyModel, style: AddressStyle, prefix: Seq<char>) -> Result<(Seq<char>, Seq<u8>), DecodeErrorModel> {
    match account_bytes(key, style, prefix) {
        Ok(b) => Ok((prefix, b)),
        Err(e) => Err(e),
    }
}

/// The account id and nonce of a signer.
pub open spec fn signer_account(key: Option<PublicKeyModel>, sequence: u64, prefix: Seq<char>) -> Result<((Seq<char>, Seq<u8>), u64), DecodeErrorModel> {
    match key {
        None => Err(DecodeErrorModel::PublicKeyEncodingError),
        Some(enc) => match normalized_key(enc) {
            Err(e) => Err(e),
            Ok((k, style)) => match derived_account(k, style, prefix) {
                Err(e) => Err(e),
                Ok(a) => Ok((a, sequence)),
            },
        },
    }
}

/// The model of a signer's public key.
pub open spec fn signer_key_model(si: SignerInfo) -> Option<PublicKeyModel> {
    match si.public_key {
        Some(k) => Some(k@),
        None => None,
    }
}

fn eq_str(a: &String, b: &str) -> (r: bool)
    ensures
        r == (a@ == b@),
{
    let owned = b.to_owned();
    *a == owned
}

/// Brings a signer's public key into a form from which an account can be derived, with the
/// style of that derivation.
pub fn normalize_public_key(enc: PublicKeyEncoding) -> (r: Result<(PublicKeyEncoding, AddressStyle), DecodeError>)
    ensures
        result_view(r) == normalized_key(enc@),
{
    match enc {
        PublicKeyEncoding::Single(k) => Ok((PublicKeyEncoding::Single(k), AddressStyle::Bitcoin)),
        PublicKeyEncoding::LegacyMultisig(b) => Ok((PublicKeyEncoding::LegacyMultisig(b), AddressStyle::Bitcoin)),
        PublicKeyEncoding::TypedAny { type_url, value } => {
            if eq_str(&type_url, ETHSECP256K1_TYPE_URL) {
                let compressed = match secp256k1_proto_from_any(&value) {
                    Some(c) => c,
                    None => return Err(DecodeError::PublicKeyEncodingError),
                };
                let full = match decompress_public_key(&compressed) {
                    Some(f) => f,
                    None => return Err(DecodeError::PublicKeyEncodingError),
                };
                match secp256k1_from_raw(&full) {
                    Some(k) => Ok((
                        PublicKeyEncoding::Single(CanonicalKey { bytes: k, curve: KeyCurve::Secp256k1 }),
                        AddressStyle::Ethereum,
                    )),
                    None => Err(DecodeError::PublicKeyEncodingError),
                }
            } else {
                let is_ed25519 = eq_str(&type_url, ED25519_TYPE_URL);
                if !is_ed25519 && !eq_str(&type_url, SECP256K1_TYPE_URL) {
                    return Err(DecodeError::UnrecognizedKeyType { type_url });
                }
                match public_key_from_any(&type_url, &value) {
                    Some(k) => {
                        let curve = if is_ed25519 { KeyCurve::Ed25519 } else { KeyCurve::Secp256k1 };
                        Ok((PublicKeyEncoding::Single(CanonicalKey { bytes: k, curve }), AddressStyle::Bitcoin))
                    },
                    None => Err(DecodeError::PublicKeyEncodingError),
                }
            }
        },
    }
}

/// An account id seen through views, with the nonce beside it.
pub open spec fn account_result_view(r: Result<(AccountId, u64), DecodeError>) -> Result<((Seq<char>, Seq<u8>), u64), DecodeErrorModel> {
    match r {
        Ok((a, n)) => Ok((a@, n)),
        Err(e) => Err(e@),
    }
}

/// Builds an account id from a prefix and address bytes, as cosmrs's `AccountId::new`
/// accepts them and can read them back: a non-empty lower-case alphanumeric prefix and 1 to
/// 255 bytes.
pub fn account_id_new(prefix: &String, bytes: Vec<u8>) -> (r: Option<AccountId>)
    ensures
        match r {
            Some(a) => a@ == (prefix@, bytes@) && valid_prefix(prefix@) && 1 <= bytes@.len() <= 255,
            None => !(valid_prefix(prefix@) && 1 <= bytes@.len() <= 255),
        },
{
    let s = prefix.as_str();
    let n = s.unicode_len();
    if n == 0 {
        return None;
    }
    let mut i: usize = 0;
    while i < n
        invariant
            n == prefix@.len(),
            s@ == prefix@,
            i <= n,
            forall|j: int| 0 <= j < i ==> (('a' <= #[trigger] prefix@[j] && prefix@[j] <= 'z') || ('0'
                <= prefix@[j] && prefix@[j] <= '9')),
        decreases n - i,
    {
        let c = s.get_char(i);
        if !(('a' <= c && c <= 'z') || ('0' <= c && c <= '9')) {
            return None;
        }
        i = i + 1;
    }
    if bytes.len() < 1 || bytes.len() > 255 {
        return None;
    }
    Some(AccountId { prefix: prefix.clone(), bytes })
}

/// Derives the account id of a normalized key in the given address style.
pub fn derive_account_id(key: &PublicKeyEncoding, style: AddressStyle, prefix: &String) -> (r: Result<AccountId, DecodeError>)
    ensures
        result_view(r) == derived_account(key@, style, prefix@),
{
    let k = match key {
        PublicKeyEncoding::Single(k) => k,
        _ => return Err(DecodeError::PublicKeyEncodingError),
    };
    if prefix.as_str().unicode_len() == 0 {
        return Err(DecodeError::AddressDerivationError);
    }
    match style {
        AddressStyle::Bitcoin => match bitcoin_style_account_bytes(k, prefix) {
            Some(b) => Ok(AccountId { prefix: prefix.clone(), bytes: b }),
            None => Err(DecodeError::AddressDerivationError),
        },
        AddressStyle::Ethereum => {
            let full = match decompress_public_key(&k.bytes) {
                Some(f) => f,
                None => return Err(DecodeError::AddressDerivationError),
            };
            let digest = keccak256_digest(&copy_range(&full, 1, full.len()));
            match account_id_new(prefix, copy_range(&digest, 12, 32)) {
                Some(a) => Ok(a),
                None => Err(DecodeError::AddressDerivationError),
            }
        },
    }
}

/// Finds the account id and nonce of a signer.
pub fn convert_signer_info_into_account_id_and_nonce(signer_info: &SignerInfo, prefix: &String) -> (r: Result<(AccountId, u64), DecodeError>)
    ensures
        account_result_view(r) == signer_account(signer_key_model(*signer_info), signer_info.sequence, prefix@),
{
    let enc = match &signer_info.public_key {
        Some(k) => clone_key(k),
        None => return Err(DecodeError::PublicKeyEncodingError),
    };
    let (key, style) = match normalize_public_key(enc) {
        Ok(v) => v,
        Err(e) => return Err(e),
    };
    match derive_account_id(&key, style, prefix) {
        Ok(a) => Ok((a, signer_info.sequence)),
        Err(e) => Err(e),
    }
}

/// A copy of the bytes from `from` up to `to`.
pub fn copy_range(b: &Vec<u8>, from: usize, to: usize) -> (r: Vec<u8>)
    requires
        from <= to <= b.len(),
    ensures
        r@ == b@.subrange(from as int, to as int),
{
    let mut r: Vec<u8> = Vec::new();
    let mut i: usize = from;
    while i < to
        invariant
            from <= i <= to <= b.len(),
            r@ == b@.subrange(from as int, i as int),
        decreases to - i,
    {
        r.push(b[i]);
        proof {
            assert(r@ =~= b@.subrange(from as int, i + 1));
        }
        i = i + 1;
    }
    r
}

fn clone_bytes(b: &Vec<u8>) -> (r: Vec<u8>)
    ensures
        r@ == b@,
{
    let r = copy_range(b, 0, b.len());
    proof {
        assert(r@ =~= b@);
    }
    r
}

fn clone_key(k: &PublicKeyEncoding) -> (r: PublicKeyEncoding)
    ensures
        r@ == k@,
{
    match k {
        PublicKeyEncoding::Single(c) => PublicKeyEncoding::Single(
            CanonicalKey { bytes: clone_bytes(&c.bytes), curve: c.curve },
        ),
        PublicKeyEncoding::LegacyMultisig(b) => PublicKeyEncoding::LegacyMultisig(clone_bytes(b)),
        PublicKeyEncoding::TypedAny { type_url, value } => PublicKeyEncoding::TypedAny {
            type_url: type_url.clone(),
            value: clone_bytes(value),
        },
    }
}

} // verus!
