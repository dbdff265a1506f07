//! General properties of transaction decoding.
use vstd::prelude::*;

use crate::external::{compressed_secp256k1, keccak256, secp256k1_proto_key, uncompressed_secp256k1, valid_prefix};
use crate::keys::{derived_account, normalized_key, signer_account, signer_key_model, ETHSECP256K1_TYPE_URL};
use crate::provider::{
    contract_message_count, contract_of, contract_of_message, decoded_txn, is_contract_message,
    is_payer, payer_position, sender_account, signer_results, txn_result_view,
};
use crate::types::{
    AddressStyle, ConnectionConf, DecodeError, DecodeErrorModel, KeyCurve, Message, PublicKeyModel,
    RawTransaction, TxnInfo,
};

verus! {

/// Decoding is deterministic: two decodings of the same fetched transaction give the same
/// description, or the same error.
pub proof fn lemma_decoding_is_deterministic(
    tx: RawTransaction,
    conf: ConnectionConf,
    hash: Seq<u8>,
    received: Seq<u8>,
    gas_wanted: u64,
    gas_used: u64,
    r1: Result<TxnInfo, DecodeError>,
    r2: Result<TxnInfo, DecodeError>,
)
    requires
        txn_result_view(r1) == decoded_txn(tx, conf, hash, received, gas_wanted, gas_used),
        txn_result_view(r2) == decoded_txn(tx, conf, hash, received, gas_wanted, gas_used),
    ensures
        txn_result_view(r1) == txn_result_view(r2),
{
}

/// A fetched transaction whose hash differs from the requested one is rejected with a hash
/// mismatch and yields no description.
pub proof fn lemma_hash_mismatch_rejected(
    tx: RawTransaction,
    conf: ConnectionConf,
    hash: Seq<u8>,
    received: Seq<u8>,
    gas_wanted: u64,
    gas_used: u64,
)
    requires
        hash != received,
    ensures
        decoded_txn(tx, conf, hash, received, gas_wanted, gas_used) == Err::<crate::types::TxnInfoModel, DecodeErrorModel>(
            DecodeErrorModel::HashMismatch,
        ),
{
}

proof fn lemma_contract_message_counted(msgs: Seq<Message>, i: int)
    requires
        0 <= i < msgs.len(),
        is_contract_message(msgs[i]),
    ensures
        contract_message_count(msgs) >= 1,
    decreases msgs.len(),
{
    if i < msgs.len() - 1 {
        lemma_contract_message_counted(msgs.drop_last(), i);
    }
}

proof fn lemma_single_contract_message_unique(msgs: Seq<Message>, a: int, b: int)
    requires
        contract_message_count(msgs) == 1,
        0 <= a < msgs.len(),
        0 <= b < msgs.len(),
        is_contract_message(msgs[a]),
        is_contract_message(msgs[b]),
    ensures
        a == b,
    decreases msgs.len(),
{
    let n = msgs.len() - 1;
    if a != b {
        if a == n {
            lemma_contract_message_counted(msgs.drop_last(), b);
        } else if b == n {
            lemma_contract_message_counted(msgs.drop_last(), a);
        } else if is_contract_message(msgs.last()) {
            lemma_contract_message_counted(msgs.drop_last(), a);
        } else {
            lemma_single_contract_message_unique(msgs.drop_last(), a, b);
        }
    }
}

/// With exactly one contract execution message, the recipient is the contract that this
/// message addresses.
pub proof fn lemma_single_contract_message(msgs: Seq<Message>, k: int)
    requires
        contract_message_count(msgs) == 1,
        0 <= k < msgs.len(),
        is_contract_message(msgs[k]),
    ensures
        contract_of(msgs) == contract_of_message(msgs[k]),
{
    let c = choose|j: int| 0 <= j < msgs.len() && is_contract_message(#[trigger] msgs[j]);
    lemma_single_contract_message_unique(msgs, c, k);
}

/// Without contract execution messages decoding fails with `NoContractMessage`; with two or
/// more it fails with `MultipleContractMessages`.
pub proof fn lemma_contract_message_count_decides(msgs: Seq<Message>)
    ensures
        contract_message_count(msgs) == 0 ==> contract_of(msgs) == Err::<Seq<u8>, DecodeErrorModel>(
            DecodeErrorModel::NoContractMessage,
        ),
        contract_message_count(msgs) > 1 ==> contract_of(msgs) == Err::<Seq<u8>, DecodeErrorModel>(
            DecodeErrorModel::MultipleContractMessages,
        ),
{
}

proof fn lemma_payer_position_first_match(
    s: Seq<Result<((Seq<char>, Seq<u8>), u64), DecodeErrorModel>>,
    payer: (Seq<char>, Seq<u8>),
    i: int,
    k: int,
)
    requires
        0 <= i <= k < s.len(),
        is_payer(s[k], payer),
        forall|j: int| i <= j < k ==> !is_payer(#[trigger] s[j], payer),
    ensures
        payer_position(s, payer, i) == k,
    decreases k - i,
{
    if i < k {
        lemma_payer_position_first_match(s, payer, i + 1, k);
    }
}

/// When the fee payer's account is derived from signer `k` and from no signer before it, the
/// sender is the payer and the nonce is signer `k`'s sequence, wherever `k` stands.
pub proof fn lemma_payer_precedence(tx: RawTransaction, prefix: Seq<char>, k: int)
    requires
        tx.fee.payer is Some,
        0 <= k < tx.signer_infos@.len(),
        is_payer(signer_results(tx.signer_infos@, prefix)[k], tx.fee.payer.unwrap()@),
        forall|j: int|
            0 <= j < k ==> !is_payer(#[trigger] signer_results(tx.signer_infos@, prefix)[j], tx.fee.payer.unwrap()@),
    ensures
        sender_account(tx, prefix) == Ok::<((Seq<char>, Seq<u8>), u64), DecodeErrorModel>(
            (tx.fee.payer.unwrap()@, tx.signer_infos@[k].sequence),
        ),
{
    let s = signer_results(tx.signer_infos@, prefix);
    lemma_payer_position_first_match(s, tx.fee.payer.unwrap()@, 0, k);
}

/// Without a fee payer, the sender and nonce are those derived from the first signer.
pub proof fn lemma_first_signer_without_payer(tx: RawTransaction, prefix: Seq<char>)
    requires
        tx.fee.payer is None,
        tx.signer_infos@.len() > 0,
    ensures
        sender_account(tx, prefix) == signer_account(
            signer_key_model(tx.signer_infos@[0]),
            tx.signer_infos@[0].sequence,
            prefix,
        ),
{
}

/// An ethsecp256k1 key K, normalized and then derived from, gives the Ethereum-style address
/// of K's uncompressed form `u`: the last 20 bytes of KECCAK256 of `u` without its tag byte.
/// The point's compressed form `c` must decompress to that same `u`.
pub proof fn lemma_ethsecp256k1_address(value: Seq<u8>, prefix: Seq<char>, k: Seq<u8>, u: Seq<u8>, c: Seq<u8>)
    requires
        valid_prefix(prefix),
        secp256k1_proto_key(value) == Some(k),
        uncompressed_secp256k1(k) == Some(u),
        compressed_secp256k1(u) == Some(c),
        uncompressed_secp256k1(c) == Some(u),
    ensures
        normalized_key(PublicKeyModel::TypedAny(ETHSECP256K1_TYPE_URL@, value)) == Ok::<(PublicKeyModel, AddressStyle), DecodeErrorModel>(
            (PublicKeyModel::Single(c, KeyCurve::Secp256k1), AddressStyle::Ethereum),
        ),
        derived_account(PublicKeyModel::Single(c, KeyCurve::Secp256k1), AddressStyle::Ethereum, prefix)
            == Ok::<(Seq<char>, Seq<u8>), DecodeErrorModel>((prefix, keccak256(u.subrange(1, u.len() as int)).subrange(12, 32))),
{
}

} // verus!
