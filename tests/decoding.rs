use cosmos_provider::keys::{account_id_new, derive_account_id};
use cosmos_provider::provider::search_payer_in_signer_infos;
use cosmos_provider::wide::mul_u128_u64;
use cosmos_provider::{
    convert_signer_info_into_account_id_and_nonce, normalize_public_key, AccountId, AddressStyle,
    CanonicalKey, Coin, ConnectionConf, CosmosProvider, DecodeError, Fee, KeyCurve, Message,
    PublicKeyEncoding, RawTransaction, SignerInfo, U256,
};
use cosmrs::proto::traits::MessageExt;
use cosmrs::tx::Msg;
use k256::elliptic_curve::sec1::ToEncodedPoint;
use sha3::Digest;

const PREFIX: &str = "neutron";
const EXECUTE_URL: &str = "/cosmwasm.wasm.v1.MsgExecuteContract";
const SECP_URL: &str = "/cosmos.crypto.secp256k1.PubKey";
const ED25519_URL: &str = "/cosmos.crypto.ed25519.PubKey";
const ETH_URL: &str = "/injective.crypto.v1beta1.ethsecp256k1.PubKey";

fn conf(decimals: u32) -> ConnectionConf {
    ConnectionConf {
        native_denom: "untrn".to_string(),
        native_decimals: decimals,
        bech32_prefix: PREFIX.to_string(),
    }
}

fn provider() -> CosmosProvider {
    CosmosProvider::new(conf(6)).unwrap()
}

fn verifying_key(seed: u8) -> k256::ecdsa::VerifyingKey {
    *k256::ecdsa::SigningKey::from_slice(&[seed; 32]).unwrap().verifying_key()
}

fn compressed(seed: u8) -> Vec<u8> {
    verifying_key(seed).to_encoded_point(true).as_bytes().to_vec()
}

fn uncompressed(seed: u8) -> Vec<u8> {
    verifying_key(seed).to_encoded_point(false).as_bytes().to_vec()
}

fn cosmos_address(seed: u8) -> Vec<u8> {
    cosmrs::crypto::PublicKey::from(verifying_key(seed))
        .account_id(PREFIX)
        .unwrap()
        .to_bytes()
}

fn padded(bytes: &[u8]) -> Vec<u8> {
    let mut d = vec![0u8; 32 - bytes.len()];
    d.extend_from_slice(bytes);
    d
}

fn single(seed: u8) -> PublicKeyEncoding {
    PublicKeyEncoding::Single(CanonicalKey { bytes: compressed(seed), curve: KeyCurve::Secp256k1 })
}

fn signer(seed: u8, sequence: u64) -> SignerInfo {
    SignerInfo { public_key: Some(single(seed)), sequence }
}

fn proto_key(key: Vec<u8>) -> Vec<u8> {
    cosmrs::proto::cosmos::crypto::secp256k1::PubKey { key }.to_bytes().unwrap()
}

fn execute_message(contract: &[u8]) -> Message {
    let msg = cosmrs::cosmwasm::MsgExecuteContract {
        sender: cosmrs::AccountId::new(PREFIX, &[1u8; 20]).unwrap(),
        contract: cosmrs::AccountId::new(PREFIX, contract).unwrap(),
        msg: b"{}".to_vec(),
        funds: vec![],
    };
    let any = msg.to_any().unwrap();
    Message { type_url: any.type_url, value: any.value }
}

fn coin(denom: &str, amount: u128) -> Coin {
    Coin { denom: denom.to_string(), amount }
}

fn transaction(signers: Vec<SignerInfo>, payer: Option<AccountId>, messages: Vec<Message>, amount: Vec<Coin>, gas_limit: u64) -> RawTransaction {
    RawTransaction { messages, fee: Fee { payer, amount, gas_limit }, signer_infos: signers }
}

fn u256(v: u128) -> U256 {
    U256::from_u128(v)
}

#[test]
fn single_key_is_kept_with_bitcoin_style() {
    let (key, style) = normalize_public_key(single(3)).unwrap();
    assert_eq!(style, AddressStyle::Bitcoin);
    match key {
        PublicKeyEncoding::Single(k) => {
            assert_eq!(k.bytes, compressed(3));
            assert_eq!(k.curve, KeyCurve::Secp256k1);
        }
        _ => panic!("expected a single key"),
    }
}

#[test]
fn legacy_multisig_is_kept_but_yields_no_account() {
    let (key, style) = normalize_public_key(PublicKeyEncoding::LegacyMultisig(vec![1, 2, 3])).unwrap();
    assert_eq!(style, AddressStyle::Bitcoin);
    assert!(matches!(key, PublicKeyEncoding::LegacyMultisig(ref b) if *b == vec![1, 2, 3]));
    let r = derive_account_id(&key, style, &PREFIX.to_string());
    assert!(matches!(r, Err(DecodeError::PublicKeyEncodingError)));
}

#[test]
fn unrecognized_type_url_is_reported() {
    let url = "/some.chain.PubKey".to_string();
    let r = normalize_public_key(PublicKeyEncoding::TypedAny { type_url: url.clone(), value: vec![] });
    match r {
        Err(DecodeError::UnrecognizedKeyType { type_url }) => assert_eq!(type_url, url),
        _ => panic!("expected an unrecognized key type"),
    }
}

#[test]
fn standard_secp256k1_any_is_unwrapped() {
    let enc = PublicKeyEncoding::TypedAny { type_url: SECP_URL.to_string(), value: proto_key(compressed(4)) };
    let (key, style) = normalize_public_key(enc).unwrap();
    assert_eq!(style, AddressStyle::Bitcoin);
    match &key {
        PublicKeyEncoding::Single(k) => {
            assert_eq!(k.bytes, compressed(4));
            assert_eq!(k.curve, KeyCurve::Secp256k1);
        }
        _ => panic!("expected a single key"),
    }
    let account = derive_account_id(&key, style, &PREFIX.to_string()).unwrap();
    assert_eq!(account.bytes, cosmos_address(4));
    assert_eq!(account.prefix, PREFIX);
}

#[test]
fn ed25519_any_is_unwrapped_but_yields_no_account() {
    let value = cosmrs::proto::cosmos::crypto::ed25519::PubKey { key: vec![9u8; 32] }.to_bytes().unwrap();
    let enc = PublicKeyEncoding::TypedAny { type_url: ED25519_URL.to_string(), value };
    let (key, style) = normalize_public_key(enc).unwrap();
    match &key {
        PublicKeyEncoding::Single(k) => {
            assert_eq!(k.bytes, vec![9u8; 32]);
            assert_eq!(k.curve, KeyCurve::Ed25519);
        }
        _ => panic!("expected a single key"),
    }
    let r = derive_account_id(&key, style, &PREFIX.to_string());
    assert!(matches!(r, Err(DecodeError::AddressDerivationError)));
}

#[test]
fn malformed_any_key_is_an_encoding_error() {
    let enc = PublicKeyEncoding::TypedAny { type_url: SECP_URL.to_string(), value: proto_key(vec![1, 2, 3]) };
    assert!(matches!(normalize_public_key(enc), Err(DecodeError::PublicKeyEncodingError)));
    let enc = PublicKeyEncoding::TypedAny { type_url: ETH_URL.to_string(), value: proto_key(vec![1, 2, 3]) };
    assert!(matches!(normalize_public_key(enc), Err(DecodeError::PublicKeyEncodingError)));
}

#[test]
fn ethsecp256k1_key_gives_ethereum_style_address() {
    let enc = PublicKeyEncoding::TypedAny { type_url: ETH_URL.to_string(), value: proto_key(compressed(5)) };
    let (key, style) = normalize_public_key(enc).unwrap();
    assert_eq!(style, AddressStyle::Ethereum);
    let account = derive_account_id(&key, style, &PREFIX.to_string()).unwrap();
    let full = uncompressed(5);
    assert_eq!(full.len(), 65);
    let hash = sha3::Keccak256::digest(&full[1..]);
    assert_eq!(account.bytes, hash[12..].to_vec());
    assert_ne!(account.bytes, cosmos_address(5));
}

#[test]
fn account_prefix_must_be_lowercase_alphanumeric() {
    assert!(account_id_new(&"Neutron".to_string(), vec![1]).is_none());
    assert!(account_id_new(&"".to_string(), vec![1]).is_none());
    assert!(account_id_new(&"inj".to_string(), vec![]).is_none());
    assert!(account_id_new(&"inj".to_string(), vec![0u8; 256]).is_none());
    let a = account_id_new(&"inj1".to_string(), vec![7u8; 20]).unwrap();
    assert_eq!(a.prefix, "inj1");
    assert_eq!(a.bytes, vec![7u8; 20]);
    let r = derive_account_id(&single(3), AddressStyle::Bitcoin, &"Bad".to_string());
    assert!(matches!(r, Err(DecodeError::AddressDerivationError)));
}

#[test]
fn signer_without_key_cannot_be_resolved() {
    let si = SignerInfo { public_key: None, sequence: 1 };
    let r = convert_signer_info_into_account_id_and_nonce(&si, &PREFIX.to_string());
    assert!(matches!(r, Err(DecodeError::PublicKeyEncodingError)));
}

#[test]
fn payer_is_found_wherever_it_signs() {
    let payer = AccountId { prefix: PREFIX.to_string(), bytes: cosmos_address(12) };
    let signers = vec![signer(11, 4), SignerInfo { public_key: None, sequence: 8 }, signer(12, 9)];
    let (account, nonce) = search_payer_in_signer_infos(&signers, &payer, &PREFIX.to_string()).unwrap();
    assert_eq!(account.bytes, cosmos_address(12));
    assert_eq!(nonce, 9);
    let tx = transaction(signers, Some(payer), vec![], vec![], 1);
    let (sender, nonce) = provider().sender_and_nonce(&tx).unwrap();
    assert_eq!(sender, padded(&cosmos_address(12)));
    assert_eq!(nonce, 9);
}

#[test]
fn unmatched_payer_falls_back_to_first_signer() {
    let payer = AccountId { prefix: PREFIX.to_string(), bytes: vec![1u8; 20] };
    let tx = transaction(vec![signer(11, 4), signer(12, 9)], Some(payer.clone()), vec![], vec![], 1);
    let (sender, nonce) = provider().sender_and_nonce(&tx).unwrap();
    assert_eq!(sender, padded(&cosmos_address(11)));
    assert_eq!(nonce, 4);
    let tx = transaction(vec![SignerInfo { public_key: None, sequence: 2 }, signer(12, 9)], Some(payer), vec![], vec![], 1);
    assert!(matches!(provider().sender_and_nonce(&tx), Err(DecodeError::PublicKeyEncodingError)));
}

#[test]
fn without_payer_the_first_signer_sends() {
    let tx = transaction(vec![signer(13, 21), signer(14, 22)], None, vec![], vec![], 1);
    let (sender, nonce) = provider().sender_and_nonce(&tx).unwrap();
    assert_eq!(sender, padded(&cosmos_address(13)));
    assert_eq!(nonce, 21);
}

#[test]
fn no_signers_is_an_error() {
    let tx = transaction(vec![], None, vec![], vec![], 1);
    assert!(matches!(provider().sender_and_nonce(&tx), Err(DecodeError::NoSignerInfo)));
    let payer = AccountId { prefix: PREFIX.to_string(), bytes: vec![1u8; 20] };
    let tx = transaction(vec![], Some(payer), vec![], vec![], 1);
    assert!(matches!(provider().sender_and_nonce(&tx), Err(DecodeError::NoSignerInfo)));
}

#[test]
fn single_contract_message_gives_recipient() {
    let other = Message { type_url: "/cosmos.bank.v1beta1.MsgSend".to_string(), value: vec![1, 2] };
    let tx = transaction(vec![], None, vec![other, execute_message(&[7u8; 32])], vec![], 1);
    assert_eq!(CosmosProvider::contract(&tx).unwrap(), vec![7u8; 32]);
    let tx = transaction(vec![], None, vec![execute_message(&[5u8; 20])], vec![], 1);
    assert_eq!(CosmosProvider::contract(&tx).unwrap(), padded(&[5u8; 20]));
}

#[test]
fn contract_message_count_must_be_one() {
    let tx = transaction(vec![], None, vec![], vec![], 1);
    assert!(matches!(CosmosProvider::contract(&tx), Err(DecodeError::NoContractMessage)));
    let tx = transaction(vec![], None, vec![execute_message(&[7u8; 32]), execute_message(&[8u8; 32])], vec![], 1);
    assert!(matches!(CosmosProvider::contract(&tx), Err(DecodeError::MultipleContractMessages)));
    let bad = Message { type_url: EXECUTE_URL.to_string(), value: vec![0xff, 0xff] };
    let tx = transaction(vec![], None, vec![bad], vec![], 1);
    assert!(matches!(CosmosProvider::contract(&tx), Err(DecodeError::MalformedContractMessage)));
}

#[test]
fn fees_scale_to_atto_units() {
    let p = provider();
    assert_eq!(p.convert_fee(&coin("untrn", 1_000_000)), u256(1_000_000_000_000_000_000));
    assert_eq!(p.convert_fee(&coin("uosmo", 1_000_000)), u256(0));
    let inj = CosmosProvider::new(ConnectionConf { native_denom: "inj".to_string(), native_decimals: 18, bech32_prefix: "inj".to_string() }).unwrap();
    assert_eq!(inj.convert_fee(&coin("inj", 12345)), u256(12345));
    let big = p.convert_fee(&coin("untrn", u128::MAX));
    assert_eq!(big, mul_u128_u64(u128::MAX, 1_000_000_000_000));
    assert!(big.hi > 0);
}

#[test]
fn foreign_fee_denominations_are_reported() {
    let p = provider();
    let tx = transaction(vec![], None, vec![], vec![coin("untrn", 5), coin("uatom", 1), coin("uosmo", 2)], 1);
    match p.report_unsupported_denominations(&tx) {
        Err(DecodeError::UnsupportedFeeDenomination { denoms }) => assert_eq!(denoms, vec!["uatom".to_string(), "uosmo".to_string()]),
        _ => panic!("expected unsupported denominations"),
    }
    let tx = transaction(vec![], None, vec![], vec![coin("untrn", 5)], 1);
    assert!(p.report_unsupported_denominations(&tx).is_ok());
}

#[test]
fn zero_gas_price_is_raised_to_one() {
    let (price, raised) = CosmosProvider::gas_price(&u256(0), 100);
    assert_eq!(price, u256(1));
    assert!(raised);
    let (price, raised) = CosmosProvider::gas_price(&u256(1000), 100);
    assert_eq!(price, u256(10));
    assert!(!raised);
}

#[test]
fn wide_arithmetic() {
    let a = U256 { hi: 0, lo: u128::MAX };
    let s = a.add(&U256::one());
    assert_eq!(s, U256 { hi: 1, lo: 0 });
    assert_eq!(s.div_u64(2), U256 { hi: 0, lo: 1u128 << 127 });
    let m = mul_u128_u64(u128::MAX, u64::MAX);
    assert_eq!(m, U256 { hi: u64::MAX as u128 - 1, lo: (u128::MAX - u64::MAX as u128) + 1 });
    assert_eq!(m.div_u64(u64::MAX), U256 { hi: 0, lo: u128::MAX });
    assert!(U256::zero().is_zero());
    assert!(!U256 { hi: 1, lo: 0 }.is_zero());
}

fn example_transaction() -> RawTransaction {
    transaction(vec![signer(21, 5)], None, vec![execute_message(&[0xc0u8; 32])], vec![coin("untrn", 1000)], 200_000)
}

#[test]
fn example_transaction_decodes() {
    let hash = vec![0xabu8; 32];
    let info = provider().decode_transaction(&hash, &hash, &example_transaction(), 250_000, 180_000).unwrap();
    assert_eq!(info.hash, hash);
    assert_eq!(info.sender, padded(&cosmos_address(21)));
    assert_eq!(info.nonce, 5);
    assert_eq!(info.recipient, vec![0xc0u8; 32]);
    assert_eq!(info.gas_price, u256(1000 * 1_000_000_000_000 / 200_000));
    assert_eq!(info.gas_price, u256(5_000_000_000));
    assert!(!info.zero_gas_price_raised);
    assert_eq!(info.gas_limit, u256(250_000));
    assert_eq!(info.receipt.gas_used, u256(180_000));
    assert_eq!(info.receipt.cumulative_gas_used, u256(180_000));
    assert_eq!(info.receipt.effective_gas_price, info.gas_price);
}

#[test]
fn decoding_twice_gives_the_same_description() {
    let hash = vec![0x11u8; 32];
    let p = provider();
    let a = p.decode_transaction(&hash, &hash, &example_transaction(), 1, 2).unwrap();
    let b = p.decode_transaction(&hash, &hash, &example_transaction(), 1, 2).unwrap();
    assert_eq!(format!("{:?}", a), format!("{:?}", b));
}

#[test]
fn hash_mismatch_is_rejected() {
    let r = provider().decode_transaction(&vec![1u8; 32], &vec![2u8; 32], &example_transaction(), 1, 1);
    assert!(matches!(r, Err(DecodeError::HashMismatch)));
}

#[test]
fn zero_fee_transaction_gets_gas_price_one() {
    let hash = vec![3u8; 32];
    let tx = transaction(vec![signer(21, 5)], None, vec![execute_message(&[1u8; 32])], vec![], 100);
    let info = provider().decode_transaction(&hash, &hash, &tx, 100, 50).unwrap();
    assert_eq!(info.gas_price, u256(1));
    assert!(info.zero_gas_price_raised);
}

#[test]
fn decoding_stops_at_first_error() {
    let hash = vec![3u8; 32];
    let p = provider();
    let tx = transaction(vec![signer(21, 5)], None, vec![execute_message(&[1u8; 32])], vec![coin("uatom", 1)], 100);
    assert!(matches!(p.decode_transaction(&hash, &hash, &tx, 1, 1), Err(DecodeError::UnsupportedFeeDenomination { .. })));
    let tx = transaction(vec![signer(21, 5)], None, vec![execute_message(&[1u8; 32])], vec![coin("untrn", 1)], 0);
    assert!(matches!(p.decode_transaction(&hash, &hash, &tx, 1, 1), Err(DecodeError::ZeroGasLimit)));
    let tx = transaction(vec![], None, vec![], vec![], 0);
    assert!(matches!(p.decode_transaction(&hash, &hash, &tx, 1, 1), Err(DecodeError::NoContractMessage)));
    let tx = transaction(vec![], None, vec![execute_message(&[1u8; 32])], vec![], 0);
    assert!(matches!(p.decode_transaction(&hash, &hash, &tx, 1, 1), Err(DecodeError::NoSignerInfo)));
}

#[test]
fn block_info_is_extracted() {
    let hash = vec![9u8; 32];
    let b = CosmosProvider::extract_block_info(&hash, &hash, Some((1_700_000_000, 42))).unwrap();
    assert_eq!(b.hash, hash);
    assert_eq!(b.timestamp, 1_700_000_000);
    assert_eq!(b.number, 42);
    let b = CosmosProvider::extract_block_info(&hash, &hash, Some((-1, 1))).unwrap();
    assert_eq!(b.timestamp, u64::MAX);
    assert!(matches!(CosmosProvider::extract_block_info(&hash, &hash, None), Err(DecodeError::EmptyBlock)));
    assert!(matches!(CosmosProvider::extract_block_info(&hash, &vec![8u8; 32], None), Err(DecodeError::HashMismatch)));
}

#[test]
fn native_decimals_above_eighteen_are_refused() {
    assert!(CosmosProvider::new(conf(19)).is_none());
    assert!(CosmosProvider::new(conf(18)).is_some());
}
