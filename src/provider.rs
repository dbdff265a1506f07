//! Resolution of sender, nonce, contract and gas price of a transaction.
use vstd::prelude::*;

use crate::external::{execute_contract_from_any, execute_contract_target, find_payer_or_first};
use crate::keys::{
    account_result_view, convert_signer_info_into_account_id_and_nonce, signer_account,
    signer_key_model,
};
use crate::types::{
    AccountId, BlockInfo, Coin, ConnectionConf, DecodeError, DecodeErrorModel, Message,
    RawTransaction, SignerInfo, TxnInfo, TxnInfoModel, TxnReceiptInfo,
};
use crate::wide::{mul_u128_u64, pow128, U256};

verus! {

/// Type URL of a CosmWasm contract execution message.
pub const EXECUTE_CONTRACT_TYPE_URL: &'static str = "/cosmwasm.wasm.v1.MsgExecuteContract";

/// Decimal exponent of the atto unit in which fees are normalized.
pub const ATTO_EXPONENT: u32 = 18;

/// Whether a signer's derived account is the fee payer.
pub open spec fn is_payer(m: Result<((Seq<char>, Seq<u8>), u64), DecodeErrorModel>, payer: (Seq<char>, Seq<u8>)) -> bool {
    m matches Ok((a, _)) && a == payer
}

/// Position of the first entry from `i` on whose account is the payer, or else 0.
pub open spec fn payer_position(s: Seq<Result<((Seq<char>, Seq<u8>), u64), DecodeErrorModel>>, payer: (Seq<char>, Seq<u8>), i: int) -> int
    decreases s.len() - i,
{
    if i >= s.len() || i < 0 {
        0
    } else if is_payer(s[i], payer) {
        i
    } else {
        payer_position(s, payer, i + 1)
    }
}

/// The account and nonce derived from each signer.
pub open spec fn signer_results(infos: Seq<SignerInfo>, prefix: Seq<char>) -> Seq<Result<((Seq<char>, Seq<u8>), u64), DecodeErrorModel>> {
    Seq::new(infos.len(), |j: int| signer_account(signer_key_model(infos[j]), infos[j].sequence, prefix))
}

/// The signer chosen for a fee payer: the first whose account is the payer, else the first.
pub open spec fn payer_choice(infos: Seq<SignerInfo>, payer: (Seq<char>, Seq<u8>), prefix: Seq<char>) -> Result<((Seq<char>, Seq<u8>), u64), DecodeErrorModel> {
    if infos.len() == 0 {
        Err(DecodeErrorModel::NoSignerInfo)
    } else {
        signer_results(infos, prefix)[payer_position(signer_results(infos, prefix), payer, 0)]
    }
}

/// The sending account and nonce of a transaction.
pub open spec fn sender_account(tx: RawTransaction, prefix: Seq<char>) -> Result<((Seq<char>, Seq<u8>), u64), DecodeErrorModel> {
    match tx.fee.payer {
        Some(p) => payer_choice(tx.signer_infos@, p@, prefix),
        None => if tx.signer_infos@.len() == 0 {
            Err(DecodeErrorModel::NoSignerInfo)
        } else {
            signer_results(tx.signer_infos@, prefix)[0]
        },
    }
}

/// Account bytes as a 32-byte digest, left-padded with zeros.
pub open spec fn address_digest(bytes: Seq<u8>) -> Option<Seq<u8>> {
    if bytes.len() <= 32 {
        Some(Seq::new((32 - bytes.len()) as nat, |i: int| 0u8) + bytes)
    } else {
        None
    }
}

/// The sender digest and nonce of a transaction.
pub open spec fn sender_and_nonce_of(tx: RawTransaction, prefix: Seq<char>) -> Result<(Seq<u8>, u64), DecodeErrorModel> {
    match sender_account(tx, prefix) {
        Err(e) => Err(e),
        Ok(((_, b), n)) => match address_digest(b) {
            Some(d) => Ok((d, n)),
            None => Err(DecodeErrorModel::AddressDerivationError),
        },
    }
}

/// Whether a message executes a contract.
pub open spec fn is_contract_message(m: Message) -> bool {
    m.type_url@ == EXECUTE_CONTRACT_TYPE_URL@
}

/// The number of contract execution messages.
pub open spec fn contract_message_count(msgs: Seq<Message>) -> nat
    decreases msgs.len(),
{
    if msgs.len() == 0 {
        0
    } else {
        contract_message_count(msgs.drop_last()) + if is_contract_message(msgs.last()) { 1nat } else { 0nat }
    }
}

/// The contract digest addressed by one contract execution message.
pub open spec fn contract_of_message(m: Message) -> Result<Seq<u8>, DecodeErrorModel> {
    match execute_contract_target(m.value@) {
        None => Err(DecodeErrorModel::MalformedContractMessage),
        Some(b) => match address_digest(b) {
            Some(d) => Ok(d),
            None => Err(DecodeErrorModel::AddressDerivationError),
        },
    }
}

/// The contract digest of a transaction's messages: there must be exactly one contract
/// execution message.
pub open spec fn contract_of(msgs: Seq<Message>) -> Result<Seq<u8>, DecodeErrorModel> {
    if contract_message_count(msgs) == 0 {
        Err(DecodeErrorModel::NoContractMessage)
    } else if contract_message_count(msgs) > 1 {
        Err(DecodeErrorModel::MultipleContractMessages)
    } else {
        contract_of_message(
            msgs[choose|k: int| 0 <= k < msgs.len() && is_contract_message(#[trigger] msgs[k])],
        )
    }
}

/// The first error that decoding a fetched transaction meets, if any.
pub open spec fn decode_error(tx: RawTransaction, conf: ConnectionConf, hash: Seq<u8>, received: Seq<u8>) -> Option<DecodeErrorModel> {
    if hash != received {
        Some(DecodeErrorModel::HashMismatch)
    } else if contract_of(tx.messages@) is Err {
        Some(contract_of(tx.messages@)->Err_0)
    } else if sender_and_nonce_of(tx, conf.bech32_prefix@) is Err {
        Some(sender_and_nonce_of(tx, conf.bech32_prefix@)->Err_0)
    } else if unsupported_denominations(tx.fee.amount@, conf.native_denom@).len() > 0 {
        Some(DecodeErrorModel::UnsupportedFeeDenomination(unsupported_denominations(tx.fee.amount@, conf.native_denom@)))
    } else if tx.fee.gas_limit == 0 {
        Some(DecodeErrorModel::ZeroGasLimit)
    } else {
        None
    }
}

/// The description of a fetched transaction, or the first error that decoding it meets.
pub open spec fn decoded_txn(tx: RawTransaction, conf: ConnectionConf, hash: Seq<u8>, received: Seq<u8>, gas_wanted: u64, gas_used: u64) -> Result<TxnInfoModel, DecodeErrorModel> {
    match decode_error(tx, conf, hash, received) {
        Some(e) => Err(e),
        None => {
            let price = gas_price_of(total_fee(tx.fee.amount@, conf), tx.fee.gas_limit as nat);
            Ok(TxnInfoModel {
                hash,
                gas_limit: gas_wanted as nat,
                gas_price: price,
                nonce: sender_and_nonce_of(tx, conf.bech32_prefix@)->Ok_0.1,
                sender: sender_and_nonce_of(tx, conf.bech32_prefix@)->Ok_0.0,
                recipient: contract_of(tx.messages@)->Ok_0,
                gas_used: gas_used as nat,
                cumulative_gas_used: gas_used as nat,
                effective_gas_price: price,
                zero_gas_price_raised: total_fee(tx.fee.amount@, conf) / (tx.fee.gas_limit as nat) == 0,
            })
        },
    }
}

/// A sequence of results seen through views.
pub open spec fn bytes_result_view(r: Result<Vec<u8>, DecodeError>) -> Result<Seq<u8>, DecodeErrorModel> {
    match r {
        Ok(v) => Ok(v@),
        Err(e) => Err(e@),
    }
}

/// A decoded transaction seen through views.
pub open spec fn txn_result_view(r: Result<TxnInfo, DecodeError>) -> Result<TxnInfoModel, DecodeErrorModel> {
    match r {
        Ok(t) => Ok(t@),
        Err(e) => Err(e@),
    }
}

/// Whether an entry holds the payer's account.
pub fn is_payer_entry(e: &Result<(AccountId, u64), DecodeError>, payer: &AccountId) -> (r: bool)
    ensures
        r == is_payer(account_result_view(*e), payer@),
{
    match e {
        Ok((a, _)) => a.prefix == payer.prefix && bytes_equal(&a.bytes, &payer.bytes),
        Err(_) => false,
    }
}

fn bytes_equal(a: &Vec<u8>, b: &Vec<u8>) -> (r: bool)
    ensures
        r == (a@ == b@),
{
    if a.len() != b.len() {
        return false;
    }
    let mut i: usize = 0;
    while i < a.len()
        invariant
            a.len() == b.len(),
            i <= a.len(),
            forall|j: int| 0 <= j < i ==> a@[j] == b@[j],
        decreases a.len() - i,
    {
        if a[i] != b[i] {
            return false;
        }
        i = i + 1;
    }
    proof {
        assert(a@ =~= b@);
    }
    true
}

/// The 32-byte digest of account bytes, left-padded with zeros.
pub fn digest_of_account_bytes(bytes: &Vec<u8>) -> (r: Option<Vec<u8>>)
    ensures
        match r {
            Some(d) => address_digest(bytes@) == Some(d@),
            None => address_digest(bytes@) is None,
        },
{
    if bytes.len() > 32 {
        return None;
    }
    let pad: usize = 32 - bytes.len();
    let mut d: Vec<u8> = Vec::new();
    let mut i: usize = 0;
    while i < 32
        invariant
            pad + bytes.len() == 32,
            i <= 32,
            d@.len() == i,
            forall|j: int| 0 <= j < i ==> #[trigger] d@[j] == if j < pad { 0u8 } else { bytes@[j - pad] },
        decreases 32 - i,
    {
        if i < pad {
            d.push(0u8);
        } else {
            d.push(bytes[i - pad]);
        }
        i = i + 1;
    }
    proof {
        assert(d@ =~= Seq::new(pad as nat, |i: int| 0u8) + bytes@);
    }
    Some(d)
}

/// Searches the signers for the fee payer: the first signer whose account is the payer, or
/// else the first signer, whatever its outcome.
pub fn search_payer_in_signer_infos(signer_infos: &Vec<SignerInfo>, payer: &AccountId, prefix: &String) -> (r: Result<(AccountId, u64), DecodeError>)
    ensures
        account_result_view(r) == payer_choice(signer_infos@, payer@, prefix@),
{
    let mut entries: Vec<Result<(AccountId, u64), DecodeError>> = Vec::new();
    let mut i: usize = 0;
    while i < signer_infos.len()
        invariant
            i <= signer_infos.len(),
            entries@.len() == i,
            forall|j: int| 0 <= j < i ==> #[trigger] account_result_view(entries@[j]) == signer_results(signer_infos@, prefix@)[j],
        decreases signer_infos.len() - i,
    {
        let e = convert_signer_info_into_account_id_and_nonce(&signer_infos[i], prefix);
        entries.push(e);
        i = i + 1;
    }
    proof {
        assert(entries@.map_values(|e| account_result_view(e)) =~= signer_results(signer_infos@, prefix@));
    }
    match find_payer_or_first(entries, payer) {
        Some(e) => {
            proof {
                let results = signer_results(signer_infos@, prefix@);
                lemma_payer_position_bounds(results, payer@, 0);
                assert(account_result_view(e) == results[payer_position(results, payer@, 0)]);
            }
            e
        },
        None => Err(DecodeError::NoSignerInfo),
    }
}

proof fn lemma_payer_position_bounds(s: Seq<Result<((Seq<char>, Seq<u8>), u64), DecodeErrorModel>>, payer: (Seq<char>, Seq<u8>), i: int)
    requires
        0 <= i,
        s.len() > 0,
    ensures
        0 <= payer_position(s, payer, i) < s.len(),
    decreases s.len() - i,
{
    if i < s.len() && !is_payer(s[i], payer) {
        lemma_payer_position_bounds(s, payer, i + 1);
    }
}

/// 10 to the power `e`.
pub open spec fn pow10(e: nat) -> nat
    decreases e,
{
    if e == 0 {
        1
    } else {
        10 * pow10((e - 1) as nat)
    }
}

/// The value of a coin in atto units of the native token; zero in any other denomination.
pub open spec fn normalized_fee(coin: Coin, conf: ConnectionConf) -> nat {
    if coin.denom@ == conf.native_denom@ {
        (coin.amount as nat) * pow10((ATTO_EXPONENT - conf.native_decimals) as nat)
    } else {
        0
    }
}

/// The sum of the normalized values of the coins.
pub open spec fn total_fee(coins: Seq<Coin>, conf: ConnectionConf) -> nat
    decreases coins.len(),
{
    if coins.len() == 0 {
        0
    } else {
        total_fee(coins.drop_last(), conf) + normalized_fee(coins.last(), conf)
    }
}

/// The denominations of the coins that are not the native one, in order.
pub open spec fn unsupported_denominations(coins: Seq<Coin>, native: Seq<char>) -> Seq<Seq<char>>
    decreases coins.len(),
{
    if coins.len() == 0 {
        Seq::empty()
    } else if coins.last().denom@ == native {
        unsupported_denominations(coins.drop_last(), native)
    } else {
        unsupported_denominations(coins.drop_last(), native).push(coins.last().denom@)
    }
}

/// The gas price of a fee spread over a gas limit, with a zero price raised to one.
pub open spec fn gas_price_of(fee: nat, gas_limit: nat) -> nat {
    if fee / gas_limit == 0 {
        1
    } else {
        fee / gas_limit
    }
}

proof fn lemma_pow10_bound(e: nat)
    requires
        e <= 18,
    ensures
        1 <= pow10(e) <= pow10(18),
        pow10(18) == 1_000_000_000_000_000_000,
    decreases e,
{
    reveal_with_fuel(pow10, 19);
    if e > 0 {
        lemma_pow10_bound((e - 1) as nat);
        lemma_pow10_mono((e - 1) as nat, 17);
        assert(pow10(17) == 100_000_000_000_000_000);
    }
}

proof fn lemma_pow10_mono(a: nat, b: nat)
    requires
        a <= b,
    ensures
        pow10(a) <= pow10(b),
    decreases b,
{
    if a < b {
        lemma_pow10_mono(a, (b - 1) as nat);
    }
}

proof fn lemma_total_fee_bound(coins: Seq<Coin>, conf: ConnectionConf)
    requires
        conf.wf(),
    ensures
        total_fee(coins, conf) <= coins.len() * (pow128() * 0x1_0000_0000_0000_0000),
    decreases coins.len(),
{
    if coins.len() > 0 {
        lemma_total_fee_bound(coins.drop_last(), conf);
        let e = (ATTO_EXPONENT - conf.native_decimals) as nat;
        lemma_pow10_bound(e);
        let a = coins.last().amount as nat;
        let p = pow10(e);
        assert(a * p <= pow128() * 0x1_0000_0000_0000_0000) by (nonlinear_arith)
            requires
                a < pow128(),
                p <= 1_000_000_000_000_000_000,
        ;
        assert((coins.len() - 1) * (pow128() * 0x1_0000_0000_0000_0000) + pow128() * 0x1_0000_0000_0000_0000
            == coins.len() * (pow128() * 0x1_0000_0000_0000_0000)) by (nonlinear_arith);
    }
}

/// Reads and decides on the fields of Cosmos transactions and blocks for one chain.
pub struct CosmosProvider {
    pub connection_conf: ConnectionConf,
}

impl CosmosProvider {
    /// A provider for a chain whose native token has at most 18 decimals.
    pub fn new(conf: ConnectionConf) -> (r: Option<CosmosProvider>)
        ensures
            match r {
                Some(p) => p.connection_conf == conf && conf.wf(),
                None => !conf.wf(),
            },
    {
        if conf.native_decimals > ATTO_EXPONENT {
            None
        } else {
            Some(CosmosProvider { connection_conf: conf })
        }
    }

    pub open spec fn wf(&self) -> bool {
        self.connection_conf.wf()
    }

    /// The sender of a transaction, as a 32-byte digest, and its nonce. The sender is the
    /// fee payer where the fee names one, searched for among the signers; otherwise the
    /// first signer.
    pub fn sender_and_nonce(&self, tx: &RawTransaction) -> (r: Result<(Vec<u8>, u64), DecodeError>)
        ensures
            match r {
                Ok((d, n)) => sender_and_nonce_of(*tx, self.connection_conf.bech32_prefix@) == Ok::<(Seq<u8>, u64), DecodeErrorModel>((d@, n)),
                Err(e) => sender_and_nonce_of(*tx, self.connection_conf.bech32_prefix@) == Err::<(Seq<u8>, u64), DecodeErrorModel>(e@),
            },
    {
        let prefix = &self.connection_conf.bech32_prefix;
        let found = match &tx.fee.payer {
            Some(payer) => search_payer_in_signer_infos(&tx.signer_infos, payer, prefix),
            None => {
                if tx.signer_infos.len() == 0 {
                    return Err(DecodeError::NoSignerInfo);
                }
                convert_signer_info_into_account_id_and_nonce(&tx.signer_infos[0], prefix)
            },
        };
        match found {
            Err(e) => Err(e),
            Ok((account, nonce)) => match digest_of_account_bytes(&account.bytes) {
                Some(d) => Ok((d, nonce)),
                None => Err(DecodeError::AddressDerivationError),
            },
        }
    }

    /// The digest of the contract that the transaction's only contract execution message
    /// addresses.
    pub fn contract(tx: &RawTransaction) -> (r: Result<Vec<u8>, DecodeError>)
        ensures
            bytes_result_view(r) == contract_of(tx.messages@),
    {
        let msgs = &tx.messages;
        let mut count: usize = 0;
        let mut first: usize = 0;
        let mut i: usize = 0;
        while i < msgs.len()
            invariant
                i <= msgs.len(),
                count <= i,
                count == contract_message_count(msgs@.take(i as int)),
                count >= 1 ==> first < i && is_contract_message(msgs@[first as int]),
                count == 0 ==> forall|j: int| 0 <= j < i ==> !is_contract_message(#[trigger] msgs@[j]),
                count == 1 ==> forall|j: int| 0 <= j < i && is_contract_message(#[trigger] msgs@[j]) ==> j == first,
            decreases msgs.len() - i,
        {
            proof {
                assert(msgs@.take(i + 1).drop_last() =~= msgs@.take(i as int));
            }
            if eq_url(&msgs[i].type_url) {
                if count == 0 {
                    first = i;
                }
                count = count + 1;
            }
            i = i + 1;
        }
        proof {
            assert(msgs@.take(msgs@.len() as int) =~= msgs@);
        }
        if count > 1 {
            return Err(DecodeError::MultipleContractMessages);
        }
        if count == 0 {
            return Err(DecodeError::NoContractMessage);
        }
        proof {
            assert(is_contract_message(msgs@[first as int]));
        }
        match execute_contract_from_any(&msgs[first].value) {
            None => Err(DecodeError::MalformedContractMessage),
            Some(b) => match digest_of_account_bytes(&b) {
                Some(d) => Ok(d),
                None => Err(DecodeError::AddressDerivationError),
            },
        }
    }

    /// Fails when the fee holds coins in a denomination other than the native one, naming
    /// those denominations in order.
    pub fn report_unsupported_denominations(&self, tx: &RawTransaction) -> (r: Result<(), DecodeError>)
        ensures
            unsupported_denominations(tx.fee.amount@, self.connection_conf.native_denom@).len() == 0 <==> r is Ok,
            r matches Err(e) ==> e@ == DecodeErrorModel::UnsupportedFeeDenomination(
                unsupported_denominations(tx.fee.amount@, self.connection_conf.native_denom@),
            ),
    {
        let coins = &tx.fee.amount;
        let native = &self.connection_conf.native_denom;
        let mut denoms: Vec<String> = Vec::new();
        let mut i: usize = 0;
        while i < coins.len()
            invariant
                i <= coins.len(),
                denoms@.map_values(|d: String| d@) == unsupported_denominations(coins@.take(i as int), native@),
            decreases coins.len() - i,
        {
            proof {
                assert(coins@.take(i + 1).drop_last() =~= coins@.take(i as int));
            }
            if coins[i].denom != *native {
                denoms.push(coins[i].denom.clone());
                proof {
                    assert(denoms@.map_values(|d: String| d@) =~= unsupported_denominations(coins@.take(i + 1), native@));
                }
            }
            i = i + 1;
        }
        proof {
            assert(coins@.take(coins@.len() as int) =~= coins@);
        }
        if denoms.len() == 0 {
            Ok(())
        } else {
            Err(DecodeError::UnsupportedFeeDenomination { denoms })
        }
    }

    /// The value of a coin in atto units of the native token; zero in any other denomination.
    pub fn convert_fee(&self, coin: &Coin) -> (r: U256)
        requires
            self.wf(),
        ensures
            r.value() == normalized_fee(*coin, self.connection_conf),
    {
        if coin.denom != self.connection_conf.native_denom {
            return U256::zero();
        }
        let exponent: u32 = ATTO_EXPONENT - self.connection_conf.native_decimals;
        let mut coefficient: u64 = 1;
        let mut i: u32 = 0;
        while i < exponent
            invariant
                exponent <= 18,
                i <= exponent,
                coefficient == pow10(i as nat),
            decreases exponent - i,
        {
            proof {
                lemma_pow10_bound((i + 1) as nat);
            }
            coefficient = coefficient * 10;
            i = i + 1;
        }
        mul_u128_u64(coin.amount, coefficient)
    }

    /// The sum of the normalized values of the fee's coins.
    pub fn total_fee(&self, coins: &Vec<Coin>) -> (r: U256)
        requires
            self.wf(),
        ensures
            r.value() == total_fee(coins@, self.connection_conf),
    {
        let mut total = U256::zero();
        let mut i: usize = 0;
        while i < coins.len()
            invariant
                self.wf(),
                i <= coins.len(),
                total.value() == total_fee(coins@.take(i as int), self.connection_conf),
            decreases coins.len() - i,
        {
            proof {
                assert(coins@.take(i + 1).drop_last() =~= coins@.take(i as int));
                lemma_total_fee_bound(coins@.take(i + 1), self.connection_conf);
                let b = pow128() * 0x1_0000_0000_0000_0000;
                assert((i + 1) * b < pow128() * pow128()) by (nonlinear_arith)
                    requires
                        i + 1 <= usize::MAX,
                        b == pow128() * 0x1_0000_0000_0000_0000,
                        pow128() == 0x1_0000_0000_0000_0000 * 0x1_0000_0000_0000_0000,
                ;
            }
            let v = self.convert_fee(&coins[i]);
            total = total.add(&v);
            i = i + 1;
        }
        proof {
            assert(coins@.take(coins@.len() as int) =~= coins@);
        }
        total
    }

    /// The gas price of a fee spread over a gas limit, with whether a zero price was raised
    /// to one.
    pub fn gas_price(fee: &U256, gas_limit: u64) -> (r: (U256, bool))
        requires
            gas_limit > 0,
        ensures
            r.0.value() == gas_price_of(fee.value(), gas_limit as nat),
            r.1 == (fee.value() / (gas_limit as nat) == 0),
    {
        let price = fee.div_u64(gas_limit);
        if price.is_zero() {
            (U256::one(), true)
        } else {
            (price, false)
        }
    }

    /// Decodes a fetched transaction: checks that it has the requested hash, then finds its
    /// contract, sender and nonce, checks the fee denominations and derives the gas price.
    pub fn decode_transaction(&self, hash: &Vec<u8>, received_hash: &Vec<u8>, tx: &RawTransaction, gas_wanted: u64, gas_used: u64) -> (r: Result<TxnInfo, DecodeError>)
        requires
            self.wf(),
        ensures
            txn_result_view(r) == decoded_txn(*tx, self.connection_conf, hash@, received_hash@, gas_wanted, gas_used),
    {
        if !bytes_equal(hash, received_hash) {
            return Err(DecodeError::HashMismatch);
        }
        let contract = match Self::contract(tx) {
            Ok(c) => c,
            Err(e) => return Err(e),
        };
        let (sender, nonce) = match self.sender_and_nonce(tx) {
            Ok(v) => v,
            Err(e) => return Err(e),
        };
        match self.report_unsupported_denominations(tx) {
            Ok(()) => {},
            Err(e) => return Err(e),
        }
        if tx.fee.gas_limit == 0 {
            return Err(DecodeError::ZeroGasLimit);
        }
        let fee = self.total_fee(&tx.fee.amount);
        let (gas_price, zero_gas_price_raised) = Self::gas_price(&fee, tx.fee.gas_limit);
        Ok(TxnInfo {
            hash: copy_bytes(hash),
            gas_limit: U256::from_u64(gas_wanted),
            gas_price,
            nonce,
            sender,
            recipient: contract,
            receipt: TxnReceiptInfo {
                gas_used: U256::from_u64(gas_used),
                cumulative_gas_used: U256::from_u64(gas_used),
                effective_gas_price: gas_price,
            },
            zero_gas_price_raised,
        })
    }

    /// Checks that a fetched block has the requested hash and gives its hash, time in unix
    /// seconds (a time before 1970 wraps round) and height.
    pub fn extract_block_info(hash: &Vec<u8>, received_hash: &Vec<u8>, header: Option<(i64, u64)>) -> (r: Result<BlockInfo, DecodeError>)
        ensures
            hash@ != received_hash@ ==> r matches Err(DecodeError::HashMismatch),
            hash@ == received_hash@ && header is None ==> r matches Err(DecodeError::EmptyBlock),
            hash@ == received_hash@ && header is Some ==> (r matches Ok(b) && b.hash@ == hash@
                && b.number == header.unwrap().1 && b.timestamp == (if header.unwrap().0 >= 0 {
                    header.unwrap().0 as int
                } else {
                    header.unwrap().0 + 0x1_0000_0000_0000_0000
                })),
    {
        if !bytes_equal(hash, received_hash) {
            return Err(DecodeError::HashMismatch);
        }
        match header {
            None => Err(DecodeError::EmptyBlock),
            Some((t, h)) => {
                let timestamp: u64 = if t >= 0 {
                    t as u64
                } else {
                    ((t + i64::MAX + 1) as u64) + (i64::MAX as u64) + 1
                };
                Ok(BlockInfo { hash: copy_bytes(hash), timestamp, number: h })
            },
        }
    }
}

fn copy_bytes(b: &Vec<u8>) -> (r: Vec<u8>)
    ensures
        r@ == b@,
{
    let r = crate::keys::copy_range(b, 0, b.len());
    proof {
        assert(r@ =~= b@);
    }
    r
}

fn eq_url(url: &String) -> (r: bool)
    ensures
        r == (url@ == EXECUTE_CONTRACT_TYPE_URL@),
{
    *url == EXECUTE_CONTRACT_TYPE_URL.to_owned()
}

} // verus!
