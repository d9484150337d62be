//! The calls that the daemon makes to a full node, and what it reads in the answers.
use vstd::prelude::*;

use crate::auto_shield::state::texts;

verus! {

/// A parameter of a call.
#[derive(Debug, Clone, PartialEq, Eq)]
pub enum RpcParam {
    Number(u32),
    Text(String),
}

/// A call of one of the node's methods.
#[derive(Debug, Clone, PartialEq, Eq)]
pub struct RpcCall {
    pub method: String,
    pub params: Vec<RpcParam>,
}

pub enum RpcParamModel {
    Number(u32),
    Text(Seq<char>),
}

pub struct RpcCallModel {
    pub method: Seq<char>,
    pub params: Seq<RpcParamModel>,
}

impl View for RpcParam {
    type V = RpcParamModel;

    open spec fn view(&self) -> RpcParamModel {
        match *self {
            RpcParam::Number(number) => RpcParamModel::Number(number),
            RpcParam::Text(text) => RpcParamModel::Text(text@),
        }
    }
}

impl View for RpcCall {
    type V = RpcCallModel;

    open spec fn view(&self) -> RpcCallModel {
        RpcCallModel {
            method: self.method@,
            params: Seq::new(self.params@.len(), |i: int| self.params@[i]@),
        }
    }
}

/// Asks for the height of the tip.
pub fn block_count() -> (call: RpcCall)
    ensures
        call@ == (RpcCallModel { method: "getblockcount"@, params: seq![] }),
{
    let call = RpcCall { method: "getblockcount".to_owned(), params: Vec::new() };
    assert(call@.params == Seq::<RpcParamModel>::empty());
    call
}

/// Asks for the hash of the block at `height`.
pub fn block_hash(height: u32) -> (call: RpcCall)
    ensures
        call@ == (RpcCallModel {
            method: "getblockhash"@,
            params: seq![RpcParamModel::Number(height)],
        }),
{
    let call = RpcCall {
        method: "getblockhash".to_owned(),
        params: vec![RpcParam::Number(height)],
    };
    assert(call@.params == seq![RpcParamModel::Number(height)]);
    call
}

/// Asks for the block with the given hash, with its transactions written out.
pub fn block(hash: &str) -> (call: RpcCall)
    ensures
        call@ == (RpcCallModel {
            method: "getblock"@,
            params: seq![RpcParamModel::Text(hash@), RpcParamModel::Number(2)],
        }),
{
    let call = RpcCall {
        method: "getblock".to_owned(),
        params: vec![RpcParam::Text(hash.to_owned()), RpcParam::Number(2)],
    };
    assert(call@.params == seq![RpcParamModel::Text(hash@), RpcParamModel::Number(2)]);
    call
}

/// An error that the node reports.
#[derive(Debug, Clone, PartialEq, Eq)]
pub struct RpcError {
    pub code: i64,
    pub message: String,
}

/// The node's answer to a call.
#[derive(Debug, Clone)]
pub struct RpcResponse<T> {
    pub result: Option<T>,
    pub error: Option<RpcError>,
}

/// Why a call failed.
#[derive(Debug, Clone, PartialEq, Eq)]
pub enum RpcFailure {
    /// The HTTP status is not one of success.
    Http { status: u16 },
    /// The node reports an error.
    Node(RpcError),
    /// The answer holds neither an error nor a result.
    NoResult,
}

/// Whether an HTTP status is one of success.
pub open spec fn is_success(status: u16) -> bool {
    200 <= status < 300
}

/// Refuses an answer by its HTTP status.
pub fn check_status(status: u16) -> (checked: Result<(), RpcFailure>)
    ensures
        checked == (if is_success(status) {
            Ok::<(), RpcFailure>(())
        } else {
            Err(RpcFailure::Http { status })
        }),
{
    if 200 <= status && status < 300 {
        Ok(())
    } else {
        Err(RpcFailure::Http { status })
    }
}

/// The result that an answer holds: an error counts before a result.
pub fn call_result<T>(response: RpcResponse<T>) -> (result: Result<T, RpcFailure>)
    ensures
        result == (match (response.error, response.result) {
            (Some(error), _) => Err::<T, RpcFailure>(RpcFailure::Node(error)),
            (None, Some(value)) => Ok(value),
            (None, None) => Err(RpcFailure::NoResult),
        }),
{
    match response.error {
        Some(error) => Err(RpcFailure::Node(error)),
        None => match response.result {
            Some(value) => Ok(value),
            None => Err(RpcFailure::NoResult),
        },
    }
}

/// A block, as far as the daemon reads it.
#[derive(Debug, Clone)]
pub struct BlockResult {
    pub hash: String,
    pub height: u32,
    pub tx: Vec<BlockTx>,
}

#[derive(Debug, Clone)]
pub struct BlockTx {
    pub vout: Vec<BlockVout>,
}

#[derive(Debug, Clone)]
pub struct BlockVout {
    pub value_zat: i64,
    pub script_pub_key: ScriptPubKey,
}

#[derive(Debug, Clone)]
pub struct ScriptPubKey {
    pub addresses: Option<Vec<String>>,
}

/// An output of a coinbase transaction.
#[derive(Debug, Clone)]
pub struct CoinbaseOutput {
    pub value_zat: i64,
    pub addresses: Vec<String>,
}

pub struct OutputModel {
    pub value_zat: i64,
    pub addresses: Seq<Seq<char>>,
}

impl View for CoinbaseOutput {
    type V = OutputModel;

    open spec fn view(&self) -> OutputModel {
        OutputModel { value_zat: self.value_zat, addresses: texts(self.addresses@) }
    }
}

pub open spec fn outputs_view(outputs: Seq<CoinbaseOutput>) -> Seq<OutputModel> {
    Seq::new(outputs.len(), |i: int| outputs[i]@)
}

impl BlockVout {
    /// The output with no addresses where the script names none.
    pub open spec fn output(self) -> OutputModel {
        OutputModel {
            value_zat: self.value_zat,
            addresses: match self.script_pub_key.addresses {
                Some(addresses) => texts(addresses@),
                None => Seq::empty(),
            },
        }
    }
}

fn copy_texts(strings: &Vec<String>) -> (copy: Vec<String>)
    ensures
        texts(copy@) == texts(strings@),
{
    let mut copy: Vec<String> = Vec::new();
    let mut i: usize = 0;
    while i < strings.len()
        invariant
            i <= strings@.len(),
            copy@ == strings@.take(i as int),
        decreases strings@.len() - i,
    {
        copy.push(strings[i].clone());
        i += 1;
    }
    assert(copy@ == strings@);
    copy
}

impl BlockResult {
    /// The outputs of the block's first transaction.
    pub open spec fn coinbase_outputs(self) -> Seq<OutputModel> {
        if self.tx@.len() == 0 {
            Seq::empty()
        } else {
            let vout = self.tx@[0].vout@;
            Seq::new(vout.len(), |i: int| vout[i].output())
        }
    }

    /// The outputs of the coinbase transaction, which is the first of the block.
    pub fn coinbase_addresses(&self) -> (outputs: Vec<CoinbaseOutput>)
        ensures
            outputs_view(outputs@) == self.coinbase_outputs(),
    {
        let mut outputs: Vec<CoinbaseOutput> = Vec::new();
        if self.tx.len() == 0 {
            assert(outputs_view(outputs@) == Seq::<OutputModel>::empty());
            return outputs;
        }
        let vout = &self.tx[0].vout;
        let mut i: usize = 0;
        while i < vout.len()
            invariant
                i <= vout@.len(),
                self.tx@.len() > 0,
                vout == self.tx@[0].vout,
                outputs@.len() == i,
                forall|j: int| 0 <= j < i ==> (#[trigger] outputs@[j])@ == vout@[j].output(),
            decreases vout@.len() - i,
        {
            let addresses: Vec<String> = match &vout[i].script_pub_key.addresses {
                Some(addresses) => copy_texts(addresses),
                None => Vec::new(),
            };
            assert(texts(addresses@) == vout@[i as int].output().addresses);
            outputs.push(CoinbaseOutput { value_zat: vout[i].value_zat, addresses });
            i += 1;
        }
        assert(outputs_view(outputs@) == self.coinbase_outputs());
        outputs
    }
}

impl OutputModel {
    pub open spec fn pays(self, address: Seq<char>) -> bool {
        self.addresses.contains(address)
    }
}

impl CoinbaseOutput {
    /// Whether the output pays to `address`.
    pub fn pays(&self, address: &str) -> (paid: bool)
        ensures
            paid == self@.pays(address@),
    {
        let wanted = address.to_owned();
        let mut i: usize = 0;
        while i < self.addresses.len()
            invariant
                i <= self.addresses@.len(),
                wanted@ == address@,
                forall|j: int| 0 <= j < i ==> (#[trigger] self@.addresses[j]) != address@,
            decreases self.addresses@.len() - i,
        {
            if self.addresses[i] == wanted {
                assert(self@.addresses[i as int] == address@);
                return true;
            }
            i += 1;
        }
        false
    }
}

/// Whether one of the outputs pays to `address`.
pub open spec fn is_paid(outputs: Seq<OutputModel>, address: Seq<char>) -> bool {
    exists|i: int| 0 <= i < outputs.len() && (#[trigger] outputs[i]).pays(address)
}

/// The value that the outputs pay to `address` together.
pub open spec fn paid_value(outputs: Seq<OutputModel>, address: Seq<char>) -> int
    decreases outputs.len(),
{
    if outputs.len() == 0 {
        0
    } else {
        let before = paid_value(outputs.drop_last(), address);
        if outputs.last().pays(address) {
            before + outputs.last().value_zat
        } else {
            before
        }
    }
}

/// Whether the outputs can be added up one by one in 64 bits.
pub open spec fn value_fits(outputs: Seq<OutputModel>, address: Seq<char>) -> bool {
    forall|count: int|
        0 <= count <= outputs.len() ==> i64::MIN <= #[trigger] paid_value(
            outputs.take(count),
            address,
        ) <= i64::MAX
}

/// What a block pays to an address.
#[derive(Debug, Clone, Copy, PartialEq, Eq, Structural)]
pub enum Payout {
    /// No output pays to the address.
    Absent,
    /// The sum of the outputs that pay to the address.
    Value { value_zat: i64 },
    /// The sum does not fit in 64 bits.
    Overflow,
}

/// What the outputs pay to `address`.
pub open spec fn payout(outputs: Seq<OutputModel>, address: Seq<char>) -> Payout {
    if !is_paid(outputs, address) {
        Payout::Absent
    } else if value_fits(outputs, address) {
        Payout::Value { value_zat: paid_value(outputs, address) as i64 }
    } else {
        Payout::Overflow
    }
}

/// Adds up what the outputs pay to `address`.
pub fn payout_to(outputs: &Vec<CoinbaseOutput>, address: &str) -> (result: Payout)
    ensures
        result == payout(outputs_view(outputs@), address@),
{
    let ghost all = outputs_view(outputs@);
    let mut paid: bool = false;
    let mut value: i64 = 0;
    let mut i: usize = 0;
    assert(all.take(0).len() == 0);
    while i < outputs.len()
        invariant
            i <= outputs@.len(),
            all == outputs_view(outputs@),
            paid == is_paid(all.take(i as int), address@),
            value == paid_value(all.take(i as int), address@),
            forall|count: int|
                0 <= count <= i ==> i64::MIN <= #[trigger] paid_value(all.take(count), address@)
                    <= i64::MAX,
        decreases outputs@.len() - i,
    {
        let pays = outputs[i].pays(address);
        let ghost shorter = all.take(i as int);
        let ghost longer = all.take(i + 1);
        proof {
            assert(longer.drop_last() == shorter);
            assert(longer.last() == outputs@[i as int]@);
            if is_paid(shorter, address@) {
                let k = choose|k: int|
                    0 <= k < shorter.len() && (#[trigger] shorter[k]).pays(address@);
                assert(longer[k].pays(address@));
            }
            if is_paid(longer, address@) {
                let k = choose|k: int|
                    0 <= k < longer.len() && (#[trigger] longer[k]).pays(address@);
                if k < i {
                    assert(shorter[k].pays(address@));
                }
            }
            if pays {
                assert(longer[i as int].pays(address@));
            }
        }
        if pays {
            paid = true;
            match value.checked_add(outputs[i].value_zat) {
                Some(sum) => {
                    value = sum;
                },
                None => {
                    assert(all[i as int].pays(address@));
                    assert(!(i64::MIN <= paid_value(all.take(i + 1), address@) <= i64::MAX));
                    return Payout::Overflow;
                },
            }
        }
        i += 1;
    }
    assert(all.take(i as int) == all);
    if paid {
        Payout::Value { value_zat: value }
    } else {
        Payout::Absent
    }
}

} // verus!
