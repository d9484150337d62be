//! What holds of the results of reading a node's answers.
use vstd::prelude::*;

use crate::auto_shield::node::{
    block, block_count, block_hash, call_result, check_status, outputs_view, paid_value, payout,
    payout_to, value_fits, BlockResult, CoinbaseOutput, OutputModel, Payout, RpcCall, RpcFailure,
    RpcParam, RpcParamModel, RpcResponse,
};
use crate::auto_shield::node_laws::{
    a_reward_is_worth_what_is_paid, an_address_is_paid_where_it_is_named,
    only_outputs_to_the_address_count, other_outputs_do_not_matter, share,
};

verus! {

/// Whether an output names `address` among its addresses.
pub open spec fn pays_to(output: CoinbaseOutput, address: Seq<char>) -> bool {
    exists|j: int| 0 <= j < output.addresses@.len() && #[trigger] output.addresses@[j]@ == address
}

proof fn pays_iff_shown(output: CoinbaseOutput, address: Seq<char>)
    ensures
        pays_to(output, address) <==> output@.addresses.contains(address),
        share(output@, address) == (if pays_to(output, address) {
            output.value_zat as int
        } else {
            0
        }),
{
    if pays_to(output, address) {
        let j = choose|j: int|
            0 <= j < output.addresses@.len() && #[trigger] output.addresses@[j]@ == address;
        assert(output@.addresses[j] == address);
    }
    if output@.addresses.contains(address) {
        let j = choose|j: int| 0 <= j < output@.addresses.len() && output@.addresses[j] == address;
        assert(output.addresses@[j]@ == address);
    }
}

/// An output pays to exactly the addresses that it names.
pub proof fn an_output_pays_where_it_says(output: CoinbaseOutput, address: &str, paid: bool)
    requires
        call_ensures(CoinbaseOutput::pays, (&output, address), paid),
    ensures
        paid <==> pays_to(output, address@),
{
    pays_iff_shown(output, address@);
}

/// Nothing is paid without outputs. An output that does not name the address changes nothing,
/// wherever it stands among the others. One that does raises the value by its own, and is the
/// whole value where no other output names the address.
pub proof fn only_outputs_to_the_address_are_paid(
    outputs: Vec<CoinbaseOutput>,
    longer: Vec<CoinbaseOutput>,
    output: CoinbaseOutput,
    at: int,
    address: &str,
    result: Payout,
    longer_result: Payout,
)
    requires
        call_ensures(payout_to, (&outputs, address), result),
        call_ensures(payout_to, (&longer, address), longer_result),
        0 <= at <= outputs@.len(),
        longer@ == outputs@.insert(at, output),
    ensures
        outputs@.len() == 0 ==> result == Payout::Absent,
        !pays_to(output, address@) ==> longer_result == result,
        pays_to(output, address@) ==> longer_result != Payout::Absent,
        pays_to(output, address@) && result == Payout::Absent ==> longer_result == (
        Payout::Value { value_zat: output.value_zat }),
        pays_to(output, address@) ==> (longer_result matches Payout::Value { value_zat: sum } ==> (
        result matches Payout::Value { value_zat } ==> sum == value_zat + output.value_zat)),
{
    let before = outputs_view(outputs@);
    let after = outputs_view(longer@);
    assert(after == before.insert(at, output@)) by {
        assert forall|i: int| 0 <= i < after.len() implies after[i] == before.insert(
            at,
            output@,
        )[i] by {}
    }
    pays_iff_shown(output, address@);
    only_outputs_to_the_address_count(before, output@, at, address@);
    an_address_is_paid_where_it_is_named(before, address@);
    an_address_is_paid_where_it_is_named(after, address@);
    a_reward_is_worth_what_is_paid(before, address@);
    a_reward_is_worth_what_is_paid(after, address@);
    if !pays_to(output, address@) {
        other_outputs_do_not_matter(before, output@, at, address@);
    } else {
        let j = choose|j: int| 0 <= j < output@.addresses.len() && output@.addresses[j] == address@;
        assert(after[at] == output@);
        assert(after[at].addresses[j] == address@);
        if result == Payout::Absent {
            assert forall|count: int| 0 <= count <= after.len() implies i64::MIN
                <= #[trigger] paid_value(after.take(count), address@) <= i64::MAX by {
                if count <= at {
                    assert(after.take(count) == before.take(count));
                    nothing_is_paid(before, count, address@);
                } else {
                    assert(after.take(count) == before.take(count - 1).insert(at, output@));
                    only_outputs_to_the_address_count(
                        before.take(count - 1),
                        output@,
                        at,
                        address@,
                    );
                    nothing_is_paid(before, count - 1, address@);
                }
            }
            assert(value_fits(after, address@));
            nothing_is_paid(before, before.len() as int, address@);
            assert(before.take(before.len() as int) == before);
        }
    }
}

proof fn nothing_is_paid(outputs: Seq<OutputModel>, count: int, address: Seq<char>)
    requires
        payout(outputs, address) == Payout::Absent,
        0 <= count <= outputs.len(),
    ensures
        paid_value(outputs.take(count), address) == 0,
    decreases count,
{
    if count > 0 {
        nothing_is_paid(outputs, count - 1, address);
        assert(outputs.take(count).drop_last() == outputs.take(count - 1));
        assert(outputs.take(count).last() == outputs[count - 1]);
        an_address_is_paid_where_it_is_named(outputs, address);
        let last = outputs[count - 1];
        if last.addresses.contains(address) {
            let j = choose|j: int| 0 <= j < last.addresses.len() && last.addresses[j] == address;
            assert(outputs[count - 1].addresses[j] == address);
        }
    }
}

/// The outputs of a block are those of its first transaction, one for each and in their order,
/// with their values and their addresses.
pub proof fn the_outputs_are_those_of_the_first_transaction(
    found: BlockResult,
    outputs: Vec<CoinbaseOutput>,
    i: int,
    j: int,
)
    requires
        call_ensures(BlockResult::coinbase_addresses, (&found,), outputs),
    ensures
        found.tx@.len() == 0 ==> outputs@.len() == 0,
        found.tx@.len() > 0 ==> outputs@.len() == found.tx@[0].vout@.len(),
        found.tx@.len() > 0 && 0 <= i < outputs@.len() ==> {
            let vout = found.tx@[0].vout@[i];
            &&& outputs@[i].value_zat == vout.value_zat
            &&& match vout.script_pub_key.addresses {
                None => outputs@[i].addresses@.len() == 0,
                Some(addresses) => {
                    &&& outputs@[i].addresses@.len() == addresses@.len()
                    &&& 0 <= j < addresses@.len() ==> outputs@[i].addresses@[j]@
                        == addresses@[j]@
                },
            }
        },
{
    let shown = outputs_view(outputs@);
    assert(shown.len() == outputs@.len());
    if found.tx@.len() > 0 && 0 <= i < outputs@.len() {
        let vout = found.tx@[0].vout@[i];
        assert(shown[i] == vout.output());
        assert(shown[i].addresses.len() == outputs@[i].addresses@.len());
        if let Some(addresses) = vout.script_pub_key.addresses {
            if 0 <= j < addresses@.len() {
                assert(shown[i].addresses[j] == outputs@[i].addresses@[j]@);
            }
        }
    }
}

/// An answer is refused by its status exactly if the hundreds of the status are not two.
pub proof fn statuses_of_success_are_accepted(status: u16, checked: Result<(), RpcFailure>)
    requires
        call_ensures(check_status, (status,), checked),
    ensures
        checked is Ok <==> status / 100 == 2,
        checked matches Err(failure) ==> failure == (RpcFailure::Http { status }),
{
}

/// An answer with an error fails with it, whatever else it holds; one without gives its result,
/// and fails where it has none.
pub proof fn errors_count_before_results<T>(
    response: RpcResponse<T>,
    result: Result<T, RpcFailure>,
)
    requires
        call_ensures(call_result::<T>, (response,), result),
    ensures
        response.error matches Some(error) ==> (result matches Err(failure) && failure
            == RpcFailure::Node(error)),
        response.error is None && response.result is None ==> (result matches Err(failure)
            && failure == RpcFailure::NoResult),
        response.error is None ==> (response.result matches Some(value) ==> (result matches Ok(
            found,
        ) && found == value)),
{
}

/// The calls name the node's methods, and hand over the height, or the hash with the level of
/// detail that has the transactions written out.
pub proof fn calls_name_method_and_parameters(
    height: u32,
    hash: &str,
    count_call: RpcCall,
    hash_call: RpcCall,
    block_call: RpcCall,
)
    requires
        call_ensures(block_count, (), count_call),
        call_ensures(block_hash, (height,), hash_call),
        call_ensures(block, (hash,), block_call),
    ensures
        count_call.method@ == "getblockcount"@ && count_call.params@.len() == 0,
        hash_call.method@ == "getblockhash"@ && hash_call.params@.len() == 1,
        hash_call.params@[0]@ == RpcParamModel::Number(height),
        block_call.method@ == "getblock"@ && block_call.params@.len() == 2,
        block_call.params@[0]@ == RpcParamModel::Text(hash@),
        block_call.params@[1]@ == RpcParamModel::Number(2),
{
    assert(count_call@.params.len() == count_call.params@.len());
    assert(hash_call@.params.len() == hash_call.params@.len());
    assert(block_call@.params.len() == block_call.params@.len());
    assert(hash_call@.params[0] == hash_call.params@[0]@);
    assert(block_call@.params[0] == block_call.params@[0]@);
    assert(block_call@.params[1] == block_call.params@[1]@);
}

/// A parameter shows the number or the text that it is.
pub proof fn a_parameter_shows_what_it_is(param: RpcParam)
    ensures
        param matches RpcParam::Number(number) ==> param@ == RpcParamModel::Number(number),
        param matches RpcParam::Text(text) ==> param@ == RpcParamModel::Text(text@),
{
}

} // verus!
