//! What holds of reading a block: only what the coinbase pays to an address counts for it.
use vstd::prelude::*;

use crate::auto_shield::node::{
    is_paid, is_success, outputs_view, paid_value, payout, value_fits, BlockResult,
    CoinbaseOutput, OutputModel, Payout,
};

verus! {

/// What an output adds to what an address is paid: its value where it names the address, and
/// nothing otherwise.
pub open spec fn share(output: OutputModel, address: Seq<char>) -> int {
    if exists|i: int| 0 <= i < output.addresses.len() && output.addresses[i] == address {
        output.value_zat as int
    } else {
        0
    }
}

/// An address is paid nothing without outputs. An output at any place raises what an address is
/// paid by its value if it names the address, and leaves it as it is if it does not.
pub proof fn only_outputs_to_the_address_count(
    outputs: Seq<OutputModel>,
    output: OutputModel,
    at: int,
    address: Seq<char>,
)
    requires
        0 <= at <= outputs.len(),
    ensures
        paid_value(Seq::<OutputModel>::empty(), address) == 0,
        paid_value(outputs.insert(at, output), address) == paid_value(outputs, address) + share(
            output,
            address,
        ),
    decreases outputs.len(),
{
    let longer = outputs.insert(at, output);
    if at == outputs.len() {
        assert(longer.drop_last() == outputs);
        assert(longer.last() == output);
    } else {
        only_outputs_to_the_address_count(outputs.drop_last(), output, at, address);
        assert(longer.drop_last() == outputs.drop_last().insert(at, output));
        assert(longer.last() == outputs.last());
    }
}

/// The outputs of two lists together pay what each pays.
pub proof fn payments_add_up(
    left: Seq<OutputModel>,
    right: Seq<OutputModel>,
    address: Seq<char>,
)
    ensures
        paid_value(left + right, address) == paid_value(left, address) + paid_value(
            right,
            address,
        ),
    decreases right.len(),
{
    if right.len() > 0 {
        payments_add_up(left, right.drop_last(), address);
        assert((left + right).drop_last() == left + right.drop_last());
        assert((left + right).last() == right.last());
    } else {
        assert(left + right == left);
    }
}

/// An address is paid exactly if some output names it.
pub proof fn an_address_is_paid_where_it_is_named(outputs: Seq<OutputModel>, address: Seq<char>)
    ensures
        payout(outputs, address) == Payout::Absent <==> (forall|i: int, j: int|
            0 <= i < outputs.len() && 0 <= j < (#[trigger] outputs[i]).addresses.len()
                ==> #[trigger] outputs[i].addresses[j] != address),
{
    let absent = forall|i: int, j: int|
        0 <= i < outputs.len() && 0 <= j < (#[trigger] outputs[i]).addresses.len()
            ==> #[trigger] outputs[i].addresses[j] != address;
    if is_paid(outputs, address) {
        let i = choose|i: int| 0 <= i < outputs.len() && (#[trigger] outputs[i]).pays(address);
        let j = choose|j: int|
            0 <= j < outputs[i].addresses.len() && outputs[i].addresses[j] == address;
        assert(outputs[i].addresses[j] == address);
        assert(!absent);
    } else {
        assert forall|i: int, j: int|
            0 <= i < outputs.len() && 0 <= j < (#[trigger] outputs[i]).addresses.len() implies
            #[trigger] outputs[i].addresses[j] != address by {
            if outputs[i].addresses[j] == address {
                assert(outputs[i].addresses.contains(address));
                assert(outputs[i].pays(address));
            }
        }
    }
}

proof fn no_share_without_the_address(outputs: Seq<OutputModel>, count: int, address: Seq<char>)
    requires
        0 <= count <= outputs.len(),
        forall|i: int| 0 <= i < outputs.len() ==> (#[trigger] outputs[i]).value_zat >= 0,
    ensures
        0 <= paid_value(outputs.take(count), address) <= paid_value(outputs, address),
    decreases outputs.len(),
{
    if outputs.len() > 0 {
        let rest = outputs.drop_last();
        assert forall|i: int| 0 <= i < rest.len() implies (#[trigger] rest[i]).value_zat >= 0 by {
            assert(rest[i] == outputs[i]);
        }
        assert(outputs.last() == outputs[outputs.len() - 1]);
        if count < outputs.len() {
            no_share_without_the_address(rest, count, address);
            assert(rest.take(count) == outputs.take(count));
        } else {
            no_share_without_the_address(rest, rest.len() as int, address);
            assert(rest.take(rest.len() as int) == rest);
            assert(outputs.take(count) == outputs);
        }
    }
}

/// The value of a reward is what the outputs pay to the address together. Where no output has a
/// negative value, it is known exactly if it fits in 64 bits.
pub proof fn a_reward_is_worth_what_is_paid(outputs: Seq<OutputModel>, address: Seq<char>)
    ensures
        payout(outputs, address) matches Payout::Value { value_zat } ==> value_zat == paid_value(
            outputs,
            address,
        ),
        (forall|i: int| 0 <= i < outputs.len() ==> (#[trigger] outputs[i]).value_zat >= 0) ==> (
        payout(outputs, address) == Payout::Overflow <==> paid_value(outputs, address) > i64::MAX),
{
    assert(outputs.take(outputs.len() as int) == outputs);
    if value_fits(outputs, address) {
        assert(i64::MIN <= paid_value(outputs.take(outputs.len() as int), address) <= i64::MAX);
    }
    if forall|i: int| 0 <= i < outputs.len() ==> (#[trigger] outputs[i]).value_zat >= 0 {
        assert forall|count: int| 0 <= count <= outputs.len() implies 0 <= #[trigger] paid_value(
            outputs.take(count),
            address,
        ) <= paid_value(outputs, address) by {
            no_share_without_the_address(outputs, count, address);
        }
        if paid_value(outputs, address) > i64::MAX && !is_paid(outputs, address) {
            nothing_is_paid_to_others(outputs, address);
        }
    }
}

proof fn nothing_is_paid_to_others(outputs: Seq<OutputModel>, address: Seq<char>)
    requires
        !is_paid(outputs, address),
    ensures
        paid_value(outputs, address) == 0,
    decreases outputs.len(),
{
    if outputs.len() > 0 {
        let rest = outputs.drop_last();
        assert(!outputs[outputs.len() - 1].pays(address));
        assert(!is_paid(rest, address)) by {
            assert forall|i: int| 0 <= i < rest.len() implies !(#[trigger] rest[i]).pays(
                address,
            ) by {
                assert(!outputs[i].pays(address));
            }
        }
        nothing_is_paid_to_others(rest, address);
    }
}

/// The outputs are added up one by one: a sum that was too large or too small for 64 bits once
/// stays unknown, whatever outputs follow, and a sum that is known becomes unknown exactly if the
/// next output takes it out of the range of 64 bits.
pub proof fn sums_are_made_one_by_one(
    outputs: Seq<OutputModel>,
    output: OutputModel,
    address: Seq<char>,
)
    ensures
        payout(outputs, address) == Payout::Overflow ==> payout(outputs.push(output), address)
            == Payout::Overflow,
        payout(outputs, address) != Payout::Overflow ==> (payout(outputs.push(output), address)
            == Payout::Overflow <==> {
            let sum = paid_value(outputs, address) + share(output, address);
            sum < i64::MIN || sum > i64::MAX
        }),
{
    let longer = outputs.push(output);
    only_outputs_to_the_address_count(outputs, output, outputs.len() as int, address);
    assert(longer == outputs.insert(outputs.len() as int, output));
    assert(longer.take(longer.len() as int) == longer);
    assert forall|count: int| 0 <= count <= outputs.len() implies #[trigger] longer.take(count)
        == outputs.take(count) by {}
    an_address_is_paid_where_it_is_named(outputs, address);
    an_address_is_paid_where_it_is_named(longer, address);
    assert(is_paid(outputs, address) ==> is_paid(longer, address)) by {
        if is_paid(outputs, address) {
            let i = choose|i: int| 0 <= i < outputs.len() && (#[trigger] outputs[i]).pays(address);
            assert(longer[i] == outputs[i]);
        }
    }
    if !is_paid(outputs, address) {
        nothing_is_paid_to_others(outputs, address);
        assert forall|count: int| 0 <= count <= outputs.len() implies #[trigger] paid_value(
            outputs.take(count),
            address,
        ) == 0 by {
            let part = outputs.take(count);
            assert(!is_paid(part, address)) by {
                assert forall|i: int| 0 <= i < part.len() implies !(#[trigger] part[i]).pays(
                    address,
                ) by {
                    assert(!outputs[i].pays(address));
                }
            }
            nothing_is_paid_to_others(part, address);
        }
    }
    if value_fits(outputs, address) {
        assert forall|count: int| 0 <= count <= outputs.len() implies i64::MIN
            <= #[trigger] paid_value(longer.take(count), address) <= i64::MAX by {
            assert(longer.take(count) == outputs.take(count));
            assert(i64::MIN <= paid_value(outputs.take(count), address) <= i64::MAX);
        }
        if i64::MIN <= paid_value(longer, address) <= i64::MAX {
            assert forall|count: int| 0 <= count <= longer.len() implies i64::MIN
                <= #[trigger] paid_value(longer.take(count), address) <= i64::MAX by {
                if count == longer.len() {
                    assert(longer.take(count) == longer);
                }
            }
            assert(value_fits(longer, address));
        } else {
            assert(!(i64::MIN <= paid_value(longer.take(longer.len() as int), address)
                <= i64::MAX));
            if !is_paid(longer, address) {
                nothing_is_paid_to_others(longer, address);
            }
        }
    } else {
        let count = choose|count: int|
            0 <= count <= outputs.len() && !(i64::MIN <= #[trigger] paid_value(
                outputs.take(count),
                address,
            ) <= i64::MAX);
        assert(longer.take(count) == outputs.take(count));
        assert(!value_fits(longer, address));
    }
}

/// An output that does not name the address changes nothing about what a block means for it,
/// wherever it stands.
pub proof fn other_outputs_do_not_matter(
    outputs: Seq<OutputModel>,
    output: OutputModel,
    at: int,
    address: Seq<char>,
)
    requires
        0 <= at <= outputs.len(),
        !output.addresses.contains(address),
    ensures
        payout(outputs.insert(at, output), address) == payout(outputs, address),
{
    let longer = outputs.insert(at, output);
    assert(is_paid(longer, address) <==> is_paid(outputs, address)) by {
        if is_paid(outputs, address) {
            let i = choose|i: int| 0 <= i < outputs.len() && (#[trigger] outputs[i]).pays(address);
            if i < at {
                assert(longer[i] == outputs[i]);
            } else {
                assert(longer[i + 1] == outputs[i]);
            }
        }
        if is_paid(longer, address) {
            let i = choose|i: int| 0 <= i < longer.len() && (#[trigger] longer[i]).pays(address);
            if i < at {
                assert(longer[i] == outputs[i]);
            } else if i > at {
                assert(longer[i] == outputs[i - 1]);
            }
        }
    }
    only_outputs_to_the_address_count(outputs, output, at, address);
    assert forall|count: int| 0 <= count <= longer.len() implies #[trigger] paid_value(
        longer.take(count),
        address,
    ) == paid_value(
        outputs.take(
            if count <= at {
                count
            } else {
                count - 1
            },
        ),
        address,
    ) by {
        if count <= at {
            assert(longer.take(count) == outputs.take(count));
        } else {
            only_outputs_to_the_address_count(outputs.take(count - 1), output, at, address);
            assert(longer.take(count) == outputs.take(count - 1).insert(at, output));
        }
    }
    if value_fits(longer, address) {
        assert forall|count: int| 0 <= count <= outputs.len() implies i64::MIN
            <= #[trigger] paid_value(outputs.take(count), address) <= i64::MAX by {
            if count <= at {
                assert(paid_value(longer.take(count), address) == paid_value(
                    outputs.take(count),
                    address,
                ));
            } else {
                assert(paid_value(longer.take(count + 1), address) == paid_value(
                    outputs.take(count),
                    address,
                ));
            }
        }
    }
}

/// The outputs of a block are those of its first transaction, one for each, with the value and
/// the addresses that it has there; a script without addresses has none.
pub proof fn the_coinbase_is_the_first_transaction(block: BlockResult)
    ensures
        block.tx@.len() == 0 ==> block.coinbase_outputs().len() == 0,
        block.tx@.len() > 0 ==> {
            &&& block.coinbase_outputs().len() == block.tx@[0].vout@.len()
            &&& forall|i: int|
                #![trigger block.coinbase_outputs()[i]]
                0 <= i < block.tx@[0].vout@.len() ==> {
                    let output = block.coinbase_outputs()[i];
                    let vout = block.tx@[0].vout@[i];
                    &&& output.value_zat == vout.value_zat
                    &&& match vout.script_pub_key.addresses {
                        None => output.addresses.len() == 0,
                        Some(addresses) => output.addresses.len() == addresses@.len() && forall|
                            j: int,
                        |
                            0 <= j < addresses@.len() ==> #[trigger] output.addresses[j]
                                == addresses@[j]@,
                    }
                }
        },
{
}

/// Blocks with the same first transaction pay the same, whatever else is in them.
pub proof fn later_transactions_do_not_matter(
    block: BlockResult,
    other: BlockResult,
    address: Seq<char>,
)
    requires
        block.tx@.len() > 0,
        other.tx@.len() > 0,
        block.tx@[0] == other.tx@[0],
    ensures
        payout(block.coinbase_outputs(), address) == payout(other.coinbase_outputs(), address),
{
}

/// An output shows its value and its addresses.
pub proof fn an_output_shows_its_value_and_addresses(outputs: Seq<CoinbaseOutput>, i: int, j: int)
    requires
        0 <= i < outputs.len(),
    ensures
        outputs_view(outputs).len() == outputs.len(),
        outputs_view(outputs)[i].value_zat == outputs[i].value_zat,
        outputs_view(outputs)[i].addresses.len() == outputs[i].addresses@.len(),
        0 <= j < outputs[i].addresses@.len() ==> outputs_view(outputs)[i].addresses[j]
            == outputs[i].addresses@[j]@,
{
}

/// An HTTP status is one of success exactly if its hundreds are two.
pub proof fn success_is_in_the_two_hundreds(status: u16)
    ensures
        is_success(status) <==> status / 100 == 2,
{
}

} // verus!
