//! What holds of the parsers: what they accept is what the arguments say, and they accept
//! everything that says it.
use vstd::prelude::*;
use vstd::utf8::encode_utf8;

use crate::commands::error::CommandErrorModel;
use crate::commands::utils::{
    account_outcome, address_json_outcome, amount_text_outcome, low_32, max_send_json_outcome,
    max_send_outcome, memo_fits, memo_json_outcome, memo_text_outcome, receiver_outcome,
    receivers_array_outcome, receivers_outcome, selector_outcome, send_all_json_outcome,
    send_all_outcome, send_json_outcome, send_outcome, shielded_from_outcome, single_send_outcome,
    transparent_argument_outcome, transparent_from_outcome, transparent_restriction_outcome,
    zatoshis_outcome, zennies_outcome,
};
use crate::json_value::{json_outcome, JsonKindModel, JsonModel};
use crate::payments::{
    decoded_address, AddressModel, ConversionErrorModel, ReceiverModel,
};
use crate::restrictions::{ShieldedAddressRestriction, TransparentScope};
use crate::text::{lowercased, trimmed, unsigned_value};

verus! {

/// Whether a parser refuses with `error`.
pub open spec fn fails_with<T>(
    outcome: Result<T, CommandErrorModel>,
    error: CommandErrorModel,
) -> bool {
    outcome == Err::<T, CommandErrorModel>(error)
}

/// Whether a parser accepts with `value`.
pub open spec fn yields<T>(outcome: Result<T, CommandErrorModel>, value: T) -> bool {
    outcome == Ok::<T, CommandErrorModel>(value)
}

/// The text that stands under `key`, where a text does.
pub open spec fn text_under(value: JsonModel, key: Seq<char>) -> Option<Seq<char>> {
    match value.field(key) {
        Some(JsonModel { kind: JsonKindModel::Text(text), .. }) => Some(text),
        _ => None,
    }
}

/// The whole number that stands under `key`, where one does that is not negative.
pub open spec fn number_under(value: JsonModel, key: Seq<char>) -> Option<u64> {
    match value.field(key) {
        Some(JsonModel { kind: JsonKindModel::Number(number), .. }) => if number.positive
            && number.exponent == 0 {
            Some(number.mantissa)
        } else {
            None
        },
        _ => None,
    }
}

/// Whether nothing stands under `key`, or null.
pub open spec fn nothing_under(value: JsonModel, key: Seq<char>) -> bool {
    match value.field(key) {
        None => true,
        Some(content) => content.kind is Null,
    }
}

/// The account index that a selector names: the lower 32 bits of its number, or zero.
pub open spec fn named_account(value: JsonModel) -> int {
    match number_under(value, "account"@) {
        Some(number) => (number % 0x1_0000_0000) as int,
        None => 0,
    }
}

/// Whether a selector says which indexes it covers: a first one, and no last one or one that is
/// not below the first.
pub open spec fn names_indexes(value: JsonModel) -> bool {
    &&& number_under(value, "address_index"@) is Some
    &&& nothing_under(value, "max_address_index"@) || (number_under(value, "max_address_index"@)
        matches Some(last) && last % 0x1_0000_0000 >= number_under(value, "address_index"@)->0
        % 0x1_0000_0000)
}

pub(crate) proof fn scope_names_differ()
    ensures
        "external"@ != "internal"@,
        "external"@ != "refund"@,
        "internal"@ != "refund"@,
{
    reveal_strlit("external");
    reveal_strlit("internal");
    reveal_strlit("refund");
    assert("external"@[0] == 'e');
    assert("internal"@[0] == 'i');
    assert("refund"@[0] == 'r');
}

/// A number of which 32 bits are kept stays as it is where they hold it, and is taken modulo 2^32
/// otherwise.
pub proof fn kept_bits_wrap_around(value: u64)
    ensures
        value <= u32::MAX ==> low_32(value) == value,
        value >= 0x1_0000_0000 ==> low_32(value) == low_32((value - 0x1_0000_0000) as u64),
{
}

/// The scope of an accepted transparent selector is the one that it names, whatever its letter
/// case, and the external one where it names none.
pub proof fn transparent_scope_is_the_named_one(value: JsonModel)
    ensures
        transparent_from_outcome(value) matches Ok(Some(restriction)) ==> (match text_under(
            value,
            "scope"@,
        ) {
            None => restriction.scope == TransparentScope::External,
            Some(name) => {
                &&& restriction.scope == TransparentScope::External <==> lowercased(name)
                    == "external"@
                &&& restriction.scope == TransparentScope::Internal <==> lowercased(name)
                    == "internal"@
                &&& restriction.scope == TransparentScope::Refund <==> lowercased(name)
                    == "refund"@
            },
        }),
{
    scope_names_differ();
}

/// The account and the indexes of an accepted transparent selector are those that it names.
pub proof fn transparent_indexes_are_the_named_ones(value: JsonModel)
    ensures
        transparent_from_outcome(value) matches Ok(Some(restriction)) ==> {
            &&& restriction.account.index == named_account(value)
            &&& number_under(value, "address_index"@) matches Some(first)
                && restriction.start_index == first % 0x1_0000_0000
            &&& match number_under(value, "max_address_index"@) {
                Some(last) => restriction.max_index matches Some(max) && max == last
                    % 0x1_0000_0000,
                None => restriction.max_index is None,
            }
        },
{
}

/// The account and the indexes of an accepted shielded selector are those that it names.
pub proof fn shielded_indexes_are_the_named_ones(value: JsonModel)
    ensures
        shielded_from_outcome(value) matches Ok(Some(restriction)) ==> {
            &&& restriction.account.index == named_account(value)
            &&& number_under(value, "address_index"@) matches Some(first)
                && restriction.start_index == first % 0x1_0000_0000
            &&& match number_under(value, "max_address_index"@) {
                Some(last) => restriction.max_index matches Some(max) && max == last
                    % 0x1_0000_0000,
                None => restriction.max_index is None,
            }
        },
{
}

/// A transparent selector is accepted exactly if it is null, which restricts nothing, or an
/// object with a known scope or none, an account that can be, and indexes.
pub proof fn transparent_selectors_that_are_accepted(value: JsonModel)
    ensures
        yields(transparent_from_outcome(value), None) <==> value.kind is Null,
        transparent_from_outcome(value) is Ok <==> value.kind is Null || {
            &&& value.kind is Object
            &&& text_under(value, "scope"@) matches Some(name) ==> lowercased(name) == "external"@
                || lowercased(name) == "internal"@ || lowercased(name) == "refund"@
            &&& named_account(value) < 0x8000_0000
            &&& names_indexes(value)
        },
{
}

/// A shielded selector is accepted exactly if it is null, which restricts nothing, or an object
/// with the external scope or none, an account that can be, and indexes.
pub proof fn shielded_selectors_that_are_accepted(value: JsonModel)
    ensures
        yields(shielded_from_outcome(value), None) <==> value.kind is Null,
        shielded_from_outcome(value) is Ok <==> value.kind is Null || {
            &&& value.kind is Object
            &&& text_under(value, "scope"@) matches Some(name) ==> lowercased(name) == "external"@
            &&& named_account(value) < 0x8000_0000
            &&& names_indexes(value)
        },
{
    scope_names_differ();
}

/// A selector without a first index is refused with the missing key, and one whose account
/// cannot be before that, with the account.
pub proof fn selectors_say_what_is_wrong(value: JsonModel)
    requires
        value.kind is Object,
        text_under(value, "scope"@) is None,
    ensures
        named_account(value) >= 0x8000_0000 ==> fails_with(
            shielded_from_outcome(value),
            CommandErrorModel::UnexpectedType("account id is out of range"@),
        ) && fails_with(
            transparent_from_outcome(value),
            CommandErrorModel::UnexpectedType("account id is out of range"@),
        ),
        named_account(value) < 0x8000_0000 && value.field("address_index"@) is None
            ==> fails_with(
                shielded_from_outcome(value),
                CommandErrorModel::MissingKey("address_index"@),
            ) && fails_with(
                transparent_from_outcome(value),
                CommandErrorModel::MissingKey("address_index"@),
            ),
        named_account(value) < 0x8000_0000 && value.field("address_index"@) is Some
            && !names_indexes(value) ==> (shielded_from_outcome(value) matches Err(error)
            && error is UnexpectedType) && (transparent_from_outcome(value) matches Err(error)
            && error is UnexpectedType),
{
}

/// The selector of a shield is what stands under `from`, where there is that key, and the whole
/// argument where there is not: both forms restrict alike.
pub proof fn the_selector_may_stand_alone_or_under_from(wrapped: JsonModel, bare: JsonModel)
    requires
        wrapped.kind is Object,
        wrapped.field("from"@) == Some(bare),
        bare.kind is Object,
        bare.field("from"@) is None,
    ensures
        transparent_argument_outcome(wrapped) == transparent_from_outcome(bare),
        transparent_argument_outcome(bare) == transparent_from_outcome(bare),
{
}

/// An argument that is no object holds no selector, and neither does one with something other
/// than an object under `from`.
pub proof fn a_selector_is_an_object(argument: JsonModel)
    ensures
        !(argument.kind is Object) ==> selector_outcome(argument) is Err
            && transparent_argument_outcome(argument) is Err,
        argument.kind is Object && (argument.field("from"@) matches Some(from) && !(
        from.kind is Object)) ==> transparent_argument_outcome(argument) is Err,
{
}

/// A shield without arguments is not restricted, one with an argument is restricted as that
/// says, and more arguments are refused.
pub proof fn shield_arguments(args: Seq<Seq<char>>, argument: JsonModel)
    ensures
        args.len() == 0 ==> yields(transparent_restriction_outcome(args), None),
        args.len() > 1 ==> fails_with(
            transparent_restriction_outcome(args),
            CommandErrorModel::InvalidArguments,
        ),
        args.len() == 1 && json_outcome(args[0]) == Ok::<JsonModel, Seq<char>>(argument)
            ==> transparent_restriction_outcome(args) == transparent_argument_outcome(argument),
        args.len() == 1 && (json_outcome(args[0]) matches Err(reason)) ==> (
        transparent_restriction_outcome(args) matches Err(error) && error is ArgsNotJson),
{
}

/// The bytes of a memo are the text in UTF-8 with zeros behind it, 512 in all; a text with more
/// bytes than that is no memo.
pub proof fn a_memo_is_its_text(text: Seq<char>)
    ensures
        memo_text_outcome(text) is Ok <==> encode_utf8(text).len() <= 512,
        memo_text_outcome(text) matches Ok(memo) ==> {
            &&& memo.len() == 512
            &&& memo.take(encode_utf8(text).len() as int) == encode_utf8(text)
            &&& forall|i: int|
                encode_utf8(text).len() <= i < 512 ==> #[trigger] memo[i] == 0
        },
        memo_text_outcome(text) matches Err(error) ==> error is InvalidMemo,
{
}

/// The address in JSON is the text under `address`, decoded.
pub proof fn the_address_is_the_one_under_its_key(value: JsonModel)
    ensures
        address_json_outcome(value) matches Ok(address) ==> {
            &&& text_under(value, "address"@) matches Some(text)
            &&& decoded_address(text) == Ok::<(Seq<char>, bool), Seq<char>>(
                (address.encoded, address.can_receive_memo),
            )
        },
        text_under(value, "address"@) matches Some(text) && decoded_address(text) is Ok
            ==> address_json_outcome(value) is Ok,
        value.field("address"@) is None ==> address_json_outcome(value) == Err::<
            AddressModel,
            CommandErrorModel,
        >(CommandErrorModel::MissingKey("address"@)),
        value.field("address"@) is Some && text_under(value, "address"@) is None ==> (
        address_json_outcome(value) matches Err(error) && error is UnexpectedType),
        text_under(value, "address"@) matches Some(text) && (decoded_address(text) matches Err(
            reason,
        )) ==> address_json_outcome(value) == Err::<AddressModel, CommandErrorModel>(
            CommandErrorModel::ConversionFailed(
                ConversionErrorModel::InvalidAddress(
                    decoded_address(text_under(value, "address"@)->0)->Err_0,
                ),
            ),
        ),
{
}

/// The amount in JSON is the whole number under `amount`, up to 21 million coins.
pub proof fn the_amount_is_the_one_under_its_key(value: JsonModel)
    ensures
        zatoshis_outcome(value) is Ok <==> (number_under(value, "amount"@) matches Some(number)
            && number <= 2_100_000_000_000_000),
        zatoshis_outcome(value) matches Ok(amount) ==> number_under(value, "amount"@) == Some(
            amount,
        ),
        value.field("amount"@) is None ==> zatoshis_outcome(value) == Err::<u64, CommandErrorModel>(
            CommandErrorModel::MissingKey("amount"@),
        ),
        value.field("amount"@) matches Some(content) && !(content.kind is Number) ==> (
        zatoshis_outcome(value) matches Err(error) && error is NonJsonNumberForAmount),
        value.field("amount"@) matches Some(content) && content.kind is Number && number_under(
            value,
            "amount"@,
        ) is None ==> (zatoshis_outcome(value) matches Err(error) && error is UnexpectedType),
        number_under(value, "amount"@) matches Some(number) && number > 2_100_000_000_000_000
            ==> zatoshis_outcome(value) == Err::<u64, CommandErrorModel>(
            CommandErrorModel::ConversionFailed(ConversionErrorModel::AmountOutOfRange),
        ),
{
}

/// The memo in JSON is the text under `memo`, and there is none where no text stands there.
pub proof fn the_memo_is_the_one_under_its_key(value: JsonModel)
    ensures
        text_under(value, "memo"@) is None ==> memo_json_outcome(value) == Ok::<
            Option<Seq<u8>>,
            CommandErrorModel,
        >(None),
        text_under(value, "memo"@) matches Some(text) ==> {
            &&& memo_json_outcome(value) is Ok <==> encode_utf8(text).len() <= 512
            &&& memo_json_outcome(value) matches Ok(memo) ==> memo is Some && memo->0.len() == 512
                && memo->0.take(encode_utf8(text).len() as int) == encode_utf8(text)
            &&& memo_json_outcome(value) matches Err(error) ==> error is InvalidMemo
        },
{
}

/// The flag in JSON is the one under `zennies_for_zingo`.
pub proof fn the_flag_is_the_one_under_its_key(value: JsonModel, flag: bool)
    ensures
        zennies_outcome(value) == Ok::<bool, CommandErrorModel>(flag) <==> (value.field(
            "zennies_for_zingo"@,
        ) matches Some(content) && content.kind == JsonKindModel::Boolean(flag)),
        value.field("zennies_for_zingo"@) is None ==> zennies_outcome(value) == Err::<
            bool,
            CommandErrorModel,
        >(CommandErrorModel::MissingZenniesForZingoFlag),
        value.field("zennies_for_zingo"@) matches Some(content) && !(content.kind is Boolean)
            ==> zennies_outcome(value) == Err::<bool, CommandErrorModel>(
            CommandErrorModel::ZenniesFlagNonBool(value.field("zennies_for_zingo"@)->0.text),
        ),
{
}

/// A memo goes with every address that can receive one, and with no other; without a memo every
/// address will do.
pub proof fn memos_go_where_they_can_be_received(address: AddressModel)
    ensures
        memo_fits(address, true) <==> address.can_receive_memo,
        memo_fits(address, false),
{
}

/// Whether `receiver` is what a member of an array describes: the address, the amount and the
/// memo that stand in it.
pub open spec fn is_described(member: JsonModel, receiver: ReceiverModel) -> bool {
    &&& text_under(member, "address"@) matches Some(text) && decoded_address(text) == Ok::<
        (Seq<char>, bool),
        Seq<char>,
    >((receiver.recipient_address.encoded, receiver.recipient_address.can_receive_memo))
    &&& number_under(member, "amount"@) == Some(receiver.amount)
    &&& receiver.amount <= 2_100_000_000_000_000
    &&& match text_under(member, "memo"@) {
        None => receiver.memo is None,
        Some(text) => {
            &&& receiver.recipient_address.can_receive_memo
            &&& encode_utf8(text).len() <= 512
            &&& receiver.memo matches Some(memo) && memo.len() == 512 && memo.take(
                encode_utf8(text).len() as int,
            ) == encode_utf8(text) && (forall|i: int|
                encode_utf8(text).len() <= i < 512 ==> #[trigger] memo[i] == 0)
        },
    }
}

/// A member of an array is accepted as the receiver that it describes, and as no other.
pub proof fn a_member_is_the_receiver_it_describes(member: JsonModel, receiver: ReceiverModel)
    ensures
        receiver_outcome(member) == Ok::<ReceiverModel, CommandErrorModel>(receiver)
            <==> is_described(member, receiver),
{
    if is_described(member, receiver) {
        if let Some(text) = text_under(member, "memo"@) {
            let bytes = encode_utf8(text);
            let memo = receiver.memo->0;
            assert forall|i: int| 0 <= i < 512 implies memo[i] == crate::payments::padded_memo(
                bytes,
            )[i] by {
                if i < bytes.len() {
                    assert(memo.take(bytes.len() as int)[i] == memo[i]);
                }
            }
            assert(memo =~= crate::payments::padded_memo(bytes));
        }
    }
    if receiver_outcome(member) == Ok::<ReceiverModel, CommandErrorModel>(receiver) {
        if let Some(text) = text_under(member, "memo"@) {
            let bytes = encode_utf8(text);
            assert(receiver.memo->0.take(bytes.len() as int) =~= bytes);
        }
    }
}

proof fn receivers_are_in_order(members: Seq<JsonModel>, i: int)
    requires
        0 <= i < members.len(),
        receivers_outcome(members) is Ok,
    ensures
        receivers_outcome(members)->Ok_0.len() == members.len(),
        receiver_outcome(members[i]) == Ok::<ReceiverModel, CommandErrorModel>(
            receivers_outcome(members)->Ok_0[i],
        ),
    decreases members.len(),
{
    let rest = members.drop_last();
    if i < rest.len() {
        receivers_are_in_order(rest, i);
        assert(rest[i] == members[i]);
    } else if rest.len() > 0 {
        receivers_are_in_order(rest, 0);
    }
}

proof fn described_members_are_accepted(members: Seq<JsonModel>, receivers: Seq<ReceiverModel>)
    requires
        receivers.len() == members.len(),
        forall|i: int|
            0 <= i < members.len() ==> is_described(#[trigger] members[i], receivers[i]),
    ensures
        receivers_outcome(members) == Ok::<Seq<ReceiverModel>, CommandErrorModel>(receivers),
    decreases members.len(),
{
    if members.len() > 0 {
        let rest = members.drop_last();
        let first = receivers.drop_last();
        assert forall|i: int| 0 <= i < rest.len() implies is_described(
            #[trigger] rest[i],
            first[i],
        ) by {
            assert(is_described(members[i], receivers[i]));
        }
        described_members_are_accepted(rest, first);
        let last = members.len() - 1;
        assert(is_described(members[last], receivers[last]));
        a_member_is_the_receiver_it_describes(members[last], receivers[last]);
        assert(first.push(receivers[last]) == receivers);
    } else {
        assert(receivers == Seq::<ReceiverModel>::empty());
    }
}

/// Whether `receivers` are what the members of an array describe, one each, in their order.
pub open spec fn are_described(members: Seq<JsonModel>, receivers: Seq<ReceiverModel>) -> bool {
    &&& receivers.len() == members.len()
    &&& forall|i: int| 0 <= i < members.len() ==> is_described(#[trigger] members[i], receivers[i])
}

proof fn an_array_is_its_receivers(array: JsonModel, receivers: Seq<ReceiverModel>)
    requires
        array.kind is Array,
    ensures
        receivers_array_outcome(array) == Ok::<Seq<ReceiverModel>, CommandErrorModel>(receivers)
            <==> receivers.len() > 0 && are_described(array.kind->Array_0, receivers),
{
    let members = array.kind->Array_0;
    if receivers.len() > 0 && are_described(members, receivers) {
        described_members_are_accepted(members, receivers);
    }
    if receivers_array_outcome(array) == Ok::<Seq<ReceiverModel>, CommandErrorModel>(receivers) {
        assert(members.len() > 0);
        receivers_are_in_order(members, 0);
        assert forall|i: int| 0 <= i < members.len() implies is_described(
            #[trigger] members[i],
            receivers[i],
        ) by {
            receivers_are_in_order(members, i);
            a_member_is_the_receiver_it_describes(members[i], receivers[i]);
        }
    }
}

/// A send described by an array is accepted with the receivers that its members describe, one for
/// each member and in their order, without a restriction; and not otherwise. An empty array is
/// refused.
pub proof fn an_array_is_sent_to_every_member(
    array: JsonModel,
    receivers: Seq<ReceiverModel>,
    restriction: Option<ShieldedAddressRestriction>,
)
    requires
        array.kind is Array,
    ensures
        yields(send_json_outcome(array), (receivers, restriction)) <==> {
            &&& receivers.len() > 0
            &&& are_described(array.kind->Array_0, receivers)
            &&& restriction is None
        },
        array.kind->Array_0.len() == 0 ==> fails_with(
            send_json_outcome(array),
            CommandErrorModel::EmptyJsonArray,
        ),
{
    an_array_is_its_receivers(array, receivers);
}

/// A send described by an object is accepted with the receivers that the members under
/// `receivers` describe, one for each and in their order, which are those that the array alone
/// would be accepted with; and with the restriction that stands under `from`, which has to be one.
pub proof fn an_object_is_sent_to_every_member(
    object: JsonModel,
    receivers: Seq<ReceiverModel>,
    restriction: Option<ShieldedAddressRestriction>,
)
    requires
        object.kind is Object,
    ensures
        yields(send_json_outcome(object), (receivers, restriction)) <==> {
            &&& object.field("receivers"@) matches Some(array)
            &&& array.kind is Array
            &&& receivers.len() > 0
            &&& are_described(array.kind->Array_0, receivers)
            &&& yields(send_json_outcome(array), (receivers, None::<ShieldedAddressRestriction>))
            &&& match object.field("from"@) {
                None => restriction is None,
                Some(from) => yields(shielded_from_outcome(from), restriction),
            }
        },
        object.field("receivers"@) is None ==> fails_with(
            send_json_outcome(object),
            CommandErrorModel::MissingKey("receivers"@),
        ),
        object.field("receivers"@) matches Some(other) && !(other.kind is Array) ==> (
        send_json_outcome(object) matches Err(error) && error is UnexpectedType),
{
    if let Some(array) = object.field("receivers"@) {
        if array.kind is Array {
            an_array_is_its_receivers(array, receivers);
        }
    }
}

/// The first member that describes no receiver decides why a send is refused.
pub proof fn the_first_wrong_member_decides(
    array: JsonModel,
    at: int,
    error: CommandErrorModel,
)
    requires
        array.kind is Array,
        0 <= at < array.kind->Array_0.len(),
        receiver_outcome(array.kind->Array_0[at]) == Err::<ReceiverModel, CommandErrorModel>(
            error,
        ),
        forall|i: int|
            0 <= i < at ==> receiver_outcome(#[trigger] array.kind->Array_0[i]) is Ok,
    ensures
        fails_with(send_json_outcome(array), error),
{
    first_error_is_kept(array.kind->Array_0, at);
}

proof fn first_error_is_kept(members: Seq<JsonModel>, at: int)
    requires
        0 <= at < members.len(),
        receiver_outcome(members[at]) is Err,
        forall|i: int| 0 <= i < at ==> receiver_outcome(#[trigger] members[i]) is Ok,
    ensures
        receivers_outcome(members) is Err,
        receivers_outcome(members)->Err_0 == receiver_outcome(members[at])->Err_0,
    decreases members.len(),
{
    let rest = members.drop_last();
    if at < rest.len() {
        assert forall|i: int| 0 <= i < at implies receiver_outcome(#[trigger] rest[i]) is Ok by {
            assert(rest[i] == members[i]);
        }
        assert(rest[at] == members[at]);
        first_error_is_kept(rest, at);
    } else {
        assert forall|i: int| 0 <= i < rest.len() implies receiver_outcome(
            #[trigger] rest[i],
        ) is Ok by {
            assert(rest[i] == members[i]);
        }
        right_members_are_accepted(rest);
    }
}

proof fn right_members_are_accepted(members: Seq<JsonModel>)
    requires
        forall|i: int| 0 <= i < members.len() ==> receiver_outcome(#[trigger] members[i]) is Ok,
    ensures
        receivers_outcome(members) is Ok,
    decreases members.len(),
{
    if members.len() > 0 {
        let rest = members.drop_last();
        assert forall|i: int| 0 <= i < rest.len() implies receiver_outcome(
            #[trigger] rest[i],
        ) is Ok by {
            assert(rest[i] == members[i]);
        }
        right_members_are_accepted(rest);
        assert(receiver_outcome(members[members.len() - 1]) is Ok);
    }
}

/// A member is refused for its address first, then for its amount, then for its memo, and last
/// for a memo that the address cannot receive.
pub proof fn members_are_refused_in_this_order(member: JsonModel)
    ensures
        address_json_outcome(member) matches Err(error) ==> receiver_outcome(member) == Err::<
            ReceiverModel,
            CommandErrorModel,
        >(address_json_outcome(member)->Err_0),
        address_json_outcome(member) is Ok && zatoshis_outcome(member) is Err ==> receiver_outcome(
            member,
        ) == Err::<ReceiverModel, CommandErrorModel>(zatoshis_outcome(member)->Err_0),
        address_json_outcome(member) is Ok && zatoshis_outcome(member) is Ok && memo_json_outcome(
            member,
        ) is Err ==> receiver_outcome(member) == Err::<ReceiverModel, CommandErrorModel>(
            memo_json_outcome(member)->Err_0,
        ),
        address_json_outcome(member) matches Ok(address) && zatoshis_outcome(member) is Ok
            && memo_json_outcome(member) is Ok && text_under(member, "memo"@) is Some
            && !address.can_receive_memo ==> receiver_outcome(member) == Err::<
            ReceiverModel,
            CommandErrorModel,
        >(CommandErrorModel::IncompatibleMemo),
{
}

/// A send to one address pays the amount that is written out to that address, with the memo where
/// one is given, and is not restricted.
pub proof fn a_single_send_is_as_written(
    address: AddressModel,
    amount: Seq<char>,
    memo: Option<Seq<char>>,
)
    ensures
        single_send_outcome(address, amount, memo) matches Ok((receivers, restriction)) ==> {
            &&& restriction is None
            &&& receivers.len() == 1
            &&& receivers[0].recipient_address == address
            &&& unsigned_value(trimmed(amount)) == Some(receivers[0].amount as nat)
            &&& receivers[0].amount <= 2_100_000_000_000_000
            &&& match memo {
                None => receivers[0].memo is None,
                Some(text) => address.can_receive_memo && (receivers[0].memo matches Some(bytes)
                    && bytes.len() == 512 && bytes.take(encode_utf8(text).len() as int)
                    == encode_utf8(text)),
            }
        },
        single_send_outcome(address, amount, memo) is Ok <==> {
            &&& unsigned_value(trimmed(amount)) matches Some(number) && number
                <= 2_100_000_000_000_000
            &&& memo matches Some(text) ==> encode_utf8(text).len() <= 512
                && address.can_receive_memo
        },
        amount_text_outcome(amount) matches Ok(number) ==> unsigned_value(trimmed(amount)) == Some(
            number as nat,
        ),
        (unsigned_value(trimmed(amount)) is None || unsigned_value(trimmed(amount))->0 > u64::MAX)
            ==> fails_with(
                single_send_outcome(address, amount, memo),
                CommandErrorModel::ParseIntFromString,
            ),
        (unsigned_value(trimmed(amount)) matches Some(number) && 2_100_000_000_000_000 < number
            <= u64::MAX) ==> fails_with(
                single_send_outcome(address, amount, memo),
                CommandErrorModel::ConversionFailed(ConversionErrorModel::AmountOutOfRange),
            ),
        (unsigned_value(trimmed(amount)) matches Some(number) && number <= 2_100_000_000_000_000)
            && (memo matches Some(text) && encode_utf8(text).len() <= 512)
            && !address.can_receive_memo ==> fails_with(
                single_send_outcome(address, amount, memo),
                CommandErrorModel::IncompatibleMemo,
            ),
{
    if let Some(text) = memo {
        if let Ok(bytes) = memo_text_outcome(text) {
            assert(bytes.take(encode_utf8(text).len() as int) =~= encode_utf8(text));
        }
    }
}

/// The arguments of a send are read by their number: one is JSON, two or three are an address, an
/// amount and perhaps a memo, and any other number is refused.
pub proof fn send_arguments(args: Seq<Seq<char>>, address: AddressModel)
    ensures
        args.len() == 0 || args.len() > 3 ==> fails_with(
            send_outcome(args),
            CommandErrorModel::InvalidArguments,
        ),
        args.len() == 1 && (json_outcome(args[0]) matches Ok(argument)) ==> send_outcome(args)
            == send_json_outcome(json_outcome(args[0])->Ok_0),
        args.len() == 1 && (json_outcome(args[0]) matches Err(reason)) ==> fails_with(
            send_outcome(args),
            CommandErrorModel::ArgsNotJson(json_outcome(args[0])->Err_0),
        ),
        args.len() == 2 && decoded_address(args[0]) == Ok::<(Seq<char>, bool), Seq<char>>(
            (address.encoded, address.can_receive_memo),
        ) ==> send_outcome(args) == single_send_outcome(address, args[1], None),
        args.len() == 3 && decoded_address(args[0]) == Ok::<(Seq<char>, bool), Seq<char>>(
            (address.encoded, address.can_receive_memo),
        ) ==> send_outcome(args) == single_send_outcome(address, args[1], Some(args[2])),
        (args.len() == 2 || args.len() == 3) && decoded_address(args[0]) is Err ==> (send_outcome(
            args,
        ) matches Err(error) && error is ConversionFailed),
{
}

/// A value that is neither an array nor an object is no send, and is shown in the error.
pub proof fn a_send_is_an_array_or_an_object(argument: JsonModel)
    ensures
        !(argument.kind is Array) && !(argument.kind is Object) ==> fails_with(
            send_json_outcome(argument),
            CommandErrorModel::SingleArgNotJsonArray(argument.text),
        ),
{
}

/// A send of all funds in JSON goes to the address under `address`, with the flag under
/// `zennies_for_zingo`, the memo under `memo` and the restriction under `from`.
pub proof fn a_send_of_all_is_as_written(argument: JsonModel)
    ensures
        send_all_json_outcome(argument) matches Ok((address, zennies, memo, restriction)) ==> {
            &&& argument.kind is Object
            &&& text_under(argument, "address"@) matches Some(text) && decoded_address(text)
                == Ok::<(Seq<char>, bool), Seq<char>>((address.encoded, address.can_receive_memo))
            &&& argument.field("zennies_for_zingo"@) matches Some(content) && content.kind
                == JsonKindModel::Boolean(zennies)
            &&& match text_under(argument, "memo"@) {
                None => memo is None,
                Some(text) => address.can_receive_memo && (memo matches Some(bytes) && bytes.len()
                    == 512 && bytes.take(encode_utf8(text).len() as int) == encode_utf8(text)),
            }
            &&& match argument.field("from"@) {
                None => restriction is None,
                Some(from) => yields(shielded_from_outcome(from), restriction),
            }
        },
        send_all_json_outcome(argument) is Ok <==> {
            &&& address_json_outcome(argument) matches Ok(address)
            &&& memo_json_outcome(argument) is Ok
            &&& text_under(argument, "memo"@) is Some ==> address.can_receive_memo
            &&& argument.field("zennies_for_zingo"@) matches Some(content)
            &&& content.kind is Boolean
            &&& argument.field("from"@) matches Some(from) ==> shielded_from_outcome(from) is Ok
        },
        argument.kind is Array ==> fails_with(
            send_all_json_outcome(argument),
            CommandErrorModel::JsonArrayNotObj(argument.text),
        ),
{
    if let Some(text) = text_under(argument, "memo"@) {
        if let Ok(Some(bytes)) = memo_json_outcome(argument) {
            assert(bytes.take(encode_utf8(text).len() as int) =~= encode_utf8(text));
        }
    }
    if let JsonKindModel::Object(entries) = argument.kind {
        if argument.field("address"@) is Some {
            assert(entries.len() > 0);
        }
    }
}

/// The arguments of a send of all funds: an address alone, or with a memo, adds no zennies and
/// restricts nothing; any other single argument is JSON.
pub proof fn send_all_arguments(args: Seq<Seq<char>>, address: AddressModel)
    ensures
        args.len() == 0 || args.len() > 2 ==> fails_with(
            send_all_outcome(args),
            CommandErrorModel::InvalidArguments,
        ),
        args.len() == 1 && decoded_address(args[0]) == Ok::<(Seq<char>, bool), Seq<char>>(
            (address.encoded, address.can_receive_memo),
        ) ==> yields(send_all_outcome(args), (address, false, None, None)),
        args.len() == 1 && decoded_address(args[0]) is Err && (json_outcome(args[0]) is Ok)
            ==> send_all_outcome(args) == send_all_json_outcome(json_outcome(args[0])->Ok_0),
        args.len() == 1 && decoded_address(args[0]) is Err && (json_outcome(args[0]) is Err)
            ==> fails_with(send_all_outcome(args), CommandErrorModel::ArgNotJsonOrValidAddress),
        args.len() == 2 && decoded_address(args[0]) is Err ==> (send_all_outcome(args) matches Err(
            error,
        ) && error is ConversionFailed),
        args.len() == 2 && decoded_address(args[0]) == Ok::<(Seq<char>, bool), Seq<char>>(
            (address.encoded, address.can_receive_memo),
        ) ==> {
            &&& send_all_outcome(args) is Ok <==> address.can_receive_memo && encode_utf8(
                args[1],
            ).len() <= 512
            &&& send_all_outcome(args) matches Ok((to, zennies, memo, restriction)) ==> to
                == address && !zennies && restriction is None && (memo matches Some(bytes)
                && bytes.len() == 512 && bytes.take(encode_utf8(args[1]).len() as int)
                == encode_utf8(args[1]))
        },
{
    if args.len() == 2 {
        if let Ok(bytes) = memo_text_outcome(args[1]) {
            assert(bytes.take(encode_utf8(args[1]).len() as int) =~= encode_utf8(args[1]));
        }
    }
}

/// A request for the spendable balance in JSON is for the address under `address`, with the flag
/// under `zennies_for_zingo` and the restriction under `from`.
pub proof fn a_balance_request_is_as_written(argument: JsonModel)
    ensures
        max_send_json_outcome(argument) matches Ok((address, zennies, restriction)) ==> {
            &&& argument.kind is Object
            &&& text_under(argument, "address"@) matches Some(text) && decoded_address(text)
                == Ok::<(Seq<char>, bool), Seq<char>>((address.encoded, address.can_receive_memo))
            &&& argument.field("zennies_for_zingo"@) matches Some(content) && content.kind
                == JsonKindModel::Boolean(zennies)
            &&& match argument.field("from"@) {
                None => restriction is None,
                Some(from) => yields(shielded_from_outcome(from), restriction),
            }
        },
        max_send_json_outcome(argument) is Ok <==> {
            &&& text_under(argument, "address"@) matches Some(text)
            &&& decoded_address(text) is Ok
            &&& argument.field("zennies_for_zingo"@) matches Some(content)
            &&& content.kind is Boolean
            &&& argument.field("from"@) matches Some(from) ==> shielded_from_outcome(from) is Ok
        },
        argument.kind is Array ==> (max_send_json_outcome(argument) matches Err(error)
            && error is JsonArrayNotObj),
{
    if let JsonKindModel::Object(entries) = argument.kind {
        if argument.field("address"@) is Some {
            assert(entries.len() > 0);
        }
    }
}

/// A request for the spendable balance and a send of all funds that are written alike agree on
/// the address, the flag and the restriction.
pub proof fn a_balance_request_agrees_with_the_send(argument: JsonModel)
    ensures
        (send_all_json_outcome(argument), max_send_json_outcome(argument)) matches (
            Ok(send),
            Ok(request),
        ) ==> send.0 == request.0 && send.1 == request.1 && send.3 == request.2,
        send_all_json_outcome(argument) is Ok ==> max_send_json_outcome(argument) is Ok,
{
}

/// The argument of a request for the spendable balance: an address adds no zennies and restricts
/// nothing, anything else is JSON, and there is one.
pub proof fn balance_request_arguments(args: Seq<Seq<char>>, address: AddressModel)
    ensures
        args.len() != 1 ==> fails_with(max_send_outcome(args), CommandErrorModel::InvalidArguments),
        args.len() == 1 && decoded_address(args[0]) == Ok::<(Seq<char>, bool), Seq<char>>(
            (address.encoded, address.can_receive_memo),
        ) ==> yields(max_send_outcome(args), (address, false, None)),
        args.len() == 1 && decoded_address(args[0]) is Err && (json_outcome(args[0]) is Ok)
            ==> max_send_outcome(args) == max_send_json_outcome(json_outcome(args[0])->Ok_0),
        args.len() == 1 && decoded_address(args[0]) is Err && (json_outcome(args[0]) is Err)
            ==> fails_with(max_send_outcome(args), CommandErrorModel::ArgNotJsonOrValidAddress),
{
}

/// The account of a selector is the first one where none is named.
pub proof fn accounts_are_the_named_ones(raw: Option<u64>)
    ensures
        raw is None ==> (account_outcome(raw) matches Ok(account) && account.index == 0),
        raw matches Some(number) && number < 0x8000_0000 ==> (account_outcome(raw) matches Ok(
            account,
        ) && account.index == raw->0),
        raw matches Some(number) && 0x8000_0000 <= number <= u32::MAX ==> account_outcome(
            raw,
        ) is Err,
{
}

} // verus!
