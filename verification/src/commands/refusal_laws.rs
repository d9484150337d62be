//! What holds of refusals: for which reason arguments are refused where several are wrong, and
//! what is said of it.
use vstd::prelude::*;
use vstd::utf8::encode_utf8;

use crate::commands::error::{CommandError, CommandErrorModel};
use crate::commands::laws::{
    fails_with, named_account, names_indexes, nothing_under, number_under, text_under,
    the_address_is_the_one_under_its_key, the_memo_is_the_one_under_its_key,
};
use crate::commands::utils::{
    address_json_outcome, address_text_from_json, extract_restriction_object,
    max_send_json_outcome, max_send_outcome, memo_json_outcome, memo_text_outcome,
    parse_receivers_array, receiver_from_parts, receivers_view, selector_outcome,
    send_all_json_outcome, send_all_outcome, send_json_outcome, send_outcome,
    shielded_from_outcome, shielded_scope_from_name, single_send_outcome,
    transparent_argument_outcome, transparent_from_outcome, transparent_restriction_outcome,
    transparent_scope_from_name, zatoshis_outcome, zennies_outcome,
};
use crate::json_value::{json_outcome, Json, JsonKindModel, JsonModel};
use crate::payments::{
    decoded_address, Address, AddressModel, ConversionErrorModel, MemoBytes, Receiver,
};
use crate::restrictions::{Scope, TransparentScope};
use crate::text::{lowercased, trimmed, unsigned_value};

verus! {

/// A scope that is none is named in the refusal, in lower case, whatever else is wrong with the
/// selector.
pub proof fn unknown_scopes_are_named(value: JsonModel, name: Seq<char>)
    requires
        value.kind is Object,
        text_under(value, "scope"@) == Some(name),
        lowercased(name) != "external"@,
        lowercased(name) != "internal"@,
    ensures
        fails_with(
            shielded_from_outcome(value),
            CommandErrorModel::UnexpectedType("invalid scope \""@ + lowercased(name) + "\""@),
        ),
        lowercased(name) != "refund"@ ==> fails_with(
            transparent_from_outcome(value),
            CommandErrorModel::UnexpectedType("invalid scope \""@ + lowercased(name) + "\""@),
        ),
{
}

/// A shielded selector with the internal scope is refused for it, whatever else is wrong.
pub proof fn internal_scopes_are_not_for_shielded_selectors(value: JsonModel, name: Seq<char>)
    requires
        value.kind is Object,
        text_under(value, "scope"@) == Some(name),
        lowercased(name) == "internal"@,
    ensures
        fails_with(
            shielded_from_outcome(value),
            CommandErrorModel::UnexpectedType(
                "shielded restrictions currently support external scope only"@,
            ),
        ),
{
    crate::commands::laws::scope_names_differ();
}

/// A selector that is neither null nor an object is refused as such.
pub proof fn selectors_are_objects(value: JsonModel)
    requires
        !(value.kind is Null),
        !(value.kind is Object),
    ensures
        fails_with(
            shielded_from_outcome(value),
            CommandErrorModel::UnexpectedType("\"from\" must be a JSON object"@),
        ),
        fails_with(
            transparent_from_outcome(value),
            CommandErrorModel::UnexpectedType("transparent selector must be a JSON object"@),
        ),
{
}

/// A selector with an acceptable scope and account is refused for its first index before its
/// last: for a first index that is no number, for a last index that is neither a number nor null,
/// and for a last index below the first.
pub proof fn indexes_are_refused_by_name(value: JsonModel)
    requires
        value.kind is Object,
        text_under(value, "scope"@) is None || lowercased(text_under(value, "scope"@)->0)
            == "external"@,
        named_account(value) < 0x8000_0000,
    ensures
        value.field("address_index"@) is Some && number_under(value, "address_index"@) is None
            ==> fails_with(
                transparent_from_outcome(value),
                CommandErrorModel::UnexpectedType(
                    "\""@ + "address_index"@ + "\" must be a non-negative integer"@,
                ),
            ),
        number_under(value, "address_index"@) is Some && !nothing_under(
            value,
            "max_address_index"@,
        ) && number_under(value, "max_address_index"@) is None ==> fails_with(
            transparent_from_outcome(value),
            CommandErrorModel::UnexpectedType(
                "\""@ + "max_address_index"@ + "\" must be a non-negative integer"@,
            ),
        ),
        number_under(value, "address_index"@) is Some && number_under(
            value,
            "max_address_index"@,
        ) is Some && !names_indexes(value) ==> fails_with(
            transparent_from_outcome(value),
            CommandErrorModel::UnexpectedType(
                "\"max_address_index\" must be >= \"address_index\""@,
            ),
        ),
        transparent_from_outcome(value) is Err <==> shielded_from_outcome(value) is Err,
        transparent_from_outcome(value) is Err ==> shielded_from_outcome(value)->Err_0
            == transparent_from_outcome(value)->Err_0,
{
    crate::commands::laws::scope_names_differ();
}

/// The selector of a shield is refused where the argument, or what stands under `from`, is no
/// object.
pub proof fn selectors_of_a_shield_are_objects(argument: JsonModel)
    ensures
        !(argument.kind is Object) ==> fails_with(
            transparent_argument_outcome(argument),
            CommandErrorModel::UnexpectedType("expected a JSON object describing the selector"@),
        ),
        argument.kind is Object && (argument.field("from"@) matches Some(from) && !(
        from.kind is Object)) ==> fails_with(
            transparent_argument_outcome(argument),
            CommandErrorModel::UnexpectedType("\"from\" must be a JSON object"@),
        ),
        argument.kind is Object && argument.field("from"@) is None ==> (selector_outcome(
            argument,
        ) matches Ok(selector) && selector == argument),
        argument.kind is Object && (argument.field("from"@) matches Some(from)
            && from.kind is Object) ==> (selector_outcome(argument) matches Ok(selector)
            && Some(selector) == argument.field("from"@)),
{
}

/// The selector that is found is what stands under `from`, or the argument without that key.
pub proof fn the_selector_is_found(argument: Json, selector: Result<&Json, CommandError>)
    requires
        call_ensures(extract_restriction_object, (&argument,), selector),
        argument@.kind is Object,
    ensures
        argument@.field("from"@) is None ==> (selector matches Ok(found) && found@ == argument@),
        argument@.field("from"@) matches Some(from) ==> {
            &&& selector is Ok <==> from.kind is Object
            &&& selector matches Ok(found) ==> found@ == from
        },
{
}

/// What is not JSON is refused with the reason of the parser.
pub proof fn what_is_not_json_is_refused_with_the_reason(text: Seq<char>, reason: Seq<char>)
    requires
        json_outcome(text) == Err::<JsonModel, Seq<char>>(reason),
    ensures
        fails_with(
            transparent_restriction_outcome(seq![text]),
            CommandErrorModel::ArgsNotJson(reason),
        ),
        fails_with(send_outcome(seq![text]), CommandErrorModel::ArgsNotJson(reason)),
        decoded_address(text) is Err ==> fails_with(
            send_all_outcome(seq![text]),
            CommandErrorModel::ArgNotJsonOrValidAddress,
        ) && fails_with(
            max_send_outcome(seq![text]),
            CommandErrorModel::ArgNotJsonOrValidAddress,
        ),
{
}

/// What is no address is refused with the reason of the decoder, whatever the other arguments
/// are.
pub proof fn what_is_no_address_is_refused_with_the_reason(
    text: Seq<char>,
    second: Seq<char>,
    third: Seq<char>,
    reason: Seq<char>,
)
    requires
        decoded_address(text) == Err::<(Seq<char>, bool), Seq<char>>(reason),
    ensures
        ({
            let error = CommandErrorModel::ConversionFailed(
                ConversionErrorModel::InvalidAddress(reason),
            );
            &&& fails_with(send_outcome(seq![text, second]), error)
            &&& fails_with(send_outcome(seq![text, second, third]), error)
            &&& fails_with(send_all_outcome(seq![text, second]), error)
        }),
{
}

/// A member of an array is refused for an amount that is no number with the amount, for one that
/// is no whole number, and for an address that is no text.
pub proof fn wrong_sorts_are_named(value: JsonModel, content: JsonModel)
    ensures
        value.field("amount"@) == Some(content) && !(content.kind is Number) ==> fails_with(
            zatoshis_outcome(value),
            CommandErrorModel::NonJsonNumberForAmount(
                "\"amount\": "@ + content.text + "\nis not a json::number::Number"@,
            ),
        ),
        value.field("amount"@) == Some(content) && content.kind is Number && number_under(
            value,
            "amount"@,
        ) is None ==> fails_with(
            zatoshis_outcome(value),
            CommandErrorModel::UnexpectedType("amount not a u64!"@),
        ),
        value.field("address"@) == Some(content) && !(content.kind is Text) ==> fails_with(
            address_json_outcome(value),
            CommandErrorModel::UnexpectedType("address is not a string!"@),
        ),
{
}

/// The text of an address stands under `address`.
pub proof fn the_text_of_the_address_is_found(value: Json, text: Result<&str, CommandError>)
    requires
        call_ensures(address_text_from_json, (&value,), text),
    ensures
        text is Ok <==> text_under(value@, "address"@) is Some,
        text matches Ok(found) ==> text_under(value@, "address"@) == Some(found@),
{
}

/// A memo that is too long is refused as such.
pub proof fn long_memos_are_refused(text: Seq<char>)
    requires
        encode_utf8(text).len() > 512,
    ensures
        fails_with(
            memo_text_outcome(text),
            CommandErrorModel::InvalidMemo("memo is longer than 512 bytes"@),
        ),
{
}

/// An object is refused as a send where no array stands under `receivers`, for its receivers
/// before its selector, and for its selector with the reason of that.
pub proof fn objects_are_refused_for_receivers_first(object: JsonModel)
    requires
        object.kind is Object,
    ensures
        object.field("receivers"@) matches Some(array) && !(array.kind is Array) ==> fails_with(
            send_json_outcome(object),
            CommandErrorModel::UnexpectedType("\"receivers\" must be an array"@),
        ),
        object.field("receivers"@) matches Some(array) && array.kind is Array && send_json_outcome(
            array,
        ) is Err ==> fails_with(
            send_json_outcome(object),
            send_json_outcome(object.field("receivers"@)->0)->Err_0,
        ),
        object.field("receivers"@) matches Some(array) && array.kind is Array && send_json_outcome(
            array,
        ) is Ok && (object.field("from"@) matches Some(from) && shielded_from_outcome(from) is Err)
            ==> fails_with(
                send_json_outcome(object),
                shielded_from_outcome(object.field("from"@)->0)->Err_0,
            ),
{
}

/// A single send is refused for its amount first, then for a memo that is too long, and then for
/// one that the address cannot receive.
pub proof fn single_sends_are_refused_for_the_amount_first(
    address: AddressModel,
    amount: Seq<char>,
    memo: Seq<char>,
)
    ensures
        unsigned_value(trimmed(amount)) is None ==> fails_with(
            single_send_outcome(address, amount, Some(memo)),
            CommandErrorModel::ParseIntFromString,
        ),
        (unsigned_value(trimmed(amount)) matches Some(number) && number <= 2_100_000_000_000_000)
            && encode_utf8(memo).len() > 512 ==> fails_with(
            single_send_outcome(address, amount, Some(memo)),
            CommandErrorModel::InvalidMemo("memo is longer than 512 bytes"@),
        ),
{
}

/// A send of all funds in JSON is refused for an array, for having nothing in it, for its address,
/// its memo, a memo that the address cannot receive, its flag and its selector, in this order.
pub proof fn sends_of_all_are_refused_in_this_order(argument: JsonModel)
    ensures
        ({
            let outcome = send_all_json_outcome(argument);
            let address = address_json_outcome(argument);
            let memo = memo_json_outcome(argument);
            let flag = zennies_outcome(argument);
            &&& argument.kind is Array ==> fails_with(
                outcome,
                CommandErrorModel::JsonArrayNotObj(argument.text),
            )
            &&& argument.kind is Null ==> fails_with(outcome, CommandErrorModel::EmptyJsonArray)
            &&& (argument.kind matches JsonKindModel::Object(entries) && entries.len() == 0)
                ==> fails_with(outcome, CommandErrorModel::EmptyJsonArray)
            &&& (argument.kind matches JsonKindModel::Object(entries) && entries.len() > 0) ==> {
                &&& address is Err ==> fails_with(outcome, address->Err_0)
                &&& address is Ok && memo is Err ==> fails_with(outcome, memo->Err_0)
                &&& address is Ok && memo is Ok && text_under(argument, "memo"@) is Some
                    && !address->Ok_0.can_receive_memo ==> fails_with(
                    outcome,
                    CommandErrorModel::IncompatibleMemo,
                )
                &&& address is Ok && memo is Ok && (text_under(argument, "memo"@) is None
                    || address->Ok_0.can_receive_memo) ==> {
                    &&& flag is Err ==> fails_with(outcome, flag->Err_0)
                    &&& flag is Ok && (argument.field("from"@) matches Some(from)
                        && shielded_from_outcome(from) is Err) ==> fails_with(
                        outcome,
                        shielded_from_outcome(argument.field("from"@)->0)->Err_0,
                    )
                }
            }
        }),
{
    the_memo_is_the_one_under_its_key(argument);
}

/// A request for the spendable balance in JSON is refused for an array, for having nothing in it,
/// for its address, its flag and its selector, in this order.
pub proof fn balance_requests_are_refused_in_this_order(argument: JsonModel)
    ensures
        ({
            let outcome = max_send_json_outcome(argument);
            let address = address_json_outcome(argument);
            let flag = zennies_outcome(argument);
            &&& argument.kind is Array ==> fails_with(
                outcome,
                CommandErrorModel::JsonArrayNotObj("Pass an object, not an array."@),
            )
            &&& argument.kind is Null ==> fails_with(outcome, CommandErrorModel::EmptyJsonArray)
            &&& (argument.kind matches JsonKindModel::Object(entries) && entries.len() == 0)
                ==> fails_with(outcome, CommandErrorModel::EmptyJsonArray)
            &&& (argument.kind matches JsonKindModel::Object(entries) && entries.len() > 0) ==> {
                &&& address is Err ==> fails_with(outcome, address->Err_0)
                &&& address is Ok && flag is Err ==> fails_with(outcome, flag->Err_0)
                &&& address is Ok && flag is Ok && (argument.field("from"@) matches Some(from)
                    && shielded_from_outcome(from) is Err) ==> fails_with(
                    outcome,
                    shielded_from_outcome(argument.field("from"@)->0)->Err_0,
                )
            }
        }),
{
}

/// A name in lower case is the scope that it names, and no other name is a scope.
pub proof fn names_are_scopes(
    name: &str,
    shielded: Result<Scope, CommandError>,
    transparent: Result<TransparentScope, CommandError>,
)
    requires
        call_ensures(shielded_scope_from_name, (name,), shielded),
        call_ensures(transparent_scope_from_name, (name,), transparent),
    ensures
        shielded matches Ok(Scope::External) <==> name@ == "external"@,
        shielded matches Ok(Scope::Internal) <==> name@ == "internal"@,
        transparent matches Ok(TransparentScope::External) <==> name@ == "external"@,
        transparent matches Ok(TransparentScope::Internal) <==> name@ == "internal"@,
        transparent matches Ok(TransparentScope::Refund) <==> name@ == "refund"@,
{
    crate::commands::laws::scope_names_differ();
}

/// A receiver is put together of the address, the amount and the memo that are given, unless the
/// address cannot receive the memo.
pub proof fn receivers_are_put_together(
    address: Address,
    amount: u64,
    memo: Option<MemoBytes>,
    receiver: Result<Receiver, CommandError>,
)
    requires
        call_ensures(receiver_from_parts, (address, amount, memo), receiver),
    ensures
        receiver is Ok <==> memo is None || address.can_receive_memo,
        receiver matches Ok(found) ==> {
            &&& found.recipient_address.encoded@ == address.encoded@
            &&& found.recipient_address.can_receive_memo == address.can_receive_memo
            &&& found.amount == amount
            &&& found.memo is Some <==> memo is Some
            &&& memo matches Some(field) ==> found.memo->0.bytes@ == field.bytes@
        },
{
}

/// An array without members holds no receivers and is refused. Any other array has a receiver for
/// each member, where each member describes one. A value that is neither empty nor an array has
/// none.
pub proof fn arrays_hold_their_receivers(
    array: Json,
    receivers: Result<Vec<Receiver>, CommandError>,
)
    requires
        call_ensures(parse_receivers_array, (&array,), receivers),
    ensures
        array@.kind matches JsonKindModel::Array(members) ==> {
            &&& members.len() == 0 ==> (receivers matches Err(error) && error is EmptyJsonArray)
            &&& receivers matches Ok(found) ==> found@.len() == members.len() && found@.len() > 0
        },
        array@.kind is Null ==> receivers is Err,
        (array@.kind matches JsonKindModel::Object(entries) && entries.len() > 0) ==> (
        receivers matches Ok(found) && found@.len() == 0),
{
    if let Err(error) = receivers {
        assert(error is EmptyJsonArray <==> error@ is EmptyJsonArray);
    }
    if let Ok(found) = receivers {
        assert(receivers_view(found@).len() == found@.len());
        if array@.kind is Array {
            crate::commands::laws::an_array_is_sent_to_every_member(
                array@,
                receivers_view(found@),
                None,
            );
        }
    }
}

/// What is refused for its address is refused with the reason of the decoder.
pub proof fn wrong_addresses_are_refused_with_the_reason(value: JsonModel, reason: Seq<char>)
    requires
        text_under(value, "address"@) matches Some(text) && decoded_address(text) == Err::<
            (Seq<char>, bool),
            Seq<char>,
        >(reason),
    ensures
        fails_with(
            address_json_outcome(value),
            CommandErrorModel::ConversionFailed(ConversionErrorModel::InvalidAddress(reason)),
        ),
{
    the_address_is_the_one_under_its_key(value);
}

} // verus!
