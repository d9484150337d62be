//! What holds of the results of the parsers, in terms of the arguments that they are given.
use vstd::prelude::*;
use vstd::utf8::encode_utf8;

use crate::commands::error::{CommandError, CommandErrorModel};
use crate::commands::laws::{
    a_balance_request_is_as_written, a_send_of_all_is_as_written, an_array_is_sent_to_every_member,
    an_object_is_sent_to_every_member, are_described, named_account, names_indexes, nothing_under,
    number_under, shielded_indexes_are_the_named_ones, shielded_selectors_that_are_accepted,
    text_under, transparent_indexes_are_the_named_ones, transparent_scope_is_the_named_one,
    transparent_selectors_that_are_accepted,
};
use crate::commands::utils::{
    address_from_json, check_memo_compatibility, max_send_value_from_json, memo_from_json,
    parse_account_id, parse_max_send_value_args, parse_optional_u32, parse_required_u32,
    parse_send_all_args, parse_send_args, parse_shielded_from, parse_shielded_scope,
    parse_transparent_from, parse_transparent_restriction_args, parse_transparent_scope,
    receivers_view, send_all_from_json, send_all_to, send_from_json,
    single_send, texts, transparent_restriction_from_json, zatoshis_from_json,
    zennies_flag_from_json,
};
use crate::json_value::{json_outcome, Json, JsonKindModel, JsonModel};
use crate::payments::{decoded_address, Address, MemoBytes, Receiver};
use crate::payments_laws::{a_text_fills_its_memo_field, is_memo_of};
use crate::restrictions::{
    AccountId, Scope, ShieldedAddressRestriction, TransparentAddressRestriction, TransparentScope,
};
use crate::text::{lowercased, trimmed, unsigned_value};

verus! {

/// Whether `address` is what a text decodes to.
pub open spec fn is_address_of(text: Seq<char>, address: Address) -> bool {
    decoded_address(text) == Ok::<(Seq<char>, bool), Seq<char>>(
        (address.encoded@, address.can_receive_memo),
    )
}

/// Whether `memo` is the memo that stands under `memo` in a JSON value, or none where no text
/// stands there.
pub open spec fn is_memo_under(value: JsonModel, memo: Option<MemoBytes>) -> bool {
    match text_under(value, "memo"@) {
        None => memo is None,
        Some(text) => memo matches Some(field) && is_memo_of(text, field.bytes@),
    }
}

/// Whether `receiver` is what a JSON value describes: the address, the amount and the memo that
/// stand in it.
pub open spec fn is_receiver_in(value: JsonModel, receiver: Receiver) -> bool {
    &&& text_under(value, "address"@) matches Some(text)
    &&& is_address_of(text, receiver.recipient_address)
    &&& number_under(value, "amount"@) == Some(receiver.amount)
    &&& is_memo_under(value, receiver.memo)
}

/// Whether a restriction is the one that a shielded selector describes.
pub open spec fn is_shielded_selector(
    value: JsonModel,
    restriction: ShieldedAddressRestriction,
) -> bool {
    &&& value.kind is Object
    &&& text_under(value, "scope"@) matches Some(name) ==> lowercased(name) == "external"@
    &&& restriction.account.index == named_account(value)
    &&& number_under(value, "address_index"@) matches Some(first) && restriction.start_index
        == first % 0x1_0000_0000
    &&& match number_under(value, "max_address_index"@) {
        Some(last) => restriction.max_index matches Some(max) && max == last % 0x1_0000_0000,
        None => restriction.max_index is None,
    }
}

/// Whether a restriction is the one that stands under `from`: none where nothing or null does.
pub open spec fn is_restriction_under_from(
    value: JsonModel,
    restriction: Option<ShieldedAddressRestriction>,
) -> bool {
    match value.field("from"@) {
        None => restriction is None,
        Some(from) => if from.kind is Null {
            restriction is None
        } else {
            restriction matches Some(found) && is_shielded_selector(from, found)
        },
    }
}

/// Whether a shielded selector can be accepted: it is null, or an object with the external scope
/// or none, an account that can be, and indexes.
pub open spec fn is_acceptable_selector(value: JsonModel) -> bool {
    ||| value.kind is Null
    ||| {
        &&& value.kind is Object
        &&& text_under(value, "scope"@) matches Some(name) ==> lowercased(name) == "external"@
        &&& named_account(value) < 0x8000_0000
        &&& names_indexes(value)
    }
}

proof fn restrictions_are_under_from(
    value: JsonModel,
    restriction: Option<ShieldedAddressRestriction>,
)
    requires
        match value.field("from"@) {
            None => restriction is None,
            Some(from) => crate::commands::laws::yields(
                crate::commands::utils::shielded_from_outcome(from),
                restriction,
            ),
        },
    ensures
        is_restriction_under_from(value, restriction),
        value.field("from"@) matches Some(from) ==> is_acceptable_selector(from),
{
    if let Some(from) = value.field("from"@) {
        shielded_selectors_that_are_accepted(from);
        shielded_indexes_are_the_named_ones(from);
    }
}

/// The scope of a transparent restriction is the one that the selector names, in any letter case,
/// or the external one where it names none; the account and the indexes are the named ones. Null
/// restricts nothing.
pub proof fn transparent_selectors_restrict_as_they_say(
    selector: Json,
    restriction: Result<Option<TransparentAddressRestriction>, CommandError>,
)
    requires
        call_ensures(parse_transparent_from, (&selector,), restriction),
    ensures
        restriction matches Ok(Some(found)) ==> {
            &&& match text_under(selector@, "scope"@) {
                None => found.scope == TransparentScope::External,
                Some(name) => {
                    &&& found.scope == TransparentScope::External <==> lowercased(name)
                        == "external"@
                    &&& found.scope == TransparentScope::Internal <==> lowercased(name)
                        == "internal"@
                    &&& found.scope == TransparentScope::Refund <==> lowercased(name) == "refund"@
                },
            }
            &&& found.account.index == named_account(selector@)
            &&& number_under(selector@, "address_index"@) matches Some(first)
            &&& found.start_index == first % 0x1_0000_0000
            &&& match number_under(selector@, "max_address_index"@) {
                Some(last) => found.max_index matches Some(max) && max == last % 0x1_0000_0000,
                None => found.max_index is None,
            }
        },
        restriction matches Ok(None) <==> selector@.kind is Null,
        restriction is Ok <==> selector@.kind is Null || {
            &&& selector@.kind is Object
            &&& text_under(selector@, "scope"@) matches Some(name) ==> lowercased(name)
                == "external"@ || lowercased(name) == "internal"@ || lowercased(name) == "refund"@
            &&& named_account(selector@) < 0x8000_0000
            &&& names_indexes(selector@)
        },
{
    transparent_scope_is_the_named_one(selector@);
    transparent_indexes_are_the_named_ones(selector@);
    transparent_selectors_that_are_accepted(selector@);
}

/// The account and the indexes of a shielded restriction are those that the selector names, and
/// its scope is the external one. Null restricts nothing.
pub proof fn shielded_selectors_restrict_as_they_say(
    selector: Json,
    restriction: Result<Option<ShieldedAddressRestriction>, CommandError>,
)
    requires
        call_ensures(parse_shielded_from, (&selector,), restriction),
    ensures
        restriction matches Ok(Some(found)) ==> is_shielded_selector(selector@, found),
        restriction matches Ok(None) <==> selector@.kind is Null,
        restriction is Ok <==> is_acceptable_selector(selector@),
{
    shielded_indexes_are_the_named_ones(selector@);
    shielded_selectors_that_are_accepted(selector@);
}

/// A scope is the one with the given name, in any letter case, and the external one where no name
/// is given. Shielded keys have no scope for refunds.
pub proof fn scopes_are_the_named_ones(
    name: &str,
    shielded: Result<Scope, CommandError>,
    transparent: Result<TransparentScope, CommandError>,
)
    requires
        call_ensures(parse_shielded_scope, (Some(name),), shielded),
        call_ensures(parse_transparent_scope, (Some(name),), transparent),
    ensures
        shielded matches Ok(Scope::External) <==> lowercased(name@) == "external"@,
        shielded matches Ok(Scope::Internal) <==> lowercased(name@) == "internal"@,
        transparent matches Ok(TransparentScope::External) <==> lowercased(name@) == "external"@,
        transparent matches Ok(TransparentScope::Internal) <==> lowercased(name@) == "internal"@,
        transparent matches Ok(TransparentScope::Refund) <==> lowercased(name@) == "refund"@,
{
    crate::commands::laws::scope_names_differ();
}

/// Without a name the scope is the external one.
pub proof fn the_scope_is_external_without_a_name(
    shielded: Result<Scope, CommandError>,
    transparent: Result<TransparentScope, CommandError>,
)
    requires
        call_ensures(parse_shielded_scope, (None,), shielded),
        call_ensures(parse_transparent_scope, (None,), transparent),
    ensures
        shielded matches Ok(Scope::External),
        transparent matches Ok(TransparentScope::External),
{
}

/// An account is the one with the number that is given, of which 32 bits are kept, and the first
/// one where none is given; there are 2^31 accounts.
pub proof fn accounts_are_those_given(raw: Option<u64>, account: Result<AccountId, CommandError>)
    requires
        call_ensures(parse_account_id, (raw,), account),
    ensures
        raw is None ==> (account matches Ok(found) && found.index == 0),
        raw matches Some(number) ==> {
            &&& account is Ok <==> number % 0x1_0000_0000 < 0x8000_0000
            &&& account matches Ok(found) ==> found.index == number % 0x1_0000_0000
            &&& account matches Err(error) ==> error is UnexpectedType
        },
{
    if let Err(error) = account {
        assert(error@ is UnexpectedType);
    }
}

/// A number that is required is the one under its key, and is missing where the key is.
pub proof fn required_numbers_are_those_under_their_key(
    target: Json,
    key: &str,
    number: Result<u32, CommandError>,
)
    requires
        call_ensures(parse_required_u32, (&target, key), number),
    ensures
        number is Ok <==> number_under(target@, key@) is Some,
        number matches Ok(found) ==> found == number_under(target@, key@)->0 % 0x1_0000_0000,
        target@.field(key@) is None <==> (number matches Err(error) && error is MissingKey),
{
    if let Err(error) = number {
        assert(error is MissingKey <==> error@ is MissingKey);
    }
}

/// A number that is optional is the one under its key, where there is anything but null.
pub proof fn optional_numbers_are_those_under_their_key(
    target: Json,
    key: &str,
    number: Result<Option<u32>, CommandError>,
)
    requires
        call_ensures(parse_optional_u32, (&target, key), number),
    ensures
        number matches Ok(None) <==> nothing_under(target@, key@),
        number matches Ok(Some(found)) ==> (number_under(target@, key@) matches Some(given)
            && found == given % 0x1_0000_0000),
        number is Ok <==> nothing_under(target@, key@) || number_under(target@, key@) is Some,
{
}

/// What a shield is restricted to stands under `from`, or is the whole argument where there is no
/// such key.
pub proof fn a_shield_is_restricted_by_its_selector(
    argument: Json,
    selector: Json,
    restriction: Result<Option<TransparentAddressRestriction>, CommandError>,
    direct: Result<Option<TransparentAddressRestriction>, CommandError>,
)
    requires
        call_ensures(transparent_restriction_from_json, (&argument,), restriction),
        call_ensures(parse_transparent_from, (&selector,), direct),
        argument@.kind is Object,
        selector@.kind is Object,
        argument@.field("from"@) == Some(selector@) || (argument@.field("from"@) is None
            && argument@ == selector@),
    ensures
        restriction is Ok <==> direct is Ok,
        restriction matches Ok(found) ==> found == direct->Ok_0,
        restriction matches Err(error) ==> error@ == direct->Err_0@,
{
}

/// A shield without arguments is not restricted, and one with several is refused.
pub proof fn a_shield_takes_at_most_one_argument(
    args: &[&str],
    restriction: Result<Option<TransparentAddressRestriction>, CommandError>,
)
    requires
        call_ensures(parse_transparent_restriction_args, (args,), restriction),
    ensures
        args@.len() == 0 ==> restriction == Ok::<
            Option<TransparentAddressRestriction>,
            CommandError,
        >(None),
        args@.len() > 1 ==> (restriction matches Err(error) && error is InvalidArguments),
        args@.len() == 1 && json_outcome(args@[0]@) is Err ==> (restriction matches Err(error)
            && error is ArgsNotJson),
{
    if let Err(error) = restriction {
        assert(error is InvalidArguments <==> error@ is InvalidArguments);
        assert(error is ArgsNotJson <==> error@ is ArgsNotJson);
    }
}

/// The address in JSON is the one that the text under `address` decodes to.
pub proof fn the_address_in_json_is_decoded(value: Json, address: Result<Address, CommandError>)
    requires
        call_ensures(address_from_json, (&value,), address),
    ensures
        address matches Ok(found) ==> (text_under(value@, "address"@) matches Some(text)
            && is_address_of(text, found)),
        address is Ok <==> (text_under(value@, "address"@) matches Some(text) && decoded_address(
            text,
        ) is Ok),
        value@.field("address"@) is None <==> (address matches Err(error) && error is MissingKey),
{
    if let Err(error) = address {
        assert(error is MissingKey <==> error@ is MissingKey);
    }
}

/// The amount in JSON is the whole number under `amount`, up to 21 million coins.
pub proof fn the_amount_in_json_is_the_number(value: Json, amount: Result<u64, CommandError>)
    requires
        call_ensures(zatoshis_from_json, (&value,), amount),
    ensures
        amount matches Ok(found) ==> number_under(value@, "amount"@) == Some(found),
        amount is Ok <==> (number_under(value@, "amount"@) matches Some(number) && number
            <= 2_100_000_000_000_000),
        value@.field("amount"@) is None <==> (amount matches Err(error) && error is MissingKey),
{
    if let Err(error) = amount {
        assert(error is MissingKey <==> error@ is MissingKey);
    }
}

/// The memo in JSON is the text under `memo`, and there is none without a text.
pub proof fn the_memo_in_json_is_the_text(
    value: Json,
    memo: Result<Option<MemoBytes>, CommandError>,
)
    requires
        call_ensures(memo_from_json, (&value,), memo),
    ensures
        memo matches Ok(found) ==> is_memo_under(value@, found),
        memo is Ok <==> (text_under(value@, "memo"@) matches Some(text) ==> encode_utf8(text).len()
            <= 512),
{
    if let Ok(Some(found)) = memo {
        if let Some(text) = text_under(value@, "memo"@) {
            a_text_fills_its_memo_field(text, found.bytes@);
        }
    }
    if let Some(text) = text_under(value@, "memo"@) {
        a_text_fills_its_memo_field(text, Seq::empty());
    }
}

/// The flag in JSON is the one under `zennies_for_zingo`.
pub proof fn the_flag_in_json_is_the_flag(value: Json, flag: Result<bool, CommandError>)
    requires
        call_ensures(zennies_flag_from_json, (&value,), flag),
    ensures
        match value@.field("zennies_for_zingo"@) {
            None => flag matches Err(error) && error is MissingZenniesForZingoFlag,
            Some(content) => match content.kind {
                JsonKindModel::Boolean(given) => flag == Ok::<bool, CommandError>(given),
                _ => flag matches Err(error) && error is ZenniesFlagNonBool,
            },
        },
{
    if let Err(error) = flag {
        assert(error is MissingZenniesForZingoFlag <==> error@ is MissingZenniesForZingoFlag);
        assert(error is ZenniesFlagNonBool <==> error@ is ZenniesFlagNonBool);
    }
}

/// A memo is refused exactly for an address that cannot receive one.
pub proof fn memos_need_a_receiving_address(
    address: Address,
    memo: Option<MemoBytes>,
    result: Result<(), CommandError>,
)
    requires
        call_ensures(check_memo_compatibility, (&address, &memo), result),
    ensures
        result is Err <==> memo is Some && !address.can_receive_memo,
        result matches Err(error) ==> error is IncompatibleMemo,
{
    if let Err(error) = result {
        assert(error is IncompatibleMemo <==> error@ is IncompatibleMemo);
    }
}

proof fn receivers_are_as_described(members: Seq<JsonModel>, receivers: Seq<Receiver>, i: int)
    requires
        are_described(members, receivers_view(receivers)),
        0 <= i < members.len(),
    ensures
        receivers.len() == members.len(),
        is_receiver_in(members[i], receivers[i]),
        receivers[i].memo is Some ==> receivers[i].recipient_address.can_receive_memo,
        receivers[i].amount <= 2_100_000_000_000_000,
{
    let receiver = receivers[i];
    assert(receivers_view(receivers)[i] == receiver@);
    if let Some(text) = text_under(members[i], "memo"@) {
        let field = receiver.memo->0.bytes@;
        let bytes = encode_utf8(text);
        assert forall|k: int| 0 <= k < bytes.len() implies field[k] == #[trigger] bytes[k] by {
            assert(field.take(bytes.len() as int)[k] == field[k]);
        }
    }
}

/// A send in JSON that is accepted has one receiver for each member of the array, which is the
/// argument itself or stands under `receivers` of an object. Each receiver is the one that its
/// member describes, in their order. The restriction is the one under `from` of the object.
pub proof fn a_json_send_pays_every_member(
    argument: Json,
    send: Result<(Vec<Receiver>, Option<ShieldedAddressRestriction>), CommandError>,
)
    requires
        call_ensures(send_from_json, (&argument,), send),
    ensures
        send matches Ok((receivers, restriction)) ==> {
            let array = if argument@.kind is Array {
                argument@
            } else {
                argument@.at("receivers"@)
            };
            &&& array.kind matches JsonKindModel::Array(members)
            &&& members.len() > 0
            &&& receivers@.len() == members.len()
            &&& forall|i: int|
                0 <= i < members.len() ==> is_receiver_in(#[trigger] members[i], receivers@[i])
            &&& is_restriction_under_from(argument@, restriction)
            &&& argument@.kind is Array ==> restriction is None
        },
        !(argument@.kind is Array) && !(argument@.kind is Object) ==> send is Err,
{
    if let Ok((receivers, restriction)) = send {
        let models = receivers_view(receivers@);
        let array = if argument@.kind is Array {
            argument@
        } else {
            argument@.at("receivers"@)
        };
        if argument@.kind is Array {
            an_array_is_sent_to_every_member(argument@, models, restriction);
        } else if argument@.kind is Object {
            an_object_is_sent_to_every_member(argument@, models, restriction);
            restrictions_are_under_from(argument@, restriction);
        } else {
            crate::commands::laws::a_send_is_an_array_or_an_object(argument@);
        }
        let members = array.kind->Array_0;
        assert(are_described(members, models));
        receivers_are_as_described(members, receivers@, 0);
        assert forall|i: int| 0 <= i < members.len() implies is_receiver_in(
            #[trigger] members[i],
            receivers@[i],
        ) by {
            receivers_are_as_described(members, receivers@, i);
        }
    }
    if !(argument@.kind is Array) && !(argument@.kind is Object) {
        crate::commands::laws::a_send_is_an_array_or_an_object(argument@);
    }
}

/// An object with an array under `receivers` is sent to exactly those receivers that the array
/// alone is sent to, and is refused where the array is.
pub proof fn an_object_is_sent_where_its_array_is(
    object: Json,
    array: Json,
    send: Result<(Vec<Receiver>, Option<ShieldedAddressRestriction>), CommandError>,
    alone: Result<(Vec<Receiver>, Option<ShieldedAddressRestriction>), CommandError>,
)
    requires
        call_ensures(send_from_json, (&object,), send),
        call_ensures(send_from_json, (&array,), alone),
        object@.kind is Object,
        array@.kind is Array,
        object@.field("receivers"@) == Some(array@),
    ensures
        send is Ok <==> alone is Ok && (object@.field("from"@) matches Some(from)
            ==> is_acceptable_selector(from)),
        send matches Ok((receivers, _)) ==> (alone matches Ok((others, _)) && receivers@.len()
            == others@.len() && forall|i: int|
            0 <= i < receivers@.len() ==> (#[trigger] receivers@[i])@ == others@[i]@),
        alone matches Err(error) ==> (send matches Err(same) && same@ == error@),
{
    if let Some(from) = object@.field("from"@) {
        shielded_selectors_that_are_accepted(from);
    }
    if let Ok((receivers, restriction)) = send {
        let models = receivers_view(receivers@);
        an_object_is_sent_to_every_member(object@, models, restriction);
        let others = receivers_view(alone->Ok_0.0@);
        assert(models == others);
        assert forall|i: int| 0 <= i < receivers@.len() implies (#[trigger] receivers@[i])@
            == alone->Ok_0.0@[i]@ by {
            assert(models[i] == others[i]);
        }
    }
}

/// An array whose members all describe receivers, with memos only where they can be received, is
/// accepted as a send.
pub proof fn describable_sends_are_accepted(
    array: Json,
    receivers: Seq<Receiver>,
    send: Result<(Vec<Receiver>, Option<ShieldedAddressRestriction>), CommandError>,
)
    requires
        call_ensures(send_from_json, (&array,), send),
        array@.kind is Array,
        array@.kind->Array_0.len() > 0,
        receivers.len() == array@.kind->Array_0.len(),
        forall|i: int|
            0 <= i < receivers.len() ==> {
                &&& is_receiver_in(array@.kind->Array_0[i], #[trigger] receivers[i])
                &&& receivers[i].amount <= 2_100_000_000_000_000
                &&& receivers[i].memo is Some ==> receivers[i].recipient_address.can_receive_memo
            },
    ensures
        send is Ok,
{
    let members = array@.kind->Array_0;
    let models = receivers_view(receivers);
    assert forall|i: int| 0 <= i < members.len() implies crate::commands::laws::is_described(
        #[trigger] members[i],
        models[i],
    ) by {
        let receiver = receivers[i];
        assert(models[i] == receiver@);
        if let Some(text) = text_under(members[i], "memo"@) {
            let field = receiver.memo->0.bytes@;
            assert(field.take(encode_utf8(text).len() as int) =~= encode_utf8(text));
        }
    }
    an_array_is_sent_to_every_member(array@, models, None);
}

/// A send to one address pays the amount that is written out to that address, with the memo where
/// one is given, and is not restricted. It is accepted exactly if the amount is one, and the memo
/// fits and can be received.
pub proof fn a_single_send_pays_what_is_written(
    address: Address,
    amount: &str,
    memo: Option<&str>,
    send: Result<(Vec<Receiver>, Option<ShieldedAddressRestriction>), CommandError>,
)
    requires
        call_ensures(single_send, (address, amount, memo), send),
    ensures
        send matches Ok((receivers, restriction)) ==> {
            &&& restriction is None
            &&& receivers@.len() == 1
            &&& receivers@[0].recipient_address@ == address@
            &&& unsigned_value(trimmed(amount@)) == Some(receivers@[0].amount as nat)
            &&& match memo {
                None => receivers@[0].memo is None,
                Some(text) => receivers@[0].memo matches Some(field) && is_memo_of(
                    text@,
                    field.bytes@,
                ),
            }
        },
        send is Ok <==> {
            &&& unsigned_value(trimmed(amount@)) matches Some(number)
            &&& number <= 2_100_000_000_000_000
            &&& memo matches Some(text) ==> encode_utf8(text@).len() <= 512
                && address.can_receive_memo
        },
{
    let model = crate::commands::utils::text_view(memo);
    crate::commands::laws::a_single_send_is_as_written(address@, amount@, model);
    if let Ok((receivers, restriction)) = send {
        assert(receivers_view(receivers@)[0] == receivers@[0]@);
        if let Some(text) = memo {
            a_text_fills_its_memo_field(text@, receivers@[0].memo->0.bytes@);
        }
    }
}

/// The arguments of a send are read by their number: one is JSON, two are an address and an
/// amount, three have a memo besides, and any other number is refused.
pub proof fn sends_are_read_by_their_arguments(
    args: &[&str],
    json: Json,
    address: Address,
    send: Result<(Vec<Receiver>, Option<ShieldedAddressRestriction>), CommandError>,
    from_json: Result<(Vec<Receiver>, Option<ShieldedAddressRestriction>), CommandError>,
    plain: Result<(Vec<Receiver>, Option<ShieldedAddressRestriction>), CommandError>,
    with_memo: Result<(Vec<Receiver>, Option<ShieldedAddressRestriction>), CommandError>,
)
    requires
        call_ensures(parse_send_args, (args,), send),
        call_ensures(send_from_json, (&json,), from_json),
        args@.len() == 2 ==> call_ensures(single_send, (address, args@[1], None), plain),
        args@.len() == 3 ==> call_ensures(
            single_send,
            (address, args@[1], Some(args@[2])),
            with_memo,
        ),
    ensures
        args@.len() == 0 || args@.len() > 3 ==> (send matches Err(error)
            && error is InvalidArguments),
        args@.len() == 1 && json_outcome(args@[0]@) is Err ==> (send matches Err(error)
            && error is ArgsNotJson),
        args@.len() == 1 && json_outcome(args@[0]@) == Ok::<JsonModel, Seq<char>>(json@)
            ==> is_same_send(send, from_json),
        args@.len() == 2 && is_address_of(args@[0]@, address) ==> is_same_send(send, plain),
        args@.len() == 3 && is_address_of(args@[0]@, address) ==> is_same_send(send, with_memo),
        (args@.len() == 2 || args@.len() == 3) && decoded_address(args@[0]@) is Err ==> (
        send matches Err(error) && error is ConversionFailed),
{
    if let Err(error) = send {
        assert(error is InvalidArguments <==> error@ is InvalidArguments);
        assert(error is ArgsNotJson <==> error@ is ArgsNotJson);
        assert(error is ConversionFailed <==> error@ is ConversionFailed);
    }
    assert(texts(args@).len() == args@.len());
    assert forall|i: int| 0 <= i < args@.len() implies #[trigger] texts(args@)[i]
        == args@[i]@ by {}
    assert forall|one: Seq<Receiver>, other: Seq<Receiver>|
        #![trigger receivers_view(one), receivers_view(other)]
        receivers_view(one) == receivers_view(other) implies same_receivers(one, other) by {
        assert(receivers_view(one).len() == receivers_view(other).len());
        assert forall|i: int| 0 <= i < one.len() implies (#[trigger] one[i])@ == other[i]@ by {
            assert(receivers_view(one)[i] == receivers_view(other)[i]);
        }
    }
}

/// Whether two lists of receivers show the same, one by one.
pub open spec fn same_receivers(one: Seq<Receiver>, other: Seq<Receiver>) -> bool {
    one.len() == other.len() && forall|i: int|
        0 <= i < one.len() ==> (#[trigger] one[i])@ == other[i]@
}

/// Whether two sends are the same, or are refused for the same reason.
pub open spec fn is_same_send(
    one: Result<(Vec<Receiver>, Option<ShieldedAddressRestriction>), CommandError>,
    other: Result<(Vec<Receiver>, Option<ShieldedAddressRestriction>), CommandError>,
) -> bool {
    match (one, other) {
        (Ok(left), Ok(right)) => same_receivers(left.0@, right.0@) && left.1 == right.1,
        (Err(left), Err(right)) => left@ == right@,
        _ => false,
    }
}

/// A send of all funds in JSON goes to the address under `address`, with the flag under
/// `zennies_for_zingo`, the memo under `memo` and the restriction under `from`; and it is accepted
/// wherever these can be had.
pub proof fn a_json_send_of_all_is_as_written(
    argument: Json,
    send: Result<
        (Address, bool, Option<MemoBytes>, Option<ShieldedAddressRestriction>),
        CommandError,
    >,
)
    requires
        call_ensures(send_all_from_json, (&argument,), send),
    ensures
        send matches Ok((address, zennies, memo, restriction)) ==> {
            &&& text_under(argument@, "address"@) matches Some(text)
            &&& is_address_of(text, address)
            &&& argument@.field("zennies_for_zingo"@) matches Some(content)
            &&& content.kind == JsonKindModel::Boolean(zennies)
            &&& is_memo_under(argument@, memo)
            &&& memo is Some ==> address.can_receive_memo
            &&& is_restriction_under_from(argument@, restriction)
        },
        send is Ok <==> {
            &&& text_under(argument@, "address"@) matches Some(text)
            &&& decoded_address(text) matches Ok((encoded, can_receive_memo))
            &&& text_under(argument@, "memo"@) matches Some(memo) ==> can_receive_memo
                && encode_utf8(memo).len() <= 512
            &&& argument@.field("zennies_for_zingo"@) matches Some(content)
            &&& content.kind is Boolean
            &&& argument@.field("from"@) matches Some(from) ==> is_acceptable_selector(from)
        },
{
    a_send_of_all_is_as_written(argument@);
    crate::commands::laws::the_address_is_the_one_under_its_key(argument@);
    crate::commands::laws::the_memo_is_the_one_under_its_key(argument@);
    if let Some(from) = argument@.field("from"@) {
        shielded_selectors_that_are_accepted(from);
    }
    if let Ok((address, zennies, memo, restriction)) = send {
        restrictions_are_under_from(argument@, restriction);
        if let Some(text) = text_under(argument@, "memo"@) {
            a_text_fills_its_memo_field(text, memo->0.bytes@);
        }
    }
}

/// A send of all funds to an address with a memo adds no zennies and is not restricted.
pub proof fn a_send_of_all_with_a_memo_is_as_written(
    address: Address,
    memo: &str,
    send: Result<
        (Address, bool, Option<MemoBytes>, Option<ShieldedAddressRestriction>),
        CommandError,
    >,
)
    requires
        call_ensures(send_all_to, (address, memo), send),
    ensures
        send matches Ok((to, zennies, field, restriction)) ==> {
            &&& to@ == address@
            &&& !zennies
            &&& field matches Some(bytes)
            &&& is_memo_of(memo@, bytes.bytes@)
            &&& restriction is None
        },
        send is Ok <==> address.can_receive_memo && encode_utf8(memo@).len() <= 512,
{
    a_text_fills_its_memo_field(memo@, Seq::empty());
    if let Ok((_, _, Some(field), _)) = send {
        a_text_fills_its_memo_field(memo@, field.bytes@);
    }
}

/// A request for the spendable balance in JSON is for the address under `address`, with the flag
/// under `zennies_for_zingo` and the restriction under `from`; and it is accepted wherever these
/// can be had.
pub proof fn a_json_balance_request_is_as_written(
    argument: Json,
    request: Result<(Address, bool, Option<ShieldedAddressRestriction>), CommandError>,
)
    requires
        call_ensures(max_send_value_from_json, (&argument,), request),
    ensures
        request matches Ok((address, zennies, restriction)) ==> {
            &&& text_under(argument@, "address"@) matches Some(text)
            &&& is_address_of(text, address)
            &&& argument@.field("zennies_for_zingo"@) matches Some(content)
            &&& content.kind == JsonKindModel::Boolean(zennies)
            &&& is_restriction_under_from(argument@, restriction)
        },
        request is Ok <==> {
            &&& text_under(argument@, "address"@) matches Some(text)
            &&& decoded_address(text) is Ok
            &&& argument@.field("zennies_for_zingo"@) matches Some(content)
            &&& content.kind is Boolean
            &&& argument@.field("from"@) matches Some(from) ==> is_acceptable_selector(from)
        },
{
    a_balance_request_is_as_written(argument@);
    if let Some(from) = argument@.field("from"@) {
        shielded_selectors_that_are_accepted(from);
    }
    if let Ok((address, zennies, restriction)) = request {
        restrictions_are_under_from(argument@, restriction);
    }
}

/// A send of all funds, or a request for the spendable balance, with an address alone adds no
/// zennies, has no memo and is not restricted. A send takes one or two arguments, a request one.
pub proof fn an_address_alone_asks_for_nothing_else(
    args: &[&str],
    send: Result<
        (Address, bool, Option<MemoBytes>, Option<ShieldedAddressRestriction>),
        CommandError,
    >,
    request: Result<(Address, bool, Option<ShieldedAddressRestriction>), CommandError>,
)
    requires
        call_ensures(parse_send_all_args, (args,), send),
        call_ensures(parse_max_send_value_args, (args,), request),
    ensures
        args@.len() == 1 && decoded_address(args@[0]@) is Ok ==> {
            &&& send matches Ok((address, zennies, memo, restriction))
            &&& is_address_of(args@[0]@, address)
            &&& !zennies
            &&& memo is None
            &&& restriction is None
        },
        args@.len() == 1 && decoded_address(args@[0]@) is Ok ==> {
            &&& request matches Ok((address, zennies, restriction))
            &&& is_address_of(args@[0]@, address)
            &&& !zennies
            &&& restriction is None
        },
        args@.len() == 0 || args@.len() > 2 ==> (send matches Err(error)
            && error is InvalidArguments),
        args@.len() != 1 ==> (request matches Err(error) && error is InvalidArguments),
        args@.len() == 1 && decoded_address(args@[0]@) is Err && json_outcome(args@[0]@) is Err
            ==> (send matches Err(error) && error is ArgNotJsonOrValidAddress),
        args@.len() == 1 && decoded_address(args@[0]@) is Err && json_outcome(args@[0]@) is Err
            ==> (request matches Err(error) && error is ArgNotJsonOrValidAddress),
{
    assert(texts(args@).len() == args@.len());
    if args@.len() == 1 {
        assert(texts(args@)[0] == args@[0]@);
    }
    if let Err(error) = send {
        assert(error is InvalidArguments <==> error@ is InvalidArguments);
        assert(error is ArgNotJsonOrValidAddress <==> error@ is ArgNotJsonOrValidAddress);
    }
    if let Err(error) = request {
        assert(error is InvalidArguments <==> error@ is InvalidArguments);
        assert(error is ArgNotJsonOrValidAddress <==> error@ is ArgNotJsonOrValidAddress);
    }
}

/// A send of all funds and a request for the spendable balance with one argument that is no
/// address are read from its JSON, and a send with two arguments is to the first with the second
/// as the memo.
pub proof fn sends_of_all_are_read_by_their_arguments(
    args: &[&str],
    json: Json,
    address: Address,
    send: Result<
        (Address, bool, Option<MemoBytes>, Option<ShieldedAddressRestriction>),
        CommandError,
    >,
    from_json: Result<
        (Address, bool, Option<MemoBytes>, Option<ShieldedAddressRestriction>),
        CommandError,
    >,
    with_memo: Result<
        (Address, bool, Option<MemoBytes>, Option<ShieldedAddressRestriction>),
        CommandError,
    >,
)
    requires
        call_ensures(parse_send_all_args, (args,), send),
        call_ensures(send_all_from_json, (&json,), from_json),
        args@.len() == 2 ==> call_ensures(send_all_to, (address, args@[1]), with_memo),
    ensures
        args@.len() == 1 && decoded_address(args@[0]@) is Err && json_outcome(args@[0]@) == Ok::<
            JsonModel,
            Seq<char>,
        >(json@) ==> is_same_send_of_all(send, from_json),
        args@.len() == 2 && is_address_of(args@[0]@, address) ==> is_same_send_of_all(
            send,
            with_memo,
        ),
        args@.len() == 2 && decoded_address(args@[0]@) is Err ==> (send matches Err(error)
            && error is ConversionFailed),
{
    assert(texts(args@).len() == args@.len());
    assert forall|i: int| 0 <= i < args@.len() implies #[trigger] texts(args@)[i]
        == args@[i]@ by {}
    if let Err(error) = send {
        assert(error is ConversionFailed <==> error@ is ConversionFailed);
    }
}

/// Whether two sends of all funds are the same, or are refused for the same reason.
pub open spec fn is_same_send_of_all(
    one: Result<
        (Address, bool, Option<MemoBytes>, Option<ShieldedAddressRestriction>),
        CommandError,
    >,
    other: Result<
        (Address, bool, Option<MemoBytes>, Option<ShieldedAddressRestriction>),
        CommandError,
    >,
) -> bool {
    match (one, other) {
        (Ok(left), Ok(right)) => {
            &&& left.0@ == right.0@
            &&& left.1 == right.1
            &&& left.2 is Some <==> right.2 is Some
            &&& left.2 matches Some(memo) ==> memo.bytes@ == right.2->0.bytes@
            &&& left.3 == right.3
        },
        (Err(left), Err(right)) => left@ == right@,
        _ => false,
    }
}

/// A request for the spendable balance with an argument that is no address is read from its JSON.
pub proof fn balance_requests_are_read_from_json(
    args: &[&str],
    json: Json,
    request: Result<(Address, bool, Option<ShieldedAddressRestriction>), CommandError>,
    from_json: Result<(Address, bool, Option<ShieldedAddressRestriction>), CommandError>,
)
    requires
        call_ensures(parse_max_send_value_args, (args,), request),
        call_ensures(max_send_value_from_json, (&json,), from_json),
        args@.len() == 1,
        decoded_address(args@[0]@) is Err,
        json_outcome(args@[0]@) == Ok::<JsonModel, Seq<char>>(json@),
    ensures
        match (request, from_json) {
            (Ok(left), Ok(right)) => left.0@ == right.0@ && left.1 == right.1 && left.2
                == right.2,
            (Err(left), Err(right)) => left@ == right@,
            _ => false,
        },
{
    assert(texts(args@)[0] == args@[0]@);
}

/// An error shows its sort and what it holds.
pub proof fn an_error_shows_what_it_is(error: CommandError)
    ensures
        error matches CommandError::ArgsNotJson(text) ==> error@
            == CommandErrorModel::ArgsNotJson(text@),
        error matches CommandError::SingleArgNotJsonArray(text) ==> error@
            == CommandErrorModel::SingleArgNotJsonArray(text@),
        error matches CommandError::JsonArrayNotObj(text) ==> error@
            == CommandErrorModel::JsonArrayNotObj(text@),
        error is EmptyJsonArray <==> error@ is EmptyJsonArray,
        error is ArgNotJsonOrValidAddress <==> error@ is ArgNotJsonOrValidAddress,
        error matches CommandError::MissingKey(text) ==> error@ == CommandErrorModel::MissingKey(
            text@,
        ),
        error matches CommandError::UnexpectedType(text) ==> error@
            == CommandErrorModel::UnexpectedType(text@),
        error matches CommandError::NonJsonNumberForAmount(text) ==> error@
            == CommandErrorModel::NonJsonNumberForAmount(text@),
        error is MissingZenniesForZingoFlag <==> error@ is MissingZenniesForZingoFlag,
        error matches CommandError::ZenniesFlagNonBool(text) ==> error@
            == CommandErrorModel::ZenniesFlagNonBool(text@),
        error is ParseIntFromString <==> error@ is ParseIntFromString,
        error matches CommandError::ConversionFailed(inner) ==> error@
            == CommandErrorModel::ConversionFailed(inner@),
        error matches CommandError::InvalidMemo(text) ==> error@
            == CommandErrorModel::InvalidMemo(text@),
        error is IncompatibleMemo <==> error@ is IncompatibleMemo,
        error is InvalidArguments <==> error@ is InvalidArguments,
{
}

} // verus!
