//! Parsers for the arguments of the wallet's commands.
use vstd::prelude::*;

use crate::commands::error::{CommandError, CommandErrorModel};
use crate::json_value::{
    json_outcome, members_model, members_model_at, parse_json, Json, JsonKind, JsonKindModel,
    JsonModel,
};
use crate::payments::{
    address_from_str, address_outcome, interpret_memo_string, memo_outcome, memo_view,
    zatoshis_from_u64, Address, AddressModel, ConversionErrorModel, MemoBytes, Receiver,
    ReceiverModel, MAX_MONEY, MEMO_LENGTH,
};
use crate::restrictions::{
    AccountId, Scope, ShieldedAddressRestriction, TransparentAddressRestriction, TransparentScope,
    INDEX_LIMIT,
};
use crate::text::{
    join3, lowercase_text, lowercased, parse_u64, same_text, trim_text, trimmed, unsigned_value,
};

verus! {

/// Whether a parser returned what it should, the error compared by its view.
pub open spec fn agrees<T>(
    parsed: Result<T, CommandError>,
    outcome: Result<T, CommandErrorModel>,
) -> bool {
    match parsed {
        Ok(value) => outcome == Ok::<T, CommandErrorModel>(value),
        Err(error) => outcome == Err::<T, CommandErrorModel>(error@),
    }
}

/// The lower 32 bits of a number.
pub open spec fn low_32(value: u64) -> u32 {
    (value % 0x1_0000_0000) as u32
}

fn truncate_to_u32(value: u64) -> (low: u32)
    ensures
        low == low_32(value),
{
    assert(value as u32 == (value % 0x1_0000_0000) as u32) by (bit_vector);
    #[verifier::truncate]
    (value as u32)
}

/// What is said of a scope name that is none.
pub open spec fn invalid_scope(name: Seq<char>) -> CommandErrorModel {
    CommandErrorModel::UnexpectedType("invalid scope \""@ + name + "\""@)
}

/// What a name in lower case is as a shielded scope.
pub open spec fn shielded_scope_of(name: Seq<char>) -> Result<Scope, CommandErrorModel> {
    if name == "external"@ {
        Ok(Scope::External)
    } else if name == "internal"@ {
        Ok(Scope::Internal)
    } else {
        Err(invalid_scope(name))
    }
}

/// What a name in lower case is as a transparent scope.
pub open spec fn transparent_scope_of(name: Seq<char>) -> Result<
    TransparentScope,
    CommandErrorModel,
> {
    if name == "external"@ {
        Ok(TransparentScope::External)
    } else if name == "internal"@ {
        Ok(TransparentScope::Internal)
    } else if name == "refund"@ {
        Ok(TransparentScope::Refund)
    } else {
        Err(invalid_scope(name))
    }
}

/// The scope name that is meant: the one given, in lower case, or the external scope where none
/// is given.
pub open spec fn scope_name(value: Option<Seq<char>>) -> Seq<char> {
    match value {
        Some(name) => lowercased(name),
        None => "external"@,
    }
}

pub open spec fn text_view(value: Option<&str>) -> Option<Seq<char>> {
    match value {
        Some(text) => Some(text@),
        None => None,
    }
}

fn lower_scope_name(value: Option<&str>) -> (name: String)
    ensures
        name@ == scope_name(text_view(value)),
{
    match value {
        Some(text) => lowercase_text(text),
        None => "external".to_owned(),
    }
}

/// The shielded scope with the given name, which is in lower case.
pub fn shielded_scope_from_name(name: &str) -> (scope: Result<Scope, CommandError>)
    ensures
        agrees(scope, shielded_scope_of(name@)),
{
    if same_text(name, "external") {
        Ok(Scope::External)
    } else if same_text(name, "internal") {
        Ok(Scope::Internal)
    } else {
        Err(CommandError::UnexpectedType(join3("invalid scope \"", name, "\"")))
    }
}

/// The transparent scope with the given name, which is in lower case.
pub fn transparent_scope_from_name(name: &str) -> (scope: Result<TransparentScope, CommandError>)
    ensures
        agrees(scope, transparent_scope_of(name@)),
{
    if same_text(name, "external") {
        Ok(TransparentScope::External)
    } else if same_text(name, "internal") {
        Ok(TransparentScope::Internal)
    } else if same_text(name, "refund") {
        Ok(TransparentScope::Refund)
    } else {
        Err(CommandError::UnexpectedType(join3("invalid scope \"", name, "\"")))
    }
}

/// The shielded scope of a selector: external where none is given, and the letter case of the
/// name does not matter.
pub fn parse_shielded_scope(value: Option<&str>) -> (scope: Result<Scope, CommandError>)
    ensures
        agrees(scope, shielded_scope_of(scope_name(text_view(value)))),
{
    shielded_scope_from_name(lower_scope_name(value).as_str())
}

/// The transparent scope of a selector: external where none is given, and the letter case of
/// the name does not matter.
pub fn parse_transparent_scope(value: Option<&str>) -> (scope: Result<
    TransparentScope,
    CommandError,
>)
    ensures
        agrees(scope, transparent_scope_of(scope_name(text_view(value)))),
{
    transparent_scope_from_name(lower_scope_name(value).as_str())
}

pub open spec fn account_outcome(raw: Option<u64>) -> Result<AccountId, CommandErrorModel> {
    let index = match raw {
        Some(value) => low_32(value),
        None => 0,
    };
    if index < INDEX_LIMIT {
        Ok(AccountId { index })
    } else {
        Err(CommandErrorModel::UnexpectedType("account id is out of range"@))
    }
}

/// The account of a selector: the first one where none is given. Only the lower 32 bits of the
/// number count.
pub fn parse_account_id(raw: Option<u64>) -> (account: Result<AccountId, CommandError>)
    ensures
        agrees(account, account_outcome(raw)),
{
    let value = raw.unwrap_or(0);
    match AccountId::from_index(truncate_to_u32(value)) {
        Some(account) => Ok(account),
        None => Err(CommandError::UnexpectedType("account id is out of range".to_owned())),
    }
}

pub open spec fn not_an_index(key: Seq<char>) -> CommandErrorModel {
    CommandErrorModel::UnexpectedType("\""@ + key + "\" must be a non-negative integer"@)
}

pub open spec fn required_u32_outcome(target: JsonModel, key: Seq<char>) -> Result<
    u32,
    CommandErrorModel,
> {
    match target.field(key) {
        None => Err(CommandErrorModel::MissingKey(key)),
        Some(value) => match value.unsigned() {
            Some(number) => Ok(low_32(number)),
            None => Err(not_an_index(key)),
        },
    }
}

/// The number under `key`, which has to be there. Only its lower 32 bits count.
pub fn parse_required_u32(target: &Json, key: &str) -> (number: Result<u32, CommandError>)
    ensures
        agrees(number, required_u32_outcome(target@, key@)),
{
    match target.get(key) {
        None => Err(CommandError::MissingKey(key.to_owned())),
        Some(value) => match value.as_u64() {
            Some(number) => Ok(truncate_to_u32(number)),
            None => Err(
                CommandError::UnexpectedType(join3("\"", key, "\" must be a non-negative integer")),
            ),
        },
    }
}

pub open spec fn optional_u32_outcome(target: JsonModel, key: Seq<char>) -> Result<
    Option<u32>,
    CommandErrorModel,
> {
    match target.field(key) {
        None => Ok(None),
        Some(value) => if value.kind is Null {
            Ok(None)
        } else {
            match value.unsigned() {
                Some(number) => Ok(Some(low_32(number))),
                None => Err(not_an_index(key)),
            }
        },
    }
}

/// The number under `key`, where there is one. Only its lower 32 bits count.
pub fn parse_optional_u32(target: &Json, key: &str) -> (number: Result<Option<u32>, CommandError>)
    ensures
        agrees(number, optional_u32_outcome(target@, key@)),
{
    match target.get(key) {
        None => Ok(None),
        Some(value) => if value.is_null() {
            Ok(None)
        } else {
            match value.as_u64() {
                Some(number) => Ok(Some(truncate_to_u32(number))),
                None => Err(
                    CommandError::UnexpectedType(
                        join3("\"", key, "\" must be a non-negative integer"),
                    ),
                ),
            }
        },
    }
}

/// The index range of a selector: its first index, and its last where one is given, which may
/// not be below the first.
pub open spec fn index_range_outcome(value: JsonModel) -> Result<
    (u32, Option<u32>),
    CommandErrorModel,
> {
    match required_u32_outcome(value, "address_index"@) {
        Err(error) => Err(error),
        Ok(start) => match optional_u32_outcome(value, "max_address_index"@) {
            Err(error) => Err(error),
            Ok(max) => if max is Some && max->0 < start {
                Err(
                    CommandErrorModel::UnexpectedType(
                        "\"max_address_index\" must be >= \"address_index\""@,
                    ),
                )
            } else {
                Ok((start, max))
            },
        },
    }
}

fn parse_index_range(value: &Json) -> (range: Result<(u32, Option<u32>), CommandError>)
    ensures
        agrees(range, index_range_outcome(value@)),
{
    let start_index = parse_required_u32(value, "address_index")?;
    let max_index = parse_optional_u32(value, "max_address_index")?;
    if let Some(last) = max_index {
        if last < start_index {
            return Err(
                CommandError::UnexpectedType(
                    "\"max_address_index\" must be >= \"address_index\"".to_owned(),
                ),
            );
        }
    }
    Ok((start_index, max_index))
}

/// The restriction that a shielded selector describes: none where it is null.
pub open spec fn shielded_from_outcome(value: JsonModel) -> Result<
    Option<ShieldedAddressRestriction>,
    CommandErrorModel,
> {
    if value.kind is Null {
        Ok(None)
    } else if !(value.kind is Object) {
        Err(CommandErrorModel::UnexpectedType("\"from\" must be a JSON object"@))
    } else {
        match shielded_scope_of(scope_name(value.at("scope"@).string())) {
            Err(error) => Err(error),
            Ok(Scope::Internal) => Err(
                CommandErrorModel::UnexpectedType(
                    "shielded restrictions currently support external scope only"@,
                ),
            ),
            Ok(Scope::External) => match account_outcome(value.at("account"@).unsigned()) {
                Err(error) => Err(error),
                Ok(account) => match index_range_outcome(value) {
                    Err(error) => Err(error),
                    Ok((start_index, max_index)) => Ok(
                        Some(ShieldedAddressRestriction { account, start_index, max_index }),
                    ),
                },
            },
        }
    }
}

/// Reads a shielded selector.
pub fn parse_shielded_from(value: &Json) -> (restriction: Result<
    Option<ShieldedAddressRestriction>,
    CommandError,
>)
    ensures
        agrees(restriction, shielded_from_outcome(value@)),
{
    if value.is_null() {
        return Ok(None);
    }
    if !value.is_object() {
        return Err(CommandError::UnexpectedType("\"from\" must be a JSON object".to_owned()));
    }
    let scope = parse_shielded_scope(str_at(value, "scope"))?;
    if scope != Scope::External {
        return Err(
            CommandError::UnexpectedType(
                "shielded restrictions currently support external scope only".to_owned(),
            ),
        );
    }
    let account = parse_account_id(u64_at(value, "account"))?;
    let (start_index, max_index) = parse_index_range(value)?;
    Ok(Some(ShieldedAddressRestriction::new(account, start_index, max_index)))
}

/// The restriction that a transparent selector describes: none where it is null.
pub open spec fn transparent_from_outcome(value: JsonModel) -> Result<
    Option<TransparentAddressRestriction>,
    CommandErrorModel,
> {
    if value.kind is Null {
        Ok(None)
    } else if !(value.kind is Object) {
        Err(CommandErrorModel::UnexpectedType("transparent selector must be a JSON object"@))
    } else {
        match transparent_scope_of(scope_name(value.at("scope"@).string())) {
            Err(error) => Err(error),
            Ok(scope) => match account_outcome(value.at("account"@).unsigned()) {
                Err(error) => Err(error),
                Ok(account) => match index_range_outcome(value) {
                    Err(error) => Err(error),
                    Ok((start_index, max_index)) => Ok(
                        Some(
                            TransparentAddressRestriction {
                                account,
                                scope,
                                start_index,
                                max_index,
                            },
                        ),
                    ),
                },
            },
        }
    }
}

/// Reads a transparent selector.
pub fn parse_transparent_from(value: &Json) -> (restriction: Result<
    Option<TransparentAddressRestriction>,
    CommandError,
>)
    ensures
        agrees(restriction, transparent_from_outcome(value@)),
{
    if value.is_null() {
        return Ok(None);
    }
    if !value.is_object() {
        return Err(
            CommandError::UnexpectedType("transparent selector must be a JSON object".to_owned()),
        );
    }
    let scope = parse_transparent_scope(str_at(value, "scope"))?;
    let account = parse_account_id(u64_at(value, "account"))?;
    let (start_index, max_index) = parse_index_range(value)?;
    Ok(Some(TransparentAddressRestriction::new(account, scope, start_index, max_index)))
}

fn str_at<'a>(value: &'a Json, key: &str) -> (text: Option<&'a str>)
    ensures
        text_view(text) == value@.at(key@).string(),
{
    match value.get(key) {
        Some(field) => field.as_str(),
        None => None,
    }
}

fn u64_at(value: &Json, key: &str) -> (number: Option<u64>)
    ensures
        number == value@.at(key@).unsigned(),
{
    match value.get(key) {
        Some(field) => field.as_u64(),
        None => None,
    }
}

/// The selector under the key `from` of a larger value, or none where the key is missing.
fn shielded_from_field(value: &Json) -> (restriction: Result<
    Option<ShieldedAddressRestriction>,
    CommandError,
>)
    ensures
        agrees(restriction, shielded_from_outcome(value@.at("from"@))),
{
    match value.get("from") {
        Some(from) => parse_shielded_from(from),
        None => Ok(None),
    }
}

/// Where the selector stands in an argument: under the key `from` where there is one, else the
/// argument is the selector.
pub open spec fn selector_outcome(argument: JsonModel) -> Result<JsonModel, CommandErrorModel> {
    if !(argument.kind is Object) {
        Err(CommandErrorModel::UnexpectedType("expected a JSON object describing the selector"@))
    } else {
        match argument.field("from"@) {
            None => Ok(argument),
            Some(from) => if from.kind is Object {
                Ok(from)
            } else {
                Err(CommandErrorModel::UnexpectedType("\"from\" must be a JSON object"@))
            },
        }
    }
}

/// Finds the selector in an argument.
pub fn extract_restriction_object<'a>(json_arg: &'a Json) -> (selector: Result<
    &'a Json,
    CommandError,
>)
    ensures
        match selector {
            Ok(value) => selector_outcome(json_arg@) == Ok::<JsonModel, CommandErrorModel>(value@),
            Err(error) => selector_outcome(json_arg@) == Err::<JsonModel, CommandErrorModel>(
                error@,
            ),
        },
{
    if !json_arg.is_object() {
        return Err(
            CommandError::UnexpectedType(
                "expected a JSON object describing the selector".to_owned(),
            ),
        );
    }
    match json_arg.get("from") {
        Some(from) => {
            if !from.is_object() {
                return Err(
                    CommandError::UnexpectedType("\"from\" must be a JSON object".to_owned()),
                );
            }
            Ok(from)
        },
        None => Ok(json_arg),
    }
}

/// The characters of the arguments of a command.
pub open spec fn texts(args: Seq<&str>) -> Seq<Seq<char>> {
    args.map_values(|arg: &str| arg@)
}

/// What a single argument that is JSON says of the transparent restriction.
pub open spec fn transparent_argument_outcome(argument: JsonModel) -> Result<
    Option<TransparentAddressRestriction>,
    CommandErrorModel,
> {
    match selector_outcome(argument) {
        Err(error) => Err(error),
        Ok(selector) => transparent_from_outcome(selector),
    }
}

pub open spec fn transparent_restriction_outcome(args: Seq<Seq<char>>) -> Result<
    Option<TransparentAddressRestriction>,
    CommandErrorModel,
> {
    if args.len() == 0 {
        Ok(None)
    } else if args.len() == 1 {
        match json_outcome(args[0]) {
            Err(reason) => Err(CommandErrorModel::ArgsNotJson(reason)),
            Ok(argument) => transparent_argument_outcome(argument),
        }
    } else {
        Err(CommandErrorModel::InvalidArguments)
    }
}

/// Reads the transparent restriction from an argument that is JSON.
pub fn transparent_restriction_from_json(json_arg: &Json) -> (restriction: Result<
    Option<TransparentAddressRestriction>,
    CommandError,
>)
    ensures
        agrees(restriction, transparent_argument_outcome(json_arg@)),
{
    let selector = extract_restriction_object(json_arg)?;
    parse_transparent_from(selector)
}

/// Reads the arguments of a shield: none, or one JSON object with a transparent selector.
pub fn parse_transparent_restriction_args(args: &[&str]) -> (restriction: Result<
    Option<TransparentAddressRestriction>,
    CommandError,
>)
    ensures
        agrees(restriction, transparent_restriction_outcome(texts(args@))),
{
    if args.len() == 0 {
        return Ok(None);
    }
    if args.len() == 1 {
        return match parse_json(args[0]) {
            Err(reason) => Err(CommandError::ArgsNotJson(reason)),
            Ok(json_arg) => transparent_restriction_from_json(&json_arg),
        };
    }
    Err(CommandError::InvalidArguments)
}

/// Whether a memo goes with an address: any address does without one, and an address that can
/// receive memos with one.
pub open spec fn memo_fits(address: AddressModel, has_memo: bool) -> bool {
    address.can_receive_memo || !has_memo
}

/// Checks that no memo is sent to an address that cannot receive it.
pub fn check_memo_compatibility(address: &Address, memo: &Option<MemoBytes>) -> (result: Result<
    (),
    CommandError,
>)
    ensures
        match result {
            Ok(_) => memo_fits(address@, memo is Some),
            Err(error) => !memo_fits(address@, memo is Some) && error@
                == CommandErrorModel::IncompatibleMemo,
        },
{
    if !address.can_receive_memo && memo.is_some() {
        return Err(CommandError::IncompatibleMemo);
    }
    Ok(())
}

/// The text under the key `address`, which has to be there.
pub open spec fn address_text_outcome(value: JsonModel) -> Result<Seq<char>, CommandErrorModel> {
    match value.field("address"@) {
        None => Err(CommandErrorModel::MissingKey("address"@)),
        Some(field) => match field.string() {
            None => Err(CommandErrorModel::UnexpectedType("address is not a string!"@)),
            Some(text) => Ok(text),
        },
    }
}

/// The text under the key `address`.
pub fn address_text_from_json<'a>(json_array: &'a Json) -> (text: Result<&'a str, CommandError>)
    ensures
        match text {
            Ok(value) => address_text_outcome(json_array@) == Ok::<Seq<char>, CommandErrorModel>(
                value@,
            ),
            Err(error) => address_text_outcome(json_array@) == Err::<Seq<char>, CommandErrorModel>(
                error@,
            ),
        },
{
    match json_array.get("address") {
        None => Err(CommandError::MissingKey("address".to_owned())),
        Some(field) => match field.as_str() {
            None => Err(CommandError::UnexpectedType("address is not a string!".to_owned())),
            Some(text) => Ok(text),
        },
    }
}

pub open spec fn address_json_outcome(value: JsonModel) -> Result<AddressModel, CommandErrorModel> {
    match address_text_outcome(value) {
        Err(error) => Err(error),
        Ok(text) => match address_outcome(text) {
            Err(error) => Err(CommandErrorModel::ConversionFailed(error)),
            Ok(address) => Ok(address),
        },
    }
}

/// The address under the key `address`.
pub fn address_from_json(json_array: &Json) -> (address: Result<Address, CommandError>)
    ensures
        match address {
            Ok(value) => address_json_outcome(json_array@) == Ok::<AddressModel, CommandErrorModel>(
                value@,
            ),
            Err(error) => address_json_outcome(json_array@) == Err::<
                AddressModel,
                CommandErrorModel,
            >(error@),
        },
{
    let text = address_text_from_json(json_array)?;
    match address_from_str(text) {
        Err(error) => Err(CommandError::ConversionFailed(error)),
        Ok(address) => Ok(address),
    }
}

pub open spec fn zennies_outcome(value: JsonModel) -> Result<bool, CommandErrorModel> {
    match value.field("zennies_for_zingo"@) {
        None => Err(CommandErrorModel::MissingZenniesForZingoFlag),
        Some(field) => match field.boolean() {
            Some(flag) => Ok(flag),
            None => Err(CommandErrorModel::ZenniesFlagNonBool(field.text)),
        },
    }
}

/// The flag under the key `zennies_for_zingo`, which has to be there.
pub fn zennies_flag_from_json(json_arg: &Json) -> (flag: Result<bool, CommandError>)
    ensures
        agrees(flag, zennies_outcome(json_arg@)),
{
    match json_arg.get("zennies_for_zingo") {
        None => Err(CommandError::MissingZenniesForZingoFlag),
        Some(field) => match field.as_bool() {
            Some(flag) => Ok(flag),
            None => Err(CommandError::ZenniesFlagNonBool(field.text.clone())),
        },
    }
}

/// An amount, where the number is one.
pub open spec fn amount_outcome(number: u64) -> Result<u64, CommandErrorModel> {
    if number <= MAX_MONEY {
        Ok(number)
    } else {
        Err(CommandErrorModel::ConversionFailed(ConversionErrorModel::AmountOutOfRange))
    }
}

fn checked_amount(number: u64) -> (amount: Result<u64, CommandError>)
    ensures
        agrees(amount, amount_outcome(number)),
{
    match zatoshis_from_u64(number) {
        Ok(amount) => Ok(amount),
        Err(error) => Err(CommandError::ConversionFailed(error)),
    }
}

pub open spec fn zatoshis_outcome(value: JsonModel) -> Result<u64, CommandErrorModel> {
    match value.field("amount"@) {
        None => Err(CommandErrorModel::MissingKey("amount"@)),
        Some(field) => if field.kind is Number {
            match field.unsigned() {
                Some(number) => amount_outcome(number),
                None => Err(CommandErrorModel::UnexpectedType("amount not a u64!"@)),
            }
        } else {
            Err(
                CommandErrorModel::NonJsonNumberForAmount(
                    "\"amount\": "@ + field.text + "\nis not a json::number::Number"@,
                ),
            )
        },
    }
}

/// The amount in zatoshis under the key `amount`, which has to be there.
pub fn zatoshis_from_json(json_array: &Json) -> (amount: Result<u64, CommandError>)
    ensures
        agrees(amount, zatoshis_outcome(json_array@)),
{
    match json_array.get("amount") {
        None => Err(CommandError::MissingKey("amount".to_owned())),
        Some(field) => {
            if field.is_number() {
                match field.as_u64() {
                    Some(number) => checked_amount(number),
                    None => Err(CommandError::UnexpectedType("amount not a u64!".to_owned())),
                }
            } else {
                Err(
                    CommandError::NonJsonNumberForAmount(
                        join3(
                            "\"amount\": ",
                            field.text.as_str(),
                            "\nis not a json::number::Number",
                        ),
                    ),
                )
            }
        },
    }
}

/// What a text is as the memo of a command.
pub open spec fn memo_text_outcome(text: Seq<char>) -> Result<Seq<u8>, CommandErrorModel> {
    match memo_outcome(text) {
        Ok(memo) => Ok(memo),
        Err(reason) => Err(CommandErrorModel::InvalidMemo(reason)),
    }
}

fn memo_from_text(text: &str) -> (memo: Result<MemoBytes, CommandError>)
    ensures
        match memo {
            Ok(value) => memo_text_outcome(text@) == Ok::<Seq<u8>, CommandErrorModel>(value@),
            Err(error) => memo_text_outcome(text@) == Err::<Seq<u8>, CommandErrorModel>(error@),
        },
{
    match interpret_memo_string(text) {
        Ok(memo) => Ok(memo),
        Err(reason) => Err(CommandError::InvalidMemo(reason)),
    }
}

pub open spec fn memo_json_outcome(value: JsonModel) -> Result<
    Option<Seq<u8>>,
    CommandErrorModel,
> {
    match value.at("memo"@).string() {
        None => Ok(None),
        Some(text) => match memo_text_outcome(text) {
            Ok(memo) => Ok(Some(memo)),
            Err(error) => Err(error),
        },
    }
}

/// The memo under the key `memo`: none where there is no text.
pub fn memo_from_json(json_array: &Json) -> (memo: Result<Option<MemoBytes>, CommandError>)
    ensures
        match memo {
            Ok(value) => memo_json_outcome(json_array@) == Ok::<
                Option<Seq<u8>>,
                CommandErrorModel,
            >(memo_view(value)),
            Err(error) => memo_json_outcome(json_array@) == Err::<
                Option<Seq<u8>>,
                CommandErrorModel,
            >(error@),
        },
{
    match str_at(json_array, "memo") {
        None => Ok(None),
        Some(text) => match memo_from_text(text) {
            Ok(memo) => Ok(Some(memo)),
            Err(error) => Err(error),
        },
    }
}

/// A receiver, where the memo goes with the address.
pub open spec fn receiver_of_parts(
    recipient_address: AddressModel,
    amount: u64,
    memo: Option<Seq<u8>>,
) -> Result<ReceiverModel, CommandErrorModel> {
    if memo_fits(recipient_address, memo is Some) {
        Ok(ReceiverModel { recipient_address, amount, memo })
    } else {
        Err(CommandErrorModel::IncompatibleMemo)
    }
}

/// Whether a parser of one receiver returned what it should.
pub open spec fn agrees_on_receiver(
    parsed: Result<Receiver, CommandError>,
    outcome: Result<ReceiverModel, CommandErrorModel>,
) -> bool {
    match parsed {
        Ok(value) => outcome == Ok::<ReceiverModel, CommandErrorModel>(value@),
        Err(error) => outcome == Err::<ReceiverModel, CommandErrorModel>(error@),
    }
}

/// Puts a receiver together.
pub fn receiver_from_parts(
    recipient_address: Address,
    amount: u64,
    memo: Option<MemoBytes>,
) -> (receiver: Result<Receiver, CommandError>)
    ensures
        agrees_on_receiver(
            receiver,
            receiver_of_parts(recipient_address@, amount, memo_view(memo)),
        ),
{
    check_memo_compatibility(&recipient_address, &memo)?;
    Ok(Receiver { recipient_address, amount, memo })
}

pub open spec fn receiver_outcome(value: JsonModel) -> Result<ReceiverModel, CommandErrorModel> {
    match address_json_outcome(value) {
        Err(error) => Err(error),
        Ok(address) => match zatoshis_outcome(value) {
            Err(error) => Err(error),
            Ok(amount) => match memo_json_outcome(value) {
                Err(error) => Err(error),
                Ok(memo) => receiver_of_parts(address, amount, memo),
            },
        },
    }
}

/// The receivers that the members of an array describe, one each and in their order, or the
/// error of the first member that describes none.
pub open spec fn receivers_outcome(members: Seq<JsonModel>) -> Result<
    Seq<ReceiverModel>,
    CommandErrorModel,
>
    decreases members.len(),
{
    if members.len() == 0 {
        Ok(Seq::empty())
    } else {
        match receivers_outcome(members.drop_last()) {
            Err(error) => Err(error),
            Ok(receivers) => match receiver_outcome(members.last()) {
                Err(error) => Err(error),
                Ok(receiver) => Ok(receivers.push(receiver)),
            },
        }
    }
}

pub open spec fn receivers_array_outcome(value: JsonModel) -> Result<
    Seq<ReceiverModel>,
    CommandErrorModel,
> {
    if value.is_empty() {
        Err(CommandErrorModel::EmptyJsonArray)
    } else {
        match value.kind {
            JsonKindModel::Array(members) => receivers_outcome(members),
            _ => Ok(Seq::empty()),
        }
    }
}

pub open spec fn receivers_view(receivers: Seq<Receiver>) -> Seq<ReceiverModel> {
    receivers.map_values(|receiver: Receiver| receiver@)
}

proof fn error_of_a_prefix(members: Seq<JsonModel>, count: int)
    requires
        0 <= count <= members.len(),
        receivers_outcome(members.take(count)) is Err,
    ensures
        receivers_outcome(members) == receivers_outcome(members.take(count)),
    decreases members.len() - count,
{
    if count < members.len() {
        assert(members.take(count + 1).drop_last() == members.take(count));
        error_of_a_prefix(members, count + 1);
    } else {
        assert(members.take(count) == members);
    }
}

fn receiver_from_json(value: &Json) -> (receiver: Result<Receiver, CommandError>)
    ensures
        agrees_on_receiver(receiver, receiver_outcome(value@)),
{
    let recipient_address = address_from_json(value)?;
    let amount = zatoshis_from_json(value)?;
    let memo = memo_from_json(value)?;
    receiver_from_parts(recipient_address, amount, memo)
}

/// Reads an array of receivers, which may not be empty.
pub fn parse_receivers_array(json_array: &Json) -> (receivers: Result<Vec<Receiver>, CommandError>)
    ensures
        match receivers {
            Ok(value) => receivers_array_outcome(json_array@) == Ok::<
                Seq<ReceiverModel>,
                CommandErrorModel,
            >(receivers_view(value@)),
            Err(error) => receivers_array_outcome(json_array@) == Err::<
                Seq<ReceiverModel>,
                CommandErrorModel,
            >(error@),
        },
{
    if json_array.is_empty() {
        return Err(CommandError::EmptyJsonArray);
    }
    let mut receivers: Vec<Receiver> = Vec::new();
    assert(receivers_view(receivers@) =~= Seq::<ReceiverModel>::empty());
    if let JsonKind::Array(members) = &json_array.kind {
        let ghost models = members_model(members@);
        proof {
            members_model_at(members@);
        }
        let mut at: usize = 0;
        assert(models.take(0) =~= Seq::<JsonModel>::empty());
        while at < members.len()
            invariant
                at <= members.len(),
                models.len() == members.len(),
                forall|i: int| 0 <= i < models.len() ==> #[trigger] models[i] == members[i]@,
                receivers_outcome(models.take(at as int)) == Ok::<
                    Seq<ReceiverModel>,
                    CommandErrorModel,
                >(receivers_view(receivers@)),
                receivers_array_outcome(json_array@) == receivers_outcome(models),
            decreases members.len() - at,
        {
            let ghost upto = models.take(at + 1);
            assert(upto.drop_last() =~= models.take(at as int));
            assert(upto.last() == models[at as int]);
            let ghost before = receivers@;
            match receiver_from_json(&members[at]) {
                Ok(receiver) => {
                    receivers.push(receiver);
                    assert(receivers_view(receivers@) =~= receivers_view(before).push(receiver@));
                },
                Err(error) => {
                    proof {
                        error_of_a_prefix(models, at + 1);
                    }
                    return Err(error);
                },
            }
            at = at + 1;
        }
        assert(models.take(at as int) =~= models);
    }
    Ok(receivers)
}

/// What a send consists of: the receivers and where the spent notes may come from.
pub open spec fn send_json_outcome(argument: JsonModel) -> Result<
    (Seq<ReceiverModel>, Option<ShieldedAddressRestriction>),
    CommandErrorModel,
> {
    match argument.kind {
        JsonKindModel::Array(_) => match receivers_array_outcome(argument) {
            Err(error) => Err(error),
            Ok(receivers) => Ok((receivers, None)),
        },
        JsonKindModel::Object(_) => match argument.field("receivers"@) {
            None => Err(CommandErrorModel::MissingKey("receivers"@)),
            Some(field) => if !(field.kind is Array) {
                Err(CommandErrorModel::UnexpectedType("\"receivers\" must be an array"@))
            } else {
                match receivers_array_outcome(field) {
                    Err(error) => Err(error),
                    Ok(receivers) => match shielded_from_outcome(argument.at("from"@)) {
                        Err(error) => Err(error),
                        Ok(restriction) => Ok((receivers, restriction)),
                    },
                }
            },
        },
        _ => Err(CommandErrorModel::SingleArgNotJsonArray(argument.text)),
    }
}

/// Whether a parser of a send returned what it should.
pub open spec fn agrees_on_send(
    parsed: Result<(Vec<Receiver>, Option<ShieldedAddressRestriction>), CommandError>,
    outcome: Result<(Seq<ReceiverModel>, Option<ShieldedAddressRestriction>), CommandErrorModel>,
) -> bool {
    match parsed {
        Ok(send) => outcome matches Ok(expected) && expected.0 == receivers_view(send.0@)
            && expected.1 == send.1,
        Err(error) => outcome matches Err(expected) && expected == error@,
    }
}

/// Reads a send from an argument that is JSON: an array of receivers, or an object with the
/// receivers and a shielded selector.
pub fn send_from_json(json_args: &Json) -> (send: Result<
    (Vec<Receiver>, Option<ShieldedAddressRestriction>),
    CommandError,
>)
    ensures
        agrees_on_send(send, send_json_outcome(json_args@)),
{
    if json_args.is_array() {
        let receivers = parse_receivers_array(json_args)?;
        Ok((receivers, None))
    } else if json_args.is_object() {
        match json_args.get("receivers") {
            None => Err(CommandError::MissingKey("receivers".to_owned())),
            Some(receivers_json) => {
                if !receivers_json.is_array() {
                    return Err(
                        CommandError::UnexpectedType("\"receivers\" must be an array".to_owned()),
                    );
                }
                let receivers = parse_receivers_array(receivers_json)?;
                let restriction = shielded_from_field(json_args)?;
                Ok((receivers, restriction))
            },
        }
    } else {
        Err(CommandError::SingleArgNotJsonArray(json_args.text.clone()))
    }
}

/// What a text is as an amount on the command line: white space around it does not matter.
pub open spec fn amount_text_outcome(text: Seq<char>) -> Result<u64, CommandErrorModel> {
    match unsigned_value(trimmed(text)) {
        Some(number) => if number <= u64::MAX {
            amount_outcome(number as u64)
        } else {
            Err(CommandErrorModel::ParseIntFromString)
        },
        None => Err(CommandErrorModel::ParseIntFromString),
    }
}

fn amount_from_text(text: &str) -> (amount: Result<u64, CommandError>)
    ensures
        agrees(amount, amount_text_outcome(text@)),
{
    match parse_u64(trim_text(text)) {
        Ok(number) => checked_amount(number),
        Err(error) => Err(CommandError::ParseIntFromString(error)),
    }
}

/// A send to one address, with the amount and the optional memo as they stand on the command
/// line.
pub open spec fn single_send_outcome(
    address: AddressModel,
    amount: Seq<char>,
    memo: Option<Seq<char>>,
) -> Result<(Seq<ReceiverModel>, Option<ShieldedAddressRestriction>), CommandErrorModel> {
    match amount_text_outcome(amount) {
        Err(error) => Err(error),
        Ok(amount) => match optional_memo_outcome(memo) {
            Err(error) => Err(error),
            Ok(memo) => match receiver_of_parts(address, amount, memo) {
                Err(error) => Err(error),
                Ok(receiver) => Ok((seq![receiver], None)),
            },
        },
    }
}

pub open spec fn optional_memo_outcome(memo: Option<Seq<char>>) -> Result<
    Option<Seq<u8>>,
    CommandErrorModel,
> {
    match memo {
        None => Ok(None),
        Some(text) => match memo_text_outcome(text) {
            Err(error) => Err(error),
            Ok(bytes) => Ok(Some(bytes)),
        },
    }
}

/// Reads a send to one address.
pub fn single_send(address: Address, amount: &str, memo: Option<&str>) -> (send: Result<
    (Vec<Receiver>, Option<ShieldedAddressRestriction>),
    CommandError,
>)
    ensures
        agrees_on_send(send, single_send_outcome(address@, amount@, text_view(memo))),
{
    let amount = amount_from_text(amount)?;
    let memo = match memo {
        Some(text) => Some(memo_from_text(text)?),
        None => None,
    };
    let receiver = receiver_from_parts(address, amount, memo)?;
    let mut receivers: Vec<Receiver> = Vec::new();
    receivers.push(receiver);
    assert(receivers_view(receivers@) =~= seq![receiver@]);
    Ok((receivers, None))
}

pub open spec fn send_outcome(args: Seq<Seq<char>>) -> Result<
    (Seq<ReceiverModel>, Option<ShieldedAddressRestriction>),
    CommandErrorModel,
> {
    if args.len() == 1 {
        match json_outcome(args[0]) {
            Err(reason) => Err(CommandErrorModel::ArgsNotJson(reason)),
            Ok(argument) => send_json_outcome(argument),
        }
    } else if args.len() == 2 || args.len() == 3 {
        match address_outcome(args[0]) {
            Err(error) => Err(CommandErrorModel::ConversionFailed(error)),
            Ok(address) => single_send_outcome(
                address,
                args[1],
                if args.len() == 3 {
                    Some(args[2])
                } else {
                    None
                },
            ),
        }
    } else {
        Err(CommandErrorModel::InvalidArguments)
    }
}

/// Reads the arguments of a send, which have two forms:
/// - one argument that is JSON, for any number of receivers: an array of objects with the keys
///   `address`, `amount` and optionally `memo`, or an object with such an array under
///   `receivers` and optionally a selector under `from`;
/// - an address, an amount and optionally a memo, for one receiver.
pub fn parse_send_args(args: &[&str]) -> (send: Result<
    (Vec<Receiver>, Option<ShieldedAddressRestriction>),
    CommandError,
>)
    ensures
        agrees_on_send(send, send_outcome(texts(args@))),
{
    if args.len() == 1 {
        return match parse_json(args[0]) {
            Err(reason) => Err(CommandError::ArgsNotJson(reason)),
            Ok(json_args) => send_from_json(&json_args),
        };
    }
    if args.len() == 2 || args.len() == 3 {
        return match address_from_str(args[0]) {
            Err(error) => Err(CommandError::ConversionFailed(error)),
            Ok(address) => {
                let memo = if args.len() == 3 {
                    Some(args[2])
                } else {
                    None
                };
                single_send(address, args[1], memo)
            },
        };
    }
    Err(CommandError::InvalidArguments)
}

/// What a send of all funds consists of: the address, whether zennies are added, the memo and
/// where the spent notes may come from.
pub open spec fn send_all_json_outcome(argument: JsonModel) -> Result<
    (AddressModel, bool, Option<Seq<u8>>, Option<ShieldedAddressRestriction>),
    CommandErrorModel,
> {
    if argument.kind is Array {
        Err(CommandErrorModel::JsonArrayNotObj(argument.text))
    } else if argument.is_empty() {
        Err(CommandErrorModel::EmptyJsonArray)
    } else {
        match address_json_outcome(argument) {
            Err(error) => Err(error),
            Ok(address) => match memo_json_outcome(argument) {
                Err(error) => Err(error),
                Ok(memo) => if !memo_fits(address, memo is Some) {
                    Err(CommandErrorModel::IncompatibleMemo)
                } else {
                    match zennies_outcome(argument) {
                        Err(error) => Err(error),
                        Ok(zennies) => match shielded_from_outcome(argument.at("from"@)) {
                            Err(error) => Err(error),
                            Ok(restriction) => Ok((address, zennies, memo, restriction)),
                        },
                    }
                },
            },
        }
    }
}

/// Whether a parser of a send of all funds returned what it should.
pub open spec fn agrees_on_send_all(
    parsed: Result<
        (Address, bool, Option<MemoBytes>, Option<ShieldedAddressRestriction>),
        CommandError,
    >,
    outcome: Result<
        (AddressModel, bool, Option<Seq<u8>>, Option<ShieldedAddressRestriction>),
        CommandErrorModel,
    >,
) -> bool {
    match parsed {
        Ok(send) => outcome matches Ok(expected) && expected == (
            send.0@,
            send.1,
            memo_view(send.2),
            send.3,
        ),
        Err(error) => outcome matches Err(expected) && expected == error@,
    }
}

/// Reads a send of all funds from an argument that is JSON.
pub fn send_all_from_json(json_arg: &Json) -> (send: Result<
    (Address, bool, Option<MemoBytes>, Option<ShieldedAddressRestriction>),
    CommandError,
>)
    ensures
        agrees_on_send_all(send, send_all_json_outcome(json_arg@)),
{
    if json_arg.is_array() {
        return Err(CommandError::JsonArrayNotObj(json_arg.text.clone()));
    }
    if json_arg.is_empty() {
        return Err(CommandError::EmptyJsonArray);
    }
    let address = address_from_json(json_arg)?;
    let memo = memo_from_json(json_arg)?;
    check_memo_compatibility(&address, &memo)?;
    let zennies_for_zingo = zennies_flag_from_json(json_arg)?;
    let restriction = shielded_from_field(json_arg)?;
    Ok((address, zennies_for_zingo, memo, restriction))
}

/// A send of all funds to an address, with the memo as it stands on the command line.
pub open spec fn send_all_to_outcome(address: AddressModel, memo: Seq<char>) -> Result<
    (AddressModel, bool, Option<Seq<u8>>, Option<ShieldedAddressRestriction>),
    CommandErrorModel,
> {
    match memo_text_outcome(memo) {
        Err(error) => Err(error),
        Ok(bytes) => if memo_fits(address, true) {
            Ok((address, false, Some(bytes), None))
        } else {
            Err(CommandErrorModel::IncompatibleMemo)
        },
    }
}

/// Reads a send of all funds to an address with a memo.
pub fn send_all_to(address: Address, memo: &str) -> (send: Result<
    (Address, bool, Option<MemoBytes>, Option<ShieldedAddressRestriction>),
    CommandError,
>)
    ensures
        agrees_on_send_all(send, send_all_to_outcome(address@, memo@)),
{
    let memo = Some(memo_from_text(memo)?);
    check_memo_compatibility(&address, &memo)?;
    Ok((address, false, memo, None))
}

pub open spec fn send_all_outcome(args: Seq<Seq<char>>) -> Result<
    (AddressModel, bool, Option<Seq<u8>>, Option<ShieldedAddressRestriction>),
    CommandErrorModel,
> {
    if args.len() == 1 {
        match address_outcome(args[0]) {
            Ok(address) => Ok((address, false, None, None)),
            Err(_) => match json_outcome(args[0]) {
                Err(_) => Err(CommandErrorModel::ArgNotJsonOrValidAddress),
                Ok(argument) => send_all_json_outcome(argument),
            },
        }
    } else if args.len() == 2 {
        match address_outcome(args[0]) {
            Err(error) => Err(CommandErrorModel::ConversionFailed(error)),
            Ok(address) => send_all_to_outcome(address, args[1]),
        }
    } else {
        Err(CommandErrorModel::InvalidArguments)
    }
}

/// Reads the arguments of a send of all funds, which have three forms:
/// - an address;
/// - an address and a memo;
/// - a JSON object with the keys `address` and `zennies_for_zingo` and optionally `memo` and
///   `from`.
pub fn parse_send_all_args(args: &[&str]) -> (send: Result<
    (Address, bool, Option<MemoBytes>, Option<ShieldedAddressRestriction>),
    CommandError,
>)
    ensures
        agrees_on_send_all(send, send_all_outcome(texts(args@))),
{
    if args.len() == 1 {
        match address_from_str(args[0]) {
            Ok(address) => Ok((address, false, None, None)),
            Err(_) => match parse_json(args[0]) {
                Err(_) => Err(CommandError::ArgNotJsonOrValidAddress),
                Ok(json_arg) => send_all_from_json(&json_arg),
            },
        }
    } else if args.len() == 2 {
        match address_from_str(args[0]) {
            Err(error) => Err(CommandError::ConversionFailed(error)),
            Ok(address) => send_all_to(address, args[1]),
        }
    } else {
        Err(CommandError::InvalidArguments)
    }
}

/// What a request for the spendable balance consists of: the address that would be sent to,
/// whether zennies are added and where the spent notes may come from.
pub open spec fn max_send_json_outcome(argument: JsonModel) -> Result<
    (AddressModel, bool, Option<ShieldedAddressRestriction>),
    CommandErrorModel,
> {
    if argument.kind is Array {
        Err(CommandErrorModel::JsonArrayNotObj("Pass an object, not an array."@))
    } else if argument.is_empty() {
        Err(CommandErrorModel::EmptyJsonArray)
    } else {
        match address_json_outcome(argument) {
            Err(error) => Err(error),
            Ok(address) => match zennies_outcome(argument) {
                Err(error) => Err(error),
                Ok(zennies) => match shielded_from_outcome(argument.at("from"@)) {
                    Err(error) => Err(error),
                    Ok(restriction) => Ok((address, zennies, restriction)),
                },
            },
        }
    }
}

/// Whether a parser of a request for the spendable balance returned what it should.
pub open spec fn agrees_on_max_send(
    parsed: Result<(Address, bool, Option<ShieldedAddressRestriction>), CommandError>,
    outcome: Result<(AddressModel, bool, Option<ShieldedAddressRestriction>), CommandErrorModel>,
) -> bool {
    match parsed {
        Ok(request) => outcome matches Ok(expected) && expected == (
            request.0@,
            request.1,
            request.2,
        ),
        Err(error) => outcome matches Err(expected) && expected == error@,
    }
}

/// Reads a request for the spendable balance from an argument that is JSON.
pub fn max_send_value_from_json(json_arg: &Json) -> (request: Result<
    (Address, bool, Option<ShieldedAddressRestriction>),
    CommandError,
>)
    ensures
        agrees_on_max_send(request, max_send_json_outcome(json_arg@)),
{
    if json_arg.is_array() {
        return Err(CommandError::JsonArrayNotObj("Pass an object, not an array.".to_owned()));
    }
    if json_arg.is_empty() {
        return Err(CommandError::EmptyJsonArray);
    }
    let address = address_from_json(json_arg)?;
    let zennies_for_zingo = zennies_flag_from_json(json_arg)?;
    let restriction = shielded_from_field(json_arg)?;
    Ok((address, zennies_for_zingo, restriction))
}

pub open spec fn max_send_outcome(args: Seq<Seq<char>>) -> Result<
    (AddressModel, bool, Option<ShieldedAddressRestriction>),
    CommandErrorModel,
> {
    if args.len() != 1 {
        Err(CommandErrorModel::InvalidArguments)
    } else {
        match address_outcome(args[0]) {
            Ok(address) => Ok((address, false, None)),
            Err(_) => match json_outcome(args[0]) {
                Err(_) => Err(CommandErrorModel::ArgNotJsonOrValidAddress),
                Ok(argument) => max_send_json_outcome(argument),
            },
        }
    }
}

/// Reads the argument of a request for the spendable balance: an address, or a JSON object with
/// the keys `address` and `zennies_for_zingo` and optionally `from`. Zennies can only be asked
/// for in JSON.
pub fn parse_max_send_value_args(args: &[&str]) -> (request: Result<
    (Address, bool, Option<ShieldedAddressRestriction>),
    CommandError,
>)
    ensures
        agrees_on_max_send(request, max_send_outcome(texts(args@))),
{
    if args.len() != 1 {
        return Err(CommandError::InvalidArguments);
    }
    match address_from_str(args[0]) {
        Ok(address) => Ok((address, false, None)),
        Err(_) => match parse_json(args[0]) {
            Err(_) => Err(CommandError::ArgNotJsonOrValidAddress),
            Ok(json_arg) => max_send_value_from_json(&json_arg),
        },
    }
}

/// Whether a receiver can be paid: the amount exists, and a memo fills the memo field and goes
/// to an address that can receive it.
pub open spec fn is_payable(receiver: ReceiverModel) -> bool {
    &&& receiver.amount <= MAX_MONEY
    &&& receiver.memo matches Some(memo) ==> memo.len() == MEMO_LENGTH
        && receiver.recipient_address.can_receive_memo
}

proof fn receivers_are_payable(members: Seq<JsonModel>)
    ensures
        receivers_outcome(members) matches Ok(receivers) ==> {
            &&& receivers.len() == members.len()
            &&& forall|i: int| 0 <= i < receivers.len() ==> is_payable(#[trigger] receivers[i])
        },
    decreases members.len(),
{
    if members.len() > 0 {
        receivers_are_payable(members.drop_last());
    }
}

/// Whatever the arguments are, a send that is accepted has at least one receiver, and each of
/// its receivers can be paid: no amount exceeds the supply, and no memo goes to an address that
/// cannot receive it.
pub proof fn accepted_send_is_payable(args: Seq<Seq<char>>)
    ensures
        send_outcome(args) matches Ok((receivers, _)) ==> {
            &&& receivers.len() > 0
            &&& forall|i: int| 0 <= i < receivers.len() ==> is_payable(#[trigger] receivers[i])
        },
{
    if args.len() == 1 {
        if let Ok(argument) = json_outcome(args[0]) {
            match argument.kind {
                JsonKindModel::Array(members) => receivers_are_payable(members),
                JsonKindModel::Object(_) => {
                    if let Some(field) = argument.field("receivers"@) {
                        if let JsonKindModel::Array(members) = field.kind {
                            receivers_are_payable(members);
                        }
                    }
                },
                _ => {},
            }
        }
    }
}

/// A send described by an array has one receiver for each member of the array.
pub proof fn send_has_a_receiver_per_member(argument: JsonModel)
    requires
        argument.kind is Array,
    ensures
        send_json_outcome(argument) matches Ok((receivers, restriction)) ==> receivers.len()
            == argument.kind->Array_0.len() && restriction is None,
{
    receivers_are_payable(argument.kind->Array_0);
}

/// No send of all funds carries a memo to an address that cannot receive it.
pub proof fn accepted_send_all_memo_fits(args: Seq<Seq<char>>)
    ensures
        send_all_outcome(args) matches Ok((address, _, memo, _)) ==> memo_fits(
            address,
            memo is Some,
        ),
{
}

/// A selector that is accepted names an existing account and a range of indexes that is not
/// empty: it starts with the index given as `address_index`.
pub proof fn accepted_selector_is_satisfiable(value: JsonModel)
    ensures
        shielded_from_outcome(value) matches Ok(Some(restriction)) ==> restriction.account.wf()
            && restriction.admits(restriction.start_index),
        transparent_from_outcome(value) matches Ok(Some(restriction))
            ==> restriction.account.wf() && restriction.admits(restriction.start_index),
{
}

/// A shielded and a transparent selector with the same content cover the same indexes of the
/// same account, where both are accepted.
pub proof fn selectors_agree(value: JsonModel, index: u32)
    ensures
        (shielded_from_outcome(value), transparent_from_outcome(value)) matches (
            Ok(Some(shielded)),
            Ok(Some(transparent)),
        ) ==> shielded.account == transparent.account && transparent.scope
            == TransparentScope::External && shielded.admits(index) == transparent.admits(index),
{
}

/// The forms of a send agree: an address and an amount without a memo, an array of one object
/// with that address and amount, and an object with such an array under `receivers` and no
/// selector are the same send, or are refused for the same reason. Where the amount exists, they
/// are accepted, with one receiver and no restriction.
pub proof fn forms_of_a_send_agree(
    address: Seq<char>,
    amount: Seq<char>,
    number: u64,
    array_text: Seq<char>,
    array: JsonModel,
    object_text: Seq<char>,
    object: JsonModel,
)
    requires
        address_outcome(address) is Ok,
        unsigned_value(trimmed(amount)) == Some(number as nat),
        json_outcome(array_text) == Ok::<JsonModel, Seq<char>>(array),
        array.kind is Array,
        array.kind->Array_0.len() == 1,
        address_text_outcome(array.kind->Array_0[0]) == Ok::<Seq<char>, CommandErrorModel>(
            address,
        ),
        array.kind->Array_0[0].field("amount"@) matches Some(field) && field.kind is Number
            && field.unsigned() == Some(number),
        array.kind->Array_0[0].at("memo"@).string() is None,
        json_outcome(object_text) == Ok::<JsonModel, Seq<char>>(object),
        object.kind is Object,
        object.field("receivers"@) == Some(array),
        object.at("from"@).kind is Null,
    ensures
        send_outcome(seq![array_text]) == send_outcome(seq![address, amount]),
        send_outcome(seq![object_text]) == send_outcome(seq![address, amount]),
        number <= MAX_MONEY ==> send_outcome(seq![address, amount]) == Ok::<
            (Seq<ReceiverModel>, Option<ShieldedAddressRestriction>),
            CommandErrorModel,
        >(
            (
                seq![
                    ReceiverModel {
                        recipient_address: address_outcome(address)->Ok_0,
                        amount: number,
                        memo: None,
                    },
                ],
                None,
            ),
        ),
{
    let members = array.kind->Array_0;
    assert(members.drop_last() == Seq::<JsonModel>::empty());
    assert(members.last() == members[0]);
    reveal_with_fuel(receivers_outcome, 2);
    assert(receiver_outcome(members[0]) is Ok ==> Seq::<ReceiverModel>::empty().push(
        receiver_outcome(members[0])->Ok_0,
    ) == seq![receiver_outcome(members[0])->Ok_0]);
}

} // verus!
