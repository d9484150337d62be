use zingo::commands::error::CommandError;
use zingo::commands::utils;
use zingo::json_value::{parse_json, Json, JsonKind};
use zingo::payments::{
    address_from_str, interpret_memo_string, zatoshis_from_u64, ConversionError, Receiver,
};
use zingo::restrictions::{
    AccountId, ShieldedAddressRestriction, TransparentAddressRestriction, TransparentScope,
};

const SAPLING: &str = "zregtestsapling1fmq2ufux3gm0v8qf7x585wj56le4wjfsqsj27zprjghntrerntggg507hxh2ydcdkn7sx8kya7p";
const TRANSPARENT: &str = "tmBsTi2xWTjUdEXnuTceL7fecEQKeWaPDJd";

fn json_of(text: &str) -> Json {
    parse_json(text).unwrap()
}

fn first_member(text: &str) -> Json {
    match json_of(text).kind {
        JsonKind::Array(mut members) => members.remove(0),
        other => panic!("not an array: {other:?}"),
    }
}

fn account(index: u32) -> AccountId {
    AccountId { index }
}

#[test]
fn parse_send_args() {
    let address_str = "zregtestsapling1fmq2ufux3gm0v8qf7x585wj56le4wjfsqsj27zprjghntrerntggg507hxh2ydcdkn7sx8kya7p";
    let recipient_address = address_from_str(address_str).unwrap();
    let value_str = "100000";
    let amount = zatoshis_from_u64(100_000).unwrap();
    let memo_str = "test memo";
    let memo = interpret_memo_string(memo_str).unwrap();

    // No memo
    let send_args = &[address_str, value_str];
    assert_eq!(
        utils::parse_send_args(send_args).unwrap(),
        (
            vec![Receiver {
                recipient_address: recipient_address.clone(),
                amount,
                memo: None
            }],
            None
        )
    );

    // Memo
    let send_args = &[address_str, value_str, memo_str];
    assert_eq!(
        utils::parse_send_args(send_args).unwrap(),
        (
            vec![Receiver {
                recipient_address: recipient_address.clone(),
                amount,
                memo: Some(memo.clone())
            }],
            None
        )
    );

    // Json
    let json = "[{\"address\":\"tmBsTi2xWTjUdEXnuTceL7fecEQKeWaPDJd\", \"amount\":50000}, \
                {\"address\":\"zregtestsapling1fmq2ufux3gm0v8qf7x585wj56le4wjfsqsj27zprjghntrerntggg507hxh2ydcdkn7sx8kya7p\", \
                \"amount\":100000, \"memo\":\"test memo\"}]";
    assert_eq!(
        utils::parse_send_args(&[json]).unwrap(),
        (
            vec![
                Receiver {
                    recipient_address: address_from_str("tmBsTi2xWTjUdEXnuTceL7fecEQKeWaPDJd")
                        .unwrap(),
                    amount: zatoshis_from_u64(50_000).unwrap(),
                    memo: None
                },
                Receiver {
                    recipient_address: recipient_address.clone(),
                    amount,
                    memo: Some(memo.clone())
                }
            ],
            None
        )
    );

    // Trim whitespace
    let send_args = &[address_str, "1 ", memo_str];
    assert_eq!(
        utils::parse_send_args(send_args).unwrap(),
        (
            vec![Receiver {
                recipient_address,
                amount: zatoshis_from_u64(1).unwrap(),
                memo: Some(memo.clone())
            }],
            None
        )
    );
}

#[test]
fn empty_json_array() {
    let json = "[]";
    assert!(matches!(
        utils::parse_send_args(&[json]),
        Err(CommandError::EmptyJsonArray)
    ));
}

#[test]
fn failed_json_parsing() {
    let args = [r"testaddress{{"];
    assert!(matches!(
        utils::parse_send_args(&args),
        Err(CommandError::ArgsNotJson(_))
    ));
}

#[test]
fn single_arg_not_an_array_unexpected_type() {
    let args = ["1"];
    assert!(matches!(
        utils::parse_send_args(&args),
        Err(CommandError::SingleArgNotJsonArray(_))
    ));
}

#[test]
fn utils_invalid_memo() {
    // In a JSON array
    let arg_contents = "[{\"address\": \"zregtestsapling1fmq2ufux3gm0v8qf7x585wj56le4wjfsqsj27zprjghntrerntggg507hxh2ydcdkn7sx8kya7p\", \"amount\": 123, \"memo\": \"testmemo\"}]";
    let long_513_byte_memo = &"a".repeat(513);
    let long_memo_args =
        arg_contents.replace("\"testmemo\"", &format!("\"{long_513_byte_memo}\""));
    let args = [long_memo_args.as_str()];
    assert!(matches!(
        utils::parse_send_args(&args),
        Err(CommandError::InvalidMemo(_))
    ));

    // In separate arguments
    let args = [
        "zregtestsapling1fmq2ufux3gm0v8qf7x585wj56le4wjfsqsj27zprjghntrerntggg507hxh2ydcdkn7sx8kya7p",
        "123",
        long_513_byte_memo,
    ];
    assert!(matches!(
        utils::parse_send_args(&args),
        Err(CommandError::InvalidMemo(_))
    ));
}

#[test]
fn two_args_wrong_amount() {
    let args = [
        "zregtestsapling1fmq2ufux3gm0v8qf7x585wj56le4wjfsqsj27zprjghntrerntggg507hxh2ydcdkn7sx8kya7p",
        "foo",
    ];
    assert!(matches!(
        utils::parse_send_args(&args),
        Err(CommandError::ParseIntFromString(_))
    ));
}

#[test]
fn wrong_number_of_args() {
    let args = [
        "zregtestsapling1fmq2ufux3gm0v8qf7x585wj56le4wjfsqsj27zprjghntrerntggg507hxh2ydcdkn7sx8kya7p",
        "123",
        "3",
        "4",
    ];
    assert!(matches!(
        utils::parse_send_args(&args),
        Err(CommandError::InvalidArguments)
    ));
}

#[test]
fn parse_send_all_args() {
    let address_str = "zregtestsapling1fmq2ufux3gm0v8qf7x585wj56le4wjfsqsj27zprjghntrerntggg507hxh2ydcdkn7sx8kya7p";
    let address = address_from_str(address_str).unwrap();
    let memo_str = "test memo";
    let memo = interpret_memo_string(memo_str).unwrap();

    // JSON single receiver
    let single_receiver = &[
        "{\"address\":\"zregtestsapling1fmq2ufux3gm0v8qf7x585wj56le4wjfsqsj27zprjghntrerntggg507hxh2ydcdkn7sx8kya7p\", \
             \"memo\":\"test memo\", \
             \"zennies_for_zingo\":false}",
    ];
    assert_eq!(
        utils::parse_send_all_args(single_receiver).unwrap(),
        (address.clone(), false, Some(memo.clone()), None)
    );
    // NonBool Zenny Flag
    let nb_zenny = &[
        "{\"address\":\"zregtestsapling1fmq2ufux3gm0v8qf7x585wj56le4wjfsqsj27zprjghntrerntggg507hxh2ydcdkn7sx8kya7p\", \
             \"memo\":\"test memo\", \
             \"zennies_for_zingo\":\"false\"}",
    ];
    assert!(matches!(
        utils::parse_send_all_args(nb_zenny),
        Err(CommandError::ZenniesFlagNonBool(_))
    ));
    // with memo
    let send_args = &[address_str, memo_str];
    assert_eq!(
        utils::parse_send_all_args(send_args).unwrap(),
        (address.clone(), false, Some(memo.clone()), None)
    );
    let send_args = &[address_str, memo_str];
    assert_eq!(
        utils::parse_send_all_args(send_args).unwrap(),
        (address.clone(), false, Some(memo.clone()), None)
    );

    // invalid address
    let send_args = &["invalid_address"];
    assert!(matches!(
        utils::parse_send_all_args(send_args),
        Err(CommandError::ArgNotJsonOrValidAddress)
    ));
}

#[test]
fn check_memo_compatibility() {
    let sapling_address = address_from_str("zregtestsapling1fmq2ufux3gm0v8qf7x585wj56le4wjfsqsj27zprjghntrerntggg507hxh2ydcdkn7sx8kya7p").unwrap();
    let transparent_address = address_from_str("tmBsTi2xWTjUdEXnuTceL7fecEQKeWaPDJd").unwrap();
    let memo = interpret_memo_string("test memo").unwrap();

    // shielded address with memo
    utils::check_memo_compatibility(&sapling_address, &Some(memo.clone())).unwrap();

    // transparent address without memo
    utils::check_memo_compatibility(&transparent_address, &None).unwrap();

    // transparent address with memo
    assert!(matches!(
        utils::check_memo_compatibility(&transparent_address, &Some(memo.clone())),
        Err(CommandError::IncompatibleMemo)
    ));
}

#[test]
fn address_from_json() {
    // with address
    let json_str = "[{\"address\":\"zregtestsapling1fmq2ufux3gm0v8qf7x585wj56le4wjfsqsj27zprjghntrerntggg507hxh2ydcdkn7sx8kya7p\", \
                \"amount\":100000, \"memo\":\"test memo\"}]";
    utils::address_from_json(&first_member(json_str)).unwrap();

    // without address
    let json_str = "[{\"amount\":100000, \"memo\":\"test memo\"}]";
    assert!(matches!(
        utils::address_from_json(&first_member(json_str)),
        Err(CommandError::MissingKey(_))
    ));

    // invalid address
    let json_str = "[{\"address\": 1, \
                \"amount\":100000, \"memo\":\"test memo\"}]";
    assert!(matches!(
        utils::address_from_json(&first_member(json_str)),
        Err(CommandError::UnexpectedType(_))
    ));
}

#[test]
fn zatoshis_from_json() {
    // with amount
    let json_str = "[{\"address\":\"zregtestsapling1fmq2ufux3gm0v8qf7x585wj56le4wjfsqsj27zprjghntrerntggg507hxh2ydcdkn7sx8kya7p\", \
                \"amount\":100000, \"memo\":\"test memo\"}]";
    utils::zatoshis_from_json(&first_member(json_str)).unwrap();

    // without amount
    let json_str = "[{\"address\":\"zregtestsapling1fmq2ufux3gm0v8qf7x585wj56le4wjfsqsj27zprjghntrerntggg507hxh2ydcdkn7sx8kya7p\", \
                \"memo\":\"test memo\"}]";
    assert!(matches!(
        utils::zatoshis_from_json(&first_member(json_str)),
        Err(CommandError::MissingKey(_))
    ));

    // invalid amount
    let json_str = "[{\"address\":\"zregtestsapling1fmq2ufux3gm0v8qf7x585wj56le4wjfsqsj27zprjghntrerntggg507hxh2ydcdkn7sx8kya7p\", \
                \"amount\":\"non_number\", \"memo\":\"test memo\"}]";
    assert!(matches!(
        utils::zatoshis_from_json(&first_member(json_str)),
        Err(CommandError::NonJsonNumberForAmount(_))
    ));
}

#[test]
fn memo_from_json() {
    // with memo
    let json_str = "[{\"address\":\"zregtestsapling1fmq2ufux3gm0v8qf7x585wj56le4wjfsqsj27zprjghntrerntggg507hxh2ydcdkn7sx8kya7p\", \
                \"amount\":100000, \"memo\":\"test memo\"}]";
    assert_eq!(
        utils::memo_from_json(&first_member(json_str)).unwrap(),
        Some(interpret_memo_string("test memo").unwrap())
    );

    // without memo
    let json_str = "[{\"address\":\"zregtestsapling1fmq2ufux3gm0v8qf7x585wj56le4wjfsqsj27zprjghntrerntggg507hxh2ydcdkn7sx8kya7p\", \
                \"amount\":100000}]";
    assert_eq!(utils::memo_from_json(&first_member(json_str)).unwrap(), None);
}

#[test]
fn send_is_restricted_to_the_named_indexes() {
    let argument = format!(
        "{{\"receivers\":[{{\"address\":\"{SAPLING}\",\"amount\":7}}],\"from\":{{\"address_index\":100,\"max_address_index\":102}}}}"
    );
    let (receivers, restriction) = utils::parse_send_args(&[&argument]).unwrap();
    assert_eq!(receivers.len(), 1);
    assert_eq!(receivers[0].amount, 7);
    assert_eq!(
        restriction,
        Some(ShieldedAddressRestriction::new(account(0), 100, Some(102)))
    );
}

#[test]
fn send_object_needs_an_array_of_receivers() {
    assert!(matches!(
        utils::parse_send_args(&["{}"]),
        Err(CommandError::MissingKey(key)) if key == "receivers"
    ));
    assert!(matches!(
        utils::parse_send_args(&["{\"receivers\":3}"]),
        Err(CommandError::UnexpectedType(text)) if text == "\"receivers\" must be an array"
    ));
    assert!(matches!(
        utils::parse_send_args(&["{\"receivers\":[]}"]),
        Err(CommandError::EmptyJsonArray)
    ));
}

#[test]
fn send_refuses_what_cannot_be_paid() {
    assert!(matches!(
        utils::parse_send_args(&["nowhere", "1"]),
        Err(CommandError::ConversionFailed(ConversionError::InvalidAddress(_)))
    ));
    assert!(matches!(
        utils::parse_send_args(&[SAPLING, "2100000000000001"]),
        Err(CommandError::ConversionFailed(ConversionError::AmountOutOfRange))
    ));
    assert_eq!(
        utils::parse_send_args(&[SAPLING, "+2100000000000000"]).unwrap().0[0].amount,
        2_100_000_000_000_000
    );
    assert!(matches!(
        utils::parse_send_args(&[TRANSPARENT, "1", "hello"]),
        Err(CommandError::IncompatibleMemo)
    ));
    assert!(matches!(
        utils::parse_send_args(&[]),
        Err(CommandError::InvalidArguments)
    ));
}

#[test]
fn single_argument_is_quoted_in_the_error() {
    assert!(matches!(
        utils::parse_send_args(&[" true "]),
        Err(CommandError::SingleArgNotJsonArray(text)) if text == "true"
    ));
}

#[test]
fn the_first_wrong_receiver_decides() {
    let argument = format!(
        "[{{\"address\":\"{SAPLING}\",\"amount\":1}},{{\"address\":\"{SAPLING}\"}},{{}}]"
    );
    assert!(matches!(
        utils::parse_send_args(&[&argument]),
        Err(CommandError::MissingKey(key)) if key == "amount"
    ));
}

#[test]
fn amounts_are_whole_numbers() {
    let number = |text: &str| utils::zatoshis_from_json(&json_of(text));
    assert_eq!(number("{\"amount\":5}").unwrap(), 5);
    assert!(matches!(
        number("{\"amount\":1.5}"),
        Err(CommandError::UnexpectedType(text)) if text == "amount not a u64!"
    ));
    assert!(matches!(
        number("{\"amount\":-1}"),
        Err(CommandError::UnexpectedType(_))
    ));
    assert!(matches!(
        number("{\"amount\":\"x\"}"),
        Err(CommandError::NonJsonNumberForAmount(text))
            if text == "\"amount\": x\nis not a json::number::Number"
    ));
    assert!(matches!(
        number("{\"amount\":2100000000000001}"),
        Err(CommandError::ConversionFailed(ConversionError::AmountOutOfRange))
    ));
}

#[test]
fn memo_fills_the_memo_field() {
    let memo = interpret_memo_string("ab").unwrap();
    assert_eq!(memo.bytes.len(), 512);
    assert_eq!(&memo.bytes[..3], &[b'a', b'b', 0]);
    assert_eq!(interpret_memo_string(&"a".repeat(512)).unwrap().bytes, vec![b'a'; 512]);
    assert_eq!(
        interpret_memo_string(&"a".repeat(513)),
        Err("memo is longer than 512 bytes".to_string())
    );
    // a memo that is no text is left out
    assert_eq!(utils::memo_from_json(&json_of("{\"memo\":3}")).unwrap(), None);
}

#[test]
fn address_keeps_its_canonical_encoding() {
    let address = address_from_str(&format!("  {SAPLING}\n")).unwrap();
    assert_eq!(address.encoded, SAPLING);
    assert!(address.can_receive_memo);
    assert!(!address_from_str(TRANSPARENT).unwrap().can_receive_memo);
}

#[test]
fn send_all_to_an_address_alone() {
    let (address, zennies, memo, restriction) = utils::parse_send_all_args(&[SAPLING]).unwrap();
    assert_eq!(address.encoded, SAPLING);
    assert!(!zennies);
    assert_eq!(memo, None);
    assert_eq!(restriction, None);
}

#[test]
fn send_all_refuses_other_forms() {
    assert!(matches!(
        utils::parse_send_all_args(&["[ 1 ]"]),
        Err(CommandError::JsonArrayNotObj(text)) if text == "[1]"
    ));
    assert!(matches!(
        utils::parse_send_all_args(&["{}"]),
        Err(CommandError::EmptyJsonArray)
    ));
    let without_flag = format!("{{\"address\":\"{SAPLING}\"}}");
    assert!(matches!(
        utils::parse_send_all_args(&[&without_flag]),
        Err(CommandError::MissingZenniesForZingoFlag)
    ));
    assert!(matches!(
        utils::parse_send_all_args(&[TRANSPARENT, "memo"]),
        Err(CommandError::IncompatibleMemo)
    ));
    assert!(matches!(
        utils::parse_send_all_args(&[SAPLING, &"a".repeat(513)]),
        Err(CommandError::InvalidMemo(_))
    ));
    assert!(matches!(
        utils::parse_send_all_args(&["nowhere", "memo"]),
        Err(CommandError::ConversionFailed(_))
    ));
    assert!(matches!(
        utils::parse_send_all_args(&[]),
        Err(CommandError::InvalidArguments)
    ));
}

#[test]
fn send_all_from_named_indexes() {
    let argument = format!(
        "{{\"address\":\"{SAPLING}\",\"zennies_for_zingo\":true,\"from\":{{\"account\":2,\"address_index\":5}}}}"
    );
    let (_, zennies, memo, restriction) = utils::parse_send_all_args(&[&argument]).unwrap();
    assert!(zennies);
    assert_eq!(memo, None);
    assert_eq!(
        restriction,
        Some(ShieldedAddressRestriction::new(account(2), 5, None))
    );
}

#[test]
fn max_send_value_arguments() {
    let (address, zennies, restriction) = utils::parse_max_send_value_args(&[SAPLING]).unwrap();
    assert_eq!(address.encoded, SAPLING);
    assert!(!zennies);
    assert_eq!(restriction, None);

    let argument = format!(
        "{{\"address\":\"{SAPLING}\",\"zennies_for_zingo\":true,\"from\":{{\"address_index\":1}}}}"
    );
    let (_, zennies, restriction) = utils::parse_max_send_value_args(&[&argument]).unwrap();
    assert!(zennies);
    assert_eq!(
        restriction,
        Some(ShieldedAddressRestriction::new(account(0), 1, None))
    );

    assert!(matches!(
        utils::parse_max_send_value_args(&["[]"]),
        Err(CommandError::JsonArrayNotObj(text)) if text == "Pass an object, not an array."
    ));
    assert!(matches!(
        utils::parse_max_send_value_args(&["{}"]),
        Err(CommandError::EmptyJsonArray)
    ));
    assert!(matches!(
        utils::parse_max_send_value_args(&["nowhere"]),
        Err(CommandError::ArgNotJsonOrValidAddress)
    ));
    assert!(matches!(
        utils::parse_max_send_value_args(&[SAPLING, "1"]),
        Err(CommandError::InvalidArguments)
    ));
}

#[test]
fn shielded_selectors() {
    let selector = |text: &str| utils::parse_shielded_from(&json_of(text));
    assert_eq!(selector("null").unwrap(), None);
    assert!(matches!(
        selector("[]"),
        Err(CommandError::UnexpectedType(text)) if text == "\"from\" must be a JSON object"
    ));
    assert!(matches!(
        selector("{\"scope\":\"internal\",\"address_index\":1}"),
        Err(CommandError::UnexpectedType(text))
            if text == "shielded restrictions currently support external scope only"
    ));
    assert!(matches!(
        selector("{\"scope\":\"refund\",\"address_index\":1}"),
        Err(CommandError::UnexpectedType(text)) if text == "invalid scope \"refund\""
    ));
    assert!(matches!(
        selector("{}"),
        Err(CommandError::MissingKey(key)) if key == "address_index"
    ));
    assert!(matches!(
        selector("{\"address_index\":\"1\"}"),
        Err(CommandError::UnexpectedType(text))
            if text == "\"address_index\" must be a non-negative integer"
    ));
    assert!(matches!(
        selector("{\"address_index\":3,\"max_address_index\":2}"),
        Err(CommandError::UnexpectedType(text))
            if text == "\"max_address_index\" must be >= \"address_index\""
    ));
    assert_eq!(
        selector("{\"address_index\":3,\"max_address_index\":null}").unwrap(),
        Some(ShieldedAddressRestriction::new(account(0), 3, None))
    );
    // indexes are taken modulo 2^32
    assert_eq!(
        selector("{\"address_index\":4294967299}").unwrap(),
        Some(ShieldedAddressRestriction::new(account(0), 3, None))
    );
}

#[test]
fn transparent_selectors() {
    assert_eq!(utils::parse_transparent_restriction_args(&[]).unwrap(), None);
    assert!(matches!(
        utils::parse_transparent_restriction_args(&["{}", "{}"]),
        Err(CommandError::InvalidArguments)
    ));
    assert!(matches!(
        utils::parse_transparent_restriction_args(&["{"]),
        Err(CommandError::ArgsNotJson(_))
    ));
    assert!(matches!(
        utils::parse_transparent_restriction_args(&["[]"]),
        Err(CommandError::UnexpectedType(text))
            if text == "expected a JSON object describing the selector"
    ));
    assert!(matches!(
        utils::parse_transparent_restriction_args(&["{\"from\":null}"]),
        Err(CommandError::UnexpectedType(text)) if text == "\"from\" must be a JSON object"
    ));
    let expected = TransparentAddressRestriction::new(
        account(0),
        TransparentScope::External,
        3,
        Some(3),
    );
    assert_eq!(
        utils::parse_transparent_restriction_args(&[
            "{\"from\":{\"scope\":\"external\",\"address_index\":3,\"max_address_index\":3}}"
        ])
        .unwrap(),
        Some(expected)
    );
    assert_eq!(
        utils::parse_transparent_restriction_args(&[
            "{\"scope\":\"external\",\"address_index\":3,\"max_address_index\":3}"
        ])
        .unwrap(),
        Some(expected)
    );
    assert!(matches!(
        utils::parse_transparent_from(&json_of("7")),
        Err(CommandError::UnexpectedType(text))
            if text == "transparent selector must be a JSON object"
    ));
    assert_eq!(utils::parse_transparent_from(&json_of("null")).unwrap(), None);
}

#[test]
fn scopes_ignore_case() {
    assert_eq!(
        utils::parse_transparent_scope(Some("ReFund")).unwrap(),
        TransparentScope::Refund
    );
    assert_eq!(
        utils::parse_transparent_scope(Some("INTERNAL")).unwrap(),
        TransparentScope::Internal
    );
    assert_eq!(
        utils::parse_transparent_scope(None).unwrap(),
        TransparentScope::External
    );
    assert!(matches!(
        utils::parse_transparent_scope(Some("ÄB")),
        Err(CommandError::UnexpectedType(text)) if text == "invalid scope \"äb\""
    ));
}

#[test]
fn accounts_have_31_bits() {
    assert_eq!(utils::parse_account_id(None).unwrap(), account(0));
    assert_eq!(utils::parse_account_id(Some(0x7fff_ffff)).unwrap(), account(0x7fff_ffff));
    assert!(matches!(
        utils::parse_account_id(Some(0x8000_0000)),
        Err(CommandError::UnexpectedType(text)) if text == "account id is out of range"
    ));
    assert_eq!(utils::parse_account_id(Some(0x1_0000_0005)).unwrap(), account(5));
}

#[test]
fn json_values_keep_their_text() {
    let value = json_of("{\"a\":[1,true,null],\"b\":\"text\",\"a\":2}");
    assert!(value.is_object());
    assert!(value.has_key("a"));
    assert!(!value.has_key("c"));
    assert_eq!(value.get("b").unwrap().as_str(), Some("text"));
    assert_eq!(value.get("a").unwrap().as_u64(), Some(2));
    assert_eq!(value.text, "{\"a\":2,\"b\":\"text\"}");
    assert!(json_of("null").is_null());
    assert!(json_of("0").is_empty());
    assert!(json_of("\"\"").is_empty());
    assert!(!json_of("[0]").is_empty());
    assert_eq!(json_of("true").as_bool(), Some(true));
    assert_eq!(json_of("10").as_u64(), Some(10));
}

#[test]
fn endless_fractions_are_refused() {
    let zeros = |count: usize| "0".repeat(count);
    let refused = |text: &str| matches!(
        parse_json(text),
        Err(reason) if reason == "fraction has too many digits"
    );
    assert!(refused(&format!("0.{}", zeros(32_769))));
    assert!(refused(&format!("[1, -0.{}1]", zeros(32_768))));
    assert!(refused(&format!("{{\"a\\\"\":0.{}", zeros(40_000))));
    // a digit that does not fit is passed over, and a smaller one behind it still counts
    assert!(refused(&format!("0.{}184467440737095516190", zeros(32_749))));
    assert!(parse_json(&format!("0.{}1844674407370955161997", zeros(32_749))).is_ok());
    assert!(refused(&format!("0.{}18446744073709551619975", zeros(32_749))));
    assert!(parse_json(&format!("0.{}184467440737095516199", zeros(32_749))).is_ok());
    assert!(parse_json(&format!("0.{}184467440737095516190", zeros(32_748))).is_ok());
    // as many as can be counted
    assert!(parse_json(&format!("0.{}", zeros(32_768))).is_ok());
    assert!(parse_json(&format!("0.{}1", zeros(32_767))).is_ok());
    // digits that no longer count
    assert!(parse_json(&format!("0.{}{}", zeros(32_749), "9".repeat(40))).is_ok());
    // behind another number than zero the digits soon no longer count
    assert!(parse_json(&format!("1.{}", zeros(40_000))).is_ok());
    assert!(parse_json(&format!("10.{}", zeros(40_000))).is_ok());
    // in a string
    let quoted = format!("\"\\\"0.{}\"", zeros(40_000));
    assert_eq!(parse_json(&quoted).unwrap().as_str().map(str::len), Some(40_003));
    assert!(parse_json("0.25").is_ok());
}

#[test]
fn the_forms_of_a_send_agree() {
    let single = utils::parse_send_args(&[SAPLING, "77"]).unwrap();
    let array = format!("[{{\"address\":\"{SAPLING}\",\"amount\":77}}]");
    assert_eq!(utils::parse_send_args(&[&array]).unwrap(), single);
    let object = format!("{{\"receivers\":{array}}}");
    assert_eq!(utils::parse_send_args(&[&object]).unwrap(), single);
    assert_eq!(single.0.len(), 1);
    assert_eq!(single.1, None);
}

#[test]
fn both_sorts_of_selector_cover_the_same_indexes() {
    let value = json_of("{\"account\":1,\"address_index\":2,\"max_address_index\":4}");
    let shielded = utils::parse_shielded_from(&value).unwrap().unwrap();
    let transparent = utils::parse_transparent_from(&value).unwrap().unwrap();
    assert_eq!(shielded.account, transparent.account);
    assert_eq!(transparent.scope, TransparentScope::External);
    for index in 0..7 {
        assert_eq!(shielded.contains(index), transparent.contains(index));
    }
}
