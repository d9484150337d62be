//! What holds of addresses, amounts and memos.
use vstd::prelude::*;
use vstd::utf8::encode_utf8;

use crate::payments::{
    address_from_str, address_outcome, decoded_address, interpret_memo_string, memo_outcome,
    memo_view, padded_memo, zatoshis_from_u64, Address, ConversionError, ConversionErrorModel,
    MemoBytes, Receiver,
};

verus! {

/// Whether `field` is the memo field for a text: the text in UTF-8, and zeros behind it up to 512
/// bytes.
pub open spec fn is_memo_of(text: Seq<char>, field: Seq<u8>) -> bool {
    &&& encode_utf8(text).len() <= 512
    &&& field.len() == 512
    &&& forall|i: int| 0 <= i < encode_utf8(text).len() ==> field[i] == #[trigger] encode_utf8(
        text,
    )[i]
    &&& forall|i: int| encode_utf8(text).len() <= i < 512 ==> #[trigger] field[i] == 0
}

/// A text has one memo field where it has at most 512 bytes in UTF-8, and none otherwise.
pub proof fn a_text_fills_its_memo_field(text: Seq<char>, field: Seq<u8>)
    ensures
        memo_outcome(text) == Ok::<Seq<u8>, Seq<char>>(field) <==> is_memo_of(text, field),
        memo_outcome(text) is Err <==> encode_utf8(text).len() > 512,
        is_memo_of(text, field) ==> field == padded_memo(encode_utf8(text)),
{
    if is_memo_of(text, field) {
        assert(field =~= padded_memo(encode_utf8(text)));
    }
}

/// The memo that a text becomes is its memo field, and a text is refused exactly if it is too
/// long for it.
pub proof fn memos_are_read_as_written(text: &str, memo: Result<MemoBytes, String>)
    requires
        call_ensures(interpret_memo_string, (text,), memo),
    ensures
        memo matches Ok(value) ==> is_memo_of(text@, value.bytes@),
        memo is Err <==> encode_utf8(text@).len() > 512,
{
    if let Ok(value) = memo {
        a_text_fills_its_memo_field(text@, value@);
    }
}

/// The address that a text becomes is the one that it decodes to, and a text is refused with the
/// reason of the decoder.
pub proof fn addresses_are_read_as_decoded(text: &str, address: Result<Address, ConversionError>)
    requires
        call_ensures(address_from_str, (text,), address),
    ensures
        match decoded_address(text@) {
            Ok((encoded, can_receive_memo)) => {
                &&& address matches Ok(value)
                &&& value.encoded@ == encoded
                &&& value.can_receive_memo == can_receive_memo
            },
            Err(reason) => {
                &&& address matches Err(ConversionError::InvalidAddress(message))
                &&& message@ == reason
            },
        },
{
}

/// What a text is as an address is what it decodes to.
pub proof fn an_address_is_what_is_decoded(text: Seq<char>)
    ensures
        decoded_address(text) matches Ok((encoded, can_receive_memo)) ==> (address_outcome(
            text,
        ) matches Ok(address) && address.encoded == encoded && address.can_receive_memo
            == can_receive_memo),
        decoded_address(text) matches Err(reason) ==> (address_outcome(text) matches Err(error)
            && error == ConversionErrorModel::InvalidAddress(reason)),
{
}

/// An amount is accepted as it is up to 21 million coins of a hundred million zatoshis each, and
/// refused above.
pub proof fn amounts_are_kept_up_to_the_supply(amount: u64, checked: Result<u64, ConversionError>)
    requires
        call_ensures(zatoshis_from_u64, (amount,), checked),
    ensures
        amount <= 21_000_000 * 100_000_000 <==> checked is Ok,
        checked matches Ok(value) ==> value == amount,
        checked matches Err(error) ==> error is AmountOutOfRange,
{
    assert(checked matches Err(error) ==> error@ is AmountOutOfRange);
}

/// A receiver shows its address, its amount and its memo.
pub proof fn a_receiver_shows_its_parts(receiver: Receiver)
    ensures
        receiver@.recipient_address.encoded == receiver.recipient_address.encoded@,
        receiver@.recipient_address.can_receive_memo
            == receiver.recipient_address.can_receive_memo,
        receiver@.amount == receiver.amount,
        receiver.memo is None <==> receiver@.memo is None,
        receiver.memo matches Some(memo) ==> receiver@.memo == Some(memo.bytes@),
{
}

/// A memo shows its bytes, and an error its reason.
pub proof fn memos_and_errors_show_what_they_hold(memo: Option<MemoBytes>, error: ConversionError)
    ensures
        memo is None <==> memo_view(memo) is None,
        memo matches Some(value) ==> memo_view(memo) == Some(value.bytes@),
        error matches ConversionError::InvalidAddress(reason) ==> error@
            == ConversionErrorModel::InvalidAddress(reason@),
        error is AmountOutOfRange <==> error@ is AmountOutOfRange,
{
}

} // verus!
