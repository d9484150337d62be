//! What a payment is made of: an address, an amount and a memo.
use vstd::prelude::*;
use vstd::utf8::encode_utf8;

verus! {

/// The largest amount that there can be: 21 million coins in zatoshis.
pub const MAX_MONEY: u64 = 2_100_000_000_000_000;

/// The number of bytes in the memo field of a shielded output.
pub const MEMO_LENGTH: usize = 512;

/// Why a text or a number is not an address or an amount.
#[derive(Debug, Clone, PartialEq, Eq)]
pub enum ConversionError {
    InvalidAddress(String),
    AmountOutOfRange,
}

pub enum ConversionErrorModel {
    InvalidAddress(Seq<char>),
    AmountOutOfRange,
}

impl View for ConversionError {
    type V = ConversionErrorModel;

    open spec fn view(&self) -> ConversionErrorModel {
        match *self {
            ConversionError::InvalidAddress(reason) => ConversionErrorModel::InvalidAddress(
                reason@,
            ),
            ConversionError::AmountOutOfRange => ConversionErrorModel::AmountOutOfRange,
        }
    }
}

/// A Zcash address.
#[derive(Debug, Clone, PartialEq, Eq)]
pub struct Address {
    /// The canonical encoding.
    pub encoded: String,
    /// Whether a memo can be sent along to the address.
    pub can_receive_memo: bool,
}

pub struct AddressModel {
    pub encoded: Seq<char>,
    pub can_receive_memo: bool,
}

impl View for Address {
    type V = AddressModel;

    open spec fn view(&self) -> AddressModel {
        AddressModel { encoded: self.encoded@, can_receive_memo: self.can_receive_memo }
    }
}

/// A memo, padded with zeros to the length of the memo field.
#[derive(Debug, Clone, PartialEq, Eq)]
pub struct MemoBytes {
    pub bytes: Vec<u8>,
}

impl View for MemoBytes {
    type V = Seq<u8>;

    open spec fn view(&self) -> Seq<u8> {
        self.bytes@
    }
}

/// One output of a send.
#[derive(Debug, Clone, PartialEq, Eq)]
pub struct Receiver {
    pub recipient_address: Address,
    /// The amount in zatoshis.
    pub amount: u64,
    pub memo: Option<MemoBytes>,
}

pub struct ReceiverModel {
    pub recipient_address: AddressModel,
    pub amount: u64,
    pub memo: Option<Seq<u8>>,
}

pub open spec fn memo_view(memo: Option<MemoBytes>) -> Option<Seq<u8>> {
    match memo {
        Some(bytes) => Some(bytes@),
        None => None,
    }
}

impl View for Receiver {
    type V = ReceiverModel;

    open spec fn view(&self) -> ReceiverModel {
        ReceiverModel {
            recipient_address: self.recipient_address@,
            amount: self.amount,
            memo: memo_view(self.memo),
        }
    }
}

/// What `ZcashAddress::try_from_encoded` makes of a text: the canonical encoding of the address
/// and whether it can receive a memo, or the text of its error.
pub uninterp spec fn decoded_address(text: Seq<char>) -> Result<(Seq<char>, bool), Seq<char>>;

/// `ZcashAddress::try_from_encoded`, with what `ZcashAddress::encode` and
/// `ZcashAddress::can_receive_memo` say of the address: all of it depends on the text alone.
#[verifier::external_body]
fn outside_address(text: &str) -> (decoded: Result<(String, bool), String>)
    ensures
        match decoded {
            Ok(address) => decoded_address(text@) == Ok::<(Seq<char>, bool), Seq<char>>(
                (address.0@, address.1),
            ),
            Err(reason) => decoded_address(text@) == Err::<(Seq<char>, bool), Seq<char>>(reason@),
        },
{
    zcash_address::ZcashAddress::try_from_encoded(text)
        .map(|address| (address.encode(), address.can_receive_memo()))
        .map_err(|error| error.to_string())
}

/// `Zatoshis::from_u64`: every amount up to 21 million coins, and none above.
#[verifier::external_body]
fn outside_zatoshis(amount: u64) -> (checked: Option<u64>)
    ensures
        checked == (if amount <= MAX_MONEY {
            Some(amount)
        } else {
            None
        }),
{
    zcash_protocol::value::Zatoshis::from_u64(amount).ok().map(u64::from)
}

/// `bytes` followed by zeros up to the length of the memo field.
pub open spec fn padded_memo(bytes: Seq<u8>) -> Seq<u8> {
    bytes + Seq::new((MEMO_LENGTH - bytes.len()) as nat, |i: int| 0u8)
}

/// `MemoBytes::from_bytes`: the bytes padded with zeros to 512, where there are no more than
/// that.
#[verifier::external_body]
fn outside_memo(bytes: &[u8]) -> (memo: Option<Vec<u8>>)
    ensures
        match memo {
            Some(field) => bytes@.len() <= MEMO_LENGTH && field@ == padded_memo(bytes@),
            None => bytes@.len() > MEMO_LENGTH,
        },
{
    zcash_protocol::memo::MemoBytes::from_bytes(bytes).ok().map(|memo| memo.as_array().to_vec())
}

/// What a text is as an address.
pub open spec fn address_outcome(text: Seq<char>) -> Result<AddressModel, ConversionErrorModel> {
    match decoded_address(text) {
        Ok((encoded, can_receive_memo)) => Ok(AddressModel { encoded, can_receive_memo }),
        Err(reason) => Err(ConversionErrorModel::InvalidAddress(reason)),
    }
}

/// Reads a text as an address.
pub fn address_from_str(text: &str) -> (address: Result<Address, ConversionError>)
    ensures
        match address {
            Ok(value) => address_outcome(text@) == Ok::<AddressModel, ConversionErrorModel>(
                value@,
            ),
            Err(error) => address_outcome(text@) == Err::<AddressModel, ConversionErrorModel>(
                error@,
            ),
        },
{
    match outside_address(text) {
        Ok((encoded, can_receive_memo)) => Ok(Address { encoded, can_receive_memo }),
        Err(reason) => Err(ConversionError::InvalidAddress(reason)),
    }
}

/// An amount in zatoshis, which is at most 21 million coins.
pub fn zatoshis_from_u64(amount: u64) -> (checked: Result<u64, ConversionError>)
    ensures
        match checked {
            Ok(value) => amount <= MAX_MONEY && value == amount,
            Err(error) => amount > MAX_MONEY && error@ == ConversionErrorModel::AmountOutOfRange,
        },
{
    match outside_zatoshis(amount) {
        Some(value) => Ok(value),
        None => Err(ConversionError::AmountOutOfRange),
    }
}

/// What is said of a memo that does not fit.
pub open spec fn memo_too_long() -> Seq<char> {
    "memo is longer than 512 bytes"@
}

/// What a text is as a memo: its UTF-8 bytes, where they fit in the memo field.
pub open spec fn memo_outcome(text: Seq<char>) -> Result<Seq<u8>, Seq<char>> {
    if encode_utf8(text).len() <= MEMO_LENGTH {
        Ok(padded_memo(encode_utf8(text)))
    } else {
        Err(memo_too_long())
    }
}

/// The memo for a text: the bytes of the text as it stands, in UTF-8. That is so of every text,
/// also of one that starts with `0x`, which is not read as hexadecimal digits.
pub fn interpret_memo_string(text: &str) -> (memo: Result<MemoBytes, String>)
    ensures
        match memo {
            Ok(value) => memo_outcome(text@) == Ok::<Seq<u8>, Seq<char>>(value@),
            Err(reason) => memo_outcome(text@) == Err::<Seq<u8>, Seq<char>>(reason@),
        },
{
    match outside_memo(text.as_bytes()) {
        Some(bytes) => Ok(MemoBytes { bytes }),
        None => Err("memo is longer than 512 bytes".to_owned()),
    }
}

} // verus!
