//! The mnemonic phrase from which a new wallet is made.
use vstd::prelude::*;

use crate::text::{is_blank, trim_text, trimmed, trimmed_is_empty_iff_blank};

verus! {

/// Why a text is no mnemonic phrase.
#[derive(Debug, Clone, PartialEq, Eq)]
pub enum PhraseError {
    /// There is nothing but white space.
    Empty,
    /// The words are not a phrase.
    Invalid(String),
}

pub enum PhraseErrorModel {
    Empty,
    Invalid(Seq<char>),
}

impl View for PhraseError {
    type V = PhraseErrorModel;

    open spec fn view(&self) -> PhraseErrorModel {
        match *self {
            PhraseError::Empty => PhraseErrorModel::Empty,
            PhraseError::Invalid(reason) => PhraseErrorModel::Invalid(reason@),
        }
    }
}

/// What `Mnemonic::from_phrase` makes of a text in the English word list: the entropy of the
/// phrase, or the text of its error.
pub uninterp spec fn phrase_entropy(text: Seq<char>) -> Result<Seq<u8>, Seq<char>>;

/// `Mnemonic::from_phrase` for English, and `Mnemonic::entropy` of the phrase: the result depends
/// on the text alone.
#[verifier::external_body]
fn outside_entropy(text: &str) -> (entropy: Result<Vec<u8>, String>)
    ensures
        match entropy {
            Ok(bytes) => phrase_entropy(text@) == Ok::<Seq<u8>, Seq<char>>(bytes@),
            Err(reason) => phrase_entropy(text@) == Err::<Seq<u8>, Seq<char>>(reason@),
        },
{
    bip0039::Mnemonic::<bip0039::English>::from_phrase(text)
        .map(|mnemonic| mnemonic.entropy().to_vec())
        .map_err(|error| error.to_string())
}

/// Whether `phrase` is what a configuration gives as the phrase: its text without the white space
/// around it, where that leaves anything.
pub open spec fn is_phrase_of(mnemonic: Option<String>, phrase: Option<String>) -> bool {
    match phrase {
        Some(text) => mnemonic is Some && !is_blank(mnemonic->0@) && text@ == trimmed(
            mnemonic->0@,
        ),
        None => mnemonic is None || is_blank(mnemonic->0@),
    }
}

/// The phrase in the configuration, without the white space around it, where there is one.
pub fn configured_phrase(mnemonic: Option<String>) -> (phrase: Option<String>)
    ensures
        is_phrase_of(mnemonic, phrase),
{
    match mnemonic {
        Some(text) => {
            proof {
                trimmed_is_empty_iff_blank(text@);
            }
            let phrase = trim_text(text.as_str());
            if phrase.is_empty() {
                None
            } else {
                Some(phrase.to_owned())
            }
        },
        None => None,
    }
}

/// The phrase that was typed in, without the white space around it.
pub fn prompt_for_mnemonic(input: &str) -> (phrase: Result<String, PhraseError>)
    ensures
        match phrase {
            Ok(text) => !is_blank(input@) && text@ == trimmed(input@),
            Err(error) => is_blank(input@) && error@ == PhraseErrorModel::Empty,
        },
{
    proof {
        trimmed_is_empty_iff_blank(input@);
    }
    let phrase = trim_text(input);
    if phrase.is_empty() {
        Err(PhraseError::Empty)
    } else {
        Ok(phrase.to_owned())
    }
}

/// What a phrase is as entropy.
pub open spec fn entropy_outcome(phrase: Seq<char>) -> Result<Seq<u8>, PhraseErrorModel> {
    match phrase_entropy(phrase) {
        Ok(entropy) => Ok(entropy),
        Err(reason) => Err(PhraseErrorModel::Invalid(reason)),
    }
}

/// The entropy of a phrase.
pub fn wallet_entropy(phrase: &str) -> (entropy: Result<Vec<u8>, PhraseError>)
    ensures
        match entropy {
            Ok(bytes) => entropy_outcome(phrase@) == Ok::<Seq<u8>, PhraseErrorModel>(bytes@),
            Err(error) => entropy_outcome(phrase@) == Err::<Seq<u8>, PhraseErrorModel>(error@),
        },
{
    match outside_entropy(phrase) {
        Ok(bytes) => Ok(bytes),
        Err(reason) => Err(PhraseError::Invalid(reason)),
    }
}

} // verus!
