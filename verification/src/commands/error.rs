//! What can be wrong with the arguments of a command.
use vstd::prelude::*;

use crate::payments::{ConversionError, ConversionErrorModel};

verus! {

#[derive(Debug)]
pub enum CommandError {
    /// The argument is not JSON, for the reason given.
    ArgsNotJson(String),
    /// The single argument is JSON, but neither an array nor an object.
    SingleArgNotJsonArray(String),
    /// An array stands where an object belongs.
    JsonArrayNotObj(String),
    EmptyJsonArray,
    /// The single argument is neither an address nor JSON.
    ArgNotJsonOrValidAddress,
    MissingKey(String),
    UnexpectedType(String),
    NonJsonNumberForAmount(String),
    MissingZenniesForZingoFlag,
    ZenniesFlagNonBool(String),
    ParseIntFromString(std::num::ParseIntError),
    ConversionFailed(ConversionError),
    InvalidMemo(String),
    /// A memo cannot be sent to the address.
    IncompatibleMemo,
    /// The number of arguments is not one that the command takes.
    InvalidArguments,
}

pub enum CommandErrorModel {
    ArgsNotJson(Seq<char>),
    SingleArgNotJsonArray(Seq<char>),
    JsonArrayNotObj(Seq<char>),
    EmptyJsonArray,
    ArgNotJsonOrValidAddress,
    MissingKey(Seq<char>),
    UnexpectedType(Seq<char>),
    NonJsonNumberForAmount(Seq<char>),
    MissingZenniesForZingoFlag,
    ZenniesFlagNonBool(Seq<char>),
    ParseIntFromString,
    ConversionFailed(ConversionErrorModel),
    InvalidMemo(Seq<char>),
    IncompatibleMemo,
    InvalidArguments,
}

impl View for CommandError {
    type V = CommandErrorModel;

    open spec fn view(&self) -> CommandErrorModel {
        match *self {
            CommandError::ArgsNotJson(reason) => CommandErrorModel::ArgsNotJson(reason@),
            CommandError::SingleArgNotJsonArray(text) => CommandErrorModel::SingleArgNotJsonArray(
                text@,
            ),
            CommandError::JsonArrayNotObj(text) => CommandErrorModel::JsonArrayNotObj(text@),
            CommandError::EmptyJsonArray => CommandErrorModel::EmptyJsonArray,
            CommandError::ArgNotJsonOrValidAddress => CommandErrorModel::ArgNotJsonOrValidAddress,
            CommandError::MissingKey(key) => CommandErrorModel::MissingKey(key@),
            CommandError::UnexpectedType(text) => CommandErrorModel::UnexpectedType(text@),
            CommandError::NonJsonNumberForAmount(text) => CommandErrorModel::NonJsonNumberForAmount(
                text@,
            ),
            CommandError::MissingZenniesForZingoFlag => {
                CommandErrorModel::MissingZenniesForZingoFlag
            },
            CommandError::ZenniesFlagNonBool(text) => CommandErrorModel::ZenniesFlagNonBool(text@),
            CommandError::ParseIntFromString(_) => CommandErrorModel::ParseIntFromString,
            CommandError::ConversionFailed(error) => CommandErrorModel::ConversionFailed(error@),
            CommandError::InvalidMemo(text) => CommandErrorModel::InvalidMemo(text@),
            CommandError::IncompatibleMemo => CommandErrorModel::IncompatibleMemo,
            CommandError::InvalidArguments => CommandErrorModel::InvalidArguments,
        }
    }
}

} // verus!
