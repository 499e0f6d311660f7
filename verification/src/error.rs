//! The errors of lexing, tree building and evaluation.
use vstd::prelude::*;
use crate::value::{Value, ValueModel};
use crate::operator::{Operator, OperatorModel};

verus! {

#[derive(Debug)]
pub enum Error {
    UnsupportedOperator(String),
    UnpairedBrackets,
    DuplicateOperatorNode,
    DuplicateValueNode,
    StartWithNonValueOperator,
    BracketNotWithFunction,
    CommaNotWithFunction,
    CanNotAddChild,
    NoFinalNode,
    ExpectedBoolean(Value),
    ExpectedObject,
    ExpectedArray,
    ExpectedIdentifier,
    ExpectedNumber,
    InvalidRange(String),
    FunctionNotExists(String),
    ArgumentsGreater(usize),
    ArgumentsLess(usize),
    CanNotExec(Operator),
    InvalidOperation,
    Custom(String),
}

pub enum ErrorModel {
    UnsupportedOperator(Seq<char>),
    UnpairedBrackets,
    DuplicateOperatorNode,
    DuplicateValueNode,
    StartWithNonValueOperator,
    BracketNotWithFunction,
    CommaNotWithFunction,
    CanNotAddChild,
    NoFinalNode,
    ExpectedBoolean(ValueModel),
    ExpectedObject,
    ExpectedArray,
    ExpectedIdentifier,
    ExpectedNumber,
    InvalidRange(Seq<char>),
    FunctionNotExists(Seq<char>),
    ArgumentsGreater(usize),
    ArgumentsLess(usize),
    CanNotExec(OperatorModel),
    InvalidOperation,
    Custom(Seq<char>),
}

impl Error {
    pub open spec fn model(&self) -> ErrorModel {
        match self {
            Error::UnsupportedOperator(s) => ErrorModel::UnsupportedOperator(s@),
            Error::UnpairedBrackets => ErrorModel::UnpairedBrackets,
            Error::DuplicateOperatorNode => ErrorModel::DuplicateOperatorNode,
            Error::DuplicateValueNode => ErrorModel::DuplicateValueNode,
            Error::StartWithNonValueOperator => ErrorModel::StartWithNonValueOperator,
            Error::BracketNotWithFunction => ErrorModel::BracketNotWithFunction,
            Error::CommaNotWithFunction => ErrorModel::CommaNotWithFunction,
            Error::CanNotAddChild => ErrorModel::CanNotAddChild,
            Error::NoFinalNode => ErrorModel::NoFinalNode,
            Error::ExpectedBoolean(v) => ErrorModel::ExpectedBoolean(v.model()),
            Error::ExpectedObject => ErrorModel::ExpectedObject,
            Error::ExpectedArray => ErrorModel::ExpectedArray,
            Error::ExpectedIdentifier => ErrorModel::ExpectedIdentifier,
            Error::ExpectedNumber => ErrorModel::ExpectedNumber,
            Error::InvalidRange(s) => ErrorModel::InvalidRange(s@),
            Error::FunctionNotExists(s) => ErrorModel::FunctionNotExists(s@),
            Error::ArgumentsGreater(n) => ErrorModel::ArgumentsGreater(*n),
            Error::ArgumentsLess(n) => ErrorModel::ArgumentsLess(*n),
            Error::CanNotExec(op) => ErrorModel::CanNotExec(op.model()),
            Error::InvalidOperation => ErrorModel::InvalidOperation,
            Error::Custom(s) => ErrorModel::Custom(s@),
        }
    }
}

/// The model of an evaluation's outcome.
pub open spec fn outcome(r: Result<Value, Error>) -> Result<ValueModel, ErrorModel> {
    match r {
        Ok(v) => Ok(v.model()),
        Err(e) => Err(e.model()),
    }
}

} // verus!
