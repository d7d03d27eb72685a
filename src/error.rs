//! Everything that can stop an assembly run.

use vstd::prelude::*;
use std::num::ParseIntError;
use std::path::PathBuf;

verus! {

/// `std::path::PathBuf`, carried opaque in the file errors.
#[verifier::external_type_specification]
#[verifier::external_body]
pub struct ExPathBuf(PathBuf);

/// `std::io::Error`, carried opaque as the cause of a file error.
#[verifier::external_type_specification]
#[verifier::external_body]
pub struct ExIoError(std::io::Error);

/// The first failure of a run. Line numbers count from zero.
#[derive(Debug)]
pub enum AssemblerError {
    FileOpen(PathBuf, std::io::Error),
    FileRead(PathBuf, std::io::Error),
    FileWrite(PathBuf, std::io::Error),
    Syntax(usize, String),
    InvalidInstruction(usize, String),
    MissingOperand(usize, String),
    TooManyOperands(usize),
    InvalidRegister(usize, String),
    InvalidIntegerLiteral(usize, String, ParseIntError),
    InvalidCondition(usize, String),
    DuplicateLabel(usize, String),
    UndefinedLabel(String),
    AddressSpaceExhausted(),
}

/// An error as the contracts speak of it: the variant, its line and its text.
pub enum Failure {
    FileOpen,
    FileRead,
    FileWrite,
    Syntax(usize, Seq<char>),
    InvalidInstruction(usize, Seq<char>),
    MissingOperand(usize, Seq<char>),
    TooManyOperands(usize),
    InvalidRegister(usize, Seq<char>),
    InvalidIntegerLiteral(usize, Seq<char>),
    InvalidCondition(usize, Seq<char>),
    DuplicateLabel(usize, Seq<char>),
    UndefinedLabel(Seq<char>),
    AddressSpaceExhausted,
}

impl View for AssemblerError {
    type V = Failure;

    open spec fn view(&self) -> Failure {
        match self {
            AssemblerError::FileOpen(_, _) => Failure::FileOpen,
            AssemblerError::FileRead(_, _) => Failure::FileRead,
            AssemblerError::FileWrite(_, _) => Failure::FileWrite,
            AssemblerError::Syntax(n, s) => Failure::Syntax(*n, s@),
            AssemblerError::InvalidInstruction(n, s) => Failure::InvalidInstruction(*n, s@),
            AssemblerError::MissingOperand(n, s) => Failure::MissingOperand(*n, s@),
            AssemblerError::TooManyOperands(n) => Failure::TooManyOperands(*n),
            AssemblerError::InvalidRegister(n, s) => Failure::InvalidRegister(*n, s@),
            AssemblerError::InvalidIntegerLiteral(n, s, _) => Failure::InvalidIntegerLiteral(*n, s@),
            AssemblerError::InvalidCondition(n, s) => Failure::InvalidCondition(*n, s@),
            AssemblerError::DuplicateLabel(n, s) => Failure::DuplicateLabel(*n, s@),
            AssemblerError::UndefinedLabel(s) => Failure::UndefinedLabel(s@),
            AssemblerError::AddressSpaceExhausted() => Failure::AddressSpaceExhausted,
        }
    }
}

} // verus!
