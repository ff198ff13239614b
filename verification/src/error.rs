//! Why a guest is rejected, the result code that the host sees for it, and
//! the line that describes it.

use vstd::prelude::*;
use vstd::string::*;

verus! {

/// Why a guest is rejected. At most one reason is reported for one call: the
/// first that validation meets.
#[derive(Debug)]
pub enum WatParserError {
    /// The binary is not a well-formed module: the decoder's own error.
    WasmParserError(wasmparser::BinaryReaderError),
    /// The binary decodes, but a function or type index in it points at
    /// nothing, or at a type that is not a function type.
    IndexOutOfRange,
    /// The contract holds a value-type token that names none of the supported
    /// kinds; the token is carried.
    InvalidValueType(String),
    /// The contract asks for an exported memory and the module exports none
    /// under the name `memory`.
    WrongMemoryType,
    /// A required export is missing; its name is carried.
    MissingExportedFunction(String),
    /// A function's parameters differ from the contract's; its name is carried.
    FunctionHasWrongParams(String),
    /// A function's result differs from the contract's; its name is carried.
    FunctionHasWrongResult(String),
    /// The module imports a function that the contract does not list; its
    /// name is carried.
    UnexpectedImport(String),
}

/// Model of a [`WatParserError`].
pub enum Failure {
    WasmParserError(wasmparser::Error),
    IndexOutOfRange,
    InvalidValueType(Seq<char>),
    WrongMemoryType,
    MissingExportedFunction(Seq<char>),
    FunctionHasWrongParams(Seq<char>),
    FunctionHasWrongResult(Seq<char>),
    UnexpectedImport(Seq<char>),
}

impl DeepView for WatParserError {
    type V = Failure;

    open spec fn deep_view(&self) -> Failure {
        match self {
            WatParserError::WasmParserError(e) => Failure::WasmParserError(*e),
            WatParserError::IndexOutOfRange => Failure::IndexOutOfRange,
            WatParserError::InvalidValueType(t) => Failure::InvalidValueType(t@),
            WatParserError::WrongMemoryType => Failure::WrongMemoryType,
            WatParserError::MissingExportedFunction(f) => Failure::MissingExportedFunction(f@),
            WatParserError::FunctionHasWrongParams(f) => Failure::FunctionHasWrongParams(f@),
            WatParserError::FunctionHasWrongResult(f) => Failure::FunctionHasWrongResult(f@),
            WatParserError::UnexpectedImport(f) => Failure::UnexpectedImport(f@),
        }
    }
}

impl From<wasmparser::BinaryReaderError> for WatParserError {
    fn from(err: wasmparser::BinaryReaderError) -> (r: WatParserError) {
        WatParserError::WasmParserError(err)
    }
}

impl vstd::std_specs::convert::FromSpecImpl<wasmparser::BinaryReaderError> for WatParserError {
    open spec fn obeys_from_spec() -> bool {
        true
    }

    open spec fn from_spec(err: wasmparser::BinaryReaderError) -> WatParserError {
        WatParserError::WasmParserError(err)
    }
}

/// The model of a validation result.
pub open spec fn outcome_view(r: Result<(), WatParserError>) -> Result<(), Failure> {
    match r {
        Ok(()) => Ok(()),
        Err(e) => Err(e.deep_view()),
    }
}

/// The result code of a failure. Both ways in which a module can be
/// malformed, and a defect of the contract, share the code 1.
pub open spec fn failure_code(f: Failure) -> u8 {
    match f {
        Failure::WasmParserError(_) => 1,
        Failure::IndexOutOfRange => 1,
        Failure::InvalidValueType(_) => 1,
        Failure::FunctionHasWrongParams(_) => 2,
        Failure::FunctionHasWrongResult(_) => 3,
        Failure::MissingExportedFunction(_) => 4,
        Failure::WrongMemoryType => 5,
        Failure::UnexpectedImport(_) => 6,
    }
}

/// The result code of a validation: 0 for success, else the failure's code.
pub open spec fn outcome_code(r: Result<(), Failure>) -> u8 {
    match r {
        Ok(()) => 0,
        Err(f) => failure_code(f),
    }
}

/// The line that describes a failure, naming the function where one is at
/// fault.
pub open spec fn failure_message(f: Failure) -> Seq<char> {
    match f {
        Failure::WasmParserError(_) => "Some error in the WebAssembly parser"@,
        Failure::IndexOutOfRange => "Some error in the WebAssembly parser"@,
        Failure::InvalidValueType(t) => t + " is not a valid value type"@,
        Failure::FunctionHasWrongParams(f) => f + " has wrong parameters"@,
        Failure::FunctionHasWrongResult(f) => f + " has wrong result"@,
        Failure::MissingExportedFunction(f) => f + " is not exported"@,
        Failure::WrongMemoryType => "memory is not exported"@,
        Failure::UnexpectedImport(f) => f + " is not exported"@,
    }
}

impl WatParserError {
    /// The result code that the host sees for this failure: never 0.
    pub fn code(&self) -> (c: u8)
        ensures
            c == failure_code(self.deep_view()),
            1 <= c <= 6,
    {
        match self {
            WatParserError::WasmParserError(_) => 1,
            WatParserError::IndexOutOfRange => 1,
            WatParserError::InvalidValueType(_) => 1,
            WatParserError::FunctionHasWrongParams(_) => 2,
            WatParserError::FunctionHasWrongResult(_) => 3,
            WatParserError::MissingExportedFunction(_) => 4,
            WatParserError::WrongMemoryType => 5,
            WatParserError::UnexpectedImport(_) => 6,
        }
    }

    /// The line that describes this failure.
    pub fn message(&self) -> (m: String)
        ensures
            m@ == failure_message(self.deep_view()),
    {
        match self {
            WatParserError::WasmParserError(_) => String::from_str(
                "Some error in the WebAssembly parser",
            ),
            WatParserError::IndexOutOfRange => String::from_str(
                "Some error in the WebAssembly parser",
            ),
            WatParserError::InvalidValueType(t) => t.clone().concat(" is not a valid value type"),
            WatParserError::FunctionHasWrongParams(f) => f.clone().concat(" has wrong parameters"),
            WatParserError::FunctionHasWrongResult(f) => f.clone().concat(" has wrong result"),
            WatParserError::MissingExportedFunction(f) => f.clone().concat(" is not exported"),
            WatParserError::WrongMemoryType => String::from_str("memory is not exported"),
            WatParserError::UnexpectedImport(f) => f.clone().concat(" is not exported"),
        }
    }
}

/// The result code of a validation result: 0 exactly for success.
pub fn result_code(r: &Result<(), WatParserError>) -> (c: u8)
    ensures
        c == outcome_code(outcome_view(*r)),
        c == 0 <==> r is Ok,
        c <= 6,
{
    match r {
        Ok(_) => 0,
        Err(e) => e.code(),
    }
}

} // verus!
