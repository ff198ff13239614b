//! The surface that a host calls: bytes and a contract in, a result code and
//! a line for the operator out.

use crate::decode::decoded_module;
use crate::error::{failure_message, outcome_code, outcome_view, Failure, WatParserError};
use crate::expectations::{resolved, Expectations, ExpectationsView};
use crate::types::ModuleStructure;
use crate::validate::{validate, validation};
use vstd::prelude::*;

verus! {

/// What the host gets back: the result code, and for a code other than 0 the
/// line that describes the failure.
#[derive(Clone, Debug, PartialEq, Eq)]
pub struct Verdict {
    pub code: u8,
    pub diagnostic: Option<String>,
}

/// The outcome of validating a binary against a contract document.
///
/// A token of the contract that names no value type comes first; then the
/// decoder's error, where the bytes are no well-formed module; then what
/// [`validation`] says of the decoded module and the resolved contract.
pub open spec fn validation_of(wasm: Seq<u8>, doc: ExpectationsView) -> Result<(), Failure> {
    match resolved(doc) {
        Err(t) => Err(Failure::InvalidValueType(t)),
        Ok(c) => match decoded_module(wasm) {
            Err(e) => Err(Failure::WasmParserError(e)),
            Ok(m) => validation(m, c),
        },
    }
}

/// Validates a binary against a contract document: see [`validation_of`].
pub fn validate_binary(wasm: &[u8], expectations: &Expectations) -> (r: Result<
    (),
    WatParserError,
>)
    ensures
        outcome_view(r) == validation_of(wasm@, expectations.deep_view()),
{
    let contract = match expectations.resolve() {
        Ok(contract) => contract,
        Err(e) => {
            return Err(e);
        },
    };
    let module = match ModuleStructure::decode(wasm) {
        Ok(module) => module,
        Err(e) => {
            return Err(WatParserError::from(e));
        },
    };
    validate(&module, &contract)
}

/// Turns a validation result into what the host gets back: code 0 and no
/// line for success, else the failure's code and its line.
pub fn report(r: &Result<(), WatParserError>) -> (v: Verdict)
    ensures
        v.code == outcome_code(outcome_view(*r)),
        v.code <= 6,
        v.code == 0 <==> r is Ok,
        match outcome_view(*r) {
            Ok(()) => v.diagnostic is None,
            Err(f) => v.diagnostic matches Some(line) && line@ == failure_message(f),
        },
{
    match r {
        Ok(_) => Verdict { code: 0, diagnostic: None },
        Err(e) => Verdict { code: e.code(), diagnostic: Some(e.message()) },
    }
}

/// Validates a binary against a contract document and reports the outcome
/// as the host reads it.
///
/// The code is a function of the bytes and of the contract alone: 0 exactly
/// when [`validation_of`] succeeds, else the code of its failure, and then the
/// line describes that failure.
pub fn validate_wasm(wasm: &[u8], expectations: &Expectations) -> (v: Verdict)
    ensures
        v.code == outcome_code(validation_of(wasm@, expectations.deep_view())),
        v.code <= 6,
        v.code == 0 <==> validation_of(wasm@, expectations.deep_view()) is Ok,
        match validation_of(wasm@, expectations.deep_view()) {
            Ok(()) => v.diagnostic is None,
            Err(f) => v.diagnostic matches Some(line) && line@ == failure_message(f),
        },
{
    let r = validate_binary(wasm, expectations);
    report(&r)
}

/// Validation is a function of the bytes and of the contract: equal bytes
/// held against equal contracts get the same outcome, and so the same code.
pub proof fn lemma_validation_deterministic(
    wasm1: Seq<u8>,
    doc1: ExpectationsView,
    wasm2: Seq<u8>,
    doc2: ExpectationsView,
)
    requires
        wasm1 == wasm2,
        doc1 == doc2,
    ensures
        validation_of(wasm1, doc1) == validation_of(wasm2, doc2),
        outcome_code(validation_of(wasm1, doc1)) == outcome_code(validation_of(wasm2, doc2)),
{
}

/// The code of an outcome is 0 exactly for success, and at most 6.
pub proof fn lemma_code_range(r: Result<(), Failure>)
    ensures
        outcome_code(r) <= 6,
        outcome_code(r) == 0 <==> r is Ok,
{
}

} // verus!
