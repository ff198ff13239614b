//! A gate for guest modules: a compiled module is held against the contract
//! of the host that is to run it, and is rejected before it runs unless its
//! exports, its imports and its memory are what the contract asks for.

pub mod boundary;
pub mod decode;
pub mod error;
pub mod expectations;
pub mod laws;
pub mod signatures;
pub mod types;
pub mod validate;
pub mod wasm;

pub use crate::boundary::{report, validate_binary, validate_wasm, Verdict};
pub use crate::error::WatParserError;
pub use crate::expectations::{
    str_to_val_type, ExpectationSpec, Expectations, FunctionExpect, FunctionExpectEntry,
    MemoryExpect,
};
pub use crate::signatures::{FuncInfo, NamedSignature, SignatureTables};
pub use crate::types::{
    Export, ExternalKind, FuncType, Import, ModuleStructure, TypeRef, ValueType,
};
pub use crate::validate::{check_tables, validate};
