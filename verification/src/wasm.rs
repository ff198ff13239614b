//! Reading a module's structure out of its binary form.
//!
//! The binary format is decoded by the `wasmparser` crate. Each call into it
//! stands behind a small function whose contract is believed, not proved; the
//! loops that gather what the calls hand out are verified.

use crate::types::{Export, ExportView, ExternalKind, Import, ImportView, TypeRef, ValueType};
use vstd::prelude::*;

verus! {

/// Why `wasmparser` could not read a binary.
#[verifier::external_type_specification]
#[verifier::external_body]
pub struct ExError(wasmparser::Error);

/// One piece of a binary as `wasmparser` hands it out: its header, one of its
/// sections, or its end.
#[verifier::external_type_specification]
#[verifier::external_body]
pub struct ExPayload<'a>(wasmparser::Payload<'a>);

/// One entry of a type section: a single type, or a group of types that may
/// refer to each other.
#[verifier::external_type_specification]
#[verifier::external_body]
pub struct ExRecGroup(wasmparser::RecGroup);

/// One declared type of a module.
#[verifier::external_type_specification]
#[verifier::external_body]
pub struct ExSubType(wasmparser::SubType);

/// A value type as `wasmparser` represents it.
#[verifier::external_type_specification]
#[verifier::external_body]
pub struct ExValType(wasmparser::ValType);

/// What `Parser::parse_all` yields for a binary, from a parser made by
/// `Parser::new(0)`: the payloads in order, or the first error.
pub uninterp spec fn parsed_payloads(wasm: Seq<u8>) -> Result<
    Seq<wasmparser::Payload<'static>>,
    wasmparser::Error,
>;

/// What reading a type section to its end yields; `None` for a payload that
/// is no type section.
pub uninterp spec fn type_section(payload: wasmparser::Payload<'static>) -> Option<
    Result<Seq<wasmparser::RecGroup>, wasmparser::Error>,
>;

/// What reading an import section to its end yields, groups of imports
/// flattened; `None` for a payload that is no import section.
pub uninterp spec fn import_section(payload: wasmparser::Payload<'static>) -> Option<
    Result<Seq<ImportView>, wasmparser::Error>,
>;

/// What reading a function section to its end yields; `None` for a payload
/// that is no function section.
pub uninterp spec fn function_section(payload: wasmparser::Payload<'static>) -> Option<
    Result<Seq<u32>, wasmparser::Error>,
>;

/// What reading an export section to its end yields; `None` for a payload
/// that is no export section.
pub uninterp spec fn export_section(payload: wasmparser::Payload<'static>) -> Option<
    Result<Seq<ExportView>, wasmparser::Error>,
>;

/// The types that a group declares, in order.
pub uninterp spec fn rec_group_members(group: wasmparser::RecGroup) -> Seq<wasmparser::SubType>;

/// The parameters and the results of a declared function type; `None` for a
/// declared type of another kind.
pub uninterp spec fn sub_type_signature(ty: wasmparser::SubType) -> Option<
    (Seq<wasmparser::ValType>, Seq<wasmparser::ValType>),
>;

/// The library's value kind for one of `wasmparser`.
pub uninterp spec fn val_type_of(ty: wasmparser::ValType) -> ValueType;

/// Calls `wasmparser::Parser::new(0)` and `Parser::parse_all` on the binary and
/// collects what the iterator yields up to its first error.
///
/// Believed: the outcome is a function of the bytes, named
/// [`parsed_payloads`].
#[verifier::external_body]
pub(crate) fn parse_payloads<'a>(wasm: &'a [u8]) -> (r: Result<
    Vec<wasmparser::Payload<'a>>,
    wasmparser::Error,
>)
    ensures
        match r {
            Ok(v) => parsed_payloads(wasm@) == Ok::<_, wasmparser::Error>(v@),
            Err(e) => parsed_payloads(wasm@) == Err::<Seq<wasmparser::Payload<'static>>, _>(e),
        },
{
    wasmparser::Parser::new(0).parse_all(wasm).collect()
}

/// Tells a `Payload::TypeSection` apart and iterates its reader (a
/// `SectionLimited`) to the end or to the first error.
///
/// Believed: the outcome is a function of the payload, named
/// [`type_section`].
#[verifier::external_body]
pub(crate) fn payload_types(payload: &wasmparser::Payload<'_>) -> (r: Option<
    Result<Vec<wasmparser::RecGroup>, wasmparser::Error>,
>)
    ensures
        match r {
            None => type_section(*payload) is None,
            Some(Ok(v)) => type_section(*payload) == Some(Ok::<_, wasmparser::Error>(v@)),
            Some(Err(e)) => type_section(*payload) == Some(
                Err::<Seq<wasmparser::RecGroup>, _>(e),
            ),
        },
{
    match payload {
        wasmparser::Payload::TypeSection(reader) => Some(reader.clone().into_iter().collect()),
        _ => None,
    }
}

/// Tells a `Payload::ImportSection` apart and iterates its reader through
/// `into_imports` to the end or to the first error, keeping of each import its
/// name and what it asks for.
///
/// Believed: the outcome is a function of the payload, named
/// [`import_section`].
#[verifier::external_body]
pub(crate) fn payload_imports(payload: &wasmparser::Payload<'_>) -> (r: Option<
    Result<Vec<Import>, wasmparser::Error>,
>)
    ensures
        match r {
            None => import_section(*payload) is None,
            Some(Ok(v)) => import_section(*payload) == Some(
                Ok::<_, wasmparser::Error>(v.deep_view()),
            ),
            Some(Err(e)) => import_section(*payload) == Some(Err::<Seq<ImportView>, _>(e)),
        },
{
    let wasmparser::Payload::ImportSection(reader) = payload else { return None; };
    Some(reader.clone().into_imports().map(|item| item.map(|i| Import {
        name: i.name.to_string(),
        ty: match i.ty {
            wasmparser::TypeRef::Func(index) => TypeRef::Func(index),
            wasmparser::TypeRef::Table(_) => TypeRef::Table,
            wasmparser::TypeRef::Memory(_) => TypeRef::Memory,
            wasmparser::TypeRef::Global(_) => TypeRef::Global,
            wasmparser::TypeRef::Tag(_) => TypeRef::Tag,
            wasmparser::TypeRef::FuncExact(index) => TypeRef::FuncExact(index),
        },
    })).collect())
}

/// Tells a `Payload::FunctionSection` apart and iterates its reader to the
/// end or to the first error.
///
/// Believed: the outcome is a function of the payload, named
/// [`function_section`].
#[verifier::external_body]
pub(crate) fn payload_functions(payload: &wasmparser::Payload<'_>) -> (r: Option<
    Result<Vec<u32>, wasmparser::Error>,
>)
    ensures
        match r {
            None => function_section(*payload) is None,
            Some(Ok(v)) => function_section(*payload) == Some(Ok::<_, wasmparser::Error>(v@)),
            Some(Err(e)) => function_section(*payload) == Some(Err::<Seq<u32>, _>(e)),
        },
{
    match payload {
        wasmparser::Payload::FunctionSection(reader) => Some(reader.clone().into_iter().collect()),
        _ => None,
    }
}

/// Tells a `Payload::ExportSection` apart and iterates its reader to the end
/// or to the first error, keeping each export's name, kind and index.
///
/// Believed: the outcome is a function of the payload, named
/// [`export_section`].
#[verifier::external_body]
pub(crate) fn payload_exports(payload: &wasmparser::Payload<'_>) -> (r: Option<
    Result<Vec<Export>, wasmparser::Error>,
>)
    ensures
        match r {
            None => export_section(*payload) is None,
            Some(Ok(v)) => export_section(*payload) == Some(
                Ok::<_, wasmparser::Error>(v.deep_view()),
            ),
            Some(Err(e)) => export_section(*payload) == Some(Err::<Seq<ExportView>, _>(e)),
        },
{
    let wasmparser::Payload::ExportSection(reader) = payload else { return None; };
    Some(reader.clone().into_iter().map(|item| item.map(|e| Export {
        name: e.name.to_string(),
        kind: match e.kind {
            wasmparser::ExternalKind::Func => ExternalKind::Func,
            wasmparser::ExternalKind::Table => ExternalKind::Table,
            wasmparser::ExternalKind::Memory => ExternalKind::Memory,
            wasmparser::ExternalKind::Global => ExternalKind::Global,
            wasmparser::ExternalKind::Tag => ExternalKind::Tag,
            wasmparser::ExternalKind::FuncExact => ExternalKind::FuncExact,
        },
        index: e.index,
    })).collect())
}

/// Calls `RecGroup::types` and collects a copy of each type it yields.
///
/// Believed: the types are a function of the group, named
/// [`rec_group_members`].
#[verifier::external_body]
pub(crate) fn group_members(group: &wasmparser::RecGroup) -> (r: Vec<wasmparser::SubType>)
    ensures
        r@ == rec_group_members(*group),
{
    group.types().cloned().collect()
}

/// Tells a function type apart among the kinds of `CompositeInnerType` and
/// copies what `FuncType::params` and `FuncType::results` return.
///
/// Believed: the outcome is a function of the declared type, named
/// [`sub_type_signature`].
#[verifier::external_body]
pub(crate) fn signature_of(ty: &wasmparser::SubType) -> (r: Option<
    (Vec<wasmparser::ValType>, Vec<wasmparser::ValType>),
>)
    ensures
        match r {
            None => sub_type_signature(*ty) is None,
            Some(s) => sub_type_signature(*ty) == Some((s.0@, s.1@)),
        },
{
    match &ty.composite_type.inner {
        wasmparser::CompositeInnerType::Func(f) => Some((f.params().to_vec(), f.results().to_vec())),
        _ => None,
    }
}

/// Tells the variants of `wasmparser::ValType` apart.
///
/// Believed: the outcome is a function of the value type, named
/// [`val_type_of`].
#[verifier::external_body]
pub(crate) fn val_type(ty: &wasmparser::ValType) -> (r: ValueType)
    ensures
        r == val_type_of(*ty),
{
    match ty {
        wasmparser::ValType::I32 => ValueType::I32,
        wasmparser::ValType::I64 => ValueType::I64,
        wasmparser::ValType::F32 => ValueType::F32,
        wasmparser::ValType::F64 => ValueType::F64,
        wasmparser::ValType::V128 => ValueType::V128,
        wasmparser::ValType::Ref(_) => ValueType::Ref,
    }
}

} // verus!
