//! The module structure extractor: one pass over the payloads of a binary
//! that gathers its type, import, function and export sections.

use crate::types::{
    lemma_deep_concat, lemma_deep_push, lemma_deep_vec, Export, FuncType, FuncTypeView, Import,
    ModuleStructure, ModuleView, ValueType,
};
use crate::wasm::{
    export_section, function_section, group_members, import_section, parse_payloads,
    parsed_payloads, payload_exports, payload_functions, payload_imports, payload_types,
    rec_group_members, signature_of, sub_type_signature, type_section, val_type, val_type_of,
};
use vstd::prelude::*;

verus! {

/// The library's value kinds for a list of value types of the decoder.
pub open spec fn value_types(tys: Seq<wasmparser::ValType>) -> Seq<ValueType> {
    Seq::new(tys.len(), |i: int| val_type_of(tys[i]))
}

/// The type table's entry for one declared type: its signature where it is a
/// function type, `None` where it is not.
pub open spec fn type_definition(ty: wasmparser::SubType) -> Option<FuncTypeView> {
    match sub_type_signature(ty) {
        Some(s) => Some(FuncTypeView { params: value_types(s.0), results: value_types(s.1) }),
        None => None,
    }
}

/// The type table's entries for the first `n` of a list of declared types.
pub open spec fn type_definitions(tys: Seq<wasmparser::SubType>, n: nat) -> Seq<
    Option<FuncTypeView>,
>
    recommends
        n <= tys.len(),
{
    Seq::new(n, |i: int| type_definition(tys[i]))
}

/// The type table's entries for the first `n` entries of a type section: the
/// members of each group, group after group.
pub open spec fn section_definitions(groups: Seq<wasmparser::RecGroup>, n: nat) -> Seq<
    Option<FuncTypeView>,
>
    recommends
        n <= groups.len(),
    decreases n,
{
    if n == 0 {
        Seq::empty()
    } else {
        let members = rec_group_members(groups[n - 1]);
        section_definitions(groups, (n - 1) as nat) + type_definitions(members, members.len())
    }
}

/// The module after one more payload: a type, import, function or export
/// section adds what it holds behind what is there, any other payload changes
/// nothing, and a section that cannot be read to its end is an error.
pub open spec fn absorb(m: ModuleView, payload: wasmparser::Payload<'static>) -> Result<
    ModuleView,
    wasmparser::Error,
> {
    match type_section(payload) {
        Some(Err(e)) => Err(e),
        Some(Ok(groups)) => Ok(
            ModuleView {
                func_types: m.func_types + section_definitions(groups, groups.len()),
                ..m
            },
        ),
        None => match import_section(payload) {
            Some(Err(e)) => Err(e),
            Some(Ok(items)) => Ok(ModuleView { imports: m.imports + items, ..m }),
            None => match function_section(payload) {
                Some(Err(e)) => Err(e),
                Some(Ok(items)) => Ok(
                    ModuleView { func_type_indexes: m.func_type_indexes + items, ..m },
                ),
                None => match export_section(payload) {
                    Some(Err(e)) => Err(e),
                    Some(Ok(items)) => Ok(ModuleView { exports: m.exports + items, ..m }),
                    None => Ok(m),
                },
            },
        },
    }
}

/// The module after the first `n` payloads, or the first error among them.
pub open spec fn absorbed(payloads: Seq<wasmparser::Payload<'static>>, n: nat) -> Result<
    ModuleView,
    wasmparser::Error,
>
    recommends
        n <= payloads.len(),
    decreases n,
{
    if n == 0 {
        Ok(ModuleView::empty())
    } else {
        match absorbed(payloads, (n - 1) as nat) {
            Err(e) => Err(e),
            Ok(m) => absorb(m, payloads[n - 1]),
        }
    }
}

/// The structure of a binary: what its sections hold, gathered in the order
/// of its payloads. The error is the decoder's own: the first that parsing the
/// binary or reading one of the four sections meets.
pub open spec fn decoded_module(wasm: Seq<u8>) -> Result<ModuleView, wasmparser::Error> {
    match parsed_payloads(wasm) {
        Err(e) => Err(e),
        Ok(payloads) => absorbed(payloads, payloads.len()),
    }
}

fn convert_value_types(tys: &Vec<wasmparser::ValType>) -> (r: Vec<ValueType>)
    ensures
        r@ == value_types(tys@),
{
    let mut out: Vec<ValueType> = Vec::new();
    let mut i: usize = 0;
    while i < tys.len()
        invariant
            i <= tys.len(),
            out@ == Seq::new(i as nat, |k: int| val_type_of(tys@[k])),
        decreases tys.len() - i,
    {
        let v = val_type(&tys[i]);
        out.push(v);
        i += 1;
        assert(out@ =~= Seq::new(i as nat, |k: int| val_type_of(tys@[k])));
    }
    assert(out@ =~= value_types(tys@));
    out
}

fn convert_type(ty: &wasmparser::SubType) -> (r: Option<FuncType>)
    ensures
        r.deep_view() == type_definition(*ty),
{
    match signature_of(ty) {
        None => None,
        Some(s) => {
            let params = convert_value_types(&s.0);
            let results = convert_value_types(&s.1);
            Some(FuncType { params, results })
        },
    }
}

fn convert_group(group: &wasmparser::RecGroup, table: &mut Vec<Option<FuncType>>)
    ensures
        final(table).deep_view() == old(table).deep_view() + type_definitions(
            rec_group_members(*group),
            rec_group_members(*group).len(),
        ),
{
    let members = group_members(group);
    let ghost before = table.deep_view();
    let mut i: usize = 0;
    while i < members.len()
        invariant
            i <= members.len(),
            members@ == rec_group_members(*group),
            table.deep_view() == before + type_definitions(members@, i as nat),
        decreases members.len() - i,
    {
        let ghost prev = *table;
        let def = convert_type(&members[i]);
        table.push(def);
        i += 1;
        proof {
            lemma_deep_vec(prev);
            lemma_deep_vec(*table);
            lemma_deep_push(prev@, def);
            assert(table.deep_view() =~= before + type_definitions(members@, i as nat));
        }
    }
}

fn convert_section(groups: &Vec<wasmparser::RecGroup>, table: &mut Vec<Option<FuncType>>)
    ensures
        final(table).deep_view() == old(table).deep_view() + section_definitions(
            groups@,
            groups@.len(),
        ),
{
    let ghost before = table.deep_view();
    let mut i: usize = 0;
    while i < groups.len()
        invariant
            i <= groups.len(),
            table.deep_view() == before + section_definitions(groups@, i as nat),
        decreases groups.len() - i,
    {
        convert_group(&groups[i], table);
        i += 1;
        assert(table.deep_view() =~= before + section_definitions(groups@, i as nat));
    }
}

fn append_imports(list: &mut Vec<Import>, items: Vec<Import>)
    ensures
        final(list).deep_view() == old(list).deep_view() + items.deep_view(),
{
    let ghost added = items;
    let mut items = items;
    list.append(&mut items);
    proof {
        lemma_deep_vec(*old(list));
        lemma_deep_vec(*list);
        lemma_deep_vec(added);
        lemma_deep_concat(old(list)@, added@);
    }
}

fn append_exports(list: &mut Vec<Export>, items: Vec<Export>)
    ensures
        final(list).deep_view() == old(list).deep_view() + items.deep_view(),
{
    let ghost added = items;
    let mut items = items;
    list.append(&mut items);
    proof {
        lemma_deep_vec(*old(list));
        lemma_deep_vec(*list);
        lemma_deep_vec(added);
        lemma_deep_concat(old(list)@, added@);
    }
}

fn absorb_payload(module: &mut ModuleStructure, payload: &wasmparser::Payload<'_>) -> (r: Result<
    (),
    wasmparser::Error,
>)
    ensures
        match r {
            Ok(()) => absorb(old(module).deep_view(), *payload) == Ok::<_, wasmparser::Error>(
                final(module).deep_view(),
            ),
            Err(e) => absorb(old(module).deep_view(), *payload) == Err::<ModuleView, _>(e),
        },
{
    if let Some(groups) = payload_types(payload) {
        match groups {
            Err(e) => Err(e),
            Ok(groups) => {
                convert_section(&groups, &mut module.func_types);
                Ok(())
            },
        }
    } else if let Some(items) = payload_imports(payload) {
        match items {
            Err(e) => Err(e),
            Ok(items) => {
                append_imports(&mut module.imports, items);
                Ok(())
            },
        }
    } else if let Some(items) = payload_functions(payload) {
        match items {
            Err(e) => Err(e),
            Ok(items) => {
                let mut items = items;
                module.func_type_indexes.append(&mut items);
                Ok(())
            },
        }
    } else if let Some(items) = payload_exports(payload) {
        match items {
            Err(e) => Err(e),
            Ok(items) => {
                append_exports(&mut module.exports, items);
                Ok(())
            },
        }
    } else {
        Ok(())
    }
}

impl ModuleStructure {
    /// Reads the structure of a module out of its binary form.
    ///
    /// The result is [`decoded_module`] of the bytes: the gathered sections, or
    /// the decoder's first error in parsing the binary or in reading one of the
    /// four sections to its end.
    pub fn decode(wasm: &[u8]) -> (r: Result<ModuleStructure, wasmparser::Error>)
        ensures
            match r {
                Ok(m) => decoded_module(wasm@) == Ok::<_, wasmparser::Error>(m.deep_view()),
                Err(e) => decoded_module(wasm@) == Err::<ModuleView, _>(e),
            },
    {
        let payloads = match parse_payloads(wasm) {
            Ok(payloads) => payloads,
            Err(e) => {
                return Err(e);
            },
        };
        let mut module = ModuleStructure::new();
        let mut i: usize = 0;
        while i < payloads.len()
            invariant
                i <= payloads.len(),
                parsed_payloads(wasm@) == Ok::<_, wasmparser::Error>(payloads@),
                absorbed(payloads@, i as nat) == Ok::<_, wasmparser::Error>(module.deep_view()),
            decreases payloads.len() - i,
        {
            match absorb_payload(&mut module, &payloads[i]) {
                Ok(()) => {},
                Err(e) => {
                    proof {
                        lemma_absorbed_error(payloads@, (i + 1) as nat, payloads@.len());
                    }
                    return Err(e);
                },
            }
            i += 1;
        }
        Ok(module)
    }
}

/// Once an error has come up it stays: payloads behind it change nothing.
proof fn lemma_absorbed_error(payloads: Seq<wasmparser::Payload<'static>>, n: nat, m: nat)
    requires
        n <= m,
        absorbed(payloads, n) is Err,
    ensures
        absorbed(payloads, m) == absorbed(payloads, n),
    decreases m,
{
    if n < m {
        lemma_absorbed_error(payloads, n, (m - 1) as nat);
    }
}

} // verus!
