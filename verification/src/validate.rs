//! The validation engine: a module's tables held against a contract, rule by
//! rule, up to the first failure.

use crate::error::{outcome_view, Failure, WatParserError};
use crate::expectations::{ExpectationSpec, ExpectationSpecView, FunctionExpect, FunctionExpectView};
use crate::signatures::{
    signature_tables, FuncInfo, FuncInfoView, NamedSignature, NamedSignatureView, SignatureTables,
    SignatureTablesView,
};
use crate::types::{ModuleStructure, ModuleView, ValueType};
use vstd::prelude::*;

verus! {

/// The signature under a name among the first `n` entries of a table: that
/// of the last entry with the name, `None` where no entry has it.
pub open spec fn lookup(table: Seq<NamedSignatureView>, name: Seq<char>, n: nat) -> Option<
    FuncInfoView,
>
    recommends
        n <= table.len(),
    decreases n,
{
    if n == 0 {
        None
    } else if table[n - 1].name == name {
        Some(table[n - 1].info)
    } else {
        lookup(table, name, (n - 1) as nat)
    }
}

/// The signature that a table holds under a name.
pub open spec fn signature_named(table: Seq<NamedSignatureView>, name: Seq<char>) -> Option<
    FuncInfoView,
> {
    lookup(table, name, table.len())
}

/// Whether the contract has an entry under a name.
pub open spec fn listed(entries: Seq<FunctionExpectView>, name: Seq<char>) -> bool {
    exists|i: int| 0 <= i < entries.len() && (#[trigger] entries[i]).name == name
}

/// How a signature falls short of a contract entry: in its result, where the
/// one has a result and the other has none or one of another kind; else in its
/// parameters, where they differ in number or at some place; else not at all.
pub open spec fn signature_failure(entry: FunctionExpectView, info: FuncInfoView) -> Option<
    Failure,
> {
    if entry.ret != info.ret {
        Some(Failure::FunctionHasWrongResult(entry.name))
    } else if entry.params != info.params {
        Some(Failure::FunctionHasWrongParams(entry.name))
    } else {
        None
    }
}

/// How a module fails one export entry: the export is missing and the entry
/// does not allow that, or its signature falls short of the entry.
pub open spec fn export_failure(
    entry: FunctionExpectView,
    exported: Seq<NamedSignatureView>,
) -> Option<Failure> {
    match signature_named(exported, entry.name) {
        None => if entry.optional {
            None
        } else {
            Some(Failure::MissingExportedFunction(entry.name))
        },
        Some(info) => signature_failure(entry, info),
    }
}

/// How a module fails one import entry: it imports the function, and with a
/// signature that falls short of the entry.
pub open spec fn import_failure(
    entry: FunctionExpectView,
    imported: Seq<NamedSignatureView>,
) -> Option<Failure> {
    match signature_named(imported, entry.name) {
        None => None,
        Some(info) => signature_failure(entry, info),
    }
}

/// How one function import fails the contract: it has no entry there.
pub open spec fn licence_failure(
    import: NamedSignatureView,
    entries: Seq<FunctionExpectView>,
) -> Option<Failure> {
    if listed(entries, import.name) {
        None
    } else {
        Some(Failure::UnexpectedImport(import.name))
    }
}

/// The first failure in a list of checks, from a place on.
pub open spec fn first_failure(checks: Seq<Option<Failure>>, from: nat) -> Option<Failure>
    decreases checks.len() - from,
{
    if from >= checks.len() {
        None
    } else if checks[from as int] is Some {
        checks[from as int]
    } else {
        first_failure(checks, from + 1)
    }
}

/// The check of each export entry, in the contract's order.
pub open spec fn export_checks(t: SignatureTablesView, c: ExpectationSpecView) -> Seq<
    Option<Failure>,
> {
    Seq::new(
        c.function_exports.len(),
        |i: int| export_failure(c.function_exports[i], t.exported_functions),
    )
}

/// The check of each import entry, in the contract's order.
pub open spec fn import_checks(t: SignatureTablesView, c: ExpectationSpecView) -> Seq<
    Option<Failure>,
> {
    Seq::new(
        c.function_imports.len(),
        |i: int| import_failure(c.function_imports[i], t.imported_functions),
    )
}

/// The check of each function import, in the module's order.
pub open spec fn licence_checks(t: SignatureTablesView, c: ExpectationSpecView) -> Seq<
    Option<Failure>,
> {
    Seq::new(
        t.imported_functions.len(),
        |i: int| licence_failure(t.imported_functions[i], c.function_imports),
    )
}

/// Whether a module with these tables meets the contract's demand on memory.
pub open spec fn memory_met(t: SignatureTablesView, c: ExpectationSpecView) -> bool {
    c.memory_exported ==> t.has_exported_memory
}

/// The outcome of holding a module's tables against a contract: the first
/// failure of the memory demand, then of the export entries, then of the
/// import entries, then of the function imports; success where there is none.
pub open spec fn verdict(t: SignatureTablesView, c: ExpectationSpecView) -> Result<(), Failure> {
    if !memory_met(t, c) {
        Err(Failure::WrongMemoryType)
    } else {
        match first_failure(export_checks(t, c), 0) {
            Some(f) => Err(f),
            None => match first_failure(import_checks(t, c), 0) {
                Some(f) => Err(f),
                None => match first_failure(licence_checks(t, c), 0) {
                    Some(f) => Err(f),
                    None => Ok(()),
                },
            },
        }
    }
}

/// The outcome of validating a module against a contract: `IndexOutOfRange`
/// where the module's tables cannot be built, else the [`verdict`] on them.
pub open spec fn validation(m: ModuleView, c: ExpectationSpecView) -> Result<(), Failure> {
    match signature_tables(m) {
        None => Err(Failure::IndexOutOfRange),
        Some(t) => verdict(t, c),
    }
}

/// Finds the last entry of a table under a name.
fn find(table: &Vec<NamedSignature>, name: &String) -> (r: Option<usize>)
    ensures
        match r {
            Some(k) => k < table.len() && signature_named(table.deep_view(), name@) == Some(
                table@[k as int].info.deep_view(),
            ),
            None => signature_named(table.deep_view(), name@) is None,
        },
{
    let mut i: usize = table.len();
    while i > 0
        invariant
            i <= table.len(),
            table.deep_view().len() == table.len(),
            signature_named(table.deep_view(), name@) == lookup(
                table.deep_view(),
                name@,
                i as nat,
            ),
        decreases i,
    {
        assert(table.deep_view()[i - 1] == table@[i - 1].deep_view());
        if table[i - 1].name == *name {
            return Some(i - 1);
        }
        i -= 1;
    }
    None
}

/// Whether the contract has an entry under a name.
fn is_listed(entries: &Vec<FunctionExpect>, name: &String) -> (b: bool)
    ensures
        b == listed(entries.deep_view(), name@),
{
    let mut i: usize = 0;
    while i < entries.len()
        invariant
            i <= entries.len(),
            entries.deep_view().len() == entries.len(),
            forall|k: int| 0 <= k < i ==> (#[trigger] entries.deep_view()[k]).name != name@,
        decreases entries.len() - i,
    {
        assert(entries.deep_view()[i as int] == entries@[i as int].deep_view());
        if entries[i].name == *name {
            return true;
        }
        i += 1;
    }
    false
}

/// Whether two lists of kinds are the same, place by place.
fn same_kinds(a: &Vec<ValueType>, b: &Vec<ValueType>) -> (r: bool)
    ensures
        r == (a@ == b@),
{
    if a.len() != b.len() {
        return false;
    }
    let mut i: usize = 0;
    while i < a.len()
        invariant
            i <= a.len(),
            a.len() == b.len(),
            forall|k: int| 0 <= k < i ==> a@[k] == b@[k],
        decreases a.len() - i,
    {
        if a[i] != b[i] {
            return false;
        }
        i += 1;
    }
    assert(a@ =~= b@);
    true
}

/// Whether two optional kinds are the same.
fn same_return(a: Option<ValueType>, b: Option<ValueType>) -> (r: bool)
    ensures
        r == (a == b),
{
    match (a, b) {
        (None, None) => true,
        (Some(x), Some(y)) => x == y,
        _ => false,
    }
}

/// Holds a signature against a contract entry.
fn check_signature(entry: &FunctionExpect, info: &FuncInfo) -> (r: Result<(), WatParserError>)
    ensures
        match r {
            Ok(()) => signature_failure(entry.deep_view(), info.deep_view()) is None,
            Err(e) => signature_failure(entry.deep_view(), info.deep_view()) == Some(
                e.deep_view(),
            ),
        },
{
    if !same_return(entry.ret, info.ret) {
        Err(WatParserError::FunctionHasWrongResult(entry.name.clone()))
    } else if !same_kinds(&entry.params, &info.params) {
        Err(WatParserError::FunctionHasWrongParams(entry.name.clone()))
    } else {
        Ok(())
    }
}

/// Holds the module's exports against one export entry.
fn check_export(entry: &FunctionExpect, exported: &Vec<NamedSignature>) -> (r: Result<
    (),
    WatParserError,
>)
    ensures
        match r {
            Ok(()) => export_failure(entry.deep_view(), exported.deep_view()) is None,
            Err(e) => export_failure(entry.deep_view(), exported.deep_view()) == Some(
                e.deep_view(),
            ),
        },
{
    match find(exported, &entry.name) {
        None => if entry.optional {
            Ok(())
        } else {
            Err(WatParserError::MissingExportedFunction(entry.name.clone()))
        },
        Some(k) => check_signature(entry, &exported[k].info),
    }
}

/// Holds the module's imports against one import entry.
fn check_import(entry: &FunctionExpect, imported: &Vec<NamedSignature>) -> (r: Result<
    (),
    WatParserError,
>)
    ensures
        match r {
            Ok(()) => import_failure(entry.deep_view(), imported.deep_view()) is None,
            Err(e) => import_failure(entry.deep_view(), imported.deep_view()) == Some(
                e.deep_view(),
            ),
        },
{
    match find(imported, &entry.name) {
        None => Ok(()),
        Some(k) => check_signature(entry, &imported[k].info),
    }
}

/// Holds a module's tables against a contract: see [`verdict`].
pub fn check_tables(tables: &SignatureTables, contract: &ExpectationSpec) -> (r: Result<
    (),
    WatParserError,
>)
    ensures
        outcome_view(r) == verdict(tables.deep_view(), contract.deep_view()),
{
    let ghost t = tables.deep_view();
    let ghost c = contract.deep_view();
    if contract.memory_exported && !tables.has_exported_memory {
        return Err(WatParserError::WrongMemoryType);
    }
    let mut i: usize = 0;
    while i < contract.function_exports.len()
        invariant
            i <= contract.function_exports.len(),
            t == tables.deep_view(),
            c == contract.deep_view(),
            memory_met(t, c),
            c.function_exports.len() == contract.function_exports.len(),
            first_failure(export_checks(t, c), 0) == first_failure(export_checks(t, c), i as nat),
        decreases contract.function_exports.len() - i,
    {
        assert(c.function_exports[i as int] == contract.function_exports@[i as int].deep_view());
        match check_export(&contract.function_exports[i], &tables.exported_functions) {
            Ok(()) => {},
            Err(e) => {
                return Err(e);
            },
        }
        i += 1;
    }
    let mut j: usize = 0;
    while j < contract.function_imports.len()
        invariant
            j <= contract.function_imports.len(),
            t == tables.deep_view(),
            c == contract.deep_view(),
            memory_met(t, c),
            c.function_imports.len() == contract.function_imports.len(),
            first_failure(export_checks(t, c), 0) is None,
            first_failure(import_checks(t, c), 0) == first_failure(import_checks(t, c), j as nat),
        decreases contract.function_imports.len() - j,
    {
        assert(c.function_imports[j as int] == contract.function_imports@[j as int].deep_view());
        match check_import(&contract.function_imports[j], &tables.imported_functions) {
            Ok(()) => {},
            Err(e) => {
                return Err(e);
            },
        }
        j += 1;
    }
    let mut k: usize = 0;
    while k < tables.imported_functions.len()
        invariant
            k <= tables.imported_functions.len(),
            t == tables.deep_view(),
            c == contract.deep_view(),
            memory_met(t, c),
            t.imported_functions.len() == tables.imported_functions.len(),
            first_failure(export_checks(t, c), 0) is None,
            first_failure(import_checks(t, c), 0) is None,
            first_failure(licence_checks(t, c), 0) == first_failure(
                licence_checks(t, c),
                k as nat,
            ),
        decreases tables.imported_functions.len() - k,
    {
        assert(t.imported_functions[k as int] == tables.imported_functions@[k as int].deep_view());
        if !is_listed(&contract.function_imports, &tables.imported_functions[k].name) {
            return Err(WatParserError::UnexpectedImport(tables.imported_functions[k].name.clone()));
        }
        k += 1;
    }
    Ok(())
}

/// Validates a module against a contract.
///
/// Succeeds exactly when every function index of the module resolves and no
/// rule of the contract is broken; else reports the first failure, as
/// [`validation`] orders them.
pub fn validate(module: &ModuleStructure, contract: &ExpectationSpec) -> (r: Result<
    (),
    WatParserError,
>)
    ensures
        outcome_view(r) == validation(module.deep_view(), contract.deep_view()),
{
    match module.signature_tables() {
        Err(e) => Err(e),
        Ok(tables) => check_tables(&tables, contract),
    }
}

} // verus!
