//! What holds of validation whatever the module and the contract.

use crate::boundary::validation_of;
use crate::decode::decoded_module;
use crate::error::{outcome_code, Failure};
use crate::expectations::{resolved, ExpectationSpecView, ExpectationsView, FunctionExpectView};
use crate::signatures::{
    exported_signatures, exports_function, exports_memory, imported_signatures,
    resolved_signature, signature_at, signature_tables, FuncInfoView, NamedSignatureView,
    SignatureTablesView,
};
use crate::types::ModuleView;
use crate::validate::{
    export_checks, export_failure, first_failure, import_checks, import_failure, licence_checks,
    listed, lookup, memory_met, signature_failure, signature_named, validation, verdict,
};
use vstd::prelude::*;

verus! {

/// Whether a module with these tables keeps every rule of a contract: the
/// memory demand is met, no export entry and no import entry is failed, and
/// every function that the module imports has an entry.
pub open spec fn conforms(t: SignatureTablesView, c: ExpectationSpecView) -> bool {
    &&& memory_met(t, c)
    &&& forall|i: int|
        0 <= i < c.function_exports.len() ==> export_failure(
            #[trigger] c.function_exports[i],
            t.exported_functions,
        ) is None
    &&& forall|i: int|
        0 <= i < c.function_imports.len() ==> import_failure(
            #[trigger] c.function_imports[i],
            t.imported_functions,
        ) is None
    &&& forall|k: int|
        0 <= k < t.imported_functions.len() ==> listed(
            c.function_imports,
            (#[trigger] t.imported_functions[k]).name,
        )
}

/// No check from a place on fails exactly when the first failure from there
/// is none.
proof fn lemma_first_failure_none(checks: Seq<Option<Failure>>, from: nat)
    ensures
        first_failure(checks, from) is None <==> forall|i: int|
            from <= i < checks.len() ==> (#[trigger] checks[i]) is None,
    decreases checks.len() - from,
{
    if from < checks.len() {
        lemma_first_failure_none(checks, from + 1);
        if checks[from as int] is None {
            assert forall|i: int| from <= i < checks.len() && first_failure(
                checks,
                from + 1,
            ) is None implies (#[trigger] checks[i]) is None by {
                if i > from {
                    assert(from + 1 <= i);
                }
            }
        }
    }
}

/// The first failure is that of the first check that fails.
proof fn lemma_first_failure_at(checks: Seq<Option<Failure>>, from: nat, at: nat)
    requires
        from <= at < checks.len(),
        forall|j: int| from <= j < at ==> (#[trigger] checks[j]) is None,
        checks[at as int] is Some,
    ensures
        first_failure(checks, from) == checks[at as int],
    decreases at - from,
{
    if from < at {
        lemma_first_failure_at(checks, from + 1, at);
    }
}

/// Validation succeeds exactly for a module that keeps every rule.
pub proof fn lemma_success_iff_conforms(t: SignatureTablesView, c: ExpectationSpecView)
    ensures
        verdict(t, c) is Ok <==> conforms(t, c),
{
    lemma_first_failure_none(export_checks(t, c), 0);
    lemma_first_failure_none(import_checks(t, c), 0);
    lemma_first_failure_none(licence_checks(t, c), 0);
    if verdict(t, c) is Ok {
        assert forall|i: int| 0 <= i < c.function_exports.len() implies export_failure(
            #[trigger] c.function_exports[i],
            t.exported_functions,
        ) is None by {
            assert(export_checks(t, c)[i] is None);
        }
        assert forall|i: int| 0 <= i < c.function_imports.len() implies import_failure(
            #[trigger] c.function_imports[i],
            t.imported_functions,
        ) is None by {
            assert(import_checks(t, c)[i] is None);
        }
        assert forall|k: int| 0 <= k < t.imported_functions.len() implies listed(
            c.function_imports,
            (#[trigger] t.imported_functions[k]).name,
        ) by {
            assert(licence_checks(t, c)[k] is None);
        }
    }
    if conforms(t, c) {
        assert forall|i: int| 0 <= i < export_checks(t, c).len() implies (#[trigger] export_checks(
            t,
            c,
        )[i]) is None by {
            assert(export_failure(c.function_exports[i], t.exported_functions) is None);
        }
        assert forall|i: int| 0 <= i < import_checks(t, c).len() implies (#[trigger] import_checks(
            t,
            c,
        )[i]) is None by {
            assert(import_failure(c.function_imports[i], t.imported_functions) is None);
        }
        assert forall|k: int| 0 <= k < licence_checks(t, c).len() implies (
        #[trigger] licence_checks(t, c)[k]) is None by {
            assert(listed(c.function_imports, t.imported_functions[k].name));
        }
    }
}

/// A contract that asks for an exported memory rejects every module without
/// one, with `WrongMemoryType` and before any other rule is looked at; a module
/// that exports its memory is never rejected for that reason.
pub proof fn lemma_memory_rule(t: SignatureTablesView, c: ExpectationSpecView)
    ensures
        c.memory_exported && !t.has_exported_memory ==> verdict(t, c) == Err::<(), _>(
            Failure::WrongMemoryType,
        ),
        t.has_exported_memory || !c.memory_exported ==> verdict(t, c) != Err::<(), _>(
            Failure::WrongMemoryType,
        ),
{
    lemma_first_failure_some_kind(export_checks(t, c), 0);
    lemma_first_failure_some_kind(import_checks(t, c), 0);
    lemma_first_failure_some_kind(licence_checks(t, c), 0);
    assert forall|i: int| 0 <= i < export_checks(t, c).len() implies (#[trigger] export_checks(
        t,
        c,
    )[i]) != Some(Failure::WrongMemoryType) by {}
    assert forall|i: int| 0 <= i < import_checks(t, c).len() implies (#[trigger] import_checks(
        t,
        c,
    )[i]) != Some(Failure::WrongMemoryType) by {}
    assert forall|i: int| 0 <= i < licence_checks(t, c).len() implies (#[trigger] licence_checks(
        t,
        c,
    )[i]) != Some(Failure::WrongMemoryType) by {}
}

/// The first failure, where there is one, is one of the checks.
proof fn lemma_first_failure_some_kind(checks: Seq<Option<Failure>>, from: nat)
    ensures
        first_failure(checks, from) is Some ==> exists|i: int|
            from <= i < checks.len() && #[trigger] checks[i] == first_failure(checks, from),
    decreases checks.len() - from,
{
    if from < checks.len() {
        if checks[from as int] is Some {
            assert(checks[from as int] == first_failure(checks, from));
        } else {
            lemma_first_failure_some_kind(checks, from + 1);
        }
    }
}

/// Each export entry is judged alone: where the memory demand is met and
/// the entries before one are kept, the failure of that entry is the outcome.
/// So a required export that is missing gives `MissingExportedFunction` with
/// its name, and an export with another signature gives `FunctionHasWrongResult`
/// or `FunctionHasWrongParams` with its name.
pub proof fn lemma_export_rule_isolated(t: SignatureTablesView, c: ExpectationSpecView, i: int)
    requires
        memory_met(t, c),
        0 <= i < c.function_exports.len(),
        forall|j: int|
            0 <= j < i ==> export_failure(
                #[trigger] c.function_exports[j],
                t.exported_functions,
            ) is None,
        export_failure(c.function_exports[i], t.exported_functions) is Some,
    ensures
        verdict(t, c) == Err::<(), _>(
            export_failure(c.function_exports[i], t.exported_functions)->0,
        ),
{
    let checks = export_checks(t, c);
    assert forall|j: int| 0 <= j < i implies (#[trigger] checks[j]) is None by {
        assert(export_failure(c.function_exports[j], t.exported_functions) is None);
    }
    lemma_first_failure_at(checks, 0, i as nat);
}

/// Each import entry is judged alone: where the memory demand is met, every
/// export entry is kept and the import entries before one are kept, the failure
/// of that entry is the outcome.
pub proof fn lemma_import_rule_isolated(t: SignatureTablesView, c: ExpectationSpecView, i: int)
    requires
        memory_met(t, c),
        forall|j: int|
            0 <= j < c.function_exports.len() ==> export_failure(
                #[trigger] c.function_exports[j],
                t.exported_functions,
            ) is None,
        0 <= i < c.function_imports.len(),
        forall|j: int|
            0 <= j < i ==> import_failure(
                #[trigger] c.function_imports[j],
                t.imported_functions,
            ) is None,
        import_failure(c.function_imports[i], t.imported_functions) is Some,
    ensures
        verdict(t, c) == Err::<(), _>(
            import_failure(c.function_imports[i], t.imported_functions)->0,
        ),
{
    lemma_first_failure_none(export_checks(t, c), 0);
    assert forall|j: int| 0 <= j < export_checks(t, c).len() implies (#[trigger] export_checks(
        t,
        c,
    )[j]) is None by {
        assert(export_failure(c.function_exports[j], t.exported_functions) is None);
    }
    let checks = import_checks(t, c);
    assert forall|j: int| 0 <= j < i implies (#[trigger] checks[j]) is None by {
        assert(import_failure(c.function_imports[j], t.imported_functions) is None);
    }
    lemma_first_failure_at(checks, 0, i as nat);
}

/// A function import without an entry is reported where nothing else is at
/// fault: with the memory demand met, every export and import entry kept and
/// the function imports before it listed, the outcome is `UnexpectedImport`
/// with its name, whatever its signature.
pub proof fn lemma_licence_rule_isolated(t: SignatureTablesView, c: ExpectationSpecView, k: int)
    requires
        memory_met(t, c),
        forall|j: int|
            0 <= j < c.function_exports.len() ==> export_failure(
                #[trigger] c.function_exports[j],
                t.exported_functions,
            ) is None,
        forall|j: int|
            0 <= j < c.function_imports.len() ==> import_failure(
                #[trigger] c.function_imports[j],
                t.imported_functions,
            ) is None,
        0 <= k < t.imported_functions.len(),
        forall|j: int|
            0 <= j < k ==> listed(c.function_imports, (#[trigger] t.imported_functions[j]).name),
        !listed(c.function_imports, t.imported_functions[k].name),
    ensures
        verdict(t, c) == Err::<(), _>(Failure::UnexpectedImport(t.imported_functions[k].name)),
{
    lemma_first_failure_none(export_checks(t, c), 0);
    assert forall|j: int| 0 <= j < export_checks(t, c).len() implies (#[trigger] export_checks(
        t,
        c,
    )[j]) is None by {
        assert(export_failure(c.function_exports[j], t.exported_functions) is None);
    }
    lemma_first_failure_none(import_checks(t, c), 0);
    assert forall|j: int| 0 <= j < import_checks(t, c).len() implies (#[trigger] import_checks(
        t,
        c,
    )[j]) is None by {
        assert(import_failure(c.function_imports[j], t.imported_functions) is None);
    }
    let checks = licence_checks(t, c);
    assert forall|j: int| 0 <= j < k implies (#[trigger] checks[j]) is None by {
        assert(listed(c.function_imports, t.imported_functions[j].name));
    }
    lemma_first_failure_at(checks, 0, k as nat);
}

/// A module that imports a function without an entry in the contract is
/// rejected, whatever the function's signature and whatever else the module
/// holds.
pub proof fn lemma_unexpected_import_rejected(
    t: SignatureTablesView,
    c: ExpectationSpecView,
    k: int,
)
    requires
        0 <= k < t.imported_functions.len(),
        !listed(c.function_imports, t.imported_functions[k].name),
    ensures
        verdict(t, c) is Err,
{
    lemma_success_iff_conforms(t, c);
}

/// A module that lacks a required export is rejected, whatever else it
/// holds.
pub proof fn lemma_missing_export_rejected(t: SignatureTablesView, c: ExpectationSpecView, i: int)
    requires
        0 <= i < c.function_exports.len(),
        !c.function_exports[i].optional,
        signature_named(t.exported_functions, c.function_exports[i].name) is None,
    ensures
        verdict(t, c) is Err,
{
    lemma_success_iff_conforms(t, c);
}

/// Every function import of a module stands in its table of imported
/// functions, under its name.
proof fn lemma_imported_signatures_cover(m: ModuleView, n: nat, i: int)
    requires
        n <= m.imports.len(),
        0 <= i < n,
        m.imports[i].ty.func_type_index() is Some,
        imported_signatures(m, n) is Some,
    ensures
        exists|k: int|
            0 <= k < imported_signatures(m, n)->0.len() && (#[trigger] imported_signatures(
                m,
                n,
            )->0[k]).name == m.imports[i].name,
    decreases n,
{
    let table = imported_signatures(m, n)->0;
    if i == n - 1 {
        assert(table[table.len() - 1].name == m.imports[i].name);
    } else {
        lemma_imported_signatures_cover(m, (n - 1) as nat, i);
        let before = imported_signatures(m, (n - 1) as nat)->0;
        let k = choose|k: int| 0 <= k < before.len() && (#[trigger] before[k]).name == m.imports[i].name;
        assert(table[k].name == m.imports[i].name);
    }
}

/// A module that imports a function which the contract does not list never
/// validates, whatever the signature of that function.
pub proof fn lemma_module_unexpected_import(m: ModuleView, c: ExpectationSpecView, i: int)
    requires
        0 <= i < m.imports.len(),
        m.imports[i].ty.func_type_index() is Some,
        !listed(c.function_imports, m.imports[i].name),
    ensures
        validation(m, c) is Err,
{
    if signature_tables(m) is Some {
        let t = signature_tables(m)->0;
        lemma_imported_signatures_cover(m, m.imports.len(), i);
        let k = choose|k: int|
            0 <= k < t.imported_functions.len() && (#[trigger] t.imported_functions[k]).name
                == m.imports[i].name;
        lemma_unexpected_import_rejected(t, c, k);
    }
}

/// Of a module whose function indexes all resolve: where the contract asks
/// for an exported memory and the module exports none under the name `memory`,
/// the outcome is `WrongMemoryType`; where it exports one, the outcome is never
/// `WrongMemoryType`.
pub proof fn lemma_module_memory_rule(m: ModuleView, c: ExpectationSpecView)
    requires
        signature_tables(m) is Some,
    ensures
        c.memory_exported && !exports_memory(m.exports, m.exports.len()) ==> validation(m, c)
            == Err::<(), _>(Failure::WrongMemoryType),
        exports_memory(m.exports, m.exports.len()) ==> validation(m, c) != Err::<(), _>(
            Failure::WrongMemoryType,
        ),
{
    lemma_memory_rule(signature_tables(m)->0, c);
}

/// Whether every function index of a module resolves: the signature of
/// each exported function, and the type of each imported function.
pub open spec fn indexes_resolve(m: ModuleView) -> bool {
    &&& forall|i: int|
        0 <= i < m.exports.len() && exports_function(#[trigger] m.exports[i])
            ==> resolved_signature(m, m.exports[i].index) is Some
    &&& forall|j: int|
        0 <= j < m.imports.len() ==> match (#[trigger] m.imports[j]).ty.func_type_index() {
            Some(ty) => signature_at(m.func_types, ty) is Some,
            None => true,
        }
}

/// The signature of the function that a module exports under a name, going
/// by the first `n` export records: that of the last function export with the
/// name, `None` where there is none.
pub open spec fn exported_signature(m: ModuleView, name: Seq<char>, n: nat) -> Option<
    FuncInfoView,
>
    recommends
        n <= m.exports.len(),
    decreases n,
{
    if n == 0 {
        None
    } else if exports_function(m.exports[n - 1]) && m.exports[n - 1].name == name {
        resolved_signature(m, m.exports[n - 1].index)
    } else {
        exported_signature(m, name, (n - 1) as nat)
    }
}

/// The signature of the function that a module imports under a name, going
/// by the first `n` import records: that of the last function import with the
/// name, `None` where there is none.
pub open spec fn imported_signature(m: ModuleView, name: Seq<char>, n: nat) -> Option<
    FuncInfoView,
>
    recommends
        n <= m.imports.len(),
    decreases n,
{
    if n == 0 {
        None
    } else {
        match m.imports[n - 1].ty.func_type_index() {
            Some(ty) if m.imports[n - 1].name == name => signature_at(m.func_types, ty),
            _ => imported_signature(m, name, (n - 1) as nat),
        }
    }
}

/// Whether a signature is the one that a contract entry asks for: the same
/// parameters in the same order, and the same result or none on both sides.
pub open spec fn signature_matches(entry: FunctionExpectView, info: FuncInfoView) -> bool {
    entry.ret == info.ret && entry.params == info.params
}

/// Whether a module keeps every rule of a contract, said of the module's own
/// records: its function indexes resolve; it exports a memory named `memory`
/// where the contract asks for one; each export entry finds its function with
/// the signature asked for, or finds none and allows that; each import entry
/// whose function the module imports finds it with the signature asked for;
/// and every function that the module imports has an import entry.
pub open spec fn module_conforms(m: ModuleView, c: ExpectationSpecView) -> bool {
    &&& indexes_resolve(m)
    &&& c.memory_exported ==> exports_memory(m.exports, m.exports.len())
    &&& forall|i: int|
        0 <= i < c.function_exports.len() ==> match exported_signature(
            m,
            (#[trigger] c.function_exports[i]).name,
            m.exports.len(),
        ) {
            Some(info) => signature_matches(c.function_exports[i], info),
            None => c.function_exports[i].optional,
        }
    &&& forall|i: int|
        0 <= i < c.function_imports.len() ==> match imported_signature(
            m,
            (#[trigger] c.function_imports[i]).name,
            m.imports.len(),
        ) {
            Some(info) => signature_matches(c.function_imports[i], info),
            None => true,
        }
    &&& forall|j: int|
        0 <= j < m.imports.len() && (#[trigger] m.imports[j]).ty.func_type_index() is Some
            ==> listed(c.function_imports, m.imports[j].name)
}

/// A lookup among the first entries of a table does not see what follows
/// them.
proof fn lemma_lookup_prefix(
    table: Seq<NamedSignatureView>,
    longer: Seq<NamedSignatureView>,
    name: Seq<char>,
    n: nat,
)
    requires
        n <= table.len() <= longer.len(),
        forall|k: int| 0 <= k < table.len() ==> table[k] == longer[k],
    ensures
        lookup(table, name, n) == lookup(longer, name, n),
    decreases n,
{
    if n > 0 {
        lemma_lookup_prefix(table, longer, name, (n - 1) as nat);
    }
}

/// The table of exported functions exists for the first `n` exports exactly
/// when each function among them resolves, and a lookup in it gives what
/// [`exported_signature`] says.
proof fn lemma_exported_table(m: ModuleView, name: Seq<char>, n: nat)
    requires
        n <= m.exports.len(),
    ensures
        exported_signatures(m, n) is Some <==> forall|i: int|
            0 <= i < n && exports_function(#[trigger] m.exports[i]) ==> resolved_signature(
                m,
                m.exports[i].index,
            ) is Some,
        exported_signatures(m, n) matches Some(table) ==> signature_named(table, name)
            == exported_signature(m, name, n),
    decreases n,
{
    if n > 0 {
        lemma_exported_table(m, name, (n - 1) as nat);
        if exported_signatures(m, n) is Some {
            let before = exported_signatures(m, (n - 1) as nat)->0;
            let table = exported_signatures(m, n)->0;
            if exports_function(m.exports[n - 1]) {
                lemma_lookup_prefix(before, table, name, before.len());
            }
        }
    }
}

/// The table of imported functions exists for the first `n` imports exactly
/// when the type of each function among them resolves; a lookup in it gives
/// what [`imported_signature`] says; and its names are those of the function
/// imports.
proof fn lemma_imported_table(m: ModuleView, name: Seq<char>, n: nat)
    requires
        n <= m.imports.len(),
    ensures
        imported_signatures(m, n) is Some <==> forall|j: int|
            0 <= j < n ==> match (#[trigger] m.imports[j]).ty.func_type_index() {
                Some(ty) => signature_at(m.func_types, ty) is Some,
                None => true,
            },
        imported_signatures(m, n) matches Some(table) ==> {
            &&& signature_named(table, name) == imported_signature(m, name, n)
            &&& forall|k: int|
                0 <= k < table.len() ==> exists|j: int|
                    0 <= j < n && (#[trigger] m.imports[j]).ty.func_type_index() is Some
                        && m.imports[j].name == (#[trigger] table[k]).name
        },
    decreases n,
{
    if n > 0 {
        lemma_imported_table(m, name, (n - 1) as nat);
        if imported_signatures(m, n) is Some {
            let before = imported_signatures(m, (n - 1) as nat)->0;
            let table = imported_signatures(m, n)->0;
            if m.imports[n - 1].ty.func_type_index() is Some {
                lemma_lookup_prefix(before, table, name, before.len());
            }
            assert forall|k: int| 0 <= k < table.len() implies exists|j: int|
                0 <= j < n && (#[trigger] m.imports[j]).ty.func_type_index() is Some
                    && m.imports[j].name == (#[trigger] table[k]).name by {
                if k < before.len() {
                    let j = choose|j: int|
                        0 <= j < n - 1 && (#[trigger] m.imports[j]).ty.func_type_index() is Some
                            && m.imports[j].name == before[k].name;
                    assert(m.imports[j].name == table[k].name);
                } else {
                    assert(m.imports[n - 1].name == table[k].name);
                }
            }
        }
    }
}

/// A module's tables can be built exactly when its function indexes resolve.
pub proof fn lemma_tables_iff_indexes_resolve(m: ModuleView)
    ensures
        signature_tables(m) is Some <==> indexes_resolve(m),
{
    lemma_exported_table(m, Seq::empty(), m.exports.len());
    lemma_imported_table(m, Seq::empty(), m.imports.len());
}

/// Validation succeeds exactly for a module that keeps every rule, said of
/// the module's own records. So a module that exports each required function
/// with the signature asked for, imports listed functions only, each with the
/// signature asked for, and exports its memory where that is asked for,
/// validates; and a module that validates is such a module.
pub proof fn lemma_validation_success(m: ModuleView, c: ExpectationSpecView)
    ensures
        validation(m, c) is Ok <==> module_conforms(m, c),
{
    lemma_tables_iff_indexes_resolve(m);
    if signature_tables(m) is Some {
        let t = signature_tables(m)->0;
        lemma_success_iff_conforms(t, c);
        assert forall|i: int| 0 <= i < c.function_exports.len() implies (export_failure(
            #[trigger] c.function_exports[i],
            t.exported_functions,
        ) is None <==> match exported_signature(m, c.function_exports[i].name, m.exports.len()) {
            Some(info) => signature_matches(c.function_exports[i], info),
            None => c.function_exports[i].optional,
        }) by {
            lemma_exported_table(m, c.function_exports[i].name, m.exports.len());
        }
        assert forall|i: int| 0 <= i < c.function_imports.len() implies (import_failure(
            #[trigger] c.function_imports[i],
            t.imported_functions,
        ) is None <==> match imported_signature(m, c.function_imports[i].name, m.imports.len()) {
            Some(info) => signature_matches(c.function_imports[i], info),
            None => true,
        }) by {
            lemma_imported_table(m, c.function_imports[i].name, m.imports.len());
        }
        if conforms(t, c) {
            assert forall|j: int|
                0 <= j < m.imports.len() && (#[trigger] m.imports[j]).ty.func_type_index() is Some
                implies listed(c.function_imports, m.imports[j].name) by {
                lemma_imported_signatures_cover(m, m.imports.len(), j);
                let k = choose|k: int|
                    0 <= k < t.imported_functions.len() && (#[trigger] t.imported_functions[k]).name
                        == m.imports[j].name;
                assert(listed(c.function_imports, t.imported_functions[k].name));
            }
        }
        if module_conforms(m, c) {
            lemma_imported_table(m, Seq::empty(), m.imports.len());
            assert forall|k: int| 0 <= k < t.imported_functions.len() implies listed(
                c.function_imports,
                (#[trigger] t.imported_functions[k]).name,
            ) by {
                let j = choose|j: int|
                    0 <= j < m.imports.len() && (#[trigger] m.imports[j]).ty.func_type_index() is Some
                        && m.imports[j].name == t.imported_functions[k].name;
                assert(listed(c.function_imports, m.imports[j].name));
            }
        }
    }
}

/// A module that exports no function under the name of a required export
/// entry never validates.
pub proof fn lemma_module_missing_export(m: ModuleView, c: ExpectationSpecView, i: int)
    requires
        0 <= i < c.function_exports.len(),
        !c.function_exports[i].optional,
        forall|k: int|
            0 <= k < m.exports.len() && exports_function(#[trigger] m.exports[k])
                ==> m.exports[k].name != c.function_exports[i].name,
    ensures
        validation(m, c) is Err,
{
    lemma_validation_success(m, c);
    lemma_no_export_no_signature(m, c.function_exports[i].name, m.exports.len());
}

/// Where no function export has a name, no signature is found under it.
proof fn lemma_no_export_no_signature(m: ModuleView, name: Seq<char>, n: nat)
    requires
        n <= m.exports.len(),
        forall|k: int|
            0 <= k < m.exports.len() && exports_function(#[trigger] m.exports[k])
                ==> m.exports[k].name != name,
    ensures
        exported_signature(m, name, n) is None,
    decreases n,
{
    if n > 0 {
        lemma_no_export_no_signature(m, name, (n - 1) as nat);
    }
}

/// A guest gets the code 0 exactly when the contract resolves, the binary
/// decodes, and the decoded module keeps every rule of the resolved contract.
pub proof fn lemma_code_zero_iff_conforms(wasm: Seq<u8>, doc: ExpectationsView)
    ensures
        outcome_code(validation_of(wasm, doc)) == 0 <==> {
            &&& resolved(doc) matches Ok(c)
            &&& decoded_module(wasm) matches Ok(m)
            &&& module_conforms(m, c)
        },
{
    if resolved(doc) is Ok && decoded_module(wasm) is Ok {
        lemma_validation_success(decoded_module(wasm)->Ok_0, resolved(doc)->Ok_0);
    }
}

} // verus!
