//! The signature resolver: from an index in a module's function index space
//! to the signature of that function, and the tables that list every exported
//! and every imported function with its signature.

use crate::error::{Failure, WatParserError};
use crate::types::{
    lemma_deep_push, lemma_deep_vec, ExportView, ExternalKind, FuncType, FuncTypeView, ImportView,
    ModuleStructure, ModuleView, ValueType,
};
use vstd::prelude::*;
use vstd::slice::slice_to_vec;
use vstd::string::*;

verus! {

/// A function's signature as a contract sees it: its parameters, and its
/// first result if it has one. Results behind the first are not looked at.
#[derive(Clone, Debug, PartialEq, Eq)]
pub struct FuncInfo {
    pub params: Vec<ValueType>,
    pub ret: Option<ValueType>,
}

/// Model of a [`FuncInfo`].
pub struct FuncInfoView {
    pub params: Seq<ValueType>,
    pub ret: Option<ValueType>,
}

impl DeepView for FuncInfo {
    type V = FuncInfoView;

    open spec fn deep_view(&self) -> FuncInfoView {
        FuncInfoView { params: self.params@, ret: self.ret }
    }
}

/// A function's name with its signature.
#[derive(Clone, Debug, PartialEq, Eq)]
pub struct NamedSignature {
    pub name: String,
    pub info: FuncInfo,
}

/// Model of a [`NamedSignature`].
pub struct NamedSignatureView {
    pub name: Seq<char>,
    pub info: FuncInfoView,
}

impl DeepView for NamedSignature {
    type V = NamedSignatureView;

    open spec fn deep_view(&self) -> NamedSignatureView {
        NamedSignatureView { name: self.name@, info: self.info.deep_view() }
    }
}

/// What validation reads of a module: its function exports and its function
/// imports, each list in the module's order, and whether it exports a memory
/// under the name `memory`.
#[derive(Clone, Debug, PartialEq, Eq)]
pub struct SignatureTables {
    pub exported_functions: Vec<NamedSignature>,
    pub imported_functions: Vec<NamedSignature>,
    pub has_exported_memory: bool,
}

/// Model of [`SignatureTables`].
pub struct SignatureTablesView {
    pub exported_functions: Seq<NamedSignatureView>,
    pub imported_functions: Seq<NamedSignatureView>,
    pub has_exported_memory: bool,
}

impl DeepView for SignatureTables {
    type V = SignatureTablesView;

    open spec fn deep_view(&self) -> SignatureTablesView {
        SignatureTablesView {
            exported_functions: self.exported_functions.deep_view(),
            imported_functions: self.imported_functions.deep_view(),
            has_exported_memory: self.has_exported_memory,
        }
    }
}

/// The signature that a function type gives.
pub open spec fn signature(ty: FuncTypeView) -> FuncInfoView {
    FuncInfoView {
        params: ty.params,
        ret: if ty.results.len() > 0 {
            Some(ty.results[0])
        } else {
            None
        },
    }
}

/// The signature under a type index: `None` where the index lies outside the
/// type table or the type there is not a function type.
pub open spec fn signature_at(types: Seq<Option<FuncTypeView>>, index: u32) -> Option<
    FuncInfoView,
> {
    if index < types.len() {
        match types[index as int] {
            Some(ty) => Some(signature(ty)),
            None => None,
        }
    } else {
        None
    }
}

/// The type indexes of the function imports among the first `n` imports, in
/// import order.
pub open spec fn imported_function_types(imports: Seq<ImportView>, n: nat) -> Seq<u32>
    recommends
        n <= imports.len(),
    decreases n,
{
    if n == 0 {
        Seq::empty()
    } else {
        let before = imported_function_types(imports, (n - 1) as nat);
        match imports[n - 1].ty.func_type_index() {
            Some(ty) => before.push(ty),
            None => before,
        }
    }
}

/// How many functions a module imports.
pub open spec fn imported_function_count(m: ModuleView) -> nat {
    imported_function_types(m.imports, m.imports.len()).len()
}

/// The function index space of a module: the type index of every function,
/// the imported functions first, in import order, then the functions that the
/// module defines, in the order of their declaration.
pub open spec fn function_space(m: ModuleView) -> Seq<u32> {
    imported_function_types(m.imports, m.imports.len()) + m.func_type_indexes
}

/// The signature of the function under an index of the function index space:
/// `None` where the index lies outside the space, or the function's type index
/// outside the type table, or the type there is not a function type.
pub open spec fn resolved_signature(m: ModuleView, index: u32) -> Option<FuncInfoView> {
    if index < function_space(m).len() {
        signature_at(m.func_types, function_space(m)[index as int])
    } else {
        None
    }
}

/// Whether an export record exports a function.
pub open spec fn exports_function(e: ExportView) -> bool {
    e.kind == ExternalKind::Func || e.kind == ExternalKind::FuncExact
}

/// The function exports among the first `n` exports, each with its
/// signature; `None` where the signature of one of them does not resolve.
pub open spec fn exported_signatures(m: ModuleView, n: nat) -> Option<Seq<NamedSignatureView>>
    recommends
        n <= m.exports.len(),
    decreases n,
{
    if n == 0 {
        Some(Seq::empty())
    } else {
        match exported_signatures(m, (n - 1) as nat) {
            None => None,
            Some(before) => {
                let e = m.exports[n - 1];
                if exports_function(e) {
                    match resolved_signature(m, e.index) {
                        Some(info) => Some(before.push(NamedSignatureView { name: e.name, info })),
                        None => None,
                    }
                } else {
                    Some(before)
                }
            },
        }
    }
}

/// The function imports among the first `n` imports, each with its
/// signature; `None` where the signature of one of them does not resolve.
pub open spec fn imported_signatures(m: ModuleView, n: nat) -> Option<Seq<NamedSignatureView>>
    recommends
        n <= m.imports.len(),
    decreases n,
{
    if n == 0 {
        Some(Seq::empty())
    } else {
        match imported_signatures(m, (n - 1) as nat) {
            None => None,
            Some(before) => {
                let i = m.imports[n - 1];
                match i.ty.func_type_index() {
                    Some(ty) => match signature_at(m.func_types, ty) {
                        Some(info) => Some(before.push(NamedSignatureView { name: i.name, info })),
                        None => None,
                    },
                    None => Some(before),
                }
            },
        }
    }
}

/// Whether one of the first `n` exports is a memory under the name `memory`.
pub open spec fn exports_memory(exports: Seq<ExportView>, n: nat) -> bool {
    exists|i: int|
        0 <= i < n && i < exports.len() && (#[trigger] exports[i]).kind == ExternalKind::Memory
            && exports[i].name == "memory"@
}

/// The tables of a module; `None` where the signature of an exported or an
/// imported function does not resolve.
pub open spec fn signature_tables(m: ModuleView) -> Option<SignatureTablesView> {
    match exported_signatures(m, m.exports.len()) {
        None => None,
        Some(exported_functions) => match imported_signatures(m, m.imports.len()) {
            None => None,
            Some(imported_functions) => Some(
                SignatureTablesView {
                    exported_functions,
                    imported_functions,
                    has_exported_memory: exports_memory(m.exports, m.exports.len()),
                },
            ),
        },
    }
}

/// Copies the signature out of a function type.
fn signature_of_type(ty: &FuncType) -> (info: FuncInfo)
    ensures
        info.deep_view() == signature(ty.deep_view()),
{
    let ret = if ty.results.len() > 0 {
        Some(ty.results[0])
    } else {
        None
    };
    FuncInfo { params: slice_to_vec(ty.params.as_slice()), ret }
}

/// Looks a type index up in a type table.
fn signature_in(types: &Vec<Option<FuncType>>, index: u32) -> (r: Option<FuncInfo>)
    ensures
        r.deep_view() == signature_at(types.deep_view(), index),
{
    if (index as usize) < types.len() {
        match &types[index as usize] {
            Some(ty) => Some(signature_of_type(ty)),
            None => None,
        }
    } else {
        None
    }
}

impl ModuleStructure {
    /// Lays out the function index space: see [`function_space`].
    pub fn function_space(&self) -> (space: Vec<u32>)
        ensures
            space@ == function_space(self.deep_view()),
    {
        let mut space: Vec<u32> = Vec::new();
        let mut i: usize = 0;
        while i < self.imports.len()
            invariant
                i <= self.imports.len(),
                self.imports.deep_view().len() == self.imports.len(),
                space@ == imported_function_types(self.imports.deep_view(), i as nat),
            decreases self.imports.len() - i,
        {
            assert(self.imports.deep_view()[i as int].ty == self.imports@[i as int].ty);
            match self.imports[i].ty.function_type_index() {
                Some(ty) => {
                    space.push(ty);
                },
                None => {},
            }
            i += 1;
        }
        let mut j: usize = 0;
        while j < self.func_type_indexes.len()
            invariant
                j <= self.func_type_indexes.len(),
                space@ == imported_function_types(
                    self.imports.deep_view(),
                    self.imports.deep_view().len(),
                ) + self.func_type_indexes@.take(j as int),
            decreases self.func_type_indexes.len() - j,
        {
            space.push(self.func_type_indexes[j]);
            j += 1;
            assert(self.func_type_indexes@.take(j as int) =~= self.func_type_indexes@.take(
                j - 1,
            ).push(self.func_type_indexes@[j - 1]));
        }
        assert(self.func_type_indexes@.take(j as int) =~= self.func_type_indexes@);
        space
    }

    /// Resolves an index of the function index space to the signature of the
    /// function under it.
    ///
    /// An index below the number of imported functions is resolved through the
    /// type index of that import; any other through the type index of the
    /// function that the module defines at `index` less that number. Fails with
    /// `IndexOutOfRange` exactly where [`resolved_signature`] is `None`.
    pub fn resolve(&self, index: u32) -> (r: Result<FuncInfo, WatParserError>)
        ensures
            match r {
                Ok(info) => resolved_signature(self.deep_view(), index) == Some(info.deep_view()),
                Err(e) => resolved_signature(self.deep_view(), index) is None && e.deep_view()
                    == Failure::IndexOutOfRange,
            },
    {
        let space = self.function_space();
        self.resolve_in(&space, index)
    }

    fn resolve_in(&self, space: &Vec<u32>, index: u32) -> (r: Result<FuncInfo, WatParserError>)
        requires
            space@ == function_space(self.deep_view()),
        ensures
            match r {
                Ok(info) => resolved_signature(self.deep_view(), index) == Some(info.deep_view()),
                Err(e) => resolved_signature(self.deep_view(), index) is None && e.deep_view()
                    == Failure::IndexOutOfRange,
            },
    {
        if (index as usize) < space.len() {
            match signature_in(&self.func_types, space[index as usize]) {
                Some(info) => Ok(info),
                None => Err(WatParserError::IndexOutOfRange),
            }
        } else {
            Err(WatParserError::IndexOutOfRange)
        }
    }

    /// Builds the tables that validation reads: see [`signature_tables`].
    ///
    /// Fails with `IndexOutOfRange` exactly where the signature of an exported
    /// or an imported function does not resolve.
    pub fn signature_tables(&self) -> (r: Result<SignatureTables, WatParserError>)
        ensures
            match r {
                Ok(t) => signature_tables(self.deep_view()) == Some(t.deep_view()),
                Err(e) => signature_tables(self.deep_view()) is None && e.deep_view()
                    == Failure::IndexOutOfRange,
            },
    {
        let space = self.function_space();
        let mut exported_functions: Vec<NamedSignature> = Vec::new();
        let mut has_exported_memory = false;
        let memory = String::from_str("memory");
        proof {
            lemma_deep_vec(exported_functions);
            assert(exported_functions.deep_view() =~= Seq::empty());
        }
        let mut i: usize = 0;
        while i < self.exports.len()
            invariant
                i <= self.exports.len(),
                self.exports.deep_view().len() == self.exports.len(),
                space@ == function_space(self.deep_view()),
                memory@ == "memory"@,
                exported_signatures(self.deep_view(), i as nat) == Some(
                    exported_functions.deep_view(),
                ),
                has_exported_memory == exports_memory(self.deep_view().exports, i as nat),
            decreases self.exports.len() - i,
        {
            let e = &self.exports[i];
            assert(self.deep_view().exports[i as int] == e.deep_view());
            match e.kind {
                ExternalKind::Func | ExternalKind::FuncExact => {
                    match self.resolve_in(&space, e.index) {
                        Ok(info) => {
                            let ghost prev = exported_functions;
                            let named = NamedSignature { name: e.name.clone(), info };
                            exported_functions.push(named);
                            proof {
                                lemma_deep_vec(prev);
                                lemma_deep_vec(exported_functions);
                                lemma_deep_push(prev@, named);
                            }
                        },
                        Err(err) => {
                            proof {
                                lemma_exported_signatures_none(
                                    self.deep_view(),
                                    (i + 1) as nat,
                                    self.deep_view().exports.len(),
                                );
                            }
                            return Err(err);
                        },
                    }
                },
                ExternalKind::Memory => {
                    if e.name == memory {
                        has_exported_memory = true;
                    }
                },
                _ => {},
            }
            i += 1;
        }
        let mut imported_functions: Vec<NamedSignature> = Vec::new();
        proof {
            lemma_deep_vec(imported_functions);
            assert(imported_functions.deep_view() =~= Seq::empty());
        }
        let mut j: usize = 0;
        while j < self.imports.len()
            invariant
                j <= self.imports.len(),
                self.imports.deep_view().len() == self.imports.len(),
                imported_signatures(self.deep_view(), j as nat) == Some(
                    imported_functions.deep_view(),
                ),
            decreases self.imports.len() - j,
        {
            let imp = &self.imports[j];
            assert(self.deep_view().imports[j as int] == imp.deep_view());
            match imp.ty.function_type_index() {
                Some(ty) => match signature_in(&self.func_types, ty) {
                    Some(info) => {
                        let ghost prev = imported_functions;
                        let named = NamedSignature { name: imp.name.clone(), info };
                        imported_functions.push(named);
                        proof {
                            lemma_deep_vec(prev);
                            lemma_deep_vec(imported_functions);
                            lemma_deep_push(prev@, named);
                        }
                    },
                    None => {
                        proof {
                            lemma_imported_signatures_none(
                                self.deep_view(),
                                (j + 1) as nat,
                                self.deep_view().imports.len(),
                            );
                        }
                        return Err(WatParserError::IndexOutOfRange);
                    },
                },
                None => {},
            }
            j += 1;
        }
        Ok(SignatureTables { exported_functions, imported_functions, has_exported_memory })
    }
}

/// An export whose signature does not resolve leaves no table, whatever
/// follows it.
proof fn lemma_exported_signatures_none(m: ModuleView, n: nat, k: nat)
    requires
        n <= k,
        exported_signatures(m, n) is None,
    ensures
        exported_signatures(m, k) is None,
    decreases k,
{
    if n < k {
        lemma_exported_signatures_none(m, n, (k - 1) as nat);
    }
}

/// An import whose signature does not resolve leaves no table, whatever
/// follows it.
proof fn lemma_imported_signatures_none(m: ModuleView, n: nat, k: nat)
    requires
        n <= k,
        imported_signatures(m, n) is None,
    ensures
        imported_signatures(m, k) is None,
    decreases k,
{
    if n < k {
        lemma_imported_signatures_none(m, n, (k - 1) as nat);
    }
}

/// The index space puts the imported functions first: an index below their
/// number stands for an import, any other for the function that the module
/// defines at the index less that number.
pub proof fn lemma_function_space_layout(m: ModuleView, index: nat)
    requires
        index < function_space(m).len(),
    ensures
        function_space(m).len() == imported_function_count(m) + m.func_type_indexes.len(),
        index < imported_function_count(m) ==> function_space(m)[index as int]
            == imported_function_types(m.imports, m.imports.len())[index as int],
        index >= imported_function_count(m) ==> function_space(m)[index as int]
            == m.func_type_indexes[index - imported_function_count(m)],
{
}

} // verus!
