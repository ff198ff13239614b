//! The structural facts of a guest module that validation reads, as plain
//! data, and the mathematical model of each of them.

use vstd::prelude::*;

verus! {

/// The kind of a value that crosses the boundary between host and guest.
///
/// A contract can name the four scalar kinds only. `V128` and `Ref` stand for
/// what a module may declare besides them; they equal no scalar kind, so a
/// signature that holds one never matches a contract entry.
#[derive(Clone, Copy, Debug, PartialEq, Eq, Structural)]
pub enum ValueType {
    I32,
    I64,
    F32,
    F64,
    V128,
    Ref,
}

impl DeepView for ValueType {
    type V = ValueType;

    open spec fn deep_view(&self) -> ValueType {
        *self
    }
}

/// One function type of a module: its parameters and results, in order.
#[derive(Clone, Debug, PartialEq, Eq)]
pub struct FuncType {
    pub params: Vec<ValueType>,
    pub results: Vec<ValueType>,
}

/// Model of a [`FuncType`].
pub struct FuncTypeView {
    pub params: Seq<ValueType>,
    pub results: Seq<ValueType>,
}

impl DeepView for FuncType {
    type V = FuncTypeView;

    open spec fn deep_view(&self) -> FuncTypeView {
        FuncTypeView { params: self.params@, results: self.results@ }
    }
}

/// What an export record refers to.
#[derive(Clone, Copy, Debug, PartialEq, Eq, Structural)]
pub enum ExternalKind {
    Func,
    Table,
    Memory,
    Global,
    Tag,
    FuncExact,
}

impl DeepView for ExternalKind {
    type V = ExternalKind;

    open spec fn deep_view(&self) -> ExternalKind {
        *self
    }
}

/// What an import record asks for. The two function variants carry the index
/// of the function's type in the module's type table.
#[derive(Clone, Copy, Debug, PartialEq, Eq, Structural)]
pub enum TypeRef {
    Func(u32),
    Table,
    Memory,
    Global,
    Tag,
    FuncExact(u32),
}

impl DeepView for TypeRef {
    type V = TypeRef;

    open spec fn deep_view(&self) -> TypeRef {
        *self
    }
}

impl TypeRef {
    /// The type index of a function import; `None` for every other import.
    pub open spec fn func_type_index(self) -> Option<u32> {
        match self {
            TypeRef::Func(i) => Some(i),
            TypeRef::FuncExact(i) => Some(i),
            _ => None,
        }
    }

    /// Computes [`TypeRef::func_type_index`].
    pub fn function_type_index(&self) -> (r: Option<u32>)
        ensures
            r == self.func_type_index(),
    {
        match self {
            TypeRef::Func(i) => Some(*i),
            TypeRef::FuncExact(i) => Some(*i),
            _ => None,
        }
    }
}

/// One import record: the imported item's name and what is imported.
#[derive(Clone, Debug, PartialEq, Eq)]
pub struct Import {
    pub name: String,
    pub ty: TypeRef,
}

/// Model of an [`Import`].
pub struct ImportView {
    pub name: Seq<char>,
    pub ty: TypeRef,
}

impl DeepView for Import {
    type V = ImportView;

    open spec fn deep_view(&self) -> ImportView {
        ImportView { name: self.name@, ty: self.ty }
    }
}

/// One export record: the exported name, its kind, and the index of the item
/// in the index space of that kind.
#[derive(Clone, Debug, PartialEq, Eq)]
pub struct Export {
    pub name: String,
    pub kind: ExternalKind,
    pub index: u32,
}

/// Model of an [`Export`].
pub struct ExportView {
    pub name: Seq<char>,
    pub kind: ExternalKind,
    pub index: u32,
}

impl DeepView for Export {
    type V = ExportView;

    open spec fn deep_view(&self) -> ExportView {
        ExportView { name: self.name@, kind: self.kind, index: self.index }
    }
}

/// The structural facts of one guest module.
///
/// `func_types` is the type table; an entry is `None` where the module
/// declares a type that is not a function type. `func_type_indexes` gives,
/// for each function the module defines, the index of its type.
#[derive(Clone, Debug, PartialEq, Eq)]
pub struct ModuleStructure {
    pub func_types: Vec<Option<FuncType>>,
    pub func_type_indexes: Vec<u32>,
    pub imports: Vec<Import>,
    pub exports: Vec<Export>,
}

/// Model of a [`ModuleStructure`].
pub struct ModuleView {
    pub func_types: Seq<Option<FuncTypeView>>,
    pub func_type_indexes: Seq<u32>,
    pub imports: Seq<ImportView>,
    pub exports: Seq<ExportView>,
}

impl ModuleView {
    /// The module that declares nothing.
    pub open spec fn empty() -> ModuleView {
        ModuleView {
            func_types: Seq::empty(),
            func_type_indexes: Seq::empty(),
            imports: Seq::empty(),
            exports: Seq::empty(),
        }
    }
}

impl DeepView for ModuleStructure {
    type V = ModuleView;

    open spec fn deep_view(&self) -> ModuleView {
        ModuleView {
            func_types: self.func_types.deep_view(),
            func_type_indexes: self.func_type_indexes@,
            imports: self.imports.deep_view(),
            exports: self.exports.deep_view(),
        }
    }
}

impl ModuleStructure {
    /// The module that declares nothing.
    pub fn new() -> (m: ModuleStructure)
        ensures
            m.deep_view() == ModuleView::empty(),
    {
        let m = ModuleStructure {
            func_types: Vec::new(),
            func_type_indexes: Vec::new(),
            imports: Vec::new(),
            exports: Vec::new(),
        };
        assert(m.func_types.deep_view() =~= Seq::empty());
        assert(m.imports.deep_view() =~= Seq::empty());
        assert(m.exports.deep_view() =~= Seq::empty());
        m
    }
}

/// The models of the items of a sequence, in order.
pub open spec fn deep<T: DeepView>(s: Seq<T>) -> Seq<T::V> {
    Seq::new(s.len(), |i: int| s[i].deep_view())
}

/// A vector's deep view holds the models of its items.
pub proof fn lemma_deep_vec<T: DeepView>(v: Vec<T>)
    ensures
        v.deep_view() == deep(v@),
{
    assert(v.deep_view() =~= deep(v@));
}

/// The models of a sequence with one more item at its end.
pub proof fn lemma_deep_push<T: DeepView>(s: Seq<T>, x: T)
    ensures
        deep(s.push(x)) == deep(s).push(x.deep_view()),
{
    assert(deep(s.push(x)) =~= deep(s).push(x.deep_view()));
}

/// The models of two sequences joined.
pub proof fn lemma_deep_concat<T: DeepView>(a: Seq<T>, b: Seq<T>)
    ensures
        deep(a + b) == deep(a) + deep(b),
{
    assert(deep(a + b) =~= deep(a) + deep(b));
}

} // verus!
