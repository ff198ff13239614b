//! The contract that a guest is held to: as the document gives it, with its
//! value types as text, and resolved, with each token turned into a kind.

use crate::error::{Failure, WatParserError};
use crate::types::{lemma_deep_push, lemma_deep_vec, ValueType};
use vstd::prelude::*;
use vstd::string::*;

verus! {

/// The contract's demand on the guest's memory.
#[derive(Clone, Debug, PartialEq, Eq)]
pub struct MemoryExpect {
    /// `exported` asks the guest to export its memory under the name
    /// `memory`; any other text asks for nothing.
    pub kind: String,
}

/// What the contract says of one function, with its types as text.
#[derive(Clone, Debug, PartialEq, Eq)]
pub struct FunctionExpectEntry {
    pub wasm_params: Vec<String>,
    pub wasm_return: Option<String>,
    /// For an export: whether the guest may leave it out.
    pub optional: bool,
}

/// Model of a [`FunctionExpectEntry`].
pub struct FunctionExpectEntryView {
    pub wasm_params: Seq<Seq<char>>,
    pub wasm_return: Option<Seq<char>>,
    pub optional: bool,
}

impl DeepView for FunctionExpectEntry {
    type V = FunctionExpectEntryView;

    open spec fn deep_view(&self) -> FunctionExpectEntryView {
        FunctionExpectEntryView {
            wasm_params: self.wasm_params.deep_view(),
            wasm_return: self.wasm_return.deep_view(),
            optional: self.optional,
        }
    }
}

/// The contract as its document gives it. The entries of either list stand in
/// the order in which the document enumerates them, each under its name.
#[derive(Clone, Debug, PartialEq, Eq)]
pub struct Expectations {
    pub memory: MemoryExpect,
    pub function_exports: Vec<(String, FunctionExpectEntry)>,
    pub function_imports: Vec<(String, FunctionExpectEntry)>,
}

/// Model of [`Expectations`].
pub struct ExpectationsView {
    pub memory_kind: Seq<char>,
    pub function_exports: Seq<(Seq<char>, FunctionExpectEntryView)>,
    pub function_imports: Seq<(Seq<char>, FunctionExpectEntryView)>,
}

impl DeepView for Expectations {
    type V = ExpectationsView;

    open spec fn deep_view(&self) -> ExpectationsView {
        ExpectationsView {
            memory_kind: self.memory.kind@,
            function_exports: self.function_exports.deep_view(),
            function_imports: self.function_imports.deep_view(),
        }
    }
}

/// What the contract says of one function, resolved.
#[derive(Clone, Debug, PartialEq, Eq)]
pub struct FunctionExpect {
    pub name: String,
    pub params: Vec<ValueType>,
    pub ret: Option<ValueType>,
    pub optional: bool,
}

/// Model of a [`FunctionExpect`].
pub struct FunctionExpectView {
    pub name: Seq<char>,
    pub params: Seq<ValueType>,
    pub ret: Option<ValueType>,
    pub optional: bool,
}

impl DeepView for FunctionExpect {
    type V = FunctionExpectView;

    open spec fn deep_view(&self) -> FunctionExpectView {
        FunctionExpectView {
            name: self.name@,
            params: self.params@,
            ret: self.ret,
            optional: self.optional,
        }
    }
}

/// The resolved contract.
///
/// An entry of `function_imports` is a rule and a licence: a guest that
/// imports the function must import it with this signature, and a guest may
/// import no function that has no entry. No entry obliges a guest to import.
#[derive(Clone, Debug, PartialEq, Eq)]
pub struct ExpectationSpec {
    pub memory_exported: bool,
    pub function_exports: Vec<FunctionExpect>,
    pub function_imports: Vec<FunctionExpect>,
}

/// Model of an [`ExpectationSpec`].
pub struct ExpectationSpecView {
    pub memory_exported: bool,
    pub function_exports: Seq<FunctionExpectView>,
    pub function_imports: Seq<FunctionExpectView>,
}

impl DeepView for ExpectationSpec {
    type V = ExpectationSpecView;

    open spec fn deep_view(&self) -> ExpectationSpecView {
        ExpectationSpecView {
            memory_exported: self.memory_exported,
            function_exports: self.function_exports.deep_view(),
            function_imports: self.function_imports.deep_view(),
        }
    }
}

/// Whether no name stands twice in a list of entries.
pub open spec fn names_distinct(entries: Seq<(Seq<char>, FunctionExpectEntryView)>) -> bool {
    forall|i: int, j: int| 0 <= i < j < entries.len() ==> entries[i].0 != entries[j].0
}

/// The place of the first of the first `n` entries under a name.
pub open spec fn position(
    entries: Seq<(Seq<char>, FunctionExpectEntryView)>,
    name: Seq<char>,
    n: nat,
) -> Option<int>
    recommends
        n <= entries.len(),
    decreases n,
{
    if n == 0 {
        None
    } else {
        match position(entries, name, (n - 1) as nat) {
            Some(k) => Some(k),
            None => if entries[n - 1].0 == name {
                Some(n - 1)
            } else {
                None
            },
        }
    }
}

/// A list of entries after one was put under a name, as a mapping takes it:
/// an entry that stood under the name is replaced where it stood, and a new
/// name goes to the end.
pub open spec fn inserted(
    entries: Seq<(Seq<char>, FunctionExpectEntryView)>,
    name: Seq<char>,
    entry: FunctionExpectEntryView,
) -> Seq<(Seq<char>, FunctionExpectEntryView)> {
    match position(entries, name, entries.len()) {
        Some(k) => entries.update(k, (name, entry)),
        None => entries.push((name, entry)),
    }
}

impl ExpectationsView {
    /// Whether the document is a pair of mappings: no name stands twice among
    /// the export entries, nor among the import entries.
    pub open spec fn well_formed(self) -> bool {
        names_distinct(self.function_exports) && names_distinct(self.function_imports)
    }
}

/// The kind that a value-type token names: one of the four scalar kinds, or
/// nothing.
pub open spec fn token_value_type(token: Seq<char>) -> Option<ValueType> {
    if token == "i32"@ {
        Some(ValueType::I32)
    } else if token == "i64"@ {
        Some(ValueType::I64)
    } else if token == "f32"@ {
        Some(ValueType::F32)
    } else if token == "f64"@ {
        Some(ValueType::F64)
    } else {
        None
    }
}

/// The kinds that the first `n` tokens name, or the first among them that
/// names none.
pub open spec fn resolved_tokens(tokens: Seq<Seq<char>>, n: nat) -> Result<
    Seq<ValueType>,
    Seq<char>,
>
    recommends
        n <= tokens.len(),
    decreases n,
{
    if n == 0 {
        Ok(Seq::empty())
    } else {
        match resolved_tokens(tokens, (n - 1) as nat) {
            Err(t) => Err(t),
            Ok(kinds) => match token_value_type(tokens[n - 1]) {
                Some(kind) => Ok(kinds.push(kind)),
                None => Err(tokens[n - 1]),
            },
        }
    }
}

/// The kind that an optional return token names; the token itself where it
/// names none.
pub open spec fn resolved_return(token: Option<Seq<char>>) -> Result<
    Option<ValueType>,
    Seq<char>,
> {
    match token {
        None => Ok(None),
        Some(t) => match token_value_type(t) {
            Some(kind) => Ok(Some(kind)),
            None => Err(t),
        },
    }
}

/// One entry resolved, or its first token that names no kind: the return
/// token is looked at first, then the parameters from the left.
pub open spec fn resolved_entry(name: Seq<char>, entry: FunctionExpectEntryView) -> Result<
    FunctionExpectView,
    Seq<char>,
> {
    match resolved_return(entry.wasm_return) {
        Err(t) => Err(t),
        Ok(ret) => match resolved_tokens(entry.wasm_params, entry.wasm_params.len()) {
            Err(t) => Err(t),
            Ok(params) => Ok(FunctionExpectView { name, params, ret, optional: entry.optional }),
        },
    }
}

/// The first `n` entries resolved, or the first token among them that names
/// no kind.
pub open spec fn resolved_entries(
    entries: Seq<(Seq<char>, FunctionExpectEntryView)>,
    n: nat,
) -> Result<Seq<FunctionExpectView>, Seq<char>>
    recommends
        n <= entries.len(),
    decreases n,
{
    if n == 0 {
        Ok(Seq::empty())
    } else {
        match resolved_entries(entries, (n - 1) as nat) {
            Err(t) => Err(t),
            Ok(done) => match resolved_entry(entries[n - 1].0, entries[n - 1].1) {
                Err(t) => Err(t),
                Ok(entry) => Ok(done.push(entry)),
            },
        }
    }
}

/// The contract resolved, or the first token in it that names no kind: the
/// export entries are gone through first, then the import entries.
pub open spec fn resolved(doc: ExpectationsView) -> Result<ExpectationSpecView, Seq<char>> {
    match resolved_entries(doc.function_exports, doc.function_exports.len()) {
        Err(t) => Err(t),
        Ok(function_exports) => match resolved_entries(
            doc.function_imports,
            doc.function_imports.len(),
        ) {
            Err(t) => Err(t),
            Ok(function_imports) => Ok(
                ExpectationSpecView {
                    memory_exported: doc.memory_kind == "exported"@,
                    function_exports,
                    function_imports,
                },
            ),
        },
    }
}

/// Whether a string reads as the given text.
fn reads_as(s: &String, text: &str) -> (b: bool)
    ensures
        b == (s@ == text@),
{
    let other = String::from_str(text);
    *s == other
}

/// The kind that a value-type token names, if it names one.
pub fn str_to_val_type(s: &str) -> (r: Option<ValueType>)
    ensures
        r == token_value_type(s@),
{
    let token = String::from_str(s);
    if reads_as(&token, "i32") {
        Some(ValueType::I32)
    } else if reads_as(&token, "i64") {
        Some(ValueType::I64)
    } else if reads_as(&token, "f32") {
        Some(ValueType::F32)
    } else if reads_as(&token, "f64") {
        Some(ValueType::F64)
    } else {
        None
    }
}

fn resolve_tokens(tokens: &Vec<String>) -> (r: Result<Vec<ValueType>, String>)
    ensures
        match r {
            Ok(kinds) => resolved_tokens(tokens.deep_view(), tokens.deep_view().len()) == Ok::<
                _,
                Seq<char>,
            >(kinds@),
            Err(t) => resolved_tokens(tokens.deep_view(), tokens.deep_view().len()) == Err::<
                Seq<ValueType>,
                _,
            >(t@),
        },
{
    let mut kinds: Vec<ValueType> = Vec::new();
    let mut i: usize = 0;
    while i < tokens.len()
        invariant
            i <= tokens.len(),
            tokens.deep_view().len() == tokens.len(),
            resolved_tokens(tokens.deep_view(), i as nat) == Ok::<_, Seq<char>>(kinds@),
        decreases tokens.len() - i,
    {
        assert(tokens.deep_view()[i as int] == tokens@[i as int]@);
        match str_to_val_type(tokens[i].as_str()) {
            Some(kind) => {
                kinds.push(kind);
            },
            None => {
                proof {
                    lemma_resolved_tokens_error(
                        tokens.deep_view(),
                        (i + 1) as nat,
                        tokens.deep_view().len(),
                    );
                }
                return Err(tokens[i].clone());
            },
        }
        i += 1;
    }
    Ok(kinds)
}

fn resolve_entry(name: &String, entry: &FunctionExpectEntry) -> (r: Result<FunctionExpect, String>)
    ensures
        match r {
            Ok(e) => resolved_entry(name@, entry.deep_view()) == Ok::<_, Seq<char>>(e.deep_view()),
            Err(t) => resolved_entry(name@, entry.deep_view()) == Err::<FunctionExpectView, _>(t@),
        },
{
    let ret = match &entry.wasm_return {
        None => None,
        Some(t) => match str_to_val_type(t.as_str()) {
            Some(kind) => Some(kind),
            None => {
                return Err(t.clone());
            },
        },
    };
    match resolve_tokens(&entry.wasm_params) {
        Err(t) => Err(t),
        Ok(params) => Ok(FunctionExpect { name: name.clone(), params, ret, optional: entry.optional }),
    }
}

fn resolve_entries(entries: &Vec<(String, FunctionExpectEntry)>) -> (r: Result<
    Vec<FunctionExpect>,
    String,
>)
    ensures
        match r {
            Ok(list) => resolved_entries(entries.deep_view(), entries.deep_view().len()) == Ok::<
                _,
                Seq<char>,
            >(list.deep_view()),
            Err(t) => resolved_entries(entries.deep_view(), entries.deep_view().len()) == Err::<
                Seq<FunctionExpectView>,
                _,
            >(t@),
        },
{
    let mut list: Vec<FunctionExpect> = Vec::new();
    let mut i: usize = 0;
    proof {
        lemma_deep_vec(list);
        assert(list.deep_view() =~= Seq::empty());
    }
    while i < entries.len()
        invariant
            i <= entries.len(),
            entries.deep_view().len() == entries.len(),
            resolved_entries(entries.deep_view(), i as nat) == Ok::<_, Seq<char>>(
                list.deep_view(),
            ),
        decreases entries.len() - i,
    {
        assert(entries.deep_view()[i as int] == (entries@[i as int].0@, entries@[i as int].1.deep_view()));
        match resolve_entry(&entries[i].0, &entries[i].1) {
            Ok(entry) => {
                let ghost prev = list;
                list.push(entry);
                proof {
                    lemma_deep_vec(prev);
                    lemma_deep_vec(list);
                    lemma_deep_push(prev@, entry);
                }
            },
            Err(t) => {
                proof {
                    lemma_resolved_entries_error(
                        entries.deep_view(),
                        (i + 1) as nat,
                        entries.deep_view().len(),
                    );
                }
                return Err(t);
            },
        }
        i += 1;
    }
    Ok(list)
}

/// What [`position`] finds is a place under the name, and the first; where
/// it finds none, no entry has the name.
pub proof fn lemma_position(
    entries: Seq<(Seq<char>, FunctionExpectEntryView)>,
    name: Seq<char>,
    n: nat,
)
    requires
        n <= entries.len(),
    ensures
        match position(entries, name, n) {
            Some(k) => 0 <= k < n && entries[k].0 == name && forall|j: int|
                0 <= j < k ==> entries[j].0 != name,
            None => forall|j: int| 0 <= j < n ==> entries[j].0 != name,
        },
    decreases n,
{
    if n > 0 {
        lemma_position(entries, name, (n - 1) as nat);
    }
}

/// Putting an entry under a name keeps the names distinct, and the entry is
/// then the one under that name.
pub proof fn lemma_inserted_distinct(
    entries: Seq<(Seq<char>, FunctionExpectEntryView)>,
    name: Seq<char>,
    entry: FunctionExpectEntryView,
)
    requires
        names_distinct(entries),
    ensures
        names_distinct(inserted(entries, name, entry)),
        exists|k: int|
            0 <= k < inserted(entries, name, entry).len() && inserted(entries, name, entry)[k] == (
                name,
                entry,
            ),
{
    lemma_position(entries, name, entries.len());
    let after = inserted(entries, name, entry);
    match position(entries, name, entries.len()) {
        Some(k) => {
            assert(after[k] == (name, entry));
        },
        None => {
            assert(after[entries.len() as int] == (name, entry));
        },
    }
}

/// Puts an entry into a list under a name: see [`inserted`].
fn insert_entry(
    entries: &mut Vec<(String, FunctionExpectEntry)>,
    name: String,
    entry: FunctionExpectEntry,
)
    ensures
        final(entries).deep_view() == inserted(old(entries).deep_view(), name@, entry.deep_view()),
{
    let ghost before = entries.deep_view();
    let mut i: usize = 0;
    while i < entries.len()
        invariant
            i <= entries.len(),
            *entries == *old(entries),
            before == entries.deep_view(),
            before.len() == entries.len(),
            position(before, name@, i as nat) is None,
        decreases entries.len() - i,
    {
        assert(before[i as int] == (entries@[i as int].0@, entries@[i as int].1.deep_view()));
        if entries[i].0 == name {
            proof {
                lemma_position_found(before, name@, (i + 1) as nat, before.len());
            }
            let ghost prev = *entries;
            entries.set(i, (name, entry));
            proof {
                lemma_deep_vec(prev);
                lemma_deep_vec(*entries);
                assert(entries.deep_view() =~= before.update(
                    i as int,
                    (name@, entry.deep_view()),
                ));
            }
            return ;
        }
        i += 1;
    }
    let ghost prev = *entries;
    entries.push((name, entry));
    proof {
        lemma_deep_vec(prev);
        lemma_deep_vec(*entries);
        lemma_deep_push(prev@, (name, entry));
    }
}

/// A place once found stays the answer.
proof fn lemma_position_found(
    entries: Seq<(Seq<char>, FunctionExpectEntryView)>,
    name: Seq<char>,
    n: nat,
    m: nat,
)
    requires
        n <= m,
        position(entries, name, n) is Some,
    ensures
        position(entries, name, m) == position(entries, name, n),
    decreases m,
{
    if n < m {
        lemma_position_found(entries, name, n, (m - 1) as nat);
    }
}

impl Expectations {
    /// A contract with the given demand on memory and no entry.
    pub fn new(memory_kind: String) -> (doc: Expectations)
        ensures
            doc.deep_view() == (ExpectationsView {
                memory_kind: memory_kind@,
                function_exports: Seq::empty(),
                function_imports: Seq::empty(),
            }),
            doc.deep_view().well_formed(),
    {
        let doc = Expectations {
            memory: MemoryExpect { kind: memory_kind },
            function_exports: Vec::new(),
            function_imports: Vec::new(),
        };
        assert(doc.function_exports.deep_view() =~= Seq::empty());
        assert(doc.function_imports.deep_view() =~= Seq::empty());
        doc
    }

    /// Puts an export entry under a name, as a mapping takes it: see
    /// [`inserted`]. A well-formed document stays well-formed.
    pub fn insert_export(&mut self, name: String, entry: FunctionExpectEntry)
        ensures
            final(self).deep_view() == (ExpectationsView {
                function_exports: inserted(
                    old(self).deep_view().function_exports,
                    name@,
                    entry.deep_view(),
                ),
                ..old(self).deep_view()
            }),
            old(self).deep_view().well_formed() ==> final(self).deep_view().well_formed(),
    {
        proof {
            if self.deep_view().well_formed() {
                lemma_inserted_distinct(
                    self.deep_view().function_exports,
                    name@,
                    entry.deep_view(),
                );
            }
        }
        insert_entry(&mut self.function_exports, name, entry);
    }

    /// Puts an import entry under a name, as a mapping takes it: see
    /// [`inserted`]. A well-formed document stays well-formed.
    pub fn insert_import(&mut self, name: String, entry: FunctionExpectEntry)
        ensures
            final(self).deep_view() == (ExpectationsView {
                function_imports: inserted(
                    old(self).deep_view().function_imports,
                    name@,
                    entry.deep_view(),
                ),
                ..old(self).deep_view()
            }),
            old(self).deep_view().well_formed() ==> final(self).deep_view().well_formed(),
    {
        proof {
            if self.deep_view().well_formed() {
                lemma_inserted_distinct(
                    self.deep_view().function_imports,
                    name@,
                    entry.deep_view(),
                );
            }
        }
        insert_entry(&mut self.function_imports, name, entry);
    }
}

impl Expectations {
    /// Resolves the contract: every value-type token becomes the kind that it
    /// names, and the memory demand becomes a flag.
    ///
    /// Fails with `InvalidValueType` exactly when some token names none of the
    /// four kinds, and then carries the first such token; a token is never taken
    /// for the absence of a demand.
    pub fn resolve(&self) -> (r: Result<ExpectationSpec, WatParserError>)
        ensures
            match r {
                Ok(spec) => resolved(self.deep_view()) == Ok::<_, Seq<char>>(spec.deep_view()),
                Err(e) => resolved(self.deep_view()) matches Err(t) && e.deep_view()
                    == Failure::InvalidValueType(t),
            },
    {
        let function_exports = match resolve_entries(&self.function_exports) {
            Ok(list) => list,
            Err(t) => {
                return Err(WatParserError::InvalidValueType(t));
            },
        };
        let function_imports = match resolve_entries(&self.function_imports) {
            Ok(list) => list,
            Err(t) => {
                return Err(WatParserError::InvalidValueType(t));
            },
        };
        let memory_exported = reads_as(&self.memory.kind, "exported");
        Ok(ExpectationSpec { memory_exported, function_exports, function_imports })
    }
}

/// Once a token that names no kind has come up it stays the answer.
proof fn lemma_resolved_tokens_error(tokens: Seq<Seq<char>>, n: nat, m: nat)
    requires
        n <= m,
        resolved_tokens(tokens, n) is Err,
    ensures
        resolved_tokens(tokens, m) == resolved_tokens(tokens, n),
    decreases m,
{
    if n < m {
        lemma_resolved_tokens_error(tokens, n, (m - 1) as nat);
    }
}

/// Once an entry has failed to resolve its token stays the answer.
proof fn lemma_resolved_entries_error(
    entries: Seq<(Seq<char>, FunctionExpectEntryView)>,
    n: nat,
    m: nat,
)
    requires
        n <= m,
        resolved_entries(entries, n) is Err,
    ensures
        resolved_entries(entries, m) == resolved_entries(entries, n),
    decreases m,
{
    if n < m {
        lemma_resolved_entries_error(entries, n, (m - 1) as nat);
    }
}

} // verus!
