//! Module structures and contracts written out by hand.

use validator::error::result_code;
use validator::{
    check_tables, report, str_to_val_type, validate, ExpectationSpec, Expectations, Export,
    ExternalKind, FuncInfo, FuncType, FunctionExpect, FunctionExpectEntry, Import, MemoryExpect,
    ModuleStructure, NamedSignature, SignatureTables, TypeRef, ValueType, Verdict,
    WatParserError,
};

fn func(params: Vec<ValueType>, results: Vec<ValueType>) -> Option<FuncType> {
    Some(FuncType { params, results })
}

fn export(name: &str, kind: ExternalKind, index: u32) -> Export {
    Export { name: name.to_string(), kind, index }
}

fn import(name: &str, ty: TypeRef) -> Import {
    Import { name: name.to_string(), ty }
}

fn expect(name: &str, params: Vec<ValueType>, ret: Option<ValueType>, optional: bool) -> FunctionExpect {
    FunctionExpect { name: name.to_string(), params, ret, optional }
}

fn named(name: &str, params: Vec<ValueType>, ret: Option<ValueType>) -> NamedSignature {
    NamedSignature { name: name.to_string(), info: FuncInfo { params, ret } }
}

fn module() -> ModuleStructure {
    ModuleStructure {
        func_types: vec![
            func(vec![ValueType::I32], vec![]),
            func(vec![], vec![]),
            func(vec![ValueType::I32], vec![ValueType::I32]),
            None,
        ],
        func_type_indexes: vec![1, 2],
        imports: vec![import("table", TypeRef::Table), import("log", TypeRef::Func(0))],
        exports: vec![
            export("update", ExternalKind::Func, 1),
            export("init", ExternalKind::Func, 2),
            export("memory", ExternalKind::Memory, 0),
        ],
    }
}

fn spec() -> ExpectationSpec {
    ExpectationSpec {
        memory_exported: true,
        function_exports: vec![
            expect("update", vec![], None, false),
            expect("init", vec![ValueType::I32], Some(ValueType::I32), true),
        ],
        function_imports: vec![expect("log", vec![ValueType::I32], None, false)],
    }
}

#[test]
fn tokens_name_the_four_scalar_kinds() {
    assert_eq!(str_to_val_type("i32"), Some(ValueType::I32));
    assert_eq!(str_to_val_type("i64"), Some(ValueType::I64));
    assert_eq!(str_to_val_type("f32"), Some(ValueType::F32));
    assert_eq!(str_to_val_type("f64"), Some(ValueType::F64));
}

#[test]
fn other_tokens_name_nothing() {
    for token in ["", "I32", "i32 ", "v128", "funcref", "int", "i3", "i322"] {
        assert_eq!(str_to_val_type(token), None);
    }
}

#[test]
fn resolve_turns_tokens_into_kinds() {
    let doc = Expectations {
        memory: MemoryExpect { kind: "exported".to_string() },
        function_exports: vec![(
            "f".to_string(),
            FunctionExpectEntry {
                wasm_params: vec!["i64".to_string(), "f32".to_string()],
                wasm_return: Some("f64".to_string()),
                optional: true,
            },
        )],
        function_imports: vec![(
            "g".to_string(),
            FunctionExpectEntry { wasm_params: vec![], wasm_return: None, optional: false },
        )],
    };
    let resolved = doc.resolve().unwrap();
    assert_eq!(
        resolved,
        ExpectationSpec {
            memory_exported: true,
            function_exports: vec![expect(
                "f",
                vec![ValueType::I64, ValueType::F32],
                Some(ValueType::F64),
                true
            )],
            function_imports: vec![expect("g", vec![], None, false)],
        }
    );
}

#[test]
fn resolve_reads_any_other_memory_kind_as_no_demand() {
    for kind in ["", "none", "Exported", "exported "] {
        let doc = Expectations {
            memory: MemoryExpect { kind: kind.to_string() },
            function_exports: vec![],
            function_imports: vec![],
        };
        assert!(!doc.resolve().unwrap().memory_exported);
    }
}

#[test]
fn resolve_names_the_first_unknown_token() {
    let bad = |params: &[&str], ret: Option<&str>| FunctionExpectEntry {
        wasm_params: params.iter().map(|p| p.to_string()).collect(),
        wasm_return: ret.map(|r| r.to_string()),
        optional: false,
    };
    let doc = Expectations {
        memory: MemoryExpect { kind: "exported".to_string() },
        function_exports: vec![
            ("a".to_string(), bad(&["i32"], Some("i32"))),
            ("b".to_string(), bad(&["i32", "one", "two"], Some("three"))),
        ],
        function_imports: vec![("c".to_string(), bad(&["four"], None))],
    };
    match doc.resolve() {
        Err(WatParserError::InvalidValueType(token)) => assert_eq!(token, "three"),
        other => panic!("{:?}", other),
    }
    let doc = Expectations {
        memory: MemoryExpect { kind: "exported".to_string() },
        function_exports: vec![("b".to_string(), bad(&["i32", "one", "two"], Some("i32")))],
        function_imports: vec![("c".to_string(), bad(&["four"], None))],
    };
    match doc.resolve() {
        Err(WatParserError::InvalidValueType(token)) => assert_eq!(token, "one"),
        other => panic!("{:?}", other),
    }
    let doc = Expectations {
        memory: MemoryExpect { kind: "exported".to_string() },
        function_exports: vec![],
        function_imports: vec![("c".to_string(), bad(&["four"], None))],
    };
    match doc.resolve() {
        Err(WatParserError::InvalidValueType(token)) => assert_eq!(token, "four"),
        other => panic!("{:?}", other),
    }
}

#[test]
fn function_space_puts_imports_first() {
    let mut m = module();
    m.imports.push(import("exact", TypeRef::FuncExact(2)));
    m.imports.push(import("mem", TypeRef::Memory));
    assert_eq!(m.function_space(), vec![0, 2, 1, 2]);
    assert_eq!(ModuleStructure::new().function_space(), Vec::<u32>::new());
}

#[test]
fn resolve_goes_through_import_or_definition() {
    let m = module();
    assert_eq!(m.resolve(0).unwrap(), FuncInfo { params: vec![ValueType::I32], ret: None });
    assert_eq!(m.resolve(1).unwrap(), FuncInfo { params: vec![], ret: None });
    assert_eq!(
        m.resolve(2).unwrap(),
        FuncInfo { params: vec![ValueType::I32], ret: Some(ValueType::I32) }
    );
}

#[test]
fn resolve_fails_outside_the_space_or_the_table() {
    let mut m = module();
    assert!(matches!(m.resolve(3), Err(WatParserError::IndexOutOfRange)));
    assert!(matches!(m.resolve(u32::MAX), Err(WatParserError::IndexOutOfRange)));
    m.func_type_indexes.push(4);
    assert!(matches!(m.resolve(3), Err(WatParserError::IndexOutOfRange)));
    m.func_type_indexes.push(3);
    assert!(matches!(m.resolve(4), Err(WatParserError::IndexOutOfRange)));
}

#[test]
fn resolve_keeps_the_first_result_only() {
    let mut m = module();
    m.func_types[1] = func(vec![], vec![ValueType::F64, ValueType::I32]);
    assert_eq!(m.resolve(1).unwrap(), FuncInfo { params: vec![], ret: Some(ValueType::F64) });
}

#[test]
fn tables_list_functions_in_module_order() {
    let tables = module().signature_tables().unwrap();
    assert_eq!(
        tables,
        SignatureTables {
            exported_functions: vec![
                named("update", vec![], None),
                named("init", vec![ValueType::I32], Some(ValueType::I32)),
            ],
            imported_functions: vec![named("log", vec![ValueType::I32], None)],
            has_exported_memory: true,
        }
    );
}

#[test]
fn tables_see_no_memory_under_another_name_or_kind() {
    let mut m = module();
    m.exports[2] = export("memory", ExternalKind::Global, 0);
    assert!(!m.signature_tables().unwrap().has_exported_memory);
    m.exports[2] = export("Memory", ExternalKind::Memory, 0);
    assert!(!m.signature_tables().unwrap().has_exported_memory);
}

#[test]
fn tables_fail_on_a_dangling_export_or_import() {
    let mut m = module();
    m.exports.push(export("ghost", ExternalKind::Func, 7));
    assert!(matches!(m.signature_tables(), Err(WatParserError::IndexOutOfRange)));
    let mut m = module();
    m.imports.push(import("ghost", TypeRef::Func(3)));
    assert!(matches!(m.signature_tables(), Err(WatParserError::IndexOutOfRange)));
    let mut m = module();
    m.exports.push(export("ghost", ExternalKind::Table, 7));
    assert!(m.signature_tables().is_ok());
}

#[test]
fn conforming_module_validates() {
    assert!(validate(&module(), &spec()).is_ok());
}

#[test]
fn dangling_index_is_reported_before_any_rule() {
    let mut m = module();
    m.exports = vec![export("ghost", ExternalKind::Func, 7)];
    assert!(matches!(validate(&m, &spec()), Err(WatParserError::IndexOutOfRange)));
}

#[test]
fn each_rule_gives_its_own_failure() {
    let mut m = module();
    m.exports.pop();
    assert!(matches!(validate(&m, &spec()), Err(WatParserError::WrongMemoryType)));

    let mut m = module();
    m.exports[0].name = "tick".to_string();
    match validate(&m, &spec()) {
        Err(WatParserError::MissingExportedFunction(name)) => assert_eq!(name, "update"),
        other => panic!("{:?}", other),
    }

    let mut m = module();
    m.func_types[2] = func(vec![ValueType::I64], vec![ValueType::I32]);
    match validate(&m, &spec()) {
        Err(WatParserError::FunctionHasWrongParams(name)) => assert_eq!(name, "init"),
        other => panic!("{:?}", other),
    }

    let mut m = module();
    m.func_types[2] = func(vec![ValueType::I32], vec![ValueType::Ref]);
    match validate(&m, &spec()) {
        Err(WatParserError::FunctionHasWrongResult(name)) => assert_eq!(name, "init"),
        other => panic!("{:?}", other),
    }

    let mut m = module();
    m.imports.push(import("panic", TypeRef::Func(0)));
    m.exports[0].index = 2;
    m.exports[1].index = 3;
    match validate(&m, &spec()) {
        Err(WatParserError::UnexpectedImport(name)) => assert_eq!(name, "panic"),
        other => panic!("{:?}", other),
    }
}

#[test]
fn last_export_under_a_name_is_the_one_judged() {
    let tables = SignatureTables {
        exported_functions: vec![
            named("update", vec![ValueType::I32], None),
            named("update", vec![], None),
        ],
        imported_functions: vec![],
        has_exported_memory: true,
    };
    assert!(check_tables(&tables, &spec()).is_ok());
    let tables = SignatureTables {
        exported_functions: vec![
            named("update", vec![], None),
            named("update", vec![ValueType::I32], None),
        ],
        imported_functions: vec![],
        has_exported_memory: true,
    };
    match check_tables(&tables, &spec()) {
        Err(WatParserError::FunctionHasWrongParams(name)) => assert_eq!(name, "update"),
        other => panic!("{:?}", other),
    }
}

#[test]
fn empty_contract_admits_a_module_without_function_imports() {
    let empty = ExpectationSpec {
        memory_exported: false,
        function_exports: vec![],
        function_imports: vec![],
    };
    assert!(validate(&ModuleStructure::new(), &empty).is_ok());
    let mut m = module();
    m.imports.pop();
    m.exports[0].index = 0;
    m.exports[1].index = 1;
    assert!(validate(&m, &empty).is_ok());
    match validate(&module(), &empty) {
        Err(WatParserError::UnexpectedImport(name)) => assert_eq!(name, "log"),
        other => panic!("{:?}", other),
    }
}

#[test]
fn codes_are_the_closed_set() {
    let name = || "f".to_string();
    assert_eq!(result_code(&Ok(())), 0);
    assert_eq!(result_code(&Err(WatParserError::IndexOutOfRange)), 1);
    assert_eq!(result_code(&Err(WatParserError::InvalidValueType(name()))), 1);
    assert_eq!(result_code(&Err(WatParserError::FunctionHasWrongParams(name()))), 2);
    assert_eq!(result_code(&Err(WatParserError::FunctionHasWrongResult(name()))), 3);
    assert_eq!(result_code(&Err(WatParserError::MissingExportedFunction(name()))), 4);
    assert_eq!(result_code(&Err(WatParserError::WrongMemoryType)), 5);
    assert_eq!(result_code(&Err(WatParserError::UnexpectedImport(name()))), 6);
    assert_eq!(WatParserError::WrongMemoryType.code(), 5);
}

#[test]
fn decoder_error_converts_and_gets_code_one() {
    let e = ModuleStructure::decode(&[1, 2, 3, 4, 5, 6, 7, 8]).unwrap_err();
    let text = e.message().to_string();
    match WatParserError::from(e) {
        WatParserError::WasmParserError(inner) => assert_eq!(inner.message(), text),
        other => panic!("{:?}", other),
    }
    let e = ModuleStructure::decode(&[1, 2, 3, 4, 5, 6, 7, 8]).unwrap_err();
    assert_eq!(WatParserError::from(e).code(), 1);
}

#[test]
fn lines_name_the_function_at_fault() {
    let name = || "spin".to_string();
    assert_eq!(
        WatParserError::IndexOutOfRange.message(),
        "Some error in the WebAssembly parser"
    );
    assert_eq!(
        WatParserError::InvalidValueType(name()).message(),
        "spin is not a valid value type"
    );
    assert_eq!(
        WatParserError::FunctionHasWrongParams(name()).message(),
        "spin has wrong parameters"
    );
    assert_eq!(WatParserError::FunctionHasWrongResult(name()).message(), "spin has wrong result");
    assert_eq!(WatParserError::MissingExportedFunction(name()).message(), "spin is not exported");
    assert_eq!(WatParserError::WrongMemoryType.message(), "memory is not exported");
    assert_eq!(WatParserError::UnexpectedImport(name()).message(), "spin is not exported");
}

#[test]
fn report_pairs_code_and_line() {
    assert_eq!(report(&Ok(())), Verdict { code: 0, diagnostic: None });
    assert_eq!(
        report(&Err(WatParserError::FunctionHasWrongResult("init".to_string()))),
        Verdict { code: 3, diagnostic: Some("init has wrong result".to_string()) }
    );
}

fn text_entry(params: &[&str], ret: Option<&str>, optional: bool) -> FunctionExpectEntry {
    FunctionExpectEntry {
        wasm_params: params.iter().map(|p| p.to_string()).collect(),
        wasm_return: ret.map(|r| r.to_string()),
        optional,
    }
}

#[test]
fn new_contract_has_no_entry() {
    let doc = Expectations::new("exported".to_string());
    assert_eq!(
        doc,
        Expectations {
            memory: MemoryExpect { kind: "exported".to_string() },
            function_exports: vec![],
            function_imports: vec![],
        }
    );
}

#[test]
fn insert_appends_a_new_name_and_replaces_a_known_one_in_place() {
    let mut doc = Expectations::new("none".to_string());
    doc.insert_export("a".to_string(), text_entry(&[], None, false));
    doc.insert_export("b".to_string(), text_entry(&["i32"], None, false));
    doc.insert_export("c".to_string(), text_entry(&[], Some("f32"), true));
    doc.insert_export("b".to_string(), text_entry(&["i64"], Some("i64"), true));
    doc.insert_import("b".to_string(), text_entry(&[], None, false));
    doc.insert_import("b".to_string(), text_entry(&["f64"], None, false));
    assert_eq!(
        doc.function_exports,
        vec![
            ("a".to_string(), text_entry(&[], None, false)),
            ("b".to_string(), text_entry(&["i64"], Some("i64"), true)),
            ("c".to_string(), text_entry(&[], Some("f32"), true)),
        ]
    );
    assert_eq!(doc.function_imports, vec![("b".to_string(), text_entry(&["f64"], None, false))]);
    assert_eq!(doc.memory.kind, "none");
}
