//! Binaries built section by section and held against contracts.

use validator::{
    validate_binary, validate_wasm, Expectations, Export, ExternalKind, FuncType,
    FunctionExpectEntry, Import, MemoryExpect, ModuleStructure, TypeRef, ValueType,
    WatParserError,
};
use wasm_encoder::{
    CodeSection, CompositeInnerType, CompositeType, EntityType, ExportKind, ExportSection,
    FieldType, Function, FunctionSection, ImportSection, Instruction, MemorySection, MemoryType,
    Module, StorageType, SubType, TypeSection, ValType,
};

/// What a test says of the module it wants built.
struct Guest {
    types: Vec<(Vec<ValType>, Vec<ValType>)>,
    imports: Vec<(&'static str, &'static str, u32)>,
    functions: Vec<u32>,
    memory: Option<&'static str>,
    exports: Vec<(&'static str, u32)>,
}

fn encode(guest: &Guest) -> Vec<u8> {
    let mut module = Module::new();
    let mut types = TypeSection::new();
    for (params, results) in &guest.types {
        types.ty().function(params.clone(), results.clone());
    }
    module.section(&types);
    let mut imports = ImportSection::new();
    for (from, name, ty) in &guest.imports {
        imports.import(from, name, EntityType::Function(*ty));
    }
    module.section(&imports);
    let mut functions = FunctionSection::new();
    for ty in &guest.functions {
        functions.function(*ty);
    }
    module.section(&functions);
    let mut memories = MemorySection::new();
    memories.memory(MemoryType {
        minimum: 1,
        maximum: None,
        memory64: false,
        shared: false,
        page_size_log2: None,
    });
    module.section(&memories);
    let mut exports = ExportSection::new();
    for (name, index) in &guest.exports {
        exports.export(name, ExportKind::Func, *index);
    }
    if let Some(name) = guest.memory {
        exports.export(name, ExportKind::Memory, 0);
    }
    module.section(&exports);
    let mut code = CodeSection::new();
    for _ in &guest.functions {
        let mut body = Function::new([]);
        body.instruction(&Instruction::End);
        code.function(&body);
    }
    module.section(&code);
    module.finish()
}

fn entry(params: &[&str], ret: Option<&str>, optional: bool) -> FunctionExpectEntry {
    FunctionExpectEntry {
        wasm_params: params.iter().map(|p| p.to_string()).collect(),
        wasm_return: ret.map(|r| r.to_string()),
        optional,
    }
}

fn contract(
    memory: &str,
    exports: Vec<(&str, FunctionExpectEntry)>,
    imports: Vec<(&str, FunctionExpectEntry)>,
) -> Expectations {
    Expectations {
        memory: MemoryExpect { kind: memory.to_string() },
        function_exports: exports.into_iter().map(|(n, e)| (n.to_string(), e)).collect(),
        function_imports: imports.into_iter().map(|(n, e)| (n.to_string(), e)).collect(),
    }
}

/// A guest in the shape of a small bot: it imports a logger and a random
/// source, defines three functions and exports two of them and its memory.
fn bot() -> Guest {
    Guest {
        types: vec![
            (vec![ValType::I32, ValType::I32], vec![]),
            (vec![], vec![ValType::F32]),
            (vec![], vec![]),
            (vec![ValType::I32], vec![ValType::I32]),
        ],
        imports: vec![("env", "log", 0), ("env", "rand", 1)],
        functions: vec![2, 3, 2],
        memory: Some("memory"),
        exports: vec![("update", 2), ("init", 3)],
    }
}

fn bot_contract() -> Expectations {
    contract(
        "exported",
        vec![
            ("update", entry(&[], None, false)),
            ("init", entry(&["i32"], Some("i32"), true)),
            ("shutdown", entry(&[], None, true)),
        ],
        vec![
            ("log", entry(&["i32", "i32"], None, false)),
            ("rand", entry(&[], Some("f32"), false)),
            ("time", entry(&[], Some("f64"), false)),
        ],
    )
}

#[test]
fn validate() {
    match validate_binary(&encode(&bot()), &bot_contract()) {
        Ok(()) => {}
        Err(e) => {
            println!("{:?}", e);
            assert!(false);
        }
    }
}

#[test]
fn bot_gets_code_zero_and_no_line() {
    let verdict = validate_wasm(&encode(&bot()), &bot_contract());
    assert_eq!(verdict.code, 0);
    assert_eq!(verdict.diagnostic, None);
}

#[test]
fn same_bytes_same_code() {
    let good = encode(&bot());
    let mut bad = bot();
    bad.imports.push(("env", "panic", 2));
    bad.exports = vec![("update", 3), ("init", 4)];
    let bad = encode(&bad);
    for _ in 0..3 {
        assert_eq!(validate_wasm(&good, &bot_contract()).code, 0);
        assert_eq!(validate_wasm(&bad.clone(), &bot_contract().clone()).code, 6);
    }
    assert_eq!(validate_wasm(&bad, &bot_contract()), validate_wasm(&bad, &bot_contract()));
}

#[test]
fn required_export_with_matching_signature_passes() {
    let guest = Guest {
        types: vec![(vec![ValType::I32], vec![ValType::I32])],
        imports: vec![],
        functions: vec![0],
        memory: None,
        exports: vec![("f", 0)],
    };
    let c = contract("none", vec![("f", entry(&["i32"], Some("i32"), false))], vec![]);
    assert!(validate_binary(&encode(&guest), &c).is_ok());
    assert_eq!(validate_wasm(&encode(&guest), &c).code, 0);
}

#[test]
fn omitted_optional_export_passes() {
    let guest = Guest { types: vec![], imports: vec![], functions: vec![], memory: None, exports: vec![] };
    let c = contract("none", vec![("f", entry(&["i32"], Some("i32"), true))], vec![]);
    assert!(validate_binary(&encode(&guest), &c).is_ok());
}

#[test]
fn omitted_required_export_fails() {
    let guest = Guest { types: vec![], imports: vec![], functions: vec![], memory: None, exports: vec![] };
    let c = contract("none", vec![("f", entry(&["i32"], Some("i32"), false))], vec![]);
    match validate_binary(&encode(&guest), &c) {
        Err(WatParserError::MissingExportedFunction(name)) => assert_eq!(name, "f"),
        other => panic!("{:?}", other),
    }
    let verdict = validate_wasm(&encode(&guest), &c);
    assert_eq!(verdict.code, 4);
    assert_eq!(verdict.diagnostic, Some("f is not exported".to_string()));
}

#[test]
fn unlisted_import_fails_whatever_its_signature() {
    for ty in 0..3 {
        let guest = Guest {
            types: vec![(vec![], vec![]), (vec![ValType::I32], vec![]), (vec![], vec![ValType::F64])],
            imports: vec![("env", "g", ty)],
            functions: vec![],
            memory: None,
            exports: vec![],
        };
        let c = contract("none", vec![], vec![("h", entry(&[], None, false))]);
        match validate_binary(&encode(&guest), &c) {
            Err(WatParserError::UnexpectedImport(name)) => assert_eq!(name, "g"),
            other => panic!("{:?}", other),
        }
        assert_eq!(validate_wasm(&encode(&guest), &c).code, 6);
    }
}

#[test]
fn missing_memory_fails_first() {
    let mut guest = bot();
    guest.memory = None;
    guest.exports.clear();
    guest.imports.push(("env", "panic", 2));
    match validate_binary(&encode(&guest), &bot_contract()) {
        Err(WatParserError::WrongMemoryType) => {}
        other => panic!("{:?}", other),
    }
    let verdict = validate_wasm(&encode(&guest), &bot_contract());
    assert_eq!(verdict.code, 5);
    assert_eq!(verdict.diagnostic, Some("memory is not exported".to_string()));
}

#[test]
fn memory_under_another_name_does_not_count() {
    let mut guest = bot();
    guest.memory = Some("mem");
    assert_eq!(validate_wasm(&encode(&guest), &bot_contract()).code, 5);
}

#[test]
fn function_named_memory_does_not_count() {
    let mut guest = bot();
    guest.memory = None;
    guest.exports.push(("memory", 2));
    assert_eq!(validate_wasm(&encode(&guest), &bot_contract()).code, 5);
}

#[test]
fn memory_is_not_asked_for_under_another_kind() {
    let mut guest = bot();
    guest.memory = None;
    let mut c = bot_contract();
    c.memory.kind = "imported".to_string();
    assert_eq!(validate_wasm(&encode(&guest), &c).code, 0);
    guest.memory = Some("memory");
    assert_eq!(validate_wasm(&encode(&guest), &c).code, 0);
}

#[test]
fn renamed_export_flips_to_missing() {
    let mut guest = bot();
    guest.exports[0].0 = "tick";
    match validate_binary(&encode(&guest), &bot_contract()) {
        Err(WatParserError::MissingExportedFunction(name)) => assert_eq!(name, "update"),
        other => panic!("{:?}", other),
    }
    assert_eq!(validate_wasm(&encode(&guest), &bot_contract()).code, 4);
}

#[test]
fn changed_parameter_flips_to_wrong_params() {
    let mut guest = bot();
    guest.types[3].0 = vec![ValType::I64];
    match validate_binary(&encode(&guest), &bot_contract()) {
        Err(WatParserError::FunctionHasWrongParams(name)) => assert_eq!(name, "init"),
        other => panic!("{:?}", other),
    }
    let verdict = validate_wasm(&encode(&guest), &bot_contract());
    assert_eq!(verdict.code, 2);
    assert_eq!(verdict.diagnostic, Some("init has wrong parameters".to_string()));
}

#[test]
fn extra_parameter_flips_to_wrong_params() {
    let mut guest = bot();
    guest.types[0].0.push(ValType::I32);
    match validate_binary(&encode(&guest), &bot_contract()) {
        Err(WatParserError::FunctionHasWrongParams(name)) => assert_eq!(name, "log"),
        other => panic!("{:?}", other),
    }
}

#[test]
fn swapped_parameters_flip_to_wrong_params() {
    let guest = Guest {
        types: vec![(vec![ValType::I64, ValType::I32], vec![])],
        imports: vec![],
        functions: vec![0],
        memory: None,
        exports: vec![("f", 0)],
    };
    let c = contract("none", vec![("f", entry(&["i32", "i64"], None, false))], vec![]);
    assert_eq!(validate_wasm(&encode(&guest), &c).code, 2);
    let c = contract("none", vec![("f", entry(&["i64", "i32"], None, false))], vec![]);
    assert_eq!(validate_wasm(&encode(&guest), &c).code, 0);
}

#[test]
fn changed_result_flips_to_wrong_result() {
    let mut guest = bot();
    guest.types[3].1 = vec![ValType::I64];
    match validate_binary(&encode(&guest), &bot_contract()) {
        Err(WatParserError::FunctionHasWrongResult(name)) => assert_eq!(name, "init"),
        other => panic!("{:?}", other),
    }
    let verdict = validate_wasm(&encode(&guest), &bot_contract());
    assert_eq!(verdict.code, 3);
    assert_eq!(verdict.diagnostic, Some("init has wrong result".to_string()));
}

#[test]
fn result_where_none_is_expected_is_wrong_result() {
    let mut guest = bot();
    guest.types[2].1 = vec![ValType::I32];
    match validate_binary(&encode(&guest), &bot_contract()) {
        Err(WatParserError::FunctionHasWrongResult(name)) => assert_eq!(name, "update"),
        other => panic!("{:?}", other),
    }
}

#[test]
fn no_result_where_one_is_expected_is_wrong_result() {
    let mut guest = bot();
    guest.types[1].1 = vec![];
    match validate_binary(&encode(&guest), &bot_contract()) {
        Err(WatParserError::FunctionHasWrongResult(name)) => assert_eq!(name, "rand"),
        other => panic!("{:?}", other),
    }
}

#[test]
fn result_is_judged_before_parameters() {
    let mut guest = bot();
    guest.types[3] = (vec![ValType::F32], vec![ValType::F32]);
    assert_eq!(validate_wasm(&encode(&guest), &bot_contract()).code, 3);
}

#[test]
fn only_the_first_result_is_looked_at() {
    let mut guest = bot();
    guest.types[3].1 = vec![ValType::I32, ValType::F64];
    assert_eq!(validate_wasm(&encode(&guest), &bot_contract()).code, 0);
}

#[test]
fn added_unlisted_import_flips_to_unexpected() {
    let mut guest = bot();
    guest.imports.push(("env", "panic", 2));
    for export in guest.exports.iter_mut() {
        export.1 += 1;
    }
    let verdict = validate_wasm(&encode(&guest), &bot_contract());
    assert_eq!(verdict.code, 6);
    assert_eq!(verdict.diagnostic, Some("panic is not exported".to_string()));
}

#[test]
fn first_unlisted_import_in_module_order_is_named() {
    let mut guest = bot();
    guest.imports = vec![("env", "zeta", 2), ("env", "log", 0), ("env", "alpha", 2)];
    guest.exports = vec![("update", 3), ("init", 4)];
    match validate_binary(&encode(&guest), &bot_contract()) {
        Err(WatParserError::UnexpectedImport(name)) => assert_eq!(name, "zeta"),
        other => panic!("{:?}", other),
    }
}

#[test]
fn export_rules_come_before_import_rules() {
    let mut guest = bot();
    guest.imports.push(("env", "panic", 2));
    guest.exports = vec![("init", 4)];
    assert_eq!(validate_wasm(&encode(&guest), &bot_contract()).code, 4);
}

#[test]
fn import_mismatch_comes_before_unlisted_import() {
    let mut guest = bot();
    guest.imports = vec![("env", "panic", 2), ("env", "log", 1)];
    match validate_binary(&encode(&guest), &bot_contract()) {
        Err(WatParserError::FunctionHasWrongResult(name)) => assert_eq!(name, "log"),
        other => panic!("{:?}", other),
    }
}

#[test]
fn first_broken_export_entry_in_contract_order_is_named() {
    let mut guest = bot();
    guest.exports = vec![];
    let mut c = bot_contract();
    c.function_exports[1].1.optional = false;
    match validate_binary(&encode(&guest), &c) {
        Err(WatParserError::MissingExportedFunction(name)) => assert_eq!(name, "update"),
        other => panic!("{:?}", other),
    }
    c.function_exports.swap(0, 1);
    match validate_binary(&encode(&guest), &c) {
        Err(WatParserError::MissingExportedFunction(name)) => assert_eq!(name, "init"),
        other => panic!("{:?}", other),
    }
}

#[test]
fn listed_imports_need_not_be_imported() {
    let mut guest = bot();
    guest.imports.clear();
    guest.exports = vec![("update", 0), ("init", 1)];
    assert_eq!(validate_wasm(&encode(&guest), &bot_contract()).code, 0);
}

#[test]
fn update_only_guest_with_log_passes_and_with_panic_fails() {
    let c = contract(
        "none",
        vec![("update", entry(&[], None, false)), ("init", entry(&["i32"], Some("i32"), true))],
        vec![("log", entry(&["i32"], None, false))],
    );
    let mut guest = Guest {
        types: vec![(vec![], vec![]), (vec![ValType::I32], vec![])],
        imports: vec![("env", "log", 1)],
        functions: vec![0],
        memory: None,
        exports: vec![("update", 1)],
    };
    assert_eq!(validate_wasm(&encode(&guest), &c).code, 0);
    guest.imports.push(("env", "panic", 0));
    guest.exports = vec![("update", 2)];
    assert_eq!(validate_wasm(&encode(&guest), &c).code, 6);
    match validate_binary(&encode(&guest), &c) {
        Err(WatParserError::UnexpectedImport(name)) => assert_eq!(name, "panic"),
        other => panic!("{:?}", other),
    }
}

#[test]
fn exported_import_resolves_through_the_import() {
    let guest = Guest {
        types: vec![(vec![ValType::I64], vec![ValType::F64]), (vec![], vec![])],
        imports: vec![("env", "source", 0)],
        functions: vec![1],
        memory: None,
        exports: vec![("again", 0), ("own", 1)],
    };
    let c = contract(
        "none",
        vec![("again", entry(&["i64"], Some("f64"), false)), ("own", entry(&[], None, false))],
        vec![("source", entry(&["i64"], Some("f64"), false))],
    );
    assert_eq!(validate_wasm(&encode(&guest), &c).code, 0);
}

#[test]
fn last_import_under_a_name_is_the_one_judged() {
    let mut guest = bot();
    guest.imports = vec![("env", "log", 1), ("host", "log", 0)];
    assert_eq!(validate_wasm(&encode(&guest), &bot_contract()).code, 0);
    guest.imports = vec![("env", "log", 0), ("host", "log", 1)];
    assert_eq!(validate_wasm(&encode(&guest), &bot_contract()).code, 3);
}

#[test]
fn unknown_token_is_a_defect_of_the_contract() {
    let c = contract("none", vec![("f", entry(&["i32", "u8"], None, true))], vec![]);
    match validate_binary(&encode(&bot()), &c) {
        Err(WatParserError::InvalidValueType(token)) => assert_eq!(token, "u8"),
        other => panic!("{:?}", other),
    }
    let verdict = validate_wasm(&encode(&bot()), &c);
    assert_eq!(verdict.code, 1);
    assert_eq!(verdict.diagnostic, Some("u8 is not a valid value type".to_string()));
}

#[test]
fn unknown_token_is_reported_before_the_bytes_are_read() {
    let c = contract("exported", vec![], vec![("g", entry(&[], Some("void"), false))]);
    match validate_binary(b"not a module", &c) {
        Err(WatParserError::InvalidValueType(token)) => assert_eq!(token, "void"),
        other => panic!("{:?}", other),
    }
}

#[test]
fn bytes_that_are_no_module_fail_to_decode() {
    match validate_binary(b"not a module", &bot_contract()) {
        Err(WatParserError::WasmParserError(e)) => assert_eq!(e.offset(), 0),
        other => panic!("{:?}", other),
    }
    let verdict = validate_wasm(b"not a module", &bot_contract());
    assert_eq!(verdict.code, 1);
    assert_eq!(verdict.diagnostic, Some("Some error in the WebAssembly parser".to_string()));
    assert_eq!(validate_wasm(&[], &bot_contract()).code, 1);
}

#[test]
fn truncated_binary_fails_to_decode() {
    let bytes = encode(&bot());
    let cut = &bytes[..bytes.len() - 3];
    assert!(matches!(
        validate_binary(cut, &bot_contract()),
        Err(WatParserError::WasmParserError(_))
    ));
}

#[test]
fn section_that_ends_early_fails_to_decode() {
    // Header, then an export section that announces two exports and holds one.
    let bytes = [
        0x00, 0x61, 0x73, 0x6d, 0x01, 0x00, 0x00, 0x00, 0x07, 0x05, 0x02, 0x01, 0x66, 0x00, 0x00,
    ];
    assert!(matches!(
        validate_binary(&bytes, &contract("none", vec![], vec![])),
        Err(WatParserError::WasmParserError(_))
    ));
    assert!(ModuleStructure::decode(&bytes).is_err());
}

#[test]
fn dangling_function_index_is_out_of_range() {
    let mut guest = bot();
    guest.exports.push(("ghost", 9));
    match validate_binary(&encode(&guest), &bot_contract()) {
        Err(WatParserError::IndexOutOfRange) => {}
        other => panic!("{:?}", other),
    }
    let verdict = validate_wasm(&encode(&guest), &bot_contract());
    assert_eq!(verdict.code, 1);
    assert_eq!(verdict.diagnostic, Some("Some error in the WebAssembly parser".to_string()));
}

#[test]
fn dangling_type_index_is_out_of_range() {
    let mut guest = bot();
    guest.imports.push(("env", "odd", 17));
    assert!(matches!(
        validate_binary(&encode(&guest), &bot_contract()),
        Err(WatParserError::IndexOutOfRange)
    ));
}

#[test]
fn empty_module_decodes_to_nothing() {
    let bytes = [0x00, 0x61, 0x73, 0x6d, 0x01, 0x00, 0x00, 0x00];
    let module = ModuleStructure::decode(&bytes).unwrap();
    assert_eq!(module, ModuleStructure::new());
    assert_eq!(validate_wasm(&bytes, &contract("none", vec![], vec![])).code, 0);
    assert_eq!(validate_wasm(&bytes, &contract("exported", vec![], vec![])).code, 5);
}

#[test]
fn decode_gathers_the_four_sections() {
    let module = ModuleStructure::decode(&encode(&bot())).unwrap();
    let expected = ModuleStructure {
        func_types: vec![
            Some(FuncType { params: vec![ValueType::I32, ValueType::I32], results: vec![] }),
            Some(FuncType { params: vec![], results: vec![ValueType::F32] }),
            Some(FuncType { params: vec![], results: vec![] }),
            Some(FuncType { params: vec![ValueType::I32], results: vec![ValueType::I32] }),
        ],
        func_type_indexes: vec![2, 3, 2],
        imports: vec![
            Import { name: "log".to_string(), ty: TypeRef::Func(0) },
            Import { name: "rand".to_string(), ty: TypeRef::Func(1) },
        ],
        exports: vec![
            Export { name: "update".to_string(), kind: ExternalKind::Func, index: 2 },
            Export { name: "init".to_string(), kind: ExternalKind::Func, index: 3 },
            Export { name: "memory".to_string(), kind: ExternalKind::Memory, index: 0 },
        ],
    };
    assert_eq!(module, expected);
}

#[test]
fn decode_tells_every_value_type_apart() {
    let guest = Guest {
        types: vec![(
            vec![ValType::I32, ValType::I64, ValType::F32, ValType::F64, ValType::V128],
            vec![ValType::FUNCREF, ValType::EXTERNREF, ValType::F64],
        )],
        imports: vec![],
        functions: vec![],
        memory: None,
        exports: vec![],
    };
    let module = ModuleStructure::decode(&encode(&guest)).unwrap();
    assert_eq!(
        module.func_types,
        vec![Some(FuncType {
            params: vec![
                ValueType::I32,
                ValueType::I64,
                ValueType::F32,
                ValueType::F64,
                ValueType::V128
            ],
            results: vec![ValueType::Ref, ValueType::Ref, ValueType::F64],
        })]
    );
}

#[test]
fn decode_tells_every_import_and_export_kind_apart() {
    let memory =
        MemoryType { minimum: 1, maximum: None, memory64: false, shared: false, page_size_log2: None };
    let mut module = Module::new();
    let mut types = TypeSection::new();
    types.ty().function([], []);
    module.section(&types);
    let mut imports = ImportSection::new();
    imports.import("env", "f", EntityType::Function(0));
    imports.import("env", "m", EntityType::Memory(memory));
    imports.import("env", "x", EntityType::FunctionExact(0));
    module.section(&imports);
    let mut exports = ExportSection::new();
    exports.export("a", ExportKind::Func, 0);
    exports.export("b", ExportKind::Table, 1);
    exports.export("c", ExportKind::Memory, 2);
    exports.export("d", ExportKind::Global, 3);
    exports.export("e", ExportKind::Tag, 4);
    module.section(&exports);
    let decoded = ModuleStructure::decode(&module.finish()).unwrap();
    assert_eq!(
        decoded.imports,
        vec![
            Import { name: "f".to_string(), ty: TypeRef::Func(0) },
            Import { name: "m".to_string(), ty: TypeRef::Memory },
            Import { name: "x".to_string(), ty: TypeRef::FuncExact(0) },
        ]
    );
    assert_eq!(
        decoded.exports,
        vec![
            Export { name: "a".to_string(), kind: ExternalKind::Func, index: 0 },
            Export { name: "b".to_string(), kind: ExternalKind::Table, index: 1 },
            Export { name: "c".to_string(), kind: ExternalKind::Memory, index: 2 },
            Export { name: "d".to_string(), kind: ExternalKind::Global, index: 3 },
            Export { name: "e".to_string(), kind: ExternalKind::Tag, index: 4 },
        ]
    );
}

fn func_sub_type(params: Vec<ValType>, results: Vec<ValType>) -> SubType {
    SubType {
        is_final: true,
        supertype_idxs: vec![],
        composite_type: CompositeType {
            inner: CompositeInnerType::Func(wasm_encoder::FuncType::new(params, results)),
            shared: false,
            descriptor: None,
            describes: None,
        },
    }
}

#[test]
fn decode_flattens_groups_and_keeps_the_place_of_other_types() {
    let mut module = Module::new();
    let mut types = TypeSection::new();
    types.ty().array(&StorageType::I8, true);
    types.ty().rec(vec![
        func_sub_type(vec![ValType::I32], vec![]),
        func_sub_type(vec![], vec![ValType::I64]),
    ]);
    types.ty().struct_(vec![FieldType { element_type: StorageType::I16, mutable: false }]);
    types.ty().function([ValType::F32], []);
    module.section(&types);
    let mut functions = FunctionSection::new();
    functions.function(2);
    functions.function(0);
    module.section(&functions);
    let mut exports = ExportSection::new();
    exports.export("second", ExportKind::Func, 0);
    module.section(&exports);
    let mut code = CodeSection::new();
    for _ in 0..2 {
        let mut body = Function::new([]);
        body.instruction(&Instruction::End);
        code.function(&body);
    }
    module.section(&code);
    let bytes = module.finish();
    let decoded = ModuleStructure::decode(&bytes).unwrap();
    assert_eq!(
        decoded.func_types,
        vec![
            None,
            Some(FuncType { params: vec![ValueType::I32], results: vec![] }),
            Some(FuncType { params: vec![], results: vec![ValueType::I64] }),
            None,
            Some(FuncType { params: vec![ValueType::F32], results: vec![] }),
        ]
    );
    let c = contract("none", vec![("second", entry(&[], Some("i64"), false))], vec![]);
    assert_eq!(validate_wasm(&bytes, &c).code, 0);
    // The same module with the array type exported as a function's type.
    let mut exports = ExportSection::new();
    exports.export("second", ExportKind::Func, 1);
    let mut module = Module::new();
    module.section(&types).section(&functions).section(&exports).section(&code);
    assert!(matches!(
        validate_binary(&module.finish(), &c),
        Err(WatParserError::IndexOutOfRange)
    ));
}
