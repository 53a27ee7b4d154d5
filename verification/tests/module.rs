use wai_bindgen::abi::{WasmSignature, WasmType};
use wai_bindgen::generator::{
    closure_args, closure_head, cvt, intrinsics_of, print_intrinsics, record_endian, result_type,
    type_flags, type_resource, Intrinsics,
};
use wai_bindgen::module::{
    add_to_imports, export_closure, exports, function_field, host_trait, import_function,
    lazy_initialized, memory_field, tables, typed_field, ClosureInfo, ErrorType, ExportField,
    ExportedResource, Handle, Import, LazyFunction,
};
use wai_bindgen::options::NeededFunction;
use wai_bindgen::requirements::Requirements;
use wai_bindgen::types::FlagsRepr;

use WasmType::{F32, F64, I32, I64};

fn sig(params: Vec<WasmType>, results: Vec<WasmType>) -> WasmSignature {
    WasmSignature {
        params,
        indirect_params: false,
        results,
        retptr: false,
    }
}

fn handle(name: &str, snake: &str, camel: &str) -> Handle {
    Handle {
        name: name.to_string(),
        snake: snake.to_string(),
        camel: camel.to_string(),
    }
}

fn import(name: &str, signature: &str, closure: &str) -> Import {
    Import {
        is_async: false,
        name: name.to_string(),
        trait_signature: signature.to_string(),
        closure: closure.to_string(),
    }
}

#[test]
fn what_the_module_imports_at_its_end() {
    let none = Intrinsics {
        once_cell: false,
        raw_mem: false,
        char_from_i32: false,
        invalid_variant: false,
        bad_int: false,
        validate_flags: false,
        le: false,
        copy_slice: false,
    };
    let always = "#[allow(unused_imports)]\nuse wasmer::AsStoreMut as _;\n#[allow(unused_imports)]\nuse wasmer::AsStoreRef as _;\n";
    assert_eq!(print_intrinsics(none), always);
    let all = Intrinsics {
        once_cell: true,
        raw_mem: true,
        char_from_i32: true,
        invalid_variant: true,
        bad_int: true,
        validate_flags: true,
        le: true,
        copy_slice: true,
    };
    assert_eq!(
        print_intrinsics(all),
        format!(
            "use wit_bindgen_wasmer::once_cell::unsync::OnceCell;\n{}{}",
            always,
            "use wit_bindgen_wasmer::rt::RawMem;\n\
             use wit_bindgen_wasmer::rt::char_from_i32;\n\
             use wit_bindgen_wasmer::rt::invalid_variant;\n\
             use core::convert::TryFrom;\n\
             use wit_bindgen_wasmer::rt::bad_int;\n\
             use wit_bindgen_wasmer::rt::validate_flags;\n\
             use wit_bindgen_wasmer::Le;\n\
             use wit_bindgen_wasmer::rt::copy_slice;\n"
        )
    );
    let mut needs = Requirements::none();
    needs.bad_int = true;
    needs.memory = true;
    let chosen = intrinsics_of(needs, true, false);
    assert_eq!(
        chosen,
        Intrinsics {
            once_cell: true,
            bad_int: true,
            ..none
        }
    );
    assert_eq!(
        print_intrinsics(chosen),
        format!(
            "use wit_bindgen_wasmer::once_cell::unsync::OnceCell;\n{}use core::convert::TryFrom;\nuse wit_bindgen_wasmer::rt::bad_int;\n",
            always
        )
    );
}

#[test]
fn types_of_the_interface() {
    assert_eq!(
        type_flags(
            "",
            "Perms",
            FlagsRepr::U8,
            &vec!["READ".to_string(), "WRITE".to_string()],
            &vec![]
        ),
        "wit_bindgen_wasmer::bitflags::bitflags! {\n\
         pub struct Perms: u8 {const READ = 1 << 0;\n\
         const WRITE = 1 << 1;\n\
         }\n\
         }\n\n\
         impl core::fmt::Display for Perms{\n\
         fn fmt(&self, f: &mut core::fmt::Formatter<'_>) -> core::fmt::Result {\n\
         f.write_str(\"Perms(\")?;\n\
         core::fmt::Debug::fmt(self, f)?;\n\
         f.write_str(\" (0x\")?;\n\
         core::fmt::LowerHex::fmt(&self.bits, f)?;\n\
         f.write_str(\"))\")?;\n\
         Ok(())}\n\
         }\n\n"
    );
    assert!(type_flags("", "Wide", FlagsRepr::U32(2), &vec![], &vec![])
        .contains("pub struct Wide: u64 {}\n"));
    assert_eq!(
        type_flags(
            "/// What may be done.\n",
            "Perms",
            FlagsRepr::U8,
            &vec!["READ".to_string(), "WRITE".to_string()],
            &vec![String::new(), "/// To write.\n".to_string()]
        )
        .split("\n\n")
        .next()
        .unwrap(),
        "wit_bindgen_wasmer::bitflags::bitflags! {\n\
         /// What may be done.\n\
         pub struct Perms: u8 {const READ = 1 << 0;\n\
         /// To write.\n\
         const WRITE = 1 << 1;\n\
         }\n\
         }"
    );
    assert_eq!(
        type_resource("File"),
        "#[derive(Debug)]\npub struct File(wit_bindgen_wasmer::rt::ResourceIndex);\n"
    );
    assert_eq!(
        record_endian("Point", &vec!["x".to_string(), "y".to_string()]),
        "impl wit_bindgen_wasmer::Endian for Point {\n\
         fn into_le(self) -> Self {\n\
         Self {\n\
         x: self.x.into_le(),\n\
         y: self.y.into_le(),\n\
         }\n\
         }\n\
         fn from_le(self) -> Self {\n\
         Self {\n\
         x: self.x.from_le(),\n\
         y: self.y.from_le(),\n\
         }\n\
         }\n\
         }\n\
         unsafe impl wit_bindgen_wasmer::AllBytesValid for Point {}\n"
    );
}

#[test]
fn core_signatures_as_text() {
    assert_eq!(result_type(&vec![]), "()");
    assert_eq!(result_type(&vec![I64]), "i64");
    assert_eq!(result_type(&vec![I32, F32, F64]), "(i32, f32, f64)");
    assert_eq!(cvt(&sig(vec![I32], vec![I32])), "i32, i32");
    assert_eq!(cvt(&sig(vec![], vec![])), "(), ()");
    assert_eq!(cvt(&sig(vec![I32, I64], vec![])), "(i32,i64,), ()");
    assert_eq!(cvt(&sig(vec![F32], vec![I32, I32])), "f32, (i32,i32,)");
    assert_eq!(
        closure_head(&sig(vec![I32, F64], vec![I32])),
        "move |mut store: wasmer::FunctionEnvMut<EnvWrapper<T>>,arg0:i32,arg1:f64| -> Result<i32, wasmer::RuntimeError> {\n"
    );
    assert_eq!(
        closure_head(&sig(vec![], vec![])),
        "move |mut store: wasmer::FunctionEnvMut<EnvWrapper<T>>| -> Result<(), wasmer::RuntimeError> {\n"
    );
    assert_eq!(closure_args(3), vec!["arg0", "arg1", "arg2"]);
    assert_eq!(closure_args(0), Vec::<String>::new());
}

#[test]
fn the_trait_of_the_host() {
    let imports = vec![
        import("f", "fn f(&mut self,) -> ()", "move || {}"),
        import("g", "fn g(&mut self,x: u8,) -> u8", "move || {}"),
    ];
    assert_eq!(
        host_trait("Things", false, &vec![], false, false, &vec![], &imports),
        "pub trait Things: Sized + Send + Sync + 'static{\n\
         fn f(&mut self,) -> ();\n\n\
         fn g(&mut self,x: u8,) -> u8;\n\n\
         }\n"
    );
    let handles = vec![handle("open-file", "open_file", "OpenFile")];
    let errors = vec![ErrorType {
        snake: "errno".to_string(),
        camel: "Errno".to_string(),
    }];
    let text = host_trait("Things", true, &handles, true, true, &errors, &imports[..1].to_vec_import());
    assert!(text.starts_with(
        "#[wit_bindgen_wasmer::async_trait]\npub trait Things: Sized + Send + Sync + 'static{\n\
         type OpenFile: std::fmt::Debug + Send + Sync;\n\
         type Error;\n\
         fn error_to_trap(&mut self, err: Self::Error) -> wasmer::RuntimeError;\n\
         fn error_to_errno(&mut self, err: Self::Error) -> Result<Errno, wasmer::RuntimeError>;\n\
         fn f(&mut self,) -> ();\n\n\
         fn drop_open_file(&mut self, state: Self::OpenFile) {\n"
    ));
    assert!(text.ends_with(&tables("Things", &handles)));
    assert_eq!(
        tables("Things", &handles),
        "\npub struct ThingsTables<T: Things> {\n\
         pub(crate) open_file_table: wit_bindgen_wasmer::Table<T::OpenFile>,\n\
         }\n\
         impl<T: Things> Default for ThingsTables<T> {\n\
         fn default() -> Self { Self {open_file_table: Default::default(),}}}\
         impl<T: Things> Clone for ThingsTables<T> {\n\
         fn clone(&self) -> Self {\n\
         Self::default()\n\
         }}\n"
    );
    let no_trap = host_trait("Things", false, &vec![], true, false, &vec![], &vec![]);
    assert_eq!(
        no_trap,
        "pub trait Things: Sized + Send + Sync + 'static{\ntype Error;\n}\n"
    );
}

trait ToVecImport {
    fn to_vec_import(&self) -> Vec<Import>;
}

impl ToVecImport for [Import] {
    fn to_vec_import(&self) -> Vec<Import> {
        self.iter()
            .map(|i| import(&i.name, &i.trait_signature, &i.closure))
            .collect()
    }
}

#[test]
fn the_imports_of_a_module() {
    let functions = vec![
        LazyFunction {
            name: "canonical_abi_free".to_string(),
            kind: NeededFunction::Free,
        },
        LazyFunction {
            name: "canonical_abi_realloc".to_string(),
            kind: NeededFunction::Realloc,
        },
    ];
    assert_eq!(
        lazy_initialized(true, &functions),
        "pub struct LazyInitialized {\n\
         memory: wasmer::Memory,\n\
         func_canonical_abi_free: wasmer::TypedFunction<(i32, i32, i32), ()>,\n\
         func_canonical_abi_realloc: wasmer::TypedFunction<(i32, i32, i32, i32), i32>,\n\
         }\n"
    );
    assert_eq!(
        lazy_initialized(false, &vec![]),
        "pub struct LazyInitialized {\n}\n"
    );
    let imports = vec![import("simple-list1", "", "CLOSURE")];
    let plain = add_to_imports("simple-lists", "SimpleLists", &vec![], false, false, &vec![], &imports);
    assert!(plain.starts_with("\n#[must_use = \"The returned initializer function must be called\n"));
    assert!(plain.contains("where T: SimpleLists\n{\n#[derive(Clone)]struct EnvWrapper<T: SimpleLists> {\ndata: T,\n}\n"));
    assert!(plain.contains("let env = EnvWrapper {\ndata,\n};\n"));
    assert!(plain.contains("exports.insert(\n"));
    assert!(plain.contains("\"simple-list1\",\n"));
    assert!(plain.contains("CLOSURE\n"));
    assert!(plain.contains("imports.register_namespace(\"simple-lists\", exports);\n"));
    assert!(plain.ends_with(
        "move |_instance: &wasmer::Instance, _store: &dyn wasmer::AsStoreRef| {\nOk(())\n}\n}\n"
    ));
    assert!(!plain.contains("lazy"));
    assert!(!plain.contains("canonical_abi"));
    let handles = vec![handle("open-file", "open_file", "OpenFile")];
    let full = add_to_imports(
        "simple-lists",
        "SimpleLists",
        &handles,
        true,
        true,
        &functions[1..].to_vec_functions(),
        &imports,
    );
    assert!(full.starts_with("pub struct LazyInitialized {\nmemory: wasmer::Memory,\n"));
    assert!(full.contains("tables: std::rc::Rc<core::cell::RefCell<SimpleListsTables<T>>>,\nlazy: std::rc::Rc<OnceCell<LazyInitialized>>,\n}\n"));
    assert!(full.contains("let lazy = std::rc::Rc::new(OnceCell::new());\nlet env = EnvWrapper {\ndata,\ntables: std::rc::Rc::default(),\nlazy: std::rc::Rc::clone(&lazy),\n};\n"));
    assert!(full.contains("\"resource_drop_open-file\",\n"));
    assert!(full.contains("host.drop_open_file(handle);\n"));
    assert!(full.contains("let memory = _instance.exports.get_memory(\"memory\")?.clone();\nlet func_canonical_abi_realloc = _instance\n"));
    assert!(full.contains("lazy.set(LazyInitialized {\nmemory,\nfunc_canonical_abi_realloc,\n})\n.map_err(|_e| anyhow::anyhow!(\"Couldn't set lazy initialized data\"))?;\nOk(())\n}\n}\n"));
}

trait ToVecFunctions {
    fn to_vec_functions(&self) -> Vec<LazyFunction>;
}

impl ToVecFunctions for [LazyFunction] {
    fn to_vec_functions(&self) -> Vec<LazyFunction> {
        self.iter()
            .map(|f| LazyFunction {
                name: f.name.clone(),
                kind: f.kind,
            })
            .collect()
    }
}

#[test]
fn closures_and_methods() {
    let info = ClosureInfo {
        is_async: false,
        tracing: false,
        needs_memory: false,
        needs_borrow_checker: false,
        has_handles: false,
    };
    assert_eq!(
        export_closure("HEAD{\n", &info, "m", "f", &vec![], "BODY\n"),
        "HEAD{\nlet data_mut = store.data_mut();\nBODY\n}"
    );
    let info = ClosureInfo {
        is_async: true,
        tracing: true,
        needs_memory: true,
        needs_borrow_checker: true,
        has_handles: true,
    };
    let functions = vec![LazyFunction {
        name: "canonical_abi_realloc".to_string(),
        kind: NeededFunction::Realloc,
    }];
    let text = export_closure("HEAD{\n", &info, "m", "f", &functions, "BODY\n");
    assert!(text.starts_with("HEAD{\nBox::new(async move {\n\n                    let span = wit_bindgen_wasmer::tracing::span!(\n"));
    assert!(text.contains("module = \"m\",\n"));
    assert!(text.contains("function = \"f\",\n"));
    assert!(text.contains("let func_canonical_abi_realloc = store\n"));
    assert!(text.contains(".func_canonical_abi_realloc\n"));
    assert!(text.contains("let _memory: wasmer::Memory = store.data().lazy.get().unwrap().memory.clone();\nlet mut _bc = wit_bindgen_wasmer::BorrowChecker::new(unsafe {\n"));
    assert!(text.ends_with("let data_mut = store.data_mut();\nlet tables = data_mut.tables.borrow_mut();\nBODY\n})\n}"));
    assert_eq!(
        import_function("fn f() {\n", &functions, true, "BODY\n"),
        "fn f() {\nlet func_canonical_abi_realloc = &self.func_canonical_abi_realloc;\nlet _memory = &self.memory;\nBODY\n}\n"
    );
    assert_eq!(
        import_function("fn f() {\n", &vec![], false, "BODY\n"),
        "fn f() {\nBODY\n}\n"
    );
    let field = function_field(&functions[0]);
    assert_eq!(field.name, "func_canonical_abi_realloc");
    assert_eq!(field.ty, "wasmer::TypedFunction<(i32, i32, i32, i32), i32>");
    assert_eq!(
        field.get,
        "_instance.exports.get_typed_function(store, \"canonical_abi_realloc\")?"
    );
    let field = memory_field();
    assert_eq!(
        (field.name.as_str(), field.ty.as_str(), field.get.as_str()),
        (
            "memory",
            "wasmer::Memory",
            "_instance.exports.get_memory(\"memory\")?.clone()"
        )
    );
    let field = typed_field("read_all", "i32, ()", "read-all");
    assert_eq!(field.name, "func_read_all");
    assert_eq!(field.ty, "wasmer::TypedFunction<i32, ()>");
    assert_eq!(
        field.get,
        "_instance.exports.get_typed_function(store, \"read-all\")?"
    );
}

#[test]
fn the_exports_of_a_module() {
    let fields = vec![
        ExportField {
            name: "func_f".to_string(),
            ty: "wasmer::TypedFunction<i32, i32>".to_string(),
            get: "GET_F".to_string(),
        },
        ExportField {
            name: "memory".to_string(),
            ty: "wasmer::Memory".to_string(),
            get: "GET_MEMORY".to_string(),
        },
    ];
    let funcs = vec!["FUNC_ONE\n".to_string(), "FUNC_TWO\n".to_string()];
    let text = exports("Exports", &vec![], &fields, &funcs, false);
    assert!(text.contains("#[derive(Default)]\npub struct ExportsData {\n}\n\npub struct Exports {\n#[allow(dead_code)]\nenv: wasmer::FunctionEnv<ExportsData>,\nfunc_f: wasmer::TypedFunction<i32, i32>,\nmemory: wasmer::Memory,\n}\nimpl Exports {\n#[allow(unused_variables)]\n"));
    assert!(text.contains(") -> wasmer::FunctionEnv<ExportsData> {\n"));
    assert!(text.contains("let env = wasmer::FunctionEnv::new(store, Default::default());\nenv\n}\n"));
    assert!(text.contains("pub fn instantiate(\n"));
    assert!(text.contains("Ok((Self::new(store, &instance, env)?, instance))\n"));
    assert!(text.contains("env: wasmer::FunctionEnv<ExportsData>,\n                    ) -> Result<Self, wasmer::ExportError> {\n"));
    assert!(text.contains("let func_f= GET_F;\nlet memory= GET_MEMORY;\nOk(Exports{\nfunc_f,\nmemory,\nenv,\n})\n}\nFUNC_ONE\nFUNC_TWO\n}\n"));
    assert!(text.ends_with("FUNC_ONE\nFUNC_TWO\n}\n"));
    assert!(!text.contains("canonical_abi"));
    let resources = vec![ExportedResource {
        idx: 3,
        name: "open-file".to_string(),
        snake: "open_file".to_string(),
        camel: "OpenFile".to_string(),
    }];
    let text = exports("Exports", &resources, &fields, &funcs, true);
    assert!(!text.contains("#[allow(unused_variables)]\n"));
    assert!(text.contains("index_slab3: wit_bindgen_wasmer::rt::IndexSlab,\n"));
    assert!(text.contains("resource_slab3: wit_bindgen_wasmer::rt::ResourceSlab,\n"));
    assert!(text.contains("dtor3: OnceCell<wasmer::TypedFunction<i32, ()>>,\n"));
    for function in ["drop", "clone", "get", "new"] {
        assert!(text.contains(&format!("\"resource_{}_open-file\",\n", function)));
    }
    assert!(text.contains("move |mut store: wasmer::FunctionEnvMut<ExportsData>, idx: u32| -> Result<(), wasmer::RuntimeError> {\n"));
    assert!(text.contains("let resource_idx = state.resource_slab3.insert(val);\n"));
    assert!(text.contains("\"canonical_abi_drop_open-file\",\n"));
    assert!(text.contains(".map_err(|_e| anyhow::anyhow!(\"Couldn't set canonical_abi_drop_open-file\"))?;\n"));
    assert!(text.contains("pub fn drop_open_file(\n"));
    assert!(text.contains("val: OpenFile,\n"));
    assert!(text.contains("let dtor3 = state.dtor3.get().unwrap().clone();\n"));
}
