use wai_bindgen::options::{Async, Direction, Opts};
use wai_bindgen::types::{
    Expected, Field, Flag, Flags, Function, Interface, Record, Resource, Type, TypeDef,
    TypeDefKind,
};
use wai_bindgen::layout::{LayoutError, SizeAlign};
use wai_bindgen::module::ExportField;
use wai_bindgen::names::Names;
use wai_bindgen::options::NeededFunction;
use wai_bindgen::printer::Printer;
use wai_bindgen::requirements::Requirements;
use wai_bindgen::wasmer::{
    insert_field, lazy_functions, needed_functions, needed_handles, print_type_item, type_used,
    BindError, GenerateError, Wasmer,
};

fn function(name: &str, params: Vec<(&str, Type)>, result: Type) -> Function {
    Function { docs: None,
        is_async: false,
        name: name.to_string(),
        params: params
            .into_iter()
            .map(|(n, ty)| (n.to_string(), ty))
            .collect(),
        result,
    }
}

fn interface(name: &str, types: Vec<TypeDef>, functions: Vec<Function>) -> Interface {
    Interface {
        name: name.to_string(),
        types,
        resources: Vec::new(),
        functions,
    }
}


const EMPTY: &str = "#[allow(clippy::all)]\npub mod nothing {\n#[allow(unused_imports)]\nuse wit_bindgen_wasmer::{anyhow, wasmer};\n#[allow(unused_imports)]\nuse wasmer::AsStoreMut as _;\n#[allow(unused_imports)]\nuse wasmer::AsStoreRef as _;\n}\n";

#[test]
fn an_interface_of_nothing_gives_an_empty_module() {
    let iface = interface("nothing", vec![], vec![]);
    let host = Wasmer::new().generate_one(&iface, Direction::Export).unwrap();
    assert_eq!(host.module.text, EMPTY);
    let guest = Wasmer::new().generate_one(&iface, Direction::Import).unwrap();
    assert_eq!(guest.module.text, EMPTY);
}

#[test]
fn a_function_of_the_host_gets_a_trait_and_a_closure() {
    let iface = interface(
        "calc",
        vec![],
        vec![function("add", vec![("a", Type::U32), ("b", Type::U32)], Type::U32)],
    );
    let b = Wasmer::new().generate_one(&iface, Direction::Export).unwrap();
    let expected = [
        "#[allow(clippy::all)]\n",
        "pub mod calc {\n",
        "#[allow(unused_imports)]\n",
        "use wit_bindgen_wasmer::{anyhow, wasmer};\n",
        "pub trait Calc: Sized + Send + Sync + 'static{\n",
        "fn add(&mut self,a: u32,b: u32,) -> u32;\n",
        "\n",
        "}\n",
        "\n",
        "#[must_use = \"The returned initializer function must be called\n",
        "with the instance and the store before starting the runtime\"]\n",
        "pub fn add_to_imports<T>(store: &mut wasmer::Store, imports: &mut wasmer::Imports, data: T)\n",
        "-> impl FnOnce(&wasmer::Instance, &dyn wasmer::AsStoreRef) -> Result<(), anyhow::Error>\n",
        "where T: Calc\n",
        "{\n",
        "#[derive(Clone)]struct EnvWrapper<T: Calc> {\n",
        "data: T,\n",
        "}\n",
        "unsafe impl<T: Calc> Send for EnvWrapper<T> {}\n",
        "unsafe impl<T: Calc> Sync for EnvWrapper<T> {}\n",
        "let env = EnvWrapper {\n",
        "data,\n",
        "};\n",
        "let env = wasmer::FunctionEnv::new(&mut *store, env);\n",
        "let mut exports = wasmer::Exports::new();\n",
        "let mut store = store.as_store_mut();\n",
        "exports.insert(\n",
        "                        \"add\",\n",
        "                        wasmer::Function::new_native(\n",
        "                            &mut store,\n",
        "                            &env,\n",
        "                            move |mut store: wasmer::FunctionEnvMut<EnvWrapper<T>>,arg0:i32,arg1:i32| -> Result<i32, wasmer::RuntimeError> {\n",
        "let data_mut = store.data_mut();\n",
        "let param0 = arg0 as u32;\n",
        "let param1 = arg1 as u32;\n",
        "let host = &mut data_mut.data;\n",
        "let result = host.add(param0, param1, );\n",
        "Ok(wit_bindgen_wasmer::rt::as_i32(result))\n",
        "}\n",
        "                    ));\n",
        "imports.register_namespace(\"calc\", exports);\n",
        "move |_instance: &wasmer::Instance, _store: &dyn wasmer::AsStoreRef| {\n",
        "Ok(())\n",
        "}\n",
        "}\n",
        "#[allow(unused_imports)]\n",
        "use wasmer::AsStoreMut as _;\n",
        "#[allow(unused_imports)]\n",
        "use wasmer::AsStoreRef as _;\n",
        "}\n",
    ]
    .concat();
    assert_eq!(b.module.text, expected);
    assert_eq!(b.module.host.imports.len(), 1);
    assert_eq!(b.module.host.imports[0].name, "add");
    assert_eq!(
        b.module.host.imports[0].trait_signature,
        "fn add(&mut self,a: u32,b: u32,) -> u32"
    );
    assert_eq!(b.module.host.args[0], vec!["arg0", "arg1"]);
    assert!(b.module.lazy.is_empty());
    assert!(b.module.guest.funcs.is_empty());
}

fn strings() -> Interface {
    interface(
        "calc",
        vec![],
        vec![function(
            "concat",
            vec![("a", Type::String), ("b", Type::String)],
            Type::String,
        )],
    )
}

#[test]
fn a_function_of_the_guest_gets_a_method_and_its_fields() {
    let b = Wasmer::new().generate_one(&strings(), Direction::Import).unwrap();
    let g = &b.module.guest;
    let names: Vec<&str> = g.fields.iter().map(|f| f.name.as_str()).collect();
    assert_eq!(
        names,
        vec![
            "func_canonical_abi_free",
            "func_canonical_abi_realloc",
            "func_concat",
            "memory"
        ]
    );
    let put: Vec<&str> = g.inserted[0].iter().map(|f| f.name.as_str()).collect();
    assert_eq!(
        put,
        vec![
            "func_canonical_abi_realloc",
            "func_canonical_abi_free",
            "memory",
            "func_concat"
        ]
    );
    assert_eq!(g.fields[2].ty, "wasmer::TypedFunction<(i32,i32,i32,i32,), i32>");
    assert_eq!(
        g.fields[2].get,
        "_instance.exports.get_typed_function(store, \"concat\")?"
    );
    assert_eq!(g.funcs.len(), 1);
    assert!(g.funcs[0].starts_with(
        "pub fn concat(&self, store: &mut wasmer::Store,a: & str,b: & str,)-> Result<String, wasmer::RuntimeError> {\n\
         let func_canonical_abi_realloc = &self.func_canonical_abi_realloc;\n\
         let func_canonical_abi_free = &self.func_canonical_abi_free;\n\
         let _memory = &self.memory;\n\
         let vec0 = a;\n"
    ));
    assert!(g.funcs[0].ends_with("}\n"));
    assert!(g.bound[0].needs.realloc && g.bound[0].needs.free && g.bound[0].needs.memory);
    let text = &b.module.text;
    assert!(text.starts_with(
        "#[allow(clippy::all)]\npub mod calc {\n#[allow(unused_imports)]\nuse wit_bindgen_wasmer::{anyhow, wasmer};\n"
    ));
    assert!(text.contains(&g.funcs[0]));
    assert!(text.ends_with(
        "#[allow(unused_imports)]\nuse wasmer::AsStoreMut as _;\n#[allow(unused_imports)]\nuse wasmer::AsStoreRef as _;\nuse wit_bindgen_wasmer::rt::RawMem;\nuse wit_bindgen_wasmer::rt::copy_slice;\n}\n"
    ));
    assert!(b.module.host.imports.is_empty());
}

#[test]
fn the_closures_of_the_host_share_what_they_look_up() {
    let b = Wasmer::new().generate_one(&strings(), Direction::Export).unwrap();
    let m = &b.module;
    let lazy: Vec<(&str, NeededFunction)> =
        m.lazy.iter().map(|f| (f.name.as_str(), f.kind)).collect();
    assert_eq!(lazy, vec![("canonical_abi_realloc", NeededFunction::Realloc)]);
    assert!(m.text.contains("pub struct LazyInitialized {\n"));
    assert!(m.text.contains("use wit_bindgen_wasmer::once_cell::unsync::OnceCell;\n"));
    assert!(m.host.imports[0]
        .closure
        .contains("let _memory: wasmer::Memory = store.data().lazy.get().unwrap().memory.clone();\n"));
    assert_eq!(
        m.host.imports[0].trait_signature,
        "fn concat(&mut self,a: & str,b: & str,) -> String"
    );
}

#[test]
fn a_closure_looks_up_what_its_own_code_needs() {
    let memory = "let _memory: wasmer::Memory = store.data().lazy.get().unwrap().memory.clone();\n";
    let alone = interface(
        "calc",
        vec![],
        vec![function("second", vec![("a", Type::U32)], Type::U32)],
    );
    let alone = Wasmer::new().generate_one(&alone, Direction::Export).unwrap();
    let plain = alone.module.host.imports[0].closure.clone();
    assert!(!plain.contains("_memory"));
    assert!(!alone.module.text.contains("pub struct LazyInitialized"));

    let after = interface(
        "calc",
        vec![],
        vec![
            function("first", vec![("a", Type::String)], Type::Unit),
            function("second", vec![("a", Type::U32)], Type::U32),
        ],
    );
    let after = Wasmer::new().generate_one(&after, Direction::Export).unwrap();
    assert!(after.module.host.imports[0].closure.contains(memory));
    assert_eq!(after.module.host.imports[1].closure, plain);
    assert!(!after.module.host.bound[1].needs.memory);
    assert!(!after.module.host.bound[1].needs.borrow_checker);
    assert!(after.module.text.contains("pub struct LazyInitialized {\nmemory: wasmer::Memory,\n"));

    let before = interface(
        "calc",
        vec![],
        vec![
            function("second", vec![("a", Type::U32)], Type::U32),
            function("first", vec![("a", Type::String)], Type::Unit),
        ],
    );
    let before = Wasmer::new().generate_one(&before, Direction::Export).unwrap();
    assert_eq!(before.module.host.imports[0].closure, plain);
    assert!(before.module.host.imports[1].closure.contains(memory));
}

#[test]
fn handles_come_in_the_order_of_their_names() {
    let mut iface = interface("files", vec![], vec![]);
    iface.resources = vec![
        Resource { docs: None, name: "open-file".to_string() },
        Resource { docs: None, name: "dir".to_string() },
        Resource { docs: None, name: "open-file".to_string() },
    ];
    let handles = needed_handles(&iface);
    let names: Vec<(&str, &str, &str)> = handles
        .iter()
        .map(|h| (h.name.as_str(), h.snake.as_str(), h.camel.as_str()))
        .collect();
    assert_eq!(
        names,
        vec![("dir", "dir", "Dir"), ("open-file", "open_file", "OpenFile")]
    );
    let b = Wasmer::new().generate_one(&iface, Direction::Import).unwrap();
    let resources: Vec<(usize, &str)> = b
        .module
        .resources
        .iter()
        .map(|r| (r.idx, r.camel.as_str()))
        .collect();
    assert_eq!(resources, vec![(0, "OpenFile"), (1, "Dir"), (2, "OpenFile")]);
    assert!(b.module.text.contains("pub struct Dir(wit_bindgen_wasmer::rt::ResourceIndex);"));
    assert!(b
        .module
        .text
        .contains("use wit_bindgen_wasmer::once_cell::unsync::OnceCell;\n"));
    let b = Wasmer::new().generate_one(&iface, Direction::Export).unwrap();
    assert!(b.module.resources.is_empty());
    assert!(!b.module.text.contains("pub struct Dir("));
}

fn failing() -> Interface {
    interface(
        "shop",
        vec![
            TypeDef { docs: None,
                name: Some("problem".to_string()),
                kind: TypeDefKind::Record(Record {
                    fields: vec![Field { docs: None, name: "code".to_string(), ty: Type::U32 }],
                }),
            },
            TypeDef { docs: None,
                name: None,
                kind: TypeDefKind::Expected(Expected { ok: Type::U8, err: Type::Id(0) }),
            },
            TypeDef { docs: None,
                name: None,
                kind: TypeDefKind::Expected(Expected { ok: Type::U8, err: Type::U16 }),
            },
        ],
        vec![
            function("buy", vec![], Type::Id(1)),
            function("sell", vec![], Type::Id(2)),
            function("look", vec![], Type::U32),
        ],
    )
}

#[test]
fn errors_of_the_host_go_where_the_functions_declare() {
    let opts = Opts { rustfmt: false, tracing: false, async_: Async::Never, custom_error: true };
    let b = opts.build().generate_one(&failing(), Direction::Export).unwrap();
    let m = &b.module;
    let errors: Vec<(&str, &str)> =
        m.errors.iter().map(|e| (e.snake.as_str(), e.camel.as_str())).collect();
    assert_eq!(errors, vec![("problem", "Problem")]);
    assert_eq!(
        m.host.imports[0].trait_signature,
        "fn buy(&mut self,) -> Result<u8, Self::Error>"
    );
    assert_eq!(
        m.host.imports[1].trait_signature,
        "fn sell(&mut self,) -> Result<Result<u8,u16>, Self::Error>"
    );
    assert_eq!(
        m.host.imports[2].trait_signature,
        "fn look(&mut self,) -> Result<u32, Self::Error>"
    );
    assert!(m.text.contains("type Error;\n"));

    let b = Wasmer::new().generate_one(&failing(), Direction::Export).unwrap();
    assert!(b.module.errors.is_empty());
    assert_eq!(
        b.module.host.imports[0].trait_signature,
        "fn buy(&mut self,) -> Result<u8,Problem>"
    );
    assert!(!b.module.text.contains("type Error;\n"));
}

#[test]
fn a_record_that_the_functions_use_can_be_read_in_place() {
    let iface = failing();
    assert!(type_used(&iface, 0));
    assert!(type_used(&iface, 1));
    assert!(type_used(&iface, 2));
    assert!(!type_used(&iface, 3));
    let names = Names::new(&iface);
    let mut sizes = SizeAlign::new();
    sizes.fill(&iface).unwrap();
    let p = Printer { iface: &iface, names: &names, sizes: &sizes, in_import: true, projection: None };
    let item = print_type_item(&p, 0).unwrap();
    assert!(item.starts_with("#[derive(Debug, Clone)]\npub struct Problem {\npub code: u32,\n}\n"));
    assert!(item.contains("impl wit_bindgen_wasmer::Endian for Problem"));
    assert_eq!(print_type_item(&p, 1).unwrap(), "");

    let mut unused = failing();
    unused.functions.clear();
    assert!(!type_used(&unused, 0));
    let p = Printer { iface: &unused, names: &names, sizes: &sizes, in_import: true, projection: None };
    assert_eq!(
        print_type_item(&p, 0).unwrap(),
        "#[derive(Debug, Clone)]\npub struct Problem {\npub code: u32,\n}\n"
    );
}

fn flags(n: usize, name: Option<&str>) -> TypeDef {
    TypeDef { docs: None,
        name: name.map(|n| n.to_string()),
        kind: TypeDefKind::Flags(Flags {
            flags: (0..n).map(|i| Flag { docs: None, name: format!("f{}", i) }).collect(),
        }),
    }
}

#[test]
fn what_has_no_bindings() {
    let unresolved = interface(
        "bad",
        vec![TypeDef { docs: None, name: None, kind: TypeDefKind::Type(Type::Id(5)) }],
        vec![],
    );
    match Wasmer::new().generate_one(&unresolved, Direction::Export) {
        Err(GenerateError::Layout(LayoutError::Unresolved(0))) => {}
        other => panic!("{:?}", other.map(|b| b.module.text)),
    }

    let opts = Opts { rustfmt: false, tracing: false, async_: Async::All, custom_error: false };
    let calc = interface("calc", vec![], vec![function("add", vec![], Type::U32)]);
    for dir in [Direction::Export, Direction::Import] {
        match opts.clone().build().generate_one(&calc, dir) {
            Err(GenerateError::Async) => {}
            other => panic!("{:?}", other.map(|b| b.module.text)),
        }
    }
    let only = Opts {
        rustfmt: false,
        tracing: false,
        async_: Async::Only(vec!["other".to_string()]),
        custom_error: false,
    };
    assert!(only.clone().build().generate_one(&calc, Direction::Export).is_ok());
    assert!(matches!(
        only.build().generate_one(&calc, Direction::Import),
        Err(GenerateError::Async)
    ));
    let nothing = interface("nothing", vec![], vec![]);
    assert!(opts.build().generate_one(&nothing, Direction::Import).is_ok());

    let wide = interface("wide", vec![flags(3, Some("few")), flags(129, Some("many"))], vec![]);
    match Wasmer::new().generate_one(&wide, Direction::Import) {
        Err(GenerateError::Flags(1)) => {}
        other => panic!("{:?}", other.map(|b| b.module.text)),
    }
    let fits = interface("wide", vec![flags(128, Some("many"))], vec![]);
    let b = Wasmer::new().generate_one(&fits, Direction::Import).unwrap();
    assert!(b.module.text.contains("pub struct Many: u128 {"));

    let nameless = interface(
        "wide",
        vec![flags(129, None)],
        vec![
            function("fine", vec![], Type::U8),
            function("set", vec![("f", Type::Id(0))], Type::Unit),
        ],
    );
    match Wasmer::new().generate_one(&nameless, Direction::Import) {
        Err(GenerateError::Function(f)) => {
            assert_eq!(f.index, 1);
            assert_eq!(f.error, BindError::Code);
            assert_eq!(f.call.params, vec!["f"]);
        }
        other => panic!("{:?}", other.map(|b| b.module.text)),
    }
}

#[test]
fn the_functions_of_the_guest_are_asked_for_in_their_order() {
    let mut needs = Requirements::none();
    assert!(needed_functions(needs).is_empty());
    assert!(lazy_functions(needs).is_empty());
    needs.realloc = true;
    needs.free = true;
    let per_function: Vec<String> =
        needed_functions(needs).into_iter().map(|f| f.name).collect();
    assert_eq!(per_function, vec!["canonical_abi_realloc", "canonical_abi_free"]);
    let per_module: Vec<String> = lazy_functions(needs).into_iter().map(|f| f.name).collect();
    assert_eq!(per_module, vec!["canonical_abi_free", "canonical_abi_realloc"]);
    needs.realloc = false;
    let only: Vec<(String, NeededFunction)> =
        needed_functions(needs).into_iter().map(|f| (f.name, f.kind)).collect();
    assert_eq!(only, vec![("canonical_abi_free".to_string(), NeededFunction::Free)]);
}

fn field(name: &str, ty: &str) -> ExportField {
    ExportField { name: name.to_string(), ty: ty.to_string(), get: String::new() }
}

#[test]
fn a_field_takes_the_place_of_the_field_of_its_name() {
    let mut fields: Vec<ExportField> = Vec::new();
    for (name, ty) in [("m", "1"), ("b", "2"), ("z", "3"), ("b", "4"), ("a", "5"), ("z", "6")] {
        insert_field(&mut fields, field(name, ty));
    }
    let got: Vec<(&str, &str)> =
        fields.iter().map(|f| (f.name.as_str(), f.ty.as_str())).collect();
    assert_eq!(got, vec![("a", "5"), ("b", "4"), ("m", "1"), ("z", "6")]);
}
