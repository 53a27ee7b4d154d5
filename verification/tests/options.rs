use wai_bindgen::abi::AbiVariant;
use wai_bindgen::encoding::StringEncoding;
use wai_bindgen::options::{
    abi_variant, any_async, classify_fn_ret, Async, Direction, FunctionRet, NeededFunction, Opts,
};
use wai_bindgen::requirements::Requirements;
use wai_bindgen::instruction::Instruction;
use wai_bindgen::source::Source;
use wai_bindgen::types::{
    Enum, EnumCase, Expected, Function, Interface, Resource, Type, TypeDef, TypeDefKind,
};

fn names(a: &Async) -> Option<Vec<String>> {
    match a {
        Async::Only(list) => Some(list.clone()),
        _ => None,
    }
}

#[test]
fn which_functions_are_asynchronous() {
    assert!(matches!(Async::from_str("all"), Ok(Async::All)));
    assert!(matches!(Async::from_str("none"), Ok(Async::Never)));
    let only = Async::from_str("foo, bar ,baz").unwrap();
    assert_eq!(
        names(&only),
        Some(vec!["foo".to_string(), "bar".to_string(), "baz".to_string()])
    );
    assert!(only.includes("bar"));
    assert!(!only.includes("ba"));
    assert!(!only.is_none());
    assert_eq!(names(&Async::from_str("").unwrap()), Some(vec![String::new()]));
    assert_eq!(
        names(&Async::from_str(" a b ,,\t").unwrap()),
        Some(vec!["a b".to_string(), String::new(), String::new()])
    );
    assert_eq!(
        names(&Async::from_str("All").unwrap()),
        Some(vec!["All".to_string()])
    );
    assert!(Async::All.includes("anything"));
    assert!(!Async::Never.includes("anything"));
    assert!(Async::Never.is_none());
    assert!(!Async::All.is_none());
    assert!(Async::default().is_none());
    let opts = Opts::default();
    assert!(!opts.rustfmt && !opts.tracing && !opts.custom_error && opts.async_.is_none());
}

#[test]
fn host_bindings_are_written_against_the_other_side() {
    assert_eq!(abi_variant(Direction::Import), AbiVariant::GuestExport);
    assert_eq!(abi_variant(Direction::Export), AbiVariant::GuestImport);
}

fn function(result: Type, is_async: bool) -> Function {
    Function { docs: None,
        is_async,
        name: "f".to_string(),
        params: Vec::new(),
        result,
    }
}

fn errors() -> Interface {
    Interface {
        name: "x".to_string(),
        types: vec![
            TypeDef { docs: None,
                name: Some("errno".to_string()),
                kind: TypeDefKind::Enum(Enum {
                    cases: vec![EnumCase { docs: None,
                        name: "bad".to_string(),
                    }],
                }),
            },
            TypeDef { docs: None,
                name: None,
                kind: TypeDefKind::Expected(Expected {
                    ok: Type::U32,
                    err: Type::Id(0),
                }),
            },
            TypeDef { docs: None,
                name: None,
                kind: TypeDefKind::Expected(Expected {
                    ok: Type::Unit,
                    err: Type::U32,
                }),
            },
            TypeDef { docs: None,
                name: None,
                kind: TypeDefKind::Expected(Expected {
                    ok: Type::Unit,
                    err: Type::Id(1),
                }),
            },
        ],
        resources: vec![Resource { docs: None,
            name: "r".to_string(),
        }],
        functions: vec![function(Type::Unit, false), function(Type::Id(1), false)],
    }
}

#[test]
fn where_a_failure_of_the_host_goes() {
    let iface = errors();
    let foo = function(Type::Unit, false);
    let bar = function(Type::Id(2), false);
    let baz = function(Type::Id(1), false);
    let unnamed = function(Type::Id(3), false);
    let unknown = function(Type::Id(9), false);
    for f in [&foo, &bar, &baz] {
        assert!(matches!(classify_fn_ret(false, &iface, f), FunctionRet::Normal));
    }
    assert!(matches!(
        classify_fn_ret(true, &iface, &foo),
        FunctionRet::CustomToTrap
    ));
    assert!(matches!(
        classify_fn_ret(true, &iface, &bar),
        FunctionRet::CustomToTrap
    ));
    assert!(matches!(
        classify_fn_ret(true, &iface, &unnamed),
        FunctionRet::CustomToTrap
    ));
    assert!(matches!(
        classify_fn_ret(true, &iface, &unknown),
        FunctionRet::CustomToTrap
    ));
    match classify_fn_ret(true, &iface, &baz) {
        FunctionRet::CustomToError { ok, err } => {
            assert_eq!(ok, Type::U32);
            assert_eq!(err, "errno");
        }
        other => panic!("{:?}", other),
    }
}

#[test]
fn suspension_is_decided_for_the_whole_interface() {
    let mut iface = errors();
    assert!(!any_async(&iface));
    iface.functions.push(function(Type::Unit, true));
    assert!(any_async(&iface));
    iface.functions.clear();
    assert!(!any_async(&iface));
}

#[test]
fn the_functions_of_the_guest_that_manage_memory() {
    assert_eq!(NeededFunction::Realloc.cvt(), "(i32, i32, i32, i32), i32");
    assert_eq!(NeededFunction::Free.cvt(), "(i32, i32, i32), ()");
    assert_eq!(
        NeededFunction::Realloc.ty(),
        "wasmer::TypedFunction<(i32, i32, i32, i32), i32>"
    );
    assert_eq!(
        NeededFunction::Free.ty(),
        "wasmer::TypedFunction<(i32, i32, i32), ()>"
    );
}

#[test]
fn string_encodings_by_name() {
    assert_eq!(StringEncoding::from_str("utf8").unwrap(), StringEncoding::UTF8);
    assert_eq!(StringEncoding::from_str("utf16").unwrap(), StringEncoding::UTF16);
    assert_eq!(
        StringEncoding::from_str("compact-utf16").unwrap(),
        StringEncoding::CompactUTF16
    );
    let err = StringEncoding::from_str("latin1").unwrap_err();
    assert_eq!(err.name, "latin1");
    assert_eq!(err.message(), "unknown string encoding `latin1`");
    assert!(StringEncoding::from_str("UTF8").is_err());
    assert!(StringEncoding::from_str("").is_err());
    assert_eq!("utf16".parse::<StringEncoding>().unwrap(), StringEncoding::UTF16);
    assert!("utf-16".parse::<StringEncoding>().is_err());
    assert!(matches!("all".parse::<Async>(), Ok(Async::All)));
    assert_eq!(StringEncoding::default(), StringEncoding::UTF8);
    for e in [
        StringEncoding::UTF8,
        StringEncoding::UTF16,
        StringEncoding::CompactUTF16,
    ] {
        assert_eq!(StringEncoding::from_str(e.name()).unwrap(), e);
    }
}

#[test]
fn needs_of_single_instructions() {
    let none = Requirements::none();
    assert_eq!(Requirements::of(Instruction::I32FromU8, true, false), none);
    let narrowing = Requirements::of(Instruction::U8FromI32, false, false);
    assert!(narrowing.bad_int);
    assert_eq!(Requirements { bad_int: false, ..narrowing }, none);
    assert!(Requirements::of(Instruction::CharFromI32, false, false).char_from_i32);
    assert!(Requirements::of(Instruction::BoolFromI32, false, false).invalid_variant);
    assert!(Requirements::of(Instruction::EnumLift { ty: 0 }, false, false).invalid_variant);
    assert!(Requirements::of(Instruction::FlagsLift { ty: 0, words: 1 }, false, false).validate_flags);
    let before = Requirements::of(Instruction::I32Load { offset: 0 }, true, false);
    assert!(before.raw_mem && before.borrow_checker && !before.memory);
    let after = Requirements::of(Instruction::I32Load { offset: 0 }, true, true);
    assert!(after.raw_mem && !after.borrow_checker && after.memory);
    let export = Requirements::of(Instruction::I32Store8 { offset: 0 }, false, false);
    assert!(export.raw_mem && !export.borrow_checker && export.memory);
    let lent = Requirements::of(Instruction::StringLift { free: false }, true, false);
    assert!(lent.borrow_checker && !lent.copy_slice && !lent.free && !lent.memory);
    let owned = Requirements::of(Instruction::StringLift { free: true }, false, true);
    assert!(!owned.borrow_checker && owned.copy_slice && owned.free && owned.memory);
    let merged = narrowing.merge(owned).merge(before);
    assert!(merged.bad_int && merged.copy_slice && merged.borrow_checker && merged.raw_mem);
    assert_eq!(none.merge(none), none);
}

#[test]
fn source_takes_the_indentation_off_a_block() {
    let mut src = Source::new();
    src.push_str("a");
    src.push_str("b\n");
    assert_eq!(src.as_str(), "ab\n");
    src.push_str("   kept as it is\n");
    assert_eq!(src.as_str(), "ab\n   kept as it is\n");
    let mut src = Source::new();
    src.push_str("\n    def f():\n        return 1\n\n    x = 2\n  y\n");
    assert_eq!(src.as_str(), "\ndef f():\n    return 1\n\nx = 2\n\n");
    let mut src = Source::default();
    src.indent();
    src.push_str("if x:\n");
    assert_eq!(src.as_str(), "if x:\n    ");
    src.indent();
    src.push_str("\ty = 1\n\tz = 2");
    assert_eq!(src.as_str(), "if x:\n    y = 1\n        z = 2");
    src.dedent();
    src.newline();
    assert_eq!(src.as_str(), "if x:\n    y = 1\n        z = 2\n    ");
    src.dedent();
    src.push_str("");
    src.push_str("\n");
    src.push_str("\n\n");
    assert_eq!(src.as_str(), "if x:\n    y = 1\n        z = 2\n    \n\n\n");
}

#[test]
fn fields_are_trimmed_of_every_white_space() {
    for v in 0..0x3100u32 {
        let c = match char::from_u32(v) {
            Some(c) if c != ',' => c,
            _ => continue,
        };
        let field = format!("{}x{}", c, c);
        let only = Async::from_str(&field).unwrap();
        assert_eq!(names(&only), Some(vec![field.trim().to_string()]), "U+{:04X}", v);
    }
    let only = Async::from_str("a,\u{a0}b\u{2003},\u{3000}").unwrap();
    assert_eq!(
        names(&only),
        Some(vec!["a".to_string(), "b".to_string(), String::new()])
    );
}
