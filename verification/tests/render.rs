use wai_bindgen::abi::AbiVariant;
use wai_bindgen::call::compile;
use wai_bindgen::instruction::{Bitcast, Instruction, LiftLower};
use wai_bindgen::layout::SizeAlign;
use wai_bindgen::names::{flags_type, ident_with, to_rust_ident, Names};
use wai_bindgen::options::FunctionRet;
use wai_bindgen::protocol::Step;
use wai_bindgen::render::{
    enum_lift, expression, flags_lift_text, record_lift, render, tuple_lift, CallInfo, Context,
    RenderError, Renderer,
};
use wai_bindgen::text::{decimal_of, signed_decimal_of};
use wai_bindgen::types::{
    Case, Enum, EnumCase, Field, Flag, Flags, FlagsRepr, Function, Interface, Record, Resource,
    Type, TypeDef, TypeDefKind, Variant,
};
use wai_bindgen::abi::WasmType;

fn func(name: &str, params: Vec<(&str, Type)>, result: Type) -> Function {
    Function { docs: None,
        is_async: false,
        name: name.to_string(),
        params: params
            .into_iter()
            .map(|(n, ty)| (n.to_string(), ty))
            .collect(),
        result,
    }
}

fn iface(types: Vec<(&str, TypeDefKind)>, functions: Vec<Function>) -> Interface {
    Interface {
        name: "test".to_string(),
        types: types
            .into_iter()
            .map(|(name, kind)| TypeDef { docs: None,
                name: Some(name.to_string()),
                kind,
            })
            .collect(),
        resources: vec![Resource { docs: None,
            name: "open-file".to_string(),
        }],
        functions,
    }
}

fn plain_call() -> CallInfo {
    CallInfo {
        is_async: false,
        tracing: false,
        has_handles: false,
        ret: FunctionRet::Normal,
        result_is_unit: false,
        params: Vec::new(),
    }
}

fn rendered(
    iface: &Interface,
    variant: AbiVariant,
    lift_lower: LiftLower,
    index: usize,
    args: Vec<&str>,
    call: CallInfo,
    in_import: bool,
) -> Result<String, RenderError> {
    let steps = compile(iface, variant, lift_lower, index).unwrap();
    let mut sizes = SizeAlign::default();
    sizes.fill(iface).unwrap();
    let names = Names::new(iface);
    let args: Vec<String> = args.into_iter().map(|s| s.to_string()).collect();
    let cx = Context {
        names: &names,
        iface,
        sizes: &sizes,
        args: &args,
        call: &call,
    };
    render(&cx, &steps, in_import)
}

#[test]
fn names_follow_the_case_conventions() {
    let iface = iface(
        vec![
            (
                "file-info",
                TypeDefKind::Record(Record {
                    fields: vec![
                        Field { docs: None,
                            name: "type".to_string(),
                            ty: Type::U8,
                        },
                        Field { docs: None,
                            name: "lastModified".to_string(),
                            ty: Type::U64,
                        },
                    ],
                }),
            ),
            (
                "open-mode",
                TypeDefKind::Enum(Enum {
                    cases: vec![
                        EnumCase { docs: None,
                            name: "read-only".to_string(),
                        },
                        EnumCase { docs: None,
                            name: "append".to_string(),
                        },
                    ],
                }),
            ),
            (
                "perms",
                TypeDefKind::Flags(Flags {
                    flags: vec![Flag { docs: None,
                        name: "owner-read".to_string(),
                    }],
                }),
            ),
            (
                "either",
                TypeDefKind::Variant(Variant {
                    cases: vec![Case { docs: None,
                        name: "left-side".to_string(),
                        ty: Type::Unit,
                    }],
                }),
            ),
        ],
        vec![func("read-all", vec![], Type::Unit), func("type", vec![], Type::Unit)],
    );
    let names = Names::new(&iface);
    assert_eq!(names.types, vec!["FileInfo", "OpenMode", "Perms", "Either"]);
    assert_eq!(
        names.members,
        vec![
            vec!["type_", "last_modified"],
            vec!["ReadOnly", "Append"],
            vec!["OWNER_READ"],
            vec!["LeftSide"],
        ]
    );
    assert_eq!(names.resource_tables, vec!["open_file"]);
    assert_eq!(names.resource_types, vec!["OpenFile"]);
    assert_eq!(names.methods, vec!["read_all", "type"]);
    assert_eq!(names.functions, vec!["read_all", "type_"]);
    assert_eq!(to_rust_ident("self"), "self_");
    assert_eq!(to_rust_ident("in"), "in_");
    assert_eq!(to_rust_ident("where"), "where_");
    assert_eq!(to_rust_ident("yield"), "yield_");
    assert_eq!(to_rust_ident("async"), "async_");
    assert_eq!(to_rust_ident("fooBar"), "foo_bar");
    assert_eq!(ident_with("type", "x".to_string()), "type_");
    assert_eq!(ident_with("types", "x".to_string()), "x");
    assert_eq!(flags_type(FlagsRepr::U8), "u8");
    assert_eq!(flags_type(FlagsRepr::U16), "u16");
    assert_eq!(flags_type(FlagsRepr::U32(1)), "u32");
    assert_eq!(flags_type(FlagsRepr::U32(2)), "u64");
    assert_eq!(flags_type(FlagsRepr::U32(3)), "u128");
    assert_eq!(flags_type(FlagsRepr::U32(4)), "u128");
}

#[test]
fn numbers_in_decimal() {
    assert_eq!(decimal_of(0), "0");
    assert_eq!(decimal_of(7), "7");
    assert_eq!(decimal_of(10), "10");
    assert_eq!(decimal_of(1234567890), "1234567890");
    assert_eq!(decimal_of(u64::MAX), "18446744073709551615");
    assert_eq!(signed_decimal_of(0), "0");
    assert_eq!(signed_decimal_of(-1), "-1");
    assert_eq!(signed_decimal_of(-120), "-120");
    assert_eq!(signed_decimal_of(i64::MAX), "9223372036854775807");
    assert_eq!(signed_decimal_of(i64::MIN), "-9223372036854775808");
}

#[test]
fn single_expressions() {
    let e = |inst: Instruction| expression(&inst, "x").unwrap();
    assert_eq!(e(Instruction::I32Const { val: -5 }), "-5i32");
    assert_eq!(e(Instruction::ConstZero { ty: WasmType::I64 }), "0i64");
    assert_eq!(e(Instruction::ConstZero { ty: WasmType::F32 }), "0.0f32");
    assert_eq!(e(Instruction::ConstZero { ty: WasmType::F64 }), "0.0f64");
    assert_eq!(e(Instruction::I32FromU8), "wit_bindgen_wasmer::rt::as_i32(x)");
    assert_eq!(e(Instruction::I64FromS64), "wit_bindgen_wasmer::rt::as_i64(x)");
    assert_eq!(e(Instruction::S32FromI32), "x");
    assert_eq!(e(Instruction::Float64FromF64), "x");
    assert_eq!(e(Instruction::U8FromI32), "u8::try_from(x).map_err(bad_int)?");
    assert_eq!(e(Instruction::S16FromI32), "i16::try_from(x).map_err(bad_int)?");
    assert_eq!(e(Instruction::U32FromI32), "x as u32");
    assert_eq!(e(Instruction::U64FromI64), "x as u64");
    assert_eq!(e(Instruction::CharFromI32), "char_from_i32(x)?");
    assert_eq!(e(Instruction::UnitLift), "()");
    assert_eq!(e(Instruction::I32FromBool), "match x { true => 1, false => 0 }");
    assert!(e(Instruction::BoolFromI32).starts_with("match x {\n"));
    assert!(e(Instruction::BoolFromI32).contains("_ => return Err(invalid_variant(\"bool\")),"));
    assert_eq!(e(Instruction::EnumLower { ty: 0 }), "x as i32");
    assert_eq!(e(Instruction::VariantPayloadName), "e");
    assert_eq!(e(Instruction::IterBasePointer), "base");
    let cast = |cast: Bitcast| e(Instruction::Bitcast { cast });
    assert_eq!(cast(Bitcast::Keep), "x");
    assert_eq!(cast(Bitcast::I32ToI64), "i64::from(x)");
    assert_eq!(cast(Bitcast::F32ToI32), "(x).to_bits() as i32");
    assert_eq!(cast(Bitcast::F64ToI64), "(x).to_bits() as i64");
    assert_eq!(cast(Bitcast::I64ToI32), "x as i32");
    assert_eq!(cast(Bitcast::I32ToF32), "f32::from_bits(x as u32)");
    assert_eq!(cast(Bitcast::I64ToF64), "f64::from_bits(x as u64)");
    assert_eq!(cast(Bitcast::F32ToI64), "i64::from((x).to_bits())");
    assert_eq!(cast(Bitcast::I64ToF32), "f32::from_bits(x as u32)");
    assert_eq!(expression(&Instruction::GetArg { nth: 0 }, "x"), None);
    assert_eq!(expression(&Instruction::I32Load { offset: 0 }, "x"), None);
}

#[test]
fn aggregates_as_text() {
    let v = |items: &[&str]| items.iter().map(|s| s.to_string()).collect::<Vec<_>>();
    assert_eq!(
        record_lift("Point", &v(&["x", "y"]), 2, &v(&["a", "b"])),
        "Point{x:a, y:b, }"
    );
    assert_eq!(record_lift("Empty", &v(&[]), 0, &v(&[])), "Empty{}");
    assert_eq!(tuple_lift(&v(&["a"])), "(a,)");
    assert_eq!(tuple_lift(&v(&["a", "b", "c"])), "(a, b, c)");
    assert_eq!(tuple_lift(&v(&[])), "()");
    assert_eq!(
        enum_lift("Mode", &v(&["Read", "Write"]), "d"),
        "match d {\n0 => Mode::Read,\n1 => Mode::Write,\n_ => return Err(invalid_variant(\"Mode\")),\n}"
    );
    let flags = flags_lift_text("Perms", "u64", &v(&["lo", "hi"]));
    assert!(flags.starts_with("validate_flags(\n"));
    assert!(flags.contains("0| ((lo as u64) << 0)| ((hi as u64) << 32),\n"));
    assert!(flags.contains("Perms::all().bits(),\n"));
    assert!(flags.contains("|bits| Perms { bits }\n"));
}

#[test]
fn a_scalar_function_of_the_guest() {
    let iface = iface(vec![], vec![func("f", vec![("a", Type::U32)], Type::U32)]);
    let text = rendered(
        &iface,
        AbiVariant::GuestExport,
        LiftLower::LowerArgsLiftResults,
        0,
        vec!["a"],
        plain_call(),
        false,
    );
    assert_eq!(
        text,
        Ok("let result0 = self.func_f.call(store, wit_bindgen_wasmer::rt::as_i32(a), )?;\nOk(result0 as u32)\n".to_string())
    );
    let mut call = plain_call();
    call.is_async = true;
    let text = rendered(
        &iface,
        AbiVariant::GuestExport,
        LiftLower::LowerArgsLiftResults,
        0,
        vec!["a"],
        call,
        false,
    );
    assert_eq!(
        text,
        Ok("let result0 = self.func_f.call_async(store, wit_bindgen_wasmer::rt::as_i32(a), ).await?;\nOk(result0 as u32)\n".to_string())
    );
}

#[test]
fn a_function_of_the_host_with_strings() {
    let iface = iface(vec![], vec![func("greet", vec![("who", Type::String)], Type::String)]);
    let text = rendered(
        &iface,
        AbiVariant::GuestImport,
        LiftLower::LiftArgsLowerResults,
        0,
        vec!["arg0", "arg1", "arg2"],
        plain_call(),
        true,
    )
    .unwrap();
    assert_eq!(
        text,
        "let ptr0 = arg0;\n\
         let len0 = arg1;\n\
         let param0 = _bc.slice_str(ptr0, len0)?;\n\
         let host = &mut data_mut.data;\n\
         let result = host.greet(param0, );\n\
         let vec1 = result;\n\
         let ptr1 = func_canonical_abi_realloc.call(&mut store.as_store_mut(), 0, 0, 1, vec1.len() as i32)?;\n\
         let caller_memory = unsafe { _memory.data_unchecked_mut(&store.as_store_ref()) };\n\
         caller_memory.store_many(ptr1, vec1.as_bytes())?;\n\
         caller_memory.store(arg2 + 4, wit_bindgen_wasmer::rt::as_i32(vec1.len() as i32))?;\n\
         caller_memory.store(arg2 + 0, wit_bindgen_wasmer::rt::as_i32(ptr1))?;\n\
         Ok(())\n"
    );
    let mut call = plain_call();
    call.tracing = true;
    call.has_handles = true;
    call.ret = FunctionRet::CustomToTrap;
    call.params = vec!["who".to_string()];
    let text = rendered(
        &iface,
        AbiVariant::GuestImport,
        LiftLower::LiftArgsLowerResults,
        0,
        vec!["arg0", "arg1", "arg2"],
        call,
        true,
    )
    .unwrap();
    assert!(text.contains(
        "wit_bindgen_wasmer::tracing::event!(\nwit_bindgen_wasmer::tracing::Level::TRACE,\nwho = wit_bindgen_wasmer::tracing::field::debug(&param0),\n);\n"
    ));
    assert!(text.contains(
        "let result = match host.greet(param0, ){\nOk(val) => val,\nErr(e) => return Err(host.error_to_trap(e)),\n};\ndrop(tables);\n"
    ));
    assert!(text.contains("result = wit_bindgen_wasmer::tracing::field::debug(&result),\n"));
}

#[test]
fn blocks_become_match_arms() {
    let iface = iface(
        vec![
            ("maybe", TypeDefKind::Option(Type::U8)),
            (
                "shape",
                TypeDefKind::Variant(Variant {
                    cases: vec![
                        Case { docs: None,
                            name: "none".to_string(),
                            ty: Type::Unit,
                        },
                        Case { docs: None,
                            name: "circle".to_string(),
                            ty: Type::U32,
                        },
                    ],
                }),
            ),
        ],
        vec![
            func("o", vec![("x", Type::Id(0))], Type::Unit),
            func("s", vec![], Type::Id(1)),
        ],
    );
    let text = rendered(
        &iface,
        AbiVariant::GuestExport,
        LiftLower::LowerArgsLiftResults,
        0,
        vec!["x"],
        plain_call(),
        false,
    )
    .unwrap();
    assert!(text.starts_with("let (result0_0,result0_1,) = match x {\n"));
    assert!(text.contains("Some(e) => (1i32, wit_bindgen_wasmer::rt::as_i32(e)),\n"));
    assert!(text.contains("None => {\nlet e = ();\n{\nlet () = e;\n(0i32, 0i32)\n}\n},\n"));
    assert!(text.ends_with("self.func_o.call(store, result0_0, result0_1, )?;\nOk(())\n"));
    let text = rendered(
        &iface,
        AbiVariant::GuestExport,
        LiftLower::LowerArgsLiftResults,
        1,
        vec![],
        plain_call(),
        false,
    )
    .unwrap();
    assert_eq!(
        text,
        "let result0 = self.func_s.call(store, )?;\n\
         let load1 = unsafe { _memory.data_unchecked_mut(&store.as_store_ref()) }.load::<u8>(result0 + 0)?;\n\
         Ok(match i32::from(load1) {\n\
         0 => Shape::None,\n\
         1 => Shape::Circle({\n\
         let load2 = unsafe { _memory.data_unchecked_mut(&store.as_store_ref()) }.load::<i32>(result0 + 4)?;\n\
         load2 as u32\n\
         }),\n\
         _ => return Err(invalid_variant(\"Shape\")),\n\
         })\n"
    );
}

#[test]
fn what_the_host_bindings_have_no_code_for() {
    let iface = iface(vec![], vec![func("many", vec![("a", Type::U64); 17], Type::Unit)]);
    let text = rendered(
        &iface,
        AbiVariant::GuestImport,
        LiftLower::LowerArgsLiftResults,
        0,
        vec!["a"; 17],
        plain_call(),
        false,
    );
    assert_eq!(text, Err(RenderError::Unsupported));
    let text = rendered(
        &iface,
        AbiVariant::GuestExport,
        LiftLower::LiftArgsLowerResults,
        0,
        vec!["arg0"],
        plain_call(),
        true,
    );
    assert_eq!(text, Err(RenderError::Unsupported));
    let strings = iface_with_string();
    let text = rendered(
        &strings,
        AbiVariant::GuestImport,
        LiftLower::LowerArgsLiftResults,
        0,
        vec!["s"],
        plain_call(),
        false,
    );
    assert_eq!(text, Err(RenderError::Unsupported));
}

fn iface_with_string() -> Interface {
    iface(vec![], vec![func("p", vec![("s", Type::String)], Type::Unit)])
}

#[test]
fn block_text_depends_on_statements_and_value() {
    let mut state = Renderer::new(false);
    state.push_str("outer;\n");
    state.push_block();
    state.finish_block(&vec![]);
    state.push_block();
    state.finish_block(&vec!["a".to_string()]);
    state.push_block();
    state.finish_block(&vec!["a".to_string(), "b".to_string()]);
    state.push_block();
    state.push_str("stmt;\n");
    state.finish_block(&vec![]);
    state.push_block();
    state.push_str("stmt;\n");
    state.finish_block(&vec!["a".to_string()]);
    assert_eq!(
        state.blocks,
        vec!["()", "a", "(a, b)", "{\nstmt;\n}", "{\nstmt;\na\n}"]
    );
    assert_eq!(state.src, "outer;\n");
    assert!(state.block_storage.is_empty());
    state.finish_block(&vec![]);
    assert_eq!(state.blocks.len(), 5);
    assert_eq!(state.take_blocks(2), vec!["{\nstmt;\n}", "{\nstmt;\na\n}"]);
    assert_eq!(state.pop_block(), "(a, b)");
    assert_eq!(state.take_blocks(9), vec!["()", "a"]);
    assert_eq!(state.pop_block(), "");
    let steps = vec![Step::ReturnPointer { size: 1, align: 1 }];
    let iface = iface_with_string();
    let sizes = SizeAlign::default();
    let names = Names::new(&iface);
    let args = Vec::new();
    let call = plain_call();
    let cx = Context {
        names: &names,
        iface: &iface,
        sizes: &sizes,
        args: &args,
        call: &call,
    };
    assert_eq!(render(&cx, &steps, false), Err(RenderError::Unsupported));
    assert_eq!(render(&cx, &Vec::new(), false), Ok(String::new()));
}

#[test]
fn memory_is_reached_by_where_the_function_stands() {
    let mut host = Renderer::new(true);
    assert_eq!(host.memory_src(), "_bc");
    assert_eq!(host.src, "");
    host.after_call = true;
    assert_eq!(host.memory_src(), "caller_memory");
    assert_eq!(
        host.src,
        "let caller_memory = unsafe { _memory.data_unchecked_mut(&store.as_store_ref()) };\n"
    );
    assert_eq!(host.memory_src(), "caller_memory");
    assert_eq!(host.src.matches("let caller_memory").count(), 1);
    host.call_intrinsic("canonical_abi_realloc", "1, 2");
    assert!(host.src.ends_with("func_canonical_abi_realloc.call(1, 2)?;\n"));
    assert_eq!(host.memory_src(), "caller_memory");
    assert_eq!(host.src.matches("let caller_memory").count(), 2);
    let mut guest = Renderer::new(false);
    assert_eq!(
        guest.memory_src(),
        "unsafe { _memory.data_unchecked_mut(&store.as_store_ref()) }"
    );
    assert_eq!(guest.next_tmp(), "0");
    assert_eq!(guest.next_tmp(), "1");
    assert_eq!(guest.let_results(0), Vec::<String>::new());
    assert_eq!(guest.let_results(1), vec!["result2"]);
    assert_eq!(guest.let_results(3), vec!["result3_0", "result3_1", "result3_2"]);
    assert_eq!(guest.src, "let result2 = let (result3_0,result3_1,result3_2,) = ");
    assert_eq!(guest.tuple_lower(2, "pair"), vec!["t4_0", "t4_1"]);
    assert!(guest.src.ends_with("let (t4_0, t4_1, ) = pair;\n"));
    assert_eq!(
        guest.record_lower("P", &vec!["x".to_string(), "y".to_string()], 2, "p"),
        vec!["x5", "y5"]
    );
    assert!(guest.src.ends_with("let P{ x:x5, y:y5, } = p;\n"));
    assert_eq!(
        guest.flags_lower(2, "f"),
        vec!["(flags6.bits >> 0) as i32", "(flags6.bits >> 32) as i32"]
    );
    assert!(guest.src.ends_with("let flags6 = f;\n"));
}
