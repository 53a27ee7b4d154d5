use wai_bindgen::abi::{AbiVariant, WasmType};
use wai_bindgen::call::{compile, CompileError};
use wai_bindgen::compile::Setup;
use wai_bindgen::instruction::{Bitcast, Instruction, LiftLower};
use wai_bindgen::layout::{LayoutError, SizeAlign};
use wai_bindgen::protocol::{Operand, Step};
use wai_bindgen::requirements::Requirements;
use wai_bindgen::types::{
    Case, Enum, EnumCase, Expected, Field, Flag, Flags, Function, Interface, Record, Resource,
    Tuple, Type, TypeDef, TypeDefKind, Union, UnionCase, Variant,
};

fn op(step: usize, index: usize) -> Operand {
    Operand { step, index }
}

fn emit(inst: Instruction, operands: Vec<Operand>) -> Step {
    Step::Emit { inst, operands }
}

fn func(name: &str, params: Vec<Type>, result: Type) -> Function {
    Function { docs: None,
        is_async: false,
        name: name.to_string(),
        params: params
            .into_iter()
            .enumerate()
            .map(|(i, ty)| (format!("p{}", i), ty))
            .collect(),
        result,
    }
}

fn iface(kinds: Vec<TypeDefKind>, functions: Vec<Function>) -> Interface {
    Interface {
        name: "test".to_string(),
        types: kinds
            .into_iter()
            .enumerate()
            .map(|(i, kind)| TypeDef { docs: None,
                name: Some(format!("t{}", i)),
                kind,
            })
            .collect(),
        resources: vec![Resource { docs: None,
            name: "res".to_string(),
        }],
        functions,
    }
}

fn record(fields: Vec<Type>) -> TypeDefKind {
    TypeDefKind::Record(Record {
        fields: fields
            .into_iter()
            .enumerate()
            .map(|(i, ty)| Field { docs: None,
                name: format!("f{}", i),
                ty,
            })
            .collect(),
    })
}

fn variant(cases: Vec<Type>) -> TypeDefKind {
    TypeDefKind::Variant(Variant {
        cases: cases
            .into_iter()
            .enumerate()
            .map(|(i, ty)| Case { docs: None,
                name: format!("c{}", i),
                ty,
            })
            .collect(),
    })
}

fn flags(n: usize) -> TypeDefKind {
    TypeDefKind::Flags(Flags {
        flags: (0..n)
            .map(|i| Flag { docs: None,
                name: format!("f{}", i),
            })
            .collect(),
    })
}

#[test]
fn caller_protocol_of_a_scalar_function() {
    let iface = iface(vec![], vec![func("f", vec![Type::U32], Type::U32)]);
    let steps = compile(
        &iface,
        AbiVariant::GuestExport,
        LiftLower::LowerArgsLiftResults,
        0,
    )
    .unwrap();
    assert_eq!(
        steps,
        vec![
            emit(Instruction::GetArg { nth: 0 }, vec![]),
            emit(Instruction::I32FromU32, vec![op(0, 0)]),
            emit(
                Instruction::CallWasm {
                    func: 0,
                    params: 1,
                    results: 1
                },
                vec![op(1, 0)]
            ),
            emit(Instruction::U32FromI32, vec![op(2, 0)]),
            emit(Instruction::Return { func: 0, amt: 1 }, vec![op(3, 0)]),
        ]
    );
    assert_eq!(Requirements::of_protocol(&steps, false), Requirements::none());
}

#[test]
fn callee_protocol_with_strings_uses_return_pointer() {
    let iface = iface(vec![], vec![func("g", vec![Type::String], Type::String)]);
    let steps = compile(
        &iface,
        AbiVariant::GuestImport,
        LiftLower::LiftArgsLowerResults,
        0,
    )
    .unwrap();
    assert_eq!(
        steps,
        vec![
            emit(Instruction::GetArg { nth: 0 }, vec![]),
            emit(Instruction::GetArg { nth: 1 }, vec![]),
            emit(Instruction::StringLift { free: false }, vec![op(0, 0), op(1, 0)]),
            emit(
                Instruction::CallInterface { func: 0, params: 1 },
                vec![op(2, 0)]
            ),
            emit(Instruction::GetArg { nth: 2 }, vec![]),
            emit(Instruction::StringLower { realloc: true }, vec![op(3, 0)]),
            emit(Instruction::I32Store { offset: 4 }, vec![op(5, 1), op(4, 0)]),
            emit(Instruction::I32Store { offset: 0 }, vec![op(5, 0), op(4, 0)]),
            emit(Instruction::Return { func: 0, amt: 0 }, vec![]),
        ]
    );
    let needs = Requirements::of_protocol(&steps, true);
    assert!(needs.borrow_checker);
    assert!(needs.memory);
    assert!(needs.raw_mem);
    assert!(needs.realloc);
    assert!(!needs.free);
    assert!(!needs.copy_slice);
    assert!(!needs.bad_int);
}

#[test]
fn caller_reads_a_wide_result_from_memory() {
    let iface = iface(
        vec![record(vec![Type::U8, Type::U32])],
        vec![func("r", vec![], Type::Id(0))],
    );
    let export = compile(
        &iface,
        AbiVariant::GuestExport,
        LiftLower::LowerArgsLiftResults,
        0,
    )
    .unwrap();
    assert_eq!(
        export,
        vec![
            emit(
                Instruction::CallWasm {
                    func: 0,
                    params: 0,
                    results: 1
                },
                vec![]
            ),
            emit(Instruction::I32Load8U { offset: 0 }, vec![op(0, 0)]),
            emit(Instruction::U8FromI32, vec![op(1, 0)]),
            emit(Instruction::I32Load { offset: 4 }, vec![op(0, 0)]),
            emit(Instruction::U32FromI32, vec![op(3, 0)]),
            emit(
                Instruction::RecordLift { ty: 0, fields: 2 },
                vec![op(2, 0), op(4, 0)]
            ),
            emit(Instruction::Return { func: 0, amt: 1 }, vec![op(5, 0)]),
        ]
    );
    let needs = Requirements::of_protocol(&export, false);
    assert!(needs.raw_mem && needs.memory && needs.bad_int);
    assert!(!needs.borrow_checker);
    let import = compile(
        &iface,
        AbiVariant::GuestImport,
        LiftLower::LowerArgsLiftResults,
        0,
    )
    .unwrap();
    assert_eq!(import[0], Step::ReturnPointer { size: 8, align: 4 });
    assert_eq!(
        import[1],
        emit(
            Instruction::CallWasm {
                func: 0,
                params: 1,
                results: 0
            },
            vec![op(0, 0)]
        )
    );
    assert_eq!(
        import[2],
        emit(Instruction::I32Load8U { offset: 0 }, vec![op(0, 0)])
    );
}

#[test]
fn option_is_lowered_by_one_block_per_case() {
    let iface = iface(vec![TypeDefKind::Option(Type::U8)], vec![]);
    let mut sizes = SizeAlign::default();
    sizes.fill(&iface).unwrap();
    let setup = Setup {
        iface: &iface,
        sizes: &sizes,
        variant: AbiVariant::GuestExport,
        lift_lower: LiftLower::LowerArgsLiftResults,
    };
    let mut steps = Vec::new();
    let results = setup.lower(Type::Id(0), op(100, 0), 1, &mut steps);
    assert_eq!(results, vec![op(11, 0), op(11, 1)]);
    assert_eq!(
        steps,
        vec![
            Step::PushBlock,
            emit(Instruction::VariantPayloadName, vec![]),
            emit(Instruction::I32Const { val: 0 }, vec![]),
            emit(Instruction::UnitLower, vec![op(1, 0)]),
            emit(Instruction::ConstZero { ty: WasmType::I32 }, vec![]),
            Step::FinishBlock {
                operands: vec![op(2, 0), op(4, 0)]
            },
            Step::PushBlock,
            emit(Instruction::VariantPayloadName, vec![]),
            emit(Instruction::I32Const { val: 1 }, vec![]),
            emit(Instruction::I32FromU8, vec![op(7, 0)]),
            Step::FinishBlock {
                operands: vec![op(8, 0), op(9, 0)]
            },
            emit(
                Instruction::OptionLower { ty: 0, results: 2 },
                vec![op(100, 0)]
            ),
        ]
    );
}

#[test]
fn variant_cases_are_cast_to_the_joined_types() {
    let iface = iface(
        vec![variant(vec![Type::Float32, Type::U64, Type::Unit])],
        vec![],
    );
    assert_eq!(
        iface.flatten(&Type::Id(0)),
        vec![WasmType::I32, WasmType::I64]
    );
    let mut sizes = SizeAlign::default();
    sizes.fill(&iface).unwrap();
    let setup = Setup {
        iface: &iface,
        sizes: &sizes,
        variant: AbiVariant::GuestExport,
        lift_lower: LiftLower::LowerArgsLiftResults,
    };
    let mut steps = Vec::new();
    setup.lower(Type::Id(0), op(9, 9), 1, &mut steps);
    assert_eq!(
        &steps[..6],
        &[
            Step::PushBlock,
            emit(Instruction::VariantPayloadName, vec![]),
            emit(Instruction::I32Const { val: 0 }, vec![]),
            emit(Instruction::F32FromFloat32, vec![op(1, 0)]),
            emit(
                Instruction::Bitcast {
                    cast: Bitcast::F32ToI64
                },
                vec![op(3, 0)]
            ),
            Step::FinishBlock {
                operands: vec![op(2, 0), op(4, 0)]
            },
        ]
    );
    let mut lifted = Vec::new();
    let value = setup.lift(Type::Id(0), vec![op(50, 0), op(50, 1)], 1, &mut lifted);
    assert_eq!(
        &lifted[..4],
        &[
            Step::PushBlock,
            emit(
                Instruction::Bitcast {
                    cast: Bitcast::I64ToF32
                },
                vec![op(50, 1)]
            ),
            emit(Instruction::Float32FromF32, vec![op(1, 0)]),
            Step::FinishBlock {
                operands: vec![op(2, 0)]
            },
        ]
    );
    assert_eq!(
        lifted.last().unwrap(),
        &emit(
            Instruction::VariantLift { ty: 0, cases: 3 },
            vec![op(50, 0)]
        )
    );
    assert_eq!(value, op(lifted.len() - 1, 0));
}

#[test]
fn lists_are_copied_or_walked() {
    let iface = iface(
        vec![
            TypeDefKind::List(Type::U32),
            TypeDefKind::List(Type::Char),
        ],
        vec![],
    );
    let mut sizes = SizeAlign::default();
    sizes.fill(&iface).unwrap();
    let setup = Setup {
        iface: &iface,
        sizes: &sizes,
        variant: AbiVariant::GuestExport,
        lift_lower: LiftLower::LowerArgsLiftResults,
    };
    let mut steps = Vec::new();
    let value = setup.lift(Type::Id(0), vec![op(7, 0), op(7, 1)], 2, &mut steps);
    assert_eq!(value, op(0, 0));
    assert_eq!(
        steps,
        vec![emit(
            Instruction::ListCanonLift {
                element: Type::U32,
                free: true,
                ty: 0
            },
            vec![op(7, 0), op(7, 1)]
        )]
    );
    let mut steps = Vec::new();
    let value = setup.lift(Type::Id(1), vec![op(7, 0), op(7, 1)], 2, &mut steps);
    assert_eq!(value, op(5, 0));
    assert_eq!(
        steps,
        vec![
            Step::PushBlock,
            emit(Instruction::IterBasePointer, vec![]),
            emit(Instruction::I32Load { offset: 0 }, vec![op(1, 0)]),
            emit(Instruction::CharFromI32, vec![op(2, 0)]),
            Step::FinishBlock {
                operands: vec![op(3, 0)]
            },
            emit(
                Instruction::ListLift {
                    element: Type::Char,
                    free: true,
                    ty: 1
                },
                vec![op(7, 0), op(7, 1)]
            ),
        ]
    );
    let mut steps = Vec::new();
    let lowered = setup.lower(Type::Id(1), op(3, 3), 2, &mut steps);
    assert_eq!(lowered, vec![op(6, 0), op(6, 1)]);
    assert_eq!(
        steps,
        vec![
            Step::PushBlock,
            emit(Instruction::IterElem { element: Type::Char }, vec![]),
            emit(Instruction::IterBasePointer, vec![]),
            emit(Instruction::I32FromChar, vec![op(1, 0)]),
            emit(Instruction::I32Store { offset: 0 }, vec![op(3, 0), op(2, 0)]),
            Step::FinishBlock { operands: vec![] },
            emit(
                Instruction::ListLower {
                    element: Type::Char,
                    realloc: true
                },
                vec![op(3, 3)]
            ),
        ]
    );
}

#[test]
fn handles_are_lent_one_way_and_given_the_other() {
    let iface = iface(vec![], vec![func("h", vec![Type::Handle(0)], Type::Handle(0))]);
    let caller = compile(
        &iface,
        AbiVariant::GuestExport,
        LiftLower::LowerArgsLiftResults,
        0,
    )
    .unwrap();
    assert_eq!(
        caller[1],
        emit(Instruction::I32FromBorrowedHandle { ty: 0 }, vec![op(0, 0)])
    );
    assert_eq!(
        caller[3],
        emit(Instruction::HandleOwnedFromI32 { ty: 0 }, vec![op(2, 0)])
    );
    let callee = compile(
        &iface,
        AbiVariant::GuestImport,
        LiftLower::LiftArgsLowerResults,
        0,
    )
    .unwrap();
    assert_eq!(
        callee[1],
        emit(Instruction::HandleBorrowedFromI32 { ty: 0 }, vec![op(0, 0)])
    );
    assert_eq!(
        callee[3],
        emit(Instruction::I32FromOwnedHandle { ty: 0 }, vec![op(2, 0)])
    );
}

#[test]
fn many_arguments_go_through_memory() {
    let iface = iface(vec![], vec![func("many", vec![Type::U64; 20], Type::Unit)]);
    let sig = iface.wasm_signature(AbiVariant::GuestImport, &iface.functions[0]);
    assert!(sig.indirect_params);
    assert_eq!(sig.params, vec![WasmType::I32]);
    let callee = compile(
        &iface,
        AbiVariant::GuestImport,
        LiftLower::LiftArgsLowerResults,
        0,
    )
    .unwrap();
    assert_eq!(callee[0], emit(Instruction::GetArg { nth: 0 }, vec![]));
    for i in 0..20 {
        assert_eq!(
            callee[1 + 2 * i],
            emit(
                Instruction::I64Load {
                    offset: 8 * i as i32
                },
                vec![op(0, 0)]
            )
        );
        assert_eq!(
            callee[2 + 2 * i],
            emit(Instruction::U64FromI64, vec![op(1 + 2 * i, 0)])
        );
    }
    assert_eq!(
        callee[41],
        emit(
            Instruction::CallInterface {
                func: 0,
                params: 20
            },
            (0..20).map(|i| op(2 + 2 * i, 0)).collect()
        )
    );
    let exported = compile(
        &iface,
        AbiVariant::GuestExport,
        LiftLower::LiftArgsLowerResults,
        0,
    )
    .unwrap();
    assert_eq!(exported[42], emit(Instruction::GetArg { nth: 0 }, vec![]));
    assert_eq!(
        exported[43],
        emit(
            Instruction::Free {
                size: 160,
                align: 8
            },
            vec![op(42, 0)]
        )
    );
    let caller = compile(
        &iface,
        AbiVariant::GuestExport,
        LiftLower::LowerArgsLiftResults,
        0,
    )
    .unwrap();
    assert_eq!(
        caller[0],
        emit(
            Instruction::Malloc {
                size: 160,
                align: 8
            },
            vec![]
        )
    );
    assert_eq!(caller[1], emit(Instruction::GetArg { nth: 0 }, vec![]));
    assert_eq!(caller[2], emit(Instruction::I64FromU64, vec![op(1, 0)]));
    assert_eq!(
        caller[3],
        emit(Instruction::I64Store { offset: 0 }, vec![op(2, 0), op(0, 0)])
    );
    assert!(Requirements::of_protocol(&caller, false).realloc);
    assert!(Requirements::of_protocol(&exported, false).free);
}

fn sample() -> Interface {
    let kinds = vec![
        record(vec![Type::U8, Type::String, Type::U64]),
        TypeDefKind::Tuple(Tuple {
            types: vec![Type::Id(0), Type::Bool, Type::Char],
        }),
        flags(3),
        flags(40),
        TypeDefKind::Enum(Enum {
            cases: (0..300)
                .map(|i| EnumCase { docs: None,
                    name: format!("e{}", i),
                })
                .collect(),
        }),
        variant(vec![Type::Unit, Type::Float32, Type::Id(1), Type::S64]),
        TypeDefKind::Union(Union {
            cases: vec![
                UnionCase { ty: Type::Float64 },
                UnionCase { ty: Type::Id(2) },
            ],
        }),
        TypeDefKind::Option(Type::Id(5)),
        TypeDefKind::Expected(Expected {
            ok: Type::Id(7),
            err: Type::Id(4),
        }),
        TypeDefKind::List(Type::Id(8)),
        TypeDefKind::List(Type::U16),
        TypeDefKind::Type(Type::Id(9)),
        record(vec![Type::Id(11), Type::Handle(0), Type::Id(3), Type::S8, Type::S16]),
    ];
    let n = kinds.len();
    let mut functions = Vec::new();
    for i in 0..n {
        functions.push(func(&format!("in{}", i), vec![Type::Id(i)], Type::Unit));
        functions.push(func(&format!("out{}", i), vec![], Type::Id(i)));
        functions.push(func(
            &format!("both{}", i),
            vec![Type::Id(i), Type::U32, Type::Id((i + 3) % n)],
            Type::Id((i + 5) % n),
        ));
    }
    functions.push(func("wide", vec![Type::Id(12); 9], Type::Id(12)));
    iface(kinds, functions)
}

fn results_of(step: &Step) -> usize {
    match step {
        Step::Emit { inst, .. } => inst.results_len(),
        Step::ReturnPointer { .. } => 1,
        _ => 0,
    }
}

fn check_protocol(steps: &[Step]) {
    let mut depth = 0usize;
    for (at, step) in steps.iter().enumerate() {
        let operands: &[Operand] = match step {
            Step::Emit { inst, operands } => {
                assert_eq!(operands.len(), inst.operands_len(), "{:?}", inst);
                operands
            }
            Step::PushBlock => {
                depth += 1;
                &[]
            }
            Step::FinishBlock { operands } => {
                assert!(depth > 0);
                depth -= 1;
                operands
            }
            Step::ReturnPointer { .. } => &[],
        };
        for operand in operands {
            assert!(operand.step < at);
            assert!(operand.index < results_of(&steps[operand.step]));
        }
    }
    assert_eq!(depth, 0);
    match steps.last() {
        Some(Step::Emit {
            inst: Instruction::Return { .. },
            ..
        }) => {}
        other => panic!("{:?}", other),
    }
}

#[test]
fn every_protocol_is_well_formed() {
    let iface = sample();
    assert!(iface.validate());
    for index in 0..iface.functions.len() {
        for variant in [AbiVariant::GuestImport, AbiVariant::GuestExport] {
            for lift_lower in [
                LiftLower::LowerArgsLiftResults,
                LiftLower::LiftArgsLowerResults,
            ] {
                let steps = compile(&iface, variant, lift_lower, index).unwrap();
                check_protocol(&steps);
                let again = compile(&iface, variant, lift_lower, index).unwrap();
                assert_eq!(steps, again);
                let sig = iface.wasm_signature(variant, &iface.functions[index]);
                let calls: Vec<&Step> = steps
                    .iter()
                    .filter(|s| {
                        matches!(
                            s,
                            Step::Emit {
                                inst: Instruction::CallWasm { .. }
                                    | Instruction::CallInterface { .. },
                                ..
                            }
                        )
                    })
                    .collect();
                assert_eq!(calls.len(), 1);
                if let Step::Emit {
                    inst: Instruction::CallWasm {
                        params, results, ..
                    },
                    ..
                } = calls[0]
                {
                    assert_eq!(*params, sig.params.len());
                    assert_eq!(*results, sig.results.len());
                }
                if let Some(Step::Emit {
                    inst: Instruction::Return { amt, .. },
                    ..
                }) = steps.last()
                {
                    match lift_lower {
                        LiftLower::LowerArgsLiftResults => assert_eq!(*amt, 1),
                        LiftLower::LiftArgsLowerResults => assert_eq!(*amt, sig.results.len()),
                    }
                }
            }
        }
    }
}

#[test]
fn lowering_gives_as_many_values_as_the_type_flattens_to() {
    let iface = sample();
    let mut sizes = SizeAlign::default();
    sizes.fill(&iface).unwrap();
    let setup = Setup {
        iface: &iface,
        sizes: &sizes,
        variant: AbiVariant::GuestExport,
        lift_lower: LiftLower::LowerArgsLiftResults,
    };
    for i in 0..iface.types.len() {
        let mut steps = Vec::new();
        let lowered = setup.lower(Type::Id(i), op(0, 0), iface.types.len(), &mut steps);
        assert_eq!(lowered.len(), iface.flatten(&Type::Id(i)).len());
    }
}

#[test]
fn what_has_no_protocol() {
    let plain = iface(vec![], vec![func("f", vec![], Type::Unit)]);
    assert_eq!(
        compile(
            &plain,
            AbiVariant::GuestImport,
            LiftLower::LowerArgsLiftResults,
            1
        ),
        Err(CompileError::NoSuchFunction)
    );
    let unresolved = iface(vec![], vec![func("f", vec![Type::Id(0)], Type::Unit)]);
    assert_eq!(
        compile(
            &unresolved,
            AbiVariant::GuestImport,
            LiftLower::LowerArgsLiftResults,
            0
        ),
        Err(CompileError::Unresolved)
    );
    let handle = iface(vec![], vec![func("f", vec![Type::Handle(1)], Type::Unit)]);
    assert_eq!(
        compile(
            &handle,
            AbiVariant::GuestImport,
            LiftLower::LowerArgsLiftResults,
            0
        ),
        Err(CompileError::Unresolved)
    );
    let cyclic = iface(
        vec![record(vec![Type::Id(0)])],
        vec![func("f", vec![], Type::Unit)],
    );
    assert_eq!(
        compile(
            &cyclic,
            AbiVariant::GuestImport,
            LiftLower::LowerArgsLiftResults,
            0
        ),
        Err(CompileError::Unresolved)
    );
    let mut kinds = vec![record(vec![Type::U64, Type::U64])];
    for i in 0..27 {
        kinds.push(TypeDefKind::Tuple(Tuple {
            types: vec![Type::Id(i), Type::Id(i)],
        }));
    }
    let large = iface(kinds, vec![func("f", vec![], Type::Unit)]);
    assert_eq!(
        compile(
            &large,
            AbiVariant::GuestImport,
            LiftLower::LowerArgsLiftResults,
            0
        ),
        Err(CompileError::Layout(LayoutError::TooLarge(27)))
    );
    let mut suspended = func("f", vec![], Type::Unit);
    suspended.is_async = true;
    let suspending = iface(vec![], vec![suspended]);
    assert_eq!(
        compile(
            &suspending,
            AbiVariant::GuestImport,
            LiftLower::LowerArgsLiftResults,
            0
        ),
        Err(CompileError::Async)
    );
}
