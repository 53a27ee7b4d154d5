use wai_bindgen::abi::{join, AbiVariant, WasmType};
use wai_bindgen::instruction::{cast, Bitcast, Instruction};
use wai_bindgen::types::{
    tag_for, Case, Enum, EnumCase, Expected, Field, Flag, Flags, FlagsRepr, Function, Int,
    Interface, Record, Resource, Tuple, Type, TypeDef, TypeDefKind, Union, UnionCase, Variant,
};

use WasmType::{F32, F64, I32, I64};

fn iface(kinds: Vec<TypeDefKind>) -> Interface {
    Interface {
        name: "test".to_string(),
        types: kinds
            .into_iter()
            .map(|kind| TypeDef { docs: None, name: None, kind })
            .collect(),
        resources: vec![Resource { docs: None,
            name: "r".to_string(),
        }],
        functions: Vec::new(),
    }
}

fn record(fields: Vec<Type>) -> TypeDefKind {
    TypeDefKind::Record(Record {
        fields: fields
            .into_iter()
            .map(|ty| Field { docs: None,
                name: "f".to_string(),
                ty,
            })
            .collect(),
    })
}

fn variant(cases: Vec<Type>) -> TypeDefKind {
    TypeDefKind::Variant(Variant {
        cases: cases
            .into_iter()
            .map(|ty| Case { docs: None,
                name: "c".to_string(),
                ty,
            })
            .collect(),
    })
}

fn flags(n: usize) -> Flags {
    Flags {
        flags: (0..n)
            .map(|_| Flag { docs: None,
                name: "f".to_string(),
            })
            .collect(),
    }
}

fn func(params: Vec<Type>, result: Type) -> Function {
    Function { docs: None,
        is_async: false,
        name: "f".to_string(),
        params: params.into_iter().map(|ty| ("p".to_string(), ty)).collect(),
        result,
    }
}

#[test]
fn primitives_flatten_to_core_values() {
    let iface = iface(vec![]);
    assert_eq!(iface.flatten(&Type::Unit), vec![]);
    for ty in [
        Type::Bool,
        Type::U8,
        Type::S8,
        Type::U16,
        Type::S16,
        Type::U32,
        Type::S32,
        Type::Char,
        Type::Handle(0),
    ] {
        assert_eq!(iface.flatten(&ty), vec![I32]);
    }
    assert_eq!(iface.flatten(&Type::U64), vec![I64]);
    assert_eq!(iface.flatten(&Type::S64), vec![I64]);
    assert_eq!(iface.flatten(&Type::Float32), vec![F32]);
    assert_eq!(iface.flatten(&Type::Float64), vec![F64]);
    assert_eq!(iface.flatten(&Type::String), vec![I32, I32]);
    assert_eq!(iface.flatten(&Type::Id(3)), vec![]);
}

#[test]
fn definitions_flatten_by_their_members() {
    let iface = iface(vec![
        record(vec![Type::U8, Type::Float64, Type::String]),
        TypeDefKind::Tuple(Tuple {
            types: vec![Type::Id(0), Type::U64],
        }),
        TypeDefKind::List(Type::Id(1)),
        TypeDefKind::Flags(flags(2)),
        TypeDefKind::Flags(flags(33)),
        TypeDefKind::Flags(flags(64)),
        TypeDefKind::Flags(flags(65)),
        TypeDefKind::Enum(Enum {
            cases: vec![EnumCase { docs: None,
                name: "a".to_string(),
            }],
        }),
        variant(vec![Type::U8, Type::Float32, Type::Id(0)]),
        TypeDefKind::Option(Type::Float64),
        TypeDefKind::Expected(Expected {
            ok: Type::U32,
            err: Type::Unit,
        }),
        TypeDefKind::Union(Union {
            cases: vec![
                UnionCase { ty: Type::Float32 },
                UnionCase { ty: Type::Float32 },
            ],
        }),
        TypeDefKind::Type(Type::Id(9)),
        variant(vec![Type::Float32, Type::U32]),
        variant(vec![Type::Float64, Type::Float32]),
    ]);
    let got: Vec<Vec<WasmType>> = (0..iface.types.len())
        .map(|i| iface.flatten(&Type::Id(i)))
        .collect();
    assert_eq!(
        got,
        vec![
            vec![I32, F64, I32, I32],
            vec![I32, F64, I32, I32, I64],
            vec![I32, I32],
            vec![I32],
            vec![I32, I32],
            vec![I32, I32],
            vec![I32, I32, I32],
            vec![I32],
            vec![I32, I32, F64, I32, I32],
            vec![I32, F64],
            vec![I32, I32],
            vec![I32, F32],
            vec![I32, F64],
            vec![I32, I32],
            vec![I32, I64],
        ]
    );
    let mut out = vec![F32];
    iface.push_wasm(&Type::Id(9), &mut out);
    assert_eq!(out, vec![F32, I32, F64]);
}

#[test]
fn join_and_cast() {
    for t in [I32, I64, F32, F64] {
        assert_eq!(join(t, t), t);
        assert_eq!(cast(t, t), Bitcast::Keep);
    }
    assert_eq!(join(I32, F32), I32);
    assert_eq!(join(F32, I32), I32);
    assert_eq!(join(I32, I64), I64);
    assert_eq!(join(F64, I32), I64);
    assert_eq!(join(F32, F64), I64);
    assert_eq!(join(F64, I64), I64);
    assert_eq!(cast(F32, I32), Bitcast::F32ToI32);
    assert_eq!(cast(I32, F32), Bitcast::I32ToF32);
    assert_eq!(cast(I32, I64), Bitcast::I32ToI64);
    assert_eq!(cast(I64, I32), Bitcast::I64ToI32);
    assert_eq!(cast(F64, I64), Bitcast::F64ToI64);
    assert_eq!(cast(I64, F64), Bitcast::I64ToF64);
    assert_eq!(cast(F32, I64), Bitcast::F32ToI64);
    assert_eq!(cast(I64, F32), Bitcast::I64ToF32);
}

#[test]
fn signatures() {
    let iface = iface(vec![record(vec![Type::U32, Type::U32])]);
    let plain = func(vec![Type::U8, Type::Float32], Type::U64);
    for variant in [AbiVariant::GuestImport, AbiVariant::GuestExport] {
        let sig = iface.wasm_signature(variant, &plain);
        assert_eq!(sig.params, vec![I32, F32]);
        assert_eq!(sig.results, vec![I64]);
        assert!(!sig.retptr && !sig.indirect_params);
    }
    let wide = func(vec![Type::Id(0)], Type::Id(0));
    let sig = iface.wasm_signature(AbiVariant::GuestImport, &wide);
    assert_eq!(sig.params, vec![I32, I32, I32]);
    assert_eq!(sig.results, vec![]);
    assert!(sig.retptr && !sig.indirect_params);
    let sig = iface.wasm_signature(AbiVariant::GuestExport, &wide);
    assert_eq!(sig.params, vec![I32, I32]);
    assert_eq!(sig.results, vec![I32]);
    assert!(sig.retptr);
    let sixteen = func(vec![Type::Id(0); 8], Type::Unit);
    let sig = iface.wasm_signature(AbiVariant::GuestExport, &sixteen);
    assert_eq!(sig.params, vec![I32; 16]);
    assert!(!sig.indirect_params && !sig.retptr);
    assert_eq!(sig.results, vec![]);
    let seventeen = func(
        vec![Type::Id(0); 8].into_iter().chain([Type::U8]).collect(),
        Type::String,
    );
    let sig = iface.wasm_signature(AbiVariant::GuestImport, &seventeen);
    assert!(sig.indirect_params && sig.retptr);
    assert_eq!(sig.params, vec![I32, I32]);
    let sig = iface.wasm_signature(AbiVariant::GuestExport, &seventeen);
    assert_eq!(sig.params, vec![I32]);
    assert_eq!(sig.results, vec![I32]);
}

#[test]
fn tags_and_flag_storage() {
    assert_eq!(tag_for(0), Int::U8);
    assert_eq!(tag_for(255), Int::U8);
    assert_eq!(tag_for(256), Int::U16);
    assert_eq!(tag_for(65535), Int::U16);
    assert_eq!(tag_for(65536), Int::U32);
    assert_eq!(flags(0).repr(), FlagsRepr::U8);
    assert_eq!(flags(8).repr(), FlagsRepr::U8);
    assert_eq!(flags(9).repr(), FlagsRepr::U16);
    assert_eq!(flags(16).repr(), FlagsRepr::U16);
    assert_eq!(flags(17).repr(), FlagsRepr::U32(1));
    assert_eq!(flags(32).repr(), FlagsRepr::U32(1));
    assert_eq!(flags(33).repr(), FlagsRepr::U32(2));
    assert_eq!(flags(96).repr(), FlagsRepr::U32(3));
    assert_eq!(flags(97).repr().count(), 4);
    assert_eq!(FlagsRepr::U8.count(), 1);
    assert_eq!(FlagsRepr::U16.count(), 1);
    assert_eq!(TypeDefKind::Option(Type::U8).tag(), Int::U8);
    assert_eq!(TypeDefKind::Option(Type::U8).case_count(), 2);
    assert_eq!(
        TypeDefKind::Option(Type::U8).members(),
        vec![Type::Unit, Type::U8]
    );
}

#[test]
fn which_types_are_valid_in_every_bit_pattern() {
    let iface = iface(vec![
        record(vec![Type::U8, Type::Float64]),
        record(vec![Type::Id(0), Type::Bool]),
        TypeDefKind::Tuple(Tuple {
            types: vec![Type::Id(0), Type::S64],
        }),
        TypeDefKind::Type(Type::Id(2)),
        TypeDefKind::List(Type::U8),
        TypeDefKind::Flags(flags(32)),
        TypeDefKind::Option(Type::U8),
        record(vec![]),
        record(vec![Type::Id(8)]),
    ]);
    for ty in [
        Type::Unit,
        Type::U8,
        Type::S8,
        Type::U16,
        Type::S16,
        Type::U32,
        Type::S32,
        Type::U64,
        Type::S64,
        Type::Float32,
        Type::Float64,
    ] {
        assert!(iface.all_bits_valid(&ty));
    }
    for ty in [Type::Bool, Type::Char, Type::String, Type::Handle(0)] {
        assert!(!iface.all_bits_valid(&ty));
    }
    let got: Vec<bool> = (0..10).map(|i| iface.all_bits_valid(&Type::Id(i))).collect();
    assert_eq!(
        got,
        vec![true, false, true, true, false, false, false, true, false, false]
    );
}

#[test]
fn an_interface_is_resolved_when_references_point_back() {
    let mut good = iface(vec![record(vec![Type::Handle(0)]), TypeDefKind::List(Type::Id(0))]);
    good.functions.push(func(vec![Type::Id(1)], Type::Id(0)));
    assert!(good.validate());
    let mut forward = good.clone();
    forward.types[0].kind = record(vec![Type::Id(1)]);
    assert!(!forward.validate());
    let mut own = good.clone();
    own.types[1].kind = TypeDefKind::List(Type::Id(1));
    assert!(!own.validate());
    let mut handle = good.clone();
    handle.types[0].kind = record(vec![Type::Handle(1)]);
    assert!(!handle.validate());
    let mut param = good.clone();
    param.functions[0].params[0].1 = Type::Id(2);
    assert!(!param.validate());
    let mut result = good.clone();
    result.functions[0].result = Type::Handle(9);
    assert!(!result.validate());
}

#[test]
fn instructions_take_and_give_fixed_numbers() {
    let cases = [
        (Instruction::GetArg { nth: 3 }, 0, 1),
        (Instruction::I32Const { val: 1 }, 0, 1),
        (Instruction::I32Load { offset: 0 }, 1, 1),
        (Instruction::I64Store { offset: 0 }, 2, 0),
        (Instruction::UnitLower, 1, 0),
        (Instruction::UnitLift, 0, 1),
        (Instruction::StringLower { realloc: true }, 1, 2),
        (Instruction::StringLift { free: true }, 2, 1),
        (Instruction::RecordLower { ty: 0, fields: 5 }, 1, 5),
        (Instruction::RecordLift { ty: 0, fields: 5 }, 5, 1),
        (Instruction::FlagsLower { ty: 0, words: 3 }, 1, 3),
        (Instruction::FlagsLift { ty: 0, words: 3 }, 3, 1),
        (
            Instruction::VariantLower {
                ty: 0,
                cases: 2,
                results: 4,
            },
            1,
            4,
        ),
        (Instruction::VariantLift { ty: 0, cases: 2 }, 1, 1),
        (
            Instruction::CallWasm {
                func: 0,
                params: 7,
                results: 1,
            },
            7,
            1,
        ),
        (Instruction::CallInterface { func: 0, params: 2 }, 2, 1),
        (Instruction::Return { func: 0, amt: 2 }, 2, 0),
        (Instruction::Malloc { size: 8, align: 4 }, 0, 1),
        (Instruction::Free { size: 8, align: 4 }, 1, 0),
        (Instruction::IterElem { element: Type::U8 }, 0, 1),
        (Instruction::VariantPayloadName, 0, 1),
    ];
    for (inst, operands, results) in cases {
        assert_eq!(inst.operands_len(), operands, "{:?}", inst);
        assert_eq!(inst.results_len(), results, "{:?}", inst);
    }
}
