use wai_bindgen::layout::{align_to, int_size_align, LayoutError, SizeAlign, MAX_SIZE};
use wai_bindgen::types::Int;
use wai_bindgen::types::{
    Case, Enum, EnumCase, Expected, Field, Flag, Flags, Interface, Record, Tuple, Type, TypeDef,
    TypeDefKind, Variant,
};

fn iface(kinds: Vec<TypeDefKind>) -> Interface {
    Interface {
        name: "test".to_string(),
        types: kinds
            .into_iter()
            .map(|kind| TypeDef { docs: None, name: None, kind })
            .collect(),
        resources: Vec::new(),
        functions: Vec::new(),
    }
}

fn record(fields: Vec<Type>) -> TypeDefKind {
    TypeDefKind::Record(Record {
        fields: fields
            .into_iter()
            .enumerate()
            .map(|(i, ty)| Field { docs: None,
                name: format!("f{}", i),
                ty,
            })
            .collect(),
    })
}

fn filled(iface: &Interface) -> SizeAlign {
    let mut sizes = SizeAlign::default();
    assert_eq!(sizes.fill(iface), Ok(()));
    sizes
}

#[test]
fn record_layout_scenario() {
    let iface = iface(vec![record(vec![Type::U32, Type::String])]);
    let sizes = filled(&iface);
    assert_eq!(sizes.align(&Type::Id(0)), 4);
    assert_eq!(sizes.size(&Type::Id(0)), 12);
    assert_eq!(
        sizes.field_offsets(&iface, &vec![Type::U32, Type::String]),
        Some(vec![0, 4])
    );
}

#[test]
fn primitive_layouts() {
    let sizes = SizeAlign::default();
    let cases = [
        (Type::Unit, 0, 1),
        (Type::Bool, 1, 1),
        (Type::U8, 1, 1),
        (Type::S8, 1, 1),
        (Type::U16, 2, 2),
        (Type::S16, 2, 2),
        (Type::U32, 4, 4),
        (Type::S32, 4, 4),
        (Type::Float32, 4, 4),
        (Type::Char, 4, 4),
        (Type::Handle(0), 4, 4),
        (Type::U64, 8, 8),
        (Type::S64, 8, 8),
        (Type::Float64, 8, 8),
        (Type::String, 8, 4),
    ];
    for (ty, size, align) in cases {
        assert_eq!(sizes.size(&ty), size);
        assert_eq!(sizes.align(&ty), align);
    }
}

#[test]
fn record_pads_fields_and_rounds_up() {
    let iface = iface(vec![
        record(vec![Type::U8, Type::U64, Type::U16]),
        record(vec![Type::Unit]),
        record(vec![]),
        TypeDefKind::Tuple(Tuple {
            types: vec![Type::Id(0), Type::U8],
        }),
    ]);
    let sizes = filled(&iface);
    assert_eq!((sizes.size(&Type::Id(0)), sizes.align(&Type::Id(0))), (24, 8));
    assert_eq!((sizes.size(&Type::Id(1)), sizes.align(&Type::Id(1))), (0, 1));
    assert_eq!((sizes.size(&Type::Id(2)), sizes.align(&Type::Id(2))), (0, 1));
    assert_eq!((sizes.size(&Type::Id(3)), sizes.align(&Type::Id(3))), (32, 8));
    assert_eq!(
        sizes.field_offsets(&iface, &vec![Type::U8, Type::U64, Type::U16]),
        Some(vec![0, 8, 16])
    );
    assert_eq!(sizes.record(&iface, &vec![Type::U8, Type::U64, Type::U16]), Some((24, 8)));
}

#[test]
fn variant_family_layouts() {
    let flags = |n: usize| {
        TypeDefKind::Flags(Flags {
            flags: (0..n)
                .map(|i| Flag { docs: None,
                    name: format!("f{}", i),
                })
                .collect(),
        })
    };
    let enum_of = |n: usize| {
        TypeDefKind::Enum(Enum {
            cases: (0..n)
                .map(|i| EnumCase { docs: None,
                    name: format!("c{}", i),
                })
                .collect(),
        })
    };
    let iface = iface(vec![
        TypeDefKind::Option(Type::U64),
        TypeDefKind::Expected(Expected {
            ok: Type::U32,
            err: Type::Unit,
        }),
        TypeDefKind::Variant(Variant {
            cases: vec![
                Case { docs: None,
                    name: "a".to_string(),
                    ty: Type::U8,
                },
                Case { docs: None,
                    name: "b".to_string(),
                    ty: Type::String,
                },
            ],
        }),
        enum_of(3),
        enum_of(256),
        flags(0),
        flags(8),
        flags(9),
        flags(17),
        flags(65),
        TypeDefKind::List(Type::U64),
        TypeDefKind::Type(Type::Id(0)),
    ]);
    let sizes = filled(&iface);
    let got: Vec<(usize, usize)> = (0..iface.types.len())
        .map(|i| (sizes.size(&Type::Id(i)), sizes.align(&Type::Id(i))))
        .collect();
    assert_eq!(
        got,
        vec![
            (16, 8),
            (8, 4),
            (12, 4),
            (1, 1),
            (2, 2),
            (1, 1),
            (1, 1),
            (2, 2),
            (4, 4),
            (12, 4),
            (8, 4),
            (16, 8),
        ]
    );
    assert_eq!(
        sizes.payload_offset(&iface, iface.types[0].kind.tag(), &iface.types[0].kind.members()),
        8
    );
    for (size, align) in got {
        assert_eq!(size % align, 0);
        assert!(align.is_power_of_two());
    }
}

#[test]
fn layout_is_recomputed_to_the_same_values() {
    let iface = iface(vec![record(vec![Type::U16, Type::U32]), TypeDefKind::Option(Type::Id(0))]);
    let first = filled(&iface);
    let mut second = filled(&iface);
    assert_eq!(first.map, second.map);
    assert_eq!(second.fill(&iface), Ok(()));
    assert_eq!(first.map, second.map);
    assert_eq!(first.map, vec![(8, 4), (12, 4)]);
}

#[test]
fn layout_rejects_cycles_and_unknown_types() {
    let cyclic = iface(vec![record(vec![Type::U8]), record(vec![Type::Id(1)])]);
    let mut sizes = SizeAlign::default();
    assert_eq!(sizes.fill(&cyclic), Err(LayoutError::Unresolved(1)));
    assert!(sizes.map.is_empty());
    let forward = iface(vec![TypeDefKind::Option(Type::Id(5))]);
    assert_eq!(sizes.fill(&forward), Err(LayoutError::Unresolved(0)));
    let through_list = iface(vec![TypeDefKind::List(Type::Id(1)), record(vec![Type::Id(0)])]);
    assert_eq!(sizes.fill(&through_list), Ok(()));
    assert_eq!(sizes.map, vec![(8, 4), (8, 4)]);
}

#[test]
fn layout_rejects_what_is_too_large() {
    let mut kinds = vec![record(vec![Type::U64, Type::U64])];
    for i in 0..26 {
        kinds.push(record(vec![Type::Id(i), Type::Id(i)]));
    }
    let big = iface(kinds);
    let mut sizes = SizeAlign::default();
    assert_eq!(sizes.fill(&big), Ok(()));
    assert_eq!(sizes.size(&Type::Id(26)), 16 << 26);
    assert!(sizes.size(&Type::Id(26)) <= MAX_SIZE);
    let mut kinds = big.types.iter().map(|t| t.kind.clone()).collect::<Vec<_>>();
    kinds.push(record(vec![Type::Id(26), Type::Id(26)]));
    assert_eq!(sizes.fill(&iface(kinds)), Err(LayoutError::TooLarge(27)));
}

#[test]
fn alignment_moves_forward_to_the_next_multiple() {
    assert_eq!(align_to(0, 4), 0);
    assert_eq!(align_to(1, 4), 4);
    assert_eq!(align_to(4, 4), 4);
    assert_eq!(align_to(5, 8), 8);
    assert_eq!(align_to(9, 1), 9);
    assert_eq!(align_to(13, 2), 14);
    assert_eq!(int_size_align(Int::U8), (1, 1));
    assert_eq!(int_size_align(Int::U16), (2, 2));
    assert_eq!(int_size_align(Int::U32), (4, 4));
    assert_eq!(int_size_align(Int::U64), (8, 8));
}
