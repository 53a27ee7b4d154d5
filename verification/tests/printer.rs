use wai_bindgen::layout::SizeAlign;
use wai_bindgen::names::Names;
use wai_bindgen::printer::{
    print_borrowed_slice, print_borrowed_str, print_primitive, print_reference, FnSig, Lifetime,
    Printer, TypeMode,
};
use wai_bindgen::types::{
    Case, Enum, EnumCase, Expected, Field, Flag, Flags, Function, Interface, Record, Resource,
    Tuple, Type, TypeDef, TypeDefKind, Union, UnionCase, Variant,
};

fn def(name: Option<&str>, kind: TypeDefKind) -> TypeDef {
    TypeDef { docs: None,
        name: name.map(|n| n.to_string()),
        kind,
    }
}

fn world() -> Interface {
    Interface {
        name: "files".to_string(),
        types: vec![
            def(None, TypeDefKind::List(Type::U8)),
            def(None, TypeDefKind::List(Type::U32)),
            def(None, TypeDefKind::List(Type::String)),
            def(
                Some("file-stat"),
                TypeDefKind::Record(Record {
                    fields: vec![
                        Field { docs: None,
                            name: "size".to_string(),
                            ty: Type::U64,
                        },
                        Field { docs: None,
                            name: "type".to_string(),
                            ty: Type::String,
                        },
                    ],
                }),
            ),
            def(
                Some("seek-from"),
                TypeDefKind::Variant(Variant {
                    cases: vec![
                        Case { docs: None,
                            name: "start".to_string(),
                            ty: Type::U64,
                        },
                        Case { docs: None,
                            name: "the-end".to_string(),
                            ty: Type::Unit,
                        },
                    ],
                }),
            ),
            def(
                Some("number"),
                TypeDefKind::Union(Union {
                    cases: vec![UnionCase { ty: Type::S32 }, UnionCase { ty: Type::Float64 }],
                }),
            ),
            def(
                Some("colour"),
                TypeDefKind::Enum(Enum {
                    cases: vec![
                        EnumCase { docs: None,
                            name: "dark-red".to_string(),
                        },
                        EnumCase { docs: None,
                            name: "green".to_string(),
                        },
                    ],
                }),
            ),
            def(
                Some("rights"),
                TypeDefKind::Flags(Flags {
                    flags: vec![Flag { docs: None,
                        name: "read".to_string(),
                    }],
                }),
            ),
            def(None, TypeDefKind::Option(Type::Id(3))),
            def(
                None,
                TypeDefKind::Expected(Expected {
                    ok: Type::Id(0),
                    err: Type::Id(6),
                }),
            ),
            def(
                None,
                TypeDefKind::Tuple(Tuple {
                    types: vec![Type::U8, Type::Id(1)],
                }),
            ),
            def(Some("bytes"), TypeDefKind::List(Type::U8)),
            def(Some("stat-alias"), TypeDefKind::Type(Type::Id(3))),
            def(Some("maybe"), TypeDefKind::Option(Type::Char)),
        ],
        resources: vec![Resource { docs: None,
            name: "open-file".to_string(),
        }],
        functions: vec![Function { docs: None,
            is_async: false,
            name: "read-at".to_string(),
            params: vec![
                ("file".to_string(), Type::Handle(0)),
                ("type".to_string(), Type::Id(1)),
                ("the-name".to_string(), Type::String),
            ],
            result: Type::Id(9),
        }],
    }
}

struct Parts {
    iface: Interface,
    names: Names,
    sizes: SizeAlign,
}

fn parts() -> Parts {
    let iface = world();
    let names = Names::new(&iface);
    let mut sizes = SizeAlign::new();
    sizes.fill(&iface).unwrap();
    Parts {
        iface,
        names,
        sizes,
    }
}

fn printer<'a>(parts: &'a Parts, in_import: bool, projection: Option<&'a str>) -> Printer<'a> {
    Printer {
        iface: &parts.iface,
        names: &parts.names,
        sizes: &parts.sizes,
        in_import,
        projection,
    }
}

fn ty(p: &Printer, ty: Type, mode: TypeMode) -> String {
    p.print_ty(&ty, mode, p.iface.types.len()).0
}

#[test]
fn references_carry_their_lifetime() {
    assert_eq!(print_reference(Lifetime::Anonymous), "&");
    assert_eq!(print_reference(Lifetime::Named), "&'a ");
    assert_eq!(print_borrowed_str(Lifetime::Anonymous), "& str");
    assert_eq!(print_borrowed_str(Lifetime::Named), "&'a  str");
}

#[test]
fn slices_are_wrapped_where_asked() {
    assert_eq!(
        print_borrowed_slice(false, false, Lifetime::Anonymous, "u8"),
        "&[u8]"
    );
    assert_eq!(
        print_borrowed_slice(false, true, Lifetime::Anonymous, "u8"),
        "&mut [u8]"
    );
    assert_eq!(
        print_borrowed_slice(true, false, Lifetime::Anonymous, "u32"),
        "&[Le<u32>]"
    );
    assert_eq!(
        print_borrowed_slice(true, true, Lifetime::Named, "u32"),
        "&'a  mut [Le<u32>]"
    );
}

#[test]
fn primitives_have_their_rust_names() {
    let expected = [
        (Type::Unit, "()"),
        (Type::Bool, "bool"),
        (Type::U8, "u8"),
        (Type::U16, "u16"),
        (Type::U32, "u32"),
        (Type::U64, "u64"),
        (Type::S8, "i8"),
        (Type::S16, "i16"),
        (Type::S32, "i32"),
        (Type::S64, "i64"),
        (Type::Float32, "f32"),
        (Type::Float64, "f64"),
        (Type::Char, "char"),
    ];
    let parts = parts();
    let p = printer(&parts, false, None);
    for (t, name) in expected {
        assert_eq!(print_primitive(t), name);
        assert_eq!(ty(&p, t, TypeMode::Owned), name);
        assert_eq!(ty(&p, t, TypeMode::AllBorrowed(Lifetime::Anonymous)), name);
    }
}

#[test]
fn strings_are_borrowed_in_borrowing_modes() {
    let parts = parts();
    let p = printer(&parts, false, None);
    assert_eq!(ty(&p, Type::String, TypeMode::Owned), "String");
    assert_eq!(
        ty(&p, Type::String, TypeMode::AllBorrowed(Lifetime::Anonymous)),
        "& str"
    );
    assert_eq!(
        ty(&p, Type::String, TypeMode::LeafBorrowed(Lifetime::Named)),
        "&'a  str"
    );
}

#[test]
fn handles_are_projected_where_the_host_defines_them() {
    let parts = parts();
    let guest = printer(&parts, false, None);
    assert_eq!(ty(&guest, Type::Handle(0), TypeMode::Owned), "OpenFile");
    assert_eq!(
        ty(&guest, Type::Handle(0), TypeMode::AllBorrowed(Lifetime::Anonymous)),
        "&OpenFile"
    );
    let host = printer(&parts, true, Some("Self"));
    assert_eq!(ty(&host, Type::Handle(0), TypeMode::Owned), "Self::OpenFile");
    assert_eq!(
        ty(&host, Type::Handle(0), TypeMode::LeafBorrowed(Lifetime::Anonymous)),
        "&Self::OpenFile"
    );
}

#[test]
fn lists_follow_the_mode() {
    let parts = parts();
    let p = printer(&parts, false, None);
    let any = Lifetime::Anonymous;
    assert_eq!(ty(&p, Type::Id(0), TypeMode::Owned), "Vec<u8>");
    assert_eq!(ty(&p, Type::Id(0), TypeMode::AllBorrowed(any)), "&[u8]");
    assert_eq!(ty(&p, Type::Id(0), TypeMode::LeafBorrowed(any)), "&[u8]");
    assert_eq!(ty(&p, Type::Id(2), TypeMode::Owned), "Vec<String>");
    assert_eq!(ty(&p, Type::Id(2), TypeMode::AllBorrowed(any)), "&[& str]");
    assert_eq!(
        ty(&p, Type::Id(2), TypeMode::LeafBorrowed(any)),
        "Vec<& str>"
    );
    assert_eq!(ty(&p, Type::Id(11), TypeMode::Owned), "Vec<u8>");
}

#[test]
fn aligned_elements_are_wrapped_on_the_host_side() {
    let parts = parts();
    let any = Lifetime::Anonymous;
    let host = printer(&parts, true, None);
    let bytes = host.print_ty(&Type::Id(0), TypeMode::AllBorrowed(any), 14);
    assert_eq!(bytes, ("&[u8]".to_string(), false));
    let words = host.print_ty(&Type::Id(1), TypeMode::AllBorrowed(any), 14);
    assert_eq!(words, ("&[Le<u32>]".to_string(), true));
    let owned = host.print_ty(&Type::Id(1), TypeMode::Owned, 14);
    assert_eq!(owned, ("Vec<u32>".to_string(), false));
    let inside = host.print_ty(&Type::Id(10), TypeMode::LeafBorrowed(any), 14);
    assert_eq!(inside, ("(u8,&[Le<u32>],)".to_string(), true));
    let guest = printer(&parts, false, None);
    let plain = guest.print_ty(&Type::Id(1), TypeMode::AllBorrowed(any), 14);
    assert_eq!(plain, ("&[u32]".to_string(), false));
    assert!(host.wraps(&Type::U32));
    assert!(!host.wraps(&Type::U8));
    assert!(!guest.wraps(&Type::U32));
}

#[test]
fn structural_types_are_spelled_out() {
    let parts = parts();
    let p = printer(&parts, false, None);
    assert_eq!(ty(&p, Type::Id(8), TypeMode::Owned), "Option<FileStat>");
    assert_eq!(
        ty(&p, Type::Id(9), TypeMode::Owned),
        "Result<Vec<u8>,Colour>"
    );
    assert_eq!(ty(&p, Type::Id(10), TypeMode::Owned), "(u8,Vec<u32>,)");
    assert_eq!(ty(&p, Type::Id(3), TypeMode::Owned), "FileStat");
    assert_eq!(ty(&p, Type::Id(12), TypeMode::Owned), "StatAlias");
    assert_eq!(ty(&p, Type::Id(13), TypeMode::Owned), "Maybe");
}

#[test]
fn references_out_of_range_are_units() {
    let parts = parts();
    let p = printer(&parts, false, None);
    assert_eq!(ty(&p, Type::Id(99), TypeMode::Owned), "()");
    assert_eq!(p.print_ty(&Type::Id(3), TypeMode::Owned, 3).0, "()");
    assert_eq!(p.print_ty(&Type::Id(3), TypeMode::Owned, 4).0, "FileStat");
}

#[test]
fn records_become_structs() {
    let parts = parts();
    let p = printer(&parts, false, None);
    assert_eq!(
        p.print_typedef(3),
        "#[derive(Debug, Clone)]\npub struct FileStat {\npub size: u64,\npub type_: String,\n}\n"
    );
}

#[test]
fn variants_unions_and_enums_become_enums() {
    let parts = parts();
    let p = printer(&parts, false, None);
    assert_eq!(
        p.print_typedef(4),
        "#[derive(Debug, Clone)]\npub enum SeekFrom {\nStart(u64),\nTheEnd,\n}\n"
    );
    assert_eq!(
        p.print_typedef(5),
        "#[derive(Debug, Clone)]\npub enum Number {\nV0(i32),\nV1(f64),\n}\n"
    );
    assert_eq!(
        p.print_typedef(6),
        "#[repr(u8)]\n#[derive(Debug, Clone, Copy, PartialEq, Eq)]\npub enum Colour {\nDarkRed,\nGreen,\n}\n"
    );
}

#[test]
fn other_named_types_become_aliases() {
    let parts = parts();
    let p = printer(&parts, false, None);
    assert_eq!(p.print_typedef(11), "pub type Bytes = Vec<u8>;\n");
    assert_eq!(p.print_typedef(12), "pub type StatAlias = FileStat;\n");
    assert_eq!(p.print_typedef(13), "pub type Maybe = Option<char>;\n");
}

#[test]
fn flags_and_nameless_types_have_no_item_here() {
    let parts = parts();
    let p = printer(&parts, false, None);
    assert_eq!(p.print_typedef(7), "");
    assert_eq!(p.print_typedef(0), "");
    assert_eq!(p.print_typedef(8), "");
    assert_eq!(p.print_typedef(99), "");
}

#[test]
fn function_heads_list_the_parameters() {
    let parts = parts();
    let host = printer(&parts, true, Some("Self"));
    let sig = FnSig {
        async_: false,
        private: true,
        self_arg: Some("&mut self"),
    };
    let head = host.print_docs_and_params(
        &parts.iface.functions[0],
        0,
        TypeMode::LeafBorrowed(Lifetime::Anonymous),
        &sig,
    );
    assert_eq!(
        head.text,
        "fn read_at(&mut self,file: &Self::OpenFile,type_: &[Le<u32>],the_name: & str,)"
    );
    assert_eq!(head.params, vec!["file", "type_", "the_name"]);
    assert!(head.needs_le);

    let guest = printer(&parts, false, None);
    let sig = FnSig {
        async_: true,
        private: false,
        self_arg: None,
    };
    let head = guest.print_docs_and_params(
        &parts.iface.functions[0],
        0,
        TypeMode::Owned,
        &sig,
    );
    assert_eq!(
        head.text,
        "pub async fn read_at(file: OpenFile,type_: Vec<u32>,the_name: String,)"
    );
    assert!(!head.needs_le);
}
