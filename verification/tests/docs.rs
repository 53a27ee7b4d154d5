use wai_bindgen::docs::print_docs;
use wai_bindgen::layout::SizeAlign;
use wai_bindgen::names::Names;
use wai_bindgen::options::Direction;
use wai_bindgen::printer::{FnSig, Lifetime, Printer, TypeMode};
use wai_bindgen::types::{
    Case, Enum, EnumCase, Field, Flag, Flags, Function, Interface, Record, Resource, Type, TypeDef,
    TypeDefKind, Variant,
};
use wai_bindgen::wasmer::Wasmer;

fn said(text: &str) -> Option<String> {
    Some(text.to_string())
}

/// What `rustdoc` of the standard library's pieces gives: every line of the
/// trimmed text after three slashes.
fn by_lines(text: &str) -> String {
    text.trim().lines().map(|l| format!("/// {}\n", l)).collect()
}

#[test]
fn nothing_said_is_no_comment() {
    assert_eq!(print_docs(&None), "");
    assert_eq!(print_docs(&said("")), "");
    assert_eq!(print_docs(&said(" \n\t\u{a0}\n")), "");
}

#[test]
fn every_line_becomes_a_line_of_the_comment() {
    assert_eq!(print_docs(&said("One line.")), "/// One line.\n");
    assert_eq!(
        print_docs(&said("  First.\n\n  Third, indented.\n")),
        "/// First.\n/// \n///   Third, indented.\n"
    );
    assert_eq!(print_docs(&said("a\r\nb\rc\r")), "/// a\n/// b\rc\n");
    for text in [
        "x",
        "x\ny",
        "\n\nx\n\ny\n\n",
        "a\r\n\r\nb",
        "a\n\rb",
        " a \n b ",
        "\u{2003}wide\u{3000}",
        "tab\there",
    ] {
        assert_eq!(print_docs(&said(text)), by_lines(text), "{:?}", text);
    }
}

fn documented() -> Interface {
    Interface {
        name: "files".to_string(),
        types: vec![
            TypeDef {
                docs: said("What is known of a file."),
                name: said("stat"),
                kind: TypeDefKind::Record(Record {
                    fields: vec![
                        Field { docs: said("In bytes."), name: "size".to_string(), ty: Type::U64 },
                        Field { docs: None, name: "links".to_string(), ty: Type::U32 },
                    ],
                }),
            },
            TypeDef {
                docs: said("Where to count from."),
                name: said("whence"),
                kind: TypeDefKind::Variant(Variant {
                    cases: vec![
                        Case { docs: said("From the start."), name: "start".to_string(), ty: Type::U64 },
                        Case { docs: None, name: "end".to_string(), ty: Type::Unit },
                    ],
                }),
            },
            TypeDef {
                docs: said("A kind\nof file."),
                name: said("kind"),
                kind: TypeDefKind::Enum(Enum {
                    cases: vec![
                        EnumCase { docs: None, name: "plain".to_string() },
                        EnumCase { docs: said("A directory."), name: "dir".to_string() },
                    ],
                }),
            },
            TypeDef {
                docs: said("What may be done."),
                name: said("perms"),
                kind: TypeDefKind::Flags(Flags {
                    flags: vec![
                        Flag { docs: said("To read."), name: "read".to_string() },
                        Flag { docs: None, name: "write".to_string() },
                    ],
                }),
            },
            TypeDef { docs: said("A position."), name: said("offset"), kind: TypeDefKind::Type(Type::U64) },
        ],
        resources: vec![Resource { docs: said("An open file."), name: "handle".to_string() }],
        functions: vec![Function {
            docs: said("Tells what is known\nof the file."),
            is_async: false,
            name: "stat".to_string(),
            params: vec![("file".to_string(), Type::Handle(0))],
            result: Type::Id(0),
        }],
    }
}

#[test]
fn the_items_of_the_types_carry_what_is_said_of_them() {
    let iface = documented();
    let names = Names::new(&iface);
    let mut sizes = SizeAlign::new();
    sizes.fill(&iface).unwrap();
    let p = Printer { iface: &iface, names: &names, sizes: &sizes, in_import: false, projection: None };
    assert_eq!(
        p.print_typedef(0),
        "/// What is known of a file.\n#[derive(Debug, Clone)]\npub struct Stat {\n/// In bytes.\npub size: u64,\npub links: u32,\n}\n"
    );
    assert_eq!(
        p.print_typedef(1),
        "/// Where to count from.\n#[derive(Debug, Clone)]\npub enum Whence {\n/// From the start.\nStart(u64),\nEnd,\n}\n"
    );
    assert_eq!(
        p.print_typedef(2),
        "/// A kind\n/// of file.\n#[repr(u8)]\n#[derive(Debug, Clone, Copy, PartialEq, Eq)]\npub enum Kind {\nPlain,\n/// A directory.\nDir,\n}\n"
    );
    assert_eq!(p.print_typedef(4), "/// A position.\npub type Offset = u64;\n");
    let sig = FnSig { async_: false, private: false, self_arg: None };
    let head = p.print_docs_and_params(
        &iface.functions[0],
        0,
        TypeMode::AllBorrowed(Lifetime::Anonymous),
        &sig,
    );
    assert_eq!(
        head.text,
        "/// Tells what is known\n/// of the file.\npub fn stat(file: &Handle,)"
    );
}

#[test]
fn the_module_carries_what_the_interface_says() {
    let iface = documented();
    let guest = Wasmer::new().generate_one(&iface, Direction::Import).unwrap();
    let text = &guest.module.text;
    assert!(text.contains(
        "wit_bindgen_wasmer::bitflags::bitflags! {\n/// What may be done.\npub struct Perms: u8 {/// To read.\nconst READ = 1 << 0;\nconst WRITE = 1 << 1;\n}\n}\n"
    ));
    assert!(text.contains("/// An open file.\n#[derive(Debug)]\npub struct Handle("));
    assert!(text.contains("/// Tells what is known\n/// of the file.\npub fn stat(&self, store: &mut wasmer::Store,file: &Handle,)"));
    assert!(text.contains("/// What is known of a file.\n#[derive(Debug, Clone)]\npub struct Stat {\n"));
    let host = Wasmer::new().generate_one(&iface, Direction::Export).unwrap();
    assert!(!host.module.text.contains("/// An open file."));
    assert_eq!(
        host.module.host.imports[0].trait_signature,
        "/// Tells what is known\n/// of the file.\nfn stat(&mut self,file: &Self::Handle,) -> Stat"
    );
}
