use wai_bindgen::dependencies::{Dependencies, PyImport};

fn entries(deps: &Dependencies) -> Vec<(String, Option<Vec<String>>)> {
    deps.pyimports
        .iter()
        .map(|PyImport { module, names }| (module.clone(), names.clone()))
        .collect()
}

#[test]
fn test_pyimport_only_contents() {
    let mut deps = Dependencies::default();
    deps.pyimport("typing", None);
    deps.pyimport("typing", None);
    assert_eq!(entries(&deps), vec![("typing".to_string(), None)]);
}

#[test]
fn test_pyimport_only_module() {
    let mut deps = Dependencies::default();
    deps.pyimport("typing", Some("Union"));
    deps.pyimport("typing", Some("List"));
    deps.pyimport("typing", Some("NamedTuple"));
    assert_eq!(
        entries(&deps),
        vec![(
            "typing".to_string(),
            Some(vec![
                "List".to_string(),
                "NamedTuple".to_string(),
                "Union".to_string()
            ])
        )]
    );
}

#[test]
fn pyimport_keeps_modules_in_order() {
    let mut deps = Dependencies::default();
    deps.pyimport("typing", Some("Tuple"));
    deps.pyimport("ctypes", None);
    deps.pyimport("dataclasses", Some("dataclass"));
    deps.pyimport("typing", Some("Any"));
    assert_eq!(
        entries(&deps),
        vec![
            ("ctypes".to_string(), None),
            (
                "dataclasses".to_string(),
                Some(vec!["dataclass".to_string()])
            ),
            (
                "typing".to_string(),
                Some(vec!["Any".to_string(), "Tuple".to_string()])
            ),
        ]
    );
}

#[test]
fn intrinsics_of_nothing_is_empty() {
    let mut deps = Dependencies::default();
    let src = deps.intrinsics();
    assert_eq!(src.as_str(), "");
    assert!(deps.pyimports.is_empty());
    assert!(!deps.needs_t_typevar);
}

#[test]
fn intrinsics_clamp_text() {
    let mut deps = Dependencies::default();
    deps.needs_clamp = true;
    let src = deps.intrinsics();
    assert_eq!(
        src.as_str(),
        "\ndef _clamp(i: int, min: int, max: int) -> int:\n    if i < min or i > max:\n        raise OverflowError(f'must be between {min} and {max}')\n    return i\n"
    );
    assert!(deps.pyimports.is_empty());
}

#[test]
fn intrinsics_records_imports_and_typevar() {
    let mut deps = Dependencies::default();
    deps.needs_expected = true;
    deps.needs_i32_to_f32 = true;
    let src = deps.intrinsics();
    assert!(deps.needs_t_typevar);
    assert_eq!(
        entries(&deps),
        vec![
            ("ctypes".to_string(), None),
            (
                "dataclasses".to_string(),
                Some(vec!["dataclass".to_string()])
            ),
            (
                "typing".to_string(),
                Some(vec![
                    "Generic".to_string(),
                    "TypeVar".to_string(),
                    "Union".to_string()
                ])
            ),
        ]
    );
    let text = src.as_str();
    assert!(text.starts_with("\n@dataclass\nclass Ok(Generic[T]):\n    value: T\n"));
    assert!(text.contains("Expected = Union[Ok[T], Err[E]]\n_i32_to_f32_i32 = ctypes.pointer(ctypes.c_int32(0))\n"));
    assert!(text.contains("def _i32_to_f32(i: int) -> float:"));
    assert!(!text.contains("def _f32_to_i32"));
}

#[test]
fn a_module_that_no_helper_asks_for_may_be_imported_either_way() {
    let mut deps = Dependencies::default();
    deps.pyimport("typing", None);
    deps.pyimport("dataclasses", None);
    deps.needs_clamp = true;
    deps.needs_i32_to_f32 = true;
    let src = deps.intrinsics();
    assert!(src.as_str().contains("def _i32_to_f32(i: int) -> float:"));
    assert_eq!(
        entries(&deps),
        vec![
            ("ctypes".to_string(), None),
            ("dataclasses".to_string(), None),
            ("typing".to_string(), None),
        ]
    );
}

#[test]
fn the_table_of_handles_refuses_an_index_outside_the_list() {
    let mut deps = Dependencies::default();
    deps.needs_resources = true;
    let src = deps.intrinsics();
    let text = src.as_str();
    assert!(text.contains(
        "    def get(self, idx: int) -> T:\n        if idx < 0 or idx >= len(self.list):\n            raise IndexError('handle index not valid')\n        slot = self.list[idx]\n"
    ));
    assert!(text.contains(
        "    def remove(self, idx: int) -> T:\n        ret = self.get(idx)\n        slot = self.list[idx]\n"
    ));
    assert_eq!(text.matches("self.list[idx]").count(), 2);
}

#[test]
fn the_check_of_a_char_refuses_what_is_below_zero() {
    let mut deps = Dependencies::default();
    deps.needs_validate_guest_char = true;
    let src = deps.intrinsics();
    assert_eq!(
        src.as_str(),
        "\ndef _validate_guest_char(i: int) -> str:\n    if i < 0 or i > 0x10ffff or (i >= 0xd800 and i <= 0xdfff):\n        raise TypeError('not a valid char');\n    return chr(i)\n"
    );
}

#[test]
fn the_checked_access_takes_callable_from_typing() {
    for (load, store) in [(true, false), (false, true), (true, true)] {
        let mut deps = Dependencies::default();
        deps.needs_load = load;
        deps.needs_store = store;
        let src = deps.intrinsics();
        assert_eq!(
            entries(&deps),
            vec![("typing".to_string(), Some(vec!["Callable".to_string()]))]
        );
        let text = src.as_str();
        if load {
            assert!(text.contains(
                "    if ptr < 0 or ptr + view.bytes_per_element > mem.data_size:\n        raise IndexError('out-of-bounds load')\n"
            ));
        }
        if store {
            assert!(text.contains(
                "    if ptr < 0 or ptr + view.bytes_per_element > mem.data_size:\n        raise IndexError('out-of-bounds store')\n"
            ));
        }
    }
}

#[test]
fn a_conflict_is_found_before_an_import_is_recorded() {
    let mut deps = Dependencies::default();
    assert!(!deps.conflicts("typing", true));
    assert!(!deps.conflicts("typing", false));
    deps.pyimport("typing", Some("NamedTuple"));
    assert!(deps.conflicts("typing", false));
    assert!(!deps.conflicts("typing", true));
    assert!(!deps.conflicts("ctypes", false));
    deps.pyimport("ctypes", None);
    assert!(deps.conflicts("ctypes", true));
    assert!(!deps.conflicts("ctypes", false));
    assert!(!deps.conflicts("typin", false));
}

#[test]
fn the_helpers_fit_unless_a_flag_imports_a_module_the_other_way() {
    let mut deps = Dependencies::default();
    deps.needs_load = true;
    deps.needs_i32_to_f32 = true;
    assert!(deps.fits());
    deps.pyimport("dataclasses", None);
    assert!(deps.fits());
    deps.needs_resources = true;
    assert!(!deps.fits());
    deps.needs_resources = false;
    deps.pyimport("ctypes", Some("c_int32"));
    assert!(!deps.fits());
    deps.needs_i32_to_f32 = false;
    assert!(deps.fits());
    let src = deps.intrinsics();
    assert!(src.as_str().contains("def _load("));
    assert!(deps.fits());
}
