use wai_bindgen::slab::{HandleError, ResourceError, ResourceTable, Slab};

#[test]
fn handle_table_scenario() {
    let mut table: Slab<&'static str> = Slab::new();
    assert_eq!(table.insert("x"), 0);
    assert_eq!(table.insert("y"), 1);
    assert_eq!(table.remove(0), Ok("x"));
    assert_eq!(table.insert("z"), 0);
    assert_eq!(table.get(1), Ok(&"y"));
    assert_eq!(table.get(0), Ok(&"z"));
}

#[test]
fn slab_reuses_freed_slots_last_freed_first() {
    let mut table: Slab<u32> = Slab::new();
    let first: Vec<u32> = (0..5).map(|v| table.insert(v)).collect();
    assert_eq!(first, vec![0, 1, 2, 3, 4]);
    for idx in [3u32, 0, 4, 1, 2] {
        assert_eq!(table.remove(idx), Ok(idx));
    }
    let second: Vec<u32> = (10..15).map(|v| table.insert(v)).collect();
    assert_eq!(second, vec![2, 1, 4, 0, 3]);
    let mut sorted = second.clone();
    sorted.sort();
    assert_eq!(sorted, first);
    assert_eq!(table.capacity(), 5);
}

#[test]
fn slab_rejects_what_is_not_occupied() {
    let mut table: Slab<u8> = Slab::new();
    assert_eq!(table.get(0), Err(HandleError::Invalid));
    assert_eq!(table.remove(7), Err(HandleError::Invalid));
    let idx = table.insert(9);
    assert_eq!(table.remove(idx), Ok(9));
    assert_eq!(table.get(idx), Err(HandleError::Invalid));
    assert_eq!(table.remove(idx), Err(HandleError::Invalid));
    assert_eq!(table.replace(idx, 1), Err(1));
    let again = table.insert(4);
    assert_eq!(again, idx);
    assert_eq!(table.replace(idx, 5), Ok(4));
    assert_eq!(table.get(idx), Ok(&5));
}

#[test]
fn shared_resource_lives_until_last_handle_goes() {
    let mut table = ResourceTable::new();
    let a = table.resource_new(77).unwrap();
    let b = table.resource_clone(a).unwrap();
    assert_ne!(a, b);
    assert_eq!(table.resource_get(a), Ok(77));
    assert_eq!(table.resource_get(b), Ok(77));
    assert_eq!(table.resources.get(table.index.get(a).unwrap()), Ok(77));
    assert_eq!(table.resource_drop(a), Ok(None));
    assert_eq!(table.resource_get(a), Err(HandleError::Invalid));
    assert_eq!(table.resource_get(b), Ok(77));
    assert_eq!(table.resource_drop(b), Ok(Some(77)));
    assert_eq!(table.resource_drop(b), Err(HandleError::Invalid));
    assert_eq!(table.resource_clone(b), Err(ResourceError::Invalid));
}

#[test]
fn a_handle_in_a_slot_that_was_used_before_leads_to_the_new_resource() {
    let mut table = ResourceTable::new();
    let a = table.resource_new(1).unwrap();
    let b = table.resource_new(2).unwrap();
    assert_eq!(table.resource_drop(a), Ok(Some(1)));
    let c = table.resource_new(3).unwrap();
    assert_eq!(c, a);
    assert_eq!(table.resource_get(c), Ok(3));
    assert_eq!(table.resource_get(b), Ok(2));
    let d = table.resource_clone(b).unwrap();
    assert_eq!(table.resource_get(d), Ok(2));
    assert_eq!(table.resource_drop(b), Ok(None));
    assert_eq!(table.resource_drop(d), Ok(Some(2)));
    let e = table.resource_new(4).unwrap();
    assert_eq!(e, d);
    assert_eq!(table.resource_get(e), Ok(4));
    assert_eq!(table.resource_get(c), Ok(3));
}
