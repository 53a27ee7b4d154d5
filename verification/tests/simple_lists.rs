use wai_bindgen::rt::RuntimeError;
use wai_bindgen::simple_lists::{
    lift_simple_list1, lift_simple_list4, lower_simple_list2, lower_simple_list4, simple_list1,
    simple_list4, SimpleLists,
};

#[derive(Default)]
struct Recorder {
    seen: Vec<Vec<u32>>,
}

impl SimpleLists for Recorder {
    fn simple_list1(&mut self, l: &[u32]) {
        self.seen.push(l.to_vec());
    }

    fn simple_list2(&mut self) -> Vec<u32> {
        vec![1, 2, 3]
    }

    fn simple_list4(&mut self, l: Vec<Vec<u32>>) -> Vec<Vec<u32>> {
        l
    }
}

fn memory() -> Vec<u8> {
    let mut mem = vec![0xff; 8];
    for v in [1u32, 0x0102_0304, u32::MAX] {
        mem.extend_from_slice(&v.to_le_bytes());
    }
    mem
}

#[test]
fn a_list_is_lifted_from_where_the_pointer_says() {
    let mem = memory();
    assert_eq!(lift_simple_list1(&mem, 8, 3), Ok(vec![1, 0x0102_0304, u32::MAX]));
    assert_eq!(lift_simple_list1(&mem, 12, 1), Ok(vec![0x0102_0304]));
    assert_eq!(lift_simple_list1(&mem, 20, 0), Ok(vec![]));
    let mut host = Recorder::default();
    assert_eq!(simple_list1(&mut host, &mem, 8, 3), Ok(()));
    assert_eq!(simple_list1(&mut host, &mem, 0, 0), Ok(()));
    assert_eq!(host.seen, vec![vec![1, 0x0102_0304, u32::MAX], vec![]]);
}

#[test]
fn a_list_beyond_the_memory_does_not_reach_the_host() {
    let mem = memory();
    let mut host = Recorder::default();
    assert_eq!(simple_list1(&mut host, &mem, 8, 4), Err(RuntimeError::OutOfBounds));
    assert_eq!(simple_list1(&mut host, &mem, 9, 3), Err(RuntimeError::OutOfBounds));
    assert_eq!(simple_list1(&mut host, &mem, 8, -1), Err(RuntimeError::OutOfBounds));
    assert_eq!(simple_list1(&mut host, &mem, -4, 1), Err(RuntimeError::OutOfBounds));
    assert_eq!(simple_list1(&mut host, &mem, 21, 0), Err(RuntimeError::OutOfBounds));
    assert!(host.seen.is_empty());
}

fn words(vals: &[u32]) -> Vec<u8> {
    vals.iter().flat_map(|v| v.to_le_bytes()).collect()
}

#[test]
fn a_returned_list_is_written_with_its_pair() {
    let mut mem = vec![0xeeu8; 32];
    assert_eq!(lower_simple_list2(&mut mem, 4, 16, &vec![7, 8, 9]), Ok(()));
    let mut expected = vec![0xeeu8; 32];
    expected[16..28].copy_from_slice(&words(&[7, 8, 9]));
    expected[4..12].copy_from_slice(&words(&[16, 3]));
    assert_eq!(mem, expected);
    assert_eq!(lift_simple_list1(&mem, 16, 3), Ok(vec![7, 8, 9]));

    let mut mem = vec![0u8; 8];
    assert_eq!(lower_simple_list2(&mut mem, 0, 8, &vec![]), Ok(()));
    assert_eq!(mem, words(&[8, 0]));
}

#[test]
fn a_returned_list_that_does_not_fit_stops_at_the_failing_store() {
    let mut mem = vec![0xeeu8; 16];
    assert_eq!(
        lower_simple_list2(&mut mem, 0, 8, &vec![1, 2, 3]),
        Err(RuntimeError::OutOfBounds)
    );
    assert_eq!(mem, vec![0xeeu8; 16]);
    assert_eq!(
        lower_simple_list2(&mut mem, 9, 0, &vec![1, 2]),
        Err(RuntimeError::OutOfBounds)
    );
    let mut expected = vec![0xeeu8; 16];
    expected[0..8].copy_from_slice(&words(&[1, 2]));
    assert_eq!(mem, expected);
    assert_eq!(
        lower_simple_list2(&mut mem, -8, 0, &vec![]),
        Err(RuntimeError::OutOfBounds)
    );
    assert_eq!(mem, expected);
}

fn nested() -> Vec<u8> {
    // Two lists, [5, 6] at 24 and [] at 32, with their pairs at 8.
    let mut mem = vec![0u8; 32];
    mem[8..24].copy_from_slice(&words(&[24, 2, 32, 0]));
    mem[24..32].copy_from_slice(&words(&[5, 6]));
    mem
}

#[test]
fn a_list_of_lists_is_lifted_pair_by_pair() {
    let mem = nested();
    assert_eq!(lift_simple_list4(&mem, 8, 2), Ok(vec![vec![5, 6], vec![]]));
    assert_eq!(lift_simple_list4(&mem, 8, 1), Ok(vec![vec![5, 6]]));
    assert_eq!(lift_simple_list4(&mem, 32, 0), Ok(vec![]));
    let mut host = Recorder::default();
    assert_eq!(simple_list4(&mut host, &mem, 8, 2), Ok(vec![vec![5, 6], vec![]]));
}

#[test]
fn a_list_of_lists_beyond_the_memory_is_a_bounds_error() {
    let mut mem = nested();
    assert_eq!(lift_simple_list4(&mem, 8, 4), Err(RuntimeError::OutOfBounds));
    assert_eq!(lift_simple_list4(&mem, 8, -1), Err(RuntimeError::OutOfBounds));
    assert_eq!(lift_simple_list4(&mem, 33, 0), Err(RuntimeError::OutOfBounds));
    mem[12..16].copy_from_slice(&3u32.to_le_bytes());
    assert_eq!(lift_simple_list4(&mem, 8, 2), Err(RuntimeError::OutOfBounds));
    assert_eq!(lift_simple_list4(&mem, 16, 1), Ok(vec![vec![]]));
    let mut host = Recorder::default();
    assert_eq!(simple_list4(&mut host, &mem, 8, 2), Err(RuntimeError::OutOfBounds));
}

#[test]
fn returned_lists_come_back_as_they_went() {
    let lists = vec![vec![1u32, 2, 3], vec![], vec![u32::MAX]];
    let mut mem = vec![0u8; 64];
    assert_eq!(lower_simple_list4(&mut mem, 0, 8, &vec![32, 44, 44], &lists), Ok(()));
    assert_eq!(&mem[0..8], &words(&[8, 3])[..]);
    assert_eq!(&mem[8..32], &words(&[32, 3, 44, 0, 44, 1])[..]);
    assert_eq!(&mem[32..48], &words(&[1, 2, 3, u32::MAX])[..]);
    assert_eq!(lift_simple_list4(&mem, 8, 3), Ok(lists));
    let mut empty = vec![0xeeu8; 8];
    assert_eq!(lower_simple_list4(&mut empty, 0, 8, &vec![], &vec![]), Ok(()));
    assert_eq!(empty, words(&[8, 0]));
}

#[test]
fn returned_lists_stop_at_the_failing_store() {
    let lists = vec![vec![1u32], vec![2, 3]];
    let mut mem = vec![0xeeu8; 24];
    assert_eq!(
        lower_simple_list4(&mut mem, 0, 8, &vec![16, 20], &lists),
        Err(RuntimeError::OutOfBounds)
    );
    let mut expected = vec![0xeeu8; 24];
    expected[16..20].copy_from_slice(&words(&[1]));
    expected[8..16].copy_from_slice(&words(&[16, 1]));
    assert_eq!(mem, expected);
    let mut mem = vec![0xeeu8; 24];
    assert_eq!(
        lower_simple_list4(&mut mem, 20, 8, &vec![16], &vec![vec![1]]),
        Err(RuntimeError::OutOfBounds)
    );
    assert_eq!(mem, expected);
}
