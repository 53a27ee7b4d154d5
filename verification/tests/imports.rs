use wai_bindgen::imports::{lift_many_arguments, many_arguments, Imports, ARGUMENT_BYTES};
use wai_bindgen::rt::RuntimeError;

#[derive(Default)]
struct Recorder {
    calls: Vec<Vec<u64>>,
}

impl Imports for Recorder {
    fn many_arguments(
        &mut self,
        a1: u64,
        a2: u64,
        a3: u64,
        a4: u64,
        a5: u64,
        a6: u64,
        a7: u64,
        a8: u64,
        a9: u64,
        a10: u64,
        a11: u64,
        a12: u64,
        a13: u64,
        a14: u64,
        a15: u64,
        a16: u64,
        a17: u64,
        a18: u64,
        a19: u64,
        a20: u64,
    ) {
        self.calls.push(vec![
            a1, a2, a3, a4, a5, a6, a7, a8, a9, a10, a11, a12, a13, a14, a15, a16, a17, a18, a19,
            a20,
        ]);
    }
}

fn memory(before: usize, after: usize) -> Vec<u8> {
    let mut mem = vec![0xaa; before];
    for k in 1..=20u64 {
        mem.extend_from_slice(&(k * 0x0101_0101_0101_0101).to_le_bytes());
    }
    mem.extend(std::iter::repeat(0xbb).take(after));
    mem
}

fn expected() -> Vec<u64> {
    (1..=20u64).map(|k| k * 0x0101_0101_0101_0101).collect()
}

#[test]
fn twenty_arguments_take_their_bytes() {
    assert_eq!(ARGUMENT_BYTES, 160);
    assert_eq!(memory(0, 0).len(), 160);
}

#[test]
fn the_arguments_are_lifted_in_their_order() {
    let mem = memory(24, 8);
    assert_eq!(lift_many_arguments(&mem, 24), Ok(expected()));
    let mut host = Recorder::default();
    assert_eq!(many_arguments(&mut host, &mem, 24), Ok(()));
    assert_eq!(host.calls, vec![expected()]);
}

#[test]
fn arguments_that_end_with_the_memory_fit() {
    let mem = memory(16, 0);
    let mut host = Recorder::default();
    assert_eq!(many_arguments(&mut host, &mem, 16), Ok(()));
    assert_eq!(host.calls, vec![expected()]);
}

#[test]
fn arguments_beyond_the_memory_do_not_reach_the_host() {
    let mem = memory(16, 0);
    let mut host = Recorder::default();
    assert_eq!(many_arguments(&mut host, &mem, 17), Err(RuntimeError::OutOfBounds));
    assert_eq!(many_arguments(&mut host, &mem, -1), Err(RuntimeError::OutOfBounds));
    assert_eq!(lift_many_arguments(&mem[..175], 16), Err(RuntimeError::OutOfBounds));
    assert_eq!(lift_many_arguments(&[], 0), Err(RuntimeError::OutOfBounds));
    assert!(host.calls.is_empty());
}
