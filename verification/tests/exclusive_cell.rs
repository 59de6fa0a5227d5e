use alloc_core::ExclusiveCell;

#[test]
fn access_returns_the_closure_result() {
    let cell = ExclusiveCell::new(5u64);
    let doubled = cell.access(|state: &mut u64| {
        *state *= 2;
        *state
    });
    assert_eq!(doubled, 10);
}

#[test]
fn sequential_accesses_compose() {
    let cell = ExclusiveCell::new(0u64);
    cell.access(|state: &mut u64| *state += 3);
    cell.access(|state: &mut u64| *state *= 10);
    let observed = cell.access(|state: &mut u64| *state);
    assert_eq!(observed, 30);
}

#[test]
fn payload_is_mutated_in_place() {
    let cell = ExclusiveCell::new(Vec::new());
    cell.access(|state: &mut Vec<u64>| state.push(7));
    cell.access(|state: &mut Vec<u64>| state.push(9));
    let snapshot = cell.access(|state: &mut Vec<u64>| state.clone());
    assert_eq!(snapshot, vec![7, 9]);
}
