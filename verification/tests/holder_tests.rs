use std::cell::Cell;

use python_bridge::holder::get_or_create;

#[test]
fn creates_exactly_once_and_keeps_the_first_instance() {
    let calls = Cell::new(0);
    let mut slot: Option<u32> = None;

    let first = get_or_create(&mut slot, || {
        calls.set(calls.get() + 1);
        Ok::<u32, String>(41)
    });
    assert_eq!(first, Ok(()));
    assert_eq!(slot, Some(41));

    let second = get_or_create(&mut slot, || {
        calls.set(calls.get() + 1);
        Ok::<u32, String>(99)
    });
    assert_eq!(second, Ok(()));
    assert_eq!(slot, Some(41));
    assert_eq!(calls.get(), 1);
}

#[test]
fn a_failed_creation_leaves_the_holder_empty_for_a_retry() {
    let mut slot: Option<u32> = None;

    let failed = get_or_create(&mut slot, || Err::<u32, String>("spawn failed".to_string()));
    assert_eq!(failed, Err("spawn failed".to_string()));
    assert_eq!(slot, None);

    let retried = get_or_create(&mut slot, || Ok::<u32, String>(7));
    assert_eq!(retried, Ok(()));
    assert_eq!(slot, Some(7));
}
