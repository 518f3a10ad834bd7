use std::cell::Cell;

use kernel::lazy::Lazy;

#[test]
fn new_cell_is_pending() {
    let cell: Lazy<u32, fn() -> u32> = Lazy::new(|| 5);
    assert!(cell.is_pending());
    assert!(!cell.is_ready());
    assert!(!cell.is_empty());
}

#[test]
fn empty_cell_is_neither_pending_nor_ready() {
    let cell: Lazy<u32, fn() -> u32> = Lazy::Empty;
    assert!(cell.is_empty());
    assert!(!cell.is_pending());
    assert!(!cell.is_ready());
}

#[test]
fn init_runs_the_factory() {
    let mut cell: Lazy<u32, fn() -> u32> = Lazy::new(|| 41 + 1);
    cell.init();
    assert!(cell.is_ready());
    assert_eq!(*cell.unwrap(), 42);
}

#[test]
fn unwrap_builds_on_first_use() {
    let mut cell = Lazy::new(|| String::from("built"));
    assert_eq!(cell.unwrap().as_str(), "built");
    assert!(cell.is_ready());
}

#[test]
fn resolving_twice_gives_the_same_value_and_builds_once() {
    let runs = Cell::new(0u32);
    let mut cell = Lazy::new(|| {
        runs.set(runs.get() + 1);
        0xFEE0_0000u64
    });
    let first = *cell.unwrap();
    let second = *cell.unwrap();
    let third = *cell.unwrap();
    assert_eq!(first, 0xFEE0_0000);
    assert_eq!(second, first);
    assert_eq!(third, first);
    assert_eq!(runs.get(), 1);
}

#[test]
fn init_then_unwrap_builds_once() {
    let runs = Cell::new(0u32);
    let mut cell = Lazy::new(|| {
        runs.set(runs.get() + 1);
        7u8
    });
    cell.init();
    assert_eq!(runs.get(), 1);
    assert_eq!(*cell.unwrap(), 7);
    assert_eq!(runs.get(), 1);
}

#[test]
fn a_change_through_unwrap_stays() {
    let mut cell: Lazy<u64, fn() -> u64> = Lazy::new(|| 1);
    *cell.unwrap() = 9;
    assert_eq!(*cell.unwrap(), 9);
}

#[test]
fn unsafe_init_fills_an_empty_cell() {
    let mut cell: Lazy<u64, fn() -> u64> = Lazy::Empty;
    cell.unsafe_init(0xFFFF_8000_0000_0000);
    assert!(cell.is_ready());
    assert_eq!(*cell.unwrap(), 0xFFFF_8000_0000_0000);
}

#[test]
fn unsafe_init_does_not_run_the_factory() {
    let runs = Cell::new(0u32);
    let mut cell = Lazy::new(|| {
        runs.set(runs.get() + 1);
        1u64
    });
    cell.unsafe_init(2);
    assert_eq!(*cell.unwrap(), 2);
    assert_eq!(runs.get(), 0);
}

#[test]
fn try_init_initialises_a_pending_cell_only() {
    let runs = Cell::new(0u32);
    let mut cell = Lazy::new(|| {
        runs.set(runs.get() + 1);
        3u8
    });
    assert!(cell.try_init());
    assert!(cell.is_ready());
    assert!(!cell.try_init());
    assert!(!cell.try_init());
    assert_eq!(runs.get(), 1);
    assert_eq!(*cell.unwrap(), 3);
}

#[test]
fn try_init_leaves_an_empty_cell_empty() {
    let mut cell: Lazy<u8, fn() -> u8> = Lazy::Empty;
    assert!(!cell.try_init());
    assert!(cell.is_empty());
}

#[test]
fn try_unwrap_of_an_empty_cell_is_none() {
    let mut cell: Lazy<u8, fn() -> u8> = Lazy::Empty;
    assert!(cell.try_unwrap().is_none());
    assert!(cell.is_empty());
    assert!(cell.try_unwrap().is_none());
}

#[test]
fn try_unwrap_resolves_pending_and_ready_cells() {
    let runs = Cell::new(0u32);
    let mut cell = Lazy::new(|| {
        runs.set(runs.get() + 1);
        11u64
    });
    assert_eq!(cell.try_unwrap().copied(), Some(11));
    assert_eq!(cell.try_unwrap().copied(), Some(11));
    assert_eq!(runs.get(), 1);
    if let Some(value) = cell.try_unwrap() {
        *value = 12;
    }
    assert_eq!(*cell.unwrap(), 12);
}

#[test]
fn a_ready_cell_stays_ready_with_its_value() {
    let mut cell: Lazy<u64, fn() -> u64> = Lazy::Ready(5);
    assert!(!cell.try_init());
    assert_eq!(*cell.unwrap(), 5);
    assert!(cell.is_ready());
}
