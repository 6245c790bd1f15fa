use co2_sensor::singleton::{SingletonHolder, SingletonHolderImpl};
use co2_sensor::Initialized;

#[test]
fn new_cell_is_empty() {
    let cell: SingletonHolderImpl<u32> = SingletonHolderImpl::new();
    assert!(!cell.is_initialized());
    let cell: SingletonHolderImpl<u32> = Default::default();
    assert!(!cell.is_initialized());
}

#[test]
fn init_once_installs_what_the_constructor_makes() {
    let mut cell: SingletonHolderImpl<String> = SingletonHolderImpl::new();
    cell.init_once(21u32, |half| format!("{}", 2 * half));
    assert!(cell.is_initialized());
    assert_eq!(cell.with_ref(|content| content.clone()), "42");
}

#[test]
fn with_returns_the_result_and_stores_the_content() {
    let mut cell: SingletonHolderImpl<u32> = SingletonHolderImpl::new();
    cell.init_once((), |_| 7);
    let doubled = cell.with(|content| (content + 1, content * 2));
    assert_eq!(doubled, 14);
    assert_eq!(cell.with_ref(|content| *content), 8);
    assert!(cell.is_initialized());
}

#[test]
fn with_ref_mut_keeps_what_the_closure_leaves() {
    let mut cell: SingletonHolderImpl<Vec<u8>> = SingletonHolderImpl::new();
    cell.init_once(3u8, |first| vec![first]);
    let len = cell.with_ref_mut(|content| {
        content.push(4);
        content.len()
    });
    assert_eq!(len, 2);
    assert_eq!(cell.with_ref(|content| content.clone()), vec![3, 4]);
}

#[test]
fn ensure_fills_an_empty_cell_only() {
    let mut cell: SingletonHolderImpl<u32> = SingletonHolderImpl::new();
    let mut constructed = 0;
    cell.ensure(5u32, |d| {
        constructed += 1;
        d
    });
    cell.ensure(6u32, |d| {
        constructed += 1;
        d
    });
    assert_eq!(constructed, 1);
    assert_eq!(cell.with_ref(|content| *content), 5);
}

#[test]
fn reset_empties_the_cell() {
    let mut cell: SingletonHolderImpl<u32> = SingletonHolderImpl::new();
    cell.init_once(1u32, |d| d);
    cell.reset();
    assert!(!cell.is_initialized());
    cell.init_once(2u32, |d| d);
    assert_eq!(cell.with_ref(|content| *content), 2);
}

#[test]
fn a_filled_cell_shows_that_a_second_init_once_is_out() {
    let mut cell: SingletonHolderImpl<u32> = SingletonHolderImpl::new();
    assert!(!cell.is_initialized());
    cell.init_once(1u32, |d| d);
    for _ in 0..3 {
        assert!(cell.is_initialized());
        let read = cell.with_ref(|content| *content);
        assert_eq!(read, 1);
    }
    assert!(cell.is_initialized());
}

#[test]
fn init_installs_the_default_content() {
    let mut cell: SingletonHolderImpl<u32> = SingletonHolderImpl::new();
    assert!(!Initialized::is_initialized(&cell));
    Initialized::init(&mut cell);
    assert!(Initialized::is_initialized(&cell));
    assert_eq!(cell.with_ref(|content| *content), 0);
}

#[test]
fn ensure_is_initialized_leaves_a_filled_cell_alone() {
    let mut cell: SingletonHolderImpl<u32> = SingletonHolderImpl::new();
    cell.init_once(9u32, |d| d);
    cell.ensure_is_initialized();
    assert_eq!(cell.with_ref(|content| *content), 9);
    let mut empty: SingletonHolderImpl<u32> = SingletonHolderImpl::new();
    empty.ensure_is_initialized();
    assert_eq!(empty.with_ref(|content| *content), 0);
}

#[test]
fn holder_trait_runs_on_the_content() {
    let mut cell: SingletonHolderImpl<u32> = SingletonHolderImpl::new();
    Initialized::init(&mut cell);
    let before = SingletonHolder::with(&mut cell, |content| (content + 5, content));
    assert_eq!(before, 0);
    let seen = SingletonHolder::with_ref(&mut cell, |content: &u32| *content);
    assert_eq!(seen, 5);
    let after = SingletonHolder::with_ref_mut(&mut cell, |content: &mut u32| {
        *content += 1;
        *content
    });
    assert_eq!(after, 6);
    assert_eq!(cell.with_ref(|content| *content), 6);
}
