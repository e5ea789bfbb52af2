use lazy_mut::{InitState, IntoInner};

#[test]
fn force_runs_a_pending_initializer() {
    let state = InitState::Uninit(|| 5u64);
    match state.force() {
        Ok(InitState::Init(v)) => assert_eq!(v, 5),
        Ok(_) => panic!("a forced step settles on the initialized value"),
        Err(_) => panic!("an unpoisoned state is forceable"),
    }
}

#[test]
fn force_leaves_an_initialized_state_unchanged() {
    let state: InitState<u64, fn() -> u64> = InitState::Init(11);
    match state.force() {
        Ok(InitState::Init(v)) => assert_eq!(v, 11),
        Ok(_) => panic!("an initialized state is stable"),
        Err(_) => panic!("an initialized state is forceable"),
    }
}

#[test]
fn force_fails_on_a_poisoned_state() {
    let state: InitState<u64, fn() -> u64> = InitState::Poisoned;
    assert!(state.force().is_err());
}

#[test]
fn state_into_inner_maps_each_variant() {
    match lazy_mut::state_into_inner(InitState::<u64, _>::Uninit(|| 3u64)) {
        IntoInner::Initializer(f) => assert_eq!(f(), 3),
        _ => panic!("an unforced state yields its initializer"),
    }
    match lazy_mut::state_into_inner(InitState::<u64, fn() -> u64>::Init(8)) {
        IntoInner::Value(v) => assert_eq!(v, 8),
        _ => panic!("an initialized state yields its value"),
    }
    match lazy_mut::state_into_inner(InitState::<u64, fn() -> u64>::Poisoned) {
        IntoInner::Poisoned => {}
        _ => panic!("a poisoned state yields nothing"),
    }
}

#[test]
fn only_the_terminal_state_reads_poisoned() {
    assert!(!InitState::<u64, _>::Uninit(|| 1u64).is_poisoned());
    assert!(!InitState::<u64, fn() -> u64>::Init(1).is_poisoned());
    assert!(InitState::<u64, fn() -> u64>::Poisoned.is_poisoned());
}

#[test]
fn poison_status_is_the_disjunction_of_both_bits() {
    assert!(!lazy_mut::poison_status(false, false));
    assert!(lazy_mut::poison_status(true, false));
    assert!(lazy_mut::poison_status(false, true));
    assert!(lazy_mut::poison_status(true, true));
}

#[test]
fn state_value_yields_the_value_exactly_on_init() {
    assert_eq!(
        lazy_mut::state_value(&InitState::<u64, fn() -> u64>::Init(4)),
        Some(&4)
    );
    assert!(lazy_mut::state_value(&InitState::<u64, _>::Uninit(|| 4u64)).is_none());
    assert!(lazy_mut::state_value(&InitState::<u64, fn() -> u64>::Poisoned).is_none());
}

#[test]
fn state_value_mut_writes_into_the_init_state() {
    let mut state = InitState::<u64, fn() -> u64>::Init(4);
    match lazy_mut::state_value_mut(&mut state) {
        Some(v) => *v = 9,
        None => panic!("an initialized state yields its value"),
    }
    match state {
        InitState::Init(v) => assert_eq!(v, 9),
        _ => panic!("a write through the borrow stays inside the initialized state"),
    }
    let mut poisoned = InitState::<u64, fn() -> u64>::Poisoned;
    assert!(lazy_mut::state_value_mut(&mut poisoned).is_none());
    assert!(poisoned.is_poisoned());
}
