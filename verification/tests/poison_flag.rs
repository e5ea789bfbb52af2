use lazy_mut::poison::{map_result, Flag, PoisonError, PoisonLockResult};

#[test]
fn fresh_flag_is_unset() {
    let flag = Flag::new();
    assert!(!flag.get());
}

#[test]
fn token_from_clean_flag_is_clean() {
    let flag = Flag::new();
    assert!(flag.guard(false).is_ok());
}

#[test]
fn unwinding_holder_sets_the_flag() {
    let mut flag = Flag::new();
    let token = flag.guard(false).ok().expect("clean flag");
    flag.done(token, true);
    assert!(flag.get());
}

#[test]
fn holder_already_unwinding_at_acquisition_does_not_set_the_flag() {
    let mut flag = Flag::new();
    let token = flag.guard(true).ok().expect("clean flag");
    flag.done(token, true);
    assert!(!flag.get());
}

#[test]
fn normal_release_does_not_set_the_flag() {
    let mut flag = Flag::new();
    let token = flag.guard(false).ok().expect("clean flag");
    flag.done(token, false);
    assert!(!flag.get());
}

#[test]
fn set_flag_hands_out_usable_token_in_error() {
    let mut flag = Flag::new();
    let token = flag.guard(false).ok().expect("clean flag");
    flag.done(token, true);
    match flag.guard(false) {
        Ok(_) => panic!("set flag must report poisoning"),
        Err(e) => {
            let again = e.into_inner();
            flag.done(again, false);
            assert!(flag.get());
        }
    }
}

#[test]
fn clear_resets_the_flag() {
    let mut flag = Flag::new();
    let token = flag.guard(false).ok().expect("clean flag");
    flag.done(token, true);
    assert!(flag.get());
    flag.clear();
    assert!(!flag.get());
    assert!(flag.guard(false).is_ok());
}

#[test]
fn done_never_clears_a_set_flag() {
    let mut flag = Flag::new();
    let token = flag.guard(false).ok().expect("clean flag");
    flag.done(token, true);
    let token = match flag.guard(false) {
        Err(e) => e.into_inner(),
        Ok(_) => panic!("set flag must report poisoning"),
    };
    flag.done(token, false);
    assert!(flag.get());
}

#[test]
fn map_result_preserves_the_outcome() {
    let clean: PoisonLockResult<u64> = Ok(5);
    match map_result(clean, |x| x + 1) {
        Ok(v) => assert_eq!(v, 6),
        Err(_) => panic!("clean result must stay clean"),
    }
    let poisoned: PoisonLockResult<u64> = Err(PoisonError::new(5));
    match map_result(poisoned, |x| x + 1) {
        Ok(_) => panic!("poisoned result must stay poisoned"),
        Err(e) => assert_eq!(e.into_inner(), 6),
    }
}

#[test]
fn observed_flag_reads_as_reported() {
    assert!(!Flag::observed(false).get());
    assert!(Flag::observed(true).get());
    match Flag::observed(true).guard(false) {
        Err(e) => {
            let token = e.into_inner();
            let mut flag = Flag::observed(false);
            flag.done(token, false);
            assert!(!flag.get());
        }
        Ok(_) => panic!("a set flag must report poisoning at acquisition"),
    }
}
