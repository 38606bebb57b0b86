use atomics::arc::{
    clone_step, downgrade_step, drop_step, get_mut_step, upgrade_step, Arc, ArcError,
    DowngradeStep, UpgradeStep, ALLOC_LOCKED, MAX_REFS,
};

#[test]
fn arc_single_thread() {
    let mut arc = Arc::new(123);
    assert_eq!(Arc::strong_count(&arc), 1);

    arc.clone_strong().unwrap();
    assert_eq!(Arc::strong_count(&arc), 2);

    assert!(!arc.drop_strong());
    assert_eq!(Arc::strong_count(&arc), 1);

    assert_eq!(*Arc::data(&arc).unwrap(), 123);
}

#[test]
fn mut_ref() {
    let mut arc = Arc::new(1);
    arc.clone_strong().unwrap();
    assert!(Arc::get_mut(&mut arc).is_none());
    arc.drop_strong();
    assert!(Arc::get_mut(&mut arc).is_some());
}

#[test]
fn get_mut_writes_payload() {
    let mut arc = Arc::new(1);
    *Arc::get_mut(&mut arc).unwrap() = 7;
    assert_eq!(*Arc::data(&arc).unwrap(), 7);
}

#[test]
fn get_mut_refused_with_weak() {
    let mut arc = Arc::new(1);
    let weak = Arc::downgrade(&mut arc).unwrap();
    assert!(Arc::get_mut(&mut arc).is_none());
    assert!(!weak.drop_weak(&mut arc));
    assert!(Arc::get_mut(&mut arc).is_some());
}

#[test]
fn downgrade() {
    let mut arc = Arc::new(1);
    let weak = Arc::downgrade(&mut arc).unwrap();
    assert_eq!(Arc::strong_count(&arc), 1);
    assert_eq!(Arc::alloc_count(&arc), 2);

    weak.drop_weak(&mut arc);
    assert_eq!(Arc::alloc_count(&arc), 1);
}

#[test]
fn upgrade_fail() {
    let mut arc = Arc::new(1);
    let weak = Arc::downgrade(&mut arc).unwrap();

    assert!(arc.drop_strong());
    assert_eq!(weak.upgrade(&mut arc), Ok(false));
}

#[test]
fn upgrade_success() {
    let mut arc = Arc::new(1);
    arc.clone_strong().unwrap();
    let weak = Arc::downgrade(&mut arc).unwrap();
    arc.drop_strong();

    assert_eq!(weak.upgrade(&mut arc), Ok(true));
    assert_eq!(Arc::strong_count(&arc), 2);
}

#[test]
fn last_drop_destroys_payload_once() {
    let mut arc = Arc::new(5);
    arc.clone_strong().unwrap();
    arc.clone_strong().unwrap();
    assert!(!arc.drop_strong());
    assert!(!arc.drop_strong());
    assert!(Arc::has_data(&arc));
    assert!(arc.drop_strong());
    assert!(!Arc::has_data(&arc));
    assert_eq!(Arc::strong_count(&arc), 0);
    assert_eq!(Arc::alloc_count(&arc), 0);
}

#[test]
fn clone_drop_sequence_counts() {
    let mut arc = Arc::new(0u8);
    let mut clones = 0;
    let mut drops = 0;
    for is_clone in [true, true, false, true, false, false] {
        if is_clone {
            arc.clone_strong().unwrap();
            clones += 1;
        } else {
            arc.drop_strong();
            drops += 1;
        }
        assert_eq!(Arc::strong_count(&arc), 1 + clones - drops);
    }
    assert!(Arc::has_data(&arc));
}

#[test]
fn weak_outlives_payload() {
    let mut arc = Arc::new(3);
    let weak = Arc::downgrade(&mut arc).unwrap();
    let weak2 = weak.clone_weak(&mut arc).unwrap();
    assert_eq!(Arc::weak_count(&arc), 2);
    assert!(arc.drop_strong());
    assert_eq!(Arc::alloc_count(&arc), 2);
    assert!(!weak.drop_weak(&mut arc));
    assert!(weak2.drop_weak(&mut arc));
    assert_eq!(Arc::alloc_count(&arc), 0);
}

#[test]
fn clone_step_bound() {
    assert_eq!(clone_step(1), Ok(()));
    assert_eq!(clone_step(MAX_REFS), Ok(()));
    assert_eq!(clone_step(MAX_REFS + 1), Err(ArcError::TooManyReferences));
}

#[test]
fn drop_step_last() {
    assert!(drop_step(1));
    assert!(!drop_step(2));
}

#[test]
fn downgrade_step_cases() {
    assert_eq!(downgrade_step(ALLOC_LOCKED), DowngradeStep::Spin);
    assert_eq!(downgrade_step(1), DowngradeStep::Exchange(2));
    assert_eq!(downgrade_step(usize::MAX - 1), DowngradeStep::Overflow);
}

#[test]
fn upgrade_step_cases() {
    assert_eq!(upgrade_step(0), UpgradeStep::Gone);
    assert_eq!(upgrade_step(3), UpgradeStep::Exchange(4));
    assert_eq!(upgrade_step(MAX_REFS + 1), UpgradeStep::Overflow);
}

#[test]
fn get_mut_step_cases() {
    assert!(get_mut_step(true, 1));
    assert!(!get_mut_step(true, 2));
    assert!(!get_mut_step(false, 1));
}
