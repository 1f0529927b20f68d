use aaronia_rtsa::{Error, GlobalApi, Memory};

#[test]
fn first_acquire_initializes_with_the_given_tier() {
    let mut g = GlobalApi::new();
    assert!(g.session.is_none());
    assert_eq!(g.acquire(Memory::Large, 0, 0), Ok(()));
    let s = g.session.unwrap();
    assert_eq!(s.handles, 1);
    assert_eq!(s.mem, Memory::Large);
}

#[test]
fn later_acquires_ignore_the_tier() {
    let mut g = GlobalApi::new();
    g.acquire(Memory::Small, 0, 0).unwrap();
    g.acquire(Memory::Ludicrous, 0, 0).unwrap();
    let s = g.session.unwrap();
    assert_eq!(s.handles, 2);
    assert_eq!(s.mem, Memory::Small);
}

#[test]
fn failed_init_leaves_no_partial_state() {
    let mut g = GlobalApi::new();
    assert_eq!(
        g.acquire(Memory::Medium, 0x80000001, 0),
        Err(Error::ErrorNotInitialized)
    );
    assert!(g.session.is_none());
}

#[test]
fn failed_open_tears_a_fresh_library_back_down() {
    let mut g = GlobalApi::new();
    assert_eq!(g.acquire(Memory::Medium, 0, 0x80000003), Err(Error::ErrorBusy));
    assert!(g.session.is_none());
}

#[test]
fn failed_open_keeps_an_existing_session() {
    let mut g = GlobalApi::new();
    g.acquire(Memory::Medium, 0, 0).unwrap();
    assert_eq!(g.acquire(Memory::Medium, 0, 0x80000003), Err(Error::ErrorBusy));
    let s = g.session.unwrap();
    assert_eq!(s.handles, 1);
}

#[test]
fn count_is_conserved_and_shutdown_happens_at_zero() {
    let mut g = GlobalApi::new();
    g.acquire(Memory::Medium, 0, 0).unwrap();
    g.acquire(Memory::Medium, 0, 0).unwrap();
    g.acquire(Memory::Medium, 0, 0).unwrap();
    assert_eq!(g.session.unwrap().handles, 3);
    assert_eq!(g.release(0), Ok(()));
    assert_eq!(g.session.unwrap().handles, 2);
    assert_eq!(g.release(0), Ok(()));
    assert_eq!(g.session.unwrap().handles, 1);
    // The library stays up until the very last release.
    assert!(g.session.is_some());
    assert_eq!(g.release(0), Ok(()));
    assert!(g.session.is_none());
}

#[test]
fn failing_shutdown_is_fatal_only_for_the_last_release() {
    let mut g = GlobalApi::new();
    g.acquire(Memory::Medium, 0, 0).unwrap();
    g.acquire(Memory::Medium, 0, 0).unwrap();
    // Not the last release: the shutdown code is never consulted.
    assert_eq!(g.release(0x80000000), Ok(()));
    // The last release reports the failing shutdown, and the state is gone.
    assert_eq!(g.release(0x80000000), Err(Error::Error));
    assert!(g.session.is_none());
}

#[test]
fn memory_tier_codes_round_trip() {
    for m in [Memory::Small, Memory::Medium, Memory::Large, Memory::Ludicrous] {
        assert_eq!(Memory::from_code(m.code()), m);
    }
    assert_eq!(Memory::from_code(7), Memory::Small);
}
