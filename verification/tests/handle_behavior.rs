use callable_gate::HighOrderThreadsafeFunction;
use callable_gate::SimpleThreadsafeFunction;
use callable_gate::Status;

#[test]
fn test_concurrent_logic() {
    loom::model(|| {
        let tsfn = HighOrderThreadsafeFunction::new();
        let tsfn2 = tsfn.clone();

        loom::thread::spawn(move || {
            tsfn.call();
        });
        loom::thread::spawn(move || {
            tsfn2.abort();
        });
    });
}

#[test]
fn fresh_handle_call_is_open() {
    let tsfn = HighOrderThreadsafeFunction::new();
    assert_eq!(tsfn.call(), Status::Open);
    assert_eq!(tsfn.call(), Status::Open);
}

#[test]
fn abort_then_call_is_closed_on_every_clone() {
    let tsfn = HighOrderThreadsafeFunction::new();
    let tsfn2 = tsfn.clone();
    tsfn.abort();
    assert_eq!(tsfn.call(), Status::Closed);
    assert_eq!(tsfn2.call(), Status::Closed);
}

#[test]
fn abort_is_idempotent_across_clones() {
    let tsfn = HighOrderThreadsafeFunction::new();
    let tsfn2 = tsfn.clone();
    tsfn.abort();
    tsfn2.abort();
    tsfn.abort();
    assert_eq!(tsfn.call(), Status::Closed);
    assert_eq!(tsfn2.call(), Status::Closed);
}

#[test]
fn dropping_one_of_two_clones_keeps_it_open() {
    let tsfn = HighOrderThreadsafeFunction::new();
    let tsfn2 = tsfn.clone();
    std::mem::drop(tsfn2);
    assert_eq!(tsfn.call(), Status::Open);
}

#[test]
fn retire_as_last_owner_closes() {
    let tsfn = HighOrderThreadsafeFunction::new();
    tsfn.retire();
    assert_eq!(tsfn.call(), Status::Closed);
}

#[test]
fn retire_with_another_owner_alive_does_nothing() {
    let tsfn = HighOrderThreadsafeFunction::new();
    let tsfn2 = tsfn.clone();
    tsfn.retire();
    assert_eq!(tsfn.call(), Status::Open);
    assert_eq!(tsfn2.call(), Status::Open);
}

#[test]
fn release_closes_and_stays_closed() {
    let inner = SimpleThreadsafeFunction::new();
    assert_eq!(inner.call(), Status::Open);
    inner.release();
    assert_eq!(inner.call(), Status::Closed);
    inner.release();
    assert_eq!(inner.call(), Status::Closed);
}

#[test]
fn concurrent_aborts_leave_it_closed() {
    loom::model(|| {
        let tsfn = HighOrderThreadsafeFunction::new();
        let tsfn_a = tsfn.clone();
        let tsfn_b = tsfn.clone();

        let a = loom::thread::spawn(move || {
            tsfn_a.abort();
        });
        let b = loom::thread::spawn(move || {
            tsfn_b.abort();
        });
        a.join().unwrap();
        b.join().unwrap();

        assert_eq!(tsfn.call(), Status::Closed);
    });
}

#[test]
fn concurrent_call_and_abort_then_call_is_closed() {
    loom::model(|| {
        let tsfn = HighOrderThreadsafeFunction::new();
        let tsfn_a = tsfn.clone();
        let tsfn_b = tsfn.clone();

        let a = loom::thread::spawn(move || {
            let status = tsfn_a.call();
            assert!(status == Status::Open || status == Status::Closed);
        });
        let b = loom::thread::spawn(move || {
            tsfn_b.abort();
        });
        a.join().unwrap();
        b.join().unwrap();

        assert_eq!(tsfn.call(), Status::Closed);
    });
}
