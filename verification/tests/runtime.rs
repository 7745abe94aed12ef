use minirt::executor::{executor_step, new_context};
use minirt::reactor::dispatch;
use minirt::{DispatchAction, Event, ExecutorAction, Parker, Poll, Reactor, Task, WakeHandle};

#[test]
fn parker_starts_without_pending_resume() {
    let p = Parker::new(3);
    assert_eq!(p.id, 3);
    assert!(!p.resumable);
}

#[test]
fn unpark_before_park_is_not_lost() {
    let mut p = Parker::new(0);
    p.unpark();
    assert!(p.resumable);
    p.park();
    assert!(!p.resumable);
}

#[test]
fn repeated_unpark_collapses_to_one_resume() {
    let mut p = Parker::new(0);
    p.unpark();
    p.unpark();
    p.unpark();
    assert!(p.resumable);
    p.park();
    assert!(!p.resumable);
}

#[test]
fn unpark_park_rounds_return_each_time() {
    let mut p = Parker::new(9);
    let mut round: usize = 0;
    while round < 4 {
        p.unpark();
        assert!(p.resumable);
        p.park();
        assert!(!p.resumable);
        round += 1;
    }
    assert_eq!(p.id, 9);
}

#[test]
fn wake_handle_is_bound_to_its_parker() {
    let p = Parker::new(11);
    let h = WakeHandle::new(&p);
    assert_eq!(h.parker_id, 11);
    let h2 = h.clone();
    assert_eq!(h2, h);
}

#[test]
fn wake_by_value_unparks() {
    let mut p = Parker::new(1);
    let h = WakeHandle::new(&p);
    h.wake(&mut p);
    assert!(p.resumable);
}

#[test]
fn wake_by_ref_keeps_the_handle() {
    let mut p = Parker::new(1);
    let h = WakeHandle::new(&p);
    h.wake_by_ref(&mut p);
    assert!(p.resumable);
    p.park();
    h.wake_by_ref(&mut p);
    assert!(p.resumable);
}

#[test]
fn fresh_reactor_has_no_records() {
    let r = Reactor::new();
    assert!(!r.contains(0));
    assert!(!r.is_ready(0));
    assert!(!r.is_finished(0));
}

#[test]
fn register_inserts_not_ready_and_asks_one_timer() {
    let mut r = Reactor::new();
    let p = Parker::new(2);
    let h = WakeHandle::new(&p);
    let e = r.register(5, h, 42);
    assert_eq!(e, Event::Timeout(5, 42));
    assert!(r.contains(42));
    assert!(!r.is_ready(42));
    assert!(!r.is_finished(42));
}

#[test]
fn wake_returns_the_stored_handle_and_marks_ready() {
    let mut r = Reactor::new();
    let mut p = Parker::new(8);
    let h = WakeHandle::new(&p);
    r.register(1, h, 4);
    let stored = r.wake(4);
    assert_eq!(stored.parker_id, 8);
    assert!(r.is_ready(4));
    stored.wake(&mut p);
    assert!(p.resumable);
}

#[test]
fn finish_moves_ready_to_finished() {
    let mut r = Reactor::new();
    let p = Parker::new(0);
    r.register(1, WakeHandle::new(&p), 6);
    r.wake(6);
    r.finish(6);
    assert!(r.contains(6));
    assert!(!r.is_ready(6));
    assert!(r.is_finished(6));
}

#[test]
fn exactly_once_completion_through_the_poll_protocol() {
    let mut r = Reactor::new();
    let (mut p, h) = new_context(5);
    let t = Task::new(1, 7);

    let (res, ev) = t.poll(&mut r, h.clone());
    assert_eq!(res, Poll::Pending);
    assert_eq!(ev, Some(Event::Timeout(1, 7)));

    let (res, ev) = t.poll(&mut r, h.clone());
    assert_eq!(res, Poll::Pending);
    assert_eq!(ev, None);

    let stored = r.wake(7);
    assert_eq!(stored.parker_id, 5);
    stored.wake(&mut p);
    assert!(p.resumable);
    p.park();

    let (res, ev) = t.poll(&mut r, h);
    assert_eq!(res, Poll::Ready(7));
    assert_eq!(ev, None);
    assert!(r.is_finished(7));
    assert!(!r.is_ready(7));
}

#[test]
fn refresh_stores_the_latest_polling_context() {
    let mut r = Reactor::new();
    let (_p1, h1) = new_context(1);
    let (mut p2, h2) = new_context(2);
    let t = Task::new(3, 9);
    t.poll(&mut r, h1);
    t.poll(&mut r, h2);
    let stored = r.wake(9);
    assert_eq!(stored.parker_id, 2);
    stored.wake(&mut p2);
    assert!(p2.resumable);
}

#[test]
fn two_tasks_driven_in_sequence() {
    let mut r = Reactor::new();
    let first = Task::new(1, 1);
    let second = Task::new(2, 2);
    let mut done: Vec<usize> = Vec::new();

    for t in [&first, &second] {
        let (mut p, h) = new_context(t.id as u64);
        let (res, ev) = t.poll(&mut r, h.clone());
        assert_eq!(res, Poll::Pending);
        assert_eq!(ev, Some(Event::Timeout(t.data, t.id)));
        assert_eq!(executor_step(res), ExecutorAction::Park);

        let stored = r.wake(t.id);
        stored.wake(&mut p);
        p.park();

        let (res, ev) = t.poll(&mut r, h);
        assert_eq!(res, Poll::Ready(t.id));
        assert_eq!(ev, None);
        match executor_step(res) {
            ExecutorAction::Done(v) => done.push(v),
            ExecutorAction::Park => panic!("completed poll must not park"),
        }
    }
    assert_eq!(done, vec![1, 2]);
    assert!(r.is_finished(1));
    assert!(r.is_finished(2));
}

#[test]
fn dispatcher_decisions() {
    assert_eq!(dispatch(Event::Close), DispatchAction::Shutdown);
    assert_eq!(dispatch(Event::Timeout(5, 9)), DispatchAction::SpawnTimer(5, 9));
}

#[test]
fn executor_decisions() {
    assert_eq!(executor_step(Poll::Pending), ExecutorAction::Park);
    assert_eq!(executor_step(Poll::Ready(3)), ExecutorAction::Done(3));
}

#[test]
fn new_context_binds_handle_to_parker() {
    let (p, h) = new_context(77);
    assert_eq!(p.id, 77);
    assert!(!p.resumable);
    assert_eq!(h.parker_id, 77);
}
