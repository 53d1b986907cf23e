use futures_cache::{Cleanup, Signal, Stage, Waker, Wakers};

fn run(waker: &mut Waker, error: bool) -> Vec<(u64, bool)> {
    let mut cleanup = Cleanup::new(error);
    let mut sent = Vec::new();
    loop {
        match waker.cleanup(&mut cleanup) {
            Signal::Notify(ticket, error) => sent.push((ticket, error)),
            Signal::Again => {}
            Signal::Finished => return sent,
        }
    }
}

#[test]
fn a_new_waker_is_idle() {
    assert_eq!(0, Waker::new().pending());
}

#[test]
fn enrolling_tells_how_many_came_before() {
    let mut waker = Waker::new();
    assert_eq!(0, waker.enroll());
    assert_eq!(1, waker.enroll());
    assert_eq!(2, waker.pending());
}

#[test]
fn a_clean_up_notifies_in_order() {
    let mut waker = Waker::new();
    waker.enroll();
    for ticket in [30, 10, 20] {
        waker.enroll();
        waker.park(ticket);
    }
    assert_eq!(4, waker.pending());
    assert_eq!(vec![(30, true), (10, true), (20, true)], run(&mut waker, true));
    assert_eq!(0, waker.pending());
}

#[test]
fn many_tickets_pass_through_the_queue() {
    let mut waker = Waker::new();
    waker.enroll();
    for ticket in 0..200 {
        waker.enroll();
        waker.park(ticket);
    }
    let sent = run(&mut waker, false);
    assert_eq!((0..200).map(|t| (t, false)).collect::<Vec<_>>(), sent);
    assert_eq!(0, waker.pending());
}

#[test]
fn a_clean_up_alone_takes_few_steps() {
    let mut waker = Waker::new();
    waker.enroll();
    let mut cleanup = Cleanup::new(false);
    assert_eq!(Signal::Again, waker.cleanup(&mut cleanup));
    assert_eq!(Stage::Release, cleanup.stage);
    assert_eq!(Signal::Finished, waker.cleanup(&mut cleanup));
    assert_eq!(Stage::Done, cleanup.stage);
    assert_eq!(Signal::Finished, waker.cleanup(&mut cleanup));
    assert_eq!(0, waker.pending());
}

#[test]
fn a_clean_up_waits_for_a_ticket_that_is_not_queued_yet() {
    let mut waker = Waker::new();
    waker.enroll();
    let mut cleanup = Cleanup::new(true);
    waker.cleanup(&mut cleanup);
    assert_eq!(Stage::Release, cleanup.stage);
    // Somebody enrolls before the last step, and queues a ticket only later.
    waker.enroll();
    assert_eq!(Signal::Again, waker.cleanup(&mut cleanup));
    assert_eq!(Stage::Drain(0), cleanup.stage);
    assert_eq!(Signal::Again, waker.cleanup(&mut cleanup));
    assert_eq!(Stage::Subtract(0), cleanup.stage);
    assert_eq!(Signal::Again, waker.cleanup(&mut cleanup));
    assert_eq!(Stage::Drain(0), cleanup.stage);
    waker.park(5);
    assert_eq!(Signal::Notify(5, true), waker.cleanup(&mut cleanup));
    assert_eq!(Stage::Drain(1), cleanup.stage);
    assert_eq!(2, waker.pending());
    assert_eq!(Signal::Again, waker.cleanup(&mut cleanup));
    assert_eq!(Signal::Again, waker.cleanup(&mut cleanup));
    assert_eq!(1, waker.pending());
    assert_eq!(Signal::Again, waker.cleanup(&mut cleanup));
    assert_eq!(Signal::Again, waker.cleanup(&mut cleanup));
    assert_eq!(Stage::Release, cleanup.stage);
    assert_eq!(Signal::Finished, waker.cleanup(&mut cleanup));
    assert_eq!(0, waker.pending());
}

#[test]
fn every_key_has_its_own_waker() {
    let mut wakers = Wakers::new();
    wakers.waker(b"a").enroll();
    wakers.waker(b"b").enroll();
    wakers.waker(b"a").enroll();
    assert_eq!(2, wakers.waker(b"a").pending());
    assert_eq!(1, wakers.waker(b"b").pending());
    assert_eq!(0, wakers.waker(b"").pending());
}
