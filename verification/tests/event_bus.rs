use crossbeam_channel::{unbounded, Receiver, RecvError};
use ropencv::bus::{Broadcast, Disconnected};
use ropencv::signals::Signal;

fn drain(receiver: &Receiver<Signal>) -> Vec<Signal> {
    receiver.try_iter().collect()
}

fn captured(path: &str) -> Signal {
    Signal::MotionCaptured(path.to_string())
}

#[test]
fn publishing_without_subscribers_reaches_nobody() {
    let (_source, feed) = unbounded::<Signal>();
    let mut bus = Broadcast::new(feed);
    assert_eq!(bus.send(Signal::StartCamera), 0);
}

#[test]
fn late_subscriber_gets_only_later_events_in_order() {
    let (_source, feed) = unbounded::<Signal>();
    let mut bus = Broadcast::new(feed);
    let early = bus.subscribe();
    assert_eq!(bus.send(captured("one")), 1);
    assert_eq!(bus.send(captured("two")), 1);
    assert_eq!(bus.send(captured("three")), 1);

    let late = bus.subscribe();
    assert!(late.is_empty());
    assert_eq!(bus.send(Signal::StopCamera), 2);
    assert_eq!(bus.send(captured("four")), 2);

    assert_eq!(drain(&late), vec![Signal::StopCamera, captured("four")]);
    assert_eq!(
        drain(&early),
        vec![captured("one"), captured("two"), captured("three"), Signal::StopCamera, captured("four")]
    );
}

#[test]
fn two_subscribers_get_every_event_in_publication_order() {
    let (_source, feed) = unbounded::<Signal>();
    let mut bus = Broadcast::new(feed);
    let first = bus.subscribe();
    let second = bus.subscribe();
    let events =
        vec![Signal::StartCamera, captured("a"), Signal::MotionCaptureStarted, captured("b")];
    for event in &events {
        assert_eq!(bus.send(event.clone()), 2);
    }
    assert_eq!(drain(&first), events);
    assert_eq!(drain(&second), events);
}

#[test]
fn each_event_is_delivered_exactly_once() {
    let (_source, feed) = unbounded::<Signal>();
    let mut bus = Broadcast::new(feed);
    let only = bus.subscribe();
    bus.send(captured("clip"));
    assert_eq!(only.len(), 1);
    assert_eq!(only.try_recv(), Ok(captured("clip")));
    assert!(only.try_recv().is_err());
}

#[test]
fn a_subscriber_that_is_gone_is_passed_over() {
    let (_source, feed) = unbounded::<Signal>();
    let mut bus = Broadcast::new(feed);
    let first = bus.subscribe();
    let second = bus.subscribe();
    let third = bus.subscribe();
    drop(second);
    assert_eq!(bus.send(Signal::StopCamera), 2);
    assert_eq!(drain(&first), vec![Signal::StopCamera]);
    assert_eq!(drain(&third), vec![Signal::StopCamera]);
    drop(first);
    drop(third);
    assert_eq!(bus.send(Signal::StartCamera), 0);
}

#[test]
fn a_subscriber_that_never_drains_does_not_hold_up_the_others() {
    let (_source, feed) = unbounded::<Signal>();
    let mut bus = Broadcast::new(feed);
    let idle = bus.subscribe();
    let busy = bus.subscribe();
    for round in 0..1000 {
        assert_eq!(bus.send(captured("clip")), 2);
        assert_eq!(busy.try_recv(), Ok(captured("clip")));
        assert_eq!(idle.len(), round + 1);
    }
}

#[test]
fn recv_forwards_what_arrives_on_the_source() {
    let (source, feed) = unbounded::<Signal>();
    let mut bus = Broadcast::new(feed);
    let listener = bus.subscribe();
    source.send(captured("x")).unwrap();
    source.send(Signal::StopCamera).unwrap();
    assert_eq!(bus.recv(), Ok(1));
    assert_eq!(bus.recv(), Ok(1));
    assert_eq!(drain(&listener), vec![captured("x"), Signal::StopCamera]);
}

#[test]
fn recv_fails_once_the_source_is_closed() {
    let (source, feed) = unbounded::<Signal>();
    let mut bus = Broadcast::new(feed);
    let listener = bus.subscribe();
    source.send(Signal::StartCamera).unwrap();
    drop(source);
    // What was queued before the source closed is still forwarded.
    assert_eq!(bus.recv(), Ok(1));
    assert_eq!(bus.recv(), Err(Disconnected));
    assert_eq!(drain(&listener), vec![Signal::StartCamera]);
}

#[test]
fn the_bus_carries_any_cloneable_event() {
    let (_source, feed) = unbounded::<u64>();
    let mut bus = Broadcast::new(feed);
    let numbers = bus.subscribe();
    assert_eq!(bus.send(7), 1);
    assert_eq!(bus.send(9), 1);
    assert_eq!(numbers.try_iter().collect::<Vec<u64>>(), vec![7, 9]);
}

#[test]
fn forward_publishes_an_event_and_reports_a_closed_source() {
    let (_source, feed) = unbounded::<Signal>();
    let mut bus = Broadcast::new(feed);
    assert_eq!(bus.forward(Ok(Signal::StartCamera)), Ok(0));
    let first = bus.subscribe();
    let second = bus.subscribe();
    assert_eq!(bus.forward(Ok(captured("clip"))), Ok(2));
    assert_eq!(bus.forward(Err(RecvError)), Err(Disconnected));
    // A closed source adds nothing to any queue.
    assert_eq!(drain(&first), vec![captured("clip")]);
    assert_eq!(drain(&second), vec![captured("clip")]);
    drop(second);
    assert_eq!(bus.forward(Ok(Signal::StopCamera)), Ok(1));
    assert_eq!(drain(&first), vec![Signal::StopCamera]);
}

#[test]
fn a_refusal_in_the_middle_does_not_stop_the_offer() {
    let (_source, feed) = unbounded::<Signal>();
    let mut bus = Broadcast::new(feed);
    let first = bus.subscribe();
    let second = bus.subscribe();
    let third = bus.subscribe();
    assert_eq!(bus.subscribers(), 3);
    drop(second);
    // Every subscriber is asked, the one that is gone included.
    let answers = bus.offer(&captured("clip"));
    assert_eq!(answers, vec![true, false, true]);
    assert_eq!(bus.settle(&captured("clip"), &answers), 2);
    assert_eq!(drain(&first), vec![captured("clip")]);
    assert_eq!(drain(&third), vec![captured("clip")]);
}

#[test]
fn settling_counts_the_subscribers_that_accepted() {
    let (_source, feed) = unbounded::<u64>();
    let mut bus = Broadcast::new(feed);
    assert_eq!(bus.settle(&1, &vec![true, true]), 0);
    let _first = bus.subscribe();
    let _second = bus.subscribe();
    let _third = bus.subscribe();
    assert_eq!(bus.settle(&1, &vec![true, false, true]), 2);
    assert_eq!(bus.settle(&1, &vec![false, false, false]), 0);
    assert_eq!(bus.settle(&1, &vec![true, true, true]), 3);
    // A subscriber without an answer did not accept; answers beyond the
    // last subscriber are not read.
    assert_eq!(bus.settle(&1, &vec![true]), 1);
    assert_eq!(bus.settle(&1, &vec![]), 0);
    assert_eq!(bus.settle(&1, &vec![false, true, true, true, true]), 2);
}

#[test]
fn an_offer_asks_every_subscriber_once() {
    let (_source, feed) = unbounded::<u64>();
    let mut bus = Broadcast::new(feed);
    assert_eq!(bus.offer(&5), Vec::<bool>::new());
    let first = bus.subscribe();
    let second = bus.subscribe();
    assert_eq!(bus.offer(&5), vec![true, true]);
    assert_eq!(first.try_iter().collect::<Vec<u64>>(), vec![5]);
    assert_eq!(second.try_iter().collect::<Vec<u64>>(), vec![5]);
    drop(first);
    drop(second);
    assert_eq!(bus.offer(&6), vec![false, false]);
}
