use mio::{Events, Interest, Poll, Token};
use retty_io::{channel, Poller, RegistrationError, SendError, TryRecvError, WakerRegistry};
use std::collections::HashSet;
use std::time::Duration;

fn wait(poll: &mut Poller, ms: u64) -> Vec<(usize, bool)> {
    let mut events = Events::with_capacity(8);
    poll.poll(&mut events, Some(Duration::from_millis(ms))).unwrap();
    events.iter().map(|e| (e.token().0, e.is_readable())).collect()
}

fn two_receivers_see_one_send(tag: usize) {
    let (tx, rx) = channel();
    const CHANNEL: Token = Token(0);
    let mut polls = Vec::new();
    let mut receivers = Vec::new();
    for _ in 0..2 {
        let mut rx = rx.clone();
        let mut poll = Poller::new().unwrap();
        rx.register(&mut poll, CHANNEL, Interest::READABLE).unwrap();
        polls.push(poll);
        receivers.push(rx);
    }
    let _ = tx.send("Hello world!");
    let mut taken = Vec::new();
    for (i, (poll, rx)) in polls.iter_mut().zip(receivers.iter()).enumerate() {
        let mut events = Events::with_capacity(2);
        poll.poll(&mut events, Some(Duration::from_millis(1000))).unwrap();
        let mut seen = false;
        for event in events.iter() {
            match event.token() {
                CHANNEL => {
                    println!("receive CHANNEL {} {}", tag, i);
                    seen = true;
                    if let Ok(v) = rx.try_recv() {
                        taken.push(v);
                    }
                }
                _ => unreachable!(),
            }
        }
        assert!(seen);
    }
    assert_eq!(taken, vec!["Hello world!"]);
}

#[test]
fn channel_test_channel() {
    two_receivers_see_one_send(0);
}

#[test]
fn broadcast_test_channel() {
    two_receivers_see_one_send(1);
}

#[test]
fn no_loss_no_duplication() {
    let (tx, rx) = channel::<u32>();
    let senders: Vec<_> = (0..4).map(|_| tx.clone()).collect();
    let receivers: Vec<_> = (0..3).map(|_| rx.clone()).collect();
    drop(tx);
    drop(rx);
    let mut got: Vec<u32> = Vec::new();
    let mut closed = [false; 3];
    for k in 0..1000u32 {
        for (t, s) in senders.iter().enumerate() {
            assert!(s.send(t as u32 * 1000 + k).is_ok());
        }
        let r = &receivers[(k % 3) as usize];
        for _ in 0..(k % 5) {
            if let Ok(v) = r.try_recv() {
                got.push(v);
            }
        }
    }
    drop(senders);
    while closed.iter().any(|c| !c) {
        for (i, r) in receivers.iter().enumerate() {
            match r.try_recv() {
                Ok(v) => got.push(v),
                Err(TryRecvError::Closed) => closed[i] = true,
                Err(TryRecvError::Empty) => panic!("a drained queue without senders is closed"),
            }
        }
    }
    assert_eq!(got.len(), 4000);
    let set: HashSet<u32> = got.into_iter().collect();
    assert_eq!(set, (0..4000u32).collect::<HashSet<u32>>());
}

#[test]
fn clone_ids_are_distinct() {
    let (_tx, rx) = channel::<u8>();
    assert_eq!(rx.id(), 0);
    let mut all = vec![rx.clone(), rx.clone()];
    for k in 0..100 {
        let c = all[k % all.len()].clone();
        all.push(c);
    }
    let mut ids: Vec<usize> = all.iter().map(|r| r.id()).collect();
    ids.push(rx.id());
    let n = ids.len();
    let set: HashSet<usize> = ids.into_iter().collect();
    assert_eq!(set.len(), n);
}

#[test]
fn clone_takes_next_id() {
    let (_tx, rx) = channel::<u8>();
    let a = rx.clone();
    let b = a.clone();
    assert_eq!((rx.id(), a.id(), b.id()), (0, 1, 2));
}

#[test]
fn broadcast_wake_single_consume() {
    let (tx, rx) = channel::<&str>();
    let mut a = rx.clone();
    let mut b = rx.clone();
    let mut pa = Poller::new().unwrap();
    let mut pb = Poller::new().unwrap();
    a.register(&mut pa, Token(7), Interest::READABLE).unwrap();
    b.register(&mut pb, Token(9), Interest::READABLE).unwrap();
    tx.send("item").ok().unwrap();
    assert_eq!(wait(&mut pa, 1000), vec![(7, true)]);
    assert_eq!(wait(&mut pb, 1000), vec![(9, true)]);
    let ra = a.try_recv();
    let rb = b.try_recv();
    let got: Vec<&str> = [&ra, &rb].iter().filter_map(|r| r.as_ref().ok().copied()).collect();
    assert_eq!(got, vec!["item"]);
    assert!(matches!(ra, Err(TryRecvError::Empty)) || matches!(rb, Err(TryRecvError::Empty)));
}

#[test]
fn deregister_stops_wakes() {
    let (tx, mut rx) = channel::<u8>();
    let mut poll = Poller::new().unwrap();
    rx.register(&mut poll, Token(1), Interest::READABLE).unwrap();
    rx.deregister().unwrap();
    tx.send(5).ok().unwrap();
    assert!(wait(&mut poll, 200).is_empty());
    assert!(matches!(rx.try_recv(), Ok(5)));
}

#[test]
fn interest_mask_is_ignored() {
    let (tx, mut rx) = channel::<u8>();
    let mut poll = Poller::new().unwrap();
    rx.register(&mut poll, Token(3), Interest::WRITABLE).unwrap();
    tx.send(1).ok().unwrap();
    assert_eq!(wait(&mut poll, 1000), vec![(3, true)]);
}

#[test]
fn double_register_is_refused() {
    let (tx, mut rx) = channel::<u8>();
    let mut poll = Poller::new().unwrap();
    rx.register(&mut poll, Token(4), Interest::READABLE).unwrap();
    let again = rx.register(&mut poll, Token(5), Interest::READABLE);
    assert!(matches!(again, Err(RegistrationError::AlreadyRegistered)));
    tx.send(2).ok().unwrap();
    assert_eq!(wait(&mut poll, 1000), vec![(4, true)]);
}

#[test]
fn register_after_deregister_arms_again() {
    let (tx, mut rx) = channel::<u8>();
    let mut first = Poller::new().unwrap();
    let mut second = Poller::new().unwrap();
    rx.register(&mut first, Token(4), Interest::READABLE).unwrap();
    rx.deregister().unwrap();
    rx.register(&mut second, Token(6), Interest::READABLE).unwrap();
    tx.send(2).ok().unwrap();
    assert_eq!(wait(&mut second, 1000), vec![(6, true)]);
    assert!(wait(&mut first, 100).is_empty());
}

#[test]
fn reregister_replaces_token() {
    let (tx, mut rx) = channel::<u8>();
    let mut first = Poller::new().unwrap();
    let mut second = Poller::new().unwrap();
    rx.register(&mut first, Token(1), Interest::READABLE).unwrap();
    rx.reregister(&mut second, Token(2), Interest::READABLE).unwrap();
    tx.send(2).ok().unwrap();
    assert_eq!(wait(&mut second, 1000), vec![(2, true)]);
    assert!(wait(&mut first, 100).is_empty());
}

#[test]
fn unregistered_receiver_is_refused() {
    let (_tx, mut rx) = channel::<u8>();
    let mut poll = Poller::new().unwrap();
    let mut other = rx.clone();
    let r = other.reregister(&mut poll, Token(1), Interest::READABLE);
    assert!(matches!(r, Err(RegistrationError::NotRegistered)));
    assert!(matches!(other.deregister(), Err(RegistrationError::NotRegistered)));
}

#[test]
fn clone_does_not_share_registration() {
    let (_tx, mut rx) = channel::<u8>();
    let mut poll = Poller::new().unwrap();
    rx.register(&mut poll, Token(1), Interest::READABLE).unwrap();
    let mut other = rx.clone();
    assert!(matches!(other.deregister(), Err(RegistrationError::NotRegistered)));
}

#[test]
fn send_without_receivers_returns_value() {
    let (tx, rx) = channel::<u8>();
    drop(rx);
    assert!(matches!(tx.send(42), Err(SendError(42))));
}

#[test]
fn try_recv_empty_then_closed() {
    let (tx, rx) = channel::<u8>();
    assert!(matches!(rx.try_recv(), Err(TryRecvError::Empty)));
    tx.send(3).ok().unwrap();
    drop(tx);
    assert!(matches!(rx.try_recv(), Ok(3)));
    assert!(matches!(rx.try_recv(), Err(TryRecvError::Closed)));
}

#[test]
fn fifo_across_one_sender() {
    let (tx, rx) = channel::<u8>();
    for v in [3u8, 1, 2] {
        tx.send(v).ok().unwrap();
    }
    let got: Vec<u8> = (0..3).map(|_| rx.try_recv().ok().unwrap()).collect();
    assert_eq!(got, vec![3, 1, 2]);
}

fn waker(poll: &Poll, token: usize) -> mio::Waker {
    mio::Waker::new(poll.registry(), Token(token)).unwrap()
}

#[test]
fn table_wakes_exactly_armed_ids() {
    let polls: Vec<Poll> = (0..3).map(|_| Poll::new().unwrap()).collect();
    let mut table = WakerRegistry::new();
    assert!(table.wake_all().is_empty());
    table.arm(0, 0, waker(&polls[0], 0));
    table.arm(3, 3, waker(&polls[1], 3));
    table.arm(5, 5, waker(&polls[2], 5));
    table.disarm(3);
    table.disarm(4);
    let mut woken = table.wake_all();
    woken.sort();
    assert_eq!(woken, vec![0, 5]);
    assert!(table.has_entry(3) && !table.armed(3) && table.armed(5));
    assert!(!table.has_entry(4));
}

#[test]
fn table_allocates_from_one() {
    let mut table = WakerRegistry::new();
    assert_eq!(table.allocate_id(), 1);
    assert_eq!(table.allocate_id(), 2);
    assert_eq!(table.allocate_id(), 3);
}

#[test]
fn receiver_registration_is_strict() {
    let (_tx, rx) = channel::<u8>();
    let mut rx = rx.clone();
    let mut a = Poller::new().unwrap();
    let mut b = Poller::new().unwrap();
    assert!(!rx.is_registered());
    assert!(matches!(rx.deregister(), Err(RegistrationError::NotRegistered)));
    assert!(matches!(
        rx.reregister(&mut a, Token(2), Interest::READABLE),
        Err(RegistrationError::NotRegistered)
    ));
    assert!(rx.register(&mut a, Token(2), Interest::READABLE).is_ok());
    assert!(rx.is_registered());
    assert!(matches!(
        rx.register(&mut a, Token(8), Interest::READABLE),
        Err(RegistrationError::AlreadyRegistered)
    ));
    assert!(rx.deregister().is_ok());
    assert!(rx.deregister().is_ok());
    assert!(!rx.is_registered());
    assert!(rx.reregister(&mut b, Token(2), Interest::READABLE).is_ok());
    assert!(rx.is_registered());
}

#[test]
fn deregister_before_any_send() {
    let (tx, mut rx) = channel::<u8>();
    let mut poll = Poller::new().unwrap();
    assert!(matches!(rx.deregister(), Err(RegistrationError::NotRegistered)));
    rx.register(&mut poll, Token(1), Interest::READABLE).unwrap();
    assert!(rx.deregister().is_ok());
    tx.send(1).ok().unwrap();
    assert!(wait(&mut poll, 200).is_empty());
}

#[test]
fn sent_value_is_received_once() {
    let (tx, rx) = channel::<i32>();
    assert!(matches!(rx.try_recv(), Err(TryRecvError::Empty)));
    assert!(tx.send(42).is_ok());
    assert!(matches!(rx.try_recv(), Ok(42)));
    assert!(matches!(rx.try_recv(), Err(TryRecvError::Empty)));
}

#[test]
fn clones_share_one_fifo_queue() {
    let (tx, rx) = channel::<i32>();
    assert!(tx.send(1).is_ok());
    assert!(tx.send(2).is_ok());
    let rx2 = rx.clone();
    assert!(matches!(rx2.try_recv(), Ok(1)));
    assert!(matches!(rx.try_recv(), Ok(2)));
    assert!(matches!(rx2.try_recv(), Err(TryRecvError::Empty)));
}

#[test]
fn separate_channels_do_not_share_wakes() {
    let (tx1, _rx1) = channel::<u8>();
    let (_tx2, mut rx2) = channel::<u8>();
    let mut poll = Poller::new().unwrap();
    rx2.register(&mut poll, Token(1), Interest::READABLE).unwrap();
    assert!(tx1.send(1).is_ok());
    assert!(wait(&mut poll, 100).is_empty());
    assert!(matches!(rx2.try_recv(), Err(TryRecvError::Empty)));
}

#[test]
fn poller_records_its_waker() {
    let (_tx, mut rx) = channel::<u8>();
    let mut poll = Poller::new().unwrap();
    assert!(!poll.waker_made());
    assert!(rx.register(&mut poll, Token(1), Interest::READABLE).is_ok());
    assert!(poll.waker_made());
    assert!(rx.deregister().is_ok());
    assert!(poll.waker_made());
}
