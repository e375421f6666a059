use std::sync::{Arc, Mutex};
use std::task::{Wake, Waker};
use vsock_core::WakerRegistration;

struct Party {
    wakes: Mutex<u32>,
}

impl Wake for Party {
    fn wake(self: Arc<Self>) {
        *self.wakes.lock().unwrap() += 1;
    }
}

fn party() -> (Arc<Party>, Waker) {
    let party = Arc::new(Party { wakes: Mutex::new(0) });
    let waker = Waker::from(party.clone());
    (party, waker)
}

fn wakes(party: &Arc<Party>) -> u32 {
    *party.wakes.lock().unwrap()
}

#[test]
fn wake_of_empty_registration_does_nothing() {
    let mut registration = WakerRegistration::new();
    registration.wake();
    registration.wake();
    assert!(registration.take().is_none());
}

#[test]
fn wake_reaches_the_registered_party_once() {
    let (a, waker) = party();
    let mut registration = WakerRegistration::new();
    registration.register(&waker);
    assert_eq!(wakes(&a), 0);
    registration.wake();
    assert_eq!(wakes(&a), 1);
    registration.wake();
    assert_eq!(wakes(&a), 1);
}

#[test]
fn registering_the_same_party_twice_wakes_it_once() {
    let (a, waker) = party();
    let mut registration = WakerRegistration::new();
    registration.register(&waker);
    registration.register(&waker);
    registration.wake();
    assert_eq!(wakes(&a), 1);
    registration.wake();
    assert_eq!(wakes(&a), 1);
}

#[test]
fn registering_the_same_party_twice_keeps_the_first_handle() {
    let (a, waker) = party();
    let mut registration = WakerRegistration::new();
    registration.register(&waker);
    let held = Arc::strong_count(&a);
    registration.register(&waker);
    assert_eq!(Arc::strong_count(&a), held);
}

#[test]
fn only_the_latest_of_two_parties_is_woken() {
    let (a, waker_a) = party();
    let (b, waker_b) = party();
    let mut registration = WakerRegistration::new();
    registration.register(&waker_a);
    registration.register(&waker_b);
    registration.wake();
    assert_eq!(wakes(&a), 0);
    assert_eq!(wakes(&b), 1);
    registration.wake();
    assert_eq!(wakes(&a), 0);
    assert_eq!(wakes(&b), 1);
}

#[test]
fn registration_can_be_used_again_after_a_wake() {
    let (a, waker_a) = party();
    let (b, waker_b) = party();
    let mut registration = WakerRegistration::new();
    registration.register(&waker_a);
    registration.wake();
    registration.register(&waker_b);
    registration.wake();
    assert_eq!(wakes(&a), 1);
    assert_eq!(wakes(&b), 1);
}

#[test]
fn take_hands_out_the_pending_handle_and_empties_the_slot() {
    let (a, waker_a) = party();
    let (b, waker_b) = party();
    let mut registration = WakerRegistration::new();
    registration.register(&waker_a);
    registration.register(&waker_b);
    let pending = registration.take().unwrap();
    assert!(pending.will_wake(&waker_b));
    assert!(!pending.will_wake(&waker_a));
    assert!(registration.take().is_none());
    pending.wake();
    assert_eq!(wakes(&a), 0);
    assert_eq!(wakes(&b), 1);
}
