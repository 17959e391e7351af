use android_looper::error::Error;
use android_looper::{AcquiredLooper, LooperHandle, LooperRef, NativeCall};

/// A stand-in for the native reference count of one looper.
struct CountProbe {
    handle: LooperHandle,
    count: i64,
    acquires: u32,
    releases: u32,
}

impl CountProbe {
    fn new(handle: LooperHandle, count: i64) -> CountProbe {
        CountProbe { handle, count, acquires: 0, releases: 0 }
    }

    fn perform(&mut self, call: NativeCall) {
        match call {
            NativeCall::Acquire(h) => {
                if h == self.handle {
                    self.count += 1;
                    self.acquires += 1;
                }
            }
            NativeCall::Release(h) => {
                if h == self.handle {
                    self.count -= 1;
                    self.releases += 1;
                }
            }
        }
    }
}

fn pin(looper: &LooperRef, probe: &mut CountProbe) -> AcquiredLooper {
    let pinned = looper.acquire();
    probe.perform(pinned.acquire_call());
    pinned
}

fn unpin(pinned: AcquiredLooper, probe: &mut CountProbe) {
    probe.perform(pinned.release_call());
}

#[test]
fn prepare_with_looper_succeeds() {
    let r = LooperRef::prepare(0x1000);
    match r {
        Ok(l) => assert_eq!(l.handle(), 0x1000),
        Err(_) => panic!("prepare failed on a live handle"),
    }
}

#[test]
fn prepare_twice_gives_equal_refs() {
    let first = LooperRef::prepare(0x2040).unwrap();
    let second = LooperRef::prepare(0x2040).unwrap();
    assert_eq!(first, second);
    assert_eq!(first.handle(), second.handle());
}

#[test]
fn prepare_null_fails() {
    let r = LooperRef::prepare(0);
    assert!(matches!(r, Err(Error::PrepareLooperFailed)));
    assert_eq!(r.unwrap_err(), Error::PrepareLooperFailed);
}

#[test]
fn from_handle_round_trip() {
    for h in [0usize, 1, 0xdead_beef, usize::MAX] {
        assert_eq!(LooperRef::from_handle(h).handle(), h);
    }
}

#[test]
fn refs_equal_by_handle() {
    assert_eq!(LooperRef::from_handle(5), LooperRef::from_handle(5));
    assert_ne!(LooperRef::from_handle(5), LooperRef::from_handle(6));
}

#[test]
fn acquire_keeps_handle() {
    let looper = LooperRef::from_handle(0x3000);
    assert_eq!(looper.acquire().handle(), 0x3000);
    assert_eq!(AcquiredLooper::from_ref(looper).handle(), 0x3000);
}

#[test]
fn pin_calls_acquire_then_release() {
    let pinned = LooperRef::from_handle(0x4000).acquire();
    assert_eq!(pinned.acquire_call(), NativeCall::Acquire(0x4000));
    assert_eq!(pinned.release_call(), NativeCall::Release(0x4000));
    assert_ne!(pinned.release_call(), pinned.acquire_call());
}

#[test]
fn scoped_pin_nets_zero() {
    let looper = LooperRef::from_handle(0x5000);
    let mut probe = CountProbe::new(0x5000, 1);
    let pinned = pin(&looper, &mut probe);
    assert_eq!(probe.count, 2);
    unpin(pinned, &mut probe);
    assert_eq!(probe.count, 1);
    assert_eq!(probe.acquires, 1);
    assert_eq!(probe.releases, 1);
}

#[test]
fn pins_count_independently() {
    let looper = LooperRef::from_handle(0x6000);
    let other = LooperRef::from_handle(0x7000);
    let mut probe = CountProbe::new(0x6000, 1);
    let a = pin(&looper, &mut probe);
    let b = pin(&looper, &mut probe);
    let c = pin(&other, &mut probe);
    assert_eq!(probe.count, 3);
    let d = pin(&looper, &mut probe);
    assert_eq!(probe.count, 4);
    unpin(b, &mut probe);
    assert_eq!(probe.count, 3);
    unpin(c, &mut probe);
    assert_eq!(probe.count, 3);
    unpin(a, &mut probe);
    unpin(d, &mut probe);
    assert_eq!(probe.count, 1);
}

#[test]
fn pin_handed_over_and_dropped_restores_count() {
    let looper = LooperRef::prepare(0x8000).unwrap();
    let mut probe = CountProbe::new(looper.handle(), 1);
    let pinned = pin(&looper, &mut probe);
    let moved: AcquiredLooper = pinned;
    unpin(moved, &mut probe);
    assert_eq!(probe.count, 1);
    assert_eq!(looper.handle(), 0x8000);
}
