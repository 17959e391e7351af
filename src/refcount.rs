//! How native calls move a looper's reference count, and the laws that pins obey.
use vstd::prelude::*;

use crate::{AcquiredLooper, LooperHandle, NativeCall};

verus! {

/// How much `call` changes the reference count of the looper `h`.
pub open spec fn count_change(call: NativeCall, h: LooperHandle) -> int {
    match call {
        NativeCall::Acquire(x) => if x == h { 1int } else { 0int },
        NativeCall::Release(x) => if x == h { -1int } else { 0int },
    }
}

/// How much the calls, performed in order, change the reference count of `h`.
pub open spec fn net_count_change(calls: Seq<NativeCall>, h: LooperHandle) -> int
    decreases calls.len(),
{
    if calls.len() == 0 {
        0
    } else {
        net_count_change(calls.drop_last(), h) + count_change(calls.last(), h)
    }
}

/// How many of the pins hold the looper `h`.
pub open spec fn pins_on(pins: Seq<AcquiredLooper>, h: LooperHandle) -> int
    decreases pins.len(),
{
    if pins.len() == 0 {
        0
    } else {
        pins_on(pins.drop_last(), h) + if pins.last()@ == h { 1int } else { 0int }
    }
}

/// The calls that make the pins, in order.
pub open spec fn acquire_calls(pins: Seq<AcquiredLooper>) -> Seq<NativeCall>
    decreases pins.len(),
{
    if pins.len() == 0 {
        Seq::empty()
    } else {
        acquire_calls(pins.drop_last()).push(pins.last().spec_acquire_call())
    }
}

/// The calls that end the pins, in order.
pub open spec fn release_calls(pins: Seq<AcquiredLooper>) -> Seq<NativeCall>
    decreases pins.len(),
{
    if pins.len() == 0 {
        Seq::empty()
    } else {
        release_calls(pins.drop_last()).push(pins.last().spec_release_call())
    }
}

/// Calls performed one after another change the count by the sum of what each
/// part changes it by.
pub proof fn lemma_net_count_change_append(a: Seq<NativeCall>, b: Seq<NativeCall>, h: LooperHandle)
    ensures
        net_count_change(a + b, h) == net_count_change(a, h) + net_count_change(b, h),
    decreases b.len(),
{
    if b.len() > 0 {
        assert((a + b).drop_last() =~= a + b.drop_last());
        lemma_net_count_change_append(a, b.drop_last(), h);
    } else {
        assert(a + b =~= a);
    }
}

/// A pin raises the count of its own looper by exactly one when made and
/// lowers it by exactly one when it ends, through two distinct entry points,
/// and leaves every other looper's count alone: a scoped pin nets zero.
pub proof fn lemma_pin_nets_zero(pin: AcquiredLooper, h: LooperHandle)
    ensures
        count_change(pin.spec_acquire_call(), pin@) == 1,
        count_change(pin.spec_release_call(), pin@) == -1,
        pin.spec_acquire_call() != pin.spec_release_call(),
        h != pin@ ==> count_change(pin.spec_acquire_call(), h) == 0,
        h != pin@ ==> count_change(pin.spec_release_call(), h) == 0,
        net_count_change(seq![pin.spec_acquire_call(), pin.spec_release_call()], h) == 0,
{
    let s = seq![pin.spec_acquire_call(), pin.spec_release_call()];
    let first = s.drop_last();
    assert(first =~= seq![pin.spec_acquire_call()]);
    assert(first.drop_last() =~= Seq::<NativeCall>::empty());
    assert(first.last() == pin.spec_acquire_call());
    assert(s.last() == pin.spec_release_call());
    assert(net_count_change(first.drop_last(), h) == 0);
    assert(net_count_change(first, h) == count_change(pin.spec_acquire_call(), h));
}

/// Making the pins raises the count of `h` by the number of them on `h`.
pub proof fn lemma_acquire_calls(pins: Seq<AcquiredLooper>, h: LooperHandle)
    ensures
        net_count_change(acquire_calls(pins), h) == pins_on(pins, h),
    decreases pins.len(),
{
    if pins.len() > 0 {
        lemma_acquire_calls(pins.drop_last(), h);
        assert(acquire_calls(pins).drop_last() =~= acquire_calls(pins.drop_last()));
    }
}

/// Ending the pins lowers the count of `h` by the number of them on `h`.
pub proof fn lemma_release_calls(pins: Seq<AcquiredLooper>, h: LooperHandle)
    ensures
        net_count_change(release_calls(pins), h) == -pins_on(pins, h),
    decreases pins.len(),
{
    if pins.len() > 0 {
        lemma_release_calls(pins.drop_last(), h);
        assert(release_calls(pins).drop_last() =~= release_calls(pins.drop_last()));
    }
}

/// Pins made and ended independently each count on their own: after the pins
/// `made` were made and the pins `ended` were ended, the count of a looper has
/// moved by the number of pins on it that are still outstanding.
pub proof fn lemma_outstanding_pins(
    made: Seq<AcquiredLooper>,
    ended: Seq<AcquiredLooper>,
    h: LooperHandle,
)
    ensures
        net_count_change(acquire_calls(made) + release_calls(ended), h) == pins_on(made, h)
            - pins_on(ended, h),
{
    lemma_net_count_change_append(acquire_calls(made), release_calls(ended), h);
    lemma_acquire_calls(made, h);
    lemma_release_calls(ended, h);
}

} // verus!
