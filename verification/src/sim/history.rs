//! Storage for a signal's transition history.
//!
//! The transitions live in a `smallvec::SmallVec` with room for sixteen
//! entries inline, so that the many signals that rarely change never
//! allocate. Verus cannot look inside that vector: its contents are named
//! by [`transitions`], and the functions below state, of each `SmallVec`
//! method they call, what that method does to the contents. None of these
//! statements is proved.

use vstd::prelude::*;
use smallvec::SmallVec;
use crate::sim::signal::SignalLevel;
use crate::sim::timing::Time;

verus! {

/// The most transitions a history is ever asked to hold. Below this
/// count, on 32-bit and 64-bit machines alike, the vector's capacity
/// computation cannot overflow.
pub const HISTORY_CAPACITY: usize = 0x0400_0000;

/// A signal's transitions, oldest first, kept in a
/// `SmallVec<[(Time, SignalLevel); 16]>`.
#[verifier::external_body]
#[derive(Debug)]
pub struct History {
    items: SmallVec<[(Time, SignalLevel); 16]>,
}

/// The transitions that a history holds, oldest first.
pub uninterp spec fn transitions(history: History) -> Seq<(Time, SignalLevel)>;

/// `SmallVec::new`: a vector without elements.
#[verifier::external_body]
pub(crate) fn empty_history() -> (history: History)
    ensures
        transitions(history) == Seq::<(Time, SignalLevel)>::empty(),
{
    History { items: SmallVec::new() }
}

/// `SmallVec::len`: the number of elements.
#[verifier::external_body]
pub(crate) fn history_len(history: &History) -> (len: usize)
    ensures
        len == transitions(*history).len(),
{
    history.items.len()
}

/// `SmallVec::push`: appends one element. The vector grows as needed;
/// it panics only where the new capacity in bytes would overflow, which
/// the bound on the length rules out.
#[verifier::external_body]
pub(crate) fn history_push(history: &mut History, time: Time, level: SignalLevel)
    requires
        transitions(*old(history)).len() < HISTORY_CAPACITY,
    ensures
        transitions(*final(history)) == transitions(*old(history)).push((time, level)),
{
    history.items.push((time, level));
}

/// `SmallVec::drain` over `0..count`, the iterator dropped at once: the
/// first `count` elements are removed and the rest move to the front.
/// `drain` panics where the range ends beyond the length.
#[verifier::external_body]
pub(crate) fn history_drop_oldest(history: &mut History, count: usize)
    requires
        count <= transitions(*old(history)).len(),
    ensures
        transitions(*final(history)) == transitions(*old(history)).subrange(
            count as int,
            transitions(*old(history)).len() as int,
        ),
{
    history.items.drain(0..count);
}

/// `SmallVec::clear`: removes all elements.
#[verifier::external_body]
pub(crate) fn history_clear(history: &mut History)
    ensures
        transitions(*final(history)) == Seq::<(Time, SignalLevel)>::empty(),
{
    history.items.clear();
}

/// `SmallVec::as_slice`: the elements as a slice.
#[verifier::external_body]
pub(crate) fn history_as_slice(history: &History) -> (slice: &[(Time, SignalLevel)])
    ensures
        slice@ == transitions(*history),
{
    history.items.as_slice()
}

/// `SmallVec::clone`: a vector with equal elements in the same order.
#[verifier::external_body]
pub(crate) fn history_clone(history: &History) -> (copy: History)
    ensures
        transitions(copy) == transitions(*history),
{
    History { items: history.items.clone() }
}

} // verus!
