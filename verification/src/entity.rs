//! Monotonic id counters: entity ids and teleport ids.  The server keeps
//! one process-wide counter of each kind; each counter is an explicit
//! value the embedding program owns (and may share behind a lock), so
//! sessions and tests can isolate their own.

use crate::coding::varint::Varint;
use vstd::prelude::*;

verus! {

/// A monotonic counter over the non-negative machine integers,
/// starting at 1.  Handing out an id returns the current value and
/// advances the counter (wrapping only at the machine limit).
#[derive(PartialEq, Eq, Structural, Clone, Copy, Debug)]
pub struct IdCounter {
    pub value: usize,
}

impl IdCounter {
    pub fn new() -> (r: IdCounter)
        ensures
            r.value == 1,
    {
        IdCounter { value: 1 }
    }

    /// Returns the current id and advances.
    pub fn fetch_add(&mut self) -> (r: usize)
        ensures
            r == old(self).value,
            final(self).value == if old(self).value == usize::MAX {
                0usize
            } else {
                (old(self).value + 1) as usize
            },
    {
        let current = self.value;
        self.value = self.value.wrapping_add(1);
        current
    }
}

/// A monotonic counter over the 32-bit signed range, starting at 1; it
/// backs the teleport ids, which travel as varints.
#[derive(PartialEq, Eq, Structural, Clone, Copy, Debug)]
pub struct TeleportIdCounter {
    pub value: i32,
}

impl TeleportIdCounter {
    pub fn new() -> (r: TeleportIdCounter)
        ensures
            r.value == 1,
    {
        TeleportIdCounter { value: 1 }
    }
}

/// Returns a new entity id, unique as long as every caller shares the
/// same counter.
pub fn get_new_eid(counter: &mut IdCounter) -> (r: usize)
    ensures
        r == old(counter).value,
        final(counter).value == if old(counter).value == usize::MAX {
            0usize
        } else {
            (old(counter).value + 1) as usize
        },
{
    counter.fetch_add()
}

/// Returns a new teleport id, unique as long as every caller shares the
/// same counter.
pub fn get_new_teleport_id(counter: &mut TeleportIdCounter) -> (r: Varint)
    ensures
        r.0 == old(counter).value,
        final(counter).value == if old(counter).value == i32::MAX {
            i32::MIN
        } else {
            (old(counter).value + 1) as i32
        },
{
    let current = counter.value;
    counter.value = counter.value.wrapping_add(1);
    Varint(current)
}

} // verus!
