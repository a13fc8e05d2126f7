//! Protocol serials: numbers that order the events sent to a client.

use vstd::prelude::*;

verus! {

/// Whether a serial with number `a` was issued no earlier than one with
/// number `b`, on a counter that wraps around: numbers less than half the
/// range apart compare as they stand, numbers further apart compare the
/// other way round.
pub open spec fn no_older_than(a: u32, b: u32) -> bool {
    let distance = if a > b {
        a - b
    } else {
        b - a
    };
    if distance < u32::MAX / 2 {
        a >= b
    } else {
        b >= a
    }
}

/// A protocol serial.
#[derive(Debug, Clone, Copy, PartialEq, Eq, Hash, Structural)]
pub struct Serial(pub u32);

impl Serial {
    /// Whether this serial was issued no earlier than `other`.
    pub open spec fn spec_is_no_older_than(self, other: Serial) -> bool {
        no_older_than(self.0, other.0)
    }

    /// Whether this serial was issued no earlier than `other`.
    #[verifier::when_used_as_spec(spec_is_no_older_than)]
    pub fn is_no_older_than(self, other: Serial) -> (newer: bool)
        ensures
            newer == self.spec_is_no_older_than(other),
    {
        let a = self.0;
        let b = other.0;
        let distance = if a > b {
            a - b
        } else {
            b - a
        };
        if distance < u32::MAX / 2 {
            a >= b
        } else {
            b >= a
        }
    }
}

/// The source of serials. It starts at 1, never hands out 0, and wraps
/// around when the numbers run out.
#[derive(Debug, Clone, Copy, PartialEq, Eq, Structural)]
pub struct SerialCounter {
    pub next: u32,
}

impl SerialCounter {
    /// The number the counter hands out next.
    pub open spec fn upcoming(self) -> u32 {
        if self.next == 0 {
            1
        } else {
            self.next
        }
    }

    /// The counter after it has handed out one serial.
    pub open spec fn advanced(self) -> SerialCounter {
        SerialCounter { next: if self.upcoming() == u32::MAX { 0 } else { (self.upcoming() + 1) as u32 } }
    }

    /// A counter that has handed out nothing.
    pub fn new() -> (counter: SerialCounter)
        ensures
            counter.next == 1,
    {
        SerialCounter { next: 1 }
    }

    /// Hands out the next serial.
    pub fn next_serial(&mut self) -> (serial: Serial)
        ensures
            serial == Serial(old(self).upcoming()),
            serial.0 != 0,
            *final(self) == old(self).advanced(),
    {
        if self.next == 0 {
            self.next = 1;
        }
        let current = self.next;
        self.next = current.wrapping_add(1);
        Serial(current)
    }
}

} // verus!
