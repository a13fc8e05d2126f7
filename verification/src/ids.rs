//! The identifiers by which windows, tags and outputs refer to one another.
//!
//! Nothing in the compositor holds a reference to anything else: every
//! cross-reference is an identifier that is looked up when it is needed, and
//! a lookup that finds nothing is an ordinary outcome.

use vstd::prelude::*;

verus! {

/// The identity of a window, stable for the window's whole life.
#[derive(Debug, Clone, Copy, PartialEq, Eq, Hash, Structural)]
pub struct WindowId(pub u32);

/// The identity of a tag.
#[derive(Debug, Clone, Copy, PartialEq, Eq, Hash, Structural)]
pub struct TagId(pub u32);

/// The identity of an output.
#[derive(Debug, Clone, Copy, PartialEq, Eq, Hash, Structural)]
pub struct OutputId(pub u32);

/// The identity of a layer surface, such as a panel or a wallpaper.
#[derive(Debug, Clone, Copy, PartialEq, Eq, Hash, Structural)]
pub struct LayerId(pub u32);

/// The identity of a popup.
#[derive(Debug, Clone, Copy, PartialEq, Eq, Hash, Structural)]
pub struct PopupId(pub u32);

/// An identifier that is told apart by the number it wraps.
pub trait Key: Copy {
    /// The number behind the identifier.
    spec fn key(self) -> u32;

    /// The number behind the identifier.
    fn raw(self) -> (raw: u32)
        ensures
            raw == self.key(),
    ;

    /// Two identifiers with the same number are the same identifier.
    proof fn same_key_same_id(self, other: Self)
        ensures
            self.key() == other.key() <==> self == other,
    ;
}

impl Key for WindowId {
    open spec fn key(self) -> u32 {
        self.0
    }

    fn raw(self) -> (raw: u32) {
        self.0
    }

    proof fn same_key_same_id(self, other: Self) {
    }
}

impl Key for TagId {
    open spec fn key(self) -> u32 {
        self.0
    }

    fn raw(self) -> (raw: u32) {
        self.0
    }

    proof fn same_key_same_id(self, other: Self) {
    }
}

impl Key for OutputId {
    open spec fn key(self) -> u32 {
        self.0
    }

    fn raw(self) -> (raw: u32) {
        self.0
    }

    proof fn same_key_same_id(self, other: Self) {
    }
}

/// `s` without any occurrence of `x`, the rest in its order.
pub open spec fn without<T>(s: Seq<T>, x: T) -> Seq<T> {
    s.filter(|t: T| t != x)
}

/// Whether `x` occurs in `v`.
pub fn contains_id<T: Key>(v: &Vec<T>, x: T) -> (found: bool)
    ensures
        found == v@.contains(x),
{
    let mut i: usize = 0;
    while i < v.len()
        invariant
            i <= v.len(),
            forall|k: int| 0 <= k < i ==> v@[k] != x,
        decreases v.len() - i,
    {
        proof {
            v@[i as int].same_key_same_id(x);
        }
        if v[i].raw() == x.raw() {
            return true;
        }
        i = i + 1;
    }
    false
}

/// Removes every occurrence of `x` from `v` and keeps the rest in its order.
pub fn remove_id<T: Key>(v: &mut Vec<T>, x: T)
    ensures
        final(v)@ == without(old(v)@, x),
{
    let mut kept: Vec<T> = Vec::new();
    let mut i: usize = 0;
    while i < v.len()
        invariant
            i <= v.len(),
            v@ == old(v)@,
            kept@ == without(v@.subrange(0, i as int), x),
        decreases v.len() - i,
    {
        proof {
            v@[i as int].same_key_same_id(x);
            let next = v@.subrange(0, i + 1);
            assert(next.drop_last() == v@.subrange(0, i as int));
            reveal(Seq::filter);
        }
        if v[i].raw() != x.raw() {
            kept.push(v[i]);
        }
        i = i + 1;
    }
    assert(v@.subrange(0, i as int) == v@);
    *v = kept;
}

} // verus!
