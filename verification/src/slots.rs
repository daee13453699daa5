//! The mathematical model of a composite: which slots there are, and the
//! record of the values they hold.

use vstd::prelude::*;

verus! {

/// One of the eight slots of a composite, in the order in which they are
/// assigned.
pub ghost enum Slot {
    A,
    B,
    C,
    D,
    E,
    F,
    G,
    H,
}

impl Slot {
    /// The number of slots that come before this one.
    pub open spec fn position(self) -> nat {
        match self {
            Slot::A => 0,
            Slot::B => 1,
            Slot::C => 2,
            Slot::D => 3,
            Slot::E => 4,
            Slot::F => 5,
            Slot::G => 6,
            Slot::H => 7,
        }
    }
}

/// The values held in the eight slots of a composite. A slot that is not in
/// use holds the unit value.
pub ghost struct Slots<A, B, C, D, E, F, G, H> {
    pub a: A,
    pub b: B,
    pub c: C,
    pub d: D,
    pub e: E,
    pub f: F,
    pub g: G,
    pub h: H,
}

impl<A, B, C, D, E, F, G, H> Slots<A, B, C, D, E, F, G, H> {
    /// This record with the value of `slot` taken from `source`. For slot A
    /// that is `Slots { a: source.a, ..self }`, which is what the projection
    /// `a` leaves of a composite when its handle ends at `source.a`; and so on
    /// for the other slots.
    pub open spec fn replace(self, slot: Slot, source: Self) -> Self {
        match slot {
            Slot::A => Slots { a: source.a, ..self },
            Slot::B => Slots { b: source.b, ..self },
            Slot::C => Slots { c: source.c, ..self },
            Slot::D => Slots { d: source.d, ..self },
            Slot::E => Slots { e: source.e, ..self },
            Slot::F => Slots { f: source.f, ..self },
            Slot::G => Slots { g: source.g, ..self },
            Slot::H => Slots { h: source.h, ..self },
        }
    }

    /// Whether this record and `other` hold the same value in `slot`.
    pub open spec fn same_at(self, other: Self, slot: Slot) -> bool {
        match slot {
            Slot::A => self.a == other.a,
            Slot::B => self.b == other.b,
            Slot::C => self.c == other.c,
            Slot::D => self.d == other.d,
            Slot::E => self.e == other.e,
            Slot::F => self.f == other.f,
            Slot::G => self.g == other.g,
            Slot::H => self.h == other.h,
        }
    }
}

/// A handle that is only read from leaves the composite as it was: putting
/// back into a slot the value it already holds changes nothing, so a later
/// read of the same slot returns the same value.
pub proof fn lemma_read_keeps_record<A, B, C, D, E, F, G, H>(
    held: Slots<A, B, C, D, E, F, G, H>,
    slot: Slot,
)
    ensures
        held.replace(slot, held) == held,
{
}

/// A write through the handle of one slot stores the written value in that
/// slot and changes no other slot.
pub proof fn lemma_write_touches_one_slot<A, B, C, D, E, F, G, H>(
    held: Slots<A, B, C, D, E, F, G, H>,
    source: Slots<A, B, C, D, E, F, G, H>,
    written: Slot,
    other: Slot,
)
    requires
        other != written,
    ensures
        held.replace(written, source).same_at(source, written),
        held.replace(written, source).same_at(held, other),
{
}

/// Writes through the handles of two different slots do not depend on the
/// order in which they are made.
pub proof fn lemma_writes_commute<A, B, C, D, E, F, G, H>(
    held: Slots<A, B, C, D, E, F, G, H>,
    source: Slots<A, B, C, D, E, F, G, H>,
    first: Slot,
    second: Slot,
)
    requires
        first != second,
    ensures
        held.replace(first, source).replace(second, source)
            == held.replace(second, source).replace(first, source),
{
}

} // verus!
