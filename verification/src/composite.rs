//! The composite itself: its builder steps and its slot projections.

use crate::order::may_assign;
use crate::slots::Slot;
use crate::slots::Slots;
use vstd::prelude::*;

verus! {

/// A composite of up to eight slots, each of a type of its own.
///
/// A composite is started with [`Sp::from_a`] and grown by `with_b` to
/// `with_h`, one slot at a time and in that order. Slots that are not in use
/// have the unit type, which holds no data.
///
/// For each slot there is a projection, `a` to `h`, from an exclusive handle
/// to the composite to an exclusive handle to that slot. While the slot's
/// handle lives, the composite is borrowed: it can be neither moved nor
/// reached through another handle.
pub struct Sp<A, B = (), C = (), D = (), E = (), F = (), G = (), H = ()> {
    a: A,
    b: B,
    c: C,
    d: D,
    e: E,
    f: F,
    g: G,
    h: H,
    filled: Ghost<nat>,
}

impl<A, B, C, D, E, F, G, H> View for Sp<A, B, C, D, E, F, G, H> {
    type V = Slots<A, B, C, D, E, F, G, H>;

    /// The values that the slots hold.
    closed spec fn view(&self) -> Slots<A, B, C, D, E, F, G, H> {
        Slots {
            a: self.a,
            b: self.b,
            c: self.c,
            d: self.d,
            e: self.e,
            f: self.f,
            g: self.g,
            h: self.h,
        }
    }
}

impl<A> Sp<A> {
    /// Starts a composite: slot A holds `a`, and no other slot is in use.
    pub fn from_a(a: A) -> (sp: Self)
        ensures
            sp@ == (Slots { a, b: (), c: (), d: (), e: (), f: (), g: (), h: () }),
            sp.filled() == 1,
    {
        Sp {
            a,
            b: (),
            c: (),
            d: (),
            e: (),
            f: (),
            g: (),
            h: (),
            filled: Ghost(1),
        }
    }

    /// Adds slot B to a composite in which exactly slot A has been
    /// assigned. The slots assigned before keep their values.
    pub fn with_b<B>(self, b: B) -> (sp: Sp<A, B>)
        requires
            may_assign(self.filled(), Slot::B),
        ensures
            sp@ == (Slots { a: self@.a, b, c: (), d: (), e: (), f: (), g: (), h: () }),
            sp.filled() == 2,
    {
        Sp {
            a: self.a,
            b,
            c: (),
            d: (),
            e: (),
            f: (),
            g: (),
            h: (),
            filled: Ghost(2),
        }
    }
}

impl<A, B> Sp<A, B> {
    /// Adds slot C to a composite in which exactly slots A and B have been
    /// assigned. The slots assigned before keep their values.
    pub fn with_c<C>(self, c: C) -> (sp: Sp<A, B, C>)
        requires
            may_assign(self.filled(), Slot::C),
        ensures
            sp@ == (Slots { a: self@.a, b: self@.b, c, d: (), e: (), f: (), g: (), h: () }),
            sp.filled() == 3,
    {
        Sp {
            a: self.a,
            b: self.b,
            c,
            d: (),
            e: (),
            f: (),
            g: (),
            h: (),
            filled: Ghost(3),
        }
    }
}

impl<A, B, C> Sp<A, B, C> {
    /// Adds slot D to a composite in which exactly slots A to C have been
    /// assigned. The slots assigned before keep their values.
    pub fn with_d<D>(self, d: D) -> (sp: Sp<A, B, C, D>)
        requires
            may_assign(self.filled(), Slot::D),
        ensures
            sp@ == (Slots { a: self@.a, b: self@.b, c: self@.c, d, e: (), f: (), g: (), h: () }),
            sp.filled() == 4,
    {
        Sp {
            a: self.a,
            b: self.b,
            c: self.c,
            d,
            e: (),
            f: (),
            g: (),
            h: (),
            filled: Ghost(4),
        }
    }
}

impl<A, B, C, D> Sp<A, B, C, D> {
    /// Adds slot E to a composite in which exactly slots A to D have been
    /// assigned. The slots assigned before keep their values.
    pub fn with_e<E>(self, e: E) -> (sp: Sp<A, B, C, D, E>)
        requires
            may_assign(self.filled(), Slot::E),
        ensures
            sp@ == (Slots {
                a: self@.a,
                b: self@.b,
                c: self@.c,
                d: self@.d,
                e,
                f: (),
                g: (),
                h: (),
            }),
            sp.filled() == 5,
    {
        Sp {
            a: self.a,
            b: self.b,
            c: self.c,
            d: self.d,
            e,
            f: (),
            g: (),
            h: (),
            filled: Ghost(5),
        }
    }
}

impl<A, B, C, D, E> Sp<A, B, C, D, E> {
    /// Adds slot F to a composite in which exactly slots A to E have been
    /// assigned. The slots assigned before keep their values.
    pub fn with_f<F>(self, f: F) -> (sp: Sp<A, B, C, D, E, F>)
        requires
            may_assign(self.filled(), Slot::F),
        ensures
            sp@ == (Slots {
                a: self@.a,
                b: self@.b,
                c: self@.c,
                d: self@.d,
                e: self@.e,
                f,
                g: (),
                h: (),
            }),
            sp.filled() == 6,
    {
        Sp {
            a: self.a,
            b: self.b,
            c: self.c,
            d: self.d,
            e: self.e,
            f,
            g: (),
            h: (),
            filled: Ghost(6),
        }
    }
}

impl<A, B, C, D, E, F> Sp<A, B, C, D, E, F> {
    /// Adds slot G to a composite in which exactly slots A to F have been
    /// assigned. The slots assigned before keep their values.
    pub fn with_g<G>(self, g: G) -> (sp: Sp<A, B, C, D, E, F, G>)
        requires
            may_assign(self.filled(), Slot::G),
        ensures
            sp@ == (Slots {
                a: self@.a,
                b: self@.b,
                c: self@.c,
                d: self@.d,
                e: self@.e,
                f: self@.f,
                g,
                h: (),
            }),
            sp.filled() == 7,
    {
        Sp {
            a: self.a,
            b: self.b,
            c: self.c,
            d: self.d,
            e: self.e,
            f: self.f,
            g,
            h: (),
            filled: Ghost(7),
        }
    }
}

impl<A, B, C, D, E, F, G> Sp<A, B, C, D, E, F, G> {
    /// Adds slot H to a composite in which exactly slots A to G have been
    /// assigned. The slots assigned before keep their values.
    pub fn with_h<H>(self, h: H) -> (sp: Sp<A, B, C, D, E, F, G, H>)
        requires
            may_assign(self.filled(), Slot::H),
        ensures
            sp@ == (Slots {
                a: self@.a,
                b: self@.b,
                c: self@.c,
                d: self@.d,
                e: self@.e,
                f: self@.f,
                g: self@.g,
                h,
            }),
            sp.filled() == 8,
    {
        Sp {
            a: self.a,
            b: self.b,
            c: self.c,
            d: self.d,
            e: self.e,
            f: self.f,
            g: self.g,
            h,
            filled: Ghost(8),
        }
    }
}

impl<A, B, C, D, E, F, G, H> Sp<A, B, C, D, E, F, G, H> {
    /// How many slots have been assigned, counted from slot A.
    pub closed spec fn filled(&self) -> nat {
        self.filled@
    }

    /// Turns an exclusive handle to the composite into an exclusive handle to
    /// slot A. The handle starts at the slot's value; what it holds in the end
    /// is the slot's new value, and nothing else of the composite changes.
    pub fn a(&mut self) -> (slot: &mut A)
        ensures
            *slot == old(self)@.a,
            final(self)@ == (Slots { a: *final(slot), ..old(self)@ }),
            final(self).filled() == old(self).filled(),
    {
        &mut self.a
    }

    /// Turns an exclusive handle to the composite into an exclusive handle to
    /// slot B. The handle starts at the slot's value; what it holds in the end
    /// is the slot's new value, and nothing else of the composite changes.
    pub fn b(&mut self) -> (slot: &mut B)
        ensures
            *slot == old(self)@.b,
            final(self)@ == (Slots { b: *final(slot), ..old(self)@ }),
            final(self).filled() == old(self).filled(),
    {
        &mut self.b
    }

    /// Turns an exclusive handle to the composite into an exclusive handle to
    /// slot C. The handle starts at the slot's value; what it holds in the end
    /// is the slot's new value, and nothing else of the composite changes.
    pub fn c(&mut self) -> (slot: &mut C)
        ensures
            *slot == old(self)@.c,
            final(self)@ == (Slots { c: *final(slot), ..old(self)@ }),
            final(self).filled() == old(self).filled(),
    {
        &mut self.c
    }

    /// Turns an exclusive handle to the composite into an exclusive handle to
    /// slot D. The handle starts at the slot's value; what it holds in the end
    /// is the slot's new value, and nothing else of the composite changes.
    pub fn d(&mut self) -> (slot: &mut D)
        ensures
            *slot == old(self)@.d,
            final(self)@ == (Slots { d: *final(slot), ..old(self)@ }),
            final(self).filled() == old(self).filled(),
    {
        &mut self.d
    }

    /// Turns an exclusive handle to the composite into an exclusive handle to
    /// slot E. The handle starts at the slot's value; what it holds in the end
    /// is the slot's new value, and nothing else of the composite changes.
    pub fn e(&mut self) -> (slot: &mut E)
        ensures
            *slot == old(self)@.e,
            final(self)@ == (Slots { e: *final(slot), ..old(self)@ }),
            final(self).filled() == old(self).filled(),
    {
        &mut self.e
    }

    /// Turns an exclusive handle to the composite into an exclusive handle to
    /// slot F. The handle starts at the slot's value; what it holds in the end
    /// is the slot's new value, and nothing else of the composite changes.
    pub fn f(&mut self) -> (slot: &mut F)
        ensures
            *slot == old(self)@.f,
            final(self)@ == (Slots { f: *final(slot), ..old(self)@ }),
            final(self).filled() == old(self).filled(),
    {
        &mut self.f
    }

    /// Turns an exclusive handle to the composite into an exclusive handle to
    /// slot G. The handle starts at the slot's value; what it holds in the end
    /// is the slot's new value, and nothing else of the composite changes.
    pub fn g(&mut self) -> (slot: &mut G)
        ensures
            *slot == old(self)@.g,
            final(self)@ == (Slots { g: *final(slot), ..old(self)@ }),
            final(self).filled() == old(self).filled(),
    {
        &mut self.g
    }

    /// Turns an exclusive handle to the composite into an exclusive handle to
    /// slot H. The handle starts at the slot's value; what it holds in the end
    /// is the slot's new value, and nothing else of the composite changes.
    pub fn h(&mut self) -> (slot: &mut H)
        ensures
            *slot == old(self)@.h,
            final(self)@ == (Slots { h: *final(slot), ..old(self)@ }),
            final(self).filled() == old(self).filled(),
    {
        &mut self.h
    }
}

/// The values of the slots and the number of slots assigned say all there is
/// to say of a composite.
pub proof fn lemma_composite_is_its_slots<A, B, C, D, E, F, G, H>(
    left: Sp<A, B, C, D, E, F, G, H>,
    right: Sp<A, B, C, D, E, F, G, H>,
)
    requires
        left@ == right@,
        left.filled() == right.filled(),
    ensures
        left == right,
{
}

} // verus!
