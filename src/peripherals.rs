//! The fixed set of physical resources and the live tokens that stand for them.
use crate::dynamic::{Key, Owned, OwnedEraseable, Reborrowable};
use core::marker::PhantomData;
use vstd::prelude::*;

verus! {

/// Names exactly one physical resource: a pin or a bus peripheral.
#[derive(Clone, Copy, Debug, PartialEq, Eq, Structural)]
pub enum Peripheral {
    PinA,
    PinB,
    PinC,
    PinD,
    I2c0,
    Uart0,
    Uart1,
    Uart2,
}

/// A live reconstruction of one descriptor, usable for the scope `'a`.
///
/// Only this crate makes one: `Peripherals::take` makes one of each, and the
/// erased handles rebuild one inside the scope of a borrow they hold.
pub struct Peri<'a> {
    id: Peripheral,
    _scope: PhantomData<&'a mut ()>,
}

impl<'a> Peri<'a> {
    pub(crate) fn rebuild(id: Peripheral) -> (r: Peri<'a>)
        ensures
            r.descriptor() == id,
    {
        Peri { id, _scope: PhantomData }
    }

    /// Which resource this token stands for.
    pub fn id(&self) -> (r: Peripheral)
        ensures
            r == self.descriptor(),
    {
        self.id
    }

    /// A shorter-scoped token for the same resource; the original stays usable
    /// once the new one is gone.
    pub fn reborrow(&mut self) -> (r: Peri<'_>)
        ensures
            r.descriptor() == old(self).descriptor(),
            *final(self) == *old(self),
    {
        Peri { id: self.id, _scope: PhantomData }
    }
}

impl<'a, 'x> OwnedEraseable<'a> for Peri<'x> {
    type Id = Peripheral;

    closed spec fn descriptor(&self) -> Peripheral {
        self.id
    }

    fn id(&self) -> (r: Peripheral) {
        self.id
    }

    fn magick(key: Key<Peripheral>) -> (r: Owned<'a, Peri<'x>>) {
        Owned::new(Peri::rebuild(key.id()))
    }
}

impl<'a, 'b, 'x> Reborrowable<'a, 'b> for Peri<'x> {
    type Target = Peri<'b>;

    fn reborrow(value: &'b mut Owned<'a, Peri<'x>>) -> (r: Owned<'b, Peri<'b>>) {
        Owned::new(Peri::rebuild(value.get().id()))
    }
}

/// Every physical resource of the machine, each as one token.
pub struct Peripherals {
    pub pin_a: Peri<'static>,
    pub pin_b: Peri<'static>,
    pub pin_c: Peri<'static>,
    pub pin_d: Peri<'static>,
    pub i2c0: Peri<'static>,
    pub uart0: Peri<'static>,
    pub uart1: Peri<'static>,
    pub uart2: Peri<'static>,
}

impl Peripherals {
    pub open spec fn wf(&self) -> bool {
        &&& self.pin_a.descriptor() == Peripheral::PinA
        &&& self.pin_b.descriptor() == Peripheral::PinB
        &&& self.pin_c.descriptor() == Peripheral::PinC
        &&& self.pin_d.descriptor() == Peripheral::PinD
        &&& self.i2c0.descriptor() == Peripheral::I2c0
        &&& self.uart0.descriptor() == Peripheral::Uart0
        &&& self.uart1.descriptor() == Peripheral::Uart1
        &&& self.uart2.descriptor() == Peripheral::Uart2
    }

    /// The whole resource set, one fresh token per resource.
    ///
    /// Every call makes new tokens, and nothing here can tell whether an
    /// earlier set is still alive. Exclusivity of the views holds only if the
    /// program calls this once, at start-up, and derives every view of a
    /// resource from those tokens: that is the caller's obligation.
    pub fn take() -> (r: Peripherals)
        ensures
            r.wf(),
    {
        Peripherals {
            pin_a: Peri::rebuild(Peripheral::PinA),
            pin_b: Peri::rebuild(Peripheral::PinB),
            pin_c: Peri::rebuild(Peripheral::PinC),
            pin_d: Peri::rebuild(Peripheral::PinD),
            i2c0: Peri::rebuild(Peripheral::I2c0),
            uart0: Peri::rebuild(Peripheral::Uart0),
            uart1: Peri::rebuild(Peripheral::Uart1),
            uart2: Peri::rebuild(Peripheral::Uart2),
        }
    }
}

} // verus!
