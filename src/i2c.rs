//! The two-wire bus peripheral.
use crate::dynamic::OwnedEraseable;
use crate::peripherals::{Peri, Peripheral};
use core::marker::PhantomData;
use vstd::prelude::*;

verus! {

/// The resources that are two-wire bus peripherals.
pub open spec fn is_i2c(p: Peripheral) -> bool {
    p == Peripheral::I2c0
}

pub struct I2c<'a> {
    bus: Peripheral,
    _scope: PhantomData<&'a ()>,
}

impl<'a> I2c<'a> {
    pub closed spec fn bus(&self) -> Peripheral {
        self.bus
    }

    pub fn id(&self) -> (r: Peripheral)
        ensures
            r == self.bus(),
    {
        self.bus
    }

    pub fn new(peri: Peri<'a>) -> (r: I2c<'a>)
        requires
            is_i2c(peri.descriptor()),
        ensures
            r.bus() == peri.descriptor(),
    {
        I2c { bus: peri.id(), _scope: PhantomData }
    }
}

} // verus!
