//! Digital pins: a dual-mode line and its input-only and output-only views.
use crate::dynamic::OwnedEraseable;
use crate::peripherals::{Peri, Peripheral};
use core::marker::PhantomData;
use vstd::prelude::*;

verus! {

/// The resources that can serve as a digital line.
pub open spec fn is_pin(p: Peripheral) -> bool {
    matches!(p, Peripheral::PinA | Peripheral::PinB | Peripheral::PinC | Peripheral::PinD)
}

/// A pin usable both ways. It drives the level last set, starting low. Nothing
/// on the far side drives the line, so reading it always finds it deasserted,
/// whatever this side drives.
pub struct Flex<'a> {
    line: Peripheral,
    high: bool,
    _scope: PhantomData<&'a ()>,
}

impl<'a> Flex<'a> {
    pub closed spec fn line(&self) -> Peripheral {
        self.line
    }

    /// The level this side drives.
    pub closed spec fn level(&self) -> bool {
        self.high
    }

    pub fn new(pin: Peri<'a>) -> (r: Flex<'a>)
        requires
            is_pin(pin.descriptor()),
        ensures
            r.line() == pin.descriptor(),
            !r.level(),
    {
        Flex { line: pin.id(), high: false, _scope: PhantomData }
    }

    pub fn id(&self) -> (r: Peripheral)
        ensures
            r == self.line(),
    {
        self.line
    }

    pub fn set_low(&mut self)
        ensures
            final(self).line() == old(self).line(),
            !final(self).level(),
    {
        self.high = false;
    }

    pub fn set_high(&mut self)
        ensures
            final(self).line() == old(self).line(),
            final(self).level(),
    {
        self.high = true;
    }

    pub fn is_high(&self) -> (r: bool)
        ensures
            r == false,
    {
        false
    }

    pub fn is_low(&self) -> (r: bool)
        ensures
            r == true,
    {
        true
    }
}

/// A pin committed to driving its line.
pub struct Output<'a>(Flex<'a>);

/// A pin committed to sensing its line.
pub struct Input<'a>(Flex<'a>);

impl<'a> Output<'a> {
    pub closed spec fn line(&self) -> Peripheral {
        self.0.line()
    }

    pub closed spec fn asserted(&self) -> bool {
        self.0.level()
    }

    /// The pin this view drives or senses.
    pub fn id(&self) -> (r: Peripheral)
        ensures
            r == self.line(),
    {
        self.0.id()
    }

    pub fn new(pin: Peri<'a>) -> (r: Output<'a>)
        requires
            is_pin(pin.descriptor()),
        ensures
            r.line() == pin.descriptor(),
            !r.asserted(),
    {
        Output(Flex::new(pin))
    }

    pub fn set_low(&mut self)
        ensures
            final(self).line() == old(self).line(),
            !final(self).asserted(),
    {
        self.0.set_low();
    }

    pub fn set_high(&mut self)
        ensures
            final(self).line() == old(self).line(),
            final(self).asserted(),
    {
        self.0.set_high();
    }
}

impl<'a> Input<'a> {
    pub closed spec fn line(&self) -> Peripheral {
        self.0.line()
    }

    /// The pin this view drives or senses.
    pub fn id(&self) -> (r: Peripheral)
        ensures
            r == self.line(),
    {
        self.0.id()
    }

    pub fn new(pin: Peri<'a>) -> (r: Input<'a>)
        requires
            is_pin(pin.descriptor()),
        ensures
            r.line() == pin.descriptor(),
    {
        Input(Flex::new(pin))
    }

    /// The line always reads deasserted.
    pub fn is_high(&self) -> (r: bool)
        ensures
            r == false,
    {
        self.0.is_high()
    }

    /// The line always reads deasserted.
    pub fn is_low(&self) -> (r: bool)
        ensures
            r == true,
    {
        self.0.is_low()
    }
}

} // verus!
