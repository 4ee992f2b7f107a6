//! The boards of the machine, each a bus and two pins, and the handles that
//! let a driver see a board either as a pin pair or as a serial bus.
use crate::consumer::Pins;
use crate::dynamic::{Admits, Constructor, DynEither, Key, Owned, OwnedEraseable, Reborrowable};
use crate::gpio::{is_pin, Input, Output};
use crate::peripherals::{Peri, Peripheral, Peripherals};
use crate::uart::{is_uart, rx_pin_of, tx_pin_of, Uart};
use vstd::prelude::*;

verus! {

/// The three resources a board is made of.
#[derive(Clone, Copy, Debug, PartialEq, Eq, Structural)]
pub struct Wiring {
    pub bus: Peripheral,
    pub rx: Peripheral,
    pub tx: Peripheral,
}

/// A bus together with the two pins it is wired to.
pub open spec fn wired(w: Wiring) -> bool {
    is_uart(w.bus) && w.rx == rx_pin_of(w.bus) && w.tx == tx_pin_of(w.bus)
}

/// A pin that can be taken as an input or as an output, not both.
pub struct DynPin<'a>(DynEither<'a, Peri<'a>, InputConstructor, OutputConstructor>);

/// Converts a pin into an input view.
pub struct InputConstructor;

/// Converts a pin into an output view.
pub struct OutputConstructor;

impl Admits<Peripheral> for InputConstructor {
    open spec fn admits(id: Peripheral) -> bool {
        is_pin(id)
    }
}

impl<'a, 'x> Constructor<'a, Peri<'x>> for InputConstructor {
    type To = Input<'a>;

    open spec fn converts(from: Peripheral, to: Input<'a>) -> bool {
        to.line() == from
    }

    fn convert(from: Owned<'a, Peri<'x>>) -> (r: Owned<'a, Input<'a>>) {
        // The token is used up here; its scope narrows to the view's.
        Owned::new(Input::new(Peri::rebuild(from.into_inner().id())))
    }
}

impl Admits<Peripheral> for OutputConstructor {
    open spec fn admits(id: Peripheral) -> bool {
        is_pin(id)
    }
}

impl<'a, 'x> Constructor<'a, Peri<'x>> for OutputConstructor {
    type To = Output<'a>;

    open spec fn converts(from: Peripheral, to: Output<'a>) -> bool {
        to.line() == from && !to.asserted()
    }

    fn convert(from: Owned<'a, Peri<'x>>) -> (r: Owned<'a, Output<'a>>) {
        // The token is used up here; its scope narrows to the view's.
        Owned::new(Output::new(Peri::rebuild(from.into_inner().id())))
    }
}

impl<'a> DynPin<'a> {
    pub closed spec fn line(&self) -> Peripheral {
        self.0.descriptor()
    }

    pub fn id(&self) -> (r: Peripheral)
        ensures
            r == self.line(),
    {
        self.0.id()
    }

    pub fn new(pin: Peri<'a>) -> (r: DynPin<'a>)
        requires
            is_pin(pin.descriptor()),
        ensures
            r.line() == pin.descriptor(),
    {
        DynPin(DynEither::new_owned(Owned::new(pin)))
    }

    /// Commits the line to sensing.
    pub fn as_input(self) -> (r: Input<'a>)
        ensures
            r.line() == self.line(),
    {
        self.0.left().build().into_inner()
    }

    /// Commits the line to driving.
    pub fn as_output(self) -> (r: Output<'a>)
        ensures
            r.line() == self.line(),
            !r.asserted(),
    {
        self.0.right().build().into_inner()
    }
}


/// The resources of one board, each as a live token.
pub struct Board<'x> {
    pins: Pins<Peri<'x>, Peri<'x>>,
    uart: Peri<'x>,
}

impl<'x> Board<'x> {
    fn rebuild(w: Wiring) -> (r: Board<'x>)
        ensures
            r.descriptor() == w,
    {
        Board {
            pins: Pins { rx: Peri::rebuild(w.rx), tx: Peri::rebuild(w.tx) },
            uart: Peri::rebuild(w.bus),
        }
    }
}

impl<'a, 'x> OwnedEraseable<'a> for Board<'x> {
    type Id = Wiring;

    closed spec fn descriptor(&self) -> Wiring {
        Wiring {
            bus: self.uart.descriptor(),
            rx: self.pins.rx.descriptor(),
            tx: self.pins.tx.descriptor(),
        }
    }

    fn id(&self) -> (r: Wiring) {
        Wiring { bus: self.uart.id(), rx: self.pins.rx.id(), tx: self.pins.tx.id() }
    }

    fn magick(key: Key<Wiring>) -> (r: Owned<'a, Board<'x>>) {
        Owned::new(Board::rebuild(key.id()))
    }
}

impl<'a, 'b, 'x> Reborrowable<'a, 'b> for Board<'x> {
    type Target = Board<'b>;

    fn reborrow(value: &'b mut Owned<'a, Board<'x>>) -> (r: Owned<'b, Board<'b>>) {
        Owned::new(Board::rebuild(value.get().id()))
    }
}

/// Sees a board as its two discrete pins.
pub struct PinsConstructor;

/// Sees a board as its serial bus.
pub struct UartConstructor;

impl Admits<Wiring> for PinsConstructor {
    open spec fn admits(id: Wiring) -> bool {
        wired(id)
    }
}

impl<'a, 'x> Constructor<'a, Board<'x>> for PinsConstructor {
    type To = Pins<DynPin<'a>, DynPin<'a>>;

    open spec fn converts(from: Wiring, to: Pins<DynPin<'a>, DynPin<'a>>) -> bool {
        to.rx.line() == from.rx && to.tx.line() == from.tx
    }

    fn convert(from: Owned<'a, Board<'x>>) -> (r: Owned<'a, Pins<DynPin<'a>, DynPin<'a>>>) {
        // The token is used up here; its scope narrows to the view's.
        let board: Board<'a> = Board::rebuild(from.into_inner().id());
        Owned::new(Pins { rx: DynPin::new(board.pins.rx), tx: DynPin::new(board.pins.tx) })
    }
}

impl Admits<Wiring> for UartConstructor {
    open spec fn admits(id: Wiring) -> bool {
        wired(id)
    }
}

impl<'a, 'x> Constructor<'a, Board<'x>> for UartConstructor {
    type To = Uart<'a>;

    open spec fn converts(from: Wiring, to: Uart<'a>) -> bool {
        to.bus() == from.bus
    }

    fn convert(from: Owned<'a, Board<'x>>) -> (r: Owned<'a, Uart<'a>>) {
        // The token is used up here; its scope narrows to the view's.
        let board: Board<'a> = Board::rebuild(from.into_inner().id());
        Owned::new(Uart::new(board.uart, board.pins.rx, board.pins.tx))
    }
}

/// A board behind an erased handle: a driver takes it, per phase, either as
/// a pin pair or as a serial bus.
pub type BoardHandle<'a> = DynEither<'a, Board<'a>, PinsConstructor, UartConstructor>;

/// The boards the machine can be configured as.
#[derive(Clone, Copy, Debug, PartialEq, Eq, Structural)]
pub enum Boards {
    A,
    B,
    C,
}

/// The resources each board is fixed to. Consecutive boards share a pin, as
/// the hardware does.
pub open spec fn wiring_of(tag: Boards) -> Wiring {
    match tag {
        Boards::A => Wiring { bus: Peripheral::Uart0, rx: Peripheral::PinA, tx: Peripheral::PinB },
        Boards::B => Wiring { bus: Peripheral::Uart1, rx: Peripheral::PinB, tx: Peripheral::PinC },
        Boards::C => Wiring { bus: Peripheral::Uart2, rx: Peripheral::PinC, tx: Peripheral::PinD },
    }
}

/// The resources of `tag`.
pub fn wiring(tag: Boards) -> (r: Wiring)
    ensures
        r == wiring_of(tag),
{
    match tag {
        Boards::A => Wiring { bus: Peripheral::Uart0, rx: Peripheral::PinA, tx: Peripheral::PinB },
        Boards::B => Wiring { bus: Peripheral::Uart1, rx: Peripheral::PinB, tx: Peripheral::PinC },
        Boards::C => Wiring { bus: Peripheral::Uart2, rx: Peripheral::PinC, tx: Peripheral::PinD },
    }
}

/// The handle of board `tag`, built from the resource set for as long as it
/// is borrowed. Nothing is read or written on the way.
pub fn select<'a>(tag: Boards, p: &'a mut Peripherals) -> (r: BoardHandle<'a>)
    requires
        old(p).wf(),
    ensures
        r.descriptor() == wiring_of(tag),
        wired(r.descriptor()),
        *final(p) == *old(p),
{
    let board = match tag {
        Boards::A => Board {
            pins: Pins { rx: p.pin_a.reborrow(), tx: p.pin_b.reborrow() },
            uart: p.uart0.reborrow(),
        },
        Boards::B => Board {
            pins: Pins { rx: p.pin_b.reborrow(), tx: p.pin_c.reborrow() },
            uart: p.uart1.reborrow(),
        },
        Boards::C => Board {
            pins: Pins { rx: p.pin_c.reborrow(), tx: p.pin_d.reborrow() },
            uart: p.uart2.reborrow(),
        },
    };
    DynEither::new_owned(Owned::new(board))
}


impl<'a> DynEither<'a, Board<'a>, PinsConstructor, UartConstructor> {
    /// The board as its two pins, each still open to either mode, for as
    /// long as this borrow lasts.
    pub fn as_pins(&mut self) -> (r: Pins<DynPin<'_>, DynPin<'_>>)
        ensures
            r.rx.line() == old(self).descriptor().rx,
            r.tx.line() == old(self).descriptor().tx,
            *final(self) == *old(self),
    {
        self.reborrow().left().build().into_inner()
    }

    /// The board as its serial bus, for as long as this borrow lasts.
    pub fn as_uart(&mut self) -> (r: Uart<'_>)
        ensures
            r.bus() == old(self).descriptor().bus,
            *final(self) == *old(self),
    {
        self.reborrow().right().build().into_inner()
    }
}

/// Every board is a bus with the two pins it is wired to, three distinct
/// resources, and a board shares a pin with the next one.
pub proof fn lemma_boards_wired(tag: Boards)
    ensures
        wired(wiring_of(tag)),
        wiring_of(tag).rx != wiring_of(tag).tx,
        is_pin(wiring_of(tag).rx) && is_pin(wiring_of(tag).tx),
        wiring_of(Boards::A).tx == wiring_of(Boards::B).rx,
        wiring_of(Boards::B).tx == wiring_of(Boards::C).rx,
{
}

} // verus!
