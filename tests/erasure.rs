use dynamic_traits::board::{DynPin, InputConstructor, OutputConstructor};
use dynamic_traits::dynamic::{DynEither, DynThief, Owned, OwnedEraseable, Reborrowable};
use dynamic_traits::gpio::{Flex, Input, Output};
use dynamic_traits::i2c::I2c;
use dynamic_traits::peripherals::{Peri, Peripheral, Peripherals};
use dynamic_traits::uart::Uart;

#[test]
fn owned_new_get_and_into_inner() {
    let o: Owned<'_, u32> = Owned::new(7);
    assert_eq!(*o.get(), 7);
    assert_eq!(o.into_inner(), 7);
}

#[test]
fn owned_map_transforms_value() {
    let o: Owned<'_, u32> = Owned::new(20);
    let m = o.map(|x: u32| x / 4);
    assert_eq!(m.into_inner(), 5);
}

#[test]
fn owned_into_converts_value() {
    let o: Owned<'_, u8> = Owned::new(200u8);
    let w: Owned<'_, u32> = o.into();
    assert_eq!(w.into_inner(), 200u32);
}

#[test]
fn owned_map_mut_derives_from_borrow() {
    let mut o: Owned<'_, Vec<u8>> = Owned::new(vec![1, 2, 3]);
    let n = o.map_mut(|v: &mut Vec<u8>| {
        v.push(4);
        v.len()
    });
    assert_eq!(n.into_inner(), 4);
}

#[test]
fn peripherals_hand_out_each_resource() {
    let p = Peripherals::take();
    assert_eq!(p.pin_a.id(), Peripheral::PinA);
    assert_eq!(p.pin_d.id(), Peripheral::PinD);
    assert_eq!(p.i2c0.id(), Peripheral::I2c0);
    assert_eq!(p.uart2.id(), Peripheral::Uart2);
}

#[test]
fn peri_reborrow_keeps_original_usable() {
    let mut p = Peripherals::take();
    {
        let r = p.pin_b.reborrow();
        assert_eq!(r.id(), Peripheral::PinB);
    }
    let again = p.pin_b.reborrow();
    assert_eq!(again.id(), Peripheral::PinB);
}

#[test]
fn owned_peri_reborrow_is_shorter_scoped_copy() {
    let mut p = Peripherals::take();
    let mut o: Owned<'_, Peri<'_>> = Owned::new(p.pin_c.reborrow());
    {
        let r = <Peri<'_> as Reborrowable<'_, '_>>::reborrow(&mut o);
        assert_eq!(r.get().id(), Peripheral::PinC);
    }
    assert_eq!(OwnedEraseable::id(o.get()), Peripheral::PinC);
}

#[test]
fn flex_always_reads_deasserted() {
    let p = Peripherals::take();
    let mut f = Flex::new(p.pin_a);
    assert!(f.is_low());
    assert!(!f.is_high());
    f.set_high();
    assert!(f.is_low());
    assert!(!f.is_high());
    f.set_low();
    assert!(f.is_low());
    assert!(!f.is_high());
    assert_eq!(f.id(), Peripheral::PinA);
}

#[test]
fn output_and_input_views() {
    let mut p = Peripherals::take();
    let mut out = Output::new(p.pin_a.reborrow());
    out.set_high();
    out.set_low();
    assert_eq!(out.id(), Peripheral::PinA);
    let input = Input::new(p.pin_b.reborrow());
    assert!(input.is_low());
    assert!(!input.is_high());
    assert_eq!(input.id(), Peripheral::PinB);
}

#[test]
fn uart_transfers_whole_buffers() {
    let p = Peripherals::take();
    let mut u = Uart::new(p.uart1, p.pin_b, p.pin_c);
    assert_eq!(u.id(), Peripheral::Uart1);
    let mut buf = [9u8, 8, 7, 6];
    assert_eq!(u.write(&[1, 2, 3, 0xff]).ok(), Some(4));
    assert_eq!(u.read(&mut buf).ok(), Some(4));
    assert_eq!(buf, [9, 8, 7, 6]);
}

#[test]
fn i2c_binds_its_peripheral() {
    let p = Peripherals::take();
    let bus = I2c::new(p.i2c0);
    assert_eq!(bus.id(), Peripheral::I2c0);
}

#[test]
fn dyn_pin_commits_to_one_mode() {
    let mut p = Peripherals::take();
    let pin = DynPin::new(p.pin_d.reborrow());
    assert_eq!(pin.id(), Peripheral::PinD);
    let input = pin.as_input();
    assert_eq!(input.id(), Peripheral::PinD);
    assert!(input.is_low());
    let pin = DynPin::new(p.pin_d.reborrow());
    let mut out = pin.as_output();
    out.set_high();
    assert_eq!(out.id(), Peripheral::PinD);
}

#[test]
fn thief_builds_view_of_borrowed_pin() {
    let mut p = Peripherals::take();
    let mut pin = p.pin_c.reborrow();
    let thief: DynThief<'_, Peri<'_>, OutputConstructor> = DynThief::new(&mut pin);
    assert_eq!(thief.id(), Peripheral::PinC);
    let out = thief.build().into_inner();
    assert_eq!(out.id(), Peripheral::PinC);
}

#[test]
fn thief_reborrow_does_not_consume() {
    let mut p = Peripherals::take();
    let mut thief: DynThief<'_, Peri<'_>, InputConstructor> =
        DynThief::new_owned(Owned::new(p.pin_a.reborrow()));
    {
        let short = thief.reborrow();
        assert_eq!(short.build().into_inner().id(), Peripheral::PinA);
    }
    {
        let short = thief.reborrow();
        assert_eq!(short.id(), Peripheral::PinA);
    }
    assert_eq!(thief.build().into_inner().id(), Peripheral::PinA);
}

#[test]
fn either_reborrow_does_not_consume() {
    let mut p = Peripherals::take();
    let mut either: DynEither<'_, Peri<'_>, InputConstructor, OutputConstructor> =
        DynEither::new(&mut p.pin_b);
    {
        let input = either.reborrow().left().build().into_inner();
        assert_eq!(input.id(), Peripheral::PinB);
    }
    {
        let mut out = either.reborrow().right().build().into_inner();
        out.set_high();
        assert_eq!(out.id(), Peripheral::PinB);
    }
    assert_eq!(either.id(), Peripheral::PinB);
    assert_eq!(either.right().id(), Peripheral::PinB);
}

#[test]
fn owned_get_mut_changes_in_place() {
    let mut o: Owned<'_, u32> = Owned::new(1);
    *o.get_mut() += 41;
    assert_eq!(*o.get(), 42);
}
