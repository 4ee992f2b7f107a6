use dynamic_traits::board::{select, wiring, Boards, Wiring};
use dynamic_traits::peripherals::{Peripheral, Peripherals};
use dynamic_traits::schedule::{Rotation, Slot, PAUSE_MS, SLICE_MS};

fn check_board(tag: Boards, bus: Peripheral, rx: Peripheral, tx: Peripheral) {
    assert_eq!(wiring(tag), Wiring { bus, rx, tx });
    let mut p = Peripherals::take();
    let mut handle = select(tag, &mut p);
    assert_eq!(handle.id(), Wiring { bus, rx, tx });
    {
        let pins = handle.as_pins();
        assert_eq!(pins.rx.id(), rx);
        assert_eq!(pins.tx.id(), tx);
    }
    {
        let uart = handle.as_uart();
        assert_eq!(uart.id(), bus);
    }
    // A second round of views works the same: nothing was used up.
    let pins = handle.as_pins();
    assert_eq!(pins.rx.as_input().id(), rx);
    assert_eq!(pins.tx.as_output().id(), tx);
}

#[test]
fn select_board_a() {
    check_board(Boards::A, Peripheral::Uart0, Peripheral::PinA, Peripheral::PinB);
}

#[test]
fn select_board_b() {
    check_board(Boards::B, Peripheral::Uart1, Peripheral::PinB, Peripheral::PinC);
}

#[test]
fn select_board_c() {
    check_board(Boards::C, Peripheral::Uart2, Peripheral::PinC, Peripheral::PinD);
}

#[test]
fn select_is_deterministic() {
    let mut p = Peripherals::take();
    let first = select(Boards::B, &mut p).id();
    let second = select(Boards::B, &mut p).id();
    assert_eq!(first, second);
}

#[test]
fn rotation_serves_each_board_then_pauses() {
    let mut r = Rotation::new();
    for _round in 0..3 {
        assert_eq!(r.next(), Slot::Serve { board: Boards::A, budget_ms: 100 });
        assert_eq!(r.next(), Slot::Serve { board: Boards::B, budget_ms: 100 });
        assert_eq!(r.next(), Slot::Serve { board: Boards::C, budget_ms: 100 });
        assert_eq!(r.next(), Slot::Pause { ms: 1000 });
    }
    assert_eq!(SLICE_MS, 100);
    assert_eq!(PAUSE_MS, 1000);
}

#[test]
fn rotation_timing_on_virtual_clock() {
    // A driver that never finishes on its own: every slot runs to its budget.
    let mut r = Rotation::new();
    let mut now: u64 = 0;
    let mut starts = Vec::new();
    for _ in 0..8 {
        let slot = r.next();
        starts.push((slot, now));
        now += match slot {
            Slot::Serve { budget_ms, .. } => budget_ms,
            Slot::Pause { ms } => ms,
        };
    }
    assert_eq!(starts[1].1 - starts[0].1, 100);
    assert_eq!(starts[2].1 - starts[1].1, 100);
    assert_eq!(starts[3].1 - starts[2].1, 100);
    assert!(matches!(starts[3].0, Slot::Pause { .. }));
    assert_eq!(starts[4].1 - starts[3].1, 1000);
    assert_eq!(starts[4].0, starts[0].0);
    assert_eq!(now, 2 * (3 * 100 + 1000));
}

