use dynamic_traits::board::{wiring, Boards, Wiring};
use dynamic_traits::consumer::{Driver, Event, FeatureState, Work};
use dynamic_traits::peripherals::Peripheral;

/// Tracks live views and panics when a resource is taken twice.
struct Ledger {
    live: Vec<Peripheral>,
}

impl Ledger {
    fn take(&mut self, p: Peripheral) {
        assert!(!self.live.contains(&p), "resource taken twice: {:?}", p);
        self.live.push(p);
    }

    fn release_all(&mut self) {
        self.live.clear();
    }

    fn phase(&mut self, w: Wiring, work: &Work) {
        match work {
            Work::Degauss | Work::BitBang => {
                self.take(w.rx);
                self.take(w.tx);
            }
            Work::Handshake { .. } => {
                self.take(w.bus);
                self.take(w.rx);
                self.take(w.tx);
            }
            Work::Idle => {}
        }
        self.release_all();
    }
}

#[test]
fn phases_never_hold_a_resource_twice() {
    for tag in [Boards::A, Boards::B, Boards::C] {
        let w = wiring(tag);
        let mut ledger = Ledger { live: Vec::new() };
        let mut d = Driver::new();
        let replies = [vec![0, 0, 0, 0], vec![1, 0, 0, 0]];
        for step in 0..40usize {
            let work = d.work();
            ledger.phase(w, &work);
            let e = match work {
                Work::Degauss => Event::Degaussed,
                Work::Handshake { .. } => Event::Exchanged(Ok(replies[step % 2].clone())),
                Work::BitBang => Event::RxLevel(step % 3 == 0),
                Work::Idle => Event::Woken,
            };
            d.advance(e);
            assert!(ledger.live.is_empty());
        }
        assert_ne!(d.state(), FeatureState::PowerOn);
    }
}
