//! The driver: a state machine that brings up the serial bus of whichever
//! board it is given, falling back to signalling by hand.
use crate::board::{wired, Wiring};
use crate::peripherals::Peripheral;
use crate::uart::{rx_pin_of, tx_pin_of, StreamError};
use vstd::prelude::*;

verus! {

/// The pair of lines a driver works with: receive and transmit.
pub struct Pins<RX, TX> {
    pub rx: RX,
    pub tx: TX,
}


/// How many bytes the peer answers the startup sequence with.
pub const RESPONSE_LEN: usize = 4;

/// How long the transmit line is held asserted in one hand-made pulse.
pub const PULSE_HIGH_US: u64 = 150;

/// How long the transmit line is held deasserted after a pulse.
pub const PULSE_LOW_US: u64 = 273;

/// The bytes that wake the peer on the bus.
pub open spec fn startup_sequence() -> Seq<u8> {
    seq![0x01u8, 0x02u8, 0x03u8, 0xffu8]
}

/// A reply shows that the peer is in step: it is complete and the peer drove
/// the line (a reply of only zero bytes is what an idle line reads as).
pub open spec fn valid_response(r: Seq<u8>) -> bool {
    r.len() == RESPONSE_LEN && exists|i: int| 0 <= i < r.len() && r[i] != 0
}

/// Checks the peer's reply to the startup sequence.
pub fn parse(buf: &[u8]) -> (r: Result<(), ()>)
    ensures
        r is Ok <==> valid_response(buf@),
{
    if buf.len() != RESPONSE_LEN {
        return Err(());
    }
    let mut i: usize = 0;
    while i < buf.len()
        invariant
            0 <= i <= buf@.len(),
            buf@.len() == RESPONSE_LEN,
            forall|j: int| 0 <= j < i ==> buf@[j] == 0,
        decreases buf@.len() - i,
    {
        if buf[i] != 0 {
            assert(buf@[i as int] != 0);
            return Ok(());
        }
        i = i + 1;
    }
    Err(())
}

/// The phases of the driver. It starts in `PowerOn` and never stops.
#[derive(Clone, Copy, Debug, PartialEq, Eq, Structural)]
pub enum FeatureState {
    PowerOn,
    FullBus,
    BitBanging,
    LowPower,
}

/// What the runner reports back after doing a phase's work.
pub enum Event {
    /// Both lines were driven high.
    Degaussed,
    /// The startup sequence was written and this came back: the bytes read,
    /// or the stream's error.
    Exchanged(Result<Vec<u8>, StreamError>),
    /// The receive line was sampled: whether it is asserted.
    RxLevel(bool),
    /// The wake-up came.
    Woken,
}

/// The work of a phase, for the runner to perform. Each phase takes its
/// views of the board afresh and releases them before the next phase.
pub enum Work {
    /// Take both lines as outputs and assert them.
    Degauss,
    /// Take the bus, write `payload`, then read `read_len` bytes.
    Handshake { payload: Vec<u8>, read_len: usize },
    /// Take the receive line as an input and the transmit line as an output;
    /// sample the receive line, and pulse while the driver asks for it.
    BitBang,
    /// Wait for a wake-up, or yield once.
    Idle,
}

/// The resources of board `w` that the runner holds while doing `work`, in
/// the order it takes them: the two lines as views for driving or sampling,
/// the bus together with both its lines for the handshake.
pub open spec fn work_takes(w: Wiring, work: Work) -> Seq<Peripheral> {
    match work {
        Work::Degauss => seq![w.rx, w.tx],
        Work::Handshake { .. } => seq![w.bus, w.rx, w.tx],
        Work::BitBang => seq![w.rx, w.tx],
        Work::Idle => seq![],
    }
}

/// One hand-made pulse on the transmit line: asserted, then deasserted.
#[derive(Clone, Copy, Debug, PartialEq, Eq, Structural)]
pub struct Pulse {
    pub high_us: u64,
    pub low_us: u64,
}

/// The phase that follows `s` once `e` is reported. An event that does not
/// belong to the phase changes nothing.
pub open spec fn next_state(s: FeatureState, e: Event) -> FeatureState {
    match (s, e) {
        (FeatureState::PowerOn, Event::Degaussed) => FeatureState::FullBus,
        (FeatureState::FullBus, Event::Exchanged(res)) => match res {
            Ok(reply) => if valid_response(reply@) {
                FeatureState::LowPower
            } else {
                FeatureState::BitBanging
            },
            Err(_) => FeatureState::BitBanging,
        },
        (FeatureState::BitBanging, Event::RxLevel(asserted)) => if asserted {
            FeatureState::FullBus
        } else {
            FeatureState::BitBanging
        },
        (FeatureState::LowPower, Event::Woken) => FeatureState::FullBus,
        _ => s,
    }
}

/// The pulse the runner owes after `e` in phase `s`: one for each sample of
/// a deasserted receive line while bit-banging, none otherwise.
pub open spec fn pulse_after(s: FeatureState, e: Event) -> Option<Pulse> {
    match (s, e) {
        (FeatureState::BitBanging, Event::RxLevel(false)) => Some(
            Pulse { high_us: PULSE_HIGH_US, low_us: PULSE_LOW_US },
        ),
        _ => None,
    }
}

/// The driver's decisions; the runner does the I/O and reports back.
pub struct Driver {
    state: FeatureState,
}

impl Driver {
    pub closed spec fn phase(&self) -> FeatureState {
        self.state
    }

    pub fn new() -> (r: Driver)
        ensures
            r.phase() == FeatureState::PowerOn,
    {
        Driver { state: FeatureState::PowerOn }
    }

    pub fn state(&self) -> (r: FeatureState)
        ensures
            r == self.phase(),
    {
        self.state
    }

    /// The work of the current phase.
    pub fn work(&self) -> (r: Work)
        ensures
            (r is Degauss) <==> self.phase() == FeatureState::PowerOn,
            (r is Handshake) <==> self.phase() == FeatureState::FullBus,
            (r is BitBang) <==> self.phase() == FeatureState::BitBanging,
            (r is Idle) <==> self.phase() == FeatureState::LowPower,
            r is Handshake ==> r->payload@ == startup_sequence() && r->read_len == RESPONSE_LEN,
            forall|w: Wiring| #[trigger] work_takes(w, r) == held_in(w, self.phase()),
    {
        match self.state {
            FeatureState::PowerOn => Work::Degauss,
            FeatureState::FullBus => {
                let payload: Vec<u8> = vec![0x01, 0x02, 0x03, 0xff];
                proof {
                    assert(payload@ =~= startup_sequence());
                }
                Work::Handshake { payload, read_len: RESPONSE_LEN }
            },
            FeatureState::BitBanging => Work::BitBang,
            FeatureState::LowPower => Work::Idle,
        }
    }

    /// Takes in what the runner reports, moves to the next phase, and says
    /// whether the runner owes a pulse before it samples again.
    pub fn advance(&mut self, e: Event) -> (r: Option<Pulse>)
        ensures
            final(self).phase() == next_state(old(self).phase(), e),
            r == pulse_after(old(self).phase(), e),
    {
        match e {
            Event::Degaussed => {
                if let FeatureState::PowerOn = self.state {
                    self.state = FeatureState::FullBus;
                }
                None
            },
            Event::Exchanged(res) => {
                if let FeatureState::FullBus = self.state {
                    let valid = match &res {
                        Ok(reply) => parse(reply.as_slice()).is_ok(),
                        Err(_) => false,
                    };
                    self.state = if valid {
                        FeatureState::LowPower
                    } else {
                        FeatureState::BitBanging
                    };
                }
                None
            },
            Event::RxLevel(asserted) => {
                if let FeatureState::BitBanging = self.state {
                    if asserted {
                        self.state = FeatureState::FullBus;
                        None
                    } else {
                        Some(Pulse { high_us: PULSE_HIGH_US, low_us: PULSE_LOW_US })
                    }
                } else {
                    None
                }
            },
            Event::Woken => {
                if let FeatureState::LowPower = self.state {
                    self.state = FeatureState::FullBus;
                }
                None
            },
        }
    }
}


/// The bit-banging loop as a runner performs it: report each sample of the
/// receive line, pulse while the driver asks for it, stop at the first sample
/// after which it does not. Gives the phase reached and the pulses made.
pub open spec fn bit_bang_run(s: FeatureState, levels: Seq<bool>) -> (FeatureState, nat)
    decreases levels.len(),
{
    if levels.len() == 0 {
        (s, 0)
    } else {
        let e = Event::RxLevel(levels[0]);
        match pulse_after(s, e) {
            Some(_) => {
                let rest = bit_bang_run(next_state(s, e), levels.drop_first());
                (rest.0, rest.1 + 1)
            },
            None => (next_state(s, e), 0),
        }
    }
}

/// A receive line that reads deasserted `n` times, then asserted.
pub open spec fn asserted_after(n: nat) -> Seq<bool> {
    Seq::new(n, |i: int| false).push(true)
}

/// Bit-banging against a receive line that asserts after `n` samples makes
/// exactly `n` pulses, then hands over to the full bus.
pub proof fn lemma_bit_bang_pulses(n: nat)
    ensures
        bit_bang_run(FeatureState::BitBanging, asserted_after(n)) == (FeatureState::FullBus, n),
    decreases n,
{
    let levels = asserted_after(n);
    if n > 0 {
        assert(levels.drop_first() =~= asserted_after((n - 1) as nat));
        lemma_bit_bang_pulses((n - 1) as nat);
    } else {
        assert(levels[0]);
    }
}

/// Taking a view of a resource, or giving it back.
pub enum Access {
    Take(Peripheral),
    Release(Peripheral),
}

/// The resources of board `w` that the work of phase `s` holds: both lines
/// while driving or sampling them, the bus with both its lines during the
/// handshake, nothing while idle.
pub open spec fn held_in(w: Wiring, s: FeatureState) -> Seq<Peripheral> {
    match s {
        FeatureState::PowerOn => seq![w.rx, w.tx],
        FeatureState::FullBus => seq![w.bus, w.rx, w.tx],
        FeatureState::BitBanging => seq![w.rx, w.tx],
        FeatureState::LowPower => seq![],
    }
}

/// The accesses of one phase: it takes its views on entry and gives all of
/// them back before the next phase starts.
pub open spec fn phase_accesses(w: Wiring, s: FeatureState) -> Seq<Access> {
    held_in(w, s).map_values(|p: Peripheral| Access::Take(p)) + held_in(w, s).map_values(
        |p: Peripheral| Access::Release(p),
    )
}

/// The accesses of a run through the phases `states`, in order.
pub open spec fn run_accesses(w: Wiring, states: Seq<FeatureState>) -> Seq<Access>
    decreases states.len(),
{
    if states.len() == 0 {
        seq![]
    } else {
        phase_accesses(w, states[0]) + run_accesses(w, states.drop_first())
    }
}

/// No resource is taken while a view of it is live, and only live views are
/// given back; `live` is what is held before `t` starts.
pub open spec fn exclusive_from(live: Set<Peripheral>, t: Seq<Access>) -> bool
    decreases t.len(),
{
    if t.len() == 0 {
        true
    } else {
        match t[0] {
            Access::Take(p) => !live.contains(p) && exclusive_from(live.insert(p), t.drop_first()),
            Access::Release(p) => live.contains(p) && exclusive_from(live.remove(p), t.drop_first()),
        }
    }
}

/// What is held once `t` is done, from `live`.
pub open spec fn live_after(live: Set<Peripheral>, t: Seq<Access>) -> Set<Peripheral>
    decreases t.len(),
{
    if t.len() == 0 {
        live
    } else {
        match t[0] {
            Access::Take(p) => live_after(live.insert(p), t.drop_first()),
            Access::Release(p) => live_after(live.remove(p), t.drop_first()),
        }
    }
}

proof fn lemma_exclusive_append(live: Set<Peripheral>, a: Seq<Access>, b: Seq<Access>)
    requires
        exclusive_from(live, a),
        exclusive_from(live_after(live, a), b),
    ensures
        exclusive_from(live, a + b),
        live_after(live, a + b) == live_after(live_after(live, a), b),
    decreases a.len(),
{
    if a.len() > 0 {
        assert((a + b).drop_first() =~= a.drop_first() + b);
        assert((a + b)[0] == a[0]);
        match a[0] {
            Access::Take(p) => lemma_exclusive_append(live.insert(p), a.drop_first(), b),
            Access::Release(p) => lemma_exclusive_append(live.remove(p), a.drop_first(), b),
        }
    } else {
        assert(a + b =~= b);
    }
}

proof fn lemma_step(live: Set<Peripheral>, x: Access, t: Seq<Access>)
    ensures
        exclusive_from(live, seq![x] + t) == match x {
            Access::Take(p) => !live.contains(p) && exclusive_from(live.insert(p), t),
            Access::Release(p) => live.contains(p) && exclusive_from(live.remove(p), t),
        },
        live_after(live, seq![x] + t) == match x {
            Access::Take(p) => live_after(live.insert(p), t),
            Access::Release(p) => live_after(live.remove(p), t),
        },
{
    assert((seq![x] + t).drop_first() =~= t);
    assert((seq![x] + t)[0] == x);
}

proof fn lemma_phase_exclusive(w: Wiring, s: FeatureState)
    requires
        wired(w),
    ensures
        exclusive_from(Set::empty(), phase_accesses(w, s)),
        live_after(Set::empty(), phase_accesses(w, s)) == Set::<Peripheral>::empty(),
{
    let e = Set::<Peripheral>::empty();
    let take = |p: Peripheral| Access::Take(p);
    let give = |p: Peripheral| Access::Release(p);
    assert(w.rx != w.tx && w.bus != w.rx && w.bus != w.tx) by {
        assert(rx_pin_of(w.bus) != tx_pin_of(w.bus));
    }
    let nil = Seq::<Access>::empty();
    match s {
        FeatureState::LowPower => {
            assert(phase_accesses(w, s) =~= nil);
        },
        FeatureState::FullBus => {
            let t = seq![take(w.bus)] + (seq![take(w.rx)] + (seq![take(w.tx)] + (seq![give(w.bus)]
                + (seq![give(w.rx)] + (seq![give(w.tx)] + nil)))));
            assert(phase_accesses(w, s) =~= t);
            let t5 = seq![give(w.tx)] + nil;
            let t4 = seq![give(w.rx)] + t5;
            let t3 = seq![give(w.bus)] + t4;
            let t2 = seq![take(w.tx)] + t3;
            let t1 = seq![take(w.rx)] + t2;
            lemma_step(e.insert(w.bus).insert(w.rx).insert(w.tx).remove(w.bus).remove(w.rx), give(w.tx), nil);
            lemma_step(e.insert(w.bus).insert(w.rx).insert(w.tx).remove(w.bus), give(w.rx), t5);
            lemma_step(e.insert(w.bus).insert(w.rx).insert(w.tx), give(w.bus), t4);
            lemma_step(e.insert(w.bus).insert(w.rx), take(w.tx), t3);
            lemma_step(e.insert(w.bus), take(w.rx), t2);
            lemma_step(e, take(w.bus), t1);
            assert(e.insert(w.bus).insert(w.rx).insert(w.tx).remove(w.bus).remove(w.rx).remove(w.tx) =~= e);
        },
        _ => {
            let t = seq![take(w.rx)] + (seq![take(w.tx)] + (seq![give(w.rx)] + (seq![give(w.tx)]
                + nil)));
            assert(phase_accesses(w, s) =~= t);
            let t3 = seq![give(w.tx)] + nil;
            let t2 = seq![give(w.rx)] + t3;
            let t1 = seq![take(w.tx)] + t2;
            lemma_step(e.insert(w.rx).insert(w.tx).remove(w.rx), give(w.tx), nil);
            lemma_step(e.insert(w.rx).insert(w.tx), give(w.rx), t3);
            lemma_step(e.insert(w.rx), take(w.tx), t2);
            lemma_step(e, take(w.rx), t1);
            assert(e.insert(w.rx).insert(w.tx).remove(w.rx).remove(w.tx) =~= e);
        },
    }
}

/// Whatever phases a driver goes through on a board, no view of a resource is
/// taken while another view of it is live: each phase gives back what it took
/// before the next one takes anything.
pub proof fn lemma_views_exclusive(w: Wiring, states: Seq<FeatureState>)
    requires
        wired(w),
    ensures
        exclusive_from(Set::empty(), run_accesses(w, states)),
        live_after(Set::empty(), run_accesses(w, states)) == Set::<Peripheral>::empty(),
    decreases states.len(),
{
    if states.len() > 0 {
        lemma_phase_exclusive(w, states[0]);
        lemma_views_exclusive(w, states.drop_first());
        lemma_exclusive_append(
            Set::empty(),
            phase_accesses(w, states[0]),
            run_accesses(w, states.drop_first()),
        );
    }
}

} // verus!
