use vstd::prelude::*;

use crate::button::{
    bank_edges, bank_next, button_index, lemma_press_repeats, released_upto, Bank, ButtonState, Edge,
    LogicalButton,
};
use crate::config::{BindingTarget, Configuration, Polarity};
use crate::decode::{decode, spec_decode, Sample, SAMPLE_LEN};
use crate::resolve::{
    lemma_increase_binding_pulses_twice, resolution, resolve_all_into, resolve_edges, AbsAxis, Action,
    OutputEvent,
};

verus! {

/// Millisecond interval before the first read.
pub const INITIAL_INTERVAL_MS: u64 = 10;

/// Millisecond interval after a read that returned a sample.
pub const READ_OK_INTERVAL_MS: u64 = 7;

/// Millisecond interval after a read that timed out or failed.
pub const READ_FAILED_INTERVAL_MS: u64 = 25;

/// Timeout of one interrupt read, in milliseconds.
pub const READ_TIMEOUT_MS: u64 = 250;

/// Input code of the key that reports pen contact.
pub const BTN_TOUCH: u16 = 0x14a;

/// Input code of the key that advertises a pen tool.
pub const BTN_TOOL_PEN: u16 = 0x140;

/// The touch key value of a sample: 1 while touching, 0 otherwise.
pub open spec fn touch_value(s: Sample) -> i32 {
    if s.touching {
        1i32
    } else {
        0i32
    }
}

/// The absolute axes of a sample, each followed by a sync marker.
pub open spec fn axes_actions(s: Sample) -> Seq<Action> {
    seq![
        Action::Emit(OutputEvent::Abs(AbsAxis::X, s.x)),
        Action::Emit(OutputEvent::Sync),
        Action::Emit(OutputEvent::Abs(AbsAxis::Y, s.y)),
        Action::Emit(OutputEvent::Sync),
        Action::Emit(OutputEvent::Abs(AbsAxis::Pressure, s.pressure)),
        Action::Emit(OutputEvent::Sync),
    ]
}

/// The touch key of a sample, closed by a sync marker.
pub open spec fn touch_actions(s: Sample) -> Seq<Action> {
    seq![Action::Emit(OutputEvent::Key(BTN_TOUCH, touch_value(s))), Action::Emit(OutputEvent::Sync)]
}

/// Button state after the three banks of sample `s` have been applied to `st`.
pub open spec fn state_after(st: Seq<bool>, s: Sample) -> Seq<bool> {
    bank_next(bank_next(bank_next(st, Bank::A, s.bank_a), Bank::B, s.bank_b), Bank::C, s.bank_c)
}

/// Everything one sample produces from button state `st`: the axes, then the
/// button edges of banks A, B and C with their bound actions, then the touch key.
pub open spec fn sample_actions(cfg: Configuration, st: Seq<bool>, s: Sample) -> Seq<Action> {
    let s1 = bank_next(st, Bank::A, s.bank_a);
    let s2 = bank_next(s1, Bank::B, s.bank_b);
    axes_actions(s) + resolve_edges(cfg, bank_edges(st, Bank::A, s.bank_a)) + resolve_edges(
        cfg,
        bank_edges(s1, Bank::B, s.bank_b),
    ) + resolve_edges(cfg, bank_edges(s2, Bank::C, s.bank_c)) + touch_actions(s)
}

/// With VPEN_PLUS bound to one increasing relative axis and VPEN_MINUS released, a
/// press tick (bank C at 4) and the following release tick (bank C at 2) each pulse
/// that axis by `+1`.
pub proof fn lemma_wheel_pulses_on_both_edges(cfg: Configuration, st: Seq<bool>, code: u16)
    requires
        st.len() == 14,
        !st[button_index(LogicalButton::VpenMinus)],
        cfg.binding(LogicalButton::VpenPlus) == Some(
            seq![BindingTarget::RelativeAxis(code, Polarity::Increase)],
        ),
    ensures
        ({
            let pulse = seq![
                Action::Emit(OutputEvent::Rel(code, 1)),
                Action::Emit(OutputEvent::Sync),
                Action::Emit(OutputEvent::Sync),
            ];
            let next = bank_next(st, Bank::C, 4);
            &&& resolve_edges(cfg, bank_edges(st, Bank::C, 4)) == pulse
            &&& resolve_edges(cfg, bank_edges(next, Bank::C, 2)) == pulse
        }),
{
    let b = LogicalButton::VpenPlus;
    lemma_press_repeats(st, b);
    lemma_increase_binding_pulses_twice(cfg, b, code);
    let next = bank_next(st, Bank::C, 4);
    reveal_with_fuel(released_upto, 15);
    assert(bank_edges(next, Bank::C, 2) =~= seq![(b, Edge::Release)]);
    let e1 = seq![(b, Edge::Press)];
    let e2 = seq![(b, Edge::Release)];
    assert(e1.drop_last() =~= Seq::<(LogicalButton, Edge)>::empty());
    assert(e2.drop_last() =~= Seq::<(LogicalButton, Edge)>::empty());
    assert(resolve_edges(cfg, e1.drop_last()) == Seq::<Action>::empty());
    assert(resolve_edges(cfg, e2.drop_last()) == Seq::<Action>::empty());
    assert(e1.last() == (b, Edge::Press));
    assert(e2.last() == (b, Edge::Release));
    assert(resolve_edges(cfg, e1) =~= resolution(cfg, b, Edge::Press));
    assert(resolve_edges(cfg, e2) =~= resolution(cfg, b, Edge::Release));
}

/// The state of the poll loop between two reads.
pub struct Poller {
    /// How long to sleep before the next read.
    pub interval_ms: u64,
    pub buttons: ButtonState,
}

impl Poller {
    pub open spec fn wf(&self) -> bool {
        self.buttons.wf()
    }

    /// The loop before its first read: every button released.
    pub fn new() -> (r: Poller)
        ensures
            r.wf(),
            r.interval_ms == INITIAL_INTERVAL_MS,
            forall|i: int| 0 <= i < 14 ==> !r.buttons@[i],
    {
        Poller { interval_ms: INITIAL_INTERVAL_MS, buttons: ButtonState::new() }
    }

    /// A read timed out or failed: nothing is emitted and the next read waits longer.
    pub fn on_read_failed(&mut self)
        requires
            old(self).wf(),
        ensures
            final(self).wf(),
            final(self).interval_ms == READ_FAILED_INTERVAL_MS,
            final(self).buttons@ == old(self).buttons@,
    {
        self.interval_ms = READ_FAILED_INTERVAL_MS;
    }

    /// A read returned `buf`: decodes it, updates the button state and returns the
    /// actions to carry out, in order; the next read comes sooner.
    pub fn on_sample(&mut self, cfg: &Configuration, buf: &[u8]) -> (r: Vec<Action>)
        requires
            old(self).wf(),
            cfg.wf(),
            buf@.len() == SAMPLE_LEN,
        ensures
            final(self).wf(),
            final(self).interval_ms == READ_OK_INTERVAL_MS,
            final(self).buttons@ == state_after(old(self).buttons@, spec_decode(buf@, *cfg)),
            r@ == sample_actions(*cfg, old(self).buttons@, spec_decode(buf@, *cfg)),
    {
        self.interval_ms = READ_OK_INTERVAL_MS;
        let s = decode(buf, cfg);
        let mut out: Vec<Action> = Vec::new();
        out.push(Action::Emit(OutputEvent::Abs(AbsAxis::X, s.x)));
        out.push(Action::Emit(OutputEvent::Sync));
        out.push(Action::Emit(OutputEvent::Abs(AbsAxis::Y, s.y)));
        out.push(Action::Emit(OutputEvent::Sync));
        out.push(Action::Emit(OutputEvent::Abs(AbsAxis::Pressure, s.pressure)));
        out.push(Action::Emit(OutputEvent::Sync));
        assert(out@ =~= axes_actions(s));
        let edges_a = self.buttons.apply_bank(Bank::A, s.bank_a);
        resolve_all_into(cfg, &edges_a, &mut out);
        let edges_b = self.buttons.apply_bank(Bank::B, s.bank_b);
        resolve_all_into(cfg, &edges_b, &mut out);
        let edges_c = self.buttons.apply_bank(Bank::C, s.bank_c);
        resolve_all_into(cfg, &edges_c, &mut out);
        let touch: i32 = if s.touching {
            1
        } else {
            0
        };
        out.push(Action::Emit(OutputEvent::Key(BTN_TOUCH, touch)));
        out.push(Action::Emit(OutputEvent::Sync));
        assert(out@ =~= sample_actions(*cfg, old(self).buttons@, s));
        out
    }
}

} // verus!
