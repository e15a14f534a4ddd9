use vstd::prelude::*;

verus! {

/// Number of logical buttons the tablet exposes.
pub const BUTTON_COUNT: usize = 14;

/// The abstract buttons of the tablet, in the order that indexes the state array.
#[derive(Clone, Copy, Debug, PartialEq, Eq, Structural)]
pub enum LogicalButton {
    L1,
    L2,
    L3,
    L4,
    L5,
    L6,
    R1,
    R2,
    R3,
    R4,
    R5,
    R6,
    VpenPlus,
    VpenMinus,
}

/// A press or release transition of a logical button.
#[derive(Clone, Copy, Debug, PartialEq, Eq, Structural)]
pub enum Edge {
    Press,
    Release,
}

/// One of the three raw button fields of a sample.
#[derive(Clone, Copy, Debug, PartialEq, Eq, Structural)]
pub enum Bank {
    A,
    B,
    C,
}

/// Position of a button in the state array.
pub open spec fn button_index(b: LogicalButton) -> int {
    match b {
        LogicalButton::L1 => 0,
        LogicalButton::L2 => 1,
        LogicalButton::L3 => 2,
        LogicalButton::L4 => 3,
        LogicalButton::L5 => 4,
        LogicalButton::L6 => 5,
        LogicalButton::R1 => 6,
        LogicalButton::R2 => 7,
        LogicalButton::R3 => 8,
        LogicalButton::R4 => 9,
        LogicalButton::R5 => 10,
        LogicalButton::R6 => 11,
        LogicalButton::VpenPlus => 12,
        LogicalButton::VpenMinus => 13,
    }
}

/// The button stored at position `i` of the state array.
pub open spec fn button_at(i: int) -> LogicalButton {
    if i <= 0 {
        LogicalButton::L1
    } else if i == 1 {
        LogicalButton::L2
    } else if i == 2 {
        LogicalButton::L3
    } else if i == 3 {
        LogicalButton::L4
    } else if i == 4 {
        LogicalButton::L5
    } else if i == 5 {
        LogicalButton::L6
    } else if i == 6 {
        LogicalButton::R1
    } else if i == 7 {
        LogicalButton::R2
    } else if i == 8 {
        LogicalButton::R3
    } else if i == 9 {
        LogicalButton::R4
    } else if i == 10 {
        LogicalButton::R5
    } else if i == 11 {
        LogicalButton::R6
    } else if i == 12 {
        LogicalButton::VpenPlus
    } else {
        LogicalButton::VpenMinus
    }
}

/// The raw field that carries a button's scan code.
pub open spec fn bank_of(b: LogicalButton) -> Bank {
    match b {
        LogicalButton::L1 | LogicalButton::R1 | LogicalButton::R2 | LogicalButton::R3 => Bank::B,
        LogicalButton::VpenPlus | LogicalButton::VpenMinus => Bank::C,
        _ => Bank::A,
    }
}

/// The raw value that signals release of every pressed button of a bank.
pub open spec fn idle_value(bank: Bank) -> u8 {
    match bank {
        Bank::A => 255,
        Bank::B => 51,
        Bank::C => 2,
    }
}

/// The raw value of a button's bank that signals that the button is pressed.
pub open spec fn press_code(b: LogicalButton) -> u8 {
    match b {
        LogicalButton::L2 => 127,
        LogicalButton::L3 => 191,
        LogicalButton::L4 => 223,
        LogicalButton::L5 => 239,
        LogicalButton::L6 => 247,
        LogicalButton::R4 => 254,
        LogicalButton::R5 => 253,
        LogicalButton::R6 => 251,
        LogicalButton::L1 => 49,
        LogicalButton::R1 => 35,
        LogicalButton::R2 => 50,
        LogicalButton::R3 => 19,
        LogicalButton::VpenPlus => 4,
        LogicalButton::VpenMinus => 6,
    }
}

/// The button whose press code in `bank` is `v`, if any.
pub open spec fn pressed_by(bank: Bank, v: u8) -> Option<LogicalButton> {
    match bank {
        Bank::A => if v == 127 {
            Some(LogicalButton::L2)
        } else if v == 191 {
            Some(LogicalButton::L3)
        } else if v == 223 {
            Some(LogicalButton::L4)
        } else if v == 239 {
            Some(LogicalButton::L5)
        } else if v == 247 {
            Some(LogicalButton::L6)
        } else if v == 254 {
            Some(LogicalButton::R4)
        } else if v == 253 {
            Some(LogicalButton::R5)
        } else if v == 251 {
            Some(LogicalButton::R6)
        } else {
            None
        },
        Bank::B => if v == 49 {
            Some(LogicalButton::L1)
        } else if v == 35 {
            Some(LogicalButton::R1)
        } else if v == 50 {
            Some(LogicalButton::R2)
        } else if v == 19 {
            Some(LogicalButton::R3)
        } else {
            None
        },
        Bank::C => if v == 4 {
            Some(LogicalButton::VpenPlus)
        } else if v == 6 {
            Some(LogicalButton::VpenMinus)
        } else {
            None
        },
    }
}

/// Each button is found again from its own bank and press code, and no press code
/// of a bank is that bank's idle value.
pub proof fn lemma_press_table_consistent(b: LogicalButton)
    ensures
        pressed_by(bank_of(b), press_code(b)) == Some(b),
        press_code(b) != idle_value(bank_of(b)),
        button_at(button_index(b)) == b,
        0 <= button_index(b) < 14,
{
}

/// Release edges, in button order, for the pressed buttons of `bank` among the first `n`.
pub open spec fn released_upto(s: Seq<bool>, bank: Bank, n: int) -> Seq<(LogicalButton, Edge)>
    decreases n,
{
    if n <= 0 {
        Seq::empty()
    } else {
        let prev = released_upto(s, bank, n - 1);
        let b = button_at(n - 1);
        if bank_of(b) == bank && s[n - 1] {
            prev.push((b, Edge::Release))
        } else {
            prev
        }
    }
}

/// The edges that raw value `v` of `bank` produces from stored state `s`.
pub open spec fn bank_edges(s: Seq<bool>, bank: Bank, v: u8) -> Seq<(LogicalButton, Edge)> {
    if v == idle_value(bank) {
        released_upto(s, bank, 14)
    } else {
        match pressed_by(bank, v) {
            Some(b) => seq![(b, Edge::Press)],
            None => Seq::empty(),
        }
    }
}

/// The stored state after raw value `v` of `bank` has been observed from state `s`.
pub open spec fn bank_next(s: Seq<bool>, bank: Bank, v: u8) -> Seq<bool> {
    if v == idle_value(bank) {
        Seq::new(s.len(), |j: int| if bank_of(button_at(j)) == bank { false } else { s[j] })
    } else {
        match pressed_by(bank, v) {
            Some(b) => s.update(button_index(b), true),
            None => s,
        }
    }
}

impl LogicalButton {
    /// Position of this button in the state array.
    pub fn index(self) -> (r: usize)
        ensures
            r as int == button_index(self),
            r < BUTTON_COUNT,
            button_at(r as int) == self,
    {
        match self {
            LogicalButton::L1 => 0,
            LogicalButton::L2 => 1,
            LogicalButton::L3 => 2,
            LogicalButton::L4 => 3,
            LogicalButton::L5 => 4,
            LogicalButton::L6 => 5,
            LogicalButton::R1 => 6,
            LogicalButton::R2 => 7,
            LogicalButton::R3 => 8,
            LogicalButton::R4 => 9,
            LogicalButton::R5 => 10,
            LogicalButton::R6 => 11,
            LogicalButton::VpenPlus => 12,
            LogicalButton::VpenMinus => 13,
        }
    }
}

/// What the release list of the first `n` buttons holds: release edges of pressed
/// buttons of the bank, in strictly increasing button order, and every such button.
pub proof fn lemma_released_upto(s: Seq<bool>, bank: Bank, n: int)
    requires
        0 <= n <= 14,
        s.len() == 14,
    ensures
        ({
            let r = released_upto(s, bank, n);
            &&& forall|k: int|
                0 <= k < r.len() ==> {
                    &&& r[k].1 == Edge::Release
                    &&& bank_of(r[k].0) == bank
                    &&& s[button_index(r[k].0)]
                    &&& button_index(r[k].0) < n
                }
            &&& forall|k1: int, k2: int|
                0 <= k1 < k2 < r.len() ==> button_index(r[k1].0) < button_index(r[k2].0)
            &&& forall|b: LogicalButton|
                bank_of(b) == bank && s[button_index(b)] && button_index(b) < n ==> exists|k: int|
                    0 <= k < r.len() && r[k].0 == b
        }),
    decreases n,
{
    if n > 0 {
        lemma_released_upto(s, bank, n - 1);
        let prev = released_upto(s, bank, n - 1);
        let r = released_upto(s, bank, n);
        assert forall|b: LogicalButton|
            bank_of(b) == bank && s[button_index(b)] && button_index(b) < n implies exists|k: int|
            0 <= k < r.len() && r[k].0 == b by {
            lemma_press_table_consistent(b);
            if button_index(b) == n - 1 {
                assert(r[r.len() - 1].0 == b);
            } else {
                let k = choose|k: int| 0 <= k < prev.len() && prev[k].0 == b;
                assert(r[k] == prev[k]);
            }
        }
        assert forall|k: int| 0 <= k < r.len() implies button_index(r[k].0) < n by {
            if k < prev.len() {
                assert(r[k] == prev[k]);
            } else {
                lemma_press_table_consistent(button_at(n - 1));
            }
        }
        assert forall|k1: int, k2: int|
            0 <= k1 < k2 < r.len() implies button_index(r[k1].0) < button_index(r[k2].0) by {
            if k2 >= prev.len() {
                assert(r[k1] == prev[k1]);
                lemma_press_table_consistent(button_at(n - 1));
            }
        }
    }
}

/// With no button of the bank among the first `n` pressed, nothing is released.
pub proof fn lemma_released_none(s: Seq<bool>, bank: Bank, n: int)
    requires
        n <= 14,
        forall|j: int| 0 <= j < n && bank_of(button_at(j)) == bank ==> !s[j],
    ensures
        released_upto(s, bank, n) == Seq::<(LogicalButton, Edge)>::empty(),
    decreases n,
{
    if n > 0 {
        lemma_released_none(s, bank, n - 1);
    }
}

/// After an idle value no button of its bank is stored as pressed, and the same idle
/// value again changes nothing.
pub proof fn lemma_idle_clears_bank(s: Seq<bool>, bank: Bank)
    requires
        s.len() == 14,
    ensures
        ({
            let next = bank_next(s, bank, idle_value(bank));
            &&& next.len() == 14
            &&& forall|j: int| 0 <= j < 14 && bank_of(button_at(j)) == bank ==> !next[j]
            &&& bank_edges(next, bank, idle_value(bank)) == Seq::<(LogicalButton, Edge)>::empty()
            &&& bank_next(next, bank, idle_value(bank)) == next
        }),
{
    let next = bank_next(s, bank, idle_value(bank));
    lemma_released_none(next, bank, 14);
    assert(bank_next(next, bank, idle_value(bank)) =~= next);
}

/// A pressed button of the bank appears exactly once in the bank's release list.
pub proof fn lemma_released_once(s: Seq<bool>, b: LogicalButton) -> (k: int)
    requires
        s.len() == 14,
        s[button_index(b)],
    ensures
        ({
            let edges = released_upto(s, bank_of(b), 14);
            &&& 0 <= k < edges.len()
            &&& edges[k] == (b, Edge::Release)
            &&& forall|j: int| 0 <= j < edges.len() && j != k ==> edges[j].0 != b
        }),
{
    let edges = released_upto(s, bank_of(b), 14);
    lemma_press_table_consistent(b);
    lemma_released_upto(s, bank_of(b), 14);
    let k = choose|k: int| 0 <= k < edges.len() && edges[k].0 == b;
    assert forall|j: int| 0 <= j < edges.len() && j != k implies edges[j].0 != b by {
        if j < k {
            assert(button_index(edges[j].0) < button_index(edges[k].0));
        } else {
            assert(button_index(edges[k].0) < button_index(edges[j].0));
        }
    }
    k
}

/// An idle value releases a pressed button exactly once and clears it, and the same
/// idle value on the next poll releases nothing further.
pub proof fn lemma_release_fires_once(s: Seq<bool>, b: LogicalButton)
    requires
        s.len() == 14,
        s[button_index(b)],
    ensures
        ({
            let bank = bank_of(b);
            let v = idle_value(bank);
            let edges = bank_edges(s, bank, v);
            let next = bank_next(s, bank, v);
            &&& exists|k: int|
                0 <= k < edges.len() && edges[k] == (b, Edge::Release) && forall|j: int|
                    0 <= j < edges.len() && j != k ==> edges[j].0 != b
            &&& !next[button_index(b)]
            &&& bank_edges(next, bank, v).len() == 0
            &&& bank_next(next, bank, v) == next
        }),
{
    let bank = bank_of(b);
    let v = idle_value(bank);
    let k = lemma_released_once(s, b);
    lemma_press_table_consistent(b);
    lemma_idle_clears_bank(s, bank);
    let edges = bank_edges(s, bank, v);
    assert(edges == released_upto(s, bank, 14));
    assert(0 <= k < edges.len() && edges[k] == (b, Edge::Release) && forall|j: int|
        0 <= j < edges.len() && j != k ==> edges[j].0 != b);
    let next = bank_next(s, bank, v);
    let i = button_index(b);
    assert(0 <= i < 14 && bank_of(button_at(i)) == bank);
    assert(!next[i]);
}

/// A press code presses its button on every poll it is observed: held over two polls,
/// it yields a press edge on both.
pub proof fn lemma_press_repeats(s: Seq<bool>, b: LogicalButton)
    requires
        s.len() == 14,
    ensures
        ({
            let bank = bank_of(b);
            let v = press_code(b);
            let next = bank_next(s, bank, v);
            &&& bank_edges(s, bank, v) == seq![(b, Edge::Press)]
            &&& next[button_index(b)]
            &&& bank_edges(next, bank, v) == seq![(b, Edge::Press)]
            &&& bank_next(next, bank, v) == next
        }),
{
    lemma_press_table_consistent(b);
    let next = bank_next(s, bank_of(b), press_code(b));
    assert(bank_next(next, bank_of(b), press_code(b)) =~= next);
}

/// The button at position `i` of the state array.
pub fn button_from_index(i: usize) -> (r: LogicalButton)
    requires
        i < BUTTON_COUNT,
    ensures
        r == button_at(i as int),
        button_index(r) == i as int,
{
    if i == 0 {
        LogicalButton::L1
    } else if i == 1 {
        LogicalButton::L2
    } else if i == 2 {
        LogicalButton::L3
    } else if i == 3 {
        LogicalButton::L4
    } else if i == 4 {
        LogicalButton::L5
    } else if i == 5 {
        LogicalButton::L6
    } else if i == 6 {
        LogicalButton::R1
    } else if i == 7 {
        LogicalButton::R2
    } else if i == 8 {
        LogicalButton::R3
    } else if i == 9 {
        LogicalButton::R4
    } else if i == 10 {
        LogicalButton::R5
    } else if i == 11 {
        LogicalButton::R6
    } else if i == 12 {
        LogicalButton::VpenPlus
    } else {
        LogicalButton::VpenMinus
    }
}

impl Bank {
    /// The raw value that releases this bank's buttons.
    pub fn idle(self) -> (r: u8)
        ensures
            r == idle_value(self),
    {
        match self {
            Bank::A => 255,
            Bank::B => 51,
            Bank::C => 2,
        }
    }

    /// The button whose press code in this bank is `v`, if any.
    pub fn pressed_by(self, v: u8) -> (r: Option<LogicalButton>)
        ensures
            r == pressed_by(self, v),
            r matches Some(b) ==> bank_of(b) == self,
    {
        match self {
            Bank::A => match v {
                127 => Some(LogicalButton::L2),
                191 => Some(LogicalButton::L3),
                223 => Some(LogicalButton::L4),
                239 => Some(LogicalButton::L5),
                247 => Some(LogicalButton::L6),
                254 => Some(LogicalButton::R4),
                253 => Some(LogicalButton::R5),
                251 => Some(LogicalButton::R6),
                _ => None,
            },
            Bank::B => match v {
                49 => Some(LogicalButton::L1),
                35 => Some(LogicalButton::R1),
                50 => Some(LogicalButton::R2),
                19 => Some(LogicalButton::R3),
                _ => None,
            },
            Bank::C => match v {
                4 => Some(LogicalButton::VpenPlus),
                6 => Some(LogicalButton::VpenMinus),
                _ => None,
            },
        }
    }
}

impl LogicalButton {
    /// The raw field that carries this button's scan code.
    pub fn bank(self) -> (r: Bank)
        ensures
            r == bank_of(self),
    {
        match self {
            LogicalButton::L1 | LogicalButton::R1 | LogicalButton::R2 | LogicalButton::R3 => Bank::B,
            LogicalButton::VpenPlus | LogicalButton::VpenMinus => Bank::C,
            _ => Bank::A,
        }
    }
}

/// Per-button "currently pressed" flags, carried from one poll to the next.
pub struct ButtonState {
    pub pressed: Vec<bool>,
}

impl ButtonState {
    /// The flags, one per logical button.
    pub open spec fn view(&self) -> Seq<bool> {
        self.pressed@
    }

    /// There is exactly one flag per logical button.
    pub open spec fn wf(&self) -> bool {
        self.pressed@.len() == 14
    }

    /// A state with every button released.
    pub fn new() -> (r: ButtonState)
        ensures
            r.wf(),
            forall|i: int| 0 <= i < 14 ==> !r@[i],
    {
        let mut pressed: Vec<bool> = Vec::new();
        let mut i: usize = 0;
        while i < BUTTON_COUNT
            invariant
                i <= BUTTON_COUNT,
                pressed@.len() == i,
                forall|j: int| 0 <= j < i ==> !pressed@[j],
            decreases BUTTON_COUNT - i,
        {
            pressed.push(false);
            i = i + 1;
        }
        ButtonState { pressed }
    }

    /// Whether `b` is stored as pressed.
    pub fn is_pressed(&self, b: LogicalButton) -> (r: bool)
        requires
            self.wf(),
        ensures
            r == self@[button_index(b)],
    {
        self.pressed[b.index()]
    }

    /// Applies one raw value of `bank`: an idle value releases every pressed button
    /// of the bank once; a press code presses its button on every observation;
    /// any other value changes nothing. Returns the edges in the order produced.
    pub fn apply_bank(&mut self, bank: Bank, raw: u8) -> (r: Vec<(LogicalButton, Edge)>)
        requires
            old(self).wf(),
        ensures
            final(self).wf(),
            r@ == bank_edges(old(self)@, bank, raw),
            final(self)@ == bank_next(old(self)@, bank, raw),
    {
        let ghost s0 = self@;
        let mut out: Vec<(LogicalButton, Edge)> = Vec::new();
        if raw == bank.idle() {
            let mut i: usize = 0;
            while i < BUTTON_COUNT
                invariant
                    i <= BUTTON_COUNT,
                    self.pressed@.len() == 14,
                    s0.len() == 14,
                    out@ == released_upto(s0, bank, i as int),
                    forall|j: int|
                        0 <= j < 14 ==> self.pressed@[j] == (if j < i && bank_of(button_at(j))
                            == bank {
                            false
                        } else {
                            s0[j]
                        }),
                decreases BUTTON_COUNT - i,
            {
                let b = button_from_index(i);
                if b.bank() == bank && self.pressed[i] {
                    out.push((b, Edge::Release));
                    self.pressed.set(i, false);
                }
                i = i + 1;
            }
            assert(self@ =~= bank_next(s0, bank, raw));
        } else {
            match bank.pressed_by(raw) {
                Some(b) => {
                    out.push((b, Edge::Press));
                    let idx = b.index();
                    self.pressed.set(idx, true);
                },
                None => {},
            }
        }
        out
    }
}

} // verus!
