use vstd::prelude::*;

use crate::button::{button_index, LogicalButton, BUTTON_COUNT};

verus! {

/// Direction of a relative-axis pulse.
#[derive(Clone, Copy, Debug, PartialEq, Eq, Structural)]
pub enum Polarity {
    Increase,
    Decrease,
}

/// One output action bound to a logical button.
#[derive(Clone, Copy, Debug, PartialEq, Eq, Structural)]
pub enum BindingTarget {
    /// A key with the given input code.
    Key(u16),
    /// A pulse on the relative axis with the given input code.
    RelativeAxis(u16, Polarity),
    /// An action whose key or axis name could not be resolved.
    Unresolved,
}

/// Sensitivity, axis orientation and the binding table, fixed before polling starts.
pub struct Configuration {
    pub sensitivity: i16,
    pub invert_x: bool,
    pub invert_y: bool,
    pub swap: bool,
    /// One optional binding list per logical button, in button order.
    pub bindings: Vec<Option<Vec<BindingTarget>>>,
}

impl Configuration {
    /// There is one binding slot per logical button.
    pub open spec fn wf(&self) -> bool {
        self.bindings@.len() == 14
    }

    /// The binding list of `b`, if it has one.
    pub open spec fn binding(&self, b: LogicalButton) -> Option<Seq<BindingTarget>> {
        match self.bindings@[button_index(b)] {
            Some(v) => Some(v@),
            None => None,
        }
    }

    /// A configuration with the given settings and no bindings.
    pub fn new(sensitivity: i16, invert_x: bool, invert_y: bool, swap: bool) -> (r: Configuration)
        ensures
            r.wf(),
            r.sensitivity == sensitivity,
            r.invert_x == invert_x,
            r.invert_y == invert_y,
            r.swap == swap,
            forall|b: LogicalButton| r.binding(b) is None,
    {
        let mut bindings: Vec<Option<Vec<BindingTarget>>> = Vec::new();
        let mut i: usize = 0;
        while i < BUTTON_COUNT
            invariant
                i <= BUTTON_COUNT,
                bindings@.len() == i,
                forall|j: int| 0 <= j < i ==> bindings@[j] is None,
            decreases BUTTON_COUNT - i,
        {
            bindings.push(None);
            i = i + 1;
        }
        Configuration { sensitivity, invert_x, invert_y, swap, bindings }
    }

    /// Replaces the binding list of `b`, leaving the other buttons alone.
    pub fn set_binding(&mut self, b: LogicalButton, targets: Vec<BindingTarget>)
        requires
            old(self).wf(),
        ensures
            final(self).wf(),
            final(self).sensitivity == old(self).sensitivity,
            final(self).invert_x == old(self).invert_x,
            final(self).invert_y == old(self).invert_y,
            final(self).swap == old(self).swap,
            final(self).binding(b) == Some(targets@),
            forall|c: LogicalButton| c != b ==> final(self).binding(c) == old(self).binding(c),
    {
        let i = b.index();
        self.bindings.set(i, Some(targets));
        assert forall|c: LogicalButton| c != b implies final(self).binding(c) == old(self).binding(c) by {
            crate::button::lemma_press_table_consistent(c);
            crate::button::lemma_press_table_consistent(b);
        }
    }

    /// The binding list of `b`, if it has one.
    pub fn binding_of(&self, b: LogicalButton) -> (r: Option<&Vec<BindingTarget>>)
        requires
            self.wf(),
        ensures
            match r {
                Some(v) => self.binding(b) == Some(v@),
                None => self.binding(b) is None,
            },
    {
        match &self.bindings[b.index()] {
            Some(v) => Some(v),
            None => None,
        }
    }
}

} // verus!
