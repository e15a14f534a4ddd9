use vstd::prelude::*;

use crate::button::{Edge, LogicalButton};
use crate::config::{BindingTarget, Configuration, Polarity};

verus! {

/// An absolute axis of the virtual device.
#[derive(Clone, Copy, Debug, PartialEq, Eq, Structural)]
pub enum AbsAxis {
    X,
    Y,
    Pressure,
}

/// One event written to the virtual device.
#[derive(Clone, Copy, Debug, PartialEq, Eq, Structural)]
pub enum OutputEvent {
    /// An absolute-axis value.
    Abs(AbsAxis, i32),
    /// A key with its input code and value (1 pressed, 0 released).
    Key(u16, i32),
    /// A relative-axis delta with the axis's input code.
    Rel(u16, i32),
    /// The marker that closes a group of events.
    Sync,
}

/// What the translator does for one step: write an event, or report a diagnostic.
#[derive(Clone, Copy, Debug, PartialEq, Eq, Structural)]
pub enum Action {
    Emit(OutputEvent),
    /// An edge of a button that has no binding list.
    Unbound(LogicalButton),
    /// A binding of the button whose name could not be resolved; it is skipped.
    UnknownAlias(LogicalButton),
}

/// The delta of a relative-axis pulse: the same on press and on release.
pub open spec fn pulse_value(p: Polarity) -> i32 {
    match p {
        Polarity::Increase => 1i32,
        Polarity::Decrease => -1i32,
    }
}

/// The key value of an edge.
pub open spec fn key_value(e: Edge) -> i32 {
    match e {
        Edge::Press => 1,
        Edge::Release => 0,
    }
}

/// The actions of one binding target of button `b` on edge `e`.
pub open spec fn target_actions(t: BindingTarget, e: Edge, b: LogicalButton) -> Seq<Action> {
    match t {
        BindingTarget::Key(code) => seq![Action::Emit(OutputEvent::Key(code, key_value(e)))],
        BindingTarget::RelativeAxis(code, p) => seq![
            Action::Emit(OutputEvent::Rel(code, pulse_value(p))),
            Action::Emit(OutputEvent::Sync),
        ],
        BindingTarget::Unresolved => seq![Action::UnknownAlias(b)],
    }
}

/// The actions of the first `n` targets of a binding list, in order.
pub open spec fn targets_actions(ts: Seq<BindingTarget>, e: Edge, b: LogicalButton, n: int) -> Seq<
    Action,
>
    decreases n,
{
    if n <= 0 {
        Seq::empty()
    } else {
        targets_actions(ts, e, b, n - 1) + target_actions(ts[n - 1], e, b)
    }
}

/// The actions for edge `e` of button `b`: a diagnostic alone when the button is
/// unbound, else each target's actions in order followed by a sync marker.
pub open spec fn resolution(cfg: Configuration, b: LogicalButton, e: Edge) -> Seq<Action> {
    match cfg.binding(b) {
        None => seq![Action::Unbound(b)],
        Some(ts) => targets_actions(ts, e, b, ts.len() as int).push(Action::Emit(OutputEvent::Sync)),
    }
}

/// The actions for a sequence of edges, one resolution after another.
pub open spec fn resolve_edges(cfg: Configuration, edges: Seq<(LogicalButton, Edge)>) -> Seq<
    Action,
>
    decreases edges.len(),
{
    if edges.len() == 0 {
        Seq::empty()
    } else {
        resolve_edges(cfg, edges.drop_last()) + resolution(
            cfg,
            edges.last().0,
            edges.last().1,
        )
    }
}

/// Appends to `out` the actions for edge `e` of button `b`.
pub fn resolve_into(cfg: &Configuration, b: LogicalButton, e: Edge, out: &mut Vec<Action>)
    requires
        cfg.wf(),
    ensures
        final(out)@ == old(out)@ + resolution(*cfg, b, e),
{
    let ghost base = out@;
    match cfg.binding_of(b) {
        None => {
            out.push(Action::Unbound(b));
            assert(out@ =~= base + resolution(*cfg, b, e));
        },
        Some(ts) => {
            let mut i: usize = 0;
            while i < ts.len()
                invariant
                    i <= ts@.len(),
                    cfg.binding(b) == Some(ts@),
                    out@ == base + targets_actions(ts@, e, b, i as int),
                decreases ts@.len() - i,
            {
                let ghost before = out@;
                match ts[i] {
                    BindingTarget::Key(code) => {
                        let v: i32 = match e {
                            Edge::Press => 1,
                            Edge::Release => 0,
                        };
                        out.push(Action::Emit(OutputEvent::Key(code, v)));
                    },
                    BindingTarget::RelativeAxis(code, p) => {
                        let v: i32 = match p {
                            Polarity::Increase => 1,
                            Polarity::Decrease => -1,
                        };
                        out.push(Action::Emit(OutputEvent::Rel(code, v)));
                        out.push(Action::Emit(OutputEvent::Sync));
                    },
                    BindingTarget::Unresolved => {
                        out.push(Action::UnknownAlias(b));
                    },
                }
                assert(out@ =~= before + target_actions(ts@[i as int], e, b));
                assert(out@ =~= base + targets_actions(ts@, e, b, i + 1));
                i = i + 1;
            }
            out.push(Action::Emit(OutputEvent::Sync));
            assert(out@ =~= base + resolution(*cfg, b, e));
        },
    }
}

/// The actions for edge `e` of button `b` under `cfg`.
pub fn button_click(cfg: &Configuration, b: LogicalButton, e: Edge) -> (r: Vec<Action>)
    requires
        cfg.wf(),
    ensures
        r@ == resolution(*cfg, b, e),
{
    let mut out: Vec<Action> = Vec::new();
    resolve_into(cfg, b, e, &mut out);
    assert(out@ =~= resolution(*cfg, b, e));
    out
}

/// Appends to `out` the actions for each edge of `edges`, in order.
pub fn resolve_all_into(
    cfg: &Configuration,
    edges: &Vec<(LogicalButton, Edge)>,
    out: &mut Vec<Action>,
)
    requires
        cfg.wf(),
    ensures
        final(out)@ == old(out)@ + resolve_edges(*cfg, edges@),
{
    let ghost base = out@;
    let mut i: usize = 0;
    while i < edges.len()
        invariant
            i <= edges@.len(),
            cfg.wf(),
            out@ == base + resolve_edges(*cfg, edges@.take(i as int)),
        decreases edges@.len() - i,
    {
        let (b, e) = edges[i];
        resolve_into(cfg, b, e, out);
        assert(edges@.take(i + 1).drop_last() =~= edges@.take(i as int));
        assert(out@ =~= base + resolve_edges(*cfg, edges@.take(i + 1)));
        i = i + 1;
    }
    assert(edges@.take(i as int) =~= edges@);
}

/// A relative-axis binding pulses in its own direction on press and on release alike.
pub proof fn lemma_relative_pulse_ignores_edge(code: u16, p: Polarity, b: LogicalButton)
    ensures
        target_actions(BindingTarget::RelativeAxis(code, p), Edge::Press, b) == target_actions(
            BindingTarget::RelativeAxis(code, p),
            Edge::Release,
            b,
        ),
        target_actions(BindingTarget::RelativeAxis(code, p), Edge::Release, b)[0] == Action::Emit(
            OutputEvent::Rel(code, pulse_value(p)),
        ),
{
}

/// A button bound to one increasing relative axis emits the same `+1` pulse, then
/// the closing sync markers, on both edges of a press/release cycle.
pub proof fn lemma_increase_binding_pulses_twice(cfg: Configuration, b: LogicalButton, code: u16)
    requires
        cfg.binding(b) == Some(seq![BindingTarget::RelativeAxis(code, Polarity::Increase)]),
    ensures
        resolution(cfg, b, Edge::Press) == resolution(cfg, b, Edge::Release),
        resolution(cfg, b, Edge::Release) == seq![
            Action::Emit(OutputEvent::Rel(code, 1)),
            Action::Emit(OutputEvent::Sync),
            Action::Emit(OutputEvent::Sync),
        ],
{
    let ts = seq![BindingTarget::RelativeAxis(code, Polarity::Increase)];
    assert(targets_actions(ts, Edge::Press, b, 0) =~= Seq::empty());
    assert(targets_actions(ts, Edge::Release, b, 0) =~= Seq::empty());
    assert(resolution(cfg, b, Edge::Press) =~= resolution(cfg, b, Edge::Release));
    assert(resolution(cfg, b, Edge::Release) =~= seq![
        Action::Emit(OutputEvent::Rel(code, 1)),
        Action::Emit(OutputEvent::Sync),
        Action::Emit(OutputEvent::Sync),
    ]);
}

/// An edge of an unbound button writes no event: it yields one diagnostic only.
pub proof fn lemma_unbound_emits_nothing(cfg: Configuration, b: LogicalButton, e: Edge)
    requires
        cfg.binding(b) is None,
    ensures
        resolution(cfg, b, e) == seq![Action::Unbound(b)],
        forall|k: int|
            0 <= k < resolution(cfg, b, e).len() ==> !(resolution(cfg, b, e)[k] is Emit),
{
}

} // verus!
