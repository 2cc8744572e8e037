// How one wake-up's batch of queued events becomes the engine's work:
// inputs in arrival order, then only the newest resize.
use vstd::prelude::*;
use crate::input::{EscapeCode, SshInput};
use crate::viewport::{at_origin, clamp_spec, Viewport};

verus! {

/// The most events the engine takes from its inbound queue in one wake-up.
pub const BATCH_LIMIT: usize = 20;

/// An event for a session engine, as the session adapter queues it.
#[derive(Debug, Clone, Copy, PartialEq, Eq, Structural)]
pub enum TerminalInputs {
    /// A new terminal size, columns then rows, already narrowed to 16 bits.
    Resize(u16, u16),
    Input(SshInput),
}

/// One piece of work that a batch of events turns into, in the order the
/// engine performs it.
#[derive(Debug, Clone, Copy, PartialEq, Eq, Structural)]
pub enum BatchStep {
    /// Hand the input to the handler's `on_input`.
    Deliver(SshInput),
    /// Ctrl+C: the session ends without asking the handler.
    Interrupt,
    /// Call `on_resize`, then adopt the viewport.
    Resize(Viewport),
}

/// The inputs of a batch, in the order they arrived.
pub open spec fn batch_inputs(b: Seq<TerminalInputs>) -> Seq<SshInput>
    decreases b.len(),
{
    if b.len() == 0 {
        seq![]
    } else {
        let rest = batch_inputs(b.drop_last());
        match b.last() {
            TerminalInputs::Input(i) => rest.push(i),
            TerminalInputs::Resize(_, _) => rest,
        }
    }
}

/// The newest resize of a batch, if it holds one.
pub open spec fn last_resize(b: Seq<TerminalInputs>) -> Option<(u16, u16)>
    decreases b.len(),
{
    if b.len() == 0 {
        None
    } else {
        match b.last() {
            TerminalInputs::Resize(w, h) => Some((w, h)),
            TerminalInputs::Input(_) => last_resize(b.drop_last()),
        }
    }
}

pub open spec fn step_for_input(i: SshInput) -> BatchStep {
    if i == SshInput::Special(EscapeCode::CtrlC) {
        BatchStep::Interrupt
    } else {
        BatchStep::Deliver(i)
    }
}

pub open spec fn resize_steps(r: Option<(u16, u16)>) -> Seq<BatchStep> {
    match r {
        Some((w, h)) => seq![BatchStep::Resize(at_origin(w, h))],
        None => seq![],
    }
}

/// The work for a batch: every input in arrival order, then the newest
/// resize alone. Earlier resizes are overwritten and never reach the handler.
pub open spec fn plan_spec(b: Seq<TerminalInputs>) -> Seq<BatchStep> {
    batch_inputs(b).map_values(|i: SshInput| step_for_input(i)) + resize_steps(last_resize(b))
}

/// Turns a batch of queued events into the engine's work for this wake-up.
pub fn plan_batch(batch: &Vec<TerminalInputs>) -> (r: Vec<BatchStep>)
    ensures
        r@ == plan_spec(batch@),
{
    let mut steps: Vec<BatchStep> = Vec::new();
    let mut newest: Option<(u16, u16)> = None;
    let mut i: usize = 0;
    while i < batch.len()
        invariant
            0 <= i <= batch@.len(),
            steps@ == batch_inputs(batch@.subrange(0, i as int)).map_values(
                |i: SshInput| step_for_input(i),
            ),
            newest == last_resize(batch@.subrange(0, i as int)),
        decreases batch@.len() - i,
    {
        let ghost pre = batch@.subrange(0, i as int);
        let ghost cur = batch@.subrange(0, i + 1);
        assert(cur.drop_last() =~= pre);
        match batch[i] {
            TerminalInputs::Input(input) => {
                if input == SshInput::Special(EscapeCode::CtrlC) {
                    steps.push(BatchStep::Interrupt);
                } else {
                    steps.push(BatchStep::Deliver(input));
                }
                assert(steps@ =~= batch_inputs(cur).map_values(|i: SshInput| step_for_input(i)));
            },
            TerminalInputs::Resize(w, h) => {
                newest = Some((w, h));
            },
        }
        i += 1;
    }
    assert(batch@.subrange(0, batch@.len() as int) =~= batch@);
    match newest {
        Some((w, h)) => {
            steps.push(BatchStep::Resize(Viewport::new(w, h)));
        },
        None => {},
    }
    assert(steps@ =~= plan_spec(batch@));
    steps
}

/// The shape of every plan: the inputs' steps in arrival order, none of them
/// a resize, and after them at most one resize, the newest of the batch. So
/// every input reaches the handler at the size the batch started with.
pub proof fn lemma_plan_shape(b: Seq<TerminalInputs>)
    ensures
        plan_spec(b).len() == batch_inputs(b).len() + resize_steps(last_resize(b)).len(),
        forall|k: int|
            0 <= k < batch_inputs(b).len() ==> plan_spec(b)[k] == step_for_input(
                #[trigger] batch_inputs(b)[k],
            ) && !(plan_spec(b)[k] is Resize),
        last_resize(b) is None ==> plan_spec(b).len() == batch_inputs(b).len(),
        last_resize(b) matches Some((w, h)) ==> plan_spec(b).last() == BatchStep::Resize(
            at_origin(w, h),
        ),
{
    let ins = batch_inputs(b);
    assert forall|k: int| 0 <= k < ins.len() implies plan_spec(b)[k] == step_for_input(
        #[trigger] ins[k],
    ) && !(plan_spec(b)[k] is Resize) by {
        assert(plan_spec(b)[k] == ins.map_values(|i: SshInput| step_for_input(i))[k]);
    }
}

/// A batch made of inputs only is delivered exactly in arrival order.
pub proof fn lemma_inputs_in_order(b: Seq<TerminalInputs>)
    requires
        forall|k: int| 0 <= k < b.len() ==> (#[trigger] b[k]) is Input,
    ensures
        batch_inputs(b) == b.map_values(|e: TerminalInputs| e->Input_0),
        last_resize(b) is None,
        plan_spec(b) == b.map_values(|e: TerminalInputs| step_for_input(e->Input_0)),
    decreases b.len(),
{
    if b.len() > 0 {
        let p = b.drop_last();
        assert forall|k: int| 0 <= k < p.len() implies (#[trigger] p[k]) is Input by {
            assert(p[k] == b[k]);
        }
        lemma_inputs_in_order(p);
        assert(b.last() is Input);
        assert(batch_inputs(b) =~= b.map_values(|e: TerminalInputs| e->Input_0));
    }
    assert(plan_spec(b) =~= b.map_values(|e: TerminalInputs| step_for_input(e->Input_0)));
}

/// In a batch of a resize, an input and another resize, the input is handled
/// first at the old size, then only the second resize is applied; the first
/// is never observed.
pub proof fn lemma_resize_coalescing(w1: u16, h1: u16, i: SshInput, w2: u16, h2: u16)
    ensures
        plan_spec(
            seq![TerminalInputs::Resize(w1, h1), TerminalInputs::Input(i), TerminalInputs::Resize(w2, h2)],
        ) == seq![step_for_input(i), BatchStep::Resize(at_origin(w2, h2))],
{
    let b = seq![TerminalInputs::Resize(w1, h1), TerminalInputs::Input(i), TerminalInputs::Resize(w2, h2)];
    let b2 = b.drop_last();
    let b1 = b2.drop_last();
    assert(b2 =~= seq![TerminalInputs::Resize(w1, h1), TerminalInputs::Input(i)]);
    assert(b1 =~= seq![TerminalInputs::Resize(w1, h1)]);
    assert(b1.drop_last() =~= Seq::<TerminalInputs>::empty());
    assert(batch_inputs(b1.drop_last()) =~= Seq::<SshInput>::empty());
    assert(batch_inputs(b1) =~= Seq::<SshInput>::empty());
    assert(batch_inputs(b2) =~= seq![i]);
    assert(batch_inputs(b) =~= seq![i]);
    assert(plan_spec(b) =~= seq![step_for_input(i), BatchStep::Resize(at_origin(w2, h2))]);
}

/// A window change of `cols` by `rows` (each within 16 bits), queued alone,
/// makes the engine adopt exactly the viewport (0, 0, cols, rows).
pub proof fn lemma_resize_round_trip(cols: u32, rows: u32)
    requires
        cols <= 0xffff,
        rows <= 0xffff,
    ensures
        plan_spec(seq![TerminalInputs::Resize(clamp_spec(cols), clamp_spec(rows))]) == seq![
            BatchStep::Resize(Viewport { x: 0, y: 0, width: cols as u16, height: rows as u16 }),
        ],
{
    let b = seq![TerminalInputs::Resize(clamp_spec(cols), clamp_spec(rows))];
    assert(b.drop_last() =~= Seq::<TerminalInputs>::empty());
    assert(batch_inputs(b.drop_last()) =~= Seq::<SshInput>::empty());
    assert(batch_inputs(b) =~= Seq::<SshInput>::empty());
    assert(plan_spec(b) =~= seq![
        BatchStep::Resize(Viewport { x: 0, y: 0, width: cols as u16, height: rows as u16 }),
    ]);
}

} // verus!
