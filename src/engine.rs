// The decisions of a session engine: what to do after each wake-up, how to
// recover from a panicking handler, and what to write when leaving.
use vstd::prelude::*;
use crate::batch::{batch_inputs, last_resize, plan_spec, BatchStep, TerminalInputs};
use crate::callback::CallbackRez;
use crate::input::{EscapeCode, SshInput};
use crate::viewport::Viewport;
use vstd::utf8::encode_utf8;

verus! {

/// Where a session engine stands in its life.
#[derive(Debug, Clone, Copy, PartialEq, Eq, Structural)]
pub enum Phase {
    /// The loop is active.
    Running,
    /// The farewell is being written and the channel closed.
    Terminating,
    /// The engine has finished.
    Closed,
}

/// Which handler the engine drives.
#[derive(Debug, Clone, Copy, PartialEq, Eq, Structural)]
pub enum HandlerSlot {
    /// The handler the application supplied.
    Application,
    /// The library's own handler, put in place after the application's panicked.
    Fallback,
}

/// What the engine does once a wake-up's callbacks are folded.
#[derive(Debug, PartialEq, Eq)]
pub enum LoopAction {
    /// Wait for the next wake-up.
    Idle,
    /// Draw a frame, then wait.
    Render,
    /// Show the cursor, leave the alternate screen, write these bytes, close
    /// the channel and stop.
    Leave(Vec<u8>),
}

pub const LF: u8 = 10;

pub const CR: u8 = 13;

/// The farewell text with every LF followed by a CR.
pub open spec fn crlf_spec(s: Seq<u8>) -> Seq<u8>
    decreases s.len(),
{
    if s.len() == 0 {
        seq![]
    } else {
        let rest = crlf_spec(s.drop_last());
        if s.last() == LF {
            rest + seq![LF, CR]
        } else {
            rest.push(s.last())
        }
    }
}

/// The bytes written after leaving the alternate screen: the farewell with
/// LF turned into LF CR, and a final LF CR.
pub open spec fn farewell_spec(s: Seq<u8>) -> Seq<u8> {
    crlf_spec(s) + seq![LF, CR]
}

/// The farewell of the default quit chord.
pub open spec fn quit_farewell() -> Seq<char> {
    "See you next time\nSmelly furries"@
}

pub open spec fn default_on_input_spec(input: SshInput, r: CallbackRez) -> bool {
    if input == SshInput::Special(EscapeCode::CtrlD) {
        r matches CallbackRez::Terminate(m) && m@ == quit_farewell()
    } else {
        r == CallbackRez::PushToRenderer
    }
}

/// The bytes to write for a farewell message.
pub fn farewell_bytes(message: &str) -> (r: Vec<u8>)
    ensures
        r@ == farewell_spec(encode_utf8(message@)),
{
    let bytes = message.as_bytes();
    let mut out: Vec<u8> = Vec::new();
    let mut i: usize = 0;
    while i < bytes.len()
        invariant
            0 <= i <= bytes@.len(),
            bytes@ == encode_utf8(message@),
            out@ == crlf_spec(bytes@.subrange(0, i as int)),
        decreases bytes@.len() - i,
    {
        let ghost pre = bytes@.subrange(0, i as int);
        assert(bytes@.subrange(0, i + 1).drop_last() =~= pre);
        let b = bytes[i];
        out.push(b);
        if b == LF {
            out.push(CR);
            assert(out@ =~= crlf_spec(pre) + seq![LF, CR]);
        }
        i += 1;
    }
    assert(bytes@.subrange(0, bytes@.len() as int) =~= bytes@);
    out.push(LF);
    out.push(CR);
    assert(out@ =~= farewell_spec(encode_utf8(message@)));
    out
}

/// What a handler's `on_input` does unless it says otherwise: Ctrl+D ends
/// the session with the default farewell; any other input asks for a frame.
pub fn default_on_input(input: &SshInput) -> (r: CallbackRez)
    ensures
        default_on_input_spec(*input, r),
{
    if *input == SshInput::Special(EscapeCode::CtrlD) {
        let m = "See you next time\nSmelly furries".to_owned();
        CallbackRez::Terminate(m)
    } else {
        CallbackRez::PushToRenderer
    }
}

/// What Ctrl+C amounts to: the session ends with an empty farewell.
pub fn interrupted() -> (r: CallbackRez)
    ensures
        r matches CallbackRez::Terminate(m) && m@ == Seq::<char>::empty(),
{
    CallbackRez::Terminate(String::new())
}

/// The period of the animation timer, in nanoseconds, for a rate of `tps`
/// ticks per second.
pub fn animation_period_nanos(tps: u8) -> (r: u64)
    requires
        tps > 0,
    ensures
        r == 1_000_000_000u64 / (tps as u64),
{
    1_000_000_000u64 / (tps as u64)
}

/// The decisions of one session engine: its phase, which handler it drives,
/// and the viewport the handler sees.
pub struct EngineCore {
    phase: Phase,
    handler: HandlerSlot,
    size: Viewport,
}

/// The state of an engine, as plain values.
pub struct EngineView {
    pub phase: Phase,
    pub handler: HandlerSlot,
    pub size: Viewport,
}

impl View for EngineCore {
    type V = EngineView;

    closed spec fn view(&self) -> EngineView {
        EngineView { phase: self.phase, handler: self.handler, size: self.size }
    }
}

impl EngineCore {
    /// A running engine for the application's handler at the given size.
    pub fn new(size: Viewport) -> (r: EngineCore)
        ensures
            r@ == (EngineView { phase: Phase::Running, handler: HandlerSlot::Application, size }),
    {
        EngineCore { phase: Phase::Running, handler: HandlerSlot::Application, size }
    }

    /// The most recent viewport.
    pub fn current_size(&self) -> (r: Viewport)
        ensures
            r == self@.size,
    {
        self.size
    }

    pub fn phase(&self) -> (r: Phase)
        ensures
            r == self@.phase,
    {
        self.phase
    }

    pub fn handler(&self) -> (r: HandlerSlot)
        ensures
            r == self@.handler,
    {
        self.handler
    }

    /// Adopts a new viewport after the handler's `on_resize`.
    pub fn apply_resize(&mut self, size: Viewport)
        ensures
            final(self)@ == (EngineView { size, ..old(self)@ }),
    {
        self.size = size;
    }

    /// Acts on the folded result of a wake-up's callbacks: `Continue` waits,
    /// a render request draws, and a terminate leaves with its farewell.
    pub fn decide(&mut self, folded: CallbackRez) -> (r: LoopAction)
        requires
            old(self)@.phase == Phase::Running,
        ensures
            folded == CallbackRez::Continue ==> r == LoopAction::Idle && final(self)@ == old(self)@,
            folded == CallbackRez::PushToRenderer ==> r == LoopAction::Render && final(self)@
                == old(self)@,
            folded matches CallbackRez::Terminate(m) ==> r matches LoopAction::Leave(bytes)
                && bytes@ == farewell_spec(encode_utf8(m@)) && final(self)@ == (EngineView {
                phase: Phase::Terminating,
                ..old(self)@
            }),
    {
        match folded {
            CallbackRez::Continue => LoopAction::Idle,
            CallbackRez::PushToRenderer => LoopAction::Render,
            CallbackRez::Terminate(m) => {
                self.phase = Phase::Terminating;
                LoopAction::Leave(farewell_bytes(m.as_str()))
            },
        }
    }

    /// The inbound queue closed (the peer is gone): leave with an empty
    /// farewell.
    pub fn queue_closed(&mut self) -> (r: LoopAction)
        requires
            old(self)@.phase == Phase::Running,
        ensures
            r matches LoopAction::Leave(bytes) && bytes@ == farewell_spec(Seq::empty()),
            final(self)@ == (EngineView { phase: Phase::Terminating, ..old(self)@ }),
    {
        self.phase = Phase::Terminating;
        let r = farewell_bytes("");
        proof {
            reveal_strlit("");
            assert(encode_utf8(""@) =~= Seq::<u8>::empty()) by {
                assert(""@ =~= Seq::<char>::empty());
            }
        }
        LoopAction::Leave(r)
    }

    /// A handler callback or its drawing panicked. The partial frame is
    /// dropped by the caller; the engine swaps in the fallback handler and
    /// keeps running. The first time, the fallback panel is drawn at once; a
    /// panic of the fallback itself draws nothing more.
    pub fn handler_panicked(&mut self) -> (r: LoopAction)
        ensures
            final(self)@ == after_panic(old(self)@),
            r == (if old(self)@.handler == HandlerSlot::Application {
                LoopAction::Render
            } else {
                LoopAction::Idle
            }),
    {
        let first = self.handler == HandlerSlot::Application;
        self.handler = HandlerSlot::Fallback;
        if first {
            LoopAction::Render
        } else {
            LoopAction::Idle
        }
    }

    /// The farewell was written and the channel closed.
    pub fn finish(&mut self)
        ensures
            final(self)@ == (EngineView { phase: Phase::Closed, ..old(self)@ }),
    {
        self.phase = Phase::Closed;
    }
}

/// The state after a panic of the application's handler.
pub open spec fn after_panic(e: EngineView) -> EngineView {
    EngineView { handler: HandlerSlot::Fallback, ..e }
}

/// A panic of the application's handler leaves the session running at the
/// same size on the fallback handler, which draws at once, and the next input
/// is delivered to it.
pub proof fn lemma_panic_isolation(e: EngineView, next: SshInput)
    requires
        e.phase == Phase::Running,
        next != SshInput::Special(EscapeCode::CtrlC),
    ensures
        after_panic(e).phase == Phase::Running,
        after_panic(e).size == e.size,
        after_panic(e).handler == HandlerSlot::Fallback,
        plan_spec(seq![TerminalInputs::Input(next)]) == seq![BatchStep::Deliver(next)],
{
    let b = seq![TerminalInputs::Input(next)];
    assert(b.drop_last() =~= Seq::<TerminalInputs>::empty());
    assert(batch_inputs(b.drop_last()) =~= Seq::<SshInput>::empty());
    assert(last_resize(b.drop_last()) is None);
    assert(batch_inputs(b) =~= seq![next]);
    assert(plan_spec(b) =~= seq![BatchStep::Deliver(next)]);
}

} // verus!
