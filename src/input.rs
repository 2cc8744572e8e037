// Decoding of the client's raw bytes into key events, one byte at a time, so
// escape sequences may arrive split across reads.
use vstd::prelude::*;

verus! {

/// Special keys that the decoder recognises.
#[derive(Debug, Clone, Copy, PartialEq, Eq, Structural)]
pub enum EscapeCode {
    Esc,
    Enter,
    Up,
    Down,
    Right,
    Left,
    CtrlC,
    CtrlD,
}

/// One input event decoded from the client's byte stream.
#[derive(Debug, Clone, Copy, PartialEq, Eq, Structural)]
pub enum SshInput {
    KeyPress(char),
    Special(EscapeCode),
}

/// Where the decoder stands inside a possible escape sequence.
#[derive(Debug, Clone, Copy, PartialEq, Eq, Structural)]
pub enum DecodeState {
    /// No sequence in progress.
    Ground,
    /// An ESC byte was seen and held back.
    Escape,
    /// ESC `[` was seen and held back.
    EscapeBracket,
}

pub const ESC: u8 = 27;

pub const BRACKET: u8 = 91;

/// The key named by the final byte of an `ESC [ x` cursor sequence.
pub open spec fn arrow_of(b: u8) -> Option<EscapeCode> {
    if b == 65 {
        Some(EscapeCode::Up)
    } else if b == 66 {
        Some(EscapeCode::Down)
    } else if b == 67 {
        Some(EscapeCode::Right)
    } else if b == 68 {
        Some(EscapeCode::Left)
    } else {
        None
    }
}

/// The event for a byte that stands alone.
pub open spec fn single_of(b: u8) -> SshInput {
    if b == 3 {
        SshInput::Special(EscapeCode::CtrlC)
    } else if b == 4 {
        SshInput::Special(EscapeCode::CtrlD)
    } else if b == 13 {
        SshInput::Special(EscapeCode::Enter)
    } else if b == ESC {
        SshInput::Special(EscapeCode::Esc)
    } else {
        SshInput::KeyPress(b as char)
    }
}

/// One byte of input: the next state and the events it completes.
pub open spec fn step_spec(st: DecodeState, b: u8) -> (DecodeState, Seq<SshInput>) {
    match st {
        DecodeState::Ground => if b == ESC {
            (DecodeState::Escape, seq![])
        } else {
            (DecodeState::Ground, seq![single_of(b)])
        },
        DecodeState::Escape => if b == BRACKET {
            (DecodeState::EscapeBracket, seq![])
        } else if b == ESC {
            (DecodeState::Escape, seq![single_of(ESC)])
        } else {
            (DecodeState::Ground, seq![single_of(ESC), single_of(b)])
        },
        DecodeState::EscapeBracket => if arrow_of(b) is Some {
            (DecodeState::Ground, seq![SshInput::Special(arrow_of(b)->Some_0)])
        } else if b == ESC {
            (DecodeState::Escape, seq![single_of(ESC), single_of(BRACKET)])
        } else {
            (DecodeState::Ground, seq![single_of(ESC), single_of(BRACKET), single_of(b)])
        },
    }
}

/// Runs the decoder from `st` over the bytes `s`: the final state and every
/// event completed on the way, in order.
pub open spec fn run_spec(st: DecodeState, s: Seq<u8>) -> (DecodeState, Seq<SshInput>)
    decreases s.len(),
{
    if s.len() == 0 {
        (st, seq![])
    } else {
        let (st1, e1) = step_spec(st, s[0]);
        let (st2, e2) = run_spec(st1, s.subrange(1, s.len() as int));
        (st2, e1 + e2)
    }
}

/// Feeding `a` and then `b` gives the events and the state that feeding
/// `a + b` at once gives, so an escape sequence may be split across reads.
pub proof fn lemma_run_split(st: DecodeState, a: Seq<u8>, b: Seq<u8>)
    ensures
        run_spec(st, a + b) == (
            run_spec(run_spec(st, a).0, b).0,
            run_spec(st, a).1 + run_spec(run_spec(st, a).0, b).1,
        ),
    decreases a.len(),
{
    if a.len() == 0 {
        assert(a + b =~= b);
        assert(run_spec(st, a).1 + run_spec(st, b).1 =~= run_spec(st, b).1);
    } else {
        let (st1, e1) = step_spec(st, a[0]);
        let a1 = a.subrange(1, a.len() as int);
        assert((a + b)[0] == a[0]);
        assert((a + b).subrange(1, (a + b).len() as int) =~= a1 + b);
        lemma_run_split(st1, a1, b);
        let mid = run_spec(st1, a1);
        assert(e1 + (mid.1 + run_spec(mid.0, b).1) =~= (e1 + mid.1) + run_spec(mid.0, b).1);
    }
}

/// A stateful decoder from raw client bytes to input events.
pub struct InputDecoder {
    state: DecodeState,
}

impl View for InputDecoder {
    type V = DecodeState;

    closed spec fn view(&self) -> DecodeState {
        self.state
    }
}

fn single(b: u8) -> (r: SshInput)
    ensures
        r == single_of(b),
{
    if b == 3 {
        SshInput::Special(EscapeCode::CtrlC)
    } else if b == 4 {
        SshInput::Special(EscapeCode::CtrlD)
    } else if b == 13 {
        SshInput::Special(EscapeCode::Enter)
    } else if b == ESC {
        SshInput::Special(EscapeCode::Esc)
    } else {
        SshInput::KeyPress(b as char)
    }
}

fn arrow(b: u8) -> (r: Option<EscapeCode>)
    ensures
        r == arrow_of(b),
{
    if b == 65 {
        Some(EscapeCode::Up)
    } else if b == 66 {
        Some(EscapeCode::Down)
    } else if b == 67 {
        Some(EscapeCode::Right)
    } else if b == 68 {
        Some(EscapeCode::Left)
    } else {
        None
    }
}

impl InputDecoder {
    /// A decoder with no sequence in progress.
    pub fn new() -> (r: InputDecoder)
        ensures
            r@ == DecodeState::Ground,
    {
        InputDecoder { state: DecodeState::Ground }
    }

    fn step(&mut self, b: u8, out: &mut Vec<SshInput>)
        ensures
            final(self)@ == step_spec(old(self)@, b).0,
            final(out)@ == old(out)@ + step_spec(old(self)@, b).1,
    {
        match self.state {
            DecodeState::Ground => {
                if b == ESC {
                    self.state = DecodeState::Escape;
                } else {
                    out.push(single(b));
                }
            },
            DecodeState::Escape => {
                if b == BRACKET {
                    self.state = DecodeState::EscapeBracket;
                } else if b == ESC {
                    out.push(single(ESC));
                } else {
                    out.push(single(ESC));
                    out.push(single(b));
                    self.state = DecodeState::Ground;
                }
            },
            DecodeState::EscapeBracket => {
                match arrow(b) {
                    Some(code) => {
                        out.push(SshInput::Special(code));
                        self.state = DecodeState::Ground;
                    },
                    None => {
                        out.push(single(ESC));
                        out.push(single(BRACKET));
                        if b == ESC {
                            self.state = DecodeState::Escape;
                        } else {
                            out.push(single(b));
                            self.state = DecodeState::Ground;
                        }
                    },
                }
            },
        }
        assert(final(out)@ =~= old(out)@ + step_spec(old(self)@, b).1);
    }

    /// Decodes one run of bytes. Events whose bytes are all here come out in
    /// order; a trailing ESC or ESC `[` is held until the next run decides it.
    pub fn feed(&mut self, data: &[u8]) -> (r: Vec<SshInput>)
        ensures
            (final(self)@, r@) == run_spec(old(self)@, data@),
    {
        let mut out: Vec<SshInput> = Vec::new();
        let ghost st0 = self.state;
        let mut i: usize = 0;
        while i < data.len()
            invariant
                0 <= i <= data@.len(),
                (self.state, out@) == run_spec(st0, data@.subrange(0, i as int)),
            decreases data@.len() - i,
        {
            let ghost before = self.state;
            self.step(data[i], &mut out);
            proof {
                let pre = data@.subrange(0, i as int);
                let one = seq![data@[i as int]];
                assert(data@.subrange(0, i + 1) =~= pre + one);
                lemma_run_split(st0, pre, one);
                let (st1, e1) = step_spec(before, data@[i as int]);
                assert(one.subrange(1, 1) =~= Seq::<u8>::empty());
                assert(run_spec(st1, Seq::<u8>::empty()) == (st1, Seq::<SshInput>::empty()));
                assert(e1 + Seq::<SshInput>::empty() =~= e1);
            }
            i += 1;
        }
        assert(data@.subrange(0, data@.len() as int) =~= data@);
        out
    }
}

} // verus!
