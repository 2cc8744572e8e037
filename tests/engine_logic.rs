use sshdance::batch::BATCH_LIMIT;
use sshdance::engine::{animation_period_nanos, default_on_input, farewell_bytes, interrupted};
use sshdance::{
    plan_batch, BatchStep, CallbackRez, EngineCore, EscapeCode, HandlerSlot, InputDecoder,
    LoopAction, Phase, SshInput, TerminalInputs, Viewport,
};

fn key(c: char) -> SshInput {
    SshInput::KeyPress(c)
}

#[test]
fn pick_table() {
    let t = || CallbackRez::Terminate("bye".to_string());
    assert_eq!(CallbackRez::Continue.pick(CallbackRez::Continue), CallbackRez::Continue);
    assert_eq!(CallbackRez::Continue.pick(CallbackRez::PushToRenderer), CallbackRez::PushToRenderer);
    assert_eq!(CallbackRez::Continue.pick(t()), t());
    assert_eq!(CallbackRez::PushToRenderer.pick(CallbackRez::Continue), CallbackRez::PushToRenderer);
    assert_eq!(CallbackRez::PushToRenderer.pick(CallbackRez::PushToRenderer), CallbackRez::PushToRenderer);
    assert_eq!(CallbackRez::PushToRenderer.pick(t()), t());
    assert_eq!(t().pick(CallbackRez::Continue), t());
    assert_eq!(t().pick(CallbackRez::PushToRenderer), t());
    assert_eq!(t().pick(CallbackRez::Terminate("later".to_string())), t());
}

#[test]
fn terminate_dominates_a_batch() {
    let results = vec![
        CallbackRez::PushToRenderer,
        CallbackRez::Continue,
        CallbackRez::Terminate("first".to_string()),
        CallbackRez::PushToRenderer,
        CallbackRez::Terminate("second".to_string()),
    ];
    let mut acc = CallbackRez::Continue;
    for r in results {
        acc = acc.pick(r);
    }
    assert_eq!(acc, CallbackRez::Terminate("first".to_string()));
}

#[test]
fn decoder_special_keys() {
    let mut d = InputDecoder::new();
    let out = d.feed(&[3, 4, 13, 27, 91, 65, 27, 91, 66, 27, 91, 67, 27, 91, 68, b'a']);
    assert_eq!(
        out,
        vec![
            SshInput::Special(EscapeCode::CtrlC),
            SshInput::Special(EscapeCode::CtrlD),
            SshInput::Special(EscapeCode::Enter),
            SshInput::Special(EscapeCode::Up),
            SshInput::Special(EscapeCode::Down),
            SshInput::Special(EscapeCode::Right),
            SshInput::Special(EscapeCode::Left),
            key('a'),
        ]
    );
}

#[test]
fn decoder_split_sequence() {
    let mut d = InputDecoder::new();
    assert_eq!(d.feed(&[b'x', 27]), vec![key('x')]);
    assert_eq!(d.feed(&[91]), vec![]);
    assert_eq!(d.feed(&[65, b'y']), vec![SshInput::Special(EscapeCode::Up), key('y')]);
}

#[test]
fn decoder_split_matches_whole() {
    let bytes = [b'q', 27, 27, 91, 90, 27, 91, 67, 13, 27, 91];
    let mut whole = InputDecoder::new();
    let all = whole.feed(&bytes);
    for cut in 0..=bytes.len() {
        let mut d = InputDecoder::new();
        let mut got = d.feed(&bytes[..cut]);
        got.extend(d.feed(&bytes[cut..]));
        assert_eq!(got, all, "cut at {cut}");
    }
}

#[test]
fn decoder_malformed_sequence_keeps_bytes() {
    let mut d = InputDecoder::new();
    let out = d.feed(&[27, 91, b'Z', 27, b'k']);
    assert_eq!(
        out,
        vec![
            SshInput::Special(EscapeCode::Esc),
            key('['),
            key('Z'),
            SshInput::Special(EscapeCode::Esc),
            key('k'),
        ]
    );
}

#[test]
fn decoder_double_escape() {
    let mut d = InputDecoder::new();
    assert_eq!(d.feed(&[27, 27]), vec![SshInput::Special(EscapeCode::Esc)]);
    assert_eq!(d.feed(&[b'a']), vec![SshInput::Special(EscapeCode::Esc), key('a')]);
}

#[test]
fn resize_coalescing_plan() {
    let batch = vec![
        TerminalInputs::Resize(10, 5),
        TerminalInputs::Input(key('i')),
        TerminalInputs::Resize(30, 7),
    ];
    assert_eq!(
        plan_batch(&batch),
        vec![BatchStep::Deliver(key('i')), BatchStep::Resize(Viewport::new(30, 7))]
    );
}

#[test]
fn inputs_keep_their_order() {
    let batch: Vec<TerminalInputs> =
        "hello".chars().map(|c| TerminalInputs::Input(key(c))).collect();
    let plan = plan_batch(&batch);
    let expected: Vec<BatchStep> = "hello".chars().map(|c| BatchStep::Deliver(key(c))).collect();
    assert_eq!(plan, expected);
}

#[test]
fn resize_burst_applies_newest_once() {
    let batch = vec![
        TerminalInputs::Resize(80, 24),
        TerminalInputs::Resize(100, 30),
        TerminalInputs::Resize(120, 40),
        TerminalInputs::Resize(200, 50),
        TerminalInputs::Resize(80, 24),
    ];
    let plan = plan_batch(&batch);
    assert_eq!(plan, vec![BatchStep::Resize(Viewport::new(80, 24))]);
    let mut core = EngineCore::new(Viewport::new(200, 40));
    if let BatchStep::Resize(v) = plan[0] {
        core.apply_resize(v);
    }
    assert_eq!(core.current_size(), Viewport { x: 0, y: 0, width: 80, height: 24 });
}

#[test]
fn ctrl_c_interrupts() {
    let batch = vec![
        TerminalInputs::Input(key('a')),
        TerminalInputs::Input(SshInput::Special(EscapeCode::CtrlC)),
    ];
    assert_eq!(plan_batch(&batch), vec![BatchStep::Deliver(key('a')), BatchStep::Interrupt]);
    assert_eq!(interrupted(), CallbackRez::Terminate(String::new()));
}

#[test]
fn empty_batch_plans_nothing() {
    assert_eq!(plan_batch(&vec![]), vec![]);
    assert_eq!(BATCH_LIMIT, 20);
}

#[test]
fn farewell_bytes_translate_newlines() {
    assert_eq!(farewell_bytes("hello\nworld"), b"hello\n\rworld\n\r".to_vec());
    assert_eq!(farewell_bytes(""), b"\n\r".to_vec());
    assert_eq!(farewell_bytes("\n\n"), b"\n\r\n\r\n\r".to_vec());
}

#[test]
fn ctrl_d_default_farewell() {
    let r = default_on_input(&SshInput::Special(EscapeCode::CtrlD));
    assert_eq!(r, CallbackRez::Terminate("See you next time\nSmelly furries".to_string()));
    assert_eq!(default_on_input(&key('d')), CallbackRez::PushToRenderer);
    let mut core = EngineCore::new(Viewport::new(80, 24));
    let action = core.decide(r);
    assert_eq!(action, LoopAction::Leave(b"See you next time\n\rSmelly furries\n\r".to_vec()));
    assert_eq!(core.phase(), Phase::Terminating);
    core.finish();
    assert_eq!(core.phase(), Phase::Closed);
}

#[test]
fn echo_then_quit_session() {
    let mut decoder = InputDecoder::new();
    let mut core = EngineCore::new(Viewport::new(80, 24));
    let mut counter = 0u32;
    let mut frames = Vec::new();
    let mut farewell = None;
    for bytes in [&b"a"[..], b"b", b"c", &[4u8][..]] {
        let batch: Vec<TerminalInputs> =
            decoder.feed(bytes).into_iter().map(TerminalInputs::Input).collect();
        let mut acc = CallbackRez::Continue;
        for step in plan_batch(&batch) {
            match step {
                BatchStep::Deliver(i) => {
                    if let SshInput::KeyPress(_) = i {
                        counter += 1;
                    }
                    acc = acc.pick(default_on_input(&i));
                }
                BatchStep::Interrupt => acc = acc.pick(interrupted()),
                BatchStep::Resize(v) => core.apply_resize(v),
            }
        }
        match core.decide(acc) {
            LoopAction::Render => frames.push(counter),
            LoopAction::Leave(b) => farewell = Some(b),
            LoopAction::Idle => {}
        }
    }
    assert_eq!(frames, vec![1, 2, 3]);
    assert_eq!(farewell, Some(b"See you next time\n\rSmelly furries\n\r".to_vec()));
}

#[test]
fn decide_continue_and_render() {
    let mut core = EngineCore::new(Viewport::new(80, 24));
    assert_eq!(core.decide(CallbackRez::Continue), LoopAction::Idle);
    assert_eq!(core.decide(CallbackRez::PushToRenderer), LoopAction::Render);
    assert_eq!(core.phase(), Phase::Running);
}

#[test]
fn message_render_request_draws_once() {
    let mut core = EngineCore::new(Viewport::new(80, 24));
    let on_message = CallbackRez::PushToRenderer;
    assert_eq!(core.decide(on_message), LoopAction::Render);
}

#[test]
fn handler_panic_swaps_to_fallback() {
    let mut core = EngineCore::new(Viewport::new(80, 24));
    assert_eq!(core.handler(), HandlerSlot::Application);
    assert_eq!(core.handler_panicked(), LoopAction::Render);
    assert_eq!(core.handler(), HandlerSlot::Fallback);
    assert_eq!(core.phase(), Phase::Running);
    assert_eq!(core.current_size(), Viewport::new(80, 24));
    let plan = plan_batch(&vec![TerminalInputs::Input(key('b'))]);
    assert_eq!(plan, vec![BatchStep::Deliver(key('b'))]);
    assert_eq!(core.handler_panicked(), LoopAction::Idle);
    assert_eq!(core.phase(), Phase::Running);
}

#[test]
fn peer_gone_leaves_with_empty_farewell() {
    let mut core = EngineCore::new(Viewport::new(80, 24));
    assert_eq!(core.queue_closed(), LoopAction::Leave(b"\n\r".to_vec()));
    assert_eq!(core.phase(), Phase::Terminating);
}

#[test]
fn animation_period_for_rates() {
    assert_eq!(animation_period_nanos(10), 100_000_000);
    assert_eq!(animation_period_nanos(5), 200_000_000);
    assert_eq!(animation_period_nanos(255), 3_921_568);
    let ticks_in_600ms = 600_000_000 / animation_period_nanos(10);
    assert!((5..=7).contains(&ticks_in_600ms));
}
