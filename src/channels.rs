// The channels of one SSH session and the transitions the peer can ask for.
use vstd::prelude::*;
use std::collections::HashMap;
use crate::batch::TerminalInputs;
use crate::input::{run_spec, DecodeState, InputDecoder, SshInput};
use crate::viewport::{clamp_dimension, clamp_spec};

verus! {

broadcast use vstd::std_specs::hash::group_hash_axioms;

/// The application's answer to a request for a terminal session.
#[derive(Debug, Clone, Copy, PartialEq, Eq, Structural)]
pub enum Decision {
    Accept,
    Deny,
}

/// Protocol errors of a session.
#[derive(Debug, Clone, Copy, PartialEq, Eq, Structural)]
pub enum Error {
    /// Data or a window change for a channel with no terminal.
    UnknownChannel,
    /// A PTY request for a channel that was never opened.
    PtyRequestBeforeOpenRequest,
    /// A second PTY request for one channel.
    PtyRequestTwice,
    /// The engine's inbound queue is closed.
    SessionClosed,
}

/// The state of one channel: opened and waiting for a PTY, holding `C`; or
/// running an engine reached through `L`, with the channel's input decoder.
pub enum ChannelState<C, L> {
    Opened(C),
    Running(L, InputDecoder),
}

/// The channels of one SSH session, by channel id.
pub struct ChannelTable<C, L> {
    channels: HashMap<u32, ChannelState<C, L>>,
}

impl<C, L> View for ChannelTable<C, L> {
    type V = Map<u32, ChannelState<C, L>>;

    closed spec fn view(&self) -> Map<u32, ChannelState<C, L>> {
        self.channels@
    }
}

/// The outcome of a PTY request on a channel in table `m`.
pub open spec fn pty_outcome<C, L>(m: Map<u32, ChannelState<C, L>>, id: u32) -> Result<(), Error> {
    if !m.contains_key(id) {
        Err(Error::PtyRequestBeforeOpenRequest)
    } else if m[id] is Running {
        Err(Error::PtyRequestTwice)
    } else {
        Ok(())
    }
}

/// `n` holds the same channels as `m`, and only channel `id` may differ.
pub open spec fn same_but<C, L>(m: Map<u32, ChannelState<C, L>>, n: Map<u32, ChannelState<C, L>>, id: u32) -> bool {
    n.dom() == m.dom() && n.remove(id) == m.remove(id)
}

pub open spec fn is_running<C, L>(m: Map<u32, ChannelState<C, L>>, id: u32) -> bool {
    m.contains_key(id) && m[id] is Running
}

impl<C, L> ChannelTable<C, L> {
    /// A session with no channels.
    pub fn new() -> (r: ChannelTable<C, L>)
        ensures
            r@ == Map::<u32, ChannelState<C, L>>::empty(),
    {
        ChannelTable { channels: HashMap::new() }
    }

    /// A channel open request. When the application accepts, the channel is
    /// recorded as opened, holding `opened`.
    pub fn channel_open(&mut self, id: u32, decision: Decision, opened: C) -> (r: bool)
        ensures
            r == (decision == Decision::Accept),
            r ==> final(self)@ == old(self)@.insert(id, ChannelState::Opened(opened)),
            !r ==> final(self)@ == old(self)@,
    {
        match decision {
            Decision::Accept => {
                self.channels.insert(id, ChannelState::Opened(opened));
                true
            },
            Decision::Deny => false,
        }
    }

    /// A PTY request. On an opened channel, `start` is called once with what
    /// the channel held, to spawn its engine, and the channel becomes running
    /// with a fresh decoder. Otherwise nothing is spawned and the table is
    /// left as it was.
    pub fn pty_request<F: FnOnce(C) -> L>(&mut self, id: u32, start: F) -> (r: Result<(), Error>)
        requires
            forall|c: C| start.requires((c,)),
        ensures
            r == pty_outcome(old(self)@, id),
            r is Err ==> final(self)@ == old(self)@,
            r is Ok ==> same_but(old(self)@, final(self)@, id) && (final(self)@[id] matches ChannelState::Running(l, d)
                && d@ == DecodeState::Ground && start.ensures((old(self)@[id]->Opened_0,), l)),
    {
        match self.channels.remove(&id) {
            None => Err(Error::PtyRequestBeforeOpenRequest),
            Some(ChannelState::Running(l, d)) => {
                self.channels.insert(id, ChannelState::Running(l, d));
                assert(self.channels@ =~= old(self)@);
                Err(Error::PtyRequestTwice)
            },
            Some(ChannelState::Opened(c)) => {
                let link = start(c);
                self.channels.insert(id, ChannelState::Running(link, InputDecoder::new()));
                assert(self.channels@.dom() =~= old(self)@.dom());
                assert(self.channels@.remove(id) =~= old(self)@.remove(id));
                Ok(())
            },
        }
    }

    /// Bytes from the client on a channel: its decoder turns them into input
    /// events, which are returned for the channel's engine.
    pub fn data(&mut self, id: u32, bytes: &[u8]) -> (r: Result<Vec<SshInput>, Error>)
        ensures
            !is_running(old(self)@, id) ==> r == Err::<Vec<SshInput>, Error>(Error::UnknownChannel)
                && final(self)@ == old(self)@,
            is_running(old(self)@, id) ==> (old(self)@[id] matches ChannelState::Running(l, d)
                && r matches Ok(events) && events@ == run_spec(d@, bytes@).1
                && same_but(old(self)@, final(self)@, id)
                && (final(self)@[id] matches ChannelState::Running(l2, d2) && l2 == l
                && d2@ == run_spec(d@, bytes@).0)),
    {
        match self.channels.remove(&id) {
            None => Err(Error::UnknownChannel),
            Some(ChannelState::Opened(c)) => {
                self.channels.insert(id, ChannelState::Opened(c));
                assert(self.channels@ =~= old(self)@);
                Err(Error::UnknownChannel)
            },
            Some(ChannelState::Running(l, d)) => {
                let mut d = d;
                let events = d.feed(bytes);
                self.channels.insert(id, ChannelState::Running(l, d));
                assert(self.channels@.dom() =~= old(self)@.dom());
                assert(self.channels@.remove(id) =~= old(self)@.remove(id));
                Ok(events)
            },
        }
    }

    /// The client's terminal changed size: the resize event for the channel's
    /// engine, with both dimensions narrowed to 16 bits without wrapping.
    pub fn window_change(&self, id: u32, cols: u32, rows: u32) -> (r: Result<TerminalInputs, Error>)
        ensures
            is_running(self@, id) ==> r == Ok::<TerminalInputs, Error>(
                TerminalInputs::Resize(clamp_spec(cols), clamp_spec(rows)),
            ),
            !is_running(self@, id) ==> r == Err::<TerminalInputs, Error>(Error::UnknownChannel),
    {
        match self.channels.get(&id) {
            Some(ChannelState::Running(_, _)) => Ok(
                TerminalInputs::Resize(clamp_dimension(cols), clamp_dimension(rows)),
            ),
            _ => Err(Error::UnknownChannel),
        }
    }

    /// The link to the engine of a running channel.
    pub fn link(&self, id: u32) -> (r: Option<&L>)
        ensures
            is_running(self@, id) ==> (self@[id] matches ChannelState::Running(l, _) && r
                == Some(&l)),
            !is_running(self@, id) ==> r is None,
    {
        match self.channels.get(&id) {
            Some(ChannelState::Running(l, _)) => Some(l),
            _ => None,
        }
    }

    /// Forgets a channel, once its engine has exited.
    pub fn remove(&mut self, id: u32) -> (r: Option<ChannelState<C, L>>)
        ensures
            final(self)@ == old(self)@.remove(id),
            old(self)@.contains_key(id) ==> r == Some(old(self)@[id]),
            !old(self)@.contains_key(id) ==> r is None,
    {
        self.channels.remove(&id)
    }
}

/// Each channel gets exactly one engine: once opened, its first PTY request
/// succeeds; once running (the table after that request), every further PTY
/// request fails with `PtyRequestTwice` and spawns nothing; a PTY request on a
/// channel that was never opened fails with `PtyRequestBeforeOpenRequest`.
pub proof fn lemma_one_engine_per_channel<C, L>(
    m: Map<u32, ChannelState<C, L>>,
    id: u32,
    c: C,
    n: Map<u32, ChannelState<C, L>>,
)
    requires
        same_but(m.insert(id, ChannelState::Opened(c)), n, id),
        n[id] is Running,
    ensures
        pty_outcome(m.insert(id, ChannelState::Opened(c)), id) == Ok::<(), Error>(()),
        pty_outcome(n, id) == Err::<(), Error>(Error::PtyRequestTwice),
        pty_outcome(m.remove(id), id) == Err::<(), Error>(Error::PtyRequestBeforeOpenRequest),
{
    assert(m.insert(id, ChannelState::Opened(c)).dom().contains(id));
    assert(n.contains_key(id));
}

} // verus!
