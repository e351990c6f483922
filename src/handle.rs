//! The connection lifecycle and the single swappable handle through which
//! every caller reaches the current connection.

use vstd::prelude::*;

verus! {

/// How far a physical connection has been brought up.
#[derive(Clone, Copy, Debug, PartialEq, Eq, Structural)]
pub enum Stage {
    /// Endpoint resolved and handshake complete.
    Handshaken,
    /// Its background reader has been started as well.
    ReaderStarted,
}

/// One physical session and how far it has been brought up.
pub struct Session<C> {
    conn: C,
    stage: Stage,
}

impl<C> Session<C> {
    pub closed spec fn conn_spec(&self) -> C {
        self.conn
    }

    pub closed spec fn stage_spec(&self) -> Stage {
        self.stage
    }

    /// A session whose handshake has just completed.
    pub fn handshaken(conn: C) -> (r: Session<C>)
        ensures
            r.conn_spec() == conn,
            r.stage_spec() == Stage::Handshaken,
    {
        Session { conn, stage: Stage::Handshaken }
    }

    /// Records that the session's background reader has been started.
    pub fn reader_started(self) -> (r: Session<C>)
        ensures
            r.conn_spec() == self.conn_spec(),
            r.stage_spec() == Stage::ReaderStarted,
    {
        Session { conn: self.conn, stage: Stage::ReaderStarted }
    }

    pub fn stage(&self) -> (r: Stage)
        ensures
            r == self.stage_spec(),
    {
        self.stage
    }

    /// The connection, for starting its reader or closing it.
    pub fn conn(&self) -> (r: &C)
        ensures
            *r == self.conn_spec(),
    {
        &self.conn
    }

    pub fn into_conn(self) -> (r: C)
        ensures
            r == self.conn_spec(),
    {
        self.conn
    }
}

/// The handle to the current connection. It only ever holds a session whose
/// handshake is complete and whose reader has started: a half-open
/// connection is never exposed to callers.
pub struct ConnectionHandle<C> {
    current: Session<C>,
}

impl<C> ConnectionHandle<C> {
    #[verifier::type_invariant]
    spec fn exposes_only_ready(self) -> bool {
        self.current.stage == Stage::ReaderStarted
    }

    pub closed spec fn current_spec(&self) -> Session<C> {
        self.current
    }

    /// A handle over a first session, which must have its reader running.
    pub fn new(s: Session<C>) -> (r: ConnectionHandle<C>)
        requires
            s.stage_spec() == Stage::ReaderStarted,
        ensures
            r.current_spec() == s,
    {
        ConnectionHandle { current: s }
    }

    /// The current connection, as a shared holder sees it.
    pub fn current(&self) -> (r: &C)
        ensures
            *r == self.current_spec().conn_spec(),
            self.current_spec().stage_spec() == Stage::ReaderStarted,
    {
        proof {
            use_type_invariant(self);
        }
        &self.current.conn
    }

    /// Installs `s` in one step and hands back the session it replaces, to be
    /// closed. Only a session whose reader runs can be installed.
    pub fn replace(&mut self, s: Session<C>) -> (old_session: Session<C>)
        requires
            s.stage_spec() == Stage::ReaderStarted,
        ensures
            final(self).current_spec() == s,
            old_session == old(self).current_spec(),
    {
        proof {
            use_type_invariant(&*self);
        }
        let mut prev = s;
        core::mem::swap(&mut self.current, &mut prev);
        prev
    }
}

/// The states of the logical connection.
#[derive(Clone, Copy, Debug, PartialEq, Eq, Structural)]
pub enum LinkState {
    Disconnected,
    Connecting,
    Connected,
    Reconnecting,
}

/// What moves the logical connection between states.
#[derive(Clone, Copy, Debug, PartialEq, Eq, Structural)]
pub enum LinkEvent {
    /// A connect is started.
    Connect,
    /// A connect or reconnect completed.
    Succeeded,
    /// A connect or reconnect failed.
    Failed,
    /// An operation hit a connection-class failure.
    ConnectionLost,
}

/// The lifecycle's transitions; `None` where an event does not apply.
pub open spec fn link_next(s: LinkState, ev: LinkEvent) -> Option<LinkState> {
    match (s, ev) {
        (LinkState::Disconnected, LinkEvent::Connect) => Some(LinkState::Connecting),
        (LinkState::Connecting, LinkEvent::Succeeded) => Some(LinkState::Connected),
        (LinkState::Connecting, LinkEvent::Failed) => Some(LinkState::Disconnected),
        (LinkState::Connected, LinkEvent::ConnectionLost) => Some(LinkState::Reconnecting),
        (LinkState::Reconnecting, LinkEvent::Succeeded) => Some(LinkState::Connected),
        (LinkState::Reconnecting, LinkEvent::Failed) => Some(LinkState::Disconnected),
        _ => None,
    }
}

impl LinkState {
    /// The state that `ev` leads to, if it applies here.
    pub fn next(self, ev: LinkEvent) -> (r: Option<LinkState>)
        ensures
            r == link_next(self, ev),
    {
        match (self, ev) {
            (LinkState::Disconnected, LinkEvent::Connect) => Some(LinkState::Connecting),
            (LinkState::Connecting, LinkEvent::Succeeded) => Some(LinkState::Connected),
            (LinkState::Connecting, LinkEvent::Failed) => Some(LinkState::Disconnected),
            (LinkState::Connected, LinkEvent::ConnectionLost) => Some(LinkState::Reconnecting),
            (LinkState::Reconnecting, LinkEvent::Succeeded) => Some(LinkState::Connected),
            (LinkState::Reconnecting, LinkEvent::Failed) => Some(LinkState::Disconnected),
            _ => None,
        }
    }

    /// Operations are attempted without reconnecting first only when connected.
    pub fn can_operate(self) -> (r: bool)
        ensures
            r == (self == LinkState::Connected),
    {
        match self {
            LinkState::Connected => true,
            _ => false,
        }
    }
}

} // verus!
