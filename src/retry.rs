//! The reconnect-and-retry policy that every remote operation runs under.
//!
//! One logical call is an `Executor`: the caller performs the action that each
//! step hands back (invoke the operation, reconnect, or return) and reports
//! what came of it as the next event. A call invokes its operation at most
//! twice and reconnects at most once, and only after a connection-class
//! failure of its first invocation.

use vstd::prelude::*;
use crate::classify::{is_connection_msg, is_connection_error};
use crate::error::{ApiError, is_error};

verus! {

/// Where one logical call stands.
#[derive(Clone, Copy, Debug, PartialEq, Eq, Structural)]
pub enum Phase {
    /// The first invocation is in flight.
    FirstAttempt,
    /// The first invocation failed with a connection-class failure and the
    /// connection is being replaced.
    Reconnecting,
    /// The single retry is in flight.
    Retrying,
    /// The call has produced its result.
    Finished,
}

/// What the caller reports back after performing an action.
pub enum Event<T> {
    /// The invocation returned this value.
    Succeeded(T),
    /// The invocation failed with this message.
    Failed(String),
    /// The connection was replaced.
    Reconnected,
    /// Replacing the connection failed with this error.
    ReconnectFailed(ApiError),
}

/// What the caller is to do next.
pub enum Action<T> {
    /// Invoke the operation against the current connection.
    Invoke,
    /// Replace the connection, holding no shared access to it.
    Reconnect,
    /// Return this value to the caller.
    ReturnOk(T),
    /// Return this error to the caller.
    ReturnErr(ApiError),
}

/// The retry state of one logical call.
pub struct Executor {
    /// Names the operation in error messages.
    pub op_name: String,
    pub phase: Phase,
    /// Invocations of the operation issued so far.
    pub invocations: u8,
    /// Reconnects requested so far.
    pub reconnects: u8,
}

/// The message of the error that a failed invocation becomes.
pub open spec fn failure_message(op: Seq<char>, m: Seq<char>) -> Seq<char> {
    op + " failed: "@ + m
}

/// The error that a failed invocation of `op` with message `m` becomes.
pub open spec fn is_failure_of(e: ApiError, op: Seq<char>, m: Seq<char>) -> bool {
    is_error(e, "RSTMDB_ERROR"@, failure_message(op, m))
}

impl Executor {
    /// The counters agree with the phase.
    pub open spec fn wf(&self) -> bool {
        match self.phase {
            Phase::FirstAttempt => self.invocations == 1 && self.reconnects == 0,
            Phase::Reconnecting => self.invocations == 1 && self.reconnects == 1,
            Phase::Retrying => self.invocations == 2 && self.reconnects == 1,
            Phase::Finished => 1 <= self.invocations <= 2 && self.reconnects <= 1
                && self.invocations <= self.reconnects + 1,
        }
    }

    /// A call whose first invocation has just been issued.
    pub open spec fn is_fresh(&self) -> bool {
        self.phase == Phase::FirstAttempt && self.invocations == 1 && self.reconnects == 0
    }

    /// `ev` is an outcome of the action that this state handed out.
    pub open spec fn accepts_spec<T>(&self, ev: Event<T>) -> bool {
        match self.phase {
            Phase::FirstAttempt | Phase::Retrying => ev is Succeeded || ev is Failed,
            Phase::Reconnecting => ev is Reconnected || ev is ReconnectFailed,
            Phase::Finished => false,
        }
    }

    /// One step of the policy: from `self` on event `ev` to state `t` and
    /// action `a`.
    pub open spec fn transition<T>(self, ev: Event<T>, t: Executor, a: Action<T>) -> bool {
        &&& t.op_name == self.op_name
        &&& match ev {
            Event::Succeeded(v) => {
                &&& t.phase == Phase::Finished
                &&& t.invocations == self.invocations
                &&& t.reconnects == self.reconnects
                &&& a == Action::ReturnOk(v)
            },
            Event::Failed(m) => if self.phase == Phase::FirstAttempt && is_connection_msg(m@) {
                &&& t.phase == Phase::Reconnecting
                &&& t.invocations == self.invocations
                &&& t.reconnects == self.reconnects + 1
                &&& a == Action::<T>::Reconnect
            } else {
                &&& t.phase == Phase::Finished
                &&& t.invocations == self.invocations
                &&& t.reconnects == self.reconnects
                &&& a is ReturnErr
                &&& is_failure_of(a->ReturnErr_0, self.op_name@, m@)
            },
            Event::Reconnected => {
                &&& t.phase == Phase::Retrying
                &&& t.invocations == self.invocations + 1
                &&& t.reconnects == self.reconnects
                &&& a == Action::<T>::Invoke
            },
            Event::ReconnectFailed(e) => {
                &&& t.phase == Phase::Finished
                &&& t.invocations == self.invocations
                &&& t.reconnects == self.reconnects
                &&& a == Action::<T>::ReturnErr(e)
            },
        }
    }

    /// Starts a call of the operation `op_name`; its first invocation is to
    /// be issued now.
    pub fn new(op_name: &str) -> (r: Executor)
        ensures
            r.is_fresh(),
            r.wf(),
            r.op_name@ == op_name@,
    {
        Executor {
            op_name: String::from_str(op_name),
            phase: Phase::FirstAttempt,
            invocations: 1,
            reconnects: 0,
        }
    }

    /// Tells whether `ev` is an outcome of the action last handed out.
    pub fn accepts<T>(&self, ev: &Event<T>) -> (r: bool)
        ensures
            r == self.accepts_spec(*ev),
    {
        match self.phase {
            Phase::FirstAttempt | Phase::Retrying => match ev {
                Event::Succeeded(_) | Event::Failed(_) => true,
                _ => false,
            },
            Phase::Reconnecting => match ev {
                Event::Reconnected | Event::ReconnectFailed(_) => true,
                _ => false,
            },
            Phase::Finished => false,
        }
    }

    /// Takes the outcome of the last action and decides the next one.
    pub fn step<T>(&mut self, ev: Event<T>) -> (a: Action<T>)
        requires
            old(self).wf(),
            old(self).accepts_spec(ev),
        ensures
            final(self).wf(),
            old(self).transition(ev, *final(self), a),
    {
        match ev {
            Event::Succeeded(v) => {
                self.phase = Phase::Finished;
                Action::ReturnOk(v)
            },
            Event::Failed(m) => {
                if self.phase == Phase::FirstAttempt && is_connection_error(m.as_str()) {
                    self.phase = Phase::Reconnecting;
                    self.reconnects = self.reconnects + 1;
                    Action::Reconnect
                } else {
                    let mut msg = self.op_name.clone();
                    msg.append(" failed: ");
                    msg.append(m.as_str());
                    self.phase = Phase::Finished;
                    Action::ReturnErr(ApiError::rstmdb_error(msg.as_str()))
                }
            },
            Event::Reconnected => {
                self.phase = Phase::Retrying;
                self.invocations = self.invocations + 1;
                Action::Invoke
            },
            Event::ReconnectFailed(e) => {
                self.phase = Phase::Finished;
                Action::ReturnErr(e)
            },
        }
    }
}

/// Every step keeps the counters consistent: a call never issues more than
/// two invocations nor more than one reconnect, a reconnect is requested only
/// while none has been, and a second invocation only after a reconnect.
pub proof fn law_bounded_attempts<T>(s: Executor, ev: Event<T>, t: Executor, a: Action<T>)
    requires
        s.wf(),
        s.accepts_spec(ev),
        s.transition(ev, t, a),
    ensures
        t.wf(),
        t.invocations <= 2,
        t.reconnects <= 1,
        a is Reconnect ==> s.reconnects == 0 && t.reconnects == 1,
        a is Invoke ==> s.invocations == 1 && t.invocations == 2 && t.reconnects == 1,
{
}

/// When the transport does not fail, the call returns the transport's own
/// result after one invocation and no reconnect, and takes no further event.
pub proof fn law_passthrough<T>(s0: Executor, v: T, s1: Executor, a: Action<T>)
    requires
        s0.is_fresh(),
        s0.transition(Event::Succeeded(v), s1, a),
    ensures
        a == Action::ReturnOk(v),
        s1.invocations == 1,
        s1.reconnects == 0,
        s1.phase == Phase::Finished,
        forall|ev: Event<T>| !s1.accepts_spec(ev),
{
}

/// A first invocation that fails with a connection-class message leads to
/// exactly one reconnect and exactly one retry; whatever the retry yields is
/// returned, a second failure as an error naming the operation, and no third
/// invocation follows.
pub proof fn law_single_retry<T>(
    s0: Executor,
    m1: String,
    s1: Executor,
    a1: Action<T>,
    s2: Executor,
    a2: Action<T>,
    ev3: Event<T>,
    s3: Executor,
    a3: Action<T>,
)
    requires
        s0.is_fresh(),
        is_connection_msg(m1@),
        s0.transition(Event::Failed(m1), s1, a1),
        s1.transition(Event::<T>::Reconnected, s2, a2),
        s2.accepts_spec(ev3),
        s2.transition(ev3, s3, a3),
    ensures
        a1 == Action::<T>::Reconnect,
        a2 == Action::<T>::Invoke,
        s3.invocations == 2,
        s3.reconnects == 1,
        s3.phase == Phase::Finished,
        forall|ev: Event<T>| !s3.accepts_spec(ev),
        ev3 matches Event::Succeeded(v) ==> a3 == Action::ReturnOk(v),
        ev3 matches Event::Failed(m) ==> a3 is ReturnErr && is_failure_of(
            a3->ReturnErr_0,
            s0.op_name@,
            m@,
        ),
{
}

/// A failure that is not of the connection class is returned at once, as an
/// error whose message holds the failure's text: no reconnect is requested.
pub proof fn law_no_retry_on_other_failure<T>(s0: Executor, m: String, s1: Executor, a: Action<T>)
    requires
        s0.is_fresh(),
        !is_connection_msg(m@),
        s0.transition(Event::Failed(m), s1, a),
    ensures
        s1.reconnects == 0,
        s1.invocations == 1,
        s1.phase == Phase::Finished,
        a is ReturnErr,
        is_failure_of(a->ReturnErr_0, s0.op_name@, m@),
{
}

/// When replacing the connection fails, the call ends with that error after
/// one invocation and one reconnect.
pub proof fn law_reconnect_failure_ends_call<T>(
    s1: Executor,
    e: ApiError,
    s2: Executor,
    a: Action<T>,
)
    requires
        s1.wf(),
        s1.phase == Phase::Reconnecting,
        s1.transition(Event::<T>::ReconnectFailed(e), s2, a),
    ensures
        a == Action::<T>::ReturnErr(e),
        s2.phase == Phase::Finished,
        s2.invocations == 1,
        s2.reconnects == 1,
        forall|ev: Event<T>| !s2.accepts_spec(ev),
{
}

} // verus!
