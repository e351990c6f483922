//! The typed operation surface: the remote operations, the name each one
//! carries in diagnostics, how its failures are reshaped, and its results.

use vstd::prelude::*;
use crate::classify::{DomainKind, classify_domain, domain_kind_of, has_sub};
use crate::classify::is_connection_msg;
use crate::error::{ApiError, is_error};
use crate::retry::{Action, Event, Executor, Phase};

verus! {

/// The remote operations that the client offers.
#[derive(Clone, Copy, Debug, PartialEq, Eq, Structural)]
pub enum Operation {
    Ping,
    Info,
    ListMachines,
    GetMachine,
    PutMachine,
    GetInstance,
    CreateInstance,
    DeleteInstance,
    ApplyEvent,
    WalRead,
    WalStats,
    ListInstances,
}

/// How an operation's failures are reshaped after the retry policy.
#[derive(Clone, Copy, Debug, PartialEq, Eq, Structural)]
pub enum ErrorMapping {
    /// Returned as they are.
    Unchanged,
    /// A failure that says "not found" names a missing instance.
    InstanceLookup,
    /// Domain rejections get their own kind.
    DomainRejection,
}

pub open spec fn op_name_of(op: Operation) -> Seq<char> {
    match op {
        Operation::Ping => "Ping"@,
        Operation::Info => "Info"@,
        Operation::ListMachines => "List machines"@,
        Operation::GetMachine => "Get machine"@,
        Operation::PutMachine => "Put machine"@,
        Operation::GetInstance => "Get instance"@,
        Operation::CreateInstance => "Create instance"@,
        Operation::DeleteInstance => "Delete instance"@,
        Operation::ApplyEvent => "Apply event"@,
        Operation::WalRead => "WAL read"@,
        Operation::WalStats => "WAL stats"@,
        Operation::ListInstances => "List instances"@,
    }
}

pub open spec fn mapping_of(op: Operation) -> ErrorMapping {
    match op {
        Operation::GetInstance | Operation::DeleteInstance => ErrorMapping::InstanceLookup,
        Operation::ApplyEvent => ErrorMapping::DomainRejection,
        _ => ErrorMapping::Unchanged,
    }
}

/// The code that a domain kind is reported under.
pub open spec fn domain_code(k: DomainKind) -> Seq<char> {
    match k {
        DomainKind::InvalidTransition => "INVALID_TRANSITION"@,
        DomainKind::GuardFailed => "GUARD_FAILED"@,
        DomainKind::StateMismatch => "STATE_MISMATCH"@,
        DomainKind::NotFound => "NOT_FOUND"@,
    }
}

/// `r` is what the error `e` of an operation with mapping `m` becomes; `t` is
/// the rendering of `e` that the mapping reads.
pub open spec fn mapped_error(m: ErrorMapping, e: ApiError, r: ApiError) -> bool {
    let t = e.code@ + ": "@ + e.message@;
    match m {
        ErrorMapping::Unchanged => r == e,
        ErrorMapping::InstanceLookup => if crate::classify::has_sub(t, "not found"@) {
            is_error(r, "NOT_FOUND"@, "Instance not found"@)
        } else {
            r == e
        },
        ErrorMapping::DomainRejection => match domain_kind_of(t) {
            Some(DomainKind::NotFound) => is_error(r, "NOT_FOUND"@, "Instance not found"@),
            Some(k) => is_error(r, domain_code(k), t),
            None => r == e,
        },
    }
}

impl Operation {
    /// The name that diagnostics give the operation.
    pub fn name(&self) -> (r: &'static str)
        ensures
            r@ == op_name_of(*self),
    {
        match self {
            Operation::Ping => "Ping",
            Operation::Info => "Info",
            Operation::ListMachines => "List machines",
            Operation::GetMachine => "Get machine",
            Operation::PutMachine => "Put machine",
            Operation::GetInstance => "Get instance",
            Operation::CreateInstance => "Create instance",
            Operation::DeleteInstance => "Delete instance",
            Operation::ApplyEvent => "Apply event",
            Operation::WalRead => "WAL read",
            Operation::WalStats => "WAL stats",
            Operation::ListInstances => "List instances",
        }
    }

    pub fn error_mapping(&self) -> (r: ErrorMapping)
        ensures
            r == mapping_of(*self),
    {
        match self {
            Operation::GetInstance | Operation::DeleteInstance => ErrorMapping::InstanceLookup,
            Operation::ApplyEvent => ErrorMapping::DomainRejection,
            _ => ErrorMapping::Unchanged,
        }
    }

    /// Reshapes the error that the retry policy returned for this operation.
    pub fn map_error(&self, e: ApiError) -> (r: ApiError)
        ensures
            mapped_error(mapping_of(*self), e, r),
    {
        map_error_with(self.error_mapping(), e)
    }
}

/// Reshapes an error under the given mapping.
pub fn map_error_with(m: ErrorMapping, e: ApiError) -> (r: ApiError)
    ensures
        mapped_error(m, e, r),
{
    match m {
        ErrorMapping::Unchanged => e,
        ErrorMapping::InstanceLookup => {
            let t = e.text();
            if crate::classify::contains_text(t.as_str(), "not found") {
                proof {
                    reveal_strlit("Instance");
                    reveal_strlit(" not found");
                    reveal_strlit("Instance not found");
                    assert("Instance"@ + " not found"@ =~= "Instance not found"@);
                }
                ApiError::not_found("Instance")
            } else {
                e
            }
        },
        ErrorMapping::DomainRejection => {
            let t = e.text();
            match classify_domain(t.as_str()) {
                Some(DomainKind::InvalidTransition) => ApiError::new("INVALID_TRANSITION", t.as_str()),
                Some(DomainKind::GuardFailed) => ApiError::new("GUARD_FAILED", t.as_str()),
                Some(DomainKind::StateMismatch) => ApiError::new("STATE_MISMATCH", t.as_str()),
                Some(DomainKind::NotFound) => {
                    proof {
                        reveal_strlit("Instance");
                        reveal_strlit(" not found");
                        reveal_strlit("Instance not found");
                        assert("Instance"@ + " not found"@ =~= "Instance not found"@);
                    }
                    ApiError::not_found("Instance")
                },
                None => e,
            }
        },
    }
}

/// What storing a machine definition reported.
#[derive(Debug)]
pub struct PutMachineResult {
    pub machine: String,
    pub version: u32,
    pub checksum: String,
    pub created: bool,
}

/// One instance as the remote service holds it.
#[derive(Debug)]
pub struct InstanceResult {
    pub instance_id: String,
    pub machine: String,
    pub version: u32,
    pub state: String,
    pub ctx: serde_json::Value,
    pub last_wal_offset: u64,
}

#[derive(Debug)]
pub struct CreateInstanceResult {
    pub instance_id: String,
    pub state: String,
    pub wal_offset: u64,
}

/// What applying an event did.
#[derive(Debug)]
pub struct ApplyEventResult {
    pub from_state: String,
    pub to_state: String,
    pub ctx: serde_json::Value,
    pub wal_offset: u64,
    pub applied: bool,
    pub event_id: Option<String>,
}

/// One page of instance summaries.
#[derive(Debug)]
pub struct ListInstancesResult {
    pub instances: Vec<InstanceSummary>,
    pub total: u64,
    pub has_more: bool,
}

#[derive(Debug, Clone)]
pub struct InstanceSummary {
    pub id: String,
    pub machine: String,
    pub version: u32,
    pub state: String,
    pub created_at: i64,
    pub updated_at: i64,
    pub last_wal_offset: u64,
}

/// A prefix that no occurrence of `p` can start in leaves the occurrences of
/// `p` where they were.
proof fn lemma_prefix_free(pre: Seq<char>, m: Seq<char>, p: Seq<char>)
    requires
        p.len() >= 3,
        forall|i: int|
            0 <= i < pre.len() ==> #[trigger] pre[i] != p[0] || (i + 1 < pre.len() && pre[i + 1]
                != p[1]) || (i + 2 < pre.len() && pre[i + 2] != p[2]),
    ensures
        has_sub(pre + m, p) == has_sub(m, p),
{
    let s = pre + m;
    if has_sub(m, p) {
        let i = choose|i: int|
            0 <= i && i + p.len() <= m.len() && #[trigger] m.subrange(i, i + p.len()) == p;
        assert(s.subrange(i + pre.len(), i + pre.len() + p.len()) =~= m.subrange(i, i + p.len()));
    }
    if has_sub(s, p) {
        let i = choose|i: int|
            0 <= i && i + p.len() <= s.len() && #[trigger] s.subrange(i, i + p.len()) == p;
        if i < pre.len() {
            assert(s.subrange(i, i + p.len())[0] == p[0]);
            assert(s.subrange(i, i + p.len())[1] == p[1]);
            assert(s.subrange(i, i + p.len())[2] == p[2]);
            assert(pre[i] != p[0] || (i + 1 < pre.len() && pre[i + 1] != p[1]) || (i + 2
                < pre.len() && pre[i + 2] != p[2]));
        } else {
            let j = i - pre.len();
            assert(m.subrange(j, j + p.len()) =~= s.subrange(i, i + p.len()));
        }
    }
}

proof fn lemma_apply_event_prefix(m: Seq<char>)
    ensures
        domain_kind_of("RSTMDB_ERROR: Apply event failed: "@ + m) == domain_kind_of(m),
{
    let pre = "RSTMDB_ERROR: Apply event failed: "@;
    reveal_strlit("RSTMDB_ERROR: Apply event failed: ");
    reveal_strlit("INVALID_TRANSITION");
    reveal_strlit("GUARD_FAILED");
    reveal_strlit("STATE_MISMATCH");
    reveal_strlit("not found");
    lemma_prefix_free(pre, m, "INVALID_TRANSITION"@);
    lemma_prefix_free(pre, m, "GUARD_FAILED"@);
    lemma_prefix_free(pre, m, "STATE_MISMATCH"@);
    lemma_prefix_free(pre, m, "not found"@);
}

/// An event application whose failure names a domain rejection, and is not of
/// the connection class, is not retried: no reconnect is requested, and the
/// error returned carries the kind that the failure names, with the failure's
/// text in its message (a missing instance is reported as such).
pub proof fn law_domain_rejection_not_retried<T>(
    s0: Executor,
    m: String,
    s1: Executor,
    a: Action<T>,
    r: ApiError,
)
    requires
        s0.is_fresh(),
        s0.op_name@ == op_name_of(Operation::ApplyEvent),
        domain_kind_of(m@) is Some,
        !is_connection_msg(m@),
        s0.transition(Event::Failed(m), s1, a),
        mapped_error(mapping_of(Operation::ApplyEvent), a->ReturnErr_0, r),
    ensures
        s1.reconnects == 0,
        s1.invocations == 1,
        s1.phase == Phase::Finished,
        a is ReturnErr,
        r.code@ == domain_code(domain_kind_of(m@)->0),
        domain_kind_of(m@) != Some(DomainKind::NotFound) ==> has_sub(r.message@, m@),
{
    let e = a->ReturnErr_0;
    let pre = "RSTMDB_ERROR: Apply event failed: "@;
    reveal_strlit("RSTMDB_ERROR: Apply event failed: ");
    reveal_strlit("RSTMDB_ERROR");
    reveal_strlit(": ");
    reveal_strlit("Apply event");
    reveal_strlit(" failed: ");
    assert(e.code@ + ": "@ + e.message@ =~= pre + m@);
    lemma_apply_event_prefix(m@);
    let t = pre + m@;
    assert(t.subrange(pre.len() as int, pre.len() + m@.len() as int) =~= m@);
    reveal_strlit("NOT_FOUND");
}

} // verus!
