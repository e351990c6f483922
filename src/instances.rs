//! An instance's history and pages of instances, as the HTTP layer answers
//! with them.

use vstd::prelude::*;
use crate::classify::same_text;
use crate::json::{
    Json, ValueExt, field, i64_or_spec, index_of, json_eq, opt_text, str_or_empty_spec,
    u64_or_spec,
};
use crate::operations::{InstanceSummary, ListInstancesResult};
use crate::wal::records_of;

verus! {

/// One step of an instance's history.
#[derive(Debug)]
pub struct HistoryEvent {
    pub offset: u64,
    pub event_type: String,
    pub event: Option<String>,
    pub from_state: Option<String>,
    pub to_state: String,
    pub timestamp: i64,
    pub ctx: Option<Json>,
}

#[derive(Debug)]
pub struct InstanceHistoryResponse {
    pub instance_id: String,
    pub events: Vec<HistoryEvent>,
}

pub open spec fn entry_of(r: Json) -> Json {
    index_of(r, "entry"@)
}

pub open spec fn kind_of(r: Json) -> Seq<char> {
    str_or_empty_spec(entry_of(r), "type"@)
}

pub open spec fn offset_of(r: Json) -> u64 {
    u64_or_spec(r, "offset"@, 0)
}

/// The records that make an instance's history, oldest first: those of the
/// instance that create it or apply an event to it, read up to the first of
/// its records at or past `last`, the offset it is known to have reached.
pub open spec fn history_records(rs: Seq<Json>, id: Seq<char>, last: u64) -> Seq<Json>
    decreases rs.len(),
{
    if rs.len() == 0 {
        Seq::empty()
    } else {
        let r = rs[0];
        if str_or_empty_spec(entry_of(r), "instance_id"@) != id {
            history_records(rs.drop_first(), id, last)
        } else {
            let here = if kind_of(r) == "create_instance"@ || kind_of(r) == "apply_event"@ {
                seq![r]
            } else {
                Seq::empty()
            };
            if offset_of(r) >= last {
                here
            } else {
                here + history_records(rs.drop_first(), id, last)
            }
        }
    }
}

pub open spec fn ctx_same(a: Option<Json>, b: Option<Json>) -> bool {
    match (a, b) {
        (None, None) => true,
        (Some(x), Some(y)) => json_eq(x, y),
        _ => false,
    }
}


/// `e` presents the history record `r`.
pub open spec fn presents_event(e: HistoryEvent, r: Json) -> bool {
    let entry = entry_of(r);
    &&& e.offset == offset_of(r)
    &&& e.timestamp == i64_or_spec(entry, "timestamp"@, 0)
    &&& if kind_of(r) == "create_instance"@ {
        &&& e.event_type@ == "created"@
        &&& e.event is None
        &&& e.from_state is None
        &&& e.to_state@ == str_or_empty_spec(entry, "initial_state"@)
        &&& ctx_same(e.ctx, field(entry, "initial_ctx"@))
    } else {
        &&& e.event_type@ == "transition"@
        &&& opt_text(e.event) == Some(str_or_empty_spec(entry, "event"@))
        &&& opt_text(e.from_state) == Some(str_or_empty_spec(entry, "from_state"@))
        &&& e.to_state@ == str_or_empty_spec(entry, "to_state"@)
        &&& ctx_same(e.ctx, field(entry, "ctx"@))
    }
}

fn copy_member(v: &Json, key: &str) -> (r: Option<Json>)
    ensures
        ctx_same(r, field(*v, key@)),
{
    match v.get(key) {
        Some(x) => Some(x.copy()),
        None => None,
    }
}

fn event_from(record: &Json, created: bool) -> (r: HistoryEvent)
    requires
        created == (kind_of(*record) == "create_instance"@),
    ensures
        presents_event(r, *record),
{
    let null = Json::Null;
    let entry: &Json = match record.get("entry") {
        Some(x) => x,
        None => &null,
    };
    let offset = record.u64_or("offset", 0);
    let timestamp = entry.i64_or("timestamp", 0);
    if created {
        HistoryEvent {
            offset,
            event_type: String::from_str("created"),
            event: None,
            from_state: None,
            to_state: entry.str_or_empty("initial_state"),
            timestamp,
            ctx: copy_member(entry, "initial_ctx"),
        }
    } else {
        HistoryEvent {
            offset,
            event_type: String::from_str("transition"),
            event: Some(entry.str_or_empty("event")),
            from_state: Some(entry.str_or_empty("from_state")),
            to_state: entry.str_or_empty("to_state"),
            timestamp,
            ctx: copy_member(entry, "ctx"),
        }
    }
}

impl InstanceHistoryResponse {
    /// The history of instance `id` from a WAL read, newest first, given the
    /// last offset the instance is known to have reached.
    pub fn from_wal(id: &str, last_wal_offset: u64, wal: &Json) -> (r: InstanceHistoryResponse)
        ensures
            r.instance_id@ == id@,
            r.events@.len() == history_records(records_of(*wal), id@, last_wal_offset).len(),
            forall|k: int|
                0 <= k < r.events@.len() ==> presents_event(
                    #[trigger] r.events@[k],
                    history_records(records_of(*wal), id@, last_wal_offset)[r.events@.len() - 1
                        - k],
                ),
    {
        let no_items: Vec<Json> = Vec::new();
        let rs: &Vec<Json> = match wal.get("records") {
            Some(Json::Array(items)) => items,
            _ => &no_items,
        };
        assert(rs@ == records_of(*wal));
        let ghost all = history_records(rs@, id@, last_wal_offset);
        let ghost mut chosen: Seq<Json> = Seq::empty();
        let mut collected: Vec<HistoryEvent> = Vec::new();
        let mut i: usize = 0;
        assert(rs@.subrange(0, rs@.len() as int) =~= rs@);
        assert(all =~= chosen + history_records(rs@.subrange(0, rs@.len() as int), id@, last_wal_offset));
        let mut done = false;
        while i < rs.len() && !done
            invariant
                i <= rs@.len(),
                collected@.len() == chosen.len(),
                forall|k: int| 0 <= k < chosen.len() ==> presents_event(#[trigger] collected@[k], chosen[k]),
                done ==> all == chosen,
                !done ==> all == chosen + history_records(
                    rs@.subrange(i as int, rs@.len() as int),
                    id@,
                    last_wal_offset,
                ),
            decreases rs@.len() - i,
        {
            let ghost rest = rs@.subrange(i as int, rs@.len() as int);
            assert(rest[0] == rs@[i as int]);
            assert(rest.drop_first() =~= rs@.subrange(i + 1, rs@.len() as int));
            let record = &rs[i];
            let null = Json::Null;
            let entry: &Json = match record.get("entry") {
                Some(x) => x,
                None => &null,
            };
            let owner = entry.str_or_empty("instance_id");
            if same_text(owner.as_str(), id) {
                let kind = entry.str_or_empty("type");
                let created = same_text(kind.as_str(), "create_instance");
                let applied = same_text(kind.as_str(), "apply_event");
                let ghost before = chosen;
                if created || applied {
                    collected.push(event_from(record, created));
                    proof {
                        chosen = chosen.push(*record);
                    }
                }
                assert(forall|k: int| 0 <= k < chosen.len() ==> presents_event(#[trigger] collected@[k], chosen[k])) by {
                    assert forall|k: int| 0 <= k < chosen.len() implies presents_event(
                        #[trigger] collected@[k],
                        chosen[k],
                    ) by {
                        if k < before.len() {
                            assert(chosen[k] == before[k]);
                        }
                    }
                }
                if record.u64_or("offset", 0) >= last_wal_offset {
                    done = true;
                    assert(all =~= chosen);
                } else {
                    assert(all =~= chosen + history_records(
                        rs@.subrange(i + 1, rs@.len() as int),
                        id@,
                        last_wal_offset,
                    ));
                }
            }
            i = i + 1;
        }
        if !done {
            assert(rs@.subrange(i as int, rs@.len() as int) =~= Seq::<Json>::empty());
            assert(all =~= chosen);
        }
        let n = collected.len();
        let ghost orig = collected@;
        let mut events: Vec<HistoryEvent> = Vec::new();
        while collected.len() > 0
            invariant
                n == orig.len(),
                collected@.len() + events@.len() == n,
                collected@ == orig.subrange(0, collected@.len() as int),
                forall|k: int| 0 <= k < events@.len() ==> #[trigger] events@[k] == orig[n - 1 - k],
            decreases collected@.len(),
        {
            let e = collected.pop().unwrap();
            events.push(e);
        }
        InstanceHistoryResponse { instance_id: String::from_str(id), events }
    }
}

/// Query of a page of one machine's instances.
#[derive(Debug, Clone)]
pub struct ListInstancesQuery {
    pub machine: String,
    pub state: Option<String>,
    pub limit: Option<u32>,
    pub offset: Option<u32>,
}

#[derive(Debug, Clone)]
pub struct InstanceListItem {
    pub id: String,
    pub machine: String,
    pub version: u32,
    pub state: String,
    pub created_at: i64,
    pub updated_at: i64,
    pub last_wal_offset: u64,
}

#[derive(Debug)]
pub struct InstanceListResponse {
    pub items: Vec<InstanceListItem>,
    pub total: u64,
    pub has_more: bool,
}

/// `i` presents the summary `s`.
pub open spec fn presents(i: InstanceListItem, s: InstanceSummary) -> bool {
    &&& i.id == s.id
    &&& i.machine == s.machine
    &&& i.version == s.version
    &&& i.state == s.state
    &&& i.created_at == s.created_at
    &&& i.updated_at == s.updated_at
    &&& i.last_wal_offset == s.last_wal_offset
}

impl InstanceListItem {
    pub fn from_summary(s: &InstanceSummary) -> (r: InstanceListItem)
        ensures
            presents(r, *s),
    {
        InstanceListItem {
            id: s.id.clone(),
            machine: s.machine.clone(),
            version: s.version,
            state: s.state.clone(),
            created_at: s.created_at,
            updated_at: s.updated_at,
            last_wal_offset: s.last_wal_offset,
        }
    }
}

impl InstanceListResponse {
    /// The page as the HTTP layer answers it: the same instances in the same
    /// order, with the same total and continuation flag.
    pub fn from_result(r: &ListInstancesResult) -> (p: InstanceListResponse)
        ensures
            p.items@.len() == r.instances@.len(),
            forall|k: int| 0 <= k < r.instances@.len() ==> presents(p.items@[k], r.instances@[k]),
            p.total == r.total,
            p.has_more == r.has_more,
    {
        let mut items: Vec<InstanceListItem> = Vec::new();
        let mut i: usize = 0;
        while i < r.instances.len()
            invariant
                i <= r.instances@.len(),
                items@.len() == i,
                forall|k: int| 0 <= k < i ==> presents(items@[k], r.instances@[k]),
            decreases r.instances@.len() - i,
        {
            items.push(InstanceListItem::from_summary(&r.instances[i]));
            i = i + 1;
        }
        InstanceListResponse { items, total: r.total, has_more: r.has_more }
    }
}

} // verus!
