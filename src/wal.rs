//! Pages and entries of the write-ahead log, and its statistics, as the
//! HTTP layer answers with them.

use vstd::prelude::*;
use crate::constants::{WAL_DEFAULT_PAGE_SIZE, WAL_MAX_PAGE_SIZE};
use crate::error::{ApiError, is_error};
use crate::json::{
    Json, ValueExt, array_of, index_of, json_eq, member_or_null, opt_text, str_of, str_opt_of,
    str_or_empty_spec, u64_of, u64_or_spec,
};

verus! {

/// Query of a WAL page.
#[derive(Debug, Clone, Copy)]
pub struct ListWalQuery {
    pub from: Option<u64>,
    pub limit: Option<u64>,
}

impl ListWalQuery {
    /// The offset the page starts at; the log's start by default.
    pub fn start(&self) -> (r: u64)
        ensures
            r == match self.from {
                Some(f) => f,
                None => 0,
            },
    {
        match self.from {
            Some(f) => f,
            None => 0,
        }
    }

    /// The page size asked of the remote service: the requested one, or the
    /// default, and never more than the largest page.
    pub fn page_limit(&self) -> (r: u64)
        ensures
            r == match self.limit {
                Some(l) => if l <= 1000 { l } else { 1000 },
                None => 50,
            },
    {
        let l = match self.limit {
            Some(l) => l,
            None => WAL_DEFAULT_PAGE_SIZE,
        };
        if l <= WAL_MAX_PAGE_SIZE {
            l
        } else {
            WAL_MAX_PAGE_SIZE
        }
    }
}

/// Where the next WAL page starts: reported only after a full page, which
/// suggests that more entries follow.
pub fn wal_next_offset(count: usize, limit: u64, reported: Option<u64>) -> (r: Option<u64>)
    ensures
        r == if count as int >= limit as int {
            reported
        } else {
            None
        },
{
    if count as u64 >= limit {
        reported
    } else {
        None
    }
}

/// One WAL record as the HTTP layer presents it.
#[derive(Debug)]
pub struct WalEntry {
    pub sequence: u64,
    pub offset: u64,
    pub entry_type: String,
    pub instance_id: Option<String>,
    pub machine: Option<String>,
    pub version: Option<u32>,
    pub details: Json,
}

#[derive(Debug)]
pub struct WalListResponse {
    pub records: Vec<WalEntry>,
    pub next_offset: Option<u64>,
}

#[derive(Debug)]
pub struct WalEntryResponse {
    pub sequence: u64,
    pub offset: u64,
    pub entry: Json,
}

/// The records of a WAL read, none where it holds no array.
pub open spec fn records_of(result: Json) -> Seq<Json> {
    match array_of(index_of(result, "records"@)) {
        Some(items) => items,
        None => Seq::empty(),
    }
}

/// `w` presents the WAL record `record`.
pub open spec fn presents_record(w: WalEntry, record: Json) -> bool {
    let entry = index_of(record, "entry"@);
    &&& w.sequence == u64_or_spec(record, "sequence"@, 0)
    &&& w.offset == u64_or_spec(record, "offset"@, 0)
    &&& w.entry_type@ == str_or_empty_spec(entry, "type"@)
    &&& opt_text(w.instance_id) == str_of(index_of(entry, "instance_id"@))
    &&& opt_text(w.machine) == str_of(index_of(entry, "machine"@))
    &&& w.version == match u64_of(index_of(entry, "version"@)) {
        Some(n) => Some(n as u32),
        None => None,
    }
    &&& json_eq(w.details, entry)
}

impl WalEntry {
    pub fn from_record(record: &Json) -> (r: WalEntry)
        ensures
            presents_record(r, *record),
    {
        let null = Json::Null;
        let entry: &Json = match record.get("entry") {
            Some(x) => x,
            None => &null,
        };
        let version = match entry.u64_opt("version") {
            Some(n) => Some(n as u32),
            None => None,
        };
        WalEntry {
            sequence: record.u64_or("sequence", 0),
            offset: record.u64_or("offset", 0),
            entry_type: entry.str_or_empty("type"),
            instance_id: str_opt_of(entry, "instance_id"),
            machine: str_opt_of(entry, "machine"),
            version,
            details: entry.copy(),
        }
    }
}

impl WalListResponse {
    /// A page of the WAL as read with page size `limit`: every record in
    /// order, and where the next page starts when this one is full.
    pub fn from_read(result: &Json, limit: u64) -> (r: WalListResponse)
        ensures
            r.records@.len() == records_of(*result).len(),
            forall|k: int|
                0 <= k < r.records@.len() ==> presents_record(
                    #[trigger] r.records@[k],
                    records_of(*result)[k],
                ),
            r.next_offset == if records_of(*result).len() >= limit as int {
                u64_of(index_of(*result, "next_offset"@))
            } else {
                None
            },
    {
        let mut records: Vec<WalEntry> = Vec::new();
        match result.get("records") {
            Some(Json::Array(items)) => {
                let mut i: usize = 0;
                while i < items.len()
                    invariant
                        items@ == records_of(*result),
                        i <= items@.len(),
                        records@.len() == i,
                        forall|k: int|
                            0 <= k < i ==> presents_record(#[trigger] records@[k], items@[k]),
                    decreases items@.len() - i,
                {
                    records.push(WalEntry::from_record(&items[i]));
                    i = i + 1;
                }
            },
            _ => {},
        }
        let next_offset = wal_next_offset(records.len(), limit, result.u64_opt("next_offset"));
        WalListResponse { records, next_offset }
    }
}

impl WalEntryResponse {
    /// The first record of a WAL read at `offset`; a missing entry where the
    /// read returned none.
    pub fn from_read(result: &Json, offset: u64) -> (r: Result<WalEntryResponse, ApiError>)
        ensures
            records_of(*result).len() == 0 <==> r is Err,
            r matches Err(e) ==> is_error(e, "NOT_FOUND"@, "WAL entry not found"@),
            r matches Ok(w) ==> {
                let record = records_of(*result)[0];
                &&& w.sequence == u64_or_spec(record, "sequence"@, 0)
                &&& w.offset == u64_or_spec(record, "offset"@, offset)
                &&& json_eq(w.entry, index_of(record, "entry"@))
            },
    {
        let record = match result.get("records") {
            Some(Json::Array(items)) => {
                if items.len() == 0 {
                    None
                } else {
                    Some(&items[0])
                }
            },
            _ => None,
        };
        match record {
            Some(record) => Ok(
                WalEntryResponse {
                    sequence: record.u64_or("sequence", 0),
                    offset: record.u64_or("offset", offset),
                    entry: member_or_null(record, "entry"),
                },
            ),
            None => {
                proof {
                    reveal_strlit("WAL entry");
                    reveal_strlit(" not found");
                    reveal_strlit("WAL entry not found");
                    assert("WAL entry"@ + " not found"@ =~= "WAL entry not found"@);
                }
                Err(ApiError::not_found("WAL entry"))
            },
        }
    }
}

#[derive(Debug, Clone, Copy)]
pub struct WalStatsResponse {
    pub entry_count: u64,
    pub segment_count: u64,
    pub total_size_bytes: u64,
    pub latest_offset: Option<u64>,
    pub io_stats: WalIoStats,
}

#[derive(Debug, Clone, Copy)]
pub struct WalIoStats {
    pub bytes_written: u64,
    pub bytes_read: u64,
    pub writes: u64,
    pub reads: u64,
    pub fsyncs: u64,
}

impl WalStatsResponse {
    /// The statistics that the remote service reported, with 0 for any
    /// counter it left out.
    pub fn from_stats(result: &Json) -> (r: WalStatsResponse)
        ensures
            r.entry_count == u64_or_spec(*result, "entry_count"@, 0),
            r.segment_count == u64_or_spec(*result, "segment_count"@, 0),
            r.total_size_bytes == u64_or_spec(*result, "total_size_bytes"@, 0),
            r.latest_offset == u64_of(index_of(*result, "latest_offset"@)),
            r.io_stats.bytes_written == u64_or_spec(index_of(*result, "io_stats"@), "bytes_written"@, 0),
            r.io_stats.bytes_read == u64_or_spec(index_of(*result, "io_stats"@), "bytes_read"@, 0),
            r.io_stats.writes == u64_or_spec(index_of(*result, "io_stats"@), "writes"@, 0),
            r.io_stats.reads == u64_or_spec(index_of(*result, "io_stats"@), "reads"@, 0),
            r.io_stats.fsyncs == u64_or_spec(index_of(*result, "io_stats"@), "fsyncs"@, 0),
    {
        let io = match result.get("io_stats") {
            Some(io) => WalIoStats {
                bytes_written: io.u64_or("bytes_written", 0),
                bytes_read: io.u64_or("bytes_read", 0),
                writes: io.u64_or("writes", 0),
                reads: io.u64_or("reads", 0),
                fsyncs: io.u64_or("fsyncs", 0),
            },
            None => WalIoStats { bytes_written: 0, bytes_read: 0, writes: 0, reads: 0, fsyncs: 0 },
        };
        WalStatsResponse {
            entry_count: result.u64_or("entry_count", 0),
            segment_count: result.u64_or("segment_count", 0),
            total_size_bytes: result.u64_or("total_size_bytes", 0),
            latest_offset: result.u64_opt("latest_offset"),
            io_stats: io,
        }
    }
}

} // verus!
