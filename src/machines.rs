//! Machine listings, version numbering and the comparison of definitions.

use vstd::prelude::*;
use crate::classify::same_text;
use crate::error::{ApiError, is_error};
use crate::json::{
    Json, Member, ValueExt, array_of, index_of, json_eq, json_equal, lemma_members_eq_prefix,
    members_eq, str_of,
    str_or_empty_spec, u32s_of,
};
use crate::operations::PutMachineResult;

verus! {

/// The first listed machine named `name`, among `items`.
pub open spec fn find_machine(items: Seq<Json>, name: Seq<char>) -> Option<Json>
    decreases items.len(),
{
    if items.len() == 0 {
        None
    } else if str_of(index_of(items[0], "machine"@)) == Some(name) {
        Some(items[0])
    } else {
        find_machine(items.drop_first(), name)
    }
}

/// The entry for `name` in a machine listing (`{"items": [...]}`).
pub open spec fn machine_entry(list: Json, name: Seq<char>) -> Option<Json> {
    match array_of(index_of(list, "items"@)) {
        Some(items) => find_machine(items, name),
        None => None,
    }
}

/// The versions that a machine listing gives for `name`, if it lists it.
pub fn machine_versions(list: &Json, name: &str) -> (r: Option<Vec<u32>>)
    ensures
        match machine_entry(*list, name@) {
            None => r is None,
            Some(e) => r matches Some(v) && v@ == match array_of(index_of(e, "versions"@)) {
                Some(items) => u32s_of(items),
                None => Seq::<u32>::empty(),
            },
        },
{
    let items = match list.get("items") {
        Some(Json::Array(items)) => items,
        _ => return None,
    };
    let mut i: usize = 0;
    assert(items@.subrange(0, items@.len() as int) =~= items@);
    while i < items.len()
        invariant
            i <= items@.len(),
            machine_entry(*list, name@) == find_machine(
                items@.subrange(i as int, items@.len() as int),
                name@,
            ),
        decreases items@.len() - i,
    {
        let ghost rest = items@.subrange(i as int, items@.len() as int);
        assert(rest[0] == items@[i as int]);
        let hit = match items[i].get("machine") {
            Some(Json::Str(m)) => same_text(m.as_str(), name),
            _ => false,
        };
        if hit {
            return Some(items[i].u32_array("versions"));
        }
        assert(rest.drop_first() =~= items@.subrange(i + 1, items@.len() as int));
        i = i + 1;
    }
    None
}

#[derive(Debug)]
pub struct MachineListItem {
    pub machine: String,
    pub versions: Vec<u32>,
    pub latest_version: u32,
    pub states_count: usize,
    pub transitions_count: usize,
}

/// The versions that `v` lists under `versions`.
pub open spec fn listed_versions(v: Json) -> Seq<u32> {
    match array_of(index_of(v, "versions"@)) {
        Some(items) => u32s_of(items),
        None => Seq::empty(),
    }
}

impl MachineListItem {
    /// A machine of a listing, with the state and transition counts of its
    /// newest version; a machine that lists no version counts as version 1.
    pub fn from_listing_item(item: &Json, states_count: usize, transitions_count: usize) -> (r: MachineListItem)
        ensures
            r.machine@ == str_or_empty_spec(*item, "machine"@),
            r.versions@ == listed_versions(*item),
            r.versions@.len() == 0 ==> r.latest_version == 1,
            r.versions@.len() > 0 ==> is_max_of(r.versions@, r.latest_version),
            r.states_count == states_count,
            r.transitions_count == transitions_count,
    {
        let versions = item.u32_array("versions");
        let latest_version = match latest_version(&versions) {
            Some(v) => v,
            None => 1,
        };
        MachineListItem {
            machine: item.str_or_empty("machine"),
            versions,
            latest_version,
            states_count,
            transitions_count,
        }
    }
}

impl MachineResponse {
    /// The versions of machine `name` from a listing; a missing machine
    /// where the listing does not name it.
    pub fn from_listing(list: &Json, name: &str) -> (r: Result<MachineResponse, ApiError>)
        ensures
            machine_entry(*list, name@) is None <==> r is Err,
            r matches Err(e) ==> is_error(e, "NOT_FOUND"@, "Machine not found"@),
            r matches Ok(m) ==> m.machine@ == name@ && m.versions@ == listed_versions(
                machine_entry(*list, name@)->0,
            ),
    {
        match machine_versions(list, name) {
            Some(versions) => Ok(MachineResponse { machine: String::from_str(name), versions }),
            None => {
                proof {
                    reveal_strlit("Machine");
                    reveal_strlit(" not found");
                    reveal_strlit("Machine not found");
                    assert("Machine"@ + " not found"@ =~= "Machine not found"@);
                }
                Err(ApiError::not_found("Machine"))
            },
        }
    }
}

/// The newest version that a listing gives for `name`, 0 where it gives
/// none; a new version goes after it.
pub fn latest_listed_version(list: &Json, name: &str) -> (r: u32)
    ensures
        match machine_entry(*list, name@) {
            Some(e) if listed_versions(e).len() > 0 => is_max_of(listed_versions(e), r),
            _ => r == 0,
        },
{
    match machine_versions(list, name) {
        Some(versions) => match latest_version(&versions) {
            Some(v) => v,
            None => 0,
        },
        None => 0,
    }
}

#[derive(Debug)]
pub struct MachineListResponse {
    pub items: Vec<MachineListItem>,
}

#[derive(Debug)]
pub struct MachineResponse {
    pub machine: String,
    pub versions: Vec<u32>,
}

#[derive(Debug)]
pub struct CreateMachineVersionResponse {
    pub machine: String,
    pub version: u32,
    pub checksum: String,
    pub created: bool,
}

impl CreateMachineVersionResponse {
    /// The answer for a version that was stored.
    pub fn from_put(r: PutMachineResult) -> (c: CreateMachineVersionResponse)
        ensures
            c.machine == r.machine,
            c.version == r.version,
            c.checksum == r.checksum,
            c.created == r.created,
    {
        CreateMachineVersionResponse {
            machine: r.machine,
            version: r.version,
            checksum: r.checksum,
            created: r.created,
        }
    }
}

/// `m` is the largest of `s`.
pub open spec fn is_max_of(s: Seq<u32>, m: u32) -> bool {
    s.contains(m) && forall|i: int| 0 <= i < s.len() ==> s[i] <= m
}

/// The newest of a machine's versions, if it has any.
pub fn latest_version(versions: &Vec<u32>) -> (r: Option<u32>)
    ensures
        r is None <==> versions@.len() == 0,
        r matches Some(m) ==> is_max_of(versions@, m),
{
    if versions.len() == 0 {
        return None;
    }
    let mut best: u32 = versions[0];
    let mut i: usize = 1;
    assert(versions@.subrange(0, 1)[0] == best);
    while i < versions.len()
        invariant
            1 <= i <= versions@.len(),
            versions@.subrange(0, i as int).contains(best),
            forall|k: int| 0 <= k < i ==> versions@[k] <= best,
        decreases versions@.len() - i,
    {
        if versions[i] > best {
            best = versions[i];
            assert(versions@.subrange(0, i + 1)[i as int] == best);
        } else {
            proof {
                let w = choose|w: int| 0 <= w < i && versions@.subrange(0, i as int)[w] == best;
                assert(versions@.subrange(0, i + 1)[w] == best);
            }
        }
        i = i + 1;
    }
    assert(versions@.subrange(0, i as int) =~= versions@);
    Some(best)
}

/// The number under which a new machine version is stored: the one asked
/// for, else the one after the base version, else the one after the newest
/// stored (`latest`, 0 when there is none). `None` when that number does not
/// fit.
pub fn next_version(requested: Option<u32>, base: Option<u32>, latest: u32) -> (r: Option<u32>)
    ensures
        r == match (requested, base) {
            (Some(v), _) => Some(v),
            (None, Some(b)) => if b < u32::MAX { Some((b + 1) as u32) } else { None },
            (None, None) => if latest < u32::MAX { Some((latest + 1) as u32) } else { None },
        },
{
    match (requested, base) {
        (Some(v), _) => Some(v),
        (None, Some(b)) => if b < u32::MAX {
            Some(b + 1)
        } else {
            None
        },
        (None, None) => if latest < u32::MAX {
            Some(latest + 1)
        } else {
            None
        },
    }
}

/// The length of the array under `key` of `def["definition"]`, 0 where there
/// is none.
pub open spec fn definition_count(def: Json, key: Seq<char>) -> nat {
    match array_of(index_of(index_of(def, "definition"@), key)) {
        Some(items) => items.len(),
        None => 0,
    }
}

fn count_in(def: &Json, key: &str) -> (r: usize)
    ensures
        r == definition_count(*def, key@),
{
    match def.get("definition") {
        Some(inner) => match inner.get(key) {
            Some(Json::Array(items)) => items.len(),
            _ => 0,
        },
        None => 0,
    }
}

/// How many states and transitions a stored machine definition declares.
pub fn get_definition_counts(def: &Json) -> (r: (usize, usize))
    ensures
        r.0 == definition_count(*def, "states"@),
        r.1 == definition_count(*def, "transitions"@),
{
    (count_in(def, "states"), count_in(def, "transitions"))
}

/// The members of `ms` other than the editor's layout data.
pub open spec fn kept(ms: Seq<Member>) -> Seq<Member>
    decreases ms.len(),
{
    if ms.len() == 0 {
        Seq::empty()
    } else {
        let r = kept(ms.drop_last());
        if ms.last().key@ == "_builderPositions"@ {
            r
        } else {
            r.push(ms.last())
        }
    }
}

/// Two `meta` values are the same once layout data is left out of objects.
pub open spec fn meta_same(a: Json, b: Json) -> bool {
    match (a, b) {
        (Json::Object(xs), Json::Object(ys)) => kept(xs@).len() == kept(ys@).len() && members_eq(
            kept(xs@),
            kept(ys@),
            kept(xs@).len(),
        ),
        _ => json_eq(a, b),
    }
}

/// Two machine definitions say the same: the same states, initial state,
/// transitions and, layout data aside, the same `meta`.
pub open spec fn definitions_same(a: Json, b: Json) -> bool {
    &&& json_eq(index_of(a, "states"@), index_of(b, "states"@))
    &&& json_eq(index_of(a, "initial"@), index_of(b, "initial"@))
    &&& json_eq(index_of(a, "transitions"@), index_of(b, "transitions"@))
    &&& meta_same(index_of(a, "meta"@), index_of(b, "meta"@))
}

/// `pos` lists, in order, where in `ms` the members that `kept` keeps stand.
pub open spec fn kept_at(ms: Seq<Member>, pos: Seq<usize>) -> bool {
    &&& pos.len() == kept(ms).len()
    &&& forall|k: int|
        0 <= k < pos.len() ==> (#[trigger] pos[k] as int) < ms.len() && ms[pos[k] as int] == kept(
            ms,
        )[k]
}

fn kept_positions(ms: &Vec<Member>) -> (r: Vec<usize>)
    ensures
        kept_at(ms@, r@),
{
    let mut r: Vec<usize> = Vec::new();
    let mut i: usize = 0;
    assert(kept_at(ms@.subrange(0, 0), r@));
    while i < ms.len()
        invariant
            i <= ms@.len(),
            kept_at(ms@.subrange(0, i as int), r@),
        decreases ms@.len() - i,
    {
        let ghost sub = ms@.subrange(0, i + 1);
        let ghost prev = ms@.subrange(0, i as int);
        let ghost old_r = r@;
        assert(sub.drop_last() =~= prev);
        assert(sub.last() == ms@[i as int]);
        if !same_text(ms[i].key.as_str(), "_builderPositions") {
            r.push(i);
        }
        assert forall|k: int| 0 <= k < r@.len() implies (#[trigger] r@[k] as int) < sub.len() && sub[r@[k] as int]
            == kept(sub)[k] by {
            if k < old_r.len() {
                assert(r@[k] == old_r[k]);
                assert(kept(sub)[k] == kept(prev)[k]);
            }
        }
        assert(old_r.len() == kept(prev).len());
        assert(r@.len() == kept(sub).len());
        assert(kept_at(sub, r@));
        i = i + 1;
        assert(ms@.subrange(0, i as int) == sub);
    }
    assert(ms@.subrange(0, i as int) =~= ms@);
    r
}

fn meta_equal(a: &Json, b: &Json) -> (r: bool)
    ensures
        r == meta_same(*a, *b),
{
    match (a, b) {
        (Json::Object(xs), Json::Object(ys)) => {
            let pa = kept_positions(xs);
            let pb = kept_positions(ys);
            if pa.len() != pb.len() {
                return false;
            }
            let ghost kx = kept(xs@);
            let ghost ky = kept(ys@);
            let mut k: usize = 0;
            while k < pa.len()
                invariant
                    *a == Json::Object(*xs),
                    *b == Json::Object(*ys),
                    kx == kept(xs@),
                    ky == kept(ys@),
                    pa@.len() == pb@.len(),
                    kept_at(xs@, pa@),
                    kept_at(ys@, pb@),
                    k <= pa@.len(),
                    members_eq(kx, ky, k as nat),
                decreases pa@.len() - k,
            {
                let x = &xs[pa[k]];
                let y = &ys[pb[k]];
                assert(*x == kept(xs@)[k as int]);
                assert(*y == kept(ys@)[k as int]);
                if !same_text(x.key.as_str(), y.key.as_str())
                    || !json_equal(&x.value, &y.value) {
                    proof {
                        if meta_same(*a, *b) {
                            lemma_members_eq_prefix(kx, ky, (k + 1) as nat, kx.len());
                        }
                    }
                    return false;
                }
                k = k + 1;
            }
            true
        },
        (Json::Object(_), _) | (_, Json::Object(_)) => {
            assert(!json_eq(*a, *b));
            false
        },
        _ => json_equal(a, b),
    }
}

fn member_or_null_equal(a: &Json, b: &Json, key: &str) -> (r: bool)
    ensures
        r == json_eq(index_of(*a, key@), index_of(*b, key@)),
{
    let null_a = Json::Null;
    let null_b = Json::Null;
    let x = match a.get(key) {
        Some(x) => x,
        None => &null_a,
    };
    let y = match b.get(key) {
        Some(y) => y,
        None => &null_b,
    };
    json_equal(x, y)
}

/// Whether two machine definitions say the same, leaving the editor's
/// layout data (`meta._builderPositions`) aside.
pub fn definitions_equal(a: &Json, b: &Json) -> (r: bool)
    ensures
        r == definitions_same(*a, *b),
{
    if !member_or_null_equal(a, b, "states") {
        return false;
    }
    if !member_or_null_equal(a, b, "initial") {
        return false;
    }
    if !member_or_null_equal(a, b, "transitions") {
        return false;
    }
    let null_a = Json::Null;
    let null_b = Json::Null;
    let ma = match a.get("meta") {
        Some(x) => x,
        None => &null_a,
    };
    let mb = match b.get("meta") {
        Some(y) => y,
        None => &null_b,
    };
    meta_equal(ma, mb)
}

} // verus!
