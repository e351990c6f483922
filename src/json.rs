//! JSON documents as the library reads them, and the field accessors that
//! the HTTP layer uses on the remote service's answers.

use vstd::prelude::*;
use crate::classify::same_text;

verus! {

/// A JSON number as the parser classified it.
#[derive(Debug)]
pub enum JsonNumber {
    /// A non-negative integer.
    PosInt(u64),
    /// A negative integer.
    NegInt(i64),
    /// Any other number, by its text.
    Float(String),
}

/// A JSON document.
#[derive(Debug)]
pub enum Json {
    Null,
    Bool(bool),
    Number(JsonNumber),
    Str(String),
    Array(Vec<Json>),
    Object(Vec<Member>),
}

/// One key and value of an object.
#[derive(Debug)]
pub struct Member {
    pub key: String,
    pub value: Json,
}

/// The value stored under `key` among `ms`, the first if there are several.
pub open spec fn lookup(ms: Seq<Member>, key: Seq<char>) -> Option<Json>
    decreases ms.len(),
{
    if ms.len() == 0 {
        None
    } else if ms[0].key@ == key {
        Some(ms[0].value)
    } else {
        lookup(ms.drop_first(), key)
    }
}

/// The member `key` of an object; nothing for other values.
pub open spec fn field(v: Json, key: Seq<char>) -> Option<Json> {
    match v {
        Json::Object(ms) => lookup(ms@, key),
        _ => None,
    }
}

/// `v[key]`: the member, or null where there is none.
pub open spec fn index_of(v: Json, key: Seq<char>) -> Json {
    match field(v, key) {
        Some(x) => x,
        None => Json::Null,
    }
}

pub open spec fn str_of(v: Json) -> Option<Seq<char>> {
    match v {
        Json::Str(s) => Some(s@),
        _ => None,
    }
}

pub open spec fn u64_of(v: Json) -> Option<u64> {
    match v {
        Json::Number(JsonNumber::PosInt(n)) => Some(n),
        _ => None,
    }
}

pub open spec fn i64_of(v: Json) -> Option<i64> {
    match v {
        Json::Number(JsonNumber::PosInt(n)) => if n <= i64::MAX as u64 {
            Some(n as i64)
        } else {
            None
        },
        Json::Number(JsonNumber::NegInt(i)) => Some(i),
        _ => None,
    }
}

/// The unsigned integers among `s`, in order, each cut to 32 bits.
pub open spec fn u32s_of(s: Seq<Json>) -> Seq<u32>
    decreases s.len(),
{
    if s.len() == 0 {
        Seq::empty()
    } else {
        let rest = u32s_of(s.drop_last());
        match u64_of(s.last()) {
            Some(n) => rest.push(n as u32),
            None => rest,
        }
    }
}

/// The strings among `s`, in order.
pub open spec fn strs_of(s: Seq<Json>) -> Seq<Seq<char>>
    decreases s.len(),
{
    if s.len() == 0 {
        Seq::empty()
    } else {
        let rest = strs_of(s.drop_last());
        match str_of(s.last()) {
            Some(t) => rest.push(t),
            None => rest,
        }
    }
}

pub open spec fn array_of(v: Json) -> Option<Seq<Json>> {
    match v {
        Json::Array(items) => Some(items@),
        _ => None,
    }
}

impl Json {
    /// The member `key` of an object.
    pub fn get(&self, key: &str) -> (r: Option<&Json>)
        ensures
            match r {
                Some(x) => field(*self, key@) == Some(*x),
                None => field(*self, key@) is None,
            },
    {
        match self {
            Json::Object(ms) => {
                let mut i: usize = 0;
                assert(ms@.subrange(0, ms@.len() as int) =~= ms@);
                while i < ms.len()
                    invariant
                        i <= ms@.len(),
                        field(*self, key@) == lookup(ms@, key@),
                        lookup(ms@, key@) == lookup(ms@.subrange(i as int, ms@.len() as int), key@),
                    decreases ms@.len() - i,
                {
                    let ghost rest = ms@.subrange(i as int, ms@.len() as int);
                    if same_text(ms[i].key.as_str(), key) {
                        assert(rest[0] == ms@[i as int]);
                        return Some(&ms[i].value);
                    }
                    assert(rest.drop_first() =~= ms@.subrange(i + 1, ms@.len() as int));
                    i = i + 1;
                }
                None
            },
            _ => None,
        }
    }

    pub fn as_str(&self) -> (r: Option<&String>)
        ensures
            match r {
                Some(s) => str_of(*self) == Some(s@),
                None => str_of(*self) is None,
            },
    {
        match self {
            Json::Str(s) => Some(s),
            _ => None,
        }
    }

    pub fn as_u64(&self) -> (r: Option<u64>)
        ensures
            r == u64_of(*self),
    {
        match self {
            Json::Number(JsonNumber::PosInt(n)) => Some(*n),
            _ => None,
        }
    }

    pub fn as_i64(&self) -> (r: Option<i64>)
        ensures
            r == i64_of(*self),
    {
        match self {
            Json::Number(JsonNumber::PosInt(n)) => if *n <= i64::MAX as u64 {
                Some(*n as i64)
            } else {
                None
            },
            Json::Number(JsonNumber::NegInt(i)) => Some(*i),
            _ => None,
        }
    }

    pub fn as_array(&self) -> (r: Option<&Vec<Json>>)
        ensures
            match r {
                Some(items) => array_of(*self) == Some(items@),
                None => array_of(*self) is None,
            },
    {
        match self {
            Json::Array(items) => Some(items),
            _ => None,
        }
    }
}

pub open spec fn number_eq(a: JsonNumber, b: JsonNumber) -> bool {
    match (a, b) {
        (JsonNumber::PosInt(x), JsonNumber::PosInt(y)) => x == y,
        (JsonNumber::NegInt(x), JsonNumber::NegInt(y)) => x == y,
        (JsonNumber::Float(x), JsonNumber::Float(y)) => x@ == y@,
        _ => false,
    }
}

/// Two documents are the same: same kind and scalars, arrays equal item by
/// item, objects equal member by member, keys and values in order.
pub open spec fn json_eq(a: Json, b: Json) -> bool
    decreases a, 0nat,
{
    match (a, b) {
        (Json::Null, Json::Null) => true,
        (Json::Bool(x), Json::Bool(y)) => x == y,
        (Json::Number(x), Json::Number(y)) => number_eq(x, y),
        (Json::Str(x), Json::Str(y)) => x@ == y@,
        (Json::Array(xs), Json::Array(ys)) => xs@.len() == ys@.len() && items_eq(
            xs@,
            ys@,
            xs@.len(),
        ),
        (Json::Object(xs), Json::Object(ys)) => xs@.len() == ys@.len() && members_eq(
            xs@,
            ys@,
            xs@.len(),
        ),
        _ => false,
    }
}

/// The first `n` items of `xs` and `ys` are the same.
pub open spec fn items_eq(xs: Seq<Json>, ys: Seq<Json>, n: nat) -> bool
    decreases xs, n,
{
    if n == 0 || n > xs.len() || n > ys.len() {
        n == 0
    } else {
        items_eq(xs, ys, (n - 1) as nat) && json_eq(xs[n - 1], ys[n - 1])
    }
}

/// The first `n` members of `xs` and `ys` are the same.
pub open spec fn members_eq(xs: Seq<Member>, ys: Seq<Member>, n: nat) -> bool
    decreases xs, n,
{
    if n == 0 || n > xs.len() || n > ys.len() {
        n == 0
    } else {
        members_eq(xs, ys, (n - 1) as nat) && xs[n - 1].key@ == ys[n - 1].key@ && json_eq(
            xs[n - 1].value,
            ys[n - 1].value,
        )
    }
}

fn number_equal(a: &JsonNumber, b: &JsonNumber) -> (r: bool)
    ensures
        r == number_eq(*a, *b),
{
    match (a, b) {
        (JsonNumber::PosInt(x), JsonNumber::PosInt(y)) => *x == *y,
        (JsonNumber::NegInt(x), JsonNumber::NegInt(y)) => *x == *y,
        (JsonNumber::Float(x), JsonNumber::Float(y)) => same_text(
            x.as_str(),
            y.as_str(),
        ),
        _ => false,
    }
}

/// Whether two documents are the same.
pub fn json_equal(a: &Json, b: &Json) -> (r: bool)
    ensures
        r == json_eq(*a, *b),
    decreases *a,
{
    match (a, b) {
        (Json::Null, Json::Null) => true,
        (Json::Bool(x), Json::Bool(y)) => *x == *y,
        (Json::Number(x), Json::Number(y)) => number_equal(x, y),
        (Json::Str(x), Json::Str(y)) => same_text(x.as_str(), y.as_str()),
        (Json::Array(xs), Json::Array(ys)) => {
            if xs.len() != ys.len() {
                return false;
            }
            let mut i: usize = 0;
            while i < xs.len()
                invariant
                    *a == Json::Array(*xs),
                    *b == Json::Array(*ys),
                    xs@.len() == ys@.len(),
                    i <= xs@.len(),
                    items_eq(xs@, ys@, i as nat),
                decreases xs@.len() - i,
            {
                proof {
                    assert(decreases_to!(*a => (*a)->Array_0));
                    vstd::std_specs::vec::axiom_vec_index_decreases(*xs, i as int);
                }
                if !json_equal(&xs[i], &ys[i]) {
                    proof {
                        if json_eq(*a, *b) {
                            lemma_items_eq_prefix(xs@, ys@, (i + 1) as nat, xs@.len());
                        }
                    }
                    return false;
                }
                i = i + 1;
            }
            true
        },
        (Json::Object(xs), Json::Object(ys)) => {
            if xs.len() != ys.len() {
                return false;
            }
            let mut i: usize = 0;
            while i < xs.len()
                invariant
                    *a == Json::Object(*xs),
                    *b == Json::Object(*ys),
                    xs@.len() == ys@.len(),
                    i <= xs@.len(),
                    members_eq(xs@, ys@, i as nat),
                decreases xs@.len() - i,
            {
                proof {
                    assert(decreases_to!(*a => (*a)->Object_0));
                    vstd::std_specs::vec::axiom_vec_index_decreases(*xs, i as int);
                    assert(decreases_to!(xs@[i as int] => xs@[i as int].value));
                }
                if !same_text(xs[i].key.as_str(), ys[i].key.as_str())
                    || !json_equal(&xs[i].value, &ys[i].value) {
                    proof {
                        if json_eq(*a, *b) {
                            lemma_members_eq_prefix(xs@, ys@, (i + 1) as nat, xs@.len());
                        }
                    }
                    return false;
                }
                i = i + 1;
            }
            true
        },
        _ => false,
    }
}

/// Items that agree on a prefix agree on every shorter one.
pub(crate) proof fn lemma_items_eq_prefix(xs: Seq<Json>, ys: Seq<Json>, m: nat, n: nat)
    requires
        m <= n <= xs.len(),
        n <= ys.len(),
        items_eq(xs, ys, n),
    ensures
        items_eq(xs, ys, m),
    decreases n - m,
{
    if m < n {
        lemma_items_eq_prefix(xs, ys, m, (n - 1) as nat);
    }
}

/// Members that agree on a prefix agree on every shorter one.
pub(crate) proof fn lemma_members_eq_prefix(xs: Seq<Member>, ys: Seq<Member>, m: nat, n: nat)
    requires
        m <= n <= xs.len(),
        n <= ys.len(),
        members_eq(xs, ys, n),
    ensures
        members_eq(xs, ys, m),
    decreases n - m,
{
    if m < n {
        lemma_members_eq_prefix(xs, ys, m, (n - 1) as nat);
    }
}

proof fn lemma_items_eq_prefix_only(xs: Seq<Json>, xs2: Seq<Json>, ys: Seq<Json>, n: nat)
    requires
        n <= xs.len(),
        n <= xs2.len(),
        xs.subrange(0, n as int) == xs2.subrange(0, n as int),
        items_eq(xs, ys, n),
    ensures
        items_eq(xs2, ys, n),
    decreases n,
{
    if n > 0 {
        assert(xs.subrange(0, n - 1) =~= xs.subrange(0, n as int).subrange(0, n - 1));
        assert(xs2.subrange(0, n - 1) =~= xs2.subrange(0, n as int).subrange(0, n - 1));
        assert(xs[n - 1] == xs.subrange(0, n as int)[n - 1]);
        assert(xs2[n - 1] == xs2.subrange(0, n as int)[n - 1]);
        lemma_items_eq_prefix_only(xs, xs2, ys, (n - 1) as nat);
    }
}

proof fn lemma_members_eq_prefix_only(xs: Seq<Member>, xs2: Seq<Member>, ys: Seq<Member>, n: nat)
    requires
        n <= xs.len(),
        n <= xs2.len(),
        xs.subrange(0, n as int) == xs2.subrange(0, n as int),
        members_eq(xs, ys, n),
    ensures
        members_eq(xs2, ys, n),
    decreases n,
{
    if n > 0 {
        assert(xs.subrange(0, n - 1) =~= xs.subrange(0, n as int).subrange(0, n - 1));
        assert(xs2.subrange(0, n - 1) =~= xs2.subrange(0, n as int).subrange(0, n - 1));
        assert(xs[n - 1] == xs.subrange(0, n as int)[n - 1]);
        assert(xs2[n - 1] == xs2.subrange(0, n as int)[n - 1]);
        lemma_members_eq_prefix_only(xs, xs2, ys, (n - 1) as nat);
    }
}

impl Json {
    /// A copy of the document, the same in every part.
    pub fn copy(&self) -> (r: Json)
        ensures
            json_eq(r, *self),
        decreases *self,
    {
        match self {
            Json::Null => Json::Null,
            Json::Bool(b) => Json::Bool(*b),
            Json::Number(JsonNumber::PosInt(n)) => Json::Number(JsonNumber::PosInt(*n)),
            Json::Number(JsonNumber::NegInt(n)) => Json::Number(JsonNumber::NegInt(*n)),
            Json::Number(JsonNumber::Float(t)) => Json::Number(JsonNumber::Float(t.clone())),
            Json::Str(t) => Json::Str(t.clone()),
            Json::Array(xs) => {
                let mut out: Vec<Json> = Vec::new();
                let mut i: usize = 0;
                while i < xs.len()
                    invariant
                        *self == Json::Array(*xs),
                        i <= xs@.len(),
                        out@.len() == i,
                        items_eq(out@, xs@, i as nat),
                    decreases xs@.len() - i,
                {
                    proof {
                        assert(decreases_to!(*self => (*self)->Array_0));
                        vstd::std_specs::vec::axiom_vec_index_decreases(*xs, i as int);
                    }
                    let c = xs[i].copy();
                    let ghost before = out@;
                    out.push(c);
                    proof {
                        assert(before.subrange(0, i as int) =~= out@.subrange(0, i as int));
                        lemma_items_eq_prefix_only(before, out@, xs@, i as nat);
                    }
                    i = i + 1;
                }
                Json::Array(out)
            },
            Json::Object(xs) => {
                let mut out: Vec<Member> = Vec::new();
                let mut i: usize = 0;
                while i < xs.len()
                    invariant
                        *self == Json::Object(*xs),
                        i <= xs@.len(),
                        out@.len() == i,
                        members_eq(out@, xs@, i as nat),
                    decreases xs@.len() - i,
                {
                    proof {
                        assert(decreases_to!(*self => (*self)->Object_0));
                        vstd::std_specs::vec::axiom_vec_index_decreases(*xs, i as int);
                        assert(decreases_to!(xs@[i as int] => xs@[i as int].value));
                    }
                    let c = Member { key: xs[i].key.clone(), value: xs[i].value.copy() };
                    let ghost before = out@;
                    out.push(c);
                    proof {
                        assert(before.subrange(0, i as int) =~= out@.subrange(0, i as int));
                        lemma_members_eq_prefix_only(before, out@, xs@, i as nat);
                    }
                    i = i + 1;
                }
                Json::Object(out)
            },
        }
    }
}

/// Field extraction with defaults, as the HTTP layer reads answers.
pub trait ValueExt {
    /// `self[key]`: the member, or null.
    spec fn at(&self, key: Seq<char>) -> Json;

    /// The string under `key`, or the empty string.
    fn str_or_empty(&self, key: &str) -> (r: String)
        ensures
            r@ == match str_of(self.at(key@)) {
                Some(t) => t,
                None => Seq::<char>::empty(),
            },
    ;

    /// The string under `key`, if there is one.
    fn str_opt(&self, key: &str) -> (r: Option<String>)
        ensures
            match r {
                Some(t) => str_of(self.at(key@)) == Some(t@),
                None => str_of(self.at(key@)) is None,
            },
    ;

    /// The unsigned integer under `key`, or `default`.
    fn u64_or(&self, key: &str, default: u64) -> (r: u64)
        ensures
            r == match u64_of(self.at(key@)) {
                Some(n) => n,
                None => default,
            },
    ;

    /// The unsigned integer under `key`, if there is one.
    fn u64_opt(&self, key: &str) -> (r: Option<u64>)
        ensures
            r == u64_of(self.at(key@)),
    ;

    /// The unsigned integer under `key` cut to 32 bits, or `default`.
    fn u32_or(&self, key: &str, default: u32) -> (r: u32)
        ensures
            r == match u64_of(self.at(key@)) {
                Some(n) => n as u32,
                None => default,
            },
    ;

    /// The integer under `key` if it fits 64 signed bits, or `default`.
    fn i64_or(&self, key: &str, default: i64) -> (r: i64)
        ensures
            r == match i64_of(self.at(key@)) {
                Some(n) => n,
                None => default,
            },
    ;

    /// The unsigned integers of the array under `key`, each cut to 32 bits;
    /// other items are skipped, and anything but an array gives none.
    fn u32_array(&self, key: &str) -> (r: Vec<u32>)
        ensures
            r@ == match array_of(self.at(key@)) {
                Some(items) => u32s_of(items),
                None => Seq::<u32>::empty(),
            },
    ;

    /// The strings of the array under `key`; other items are skipped, and
    /// anything but an array gives none.
    fn string_array(&self, key: &str) -> (r: Vec<String>)
        ensures
            r@.map_values(|t: String| t@) == match array_of(self.at(key@)) {
                Some(items) => strs_of(items),
                None => Seq::<Seq<char>>::empty(),
            },
    ;
}

/// The unsigned integers among `items`, cut to 32 bits.
pub fn u32s_in(items: &Vec<Json>) -> (r: Vec<u32>)
    ensures
        r@ == u32s_of(items@),
{
    let mut r: Vec<u32> = Vec::new();
    let mut i: usize = 0;
    while i < items.len()
        invariant
            i <= items@.len(),
            r@ == u32s_of(items@.subrange(0, i as int)),
        decreases items@.len() - i,
    {
        assert(items@.subrange(0, i + 1).drop_last() =~= items@.subrange(0, i as int));
        if let Some(n) = items[i].as_u64() {
            r.push(n as u32);
        }
        i = i + 1;
    }
    assert(items@.subrange(0, i as int) =~= items@);
    r
}

/// The strings among `items`.
pub fn strs_in(items: &Vec<Json>) -> (r: Vec<String>)
    ensures
        r@.map_values(|t: String| t@) == strs_of(items@),
{
    let mut r: Vec<String> = Vec::new();
    let mut i: usize = 0;
    while i < items.len()
        invariant
            i <= items@.len(),
            r@.map_values(|t: String| t@) == strs_of(items@.subrange(0, i as int)),
        decreases items@.len() - i,
    {
        assert(items@.subrange(0, i + 1).drop_last() =~= items@.subrange(0, i as int));
        if let Some(t) = items[i].as_str() {
            let ghost before = r@;
            r.push(t.clone());
            assert(r@.map_values(|t: String| t@) =~= before.map_values(|t: String| t@).push(t@));
        }
        i = i + 1;
    }
    assert(items@.subrange(0, i as int) =~= items@);
    r
}

impl ValueExt for Json {
    open spec fn at(&self, key: Seq<char>) -> Json {
        index_of(*self, key)
    }

    fn str_or_empty(&self, key: &str) -> (r: String) {
        match self.get(key) {
            Some(v) => match v.as_str() {
                Some(t) => t.clone(),
                None => String::new(),
            },
            None => String::new(),
        }
    }

    fn str_opt(&self, key: &str) -> (r: Option<String>) {
        match self.get(key) {
            Some(v) => match v.as_str() {
                Some(t) => Some(t.clone()),
                None => None,
            },
            None => None,
        }
    }

    fn u64_or(&self, key: &str, default: u64) -> (r: u64) {
        match self.get(key) {
            Some(v) => match v.as_u64() {
                Some(n) => n,
                None => default,
            },
            None => default,
        }
    }

    fn u64_opt(&self, key: &str) -> (r: Option<u64>) {
        match self.get(key) {
            Some(v) => v.as_u64(),
            None => None,
        }
    }

    fn u32_or(&self, key: &str, default: u32) -> (r: u32) {
        match self.get(key) {
            Some(v) => match v.as_u64() {
                Some(n) => n as u32,
                None => default,
            },
            None => default,
        }
    }

    fn i64_or(&self, key: &str, default: i64) -> (r: i64) {
        match self.get(key) {
            Some(v) => match v.as_i64() {
                Some(n) => n,
                None => default,
            },
            None => default,
        }
    }

    fn u32_array(&self, key: &str) -> (r: Vec<u32>) {
        match self.get(key) {
            Some(v) => match v.as_array() {
                Some(items) => u32s_in(items),
                None => Vec::new(),
            },
            None => Vec::new(),
        }
    }

    fn string_array(&self, key: &str) -> (r: Vec<String>) {
        match self.get(key) {
            Some(v) => match v.as_array() {
                Some(items) => strs_in(items),
                None => {
                    let r: Vec<String> = Vec::new();
                    assert(r@.map_values(|t: String| t@) =~= Seq::<Seq<char>>::empty());
                    r
                },
            },
            None => {
                let r: Vec<String> = Vec::new();
                assert(r@.map_values(|t: String| t@) =~= Seq::<Seq<char>>::empty());
                r
            },
        }
    }
}

// ---- reading members ----

pub open spec fn opt_text(o: Option<String>) -> Option<Seq<char>> {
    match o {
        Some(t) => Some(t@),
        None => None,
    }
}

pub open spec fn str_or_empty_spec(v: Json, key: Seq<char>) -> Seq<char> {
    match str_of(index_of(v, key)) {
        Some(t) => t,
        None => Seq::empty(),
    }
}

pub fn member_or_null(v: &Json, key: &str) -> (r: Json)
    ensures
        json_eq(r, index_of(*v, key@)),
{
    match v.get(key) {
        Some(x) => x.copy(),
        None => Json::Null,
    }
}

pub fn str_opt_of(v: &Json, key: &str) -> (r: Option<String>)
    ensures
        opt_text(r) == str_of(index_of(*v, key@)),
{
    match v.str_opt(key) {
        Some(t) => Some(t),
        None => None,
    }
}

pub open spec fn u64_or_spec(v: Json, key: Seq<char>, d: u64) -> u64 {
    match u64_of(index_of(v, key)) {
        Some(n) => n,
        None => d,
    }
}

pub open spec fn i64_or_spec(v: Json, key: Seq<char>, d: i64) -> i64 {
    match i64_of(index_of(v, key)) {
        Some(n) => n,
        None => d,
    }
}

} // verus!
