//! Textual classification of transport and remote failures.

use vstd::prelude::*;

verus! {

/// `p` occurs in `s` as a contiguous run of characters.
pub open spec fn has_sub(s: Seq<char>, p: Seq<char>) -> bool {
    exists|i: int| 0 <= i && i + p.len() <= s.len() && #[trigger] s.subrange(i, i + p.len()) == p
}

/// `p` occurs in `s` starting at position `i`.
pub open spec fn occurs_at(s: Seq<char>, p: Seq<char>, i: int) -> bool {
    0 <= i && i + p.len() <= s.len() && s.subrange(i, i + p.len()) == p
}

fn matches_at(s: &str, p: &str, i: usize, n: usize, m: usize) -> (r: bool)
    requires
        n == s@.len(),
        m == p@.len(),
        i + m <= n,
    ensures
        r == (s@.subrange(i as int, i + m) == p@),
{
    let mut j: usize = 0;
    while j < m
        invariant
            n == s@.len(),
            m == p@.len(),
            i + m <= n,
            j <= m,
            forall|k: int| 0 <= k < j ==> s@[i + k] == p@[k],
        decreases m - j,
    {
        if s.get_char(i + j) != p.get_char(j) {
            assert(s@.subrange(i as int, i + m)[j as int] != p@[j as int]);
            return false;
        }
        j = j + 1;
    }
    assert(s@.subrange(i as int, i + m) =~= p@);
    true
}

/// Case-sensitive substring test.
pub fn contains_text(s: &str, p: &str) -> (r: bool)
    ensures
        r == has_sub(s@, p@),
{
    let n = s.unicode_len();
    let m = p.unicode_len();
    if m > n {
        return false;
    }
    if m == 0 {
        assert(s@.subrange(0, 0 + p@.len() as int) =~= p@);
        return true;
    }
    let mut i: usize = 0;
    while i <= n - m
        invariant
            n == s@.len(),
            m == p@.len(),
            0 < m <= n,
            i <= n - m + 1,
            forall|k: int| 0 <= k < i ==> #[trigger] s@.subrange(k, k + m) != p@,
        decreases n - m + 1 - i,
    {
        if matches_at(s, p, i, n, m) {
            assert(s@.subrange(i as int, i + m) == p@);
            return true;
        }
        i = i + 1;
    }
    assert forall|k: int| 0 <= k && k + p@.len() <= s@.len() implies #[trigger] s@.subrange(
        k,
        k + p@.len(),
    ) != p@ by {
        assert(k < i);
    }
    false
}

/// A failure that says the transport itself is unusable.
pub open spec fn is_connection_msg(m: Seq<char>) -> bool {
    has_sub(m, "not connected"@) || has_sub(m, "channel closed"@) || has_sub(m, "connection"@)
}

/// Decides whether a failure message is of the connection class, which calls
/// for one reconnect and one retry.
pub fn is_connection_error(msg: &str) -> (r: bool)
    ensures
        r == is_connection_msg(msg@),
{
    contains_text(msg, "not connected") || contains_text(msg, "channel closed") || contains_text(
        msg,
        "connection",
    )
}

/// Character-for-character equality of two texts.
pub fn same_text(a: &str, b: &str) -> (r: bool)
    ensures
        r == (a@ == b@),
{
    let n = a.unicode_len();
    let m = b.unicode_len();
    if n != m {
        return false;
    }
    let mut i: usize = 0;
    while i < n
        invariant
            n == a@.len(),
            m == b@.len(),
            n == m,
            i <= n,
            forall|k: int| 0 <= k < i ==> a@[k] == b@[k],
        decreases n - i,
    {
        if a.get_char(i) != b.get_char(i) {
            return false;
        }
        i = i + 1;
    }
    assert(a@ =~= b@);
    true
}

/// `p` is a prefix of `s`.
pub open spec fn has_prefix(s: Seq<char>, p: Seq<char>) -> bool {
    p.len() <= s.len() && s.subrange(0, p.len() as int) == p
}

/// Prefix test.
pub fn starts_with_text(s: &str, p: &str) -> (r: bool)
    ensures
        r == has_prefix(s@, p@),
{
    let n = s.unicode_len();
    let m = p.unicode_len();
    if m > n {
        return false;
    }
    matches_at(s, p, 0, n, m)
}

/// Business-rule rejections that the remote service reports in its messages.
#[derive(Clone, Copy, Debug, PartialEq, Eq, Structural)]
pub enum DomainKind {
    InvalidTransition,
    GuardFailed,
    StateMismatch,
    NotFound,
}

/// The domain kind named by a message: the first of the known codes, then the
/// generic "not found", that occurs in it.
pub open spec fn domain_kind_of(m: Seq<char>) -> Option<DomainKind> {
    if has_sub(m, "INVALID_TRANSITION"@) {
        Some(DomainKind::InvalidTransition)
    } else if has_sub(m, "GUARD_FAILED"@) {
        Some(DomainKind::GuardFailed)
    } else if has_sub(m, "STATE_MISMATCH"@) {
        Some(DomainKind::StateMismatch)
    } else if has_sub(m, "not found"@) {
        Some(DomainKind::NotFound)
    } else {
        None
    }
}

/// Classifies a failure message into a domain kind, if it names one.
pub fn classify_domain(msg: &str) -> (r: Option<DomainKind>)
    ensures
        r == domain_kind_of(msg@),
{
    if contains_text(msg, "INVALID_TRANSITION") {
        Some(DomainKind::InvalidTransition)
    } else if contains_text(msg, "GUARD_FAILED") {
        Some(DomainKind::GuardFailed)
    } else if contains_text(msg, "STATE_MISMATCH") {
        Some(DomainKind::StateMismatch)
    } else if contains_text(msg, "not found") {
        Some(DomainKind::NotFound)
    } else {
        None
    }
}

} // verus!
