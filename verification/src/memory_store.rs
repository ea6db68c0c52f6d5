//! The records of the persisted memory: what a new record holds, when it
//! expires, and which of the rows that were read are handed out.
//!
//! The store itself is the caller's: this module prepares what is written
//! and sifts what was read.

use vstd::prelude::*;

verus! {

/// One record of the memory store.
#[derive(Debug, Clone, PartialEq, Eq)]
pub struct MemoryItem {
    pub id: String,
    pub kind: String,
    pub project_id: Option<String>,
    pub session_id: Option<String>,
    pub key: String,
    pub value_json: String,
    pub created_at: i64,
    pub expires_at: Option<i64>,
}

/// `uuid::Uuid::new_v4`, printed: a random identifier of 36 characters. It
/// panics where the system cannot give random bytes.
#[verifier::external_body]
fn fresh_id() -> (id: String)
    ensures
        id@.len() == 36,
{
    uuid::Uuid::new_v4().to_string()
}

/// `chrono::Utc::now`, as seconds since 1970. It panics where the system's
/// clock is set before 1970.
#[verifier::external_body]
fn unix_now() -> i64 {
    chrono::Utc::now().timestamp()
}

/// The time at which a record expires: its life in seconds after `now`, and
/// never where it has no life set.
pub open spec fn expiry_of(now: i64, ttl_seconds: Option<i64>) -> Option<int> {
    match ttl_seconds {
        Some(ttl) => Some(now + ttl),
        None => None,
    }
}

/// The rows that were read, without those that could not be read.
pub open spec fn kept(rows: Seq<Option<MemoryItem>>) -> Seq<MemoryItem>
    decreases rows.len(),
{
    if rows.len() == 0 {
        Seq::empty()
    } else {
        match rows.last() {
            Some(item) => kept(rows.drop_last()).push(item),
            None => kept(rows.drop_last()),
        }
    }
}

/// Computes the time at which a record expires.
pub fn expiry(now: i64, ttl_seconds: Option<i64>) -> (expires_at: Option<i64>)
    requires
        ttl_seconds matches Some(ttl) ==> i64::MIN <= now + ttl <= i64::MAX,
    ensures
        expires_at.is_some() == ttl_seconds.is_some(),
        expires_at matches Some(at) ==> expiry_of(now, ttl_seconds) == Some(at as int),
{
    match ttl_seconds {
        Some(ttl) => Some(now + ttl),
        None => None,
    }
}

/// Computes the time at which a record expires that is saved now, or `None`
/// where that time does not fit: the second value says when it expires.
pub fn expiry_from_now(ttl_seconds: Option<i64>) -> (outcome: Option<(i64, Option<i64>)>)
    ensures
        outcome matches Some((now, expires_at)) ==> expires_at.is_some() == ttl_seconds.is_some()
            && (expires_at matches Some(at) ==> expiry_of(now, ttl_seconds) == Some(at as int)),
        outcome is None ==> ttl_seconds is Some,
{
    let now: i64 = unix_now();
    match ttl_seconds {
        Some(ttl) => match now.checked_add(ttl) {
            Some(_) => Some((now, expiry(now, ttl_seconds))),
            None => None,
        },
        None => Some((now, None)),
    }
}

impl MemoryItem {
    /// The record that is saved under an identifier at a time.
    pub fn record(
        id: String,
        now: i64,
        kind: &str,
        project_id: Option<&str>,
        session_id: Option<&str>,
        key: &str,
        value_json: &str,
        expires_at: Option<i64>,
    ) -> (item: Self)
        ensures
            item.id == id,
            item.created_at == now,
            item.kind@ == kind@,
            item.project_id.deep_view() == project_id.deep_view(),
            item.session_id.deep_view() == session_id.deep_view(),
            item.key@ == key@,
            item.value_json@ == value_json@,
            item.expires_at == expires_at,
    {
        MemoryItem {
            id,
            kind: kind.to_owned(),
            project_id: match project_id {
                Some(p) => Some(p.to_owned()),
                None => None,
            },
            session_id: match session_id {
                Some(s) => Some(s.to_owned()),
                None => None,
            },
            key: key.to_owned(),
            value_json: value_json.to_owned(),
            created_at: now,
            expires_at,
        }
    }

    /// The record that is saved now: under a fresh random identifier, with
    /// the present time as the time of its creation.
    pub fn create(
        kind: &str,
        project_id: Option<&str>,
        session_id: Option<&str>,
        key: &str,
        value_json: &str,
        expires_at: Option<i64>,
    ) -> (item: Self)
        ensures
            item.id@.len() == 36,
            item.kind@ == kind@,
            item.project_id.deep_view() == project_id.deep_view(),
            item.session_id.deep_view() == session_id.deep_view(),
            item.key@ == key@,
            item.value_json@ == value_json@,
            item.expires_at == expires_at,
    {
        MemoryItem::record(
            fresh_id(),
            unix_now(),
            kind,
            project_id,
            session_id,
            key,
            value_json,
            expires_at,
        )
    }
}

/// Sifts the rows that were read: a row that could not be read is dropped,
/// and the others keep their order.
pub fn loaded(rows: Vec<Option<MemoryItem>>) -> (items: Vec<MemoryItem>)
    ensures
        items@ == kept(rows@),
{
    let mut items: Vec<MemoryItem> = Vec::new();
    let ghost all = rows@;
    for row in it: rows.into_iter()
        invariant
            it.seq() == all,
            items@ == kept(all.take(it.index() as int)),
    {
        assert(all.take(it.index() + 1).drop_last() == all.take(it.index() as int));
        if let Some(item) = row {
            items.push(item);
        }
    }
    assert(all.take(all.len() as int) == all);
    items
}

} // verus!
