use vstd::prelude::*;
use crate::time::{whole_seconds, TimeSpan, Timestamp};

verus! {

/// A session envelope: an identifier, its creation time, a payload and the
/// caller's expiry directives.
#[derive(Clone, Debug)]
pub struct Session<T> {
    /// The session's id: the 128 bits of a UUID.
    pub session_id: u128,
    pub created_at: Timestamp,
    pub value: T,
    /// How long the record lives; wins over `expires` when both are set.
    pub max_age: Option<TimeSpan>,
    /// When the record expires.
    pub expires: Option<Timestamp>,
}

/// What a store persists of an envelope: its creation time and payload. The
/// id is the key under which it is stored; the expiry becomes the record's TTL.
#[derive(Clone, Debug)]
pub struct StoredRecord<T> {
    pub created_at: Timestamp,
    pub value: T,
}

/// What a request carries: nothing, a session id still to be looked up in a
/// store, or a self-contained session.
#[derive(Clone, Debug)]
pub enum RequestSession<T> {
    NoSession,
    SessionId(u128),
    Session(Session<T>),
}

/// The TTL in seconds that a store attaches to an envelope with these
/// fields: `max_age` when present, else the time from `created_at` to
/// `expires`, else none.
pub open spec fn derived_ttl(
    created_at: Timestamp,
    max_age: Option<TimeSpan>,
    expires: Option<Timestamp>,
) -> Option<int> {
    match max_age {
        Some(m) => Some(whole_seconds(m.total_nanos())),
        None => match expires {
            Some(e) => Some(whole_seconds(e.total_nanos() - created_at.total_nanos())),
            None => None,
        },
    }
}

/// The record that is persisted for `s`.
pub open spec fn record_of<T>(s: Session<T>) -> StoredRecord<T> {
    StoredRecord { created_at: s.created_at, value: s.value }
}

/// The envelope that reading `r` back under `id` yields.
pub open spec fn session_of<T>(r: StoredRecord<T>, id: u128) -> Session<T> {
    Session { session_id: id, created_at: r.created_at, value: r.value, max_age: None, expires: None }
}

impl<T> Session<T> {
    pub open spec fn wf(&self) -> bool {
        &&& self.created_at.wf()
        &&& (self.max_age matches Some(m) ==> m.wf())
        &&& (self.expires matches Some(e) ==> e.wf())
    }

    pub open spec fn ttl(&self) -> Option<int> {
        derived_ttl(self.created_at, self.max_age, self.expires)
    }

    /// Replaces the payload by `map_fn` of it, keeping every other field.
    pub fn map<U, F: FnOnce(T) -> U>(self, map_fn: F) -> (r: Session<U>)
        requires
            map_fn.requires((self.value,)),
        ensures
            map_fn.ensures((self.value,), r.value),
            r.session_id == self.session_id,
            r.created_at == self.created_at,
            r.max_age == self.max_age,
            r.expires == self.expires,
    {
        Session {
            session_id: self.session_id,
            created_at: self.created_at,
            value: map_fn(self.value),
            max_age: self.max_age,
            expires: self.expires,
        }
    }

    /// Replaces the payload by what `try_map_fn` makes of it, keeping every
    /// other field, or passes its error on.
    pub fn try_map<U, E, F: FnOnce(T) -> Result<U, E>>(self, try_map_fn: F) -> (r: Result<Session<U>, E>)
        requires
            try_map_fn.requires((self.value,)),
        ensures
            match r {
                Ok(s) => {
                    &&& try_map_fn.ensures((self.value,), Ok::<U, E>(s.value))
                    &&& s.session_id == self.session_id
                    &&& s.created_at == self.created_at
                    &&& s.max_age == self.max_age
                    &&& s.expires == self.expires
                },
                Err(e) => try_map_fn.ensures((self.value,), Err::<U, E>(e)),
            },
    {
        let session_id = self.session_id;
        let created_at = self.created_at;
        let max_age = self.max_age;
        let expires = self.expires;
        match try_map_fn(self.value) {
            Ok(value) => Ok(Session { session_id, created_at, value, max_age, expires }),
            Err(e) => Err(e),
        }
    }

    /// The TTL in whole seconds that a store attaches to this envelope.
    pub fn ttl_seconds(&self) -> (r: Option<i64>)
        requires
            self.wf(),
        ensures
            r is Some <==> self.ttl() is Some,
            r is Some ==> r->Some_0 == self.ttl()->Some_0,
    {
        match &self.max_age {
            Some(m) => Some(m.num_seconds()),
            None => match &self.expires {
                Some(e) => Some(e.seconds_since(&self.created_at)),
                None => None,
            },
        }
    }

    /// The record that a store persists for this envelope.
    pub fn into_record(self) -> (r: StoredRecord<T>)
        ensures
            r == record_of(self),
    {
        StoredRecord { created_at: self.created_at, value: self.value }
    }
}

impl<T> StoredRecord<T> {
    /// The envelope read back from this record under the requested `id`:
    /// the id is always the requested one, and no expiry is carried.
    pub fn into_session(self, id: u128) -> (r: Session<T>)
        ensures
            r == session_of(self, id),
    {
        Session { session_id: id, created_at: self.created_at, value: self.value, max_age: None, expires: None }
    }
}

/// An envelope without expiry directives that is persisted and read back
/// under `id` is the same envelope, with `id` as its id whatever id it had.
pub proof fn lemma_record_round_trip<T>(s: Session<T>, id: u128)
    requires
        s.max_age is None,
        s.expires is None,
    ensures
        session_of(record_of(s), id) == (Session { session_id: id, ..s }),
{
}

} // verus!
