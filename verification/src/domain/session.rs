//! Open sessions, keyed by their identifier, each with the instant at which it
//! expires.

use crate::errors::Errors;
use crate::string_map::StringMap;
use crate::time::{add_secs, before, is_before, is_clock_reading, now, plus_secs, utc_display, utc_text, Timestamp, SECS_PER_DAY};
use vstd::prelude::*;

verus! {

/// A session: its identifier and the instant at which it expires.
#[derive(Debug)]
pub struct Session(pub String, pub Timestamp);

/// A session identifier as `uuid` prints a version-4 UUID in its simple form:
/// 32 lower-case hexadecimal digits.
pub open spec fn is_simple_uuid(s: Seq<char>) -> bool {
    s.len() == 32 && forall|i: int| 0 <= i < 32 ==> {
        let c = #[trigger] s[i];
        ('0' <= c <= '9') || ('a' <= c <= 'f')
    }
}

/// Draws a fresh session identifier: `uuid::Uuid::new_v4().to_simple().to_string()`.
/// `uuid` prints the simple form as 32 lower-case hexadecimal digits; which
/// digits come out is chance and is not stated.
#[verifier::external_body]
fn new_session_id() -> (res: String)
    ensures
        is_simple_uuid(res@),
{
    uuid::Uuid::new_v4().to_simple().to_string()
}

/// The cookie that hands a session to the client.
pub open spec fn session_cookie(id: Seq<char>, expires: Timestamp) -> Seq<char> {
    "session="@ + id + "; Max-Age=86400; Expires="@ + utc_display(expires.secs, expires.nanos)
        + "; SameSite=Strict; HttpOpnly; Secure=true"@
}

/// The instant at which a session opened or renewed at `now` expires: one day later.
pub open spec fn expiry_after(now: Timestamp) -> Timestamp {
    plus_secs(now, SECS_PER_DAY as int)
}

/// Sessions open after `register_session_with(id, now)`.
pub open spec fn registered(pool: Map<Seq<char>, Timestamp>, id: Seq<char>, now: Timestamp) -> Map<Seq<char>, Timestamp> {
    pool.insert(id, expiry_after(now))
}

/// An instant far enough from the end of `i64` for a day to be added to it.
pub open spec fn can_add_day(now: Timestamp) -> bool {
    now.secs + SECS_PER_DAY <= i64::MAX
}

fn cookie_for(id: &String, expires: Timestamp) -> (res: String)
    ensures
        res@ == session_cookie(id@, expires),
{
    let mut c = String::from_str("session=");
    c.append(id.as_str());
    c.append("; Max-Age=86400; Expires=");
    let text = utc_text(expires);
    c.append(text.as_str());
    c.append("; SameSite=Strict; HttpOpnly; Secure=true");
    c
}

/// A session just opened under `id` is open, expires one day after it was
/// opened, and is valid at the instant it was opened; every other session is
/// as it was.
pub proof fn law_registered_session_is_found(pool: Map<Seq<char>, Timestamp>, id: Seq<char>, now: Timestamp, other: Seq<char>)
    requires
        can_add_day(now),
        other != id,
    ensures
        registered(pool, id, now).dom().contains(id),
        registered(pool, id, now)[id] == expiry_after(now),
        is_before(now, registered(pool, id, now)[id]),
        registered(pool, id, now).dom().contains(other) == pool.dom().contains(other),
        pool.dom().contains(other) ==> registered(pool, id, now)[other] == pool[other],
{
}

/// A session stays valid until a day after it was opened or renewed, and not
/// after.
pub proof fn law_session_valid_for_a_day(pool: Map<Seq<char>, Timestamp>, id: Seq<char>, opened: Timestamp, now: Timestamp)
    requires
        can_add_day(opened),
    ensures
        is_before(now, registered(pool, id, opened)[id])
            <==> (now.secs < opened.secs + SECS_PER_DAY || (now.secs == opened.secs + SECS_PER_DAY && now.nanos < opened.nanos)),
{
}

/// A session that was stopped is no longer open, and every other session is
/// as it was.
pub proof fn law_stopped_session_is_gone(pool: Map<Seq<char>, Timestamp>, id: Seq<char>, other: Seq<char>)
    requires
        other != id,
    ensures
        !pool.remove(id).dom().contains(id),
        pool.remove(id).dom().contains(other) == pool.dom().contains(other),
        pool.dom().contains(other) ==> pool.remove(id)[other] == pool[other],
{
}

/// The open sessions.
pub struct SessionPool {
    sessions: StringMap<Session>,
}

impl SessionPool {
    /// Each stored session carries the identifier it is stored under.
    pub closed spec fn wf(&self) -> bool {
        &&& self.sessions.wf()
        &&& forall|k: Seq<char>| #[trigger] self.sessions.view().dom().contains(k) ==> self.sessions.view()[k].0@ == k
    }

    /// Each open session's identifier, with the instant at which it expires.
    pub closed spec fn view(&self) -> Map<Seq<char>, Timestamp> {
        self.sessions.view().map_values(|s: Session| s.1)
    }

    /// An empty pool.
    pub fn init() -> (res: SessionPool)
        ensures
            res.wf(),
            res@ == Map::<Seq<char>, Timestamp>::empty(),
    {
        let res = SessionPool { sessions: StringMap::new() };
        proof {
            assert(res@ =~= Map::<Seq<char>, Timestamp>::empty());
        }
        res
    }

    /// Opens the session `session_id`, expiring one day after `now`, and returns
    /// the cookie that hands it to the client. A session open under the same
    /// identifier is replaced.
    pub fn register_session_with(&mut self, session_id: String, now: Timestamp) -> (res: String)
        requires
            old(self).wf(),
            can_add_day(now),
        ensures
            final(self).wf(),
            final(self)@ == registered(old(self)@, session_id@, now),
            res@ == session_cookie(session_id@, expiry_after(now)),
    {
        let expire_at = add_secs(now, SECS_PER_DAY);
        let cookie = cookie_for(&session_id, expire_at);
        let key = session_id.clone();
        self.sessions.insert(key, Session(session_id, expire_at));
        proof {
            assert(self@ =~= registered(old(self)@, key@, now));
        }
        cookie
    }

    /// Opens a session under a fresh identifier, expiring one day after the
    /// clock's reading, and returns the cookie that hands it to the client.
    pub fn register_session(&mut self) -> (res: String)
        requires
            old(self).wf(),
        ensures
            final(self).wf(),
            exists|id: Seq<char>, t: Timestamp|
                #![trigger registered(old(self)@, id, t)]
                is_simple_uuid(id) && is_clock_reading(t) && final(self)@ == registered(old(self)@, id, t)
                    && res@ == session_cookie(id, expiry_after(t)),
    {
        let session_id = new_session_id();
        let t = now();
        let ghost id = session_id@;
        let res = self.register_session_with(session_id, t);
        proof {
            assert(registered(old(self)@, id, t) == self@);
        }
        res
    }

    /// Closes the session `session_id` and returns it; refused with
    /// `InvalidSession` when no such session is open.
    pub fn stop_session(&mut self, session_id: &String) -> (res: Result<Session, Errors>)
        requires
            old(self).wf(),
        ensures
            final(self).wf(),
            final(self)@ == old(self)@.remove(session_id@),
            match res {
                Ok(s) => old(self)@.dom().contains(session_id@) && s.0@ == session_id@
                    && s.1 == old(self)@[session_id@],
                Err(e) => !old(self)@.dom().contains(session_id@) && e == Errors::InvalidSession,
            },
    {
        let res = self.sessions.remove(session_id);
        proof {
            assert(self@ =~= old(self)@.remove(session_id@));
        }
        match res {
            Some(s) => Ok(s),
            None => Err(Errors::InvalidSession),
        }
    }

    /// The session `session_id`; refused with `InvalidSession` when no such
    /// session is open.
    pub fn get_session(&mut self, session_id: &String) -> (res: Result<Session, Errors>)
        requires
            old(self).wf(),
        ensures
            final(self).wf(),
            final(self)@ == old(self)@,
            match res {
                Ok(s) => old(self)@.dom().contains(session_id@) && s.0@ == session_id@
                    && s.1 == old(self)@[session_id@],
                Err(e) => !old(self)@.dom().contains(session_id@) && e == Errors::InvalidSession,
            },
    {
        match self.sessions.get(session_id) {
            Some(s) => Ok(Session(s.0.clone(), s.1)),
            None => Err(Errors::InvalidSession),
        }
    }

    /// Whether the session `session_id` is still valid at `now`, that is, `now`
    /// lies before its expiry; refused with `InvalidSession` when no such session
    /// is open.
    pub fn validate_session_at(&mut self, session_id: &String, now: Timestamp) -> (res: Result<bool, Errors>)
        requires
            old(self).wf(),
        ensures
            final(self).wf(),
            final(self)@ == old(self)@,
            match res {
                Ok(b) => old(self)@.dom().contains(session_id@) && b == is_before(now, old(self)@[session_id@]),
                Err(e) => !old(self)@.dom().contains(session_id@) && e == Errors::InvalidSession,
            },
    {
        match self.sessions.get(session_id) {
            Some(s) => Ok(before(now, s.1)),
            None => Err(Errors::InvalidSession),
        }
    }

    /// Whether the session `session_id` is still valid at the clock's reading;
    /// refused with `InvalidSession` when no such session is open.
    pub fn validate_session(&mut self, session_id: &String) -> (res: Result<bool, Errors>)
        requires
            old(self).wf(),
        ensures
            final(self).wf(),
            final(self)@ == old(self)@,
            match res {
                Ok(b) => old(self)@.dom().contains(session_id@) && exists|t: Timestamp|
                    is_clock_reading(t) && b == #[trigger] is_before(t, old(self)@[session_id@]),
                Err(e) => !old(self)@.dom().contains(session_id@) && e == Errors::InvalidSession,
            },
    {
        let t = now();
        self.validate_session_at(session_id, t)
    }

    /// Renews the session `session_id` to expire one day after `now` and returns
    /// its new cookie; refused with `InvalidSession` when no such session is open.
    pub fn update_session_at(&mut self, session_id: &String, now: Timestamp) -> (res: Result<String, Errors>)
        requires
            old(self).wf(),
            can_add_day(now),
        ensures
            final(self).wf(),
            match res {
                Ok(c) => old(self)@.dom().contains(session_id@) && final(self)@ == registered(old(self)@, session_id@, now)
                    && c@ == session_cookie(session_id@, expiry_after(now)),
                Err(e) => !old(self)@.dom().contains(session_id@) && final(self)@ == old(self)@
                    && e == Errors::InvalidSession,
            },
    {
        match self.sessions.get(session_id) {
            Some(_) => Ok(self.register_session_with(session_id.clone(), now)),
            None => Err(Errors::InvalidSession),
        }
    }

    /// Renews the session `session_id` to expire one day after the clock's
    /// reading and returns its new cookie; refused with `InvalidSession` when no
    /// such session is open.
    pub fn update_session(&mut self, session_id: &String) -> (res: Result<String, Errors>)
        requires
            old(self).wf(),
        ensures
            final(self).wf(),
            match res {
                Ok(c) => old(self)@.dom().contains(session_id@) && exists|t: Timestamp|
                    #![trigger registered(old(self)@, session_id@, t)]
                    is_clock_reading(t) && final(self)@ == registered(old(self)@, session_id@, t)
                        && c@ == session_cookie(session_id@, expiry_after(t)),
                Err(e) => !old(self)@.dom().contains(session_id@) && final(self)@ == old(self)@
                    && e == Errors::InvalidSession,
            },
    {
        let t = now();
        let res = self.update_session_at(session_id, t);
        proof {
            if res is Ok {
                assert(registered(old(self)@, session_id@, t) == self@);
            }
        }
        res
    }
}

} // verus!
