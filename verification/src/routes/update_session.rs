//! What the session-renewal handler decides: a session that is still valid is
//! renewed for another day; an expired one is closed; either a missing cookie
//! or an unknown session is refused.

use crate::domain::session::{can_add_day, expiry_after, registered, session_cookie, SessionPool};
use crate::errors::Errors;
use crate::time::{is_before, is_clock_reading, Timestamp};
use vstd::prelude::*;

verus! {

/// Renews the session named by the cookie at `now`: when it is still valid it
/// expires one day after `now` and its new cookie is returned; when it has
/// expired it is closed and the request refused with `InvalidSession`; a
/// request without a session, or with one that is not open, is refused with
/// `InvalidSession`.
pub fn refresh_session_at(sessions: &mut SessionPool, session_id: Option<String>, now: Timestamp) -> (res: Result<String, Errors>)
    requires
        old(sessions).wf(),
        can_add_day(now),
    ensures
        final(sessions).wf(),
        match session_id {
            None => res == Err::<String, Errors>(Errors::InvalidSession) && final(sessions)@ == old(sessions)@,
            Some(id) => if !old(sessions)@.dom().contains(id@) {
                res == Err::<String, Errors>(Errors::InvalidSession) && final(sessions)@ == old(sessions)@
            } else if is_before(now, old(sessions)@[id@]) {
                res matches Ok(c) && c@ == session_cookie(id@, expiry_after(now))
                    && final(sessions)@ == registered(old(sessions)@, id@, now)
            } else {
                res == Err::<String, Errors>(Errors::InvalidSession)
                    && final(sessions)@ == old(sessions)@.remove(id@)
            },
        },
{
    if let Some(session_id) = session_id {
        if sessions.validate_session_at(&session_id, now)? {
            let session_cookie = sessions.update_session_at(&session_id, now)?;
            return Ok(session_cookie);
        }
        sessions.stop_session(&session_id)?;
        return Err(Errors::InvalidSession);
    }
    Err(Errors::InvalidSession)
}

/// Renews the session named by the cookie, reading the clock to judge its
/// validity and again to renew it.
pub fn refresh_session(sessions: &mut SessionPool, session_id: Option<String>) -> (res: Result<String, Errors>)
    requires
        old(sessions).wf(),
    ensures
        final(sessions).wf(),
        match session_id {
            None => res == Err::<String, Errors>(Errors::InvalidSession) && final(sessions)@ == old(sessions)@,
            Some(id) => if !old(sessions)@.dom().contains(id@) {
                res == Err::<String, Errors>(Errors::InvalidSession) && final(sessions)@ == old(sessions)@
            } else {
                exists|t: Timestamp| is_clock_reading(t) && if #[trigger] is_before(t, old(sessions)@[id@]) {
                    exists|u: Timestamp|
                        #![trigger registered(old(sessions)@, id@, u)]
                        is_clock_reading(u) && (res matches Ok(c) && c@ == session_cookie(id@, expiry_after(u)))
                            && final(sessions)@ == registered(old(sessions)@, id@, u)
                } else {
                    res == Err::<String, Errors>(Errors::InvalidSession)
                        && final(sessions)@ == old(sessions)@.remove(id@)
                }
            },
        },
{
    if let Some(session_id) = session_id {
        if sessions.validate_session(&session_id)? {
            let session_cookie = sessions.update_session(&session_id)?;
            return Ok(session_cookie);
        }
        sessions.stop_session(&session_id)?;
        return Err(Errors::InvalidSession);
    }
    Err(Errors::InvalidSession)
}

} // verus!
