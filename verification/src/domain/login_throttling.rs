//! Throttling of failed logins: after more than five failed attempts for a
//! user, logins for that user are refused until a minute has passed since the
//! last failure.

use crate::string_map::StringMap;
use crate::time::{is_clock_reading, now, Timestamp, SECS_PER_MINUTE};
use vstd::prelude::*;

verus! {

/// The failed login attempts recorded for one user: when the last one
/// happened and how many there have been since the last reset.
#[derive(Clone, Copy, Debug)]
pub struct FailedLoginAttempts {
    pub failed_at: Timestamp,
    pub count: usize,
}

/// More failed attempts than this block further logins for a while.
pub const MAX_FAILED_ATTEMPTS: usize = 5usize;

/// `now` lies less than one minute after `failed_at`.
pub open spec fn within_a_minute(failed_at: Timestamp, now: Timestamp) -> bool {
    now.secs < failed_at.secs + SECS_PER_MINUTE
        || (now.secs == failed_at.secs + SECS_PER_MINUTE && now.nanos < failed_at.nanos)
}

/// Whether a login by `user` is allowed at `now`: it is refused only when more
/// than five failed attempts are recorded for `user` and the last one lies
/// less than a minute before `now`.
pub open spec fn login_allowed(attempts: Map<Seq<char>, FailedLoginAttempts>, user: Seq<char>, now: Timestamp) -> bool {
    !(attempts.dom().contains(user) && attempts[user].count > MAX_FAILED_ATTEMPTS
        && within_a_minute(attempts[user].failed_at, now))
}

/// The recorded attempts after a failed login by `user` at `now`.
pub open spec fn after_failure(attempts: Map<Seq<char>, FailedLoginAttempts>, user: Seq<char>, now: Timestamp) -> Map<Seq<char>, FailedLoginAttempts> {
    if attempts.dom().contains(user) {
        attempts.insert(user, FailedLoginAttempts { failed_at: now, count: (attempts[user].count + 1) as usize })
    } else {
        attempts.insert(user, FailedLoginAttempts { failed_at: now, count: 1 })
    }
}

/// The recorded attempts after the count of `user` is reset.
pub open spec fn after_reset(attempts: Map<Seq<char>, FailedLoginAttempts>, user: Seq<char>) -> Map<Seq<char>, FailedLoginAttempts> {
    if attempts.dom().contains(user) {
        attempts.insert(user, FailedLoginAttempts { failed_at: attempts[user].failed_at, count: 0 })
    } else {
        attempts
    }
}

/// The count of `user` can grow by one without overflowing.
pub open spec fn can_count_failure(attempts: Map<Seq<char>, FailedLoginAttempts>, user: Seq<char>) -> bool {
    attempts.dom().contains(user) ==> attempts[user].count < usize::MAX
}

/// The recorded attempts after failed logins by `user` at each of `times`, in
/// order.
pub open spec fn after_failures(attempts: Map<Seq<char>, FailedLoginAttempts>, user: Seq<char>, times: Seq<Timestamp>) -> Map<Seq<char>, FailedLoginAttempts>
    decreases times.len(),
{
    if times.len() == 0 {
        attempts
    } else {
        after_failure(after_failures(attempts, user, times.drop_last()), user, times.last())
    }
}

/// A user without recorded attempts may log in at any time.
pub proof fn law_unknown_user_may_log_in(attempts: Map<Seq<char>, FailedLoginAttempts>, user: Seq<char>, now: Timestamp)
    requires
        !attempts.dom().contains(user),
    ensures
        login_allowed(attempts, user, now),
{
}

/// After the count of a user is reset, that user may log in at any time.
pub proof fn law_reset_allows_login(attempts: Map<Seq<char>, FailedLoginAttempts>, user: Seq<char>, now: Timestamp)
    ensures
        login_allowed(after_reset(attempts, user), user, now),
{
}

/// A failed login by one user changes nothing for any other user.
pub proof fn law_failure_leaves_other_users(
    attempts: Map<Seq<char>, FailedLoginAttempts>,
    user: Seq<char>,
    other: Seq<char>,
    failed_at: Timestamp,
    now: Timestamp,
)
    requires
        user != other,
    ensures
        login_allowed(after_failure(attempts, user, failed_at), other, now) == login_allowed(attempts, other, now),
{
}

/// Starting from no recorded attempts (or a reset count), `n` failed logins
/// leave a count of `n` and the instant of the last one.
pub proof fn law_failures_are_counted(attempts: Map<Seq<char>, FailedLoginAttempts>, user: Seq<char>, times: Seq<Timestamp>)
    requires
        !attempts.dom().contains(user) || attempts[user].count == 0,
        times.len() < usize::MAX,
    ensures
        after_failures(attempts, user, times).dom().contains(user) || times.len() == 0,
        times.len() > 0 ==> after_failures(attempts, user, times)[user].count == times.len(),
        times.len() > 0 ==> after_failures(attempts, user, times)[user].failed_at == times.last(),
    decreases times.len(),
{
    if times.len() > 0 {
        let prev = times.drop_last();
        law_failures_are_counted(attempts, user, prev);
        if prev.len() == 0 {
            assert(after_failures(attempts, user, prev) == attempts);
        } else {
            assert(after_failures(attempts, user, prev)[user].count == prev.len());
        }
    }
}

/// Starting from no recorded attempts (or a reset count), a user whose last
/// `n` logins failed is refused exactly when `n` exceeds five and the last
/// failure lies less than a minute back.
pub proof fn law_sixth_failure_locks_for_a_minute(
    attempts: Map<Seq<char>, FailedLoginAttempts>,
    user: Seq<char>,
    times: Seq<Timestamp>,
    now: Timestamp,
)
    requires
        !attempts.dom().contains(user) || attempts[user].count == 0,
        0 < times.len() < usize::MAX,
    ensures
        login_allowed(after_failures(attempts, user, times), user, now)
            <==> !(times.len() > MAX_FAILED_ATTEMPTS && within_a_minute(times.last(), now)),
{
    law_failures_are_counted(attempts, user, times);
}

/// A reset clears a user's count: the failures that follow it are counted
/// from zero, so after `n` of them the count is `n` and the last failure is
/// the one recorded.
pub proof fn law_failures_after_reset_count_from_zero(
    attempts: Map<Seq<char>, FailedLoginAttempts>,
    user: Seq<char>,
    times: Seq<Timestamp>,
)
    requires
        0 < times.len() < usize::MAX,
    ensures
        after_failures(after_reset(attempts, user), user, times).dom().contains(user),
        after_failures(after_reset(attempts, user), user, times)[user].count == times.len(),
        after_failures(after_reset(attempts, user), user, times)[user].failed_at == times.last(),
{
    law_failures_are_counted(after_reset(attempts, user), user, times);
}

/// After a reset (a successful login), up to five failed logins never block
/// the user: a login is allowed at any instant.
pub proof fn law_few_failures_after_reset_never_block(
    attempts: Map<Seq<char>, FailedLoginAttempts>,
    user: Seq<char>,
    times: Seq<Timestamp>,
    now: Timestamp,
)
    requires
        times.len() <= MAX_FAILED_ATTEMPTS,
    ensures
        login_allowed(after_failures(after_reset(attempts, user), user, times), user, now),
{
    if times.len() > 0 {
        law_failures_after_reset_count_from_zero(attempts, user, times);
    } else {
        assert(after_failures(after_reset(attempts, user), user, times) == after_reset(attempts, user));
    }
}

/// After a reset, a sixth failure blocks the user exactly for the minute that
/// follows it.
pub proof fn law_sixth_failure_after_reset_blocks(
    attempts: Map<Seq<char>, FailedLoginAttempts>,
    user: Seq<char>,
    times: Seq<Timestamp>,
    now: Timestamp,
)
    requires
        MAX_FAILED_ATTEMPTS < times.len() < usize::MAX,
    ensures
        login_allowed(after_failures(after_reset(attempts, user), user, times), user, now)
            <==> !within_a_minute(times.last(), now),
{
    law_failures_after_reset_count_from_zero(attempts, user, times);
}

/// The failed login attempts of every user that has had one.
pub struct LoginThrottling {
    attempts: StringMap<FailedLoginAttempts>,
}

impl LoginThrottling {
    pub closed spec fn wf(&self) -> bool {
        self.attempts.wf()
    }

    /// Each user with recorded attempts, and those attempts.
    pub closed spec fn view(&self) -> Map<Seq<char>, FailedLoginAttempts> {
        self.attempts.view()
    }

    /// No attempts recorded.
    pub fn init() -> (res: LoginThrottling)
        ensures
            res.wf(),
            res@ == Map::<Seq<char>, FailedLoginAttempts>::empty(),
    {
        LoginThrottling { attempts: StringMap::new() }
    }

    /// Records a failed login by `user_name` at `now`.
    pub fn register_failed_login_attempt_at(&mut self, user_name: &str, now: Timestamp)
        requires
            old(self).wf(),
            can_count_failure(old(self)@, user_name@),
        ensures
            final(self).wf(),
            final(self)@ == after_failure(old(self)@, user_name@, now),
    {
        let key = user_name.to_owned();
        let entry = match self.attempts.get(&key) {
            Some(failed_attempts) => FailedLoginAttempts { failed_at: now, count: failed_attempts.count + 1 },
            None => FailedLoginAttempts { failed_at: now, count: 1 },
        };
        self.attempts.insert(key, entry);
    }

    /// Records a failed login by `user_name` at the clock's reading.
    pub fn register_failed_login_attempt(&mut self, user_name: &str)
        requires
            old(self).wf(),
            can_count_failure(old(self)@, user_name@),
        ensures
            final(self).wf(),
            exists|t: Timestamp| is_clock_reading(t) && final(self)@ == #[trigger] after_failure(old(self)@, user_name@, t),
    {
        let t = now();
        self.register_failed_login_attempt_at(user_name, t);
    }

    /// Whether a login by `user_name` is allowed at `now`.
    pub fn is_login_allowed_at(&self, user_name: &str, now: Timestamp) -> (res: bool)
        requires
            self.wf(),
        ensures
            res == login_allowed(self@, user_name@, now),
    {
        let key = user_name.to_owned();
        if let Some(failed_attempts) = self.attempts.get(&key) {
            let limit = (failed_attempts.failed_at.secs as i128) + (SECS_PER_MINUTE as i128);
            let recent = (now.secs as i128) < limit
                || ((now.secs as i128) == limit && now.nanos < failed_attempts.failed_at.nanos);
            if failed_attempts.count > MAX_FAILED_ATTEMPTS && recent {
                return false;
            }
        }
        true
    }

    /// Whether a login by `user_name` is allowed at the clock's reading.
    pub fn is_login_allowed(&self, user_name: &str) -> (res: bool)
        requires
            self.wf(),
        ensures
            exists|t: Timestamp| is_clock_reading(t) && res == #[trigger] login_allowed(self@, user_name@, t),
    {
        let t = now();
        self.is_login_allowed_at(user_name, t)
    }

    /// The failed attempts recorded for `user_name`, if any.
    pub fn failed_attempts(&self, user_name: &str) -> (res: Option<FailedLoginAttempts>)
        requires
            self.wf(),
        ensures
            match res {
                Some(a) => self@.dom().contains(user_name@) && a == self@[user_name@],
                None => !self@.dom().contains(user_name@),
            },
    {
        let key = user_name.to_owned();
        match self.attempts.get(&key) {
            Some(a) => Some(*a),
            None => None,
        }
    }

    /// Sets the count of failed attempts of `user_name` back to zero.
    pub fn reset_login_attempts(&mut self, user_name: &str)
        requires
            old(self).wf(),
        ensures
            final(self).wf(),
            final(self)@ == after_reset(old(self)@, user_name@),
    {
        let key = user_name.to_owned();
        let entry = match self.attempts.get(&key) {
            Some(failed_attempts) => Some(FailedLoginAttempts { failed_at: failed_attempts.failed_at, count: 0 }),
            None => None,
        };
        if let Some(e) = entry {
            self.attempts.insert(key, e);
        }
    }
}

} // verus!
