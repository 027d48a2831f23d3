//! Sessions of logged-in users, kept in memory and looked up by token.
//!
//! Times are nanoseconds since 1970-01-01 UTC.

use vstd::prelude::*;
use crate::clock::{now_nanos, CLOCK_MAX_NANOS};
use crate::text::str_eq;

verus! {

/// Nanoseconds in an hour.
pub const NANOS_PER_HOUR: i128 = 3_600_000_000_000;

/// Longest validity, in hours either way, that a session or token may be given: about the
/// time from the present to the end of the calendar range of `chrono` (the year 262142),
/// beyond which adding the duration to the present time overflows.
pub const MAX_DURATION_HOURS: i64 = 2_280_000_000;

#[derive(Debug)]
pub struct SessionData {
    pub user_id: i64,
    pub username: String,
    pub character_id: Option<i64>,
    pub token: String,
    pub created_at: i128,
    pub expires_at: i128,
}

/// A session has expired once the time has passed its expiry.
pub open spec fn spec_expired(s: SessionData, now: int) -> bool {
    now > s.expires_at
}

impl SessionData {
    /// A session that starts at `now` and lasts `duration_hours`, with no character chosen.
    pub fn new_at(user_id: i64, username: String, token: String, duration_hours: i64, now: i128) -> (r:
        SessionData)
        requires
            -MAX_DURATION_HOURS <= duration_hours <= MAX_DURATION_HOURS,
            0 <= now <= CLOCK_MAX_NANOS,
        ensures
            r.user_id == user_id,
            r.username@ == username@,
            r.token@ == token@,
            r.character_id is None,
            r.created_at == now,
            r.expires_at == now + duration_hours * NANOS_PER_HOUR,
    {
        SessionData {
            user_id,
            username,
            character_id: None,
            token,
            created_at: now,
            expires_at: now + (duration_hours as i128) * NANOS_PER_HOUR,
        }
    }

    /// A session that starts now and lasts `duration_hours`, with no character chosen.
    pub fn new(user_id: i64, username: String, token: String, duration_hours: i64) -> (r:
        SessionData)
        requires
            -MAX_DURATION_HOURS <= duration_hours <= MAX_DURATION_HOURS,
        ensures
            r.user_id == user_id,
            r.username@ == username@,
            r.token@ == token@,
            r.character_id is None,
            0 <= r.created_at <= CLOCK_MAX_NANOS,
            r.expires_at == r.created_at + duration_hours * NANOS_PER_HOUR,
    {
        let now = now_nanos();
        Self::new_at(user_id, username, token, duration_hours, now)
    }

    pub fn is_expired_at(&self, now: i128) -> (r: bool)
        ensures
            r == spec_expired(*self, now as int),
    {
        now > self.expires_at
    }

    /// Whether the session has expired by the time of the call.
    pub fn is_expired(&self) -> (r: bool)
        ensures
            exists|now: int| 0 <= now <= CLOCK_MAX_NANOS && r == spec_expired(*self, now),
    {
        let now = now_nanos();
        self.is_expired_at(now)
    }

    pub fn set_character(&mut self, character_id: i64)
        ensures
            final(self).character_id == Some(character_id),
            final(self).user_id == old(self).user_id,
            final(self).username == old(self).username,
            final(self).token == old(self).token,
            final(self).created_at == old(self).created_at,
            final(self).expires_at == old(self).expires_at,
    {
        self.character_id = Some(character_id);
    }
}

/// No two entries share a token.
pub open spec fn keys_unique(s: Seq<(String, SessionData)>) -> bool {
    forall|i: int, j: int|
        0 <= i < s.len() && 0 <= j < s.len() && i != j ==> s[i].0@ != s[j].0@
}

/// The map from token to session that a list of entries stands for.
pub open spec fn entries_map(s: Seq<(String, SessionData)>) -> Map<Seq<char>, SessionData>
    decreases s.len(),
{
    if s.len() == 0 {
        Map::empty()
    } else {
        entries_map(s.drop_last()).insert(s.last().0@, s.last().1)
    }
}

/// Number of entries whose session has not expired at `now`.
pub open spec fn count_active(s: Seq<(String, SessionData)>, now: int) -> nat
    decreases s.len(),
{
    if s.len() == 0 {
        0
    } else {
        count_active(s.drop_last(), now) + if spec_expired(s.last().1, now) {
            0nat
        } else {
            1nat
        }
    }
}

/// With unique tokens, a token is in the map exactly when an entry holds it, and then the
/// map gives that entry's session.
proof fn lemma_entries_map(s: Seq<(String, SessionData)>)
    requires
        keys_unique(s),
    ensures
        forall|k: Seq<char>|
            #![trigger entries_map(s).dom().contains(k)]
            entries_map(s).dom().contains(k) <==> exists|i: int| 0 <= i < s.len() && s[i].0@ == k,
        forall|i: int| 0 <= i < s.len() ==> #[trigger] entries_map(s)[s[i].0@] == s[i].1,
        entries_map(s).dom().finite(),
        entries_map(s).dom().len() == s.len(),
    decreases s.len(),
{
    if s.len() > 0 {
        let p = s.drop_last();
        assert(keys_unique(p));
        lemma_entries_map(p);
        let last = s.last();
        assert forall|k: Seq<char>|
            #![trigger entries_map(s).dom().contains(k)]
            entries_map(s).dom().contains(k) <==> exists|i: int| 0 <= i < s.len() && s[i].0@ == k by {
            if entries_map(s).dom().contains(k) {
                if k == last.0@ {
                    assert(s[s.len() - 1].0@ == k);
                } else {
                    assert(entries_map(p).dom().contains(k));
                    let i = choose|i: int| 0 <= i < p.len() && p[i].0@ == k;
                    assert(s[i].0@ == k);
                }
            }
            if exists|i: int| 0 <= i < s.len() && s[i].0@ == k {
                let i = choose|i: int| 0 <= i < s.len() && s[i].0@ == k;
                if i < s.len() - 1 {
                    assert(p[i].0@ == k);
                    assert(entries_map(p).dom().contains(k));
                }
            }
        }
        assert forall|i: int| 0 <= i < s.len() implies #[trigger] entries_map(s)[s[i].0@]
            == s[i].1 by {
            if i < s.len() - 1 {
                assert(p[i] == s[i]);
                assert(s[i].0@ != last.0@);
            }
        }
        assert(!entries_map(p).dom().contains(last.0@)) by {
            if entries_map(p).dom().contains(last.0@) {
                let i = choose|i: int| 0 <= i < p.len() && p[i].0@ == last.0@;
                assert(s[i].0@ == s[s.len() - 1].0@);
            }
        }
    }
}

/// Replacing the session of one entry, keeping its token, replaces that token's session in
/// the map and keeps the tokens unique.
proof fn lemma_replace_value(old_s: Seq<(String, SessionData)>, i: int, new_s: Seq<(String, SessionData)>)
    requires
        keys_unique(old_s),
        0 <= i < old_s.len(),
        new_s.len() == old_s.len(),
        forall|j: int| 0 <= j < old_s.len() && j != i ==> new_s[j] == old_s[j],
        new_s[i].0@ == old_s[i].0@,
    ensures
        keys_unique(new_s),
        entries_map(new_s) == entries_map(old_s).insert(old_s[i].0@, new_s[i].1),
{
    let key = old_s[i].0@;
    let v = new_s[i].1;
    assert forall|a: int, b: int|
        0 <= a < new_s.len() && 0 <= b < new_s.len() && a != b implies new_s[a].0@ != new_s[b].0@ by {
        if a != i && b != i {
            assert(new_s[a] == old_s[a] && new_s[b] == old_s[b]);
        } else if a == i {
            assert(new_s[b] == old_s[b]);
        } else {
            assert(new_s[a] == old_s[a]);
        }
    }
    lemma_entries_map(new_s);
    lemma_entries_map(old_s);
    assert forall|k: Seq<char>|
        #![trigger entries_map(new_s).dom().contains(k)]
        entries_map(new_s).dom().contains(k) <==> entries_map(old_s).insert(key, v).dom().contains(k) by {
        if entries_map(new_s).dom().contains(k) {
            let j = choose|j: int| 0 <= j < new_s.len() && new_s[j].0@ == k;
            if j != i {
                assert(old_s[j] == new_s[j]);
            }
        }
        if entries_map(old_s).dom().contains(k) {
            let j = choose|j: int| 0 <= j < old_s.len() && old_s[j].0@ == k;
            if j != i {
                assert(old_s[j] == new_s[j]);
            } else {
                assert(new_s[j].0@ == k);
            }
        }
        if k == key {
            assert(new_s[i].0@ == k);
        }
    }
    assert forall|k: Seq<char>| #[trigger]
        entries_map(new_s).dom().contains(k) implies entries_map(new_s)[k] == entries_map(old_s).insert(
        key,
        v,
    )[k] by {
        let j = choose|j: int| 0 <= j < new_s.len() && new_s[j].0@ == k;
        assert(entries_map(new_s)[new_s[j].0@] == new_s[j].1);
        if j != i {
            assert(old_s[j] == new_s[j]);
            assert(entries_map(old_s)[old_s[j].0@] == old_s[j].1);
        }
    }
    assert(entries_map(new_s) =~= entries_map(old_s).insert(key, v));
}

/// Taking out one entry takes its token out of the map and keeps the tokens unique.
proof fn lemma_remove_entry(old_s: Seq<(String, SessionData)>, i: int)
    requires
        keys_unique(old_s),
        0 <= i < old_s.len(),
    ensures
        keys_unique(old_s.remove(i)),
        entries_map(old_s.remove(i)) == entries_map(old_s).remove(old_s[i].0@),
{
    let new_s = old_s.remove(i);
    let key = old_s[i].0@;
    assert forall|a: int, b: int|
        0 <= a < new_s.len() && 0 <= b < new_s.len() && a != b implies new_s[a].0@ != new_s[b].0@ by {
        let oa = if a < i { a } else { a + 1 };
        let ob = if b < i { b } else { b + 1 };
        assert(new_s[a] == old_s[oa] && new_s[b] == old_s[ob]);
    }
    lemma_entries_map(new_s);
    lemma_entries_map(old_s);
    assert forall|k: Seq<char>|
        #![trigger entries_map(new_s).dom().contains(k)]
        entries_map(new_s).dom().contains(k) <==> entries_map(old_s).remove(key).dom().contains(k) by {
        if entries_map(new_s).dom().contains(k) {
            let j = choose|j: int| 0 <= j < new_s.len() && new_s[j].0@ == k;
            let oj = if j < i { j } else { j + 1 };
            assert(new_s[j] == old_s[oj]);
        }
        if entries_map(old_s).remove(key).dom().contains(k) {
            let j = choose|j: int| 0 <= j < old_s.len() && old_s[j].0@ == k;
            assert(j != i);
            let nj = if j < i { j } else { j - 1 };
            assert(new_s[nj] == old_s[j]);
        }
    }
    assert forall|k: Seq<char>| #[trigger]
        entries_map(new_s).dom().contains(k) implies entries_map(new_s)[k] == entries_map(old_s).remove(
        key,
    )[k] by {
        let j = choose|j: int| 0 <= j < new_s.len() && new_s[j].0@ == k;
        let oj = if j < i { j } else { j + 1 };
        assert(new_s[j] == old_s[oj]);
        assert(entries_map(new_s)[new_s[j].0@] == new_s[j].1);
        assert(entries_map(old_s)[old_s[oj].0@] == old_s[oj].1);
    }
    assert(entries_map(new_s) =~= entries_map(old_s).remove(key));
}

/// `e` is an active entry of `s` found at or after position `lo`.
spec fn active_entry_from(
    e: (String, SessionData),
    s: Seq<(String, SessionData)>,
    lo: int,
    now: int,
) -> bool {
    exists|idx: int| lo <= idx < s.len() && e == s[idx] && !spec_expired(s[idx].1, now)
}

/// The number of active entries is the number of tokens whose session is active.
proof fn lemma_count_active(s: Seq<(String, SessionData)>, now: int)
    requires
        keys_unique(s),
    ensures
        count_active(s, now) == entries_map(s).dom().filter(
            |k: Seq<char>| !spec_expired(entries_map(s)[k], now),
        ).len(),
        entries_map(s).dom().filter(|k: Seq<char>| !spec_expired(entries_map(s)[k], now)).finite(),
    decreases s.len(),
{
    let m = entries_map(s);
    let f = |k: Seq<char>| !spec_expired(m[k], now);
    lemma_entries_map(s);
    if s.len() == 0 {
        assert(m.dom().filter(f) =~= Set::empty());
    } else {
        let p = s.drop_last();
        assert(keys_unique(p));
        lemma_count_active(p, now);
        lemma_entries_map(p);
        let mp = entries_map(p);
        let fp = |k: Seq<char>| !spec_expired(mp[k], now);
        let last = s.last();
        assert(!mp.dom().contains(last.0@)) by {
            if mp.dom().contains(last.0@) {
                let i = choose|i: int| 0 <= i < p.len() && p[i].0@ == last.0@;
                assert(s[i].0@ == s[s.len() - 1].0@);
            }
        }
        if spec_expired(last.1, now) {
            assert(m.dom().filter(f) =~= mp.dom().filter(fp));
        } else {
            assert(m.dom().filter(f) =~= mp.dom().filter(fp).insert(last.0@));
        }
    }
}

/// The sessions of all logged-in users, by token.
pub struct SessionManager {
    sessions: Vec<(String, SessionData)>,
}

impl View for SessionManager {
    type V = Map<Seq<char>, SessionData>;

    closed spec fn view(&self) -> Map<Seq<char>, SessionData> {
        entries_map(self.sessions@)
    }
}

/// Tokens whose session is still active at `now`.
pub open spec fn active_tokens(m: Map<Seq<char>, SessionData>, now: int) -> Set<Seq<char>> {
    m.dom().filter(|k: Seq<char>| !spec_expired(m[k], now))
}

/// Tokens whose session has expired at `now`.
pub open spec fn expired_tokens(m: Map<Seq<char>, SessionData>, now: int) -> Set<Seq<char>> {
    m.dom().filter(|k: Seq<char>| spec_expired(m[k], now))
}

/// Whether `token` names a session of `m` that is still active at `now`.
pub open spec fn token_valid(m: Map<Seq<char>, SessionData>, token: Seq<char>, now: int) -> bool {
    m.dom().contains(token) && !spec_expired(m[token], now)
}

/// The sessions of `m` that are still active at `now`.
pub open spec fn active_part(m: Map<Seq<char>, SessionData>, now: int) -> Map<
    Seq<char>,
    SessionData,
> {
    m.restrict(active_tokens(m, now))
}

/// The tokens of a finite store split into those still active and those expired.
proof fn lemma_expired_count(m: Map<Seq<char>, SessionData>, now: int)
    requires
        m.dom().finite(),
    ensures
        active_tokens(m, now).finite(),
        expired_tokens(m, now).finite(),
        m.dom().len() == active_tokens(m, now).len() + expired_tokens(m, now).len(),
{
    let a = active_tokens(m, now);
    let e = expired_tokens(m, now);
    vstd::set_lib::lemma_set_subset_finite(m.dom(), a);
    vstd::set_lib::lemma_set_subset_finite(m.dom(), e);
    assert(a.disjoint(e));
    assert(m.dom() =~= a + e);
    vstd::set_lib::lemma_set_disjoint_lens(a, e);
}

impl SessionManager {
    /// No two stored sessions share a token.
    pub closed spec fn wf(&self) -> bool {
        keys_unique(self.sessions@)
    }

    pub fn new() -> (r: SessionManager)
        ensures
            r.wf(),
            r@ == Map::<Seq<char>, SessionData>::empty(),
    {
        SessionManager { sessions: Vec::new() }
    }

    /// Position of the entry that holds `token`, if any.
    fn find(&self, token: &str) -> (r: Option<usize>)
        requires
            self.wf(),
        ensures
            r matches Some(i) ==> i < self.sessions@.len() && self.sessions@[i as int].0@
                == token@,
            r is None ==> forall|i: int|
                0 <= i < self.sessions@.len() ==> self.sessions@[i].0@ != token@,
            r is Some <==> self@.dom().contains(token@),
    {
        proof {
            lemma_entries_map(self.sessions@);
        }
        let mut i: usize = 0;
        while i < self.sessions.len()
            invariant
                i <= self.sessions@.len(),
                keys_unique(self.sessions@),
                forall|j: int| 0 <= j < i ==> self.sessions@[j].0@ != token@,
            decreases self.sessions@.len() - i,
        {
            let key: &str = self.sessions[i].0.as_str();
            if str_eq(key, token) {
                proof {
                    lemma_entries_map(self.sessions@);
                    assert(self.sessions@[i as int].0@ == token@);
                }
                return Some(i);
            }
            i = i + 1;
        }
        None
    }

    /// Stores `session` under `token`, replacing any session stored there before.
    pub fn add_session(&mut self, token: String, session: SessionData)
        requires
            old(self).wf(),
        ensures
            final(self).wf(),
            final(self)@ == old(self)@.insert(token@, session),
    {
        let ghost old_s = self.sessions@;
        let ghost key = token@;
        match self.find(token.as_str()) {
            Some(i) => {
                self.sessions.set(i, (token, session));
                proof {
                    lemma_replace_value(old_s, i as int, self.sessions@);
                }
            },
            None => {
                self.sessions.push((token, session));
                proof {
                    let s = self.sessions@;
                    assert(s.drop_last() =~= old_s);
                    assert(keys_unique(s)) by {
                        assert forall|a: int, b: int|
                            0 <= a < s.len() && 0 <= b < s.len() && a != b implies s[a].0@
                            != s[b].0@ by {
                            if a < old_s.len() && b < old_s.len() {
                                assert(s[a] == old_s[a] && s[b] == old_s[b]);
                            } else if a < old_s.len() {
                                assert(s[a] == old_s[a]);
                            } else {
                                assert(s[b] == old_s[b]);
                            }
                        }
                    }
                }
            },
        }
    }

    /// The session stored under `token`, if any.
    pub fn get_session(&self, token: &str) -> (r: Option<&SessionData>)
        requires
            self.wf(),
        ensures
            r is Some <==> self@.dom().contains(token@),
            r matches Some(s) ==> *s == self@[token@],
    {
        proof {
            lemma_entries_map(self.sessions@);
        }
        match self.find(token) {
            Some(i) => Some(&self.sessions[i].1),
            None => None,
        }
    }

    /// The session stored under `token`, if any, for changing it in place.
    pub fn get_session_mut(&mut self, token: &str) -> (r: Option<&mut SessionData>)
        requires
            old(self).wf(),
        ensures
            r is Some <==> old(self)@.dom().contains(token@),
            r matches Some(s) ==> *s == old(self)@[token@] && final(self)@ == old(self)@.insert(
                token@,
                *final(s),
            ) && final(self).wf(),
            r is None ==> *final(self) == *old(self),
    {
        proof {
            lemma_entries_map(self.sessions@);
        }
        match self.find(token) {
            Some(i) => {
                let ghost old_s = self.sessions@;
                let entry = &mut self.sessions[i];
                let ghost key_string = entry.0;
                proof {
                    assert forall|v: SessionData| #[trigger] entries_map(old_s.update(i as int, (key_string, v))) == entries_map(old_s).insert(token@, v)
                        && keys_unique(old_s.update(i as int, (key_string, v))) by {
                        lemma_replace_value(old_s, i as int, old_s.update(i as int, (key_string, v)));
                    }
                }
                Some(&mut entry.1)
            },
            None => None,
        }
    }

    /// Takes the session stored under `token` out of the manager.
    pub fn remove_session(&mut self, token: &str) -> (r: Option<SessionData>)
        requires
            old(self).wf(),
        ensures
            final(self).wf(),
            r is Some <==> old(self)@.dom().contains(token@),
            r matches Some(s) ==> s == old(self)@[token@],
            final(self)@ == old(self)@.remove(token@),
    {
        proof {
            lemma_entries_map(self.sessions@);
        }
        match self.find(token) {
            Some(i) => {
                let ghost old_s = self.sessions@;
                let entry = self.sessions.remove(i);
                proof {
                    lemma_remove_entry(old_s, i as int);
                }
                Some(entry.1)
            },
            None => {
                proof {
                    assert(self@.remove(token@) =~= self@);
                }
                None
            },
        }
    }

    /// The session stored under `token`, if it has not expired at `now`.
    pub fn validate_token_at(&self, token: &str, now: i128) -> (r: Option<&SessionData>)
        requires
            self.wf(),
        ensures
            r is Some <==> token_valid(self@, token@, now as int),
            r matches Some(s) ==> *s == self@[token@],
    {
        match self.get_session(token) {
            Some(s) => {
                if s.is_expired_at(now) {
                    None
                } else {
                    Some(s)
                }
            },
            None => None,
        }
    }

    /// The session stored under `token`, if it has not expired by the time of the call.
    pub fn validate_token(&self, token: &str) -> (r: Option<&SessionData>)
        requires
            self.wf(),
        ensures
            exists|now: int|
                0 <= now <= CLOCK_MAX_NANOS && (r is Some <==> #[trigger] token_valid(
                    self@,
                    token@,
                    now,
                )),
            r matches Some(s) ==> *s == self@[token@],
    {
        let now = now_nanos();
        let r = self.validate_token_at(token, now);
        assert(0 <= now as int <= CLOCK_MAX_NANOS && (r is Some <==> token_valid(
            self@,
            token@,
            now as int,
        )));
        r
    }

    /// Drops every session that has expired at `now` and returns how many were dropped.
    pub fn cleanup_expired_at(&mut self, now: i128) -> (r: usize)
        requires
            old(self).wf(),
        ensures
            final(self).wf(),
            final(self)@ == active_part(old(self)@, now as int),
            r == old(self)@.dom().len() - final(self)@.dom().len(),
            r == expired_tokens(old(self)@, now as int).len(),
            old(self)@.dom().finite(),
    {
        let ghost old_s = self.sessions@;
        proof {
            lemma_entries_map(old_s);
        }
        let _count: usize = self.sessions.len();
        let mut rest: Vec<(String, SessionData)> = Vec::new();
        std::mem::swap(&mut rest, &mut self.sessions);
        let mut kept: Vec<(String, SessionData)> = Vec::new();
        let mut removed: usize = 0;
        while rest.len() > 0
            invariant
                rest@ == old_s.take(rest@.len() as int),
                rest@.len() <= old_s.len() <= usize::MAX,
                keys_unique(old_s),
                keys_unique(kept@),
                forall|j: int|
                    0 <= j < kept@.len() ==> active_entry_from(
                        #[trigger] kept@[j],
                        old_s,
                        rest@.len() as int,
                        now as int,
                    ),
                forall|idx: int|
                    rest@.len() <= idx < old_s.len() && !spec_expired(old_s[idx].1, now as int)
                        ==> exists|j: int| 0 <= j < kept@.len() && kept@[j] == #[trigger] old_s[idx],
                removed + kept@.len() == old_s.len() - rest@.len(),
            decreases rest@.len(),
        {
            let ghost n = rest@.len() - 1;
            let entry = rest.pop().unwrap();
            assert(entry == old_s[n]);
            assert(rest@ =~= old_s.take(n));
            assert(rest@.len() == n);
            if entry.1.is_expired_at(now) {
                removed = removed + 1;
                proof {
                    assert forall|j: int| 0 <= j < kept@.len() implies active_entry_from(
                        #[trigger] kept@[j],
                        old_s,
                        n,
                        now as int,
                    ) by {
                        assert(active_entry_from(kept@[j], old_s, n + 1, now as int));
                        let idx = choose|idx: int|
                            n + 1 <= idx < old_s.len() && kept@[j] == old_s[idx]
                                && !spec_expired(old_s[idx].1, now as int);
                        assert(n <= idx < old_s.len() && kept@[j] == old_s[idx]
                            && !spec_expired(old_s[idx].1, now as int));
                    }
                }
            } else {
                let ghost before = kept@;
                kept.push(entry);
                proof {
                    assert(kept@[before.len() as int] == old_s[n]);
                    assert forall|a: int, b: int|
                        0 <= a < kept@.len() && 0 <= b < kept@.len() && a != b implies kept@[a].0@
                        != kept@[b].0@ by {
                        if a < before.len() && b < before.len() {
                            assert(kept@[a] == before[a] && kept@[b] == before[b]);
                        } else if a < before.len() {
                            assert(kept@[a] == before[a]);
                            assert(active_entry_from(before[a], old_s, n + 1, now as int));
                            let idx = choose|idx: int|
                                n + 1 <= idx < old_s.len() && before[a] == old_s[idx]
                                    && !spec_expired(old_s[idx].1, now as int);
                            assert(old_s[idx].0@ != old_s[n].0@);
                        } else {
                            assert(kept@[b] == before[b]);
                            assert(active_entry_from(before[b], old_s, n + 1, now as int));
                            let idx = choose|idx: int|
                                n + 1 <= idx < old_s.len() && before[b] == old_s[idx]
                                    && !spec_expired(old_s[idx].1, now as int);
                            assert(old_s[idx].0@ != old_s[n].0@);
                        }
                    }
                    assert forall|j: int| 0 <= j < kept@.len() implies active_entry_from(
                        #[trigger] kept@[j],
                        old_s,
                        n,
                        now as int,
                    ) by {
                        if j < before.len() {
                            assert(kept@[j] == before[j]);
                            assert(active_entry_from(before[j], old_s, n + 1, now as int));
                            let idx = choose|idx: int|
                                n + 1 <= idx < old_s.len() && before[j] == old_s[idx]
                                    && !spec_expired(old_s[idx].1, now as int);
                            assert(n <= idx < old_s.len() && kept@[j] == old_s[idx]
                                && !spec_expired(old_s[idx].1, now as int));
                        } else {
                            assert(n <= n < old_s.len() && kept@[j] == old_s[n]
                                && !spec_expired(old_s[n].1, now as int));
                        }
                    }
                    assert forall|idx: int|
                        n <= idx < old_s.len() && !spec_expired(old_s[idx].1, now as int)
                            implies exists|j: int| 0 <= j < kept@.len() && kept@[j] == #[trigger] old_s[idx] by {
                        if idx > n {
                            let j = choose|j: int| 0 <= j < before.len() && before[j] == old_s[idx];
                            assert(kept@[j] == before[j]);
                        }
                    }
                }
            }
        }
        self.sessions = kept;
        proof {
            let s = self.sessions@;
            let m = entries_map(old_s);
            lemma_entries_map(s);
            assert(active_part(m, now as int) =~= entries_map(s)) by {
                assert forall|k: Seq<char>| #[trigger] entries_map(s).dom().contains(k)
                    <==> active_part(m, now as int).dom().contains(k) by {
                    if entries_map(s).dom().contains(k) {
                        let j = choose|j: int| 0 <= j < s.len() && s[j].0@ == k;
                        assert(active_entry_from(s[j], old_s, 0, now as int));
                        let idx = choose|idx: int|
                            0 <= idx < old_s.len() && s[j] == old_s[idx]
                                && !spec_expired(old_s[idx].1, now as int);
                        assert(m[old_s[idx].0@] == old_s[idx].1);
                        assert(active_tokens(m, now as int).contains(k));
                    }
                    if active_part(m, now as int).dom().contains(k) {
                        let idx = choose|idx: int| 0 <= idx < old_s.len() && old_s[idx].0@ == k;
                        assert(m[old_s[idx].0@] == old_s[idx].1);
                        let j = choose|j: int| 0 <= j < s.len() && s[j] == old_s[idx];
                        assert(s[j].0@ == k);
                    }
                }
                assert forall|k: Seq<char>| #[trigger] entries_map(s).dom().contains(k) implies
                    entries_map(s)[k] == active_part(m, now as int)[k] by {
                    let j = choose|j: int| 0 <= j < s.len() && s[j].0@ == k;
                    assert(active_entry_from(s[j], old_s, 0, now as int));
                    let idx = choose|idx: int|
                        0 <= idx < old_s.len() && s[j] == old_s[idx]
                            && !spec_expired(old_s[idx].1, now as int);
                    assert(m[old_s[idx].0@] == old_s[idx].1);
                    assert(entries_map(s)[s[j].0@] == s[j].1);
                }
            }
        }
        proof {
            lemma_entries_map(old_s);
            lemma_expired_count(old(self)@, now as int);
            assert(self@.dom() =~= active_tokens(old(self)@, now as int));
        }
        removed
    }

    /// Drops every session that has expired by the time of the call and returns how many
    /// were dropped.
    pub fn cleanup_expired(&mut self) -> (r: usize)
        requires
            old(self).wf(),
        ensures
            final(self).wf(),
            exists|now: int|
                0 <= now <= CLOCK_MAX_NANOS && final(self)@ == active_part(old(self)@, now) && r
                    == expired_tokens(old(self)@, now).len(),
            r == old(self)@.dom().len() - final(self)@.dom().len(),
            old(self)@.dom().finite(),
    {
        let now = now_nanos();
        self.cleanup_expired_at(now)
    }

    /// Number of sessions that have not expired at `now`.
    pub fn active_sessions_count_at(&self, now: i128) -> (r: usize)
        requires
            self.wf(),
        ensures
            r == active_tokens(self@, now as int).len(),
    {
        let ghost s = self.sessions@;
        let mut count: usize = 0;
        let mut i: usize = 0;
        while i < self.sessions.len()
            invariant
                s == self.sessions@,
                i <= s.len(),
                count == count_active(s.take(i as int), now as int),
                count <= i,
            decreases s.len() - i,
        {
            assert(s.take(i as int + 1).drop_last() =~= s.take(i as int));
            if !self.sessions[i].1.is_expired_at(now) {
                count = count + 1;
            }
            i = i + 1;
        }
        proof {
            assert(s.take(s.len() as int) =~= s);
            lemma_count_active(s, now as int);
        }
        count
    }

    /// Number of sessions that have not expired by the time of the call.
    pub fn active_sessions_count(&self) -> (r: usize)
        requires
            self.wf(),
        ensures
            exists|now: int| 0 <= now <= CLOCK_MAX_NANOS && r == active_tokens(self@, now).len(),
    {
        let now = now_nanos();
        self.active_sessions_count_at(now)
    }
}

impl Default for SessionManager {
    fn default() -> (r: SessionManager)
        ensures
            r.wf(),
            r@ == Map::<Seq<char>, SessionData>::empty(),
    {
        Self::new()
    }
}

/// What a session manager reads back after a write: after `add_session(token, s)` the
/// token names `s`, and every other token names what it named before; after
/// `remove_session(token)` the token names nothing and the others are untouched.
pub proof fn lemma_session_read_after_write(
    m: Map<Seq<char>, SessionData>,
    token: Seq<char>,
    s: SessionData,
    other: Seq<char>,
)
    requires
        other != token,
    ensures
        m.insert(token, s).dom().contains(token),
        m.insert(token, s)[token] == s,
        m.insert(token, s).dom().contains(other) == m.dom().contains(other),
        m.dom().contains(other) ==> m.insert(token, s)[other] == m[other],
        !m.remove(token).dom().contains(token),
        m.remove(token).dom().contains(other) == m.dom().contains(other),
        m.dom().contains(other) ==> m.remove(token)[other] == m[other],
{
}

/// Cleaning up at `now` keeps exactly the sessions that are still valid at `now`, unchanged,
/// so it changes neither which tokens are accepted at `now` nor how many sessions are active.
pub proof fn lemma_cleanup_keeps_valid(m: Map<Seq<char>, SessionData>, now: int, token: Seq<char>)
    requires
        m.dom().finite(),
    ensures
        token_valid(active_part(m, now), token, now) == token_valid(m, token, now),
        active_part(m, now).dom().contains(token) ==> active_part(m, now)[token] == m[token]
            && !spec_expired(m[token], now),
        active_tokens(active_part(m, now), now) == active_tokens(m, now),
        active_part(m, now).dom().len() == active_tokens(m, now).len(),
{
    let a = active_part(m, now);
    assert(a.dom() =~= active_tokens(m, now));
    assert(active_tokens(a, now) =~= active_tokens(m, now));
}

/// A session that started at or before `now` and lasts at least until `now` is accepted.
pub proof fn lemma_session_valid_until_expiry(m: Map<Seq<char>, SessionData>, token: Seq<char>, now: int)
    requires
        m.dom().contains(token),
        now <= m[token].expires_at,
    ensures
        token_valid(m, token, now),
{
}

} // verus!
