//! The session store: a TTL-bound mapping from an opaque random handle to
//! the owning user id, independent of the bearer credential.
//!
//! Expiry is judged against the instant a caller passes in, mirroring a
//! backing store's TTL semantics: an expired handle and a handle that was
//! never issued are indistinguishable on lookup, by design.

use vstd::prelude::*;

verus! {

/// How long a session stays restorable, in seconds.
pub const SESSION_TTL_SECONDS: u64 = 86400;

/// One issued session: handle, owner, and the instant it expires.
#[derive(Debug)]
pub struct SessionEntry {
    pub handle: String,
    pub user_id: u64,
    pub expires_at: u64,
}

/// What restoring `h` at instant `now` yields over the store model `m`:
/// the owning user id while the handle is live, absence otherwise —
/// whether the handle expired or never existed.
pub open spec fn restore_of(m: Map<Seq<char>, (u64, u64)>, h: Seq<char>, now: u64) -> Option<
    u64,
> {
    if m.contains_key(h) && now < m[h].1 {
        Some(m[h].0)
    } else {
        None
    }
}

/// The map a session log denotes; a re-issued handle is shadowed by the
/// later entry, as an overwriting store would behave.
pub closed spec fn session_model_of(s: Seq<SessionEntry>) -> Map<Seq<char>, (u64, u64)>
    decreases s.len(),
{
    if s.len() == 0 {
        Map::empty()
    } else {
        session_model_of(s.drop_last()).insert(
            s.last().handle@,
            (s.last().user_id, s.last().expires_at),
        )
    }
}

proof fn lemma_session_model_contains(s: Seq<SessionEntry>, k: Seq<char>)
    ensures
        session_model_of(s).contains_key(k) <==> exists|i: int|
            0 <= i < s.len() && #[trigger] s[i].handle@ == k,
    decreases s.len(),
{
    if s.len() > 0 {
        lemma_session_model_contains(s.drop_last(), k);
        if session_model_of(s).contains_key(k) && s.last().handle@ != k {
            let i = choose|i: int|
                0 <= i < s.drop_last().len() && #[trigger] s.drop_last()[i].handle@ == k;
            assert(s[i].handle@ == k);
        }
        if exists|i: int| 0 <= i < s.len() && #[trigger] s[i].handle@ == k {
            let i = choose|i: int| 0 <= i < s.len() && #[trigger] s[i].handle@ == k;
            if i < s.len() - 1 {
                assert(s.drop_last()[i].handle@ == k);
            }
        }
    }
}

/// The model maps a handle to the last entry that carries it.
proof fn lemma_session_model_last(s: Seq<SessionEntry>, i: int)
    requires
        0 <= i < s.len(),
        forall|j: int| i < j < s.len() ==> #[trigger] s[j].handle@ != s[i].handle@,
    ensures
        session_model_of(s).contains_key(s[i].handle@),
        session_model_of(s)[s[i].handle@] == (s[i].user_id, s[i].expires_at),
    decreases s.len(),
{
    if i == s.len() - 1 {
        assert(s.last() == s[i]);
    } else {
        assert(s.last().handle@ != s[i].handle@);
        assert(s.drop_last()[i] == s[i]);
        assert(forall|j: int|
            i < j < s.drop_last().len() ==> #[trigger] s.drop_last()[j].handle@ != s[i].handle@);
        lemma_session_model_last(s.drop_last(), i);
    }
}

/// Relies on `uuid::Uuid::new_v4` and its `Display` form: a random
/// version-4 UUID rendered as the 36-character hyphenated string. The
/// value is random; only its length is assumed.
#[verifier::external_body]
fn fresh_handle() -> (r: String)
    ensures
        r@.len() == 36,
{
    uuid::Uuid::new_v4().to_string()
}

/// The in-memory session store: an append-only log of issued sessions,
/// read through the shadowing map model above.
pub struct MemorySessionStore {
    entries: Vec<SessionEntry>,
}

impl MemorySessionStore {
    /// An empty store.
    pub fn new() -> (r: Self)
        ensures
            r.model() == Map::<Seq<char>, (u64, u64)>::empty(),
    {
        MemorySessionStore { entries: Vec::new() }
    }

    /// The handle-to-(owner, expiry) map this store currently holds.
    pub closed spec fn model(&self) -> Map<Seq<char>, (u64, u64)> {
        session_model_of(self.entries@)
    }

    /// Generates a fresh random handle, associates it with `user_id`, and
    /// sets the fixed expiry of one day past `now`.
    pub fn create_session(&mut self, user_id: u64, now: u64) -> (r: String)
        requires
            now <= u64::MAX - SESSION_TTL_SECONDS,
        ensures
            r@.len() == 36,
            final(self).model() == old(self).model().insert(
                r@,
                (user_id, (now + SESSION_TTL_SECONDS) as u64),
            ),
    {
        let handle = fresh_handle();
        let entry = SessionEntry {
            handle: handle.clone(),
            user_id,
            expires_at: now + SESSION_TTL_SECONDS,
        };
        self.entries.push(entry);
        proof {
            assert(self.entries@.drop_last() =~= old(self).entries@);
        }
        handle
    }

    /// Returns the owning user id if the handle exists and has not
    /// expired by `now`; absent otherwise. Expired and never-issued
    /// handles are indistinguishable.
    pub fn restore_session(&self, session_id: &str, now: u64) -> (r: Option<u64>)
        ensures
            r == restore_of(self.model(), session_id@, now),
    {
        let mut i: usize = self.entries.len();
        while i > 0
            invariant
                i <= self.entries@.len(),
                forall|j: int|
                    i <= j < self.entries@.len() ==> #[trigger] self.entries@[j].handle@
                        != session_id@,
            decreases i,
        {
            i = i - 1;
            if crate::strutil::str_eq(self.entries[i].handle.as_str(), session_id) {
                proof {
                    lemma_session_model_last(self.entries@, i as int);
                }
                if now < self.entries[i].expires_at {
                    return Some(self.entries[i].user_id);
                } else {
                    return None;
                }
            }
        }
        proof {
            lemma_session_model_contains(self.entries@, session_id@);
        }
        None
    }
}

/// Session round-trip: restoring the very handle a creation installed
/// yields the owning user id at any instant within its TTL.
pub proof fn lemma_session_round_trip(
    m: Map<Seq<char>, (u64, u64)>,
    h: Seq<char>,
    user_id: u64,
    now: u64,
    later: u64,
)
    requires
        now <= u64::MAX - SESSION_TTL_SECONDS,
        later < now + SESSION_TTL_SECONDS,
    ensures
        restore_of(m.insert(h, (user_id, (now + SESSION_TTL_SECONDS) as u64)), h, later) == Some(
            user_id,
        ),
{
}

/// Session miss is uniform: a handle that was never issued and a handle
/// whose expiry has passed restore to the same absent outcome — nothing
/// distinguishes them.
pub proof fn lemma_session_miss_uniform(
    m: Map<Seq<char>, (u64, u64)>,
    never_issued: Seq<char>,
    expired: Seq<char>,
    now: u64,
)
    requires
        !m.contains_key(never_issued),
        m.contains_key(expired),
        m[expired].1 <= now,
    ensures
        restore_of(m, never_issued, now) == None::<u64>,
        restore_of(m, expired, now) == None::<u64>,
        restore_of(m, never_issued, now) == restore_of(m, expired, now),
{
}

} // verus!
