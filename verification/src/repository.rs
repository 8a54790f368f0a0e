//! The identity repository: a durable mapping from provider subject to
//! internal user record, with at most one user per subject.
//!
//! The capability is polymorphic — `{find_by_google_sub, create_user,
//! get_user}` over an abstract map model — so that a networked backing
//! store and the in-memory store below are interchangeable. The critical
//! property lives in `create_user`'s contract: an insert for an existing
//! subject is reported as a duplicate and changes nothing, so racing
//! first-logins converge to one record instead of erroring or forking.

use vstd::prelude::*;

use crate::errors::AuthError;
use crate::models::{GoogleUserInfo, NewUser, User};
use crate::strutil::str_eq;

verus! {

/// How a repository operation fails below the storage boundary.
#[derive(Debug, Clone, Copy, PartialEq, Eq, Structural)]
pub enum RepoError {
    /// The uniqueness constraint on the provider subject fired: a record
    /// for this subject already exists.
    Duplicate,
    /// The backing store itself failed.
    Backend,
}

/// Distinct subjects are linked to distinct internal ids.
pub open spec fn ids_injective(m: Map<Seq<char>, User>) -> bool {
    forall|s1: Seq<char>, s2: Seq<char>|
        #[trigger] m.contains_key(s1) && #[trigger] m.contains_key(s2) && s1 != s2 ==> m[s1].id
            != m[s2].id
}

/// Every record sits under its own subject key.
pub open spec fn subjects_consistent(m: Map<Seq<char>, User>) -> bool {
    forall|s: Seq<char>| #[trigger] m.contains_key(s) ==> m[s].google_sub@ == s
}

/// The repository capability: point lookup by subject, insert with the
/// uniqueness constraint, point lookup by internal id. Its state is
/// modelled as a map from provider subject to user record.
pub trait UserRepository: Sized {
    /// The subject-to-record map this repository currently holds.
    spec fn model(&self) -> Map<Seq<char>, User>;

    /// The repository's internal well-formedness.
    spec fn inv(&self) -> bool;

    /// Id uniqueness across subjects: a well-formed repository links
    /// pairwise distinct internal ids to distinct subjects, and every
    /// record sits under its own subject.
    proof fn inv_properties(&self)
        requires
            self.inv(),
        ensures
            ids_injective(self.model()),
            subjects_consistent(self.model()),
    ;

    /// Point lookup by provider subject; no side effect.
    fn find_by_google_sub(&self, sub: &str) -> (r: Result<Option<User>, RepoError>)
        requires
            self.inv(),
        ensures
            r matches Ok(opt) ==> opt == if self.model().contains_key(sub@) {
                Some(self.model()[sub@])
            } else {
                None::<User>
            },
            r matches Err(e) ==> e == RepoError::Backend,
    ;

    /// Inserts a new user with a fresh internal id, stamped with the
    /// creation instant `now`, enforcing the uniqueness constraint on the
    /// provider subject: an insert for a subject that already has a
    /// record reports `Duplicate` and changes nothing.
    fn create_user(&mut self, user: NewUser, now: u64) -> (r: Result<User, RepoError>)
        requires
            old(self).inv(),
        ensures
            final(self).inv(),
            r matches Ok(u) ==> !old(self).model().contains_key(user.google_sub@)
                && u.google_sub@ == user.google_sub@ && u.email@ == user.email@
                && u.created_at == now
                && final(self).model() == old(self).model().insert(user.google_sub@, u)
                && (forall|s: Seq<char>|
                #[trigger] old(self).model().contains_key(s) ==> old(self).model()[s].id != u.id),
            r matches Err(e) ==> final(self).model() == old(self).model() && (e
                == RepoError::Duplicate ==> old(self).model().contains_key(user.google_sub@)),
    ;

    /// Point lookup by internal id; no side effect.
    fn get_user(&self, user_id: u64) -> (r: Result<Option<User>, RepoError>)
        requires
            self.inv(),
        ensures
            r matches Ok(opt) ==> match opt {
                Some(u) => self.model().contains_key(u.google_sub@) && self.model()[u.google_sub@]
                    == u && u.id == user_id,
                None => forall|s: Seq<char>|
                    #[trigger] self.model().contains_key(s) ==> self.model()[s].id != user_id,
            },
            r matches Err(e) ==> e == RepoError::Backend,
    ;
}

/// What one create-or-resolve call does to the repository: on success the
/// returned record is the one the final state holds for the subject; an
/// already-linked subject is returned unchanged, a new subject is inserted
/// exactly once with an id no existing record carries; a failure leaves
/// the repository as it was.
pub open spec fn resolve_transition(
    pre: Map<Seq<char>, User>,
    post: Map<Seq<char>, User>,
    sub: Seq<char>,
    email: Seq<char>,
    now: u64,
    r: Result<User, AuthError>,
) -> bool {
    match r {
        Ok(u) => u.google_sub@ == sub && post.contains_key(sub) && post[sub] == u && (
        pre.contains_key(sub) ==> u == pre[sub] && post == pre) && (!pre.contains_key(sub)
            ==> u.email@ == email && u.created_at == now && post == pre.insert(sub, u) && (
        forall|s: Seq<char>| #[trigger] pre.contains_key(s) ==> pre[s].id != u.id)),
        Err(e) => post == pre && (e == AuthError::RepositoryLookupError || e
            == AuthError::RepositoryCreateError),
    }
}

/// Resolves the user a provider profile belongs to, creating the record on
/// first login. A duplicate report from the insert — another caller got
/// there first — falls back to the lookup and returns the existing record,
/// so concurrent first-logins for one subject converge to one user.
pub fn resolve_user<R: UserRepository>(repo: &mut R, info: GoogleUserInfo, now: u64) -> (r:
    Result<User, AuthError>)
    requires
        old(repo).inv(),
    ensures
        final(repo).inv(),
        resolve_transition(
            old(repo).model(),
            final(repo).model(),
            info.sub@,
            info.email@,
            now,
            r,
        ),
{
    proof {
        repo.inv_properties();
    }
    match repo.find_by_google_sub(info.sub.as_str()) {
        Err(_) => Err(AuthError::RepositoryLookupError),
        Ok(Some(u)) => Ok(u),
        Ok(None) => {
            let created = repo.create_user(
                NewUser { google_sub: info.sub.clone(), email: info.email.clone() },
                now,
            );
            match created {
                Ok(u) => Ok(u),
                Err(RepoError::Backend) => Err(AuthError::RepositoryCreateError),
                Err(RepoError::Duplicate) => {
                    match repo.find_by_google_sub(info.sub.as_str()) {
                        Ok(Some(u)) => Ok(u),
                        Ok(None) => Err(AuthError::RepositoryLookupError),
                        Err(_) => Err(AuthError::RepositoryLookupError),
                    }
                },
            }
        },
    }
}

/// Uniqueness under repeated resolution: two successive create-or-resolve
/// transitions for the same subject observe the same internal id, the
/// final state holds the first call's record for that subject, and no
/// other subject's record carries it.
pub proof fn lemma_resolve_converges(
    pre: Map<Seq<char>, User>,
    mid: Map<Seq<char>, User>,
    post: Map<Seq<char>, User>,
    sub: Seq<char>,
    e1: Seq<char>,
    e2: Seq<char>,
    n1: u64,
    n2: u64,
    r1: Result<User, AuthError>,
    r2: Result<User, AuthError>,
)
    requires
        subjects_consistent(pre),
        resolve_transition(pre, mid, sub, e1, n1, r1),
        resolve_transition(mid, post, sub, e2, n2, r2),
    ensures
        r1 matches Ok(u1) ==> r2 matches Ok(u2) ==> u1.id == u2.id && u1 == u2,
        r1 matches Ok(u1) ==> post.contains_key(sub) && post[sub] == u1,
        subjects_consistent(post),
        r1 matches Ok(u1) ==> forall|s: Seq<char>|
            #[trigger] post.contains_key(s) && post[s].google_sub@ == sub ==> s == sub,
{
    if r1 is Ok {
        let u1 = r1->Ok_0;
        assert(mid.contains_key(sub) && mid[sub] == u1);
    }
    assert(subjects_consistent(mid));
    assert(subjects_consistent(post));
}

/// A run of create-or-resolve calls for one subject: each step is a
/// resolve transition from one repository state to the next.
pub open spec fn resolve_chain(
    states: Seq<Map<Seq<char>, User>>,
    sub: Seq<char>,
    emails: Seq<Seq<char>>,
    nows: Seq<u64>,
    results: Seq<Result<User, AuthError>>,
) -> bool {
    &&& states.len() == results.len() + 1
    &&& emails.len() == results.len()
    &&& nows.len() == results.len()
    &&& forall|i: int|
        0 <= i < results.len() ==> resolve_transition(
            states[i],
            states[i + 1],
            sub,
            emails[i],
            nows[i],
            #[trigger] results[i],
        )
}

/// Once a subject is linked, every later state of the run holds it
/// unchanged: a transition for a present subject changes nothing.
proof fn lemma_chain_pinned(
    states: Seq<Map<Seq<char>, User>>,
    sub: Seq<char>,
    emails: Seq<Seq<char>>,
    nows: Seq<u64>,
    results: Seq<Result<User, AuthError>>,
    m: int,
    n: int,
)
    requires
        resolve_chain(states, sub, emails, nows, results),
        0 <= m <= n < states.len(),
        states[m].contains_key(sub),
    ensures
        states[n].contains_key(sub),
        states[n][sub] == states[m][sub],
    decreases n - m,
{
    if n > m {
        lemma_chain_pinned(states, sub, emails, nows, results, m, n - 1);
        assert(resolve_transition(
            states[n - 1],
            states[n],
            sub,
            emails[n - 1],
            nows[n - 1],
            results[n - 1],
        ));
    }
}

proof fn lemma_chain_consistent(
    states: Seq<Map<Seq<char>, User>>,
    sub: Seq<char>,
    emails: Seq<Seq<char>>,
    nows: Seq<u64>,
    results: Seq<Result<User, AuthError>>,
    n: int,
)
    requires
        resolve_chain(states, sub, emails, nows, results),
        subjects_consistent(states[0]),
        0 <= n < states.len(),
    ensures
        subjects_consistent(states[n]),
    decreases n,
{
    if n > 0 {
        lemma_chain_consistent(states, sub, emails, nows, results, n - 1);
        assert(resolve_transition(
            states[n - 1],
            states[n],
            sub,
            emails[n - 1],
            nows[n - 1],
            results[n - 1],
        ));
    }
}

/// Uniqueness under concurrency, for a whole run: however many
/// create-or-resolve calls for one subject run back to back, every
/// successful one observes the same internal id, and the final state
/// holds exactly one record for that subject.
pub proof fn lemma_resolve_chain_converges(
    states: Seq<Map<Seq<char>, User>>,
    sub: Seq<char>,
    emails: Seq<Seq<char>>,
    nows: Seq<u64>,
    results: Seq<Result<User, AuthError>>,
)
    requires
        resolve_chain(states, sub, emails, nows, results),
        subjects_consistent(states[0]),
    ensures
        forall|i: int, j: int|
            0 <= i < results.len() && 0 <= j < results.len() && #[trigger] results[i] is Ok
                && #[trigger] results[j] is Ok ==> results[i]->Ok_0.id == results[j]->Ok_0.id,
        forall|i: int|
            0 <= i < results.len() && #[trigger] results[i] is Ok ==> states.last().contains_key(
                sub,
            ) && states.last()[sub] == results[i]->Ok_0,
        subjects_consistent(states.last()),
        forall|s: Seq<char>|
            #[trigger] states.last().contains_key(s) && states.last()[s].google_sub@ == sub ==> s
                == sub,
{
    lemma_chain_consistent(states, sub, emails, nows, results, states.len() - 1);
    assert forall|i: int|
        0 <= i < results.len() && #[trigger] results[i] is Ok implies states.last().contains_key(
        sub,
    ) && states.last()[sub] == results[i]->Ok_0 by {
        assert(resolve_transition(
            states[i],
            states[i + 1],
            sub,
            emails[i],
            nows[i],
            results[i],
        ));
        lemma_chain_pinned(states, sub, emails, nows, results, i + 1, states.len() - 1);
    }
}

/// The in-memory repository: an association vector with strictly
/// increasing internal ids, the test-and-embedding counterpart of a
/// networked store.
pub struct MemoryUserRepository {
    users: Vec<User>,
    next_id: u64,
}

/// The map a user vector denotes: later entries shadow earlier ones,
/// which never happens under the store's invariant.
pub closed spec fn model_of(s: Seq<User>) -> Map<Seq<char>, User>
    decreases s.len(),
{
    if s.len() == 0 {
        Map::empty()
    } else {
        model_of(s.drop_last()).insert(s.last().google_sub@, s.last())
    }
}

/// A key is in the model exactly when some entry carries it, and it maps
/// to that entry when subjects are pairwise distinct.
proof fn lemma_model_of_contains(s: Seq<User>, k: Seq<char>)
    ensures
        model_of(s).contains_key(k) <==> exists|i: int|
            0 <= i < s.len() && #[trigger] s[i].google_sub@ == k,
    decreases s.len(),
{
    if s.len() > 0 {
        lemma_model_of_contains(s.drop_last(), k);
        if model_of(s).contains_key(k) {
            if s.last().google_sub@ == k {
                assert(s[s.len() - 1].google_sub@ == k);
            } else {
                let i = choose|i: int|
                    0 <= i < s.drop_last().len() && #[trigger] s.drop_last()[i].google_sub@ == k;
                assert(s[i].google_sub@ == k);
            }
        }
        if exists|i: int| 0 <= i < s.len() && #[trigger] s[i].google_sub@ == k {
            let i = choose|i: int| 0 <= i < s.len() && #[trigger] s[i].google_sub@ == k;
            if i < s.len() - 1 {
                assert(s.drop_last()[i].google_sub@ == k);
            }
        }
    }
}

proof fn lemma_model_of_lookup(s: Seq<User>, i: int)
    requires
        0 <= i < s.len(),
        forall|a: int, b: int|
            0 <= a < b < s.len() ==> #[trigger] s[a].google_sub@ != #[trigger] s[b].google_sub@,
    ensures
        model_of(s).contains_key(s[i].google_sub@),
        model_of(s)[s[i].google_sub@] == s[i],
    decreases s.len(),
{
    if i == s.len() - 1 {
        assert(s.last() == s[i]);
    } else {
        lemma_model_of_lookup(s.drop_last(), i);
        assert(s.drop_last()[i] == s[i]);
        assert(s.last().google_sub@ != s[i].google_sub@);
    }
}

impl MemoryUserRepository {
    /// An empty repository whose id counter starts at `1`.
    pub fn new() -> (r: Self)
        ensures
            r.inv(),
            r.can_insert(),
            r.model() == Map::<Seq<char>, User>::empty(),
    {
        MemoryUserRepository { users: Vec::new(), next_id: 1 }
    }

    /// Whether the id counter still has room for another record.
    pub closed spec fn can_insert(&self) -> bool {
        self.next_id < u64::MAX
    }

    spec fn wf(&self) -> bool {
        &&& forall|a: int, b: int|
            0 <= a < b < self.users@.len() ==> #[trigger] self.users@[a].google_sub@
                != #[trigger] self.users@[b].google_sub@
        &&& forall|a: int, b: int|
            0 <= a < b < self.users@.len() ==> #[trigger] self.users@[a].id
                < #[trigger] self.users@[b].id
        &&& forall|a: int|
            0 <= a < self.users@.len() ==> #[trigger] self.users@[a].id < self.next_id
    }

    /// Linear search by subject; the returned index carries the match.
    fn index_of_sub(&self, sub: &str) -> (r: Option<usize>)
        ensures
            r matches Some(i) ==> i < self.users@.len() && self.users@[i as int].google_sub@
                == sub@,
            r is None ==> forall|i: int|
                0 <= i < self.users@.len() ==> #[trigger] self.users@[i].google_sub@ != sub@,
    {
        let mut i: usize = 0;
        while i < self.users.len()
            invariant
                i <= self.users@.len(),
                forall|j: int| 0 <= j < i ==> #[trigger] self.users@[j].google_sub@ != sub@,
            decreases self.users@.len() - i,
        {
            if str_eq(self.users[i].google_sub.as_str(), sub) {
                return Some(i);
            }
            i = i + 1;
        }
        None
    }
}

impl UserRepository for MemoryUserRepository {
    closed spec fn model(&self) -> Map<Seq<char>, User> {
        model_of(self.users@)
    }

    closed spec fn inv(&self) -> bool {
        self.wf()
    }

    proof fn inv_properties(&self) {
        assert forall|s: Seq<char>| #[trigger]
            self.model().contains_key(s) implies self.model()[s].google_sub@ == s by {
            lemma_model_of_contains(self.users@, s);
            let i = choose|i: int|
                0 <= i < self.users@.len() && #[trigger] self.users@[i].google_sub@ == s;
            lemma_model_of_lookup(self.users@, i);
        }
        assert forall|s1: Seq<char>, s2: Seq<char>|
            #[trigger] self.model().contains_key(s1) && #[trigger] self.model().contains_key(s2)
                && s1 != s2 implies self.model()[s1].id != self.model()[s2].id by {
            lemma_model_of_contains(self.users@, s1);
            lemma_model_of_contains(self.users@, s2);
            let i1 = choose|i: int|
                0 <= i < self.users@.len() && #[trigger] self.users@[i].google_sub@ == s1;
            let i2 = choose|i: int|
                0 <= i < self.users@.len() && #[trigger] self.users@[i].google_sub@ == s2;
            lemma_model_of_lookup(self.users@, i1);
            lemma_model_of_lookup(self.users@, i2);
        }
    }

    fn find_by_google_sub(&self, sub: &str) -> (r: Result<Option<User>, RepoError>)
        ensures
            r is Ok,
    {
        proof {
            lemma_model_of_contains(self.users@, sub@);
        }
        match self.index_of_sub(sub) {
            Some(i) => {
                proof {
                    lemma_model_of_lookup(self.users@, i as int);
                }
                Ok(Some(self.users[i].clone()))
            },
            None => Ok(None),
        }
    }

    fn create_user(&mut self, user: NewUser, now: u64) -> (r: Result<User, RepoError>)
        ensures
            old(self).model().contains_key(user.google_sub@) ==> r == Err::<User, RepoError>(
                RepoError::Duplicate,
            ),
            !old(self).model().contains_key(user.google_sub@) && old(self).can_insert() ==> r
                is Ok,
    {
        proof {
            lemma_model_of_contains(self.users@, user.google_sub@);
        }
        match self.index_of_sub(user.google_sub.as_str()) {
            Some(i) => {
                proof {
                    lemma_model_of_lookup(self.users@, i as int);
                }
                Err(RepoError::Duplicate)
            },
            None => {
                if self.next_id == u64::MAX {
                    return Err(RepoError::Backend);
                }
                let u = User {
                    id: self.next_id,
                    google_sub: user.google_sub,
                    email: user.email,
                    created_at: now,
                };
                let result = u.clone();
                self.users.push(u);
                self.next_id = self.next_id + 1;
                proof {
                    assert(self.users@.drop_last() =~= old(self).users@);
                    assert forall|s: Seq<char>| #[trigger]
                        old(self).model().contains_key(s) implies old(self).model()[s].id
                        != result.id by {
                        lemma_model_of_contains(old(self).users@, s);
                        let i = choose|i: int|
                            0 <= i < old(self).users@.len() && #[trigger] old(
                                self,
                            ).users@[i].google_sub@ == s;
                        lemma_model_of_lookup(old(self).users@, i);
                    }
                }
                Ok(result)
            },
        }
    }

    fn get_user(&self, user_id: u64) -> (r: Result<Option<User>, RepoError>)
        ensures
            r is Ok,
    {
        let mut i: usize = 0;
        while i < self.users.len()
            invariant
                self.wf(),
                i <= self.users@.len(),
                forall|j: int| 0 <= j < i ==> #[trigger] self.users@[j].id != user_id,
            decreases self.users@.len() - i,
        {
            if self.users[i].id == user_id {
                proof {
                    lemma_model_of_lookup(self.users@, i as int);
                }
                return Ok(Some(self.users[i].clone()));
            }
            i = i + 1;
        }
        proof {
            assert forall|s: Seq<char>| #[trigger]
                self.model().contains_key(s) implies self.model()[s].id != user_id by {
                lemma_model_of_contains(self.users@, s);
                let j = choose|j: int|
                    0 <= j < self.users@.len() && #[trigger] self.users@[j].google_sub@ == s;
                lemma_model_of_lookup(self.users@, j);
            }
        }
        Ok(None)
    }
}

} // verus!
