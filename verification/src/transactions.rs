//! The transaction ledger: status codes, record shapes, and the keyed
//! in-memory store the simple service runs on.

use vstd::prelude::*;

verus! {

/// The ledger service's configuration.
#[derive(Debug, Clone)]
pub struct Settings {
    pub server_addr: String,
    pub database_url: String,
}

/// Lifecycle state of a transaction.
#[derive(Debug, Clone, Copy, PartialEq, Eq, Structural)]
pub enum TransactionStatus {
    Pending,
    Confirmed,
    Failed,
}

impl TransactionStatus {
    /// The wire code of this status.
    pub fn as_str(&self) -> (r: &'static str)
        ensures
            r@ == self.as_str_spec(),
    {
        match self {
            TransactionStatus::Pending => "pending",
            TransactionStatus::Confirmed => "confirmed",
            TransactionStatus::Failed => "failed",
        }
    }

    pub open spec fn as_str_spec(self) -> Seq<char> {
        match self {
            TransactionStatus::Pending => "pending"@,
            TransactionStatus::Confirmed => "confirmed"@,
            TransactionStatus::Failed => "failed"@,
        }
    }

    /// Reads a status back from its wire code; anything unrecognized is
    /// `Pending`, as the stored default.
    pub fn from_str(value: &str) -> (r: Self)
        ensures
            r == Self::from_str_spec(value@),
    {
        if crate::strutil::str_eq(value, "confirmed") {
            TransactionStatus::Confirmed
        } else if crate::strutil::str_eq(value, "failed") {
            TransactionStatus::Failed
        } else {
            TransactionStatus::Pending
        }
    }

    pub open spec fn from_str_spec(v: Seq<char>) -> Self {
        if v == "confirmed"@ {
            TransactionStatus::Confirmed
        } else if v == "failed"@ {
            TransactionStatus::Failed
        } else {
            TransactionStatus::Pending
        }
    }
}

/// Status round-trip: reading a status's own wire code back yields the
/// status, for every status.
pub proof fn lemma_status_round_trip(s: TransactionStatus)
    ensures
        TransactionStatus::from_str_spec(s.as_str_spec()) == s,
{
    reveal_strlit("pending");
    reveal_strlit("confirmed");
    reveal_strlit("failed");
    assert("pending"@.len() == 7);
    assert("confirmed"@.len() == 9);
    assert("failed"@.len() == 6);
}

/// One ledger entry. Times are seconds since the epoch; the optional
/// fields are populated only by richer embeddings.
#[derive(Debug)]
pub struct TransactionRecord {
    pub id: u64,
    pub user_id: u64,
    pub amount: String,
    pub to_address: String,
    pub from_address: Option<String>,
    pub token_symbol: Option<String>,
    pub tx_hash: Option<String>,
    pub status: TransactionStatus,
    pub created_at: u64,
    pub updated_at: u64,
}

fn clone_opt_string(o: &Option<String>) -> (r: Option<String>)
    ensures
        r == *o,
{
    match o {
        Some(s) => Some(s.clone()),
        None => None,
    }
}

impl Clone for TransactionRecord {
    /// A field-for-field copy.
    fn clone(&self) -> (r: Self)
        ensures
            r == *self,
    {
        TransactionRecord {
            id: self.id,
            user_id: self.user_id,
            amount: self.amount.clone(),
            to_address: self.to_address.clone(),
            from_address: clone_opt_string(&self.from_address),
            token_symbol: clone_opt_string(&self.token_symbol),
            tx_hash: clone_opt_string(&self.tx_hash),
            status: self.status,
            created_at: self.created_at,
            updated_at: self.updated_at,
        }
    }
}

/// What a caller supplies to record a transaction.
#[derive(Debug)]
pub struct CreateTransactionRequest {
    pub user_id: u64,
    pub amount: String,
    pub to_address: String,
}

/// What a caller supplies to update one: the new status.
#[derive(Debug)]
pub struct UpdateTransactionRequest {
    pub status: TransactionStatus,
}

/// The record a creation request denotes, entered under `id` at `now`:
/// pending, with both timestamps at the creation instant and the optional
/// fields empty.
pub open spec fn new_record_spec(req: CreateTransactionRequest, id: u64, now: u64)
    -> TransactionRecord {
    TransactionRecord {
        id,
        user_id: req.user_id,
        amount: req.amount,
        to_address: req.to_address,
        from_address: None,
        token_symbol: None,
        tx_hash: None,
        status: TransactionStatus::Pending,
        created_at: now,
        updated_at: now,
    }
}

/// Builds the ledger entry for a creation request. The caller provides
/// the freshly drawn id and the clock reading.
pub fn build_transaction(req: CreateTransactionRequest, id: u64, now: u64) -> (r:
    TransactionRecord)
    ensures
        r == new_record_spec(req, id, now),
{
    TransactionRecord {
        id,
        user_id: req.user_id,
        amount: req.amount,
        to_address: req.to_address,
        from_address: None,
        token_symbol: None,
        tx_hash: None,
        status: TransactionStatus::Pending,
        created_at: now,
        updated_at: now,
    }
}

/// The id-to-record map a ledger log denotes; a re-used id is shadowed by
/// the later entry, as a keyed store would overwrite.
pub closed spec fn ledger_model_of(s: Seq<TransactionRecord>) -> Map<u64, TransactionRecord>
    decreases s.len(),
{
    if s.len() == 0 {
        Map::empty()
    } else {
        ledger_model_of(s.drop_last()).insert(s.last().id, s.last())
    }
}

proof fn lemma_ledger_model_contains(s: Seq<TransactionRecord>, k: u64)
    ensures
        ledger_model_of(s).contains_key(k) <==> exists|i: int|
            0 <= i < s.len() && #[trigger] s[i].id == k,
    decreases s.len(),
{
    if s.len() > 0 {
        lemma_ledger_model_contains(s.drop_last(), k);
        if ledger_model_of(s).contains_key(k) && s.last().id != k {
            let i = choose|i: int| 0 <= i < s.drop_last().len() && #[trigger] s.drop_last()[i].id
                == k;
            assert(s[i].id == k);
        }
        if exists|i: int| 0 <= i < s.len() && #[trigger] s[i].id == k {
            let i = choose|i: int| 0 <= i < s.len() && #[trigger] s[i].id == k;
            if i < s.len() - 1 {
                assert(s.drop_last()[i].id == k);
            }
        }
    }
}

proof fn lemma_ledger_model_last(s: Seq<TransactionRecord>, i: int)
    requires
        0 <= i < s.len(),
        forall|j: int| i < j < s.len() ==> #[trigger] s[j].id != s[i].id,
    ensures
        ledger_model_of(s).contains_key(s[i].id),
        ledger_model_of(s)[s[i].id] == s[i],
    decreases s.len(),
{
    if i == s.len() - 1 {
        assert(s.last() == s[i]);
    } else {
        assert(s.last().id != s[i].id);
        assert(s.drop_last()[i] == s[i]);
        assert(forall|j: int|
            i < j < s.drop_last().len() ==> #[trigger] s.drop_last()[j].id != s[i].id);
        lemma_ledger_model_last(s.drop_last(), i);
    }
}

/// `r` with its status set and its update instant stamped.
pub open spec fn updated_record_spec(
    r: TransactionRecord,
    status: TransactionStatus,
    now: u64,
) -> TransactionRecord {
    TransactionRecord {
        id: r.id,
        user_id: r.user_id,
        amount: r.amount,
        to_address: r.to_address,
        from_address: r.from_address,
        token_symbol: r.token_symbol,
        tx_hash: r.tx_hash,
        status,
        created_at: r.created_at,
        updated_at: now,
    }
}

/// No later entry shadows the entry at `n`.
pub open spec fn live_at(s: Seq<TransactionRecord>, n: int) -> bool {
    forall|j: int| n < j < s.len() ==> #[trigger] s[j].id != s[n].id
}

/// Every id that occurs in the log occurs at a live position.
proof fn lemma_exists_live(s: Seq<TransactionRecord>, k: u64)
    requires
        exists|i: int| 0 <= i < s.len() && #[trigger] s[i].id == k,
    ensures
        exists|n: int| 0 <= n < s.len() && #[trigger] s[n].id == k && live_at(s, n),
    decreases s.len(),
{
    if s.last().id == k {
        let n = s.len() - 1;
        assert(s[n].id == k && live_at(s, n));
    } else {
        let i = choose|i: int| 0 <= i < s.len() && #[trigger] s[i].id == k;
        assert(s.drop_last()[i].id == k);
        lemma_exists_live(s.drop_last(), k);
        let n = choose|n: int|
            0 <= n < s.drop_last().len() && #[trigger] s.drop_last()[n].id == k && live_at(
                s.drop_last(),
                n,
            );
        assert forall|j: int| n < j < s.len() implies #[trigger] s[j].id != s[n].id by {
            if j < s.len() - 1 {
                assert(s[j] == s.drop_last()[j]);
            } else {
                assert(s[j] == s.last());
            }
            assert(s[n] == s.drop_last()[n]);
        }
        assert(s[n].id == k && live_at(s, n));
    }
}

/// The in-memory ledger: an append-only log read through the shadowing
/// map model above.
pub struct TransactionStore {
    records: Vec<TransactionRecord>,
}

impl TransactionStore {
    /// An empty ledger.
    pub fn new() -> (r: Self)
        ensures
            r.model() == Map::<u64, TransactionRecord>::empty(),
    {
        TransactionStore { records: Vec::new() }
    }

    /// The id-to-record map this ledger currently holds.
    pub closed spec fn model(&self) -> Map<u64, TransactionRecord> {
        ledger_model_of(self.records@)
    }

    /// Finds the index of the live (latest) entry for `id`.
    fn index_of_live(&self, id: u64) -> (r: Option<usize>)
        ensures
            r matches Some(i) ==> i < self.records@.len() && self.records@[i as int].id == id && (
            forall|j: int|
                i < j < self.records@.len() ==> #[trigger] self.records@[j].id != id),
            r is None ==> forall|j: int|
                0 <= j < self.records@.len() ==> #[trigger] self.records@[j].id != id,
    {
        let mut i: usize = self.records.len();
        while i > 0
            invariant
                i <= self.records@.len(),
                forall|j: int|
                    i <= j < self.records@.len() ==> #[trigger] self.records@[j].id != id,
            decreases i,
        {
            i = i - 1;
            if self.records[i].id == id {
                return Some(i);
            }
        }
        None
    }

    /// Whether no later entry shadows the entry at `i`.
    fn check_live(&self, i: usize) -> (r: bool)
        requires
            i < self.records@.len(),
        ensures
            r == live_at(self.records@, i as int),
    {
        let len = self.records.len();
        let mut j: usize = i + 1;
        while j < len
            invariant
                len == self.records@.len(),
                i < j <= self.records@.len(),
                forall|m: int|
                    i < m < j ==> #[trigger] self.records@[m].id != self.records@[i as int].id,
            decreases self.records@.len() - j,
        {
            if self.records[j].id == self.records[i].id {
                assert(!live_at(self.records@, i as int));
                return false;
            }
            j = j + 1;
        }
        true
    }

    /// Enters a new pending transaction under the caller-drawn `id` at
    /// instant `now` and returns the stored record.
    pub fn record_transaction(&mut self, request: CreateTransactionRequest, id: u64, now: u64)
        -> (r: TransactionRecord)
        ensures
            r == new_record_spec(request, id, now),
            final(self).model() == old(self).model().insert(id, r),
    {
        let record = TransactionRecord {
            id,
            user_id: request.user_id,
            amount: request.amount,
            to_address: request.to_address,
            from_address: None,
            token_symbol: None,
            tx_hash: None,
            status: TransactionStatus::Pending,
            created_at: now,
            updated_at: now,
        };
        let result = record.clone();
        self.records.push(record);
        proof {
            assert(self.records@.drop_last() =~= old(self).records@);
        }
        result
    }

    /// Sets the status of the transaction `id` at instant `now`,
    /// returning the updated record; absent ids are left alone.
    pub fn update_status(&mut self, id: u64, status: TransactionStatus, now: u64) -> (r: Option<
        TransactionRecord,
    >)
        ensures
            match r {
                Some(rec) => old(self).model().contains_key(id) && rec == updated_record_spec(
                    old(self).model()[id],
                    status,
                    now,
                ) && final(self).model() == old(self).model().insert(id, rec),
                None => !old(self).model().contains_key(id) && final(self).model() == old(
                    self,
                ).model(),
            },
    {
        proof {
            lemma_ledger_model_contains(self.records@, id);
        }
        match self.index_of_live(id) {
            None => None,
            Some(i) => {
                proof {
                    lemma_ledger_model_last(self.records@, i as int);
                }
                let mut updated = self.records[i].clone();
                updated.status = status;
                updated.updated_at = now;
                let result = updated.clone();
                self.records.push(updated);
                proof {
                    assert(self.records@.drop_last() =~= old(self).records@);
                }
                Some(result)
            },
        }
    }

    /// Point lookup by transaction id.
    pub fn get_transaction(&self, id: u64) -> (r: Option<TransactionRecord>)
        ensures
            r == if self.model().contains_key(id) {
                Some(self.model()[id])
            } else {
                None::<TransactionRecord>
            },
    {
        proof {
            lemma_ledger_model_contains(self.records@, id);
        }
        match self.index_of_live(id) {
            None => None,
            Some(i) => {
                proof {
                    lemma_ledger_model_last(self.records@, i as int);
                }
                Some(self.records[i].clone())
            },
        }
    }

    /// Every live record owned by `user_id`, one per id.
    pub fn list_by_user(&self, user_id: u64) -> (r: Vec<TransactionRecord>)
        ensures
            forall|j: int|
                0 <= j < r@.len() ==> #[trigger] r@[j].user_id == user_id && self.model(
                ).contains_key(r@[j].id) && self.model()[r@[j].id] == r@[j],
            forall|k: u64|
                self.model().contains_key(k) && #[trigger] self.model()[k].user_id == user_id
                    ==> exists|j: int| 0 <= j < r@.len() && #[trigger] r@[j].id == k,
    {
        let mut out: Vec<TransactionRecord> = Vec::new();
        let mut i: usize = 0;
        while i < self.records.len()
            invariant
                i <= self.records@.len(),
                forall|j: int|
                    0 <= j < out@.len() ==> #[trigger] out@[j].user_id == user_id && self.model(
                    ).contains_key(out@[j].id) && self.model()[out@[j].id] == out@[j],
                forall|n: int|
                    0 <= n < i && #[trigger] live_at(self.records@, n)
                        && self.records@[n].user_id == user_id ==> exists|j: int|
                        0 <= j < out@.len() && #[trigger] out@[j].id == self.records@[n].id,
            decreases self.records@.len() - i,
        {
            let is_live = self.check_live(i);
            if is_live && self.records[i].user_id == user_id {
                proof {
                    lemma_ledger_model_last(self.records@, i as int);
                }
                let ghost prev = out@;
                out.push(self.records[i].clone());
                proof {
                    assert forall|n: int|
                        0 <= n <= i && live_at(self.records@, n) && self.records@[n].user_id
                            == user_id implies exists|j: int|
                        0 <= j < out@.len() && #[trigger] out@[j].id == self.records@[n].id by {
                        if n == i {
                            assert(out@[out@.len() - 1].id == self.records@[i as int].id);
                        } else {
                            let oj = choose|j: int|
                                0 <= j < prev.len() && #[trigger] prev[j].id
                                    == self.records@[n].id;
                            assert(out@[oj].id == self.records@[n].id);
                        }
                    }
                }
            }
            i = i + 1;
        }
        proof {
            assert forall|k: u64|
                self.model().contains_key(k) && #[trigger] self.model()[k].user_id
                    == user_id implies exists|j: int| 0 <= j < out@.len() && #[trigger] out@[j].id
                == k by {
                lemma_ledger_model_contains(self.records@, k);
                lemma_exists_live(self.records@, k);
                let n = choose|n: int|
                    0 <= n < self.records@.len() && #[trigger] self.records@[n].id == k && live_at(
                        self.records@,
                        n,
                    );
                lemma_ledger_model_last(self.records@, n);
            }
        }
        out
    }
}

} // verus!
