//! The business-card versioning service: every card is a chronological
//! chain of immutable versions, numbered from one.

use vstd::prelude::*;

verus! {

/// The mutable face of a card.
#[derive(Debug)]
pub struct BusinessCardData {
    pub name: String,
    pub title: String,
    pub company: String,
    pub email: String,
}

impl Clone for BusinessCardData {
    /// A field-for-field copy.
    fn clone(&self) -> (r: Self)
        ensures
            r == *self,
    {
        BusinessCardData {
            name: self.name.clone(),
            title: self.title.clone(),
            company: self.company.clone(),
            email: self.email.clone(),
        }
    }
}

/// One immutable version of a card.
#[derive(Debug)]
pub struct BusinessCardVersion {
    pub id: u64,
    pub card_id: u64,
    pub data: BusinessCardData,
    pub version: u32,
    pub created_at: u64,
}

impl Clone for BusinessCardVersion {
    /// A field-for-field copy.
    fn clone(&self) -> (r: Self)
        ensures
            r == *self,
    {
        BusinessCardVersion {
            id: self.id,
            card_id: self.card_id,
            data: self.data.clone(),
            version: self.version,
            created_at: self.created_at,
        }
    }
}

/// What a caller supplies to create a card.
#[derive(Debug)]
pub struct CreateCardRequest {
    pub data: BusinessCardData,
}

/// What a caller supplies to append a version.
#[derive(Debug)]
pub struct UpdateCardRequest {
    pub data: BusinessCardData,
}

/// How many versions of card `c` the log holds.
pub open spec fn count_card(s: Seq<BusinessCardVersion>, c: u64) -> nat
    decreases s.len(),
{
    if s.len() == 0 {
        0
    } else {
        count_card(s.drop_last(), c) + if s.last().card_id == c {
            1nat
        } else {
            0nat
        }
    }
}

/// The versions of card `c`, in chronological order.
pub open spec fn history_of(s: Seq<BusinessCardVersion>, c: u64) -> Seq<BusinessCardVersion>
    decreases s.len(),
{
    if s.len() == 0 {
        Seq::empty()
    } else if s.last().card_id == c {
        history_of(s.drop_last(), c).push(s.last())
    } else {
        history_of(s.drop_last(), c)
    }
}

proof fn lemma_history_numbering_seq(s: Seq<BusinessCardVersion>, c: u64)
    requires
        forall|i: int|
            0 <= i < s.len() ==> (#[trigger] s[i].version) as nat == count_card(
                s.take(i),
                s[i].card_id,
            ) + 1,
    ensures
        history_of(s, c).len() == count_card(s, c),
        forall|k: int|
            0 <= k < history_of(s, c).len() ==> (#[trigger] history_of(s, c)[k].version) as int
                == k + 1,
    decreases s.len(),
{
    if s.len() > 0 {
        let prev = s.drop_last();
        assert forall|i: int|
            0 <= i < prev.len() implies (#[trigger] prev[i].version) as nat == count_card(
            prev.take(i),
            prev[i].card_id,
        ) + 1 by {
            assert(prev.take(i) =~= s.take(i));
            assert(prev[i] == s[i]);
        }
        lemma_history_numbering_seq(prev, c);
        if s.last().card_id == c {
            assert(s.take(s.len() - 1) =~= prev);
            assert(s[s.len() - 1] == s.last());
            assert(s.last().version as nat == count_card(prev, c) + 1);
            let h = history_of(s, c);
            let hp = history_of(prev, c);
            assert(h == hp.push(s.last()));
            assert forall|k: int|
                0 <= k < h.len() implies (#[trigger] h[k].version) as int == k + 1 by {
                if k < hp.len() {
                    assert(h[k] == hp[k]);
                } else {
                    assert(h[k] == s.last());
                }
            }
        }
    }
}

/// The version store: an append-only log of card versions. Its invariant
/// numbers each entry one past the count of its card's earlier versions.
pub struct BusinessCardStore {
    versions: Vec<BusinessCardVersion>,
}

impl BusinessCardStore {
    spec fn wf(&self) -> bool {
        forall|i: int|
            0 <= i < self.versions@.len() ==> (#[trigger] self.versions@[i].version) as nat
                == count_card(self.versions@.take(i), self.versions@[i].card_id) + 1
    }

    /// The full chronological log.
    pub closed spec fn log(&self) -> Seq<BusinessCardVersion> {
        self.versions@
    }

    /// The store's numbering invariant.
    pub closed spec fn inv(&self) -> bool {
        self.wf()
    }

    /// An empty store.
    pub fn new() -> (r: Self)
        ensures
            r.inv(),
            r.log() == Seq::<BusinessCardVersion>::empty(),
    {
        BusinessCardStore { versions: Vec::new() }
    }

    /// Counts the versions card `card_id` has.
    fn count_versions(&self, card_id: u64) -> (r: usize)
        ensures
            r as nat == count_card(self.versions@, card_id),
    {
        let mut count: usize = 0;
        let mut i: usize = 0;
        while i < self.versions.len()
            invariant
                i <= self.versions@.len(),
                count <= i,
                count as nat == count_card(self.versions@.take(i as int), card_id),
            decreases self.versions@.len() - i,
        {
            proof {
                assert(self.versions@.take(i + 1).drop_last() =~= self.versions@.take(i as int));
                assert(self.versions@.take(i + 1).last() == self.versions@[i as int]);
            }
            if self.versions[i].card_id == card_id {
                count = count + 1;
            }
            i = i + 1;
        }
        proof {
            assert(self.versions@.take(self.versions@.len() as int) =~= self.versions@);
        }
        count
    }

    /// Creates a card under the caller-drawn fresh `card_id`: its first
    /// version, numbered one.
    pub fn create_card(&mut self, data: BusinessCardData, card_id: u64, version_id: u64, now: u64)
        -> (r: BusinessCardVersion)
        requires
            old(self).inv(),
            count_card(old(self).log(), card_id) == 0,
        ensures
            final(self).inv(),
            r.id == version_id && r.card_id == card_id && r.data == data && r.version == 1
                && r.created_at == now,
            final(self).log() == old(self).log().push(r),
    {
        let version = BusinessCardVersion { id: version_id, card_id, data, version: 1, created_at: now };
        let result = version.clone();
        self.versions.push(version);
        proof {
            self.lemma_push_preserves_wf(old(self).versions@, result);
        }
        result
    }

    /// Appends a version to an existing card, numbering it one past the
    /// count so far; absent cards (and a version counter that would no
    /// longer fit its width) are left alone.
    pub fn update_card(&mut self, card_id: u64, data: BusinessCardData, version_id: u64, now: u64)
        -> (r: Option<BusinessCardVersion>)
        requires
            old(self).inv(),
        ensures
            final(self).inv(),
            r matches Some(v) ==> count_card(old(self).log(), card_id) > 0 && v.id == version_id
                && v.card_id == card_id && v.data == data && v.version as nat == count_card(
                old(self).log(),
                card_id,
            ) + 1 && v.created_at == now && final(self).log() == old(self).log().push(v),
            r is None ==> final(self).log() == old(self).log() && (count_card(
                old(self).log(),
                card_id,
            ) == 0 || count_card(old(self).log(), card_id) + 1 > u32::MAX),
    {
        let count = self.count_versions(card_id);
        if count == 0 {
            return None;
        }
        if count >= u32::MAX as usize {
            return None;
        }
        let version = BusinessCardVersion {
            id: version_id,
            card_id,
            data,
            version: (count as u32) + 1,
            created_at: now,
        };
        let result = version.clone();
        self.versions.push(version);
        proof {
            self.lemma_push_preserves_wf(old(self).versions@, result);
        }
        Some(result)
    }

    /// The chronological history of a card; empty when it was never
    /// created.
    pub fn history(&self, card_id: u64) -> (r: Vec<BusinessCardVersion>)
        ensures
            r@ == history_of(self.log(), card_id),
    {
        let mut out: Vec<BusinessCardVersion> = Vec::new();
        let mut i: usize = 0;
        while i < self.versions.len()
            invariant
                i <= self.versions@.len(),
                out@ == history_of(self.versions@.take(i as int), card_id),
            decreases self.versions@.len() - i,
        {
            proof {
                assert(self.versions@.take(i + 1).drop_last() =~= self.versions@.take(i as int));
                assert(self.versions@.take(i + 1).last() == self.versions@[i as int]);
            }
            if self.versions[i].card_id == card_id {
                out.push(self.versions[i].clone());
            }
            i = i + 1;
        }
        proof {
            assert(self.versions@.take(self.versions@.len() as int) =~= self.versions@);
        }
        out
    }

    /// Version numbering: under the store's invariant every card's
    /// history is numbered `1..=n` in chronological order, with `n` the
    /// count of its versions.
    pub proof fn lemma_history_numbering(&self, card_id: u64)
        requires
            self.inv(),
        ensures
            history_of(self.log(), card_id).len() == count_card(self.log(), card_id),
            forall|k: int|
                0 <= k < history_of(self.log(), card_id).len() ==> (#[trigger] history_of(
                    self.log(),
                    card_id,
                )[k].version) as int == k + 1,
    {
        lemma_history_numbering_seq(self.versions@, card_id);
    }

    /// Appending an entry numbered one past its card's count keeps the
    /// numbering invariant.
    proof fn lemma_push_preserves_wf(&self, prev: Seq<BusinessCardVersion>, x: BusinessCardVersion)
        requires
            self.versions@ == prev.push(x),
            forall|i: int|
                0 <= i < prev.len() ==> (#[trigger] prev[i].version) as nat == count_card(
                    prev.take(i),
                    prev[i].card_id,
                ) + 1,
            x.version as nat == count_card(prev, x.card_id) + 1,
        ensures
            self.wf(),
    {
        let s = self.versions@;
        assert forall|i: int|
            0 <= i < s.len() implies (#[trigger] s[i].version) as nat == count_card(
            s.take(i),
            s[i].card_id,
        ) + 1 by {
            if i < prev.len() {
                assert(s.take(i) =~= prev.take(i));
                assert(s[i] == prev[i]);
            } else {
                assert(s[i] == x);
                assert(s.take(i) =~= prev);
            }
        }
    }
}

} // verus!
