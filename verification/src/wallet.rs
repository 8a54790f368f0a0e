//! The wallet registry: a keyed store of registered wallet addresses.

use vstd::prelude::*;

verus! {

/// One registered wallet.
#[derive(Debug)]
pub struct WalletInfo {
    pub address: String,
    pub public_key: String,
    pub created_at: u64,
}

impl Clone for WalletInfo {
    /// A field-for-field copy.
    fn clone(&self) -> (r: Self)
        ensures
            r == *self,
    {
        WalletInfo {
            address: self.address.clone(),
            public_key: self.public_key.clone(),
            created_at: self.created_at,
        }
    }
}

/// What a caller supplies to register a wallet.
#[derive(Debug)]
pub struct RegisterWalletRequest {
    pub address: String,
    pub public_key: String,
}

/// The address-to-wallet map a registration log denotes; re-registering
/// an address overwrites, the later entry shadowing the earlier.
pub closed spec fn wallet_model_of(s: Seq<WalletInfo>) -> Map<Seq<char>, WalletInfo>
    decreases s.len(),
{
    if s.len() == 0 {
        Map::empty()
    } else {
        wallet_model_of(s.drop_last()).insert(s.last().address@, s.last())
    }
}

proof fn lemma_wallet_model_contains(s: Seq<WalletInfo>, k: Seq<char>)
    ensures
        wallet_model_of(s).contains_key(k) <==> exists|i: int|
            0 <= i < s.len() && #[trigger] s[i].address@ == k,
    decreases s.len(),
{
    if s.len() > 0 {
        lemma_wallet_model_contains(s.drop_last(), k);
        if wallet_model_of(s).contains_key(k) && s.last().address@ != k {
            let i = choose|i: int|
                0 <= i < s.drop_last().len() && #[trigger] s.drop_last()[i].address@ == k;
            assert(s[i].address@ == k);
        }
        if exists|i: int| 0 <= i < s.len() && #[trigger] s[i].address@ == k {
            let i = choose|i: int| 0 <= i < s.len() && #[trigger] s[i].address@ == k;
            if i < s.len() - 1 {
                assert(s.drop_last()[i].address@ == k);
            }
        }
    }
}

proof fn lemma_wallet_model_last(s: Seq<WalletInfo>, i: int)
    requires
        0 <= i < s.len(),
        forall|j: int| i < j < s.len() ==> #[trigger] s[j].address@ != s[i].address@,
    ensures
        wallet_model_of(s).contains_key(s[i].address@),
        wallet_model_of(s)[s[i].address@] == s[i],
    decreases s.len(),
{
    if i == s.len() - 1 {
        assert(s.last() == s[i]);
    } else {
        assert(s.last().address@ != s[i].address@);
        assert(s.drop_last()[i] == s[i]);
        assert(forall|j: int|
            i < j < s.drop_last().len() ==> #[trigger] s.drop_last()[j].address@
                != s[i].address@);
        lemma_wallet_model_last(s.drop_last(), i);
    }
}

/// The in-memory wallet registry.
pub struct WalletStore {
    wallets: Vec<WalletInfo>,
}

impl WalletStore {
    /// An empty registry.
    pub fn new() -> (r: Self)
        ensures
            r.model() == Map::<Seq<char>, WalletInfo>::empty(),
    {
        WalletStore { wallets: Vec::new() }
    }

    /// The address-to-wallet map this registry currently holds.
    pub closed spec fn model(&self) -> Map<Seq<char>, WalletInfo> {
        wallet_model_of(self.wallets@)
    }

    /// Registers a wallet at instant `now`, overwriting any wallet the
    /// address already carried, and returns the stored record.
    pub fn register_wallet(&mut self, request: RegisterWalletRequest, now: u64) -> (r: WalletInfo)
        ensures
            r.address@ == request.address@,
            r.public_key@ == request.public_key@,
            r.created_at == now,
            final(self).model() == old(self).model().insert(r.address@, r),
    {
        let wallet = WalletInfo {
            address: request.address,
            public_key: request.public_key,
            created_at: now,
        };
        let result = wallet.clone();
        self.wallets.push(wallet);
        proof {
            assert(self.wallets@.drop_last() =~= old(self).wallets@);
        }
        result
    }

    /// Point lookup by address.
    pub fn get_wallet(&self, address: &str) -> (r: Option<WalletInfo>)
        ensures
            r == if self.model().contains_key(address@) {
                Some(self.model()[address@])
            } else {
                None::<WalletInfo>
            },
    {
        let mut i: usize = self.wallets.len();
        while i > 0
            invariant
                i <= self.wallets@.len(),
                forall|j: int|
                    i <= j < self.wallets@.len() ==> #[trigger] self.wallets@[j].address@
                        != address@,
            decreases i,
        {
            i = i - 1;
            if crate::strutil::str_eq(self.wallets[i].address.as_str(), address) {
                proof {
                    lemma_wallet_model_last(self.wallets@, i as int);
                }
                return Some(self.wallets[i].clone());
            }
        }
        proof {
            lemma_wallet_model_contains(self.wallets@, address@);
        }
        None
    }
}

} // verus!
