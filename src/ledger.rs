use crate::record::{AgentRegistry, RecordView, RegistryError};
use vstd::prelude::*;

verus! {

/// A record as the ledger holds it: where it lives and how many bytes were
/// allocated for it at creation.
pub struct RegistryAccount {
    pub address: [u8; 32],
    pub space: usize,
    pub data: AgentRegistry,
}

/// An account as mathematical values, its address aside.
pub struct AccountView {
    pub space: nat,
    pub record: RecordView,
}

impl View for RegistryAccount {
    type V = AccountView;

    open spec fn view(&self) -> AccountView {
        AccountView { space: self.space as nat, record: self.data@ }
    }
}

/// Whether two keys or addresses hold the same bytes.
pub fn same_key(a: &[u8; 32], b: &[u8; 32]) -> (r: bool)
    ensures
        r == (a@ == b@),
{
    let mut i: usize = 0;
    while i < 32
        invariant
            0 <= i <= 32,
            a@.len() == 32,
            b@.len() == 32,
            a@.subrange(0, i as int) == b@.subrange(0, i as int),
        decreases 32 - i,
    {
        if a[i] != b[i] {
            assert(a@[i as int] != b@[i as int]);
            return false;
        }
        assert(a@.subrange(0, i + 1) =~= a@.subrange(0, i as int).push(a@[i as int]));
        assert(b@.subrange(0, i + 1) =~= b@.subrange(0, i as int).push(b@[i as int]));
        i = i + 1;
    }
    assert(a@ =~= a@.subrange(0, 32));
    assert(b@ =~= b@.subrange(0, 32));
    true
}

/// The store of accounts: at most one account per address, created only where
/// none exists.
pub struct Ledger {
    accounts: Vec<RegistryAccount>,
    contents: Ghost<Map<Seq<u8>, AccountView>>,
}

impl View for Ledger {
    type V = Map<Seq<u8>, AccountView>;

    closed spec fn view(&self) -> Map<Seq<u8>, AccountView> {
        self.contents@
    }
}

impl Ledger {
    /// The accounts and the map agree, one account per address.
    pub closed spec fn wf(&self) -> bool {
        &&& forall|i: int, j: int|
            0 <= i < j < self.accounts.len() ==> self.accounts[i].address@ != self.accounts[j].address@
        &&& forall|i: int|
            0 <= i < self.accounts.len() ==> #[trigger] self.contents@.contains_key(self.accounts[i].address@)
                && self.contents@[self.accounts[i].address@] == self.accounts[i]@
        &&& forall|a: Seq<u8>|
            #[trigger] self.contents@.contains_key(a) ==> exists|i: int|
                0 <= i < self.accounts.len() && self.accounts[i].address@ == a
    }

    /// An empty ledger.
    pub fn new() -> (r: Ledger)
        ensures
            r.wf(),
            r@ == Map::<Seq<u8>, AccountView>::empty(),
    {
        Ledger { accounts: Vec::new(), contents: Ghost(Map::empty()) }
    }

    /// Index of the account at `address`, if any.
    fn position(&self, address: &[u8; 32]) -> (r: Option<usize>)
        requires
            self.wf(),
        ensures
            r matches Some(i) ==> i < self.accounts.len() && self.accounts[i as int].address@ == address@,
            r is None ==> !self@.contains_key(address@),
    {
        let mut i: usize = 0;
        while i < self.accounts.len()
            invariant
                self.wf(),
                0 <= i <= self.accounts.len(),
                forall|k: int| 0 <= k < i ==> self.accounts[k].address@ != address@,
            decreases self.accounts.len() - i,
        {
            if same_key(&self.accounts[i].address, address) {
                return Some(i);
            }
            i = i + 1;
        }
        None
    }

    /// The account at `address`, if one exists.
    pub fn account(&self, address: &[u8; 32]) -> (r: Option<&RegistryAccount>)
        requires
            self.wf(),
        ensures
            r matches Some(acct) ==> self@.contains_key(address@) && acct.address@ == address@
                && acct@ == self@[address@],
            r is None ==> !self@.contains_key(address@),
    {
        match self.position(address) {
            Some(i) => {
                assert(self.contents@.contains_key(self.accounts[i as int].address@));
                Some(&self.accounts[i])
            },
            None => None,
        }
    }

    /// Creates `account` at its address if no account is there yet; otherwise
    /// fails with `AlreadyRegistered` and leaves the ledger as it was.
    pub fn create_account(&mut self, account: RegistryAccount) -> (r: Result<(), RegistryError>)
        requires
            old(self).wf(),
        ensures
            final(self).wf(),
            old(self)@.contains_key(account.address@) ==> r == Err::<(), RegistryError>(
                RegistryError::AlreadyRegistered,
            ) && final(self)@ == old(self)@,
            !old(self)@.contains_key(account.address@) ==> r is Ok && final(self)@ == old(self)@.insert(
                account.address@,
                account@,
            ),
    {
        match self.position(&account.address) {
            Some(_) => Err(RegistryError::AlreadyRegistered),
            None => {
                let ghost key = account.address@;
                let ghost acct_view = account@;
                self.accounts.push(account);
                self.contents = Ghost(self.contents@.insert(key, acct_view));
                assert forall|a: Seq<u8>| #[trigger] self.contents@.contains_key(a) implies exists|i: int|
                    0 <= i < self.accounts.len() && self.accounts[i].address@ == a by {
                    if a == key {
                        assert(self.accounts[self.accounts.len() - 1].address@ == a);
                    } else {
                        assert(old(self).contents@.contains_key(a));
                        let i = choose|i: int| 0 <= i < old(self).accounts.len() && old(self).accounts[i].address@ == a;
                        assert(self.accounts[i].address@ == a);
                    }
                }
                Ok(())
            },
        }
    }

    /// Rewrites the version of the account at `address` when that account's
    /// record belongs to `owner`; otherwise fails with `Unauthorized` and leaves
    /// the ledger as it was.
    pub fn update_version_at(&mut self, address: &[u8; 32], owner: &[u8; 32], version: String) -> (r: Result<(), RegistryError>)
        requires
            old(self).wf(),
        ensures
            final(self).wf(),
            version_update(old(self)@, address@, owner@, version@) matches Some(m) ==> r is Ok && final(self)@ == m,
            version_update(old(self)@, address@, owner@, version@) is None ==> r == Err::<(), RegistryError>(
                RegistryError::Unauthorized,
            ) && final(self)@ == old(self)@,
    {
        match self.position(address) {
            None => Err(RegistryError::Unauthorized),
            Some(i) => {
                if !same_key(&self.accounts[i].data.agent, owner) {
                    return Err(RegistryError::Unauthorized);
                }
                let ghost key = address@;
                assert(old(self).contents@.contains_key(old(self).accounts[i as int].address@));
                self.accounts[i].data.version = version;
                let ghost new_view = self.accounts[i as int]@;
                assert(self.accounts@ == old(self).accounts@.update(i as int, self.accounts[i as int]));
                self.contents = Ghost(self.contents@.insert(key, new_view));
                assert forall|j: int| 0 <= j < self.accounts.len() implies #[trigger] self.contents@.contains_key(
                    self.accounts[j].address@,
                ) && self.contents@[self.accounts[j].address@] == self.accounts[j]@ by {
                    if j != i {
                        assert(old(self).contents@.contains_key(old(self).accounts[j].address@));
                    }
                }
                assert forall|a: Seq<u8>| #[trigger] self.contents@.contains_key(a) implies exists|j: int|
                    0 <= j < self.accounts.len() && self.accounts[j].address@ == a by {
                    assert(old(self).contents@.contains_key(a));
                    let j = choose|j: int| 0 <= j < old(self).accounts.len() && old(self).accounts[j].address@ == a;
                    assert(self.accounts[j].address@ == a);
                }
                assert(self.contents@ =~= version_update(old(self)@, address@, owner@, version@).unwrap());
                Ok(())
            },
        }
    }
}

/// The ledger after `owner` rewrites the version of the account at `address`, or
/// `None` where no account is there or its record belongs to someone else.
pub open spec fn version_update(
    m: Map<Seq<u8>, AccountView>,
    address: Seq<u8>,
    owner: Seq<u8>,
    version: Seq<char>,
) -> Option<Map<Seq<u8>, AccountView>> {
    if m.contains_key(address) && m[address].record.agent == owner {
        Some(m.insert(address, AccountView { record: RecordView { version, ..m[address].record }, ..m[address] }))
    } else {
        None
    }
}

} // verus!
