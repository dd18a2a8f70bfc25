//! The executable ledger: an account store with insertion-only namespaces,
//! balances, and a clock.

use crate::error::ErrorCode;
use crate::model::{outcome, LedgerView};
use crate::pubkey::Pubkey;
use crate::state::{
    ClaimAccount,
    ClaimAccountView,
    HealthDataAccount,
    HealthDataAccountView,
    PatientAccount,
    PatientAccountView,
    ProviderAccount,
    ProviderAccountView,
};
use crate::table::{
    as_map,
    contents,
    distinct_keys,
    entries,
    find,
    get,
    has_key,
    insert,
    lemma_entry_in_map,
    lemma_push,
    lemma_update,
    position,
    replace,
    unique,
    Keyed,
};
use vstd::prelude::*;

verus! {

/// The funds of one credential.
struct Wallet {
    key: Pubkey,
    lamports: u64,
}

/// A ledger of patients, providers, health records, claims and balances.
///
/// The ledger holds at most one record under each key of a namespace. Its
/// funds are issued once, when it is made; after that they only move.
pub struct Ledger {
    patients: Vec<PatientAccount>,
    providers: Vec<ProviderAccount>,
    health_data: Vec<HealthDataAccount>,
    claims: Vec<ClaimAccount>,
    wallets: Vec<Wallet>,
    unix_timestamp: i64,
}

impl Keyed for PatientAccount {
    type Key = Pubkey;

    type KeyView = Pubkey;

    type Content = PatientAccountView;

    open spec fn key_view(key: &Pubkey) -> Pubkey {
        *key
    }

    open spec fn key(&self) -> Pubkey {
        self.authority
    }

    open spec fn content(&self) -> PatientAccountView {
        self@
    }

    fn own_key(&self) -> (key: &Pubkey) {
        &self.authority
    }

    fn is_under(&self, key: &Pubkey) -> (under: bool) {
        self.authority.same_bytes(key)
    }
}

impl Keyed for ProviderAccount {
    type Key = Pubkey;

    type KeyView = Pubkey;

    type Content = ProviderAccountView;

    open spec fn key_view(key: &Pubkey) -> Pubkey {
        *key
    }

    open spec fn key(&self) -> Pubkey {
        self.authority
    }

    open spec fn content(&self) -> ProviderAccountView {
        self@
    }

    fn own_key(&self) -> (key: &Pubkey) {
        &self.authority
    }

    fn is_under(&self, key: &Pubkey) -> (under: bool) {
        self.authority.same_bytes(key)
    }
}

impl Keyed for HealthDataAccount {
    type Key = String;

    type KeyView = Seq<char>;

    type Content = HealthDataAccountView;

    open spec fn key_view(key: &String) -> Seq<char> {
        key@
    }

    open spec fn key(&self) -> Seq<char> {
        self.data_hash@
    }

    open spec fn content(&self) -> HealthDataAccountView {
        self@
    }

    fn own_key(&self) -> (key: &String) {
        &self.data_hash
    }

    fn is_under(&self, key: &String) -> (under: bool) {
        self.data_hash == *key
    }
}

impl Keyed for ClaimAccount {
    type Key = String;

    type KeyView = Seq<char>;

    type Content = ClaimAccountView;

    open spec fn key_view(key: &String) -> Seq<char> {
        key@
    }

    open spec fn key(&self) -> Seq<char> {
        self.claim_id@
    }

    open spec fn content(&self) -> ClaimAccountView {
        self@
    }

    fn own_key(&self) -> (key: &String) {
        &self.claim_id
    }

    fn is_under(&self, key: &String) -> (under: bool) {
        self.claim_id == *key
    }
}

impl Keyed for Wallet {
    type Key = Pubkey;

    type KeyView = Pubkey;

    type Content = nat;

    closed spec fn key_view(key: &Pubkey) -> Pubkey {
        *key
    }

    closed spec fn key(&self) -> Pubkey {
        self.key
    }

    closed spec fn content(&self) -> nat {
        self.lamports as nat
    }

    fn own_key(&self) -> (key: &Pubkey) {
        &self.key
    }

    fn is_under(&self, key: &Pubkey) -> (under: bool) {
        self.key.same_bytes(key)
    }
}

/// All the funds in the given wallets.
spec fn total(wallets: Seq<Wallet>) -> nat
    decreases wallets.len(),
{
    if wallets.len() == 0 {
        0
    } else {
        total(wallets.drop_last()) + wallets.last().lamports as nat
    }
}

/// The funds of `key` in the given wallets: 0 if it has no wallet.
spec fn balance_in(wallets: Seq<Wallet>, key: Pubkey) -> nat {
    if has_key(entries(wallets), key) {
        as_map(entries(wallets))[key]
    } else {
        0
    }
}

impl View for Ledger {
    type V = LedgerView;

    closed spec fn view(&self) -> LedgerView {
        LedgerView {
            patients: contents(self.patients@),
            providers: contents(self.providers@),
            health_data: contents(self.health_data@),
            claims: contents(self.claims@),
            balances: Map::total(|key: Pubkey| balance_in(self.wallets@, key)),
            unix_timestamp: self.unix_timestamp,
        }
    }
}

/// Every wallet holds no more than all wallets together.
proof fn lemma_total_bounds(wallets: Seq<Wallet>, i: int)
    requires
        0 <= i < wallets.len(),
    ensures
        wallets[i].lamports <= total(wallets),
    decreases wallets.len(),
{
    if i < wallets.len() - 1 {
        lemma_total_bounds(wallets.drop_last(), i);
    }
}

/// Changing what one wallet holds changes the total by as much.
proof fn lemma_total_update(wallets: Seq<Wallet>, i: int, wallet: Wallet)
    requires
        0 <= i < wallets.len(),
    ensures
        total(wallets.update(i, wallet)) == total(wallets) - wallets[i].lamports + wallet.lamports,
    decreases wallets.len(),
{
    let changed = wallets.update(i, wallet);
    if i < wallets.len() - 1 {
        lemma_total_update(wallets.drop_last(), i, wallet);
        assert(changed.drop_last() =~= wallets.drop_last().update(i, wallet));
    } else {
        assert(changed.drop_last() =~= wallets.drop_last());
    }
}

/// A wallet that changes what it holds changes the balance of its
/// credential and of no other.
proof fn lemma_balance_update(wallets: Seq<Wallet>, i: int, lamports: u64)
    requires
        distinct_keys(entries(wallets)),
        0 <= i < wallets.len(),
    ensures
        distinct_keys(
            entries(wallets.update(i, Wallet { key: wallets[i].key, lamports })),
        ),
        forall|key: Pubkey|
            #[trigger] balance_in(wallets.update(i, Wallet { key: wallets[i].key, lamports }), key)
                == if key == wallets[i].key {
                lamports as nat
            } else {
                balance_in(wallets, key)
            },
{
    let listed = entries(wallets);
    let changed = wallets.update(i, Wallet { key: wallets[i].key, lamports });
    lemma_update(listed, i, lamports as nat);
    assert(entries(changed) =~= listed.update(i, (listed[i].0, lamports as nat)));
    assert forall|key: Pubkey| #[trigger]
        balance_in(changed, key) == if key == wallets[i].key {
            lamports as nat
        } else {
            balance_in(wallets, key)
        } by {
        assert(as_map(entries(changed)).contains_key(key) <==> has_key(
            entries(changed),
            key,
        ));
        assert(as_map(listed).contains_key(key) <==> has_key(listed, key));
    }
}

/// A new wallet sets the balance of its credential and of no other.
proof fn lemma_balance_push(wallets: Seq<Wallet>, wallet: Wallet)
    requires
        distinct_keys(entries(wallets)),
        !has_key(entries(wallets), wallet.key),
    ensures
        distinct_keys(entries(wallets.push(wallet))),
        total(wallets.push(wallet)) == total(wallets) + wallet.lamports,
        forall|key: Pubkey|
            #[trigger] balance_in(wallets.push(wallet), key) == if key == wallet.key {
                wallet.lamports as nat
            } else {
                balance_in(wallets, key)
            },
{
    let listed = entries(wallets);
    let grown = wallets.push(wallet);
    lemma_push(listed, wallet.key, wallet.lamports as nat);
    assert(entries(grown) =~= listed.push((wallet.key, wallet.lamports as nat)));
    assert(grown.drop_last() =~= wallets);
    assert forall|key: Pubkey| #[trigger]
        balance_in(grown, key) == if key == wallet.key {
            wallet.lamports as nat
        } else {
            balance_in(wallets, key)
        } by {
        assert(as_map(entries(grown)).contains_key(key) <==> has_key(
            entries(grown),
            key,
        ));
        assert(as_map(listed).contains_key(key) <==> has_key(listed, key));
    }
}

impl Ledger {
    /// Whether the ledger keeps its promises: no two records of a namespace
    /// under one key, no two wallets for one credential, and no more funds
    /// than a balance can count.
    pub closed spec fn well_formed(&self) -> bool {
        &&& unique(self.patients@)
        &&& unique(self.providers@)
        &&& unique(self.health_data@)
        &&& unique(self.claims@)
        &&& unique(self.wallets@)
        &&& total(self.wallets@) <= u64::MAX
    }

    /// All the funds on the ledger.
    spec fn supply(&self) -> nat {
        total(self.wallets@)
    }

    /// What a well-formed ledger holds is well formed.
    pub proof fn lemma_view_well_formed(&self)
        requires
            self.well_formed(),
        ensures
            self@.well_formed(),
    {
        let view = self@;
        assert forall|key: Pubkey| #[trigger] view.patients.contains_key(key) implies {
            view.patients[key].authority == key
        } by {
            let listed = entries(self.patients@);
            assert(listed[position(listed, key)].0 == key);
        }
        assert forall|key: Pubkey| #[trigger] view.providers.contains_key(key) implies {
            view.providers[key].authority == key
        } by {
            let listed = entries(self.providers@);
            assert(listed[position(listed, key)].0 == key);
        }
        assert forall|hash: Seq<char>| #[trigger] view.health_data.contains_key(hash) implies {
            view.health_data[hash].data_hash == hash
        } by {
            let listed = entries(self.health_data@);
            assert(listed[position(listed, hash)].0 == hash);
        }
        assert forall|id: Seq<char>| #[trigger] view.claims.contains_key(id) implies {
            view.claims[id].claim_id == id
        } by {
            let listed = entries(self.claims@);
            assert(listed[position(listed, id)].0 == id);
        }
    }

    /// A new ledger: no records, the clock at 0, and the whole `supply` in
    /// the hands of `faucet`.
    pub fn new(faucet: Pubkey, supply: u64) -> (ledger: Ledger)
        ensures
            ledger.well_formed(),
            ledger@ == LedgerView::genesis(faucet, supply),
    {
        let mut wallets: Vec<Wallet> = Vec::new();
        proof {
            lemma_balance_push(wallets@, Wallet { key: faucet, lamports: supply });
        }
        wallets.push(Wallet { key: faucet, lamports: supply });
        let ledger = Ledger {
            patients: Vec::new(),
            providers: Vec::new(),
            health_data: Vec::new(),
            claims: Vec::new(),
            wallets,
            unix_timestamp: 0,
        };
        proof {
            let genesis = LedgerView::genesis(faucet, supply);
            assert(ledger@.patients =~= genesis.patients);
            assert(ledger@.providers =~= genesis.providers);
            assert(ledger@.health_data =~= genesis.health_data);
            assert(ledger@.claims =~= genesis.claims);
            assert(ledger@.balances =~= genesis.balances);
        }
        ledger
    }

    /// The time on the ledger's clock.
    pub fn unix_timestamp(&self) -> (now: i64)
        ensures
            now == self@.unix_timestamp,
    {
        self.unix_timestamp
    }

    /// Moves the clock to `now`, unless that would turn it back.
    pub fn advance_clock(&mut self, now: i64)
        requires
            old(self).well_formed(),
        ensures
            final(self).well_formed(),
            final(self)@ == old(self)@.advance_clock(now),
    {
        if now > self.unix_timestamp {
            self.unix_timestamp = now;
        }
    }

    /// The funds that `key` holds.
    pub fn balance(&self, key: &Pubkey) -> (lamports: u64)
        requires
            self.well_formed(),
        ensures
            lamports == self@.balance(*key),
    {
        match find(&self.wallets, key) {
            Some(i) => {
                proof {
                    lemma_entry_in_map(entries(self.wallets@), i as int);
                }
                self.wallets[i].lamports
            },
            None => 0,
        }
    }

    /// Sets what the wallet at position `i` holds.
    fn set_lamports(&mut self, i: usize, lamports: u64)
        requires
            old(self).well_formed(),
            i < old(self).wallets.len(),
            old(self).supply() - old(self).wallets[i as int].lamports + lamports <= u64::MAX,
        ensures
            final(self).well_formed(),
            final(self).supply() == old(self).supply() - old(self).wallets[i as int].lamports
                + lamports,
            final(self)@ == (LedgerView {
                balances: old(self)@.balances.insert(
                    old(self).wallets[i as int].key,
                    lamports as nat,
                ),
                ..old(self)@
            }),
    {
        let ghost changed = Wallet { key: self.wallets[i as int].key, lamports };
        proof {
            lemma_balance_update(self.wallets@, i as int, lamports);
            lemma_total_update(self.wallets@, i as int, changed);
        }
        self.wallets[i].lamports = lamports;
        proof {
            assert(self.wallets@ =~= old(self).wallets@.update(i as int, changed));
            assert(self@.balances =~= old(self)@.balances.insert(changed.key, lamports as nat));
        }
    }

    /// Takes `lamports` out of the wallet of `key`, which holds as much.
    fn debit(&mut self, key: &Pubkey, lamports: u64)
        requires
            old(self).well_formed(),
            old(self)@.balance(*key) >= lamports,
        ensures
            final(self).well_formed(),
            final(self).supply() == old(self).supply() - lamports,
            final(self)@ == (LedgerView {
                balances: old(self)@.balances.insert(
                    *key,
                    (old(self)@.balance(*key) - lamports) as nat,
                ),
                ..old(self)@
            }),
    {
        match find(&self.wallets, key) {
            Some(i) => {
                proof {
                    lemma_entry_in_map(entries(self.wallets@), i as int);
                }
                let held = self.wallets[i].lamports;
                self.set_lamports(i, held - lamports);
            },
            None => {
                // A credential without a wallet holds nothing, so nothing is taken.
                assert(self@.balances =~= old(self)@.balances.insert(*key, 0nat));
            },
        }
    }

    /// Puts `lamports` into the wallet of `key`, opening one if need be.
    fn credit(&mut self, key: &Pubkey, lamports: u64)
        requires
            old(self).well_formed(),
            old(self).supply() + lamports <= u64::MAX,
        ensures
            final(self).well_formed(),
            final(self).supply() == old(self).supply() + lamports,
            final(self)@ == (LedgerView {
                balances: old(self)@.balances.insert(
                    *key,
                    old(self)@.balance(*key) + lamports as nat,
                ),
                ..old(self)@
            }),
    {
        match find(&self.wallets, key) {
            Some(i) => {
                proof {
                    lemma_entry_in_map(entries(self.wallets@), i as int);
                    lemma_total_bounds(self.wallets@, i as int);
                }
                let held = self.wallets[i].lamports;
                self.set_lamports(i, held + lamports);
            },
            None => {
                proof {
                    lemma_balance_push(self.wallets@, Wallet { key: *key, lamports });
                }
                self.wallets.push(Wallet { key: *key, lamports });
                assert(self@.balances =~= old(self)@.balances.insert(*key, lamports as nat));
            },
        }
    }

    /// Moves `lamports` from `from` to `to`, as the system does for a
    /// transfer that `from` has signed.
    ///
    /// Refused as `InsufficientFunds` when `from` holds less than
    /// `lamports`; the balances then stay as they were.
    pub fn transfer(
        &mut self,
        from: &Pubkey,
        to: &Pubkey,
        lamports: u64,
    ) -> (result: Result<(), ErrorCode>)
        requires
            old(self).well_formed(),
        ensures
            final(self).well_formed(),
            old(self)@.transfer(*from, *to, lamports) == outcome(result, final(self)@),
            result is Err ==> final(self)@ == old(self)@,
    {
        if self.balance(from) < lamports {
            return Err(ErrorCode::InsufficientFunds);
        }
        self.debit(from, lamports);
        self.credit(to, lamports);
        Ok(())
    }

    /// The patient registered by `authority`, if there is one.
    pub fn patient(&self, authority: &Pubkey) -> (found: Option<&PatientAccount>)
        requires
            self.well_formed(),
        ensures
            match found {
                Some(account) => self@.patients.contains_key(*authority) && account@
                    == self@.patients[*authority] && account.authority == *authority,
                None => !self@.patients.contains_key(*authority),
            },
    {
        get(&self.patients, authority)
    }

    /// The provider registered by `authority`, if there is one.
    pub fn provider(&self, authority: &Pubkey) -> (found: Option<&ProviderAccount>)
        requires
            self.well_formed(),
        ensures
            match found {
                Some(account) => self@.providers.contains_key(*authority) && account@
                    == self@.providers[*authority] && account.authority == *authority,
                None => !self@.providers.contains_key(*authority),
            },
    {
        get(&self.providers, authority)
    }

    /// The health record stored under `data_hash`, if there is one.
    pub fn health_data(&self, data_hash: &String) -> (found: Option<&HealthDataAccount>)
        requires
            self.well_formed(),
        ensures
            match found {
                Some(account) => self@.health_data.contains_key(data_hash@) && account@
                    == self@.health_data[data_hash@] && account.data_hash@ == data_hash@,
                None => !self@.health_data.contains_key(data_hash@),
            },
    {
        get(&self.health_data, data_hash)
    }

    /// The claim with the identifier `claim_id`, if there is one.
    pub fn claim(&self, claim_id: &String) -> (found: Option<&ClaimAccount>)
        requires
            self.well_formed(),
        ensures
            match found {
                Some(account) => self@.claims.contains_key(claim_id@) && account@
                    == self@.claims[claim_id@] && account.claim_id@ == claim_id@,
                None => !self@.claims.contains_key(claim_id@),
            },
    {
        get(&self.claims, claim_id)
    }

    /// Stores a new patient; refused as `AlreadyExists` when its credential
    /// has registered a patient before.
    pub(crate) fn create_patient(
        &mut self,
        account: PatientAccount,
    ) -> (result: Result<(), ErrorCode>)
        requires
            old(self).well_formed(),
        ensures
            final(self).well_formed(),
            match result {
                Ok(()) => !old(self)@.patients.contains_key(account.authority) && final(self)@
                    == (LedgerView {
                    patients: old(self)@.patients.insert(account.authority, account@),
                    ..old(self)@
                }),
                Err(e) => e == ErrorCode::AlreadyExists && old(self)@.patients.contains_key(
                    account.authority,
                ) && final(self)@ == old(self)@,
            },
    {
        if insert(&mut self.patients, account) {
            Ok(())
        } else {
            Err(ErrorCode::AlreadyExists)
        }
    }

    /// Stores a new provider; refused as `AlreadyExists` when its credential
    /// has registered a provider before.
    pub(crate) fn create_provider(
        &mut self,
        account: ProviderAccount,
    ) -> (result: Result<(), ErrorCode>)
        requires
            old(self).well_formed(),
        ensures
            final(self).well_formed(),
            match result {
                Ok(()) => !old(self)@.providers.contains_key(account.authority) && final(self)@
                    == (LedgerView {
                    providers: old(self)@.providers.insert(account.authority, account@),
                    ..old(self)@
                }),
                Err(e) => e == ErrorCode::AlreadyExists && old(self)@.providers.contains_key(
                    account.authority,
                ) && final(self)@ == old(self)@,
            },
    {
        if insert(&mut self.providers, account) {
            Ok(())
        } else {
            Err(ErrorCode::AlreadyExists)
        }
    }

    /// Stores a new health record; refused as `AlreadyExists` when a record
    /// is already stored under its hash.
    pub(crate) fn create_health_data(
        &mut self,
        account: HealthDataAccount,
    ) -> (result: Result<(), ErrorCode>)
        requires
            old(self).well_formed(),
        ensures
            final(self).well_formed(),
            match result {
                Ok(()) => !old(self)@.health_data.contains_key(account.data_hash@) && final(self)@
                    == (LedgerView {
                    health_data: old(self)@.health_data.insert(account.data_hash@, account@),
                    ..old(self)@
                }),
                Err(e) => e == ErrorCode::AlreadyExists && old(self)@.health_data.contains_key(
                    account.data_hash@,
                ) && final(self)@ == old(self)@,
            },
    {
        if insert(&mut self.health_data, account) {
            Ok(())
        } else {
            Err(ErrorCode::AlreadyExists)
        }
    }

    /// Stores a new claim; refused as `AlreadyExists` when a claim already
    /// has its identifier.
    pub(crate) fn create_claim(&mut self, account: ClaimAccount) -> (result: Result<(), ErrorCode>)
        requires
            old(self).well_formed(),
        ensures
            final(self).well_formed(),
            match result {
                Ok(()) => !old(self)@.claims.contains_key(account.claim_id@) && final(self)@
                    == (LedgerView {
                    claims: old(self)@.claims.insert(account.claim_id@, account@),
                    ..old(self)@
                }),
                Err(e) => e == ErrorCode::AlreadyExists && old(self)@.claims.contains_key(
                    account.claim_id@,
                ) && final(self)@ == old(self)@,
            },
    {
        if insert(&mut self.claims, account) {
            Ok(())
        } else {
            Err(ErrorCode::AlreadyExists)
        }
    }

    /// Stores `account` in place of the claim that has its identifier;
    /// refused as `ClaimNotFound` when there is no such claim.
    pub(crate) fn put_claim(&mut self, account: ClaimAccount) -> (result: Result<(), ErrorCode>)
        requires
            old(self).well_formed(),
        ensures
            final(self).well_formed(),
            match result {
                Ok(()) => old(self)@.claims.contains_key(account.claim_id@) && final(self)@
                    == (LedgerView {
                    claims: old(self)@.claims.insert(account.claim_id@, account@),
                    ..old(self)@
                }),
                Err(e) => e == ErrorCode::ClaimNotFound && !old(self)@.claims.contains_key(
                    account.claim_id@,
                ) && final(self)@ == old(self)@,
            },
    {
        if replace(&mut self.claims, account) {
            Ok(())
        } else {
            Err(ErrorCode::ClaimNotFound)
        }
    }
}

} // verus!
