//! The accounts that a roll-up reads, fetched once each.
//!
//! A client asks `get_account_shared_data` for an account. Where that answers `Fetch`, it fetches
//! the account and hands the reply to `account_fetched`.
use vstd::prelude::*;

use crate::pubkey::Pubkey;

verus! {

/// An account as the ledger holds it.
#[derive(Debug, PartialEq, Eq)]
pub struct Account {
    pub lamports: u64,
    pub data: Vec<u8>,
    pub owner: Pubkey,
    pub executable: bool,
    pub rent_epoch: u64,
}

/// The model of an `Account`.
#[verifier::ext_equal]
pub struct AccountView {
    pub lamports: u64,
    pub data: Seq<u8>,
    pub owner: Pubkey,
    pub executable: bool,
    pub rent_epoch: u64,
}

impl View for Account {
    type V = AccountView;

    open spec fn view(&self) -> AccountView {
        AccountView {
            lamports: self.lamports,
            data: self.data@,
            owner: self.owner,
            executable: self.executable,
            rent_epoch: self.rent_epoch,
        }
    }
}

impl Clone for Account {
    fn clone(&self) -> (copy: Self)
        ensures
            copy@ == self@,
            copy.lamports == self.lamports,
            copy.data@ == self.data@,
            copy.owner == self.owner,
            copy.executable == self.executable,
            copy.rent_epoch == self.rent_epoch,
    {
        let copy = Account {
            lamports: self.lamports,
            data: self.data.clone(),
            owner: self.owner,
            executable: self.executable,
            rent_epoch: self.rent_epoch,
        };
        assert(copy@ =~= self@);
        copy
    }
}

/// What is to be done for an account that was asked for.
#[derive(Debug, PartialEq, Eq)]
pub enum AccountLookup {
    /// Nothing: here it is.
    Cached(Account),
    /// The account with this address is to be fetched.
    Fetch(Pubkey),
}

/// What is to be done for an account whose owner was asked for.
#[derive(Debug, PartialEq, Eq)]
pub enum OwnerLookup {
    /// Nothing: here is the position of the owner, if it has one.
    Known(Option<usize>),
    /// The account with this address is to be fetched.
    Fetch(Pubkey),
}

struct CacheEntry {
    key: Pubkey,
    account: Account,
}

/// Whether an entry for `key` is among `entries`.
spec fn has_entry(entries: Seq<CacheEntry>, key: Pubkey) -> bool {
    exists|i: int| 0 <= i < entries.len() && (#[trigger] entries[i]).key == key
}

/// Where the entry for `key` is.
spec fn entry_position(entries: Seq<CacheEntry>, key: Pubkey) -> int {
    choose|i: int| 0 <= i < entries.len() && (#[trigger] entries[i]).key == key
}

/// The accounts in `entries` by their addresses.
spec fn entry_map(entries: Seq<CacheEntry>) -> Map<Pubkey, AccountView> {
    Map::new(
        |key: Pubkey| has_entry(entries, key),
        |key: Pubkey| entries[entry_position(entries, key)].account@,
    )
}

/// No address occurs twice.
spec fn keys_unique(entries: Seq<CacheEntry>) -> bool {
    forall|i: int, j: int|
        0 <= i < entries.len() && 0 <= j < entries.len() && (#[trigger] entries[i]).key == (
        #[trigger] entries[j]).key ==> i == j
}

/// The accounts fetched so far through a client.
pub struct RollUpAccountLoader<'a, C> {
    cache: Vec<CacheEntry>,
    rpc_client: &'a C,
}

impl<'a, C> View for RollUpAccountLoader<'a, C> {
    type V = Map<Pubkey, AccountView>;

    closed spec fn view(&self) -> Map<Pubkey, AccountView> {
        entry_map(self.cache@)
    }
}

impl<'a, C> RollUpAccountLoader<'a, C> {
    #[verifier::type_invariant]
    spec fn well_formed(self) -> bool {
        keys_unique(self.cache@)
    }

    /// The client that accounts are fetched through.
    pub closed spec fn client(self) -> &'a C {
        self.rpc_client
    }

    /// A loader that has fetched nothing yet.
    pub fn new(rpc_client: &'a C) -> (loader: Self)
        ensures
            loader@ == Map::<Pubkey, AccountView>::empty(),
            loader.client() == rpc_client,
    {
        let loader = RollUpAccountLoader { cache: Vec::new(), rpc_client };
        assert(loader@ =~= Map::<Pubkey, AccountView>::empty());
        loader
    }

    /// The client that accounts are fetched through.
    pub fn rpc_client(&self) -> (rpc_client: &'a C)
        ensures
            rpc_client == self.client(),
    {
        self.rpc_client
    }

    /// Where the entry for `key` is, if there is one.
    fn find(&self, key: &Pubkey) -> (found: Option<usize>)
        ensures
            match found {
                Some(i) => {
                    &&& i < self.cache@.len()
                    &&& self.cache@[i as int].key == *key
                    &&& self@.dom().contains(*key)
                    &&& self@[*key] == self.cache@[i as int].account@
                },
                None => {
                    &&& !has_entry(self.cache@, *key)
                    &&& !self@.dom().contains(*key)
                },
            },
    {
        proof {
            use_type_invariant(self);
        }
        let mut i: usize = 0;
        while i < self.cache.len()
            invariant
                i <= self.cache.len(),
                keys_unique(self.cache@),
                forall|j: int| 0 <= j < i ==> (#[trigger] self.cache@[j]).key != *key,
            decreases self.cache.len() - i,
        {
            if self.cache[i].key == *key {
                assert(has_entry(self.cache@, *key));
                return Some(i);
            }
            i += 1;
        }
        None
    }

    /// The account with the given address, where it was fetched before; else that it is to be
    /// fetched now.
    pub fn get_account_shared_data(&self, pubkey: &Pubkey) -> (lookup: AccountLookup)
        ensures
            match lookup {
                AccountLookup::Cached(account) => {
                    &&& self@.dom().contains(*pubkey)
                    &&& account@ == self@[*pubkey]
                    &&& account.lamports == self@[*pubkey].lamports
                    &&& account.data@ == self@[*pubkey].data
                    &&& account.owner == self@[*pubkey].owner
                    &&& account.executable == self@[*pubkey].executable
                    &&& account.rent_epoch == self@[*pubkey].rent_epoch
                },
                AccountLookup::Fetch(key) => !self@.dom().contains(*pubkey) && key == *pubkey,
            },
    {
        match self.find(pubkey) {
            Some(i) => AccountLookup::Cached(self.cache[i].account.clone()),
            None => AccountLookup::Fetch(*pubkey),
        }
    }

    /// Takes the reply to a fetch of the account with the given address: keeps the account, in
    /// place of one fetched earlier, and returns it. A fetch that failed changes nothing.
    pub fn account_fetched(&mut self, pubkey: &Pubkey, reply: Option<Account>) -> (account: Option<
        Account,
    >)
        ensures
            final(self)@ == after_fetch(
                old(self)@,
                *pubkey,
                match reply {
                    Some(fetched) => Some(fetched@),
                    None => None,
                },
            ),
            final(self).client() == old(self).client(),
            match reply {
                Some(fetched) => account matches Some(returned) && {
                    &&& returned@ == fetched@
                    &&& returned.lamports == fetched.lamports
                    &&& returned.data@ == fetched.data@
                    &&& returned.owner == fetched.owner
                    &&& returned.executable == fetched.executable
                    &&& returned.rent_epoch == fetched.rent_epoch
                },
                None => account is None,
            },
    {
        let fetched = match reply {
            Some(fetched) => fetched,
            None => {
                return None;
            },
        };
        proof {
            use_type_invariant(&*self);
        }
        let returned = fetched.clone();
        let found = self.find(pubkey);
        let ghost before = self.cache@;
        let mut cache: Vec<CacheEntry> = Vec::new();
        std::mem::swap(&mut cache, &mut self.cache);
        let entry = CacheEntry { key: *pubkey, account: fetched };
        match found {
            Some(i) => {
                cache.set(i, entry);
                proof {
                    lemma_replace(before, i as int, entry);
                }
            },
            None => {
                cache.push(entry);
                proof {
                    lemma_append(before, entry);
                }
            },
        }
        self.cache = cache;
        Some(returned)
    }

    /// The position among `owners` of the owner of the account with the given address, where it
    /// was fetched before; else that it is to be fetched now, and `owner_position` to be asked.
    pub fn account_matches_owners(&self, account: &Pubkey, owners: &[Pubkey]) -> (lookup:
        OwnerLookup)
        ensures
            match lookup {
                OwnerLookup::Known(position) => self@.dom().contains(*account)
                    && is_owner_position(position, Some(self@[*account]), owners@),
                OwnerLookup::Fetch(key) => !self@.dom().contains(*account) && key == *account,
            },
            lookup matches OwnerLookup::Known(position) ==> {
                &&& position is Some <==> owners@.contains(self@[*account].owner)
                &&& position matches Some(i) ==> {
                    &&& i < owners@.len()
                    &&& owners@[i as int] == self@[*account].owner
                    &&& !owners@.take(i as int).contains(self@[*account].owner)
                }
            },
    {
        match self.find(account) {
            Some(i) => OwnerLookup::Known(owner_position(Some(&self.cache[i].account), owners)),
            None => OwnerLookup::Fetch(*account),
        }
    }
}

/// Whether `position` is that of the first of `owners` that owns `account`, and `None` where none
/// does or there is no account.
pub open spec fn is_owner_position(
    position: Option<usize>,
    account: Option<AccountView>,
    owners: Seq<Pubkey>,
) -> bool {
    match account {
        Some(account) => match position {
            Some(i) => {
                &&& i < owners.len()
                &&& owners[i as int] == account.owner
                &&& forall|j: int| 0 <= j < i ==> owners[j] != account.owner
            },
            None => !owners.contains(account.owner),
        },
        None => position is None,
    }
}

/// The position among `owners` of the owner of `account`: the first one, if any. Where there is no
/// account there is no position.
pub fn owner_position(account: Option<&Account>, owners: &[Pubkey]) -> (position: Option<usize>)
    ensures
        is_owner_position(
            position,
            match account {
                Some(account) => Some(account@),
                None => None,
            },
            owners@,
        ),
        position is Some <==> (account matches Some(account) && owners@.contains(account.owner)),
        position matches Some(i) ==> (account matches Some(account) && {
            &&& i < owners@.len()
            &&& owners@[i as int] == account.owner
            &&& !owners@.take(i as int).contains(account.owner)
        }),
{
    let owner = match account {
        Some(account) => account.owner,
        None => {
            return None;
        },
    };
    let mut i: usize = 0;
    while i < owners.len()
        invariant
            i <= owners.len(),
            account matches Some(account) && account.owner == owner,
            forall|j: int| 0 <= j < i ==> owners@[j] != owner,
        decreases owners.len() - i,
    {
        if owner == owners[i] {
            return Some(i);
        }
        i += 1;
    }
    None
}

/// The accounts known once a fetch of `key` was answered with `reply`.
pub open spec fn after_fetch(
    known: Map<Pubkey, AccountView>,
    key: Pubkey,
    reply: Option<AccountView>,
) -> Map<Pubkey, AccountView> {
    match reply {
        Some(account) => known.insert(key, account),
        None => known,
    }
}

/// An account that was fetched is known from then on, as it was fetched.
pub proof fn law_fetched_account_is_known(
    known: Map<Pubkey, AccountView>,
    key: Pubkey,
    account: AccountView,
)
    ensures
        after_fetch(known, key, Some(account)).dom().contains(key),
        after_fetch(known, key, Some(account))[key] == account,
{
}

/// A fetch makes no account unknown and touches none but the one it is for, and a fetch that
/// failed touches none at all.
pub proof fn law_fetch_keeps_the_other_accounts(
    known: Map<Pubkey, AccountView>,
    key: Pubkey,
    reply: Option<AccountView>,
    other: Pubkey,
)
    ensures
        known.dom().contains(other) ==> after_fetch(known, key, reply).dom().contains(other),
        other != key || reply is None ==> {
            &&& after_fetch(known, key, reply).dom().contains(other) == known.dom().contains(other)
            &&& after_fetch(known, key, reply)[other] == known[other]
        },
{
}

/// Of two fetches of one account the later one counts.
pub proof fn law_later_fetch_counts(
    known: Map<Pubkey, AccountView>,
    key: Pubkey,
    first: AccountView,
    second: AccountView,
)
    ensures
        after_fetch(after_fetch(known, key, Some(first)), key, Some(second)) == after_fetch(
            known,
            key,
            Some(second),
        ),
{
    assert(after_fetch(after_fetch(known, key, Some(first)), key, Some(second)) =~= after_fetch(
        known,
        key,
        Some(second),
    ));
}

/// The accounts known once all of `fetches`, each with its reply, were made in order.
pub open spec fn after_fetches(
    known: Map<Pubkey, AccountView>,
    fetches: Seq<(Pubkey, Option<AccountView>)>,
) -> Map<Pubkey, AccountView>
    decreases fetches.len(),
{
    if fetches.len() == 0 {
        known
    } else {
        after_fetch(
            after_fetches(known, fetches.drop_last()),
            fetches.last().0,
            fetches.last().1,
        )
    }
}

/// Whether each of `fetches` is one that a loader which starts with `known` asks for: of an
/// account that it does not know by then.
pub open spec fn asked_for(
    known: Map<Pubkey, AccountView>,
    fetches: Seq<(Pubkey, Option<AccountView>)>,
) -> bool {
    forall|i: int|
        0 <= i < fetches.len() ==> !after_fetches(known, #[trigger] fetches.take(i)).dom().contains(
            fetches[i].0,
        )
}

/// What is known after some of `fetches` stays known after more of them.
proof fn lemma_known_stays_known(
    known: Map<Pubkey, AccountView>,
    fetches: Seq<(Pubkey, Option<AccountView>)>,
    i: int,
    j: int,
    key: Pubkey,
)
    requires
        0 <= i <= j <= fetches.len(),
        after_fetches(known, fetches.take(i)).dom().contains(key),
    ensures
        after_fetches(known, fetches.take(j)).dom().contains(key),
    decreases j - i,
{
    if i < j {
        lemma_known_stays_known(known, fetches, i, j - 1, key);
        assert(fetches.take(j).drop_last() =~= fetches.take(j - 1));
    }
}

/// A loader asks for no account again once a fetch of it succeeded, and for none that it knew
/// from the start.
pub proof fn law_account_is_fetched_once(
    known: Map<Pubkey, AccountView>,
    fetches: Seq<(Pubkey, Option<AccountView>)>,
    i: int,
    j: int,
)
    requires
        asked_for(known, fetches),
        0 <= i < j < fetches.len(),
        fetches[i].0 == fetches[j].0,
    ensures
        fetches[i].1 is None,
        !known.dom().contains(fetches[i].0),
{
    assert(fetches.take(i + 1).drop_last() =~= fetches.take(i));
    assert(!after_fetches(known, fetches.take(j)).dom().contains(fetches[j].0));
    if fetches[i].1 is Some {
        lemma_known_stays_known(known, fetches, i + 1, j, fetches[j].0);
    }
    assert(fetches.take(0) =~= Seq::<(Pubkey, Option<AccountView>)>::empty());
    if known.dom().contains(fetches[j].0) {
        lemma_known_stays_known(known, fetches, 0, j, fetches[j].0);
    }
}

/// A loader that starts with no accounts knows none but those that its own fetches brought, each as
/// a fetch brought it.
pub proof fn law_only_own_fetches_are_known(
    fetches: Seq<(Pubkey, Option<AccountView>)>,
    key: Pubkey,
)
    requires
        after_fetches(Map::empty(), fetches).dom().contains(key),
    ensures
        exists|i: int|
            0 <= i < fetches.len() && #[trigger] fetches[i] == (
                key,
                Some(after_fetches(Map::empty(), fetches)[key]),
            ),
    decreases fetches.len(),
{
    if fetches.len() > 0 {
        let before = fetches.drop_last();
        if fetches.last().0 == key && fetches.last().1 is Some {
            assert(fetches[fetches.len() - 1] == (
                key,
                Some(after_fetches(Map::empty(), fetches)[key]),
            ));
        } else {
            law_only_own_fetches_are_known(before, key);
            let i = choose|i: int|
                0 <= i < before.len() && #[trigger] before[i] == (
                    key,
                    Some(after_fetches(Map::empty(), before)[key]),
                );
            assert(fetches[i] == before[i]);
        }
    }
}

/// An account has one position among its owners at most.
pub proof fn law_owner_position_is_unique(
    first: Option<usize>,
    second: Option<usize>,
    account: Option<AccountView>,
    owners: Seq<Pubkey>,
)
    requires
        is_owner_position(first, account, owners),
        is_owner_position(second, account, owners),
    ensures
        first == second,
{
    if let (Some(i), Some(j)) = (first, second) {
        assert(owners[i as int] == owners[j as int]);
    }
}

/// Replacing the entry for an address replaces its account.
proof fn lemma_replace(entries: Seq<CacheEntry>, i: int, entry: CacheEntry)
    requires
        keys_unique(entries),
        0 <= i < entries.len(),
        entries[i].key == entry.key,
    ensures
        keys_unique(entries.update(i, entry)),
        entry_map(entries.update(i, entry)) == entry_map(entries).insert(entry.key, entry.account@),
{
    let after = entries.update(i, entry);
    assert forall|j: int| 0 <= j < after.len() implies (#[trigger] after[j]).key == entries[j].key by {}
    assert(after[i] == entry);
    assert forall|key: Pubkey| has_entry(after, key) == has_entry(entries, key) by {
        if has_entry(entries, key) {
            let j = entry_position(entries, key);
            assert(after[j].key == key);
        }
    }
    assert forall|key: Pubkey| has_entry(entries, key) implies entry_map(after)[key] == entry_map(
        entries,
    ).insert(entry.key, entry.account@)[key] by {
        assert(has_entry(after, key));
        assert(entry_position(after, key) == entry_position(entries, key));
    }
    assert(entry_map(after) =~= entry_map(entries).insert(entry.key, entry.account@));
}

/// Appending an entry for a new address adds its account.
proof fn lemma_append(entries: Seq<CacheEntry>, entry: CacheEntry)
    requires
        keys_unique(entries),
        !has_entry(entries, entry.key),
    ensures
        keys_unique(entries.push(entry)),
        entry_map(entries.push(entry)) == entry_map(entries).insert(entry.key, entry.account@),
{
    let after = entries.push(entry);
    assert(after[entries.len() as int] == entry);
    assert forall|j: int| 0 <= j < entries.len() implies #[trigger] after[j] == entries[j] by {}
    assert(keys_unique(after));
    assert forall|key: Pubkey| has_entry(after, key) == (has_entry(entries, key) || key == entry.key) by {
        if has_entry(entries, key) {
            let j = entry_position(entries, key);
            assert(after[j].key == key);
        }
    }
    assert forall|key: Pubkey| has_entry(after, key) implies entry_map(after)[key] == entry_map(
        entries,
    ).insert(entry.key, entry.account@)[key] by {
        let p = entry_position(after, key);
        if key == entry.key {
            assert(p == entries.len());
        } else {
            assert(has_entry(entries, key));
            assert(after[entry_position(entries, key)].key == key);
            assert(p == entry_position(entries, key));
        }
    }
    assert(entry_map(after) =~= entry_map(entries).insert(entry.key, entry.account@));
}

/// The model of an account has every field of the account, so accounts with equal models agree in
/// their lamports, data, owner, whether they can be executed, and rent epoch.
pub proof fn law_account_model_keeps_every_field(account: Account, other: Account)
    ensures
        account@.lamports == account.lamports,
        account@.data == account.data@,
        account@.owner == account.owner,
        account@.executable == account.executable,
        account@.rent_epoch == account.rent_epoch,
        account@ == other@ ==> {
            &&& account.lamports == other.lamports
            &&& account.data@ == other.data@
            &&& account.owner == other.owner
            &&& account.executable == other.executable
            &&& account.rent_epoch == other.rent_epoch
        },
{
}

/// There is a position wherever the owner of the account is among the owners, however far back, and
/// nowhere else. The owner stands at that position and does not occur before it. Where there is no
/// account there is no position.
pub proof fn law_owner_is_found_wherever_it_is(
    position: Option<usize>,
    account: AccountView,
    owners: Seq<Pubkey>,
)
    requires
        is_owner_position(position, Some(account), owners),
    ensures
        position is Some <==> owners.contains(account.owner),
        position is Some <==> exists|i: int|
            0 <= i < owners.len() && #[trigger] owners[i] == account.owner,
        position matches Some(i) ==> {
            &&& i < owners.len()
            &&& owners[i as int] == account.owner
            &&& !owners.take(i as int).contains(account.owner)
        },
{
    if let Some(i) = position {
        assert(owners[i as int] == account.owner);
        assert(owners.contains(account.owner));
    }
}

/// Where there is no account there is no position of its owner.
pub proof fn law_missing_account_has_no_owner(position: Option<usize>, owners: Seq<Pubkey>)
    requires
        is_owner_position(position, None, owners),
    ensures
        position is None,
{
}

/// No fetches leave what is known, and one more fetch adds what it brings.
pub proof fn law_fetches_add_up(
    known: Map<Pubkey, AccountView>,
    fetches: Seq<(Pubkey, Option<AccountView>)>,
    key: Pubkey,
    account: AccountView,
)
    ensures
        after_fetches(known, Seq::empty()) == known,
        after_fetches(known, fetches.push((key, Some(account)))) == after_fetches(
            known,
            fetches,
        ).insert(key, account),
        after_fetches(known, fetches.push((key, None))) == after_fetches(known, fetches),
{
    assert(fetches.push((key, Some(account))).drop_last() =~= fetches);
    assert(fetches.push((key, None)).drop_last() =~= fetches);
}

/// Fetches are such as a loader asks for where each is of an account that is unknown after those
/// before it: that holds of no fetches, and of one more where its account is unknown by then.
pub proof fn law_which_fetches_are_asked_for(
    known: Map<Pubkey, AccountView>,
    fetches: Seq<(Pubkey, Option<AccountView>)>,
    next: (Pubkey, Option<AccountView>),
)
    ensures
        asked_for(known, Seq::empty()),
        asked_for(known, fetches.push(next)) <==> asked_for(known, fetches) && !after_fetches(
            known,
            fetches,
        ).dom().contains(next.0),
{
    let more = fetches.push(next);
    assert forall|i: int| 0 <= i <= fetches.len() implies #[trigger] more.take(i) == fetches.take(i) by {
        assert(more.take(i) =~= fetches.take(i));
    }
    assert(fetches.take(fetches.len() as int) =~= fetches);
    assert(more[fetches.len() as int] == next);
    if asked_for(known, more) {
        assert forall|i: int| 0 <= i < fetches.len() implies !after_fetches(
            known,
            #[trigger] fetches.take(i),
        ).dom().contains(fetches[i].0) by {
            assert(more.take(i) == fetches.take(i));
            assert(more[i] == fetches[i]);
        }
        assert(!after_fetches(known, more.take(fetches.len() as int)).dom().contains(next.0));
    }
    if asked_for(known, fetches) && !after_fetches(known, fetches).dom().contains(next.0) {
        assert forall|i: int| 0 <= i < more.len() implies !after_fetches(
            known,
            #[trigger] more.take(i),
        ).dom().contains(more[i].0) by {
            assert(more.take(i) == fetches.take(i));
            if i < fetches.len() {
                assert(more[i] == fetches[i]);
            }
        }
    }
}

} // verus!
