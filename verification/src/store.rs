use vstd::prelude::*;

use crate::account::Account;

verus! {

/// One keyed entry of the store: an identifier and the account it names.
struct StoreEntry {
    id: String,
    account: Account,
}

/// No two entries carry the same identifier.
spec fn unique_ids(s: Seq<StoreEntry>) -> bool {
    forall|i: int, j: int| 0 <= i < j < s.len() ==> s[i].id@ != s[j].id@
}

/// The mapping an entry sequence denotes; on duplicate identifiers the
/// later entry wins.
spec fn map_of(s: Seq<StoreEntry>) -> Map<Seq<char>, Account>
    decreases s.len(),
{
    if s.len() == 0 {
        Map::empty()
    } else {
        map_of(s.drop_last()).insert(s.last().id@, s.last().account)
    }
}

proof fn lemma_map_of_contains(s: Seq<StoreEntry>, k: Seq<char>)
    ensures
        map_of(s).contains_key(k) <==> exists|i: int| 0 <= i < s.len() && s[i].id@ == k,
    decreases s.len(),
{
    if s.len() > 0 {
        lemma_map_of_contains(s.drop_last(), k);
        if s.last().id@ != k {
            if map_of(s).contains_key(k) {
                let i = choose|i: int| 0 <= i < s.drop_last().len() && s.drop_last()[i].id@ == k;
                assert(s[i].id@ == k);
            }
            if exists|i: int| 0 <= i < s.len() && s[i].id@ == k {
                let i = choose|i: int| 0 <= i < s.len() && s[i].id@ == k;
                assert(s.drop_last()[i].id@ == k);
            }
        }
    }
}

proof fn lemma_map_of_index(s: Seq<StoreEntry>, i: int)
    requires
        unique_ids(s),
        0 <= i < s.len(),
    ensures
        map_of(s).contains_key(s[i].id@),
        map_of(s)[s[i].id@] == s[i].account,
    decreases s.len(),
{
    if i < s.len() - 1 {
        lemma_map_of_index(s.drop_last(), i);
        assert(s.drop_last()[i] == s[i]);
        assert(s[i].id@ != s.last().id@);
    }
}

proof fn lemma_map_of_update(s: Seq<StoreEntry>, i: int, e: StoreEntry)
    requires
        unique_ids(s),
        0 <= i < s.len(),
        e.id@ == s[i].id@,
    ensures
        unique_ids(s.update(i, e)),
        map_of(s.update(i, e)) == map_of(s).insert(e.id@, e.account),
    decreases s.len(),
{
    let t = s.update(i, e);
    if i == s.len() - 1 {
        assert(t.drop_last() =~= s.drop_last());
        assert(map_of(t) =~= map_of(s).insert(e.id@, e.account));
    } else {
        lemma_map_of_update(s.drop_last(), i, e);
        assert(t.drop_last() =~= s.drop_last().update(i, e));
        assert(t.last() == s.last());
        assert(s[i].id@ != s.last().id@);
        assert(map_of(t) =~= map_of(s).insert(e.id@, e.account));
    }
}

/// The mapping from account identifier to account state: keys unique, no
/// ordering semantics, the single source of truth for balances and
/// sequence numbers.
pub struct AccountStore {
    entries: Vec<StoreEntry>,
}

impl View for AccountStore {
    type V = Map<Seq<char>, Account>;

    closed spec fn view(&self) -> Map<Seq<char>, Account> {
        map_of(self.entries@)
    }
}

impl AccountStore {
    /// The store never holds two entries under one identifier.
    pub closed spec fn wf(&self) -> bool {
        unique_ids(self.entries@)
    }

    /// An empty store.
    pub fn new() -> (r: AccountStore)
        ensures
            r.wf(),
            r@ == Map::<Seq<char>, Account>::empty(),
    {
        AccountStore { entries: Vec::new() }
    }

    /// Read one account; no side effect.
    pub fn get(&self, id: &String) -> (r: Option<Account>)
        requires
            self.wf(),
        ensures
            r == (if self@.contains_key(id@) {
                Some(self@[id@])
            } else {
                None::<Account>
            }),
    {
        proof {
            lemma_map_of_contains(self.entries@, id@);
        }
        let n = self.entries.len();
        let mut i: usize = 0;
        while i < n
            invariant
                self.wf(),
                n == self.entries@.len(),
                0 <= i <= n,
                forall|k: int| 0 <= k < i ==> self.entries@[k].id@ != id@,
            decreases n - i,
        {
            if self.entries[i].id == *id {
                proof {
                    lemma_map_of_index(self.entries@, i as int);
                }
                return Some(self.entries[i].account);
            }
            i += 1;
        }
        None
    }

    /// The receiver-side read: the stored account, or a fresh zero account
    /// if the identifier is absent. Nothing is committed to the store.
    pub fn get_or_default(&self, id: &String) -> (r: Account)
        requires
            self.wf(),
        ensures
            r == (if self@.contains_key(id@) {
                self@[id@]
            } else {
                Account { balance: 0, sequence: 0 }
            }),
    {
        match self.get(id) {
            Some(account) => account,
            None => Account { balance: 0, sequence: 0 },
        }
    }

    /// Overwrite-or-create: replace the whole entry under `id`, creating it
    /// if absent. No entry is ever partially mutated.
    pub fn upsert(&mut self, id: String, account: Account)
        requires
            old(self).wf(),
        ensures
            final(self).wf(),
            final(self)@ == old(self)@.insert(id@, account),
    {
        let n = self.entries.len();
        let mut i: usize = 0;
        while i < n
            invariant
                self.wf(),
                self.entries@ == old(self).entries@,
                n == self.entries@.len(),
                0 <= i <= n,
                forall|k: int| 0 <= k < i ==> self.entries@[k].id@ != id@,
            decreases n - i,
        {
            if self.entries[i].id == id {
                proof {
                    lemma_map_of_update(
                        self.entries@,
                        i as int,
                        StoreEntry { id: id, account: account },
                    );
                }
                self.entries[i] = StoreEntry { id, account };
                return;
            }
            i += 1;
        }
        proof {
            lemma_map_of_contains(self.entries@, id@);
            assert(self.entries@.push(StoreEntry { id: id, account: account }).drop_last()
                =~= self.entries@);
        }
        self.entries.push(StoreEntry { id, account });
    }
}

} // verus!
