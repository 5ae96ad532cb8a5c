use vstd::prelude::*;

use crate::rps_manager::RpsManager;

verus! {

/// The map that an ordered list of (account, entry) pairs stands for.
pub open spec fn entry_map(s: Seq<(String, RpsManager)>) -> Map<Seq<char>, RpsManager>
    decreases s.len(),
{
    if s.len() == 0 {
        Map::empty()
    } else {
        entry_map(s.drop_last()).insert(s.last().0@, s.last().1)
    }
}

/// No account occurs twice in the list.
pub open spec fn keys_unique(s: Seq<(String, RpsManager)>) -> bool {
    forall|i: int, j: int| 0 <= i < j < s.len() ==> s[i].0@ != s[j].0@
}

proof fn lemma_entry_map_absent(s: Seq<(String, RpsManager)>, k: Seq<char>)
    requires
        forall|i: int| 0 <= i < s.len() ==> s[i].0@ != k,
    ensures
        !entry_map(s).contains_key(k),
    decreases s.len(),
{
    if s.len() > 0 {
        lemma_entry_map_absent(s.drop_last(), k);
    }
}

proof fn lemma_entry_map_at(s: Seq<(String, RpsManager)>, i: int)
    requires
        keys_unique(s),
        0 <= i < s.len(),
    ensures
        entry_map(s).contains_key(s[i].0@),
        entry_map(s)[s[i].0@] == s[i].1,
    decreases s.len(),
{
    if i < s.len() - 1 {
        lemma_entry_map_at(s.drop_last(), i);
    }
}

proof fn lemma_entry_map_update(s: Seq<(String, RpsManager)>, i: int, v: RpsManager)
    requires
        keys_unique(s),
        0 <= i < s.len(),
    ensures
        entry_map(s.update(i, (s[i].0, v))) == entry_map(s).insert(s[i].0@, v),
    decreases s.len(),
{
    let t = s.update(i, (s[i].0, v));
    if i == s.len() - 1 {
        assert(t.drop_last() == s.drop_last());
        lemma_entry_map_absent(s.drop_last(), s[i].0@);
        assert(entry_map(t) =~= entry_map(s).insert(s[i].0@, v));
    } else {
        assert(t.drop_last() == s.drop_last().update(i, (s[i].0, v)));
        lemma_entry_map_update(s.drop_last(), i, v);
        assert(entry_map(t) =~= entry_map(s).insert(s[i].0@, v));
    }
}

proof fn lemma_entry_map_remove(s: Seq<(String, RpsManager)>, i: int)
    requires
        keys_unique(s),
        0 <= i < s.len(),
    ensures
        entry_map(s.remove(i)) == entry_map(s).remove(s[i].0@),
    decreases s.len(),
{
    let t = s.remove(i);
    if i == s.len() - 1 {
        assert(t == s.drop_last());
        lemma_entry_map_absent(s.drop_last(), s[i].0@);
        assert(entry_map(t) =~= entry_map(s).remove(s[i].0@));
    } else {
        assert(t.drop_last() == s.drop_last().remove(i));
        lemma_entry_map_remove(s.drop_last(), i);
        assert(entry_map(t) =~= entry_map(s).remove(s[i].0@));
    }
}

/// The reward entries of all known accounts, keyed by account identifier.
pub struct AccountsRps {
    entries: Vec<(String, RpsManager)>,
}

impl View for AccountsRps {
    type V = Map<Seq<char>, RpsManager>;

    closed spec fn view(&self) -> Map<Seq<char>, RpsManager> {
        entry_map(self.entries@)
    }
}

impl AccountsRps {
    /// Each account has at most one entry.
    pub closed spec fn wf(&self) -> bool {
        keys_unique(self.entries@)
    }

    /// No entries.
    pub fn new() -> (r: Self)
        ensures
            r.wf(),
            r@ == Map::<Seq<char>, RpsManager>::empty(),
    {
        AccountsRps { entries: Vec::new() }
    }

    /// Position of the account's entry in the list.
    fn find(&self, account_id: &String) -> (r: Option<usize>)
        requires
            self.wf(),
        ensures
            match r {
                Some(i) => i < self.entries@.len() && self.entries@[i as int].0@ == account_id@,
                None => !self@.contains_key(account_id@),
            },
    {
        let mut i: usize = 0;
        while i < self.entries.len()
            invariant
                i <= self.entries@.len(),
                forall|j: int| 0 <= j < i ==> self.entries@[j].0@ != account_id@,
            decreases self.entries@.len() - i,
        {
            if self.entries[i].0 == *account_id {
                return Some(i);
            }
            i = i + 1;
        }
        proof {
            lemma_entry_map_absent(self.entries@, account_id@);
        }
        None
    }

    /// Whether the account has an entry.
    pub fn contains_key(&self, account_id: &String) -> (r: bool)
        requires
            self.wf(),
        ensures
            r == self@.contains_key(account_id@),
    {
        match self.find(account_id) {
            Some(i) => {
                proof {
                    lemma_entry_map_at(self.entries@, i as int);
                }
                true
            },
            None => false,
        }
    }

    /// The account's entry, if it has one.
    pub fn get(&self, account_id: &String) -> (r: Option<RpsManager>)
        requires
            self.wf(),
        ensures
            r == (if self@.contains_key(account_id@) {
                Some(self@[account_id@])
            } else {
                None
            }),
    {
        match self.find(account_id) {
            Some(i) => {
                proof {
                    lemma_entry_map_at(self.entries@, i as int);
                }
                Some(self.entries[i].1)
            },
            None => None,
        }
    }

    /// Sets the account's entry, adding the account if it is new.
    pub fn insert(&mut self, account_id: &String, value: RpsManager)
        requires
            old(self).wf(),
        ensures
            final(self).wf(),
            final(self)@ == old(self)@.insert(account_id@, value),
    {
        match self.find(account_id) {
            Some(i) => {
                proof {
                    lemma_entry_map_update(self.entries@, i as int, value);
                }
                self.entries[i].1 = value;
            },
            None => {
                proof {
                    assert forall|j: int| 0 <= j < self.entries@.len() implies self.entries@[j].0@
                        != account_id@ by {
                        if self.entries@[j].0@ == account_id@ {
                            lemma_entry_map_at(self.entries@, j);
                        }
                    }
                }
                self.entries.push((account_id.clone(), value));
                proof {
                    assert(self.entries@.drop_last() == old(self).entries@);
                }
            },
        }
    }

    /// Removes the account's entry; says whether there was one.
    pub fn remove(&mut self, account_id: &String) -> (r: bool)
        requires
            old(self).wf(),
        ensures
            final(self).wf(),
            r == old(self)@.contains_key(account_id@),
            final(self)@ == old(self)@.remove(account_id@),
    {
        match self.find(account_id) {
            Some(i) => {
                proof {
                    lemma_entry_map_at(self.entries@, i as int);
                    lemma_entry_map_remove(self.entries@, i as int);
                }
                self.entries.remove(i);
                true
            },
            None => {
                proof {
                    assert(old(self)@.remove(account_id@) =~= old(self)@);
                }
                false
            },
        }
    }
}

} // verus!
