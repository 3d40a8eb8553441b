use vstd::prelude::*;
use crate::db::key::{spec_user_key, user_key, user_key_injective};
use crate::db::table::{lemma_map_of_distinct_pairs, map_of_pairs, KeyTable};
use crate::error::AppError;

verus! {

/// What a user chose: the soul (persona) the bot speaks with.
#[derive(Debug)]
pub struct UserPrefs {
    pub soul: String,
}

impl Clone for UserPrefs {
    fn clone(&self) -> (r: Self)
        ensures
            r == *self,
    {
        UserPrefs { soul: self.soul.clone() }
    }
}

/// The soul of a user who chose none.
pub open spec fn spec_default_soul() -> Seq<char> {
    "neuro"@
}

impl Default for UserPrefs {
    fn default() -> (p: Self)
        ensures
            p.soul@ == spec_default_soul(),
    {
        UserPrefs { soul: String::from_str("neuro") }
    }
}

/// The soul stored under `key`, or the default soul when none is.
pub open spec fn spec_soul_of(souls: Map<Seq<char>, Seq<char>>, key: Seq<char>) -> Seq<char> {
    if souls.contains_key(key) {
        souls[key]
    } else {
        spec_default_soul()
    }
}

/// A store of user preferences, by chat and user.
pub trait UserPrefsStore {
    /// The store is in a consistent state.
    spec fn inv(&self) -> bool;

    /// The souls stored, by user key (`spec_user_key`).
    spec fn souls(&self) -> Map<Seq<char>, Seq<char>>;

    /// The preferences of a user: what was set for them, or the default.
    fn get(&self, chat_id: i64, user_id: i64) -> (r: Result<UserPrefs, AppError>)
        requires
            self.inv(),
        ensures
            r matches Ok(p) ==> p.soul@ == spec_soul_of(
                self.souls(),
                spec_user_key(chat_id as int, user_id as int),
            ),
    ;

    /// Stores the preferences of a user, replacing what was set for them.
    fn set(&mut self, chat_id: i64, user_id: i64, prefs: UserPrefs) -> (r: Result<(), AppError>)
        requires
            old(self).inv(),
        ensures
            final(self).inv(),
            r is Ok ==> final(self).souls() == old(self).souls().insert(
                spec_user_key(chat_id as int, user_id as int),
                prefs.soul@,
            ),
    ;
}

/// The preferences of all users, held in memory.
pub struct PrefsBook {
    table: KeyTable<UserPrefs>,
}

impl View for PrefsBook {
    type V = Map<Seq<char>, Seq<char>>;

    /// The souls stored, by user key.
    closed spec fn view(&self) -> Map<Seq<char>, Seq<char>> {
        self.table@.map_values(|p: UserPrefs| p.soul@)
    }
}

impl PrefsBook {
    pub closed spec fn wf(&self) -> bool {
        self.table.wf()
    }

    /// The stored keys, in the order `entry_at` lists them.
    pub closed spec fn keys(&self) -> Seq<Seq<char>> {
        self.table.keys()
    }

    /// The stored keys name each stored user exactly once.
    pub proof fn lemma_keys(&self)
        requires
            self.wf(),
        ensures
            self.keys().no_duplicates(),
            forall|k: Seq<char>| self@.contains_key(k) <==> self.keys().contains(k),
    {
        self.table.lemma_keys();
    }

    /// A book with no preferences stored.
    pub fn new() -> (b: Self)
        ensures
            b.wf(),
            b@ == Map::<Seq<char>, Seq<char>>::empty(),
    {
        let b = PrefsBook { table: KeyTable::new() };
        assert(b@ =~= Map::<Seq<char>, Seq<char>>::empty());
        b
    }

    /// Stores `prefs` under the raw key `key` (as read back from storage).
    pub fn restore(&mut self, key: String, prefs: UserPrefs)
        requires
            old(self).wf(),
        ensures
            final(self).wf(),
            final(self)@ == old(self)@.insert(key@, prefs.soul@),
    {
        let ghost k = key@;
        let ghost s = prefs.soul@;
        self.table.insert(key, prefs);
        assert(self@ =~= old(self)@.insert(k, s));
    }

    /// The number of stored users.
    pub fn len(&self) -> (n: usize)
        requires
            self.wf(),
        ensures
            n == self.keys().len(),
    {
        self.table.len()
    }

    /// The `i`-th stored key and preferences.
    pub fn entry_at(&self, i: usize) -> (r: (&String, &UserPrefs))
        requires
            self.wf(),
            i < self.keys().len(),
        ensures
            r.0@ == self.keys()[i as int],
            self@.contains_key(r.0@),
            self@[r.0@] == r.1.soul@,
    {
        self.table.entry_at(i)
    }
}

/// The stored pairs `(key, soul)` of a list of `(key, preferences)` entries.
pub open spec fn prefs_pairs(entries: Seq<(String, UserPrefs)>) -> Seq<(Seq<char>, Seq<char>)> {
    entries.map_values(|e: (String, UserPrefs)| (e.0@, e.1.soul@))
}

impl PrefsBook {
    /// Every stored entry, in the order of `keys`: what is written to storage.
    pub fn snapshot(&self) -> (v: Vec<(String, UserPrefs)>)
        requires
            self.wf(),
        ensures
            prefs_pairs(v@).len() == self.keys().len(),
            forall|i: int| 0 <= i < self.keys().len()
                ==> #[trigger] prefs_pairs(v@)[i] == (self.keys()[i], self@[self.keys()[i]]),
    {
        let n = self.len();
        let mut v: Vec<(String, UserPrefs)> = Vec::new();
        let mut i: usize = 0;
        while i < n
            invariant
                self.wf(),
                n == self.keys().len(),
                i <= n,
                v@.len() == i,
                forall|j: int| 0 <= j < i
                    ==> #[trigger] prefs_pairs(v@)[j] == (self.keys()[j], self@[self.keys()[j]]),
            decreases n - i,
        {
            let (k, p) = self.entry_at(i);
            let ghost old_v = v@;
            v.push((k.clone(), p.clone()));
            assert forall|j: int| 0 <= j < i + 1
                implies #[trigger] prefs_pairs(v@)[j] == (self.keys()[j], self@[self.keys()[j]]) by {
                if j < i {
                    assert(v@[j] == old_v[j]);
                    assert(prefs_pairs(old_v)[j] == (self.keys()[j], self@[self.keys()[j]]));
                } else {
                    assert(v@[j].0@ == self.keys()[j]);
                    assert(v@[j].1.soul@ == self@[self.keys()[j]]);
                }
            }
            i = i + 1;
        }
        v
    }

    /// A book holding the given entries, stored in turn (a later entry for the same key wins):
    /// what is read back from storage.
    pub fn from_entries(entries: &Vec<(String, UserPrefs)>) -> (b: Self)
        ensures
            b.wf(),
            b@ == map_of_pairs(prefs_pairs(entries@)),
    {
        let mut b = PrefsBook::new();
        let n = entries.len();
        let mut i: usize = 0;
        while i < n
            invariant
                n == entries@.len(),
                i <= n,
                b.wf(),
                b@ == map_of_pairs(prefs_pairs(entries@.subrange(0, i as int))),
            decreases n - i,
        {
            let (k, p) = &entries[i];
            b.restore(k.clone(), p.clone());
            assert(prefs_pairs(entries@.subrange(0, i + 1)).drop_last()
                =~= prefs_pairs(entries@.subrange(0, i as int)));
            i = i + 1;
        }
        assert(entries@.subrange(0, n as int) =~= entries@);
        b
    }
}

/// A book rebuilt from all its stored entries (as written to and read back from storage)
/// answers every read as before.
pub proof fn rebuilt_prefs_book_is_the_same(book: &PrefsBook, pairs: Seq<(Seq<char>, Seq<char>)>)
    requires
        book.wf(),
        pairs.len() == book.keys().len(),
        forall|i: int| 0 <= i < book.keys().len() ==> #[trigger] pairs[i] == (book.keys()[i], book@[book.keys()[i]]),
    ensures
        map_of_pairs(pairs) == book@,
{
    book.lemma_keys();
    let keys = book.keys();
    assert forall|i: int, j: int| 0 <= i < pairs.len() && 0 <= j < pairs.len() && i != j
        implies #[trigger] pairs[i].0 != #[trigger] pairs[j].0 by {
        assert(pairs[i].0 == keys[i] && pairs[j].0 == keys[j]);
    }
    lemma_map_of_distinct_pairs(pairs);
    let m = map_of_pairs(pairs);
    assert forall|k: Seq<char>| m.contains_key(k) <==> book@.contains_key(k) by {
        if m.contains_key(k) {
            let i = choose|i: int| 0 <= i < pairs.len() && pairs[i].0 == k;
            assert(keys[i] == k);
            assert(keys.contains(k));
        }
        if book@.contains_key(k) {
            assert(keys.contains(k));
            let i = choose|i: int| 0 <= i < keys.len() && keys[i] == k;
            assert(pairs[i].0 == k);
        }
    }
    assert forall|k: Seq<char>| #[trigger] m.contains_key(k) implies m[k] == book@[k] by {
        let i = choose|i: int| 0 <= i < pairs.len() && pairs[i].0 == k;
        assert(pairs[i] == (keys[i], book@[keys[i]]));
    }
    assert(m =~= book@);
}

impl UserPrefsStore for PrefsBook {
    open spec fn inv(&self) -> bool {
        self.wf()
    }

    open spec fn souls(&self) -> Map<Seq<char>, Seq<char>> {
        self@
    }

    fn get(&self, chat_id: i64, user_id: i64) -> (r: Result<UserPrefs, AppError>)
        ensures
            r is Ok,
    {
        let key = user_key(chat_id, user_id);
        match self.table.get(&key) {
            Some(p) => Ok(p.clone()),
            None => Ok(UserPrefs::default()),
        }
    }

    fn set(&mut self, chat_id: i64, user_id: i64, prefs: UserPrefs) -> (r: Result<(), AppError>)
        ensures
            r is Ok,
    {
        let key = user_key(chat_id, user_id);
        self.restore(key, prefs);
        Ok(())
    }
}

/// After a soul is set for a user, that user gets it back.
pub proof fn get_after_set(souls: Map<Seq<char>, Seq<char>>, chat_id: int, user_id: int, soul: Seq<char>)
    ensures
        spec_soul_of(souls.insert(spec_user_key(chat_id, user_id), soul), spec_user_key(chat_id, user_id))
            == soul,
{
}

/// A user for whom nothing was set has the default soul, `neuro`.
pub proof fn get_unset_is_default(chat_id: int, user_id: int)
    ensures
        spec_soul_of(Map::empty(), spec_user_key(chat_id, user_id)) == spec_default_soul(),
{
}

/// Setting the soul of one user (in one chat) leaves every other user's soul as it was,
/// the same user in another chat included.
pub proof fn set_leaves_others(
    souls: Map<Seq<char>, Seq<char>>,
    chat_id: int,
    user_id: int,
    soul: Seq<char>,
    other_chat: int,
    other_user: int,
)
    requires
        chat_id != other_chat || user_id != other_user,
    ensures
        spec_soul_of(souls.insert(spec_user_key(chat_id, user_id), soul), spec_user_key(other_chat, other_user))
            == spec_soul_of(souls, spec_user_key(other_chat, other_user)),
{
    if spec_user_key(chat_id, user_id) == spec_user_key(other_chat, other_user) {
        user_key_injective(chat_id, user_id, other_chat, other_user);
    }
}

} // verus!
