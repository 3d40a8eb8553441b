use vstd::prelude::*;
use crate::db::key::{spec_user_key, user_key, user_key_injective};
use crate::db::table::{lemma_map_of_distinct_pairs, map_of_pairs, KeyTable};
use crate::error::AppError;
use crate::services::llm::{clone_messages, Message};

verus! {

/// The history stored under `key`, or an empty one when none is.
pub open spec fn spec_history_of(histories: Map<Seq<char>, Seq<Message>>, key: Seq<char>) -> Seq<Message> {
    if histories.contains_key(key) {
        histories[key]
    } else {
        Seq::empty()
    }
}

/// A history after `message` is added to it: the message goes at the end, and when the
/// history then holds more than `max_history` messages the oldest one is dropped.
pub open spec fn spec_bounded_push(history: Seq<Message>, message: Message, max_history: nat) -> Seq<Message> {
    let pushed = history.push(message);
    if pushed.len() > max_history {
        pushed.drop_first()
    } else {
        pushed
    }
}

/// A store of chat histories, by chat and user, each kept to a bounded length.
pub trait HistoryStore {
    /// The store is in a consistent state.
    spec fn inv(&self) -> bool;

    /// The histories stored, by user key (`spec_user_key`).
    spec fn histories(&self) -> Map<Seq<char>, Seq<Message>>;

    /// How many messages a history keeps.
    spec fn max_history(&self) -> nat;

    /// Adds a message at the end of a user's history, dropping the oldest message when the
    /// history grows past `max_history`.
    fn add_message(&mut self, chat_id: i64, user_id: i64, message: Message) -> (r: Result<(), AppError>)
        requires
            old(self).inv(),
        ensures
            final(self).inv(),
            final(self).max_history() == old(self).max_history(),
            r is Ok ==> final(self).histories() == old(self).histories().insert(
                spec_user_key(chat_id as int, user_id as int),
                spec_bounded_push(
                    spec_history_of(old(self).histories(), spec_user_key(chat_id as int, user_id as int)),
                    message,
                    old(self).max_history(),
                ),
            ),
    ;

    /// The history of a user, oldest message first; empty when none is stored.
    fn get_history(&self, chat_id: i64, user_id: i64) -> (r: Result<Vec<Message>, AppError>)
        requires
            self.inv(),
        ensures
            r matches Ok(h) ==> h@ == spec_history_of(
                self.histories(),
                spec_user_key(chat_id as int, user_id as int),
            ),
    ;

    /// Forgets the history of a user.
    fn clear_history(&mut self, chat_id: i64, user_id: i64) -> (r: Result<(), AppError>)
        requires
            old(self).inv(),
        ensures
            final(self).inv(),
            final(self).max_history() == old(self).max_history(),
            r is Ok ==> final(self).histories() == old(self).histories().remove(
                spec_user_key(chat_id as int, user_id as int),
            ),
    ;
}

/// The chat histories of all users, held in memory.
pub struct HistoryBook {
    table: KeyTable<Vec<Message>>,
    max_history: usize,
}

impl View for HistoryBook {
    type V = Map<Seq<char>, Seq<Message>>;

    /// The histories stored, by user key.
    closed spec fn view(&self) -> Map<Seq<char>, Seq<Message>> {
        self.table@.map_values(|v: Vec<Message>| v@)
    }
}

impl HistoryBook {
    pub closed spec fn wf(&self) -> bool {
        self.table.wf()
    }

    /// How many messages a history keeps.
    pub closed spec fn limit(&self) -> nat {
        self.max_history as nat
    }

    /// The stored keys, in the order `entry_at` lists them.
    pub closed spec fn keys(&self) -> Seq<Seq<char>> {
        self.table.keys()
    }

    /// The stored keys name each stored history exactly once.
    pub proof fn lemma_keys(&self)
        requires
            self.wf(),
        ensures
            self.keys().no_duplicates(),
            forall|k: Seq<char>| self@.contains_key(k) <==> self.keys().contains(k),
    {
        self.table.lemma_keys();
    }

    /// A book with no history stored, whose histories keep `max_history` messages.
    pub fn new(max_history: usize) -> (b: Self)
        ensures
            b.wf(),
            b@ == Map::<Seq<char>, Seq<Message>>::empty(),
            b.limit() == max_history,
    {
        let b = HistoryBook { table: KeyTable::new(), max_history };
        assert(b@ =~= Map::<Seq<char>, Seq<Message>>::empty());
        b
    }

    /// Stores `messages` under the raw key `key` (as read back from storage).
    pub fn restore(&mut self, key: String, messages: Vec<Message>)
        requires
            old(self).wf(),
        ensures
            final(self).wf(),
            final(self).limit() == old(self).limit(),
            final(self)@ == old(self)@.insert(key@, messages@),
    {
        let ghost k = key@;
        let ghost m = messages@;
        self.table.insert(key, messages);
        assert(self@ =~= old(self)@.insert(k, m));
    }

    /// The number of stored histories.
    pub fn len(&self) -> (n: usize)
        requires
            self.wf(),
        ensures
            n == self.keys().len(),
    {
        self.table.len()
    }

    /// The `i`-th stored key and history.
    pub fn entry_at(&self, i: usize) -> (r: (&String, &Vec<Message>))
        requires
            self.wf(),
            i < self.keys().len(),
        ensures
            r.0@ == self.keys()[i as int],
            self@.contains_key(r.0@),
            self@[r.0@] == r.1@,
    {
        self.table.entry_at(i)
    }
}

/// The stored pairs `(key, messages)` of a list of `(key, history)` entries.
pub open spec fn history_pairs(entries: Seq<(String, Vec<Message>)>) -> Seq<(Seq<char>, Seq<Message>)> {
    entries.map_values(|e: (String, Vec<Message>)| (e.0@, e.1@))
}

impl HistoryBook {
    /// Every stored history, in the order of `keys`: what is written to storage.
    pub fn snapshot(&self) -> (v: Vec<(String, Vec<Message>)>)
        requires
            self.wf(),
        ensures
            history_pairs(v@).len() == self.keys().len(),
            forall|i: int| 0 <= i < self.keys().len()
                ==> #[trigger] history_pairs(v@)[i] == (self.keys()[i], self@[self.keys()[i]]),
    {
        let n = self.len();
        let mut v: Vec<(String, Vec<Message>)> = Vec::new();
        let mut i: usize = 0;
        while i < n
            invariant
                self.wf(),
                n == self.keys().len(),
                i <= n,
                v@.len() == i,
                forall|j: int| 0 <= j < i
                    ==> #[trigger] history_pairs(v@)[j] == (self.keys()[j], self@[self.keys()[j]]),
            decreases n - i,
        {
            let (k, h) = self.entry_at(i);
            let ghost old_v = v@;
            v.push((k.clone(), clone_messages(h)));
            assert forall|j: int| 0 <= j < i + 1
                implies #[trigger] history_pairs(v@)[j] == (self.keys()[j], self@[self.keys()[j]]) by {
                if j < i {
                    assert(v@[j] == old_v[j]);
                    assert(history_pairs(old_v)[j] == (self.keys()[j], self@[self.keys()[j]]));
                } else {
                    assert(v@[j].0@ == self.keys()[j]);
                    assert(v@[j].1@ == self@[self.keys()[j]]);
                }
            }
            i = i + 1;
        }
        v
    }

    /// A book holding the given histories, stored in turn and not cut to `max_history` (a later
    /// entry for the same key wins): what is read back from storage.
    pub fn from_entries(entries: &Vec<(String, Vec<Message>)>, max_history: usize) -> (b: Self)
        ensures
            b.wf(),
            b.limit() == max_history,
            b@ == map_of_pairs(history_pairs(entries@)),
    {
        let mut b = HistoryBook::new(max_history);
        let n = entries.len();
        let mut i: usize = 0;
        while i < n
            invariant
                n == entries@.len(),
                i <= n,
                b.wf(),
                b.limit() == max_history,
                b@ == map_of_pairs(history_pairs(entries@.subrange(0, i as int))),
            decreases n - i,
        {
            let (k, h) = &entries[i];
            b.restore(k.clone(), clone_messages(h));
            assert(history_pairs(entries@.subrange(0, i + 1)).drop_last()
                =~= history_pairs(entries@.subrange(0, i as int)));
            i = i + 1;
        }
        assert(entries@.subrange(0, n as int) =~= entries@);
        b
    }
}

/// A book rebuilt from all its stored histories (as written to and read back from storage)
/// holds the same histories, none cut, whatever limit it is rebuilt with.
pub proof fn rebuilt_history_book_is_the_same(book: &HistoryBook, pairs: Seq<(Seq<char>, Seq<Message>)>)
    requires
        book.wf(),
        pairs.len() == book.keys().len(),
        forall|i: int| 0 <= i < book.keys().len() ==> #[trigger] pairs[i] == (book.keys()[i], book@[book.keys()[i]]),
    ensures
        map_of_pairs(pairs) == book@,
{
    book.lemma_keys();
    let keys = book.keys();
    assert forall|i: int, j: int| 0 <= i < pairs.len() && 0 <= j < pairs.len() && i != j
        implies #[trigger] pairs[i].0 != #[trigger] pairs[j].0 by {
        assert(pairs[i].0 == keys[i] && pairs[j].0 == keys[j]);
    }
    lemma_map_of_distinct_pairs(pairs);
    let m = map_of_pairs(pairs);
    assert forall|k: Seq<char>| m.contains_key(k) <==> book@.contains_key(k) by {
        if m.contains_key(k) {
            let i = choose|i: int| 0 <= i < pairs.len() && pairs[i].0 == k;
            assert(keys[i] == k);
            assert(keys.contains(k));
        }
        if book@.contains_key(k) {
            assert(keys.contains(k));
            let i = choose|i: int| 0 <= i < keys.len() && keys[i] == k;
            assert(pairs[i].0 == k);
        }
    }
    assert forall|k: Seq<char>| #[trigger] m.contains_key(k) implies m[k] == book@[k] by {
        let i = choose|i: int| 0 <= i < pairs.len() && pairs[i].0 == k;
        assert(pairs[i] == (keys[i], book@[keys[i]]));
    }
    assert(m =~= book@);
}

impl HistoryStore for HistoryBook {
    open spec fn inv(&self) -> bool {
        self.wf()
    }

    open spec fn histories(&self) -> Map<Seq<char>, Seq<Message>> {
        self@
    }

    open spec fn max_history(&self) -> nat {
        self.limit()
    }

    fn add_message(&mut self, chat_id: i64, user_id: i64, message: Message) -> (r: Result<(), AppError>)
        ensures
            r is Ok,
    {
        let key = user_key(chat_id, user_id);
        let ghost k = key@;
        let ghost before = spec_history_of(self@, k);
        let mut history = match self.table.take(&key) {
            Some(h) => h,
            None => Vec::new(),
        };
        assert(history@ == before);
        history.push(message);
        if history.len() > self.max_history {
            history.remove(0);
            assert(history@ =~= before.push(message).drop_first());
        }
        let ghost after = history@;
        self.table.insert(key, history);
        assert(self@ =~= old(self)@.insert(k, after));
        Ok(())
    }

    fn get_history(&self, chat_id: i64, user_id: i64) -> (r: Result<Vec<Message>, AppError>)
        ensures
            r is Ok,
    {
        let key = user_key(chat_id, user_id);
        match self.table.get(&key) {
            Some(h) => Ok(clone_messages(h)),
            None => Ok(Vec::new()),
        }
    }

    fn clear_history(&mut self, chat_id: i64, user_id: i64) -> (r: Result<(), AppError>)
        ensures
            r is Ok,
    {
        let key = user_key(chat_id, user_id);
        let ghost k = key@;
        let _ = self.table.take(&key);
        assert(self@ =~= old(self)@.remove(k));
        Ok(())
    }
}

/// A history within its bound stays within it when a message is added, and the added
/// message is then its newest one (as long as the bound admits any message at all).
pub proof fn add_keeps_bound(history: Seq<Message>, message: Message, max_history: nat)
    requires
        history.len() <= max_history,
    ensures
        spec_bounded_push(history, message, max_history).len() <= max_history,
        max_history > 0 ==> spec_bounded_push(history, message, max_history).last() == message,
{
}

/// Adding a message keeps the newest messages: the result is a suffix of the old history
/// followed by the message, and at most the oldest message is left out.
pub proof fn add_keeps_newest(history: Seq<Message>, message: Message, max_history: nat)
    ensures
        ({
            let pushed = history.push(message);
            let r = spec_bounded_push(history, message, max_history);
            &&& pushed.len() - 1 <= r.len() <= pushed.len()
            &&& r == pushed.subrange(pushed.len() - r.len(), pushed.len() as int)
        }),
{
    let pushed = history.push(message);
    assert(pushed.drop_first() =~= pushed.subrange(1, pushed.len() as int));
    assert(pushed =~= pushed.subrange(0, pushed.len() as int));
}

/// Adding a message to a history shorter than the limit keeps every message: the result is
/// the old history followed by the message.
pub proof fn add_below_limit_keeps_all(history: Seq<Message>, message: Message, max_history: nat)
    requires
        history.len() < max_history,
    ensures
        spec_bounded_push(history, message, max_history) == history.push(message),
{
}

/// Adding a message to a full history (as many messages as the limit, which is not zero)
/// drops exactly its oldest message: the result is the old history without its first
/// message, followed by the new one.
pub proof fn add_at_limit_drops_only_oldest(history: Seq<Message>, message: Message, max_history: nat)
    requires
        history.len() == max_history,
        max_history > 0,
    ensures
        spec_bounded_push(history, message, max_history) == history.drop_first().push(message),
{
    assert(history.push(message).drop_first() =~= history.drop_first().push(message));
}

/// After a user's history is cleared, that user's history is empty.
pub proof fn get_after_clear(histories: Map<Seq<char>, Seq<Message>>, chat_id: int, user_id: int)
    ensures
        spec_history_of(histories.remove(spec_user_key(chat_id, user_id)), spec_user_key(chat_id, user_id))
            == Seq::<Message>::empty(),
{
}

/// Adding a message to, or clearing, one user's history leaves every other user's history
/// (the same user in another chat included) as it was.
pub proof fn history_change_leaves_others(
    histories: Map<Seq<char>, Seq<Message>>,
    chat_id: int,
    user_id: int,
    new_history: Seq<Message>,
    other_chat: int,
    other_user: int,
)
    requires
        chat_id != other_chat || user_id != other_user,
    ensures
        spec_history_of(
            histories.insert(spec_user_key(chat_id, user_id), new_history),
            spec_user_key(other_chat, other_user),
        ) == spec_history_of(histories, spec_user_key(other_chat, other_user)),
        spec_history_of(histories.remove(spec_user_key(chat_id, user_id)), spec_user_key(other_chat, other_user))
            == spec_history_of(histories, spec_user_key(other_chat, other_user)),
{
    if spec_user_key(chat_id, user_id) == spec_user_key(other_chat, other_user) {
        user_key_injective(chat_id, user_id, other_chat, other_user);
    }
}

} // verus!
