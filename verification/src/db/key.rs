use vstd::prelude::*;
use crate::decimal::{lemma_decimal_injective, lemma_decimal_shape, push_decimal, spec_decimal};
use crate::text::{chars_of, concat_str, string_from_range};

verus! {

/// The storage key of a user in a chat: `"{chat_id}_{user_id}"`.
pub open spec fn spec_user_key(chat_id: int, user_id: int) -> Seq<char> {
    spec_decimal(chat_id) + seq!['_'] + spec_decimal(user_id)
}

/// The storage key of a user in a chat, as the stores write it: `"{chat_id}_{user_id}"`.
pub fn user_key(chat_id: i64, user_id: i64) -> (k: String)
    ensures
        k@ == spec_user_key(chat_id as int, user_id as int),
{
    let mut k = String::new();
    push_decimal(&mut k, chat_id);
    k.append("_");
    push_decimal(&mut k, user_id);
    proof {
        reveal_strlit("_");
        assert(k@ =~= spec_user_key(chat_id as int, user_id as int));
    }
    k
}

proof fn lemma_no_underscore(n: int)
    ensures
        forall|i: int| 0 <= i < spec_decimal(n).len() ==> #[trigger] spec_decimal(n)[i] != '_',
{
    lemma_decimal_shape(n);
}

/// Two users share a storage key only if they are the same user in the same chat: the
/// preferences and the history of one user never land under another user's key.
pub proof fn user_key_injective(chat_a: int, user_a: int, chat_b: int, user_b: int)
    requires
        spec_user_key(chat_a, user_a) == spec_user_key(chat_b, user_b),
    ensures
        chat_a == chat_b,
        user_a == user_b,
{
    let ca = spec_decimal(chat_a);
    let cb = spec_decimal(chat_b);
    let ua = spec_decimal(user_a);
    let ub = spec_decimal(user_b);
    let k = spec_user_key(chat_a, user_a);
    lemma_no_underscore(chat_a);
    lemma_no_underscore(chat_b);
    lemma_no_underscore(user_a);
    lemma_no_underscore(user_b);
    if ca.len() < cb.len() {
        assert(k[ca.len() as int] == '_');
        assert(spec_user_key(chat_b, user_b)[ca.len() as int] == cb[ca.len() as int]);
    } else if cb.len() < ca.len() {
        assert(spec_user_key(chat_b, user_b)[cb.len() as int] == '_');
        assert(k[cb.len() as int] == ca[cb.len() as int]);
    } else {
        assert(ca =~= k.subrange(0, ca.len() as int));
        assert(cb =~= spec_user_key(chat_b, user_b).subrange(0, cb.len() as int));
        lemma_decimal_injective(chat_a, chat_b);
        assert(ua =~= k.subrange(ca.len() as int + 1, k.len() as int));
        assert(ub =~= spec_user_key(chat_b, user_b).subrange(cb.len() as int + 1, k.len() as int));
        lemma_decimal_injective(user_a, user_b);
    }
}

/// The suffix of a history file.
pub open spec fn spec_json_suffix() -> Seq<char> {
    seq!['.', 'j', 's', 'o', 'n']
}

/// The name of the file that holds the history stored under `key`: `"{key}.json"`.
pub open spec fn spec_history_file_name(key: Seq<char>) -> Seq<char> {
    key + spec_json_suffix()
}

/// The key whose history a directory entry named `name` holds: its stem when the name
/// has the extension `json` and a non-empty stem, else none (the entry is skipped).
pub open spec fn spec_key_of_file_name(name: Seq<char>) -> Option<Seq<char>> {
    if name.len() > 5 && name.subrange(name.len() - 5, name.len() as int) == spec_json_suffix() {
        Some(name.subrange(0, name.len() - 5))
    } else {
        None
    }
}

/// The name of the file that holds the history stored under `key`.
pub fn history_file_name(key: &str) -> (name: String)
    ensures
        name@ == spec_history_file_name(key@),
{
    let name = concat_str(key, ".json");
    proof {
        reveal_strlit(".json");
        assert(name@ =~= spec_history_file_name(key@));
    }
    name
}

/// The key whose history the directory entry `name` holds, if it is a history file.
pub fn key_of_file_name(name: &str) -> (key: Option<String>)
    ensures
        key is Some <==> spec_key_of_file_name(name@) is Some,
        key matches Some(k) ==> spec_key_of_file_name(name@) == Some(k@),
{
    let v = chars_of(name);
    let n = v.len();
    if n > 5 && v[n - 5] == '.' && v[n - 4] == 'j' && v[n - 3] == 's' && v[n - 2] == 'o'
        && v[n - 1] == 'n' {
        assert(v@.subrange(n - 5, n as int) =~= spec_json_suffix());
        Some(string_from_range(&v, 0, n - 5))
    } else {
        proof {
            if n > 5 && v@.subrange(n - 5, n as int) == spec_json_suffix() {
                assert(v@.subrange(n - 5, n as int)[0] == v@[n - 5]);
                assert(v@.subrange(n - 5, n as int)[1] == v@[n - 4]);
                assert(v@.subrange(n - 5, n as int)[2] == v@[n - 3]);
                assert(v@.subrange(n - 5, n as int)[3] == v@[n - 2]);
                assert(v@.subrange(n - 5, n as int)[4] == v@[n - 1]);
            }
        }
        None
    }
}

/// The file a history is written to is read back under the same key: every non-empty key
/// (every user key is non-empty) survives the round trip through its file name.
pub proof fn history_file_name_round_trip(key: Seq<char>)
    requires
        key.len() > 0,
    ensures
        spec_key_of_file_name(spec_history_file_name(key)) == Some(key),
{
    let name = spec_history_file_name(key);
    assert(name.subrange(name.len() - 5, name.len() as int) =~= spec_json_suffix());
    assert(name.subrange(0, name.len() - 5) =~= key);
}

/// Every user key is non-empty.
pub proof fn user_key_not_empty(chat_id: int, user_id: int)
    ensures
        spec_user_key(chat_id, user_id).len() > 0,
{
}

} // verus!
