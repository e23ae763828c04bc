//! Environment entries: a container specification writes each as
//! `KEY=VALUE`, the sandbox takes key and value apart.

use vstd::prelude::*;
use crate::text::{char_len, find_char, first_index, lemma_first_index, occurs, slice_text};

verus! {

/// The character that parts an entry's key from its value.
pub const ASSIGN: char = '=';

/// The key of an entry: what stands before the first `=`, and the whole
/// entry where it holds none.
pub open spec fn entry_key(entry: Seq<char>) -> Seq<char> {
    entry.subrange(0, first_index(entry, ASSIGN))
}

/// The value of an entry: what stands after the first `=`, and nothing
/// where the entry holds none.
pub open spec fn entry_value(entry: Seq<char>) -> Seq<char> {
    if occurs(entry, ASSIGN) {
        entry.subrange(first_index(entry, ASSIGN) + 1, entry.len() as int)
    } else {
        Seq::empty()
    }
}

/// Key and value of each entry, in order.
pub open spec fn variables(entries: Seq<Seq<char>>) -> Seq<(Seq<char>, Seq<char>)> {
    Seq::new(entries.len(), |i: int| (entry_key(entries[i]), entry_value(entries[i])))
}

/// Parts an entry at its first `=`.
pub fn split_entry(entry: &str) -> (pair: (String, String))
    ensures
        pair.0@ == entry_key(entry@),
        pair.1@ == entry_value(entry@),
{
    let n: usize = char_len(entry);
    let at: usize = find_char(entry, ASSIGN);
    let key = slice_text(entry, 0, at);
    if at < n {
        (key, slice_text(entry, at + 1, n))
    } else {
        (key, String::new())
    }
}

/// Parts every entry of `entries` at its first `=`, in order.
pub fn split_entries(entries: &Vec<String>) -> (pairs: Vec<(String, String)>)
    ensures
        pairs@.len() == entries@.len(),
        forall|i: int|
            0 <= i < pairs@.len() ==> (#[trigger] pairs@[i]).0@ == entry_key(entries@[i]@)
                && pairs@[i].1@ == entry_value(entries@[i]@),
{
    let mut pairs: Vec<(String, String)> = Vec::new();
    let mut i: usize = 0;
    while i < entries.len()
        invariant
            i <= entries.len(),
            pairs@.len() == i,
            forall|j: int|
                0 <= j < i ==> (#[trigger] pairs@[j]).0@ == entry_key(entries@[j]@) && pairs@[j].1@
                    == entry_value(entries@[j]@),
        decreases entries.len() - i,
    {
        let pair = split_entry(entries[i].as_str());
        pairs.push(pair);
        i += 1;
    }
    pairs
}

/// Nothing is lost in parting an entry: key, `=` and value, put together
/// again, are the entry as it was written.
pub proof fn law_split_keeps_entry(entry: Seq<char>)
    requires
        occurs(entry, ASSIGN),
    ensures
        entry_key(entry) + seq![ASSIGN] + entry_value(entry) == entry,
{
    lemma_first_index(entry, ASSIGN);
    assert(entry_key(entry) + seq![ASSIGN] + entry_value(entry) =~= entry);
}

/// An entry without `=` is all key, and its value is empty.
pub proof fn law_bare_entry_is_key(entry: Seq<char>)
    requires
        !occurs(entry, ASSIGN),
    ensures
        entry_key(entry) == entry,
        entry_value(entry).len() == 0,
{
    lemma_first_index(entry, ASSIGN);
    assert(entry_key(entry) =~= entry);
}

/// A key holds no `=`: the entry is parted at the first one.
pub proof fn law_key_holds_no_assign(entry: Seq<char>)
    ensures
        !occurs(entry_key(entry), ASSIGN),
{
    lemma_first_index(entry, ASSIGN);
    let key = entry_key(entry);
    lemma_first_index(key, ASSIGN);
    if first_index(key, ASSIGN) < key.len() {
        assert(key[first_index(key, ASSIGN)] == entry[first_index(key, ASSIGN)]);
    }
}

} // verus!
