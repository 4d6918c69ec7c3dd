//! The mathematical model of a JSON value, and what the keyed and indexed
//! writes of the JSON layer do to it.

use vstd::prelude::*;
use crate::number::Decimal;

verus! {

/// A JSON value. An object is the sequence of its entries in the order in
/// which their keys were first written; that order is the order of output.
pub enum Tree {
    Null,
    Boolean(bool),
    /// A finite number.
    Number(Decimal),
    /// A number without a value, as a computation that failed leaves it.
    /// The library makes none; a caller's value may hold one.
    NotANumber,
    Text(Seq<char>),
    /// The items in order.
    Array(Seq<Tree>),
    /// The entries, each a key and its value, in order.
    Object(Seq<(Seq<char>, Tree)>),
}

/// The position of the first entry with this key, or the number of entries
/// if no entry has it.
pub open spec fn key_index(entries: Seq<(Seq<char>, Tree)>, key: Seq<char>) -> int
    decreases entries.len(),
{
    if entries.len() == 0 {
        0
    } else if entries[0].0 == key {
        0
    } else {
        1 + key_index(entries.drop_first(), key)
    }
}

/// `n` empty objects.
pub open spec fn empty_objects(n: nat) -> Seq<Tree> {
    Seq::new(n, |i: int| Tree::empty_object())
}

impl Tree {
    /// The object without entries.
    pub open spec fn empty_object() -> Tree {
        Tree::Object(Seq::empty())
    }

    /// The array without items.
    pub open spec fn empty_array() -> Tree {
        Tree::Array(Seq::empty())
    }

    /// Whether this is an object with an entry under `key`.
    pub open spec fn has_member(self, key: Seq<char>) -> bool {
        match self {
            Tree::Object(entries) => key_index(entries, key) < entries.len(),
            _ => false,
        }
    }

    /// What is read under `key`: the entry's value, and null where there is
    /// no such entry or this is no object.
    pub open spec fn member(self, key: Seq<char>) -> Tree {
        match self {
            Tree::Object(entries) => if key_index(entries, key) < entries.len() {
                entries[key_index(entries, key)].1
            } else {
                Tree::Null
            },
            _ => Tree::Null,
        }
    }

    /// The tree after `value` was written under `key`. An existing entry
    /// keeps its place, a new one goes to the end, and anything that is not
    /// an object is replaced by an object with this one entry.
    pub open spec fn with_member(self, key: Seq<char>, value: Tree) -> Tree {
        match self {
            Tree::Object(entries) => if key_index(entries, key) < entries.len() {
                Tree::Object(entries.update(key_index(entries, key), (key, value)))
            } else {
                Tree::Object(entries.push((key, value)))
            },
            _ => Tree::Object(seq![(key, value)]),
        }
    }

    /// What is read under `outer`, then `inner`.
    pub open spec fn nested(self, outer: Seq<char>, inner: Seq<char>) -> Tree {
        self.member(outer).member(inner)
    }

    /// The tree after `value` was written under `outer`, then `inner`.
    pub open spec fn with_nested(self, outer: Seq<char>, inner: Seq<char>, value: Tree) -> Tree {
        self.with_member(outer, self.member(outer).with_member(inner, value))
    }

    /// The number of items of an array or of entries of an object; 0 for
    /// every other value.
    pub open spec fn count(self) -> nat {
        match self {
            Tree::Array(items) => items.len(),
            Tree::Object(entries) => entries.len(),
            _ => 0,
        }
    }

    /// The items of an array; no items for every other value.
    pub open spec fn items(self) -> Seq<Tree> {
        match self {
            Tree::Array(items) => items,
            _ => Seq::empty(),
        }
    }

    /// An array with `value` added at its end; every other value unchanged.
    pub open spec fn pushed(self, value: Tree) -> Tree {
        match self {
            Tree::Array(items) => Tree::Array(items.push(value)),
            _ => self,
        }
    }

    /// What a write at position `index` finds there: the item, and null
    /// where the position is past the end or this is no array.
    pub open spec fn slot(self, index: int) -> Tree {
        match self {
            Tree::Array(items) => if 0 <= index < items.len() {
                items[index]
            } else {
                Tree::Null
            },
            _ => Tree::Null,
        }
    }

    /// The tree after `value` was written at position `index`. Inside an
    /// array the item is replaced; past its end the value is appended,
    /// whatever the index. Anything that is not an array is replaced by an
    /// array: of `value` alone for index 0, of null and `value` otherwise.
    pub open spec fn with_slot(self, index: int, value: Tree) -> Tree {
        match self {
            Tree::Array(items) => if 0 <= index < items.len() {
                Tree::Array(items.update(index, value))
            } else {
                Tree::Array(items.push(value))
            },
            _ => if index == 0 {
                Tree::Array(seq![value])
            } else {
                Tree::Array(seq![Tree::Null, value])
            },
        }
    }

    /// An array of at least `n` items: an array that is too short is filled
    /// up with empty objects, and anything that is not an array is replaced
    /// by `n` empty objects.
    pub open spec fn with_slots(self, n: nat) -> Tree {
        match self {
            Tree::Array(items) => if items.len() >= n {
                self
            } else {
                Tree::Array(items + empty_objects((n - items.len()) as nat))
            },
            _ => Tree::Array(empty_objects(n)),
        }
    }

    /// An object under `key` where nothing was: null there becomes an empty
    /// object, anything else stays.
    pub open spec fn with_object_at(self, key: Seq<char>) -> Tree {
        if self.member(key) is Null {
            self.with_member(key, Tree::empty_object())
        } else {
            self
        }
    }
}

/// `key_index` is a position in the entries or their number; the entry at
/// that position has the key and no earlier one has.
pub proof fn lemma_key_index(entries: Seq<(Seq<char>, Tree)>, key: Seq<char>)
    ensures
        0 <= key_index(entries, key) <= entries.len(),
        key_index(entries, key) < entries.len() ==> entries[key_index(entries, key)].0 == key,
        forall|i: int| 0 <= i < key_index(entries, key) ==> (#[trigger] entries[i]).0 != key,
    decreases entries.len(),
{
    if entries.len() > 0 && entries[0].0 != key {
        let rest = entries.drop_first();
        lemma_key_index(rest, key);
        assert forall|i: int| 0 <= i < key_index(entries, key) implies (#[trigger] entries[i]).0
            != key by {
            if i > 0 {
                assert(entries[i] == rest[i - 1]);
            }
        }
    }
}

/// Where the first `i` entries do not have the key and entry `i` has it,
/// `key_index` is `i`.
pub proof fn lemma_key_index_is(entries: Seq<(Seq<char>, Tree)>, key: Seq<char>, i: int)
    requires
        0 <= i <= entries.len(),
        forall|j: int| 0 <= j < i ==> (#[trigger] entries[j]).0 != key,
        i < entries.len() ==> entries[i].0 == key,
    ensures
        key_index(entries, key) == i,
{
    lemma_key_index(entries, key);
    let k = key_index(entries, key);
    if k < i {
        assert(entries[k].0 != key);
    }
}

/// A value that was written under a key is what is read there.
pub proof fn lemma_member_of_with_member(t: Tree, key: Seq<char>, value: Tree)
    ensures
        t.with_member(key, value).member(key) == value,
        t.with_member(key, value).has_member(key),
        t.with_member(key, value) is Object,
{
    match t {
        Tree::Object(entries) => {
            lemma_key_index(entries, key);
            let i = key_index(entries, key);
            if i < entries.len() {
                lemma_key_index_is(entries.update(i, (key, value)), key, i);
            } else {
                lemma_key_index_is(entries.push((key, value)), key, i);
            }
        },
        _ => {
            lemma_key_index_is(seq![(key, value)], key, 0);
        },
    }
}

/// A value that was written under two keys is what is read under them.
pub proof fn lemma_nested_of_with_nested(t: Tree, outer: Seq<char>, inner: Seq<char>, value: Tree)
    ensures
        t.with_nested(outer, inner, value).nested(outer, inner) == value,
{
    lemma_member_of_with_member(t.member(outer), inner, value);
    lemma_member_of_with_member(t, outer, t.member(outer).with_member(inner, value));
}

} // verus!
