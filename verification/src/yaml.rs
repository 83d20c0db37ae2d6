//! A YAML document as a tree of plain values, in the shape the decoder reads.
use crate::text::same_text;
use vstd::prelude::*;

verus! {

/// One node of a YAML document. A number keeps the text it was written as, and a
/// tagged node stands as the node that it tags. A mapping keeps its entries in the
/// order of the document.
#[derive(Debug, PartialEq, Eq)]
pub enum YamlValue {
    Null,
    Bool(bool),
    Number(String),
    String(String),
    Sequence(Vec<YamlValue>),
    Mapping(Vec<(YamlValue, YamlValue)>),
}

/// True when `node` is the scalar string `key`.
pub open spec fn is_key(node: YamlValue, key: Seq<char>) -> bool {
    match node {
        YamlValue::String(text) => text@ == key,
        _ => false,
    }
}

/// The index of the first entry at or after `from` whose key is the string `key`;
/// the number of entries when there is none.
pub open spec fn key_index(entries: Seq<(YamlValue, YamlValue)>, key: Seq<char>, from: int) -> int
    decreases entries.len() - from,
{
    if from < 0 || from >= entries.len() {
        entries.len() as int
    } else if is_key(entries[from].0, key) {
        from
    } else {
        key_index(entries, key, from + 1)
    }
}

/// The value of the first entry whose key is the string `key`.
pub open spec fn mapping_get(entries: Seq<(YamlValue, YamlValue)>, key: Seq<char>) -> Option<
    YamlValue,
> {
    let i = key_index(entries, key, 0);
    if i < entries.len() {
        Some(entries[i].1)
    } else {
        None
    }
}

/// `key_index` stays inside the entries, finds a matching key, and passes none.
pub proof fn lemma_key_index(entries: Seq<(YamlValue, YamlValue)>, key: Seq<char>, from: int)
    requires
        0 <= from <= entries.len(),
    ensures
        from <= key_index(entries, key, from) <= entries.len(),
        key_index(entries, key, from) < entries.len() ==> is_key(
            entries[key_index(entries, key, from)].0,
            key,
        ),
        forall|k: int| from <= k < key_index(entries, key, from) ==> !is_key(entries[k].0, key),
    decreases entries.len() - from,
{
    if from < entries.len() && !is_key(entries[from].0, key) {
        lemma_key_index(entries, key, from + 1);
    }
}

impl YamlValue {
    /// True when the node is the scalar string `key`.
    pub fn is_string(&self, key: &str) -> (same: bool)
        ensures
            same == is_key(*self, key@),
    {
        match self {
            YamlValue::String(text) => same_text(text.as_str(), key),
            _ => false,
        }
    }
}

/// Looks `key` up in the entries of a mapping.
pub fn get<'a>(entries: &'a Vec<(YamlValue, YamlValue)>, key: &str) -> (found: Option<
    &'a YamlValue,
>)
    ensures
        match found {
            Some(value) => mapping_get(entries@, key@) == Some(*value),
            None => mapping_get(entries@, key@) is None,
        },
{
    let mut i: usize = 0;
    while i < entries.len()
        invariant
            i <= entries.len(),
            key_index(entries@, key@, 0) == key_index(entries@, key@, i as int),
        decreases entries.len() - i,
    {
        if entries[i].0.is_string(key) {
            return Some(&entries[i].1);
        }
        i += 1;
    }
    None
}

/// The entry at `i` is the one that a lookup of `key` finds when no earlier entry
/// has that key.
pub proof fn lemma_get_at(entries: Seq<(YamlValue, YamlValue)>, key: Seq<char>, i: int)
    requires
        0 <= i < entries.len(),
        is_key(entries[i].0, key),
        forall|k: int| 0 <= k < i ==> !is_key(entries[k].0, key),
    ensures
        mapping_get(entries, key) == Some(entries[i].1),
{
    lemma_key_index(entries, key, 0);
}

/// A lookup finds nothing when no entry has the key.
pub proof fn lemma_get_absent(entries: Seq<(YamlValue, YamlValue)>, key: Seq<char>)
    requires
        forall|k: int| 0 <= k < entries.len() ==> !is_key(entries[k].0, key),
    ensures
        mapping_get(entries, key) is None,
{
    lemma_key_index(entries, key, 0);
}

} // verus!
