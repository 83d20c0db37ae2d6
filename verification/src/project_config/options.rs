//! The per-window options of a project: a map from option names to values.
use crate::text::same_text;
use vstd::prelude::*;

verus! {

/// The map that a list of pairs stands for, a later pair replacing an earlier one
/// of the same name.
pub open spec fn pairs_map(pairs: Seq<(Seq<char>, Seq<char>)>) -> Map<Seq<char>, Seq<char>>
    decreases pairs.len(),
{
    if pairs.len() == 0 {
        Map::empty()
    } else {
        pairs_map(pairs.drop_last()).insert(pairs.last().0, pairs.last().1)
    }
}

/// True when no name occurs twice among the pairs.
pub open spec fn distinct_names(pairs: Seq<(Seq<char>, Seq<char>)>) -> bool {
    forall|i: int, j: int| 0 <= i < j < pairs.len() ==> pairs[i].0 != pairs[j].0
}

/// The index of the pair named `name`; the number of pairs when there is none.
pub open spec fn name_index(pairs: Seq<(Seq<char>, Seq<char>)>, name: Seq<char>, from: int) -> int
    decreases pairs.len() - from,
{
    if from < 0 || from >= pairs.len() {
        pairs.len() as int
    } else if pairs[from].0 == name {
        from
    } else {
        name_index(pairs, name, from + 1)
    }
}

/// `name_index` stays inside the pairs, finds the name and passes no pair of that name.
pub proof fn lemma_name_index(pairs: Seq<(Seq<char>, Seq<char>)>, name: Seq<char>, from: int)
    requires
        0 <= from <= pairs.len(),
    ensures
        from <= name_index(pairs, name, from) <= pairs.len(),
        name_index(pairs, name, from) < pairs.len() ==> pairs[name_index(pairs, name, from)].0
            == name,
        forall|k: int| from <= k < name_index(pairs, name, from) ==> pairs[k].0 != name,
    decreases pairs.len() - from,
{
    if from < pairs.len() && pairs[from].0 != name {
        lemma_name_index(pairs, name, from + 1);
    }
}

/// With distinct names, the map holds exactly the names of the pairs, each with the
/// value of its pair, and as many entries as there are pairs.
pub proof fn lemma_pairs_map(pairs: Seq<(Seq<char>, Seq<char>)>)
    requires
        distinct_names(pairs),
    ensures
        pairs_map(pairs).dom().finite(),
        pairs_map(pairs).dom().len() == pairs.len(),
        forall|i: int|
            0 <= i < pairs.len() ==> pairs_map(pairs).contains_key(#[trigger] pairs[i].0),
        forall|i: int|
            0 <= i < pairs.len() ==> pairs_map(pairs)[#[trigger] pairs[i].0] == pairs[i].1,
        forall|name: Seq<char>| #[trigger]
            pairs_map(pairs).contains_key(name) ==> exists|i: int|
                0 <= i < pairs.len() && pairs[i].0 == name,
    decreases pairs.len(),
{
    if pairs.len() > 0 {
        let front = pairs.drop_last();
        assert forall|i: int, j: int| 0 <= i < j < front.len() implies front[i].0 != front[j].0 by {
            assert(pairs[i].0 != pairs[j].0);
        }
        lemma_pairs_map(front);
        let last = pairs.last();
        assert(!pairs_map(front).contains_key(last.0)) by {
            if pairs_map(front).contains_key(last.0) {
                let i = choose|i: int| 0 <= i < front.len() && front[i].0 == last.0;
                assert(pairs[i].0 != pairs[pairs.len() - 1].0);
            }
        }
        assert forall|i: int| 0 <= i < pairs.len() implies pairs_map(pairs).contains_key(
            #[trigger] pairs[i].0,
        ) && pairs_map(pairs)[pairs[i].0] == pairs[i].1 by {
            if i < front.len() {
                assert(front[i] == pairs[i]);
                assert(pairs_map(front).contains_key(front[i].0));
            }
        }
        assert forall|name: Seq<char>| #[trigger]
            pairs_map(pairs).contains_key(name) implies exists|i: int|
            0 <= i < pairs.len() && pairs[i].0 == name by {
            if name == last.0 {
                assert(pairs[pairs.len() - 1].0 == name);
            } else {
                assert(pairs_map(front).contains_key(name));
                let i = choose|i: int| 0 <= i < front.len() && front[i].0 == name;
                assert(pairs[i].0 == name);
            }
        }
    }
}

/// Replacing the value of the pair at `i` is an insert under that pair's name.
pub proof fn lemma_pairs_map_update(pairs: Seq<(Seq<char>, Seq<char>)>, i: int, value: Seq<char>)
    requires
        distinct_names(pairs),
        0 <= i < pairs.len(),
    ensures
        pairs_map(pairs.update(i, (pairs[i].0, value))) == pairs_map(pairs).insert(
            pairs[i].0,
            value,
        ),
        distinct_names(pairs.update(i, (pairs[i].0, value))),
    decreases pairs.len(),
{
    let updated = pairs.update(i, (pairs[i].0, value));
    assert forall|a: int, b: int| 0 <= a < b < updated.len() implies updated[a].0
        != updated[b].0 by {
        assert(pairs[a].0 != pairs[b].0);
    }
    let front = pairs.drop_last();
    if i == pairs.len() - 1 {
        assert(updated.drop_last() =~= front);
        assert(pairs_map(updated) =~= pairs_map(pairs).insert(pairs[i].0, value));
    } else {
        assert forall|a: int, b: int| 0 <= a < b < front.len() implies front[a].0 != front[b].0 by {
            assert(pairs[a].0 != pairs[b].0);
        }
        lemma_pairs_map_update(front, i, value);
        assert(updated.drop_last() =~= front.update(i, (front[i].0, value)));
        assert(pairs[i].0 != pairs[pairs.len() - 1].0);
        assert(pairs_map(updated) =~= pairs_map(pairs).insert(pairs[i].0, value));
    }
}

/// Options of one window: tmux option names, each with its value.
#[derive(Debug, Eq)]
pub struct WindowOptions {
    entries: Vec<(String, String)>,
}

impl WindowOptions {
    #[verifier::type_invariant]
    spec fn names_are_distinct(self) -> bool {
        distinct_names(self.entries.deep_view())
    }

    /// The options as pairs of name and value, in the order in which they are kept.
    pub closed spec fn pairs(&self) -> Seq<(Seq<char>, Seq<char>)> {
        self.entries.deep_view()
    }

    /// No options.
    pub fn new() -> (options: WindowOptions)
        ensures
            options.pairs() == Seq::<(Seq<char>, Seq<char>)>::empty(),
            options.deep_view() == Map::<Seq<char>, Seq<char>>::empty(),
    {
        let options = WindowOptions { entries: Vec::new() };
        assert(options.entries.deep_view() =~= Seq::empty());
        options
    }

    /// The number of options. No option is kept twice.
    pub fn len(&self) -> (n: usize)
        ensures
            n == self.pairs().len(),
            distinct_names(self.pairs()),
            n == self.deep_view().dom().len(),
            self.deep_view().dom().finite(),
    {
        proof {
            use_type_invariant(self);
            lemma_pairs_map(self.pairs());
        }
        self.entries.len()
    }

    fn position(&self, name: &str) -> (i: usize)
        ensures
            i == name_index(self.pairs(), name@, 0),
            i <= self.pairs().len(),
    {
        let mut i: usize = 0;
        while i < self.entries.len()
            invariant
                i <= self.entries.len(),
                name_index(self.pairs(), name@, 0) == name_index(self.pairs(), name@, i as int),
            decreases self.entries.len() - i,
        {
            if same_text(self.entries[i].0.as_str(), name) {
                return i;
            }
            i += 1;
        }
        i
    }

    /// The value of the option `name`.
    pub fn get(&self, name: &str) -> (value: Option<&String>)
        ensures
            value.deep_view() == if self.deep_view().contains_key(name@) {
                Some(self.deep_view()[name@])
            } else {
                None
            },
    {
        let i = self.position(name);
        proof {
            use_type_invariant(self);
            lemma_pairs_map(self.pairs());
            lemma_name_index(self.pairs(), name@, 0);
        }
        if i < self.entries.len() {
            Some(&self.entries[i].1)
        } else {
            None
        }
    }

    /// The name of the option that is kept at `i`.
    pub fn name_at(&self, i: usize) -> (name: &String)
        requires
            i < self.pairs().len(),
        ensures
            name@ == self.pairs()[i as int].0,
    {
        &self.entries[i].0
    }

    /// The value of the option that is kept at `i`.
    pub fn value_at(&self, i: usize) -> (value: &String)
        requires
            i < self.pairs().len(),
        ensures
            value@ == self.pairs()[i as int].1,
    {
        &self.entries[i].1
    }

    /// Sets the option `name` to `value`, replacing the value it had.
    pub fn insert(&mut self, name: String, value: String)
        ensures
            final(self).deep_view() == old(self).deep_view().insert(name@, value@),
            final(self).pairs() == if name_index(old(self).pairs(), name@, 0) < old(
                self,
            ).pairs().len() {
                old(self).pairs().update(name_index(old(self).pairs(), name@, 0), (name@, value@))
            } else {
                old(self).pairs().push((name@, value@))
            },
    {
        let i = self.position(name.as_str());
        proof {
            use_type_invariant(&*self);
            lemma_name_index(self.pairs(), name@, 0);
        }
        let ghost before = self.entries.deep_view();
        let mut entries: Vec<(String, String)> = Vec::new();
        std::mem::swap(&mut entries, &mut self.entries);
        if i < entries.len() {
            entries.set(i, (name, value));
            proof {
                lemma_pairs_map_update(before, i as int, value@);
                assert(entries.deep_view() =~= before.update(i as int, (name@, value@)));
            }
        } else {
            entries.push((name, value));
            proof {
                let after = before.push((name@, value@));
                assert(entries.deep_view() =~= after);
                assert(after.drop_last() =~= before);
                assert forall|a: int, b: int| 0 <= a < b < after.len() implies after[a].0
                    != after[b].0 by {
                    if b < before.len() {
                        assert(before[a].0 != before[b].0);
                    }
                }
            }
        }
        self.entries = entries;
    }
}

impl DeepView for WindowOptions {
    type V = Map<Seq<char>, Seq<char>>;

    closed spec fn deep_view(&self) -> Map<Seq<char>, Seq<char>> {
        pairs_map(self.entries.deep_view())
    }
}

impl WindowOptions {
    /// The map of the options is the map of their pairs.
    pub proof fn lemma_view(&self)
        ensures
            self.deep_view() == pairs_map(self.pairs()),
    {
    }
}

impl PartialEq for WindowOptions {
    /// True when both hold the same options with the same values, in whatever order.
    fn eq(&self, other: &Self) -> (same: bool) {
        proof {
            use_type_invariant(self);
            use_type_invariant(other);
            lemma_pairs_map(self.pairs());
            lemma_pairs_map(other.pairs());
        }
        if self.entries.len() != other.entries.len() {
            return false;
        }
        let mut i: usize = 0;
        while i < self.entries.len()
            invariant
                i <= self.entries.len(),
                self.pairs().len() == self.entries.len(),
                forall|k: int|
                    0 <= k < i ==> other.deep_view().contains_key(#[trigger] self.pairs()[k].0)
                        && other.deep_view()[self.pairs()[k].0] == self.pairs()[k].1,
            decreases self.entries.len() - i,
        {
            proof {
                use_type_invariant(self);
                lemma_pairs_map(self.pairs());
            }
            match other.get(self.entries[i].0.as_str()) {
                Some(value) => {
                    if !same_text(value.as_str(), self.entries[i].1.as_str()) {
                        let ghost name = self.pairs()[i as int].0;
                        assert(self.deep_view()[name] != other.deep_view()[name]);
                        return false;
                    }
                },
                None => {
                    assert(self.deep_view().contains_key(self.pairs()[i as int].0));
                    return false;
                },
            }
            i += 1;
        }
        proof {
            let mine = self.deep_view();
            let theirs = other.deep_view();
            assert forall|name: Seq<char>| mine.dom().contains(name) implies theirs.dom().contains(
                name,
            ) && mine[name] == theirs[name] by {
                assert(mine.contains_key(name));
                let k = choose|k: int| 0 <= k < self.pairs().len() && self.pairs()[k].0 == name;
                assert(theirs.contains_key(self.pairs()[k].0));
            }
            assert(mine.dom().subset_of(theirs.dom()));
            vstd::set_lib::lemma_subset_equality(mine.dom(), theirs.dom());
            assert(mine =~= theirs);
        }
        true
    }
}

impl vstd::std_specs::cmp::PartialEqSpecImpl for WindowOptions {
    open spec fn obeys_eq_spec() -> bool {
        true
    }

    open spec fn eq_spec(&self, other: &Self) -> bool {
        self.deep_view() == other.deep_view()
    }
}

} // verus!
