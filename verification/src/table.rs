use crate::text::{text_before, text_eq, text_lt, text_order_is_strict_and_total};
use vstd::prelude::*;

verus! {

/// A value with a mathematical model by which it is copied and compared.
pub trait Record: View + Sized {
    /// A copy with the same model.
    fn duplicate(&self) -> (copy: Self)
        ensures
            copy@ == self@,
    ;

    /// Whether two values have the same model.
    fn same(&self, other: &Self) -> (same: bool)
        ensures
            same == (self@ == other@),
    ;
}

impl Record for String {
    fn duplicate(&self) -> (copy: Self) {
        self.clone()
    }

    fn same(&self, other: &Self) -> (same: bool) {
        text_eq(self.as_str(), other.as_str())
    }
}

/// The models of a list of records, in order.
pub open spec fn models<V: View>(values: Seq<V>) -> Seq<V::V> {
    values.map_values(|value: V| value@)
}

/// The model of an optional record.
pub open spec fn opt_model<V: View>(value: Option<V>) -> Option<V::V> {
    match value {
        Some(record) => Some(record@),
        None => None,
    }
}

/// A copy of an optional record.
pub fn opt_duplicate<V: Record>(value: &Option<V>) -> (copy: Option<V>)
    ensures
        opt_model(copy) == opt_model(*value),
{
    match value {
        Some(record) => Some(record.duplicate()),
        None => None,
    }
}

/// Whether two optional records have the same model.
pub fn opt_same<V: Record>(a: &Option<V>, b: &Option<V>) -> (same: bool)
    ensures
        same == (opt_model(*a) == opt_model(*b)),
{
    match (a, b) {
        (Some(x), Some(y)) => x.same(y),
        (None, None) => true,
        _ => false,
    }
}

/// A copy of a list of records.
pub fn duplicate_all<V: Record>(values: &Vec<V>) -> (copy: Vec<V>)
    ensures
        models(copy@) == models(values@),
{
    let mut copy: Vec<V> = Vec::new();
    let mut i: usize = 0;
    while i < values.len()
        invariant
            i <= values.len(),
            copy.len() == i,
            forall|k: int| 0 <= k < i ==> (#[trigger] copy@[k])@ == values@[k]@,
        decreases values.len() - i,
    {
        copy.push(values[i].duplicate());
        i = i + 1;
    }
    assert(models(copy@) =~= models(values@));
    copy
}

/// Strictly increasing in the order of texts.
pub open spec fn strictly_sorted(keys: Seq<Seq<char>>) -> bool {
    forall|i: int, j: int| 0 <= i < j < keys.len() ==> text_lt(#[trigger] keys[i], #[trigger] keys[j])
}

/// The map that takes the key at each position to the row at that position.
pub open spec fn keyed<T>(keys: Seq<Seq<char>>, rows: Seq<T>) -> Map<Seq<char>, T> {
    Map::new(|key: Seq<char>| keys.contains(key), |key: Seq<char>| rows[keys.index_of(key)])
}

/// Records under text keys, walked in the order of the keys.
#[derive(Debug, PartialEq, Eq)]
pub struct Table<V> {
    entries: Vec<(String, V)>,
}

impl<V: Record> View for Table<V> {
    type V = Map<Seq<char>, V::V>;

    closed spec fn view(&self) -> Map<Seq<char>, V::V> {
        keyed(self.keys(), self.rows())
    }
}

impl<V> Table<V> {
    #[verifier::type_invariant]
    spec fn well_formed(self) -> bool {
        strictly_sorted(self.keys())
    }

    /// The keys in the order in which they are walked.
    pub closed spec fn keys(self) -> Seq<Seq<char>> {
        self.entries@.map_values(|entry: (String, V)| entry.0@)
    }
}

/// Keys in strict order differ from one another.
pub proof fn lemma_distinct_keys(keys: Seq<Seq<char>>, at: int)
    requires
        strictly_sorted(keys),
        0 <= at < keys.len(),
    ensures
        forall|k: int| 0 <= k < keys.len() && k != at ==> #[trigger] keys[k] != keys[at],
{
    assert forall|k: int| 0 <= k < keys.len() && k != at implies #[trigger] keys[k] != keys[at] by {
        text_order_is_strict_and_total(keys[k], keys[at], keys[k]);
        text_order_is_strict_and_total(keys[at], keys[at], keys[at]);
        if k < at {
            assert(text_lt(keys[k], keys[at]));
        } else {
            assert(text_lt(keys[at], keys[k]));
        }
    }
}

/// Whether a key is one of the first keys of a list.
pub open spec fn among_first(keys: Seq<Seq<char>>, count: int, key: Seq<char>) -> bool {
    exists|j: int| 0 <= j < count && #[trigger] keys[j] == key
}

/// One key more among the first keys of a list.
pub proof fn lemma_among_first_step(keys: Seq<Seq<char>>, count: int)
    requires
        0 <= count < keys.len(),
    ensures
        forall|key: Seq<char>|
            #[trigger] among_first(keys, count + 1, key) <==> among_first(keys, count, key) || key
                == keys[count],
{
    assert forall|key: Seq<char>|
        #[trigger] among_first(keys, count + 1, key) <==> among_first(keys, count, key) || key
            == keys[count] by {
        if among_first(keys, count, key) {
            let j = choose|j: int| 0 <= j < count && #[trigger] keys[j] == key;
            assert(keys[j] == key);
        }
        if key == keys[count] {
            assert(keys[count] == key);
        }
    }
}

/// Whether a list holds, in strict order, exactly the wanted ones of the first keys of another.
pub open spec fn picked(
    ids: Seq<Seq<char>>,
    keys: Seq<Seq<char>>,
    count: int,
    wanted: spec_fn(Seq<char>) -> bool,
) -> bool {
    &&& strictly_sorted(ids)
    &&& forall|id: Seq<char>| #[trigger]
        ids.contains(id) <==> among_first(keys, count, id) && wanted(id)
}

/// Picking goes on with the next key, where it is wanted.
pub proof fn lemma_picked_step(
    ids: Seq<Seq<char>>,
    keys: Seq<Seq<char>>,
    count: int,
    wanted: spec_fn(Seq<char>) -> bool,
)
    requires
        picked(ids, keys, count, wanted),
        strictly_sorted(keys),
        0 <= count < keys.len(),
    ensures
        picked(
            if wanted(keys[count]) {
                ids.push(keys[count])
            } else {
                ids
            },
            keys,
            count + 1,
            wanted,
        ),
{
    let at = keys[count];
    lemma_among_first_step(keys, count);
    if wanted(at) {
        let more = ids.push(at);
        assert forall|i: int, j: int| 0 <= i < j < more.len() implies text_lt(
            #[trigger] more[i],
            #[trigger] more[j],
        ) by {
            if j == ids.len() {
                assert(ids.contains(ids[i]));
                let k = choose|k: int| 0 <= k < count && #[trigger] keys[k] == ids[i];
                assert(text_lt(keys[k], at));
            }
        }
        assert forall|id: Seq<char>| #[trigger]
            more.contains(id) <==> among_first(keys, count + 1, id) && wanted(id) by {
            if ids.contains(id) {
                let k = ids.index_of(id);
                assert(more[k] == id);
            }
            if id == at {
                assert(more[ids.len() as int] == id);
            }
            if more.contains(id) && id != at {
                let k = more.index_of(id);
                assert(ids[k] == id);
            }
        }
    }
}

proof fn lemma_sorted_keys_are_distinct(keys: Seq<Seq<char>>)
    requires
        strictly_sorted(keys),
    ensures
        keys.no_duplicates(),
{
    assert forall|i: int, j: int| 0 <= i < keys.len() && 0 <= j < keys.len() && i != j implies keys[i]
        != keys[j] by {
        if i < j {
            text_order_is_strict_and_total(keys[i], keys[j], keys[i]);
        } else {
            text_order_is_strict_and_total(keys[j], keys[i], keys[j]);
        }
    }
}

proof fn lemma_keyed_at<T>(keys: Seq<Seq<char>>, rows: Seq<T>, i: int)
    requires
        strictly_sorted(keys),
        keys.len() == rows.len(),
        0 <= i < keys.len(),
    ensures
        keyed(keys, rows).contains_key(keys[i]),
        keyed(keys, rows)[keys[i]] == rows[i],
{
    lemma_sorted_keys_are_distinct(keys);
    assert(keys.contains(keys[i]));
    let found = keys.index_of(keys[i]);
    assert(keys[found] == keys[i]);
}

impl<V: Record> Table<V> {
    /// The models of the rows in the order of their keys.
    pub closed spec fn rows(self) -> Seq<V::V> {
        self.entries@.map_values(|entry: (String, V)| entry.1@)
    }

    /// What the positions of a table say of its map, for every position and every key.
    pub open spec fn consistent(self) -> bool {
        &&& strictly_sorted(self.keys())
        &&& self.keys().len() == self.rows().len()
        &&& forall|i: int|
            0 <= i < self.keys().len() ==> self@.contains_key(#[trigger] self.keys()[i])
                && self@[self.keys()[i]] == self.rows()[i]
        &&& forall|key: Seq<char>|
            #[trigger] self@.contains_key(key) ==> exists|i: int|
                0 <= i < self.keys().len() && #[trigger] self.keys()[i] == key
    }

    /// The keys of a table are the first ones of its list of keys, all of them.
    pub proof fn lemma_all_keys(self)
        requires
            self.consistent(),
        ensures
            forall|key: Seq<char>|
                #[trigger] among_first(self.keys(), self.keys().len() as int, key)
                    <==> self@.contains_key(key),
    {
        assert forall|key: Seq<char>|
            #[trigger] among_first(self.keys(), self.keys().len() as int, key)
                <==> self@.contains_key(key) by {
            if among_first(self.keys(), self.keys().len() as int, key) {
                let j = choose|j: int|
                    0 <= j < self.keys().len() && #[trigger] self.keys()[j] == key;
                assert(self@.contains_key(self.keys()[j]));
            }
        }
    }

    /// A table without rows.
    pub fn new() -> (table: Self)
        ensures
            table@ == Map::<Seq<char>, V::V>::empty(),
            table.keys() == Seq::<Seq<char>>::empty(),
    {
        let table = Table { entries: Vec::new() };
        assert(table.keys() =~= Seq::<Seq<char>>::empty());
        assert(table@ =~= Map::<Seq<char>, V::V>::empty());
        table
    }

    /// The number of rows.
    pub fn len(&self) -> (len: usize)
        ensures
            len == self.keys().len(),
            self.consistent(),
    {
        proof {
            use_type_invariant(self);
            assert forall|i: int| 0 <= i < self.keys().len() implies self@.contains_key(
                #[trigger] self.keys()[i],
            ) && self@[self.keys()[i]] == self.rows()[i] by {
                lemma_keyed_at(self.keys(), self.rows(), i);
            }
            assert forall|key: Seq<char>| #[trigger] self@.contains_key(key) implies exists|i: int|
                0 <= i < self.keys().len() && #[trigger] self.keys()[i] == key by {
                assert(self.keys().contains(key));
            }
        }
        self.entries.len()
    }

    /// The key at a position.
    pub fn key_at(&self, at: usize) -> (key: &String)
        requires
            at < self.keys().len(),
        ensures
            key@ == self.keys()[at as int],
    {
        &self.entries[at].0
    }

    /// The row at a position.
    pub fn row_at(&self, at: usize) -> (row: &V)
        requires
            at < self.keys().len(),
        ensures
            row@ == self.rows()[at as int],
    {
        &self.entries[at].1
    }

    /// The first position whose key does not order before `key`.
    fn position(&self, key: &str) -> (at: usize)
        ensures
            at <= self.keys().len(),
            forall|i: int| 0 <= i < at ==> text_lt(#[trigger] self.keys()[i], key@),
            forall|i: int| at <= i < self.keys().len() ==> !text_lt(#[trigger] self.keys()[i], key@),
    {
        proof {
            use_type_invariant(self);
        }
        let mut low: usize = 0;
        let mut high: usize = self.entries.len();
        while low < high
            invariant
                low <= high <= self.keys().len(),
                self.keys().len() == self.entries.len(),
                strictly_sorted(self.keys()),
                forall|i: int| 0 <= i < low ==> text_lt(#[trigger] self.keys()[i], key@),
                forall|i: int|
                    high <= i < self.keys().len() ==> !text_lt(#[trigger] self.keys()[i], key@),
            decreases high - low,
        {
            let middle: usize = low + (high - low) / 2;
            let ghost pivot = self.keys()[middle as int];
            if text_before(self.entries[middle].0.as_str(), key) {
                assert forall|i: int| 0 <= i < middle + 1 implies text_lt(
                    #[trigger] self.keys()[i],
                    key@,
                ) by {
                    if i < middle {
                        text_order_is_strict_and_total(self.keys()[i], pivot, key@);
                    }
                }
                low = middle + 1;
            } else {
                assert forall|i: int| middle <= i < self.keys().len() implies !text_lt(
                    #[trigger] self.keys()[i],
                    key@,
                ) by {
                    if i > middle {
                        text_order_is_strict_and_total(pivot, self.keys()[i], key@);
                    }
                }
                high = middle;
            }
        }
        low
    }

    proof fn lemma_absent(self, key: Seq<char>, at: int)
        requires
            strictly_sorted(self.keys()),
            0 <= at <= self.keys().len(),
            forall|i: int| 0 <= i < at ==> text_lt(#[trigger] self.keys()[i], key),
            forall|i: int| at <= i < self.keys().len() ==> !text_lt(#[trigger] self.keys()[i], key),
            at == self.keys().len() || self.keys()[at] != key,
        ensures
            !self.keys().contains(key),
            forall|i: int| at <= i < self.keys().len() ==> text_lt(key, #[trigger] self.keys()[i]),
    {
        if self.keys().contains(key) {
            let i = choose|i: int| 0 <= i < self.keys().len() && self.keys()[i] == key;
            text_order_is_strict_and_total(key, key, key);
            if i > at {
                assert(text_lt(self.keys()[at], self.keys()[i]));
            }
        }
        assert forall|i: int| at <= i < self.keys().len() implies text_lt(
            key,
            #[trigger] self.keys()[i],
        ) by {
            text_order_is_strict_and_total(key, self.keys()[i], key);
        }
    }

    /// The row under a key.
    pub fn get(&self, key: &str) -> (row: Option<&V>)
        ensures
            row is Some <==> self@.contains_key(key@),
            row is Some ==> row->0@ == self@[key@],
    {
        proof {
            use_type_invariant(self);
        }
        let at: usize = self.position(key);
        if at < self.entries.len() && text_eq(self.entries[at].0.as_str(), key) {
            proof {
                lemma_keyed_at(self.keys(), self.rows(), at as int);
            }
            Some(&self.entries[at].1)
        } else {
            proof {
                self.lemma_absent(key@, at as int);
            }
            None
        }
    }

    /// Whether a key has a row.
    pub fn contains_key(&self, key: &str) -> (found: bool)
        ensures
            found == self@.contains_key(key@),
    {
        self.get(key).is_some()
    }

    /// Replaces the row at a position and leaves every other row and all keys as they are.
    pub fn set_at(&mut self, at: usize, row: V)
        requires
            at < old(self).keys().len(),
        ensures
            final(self).keys() == old(self).keys(),
            final(self).rows() == old(self).rows().update(at as int, row@),
            final(self)@ == old(self)@.insert(old(self).keys()[at as int], row@),
    {
        proof {
            use_type_invariant(&*self);
        }
        let ghost before = *self;
        let ghost key = self.keys()[at as int];
        let mut entries: Vec<(String, V)> = Vec::new();
        std::mem::swap(&mut self.entries, &mut entries);
        entries[at].1 = row;
        assert(entries@.map_values(|entry: (String, V)| entry.0@) =~= before.keys());
        self.entries = entries;
        assert(self.keys() =~= before.keys());
        assert(self.rows() =~= before.rows().update(at as int, row@));
        proof {
            assert forall|other: Seq<char>| before.keys().contains(other) implies self@[other]
                == before@.insert(key, row@)[other] by {
                let i = before.keys().index_of(other);
                lemma_sorted_keys_are_distinct(before.keys());
                lemma_keyed_at(before.keys(), before.rows(), i);
                lemma_keyed_at(self.keys(), self.rows(), i);
            }
            assert(before.keys().contains(key));
            assert(self@ =~= before@.insert(key, row@));
        }
    }

    /// Puts a row under a key, in place of the row that was there.
    pub fn insert(&mut self, key: String, row: V)
        ensures
            final(self)@ == old(self)@.insert(key@, row@),
    {
        proof {
            use_type_invariant(&*self);
        }
        let at: usize = self.position(key.as_str());
        if at < self.entries.len() && text_eq(self.entries[at].0.as_str(), key.as_str()) {
            self.set_at(at, row);
        } else {
            let ghost before = *self;
            let ghost k = key@;
            proof {
                self.lemma_absent(k, at as int);
                let entries = self.entries@.insert(at as int, (key, row));
                let keys = entries.map_values(|entry: (String, V)| entry.0@);
                assert(keys =~= before.keys().insert(at as int, k));
                assert forall|i: int, j: int| 0 <= i < j < keys.len() implies text_lt(
                    #[trigger] keys[i],
                    #[trigger] keys[j],
                ) by {
                    let p = if i < at { i } else { i - 1 };
                    let q = if j < at { j } else { j - 1 };
                    if i != at {
                        assert(keys[i] == before.keys()[p]);
                    }
                    if j != at {
                        assert(keys[j] == before.keys()[q]);
                    }
                }
            }
            let mut entries: Vec<(String, V)> = Vec::new();
            std::mem::swap(&mut self.entries, &mut entries);
            entries.insert(at, (key, row));
            self.entries = entries;
            proof {
                assert(self.keys() =~= before.keys().insert(at as int, k));
                assert(self.rows() =~= before.rows().insert(at as int, row@));
                assert forall|other: Seq<char>|
                    self.keys().contains(other) <==> (before.keys().contains(other) || other
                        == k) by {
                    if before.keys().contains(other) {
                        let i = before.keys().index_of(other);
                        let p = if i < at { i } else { i + 1 };
                        assert(self.keys()[p] == other);
                    }
                    if other == k {
                        assert(self.keys()[at as int] == k);
                    }
                    if self.keys().contains(other) && other != k {
                        let p = self.keys().index_of(other);
                        let i = if p < at { p } else { p - 1 };
                        assert(before.keys()[i] == other);
                    }
                }
                assert forall|other: Seq<char>| self.keys().contains(other) implies self@[other]
                    == before@.insert(k, row@)[other] by {
                    let p = self.keys().index_of(other);
                    lemma_keyed_at(self.keys(), self.rows(), p);
                    if other == k {
                        lemma_keyed_at(self.keys(), self.rows(), at as int);
                    } else {
                        let i = if p < at { p } else { p - 1 };
                        assert(before.keys()[i] == other);
                        lemma_keyed_at(before.keys(), before.rows(), i);
                    }
                }
                assert(self@ =~= before@.insert(k, row@));
            }
        }
    }
}

impl<V: Record> Table<V> {
    /// Takes the row under a key out, if there is one.
    pub fn remove(&mut self, key: &str)
        ensures
            final(self)@ == old(self)@.remove(key@),
    {
        proof {
            use_type_invariant(&*self);
        }
        let at: usize = self.position(key);
        let ghost before = *self;
        if at < self.entries.len() && text_eq(self.entries[at].0.as_str(), key) {
            let mut entries: Vec<(String, V)> = Vec::new();
            std::mem::swap(&mut self.entries, &mut entries);
            entries.remove(at);
            proof {
                let keys = entries@.map_values(|entry: (String, V)| entry.0@);
                assert(keys =~= before.keys().remove(at as int));
                assert forall|i: int, j: int| 0 <= i < j < keys.len() implies text_lt(
                    #[trigger] keys[i],
                    #[trigger] keys[j],
                ) by {
                    let p = if i < at { i } else { i + 1 };
                    let q = if j < at { j } else { j + 1 };
                    assert(keys[i] == before.keys()[p]);
                    assert(keys[j] == before.keys()[q]);
                }
            }
            self.entries = entries;
            proof {
                assert(self.keys() =~= before.keys().remove(at as int));
                assert(self.rows() =~= before.rows().remove(at as int));
                lemma_distinct_keys(before.keys(), at as int);
                assert forall|other: Seq<char>|
                    self.keys().contains(other) <==> (before.keys().contains(other) && other
                        != key@) by {
                    if before.keys().contains(other) && other != key@ {
                        let i = before.keys().index_of(other);
                        let p = if i < at { i } else { i - 1 };
                        assert(self.keys()[p] == other);
                    }
                    if self.keys().contains(other) {
                        let p = self.keys().index_of(other);
                        let i = if p < at { p } else { p + 1 };
                        assert(before.keys()[i] == other);
                    }
                }
                assert forall|other: Seq<char>| self.keys().contains(other) implies self@[other]
                    == before@[other] by {
                    let p = self.keys().index_of(other);
                    lemma_keyed_at(self.keys(), self.rows(), p);
                    let i = if p < at { p } else { p + 1 };
                    assert(before.keys()[i] == other);
                    lemma_keyed_at(before.keys(), before.rows(), i);
                }
                assert(self@ =~= before@.remove(key@));
            }
        } else {
            proof {
                self.lemma_absent(key@, at as int);
                assert(self@ =~= before@.remove(key@));
            }
        }
    }
}

impl<V: Record> Record for Table<V> {
    fn duplicate(&self) -> (copy: Self) {
        proof {
            use_type_invariant(self);
        }
        let mut entries: Vec<(String, V)> = Vec::new();
        let mut i: usize = 0;
        while i < self.entries.len()
            invariant
                i <= self.entries.len(),
                entries.len() == i,
                forall|k: int| 0 <= k < i ==> (#[trigger] entries@[k]).0@ == self.entries@[k].0@,
                forall|k: int| 0 <= k < i ==> (#[trigger] entries@[k]).1@ == self.entries@[k].1@,
            decreases self.entries.len() - i,
        {
            entries.push((self.entries[i].0.clone(), self.entries[i].1.duplicate()));
            i = i + 1;
        }
        assert(entries@.map_values(|entry: (String, V)| entry.0@) =~= self.keys());
        assert(entries@.map_values(|entry: (String, V)| entry.1@) =~= self.rows());
        Table { entries }
    }

    fn same(&self, other: &Self) -> (same: bool) {
        let len: usize = self.len();
        if len != other.len() {
            proof {
                lemma_same_domain_same_keys(self.keys(), other.keys(), self@ == other@, self@.dom(), other@.dom());
            }
            return false;
        }
        let mut i: usize = 0;
        while i < len
            invariant
                i <= len,
                len == self.keys().len(),
                len == other.keys().len(),
                self.consistent(),
                other.consistent(),
                forall|k: int| 0 <= k < i ==> self.keys()[k] == other.keys()[k],
                forall|k: int| 0 <= k < i ==> self.rows()[k] == other.rows()[k],
            decreases len - i,
        {
            if !text_eq(self.key_at(i).as_str(), other.key_at(i).as_str()) {
                proof {
                    lemma_same_domain_same_keys(self.keys(), other.keys(), self@ == other@, self@.dom(), other@.dom());
                }
                return false;
            }
            if !self.row_at(i).same(other.row_at(i)) {
                assert(self@[self.keys()[i as int]] != other@[self.keys()[i as int]]);
                return false;
            }
            i = i + 1;
        }
        assert(self.keys() =~= other.keys());
        assert(self.rows() =~= other.rows());
        true
    }
}

/// Sorted key sequences over the same domain are the same sequence.
proof fn lemma_same_domain_same_keys(
    a: Seq<Seq<char>>,
    b: Seq<Seq<char>>,
    same: bool,
    left: Set<Seq<char>>,
    right: Set<Seq<char>>,
)
    requires
        strictly_sorted(a),
        strictly_sorted(b),
        same ==> left == right,
        forall|i: int| 0 <= i < a.len() ==> left.contains(#[trigger] a[i]),
        forall|i: int| 0 <= i < b.len() ==> right.contains(#[trigger] b[i]),
        forall|k: Seq<char>|
            #[trigger] left.contains(k) ==> exists|i: int| 0 <= i < a.len() && #[trigger] a[i] == k,
        forall|k: Seq<char>|
            #[trigger] right.contains(k) ==> exists|i: int| 0 <= i < b.len() && #[trigger] b[i] == k,
    ensures
        same ==> a == b,
{
    if same {
        lemma_prefix_agrees(a, b, left, 0);
    }
}

proof fn lemma_prefix_agrees(
    a: Seq<Seq<char>>,
    b: Seq<Seq<char>>,
    domain: Set<Seq<char>>,
    from: int,
)
    requires
        strictly_sorted(a),
        strictly_sorted(b),
        0 <= from <= a.len(),
        from <= b.len(),
        forall|i: int| 0 <= i < from ==> a[i] == b[i],
        forall|i: int| 0 <= i < a.len() ==> domain.contains(#[trigger] a[i]),
        forall|i: int| 0 <= i < b.len() ==> domain.contains(#[trigger] b[i]),
        forall|k: Seq<char>|
            #[trigger] domain.contains(k) ==> exists|i: int|
                0 <= i < a.len() && #[trigger] a[i] == k,
        forall|k: Seq<char>|
            #[trigger] domain.contains(k) ==> exists|i: int|
                0 <= i < b.len() && #[trigger] b[i] == k,
    ensures
        a == b,
    decreases a.len() - from,
{
    lemma_sorted_keys_are_distinct(a);
    lemma_sorted_keys_are_distinct(b);
    if from < a.len() {
        assert(domain.contains(a[from]));
        let j = choose|j: int| 0 <= j < b.len() && #[trigger] b[j] == a[from];
        assert(j >= from);
        assert(from < b.len());
        assert(domain.contains(b[from]));
        let i = choose|i: int| 0 <= i < a.len() && #[trigger] a[i] == b[from];
        assert(i >= from);
        text_order_is_strict_and_total(a[from], b[from], a[from]);
        if j > from && i > from {
            assert(text_lt(b[from], b[j]));
            assert(text_lt(a[from], a[i]));
        }
        lemma_prefix_agrees(a, b, domain, from + 1);
    } else if from < b.len() {
        assert(domain.contains(b[from]));
        let i = choose|i: int| 0 <= i < a.len() && #[trigger] a[i] == b[from];
        assert(b[i] == b[from]);
    } else {
        assert(a =~= b);
    }
}

} // verus!
