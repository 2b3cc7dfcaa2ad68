//! Maps and sets that keep their keys in order.

use vstd::prelude::*;

verus! {

/// A key type with a strict total order.
pub trait SortKey: DeepView + Sized {
    /// The order, on the keys' values.
    spec fn before(a: Self::V, b: Self::V) -> bool;

    proof fn irreflexive(a: Self::V)
        ensures
            !Self::before(a, a),
    ;

    proof fn transitive(a: Self::V, b: Self::V, c: Self::V)
        requires
            Self::before(a, b),
            Self::before(b, c),
        ensures
            Self::before(a, c),
    ;

    proof fn total(a: Self::V, b: Self::V)
        ensures
            a == b || Self::before(a, b) || Self::before(b, a),
    ;

    fn is_before(&self, other: &Self) -> (r: bool)
        ensures
            r == Self::before(self.deep_view(), other.deep_view()),
    ;

    fn is_same(&self, other: &Self) -> (r: bool)
        ensures
            r == (self.deep_view() == other.deep_view()),
    ;
}

impl SortKey for String {
    open spec fn before(a: Seq<char>, b: Seq<char>) -> bool {
        crate::text::text_before(a, b)
    }

    proof fn irreflexive(a: Seq<char>) {
        crate::text::lemma_text_before_irreflexive(a);
    }

    proof fn transitive(a: Seq<char>, b: Seq<char>, c: Seq<char>) {
        crate::text::lemma_text_before_transitive(a, b, c);
    }

    proof fn total(a: Seq<char>, b: Seq<char>) {
        crate::text::lemma_text_before_total(a, b);
    }

    fn is_before(&self, other: &Self) -> (r: bool) {
        crate::text::is_before(self.as_str(), other.as_str())
    }

    fn is_same(&self, other: &Self) -> (r: bool) {
        *self == *other
    }
}

impl SortKey for usize {
    open spec fn before(a: usize, b: usize) -> bool {
        a < b
    }

    proof fn irreflexive(a: usize) {
    }

    proof fn transitive(a: usize, b: usize, c: usize) {
    }

    proof fn total(a: usize, b: usize) {
    }

    fn is_before(&self, other: &Self) -> (r: bool) {
        *self < *other
    }

    fn is_same(&self, other: &Self) -> (r: bool) {
        *self == *other
    }
}

impl<A: SortKey, B: SortKey> SortKey for (A, B) {
    open spec fn before(a: (A::V, B::V), b: (A::V, B::V)) -> bool {
        A::before(a.0, b.0) || (a.0 == b.0 && B::before(a.1, b.1))
    }

    proof fn irreflexive(a: (A::V, B::V)) {
        A::irreflexive(a.0);
        B::irreflexive(a.1);
    }

    proof fn transitive(a: (A::V, B::V), b: (A::V, B::V), c: (A::V, B::V)) {
        if A::before(a.0, b.0) && A::before(b.0, c.0) {
            A::transitive(a.0, b.0, c.0);
        }
        if B::before(a.1, b.1) && B::before(b.1, c.1) {
            B::transitive(a.1, b.1, c.1);
        }
    }

    proof fn total(a: (A::V, B::V), b: (A::V, B::V)) {
        A::total(a.0, b.0);
        B::total(a.1, b.1);
    }

    fn is_before(&self, other: &Self) -> (r: bool) {
        self.0.is_before(&other.0) || (self.0.is_same(&other.0) && self.1.is_before(&other.1))
    }

    fn is_same(&self, other: &Self) -> (r: bool) {
        self.0.is_same(&other.0) && self.1.is_same(&other.1)
    }
}

/// Whether the keys increase strictly.
pub open spec fn increasing<K: SortKey>(keys: Seq<K::V>) -> bool {
    forall|i: int, j: int| 0 <= i < j < keys.len() ==> K::before(#[trigger] keys[i], #[trigger] keys[j])
}

/// The map that a list of entries stands for; of two entries with one key the first counts.
pub open spec fn map_of<K, V>(entries: Seq<(K, V)>) -> Map<K, V>
    decreases entries.len(),
{
    if entries.len() == 0 {
        Map::empty()
    } else {
        map_of(entries.drop_first()).insert(entries[0].0, entries[0].1)
    }
}

/// The keys of a list of entries.
pub open spec fn keys_of<K, V>(entries: Seq<(K, V)>) -> Seq<K> {
    Seq::new(entries.len(), |i: int| entries[i].0)
}

pub proof fn lemma_map_of_absent<K, V>(entries: Seq<(K, V)>, k: K)
    requires
        forall|i: int| 0 <= i < entries.len() ==> (#[trigger] entries[i]).0 != k,
    ensures
        !map_of(entries).contains_key(k),
    decreases entries.len(),
{
    if entries.len() > 0 {
        let rest = entries.drop_first();
        assert forall|i: int| 0 <= i < rest.len() implies (#[trigger] rest[i]).0 != k by {
            assert(rest[i] == entries[i + 1]);
        }
        lemma_map_of_absent(rest, k);
        assert(entries[0].0 != k);
    }
}

pub proof fn lemma_map_of_first<K, V>(entries: Seq<(K, V)>, i: int)
    requires
        0 <= i < entries.len(),
        forall|j: int| 0 <= j < i ==> (#[trigger] entries[j]).0 != entries[i].0,
    ensures
        map_of(entries).contains_key(entries[i].0),
        map_of(entries)[entries[i].0] == entries[i].1,
    decreases entries.len(),
{
    if i > 0 {
        let rest = entries.drop_first();
        assert(rest[i - 1] == entries[i]);
        assert forall|j: int| 0 <= j < i - 1 implies (#[trigger] rest[j]).0 != rest[i - 1].0 by {
            assert(rest[j] == entries[j + 1]);
        }
        lemma_map_of_first(rest, i - 1);
        assert(entries[0].0 != entries[i].0);
    }
}

/// Every key of the map stands in an entry.
pub proof fn lemma_map_of_present<K, V>(entries: Seq<(K, V)>, k: K) -> (i: int)
    requires
        map_of(entries).contains_key(k),
    ensures
        0 <= i < entries.len(),
        entries[i].0 == k,
        entries[i].1 == map_of(entries)[k],
        forall|j: int| 0 <= j < i ==> (#[trigger] entries[j]).0 != k,
    decreases entries.len(),
{
    if entries[0].0 == k {
        0
    } else {
        let rest = entries.drop_first();
        let i = lemma_map_of_present(rest, k);
        assert forall|j: int| 0 <= j < i + 1 implies (#[trigger] entries[j]).0 != k by {
            if j > 0 {
                assert(rest[j - 1] == entries[j]);
            }
        }
        i + 1
    }
}

proof fn lemma_map_of_insert<K, V>(entries: Seq<(K, V)>, i: int, k: K, v: V)
    requires
        0 <= i <= entries.len(),
        forall|j: int| 0 <= j < i ==> (#[trigger] entries[j]).0 != k,
    ensures
        map_of(entries.insert(i, (k, v))) == map_of(entries).insert(k, v),
    decreases entries.len(),
{
    let grown = entries.insert(i, (k, v));
    if i == 0 {
        assert(grown.drop_first() =~= entries);
    } else {
        let rest = entries.drop_first();
        assert(grown.drop_first() =~= rest.insert(i - 1, (k, v)));
        assert forall|j: int| 0 <= j < i - 1 implies (#[trigger] rest[j]).0 != k by {
            assert(rest[j] == entries[j + 1]);
        }
        lemma_map_of_insert(rest, i - 1, k, v);
        assert(entries[0].0 != k);
        assert(map_of(grown) =~= map_of(entries).insert(k, v));
    }
}

proof fn lemma_map_of_update<K, V>(entries: Seq<(K, V)>, i: int, v: V)
    requires
        0 <= i < entries.len(),
        forall|j: int| 0 <= j < i ==> (#[trigger] entries[j]).0 != entries[i].0,
    ensures
        map_of(entries.update(i, (entries[i].0, v))) == map_of(entries).insert(entries[i].0, v),
    decreases entries.len(),
{
    let k = entries[i].0;
    let changed = entries.update(i, (k, v));
    if i == 0 {
        assert(changed.drop_first() =~= entries.drop_first());
        assert(map_of(changed) =~= map_of(entries).insert(k, v));
    } else {
        let rest = entries.drop_first();
        assert(rest[i - 1] == entries[i]);
        assert(changed.drop_first() =~= rest.update(i - 1, (k, v)));
        assert forall|j: int| 0 <= j < i - 1 implies (#[trigger] rest[j]).0 != rest[i - 1].0 by {
            assert(rest[j] == entries[j + 1]);
        }
        lemma_map_of_update(rest, i - 1, v);
        assert(entries[0].0 != k);
        assert(map_of(changed) =~= map_of(entries).insert(k, v));
    }
}

/// A map that keeps its entries in the order of their keys.
#[derive(Debug, PartialEq, Eq)]
pub struct OrderedMap<K, V> {
    pub entries: Vec<(K, V)>,
}

impl<K: DeepView, V: DeepView> DeepView for OrderedMap<K, V> {
    type V = Map<K::V, V::V>;

    open spec fn deep_view(&self) -> Map<K::V, V::V> {
        map_of(self.entries.deep_view())
    }
}

impl<K: DeepView, V: DeepView> View for OrderedMap<K, V> {
    type V = Map<K::V, V::V>;

    open spec fn view(&self) -> Map<K::V, V::V> {
        self.deep_view()
    }
}

impl<K: SortKey, V: DeepView> OrderedMap<K, V> {
    /// The entries stand in the order of their keys, and no key stands twice.
    pub open spec fn sorted(&self) -> bool {
        increasing::<K>(keys_of(self.entries.deep_view()))
    }

    /// The empty map.
    pub fn new() -> (r: Self)
        ensures
            r@ == Map::<K::V, V::V>::empty(),
            r.sorted(),
            r.entries@.len() == 0,
    {
        let r = OrderedMap { entries: Vec::new() };
        assert(r.entries.deep_view() =~= Seq::empty());
        r
    }

    /// The position of the entry with this key.
    pub fn position(&self, key: &K) -> (r: Option<usize>)
        ensures
            match r {
                Some(i) => {
                    &&& i < self.entries@.len()
                    &&& self.entries.deep_view()[i as int].0 == key.deep_view()
                    &&& forall|j: int| 0 <= j < i ==> (#[trigger] self.entries.deep_view()[j]).0 != key.deep_view()
                    &&& self@.contains_key(key.deep_view())
                    &&& self@[key.deep_view()] == self.entries.deep_view()[i as int].1
                },
                None => {
                    &&& !self@.contains_key(key.deep_view())
                    &&& forall|j: int| 0 <= j < self.entries@.len() ==> (#[trigger] self.entries.deep_view()[j]).0 != key.deep_view()
                },
            },
    {
        let ghost all = self.entries.deep_view();
        let mut i: usize = 0;
        while i < self.entries.len()
            invariant
                all == self.entries.deep_view(),
                i <= self.entries.len(),
                forall|j: int| 0 <= j < i ==> (#[trigger] all[j]).0 != key.deep_view(),
            decreases self.entries.len() - i,
        {
            if self.entries[i].0.is_same(key) {
                assert(all[i as int].0 == key.deep_view());
                proof {
                    lemma_map_of_first(all, i as int);
                }
                return Some(i);
            }
            assert(all[i as int].0 != key.deep_view());
            i += 1;
        }
        proof {
            lemma_map_of_absent(all, key.deep_view());
        }
        None
    }

    /// The value under this key.
    pub fn get(&self, key: &K) -> (r: Option<&V>)
        ensures
            r.deep_view() == (if self@.contains_key(key.deep_view()) {
                Some(self@[key.deep_view()])
            } else {
                None
            }),
    {
        match self.position(key) {
            Some(i) => Some(&self.entries[i].1),
            None => None,
        }
    }

    /// Whether the map has this key.
    pub fn contains_key(&self, key: &K) -> (r: bool)
        ensures
            r == self@.contains_key(key.deep_view()),
    {
        self.position(key).is_some()
    }

    /// Puts a value under a key, in place of the one that stood there.
    pub fn insert(&mut self, key: K, value: V)
        ensures
            final(self)@ == old(self)@.insert(key.deep_view(), value.deep_view()),
            old(self).sorted() ==> final(self).sorted(),
            old(self)@.contains_key(key.deep_view()) ==> final(self).entries@.len() == old(self).entries@.len(),
            !old(self)@.contains_key(key.deep_view()) ==> final(self).entries@.len() == old(self).entries@.len() + 1,
    {
        let ghost before = self.entries.deep_view();
        match self.position(&key) {
            Some(i) => {
                proof {
                    lemma_map_of_update(before, i as int, value.deep_view());
                }
                self.entries.set(i, (key, value));
                assert(self.entries.deep_view() =~= before.update(
                    i as int,
                    (before[i as int].0, value.deep_view()),
                ));
                assert(keys_of(self.entries.deep_view()) =~= keys_of(before));
            },
            None => {
                let mut i: usize = 0;
                let ghost keys = keys_of(before);
                while i < self.entries.len() && self.entries[i].0.is_before(&key)
                    invariant
                        before == self.entries.deep_view(),
                        keys == keys_of(before),
                        i <= self.entries.len(),
                        forall|j: int| 0 <= j < i ==> K::before(#[trigger] keys[j], key.deep_view()),
                    decreases self.entries.len() - i,
                {
                    assert(keys[i as int] == self.entries[i as int].0.deep_view());
                    i += 1;
                }
                proof {
                    if i < self.entries@.len() {
                        assert(keys[i as int] == before[i as int].0);
                        assert(!K::before(keys[i as int], key.deep_view()));
                    }
                    lemma_map_of_insert(before, i as int, key.deep_view(), value.deep_view());
                }
                let ghost k = key.deep_view();
                let ghost v = value.deep_view();
                self.entries.insert(i, (key, value));
                assert(self.entries.deep_view() =~= before.insert(i as int, (k, v)));
                proof {
                    if old(self).sorted() {
                        let grown = keys_of(self.entries.deep_view());
                        assert(grown =~= keys.insert(i as int, k));
                        assert forall|a: int, b: int| 0 <= a < b < grown.len() implies K::before(
                            #[trigger] grown[a],
                            #[trigger] grown[b],
                        ) by {
                            if a < i && b < i {
                                assert(K::before(keys[a], keys[b]));
                            } else if a < i && b > i {
                                assert(K::before(keys[a], keys[b - 1]));
                            } else if a > i {
                                assert(K::before(keys[a - 1], keys[b - 1]));
                            } else if a == i {
                                let first = keys[i as int];
                                assert(first == before[i as int].0);
                                K::total(first, k);
                                if b - 1 > i {
                                    assert(K::before(keys[i as int], keys[b - 1]));
                                    K::transitive(k, first, keys[b - 1]);
                                }
                            }
                        }
                    }
                }
            },
        }
    }

    /// The map of these entries; of two with one key the last counts.
    pub fn from_entries(entries: Vec<(K, V)>) -> (r: Self)
        ensures
            r.sorted(),
            r@ == map_of(entries.deep_view().reverse()),
    {
        let ghost all = entries.deep_view();
        let mut source: Vec<(K, V)> = entries;
        let mut reversed: Vec<(K, V)> = Vec::new();
        assert(reversed.deep_view() =~= all.reverse().take(0));
        while source.len() > 0
            invariant
                source.deep_view() == all.take(source@.len() as int),
                source@.len() <= all.len(),
                reversed@.len() == all.len() - source@.len(),
                reversed.deep_view() == all.reverse().take(reversed@.len() as int),
            decreases source@.len(),
        {
            let ghost len = source@.len();
            assert(source.deep_view()[len - 1] == all[len - 1]);
            match source.pop() {
                Some(entry) => {
                    reversed.push(entry);
                },
                None => {},
            }
            assert(source.deep_view() =~= all.take(len - 1));
            assert(reversed.deep_view() =~= all.reverse().take(reversed@.len() as int));
        }
        assert(reversed.deep_view() =~= all.reverse());
        let mut r: Self = OrderedMap::new();
        let ghost rev = all.reverse();
        assert(rev.skip(rev.len() as int) =~= Seq::empty());
        while reversed.len() > 0
            invariant
                reversed.deep_view() == rev.take(reversed@.len() as int),
                reversed@.len() <= rev.len(),
                r.sorted(),
                r@ == map_of(rev.skip(reversed@.len() as int)),
            decreases reversed@.len(),
        {
            let ghost len = reversed@.len();
            assert(reversed.deep_view()[len - 1] == rev[len - 1]);
            match reversed.pop() {
                Some((key, value)) => {
                    r.insert(key, value);
                },
                None => {},
            }
            assert(reversed.deep_view() =~= rev.take(len - 1));
            assert(rev.skip(len - 1).drop_first() =~= rev.skip(len as int));
        }
        assert(rev.skip(0) =~= rev);
        r
    }
}

/// A set that keeps its elements in order.
#[derive(Debug, PartialEq, Eq)]
pub struct OrderedSet<K> {
    pub elements: Vec<K>,
}

/// Whether clones of a type have the value of what they are clones of.
pub open spec fn clones_keep_values<T: Clone + DeepView>() -> bool {
    forall|a: T, b: T| #[trigger] cloned(a, b) ==> a.deep_view() == b.deep_view()
}

impl<K: Clone + DeepView> Clone for OrderedSet<K> {
    fn clone(&self) -> (r: Self)
        ensures
            clones_keep_values::<K>() ==> r@ == self@ && r.elements.deep_view()
                == self.elements.deep_view(),
    {
        let elements: Vec<K> = self.elements.clone();
        proof {
            if clones_keep_values::<K>() {
                assert forall|i: int| 0 <= i < elements@.len() implies elements@[i].deep_view()
                    == self.elements@[i].deep_view() by {
                    assert(cloned(self.elements@[i], elements@[i]));
                }
                assert(elements.deep_view() =~= self.elements.deep_view());
            }
        }
        OrderedSet { elements }
    }
}

impl<K: Clone + DeepView, V: Clone + DeepView> Clone for OrderedMap<K, V> {
    fn clone(&self) -> (r: Self)
        ensures
            clones_keep_values::<K>() && clones_keep_values::<V>() ==> r@ == self@
                && r.entries.deep_view() == self.entries.deep_view(),
    {
        let mut entries: Vec<(K, V)> = Vec::new();
        let mut i: usize = 0;
        while i < self.entries.len()
            invariant
                i <= self.entries.len(),
                entries@.len() == i,
                clones_keep_values::<K>() && clones_keep_values::<V>() ==> forall|j: int|
                    0 <= j < i ==> (#[trigger] entries.deep_view()[j])
                        == self.entries.deep_view()[j],
            decreases self.entries.len() - i,
        {
            let key: K = self.entries[i].0.clone();
            let value: V = self.entries[i].1.clone();
            assert(cloned(self.entries@[i as int].0, key));
            assert(cloned(self.entries@[i as int].1, value));
            let ghost before = entries.deep_view();
            let ghost added = (key.deep_view(), value.deep_view());
            entries.push((key, value));
            assert(entries.deep_view() =~= before.push(added));
            i += 1;
        }
        assert(clones_keep_values::<K>() && clones_keep_values::<V>() ==> entries.deep_view()
            =~= self.entries.deep_view());
        OrderedMap { entries }
    }
}

impl<K: DeepView> DeepView for OrderedSet<K> {
    type V = Set<K::V>;

    open spec fn deep_view(&self) -> Set<K::V> {
        self.elements.deep_view().to_set()
    }
}

impl<K: DeepView> View for OrderedSet<K> {
    type V = Set<K::V>;

    open spec fn view(&self) -> Set<K::V> {
        self.deep_view()
    }
}

impl<K: SortKey> OrderedSet<K> {
    /// The elements stand in order, and none stands twice.
    pub open spec fn sorted(&self) -> bool {
        increasing::<K>(self.elements.deep_view())
    }

    /// The empty set.
    pub fn new() -> (r: Self)
        ensures
            r@ == Set::<K::V>::empty(),
            r.sorted(),
    {
        let r = OrderedSet { elements: Vec::new() };
        assert(r.elements.deep_view() =~= Seq::empty());
        assert(r@ =~= Set::empty());
        r
    }

    /// Whether the set holds this element.
    pub fn contains(&self, key: &K) -> (r: bool)
        ensures
            r == self@.contains(key.deep_view()),
    {
        let ghost all = self.elements.deep_view();
        let mut i: usize = 0;
        while i < self.elements.len()
            invariant
                all == self.elements.deep_view(),
                i <= self.elements.len(),
                forall|j: int| 0 <= j < i ==> #[trigger] all[j] != key.deep_view(),
            decreases self.elements.len() - i,
        {
            if self.elements[i].is_same(key) {
                assert(all[i as int] == key.deep_view());
                return true;
            }
            assert(all[i as int] != key.deep_view());
            i += 1;
        }
        false
    }

    /// Adds an element; tells whether it is new.
    pub fn insert(&mut self, key: K) -> (r: bool)
        ensures
            final(self)@ == old(self)@.insert(key.deep_view()),
            r == !old(self)@.contains(key.deep_view()),
            old(self).sorted() ==> final(self).sorted(),
            final(self).elements@.len() == old(self).elements@.len() + (if r {
                1int
            } else {
                0
            }),
    {
        if self.contains(&key) {
            assert(self@ =~= self@.insert(key.deep_view()));
            return false;
        }
        let ghost keys = self.elements.deep_view();
        let ghost k = key.deep_view();
        let mut i: usize = 0;
        while i < self.elements.len() && self.elements[i].is_before(&key)
            invariant
                keys == self.elements.deep_view(),
                i <= self.elements.len(),
                forall|j: int| 0 <= j < i ==> K::before(#[trigger] keys[j], key.deep_view()),
            decreases self.elements.len() - i,
        {
            assert(keys[i as int] == self.elements[i as int].deep_view());
            i += 1;
        }
        assert(i < self.elements@.len() ==> !K::before(keys[i as int], k) && keys.contains(keys[i as int]));
        self.elements.insert(i, key);
        let ghost grown = self.elements.deep_view();
        assert(grown =~= keys.insert(i as int, k));
        proof {
            assert forall|x: K::V| grown.to_set().contains(x) == keys.to_set().insert(k).contains(x) by {
                if keys.contains(x) {
                    let j = choose|j: int| 0 <= j < keys.len() && keys[j] == x;
                    assert(grown[if j < i { j } else { j + 1 }] == x);
                }
                if grown.contains(x) {
                    let j = choose|j: int| 0 <= j < grown.len() && grown[j] == x;
                    if j < i {
                        assert(keys[j] == x);
                    } else if j > i {
                        assert(keys[j - 1] == x);
                    }
                }
                assert(grown[i as int] == k);
            }
            assert(self@ =~= old(self)@.insert(k));
            if old(self).sorted() {
                assert forall|a: int, b: int| 0 <= a < b < grown.len() implies K::before(
                    #[trigger] grown[a],
                    #[trigger] grown[b],
                ) by {
                    if a < i && b < i {
                        assert(K::before(keys[a], keys[b]));
                    } else if a < i && b > i {
                        assert(K::before(keys[a], keys[b - 1]));
                    } else if a > i {
                        assert(K::before(keys[a - 1], keys[b - 1]));
                    } else if a == i {
                        let first = keys[i as int];
                        K::total(first, k);
                        if b - 1 > i {
                            assert(K::before(keys[i as int], keys[b - 1]));
                            K::transitive(k, first, keys[b - 1]);
                        }
                    }
                }
            }
        }
        true
    }
}

impl<K: SortKey> OrderedSet<K> {
    /// Whether every element stands in the other set.
    pub fn is_subset(&self, other: &Self) -> (r: bool)
        ensures
            r == self@.subset_of(other@),
    {
        let ghost all = self.elements.deep_view();
        let mut i: usize = 0;
        while i < self.elements.len()
            invariant
                all == self.elements.deep_view(),
                i <= self.elements.len(),
                forall|j: int| 0 <= j < i ==> other@.contains(#[trigger] all[j]),
            decreases self.elements.len() - i,
        {
            assert(all[i as int] == self.elements@[i as int].deep_view());
            if !other.contains(&self.elements[i]) {
                assert(self@.contains(all[i as int]));
                return false;
            }
            i += 1;
        }
        true
    }

    /// Whether both sets have the same elements.
    pub fn is_same(&self, other: &Self) -> (r: bool)
        ensures
            r == (self@ == other@),
    {
        let r = self.is_subset(other) && other.is_subset(self);
        proof {
            if r {
                assert(self@ =~= other@);
            }
        }
        r
    }
}

/// Two increasing lists with the same elements are the same list.
pub proof fn lemma_increasing_unique<K: SortKey>(a: Seq<K::V>, b: Seq<K::V>)
    requires
        increasing::<K>(a),
        increasing::<K>(b),
        forall|x: K::V| a.contains(x) == b.contains(x),
    ensures
        a == b,
    decreases a.len(),
{
    if a.len() == 0 {
        if b.len() > 0 {
            assert(b.contains(b[0]));
        }
        assert(a =~= b);
    } else {
        assert(a.contains(a[0]));
        let j = choose|j: int| 0 <= j < b.len() && b[j] == a[0];
        assert(b.contains(b[0]));
        let i = choose|i: int| 0 <= i < a.len() && a[i] == b[0];
        if a[0] != b[0] {
            K::transitive(a[0], b[0], a[0]);
            K::irreflexive(a[0]);
        }
        let ra = a.drop_first();
        let rb = b.drop_first();
        assert forall|x: K::V| ra.contains(x) == rb.contains(x) by {
            if ra.contains(x) {
                let k = choose|k: int| 0 <= k < ra.len() && ra[k] == x;
                assert(a[k + 1] == x);
                assert(K::before(a[0], x));
                K::irreflexive(x);
                assert(b.contains(x));
                let m = choose|m: int| 0 <= m < b.len() && b[m] == x;
                assert(rb[m - 1] == x);
            }
            if rb.contains(x) {
                let k = choose|k: int| 0 <= k < rb.len() && rb[k] == x;
                assert(b[k + 1] == x);
                assert(K::before(b[0], x));
                K::irreflexive(x);
                assert(a.contains(x));
                let m = choose|m: int| 0 <= m < a.len() && a[m] == x;
                assert(ra[m - 1] == x);
            }
        }
        assert(increasing::<K>(ra)) by {
            assert forall|x: int, y: int| 0 <= x < y < ra.len() implies K::before(
                #[trigger] ra[x],
                #[trigger] ra[y],
            ) by {
                assert(K::before(a[x + 1], a[y + 1]));
            }
        }
        assert(increasing::<K>(rb)) by {
            assert forall|x: int, y: int| 0 <= x < y < rb.len() implies K::before(
                #[trigger] rb[x],
                #[trigger] rb[y],
            ) by {
                assert(K::before(b[x + 1], b[y + 1]));
            }
        }
        lemma_increasing_unique::<K>(ra, rb);
        assert(a =~= seq![a[0]] + ra);
        assert(b =~= seq![b[0]] + rb);
    }
}

/// The elements of a finite set, in order.
pub open spec fn sorted_elements<K: SortKey>(s: Set<K::V>) -> Seq<K::V> {
    choose|list: Seq<K::V>| increasing::<K>(list) && list.to_set() == s
}

/// The entries of a finite map, in the order of their keys.
pub open spec fn sorted_entries<K: SortKey, T>(m: Map<K::V, T>) -> Seq<(K::V, T)> {
    choose|list: Seq<(K::V, T)>| increasing::<K>(keys_of(list)) && map_of(list) == m
}

/// The values of a list of entries.
pub open spec fn values_of<K, V>(entries: Seq<(K, V)>) -> Seq<V> {
    Seq::new(entries.len(), |i: int| entries[i].1)
}

/// The values of a finite map, in the order of their keys.
pub open spec fn sorted_values<K: SortKey, T>(m: Map<K::V, T>) -> Seq<T> {
    values_of(sorted_entries::<K, T>(m))
}

/// An increasing list is the one that its set sorts to.
pub proof fn lemma_sorted_elements<K: SortKey>(list: Seq<K::V>)
    requires
        increasing::<K>(list),
    ensures
        sorted_elements::<K>(list.to_set()) == list,
{
    let other = sorted_elements::<K>(list.to_set());
    assert(increasing::<K>(list) && list.to_set() == list.to_set());
    assert forall|x: K::V| list.contains(x) == other.contains(x) by {
        assert(list.to_set().contains(x) == other.to_set().contains(x));
    }
    lemma_increasing_unique::<K>(list, other);
}

proof fn lemma_insert_in_order<K: SortKey>(list: Seq<K::V>, x: K::V) -> (r: Seq<K::V>)
    requires
        increasing::<K>(list),
        !list.contains(x),
    ensures
        increasing::<K>(r),
        r.to_set() == list.to_set().insert(x),
    decreases list.len(),
{
    if list.len() == 0 {
        let r = seq![x];
        assert(r.to_set() =~= list.to_set().insert(x)) by {
            assert(r[0] == x);
        }
        r
    } else {
        let last = list.last();
        let front = list.drop_last();
        assert(list.contains(last));
        assert(list =~= front.push(last));
        K::total(last, x);
        if K::before(last, x) {
            let r = list.push(x);
            assert forall|a: int, b: int| 0 <= a < b < r.len() implies K::before(
                #[trigger] r[a],
                #[trigger] r[b],
            ) by {
                if b == list.len() && a < list.len() - 1 {
                    assert(K::before(list[a], list[list.len() - 1]));
                    K::transitive(list[a], last, x);
                }
            }
            lemma_to_set_push(list, x);
            r
        } else {
            assert forall|a: int, b: int| 0 <= a < b < front.len() implies K::before(
                #[trigger] front[a],
                #[trigger] front[b],
            ) by {
                assert(K::before(list[a], list[b]));
            }
            assert(!front.contains(x)) by {
                if front.contains(x) {
                    let k = choose|k: int| 0 <= k < front.len() && front[k] == x;
                    assert(list[k] == x);
                }
            }
            let inner = lemma_insert_in_order::<K>(front, x);
            let r = inner.push(last);
            assert forall|a: int, b: int| 0 <= a < b < r.len() implies K::before(
                #[trigger] r[a],
                #[trigger] r[b],
            ) by {
                if b == inner.len() {
                    assert(inner.to_set().contains(inner[a]));
                    if inner[a] != x {
                        assert(front.contains(inner[a]));
                        let k = choose|k: int| 0 <= k < front.len() && front[k] == inner[a];
                        assert(K::before(list[k], list[list.len() - 1]));
                    }
                }
            }
            lemma_to_set_push(inner, last);
            lemma_to_set_push(front, last);
            assert(r.to_set() =~= list.to_set().insert(x));
            r
        }
    }
}

proof fn lemma_to_set_push<A>(s: Seq<A>, x: A)
    ensures
        s.push(x).to_set() == s.to_set().insert(x),
{
    let t = s.push(x);
    lemma_to_set_step(t, s.len() as int);
    assert(t.take(s.len() as int) =~= s);
    assert(t.take(s.len() as int + 1) =~= t);
}

proof fn lemma_order_exists<K: SortKey>(list: Seq<K::V>) -> (r: Seq<K::V>)
    ensures
        increasing::<K>(r),
        r.to_set() == list.to_set(),
    decreases list.len(),
{
    if list.len() == 0 {
        list
    } else {
        let front = lemma_order_exists::<K>(list.drop_last());
        let last = list.last();
        assert(list =~= list.drop_last().push(last));
        lemma_to_set_push(list.drop_last(), last);
        if front.contains(last) {
            assert(front.to_set().contains(last));
            assert(front.to_set() =~= list.to_set());
            front
        } else {
            lemma_insert_in_order::<K>(front, last)
        }
    }
}

/// A finite set sorts to the list of its elements, in order and without repetition.
pub proof fn sorting_keeps_the_elements<K: SortKey>(s: Set<K::V>)
    requires
        s.finite(),
    ensures
        increasing::<K>(sorted_elements::<K>(s)),
        sorted_elements::<K>(s).to_set() == s,
{
    s.lemma_to_seq_to_set_id();
    let list = lemma_order_exists::<K>(s.to_seq());
    assert(increasing::<K>(list) && list.to_set() == s);
}

/// A list of entries with increasing keys is the one that its map sorts to.
pub proof fn lemma_sorted_entries<K: SortKey, T>(list: Seq<(K::V, T)>)
    requires
        increasing::<K>(keys_of(list)),
    ensures
        sorted_entries::<K, T>(map_of(list)) == list,
{
    let other = sorted_entries::<K, T>(map_of(list));
    assert(increasing::<K>(keys_of(list)) && map_of(list) == map_of(list));
    let a = keys_of(list);
    let b = keys_of(other);
    assert forall|x: K::V| a.contains(x) == b.contains(x) by {
        lemma_keys_contain(list, x);
        lemma_keys_contain(other, x);
    }
    lemma_increasing_unique::<K>(a, b);
    assert forall|i: int| 0 <= i < list.len() implies list[i] == other[i] by {
        assert(a[i] == b[i]);
        assert forall|j: int| 0 <= j < i implies (#[trigger] list[j]).0 != list[i].0 by {
            assert(K::before(a[j], a[i]));
            K::irreflexive(a[i]);
        }
        assert forall|j: int| 0 <= j < i implies (#[trigger] other[j]).0 != other[i].0 by {
            assert(K::before(b[j], b[i]));
            K::irreflexive(b[i]);
        }
        lemma_map_of_first(list, i);
        lemma_map_of_first(other, i);
    }
    assert(a.len() == b.len());
    assert(list =~= other);
}

/// The keys of the entries are the keys of the map.
pub proof fn lemma_keys_contain<K, V>(entries: Seq<(K, V)>, k: K)
    ensures
        keys_of(entries).contains(k) == map_of(entries).contains_key(k),
{
    let keys = keys_of(entries);
    if map_of(entries).contains_key(k) {
        let i = lemma_map_of_present(entries, k);
        assert(keys[i] == k);
    } else if keys.contains(k) {
        let i = choose|i: int| 0 <= i < keys.len() && keys[i] == k;
        assert(entries[i].0 == k);
        lemma_some_entry(entries, i);
    }
}

proof fn lemma_some_entry<K, V>(entries: Seq<(K, V)>, i: int)
    requires
        0 <= i < entries.len(),
    ensures
        map_of(entries).contains_key(entries[i].0),
    decreases entries.len(),
{
    if i > 0 {
        assert(entries.drop_first()[i - 1] == entries[i]);
        lemma_some_entry(entries.drop_first(), i - 1);
    }
}

impl<K: SortKey, V: DeepView> OrderedMap<K, V> {
    /// The values, in the order of their keys.
    pub fn into_values(self) -> (r: Vec<V>)
        ensures
            r.deep_view() == values_of(self.entries.deep_view()),
            self.sorted() ==> r.deep_view() == sorted_values::<K, V::V>(self@),
    {
        let ghost all = self.entries.deep_view();
        let ghost is_sorted = self.sorted();
        let mut source: Vec<(K, V)> = self.entries;
        let mut reversed: Vec<V> = Vec::new();
        while source.len() > 0
            invariant
                source.deep_view() == all.take(source@.len() as int),
                source@.len() <= all.len(),
                reversed@.len() == all.len() - source@.len(),
                forall|i: int|
                    0 <= i < reversed@.len() ==> (#[trigger] reversed.deep_view()[i]) == all[all.len()
                        - 1 - i].1,
            decreases source@.len(),
        {
            let ghost len = source@.len();
            assert(source.deep_view()[len - 1] == all[len - 1]);
            let ghost before = reversed.deep_view();
            match source.pop() {
                Some((key, value)) => {
                    let ghost v = value.deep_view();
                    reversed.push(value);
                    assert(reversed.deep_view() =~= before.push(v));
                },
                None => {},
            }
            assert(source.deep_view() =~= all.take(len - 1));
        }
        let mut values: Vec<V> = Vec::new();
        while reversed.len() > 0
            invariant
                reversed@.len() <= all.len(),
                values@.len() == all.len() - reversed@.len(),
                forall|i: int|
                    0 <= i < reversed@.len() ==> (#[trigger] reversed.deep_view()[i]) == all[all.len()
                        - 1 - i].1,
                forall|i: int|
                    0 <= i < values@.len() ==> (#[trigger] values.deep_view()[i]) == all[i].1,
            decreases reversed@.len(),
        {
            let ghost len = reversed@.len();
            let ghost before = values.deep_view();
            let ghost rest = reversed.deep_view();
            assert(rest[len - 1] == all[all.len() - len].1);
            match reversed.pop() {
                Some(value) => {
                    let ghost v = value.deep_view();
                    values.push(value);
                    assert(values.deep_view() =~= before.push(v));
                },
                None => {},
            }
            assert(reversed.deep_view() =~= rest.take(len - 1));
        }
        assert(values.deep_view() =~= values_of(all));
        proof {
            if is_sorted {
                lemma_sorted_entries::<K, V::V>(all);
            }
        }
        values
    }
}

/// Adds a text to an increasing list of texts.
pub fn insert_text(list: Vec<String>, x: &String) -> (r: Vec<String>)
    requires
        increasing::<String>(list.deep_view()),
    ensures
        increasing::<String>(r.deep_view()),
        r.deep_view().to_set() == list.deep_view().to_set().insert(x@),
        r.deep_view() == sorted_elements::<String>(list.deep_view().to_set().insert(x@)),
{
    let mut set: OrderedSet<String> = OrderedSet { elements: list };
    set.insert(x.clone());
    proof {
        lemma_sorted_elements::<String>(set.elements.deep_view());
    }
    set.elements
}

/// The distinct texts of a list, in order.
pub fn distinct_texts(list: &Vec<String>) -> (r: OrderedSet<String>)
    ensures
        r.sorted(),
        r@ == list.deep_view().to_set(),
        r.elements.deep_view() == sorted_elements::<String>(list.deep_view().to_set()),
{
    let ghost all = list.deep_view();
    let mut set: OrderedSet<String> = OrderedSet::new();
    let mut i: usize = 0;
    assert(all.take(0).to_set() =~= Set::empty());
    while i < list.len()
        invariant
            i <= list.len(),
            all == list.deep_view(),
            set.sorted(),
            set@ == all.take(i as int).to_set(),
        decreases list.len() - i,
    {
        set.insert(list[i].clone());
        proof {
            lemma_to_set_step(all, i as int);
        }
        i += 1;
    }
    assert(all.take(all.len() as int) =~= all);
    proof {
        lemma_sorted_elements::<String>(set.elements.deep_view());
    }
    set
}

/// The set of a longer prefix has one element more.
pub proof fn lemma_to_set_step<A>(s: Seq<A>, i: int)
    requires
        0 <= i < s.len(),
    ensures
        s.take(i + 1).to_set() == s.take(i).to_set().insert(s[i]),
{
    let a = s.take(i + 1);
    let b = s.take(i);
    assert forall|x: A| a.to_set().contains(x) == b.to_set().insert(s[i]).contains(x) by {
        if a.contains(x) {
            let k = choose|k: int| 0 <= k < a.len() && a[k] == x;
            if k < i {
                assert(b[k] == x);
            }
        }
        if b.contains(x) {
            let k = choose|k: int| 0 <= k < b.len() && b[k] == x;
            assert(a[k] == x);
        }
        assert(a[i] == s[i]);
    }
    assert(a.to_set() =~= b.to_set().insert(s[i]));
}

proof fn lemma_map_of_remove<K: SortKey, V>(entries: Seq<(K::V, V)>, i: int)
    requires
        0 <= i < entries.len(),
        increasing::<K>(keys_of(entries)),
    ensures
        map_of(entries.remove(i)) == map_of(entries).remove(entries[i].0),
        increasing::<K>(keys_of(entries.remove(i))),
{
    let k = entries[i].0;
    let rest = entries.remove(i);
    let keys = keys_of(entries);
    let left = keys_of(rest);
    assert forall|a: int, b: int| 0 <= a < b < left.len() implies K::before(
        #[trigger] left[a],
        #[trigger] left[b],
    ) by {
        let x = if a < i {
            a
        } else {
            a + 1
        };
        let y = if b < i {
            b
        } else {
            b + 1
        };
        assert(K::before(keys[x], keys[y]));
    }
    assert forall|x: K::V| #[trigger]
        map_of(rest).contains_key(x) == map_of(entries).remove(k).contains_key(x) by {
        if map_of(rest).contains_key(x) {
            let j = lemma_map_of_present(rest, x);
            let m = if j < i {
                j
            } else {
                j + 1
            };
            assert(entries[m].0 == x);
            lemma_some_entry(entries, m);
            assert(keys[m] == x && keys[i] == k);
            if x == k {
                K::irreflexive(x);
                if m < i {
                    assert(K::before(keys[m], keys[i]));
                } else {
                    assert(K::before(keys[i], keys[m]));
                }
            }
        }
        if map_of(entries).contains_key(x) && x != k {
            let j = lemma_map_of_present(entries, x);
            let m = if j < i {
                j
            } else {
                j - 1
            };
            assert(rest[m].0 == x);
            lemma_some_entry(rest, m);
        }
    }
    assert forall|x: K::V| #[trigger] map_of(rest).contains_key(x) implies map_of(rest)[x]
        == map_of(entries).remove(k)[x] by {
        let j = lemma_map_of_present(rest, x);
        let m = if j < i {
            j
        } else {
            j + 1
        };
        assert(map_of(entries).remove(k).contains_key(x));
        assert forall|q: int| 0 <= q < m implies (#[trigger] entries[q]).0 != entries[m].0 by {
            assert(K::before(keys[q], keys[m]));
            K::irreflexive(keys[m]);
        }
        lemma_map_of_first(entries, m);
    }
    assert(map_of(rest) =~= map_of(entries).remove(k));
}

impl<K: SortKey, V: DeepView> OrderedMap<K, V> {
    /// Takes the entry with this key out.
    pub fn remove(&mut self, key: &K) -> (r: Option<V>)
        requires
            old(self).sorted(),
        ensures
            final(self).sorted(),
            final(self)@ == old(self)@.remove(key.deep_view()),
            r.deep_view() == (if old(self)@.contains_key(key.deep_view()) {
                Some(old(self)@[key.deep_view()])
            } else {
                None
            }),
    {
        let ghost before = self.entries.deep_view();
        match self.position(key) {
            Some(i) => {
                proof {
                    lemma_map_of_remove::<K, V::V>(before, i as int);
                }
                let (found, value): (K, V) = self.entries.remove(i);
                assert(self.entries.deep_view() =~= before.remove(i as int));
                Some(value)
            },
            None => {
                assert(self@.remove(key.deep_view()) =~= self@);
                None
            },
        }
    }

    /// The number of entries.
    pub fn len(&self) -> (r: usize)
        ensures
            self.sorted() ==> r == sorted_entries::<K, V::V>(self@).len(),
    {
        proof {
            if self.sorted() {
                lemma_sorted_entries::<K, V::V>(self.entries.deep_view());
            }
        }
        self.entries.len()
    }
}

impl<K: SortKey> OrderedSet<K> {
    /// Takes an element out; tells whether it was there.
    pub fn remove(&mut self, key: &K) -> (r: bool)
        requires
            old(self).sorted(),
        ensures
            final(self).sorted(),
            final(self)@ == old(self)@.remove(key.deep_view()),
            r == old(self)@.contains(key.deep_view()),
    {
        let ghost keys = self.elements.deep_view();
        let ghost k = key.deep_view();
        let mut i: usize = 0;
        while i < self.elements.len()
            invariant
                i <= self.elements.len(),
                keys == self.elements.deep_view(),
                *self == *old(self),
                self.sorted(),
                k == key.deep_view(),
                forall|j: int| 0 <= j < i ==> #[trigger] keys[j] != k,
            decreases self.elements.len() - i,
        {
            assert(keys[i as int] == self.elements@[i as int].deep_view());
            if self.elements[i].is_same(key) {
                self.elements.remove(i);
                proof {
                    let left = self.elements.deep_view();
                    assert(left =~= keys.remove(i as int));
                    assert(keys.contains(k));
                    assert forall|x: K::V| left.to_set().contains(x) == keys.to_set().remove(
                        k,
                    ).contains(x) by {
                        if left.contains(x) {
                            let j = choose|j: int| 0 <= j < left.len() && left[j] == x;
                            let m = if j < i {
                                j
                            } else {
                                j + 1
                            };
                            assert(keys[m] == x);
                            if m < i {
                                assert(K::before(keys[m], keys[i as int]));
                            } else {
                                assert(K::before(keys[i as int], keys[m]));
                            }
                            K::irreflexive(keys[i as int]);
                        }
                        if keys.contains(x) && x != k {
                            let j = choose|j: int| 0 <= j < keys.len() && keys[j] == x;
                            let m = if j < i {
                                j
                            } else {
                                j - 1
                            };
                            assert(left[m] == x);
                        }
                    }
                    assert(self@ =~= old(self)@.remove(k));
                    assert forall|a: int, b: int| 0 <= a < b < left.len() implies K::before(
                        #[trigger] left[a],
                        #[trigger] left[b],
                    ) by {
                        let x = if a < i {
                            a
                        } else {
                            a + 1
                        };
                        let y = if b < i {
                            b
                        } else {
                            b + 1
                        };
                        assert(K::before(keys[x], keys[y]));
                    }
                }
                return true;
            }
            i += 1;
        }
        assert(self@.remove(k) =~= self@);
        false
    }

    /// The number of elements.
    pub fn len(&self) -> (r: usize)
        ensures
            self.sorted() ==> r == sorted_elements::<K>(self@).len(),
    {
        proof {
            if self.sorted() {
                lemma_sorted_elements::<K>(self.elements.deep_view());
            }
        }
        self.elements.len()
    }
}

/// Where the keys are in order, each is bound once, and to its own value.
pub proof fn lemma_increasing_entries<K: SortKey, V>(entries: Seq<(K::V, V)>)
    requires
        increasing::<K>(keys_of(entries)),
    ensures
        forall|i: int, j: int|
            0 <= i < j < entries.len() ==> (#[trigger] entries[i]).0 != (#[trigger] entries[j]).0,
        forall|j: int|
            0 <= j < entries.len() ==> map_of(entries).contains_key((#[trigger] entries[j]).0)
                && map_of(entries)[entries[j].0] == entries[j].1,
        forall|k: K::V| #[trigger]
            map_of(entries).contains_key(k) ==> exists|j: int|
                0 <= j < entries.len() && (#[trigger] entries[j]).0 == k && entries[j].1 == map_of(
                    entries,
                )[k],
{
    let keys = keys_of(entries);
    assert forall|i: int, j: int| 0 <= i < j < entries.len() implies (#[trigger] entries[i]).0 != (
    #[trigger] entries[j]).0 by {
        assert(keys[i] == entries[i].0 && keys[j] == entries[j].0);
        assert(K::before(keys[i], keys[j]));
        K::irreflexive(keys[i]);
    }
    assert forall|j: int| 0 <= j < entries.len() implies map_of(entries).contains_key(
        (#[trigger] entries[j]).0,
    ) && map_of(entries)[entries[j].0] == entries[j].1 by {
        lemma_map_of_first(entries, j);
    }
    assert forall|k: K::V| #[trigger] map_of(entries).contains_key(k) implies exists|j: int|
        0 <= j < entries.len() && (#[trigger] entries[j]).0 == k && entries[j].1 == map_of(
            entries,
        )[k] by {
        let j = lemma_map_of_present(entries, k);
        assert(entries[j].0 == k);
    }
}

impl<K: SortKey, V: DeepView> OrderedMap<K, V> {
    /// Whether the keys are exactly these.
    #[verifier::loop_isolation(false)]
    pub fn has_keys(&self, keys: &OrderedSet<K>) -> (r: bool)
        requires
            self.sorted(),
        ensures
            r == (self@.dom() == keys@),
    {
        let ghost entries = self.entries.deep_view();
        let ghost elements = keys.elements.deep_view();
        proof {
            lemma_increasing_entries::<K, V::V>(entries);
        }
        let mut i: usize = 0;
        while i < keys.elements.len()
            invariant
                i <= keys.elements.len(),
                forall|j: int| 0 <= j < i ==> self@.contains_key(#[trigger] elements[j]),
            decreases keys.elements.len() - i,
        {
            assert(elements[i as int] == keys.elements@[i as int].deep_view());
            if !self.contains_key(&keys.elements[i]) {
                assert(elements.contains(elements[i as int]));
                assert(keys@.contains(elements[i as int]));
                return false;
            }
            i += 1;
        }
        let mut k: usize = 0;
        while k < self.entries.len()
            invariant
                k <= self.entries.len(),
                forall|j: int| 0 <= j < k ==> keys@.contains((#[trigger] entries[j]).0),
            decreases self.entries.len() - k,
        {
            assert(entries[k as int].0 == self.entries@[k as int].0.deep_view());
            if !keys.contains(&self.entries[k].0) {
                assert(self@.dom().contains(entries[k as int].0));
                return false;
            }
            k += 1;
        }
        assert(self@.dom() =~= keys@);
        true
    }
}

/// A finite map sorts to the list of its entries, in the order of their keys.
pub proof fn sorting_keeps_the_entries<K: SortKey, T>(m: Map<K::V, T>)
    requires
        m.dom().finite(),
    ensures
        increasing::<K>(keys_of(sorted_entries::<K, T>(m))),
        map_of(sorted_entries::<K, T>(m)) == m,
{
    m.dom().lemma_to_seq_to_set_id();
    let keys = lemma_order_exists::<K>(m.dom().to_seq());
    let list = Seq::new(keys.len(), |i: int| (keys[i], m[keys[i]]));
    assert(keys_of(list) =~= keys);
    lemma_increasing_entries::<K, T>(list);
    assert forall|k: K::V| map_of(list).contains_key(k) == m.contains_key(k) by {
        if m.contains_key(k) {
            assert(keys.to_set().contains(k));
            let j = choose|j: int| 0 <= j < keys.len() && keys[j] == k;
            assert(list[j].0 == k);
        }
        if map_of(list).contains_key(k) {
            let j = choose|j: int|
                0 <= j < list.len() && (#[trigger] list[j]).0 == k && list[j].1 == map_of(list)[k];
            assert(keys.contains(keys[j]));
            assert(keys.to_set().contains(k));
        }
    }
    assert forall|k: K::V| m.contains_key(k) implies map_of(list)[k] == m[k] by {
        let j = choose|j: int|
            0 <= j < list.len() && (#[trigger] list[j]).0 == k && list[j].1 == map_of(list)[k];
    }
    assert(map_of(list) =~= m);
    assert(increasing::<K>(keys_of(list)) && map_of(list) == m);
}

/// Two elements of an increasing list differ.
pub proof fn lemma_increasing_differ<K: SortKey>(list: Seq<K::V>, i: int, j: int)
    requires
        increasing::<K>(list),
        0 <= i < j < list.len(),
    ensures
        list[i] != list[j],
{
    assert(K::before(list[i], list[j]));
    K::irreflexive(list[i]);
}

} // verus!
