//! An ordered map whose keys are texts.
//!
//! The entries stand in a vector, in ascending byte order of their keys, each
//! key once.

use vstd::prelude::*;
use vstd::utf8::{encode_utf8, encode_utf8_decode_utf8};

verus! {

/// The lexicographic order of byte sequences.
pub open spec fn bytes_less(a: Seq<u8>, b: Seq<u8>) -> bool
    decreases a.len(),
{
    if b.len() == 0 {
        false
    } else if a.len() == 0 {
        true
    } else if a[0] != b[0] {
        a[0] < b[0]
    } else {
        bytes_less(a.skip(1), b.skip(1))
    }
}

/// The order of texts: that of their UTF-8 bytes.
pub open spec fn text_less(a: Seq<char>, b: Seq<char>) -> bool {
    bytes_less(encode_utf8(a), encode_utf8(b))
}

proof fn lemma_bytes_less_irreflexive(a: Seq<u8>)
    ensures
        !bytes_less(a, a),
    decreases a.len(),
{
    if a.len() > 0 {
        lemma_bytes_less_irreflexive(a.skip(1));
    }
}

proof fn lemma_bytes_less_transitive(a: Seq<u8>, b: Seq<u8>, c: Seq<u8>)
    requires
        bytes_less(a, b),
        bytes_less(b, c),
    ensures
        bytes_less(a, c),
    decreases a.len(),
{
    if a.len() > 0 && a[0] == b[0] && b[0] == c[0] {
        lemma_bytes_less_transitive(a.skip(1), b.skip(1), c.skip(1));
    }
}

proof fn lemma_bytes_less_total(a: Seq<u8>, b: Seq<u8>)
    requires
        a != b,
    ensures
        bytes_less(a, b) || bytes_less(b, a),
    decreases a.len(),
{
    if a.len() > 0 && b.len() > 0 && a[0] == b[0] {
        if a.skip(1) == b.skip(1) {
            assert(a == seq![a[0]] + a.skip(1));
            assert(b == seq![b[0]] + b.skip(1));
        }
        lemma_bytes_less_total(a.skip(1), b.skip(1));
    } else if a.len() == 0 && b.len() == 0 {
        assert(a == b);
    }
}

/// The order of texts is a strict total order.
pub proof fn law_text_order(a: Seq<char>, b: Seq<char>, c: Seq<char>)
    ensures
        !text_less(a, a),
        text_less(a, b) && text_less(b, c) ==> text_less(a, c),
        text_less(a, b) ==> !text_less(b, a),
        a != b ==> text_less(a, b) || text_less(b, a),
{
    lemma_bytes_less_irreflexive(encode_utf8(a));
    if text_less(a, b) && text_less(b, c) {
        lemma_bytes_less_transitive(encode_utf8(a), encode_utf8(b), encode_utf8(c));
    }
    if text_less(a, b) && text_less(b, a) {
        lemma_bytes_less_transitive(encode_utf8(a), encode_utf8(b), encode_utf8(a));
    }
    if a != b {
        encode_utf8_decode_utf8(a);
        encode_utf8_decode_utf8(b);
        lemma_bytes_less_total(encode_utf8(a), encode_utf8(b));
    }
}

/// How one text stands to another.
#[derive(Clone, Copy, Debug, PartialEq, Eq, Structural)]
pub enum TextOrder {
    /// It comes before the other.
    Before,
    /// It is the other.
    Same,
    /// It comes after the other.
    After,
}

proof fn lemma_bytes_less_common(a: Seq<u8>, b: Seq<u8>, n: int)
    requires
        0 <= n <= a.len(),
        n <= b.len(),
        a.take(n) == b.take(n),
    ensures
        bytes_less(a, b) == bytes_less(a.skip(n), b.skip(n)),
    decreases n,
{
    if n > 0 {
        assert(a[0] == a.take(n)[0]);
        assert(b[0] == b.take(n)[0]);
        assert(a.skip(1).take(n - 1) == a.take(n).skip(1));
        assert(b.skip(1).take(n - 1) == b.take(n).skip(1));
        lemma_bytes_less_common(a.skip(1), b.skip(1), n - 1);
        assert(a.skip(1).skip(n - 1) == a.skip(n));
        assert(b.skip(1).skip(n - 1) == b.skip(n));
    } else {
        assert(a.skip(0) == a);
        assert(b.skip(0) == b);
    }
}

/// Orders two texts.
pub fn order_texts(a: &str, b: &str) -> (r: TextOrder)
    ensures
        match r {
            TextOrder::Before => text_less(a@, b@),
            TextOrder::Same => a@ == b@,
            TextOrder::After => text_less(b@, a@),
        },
{
    let x = a.as_bytes();
    let y = b.as_bytes();
    let n: usize = x.len();
    let m: usize = y.len();
    let mut i: usize = 0;
    while i < n && i < m && x[i] == y[i]
        invariant
            i <= n,
            i <= m,
            n == x@.len(),
            m == y@.len(),
            x@.take(i as int) == y@.take(i as int),
        decreases n - i,
    {
        assert(x@.take(i + 1) == x@.take(i as int).push(x@[i as int]));
        assert(y@.take(i + 1) == y@.take(i as int).push(y@[i as int]));
        i = i + 1;
    }
    proof {
        lemma_bytes_less_common(x@, y@, i as int);
        lemma_bytes_less_common(y@, x@, i as int);
        encode_utf8_decode_utf8(a@);
        encode_utf8_decode_utf8(b@);
        assert(x@.take(n as int) == x@);
        assert(y@.take(m as int) == y@);
    }
    if i == n && i == m {
        TextOrder::Same
    } else if i == n {
        TextOrder::Before
    } else if i == m {
        TextOrder::After
    } else if x[i] < y[i] {
        TextOrder::Before
    } else {
        TextOrder::After
    }
}

/// A list of entries whose keys ascend.
pub open spec fn ascending<V>(list: Seq<(Seq<char>, V)>) -> bool {
    forall|i: int, j: int|
        0 <= i < j < list.len() ==> text_less(#[trigger] list[i].0, #[trigger] list[j].0)
}

/// Where a key stands in a list of entries.
pub open spec fn entry_at<V>(list: Seq<(Seq<char>, V)>, i: int, key: Seq<char>) -> bool {
    0 <= i < list.len() && list[i].0 == key
}

/// The map that a list of entries stands for.
pub open spec fn map_of<V>(list: Seq<(Seq<char>, V)>) -> Map<Seq<char>, V> {
    Map::new(
        |key: Seq<char>| exists|i: int| entry_at(list, i, key),
        |key: Seq<char>| list[choose|i: int| entry_at(list, i, key)].1,
    )
}

/// A list that gives the entries of a map once each, in ascending order of
/// their keys.
pub open spec fn lists<V>(list: Seq<(Seq<char>, V)>, map: Map<Seq<char>, V>) -> bool {
    ascending(list) && map_of(list) == map
}

/// An entry of an ascending list is an entry of the map it stands for.
pub proof fn lemma_entry<V>(list: Seq<(Seq<char>, V)>, i: int)
    requires
        ascending(list),
        0 <= i < list.len(),
    ensures
        map_of(list).contains_key(list[i].0),
        map_of(list)[list[i].0] == list[i].1,
{
    let key = list[i].0;
    assert(entry_at(list, i, key));
    let j = choose|j: int| entry_at(list, j, key);
    law_text_order(key, key, key);
    if i < j {
        assert(text_less(list[i].0, list[j].0));
    } else if j < i {
        assert(text_less(list[j].0, list[i].0));
    }
}

/// Each key that the map of a list holds has an entry in the list.
pub proof fn lemma_key<V>(list: Seq<(Seq<char>, V)>, key: Seq<char>) -> (i: int)
    requires
        map_of(list).contains_key(key),
    ensures
        entry_at(list, i, key),
{
    choose|i: int| entry_at(list, i, key)
}

/// A map has one listing only.
pub proof fn law_listing_is_unique<V>(
    a: Seq<(Seq<char>, V)>,
    b: Seq<(Seq<char>, V)>,
    map: Map<Seq<char>, V>,
)
    requires
        lists(a, map),
        lists(b, map),
    ensures
        a == b,
    decreases a.len(),
{
    if a.len() == 0 {
        if b.len() > 0 {
            lemma_entry(b, 0);
            let i = lemma_key(a, b[0].0);
        }
        assert(a == b);
    } else if b.len() == 0 {
        lemma_entry(a, 0);
        let i = lemma_key(b, a[0].0);
    } else {
        lemma_last_is_greatest(a, b, map);
        lemma_last_is_greatest(b, a, map);
        law_text_order(a.last().0, b.last().0, a.last().0);
        let key = a.last().0;
        lemma_entry(a, a.len() - 1);
        lemma_entry(b, b.len() - 1);
        let rest = map.remove(key);
        lemma_drop_last(a);
        lemma_drop_last(b);
        law_listing_is_unique(a.drop_last(), b.drop_last(), rest);
        assert(a == a.drop_last().push(a.last()));
        assert(b == b.drop_last().push(b.last()));
    }
}

/// The listing of a map is as long as the map has keys.
pub proof fn law_listing_counts_keys<V>(list: Seq<(Seq<char>, V)>, map: Map<Seq<char>, V>)
    requires
        lists(list, map),
    ensures
        map.dom().finite(),
        list.len() == map.dom().len(),
    decreases list.len(),
{
    if list.len() == 0 {
        assert(map.dom() =~= Set::<Seq<char>>::empty());
    } else {
        let key = list.last().0;
        lemma_entry(list, list.len() - 1);
        lemma_drop_last(list);
        law_listing_counts_keys(list.drop_last(), map.remove(key));
        assert(map.dom() =~= map.remove(key).dom().insert(key));
    }
}

proof fn lemma_last_is_greatest<V>(
    a: Seq<(Seq<char>, V)>,
    b: Seq<(Seq<char>, V)>,
    map: Map<Seq<char>, V>,
)
    requires
        lists(a, map),
        lists(b, map),
        a.len() > 0,
        b.len() > 0,
    ensures
        a.last().0 == b.last().0 || text_less(a.last().0, b.last().0),
{
    lemma_entry(a, a.len() - 1);
    let i = lemma_key(b, a.last().0);
    if i < b.len() - 1 {
        assert(text_less(b[i].0, b[b.len() - 1].0));
    }
}

proof fn lemma_drop_last<V>(list: Seq<(Seq<char>, V)>)
    requires
        ascending(list),
        list.len() > 0,
    ensures
        lists(list.drop_last(), map_of(list).remove(list.last().0)),
{
    let n = list.len() - 1;
    assert(list.drop_last() == list.remove(n));
    lemma_remove(list, n);
}

proof fn lemma_insert<V>(list: Seq<(Seq<char>, V)>, p: int, key: Seq<char>, value: V)
    requires
        ascending(list),
        0 <= p <= list.len(),
        forall|i: int| 0 <= i < p ==> text_less(#[trigger] list[i].0, key),
        forall|i: int| p <= i < list.len() ==> text_less(key, #[trigger] list[i].0),
    ensures
        lists(list.insert(p, (key, value)), map_of(list).insert(key, value)),
{
    let next = list.insert(p, (key, value));
    assert forall|i: int, j: int| 0 <= i < j < next.len() implies text_less(
        #[trigger] next[i].0,
        #[trigger] next[j].0,
    ) by {
        let a = if i < p { i } else { i - 1 };
        let b = if j < p { j } else { j - 1 };
        if i != p && j != p {
            assert(text_less(list[a].0, list[b].0));
        }
    }
    assert forall|k: Seq<char>|
        map_of(next).contains_key(k) == map_of(list).insert(key, value).contains_key(k) by {
        if map_of(next).contains_key(k) {
            let i = lemma_key(next, k);
            if i < p {
                lemma_entry(list, i);
            } else if i > p {
                lemma_entry(list, i - 1);
            }
        }
        if map_of(list).contains_key(k) {
            let i = lemma_key(list, k);
            if i < p {
                assert(next[i] == list[i]);
                lemma_entry(next, i);
            } else {
                assert(next[i + 1] == list[i]);
                lemma_entry(next, i + 1);
            }
        }
        if k == key {
            lemma_entry(next, p);
        }
    }
    assert forall|k: Seq<char>| map_of(next).contains_key(k) implies map_of(next)[k] == map_of(
        list,
    ).insert(key, value)[k] by {
        let i = lemma_key(next, k);
        lemma_entry(next, i);
        law_text_order(key, key, key);
        if i < p {
            assert(next[i] == list[i]);
            lemma_entry(list, i);
        } else if i > p {
            assert(next[i] == list[i - 1]);
            lemma_entry(list, i - 1);
        }
    }
    assert(map_of(next) =~= map_of(list).insert(key, value));
}

proof fn lemma_replace<V>(list: Seq<(Seq<char>, V)>, p: int, value: V)
    requires
        ascending(list),
        0 <= p < list.len(),
    ensures
        lists(
            list.update(p, (list[p].0, value)),
            map_of(list).insert(list[p].0, value),
        ),
{
    let key = list[p].0;
    let rest = list.remove(p);
    lemma_remove(list, p);
    assert forall|i: int| 0 <= i < p implies text_less(#[trigger] rest[i].0, key) by {
        assert(rest[i] == list[i]);
    }
    assert forall|i: int| p <= i < rest.len() implies text_less(key, #[trigger] rest[i].0) by {
        assert(rest[i] == list[i + 1]);
    }
    lemma_insert(rest, p, key, value);
    assert(rest.insert(p, (key, value)) == list.update(p, (key, value)));
    assert(map_of(list).remove(key).insert(key, value) =~= map_of(list).insert(key, value));
}

proof fn lemma_remove<V>(list: Seq<(Seq<char>, V)>, p: int)
    requires
        ascending(list),
        0 <= p < list.len(),
    ensures
        lists(list.remove(p), map_of(list).remove(list[p].0)),
{
    let key = list[p].0;
    let next = list.remove(p);
    assert forall|i: int, j: int| 0 <= i < j < next.len() implies text_less(
        #[trigger] next[i].0,
        #[trigger] next[j].0,
    ) by {
        let a = if i < p { i } else { i + 1 };
        let b = if j < p { j } else { j + 1 };
        assert(text_less(list[a].0, list[b].0));
    }
    assert forall|k: Seq<char>|
        map_of(next).contains_key(k) == map_of(list).remove(key).contains_key(k) by {
        if map_of(next).contains_key(k) {
            let i = lemma_key(next, k);
            let a = if i < p { i } else { i + 1 };
            assert(next[i] == list[a]);
            lemma_entry(list, a);
            law_text_order(k, key, k);
            if a < p {
                assert(text_less(list[a].0, list[p].0));
            } else {
                assert(text_less(list[p].0, list[a].0));
            }
        }
        if map_of(list).remove(key).contains_key(k) {
            let i = lemma_key(list, k);
            if i < p {
                assert(next[i] == list[i]);
                lemma_entry(next, i);
            } else {
                assert(next[i - 1] == list[i]);
                lemma_entry(next, i - 1);
            }
        }
    }
    assert forall|k: Seq<char>| map_of(next).contains_key(k) implies map_of(next)[k] == map_of(
        list,
    ).remove(key)[k] by {
        let i = lemma_key(next, k);
        let a = if i < p { i } else { i + 1 };
        lemma_entry(next, i);
        lemma_entry(list, a);
    }
    assert(map_of(next) =~= map_of(list).remove(key));
}

/// An ordered map from texts to values.
#[derive(Debug, PartialEq)]
pub struct TextMap<V> {
    entries: Vec<(String, V)>,
}

impl<V> TextMap<V> {
    /// The entries in ascending order of their keys.
    pub closed spec fn listing(self) -> Seq<(Seq<char>, V)> {
        self.entries@.map_values(|e: (String, V)| (e.0@, e.1))
    }

    #[verifier::type_invariant]
    closed spec fn keys_ascend(self) -> bool {
        ascending(self.listing())
    }

    /// An empty map.
    pub fn new() -> (r: Self)
        ensures
            r@ == Map::<Seq<char>, V>::empty(),
            r.listing().len() == 0,
    {
        let r = TextMap { entries: Vec::new() };
        assert(r@ =~= Map::<Seq<char>, V>::empty());
        r
    }

    /// How many entries the map holds.
    pub fn len(&self) -> (n: usize)
        ensures
            n == self.listing().len(),
            n == self@.dom().len(),
            lists(self.listing(), self@),
    {
        proof {
            use_type_invariant(self);
            law_listing_counts_keys(self.listing(), self@);
        }
        self.entries.len()
    }

    /// The key of the entry at a place in the order.
    pub fn key_at(&self, i: usize) -> (key: &String)
        requires
            i < self.listing().len(),
        ensures
            key@ == self.listing()[i as int].0,
    {
        &self.entries[i].0
    }

    /// The value of the entry at a place in the order.
    pub fn value_at(&self, i: usize) -> (value: &V)
        requires
            i < self.listing().len(),
        ensures
            *value == self.listing()[i as int].1,
    {
        &self.entries[i].1
    }

    /// Finds where a key stands, or where it would stand.
    fn position(&self, key: &str) -> (r: (bool, usize))
        ensures
            r.1 <= self.listing().len(),
            r.0 ==> r.1 < self.listing().len() && self.listing()[r.1 as int].0 == key@,
            forall|i: int| 0 <= i < r.1 ==> text_less(#[trigger] self.listing()[i].0, key@),
            !r.0 ==> forall|i: int|
                r.1 <= i < self.listing().len() ==> text_less(key@, #[trigger] self.listing()[i].0),
    {
        proof {
            use_type_invariant(self);
        }
        let ghost list = self.listing();
        let mut low: usize = 0;
        let mut high: usize = self.entries.len();
        while low < high
            invariant
                low <= high <= list.len(),
                list == self.listing(),
                ascending(list),
                forall|i: int| 0 <= i < low ==> text_less(#[trigger] list[i].0, key@),
                forall|i: int| high <= i < list.len() ==> text_less(key@, #[trigger] list[i].0),
            decreases high - low,
        {
            let mid: usize = low + (high - low) / 2;
            assert(list[mid as int].0 == self.entries@[mid as int].0@);
            match order_texts(self.entries[mid].0.as_str(), key) {
                TextOrder::Before => {
                    assert forall|i: int| 0 <= i < mid + 1 implies text_less(
                        #[trigger] list[i].0,
                        key@,
                    ) by {
                        if i < mid {
                            law_text_order(list[i].0, list[mid as int].0, key@);
                        }
                    }
                    low = mid + 1;
                },
                TextOrder::Same => {
                    return (true, mid);
                },
                TextOrder::After => {
                    assert forall|i: int| mid <= i < list.len() implies text_less(
                        key@,
                        #[trigger] list[i].0,
                    ) by {
                        if mid < i {
                            law_text_order(key@, list[mid as int].0, list[i].0);
                        }
                    }
                    high = mid;
                },
            }
        }
        (false, low)
    }

    proof fn lemma_position(self, key: Seq<char>, found: bool, p: int)
        requires
            ascending(self.listing()),
            0 <= p <= self.listing().len(),
            found ==> p < self.listing().len() && self.listing()[p].0 == key,
            forall|i: int| 0 <= i < p ==> text_less(#[trigger] self.listing()[i].0, key),
            !found ==> forall|i: int|
                p <= i < self.listing().len() ==> text_less(key, #[trigger] self.listing()[i].0),
        ensures
            found == self@.contains_key(key),
            found ==> self@[key] == self.listing()[p].1,
    {
        let list = self.listing();
        if found {
            lemma_entry(list, p);
        } else if self@.contains_key(key) {
            let i = lemma_key(list, key);
            law_text_order(key, key, key);
            if i < p {
                assert(text_less(list[i].0, key));
            } else {
                assert(text_less(key, list[i].0));
            }
        }
    }

    /// The value that stands under a key.
    pub fn get(&self, key: &str) -> (r: Option<&V>)
        ensures
            match r {
                Some(value) => self@.contains_key(key@) && *value == self@[key@],
                None => !self@.contains_key(key@),
            },
    {
        let (found, p) = self.position(key);
        proof {
            use_type_invariant(self);
            self.lemma_position(key@, found, p as int);
        }
        if found {
            Some(&self.entries[p].1)
        } else {
            None
        }
    }

    /// Reports whether the map holds a key.
    pub fn contains_key(&self, key: &str) -> (r: bool)
        ensures
            r == self@.contains_key(key@),
    {
        self.get(key).is_some()
    }

    /// Puts a value under a key, in place of the one that stood there.
    pub fn insert(&mut self, key: String, value: V)
        ensures
            final(self)@ == old(self)@.insert(key@, value),
    {
        let (found, p) = self.position(key.as_str());
        proof {
            use_type_invariant(&*self);
        }
        let ghost list = self.listing();
        let ghost name = key@;
        let mut entries: Vec<(String, V)> = Vec::new();
        std::mem::swap(&mut entries, &mut self.entries);
        if found {
            entries.remove(p);
            entries.insert(p, (key, value));
            proof {
                lemma_replace(list, p as int, value);
                assert(entries@.map_values(|e: (String, V)| (e.0@, e.1)) == list.update(
                    p as int,
                    (name, value),
                ));
            }
        } else {
            entries.insert(p, (key, value));
            proof {
                lemma_insert(list, p as int, name, value);
                assert(entries@.map_values(|e: (String, V)| (e.0@, e.1)) == list.insert(
                    p as int,
                    (name, value),
                ));
            }
        }
        self.entries = entries;
    }

    /// Takes a key and its value out of the map.
    pub fn remove(&mut self, key: &str) -> (r: Option<V>)
        ensures
            final(self)@ == old(self)@.remove(key@),
            match r {
                Some(value) => old(self)@.contains_key(key@) && value == old(self)@[key@],
                None => !old(self)@.contains_key(key@),
            },
    {
        let (found, p) = self.position(key);
        proof {
            use_type_invariant(&*self);
            self.lemma_position(key@, found, p as int);
        }
        if !found {
            assert(self@.remove(key@) =~= self@);
            return None;
        }
        let ghost list = self.listing();
        let mut entries: Vec<(String, V)> = Vec::new();
        std::mem::swap(&mut entries, &mut self.entries);
        let entry = entries.remove(p);
        proof {
            lemma_remove(list, p as int);
            assert(entries@.map_values(|e: (String, V)| (e.0@, e.1)) == list.remove(p as int));
        }
        self.entries = entries;
        Some(entry.1)
    }
}

impl<V: Clone> Clone for TextMap<V> {
    fn clone(&self) -> (r: Self)
        ensures
            ascending(self.listing()),
            ascending(r.listing()),
            r.listing().len() == self.listing().len(),
            forall|i: int|
                0 <= i < r.listing().len() ==> {
                    &&& (#[trigger] r.listing()[i]).0 == self.listing()[i].0
                    &&& cloned::<V>(self.listing()[i].1, r.listing()[i].1)
                },
    {
        proof {
            use_type_invariant(self);
        }
        let n: usize = self.entries.len();
        let mut entries: Vec<(String, V)> = Vec::new();
        for i in 0..n
            invariant
                n == self.entries@.len(),
                entries@.len() == i,
                forall|k: int|
                    0 <= k < i ==> {
                        &&& (#[trigger] entries@[k]).0@ == self.entries@[k].0@
                        &&& cloned::<V>(self.entries@[k].1, entries@[k].1)
                    },
        {
            entries.push((self.entries[i].0.clone(), self.entries[i].1.clone()));
        }
        let ghost list = entries@.map_values(|e: (String, V)| (e.0@, e.1));
        assert forall|i: int, j: int| 0 <= i < j < list.len() implies text_less(
            #[trigger] list[i].0,
            #[trigger] list[j].0,
        ) by {
            assert(list[i].0 == self.listing()[i].0);
            assert(list[j].0 == self.listing()[j].0);
        }
        TextMap { entries }
    }
}

impl<V> View for TextMap<V> {
    type V = Map<Seq<char>, V>;

    open spec fn view(&self) -> Map<Seq<char>, V> {
        map_of(self.listing())
    }
}

proof fn lemma_bytes_order_after_common(p: Seq<u8>, a: Seq<u8>, b: Seq<u8>)
    ensures
        bytes_less(p + a, p + b) == bytes_less(a, b),
    decreases p.len(),
{
    if p.len() == 0 {
        assert(p + a =~= a);
        assert(p + b =~= b);
    } else {
        lemma_bytes_order_after_common(p.skip(1), a, b);
        assert((p + a).skip(1) =~= p.skip(1) + a);
        assert((p + b).skip(1) =~= p.skip(1) + b);
        assert((p + a)[0] == p[0]);
        assert((p + b)[0] == p[0]);
    }
}

/// Bytes are ordered by the first that differ, and what is the start of another
/// comes before it.
pub proof fn law_bytes_are_ordered_by_the_first_that_differ(
    common: Seq<u8>,
    a: u8,
    x: Seq<u8>,
    b: u8,
    y: Seq<u8>,
)
    ensures
        a != b ==> (bytes_less(common + (seq![a] + x), common + (seq![b] + y)) <==> a < b),
        bytes_less(common, common + (seq![a] + x)),
        !bytes_less(common + (seq![a] + x), common),
{
    let none = Seq::<u8>::empty();
    lemma_bytes_order_after_common(common, seq![a] + x, seq![b] + y);
    lemma_bytes_order_after_common(common, none, seq![a] + x);
    lemma_bytes_order_after_common(common, seq![a] + x, none);
    assert(common + none =~= common);
    assert((seq![a] + x)[0] == a);
    assert((seq![b] + y)[0] == b);
}

} // verus!
