//! Shared container types: host-name strings and name-keyed maps.
use vstd::prelude::*;
use crate::text::str_eq;

verus! {

/// A copy that keeps the abstract view.
pub trait CloneView: View + Sized {
    fn clone_view(&self) -> (res: Self)
        ensures
            res@ == self@;
}

/// A host or group name.
#[derive(Debug)]
pub struct NatString {
    value: String,
}

impl View for NatString {
    type V = Seq<char>;

    closed spec fn view(&self) -> Seq<char> {
        self.value@
    }
}

impl NatString {
    /// The name `value`.
    pub fn new(value: String) -> (res: Self)
        ensures
            res@ == value@,
    {
        NatString { value }
    }

    /// The name `value`, copied.
    pub fn from(value: &str) -> (res: Self)
        ensures
            res@ == value@,
    {
        NatString { value: String::from_str(value) }
    }

    /// The name as a string slice.
    pub fn as_str(&self) -> (res: &str)
        ensures
            res@ == self@,
    {
        self.value.as_str()
    }

    /// The name as an owned string.
    pub fn to_string(&self) -> (res: String)
        ensures
            res@ == self@,
    {
        self.value.clone()
    }
}

impl Clone for NatString {
    fn clone(&self) -> (res: Self)
        ensures
            res@ == self@,
    {
        NatString { value: self.value.clone() }
    }
}

impl CloneView for NatString {
    fn clone_view(&self) -> (res: Self) {
        self.clone()
    }
}

impl PartialEq for NatString {
    fn eq(&self, other: &Self) -> (res: bool) {
        self.value == other.value
    }
}

impl vstd::std_specs::cmp::PartialEqSpecImpl for NatString {
    open spec fn obeys_eq_spec() -> bool {
        true
    }

    open spec fn eq_spec(&self, other: &Self) -> bool {
        self@ == other@
    }
}

impl Eq for NatString {

}

/// The value bound to `key` in a list of `(key, value)` entries: the first match.
pub open spec fn seq_lookup<K, V>(s: Seq<(K, V)>, key: K) -> Option<V>
    decreases s.len(),
{
    if s.len() == 0 {
        None
    } else if s[0].0 == key {
        Some(s[0].1)
    } else {
        seq_lookup(s.drop_first(), key)
    }
}

/// The position of the first entry with `key`.
pub open spec fn seq_index_of<K, V>(s: Seq<(K, V)>, key: K) -> Option<int>
    decreases s.len(),
{
    if s.len() == 0 {
        None
    } else if s[0].0 == key {
        Some(0)
    } else {
        match seq_index_of(s.drop_first(), key) {
            Some(i) => Some(i + 1),
            None => None,
        }
    }
}

/// `s` with `key` bound to `value`: the first entry with that key gets the new
/// value, or a new entry is added at the end.
pub open spec fn seq_insert<K, V>(s: Seq<(K, V)>, key: K, value: V) -> Seq<(K, V)> {
    match seq_index_of(s, key) {
        Some(i) => s.update(i, (key, value)),
        None => s.push((key, value)),
    }
}

/// The first match is at the reported position, and no earlier entry has the key.
pub proof fn lemma_index_of<K, V>(s: Seq<(K, V)>, key: K)
    ensures
        seq_index_of(s, key) matches Some(i) ==> 0 <= i < s.len() && s[i].0 == key && (forall|
            j: int,
        | 0 <= j < i ==> s[j].0 != key) && seq_lookup(s, key) == Some(s[i].1),
        seq_index_of(s, key) is None ==> (forall|j: int| 0 <= j < s.len() ==> s[j].0 != key)
            && seq_lookup(s, key) is None,
    decreases s.len(),
{
    if s.len() > 0 && s[0].0 != key {
        lemma_index_of(s.drop_first(), key);
        if let Some(i) = seq_index_of(s.drop_first(), key) {
            assert forall|j: int| 0 <= j < i + 1 implies s[j].0 != key by {
                if j > 0 {
                    assert(s[j] == s.drop_first()[j - 1]);
                }
            }
        } else {
            assert forall|j: int| 0 <= j < s.len() implies s[j].0 != key by {
                if j > 0 {
                    assert(s[j] == s.drop_first()[j - 1]);
                }
            }
        }
    }
}

/// Lookup after an insert: the inserted key reads the new value, others are unchanged.
pub proof fn lemma_insert_lookup<K, V>(s: Seq<(K, V)>, key: K, value: V, other: K)
    ensures
        seq_lookup(seq_insert(s, key, value), other) == if other == key {
            Some(value)
        } else {
            seq_lookup(s, other)
        },
{
    lemma_index_of(s, key);
    lemma_index_of(s, other);
    let t = seq_insert(s, key, value);
    lemma_index_of(t, other);
    match seq_index_of(s, key) {
        Some(i) => {
            if other == key {
                assert(t[i].0 == key);
                if let Some(k) = seq_index_of(t, other) {
                    if k < i {
                        assert(t[k] == s[k]);
                    } else if k > i {
                        assert(t[i].0 == other);
                    }
                }
            } else {
                match seq_index_of(s, other) {
                    Some(k) => {
                        assert(t[k] == s[k]);
                        if let Some(k2) = seq_index_of(t, other) {
                            if k2 < k {
                                assert(t[k2] == s[k2] || k2 == i);
                            }
                        }
                    },
                    None => {
                        if let Some(k2) = seq_index_of(t, other) {
                            assert(t[k2] == s[k2] || k2 == i);
                        }
                    },
                }
            }
        },
        None => {
            if let Some(k2) = seq_index_of(t, other) {
                if k2 < s.len() {
                    assert(t[k2] == s[k2]);
                } else {
                    assert(t[k2].0 == key);
                }
            }
            if other == key {
                assert(t[s.len() as int].0 == key);
            }
            match seq_index_of(s, other) {
                Some(k) => {
                    assert(t[k] == s[k]);
                },
                None => {},
            }
        },
    }
}

/// No two entries share a key.
pub open spec fn keys_unique<K, V>(s: Seq<(K, V)>) -> bool {
    forall|i: int, j: int| 0 <= i < j < s.len() ==> #[trigger] s[i].0 != #[trigger] s[j].0
}

/// Binding a key never makes a map hold a key twice, and the map grows by one
/// entry exactly when the key was not bound before.
pub proof fn law_insert_keeps_keys_unique<K, V>(s: Seq<(K, V)>, key: K, value: V)
    requires
        keys_unique(s),
    ensures
        keys_unique(seq_insert(s, key, value)),
        seq_insert(s, key, value).len() == if seq_lookup(s, key) is Some {
            s.len()
        } else {
            s.len() + 1
        },
{
    lemma_index_of(s, key);
    let t = seq_insert(s, key, value);
    match seq_index_of(s, key) {
        Some(k) => {
            assert forall|i: int, j: int| 0 <= i < j < t.len() implies #[trigger] t[i].0 != #[trigger] t[j].0 by {
                assert(t[i].0 == s[i].0);
                assert(t[j].0 == s[j].0);
            }
        },
        None => {
            assert forall|i: int, j: int| 0 <= i < j < t.len() implies #[trigger] t[i].0 != #[trigger] t[j].0 by {
                if j == s.len() {
                    assert(t[i] == s[i]);
                } else {
                    assert(t[i] == s[i]);
                    assert(t[j] == s[j]);
                }
            }
        },
    }
}

/// A map from names to values, kept in insertion order.
#[derive(Debug)]
pub struct CustomTreeMap<V> {
    items: Vec<(NatString, V)>,
}

impl<V: View> View for CustomTreeMap<V> {
    type V = Seq<(Seq<char>, V::V)>;

    closed spec fn view(&self) -> Seq<(Seq<char>, V::V)> {
        self.items@.map_values(|e: (NatString, V)| (e.0@, e.1@))
    }
}

impl<V: View> CustomTreeMap<V> {
    /// The raw value bound to the entry at position `i`.
    pub closed spec fn value_at_spec(&self, i: int) -> V {
        self.items@[i].1
    }

    /// An empty map.
    pub fn new() -> (res: Self)
        ensures
            res@ == Seq::<(Seq<char>, V::V)>::empty(),
    {
        let res = CustomTreeMap { items: Vec::new() };
        proof {
            assert(res@ =~= Seq::<(Seq<char>, V::V)>::empty());
        }
        res
    }

    /// The number of entries.
    pub fn len(&self) -> (res: usize)
        ensures
            res == self@.len(),
    {
        self.items.len()
    }

    /// Whether there are no entries.
    pub fn is_empty(&self) -> (res: bool)
        ensures
            res == (self@.len() == 0),
    {
        self.items.len() == 0
    }

    /// The name of the entry at position `i`.
    pub fn key_at(&self, i: usize) -> (res: &NatString)
        requires
            i < self@.len(),
        ensures
            res@ == self@[i as int].0,
    {
        &self.items[i].0
    }

    /// The value of the entry at position `i`.
    pub fn value_at(&self, i: usize) -> (res: &V)
        requires
            i < self@.len(),
        ensures
            res@ == self@[i as int].1,
            *res == self.value_at_spec(i as int),
    {
        &self.items[i].1
    }

    /// The position of the entry named `key`, if any.
    pub fn index_of(&self, key: &str) -> (res: Option<usize>)
        ensures
            match res {
                Some(i) => seq_index_of(self@, key@) == Some(i as int),
                None => seq_index_of(self@, key@) is None,
            },
    {
        let mut i: usize = 0;
        while i < self.items.len()
            invariant
                i <= self@.len(),
                self@.len() == self.items@.len(),
                forall|j: int| 0 <= j < i ==> self@[j].0 != key@,
            decreases self.items.len() - i,
        {
            if str_eq(self.items[i].0.as_str(), key) {
                proof {
                    lemma_first_match(self@, key@, i as int);
                }
                return Some(i);
            }
            i = i + 1;
        }
        proof {
            lemma_no_match(self@, key@);
        }
        None
    }

    /// The value bound to `key`, if any.
    pub fn get(&self, key: &str) -> (res: Option<&V>)
        ensures
            match res {
                Some(v) => seq_lookup(self@, key@) == Some(v@),
                None => seq_lookup(self@, key@) is None,
            },
    {
        proof {
            lemma_index_of(self@, key@);
        }
        match self.index_of(key) {
            Some(i) => Some(&self.items[i].1),
            None => None,
        }
    }

    /// Whether some entry is named `key`.
    pub fn contains_key(&self, key: &str) -> (res: bool)
        ensures
            res == (seq_lookup(self@, key@) is Some),
    {
        proof {
            lemma_index_of(self@, key@);
        }
        self.index_of(key).is_some()
    }

    /// Binds `key` to `value`: replaces the value of an existing entry, or adds
    /// a new entry at the end.
    pub fn insert(&mut self, key: &str, value: V)
        ensures
            final(self)@ == seq_insert(old(self)@, key@, value@),
    {
        let name = NatString::new(String::from_str(key));
        proof {
            lemma_index_of(self@, key@);
        }
        match self.index_of(key) {
            Some(i) => {
                self.items.set(i, (name, value));
            },
            None => {
                self.items.push((name, value));
            },
        }
        proof {
            assert(self@ =~= seq_insert(old(self)@, key@, value@));
        }
    }

    /// The names, in order.
    pub fn keys(&self) -> (res: Vec<NatString>)
        ensures
            res@.len() == self@.len(),
            forall|i: int| 0 <= i < res@.len() ==> #[trigger] res@[i]@ == self@[i].0,
    {
        let mut res: Vec<NatString> = Vec::new();
        let mut i: usize = 0;
        while i < self.items.len()
            invariant
                i <= self@.len(),
                self@.len() == self.items@.len(),
                res@.len() == i,
                forall|j: int| 0 <= j < i ==> #[trigger] res@[j]@ == self@[j].0,
            decreases self.items.len() - i,
        {
            res.push(self.items[i].0.clone());
            i = i + 1;
        }
        res
    }
}

/// Entry `i` is the first one named `key`.
pub proof fn lemma_first_match<K, V>(s: Seq<(K, V)>, key: K, i: int)
    requires
        0 <= i < s.len(),
        s[i].0 == key,
        forall|j: int| 0 <= j < i ==> s[j].0 != key,
    ensures
        seq_index_of(s, key) == Some(i),
    decreases i,
{
    if i > 0 {
        assert forall|j: int| 0 <= j < i - 1 implies s.drop_first()[j].0 != key by {
            assert(s.drop_first()[j] == s[j + 1]);
        }
        lemma_first_match(s.drop_first(), key, i - 1);
    }
}

/// No entry is named `key`.
pub proof fn lemma_no_match<K, V>(s: Seq<(K, V)>, key: K)
    requires
        forall|j: int| 0 <= j < s.len() ==> s[j].0 != key,
    ensures
        seq_index_of(s, key) is None,
    decreases s.len(),
{
    if s.len() > 0 {
        assert forall|j: int| 0 <= j < s.len() - 1 implies s.drop_first()[j].0 != key by {
            assert(s.drop_first()[j] == s[j + 1]);
        }
        lemma_no_match(s.drop_first(), key);
    }
}

impl<V: CloneView> CustomTreeMap<V> {
    /// A copy with the same entries.
    pub fn clone_map(&self) -> (res: Self)
        ensures
            res@ == self@,
    {
        let mut items: Vec<(NatString, V)> = Vec::new();
        let mut i: usize = 0;
        while i < self.items.len()
            invariant
                i <= self.items@.len(),
                items@.len() == i,
                forall|j: int|
                    0 <= j < i ==> (#[trigger] items@[j]).0@ == self.items@[j].0@ && items@[j].1@
                        == self.items@[j].1@,
            decreases self.items.len() - i,
        {
            let k = self.items[i].0.clone();
            let v = self.items[i].1.clone_view();
            items.push((k, v));
            i = i + 1;
        }
        let res = CustomTreeMap { items };
        proof {
            assert(res@ =~= self@);
        }
        res
    }
}

impl<V: CloneView> CloneView for CustomTreeMap<V> {
    fn clone_view(&self) -> (res: Self) {
        self.clone_map()
    }
}

impl CloneView for String {
    fn clone_view(&self) -> (res: Self) {
        self.clone()
    }
}

impl CloneView for u16 {
    fn clone_view(&self) -> (res: Self) {
        *self
    }
}

/// A map keyed by pairs of names (such as host and plugin), kept in insertion order.
#[derive(Debug)]
pub struct PairMap<V> {
    items: Vec<(String, String, V)>,
}

impl<V: View> View for PairMap<V> {
    type V = Seq<((Seq<char>, Seq<char>), V::V)>;

    closed spec fn view(&self) -> Seq<((Seq<char>, Seq<char>), V::V)> {
        self.items@.map_values(|e: (String, String, V)| ((e.0@, e.1@), e.2@))
    }
}

impl<V: View> PairMap<V> {
    /// An empty map.
    pub fn new() -> (res: Self)
        ensures
            res@ == Seq::<((Seq<char>, Seq<char>), V::V)>::empty(),
    {
        let res = PairMap { items: Vec::new() };
        proof {
            assert(res@ =~= Seq::<((Seq<char>, Seq<char>), V::V)>::empty());
        }
        res
    }

    /// The number of entries.
    pub fn len(&self) -> (res: usize)
        ensures
            res == self@.len(),
    {
        self.items.len()
    }

    /// The position of the entry for `(a, b)`, if any.
    pub fn index_of(&self, a: &str, b: &str) -> (res: Option<usize>)
        ensures
            match res {
                Some(i) => seq_index_of(self@, (a@, b@)) == Some(i as int),
                None => seq_index_of(self@, (a@, b@)) is None,
            },
    {
        let mut i: usize = 0;
        while i < self.items.len()
            invariant
                i <= self@.len(),
                self@.len() == self.items@.len(),
                forall|j: int| 0 <= j < i ==> self@[j].0 != (a@, b@),
            decreases self.items.len() - i,
        {
            if str_eq(self.items[i].0.as_str(), a) && str_eq(self.items[i].1.as_str(), b) {
                proof {
                    lemma_first_match(self@, (a@, b@), i as int);
                }
                return Some(i);
            }
            i = i + 1;
        }
        proof {
            lemma_no_match(self@, (a@, b@));
        }
        None
    }

    /// The value bound to `(a, b)`, if any.
    pub fn get(&self, a: &str, b: &str) -> (res: Option<&V>)
        ensures
            match res {
                Some(v) => seq_lookup(self@, (a@, b@)) == Some(v@),
                None => seq_lookup(self@, (a@, b@)) is None,
            },
    {
        proof {
            lemma_index_of(self@, (a@, b@));
        }
        match self.index_of(a, b) {
            Some(i) => Some(&self.items[i].2),
            None => None,
        }
    }

    /// Binds `(a, b)` to `value`, replacing an existing entry's value.
    pub fn insert(&mut self, a: &str, b: &str, value: V)
        ensures
            final(self)@ == seq_insert(old(self)@, (a@, b@), value@),
    {
        let ka = String::from_str(a);
        let kb = String::from_str(b);
        proof {
            lemma_index_of(self@, (a@, b@));
        }
        match self.index_of(a, b) {
            Some(i) => {
                self.items.set(i, (ka, kb, value));
            },
            None => {
                self.items.push((ka, kb, value));
            },
        }
        proof {
            assert(self@ =~= seq_insert(old(self)@, (a@, b@), value@));
        }
    }
}

} // verus!
