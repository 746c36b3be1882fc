//! The dynamic tree: an untyped hierarchical value made of objects, arrays
//! and scalars, together with its mathematical model.

use vstd::prelude::*;
use vstd::std_specs::cmp::PartialEqSpecImpl;

verus! {

/// A number of the dynamic tree. A value with a fraction or an exponent is
/// held by the bit pattern of its double-precision form.
#[derive(Clone, Copy, PartialEq, Eq, Structural, Debug)]
pub enum Number {
    PosInt(u64),
    NegInt(i64),
    Float(u64),
}

impl Number {
    /// The number that three readings of one number stand for: the unsigned
    /// reading where there is one, else the signed one, else the bits of the
    /// floating reading.
    pub open spec fn chosen(unsigned: Option<u64>, signed: Option<i64>, bits: Option<u64>) -> Number {
        match unsigned {
            Some(n) => Number::PosInt(n),
            None => match signed {
                Some(n) => Number::NegInt(n),
                None => match bits {
                    Some(b) => Number::Float(b),
                    None => Number::Float(0),
                },
            },
        }
    }

    /// Picks the form in which a number is held from its three readings.
    pub fn of(unsigned: Option<u64>, signed: Option<i64>, bits: Option<u64>) -> (n: Number)
        ensures
            n == Number::chosen(unsigned, signed, bits),
    {
        match unsigned {
            Some(n) => Number::PosInt(n),
            None => match signed {
                Some(n) => Number::NegInt(n),
                None => match bits {
                    Some(b) => Number::Float(b),
                    None => Number::Float(0),
                },
            },
        }
    }
}

/// The mathematical model of a tree. An object is a finite map from keys to
/// trees: the order of its members carries no meaning.
pub enum TreeView {
    Null,
    Bool(bool),
    Number(Number),
    Text(Seq<char>),
    Array(Seq<TreeView>),
    Object(Map<Seq<char>, TreeView>),
}

/// One member of an object.
#[derive(Debug)]
struct Entry {
    key: String,
    value: Tree,
}

/// The members of an object node. No key occurs twice.
#[derive(Debug)]
pub struct Object {
    entries: Vec<Entry>,
}

/// An untyped hierarchical value.
#[derive(Debug)]
pub enum Tree {
    Null,
    Bool(bool),
    Number(Number),
    Text(String),
    Array(Vec<Tree>),
    Object(Object),
}

/// The keys of a sequence of members, in order.
spec fn entry_keys(entries: Seq<Entry>) -> Seq<Seq<char>> {
    Seq::new(entries.len(), |i: int| entries[i].key@)
}

/// The models of the items of an array, in order.
pub open spec fn array_view(items: Seq<Tree>) -> Seq<TreeView>
    decreases items,
{
    Seq::new(
        items.len(),
        |i: int|
            if 0 <= i < items.len() {
                items[i].view()
            } else {
                TreeView::Null
            },
    )
}

impl View for Tree {
    type V = TreeView;

    open spec fn view(&self) -> TreeView
        decreases self,
    {
        match self {
            Tree::Null => TreeView::Null,
            Tree::Bool(b) => TreeView::Bool(*b),
            Tree::Number(n) => TreeView::Number(*n),
            Tree::Text(s) => TreeView::Text(s@),
            Tree::Array(items) => TreeView::Array(array_view(items@)),
            Tree::Object(o) => TreeView::Object(o.view()),
        }
    }
}

impl View for Object {
    type V = Map<Seq<char>, TreeView>;

    closed spec fn view(&self) -> Map<Seq<char>, TreeView>
        decreases self,
    {
        Map::new(
            |k: Seq<char>| entry_keys(self.entries@).contains(k),
            |k: Seq<char>|
                {
                    let i = entry_keys(self.entries@).index_of(k);
                    if 0 <= i < self.entries@.len() {
                        self.entries@[i].value.view()
                    } else {
                        TreeView::Null
                    }
                },
        )
    }
}

/// Where no key occurs twice, looking a member's key up finds that member.
proof fn lemma_index_of_key(entries: Seq<Entry>, i: int)
    requires
        entry_keys(entries).no_duplicates(),
        0 <= i < entries.len(),
    ensures
        entry_keys(entries).index_of(entries[i].key@) == i,
{
    assert(entry_keys(entries)[i] == entries[i].key@);
}

impl Object {
    #[verifier::type_invariant]
    spec fn distinct_keys(self) -> bool {
        entry_keys(self.entries@).no_duplicates()
    }

    /// The keys in the order in which the members are held.
    pub closed spec fn keys(&self) -> Seq<Seq<char>> {
        entry_keys(self.entries@)
    }

    /// The keys of the model are exactly the keys that are held.
    pub proof fn lemma_keys_are_domain(&self)
        ensures
            self@.dom() =~= self.keys().to_set(),
            self@.dom().finite(),
            forall|k: Seq<char>| self@.dom().contains(k) <==> self.keys().contains(k),
    {
        vstd::seq_lib::seq_to_set_is_finite(self.keys());
    }

    /// An object without members.
    pub fn new() -> (o: Object)
        ensures
            o@ == Map::<Seq<char>, TreeView>::empty(),
            o.keys() == Seq::<Seq<char>>::empty(),
    {
        Object { entries: Vec::new() }
    }

    /// The number of members.
    pub fn len(&self) -> (n: usize)
        ensures
            n == self.keys().len(),
            self.keys().no_duplicates(),
    {
        proof {
            use_type_invariant(self);
        }
        self.entries.len()
    }

    /// The key of the member at position `i`.
    pub fn key_at(&self, i: usize) -> (k: &String)
        requires
            i < self.keys().len(),
        ensures
            k@ == self.keys()[i as int],
            self@.dom().contains(k@),
    {
        &self.entries[i].key
    }

    /// The value of the member at position `i`.
    pub fn value_at(&self, i: usize) -> (v: &Tree)
        requires
            i < self.keys().len(),
        ensures
            self@.dom().contains(self.keys()[i as int]),
            v@ == self@[self.keys()[i as int]],
    {
        proof {
            use_type_invariant(self);
            lemma_index_of_key(self.entries@, i as int);
        }
        &self.entries[i].value
    }

    /// Where the key is held, if it is.
    fn position(&self, key: &String) -> (r: Option<usize>)
        ensures
            match r {
                Some(i) => i < self.keys().len() && self.keys()[i as int] == key@,
                None => !self.keys().contains(key@),
            },
    {
        let mut i: usize = 0;
        while i < self.entries.len()
            invariant
                i <= self.entries@.len(),
                forall|j: int| 0 <= j < i ==> self.keys()[j] != key@,
            decreases self.entries@.len() - i,
        {
            if self.entries[i].key == *key {
                return Some(i);
            }
            i += 1;
        }
        None
    }

    /// The value held under `key`, if there is one.
    pub fn get(&self, key: &str) -> (r: Option<&Tree>)
        ensures
            match r {
                Some(v) => self@.dom().contains(key@) && v@ == self@[key@],
                None => !self@.dom().contains(key@),
            },
    {
        let owned = key.to_owned();
        match self.position(&owned) {
            Some(i) => Some(self.value_at(i)),
            None => None,
        }
    }

    /// Puts `value` under `key`. A value already held under that key is
    /// replaced and keeps its position; a new key goes to the end.
    pub fn insert(&mut self, key: String, value: Tree)
        ensures
            final(self)@ == old(self)@.insert(key@, value@),
            final(self).keys() == if old(self).keys().contains(key@) {
                old(self).keys()
            } else {
                old(self).keys().push(key@)
            },
    {
        proof {
            use_type_invariant(&*self);
        }
        let ghost before = self.entries@;
        let ghost before_view = self@;
        let found = self.position(&key);
        let mut taken = Object { entries: Vec::new() };
        std::mem::swap(self, &mut taken);
        let mut entries = taken.entries;
        let ghost n = before.len() as int;
        match found {
            Some(i) => {
                entries.set(i, Entry { key, value });
                proof {
                    assert(entry_keys(entries@) =~= entry_keys(before));
                }
            },
            None => {
                entries.push(Entry { key, value });
                proof {
                    let after = entries@;
                    assert(entry_keys(after) =~= entry_keys(before).push(key@));
                    assert forall|a: int, b: int|
                        0 <= a < after.len() && 0 <= b < after.len() && a != b implies entry_keys(
                        after,
                    )[a] != entry_keys(after)[b] by {
                        if a < n {
                            assert(entry_keys(before)[a] == entry_keys(after)[a]);
                            assert(entry_keys(before).contains(entry_keys(before)[a]));
                        }
                        if b < n {
                            assert(entry_keys(before)[b] == entry_keys(after)[b]);
                            assert(entry_keys(before).contains(entry_keys(before)[b]));
                        }
                    }
                }
            },
        }
        *self = Object { entries };
        proof {
            let after = self.entries@;
            let at: int = match found {
                Some(i) => i as int,
                None => n,
            };
            assert(entry_keys(after)[at] == key@);
            lemma_index_of_key(after, at);
            assert forall|k: Seq<char>| entry_keys(after).contains(k) <==> (k == key@
                || entry_keys(before).contains(k)) by {
                if entry_keys(before).contains(k) {
                    let j = entry_keys(before).index_of(k);
                    assert(entry_keys(after)[j] == k);
                }
                if entry_keys(after).contains(k) && k != key@ {
                    let j = entry_keys(after).index_of(k);
                    assert(j != at);
                    assert(entry_keys(before)[j] == k);
                }
            }
            assert forall|k: Seq<char>| entry_keys(after).contains(k) implies #[trigger] self@[k]
                == before_view.insert(key@, value@)[k] by {
                let j = entry_keys(after).index_of(k);
                if k != key@ {
                    assert(j != at);
                    assert(entry_keys(before)[j] == k);
                    lemma_index_of_key(before, j);
                    lemma_index_of_key(after, j);
                }
            }
            assert(self@ =~= before_view.insert(key@, value@));
        }
    }
}

/// Two sequences of members with the same keys and, place by place, values
/// with the same model stand for the same map.
proof fn lemma_same_entries(a: Object, b: Object)
    requires
        entry_keys(a.entries@) == entry_keys(b.entries@),
        forall|i: int| 0 <= i < a.entries@.len() ==> a.entries@[i].value@ == b.entries@[i].value@,
    ensures
        a@ == b@,
{
    assert(a@ =~= b@);
}

impl Clone for Object {
    fn clone(&self) -> (r: Object)
        ensures
            r@ == self@,
            r.keys() == self.keys(),
        decreases self@,
    {
        proof {
            use_type_invariant(self);
            self.lemma_keys_are_domain();
        }
        let mut entries: Vec<Entry> = Vec::new();
        let mut i: usize = 0;
        while i < self.entries.len()
            invariant
                i <= self.entries@.len(),
                entries@.len() == i,
                self@.dom().finite(),
                entry_keys(self.entries@).no_duplicates(),
                forall|j: int| 0 <= j < i ==> entries@[j].key@ == self.entries@[j].key@,
                forall|j: int| 0 <= j < i ==> entries@[j].value@ == self.entries@[j].value@,
            decreases self.entries@.len() - i,
        {
            proof {
                lemma_index_of_key(self.entries@, i as int);
                assert(entry_keys(self.entries@)[i as int] == self.entries@[i as int].key@);
                assert(entry_keys(self.entries@).contains(self.entries@[i as int].key@));
                assert(self@.dom().contains(self.entries@[i as int].key@));
                assert(self@[self.entries@[i as int].key@] == self.entries@[i as int].value@);
                assert(decreases_to!(self@ => self@[self.entries@[i as int].key@]));
            }
            let key = self.entries[i].key.clone();
            let value = self.entries[i].value.clone();
            entries.push(Entry { key, value });
            i += 1;
        }
        proof {
            assert(entry_keys(entries@) =~= entry_keys(self.entries@));
        }
        let r = Object { entries };
        proof {
            lemma_same_entries(r, *self);
        }
        r
    }
}

impl Clone for Tree {
    /// A deep copy: the copy stands for the same model.
    fn clone(&self) -> (r: Tree)
        ensures
            r@ == self@,
        decreases self@,
    {
        match self {
            Tree::Null => Tree::Null,
            Tree::Bool(b) => Tree::Bool(*b),
            Tree::Number(n) => Tree::Number(*n),
            Tree::Text(s) => Tree::Text(s.clone()),
            Tree::Array(items) => {
                let mut copy: Vec<Tree> = Vec::new();
                let mut i: usize = 0;
                assert(self@ == TreeView::Array(array_view(items@)));
                while i < items.len()
                    invariant
                        i <= items@.len(),
                        copy@.len() == i,
                        self@ is Array,
                        self@->Array_0.len() == items@.len(),
                        forall|j: int| 0 <= j < items@.len() ==> self@->Array_0[j] == items@[j]@,
                        forall|j: int| 0 <= j < i ==> copy@[j]@ == items@[j]@,
                    decreases items@.len() - i,
                {
                    assert(decreases_to!(self@->Array_0 => self@->Array_0[i as int]));
                    let item = items[i].clone();
                    copy.push(item);
                    i += 1;
                }
                let r = Tree::Array(copy);
                assert(r@->Array_0 =~= self@->Array_0);
                r
            },
            Tree::Object(o) => {
                assert(decreases_to!(self@ => self@->Object_0));
                Tree::Object(o.clone())
            },
        }
    }
}

impl Object {
    /// Whether two objects hold the same members, in whatever order.
    fn same(&self, other: &Object) -> (r: bool)
        ensures
            r == (self@ == other@),
        decreases self@,
    {
        proof {
            use_type_invariant(self);
            use_type_invariant(other);
            self.lemma_keys_are_domain();
            other.lemma_keys_are_domain();
            self.keys().unique_seq_to_set();
            other.keys().unique_seq_to_set();
        }
        if self.entries.len() != other.entries.len() {
            return false;
        }
        let mut i: usize = 0;
        while i < self.entries.len()
            invariant
                i <= self.entries@.len(),
                self@.dom().finite(),
                entry_keys(self.entries@).no_duplicates(),
                entry_keys(other.entries@).no_duplicates(),
                forall|j: int|
                    0 <= j < i ==> other@.dom().contains(#[trigger] self.keys()[j]) && other@[self.keys()[j]]
                        == self@[self.keys()[j]],
            decreases self.entries@.len() - i,
        {
            let ghost k = self.entries@[i as int].key@;
            proof {
                lemma_index_of_key(self.entries@, i as int);
                assert(self.keys()[i as int] == k);
                assert(self.keys().contains(k));
                assert(self@.dom().contains(k));
                assert(self@[k] == self.entries@[i as int].value@);
                assert(decreases_to!(self@ => self@[k]));
            }
            match other.position(&self.entries[i].key) {
                None => {
                    return false;
                },
                Some(at) => {
                    proof {
                        lemma_index_of_key(other.entries@, at as int);
                        assert(other.keys()[at as int] == other.entries@[at as int].key@);
                        assert(other.keys().contains(k));
                        assert(other@[k] == other.entries@[at as int].value@);
                    }
                    if !self.entries[i].value.same(&other.entries[at].value) {
                        return false;
                    }
                },
            }
            i += 1;
        }
        proof {
            assert forall|k: Seq<char>| self@.dom().contains(k) implies other@.dom().contains(
                k,
            ) && other@[k] == self@[k] by {
                let j = self.keys().index_of(k);
                assert(self.keys()[j] == k);
            }
            assert(self@.dom().subset_of(other@.dom()));
            vstd::set_lib::lemma_subset_equality(self@.dom(), other@.dom());
            assert(self@ =~= other@);
        }
        true
    }
}

impl Tree {
    /// Whether two trees stand for the same model: the same shape, the same
    /// scalars, and in each object the same members whatever their order.
    pub fn same(&self, other: &Tree) -> (r: bool)
        ensures
            r == (self@ == other@),
        decreases self@,
    {
        match self {
            Tree::Null => match other {
                Tree::Null => true,
                _ => false,
            },
            Tree::Bool(a) => match other {
                Tree::Bool(b) => *a == *b,
                _ => false,
            },
            Tree::Number(a) => match other {
                Tree::Number(b) => *a == *b,
                _ => false,
            },
            Tree::Text(a) => match other {
                Tree::Text(b) => *a == *b,
                _ => false,
            },
            Tree::Array(a) => match other {
                Tree::Array(b) => {
                    assert(self@ == TreeView::Array(array_view(a@)));
                    assert(other@ == TreeView::Array(array_view(b@)));
                    assert(array_view(a@).len() == a@.len());
                    assert(array_view(b@).len() == b@.len());
                    if a.len() != b.len() {
                        return false;
                    }
                    let mut i: usize = 0;
                    while i < a.len()
                        invariant
                            i <= a@.len(),
                            a@.len() == b@.len(),
                            self@ == TreeView::Array(array_view(a@)),
                            other@ == TreeView::Array(array_view(b@)),
                            forall|j: int| 0 <= j < i ==> a@[j]@ == b@[j]@,
                        decreases a@.len() - i,
                    {
                        assert(array_view(a@)[i as int] == a@[i as int]@);
                        assert(array_view(b@)[i as int] == b@[i as int]@);
                        assert(decreases_to!(self@->Array_0 => self@->Array_0[i as int]));
                        if !a[i].same(&b[i]) {
                            return false;
                        }
                        i += 1;
                    }
                    assert(array_view(a@) =~= array_view(b@));
                    true
                },
                _ => false,
            },
            Tree::Object(a) => match other {
                Tree::Object(b) => {
                    assert(decreases_to!(self@ => self@->Object_0));
                    a.same(b)
                },
                _ => false,
            },
        }
    }
}

impl PartialEq for Tree {
    /// Two trees are equal where they stand for the same model.
    fn eq(&self, other: &Tree) -> (r: bool) {
        self.same(other)
    }
}

impl PartialEqSpecImpl for Tree {
    open spec fn obeys_eq_spec() -> bool {
        true
    }

    open spec fn eq_spec(&self, other: &Tree) -> bool {
        self@ == other@
    }
}

} // verus!
