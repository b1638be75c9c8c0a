//! Descriptor parts that hold no types: layouts, visibilities, numeric
//! kinds, metadata, bounds and field names.

use vstd::prelude::*;
use crate::text::{join, decimal, push_str, push_decimal};
use crate::reflect::shape::Shape;
use crate::reflect::path::{Path, sep, lemma_path_shape};

verus! {

/// How the fields of a struct or variant are written.
#[derive(Debug, Clone, Copy, PartialEq, Eq, Structural)]
pub enum Layout {
    Unit,
    Key,
    Index,
}

impl Layout {
    pub open spec fn code(self) -> int {
        match self {
            Layout::Unit => 0,
            Layout::Key => 1,
            Layout::Index => 2,
        }
    }

    pub open spec fn rendered(self) -> Seq<char> {
        match self {
            Layout::Unit => seq!['u', 'n', 'i', 't'],
            Layout::Key => seq!['k', 'e', 'y'],
            Layout::Index => seq!['i', 'n', 'd', 'e', 'x'],
        }
    }

    pub fn is_unit(&self) -> (r: bool)
        ensures
            r == (*self is Unit),
    {
        matches!(self, Layout::Unit)
    }

    pub fn is_key(&self) -> (r: bool)
        ensures
            r == (*self is Key),
    {
        matches!(self, Layout::Key)
    }

    pub fn is_index(&self) -> (r: bool)
        ensures
            r == (*self is Index),
    {
        matches!(self, Layout::Index)
    }

    pub fn to_string(&self) -> (s: String)
        ensures
            s@ == self.rendered(),
    {
        proof {
            reveal_strlit("unit");
            reveal_strlit("key");
            reveal_strlit("index");
        }
        match self {
            Layout::Unit => String::from_str("unit"),
            Layout::Key => String::from_str("key"),
            Layout::Index => String::from_str("index"),
        }
    }
}

/// The reach of a `pub` item.
#[derive(Debug, Clone, Copy, PartialEq, Eq, Structural)]
pub enum Public {
    Full,
    Crate,
    Super,
}

/// The visibility of an item.
#[derive(Debug, Clone, Copy, PartialEq, Eq, Structural)]
pub enum Visibility {
    Private,
    Public(Public),
}

impl Visibility {
    pub open spec fn code(self) -> int {
        match self {
            Visibility::Private => 0,
            Visibility::Public(Public::Full) => 1,
            Visibility::Public(Public::Crate) => 2,
            Visibility::Public(Public::Super) => 3,
        }
    }

    /// The keyword as written before an item (empty for private items).
    pub open spec fn rendered(self) -> Seq<char> {
        match self {
            Visibility::Private => Seq::empty(),
            Visibility::Public(Public::Full) => seq!['p', 'u', 'b'],
            Visibility::Public(Public::Crate) => seq!['p', 'u', 'b', '(', 'c', 'r', 'a', 't', 'e', ')'],
            Visibility::Public(Public::Super) => seq!['p', 'u', 'b', '(', 's', 'u', 'p', 'e', 'r', ')'],
        }
    }

    /// The visibility followed by a space, or nothing for private items.
    pub open spec fn prefix(self) -> Seq<char> {
        if self is Private {
            Seq::empty()
        } else {
            self.rendered().push(' ')
        }
    }

    pub fn is_private(&self) -> (r: bool)
        ensures
            r == (*self is Private),
    {
        matches!(self, Visibility::Private)
    }

    pub fn is_public(&self) -> (r: bool)
        ensures
            r == (*self is Public),
    {
        matches!(self, Visibility::Public(_))
    }

    pub fn to_string(&self) -> (s: String)
        ensures
            s@ == self.rendered(),
    {
        proof {
            reveal_strlit("pub");
            reveal_strlit("pub(crate)");
            reveal_strlit("pub(super)");
        }
        match self {
            Visibility::Private => String::new(),
            Visibility::Public(Public::Full) => String::from_str("pub"),
            Visibility::Public(Public::Crate) => String::from_str("pub(crate)"),
            Visibility::Public(Public::Super) => String::from_str("pub(super)"),
        }
    }

    /// Appends `prefix()` to `s`.
    pub fn write_prefix(&self, s: &mut String)
        ensures
            final(s)@ == old(s)@ + self.prefix(),
    {
        if !self.is_private() {
            let v = self.to_string();
            push_str(s, v.as_str());
            proof {
                reveal_strlit(" ");
            }
            push_str(s, " ");
            assert(final(s)@ =~= old(s)@ + self.prefix());
        } else {
            assert(final(s)@ =~= old(s)@ + self.prefix());
        }
    }
}

/// `?` in front of a trait bound, or nothing.
#[derive(Debug, Clone, Copy, PartialEq, Eq, Structural)]
pub enum TraitBoundModifier {
    Plain,
    Maybe,
}

impl TraitBoundModifier {
    pub open spec fn rendered(self) -> Seq<char> {
        match self {
            TraitBoundModifier::Plain => Seq::empty(),
            TraitBoundModifier::Maybe => seq!['?'],
        }
    }

    pub fn is_none(&self) -> (r: bool)
        ensures
            r == (*self is Plain),
    {
        matches!(self, TraitBoundModifier::Plain)
    }

    pub fn is_maybe(&self) -> (r: bool)
        ensures
            r == (*self is Maybe),
    {
        matches!(self, TraitBoundModifier::Maybe)
    }

    pub fn to_string(&self) -> (s: String)
        ensures
            s@ == self.rendered(),
    {
        proof {
            reveal_strlit("?");
        }
        match self {
            TraitBoundModifier::Plain => String::new(),
            TraitBoundModifier::Maybe => String::from_str("?"),
        }
    }
}

/// A lifetime bound such as `'a`.
#[derive(Debug)]
pub struct LifetimeBound {
    pub name: String,
}

impl LifetimeBound {
    pub open spec fn shape(&self) -> Shape {
        Shape::Text(self.name@)
    }

    pub open spec fn rendered(&self) -> Seq<char> {
        seq!['\''] + self.name@
    }

    pub fn new(name: &str) -> (b: Self)
        ensures
            b.name@ == name@,
    {
        LifetimeBound { name: String::from_str(name) }
    }

    pub fn name(&self) -> (s: &str)
        ensures
            s@ == self.name@,
    {
        self.name.as_str()
    }

    pub fn to_bound(&self) -> (b: Bound)
        ensures
            b is Lifetime,
            b->Lifetime_0.name@ == self.name@,
    {
        Bound::Lifetime(self.duplicate())
    }

    pub fn duplicate(&self) -> (b: Self)
        ensures
            b.name@ == self.name@,
    {
        LifetimeBound { name: self.name.clone() }
    }

    pub fn same(&self, other: &Self) -> (r: bool)
        ensures
            r == (self.shape() == other.shape()),
    {
        self.name == other.name
    }

    pub fn to_string(&self) -> (s: String)
        ensures
            s@ == self.rendered(),
    {
        proof {
            reveal_strlit("'");
        }
        let mut s = String::from_str("'");
        push_str(&mut s, self.name.as_str());
        s
    }
}

/// A trait bound such as `?Sized` or `std::fmt::Debug`.
#[derive(Debug)]
pub struct TraitBound {
    pub path: Path,
    pub modifier: TraitBoundModifier,
}

impl TraitBound {
    pub open spec fn shape(&self) -> Shape {
        Shape::Node(0, seq![self.path.shape(), Shape::Num(if self.modifier is Plain { 0 } else { 1 })])
    }

    pub open spec fn rendered(&self) -> Seq<char> {
        self.modifier.rendered() + join(self.path@, sep())
    }

    pub fn new(path: &Path, modifier: TraitBoundModifier) -> (b: Self)
        ensures
            b.path@ == path@,
            b.modifier == modifier,
    {
        TraitBound { path: path.duplicate(), modifier }
    }

    pub fn to_bound(&self) -> (b: Bound)
        ensures
            b is Trait,
            b->Trait_0.path@ == self.path@,
            b->Trait_0.modifier == self.modifier,
    {
        Bound::Trait(TraitBound::new(&self.path, self.modifier))
    }

    pub fn path(&self) -> (p: &Path)
        ensures
            p == &self.path,
    {
        &self.path
    }

    pub fn modifier(&self) -> (m: &TraitBoundModifier)
        ensures
            m == &self.modifier,
    {
        &self.modifier
    }

    pub fn same(&self, other: &Self) -> (r: bool)
        ensures
            r == (self.shape() == other.shape()),
    {
        let p = self.path.same(&other.path);
        let m = self.modifier == other.modifier;
        proof {
            if self.shape() == other.shape() {
                assert(self.shape()->Node_1[0] == other.shape()->Node_1[0]);
                assert(self.shape()->Node_1[1] == other.shape()->Node_1[1]);
                lemma_path_shape(&self.path, &other.path);
            }
            if p && m {
                lemma_path_shape(&self.path, &other.path);
                assert(self.shape()->Node_1 =~= other.shape()->Node_1);
            }
        }
        p && m
    }

    pub fn to_string(&self) -> (s: String)
        ensures
            s@ == self.rendered(),
    {
        let mut s = self.modifier.to_string();
        let p = self.path.to_string();
        push_str(&mut s, p.as_str());
        s
    }
}

/// A bound on a generic parameter.
#[derive(Debug)]
pub enum Bound {
    Trait(TraitBound),
    Lifetime(LifetimeBound),
}

impl Bound {
    pub open spec fn shape(&self) -> Shape {
        match self {
            Bound::Trait(t) => Shape::Node(0, seq![t.shape()]),
            Bound::Lifetime(l) => Shape::Node(1, seq![l.shape()]),
        }
    }

    pub open spec fn rendered(&self) -> Seq<char> {
        match self {
            Bound::Trait(t) => t.rendered(),
            Bound::Lifetime(l) => l.rendered(),
        }
    }

    /// The bound's name: the trait path joined with `::`, or the lifetime's name.
    pub open spec fn spec_name(&self) -> Seq<char> {
        match self {
            Bound::Trait(t) => join(t.path@, sep()),
            Bound::Lifetime(l) => l.name@,
        }
    }

    pub fn name(&self) -> (s: String)
        ensures
            s@ == self.spec_name(),
    {
        match self {
            Bound::Trait(t) => t.path.to_string(),
            Bound::Lifetime(l) => l.name.clone(),
        }
    }

    pub fn is_trait(&self) -> (r: bool)
        ensures
            r == (*self is Trait),
    {
        matches!(self, Bound::Trait(_))
    }

    pub fn is_lifetime(&self) -> (r: bool)
        ensures
            r == (*self is Lifetime),
    {
        matches!(self, Bound::Lifetime(_))
    }

    pub fn to_trait(&self) -> (t: TraitBound)
        requires
            *self is Trait,
        ensures
            t.path@ == self->Trait_0.path@,
            t.modifier == self->Trait_0.modifier,
    {
        match self {
            Bound::Trait(v) => TraitBound::new(&v.path, v.modifier),
            Bound::Lifetime(_) => {
                proof { assert(false); }
                TraitBound::new(&Path::new(), TraitBoundModifier::Plain)
            }
        }
    }

    pub fn to_lifetime(&self) -> (l: LifetimeBound)
        requires
            *self is Lifetime,
        ensures
            l.name@ == self->Lifetime_0.name@,
    {
        match self {
            Bound::Lifetime(v) => v.duplicate(),
            Bound::Trait(_) => {
                proof { assert(false); }
                LifetimeBound::new("")
            }
        }
    }

    pub fn duplicate(&self) -> (b: Self)
        ensures
            b.shape() == self.shape(),
    {
        match self {
            Bound::Trait(t) => {
                let c = TraitBound::new(&t.path, t.modifier);
                assert(c.path.shape() == t.path.shape());
                Bound::Trait(c)
            }
            Bound::Lifetime(l) => Bound::Lifetime(l.duplicate()),
        }
    }

    pub fn same(&self, other: &Self) -> (r: bool)
        ensures
            r == (self.shape() == other.shape()),
    {
        match (self, other) {
            (Bound::Trait(a), Bound::Trait(b)) => {
                let r = a.same(b);
                proof {
                    if self.shape() == other.shape() {
                        assert(self.shape()->Node_1[0] == other.shape()->Node_1[0]);
                    }
                    if r {
                        assert(self.shape()->Node_1 =~= other.shape()->Node_1);
                    }
                }
                r
            }
            (Bound::Lifetime(a), Bound::Lifetime(b)) => {
                let r = a.same(b);
                proof {
                    if self.shape() == other.shape() {
                        assert(self.shape()->Node_1[0] == other.shape()->Node_1[0]);
                    }
                    if r {
                        assert(self.shape()->Node_1 =~= other.shape()->Node_1);
                    }
                }
                r
            }
            _ => false,
        }
    }

    pub fn to_string(&self) -> (s: String)
        ensures
            s@ == self.rendered(),
    {
        match self {
            Bound::Trait(t) => t.to_string(),
            Bound::Lifetime(l) => l.to_string(),
        }
    }
}

/// The name of a field: a key for named fields, a position for tuple fields.
#[derive(Debug)]
pub enum FieldName {
    Key(String),
    Index(usize),
}

impl FieldName {
    pub open spec fn shape(&self) -> Shape {
        match self {
            FieldName::Key(s) => Shape::Node(0, seq![Shape::Text(s@)]),
            FieldName::Index(i) => Shape::Node(1, seq![Shape::Num(*i as int)]),
        }
    }

    pub open spec fn rendered(&self) -> Seq<char> {
        match self {
            FieldName::Key(s) => s@,
            FieldName::Index(i) => decimal(*i as nat),
        }
    }

    pub fn from_index(index: usize) -> (n: Self)
        ensures
            n == FieldName::Index(index),
    {
        FieldName::Index(index)
    }

    pub fn from_key(key: &str) -> (n: Self)
        ensures
            n is Key,
            n->Key_0@ == key@,
    {
        FieldName::Key(String::from_str(key))
    }

    pub fn duplicate(&self) -> (n: Self)
        ensures
            n.shape() == self.shape(),
    {
        match self {
            FieldName::Key(s) => FieldName::Key(s.clone()),
            FieldName::Index(i) => FieldName::Index(*i),
        }
    }

    pub fn same(&self, other: &Self) -> (r: bool)
        ensures
            r == (self.shape() == other.shape()),
    {
        match (self, other) {
            (FieldName::Key(a), FieldName::Key(b)) => {
                let r = *a == *b;
                proof {
                    if self.shape() == other.shape() {
                        assert(self.shape()->Node_1[0] == other.shape()->Node_1[0]);
                    }
                    if r {
                        assert(self.shape()->Node_1 =~= other.shape()->Node_1);
                    }
                }
                r
            }
            (FieldName::Index(a), FieldName::Index(b)) => {
                let r = *a == *b;
                proof {
                    if self.shape() == other.shape() {
                        assert(self.shape()->Node_1[0] == other.shape()->Node_1[0]);
                    }
                }
                r
            }
            _ => false,
        }
    }

    pub fn to_string(&self) -> (s: String)
        ensures
            s@ == self.rendered(),
    {
        match self {
            FieldName::Key(k) => k.clone(),
            FieldName::Index(i) => {
                let mut s = String::new();
                push_decimal(&mut s, *i as u64);
                assert(s@ =~= decimal(*i as nat));
                s
            }
        }
    }
}

/// Free-form key/value metadata attached to an item.
#[derive(Debug)]
pub struct MetaData {
    pub entries: Vec<(String, String)>,
}

impl View for MetaData {
    type V = Seq<(Seq<char>, Seq<char>)>;

    open spec fn view(&self) -> Seq<(Seq<char>, Seq<char>)> {
        self.entries@.map_values(|e: (String, String)| (e.0@, e.1@))
    }
}

/// The index of the first entry whose key is `key`, if any.
pub open spec fn find_key(entries: Seq<(Seq<char>, Seq<char>)>, key: Seq<char>) -> Option<int>
    decreases entries.len(),
{
    if entries.len() == 0 {
        None
    } else {
        match find_key(entries.drop_last(), key) {
            Some(i) => Some(i),
            None => if entries.last().0 == key { Some(entries.len() - 1) } else { None },
        }
    }
}

pub proof fn lemma_find_key(entries: Seq<(Seq<char>, Seq<char>)>, key: Seq<char>)
    ensures
        find_key(entries, key) matches Some(i) ==> 0 <= i < entries.len() && entries[i].0 == key
            && forall|j: int| 0 <= j < i ==> entries[j].0 != key,
        find_key(entries, key) is None ==> forall|j: int| 0 <= j < entries.len() ==> entries[j].0 != key,
    decreases entries.len(),
{
    if entries.len() > 0 {
        let d = entries.drop_last();
        lemma_find_key(d, key);
        assert forall|j: int| 0 <= j < d.len() implies d[j] == entries[j] by {}
    }
}

/// The value stored under `key`: that of the first entry with this key.
pub open spec fn meta_lookup(entries: Seq<(Seq<char>, Seq<char>)>, key: Seq<char>) -> Option<Seq<char>> {
    match find_key(entries, key) {
        Some(i) => Some(entries[i].1),
        None => None,
    }
}

/// The entries after storing `value` under `key`: the first entry with this
/// key is replaced, or a new entry is added at the end.
pub open spec fn meta_inserted(entries: Seq<(Seq<char>, Seq<char>)>, key: Seq<char>, value: Seq<char>) -> Seq<(Seq<char>, Seq<char>)> {
    match find_key(entries, key) {
        Some(i) => entries.update(i, (key, value)),
        None => entries.push((key, value)),
    }
}

/// Entries with the same keys in the same places find every key at the same place.
proof fn lemma_find_key_same_keys(a: Seq<(Seq<char>, Seq<char>)>, b: Seq<(Seq<char>, Seq<char>)>, key: Seq<char>)
    requires
        a.len() == b.len(),
        forall|j: int| 0 <= j < a.len() ==> (#[trigger] a[j]).0 == b[j].0,
    ensures
        find_key(a, key) == find_key(b, key),
    decreases a.len(),
{
    if a.len() > 0 {
        let (da, db) = (a.drop_last(), b.drop_last());
        assert forall|j: int| 0 <= j < da.len() implies (#[trigger] da[j]).0 == db[j].0 by {
            assert(da[j] == a[j] && db[j] == b[j]);
        }
        lemma_find_key_same_keys(da, db, key);
        assert(a.last().0 == b.last().0);
    }
}

/// Storing a value under a key and reading that key back gives the value;
/// every other key reads as it did before.
pub proof fn law_meta_get_after_insert(m: &MetaData, key: Seq<char>, value: Seq<char>, other: Seq<char>)
    ensures
        meta_lookup(meta_inserted(m@, key, value), key) == Some(value),
        other != key ==> meta_lookup(meta_inserted(m@, key, value), other) == meta_lookup(m@, other),
{
    let e = m@;
    let n = meta_inserted(e, key, value);
    lemma_find_key(e, key);
    lemma_find_key(e, other);
    match find_key(e, key) {
        Some(i) => {
            assert forall|j: int| 0 <= j < n.len() implies (#[trigger] n[j]).0 == e[j].0 by {}
            lemma_find_key_same_keys(n, e, key);
            lemma_find_key_same_keys(n, e, other);
        },
        None => {
            assert(n.drop_last() =~= e);
        },
    }
}

impl MetaData {
    pub open spec fn shape(&self) -> Shape {
        Shape::Node(0, self@.map_values(|e: (Seq<char>, Seq<char>)| Shape::Node(0, seq![Shape::Text(e.0), Shape::Text(e.1)])))
    }

    pub fn new() -> (m: Self)
        ensures
            m@ == Seq::<(Seq<char>, Seq<char>)>::empty(),
    {
        MetaData { entries: Vec::new() }
    }

    pub fn len(&self) -> (n: usize)
        ensures
            n == self@.len(),
    {
        self.entries.len()
    }

    pub fn is_empty(&self) -> (r: bool)
        ensures
            r == (self@.len() == 0),
    {
        self.entries.len() == 0
    }

    fn position(&self, key: &str) -> (r: Option<usize>)
        ensures
            r matches Some(i) ==> find_key(self@, key@) == Some(i as int),
            r is None ==> find_key(self@, key@) is None,
    {
        proof {
            lemma_find_key(self@, key@);
        }
        let k = String::from_str(key);
        let mut i: usize = 0;
        while i < self.entries.len()
            invariant
                i <= self.entries.len(),
                k@ == key@,
                forall|j: int| 0 <= j < i ==> self@[j].0 != key@,
            decreases self.entries.len() - i,
        {
            if self.entries[i].0 == k {
                proof {
                    assert(self@[i as int].0 == key@);
                    lemma_find_key(self@, key@);
                    if let Some(f) = find_key(self@, key@) {
                        if f < i {
                            assert(self@[f].0 != key@);
                        }
                        if f > i {
                            assert(self@[i as int].0 != key@);
                        }
                    }
                }
                return Some(i);
            }
            i = i + 1;
        }
        None
    }

    /// The value stored under `key`.
    pub fn get(&self, key: &str) -> (v: Option<&str>)
        ensures
            v matches Some(s) ==> meta_lookup(self@, key@) == Some(s@),
            v is None ==> meta_lookup(self@, key@) is None,
    {
        match self.position(key) {
            None => None,
            Some(i) => {
                proof { lemma_find_key(self@, key@); }
                Some(self.entries[i].1.as_str())
            },
        }
    }

    /// Stores `value` under `key`, replacing the value already stored there.
    pub fn insert(&mut self, key: &str, value: &str)
        ensures
            final(self)@ == meta_inserted(old(self)@, key@, value@),
    {
        let e = (String::from_str(key), String::from_str(value));
        proof { lemma_find_key(self@, key@); }
        match self.position(key) {
            None => {
                self.entries.push(e);
                assert(self@ =~= old(self)@.push((key@, value@)));
            },
            Some(i) => {
                self.entries.set(i, e);
                assert(self@ =~= old(self)@.update(i as int, (key@, value@)));
            },
        }
    }

    pub fn duplicate(&self) -> (m: Self)
        ensures
            m@ == self@,
    {
        let mut v: Vec<(String, String)> = Vec::new();
        let mut i: usize = 0;
        while i < self.entries.len()
            invariant
                i <= self.entries.len(),
                v@.map_values(|e: (String, String)| (e.0@, e.1@)) == self@.take(i as int),
            decreases self.entries.len() - i,
        {
            let ghost before = v@.map_values(|e: (String, String)| (e.0@, e.1@));
            let e = (self.entries[i].0.clone(), self.entries[i].1.clone());
            v.push(e);
            assert(v@.map_values(|e: (String, String)| (e.0@, e.1@)) =~= before.push((e.0@, e.1@)));
            assert(self@.take(i + 1) =~= self@.take(i as int).push(self@[i as int]));
            i = i + 1;
        }
        assert(self@.take(self.entries.len() as int) =~= self@);
        MetaData { entries: v }
    }

    pub fn same(&self, other: &Self) -> (r: bool)
        ensures
            r == (self.shape() == other.shape()),
    {
        proof { lemma_meta_shape(self, other); }
        if self.entries.len() != other.entries.len() {
            assert(self@.len() != other@.len());
            return false;
        }
        let mut i: usize = 0;
        while i < self.entries.len()
            invariant
                i <= self.entries.len(),
                self.entries.len() == other.entries.len(),
                forall|j: int| 0 <= j < i ==> self@[j] == other@[j],
            decreases self.entries.len() - i,
        {
            if self.entries[i].0 != other.entries[i].0 || self.entries[i].1 != other.entries[i].1 {
                assert(self@[i as int] != other@[i as int]);
                proof { lemma_meta_shape(self, other); }
                return false;
            }
            i = i + 1;
        }
        assert(self@ =~= other@);
        true
    }
}

/// Metadata without entries has the shape of an empty node.
pub proof fn lemma_empty_meta_shape(m: &MetaData)
    requires
        m@.len() == 0,
    ensures
        m.shape() == Shape::Node(0, Seq::empty()),
{
    assert(m@.map_values(|e: (Seq<char>, Seq<char>)| Shape::Node(0, seq![Shape::Text(e.0), Shape::Text(e.1)]))
        =~= Seq::<Shape>::empty());
}

/// Two metadata sets have the same shape exactly when they hold the same entries.
pub proof fn lemma_meta_shape(a: &MetaData, b: &MetaData)
    ensures
        (a.shape() == b.shape()) <==> (a@ == b@),
{
    let f = |e: (Seq<char>, Seq<char>)| Shape::Node(0, seq![Shape::Text(e.0), Shape::Text(e.1)]);
    let sa = a@.map_values(f);
    let sb = b@.map_values(f);
    if a.shape() == b.shape() {
        assert(sa == sb);
        assert forall|i: int| 0 <= i < a@.len() implies a@[i] == b@[i] by {
            assert(sa[i] == f(a@[i]));
            assert(sb[i] == f(b@[i]));
            assert(sa[i]->Node_1[0] == sb[i]->Node_1[0]);
            assert(sa[i]->Node_1[1] == sb[i]->Node_1[1]);
        }
        assert(a@ =~= b@);
    }
}

/// The kind of an integer type.
#[derive(Debug, Clone, Copy, PartialEq, Eq, Structural)]
pub enum IntType {
    I8,
    I16,
    I32,
    I64,
    I128,
    Isize,
    U8,
    U16,
    U32,
    U64,
    U128,
    Usize,
}

impl IntType {
    pub open spec fn code(self) -> int {
        match self {
            IntType::I8 => 0,
            IntType::I16 => 1,
            IntType::I32 => 2,
            IntType::I64 => 3,
            IntType::I128 => 4,
            IntType::Isize => 5,
            IntType::U8 => 6,
            IntType::U16 => 7,
            IntType::U32 => 8,
            IntType::U64 => 9,
            IntType::U128 => 10,
            IntType::Usize => 11,
        }
    }

    pub open spec fn spec_is_signed(self) -> bool {
        self.code() < 6
    }

    /// The type's name, such as `i32`.
    pub open spec fn rendered(self) -> Seq<char> {
        match self {
            IntType::I8 => seq!['i', '8'],
            IntType::I16 => seq!['i', '1', '6'],
            IntType::I32 => seq!['i', '3', '2'],
            IntType::I64 => seq!['i', '6', '4'],
            IntType::I128 => seq!['i', '1', '2', '8'],
            IntType::Isize => seq!['i', 's', 'i', 'z', 'e'],
            IntType::U8 => seq!['u', '8'],
            IntType::U16 => seq!['u', '1', '6'],
            IntType::U32 => seq!['u', '3', '2'],
            IntType::U64 => seq!['u', '6', '4'],
            IntType::U128 => seq!['u', '1', '2', '8'],
            IntType::Usize => seq!['u', 's', 'i', 'z', 'e'],
        }
    }

    pub fn is_signed(&self) -> (r: bool)
        ensures
            r == self.spec_is_signed(),
    {
        match self {
            IntType::I8 | IntType::I16 | IntType::I32 | IntType::I64 | IntType::I128 | IntType::Isize => true,
            _ => false,
        }
    }

    pub fn to_string(&self) -> (s: String)
        ensures
            s@ == self.rendered(),
    {
        proof {
            reveal_strlit("i8");
            reveal_strlit("i16");
            reveal_strlit("i32");
            reveal_strlit("i64");
            reveal_strlit("i128");
            reveal_strlit("isize");
            reveal_strlit("u8");
            reveal_strlit("u16");
            reveal_strlit("u32");
            reveal_strlit("u64");
            reveal_strlit("u128");
            reveal_strlit("usize");
        }
        match self {
            IntType::I8 => String::from_str("i8"),
            IntType::I16 => String::from_str("i16"),
            IntType::I32 => String::from_str("i32"),
            IntType::I64 => String::from_str("i64"),
            IntType::I128 => String::from_str("i128"),
            IntType::Isize => String::from_str("isize"),
            IntType::U8 => String::from_str("u8"),
            IntType::U16 => String::from_str("u16"),
            IntType::U32 => String::from_str("u32"),
            IntType::U64 => String::from_str("u64"),
            IntType::U128 => String::from_str("u128"),
            IntType::Usize => String::from_str("usize"),
        }
    }
}

/// The kind of a floating-point type.
#[derive(Debug, Clone, Copy, PartialEq, Eq, Structural)]
pub enum FloatType {
    F32,
    F64,
}

impl FloatType {
    pub open spec fn code(self) -> int {
        match self {
            FloatType::F32 => 0,
            FloatType::F64 => 1,
        }
    }

    pub open spec fn rendered(self) -> Seq<char> {
        match self {
            FloatType::F32 => seq!['f', '3', '2'],
            FloatType::F64 => seq!['f', '6', '4'],
        }
    }

    pub fn to_string(&self) -> (s: String)
        ensures
            s@ == self.rendered(),
    {
        proof {
            reveal_strlit("f32");
            reveal_strlit("f64");
        }
        match self {
            FloatType::F32 => String::from_str("f32"),
            FloatType::F64 => String::from_str("f64"),
        }
    }
}

/// A numeric type.
#[derive(Debug, Clone, Copy, PartialEq, Eq, Structural)]
pub enum NumberType {
    Int(IntType),
    Float(FloatType),
}

impl NumberType {
    pub open spec fn code(self) -> int {
        match self {
            NumberType::Int(i) => i.code(),
            NumberType::Float(f) => 100 + f.code(),
        }
    }

    pub open spec fn rendered(self) -> Seq<char> {
        match self {
            NumberType::Int(i) => i.rendered(),
            NumberType::Float(f) => f.rendered(),
        }
    }

    pub fn is_int(&self) -> (r: bool)
        ensures
            r == (*self is Int),
    {
        matches!(self, NumberType::Int(_))
    }

    pub fn is_float(&self) -> (r: bool)
        ensures
            r == (*self is Float),
    {
        matches!(self, NumberType::Float(_))
    }

    /// Whether this is a signed integer type (floats count as unsigned here).
    pub fn is_signed(&self) -> (r: bool)
        ensures
            r == (*self matches NumberType::Int(i) && i.spec_is_signed()),
    {
        match self {
            NumberType::Int(i) => i.is_signed(),
            NumberType::Float(_) => false,
        }
    }

    pub fn to_int(&self) -> (i: IntType)
        requires
            *self is Int,
        ensures
            i == self->Int_0,
    {
        match self {
            NumberType::Int(i) => *i,
            NumberType::Float(_) => IntType::I8,
        }
    }

    pub fn as_int(&self) -> (i: &IntType)
        requires
            *self is Int,
        ensures
            *i == self->Int_0,
    {
        match self {
            NumberType::Int(i) => i,
            NumberType::Float(_) => &IntType::I8,
        }
    }

    pub fn to_float(&self) -> (f: FloatType)
        requires
            *self is Float,
        ensures
            f == self->Float_0,
    {
        match self {
            NumberType::Float(f) => *f,
            NumberType::Int(_) => FloatType::F32,
        }
    }

    pub fn as_float(&self) -> (f: &FloatType)
        requires
            *self is Float,
        ensures
            *f == self->Float_0,
    {
        match self {
            NumberType::Float(f) => f,
            NumberType::Int(_) => &FloatType::F32,
        }
    }

    pub fn to_string(&self) -> (s: String)
        ensures
            s@ == self.rendered(),
    {
        match self {
            NumberType::Int(i) => i.to_string(),
            NumberType::Float(f) => f.to_string(),
        }
    }
}

/// The `bool` type.
#[derive(Debug, Clone, Copy, PartialEq, Eq, Structural)]
pub struct BoolType;

/// The string type.
#[derive(Debug, Clone, Copy, PartialEq, Eq, Structural)]
pub struct StrType;

/// `Self` inside a trait or impl.
#[derive(Debug, Clone, Copy, PartialEq, Eq, Structural)]
pub struct ThisType;

} // verus!
