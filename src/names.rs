//! Namespaces and qualified names.
use vstd::prelude::*;
use crate::text::str_eq;

verus! {

/// The view of a list of strings: the text of each.
pub open spec fn texts(v: Seq<String>) -> Seq<Seq<char>> {
    v.map_values(|s: String| s@)
}

/// Copies a list of strings.
pub fn clone_strings(v: &Vec<String>) -> (r: Vec<String>)
    ensures
        r@ == v@,
{
    let mut r: Vec<String> = Vec::new();
    let mut i: usize = 0;
    while i < v.len()
        invariant
            i <= v.len(),
            r@ == v@.subrange(0, i as int),
        decreases v.len() - i,
    {
        r.push(v[i].clone());
        assert(r@ == v@.subrange(0, i + 1));
        i = i + 1;
    }
    assert(r@ == v@);
    r
}

/// Whether two lists of strings hold the same texts in the same order.
pub fn strings_eq(a: &Vec<String>, b: &Vec<String>) -> (r: bool)
    ensures
        r == (texts(a@) == texts(b@)),
{
    if a.len() != b.len() {
        assert(texts(a@).len() != texts(b@).len());
        return false;
    }
    let mut i: usize = 0;
    while i < a.len()
        invariant
            a.len() == b.len(),
            i <= a.len(),
            forall|k: int| 0 <= k < i ==> a@[k]@ == b@[k]@,
        decreases a.len() - i,
    {
        if !str_eq(a[i].as_str(), b[i].as_str()) {
            assert(texts(a@)[i as int] != texts(b@)[i as int]);
            return false;
        }
        i = i + 1;
    }
    assert(texts(a@) =~= texts(b@));
    true
}

/// A path of nested namespaces, outermost first; empty for the root.
#[derive(Debug)]
pub struct Namespace(pub Vec<String>);

impl View for Namespace {
    type V = Seq<Seq<char>>;

    open spec fn view(&self) -> Seq<Seq<char>> {
        texts(self.0@)
    }
}

impl Namespace {
    /// The root namespace.
    pub fn new() -> (r: Namespace)
        ensures
            r@ == Seq::<Seq<char>>::empty(),
    {
        let r = Namespace(Vec::new());
        assert(r@ =~= Seq::<Seq<char>>::empty());
        r
    }

    /// Whether this is the root namespace.
    pub fn is_empty(&self) -> (r: bool)
        ensures
            r == (self@.len() == 0),
    {
        self.0.len() == 0
    }

    /// The namespace nested in this one under `seg`.
    pub fn push(&self, seg: String) -> (r: Namespace)
        ensures
            r@ == self@.push(seg@),
    {
        let mut v = clone_strings(&self.0);
        v.push(seg);
        let r = Namespace(v);
        assert(r@ =~= self@.push(seg@));
        r
    }

    /// A copy of this namespace.
    pub fn copy(&self) -> (r: Namespace)
        ensures
            r@ == self@,
    {
        Namespace(clone_strings(&self.0))
    }
}

/// The view of a qualified name: its namespace path and its local identifier.
pub struct QualName {
    pub ns: Seq<Seq<char>>,
    pub id: Seq<char>,
}

/// A namespace path together with a local identifier.
#[derive(Debug)]
pub struct QualifiedName {
    pub ns: Namespace,
    pub id: String,
}

impl View for QualifiedName {
    type V = QualName;

    open spec fn view(&self) -> QualName {
        QualName { ns: self.ns@, id: self.id@ }
    }
}

impl QualifiedName {
    /// The name `id` inside namespace `ns`.
    pub fn new(ns: &Namespace, id: String) -> (r: QualifiedName)
        ensures
            r@ == (QualName { ns: ns@, id: id@ }),
    {
        QualifiedName { ns: ns.copy(), id }
    }

    /// Structural equality of two qualified names.
    pub fn same(&self, other: &QualifiedName) -> (r: bool)
        ensures
            r == (self@ == other@),
    {
        strings_eq(&self.ns.0, &other.ns.0) && str_eq(self.id.as_str(), other.id.as_str())
    }

    /// A copy of this name.
    pub fn copy(&self) -> (r: QualifiedName)
        ensures
            r@ == self@,
    {
        QualifiedName { ns: self.ns.copy(), id: self.id.clone() }
    }
}

/// Whether `n` is one of `names`.
pub open spec fn name_listed(names: Seq<QualifiedName>, n: QualName) -> bool {
    exists|i: int| 0 <= i < names.len() && #[trigger] names[i]@ == n
}

/// Whether `n` is one of `names`.
pub fn is_listed(names: &Vec<QualifiedName>, n: &QualifiedName) -> (r: bool)
    ensures
        r == name_listed(names@, n@),
{
    let mut i: usize = 0;
    while i < names.len()
        invariant
            i <= names.len(),
            forall|k: int| 0 <= k < i ==> #[trigger] names@[k]@ != n@,
        decreases names.len() - i,
    {
        if names[i].same(n) {
            return true;
        }
        i = i + 1;
    }
    false
}

/// The name of an API entry: its qualified name, and the native name where
/// that differs from the local identifier.
#[derive(Debug)]
pub struct ApiName {
    pub name: QualifiedName,
    pub cpp_name: Option<String>,
}

/// Whether `f` is one of `v`.
pub fn contains_text(v: &Vec<String>, f: &String) -> (r: bool)
    ensures
        r == texts(v@).contains(f@),
{
    let mut i: usize = 0;
    while i < v.len()
        invariant
            i <= v.len(),
            forall|k: int| 0 <= k < i ==> (#[trigger] v@[k])@ != f@,
        decreases v.len() - i,
    {
        if str_eq(v[i].as_str(), f.as_str()) {
            assert(texts(v@)[i as int] == f@);
            return true;
        }
        i = i + 1;
    }
    assert(forall|k: int| 0 <= k < texts(v@).len() ==> texts(v@)[k] != f@);
    false
}

} // verus!
