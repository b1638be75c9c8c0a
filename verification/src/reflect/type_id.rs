//! Type ids: the text that identifies a described type.

use vstd::prelude::*;

verus! {

/// The textual identity of a type, such as `bool`, `&i32` or `std::collections::HashMap`.
#[derive(Debug)]
pub struct TypeId(pub String);

impl View for TypeId {
    type V = Seq<char>;

    open spec fn view(&self) -> Seq<char> {
        self.0@
    }
}

impl TypeId {
    pub fn from_str(value: &str) -> (id: Self)
        ensures
            id@ == value@,
    {
        TypeId(String::from_str(value))
    }

    pub fn from_string(value: String) -> (id: Self)
        ensures
            id@ == value@,
    {
        TypeId(value)
    }

    pub fn as_str(&self) -> (s: &str)
        ensures
            s@ == self@,
    {
        self.0.as_str()
    }

    /// Whether this id is spelled `other`.
    pub fn is(&self, other: &str) -> (r: bool)
        ensures
            r == (self@ == other@),
    {
        let o = String::from_str(other);
        self.0 == o
    }

    pub fn duplicate(&self) -> (id: Self)
        ensures
            id@ == self@,
    {
        TypeId(self.0.clone())
    }
}

impl PartialEq for TypeId {
    fn eq(&self, other: &Self) -> (r: bool) {
        self.0 == other.0
    }
}

impl vstd::std_specs::cmp::PartialEqSpecImpl for TypeId {
    open spec fn obeys_eq_spec() -> bool {
        true
    }

    open spec fn eq_spec(&self, other: &Self) -> bool {
        self@ == other@
    }
}

impl Eq for TypeId {}

} // verus!
