//! The descriptors that wrap other types: references, `mut`, slices, maps
//! and tuples, and the plain scalar descriptors.

use vstd::prelude::*;
use std::rc::Rc;
use crate::reflect::shape::share;
use crate::reflect::path::Path;
use crate::reflect::leaf::{MetaData, NumberType, BoolType, StrType, ThisType};
use crate::reflect::model::{Type, RefType, MutType, SliceType, MapType, TupleType, dup_types};
use crate::reflect::render::all_types_printable;
use crate::reflect::type_id::TypeId;

verus! {

impl RefType {
    pub fn new(ty: Type) -> (r: Self)
        ensures
            *r.0 == ty,
    {
        RefType(Rc::new(ty))
    }

    pub fn to_type(&self) -> (t: Type)
        ensures
            t == Type::Ref(*self),
    {
        Type::Ref(self.duplicate())
    }

    /// `&` followed by the id of the referenced type.
    pub fn id(&self) -> (id: TypeId)
        requires
            self.0.id_ok(),
        ensures
            id@ == Type::Ref(*self).spec_id(),
    {
        self.to_type().id()
    }

    /// The referenced type.
    pub fn ty(&self) -> (t: &Type)
        ensures
            *t == *self.0,
    {
        &*self.0
    }

    /// Whether the referenced type is `ty`.
    pub fn is_ref_of(&self, ty: Type) -> (r: bool)
        ensures
            r == (ty.shape() == self.0.shape()),
    {
        ty.same(&self.0)
    }

    pub fn assignable_to(&self, ty: Type) -> (r: bool)
        requires
            self.0.id_ok(),
            ty.id_ok(),
        ensures
            r == (Type::Ref(*self).spec_id() == ty.spec_id()),
    {
        let a = self.id();
        let b = ty.id();
        a == b
    }

    /// Whether `ty` is a reference to the same type.
    pub fn convertable_to(&self, ty: Type) -> (r: bool)
        ensures
            r == (ty matches Type::Ref(q) && q.0.shape() == self.0.shape()),
    {
        ty.is_ref_of(self.0.duplicate())
    }
}

impl MutType {
    pub fn new(ty: Type) -> (r: Self)
        ensures
            *r.0 == ty,
    {
        MutType(Rc::new(ty))
    }

    pub fn to_type(&self) -> (t: Type)
        ensures
            t == Type::Mut(*self),
    {
        Type::Mut(self.duplicate())
    }

    /// `mut ` followed by the id of the inner type.
    pub fn id(&self) -> (id: TypeId)
        requires
            self.0.id_ok(),
        ensures
            id@ == Type::Mut(*self).spec_id(),
    {
        self.to_type().id()
    }

    pub fn ty(&self) -> (t: &Type)
        ensures
            *t == *self.0,
    {
        &*self.0
    }

    /// Whether the inner type is `ty`.
    pub fn is_mut_of(&self, ty: Type) -> (r: bool)
        ensures
            r == (ty.shape() == self.0.shape()),
    {
        ty.same(&self.0)
    }

    pub fn assignable_to(&self, ty: Type) -> (r: bool)
        requires
            self.0.id_ok(),
            ty.id_ok(),
        ensures
            r == (Type::Mut(*self).spec_id() == ty.spec_id()),
    {
        let a = self.id();
        let b = ty.id();
        a == b
    }

    pub fn convertable_to(&self, ty: Type) -> (r: bool)
        ensures
            r == (ty is Mut),
    {
        ty.is_mut()
    }
}

impl SliceType {
    pub fn to_type(&self) -> (t: Type)
        ensures
            t == Type::Slice(*self),
    {
        Type::Slice(self.duplicate())
    }

    /// `[elem]`, or `[elem; capacity]` for a fixed-size array.
    pub fn id(&self) -> (id: TypeId)
        requires
            self.ty.id_ok(),
        ensures
            id@ == self.spec_id(),
    {
        let mut s = String::new();
        self.write_id(&mut s);
        assert(s@ =~= self.spec_id());
        TypeId(s)
    }

    /// The fixed number of elements.
    pub fn len(&self) -> (n: usize)
        requires
            self.capacity is Some,
        ensures
            n == self.capacity.unwrap(),
    {
        match self.capacity {
            Some(c) => c,
            None => 0,
        }
    }

    pub fn is_empty(&self) -> (r: bool)
        ensures
            r == (self.capacity == Some(0usize)),
    {
        match self.capacity {
            Some(c) => c == 0,
            None => false,
        }
    }

    /// The element type.
    pub fn elem(&self) -> (t: &Type)
        ensures
            *t == *self.ty,
    {
        &*self.ty
    }

    pub fn capacity(&self) -> (c: Option<usize>)
        ensures
            c == self.capacity,
    {
        self.capacity
    }

    /// Whether the element type is `ty`.
    pub fn is_slice_of(&self, ty: Type) -> (r: bool)
        ensures
            r == (ty.shape() == self.ty.shape()),
    {
        ty.same(&self.ty)
    }

    pub fn assignable_to(&self, ty: Type) -> (r: bool)
        requires
            self.ty.id_ok(),
            ty.id_ok(),
        ensures
            r == (self.spec_id() == ty.spec_id()),
    {
        let a = self.id();
        let b = ty.id();
        a == b
    }

    /// Whether `ty` is a slice of the same element type.
    pub fn convertable_to(&self, ty: Type) -> (r: bool)
        ensures
            r == (ty matches Type::Slice(q) && q.ty.shape() == self.ty.shape()),
    {
        ty.is_slice_of(self.ty.duplicate())
    }
}

impl MapType {
    pub fn new(ty: Type, key: Type, value: Type) -> (m: Self)
        ensures
            *m.ty == ty,
            *m.key == key,
            *m.value == value,
    {
        MapType { ty: Rc::new(ty), key: Rc::new(key), value: Rc::new(value) }
    }

    pub fn to_type(&self) -> (t: Type)
        ensures
            t is Mapping,
            *t->Mapping_0 == *self,
    {
        Type::Mapping(Rc::new(self.duplicate()))
    }

    /// The id of the collection type.
    pub fn id(&self) -> (id: TypeId)
        requires
            self.ty.id_ok(),
        ensures
            id@ == self.ty.spec_id(),
    {
        self.ty.id()
    }

    pub fn assignable_to(&self, ty: Type) -> (r: bool)
        requires
            self.ty.needs_ids() ==> self.ty.id_ok() && ty.id_ok(),
        ensures
            r == self.ty.spec_assignable_to(ty),
    {
        self.ty.assignable_to(ty)
    }

    pub fn convertable_to(&self, ty: Type) -> (r: bool)
        ensures
            r == self.ty.spec_convertable_to(ty),
    {
        self.ty.convertable_to(ty)
    }

    pub fn meta(&self) -> (m: &MetaData)
        requires
            self.ty.has_path(),
        ensures
            *m == self.ty.spec_meta(),
    {
        self.ty.meta()
    }

    pub fn path(&self) -> (p: &Path)
        requires
            self.ty.has_path(),
        ensures
            *p == self.ty.spec_path(),
    {
        self.ty.path()
    }

    /// The collection type.
    pub fn ty(&self) -> (t: &Type)
        ensures
            *t == *self.ty,
    {
        &*self.ty
    }

    pub fn key(&self) -> (t: &Type)
        ensures
            *t == *self.key,
    {
        &*self.key
    }

    pub fn value(&self) -> (t: &Type)
        ensures
            *t == *self.value,
    {
        &*self.value
    }
}

impl TupleType {
    pub fn new(items: Vec<Type>) -> (t: Self)
        ensures
            t.items == items,
    {
        TupleType { items }
    }

    pub fn to_type(&self) -> (t: Type)
        ensures
            t is Tuple,
            t->Tuple_0.shape() == self.shape(),
    {
        Type::Tuple(Rc::new(self.duplicate()))
    }

    /// `(a, b, ...)`, each element written out.
    pub fn id(&self) -> (id: TypeId)
        requires
            all_types_printable(self.items@),
        ensures
            id@ == self.spec_id(),
    {
        let mut s = String::new();
        self.write_id(&mut s);
        assert(s@ =~= self.spec_id());
        TypeId(s)
    }

    pub fn len(&self) -> (n: usize)
        ensures
            n == self.items@.len(),
    {
        self.items.len()
    }

    pub fn is_empty(&self) -> (r: bool)
        ensures
            r == (self.items@.len() == 0),
    {
        self.items.len() == 0
    }

    /// The element types, in order.
    pub fn get(&self) -> (s: &[Type])
        ensures
            s@ == self.items@,
    {
        self.items.as_slice()
    }

    /// The element type at `index`.
    pub fn index(&self, index: usize) -> (t: &Type)
        requires
            index < self.items@.len(),
        ensures
            *t == self.items@[index as int],
    {
        &self.items[index]
    }

    pub fn assignable_to(&self, ty: Type) -> (r: bool)
        requires
            all_types_printable(self.items@),
            ty.id_ok(),
        ensures
            r == (self.spec_id() == ty.spec_id()),
    {
        let a = self.id();
        let b = ty.id();
        a == b
    }

    pub fn convertable_to(&self, ty: Type) -> (r: bool)
        ensures
            r == (ty is Tuple),
    {
        ty.is_tuple()
    }
}

impl StrType {
    pub fn to_type(&self) -> (t: Type)
        ensures
            t == Type::Str(*self),
    {
        Type::Str(*self)
    }

    /// `string`.
    pub fn id(&self) -> (id: TypeId)
        ensures
            id@ == "string"@,
    {
        TypeId::from_str("string")
    }

    pub fn assignable_to(&self, ty: Type) -> (r: bool)
        requires
            ty.id_ok(),
        ensures
            r == ("string"@ == ty.spec_id()),
    {
        let a = self.id();
        let b = ty.id();
        a == b
    }

    pub fn convertable_to(&self, ty: Type) -> (r: bool)
        ensures
            r == (ty is Str),
    {
        ty.is_str()
    }
}

impl BoolType {
    pub fn to_type(&self) -> (t: Type)
        ensures
            t == Type::Bool(*self),
    {
        Type::Bool(*self)
    }

    /// `bool`.
    pub fn id(&self) -> (id: TypeId)
        ensures
            id@ == "bool"@,
    {
        TypeId::from_str("bool")
    }

    pub fn assignable_to(&self, ty: Type) -> (r: bool)
        requires
            ty.id_ok(),
        ensures
            r == ("bool"@ == ty.spec_id()),
    {
        let a = self.id();
        let b = ty.id();
        a == b
    }

    pub fn convertable_to(&self, ty: Type) -> (r: bool)
        ensures
            r == (ty is Bool),
    {
        ty.is_bool()
    }
}

impl ThisType {
    pub fn to_type(&self) -> (t: Type)
        ensures
            t == Type::This(*self),
    {
        Type::This(*self)
    }

    /// `Self`.
    pub fn id(&self) -> (id: TypeId)
        ensures
            id@ == "Self"@,
    {
        TypeId::from_str("Self")
    }

    pub fn assignable_to(&self, ty: Type) -> (r: bool)
        requires
            ty.id_ok(),
        ensures
            r == ("Self"@ == ty.spec_id()),
    {
        let a = self.id();
        let b = ty.id();
        a == b
    }

    pub fn convertable_to(&self, ty: Type) -> (r: bool)
        ensures
            r == (ty is This),
    {
        ty.is_self()
    }
}

impl NumberType {
    pub fn to_type(&self) -> (t: Type)
        ensures
            t == Type::Number(*self),
    {
        Type::Number(*self)
    }

    /// The type's name, such as `i32` or `f64`.
    pub fn id(&self) -> (id: TypeId)
        ensures
            id@ == self.rendered(),
    {
        TypeId(self.to_string())
    }

    pub fn assignable_to(&self, ty: Type) -> (r: bool)
        requires
            ty.id_ok(),
        ensures
            r == (self.rendered() == ty.spec_id()),
    {
        let a = self.id();
        let b = ty.id();
        a == b
    }

    pub fn convertable_to(&self, ty: Type) -> (r: bool)
        ensures
            r == (ty is Number),
    {
        ty.is_number()
    }
}

} // verus!
