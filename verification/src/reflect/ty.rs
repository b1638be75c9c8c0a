//! Queries on `Type`: its kind, its parts, and whether values of it can be
//! assigned or converted to another type.

use vstd::prelude::*;
use std::rc::Rc;
use crate::reflect::shape::share;
use crate::reflect::path::Path;
use crate::reflect::leaf::{MetaData, BoolType, NumberType, IntType, FloatType, StrType, ThisType};
use crate::reflect::model::{
    Type, RefType, MutType, SliceType, MapType, TupleType, EnumType, StructType, TraitType, ModType, Item,
};

verus! {

impl Type {
    /// Whether `len` is defined for this type.
    pub open spec fn has_len(&self) -> bool {
        match self {
            Type::Enum(_) | Type::Struct(_) | Type::Tuple(_) | Type::Trait(_) | Type::Mod(_) => true,
            Type::Slice(s) => s.capacity is Some,
            _ => false,
        }
    }

    /// The number of variants, fields, elements, methods or items.
    pub open spec fn spec_len(&self) -> int {
        match self {
            Type::Enum(e) => e.variants@.len() as int,
            Type::Slice(s) => s.capacity.unwrap() as int,
            Type::Struct(s) => s.fields.fields@.len() as int,
            Type::Tuple(t) => t.items@.len() as int,
            Type::Trait(t) => t.methods@.len() as int,
            Type::Mod(m) => m.items@.len() as int,
            _ => 0,
        }
    }

    /// Whether `path` and `meta` are defined for this type.
    pub open spec fn has_path(&self) -> bool
        decreases self,
    {
        match self {
            Type::Mapping(m) => m.ty.has_path(),
            Type::Struct(_) | Type::Enum(_) | Type::Trait(_) | Type::Mod(_) => true,
            _ => false,
        }
    }

    /// The declaration's path (for a map type, that of its collection type).
    pub open spec fn spec_path(&self) -> Path
        decreases self,
    {
        match self {
            Type::Mapping(m) => m.ty.spec_path(),
            Type::Struct(s) => s.path,
            Type::Enum(e) => e.path,
            Type::Trait(t) => t.path,
            Type::Mod(m) => m.path,
            _ => arbitrary(),
        }
    }

    /// The declaration's metadata (for a map type, that of its collection type).
    pub open spec fn spec_meta(&self) -> MetaData
        decreases self,
    {
        match self {
            Type::Mapping(m) => m.ty.spec_meta(),
            Type::Struct(s) => s.meta,
            Type::Enum(e) => e.meta,
            Type::Trait(t) => t.meta,
            Type::Mod(m) => m.meta,
            _ => arbitrary(),
        }
    }

    /// Whether `assignable_to` compares ids: true unless the type, after
    /// following map types to their collection type, is `any` or `void`.
    pub open spec fn needs_ids(&self) -> bool
        decreases self,
    {
        match self {
            Type::Any | Type::Void => false,
            Type::Mapping(m) => m.ty.needs_ids(),
            _ => true,
        }
    }

    /// Whether a value of this type can be assigned to a place of type `ty`:
    /// the two ids are equal; a map type answers for its collection type;
    /// `any` and `void` are assignable to nothing.
    pub open spec fn spec_assignable_to(&self, ty: Type) -> bool
        decreases self,
    {
        match self {
            Type::Any | Type::Void => false,
            Type::Mapping(m) => m.ty.spec_assignable_to(ty),
            _ => self.spec_id() == ty.spec_id(),
        }
    }

    /// Whether a value of this type can be converted to `ty`: `ty` is of the
    /// same kind (for references and slices, of the same element type); a
    /// map type answers for its collection type; `any` and `void` convert to
    /// nothing.
    pub open spec fn spec_convertable_to(&self, ty: Type) -> bool
        decreases self,
    {
        match self {
            Type::Any | Type::Void => false,
            Type::Bool(_) => ty is Bool,
            Type::Enum(_) => ty is Enum,
            Type::Number(_) => ty is Number,
            Type::Str(_) => ty is Str,
            Type::Ref(r) => ty matches Type::Ref(q) && q.0.shape() == r.0.shape(),
            Type::Slice(s) => ty matches Type::Slice(q) && q.ty.shape() == s.ty.shape(),
            Type::Struct(_) => ty is Struct,
            Type::This(_) => ty is This,
            Type::Tuple(_) => ty is Tuple,
            Type::Trait(_) => ty is Trait,
            Type::Mut(_) => ty is Mut,
            Type::Mod(_) => ty is Mod,
            Type::Mapping(m) => m.ty.spec_convertable_to(ty),
        }
    }

    pub fn len(&self) -> (n: usize)
        requires
            self.has_len(),
        ensures
            n == self.spec_len(),
    {
        match self {
            Type::Enum(v) => v.variants.len(),
            Type::Slice(v) => match v.capacity {
                Some(c) => c,
                None => 0,
            },
            Type::Struct(v) => v.fields.fields.len(),
            Type::Tuple(v) => v.items.len(),
            Type::Trait(v) => v.methods.len(),
            Type::Mod(v) => v.items.len(),
            _ => 0,
        }
    }

    pub fn is_empty(&self) -> (r: bool)
        requires
            self.has_len(),
        ensures
            r == (self.spec_len() == 0),
    {
        self.len() == 0
    }

    pub fn path(&self) -> (p: &Path)
        requires
            self.has_path(),
        ensures
            *p == self.spec_path(),
        decreases self,
    {
        match self {
            Type::Mapping(v) => v.ty.path(),
            Type::Struct(v) => &v.path,
            Type::Enum(v) => &v.path,
            Type::Trait(v) => &v.path,
            Type::Mod(v) => &v.path,
            _ => {
                vstd::pervasive::unreached()
            },
        }
    }

    pub fn meta(&self) -> (m: &MetaData)
        requires
            self.has_path(),
        ensures
            *m == self.spec_meta(),
        decreases self,
    {
        match self {
            Type::Mapping(v) => v.ty.meta(),
            Type::Struct(v) => &v.meta,
            Type::Enum(v) => &v.meta,
            Type::Trait(v) => &v.meta,
            Type::Mod(v) => &v.meta,
            _ => {
                vstd::pervasive::unreached()
            },
        }
    }

    pub fn to_item(&self) -> (i: Item)
        ensures
            i == Item::Type(*self),
    {
        Item::Type(self.duplicate())
    }

    pub fn is_any(&self) -> (r: bool)
        ensures
            r == (*self is Any),
    {
        matches!(self, Type::Any)
    }

    pub fn is_bool(&self) -> (r: bool)
        ensures
            r == (*self is Bool),
    {
        matches!(self, Type::Bool(_))
    }

    pub fn is_enum(&self) -> (r: bool)
        ensures
            r == (*self is Enum),
    {
        matches!(self, Type::Enum(_))
    }

    pub fn is_ref(&self) -> (r: bool)
        ensures
            r == (*self is Ref),
    {
        matches!(self, Type::Ref(_))
    }

    pub fn is_slice(&self) -> (r: bool)
        ensures
            r == (*self is Slice),
    {
        matches!(self, Type::Slice(_))
    }

    pub fn is_struct(&self) -> (r: bool)
        ensures
            r == (*self is Struct),
    {
        matches!(self, Type::Struct(_))
    }

    pub fn is_number(&self) -> (r: bool)
        ensures
            r == (*self is Number),
    {
        matches!(self, Type::Number(_))
    }

    pub fn is_str(&self) -> (r: bool)
        ensures
            r == (*self is Str),
    {
        matches!(self, Type::Str(_))
    }

    pub fn is_self(&self) -> (r: bool)
        ensures
            r == (*self is This),
    {
        matches!(self, Type::This(_))
    }

    pub fn is_tuple(&self) -> (r: bool)
        ensures
            r == (*self is Tuple),
    {
        matches!(self, Type::Tuple(_))
    }

    pub fn is_trait(&self) -> (r: bool)
        ensures
            r == (*self is Trait),
    {
        matches!(self, Type::Trait(_))
    }

    pub fn is_mut(&self) -> (r: bool)
        ensures
            r == (*self is Mut),
    {
        matches!(self, Type::Mut(_))
    }

    pub fn is_mod(&self) -> (r: bool)
        ensures
            r == (*self is Mod),
    {
        matches!(self, Type::Mod(_))
    }

    pub fn is_map(&self) -> (r: bool)
        ensures
            r == (*self is Mapping),
    {
        matches!(self, Type::Mapping(_))
    }

    pub fn is_void(&self) -> (r: bool)
        ensures
            r == (*self is Void),
    {
        matches!(self, Type::Void)
    }

    /// Whether this is `&ty`.
    pub fn is_ref_of(&self, ty: Type) -> (r: bool)
        ensures
            r == (*self matches Type::Ref(v) && ty.shape() == v.0.shape()),
    {
        match self {
            Type::Ref(v) => v.is_ref_of(ty),
            _ => false,
        }
    }

    /// Whether this is `&Self`.
    pub fn is_ref_self(&self) -> (r: bool)
        ensures
            r == (*self matches Type::Ref(v) && *v.0 is This),
    {
        match self {
            Type::Ref(v) => v.ty().is_self(),
            _ => false,
        }
    }

    /// Whether this is `&mut T`.
    pub fn is_ref_mut(&self) -> (r: bool)
        ensures
            r == (*self matches Type::Ref(v) && *v.0 is Mut),
    {
        match self {
            Type::Ref(v) => v.ty().is_mut(),
            _ => false,
        }
    }

    /// Whether this is `&mut Self`.
    pub fn is_ref_mut_self(&self) -> (r: bool)
        ensures
            r == (*self matches Type::Ref(v) && (*v.0 matches Type::Mut(m) && *m.0 is This)),
    {
        match self {
            Type::Ref(v) => v.ty().is_mut_self(),
            _ => false,
        }
    }

    /// Whether this is a slice of `ty`.
    pub fn is_slice_of(&self, ty: Type) -> (r: bool)
        ensures
            r == (*self matches Type::Slice(v) && ty.shape() == v.ty.shape()),
    {
        match self {
            Type::Slice(v) => v.is_slice_of(ty),
            _ => false,
        }
    }

    pub fn is_int(&self) -> (r: bool)
        ensures
            r == (*self matches Type::Number(n) && n is Int),
    {
        match self {
            Type::Number(v) => v.is_int(),
            _ => false,
        }
    }

    pub fn is_float(&self) -> (r: bool)
        ensures
            r == (*self matches Type::Number(n) && n is Float),
    {
        match self {
            Type::Number(v) => v.is_float(),
            _ => false,
        }
    }

    /// Whether this is a signed integer type.
    pub fn is_signed(&self) -> (r: bool)
        ensures
            r == (*self matches Type::Number(n) && (n matches NumberType::Int(i) && i.spec_is_signed())),
    {
        match self {
            Type::Number(v) => v.is_signed(),
            _ => false,
        }
    }

    /// Whether this is `mut ty`.
    pub fn is_mut_of(&self, ty: Type) -> (r: bool)
        ensures
            r == (*self matches Type::Mut(v) && ty.shape() == v.0.shape()),
    {
        match self {
            Type::Mut(v) => v.is_mut_of(ty),
            _ => false,
        }
    }

    /// Whether this is `mut Self`.
    pub fn is_mut_self(&self) -> (r: bool)
        ensures
            r == (*self matches Type::Mut(v) && *v.0 is This),
    {
        match self {
            Type::Mut(v) => v.ty().is_self(),
            _ => false,
        }
    }

    pub fn to_bool(&self) -> (b: BoolType)
        requires
            *self is Bool,
        ensures
            b == self->Bool_0,
    {
        match self {
            Type::Bool(v) => *v,
            _ => BoolType,
        }
    }

    pub fn as_bool(&self) -> (b: &BoolType)
        requires
            *self is Bool,
        ensures
            *b == self->Bool_0,
    {
        match self {
            Type::Bool(v) => v,
            _ => &BoolType,
        }
    }

    pub fn to_number(&self) -> (n: NumberType)
        requires
            *self is Number,
        ensures
            n == self->Number_0,
    {
        match self {
            Type::Number(v) => *v,
            _ => NumberType::Int(IntType::I8),
        }
    }

    pub fn as_number(&self) -> (n: &NumberType)
        requires
            *self is Number,
        ensures
            *n == self->Number_0,
    {
        match self {
            Type::Number(v) => v,
            _ => {
                vstd::pervasive::unreached()
            },
        }
    }

    pub fn to_int(&self) -> (i: IntType)
        requires
            *self matches Type::Number(n) && n is Int,
        ensures
            i == self->Number_0->Int_0,
    {
        match self {
            Type::Number(v) => v.to_int(),
            _ => IntType::I8,
        }
    }

    pub fn as_int(&self) -> (i: &IntType)
        requires
            *self matches Type::Number(n) && n is Int,
        ensures
            *i == self->Number_0->Int_0,
    {
        match self {
            Type::Number(v) => v.as_int(),
            _ => {
                vstd::pervasive::unreached()
            },
        }
    }

    pub fn to_float(&self) -> (f: FloatType)
        requires
            *self matches Type::Number(n) && n is Float,
        ensures
            f == self->Number_0->Float_0,
    {
        match self {
            Type::Number(v) => v.to_float(),
            _ => FloatType::F32,
        }
    }

    pub fn as_float(&self) -> (f: &FloatType)
        requires
            *self matches Type::Number(n) && n is Float,
        ensures
            *f == self->Number_0->Float_0,
    {
        match self {
            Type::Number(v) => v.as_float(),
            _ => {
                vstd::pervasive::unreached()
            },
        }
    }

    pub fn to_str(&self) -> (s: StrType)
        requires
            *self is Str,
        ensures
            s == self->Str_0,
    {
        match self {
            Type::Str(v) => *v,
            _ => StrType,
        }
    }

    pub fn as_str(&self) -> (s: &StrType)
        requires
            *self is Str,
        ensures
            *s == self->Str_0,
    {
        match self {
            Type::Str(v) => v,
            _ => &StrType,
        }
    }

    pub fn to_self(&self) -> (t: ThisType)
        requires
            *self is This,
        ensures
            t == self->This_0,
    {
        match self {
            Type::This(v) => *v,
            _ => ThisType,
        }
    }

    pub fn as_self(&self) -> (t: &ThisType)
        requires
            *self is This,
        ensures
            *t == self->This_0,
    {
        match self {
            Type::This(v) => v,
            _ => &ThisType,
        }
    }

    pub fn to_enum(&self) -> (v: EnumType)
        requires
            *self is Enum,
        ensures
            v.shape() == self->Enum_0.shape(),
    {
        match self {
            Type::Enum(v) => v.duplicate(),
            _ => {
                vstd::pervasive::unreached()
            },
        }
    }

    pub fn as_enum(&self) -> (v: &EnumType)
        requires
            *self is Enum,
        ensures
            *v == *self->Enum_0,
    {
        match self {
            Type::Enum(v) => &**v,
            _ => {
                vstd::pervasive::unreached()
            },
        }
    }

    pub fn to_struct(&self) -> (v: StructType)
        requires
            *self is Struct,
        ensures
            v.shape() == self->Struct_0.shape(),
    {
        match self {
            Type::Struct(v) => v.duplicate(),
            _ => {
                vstd::pervasive::unreached()
            },
        }
    }

    pub fn as_struct(&self) -> (v: &StructType)
        requires
            *self is Struct,
        ensures
            *v == *self->Struct_0,
    {
        match self {
            Type::Struct(v) => &**v,
            _ => {
                vstd::pervasive::unreached()
            },
        }
    }

    pub fn to_tuple(&self) -> (v: TupleType)
        requires
            *self is Tuple,
        ensures
            v.shape() == self->Tuple_0.shape(),
    {
        match self {
            Type::Tuple(v) => v.duplicate(),
            _ => {
                vstd::pervasive::unreached()
            },
        }
    }

    pub fn as_tuple(&self) -> (v: &TupleType)
        requires
            *self is Tuple,
        ensures
            *v == *self->Tuple_0,
    {
        match self {
            Type::Tuple(v) => &**v,
            _ => {
                vstd::pervasive::unreached()
            },
        }
    }

    pub fn to_trait(&self) -> (v: TraitType)
        requires
            *self is Trait,
        ensures
            v.shape() == self->Trait_0.shape(),
    {
        match self {
            Type::Trait(v) => v.duplicate(),
            _ => {
                vstd::pervasive::unreached()
            },
        }
    }

    pub fn as_trait(&self) -> (v: &TraitType)
        requires
            *self is Trait,
        ensures
            *v == *self->Trait_0,
    {
        match self {
            Type::Trait(v) => &**v,
            _ => {
                vstd::pervasive::unreached()
            },
        }
    }

    pub fn to_mod(&self) -> (v: ModType)
        requires
            *self is Mod,
        ensures
            v.shape() == self->Mod_0.shape(),
    {
        match self {
            Type::Mod(v) => v.duplicate(),
            _ => {
                vstd::pervasive::unreached()
            },
        }
    }

    pub fn as_mod(&self) -> (v: &ModType)
        requires
            *self is Mod,
        ensures
            *v == *self->Mod_0,
    {
        match self {
            Type::Mod(v) => &**v,
            _ => {
                vstd::pervasive::unreached()
            },
        }
    }

    pub fn to_map(&self) -> (v: MapType)
        requires
            *self is Mapping,
        ensures
            v == *self->Mapping_0,
    {
        match self {
            Type::Mapping(v) => v.duplicate(),
            _ => {
                vstd::pervasive::unreached()
            },
        }
    }

    pub fn as_map(&self) -> (v: &MapType)
        requires
            *self is Mapping,
        ensures
            *v == *self->Mapping_0,
    {
        match self {
            Type::Mapping(v) => &**v,
            _ => {
                vstd::pervasive::unreached()
            },
        }
    }

    pub fn to_ref(&self) -> (v: RefType)
        requires
            *self is Ref,
        ensures
            v == self->Ref_0,
    {
        match self {
            Type::Ref(v) => v.duplicate(),
            _ => {
                vstd::pervasive::unreached()
            },
        }
    }

    pub fn as_ref(&self) -> (v: &RefType)
        requires
            *self is Ref,
        ensures
            *v == self->Ref_0,
    {
        match self {
            Type::Ref(v) => v,
            _ => {
                vstd::pervasive::unreached()
            },
        }
    }

    pub fn to_slice(&self) -> (v: SliceType)
        requires
            *self is Slice,
        ensures
            v == self->Slice_0,
    {
        match self {
            Type::Slice(v) => v.duplicate(),
            _ => {
                vstd::pervasive::unreached()
            },
        }
    }

    pub fn as_slice(&self) -> (v: &SliceType)
        requires
            *self is Slice,
        ensures
            *v == self->Slice_0,
    {
        match self {
            Type::Slice(v) => v,
            _ => {
                vstd::pervasive::unreached()
            },
        }
    }

    pub fn to_mut(&self) -> (v: MutType)
        requires
            *self is Mut,
        ensures
            v == self->Mut_0,
    {
        match self {
            Type::Mut(v) => v.duplicate(),
            _ => {
                vstd::pervasive::unreached()
            },
        }
    }

    pub fn as_mut(&self) -> (v: &MutType)
        requires
            *self is Mut,
        ensures
            *v == self->Mut_0,
    {
        match self {
            Type::Mut(v) => v,
            _ => {
                vstd::pervasive::unreached()
            },
        }
    }

    /// See `spec_assignable_to`.
    pub fn assignable_to(&self, ty: Type) -> (r: bool)
        requires
            self.needs_ids() ==> self.id_ok() && ty.id_ok(),
        ensures
            r == self.spec_assignable_to(ty),
            !(*self is Any) && !(*self is Void) && !(*self is Mapping) ==> (r <==> self.spec_id() == ty.spec_id()),
        decreases self,
    {
        match self {
            Type::Any | Type::Void => false,
            Type::Mapping(m) => m.ty.assignable_to(ty),
            _ => {
                let a = self.id();
                let b = ty.id();
                a == b
            },
        }
    }

    /// See `spec_convertable_to`.
    pub fn convertable_to(&self, ty: Type) -> (r: bool)
        ensures
            r == self.spec_convertable_to(ty),
        decreases self,
    {
        match self {
            Type::Any | Type::Void => false,
            Type::Bool(_) => ty.is_bool(),
            Type::Enum(_) => ty.is_enum(),
            Type::Number(_) => ty.is_number(),
            Type::Str(_) => ty.is_str(),
            Type::Ref(v) => v.convertable_to(ty),
            Type::Slice(v) => v.convertable_to(ty),
            Type::Struct(_) => ty.is_struct(),
            Type::This(_) => ty.is_self(),
            Type::Tuple(_) => ty.is_tuple(),
            Type::Trait(_) => ty.is_trait(),
            Type::Mut(_) => ty.is_mut(),
            Type::Mod(_) => ty.is_mod(),
            Type::Mapping(m) => m.ty.convertable_to(ty),
        }
    }
}

/// A type other than `any`, `void` and a map type can be assigned and
/// converted to itself.
pub proof fn law_type_reflexive(t: Type)
    requires
        !(t is Any),
        !(t is Void),
        !(t is Mapping),
    ensures
        t.spec_assignable_to(t),
        t.spec_convertable_to(t),
{
}

} // verus!
