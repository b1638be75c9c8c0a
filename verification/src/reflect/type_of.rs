//! Describing Rust types: `TypeOf` for a type, `ToType` for a value.

use vstd::prelude::*;
use std::rc::Rc;
use crate::reflect::shape::{Shape, opt_num_shape};
use crate::reflect::path::{Path, parse_path};
use crate::reflect::leaf::{
    Visibility, Public, MetaData, NumberType, IntType, BoolType, StrType, Layout, lemma_empty_meta_shape,
};
use crate::reflect::model::{
    Type, RefType, MutType, SliceType, MapType, TupleType, EnumType, StructType, Generics, Generic,
    TypeParam, Fields, type_shapes, generic_shapes, variant_shapes, field_shapes, lemma_type_shape,
    lemma_type_shapes,
};

verus! {

/// Types that can describe themselves.
pub trait TypeOf {
    /// The shape of the type that `type_of` describes.
    spec fn type_shape() -> Shape;

    fn type_of() -> (t: Type)
        ensures
            t.shape() == Self::type_shape(),
    ;
}

/// Values that can describe their type.
pub trait ToType {
    /// The shape of the type that `to_type` describes.
    spec fn to_type_shape(&self) -> Shape;

    fn to_type(&self) -> (t: Type)
        ensures
            t.shape() == self.to_type_shape(),
    ;
}

/// Values that can be copied into a box.
pub trait ToBox<T> {
    fn to_box(&self) -> Box<T>;
}

impl<T: Clone> ToBox<T> for T {
    fn to_box(&self) -> (b: Box<T>)
        ensures
            cloned::<T>(*self, *b),
    {
        Box::new(self.clone())
    }
}

/// The shape of a path written as `s`.
pub open spec fn path_shape(s: Seq<char>) -> Shape {
    Shape::Node(0, parse_path(s).map_values(|p: Seq<char>| Shape::Text(p)))
}

/// The shape of a generic type parameter named `name`, without bounds or
/// default.
pub open spec fn plain_param_shape(name: Seq<char>) -> Shape {
    Shape::Node(2, seq![Shape::Node(0, seq![Shape::Text(name), Shape::Node(0, Seq::empty()), Shape::Node(0, Seq::empty())])])
}

/// The shape of `Option<T>`: a public enum `core::option::Option` with one
/// parameter `T` and no variants listed.
pub open spec fn option_shape() -> Shape {
    Shape::Node(2, seq![Shape::Node(0, seq![
        path_shape("core::option"@),
        Shape::Node(0, Seq::empty()),
        Shape::Num(Visibility::Public(Public::Full).code()),
        Shape::Text("Option"@),
        Shape::Node(0, seq![Shape::Node(0, seq![plain_param_shape("T"@)])]),
        Shape::Node(0, Seq::empty()),
    ])])
}

/// The shape of the collection type of a map: a public struct
/// `std::collections::<name>` with parameters `K` and `V` and no fields.
pub open spec fn collection_shape(name: Seq<char>) -> Shape {
    Shape::Node(8, seq![Shape::Node(0, seq![
        path_shape("std::collections"@),
        Shape::Node(0, Seq::empty()),
        Shape::Num(Visibility::Public(Public::Full).code()),
        Shape::Text(name),
        Shape::Node(0, seq![Shape::Node(0, seq![plain_param_shape("K"@), plain_param_shape("V"@)])]),
        Shape::Node(0, seq![Shape::Num(Layout::Unit.code()), Shape::Node(0, Seq::empty())]),
    ])])
}

/// The shape of a map type: its collection type, key type and value type.
pub open spec fn map_shape(name: Seq<char>, key: Shape, value: Shape) -> Shape {
    Shape::Node(7, seq![Shape::Node(0, seq![collection_shape(name), key, value])])
}

/// The shape of a reference to a type of shape `inner`.
pub open spec fn ref_shape(inner: Shape) -> Shape {
    Shape::Node(5, seq![Shape::Node(0, seq![inner])])
}

/// The shape of `mut` applied to a type of shape `inner`.
pub open spec fn mut_shape(inner: Shape) -> Shape {
    Shape::Node(12, seq![Shape::Node(0, seq![inner])])
}

/// The shape of a slice of `elem`, with an optional fixed length.
pub open spec fn slice_shape(elem: Shape, capacity: Option<usize>) -> Shape {
    Shape::Node(6, seq![Shape::Node(0, seq![elem, opt_num_shape(capacity)])])
}

/// The shape of a tuple of the given element shapes.
pub open spec fn tuple_shape(items: Seq<Shape>) -> Shape {
    Shape::Node(10, seq![Shape::Node(0, seq![Shape::Node(0, items)])])
}

impl TypeOf for bool {
    open spec fn type_shape() -> Shape {
        Type::Bool(BoolType).shape()
    }

    fn type_of() -> (t: Type)
        ensures
            t == Type::Bool(BoolType),
    {
        Type::Bool(BoolType)
    }
}

impl ToType for bool {
    open spec fn to_type_shape(&self) -> Shape {
        <bool as TypeOf>::type_shape()
    }

    fn to_type(&self) -> (t: Type)
        ensures
            t == Type::Bool(BoolType),
    {
        Type::Bool(BoolType)
    }
}

impl TypeOf for i8 {
    open spec fn type_shape() -> Shape {
        Type::Number(NumberType::Int(IntType::I8)).shape()
    }

    fn type_of() -> (t: Type)
        ensures
            t == Type::Number(NumberType::Int(IntType::I8)),
    {
        Type::Number(NumberType::Int(IntType::I8))
    }
}

impl ToType for i8 {
    open spec fn to_type_shape(&self) -> Shape {
        <i8 as TypeOf>::type_shape()
    }

    fn to_type(&self) -> (t: Type)
        ensures
            t == Type::Number(NumberType::Int(IntType::I8)),
    {
        Type::Number(NumberType::Int(IntType::I8))
    }
}

impl TypeOf for i16 {
    open spec fn type_shape() -> Shape {
        Type::Number(NumberType::Int(IntType::I16)).shape()
    }

    fn type_of() -> (t: Type)
        ensures
            t == Type::Number(NumberType::Int(IntType::I16)),
    {
        Type::Number(NumberType::Int(IntType::I16))
    }
}

impl ToType for i16 {
    open spec fn to_type_shape(&self) -> Shape {
        <i16 as TypeOf>::type_shape()
    }

    fn to_type(&self) -> (t: Type)
        ensures
            t == Type::Number(NumberType::Int(IntType::I16)),
    {
        Type::Number(NumberType::Int(IntType::I16))
    }
}

impl TypeOf for i32 {
    open spec fn type_shape() -> Shape {
        Type::Number(NumberType::Int(IntType::I32)).shape()
    }

    fn type_of() -> (t: Type)
        ensures
            t == Type::Number(NumberType::Int(IntType::I32)),
    {
        Type::Number(NumberType::Int(IntType::I32))
    }
}

impl ToType for i32 {
    open spec fn to_type_shape(&self) -> Shape {
        <i32 as TypeOf>::type_shape()
    }

    fn to_type(&self) -> (t: Type)
        ensures
            t == Type::Number(NumberType::Int(IntType::I32)),
    {
        Type::Number(NumberType::Int(IntType::I32))
    }
}

impl TypeOf for i64 {
    open spec fn type_shape() -> Shape {
        Type::Number(NumberType::Int(IntType::I64)).shape()
    }

    fn type_of() -> (t: Type)
        ensures
            t == Type::Number(NumberType::Int(IntType::I64)),
    {
        Type::Number(NumberType::Int(IntType::I64))
    }
}

impl ToType for i64 {
    open spec fn to_type_shape(&self) -> Shape {
        <i64 as TypeOf>::type_shape()
    }

    fn to_type(&self) -> (t: Type)
        ensures
            t == Type::Number(NumberType::Int(IntType::I64)),
    {
        Type::Number(NumberType::Int(IntType::I64))
    }
}

impl TypeOf for i128 {
    open spec fn type_shape() -> Shape {
        Type::Number(NumberType::Int(IntType::I128)).shape()
    }

    fn type_of() -> (t: Type)
        ensures
            t == Type::Number(NumberType::Int(IntType::I128)),
    {
        Type::Number(NumberType::Int(IntType::I128))
    }
}

impl ToType for i128 {
    open spec fn to_type_shape(&self) -> Shape {
        <i128 as TypeOf>::type_shape()
    }

    fn to_type(&self) -> (t: Type)
        ensures
            t == Type::Number(NumberType::Int(IntType::I128)),
    {
        Type::Number(NumberType::Int(IntType::I128))
    }
}

impl TypeOf for isize {
    open spec fn type_shape() -> Shape {
        Type::Number(NumberType::Int(IntType::Isize)).shape()
    }

    fn type_of() -> (t: Type)
        ensures
            t == Type::Number(NumberType::Int(IntType::Isize)),
    {
        Type::Number(NumberType::Int(IntType::Isize))
    }
}

impl ToType for isize {
    open spec fn to_type_shape(&self) -> Shape {
        <isize as TypeOf>::type_shape()
    }

    fn to_type(&self) -> (t: Type)
        ensures
            t == Type::Number(NumberType::Int(IntType::Isize)),
    {
        Type::Number(NumberType::Int(IntType::Isize))
    }
}

impl TypeOf for u8 {
    open spec fn type_shape() -> Shape {
        Type::Number(NumberType::Int(IntType::U8)).shape()
    }

    fn type_of() -> (t: Type)
        ensures
            t == Type::Number(NumberType::Int(IntType::U8)),
    {
        Type::Number(NumberType::Int(IntType::U8))
    }
}

impl ToType for u8 {
    open spec fn to_type_shape(&self) -> Shape {
        <u8 as TypeOf>::type_shape()
    }

    fn to_type(&self) -> (t: Type)
        ensures
            t == Type::Number(NumberType::Int(IntType::U8)),
    {
        Type::Number(NumberType::Int(IntType::U8))
    }
}

impl TypeOf for u16 {
    open spec fn type_shape() -> Shape {
        Type::Number(NumberType::Int(IntType::U16)).shape()
    }

    fn type_of() -> (t: Type)
        ensures
            t == Type::Number(NumberType::Int(IntType::U16)),
    {
        Type::Number(NumberType::Int(IntType::U16))
    }
}

impl ToType for u16 {
    open spec fn to_type_shape(&self) -> Shape {
        <u16 as TypeOf>::type_shape()
    }

    fn to_type(&self) -> (t: Type)
        ensures
            t == Type::Number(NumberType::Int(IntType::U16)),
    {
        Type::Number(NumberType::Int(IntType::U16))
    }
}

impl TypeOf for u32 {
    open spec fn type_shape() -> Shape {
        Type::Number(NumberType::Int(IntType::U32)).shape()
    }

    fn type_of() -> (t: Type)
        ensures
            t == Type::Number(NumberType::Int(IntType::U32)),
    {
        Type::Number(NumberType::Int(IntType::U32))
    }
}

impl ToType for u32 {
    open spec fn to_type_shape(&self) -> Shape {
        <u32 as TypeOf>::type_shape()
    }

    fn to_type(&self) -> (t: Type)
        ensures
            t == Type::Number(NumberType::Int(IntType::U32)),
    {
        Type::Number(NumberType::Int(IntType::U32))
    }
}

impl TypeOf for u64 {
    open spec fn type_shape() -> Shape {
        Type::Number(NumberType::Int(IntType::U64)).shape()
    }

    fn type_of() -> (t: Type)
        ensures
            t == Type::Number(NumberType::Int(IntType::U64)),
    {
        Type::Number(NumberType::Int(IntType::U64))
    }
}

impl ToType for u64 {
    open spec fn to_type_shape(&self) -> Shape {
        <u64 as TypeOf>::type_shape()
    }

    fn to_type(&self) -> (t: Type)
        ensures
            t == Type::Number(NumberType::Int(IntType::U64)),
    {
        Type::Number(NumberType::Int(IntType::U64))
    }
}

impl TypeOf for u128 {
    open spec fn type_shape() -> Shape {
        Type::Number(NumberType::Int(IntType::U128)).shape()
    }

    fn type_of() -> (t: Type)
        ensures
            t == Type::Number(NumberType::Int(IntType::U128)),
    {
        Type::Number(NumberType::Int(IntType::U128))
    }
}

impl ToType for u128 {
    open spec fn to_type_shape(&self) -> Shape {
        <u128 as TypeOf>::type_shape()
    }

    fn to_type(&self) -> (t: Type)
        ensures
            t == Type::Number(NumberType::Int(IntType::U128)),
    {
        Type::Number(NumberType::Int(IntType::U128))
    }
}

impl TypeOf for usize {
    open spec fn type_shape() -> Shape {
        Type::Number(NumberType::Int(IntType::Usize)).shape()
    }

    fn type_of() -> (t: Type)
        ensures
            t == Type::Number(NumberType::Int(IntType::Usize)),
    {
        Type::Number(NumberType::Int(IntType::Usize))
    }
}

impl ToType for usize {
    open spec fn to_type_shape(&self) -> Shape {
        <usize as TypeOf>::type_shape()
    }

    fn to_type(&self) -> (t: Type)
        ensures
            t == Type::Number(NumberType::Int(IntType::Usize)),
    {
        Type::Number(NumberType::Int(IntType::Usize))
    }
}

impl TypeOf for String {
    open spec fn type_shape() -> Shape {
        Type::Str(StrType).shape()
    }

    fn type_of() -> (t: Type)
        ensures
            t == Type::Str(StrType),
    {
        Type::Str(StrType)
    }
}

impl ToType for String {
    open spec fn to_type_shape(&self) -> Shape {
        <String as TypeOf>::type_shape()
    }

    fn to_type(&self) -> (t: Type)
        ensures
            t == Type::Str(StrType),
    {
        Type::Str(StrType)
    }
}

impl TypeOf for str {
    open spec fn type_shape() -> Shape {
        Type::Str(StrType).shape()
    }

    fn type_of() -> (t: Type)
        ensures
            t == Type::Str(StrType),
    {
        Type::Str(StrType)
    }
}

impl<T: TypeOf> TypeOf for &T {
    open spec fn type_shape() -> Shape {
        ref_shape(T::type_shape())
    }

    fn type_of() -> (t: Type)
        ensures
            t matches Type::Ref(r) && r.0.shape() == T::type_shape(),
    {
        let t = RefType::new(T::type_of()).to_type();
        proof {
            lemma_type_shape(&t);
        }
        t
    }
}

impl<T: TypeOf> ToType for &T {
    open spec fn to_type_shape(&self) -> Shape {
        <Self as TypeOf>::type_shape()
    }

    fn to_type(&self) -> (t: Type)
        ensures
            t matches Type::Ref(r) && r.0.shape() == T::type_shape(),
    {
        <Self as TypeOf>::type_of()
    }
}

impl<T: TypeOf> TypeOf for &mut T {
    open spec fn type_shape() -> Shape {
        mut_shape(T::type_shape())
    }

    fn type_of() -> (t: Type)
        ensures
            t matches Type::Mut(m) && m.0.shape() == T::type_shape(),
    {
        let t = MutType::new(T::type_of()).to_type();
        proof {
            lemma_type_shape(&t);
        }
        t
    }
}

impl<T: TypeOf> ToType for &mut T {
    open spec fn to_type_shape(&self) -> Shape {
        <Self as TypeOf>::type_shape()
    }

    fn to_type(&self) -> (t: Type)
        ensures
            t matches Type::Mut(m) && m.0.shape() == T::type_shape(),
    {
        <Self as TypeOf>::type_of()
    }
}

/// A slice of the type `T` describes, with an optional fixed length.
fn slice_of<T: TypeOf>(capacity: Option<usize>) -> (t: Type)
    ensures
        t matches Type::Slice(s) && s.ty.shape() == T::type_shape() && s.capacity == capacity,
        t.shape() == slice_shape(T::type_shape(), capacity),
{
    let t = Type::Slice(SliceType { ty: Rc::new(T::type_of()), capacity });
    proof {
        lemma_type_shape(&t);
    }
    t
}

impl<T: TypeOf> TypeOf for Vec<T> {
    open spec fn type_shape() -> Shape {
        slice_shape(T::type_shape(), None)
    }

    fn type_of() -> (t: Type)
        ensures
            t matches Type::Slice(s) && s.ty.shape() == T::type_shape() && s.capacity is None,
    {
        slice_of::<T>(None)
    }
}

impl<T: TypeOf> ToType for Vec<T> {
    open spec fn to_type_shape(&self) -> Shape {
        <Self as TypeOf>::type_shape()
    }

    fn to_type(&self) -> (t: Type)
        ensures
            t matches Type::Slice(s) && s.ty.shape() == T::type_shape() && s.capacity is None,
    {
        <Self as TypeOf>::type_of()
    }
}

impl<T: TypeOf, const N: usize> TypeOf for [T; N] {
    open spec fn type_shape() -> Shape {
        slice_shape(T::type_shape(), Some(N))
    }

    fn type_of() -> (t: Type)
        ensures
            t matches Type::Slice(s) && s.ty.shape() == T::type_shape() && s.capacity == Some(N),
    {
        slice_of::<T>(Some(N))
    }
}

impl<T: TypeOf, const N: usize> ToType for [T; N] {
    open spec fn to_type_shape(&self) -> Shape {
        <Self as TypeOf>::type_shape()
    }

    fn to_type(&self) -> (t: Type)
        ensures
            t matches Type::Slice(s) && s.ty.shape() == T::type_shape() && s.capacity == Some(N),
    {
        <Self as TypeOf>::type_of()
    }
}

impl<T: TypeOf> TypeOf for [T] {
    open spec fn type_shape() -> Shape {
        slice_shape(T::type_shape(), None)
    }

    fn type_of() -> (t: Type)
        ensures
            t matches Type::Slice(s) && s.ty.shape() == T::type_shape() && s.capacity is None,
    {
        slice_of::<T>(None)
    }
}

/// A generic type parameter named `name`, without bounds or default.
fn plain_param(name: &str) -> (g: Generic)
    ensures
        g matches Generic::Type(p) && p.name@ == name@ && p.default is None && p.bounds@.len() == 0,
        g.shape() == plain_param_shape(name@),
{
    let g = Generic::Type(TypeParam { name: String::from_str(name), default: None, bounds: Vec::new() });
    assert(g.shape() =~= plain_param_shape(name@));
    g
}

/// `Option<T>`: a public enum `core::option::Option` with one parameter `T`.
pub fn option_type() -> (t: Type)
    ensures
        t matches Type::Enum(e) && e.path@ == parse_path("core::option"@) && e.name@ == "Option"@
            && e.vis == Visibility::Public(Public::Full) && e.generics.0@.len() == 1 && e.variants@.len() == 0,
        t.shape() == option_shape(),
{
    proof {
        reveal_strlit("T");
        reveal_strlit("core::option");
        reveal_strlit("Option");
    }
    let mut params: Vec<Generic> = Vec::new();
    params.push(plain_param("T"));
    let e = EnumType {
        path: Path::parse("core::option"),
        meta: MetaData::new(),
        vis: Visibility::Public(Public::Full),
        name: String::from_str("Option"),
        generics: Generics(params),
        variants: Vec::new(),
    };
    let t = Type::Enum(Rc::new(e));
    proof {
        lemma_type_shape(&t);
        lemma_empty_meta_shape(&e.meta);
        assert(generic_shapes(e.generics.0@) =~= seq![plain_param_shape("T"@)]) by {
            assert(e.generics.0@.drop_last() =~= Seq::<Generic>::empty());
        }
        assert(e.generics.shape() =~= Shape::Node(0, seq![Shape::Node(0, seq![plain_param_shape("T"@)])]));
        assert(variant_shapes(e.variants@) =~= Seq::<Shape>::empty());
        assert(e.shape() =~= option_shape()->Node_1[0]);
    }
    t
}

impl<T> TypeOf for Option<T> {
    open spec fn type_shape() -> Shape {
        option_shape()
    }

    fn type_of() -> (t: Type)
        ensures
            t is Enum,
    {
        option_type()
    }
}

impl<T> ToType for Option<T> {
    open spec fn to_type_shape(&self) -> Shape {
        option_shape()
    }

    fn to_type(&self) -> (t: Type)
        ensures
            t is Enum,
    {
        option_type()
    }
}

/// A public struct `std::collections::<name><K, V>` without fields, used as
/// the collection type of a map.
fn collection_type(name: &str) -> (t: Type)
    ensures
        t matches Type::Struct(s) && s.path@ == parse_path("std::collections"@) && s.name@ == name@
            && s.vis == Visibility::Public(Public::Full) && s.generics.0@.len() == 2,
        t.shape() == collection_shape(name@),
{
    proof {
        reveal_strlit("K");
        reveal_strlit("V");
        reveal_strlit("std::collections");
    }
    let mut params: Vec<Generic> = Vec::new();
    params.push(plain_param("K"));
    params.push(plain_param("V"));
    let s = StructType {
        path: Path::parse("std::collections"),
        meta: MetaData::new(),
        vis: Visibility::Public(Public::Full),
        name: String::from_str(name),
        generics: Generics(params),
        fields: Fields { layout: Layout::Unit, fields: Vec::new() },
    };
    let t = Type::Struct(Rc::new(s));
    proof {
        lemma_type_shape(&t);
        lemma_empty_meta_shape(&s.meta);
        assert(generic_shapes(s.generics.0@) =~= seq![plain_param_shape("K"@), plain_param_shape("V"@)]) by {
            assert(s.generics.0@.drop_last() =~= seq![s.generics.0@[0]]);
            assert(s.generics.0@.drop_last().drop_last() =~= Seq::<Generic>::empty());
        }
        assert(s.generics.shape() =~= Shape::Node(0, seq![Shape::Node(0, seq![plain_param_shape("K"@), plain_param_shape("V"@)])]));
        assert(field_shapes(s.fields.fields@) =~= Seq::<Shape>::empty());
        assert(s.fields.shape() =~= Shape::Node(0, seq![Shape::Num(Layout::Unit.code()), Shape::Node(0, Seq::empty())]));
        assert(s.shape() =~= collection_shape(name@)->Node_1[0]);
    }
    t
}

/// The map type whose collection type is `std::collections::<name>`.
fn map_of<K: TypeOf, V: TypeOf>(name: &str) -> (t: Type)
    ensures
        t matches Type::Mapping(m) && (*m.ty matches Type::Struct(s) && s.name@ == name@)
            && m.key.shape() == K::type_shape() && m.value.shape() == V::type_shape(),
        t.shape() == map_shape(name@, K::type_shape(), V::type_shape()),
{
    let key = K::type_of();
    let value = V::type_of();
    let ty = collection_type(name);
    let t = MapType::new(ty, key, value).to_type();
    proof {
        lemma_type_shape(&t);
    }
    t
}

impl<K: TypeOf, V: TypeOf> TypeOf for std::collections::HashMap<K, V> {
    open spec fn type_shape() -> Shape {
        map_shape("HashMap"@, K::type_shape(), V::type_shape())
    }

    fn type_of() -> (t: Type)
        ensures
            t matches Type::Mapping(m) && (*m.ty matches Type::Struct(s) && s.name@ == "HashMap"@)
                && m.key.shape() == K::type_shape() && m.value.shape() == V::type_shape(),
    {
        map_of::<K, V>("HashMap")
    }
}

impl<K: TypeOf, V: TypeOf> ToType for std::collections::HashMap<K, V> {
    open spec fn to_type_shape(&self) -> Shape {
        <Self as TypeOf>::type_shape()
    }

    fn to_type(&self) -> (t: Type)
        ensures
            t is Mapping,
    {
        <Self as TypeOf>::type_of()
    }
}

impl<K: TypeOf, V: TypeOf> TypeOf for std::collections::BTreeMap<K, V> {
    open spec fn type_shape() -> Shape {
        map_shape("BTreeMap"@, K::type_shape(), V::type_shape())
    }

    fn type_of() -> (t: Type)
        ensures
            t matches Type::Mapping(m) && (*m.ty matches Type::Struct(s) && s.name@ == "BTreeMap"@)
                && m.key.shape() == K::type_shape() && m.value.shape() == V::type_shape(),
    {
        map_of::<K, V>("BTreeMap")
    }
}

impl<K: TypeOf, V: TypeOf> ToType for std::collections::BTreeMap<K, V> {
    open spec fn to_type_shape(&self) -> Shape {
        <Self as TypeOf>::type_shape()
    }

    fn to_type(&self) -> (t: Type)
        ensures
            t is Mapping,
    {
        <Self as TypeOf>::type_of()
    }
}

/// The tuple of the given element types.
fn tuple_of(items: Vec<Type>) -> (t: Type)
    ensures
        t matches Type::Tuple(u) && u.items@ == items@,
        t.shape() == tuple_shape(type_shapes(items@)),
{
    let t = Type::Tuple(Rc::new(TupleType::new(items)));
    proof {
        lemma_type_shape(&t);
    }
    t
}

impl<A: TypeOf, B: TypeOf> TypeOf for (A, B) {
    open spec fn type_shape() -> Shape {
        tuple_shape(seq![A::type_shape(), B::type_shape()])
    }

    fn type_of() -> (t: Type)
        ensures
            t matches Type::Tuple(u) && u.items@.len() == 2 && u.items@[0].shape() == A::type_shape() && u.items@[1].shape() == B::type_shape(),
    {
        let mut items: Vec<Type> = Vec::new();
        items.push(A::type_of());
        items.push(B::type_of());
        proof {
            lemma_type_shapes(items@);
            assert(type_shapes(items@) =~= seq![A::type_shape(), B::type_shape()]);
        }
        tuple_of(items)
    }
}

impl<A: ToType, B: ToType> ToType for (A, B) {
    open spec fn to_type_shape(&self) -> Shape {
        tuple_shape(seq![self.0.to_type_shape(), self.1.to_type_shape()])
    }

    fn to_type(&self) -> (t: Type)
        ensures
            t matches Type::Tuple(u) && u.items@.len() == 2 && u.items@[0].shape() == self.0.to_type_shape() && u.items@[1].shape() == self.1.to_type_shape(),
    {
        let mut items: Vec<Type> = Vec::new();
        items.push(self.0.to_type());
        items.push(self.1.to_type());
        proof {
            lemma_type_shapes(items@);
            assert(type_shapes(items@) =~= seq![self.0.to_type_shape(), self.1.to_type_shape()]);
        }
        tuple_of(items)
    }
}

impl<A: TypeOf, B: TypeOf, C: TypeOf> TypeOf for (A, B, C) {
    open spec fn type_shape() -> Shape {
        tuple_shape(seq![A::type_shape(), B::type_shape(), C::type_shape()])
    }

    fn type_of() -> (t: Type)
        ensures
            t matches Type::Tuple(u) && u.items@.len() == 3 && u.items@[0].shape() == A::type_shape() && u.items@[1].shape() == B::type_shape() && u.items@[2].shape() == C::type_shape(),
    {
        let mut items: Vec<Type> = Vec::new();
        items.push(A::type_of());
        items.push(B::type_of());
        items.push(C::type_of());
        proof {
            lemma_type_shapes(items@);
            assert(type_shapes(items@) =~= seq![A::type_shape(), B::type_shape(), C::type_shape()]);
        }
        tuple_of(items)
    }
}

impl<A: TypeOf, B: TypeOf, C: TypeOf> ToType for (A, B, C) {
    open spec fn to_type_shape(&self) -> Shape {
        <Self as TypeOf>::type_shape()
    }

    fn to_type(&self) -> (t: Type)
        ensures
            t matches Type::Tuple(u) && u.items@.len() == 3 && u.items@[0].shape() == A::type_shape() && u.items@[1].shape() == B::type_shape() && u.items@[2].shape() == C::type_shape(),
    {
        <Self as TypeOf>::type_of()
    }
}

impl<A: TypeOf, B: TypeOf, C: TypeOf, D: TypeOf> TypeOf for (A, B, C, D) {
    open spec fn type_shape() -> Shape {
        tuple_shape(seq![A::type_shape(), B::type_shape(), C::type_shape(), D::type_shape()])
    }

    fn type_of() -> (t: Type)
        ensures
            t matches Type::Tuple(u) && u.items@.len() == 4 && u.items@[0].shape() == A::type_shape() && u.items@[1].shape() == B::type_shape() && u.items@[2].shape() == C::type_shape() && u.items@[3].shape() == D::type_shape(),
    {
        let mut items: Vec<Type> = Vec::new();
        items.push(A::type_of());
        items.push(B::type_of());
        items.push(C::type_of());
        items.push(D::type_of());
        proof {
            lemma_type_shapes(items@);
            assert(type_shapes(items@) =~= seq![A::type_shape(), B::type_shape(), C::type_shape(), D::type_shape()]);
        }
        tuple_of(items)
    }
}

impl<A: TypeOf, B: TypeOf, C: TypeOf, D: TypeOf> ToType for (A, B, C, D) {
    open spec fn to_type_shape(&self) -> Shape {
        <Self as TypeOf>::type_shape()
    }

    fn to_type(&self) -> (t: Type)
        ensures
            t matches Type::Tuple(u) && u.items@.len() == 4 && u.items@[0].shape() == A::type_shape() && u.items@[1].shape() == B::type_shape() && u.items@[2].shape() == C::type_shape() && u.items@[3].shape() == D::type_shape(),
    {
        <Self as TypeOf>::type_of()
    }
}

impl<A: TypeOf, B: TypeOf, C: TypeOf, D: TypeOf, E: TypeOf> TypeOf for (A, B, C, D, E) {
    open spec fn type_shape() -> Shape {
        tuple_shape(seq![A::type_shape(), B::type_shape(), C::type_shape(), D::type_shape(), E::type_shape()])
    }

    fn type_of() -> (t: Type)
        ensures
            t matches Type::Tuple(u) && u.items@.len() == 5 && u.items@[0].shape() == A::type_shape() && u.items@[1].shape() == B::type_shape() && u.items@[2].shape() == C::type_shape() && u.items@[3].shape() == D::type_shape() && u.items@[4].shape() == E::type_shape(),
    {
        let mut items: Vec<Type> = Vec::new();
        items.push(A::type_of());
        items.push(B::type_of());
        items.push(C::type_of());
        items.push(D::type_of());
        items.push(E::type_of());
        proof {
            lemma_type_shapes(items@);
            assert(type_shapes(items@) =~= seq![A::type_shape(), B::type_shape(), C::type_shape(), D::type_shape(), E::type_shape()]);
        }
        tuple_of(items)
    }
}

impl<A: TypeOf, B: TypeOf, C: TypeOf, D: TypeOf, E: TypeOf> ToType for (A, B, C, D, E) {
    open spec fn to_type_shape(&self) -> Shape {
        <Self as TypeOf>::type_shape()
    }

    fn to_type(&self) -> (t: Type)
        ensures
            t matches Type::Tuple(u) && u.items@.len() == 5 && u.items@[0].shape() == A::type_shape() && u.items@[1].shape() == B::type_shape() && u.items@[2].shape() == C::type_shape() && u.items@[3].shape() == D::type_shape() && u.items@[4].shape() == E::type_shape(),
    {
        <Self as TypeOf>::type_of()
    }
}

impl<A: TypeOf, B: TypeOf, C: TypeOf, D: TypeOf, E: TypeOf, F: TypeOf> TypeOf for (A, B, C, D, E, F) {
    open spec fn type_shape() -> Shape {
        tuple_shape(seq![A::type_shape(), B::type_shape(), C::type_shape(), D::type_shape(), E::type_shape(), F::type_shape()])
    }

    fn type_of() -> (t: Type)
        ensures
            t matches Type::Tuple(u) && u.items@.len() == 6 && u.items@[0].shape() == A::type_shape() && u.items@[1].shape() == B::type_shape() && u.items@[2].shape() == C::type_shape() && u.items@[3].shape() == D::type_shape() && u.items@[4].shape() == E::type_shape() && u.items@[5].shape() == F::type_shape(),
    {
        let mut items: Vec<Type> = Vec::new();
        items.push(A::type_of());
        items.push(B::type_of());
        items.push(C::type_of());
        items.push(D::type_of());
        items.push(E::type_of());
        items.push(F::type_of());
        proof {
            lemma_type_shapes(items@);
            assert(type_shapes(items@) =~= seq![A::type_shape(), B::type_shape(), C::type_shape(), D::type_shape(), E::type_shape(), F::type_shape()]);
        }
        tuple_of(items)
    }
}

impl<A: TypeOf, B: TypeOf, C: TypeOf, D: TypeOf, E: TypeOf, F: TypeOf> ToType for (A, B, C, D, E, F) {
    open spec fn to_type_shape(&self) -> Shape {
        <Self as TypeOf>::type_shape()
    }

    fn to_type(&self) -> (t: Type)
        ensures
            t matches Type::Tuple(u) && u.items@.len() == 6 && u.items@[0].shape() == A::type_shape() && u.items@[1].shape() == B::type_shape() && u.items@[2].shape() == C::type_shape() && u.items@[3].shape() == D::type_shape() && u.items@[4].shape() == E::type_shape() && u.items@[5].shape() == F::type_shape(),
    {
        <Self as TypeOf>::type_of()
    }
}

impl<A: TypeOf, B: TypeOf, C: TypeOf, D: TypeOf, E: TypeOf, F: TypeOf, G: TypeOf> TypeOf for (A, B, C, D, E, F, G) {
    open spec fn type_shape() -> Shape {
        tuple_shape(seq![A::type_shape(), B::type_shape(), C::type_shape(), D::type_shape(), E::type_shape(), F::type_shape(), G::type_shape()])
    }

    fn type_of() -> (t: Type)
        ensures
            t matches Type::Tuple(u) && u.items@.len() == 7 && u.items@[0].shape() == A::type_shape() && u.items@[1].shape() == B::type_shape() && u.items@[2].shape() == C::type_shape() && u.items@[3].shape() == D::type_shape() && u.items@[4].shape() == E::type_shape() && u.items@[5].shape() == F::type_shape() && u.items@[6].shape() == G::type_shape(),
    {
        let mut items: Vec<Type> = Vec::new();
        items.push(A::type_of());
        items.push(B::type_of());
        items.push(C::type_of());
        items.push(D::type_of());
        items.push(E::type_of());
        items.push(F::type_of());
        items.push(G::type_of());
        proof {
            lemma_type_shapes(items@);
            assert(type_shapes(items@) =~= seq![A::type_shape(), B::type_shape(), C::type_shape(), D::type_shape(), E::type_shape(), F::type_shape(), G::type_shape()]);
        }
        tuple_of(items)
    }
}

impl<A: TypeOf, B: TypeOf, C: TypeOf, D: TypeOf, E: TypeOf, F: TypeOf, G: TypeOf> ToType for (A, B, C, D, E, F, G) {
    open spec fn to_type_shape(&self) -> Shape {
        <Self as TypeOf>::type_shape()
    }

    fn to_type(&self) -> (t: Type)
        ensures
            t matches Type::Tuple(u) && u.items@.len() == 7 && u.items@[0].shape() == A::type_shape() && u.items@[1].shape() == B::type_shape() && u.items@[2].shape() == C::type_shape() && u.items@[3].shape() == D::type_shape() && u.items@[4].shape() == E::type_shape() && u.items@[5].shape() == F::type_shape() && u.items@[6].shape() == G::type_shape(),
    {
        <Self as TypeOf>::type_of()
    }
}

impl ToType for EnumType {
    open spec fn to_type_shape(&self) -> Shape {
        Shape::Node(2, seq![self.shape()])
    }

    fn to_type(&self) -> (t: Type)
        ensures
            t is Enum,
            t->Enum_0.shape() == self.shape(),
    {
        let t = EnumType::to_type(self);
        proof {
            lemma_type_shape(&t);
        }
        t
    }
}

impl ToType for StructType {
    open spec fn to_type_shape(&self) -> Shape {
        Shape::Node(8, seq![self.shape()])
    }

    fn to_type(&self) -> (t: Type)
        ensures
            t is Struct,
            t->Struct_0.shape() == self.shape(),
    {
        let t = StructType::to_type(self);
        proof {
            lemma_type_shape(&t);
        }
        t
    }
}

impl ToType for RefType {
    open spec fn to_type_shape(&self) -> Shape {
        Type::Ref(*self).shape()
    }

    fn to_type(&self) -> (t: Type)
        ensures
            t == Type::Ref(*self),
    {
        RefType::to_type(self)
    }
}

impl ToType for MutType {
    open spec fn to_type_shape(&self) -> Shape {
        Type::Mut(*self).shape()
    }

    fn to_type(&self) -> (t: Type)
        ensures
            t == Type::Mut(*self),
    {
        MutType::to_type(self)
    }
}

impl ToType for SliceType {
    open spec fn to_type_shape(&self) -> Shape {
        Type::Slice(*self).shape()
    }

    fn to_type(&self) -> (t: Type)
        ensures
            t == Type::Slice(*self),
    {
        SliceType::to_type(self)
    }
}

impl ToType for MapType {
    open spec fn to_type_shape(&self) -> Shape {
        Shape::Node(7, seq![self.shape()])
    }

    fn to_type(&self) -> (t: Type)
        ensures
            t is Mapping,
            *t->Mapping_0 == *self,
    {
        let t = MapType::to_type(self);
        proof {
            lemma_type_shape(&t);
        }
        t
    }
}

impl ToType for StrType {
    open spec fn to_type_shape(&self) -> Shape {
        Type::Str(*self).shape()
    }

    fn to_type(&self) -> (t: Type)
        ensures
            t == Type::Str(*self),
    {
        Type::Str(*self)
    }
}

} // verus!
