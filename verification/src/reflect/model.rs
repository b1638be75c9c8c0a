//! The descriptor tree: `Type` and the descriptors it is built from, their
//! shapes (structural identity) and structural comparison and copying.

use vstd::prelude::*;
use std::rc::Rc;
use crate::reflect::shape::{Shape, share, opt_num_shape};
use crate::reflect::path::{Path, lemma_path_shape};
use crate::reflect::leaf::{
    Layout, Visibility, MetaData, Bound, LifetimeBound, FieldName, NumberType, BoolType, StrType,
    ThisType, lemma_meta_shape,
};

verus! {

/// A type, as the reflection layer describes it.
#[derive(Debug)]
pub enum Type {
    Any,
    Bool(BoolType),
    Enum(Rc<EnumType>),
    Number(NumberType),
    Str(StrType),
    Ref(RefType),
    Slice(SliceType),
    Mapping(Rc<MapType>),
    Struct(Rc<StructType>),
    This(ThisType),
    Tuple(Rc<TupleType>),
    Trait(Rc<TraitType>),
    Mut(MutType),
    Mod(Rc<ModType>),
    Void,
}

/// `&T`.
#[derive(Debug)]
pub struct RefType(pub Rc<Type>);

/// `mut T`.
#[derive(Debug)]
pub struct MutType(pub Rc<Type>);

/// `[T]` or `[T; N]`.
#[derive(Debug)]
pub struct SliceType {
    pub ty: Rc<Type>,
    pub capacity: Option<usize>,
}

/// A map type: the collection type together with its key and value types.
#[derive(Debug)]
pub struct MapType {
    pub ty: Rc<Type>,
    pub key: Rc<Type>,
    pub value: Rc<Type>,
}

/// A tuple type.
#[derive(Debug)]
pub struct TupleType {
    pub items: Vec<Type>,
}

/// An enum declaration.
#[derive(Debug)]
pub struct EnumType {
    pub path: Path,
    pub meta: MetaData,
    pub vis: Visibility,
    pub name: String,
    pub generics: Generics,
    pub variants: Vec<Variant>,
}

/// One variant of an enum.
#[derive(Debug)]
pub struct Variant {
    pub name: String,
    pub fields: Fields,
}

/// A struct declaration.
#[derive(Debug)]
pub struct StructType {
    pub path: Path,
    pub meta: MetaData,
    pub vis: Visibility,
    pub name: String,
    pub generics: Generics,
    pub fields: Fields,
}

/// The fields of a struct or variant, with the way they are written.
#[derive(Debug)]
pub struct Fields {
    pub layout: Layout,
    pub fields: Vec<Field>,
}

/// One field.
#[derive(Debug)]
pub struct Field {
    pub vis: Visibility,
    pub name: FieldName,
    pub ty: Rc<Type>,
}

/// The generic parameters of an item.
#[derive(Debug)]
pub struct Generics(pub Vec<Generic>);

/// One generic parameter.
#[derive(Debug)]
pub enum Generic {
    Const(ConstParam),
    Lifetime(LifetimeParam),
    Type(TypeParam),
}

/// `const N: T`.
#[derive(Debug)]
pub struct ConstParam {
    pub name: String,
    pub ty: Rc<Type>,
}

/// `'a: 'b + 'c`.
#[derive(Debug)]
pub struct LifetimeParam {
    pub name: String,
    pub bounds: Vec<LifetimeBound>,
}

/// `T: Bound = Default`.
#[derive(Debug)]
pub struct TypeParam {
    pub name: String,
    pub default: Option<Type>,
    pub bounds: Vec<Bound>,
}

/// A trait declaration.
#[derive(Debug)]
pub struct TraitType {
    pub path: Path,
    pub meta: MetaData,
    pub vis: Visibility,
    pub name: String,
    pub generics: Generics,
    pub methods: Vec<Method>,
}

/// A method signature.
#[derive(Debug)]
pub struct Method {
    pub meta: MetaData,
    pub is_async: bool,
    pub vis: Visibility,
    pub name: String,
    pub generics: Generics,
    pub params: Vec<Param>,
    pub return_type: Rc<Type>,
}

/// One parameter of a method.
#[derive(Debug)]
pub struct Param {
    pub name: String,
    pub ty: Rc<Type>,
}

/// A module and the items in it.
#[derive(Debug)]
pub struct ModType {
    pub path: Path,
    pub meta: MetaData,
    pub vis: Visibility,
    pub items: Vec<Item>,
}

/// An item of a module.
#[derive(Debug)]
pub enum Item {
    Type(Type),
    Impl(Impl),
}

/// An `impl` block.
#[derive(Debug)]
pub struct Impl {
    pub path: Path,
    pub meta: MetaData,
    pub of_trait: Option<Path>,
    pub self_ty: Type,
    pub generics: Generics,
    pub methods: Vec<Method>,
}

/// `0` or `1`.
pub open spec fn bit(b: bool) -> int {
    if b { 1 } else { 0 }
}

impl Type {
    /// The type's structure as plain values; `==` on types compares shapes.
    #[verifier::opaque]
    pub open spec fn shape(&self) -> Shape
        decreases self,
    {
        match self {
            Type::Any => Shape::Node(0, Seq::empty()),
            Type::Bool(_) => Shape::Node(1, Seq::empty()),
            Type::Enum(e) => Shape::Node(2, seq![e.shape()]),
            Type::Number(n) => Shape::Node(3, seq![Shape::Num(n.code())]),
            Type::Str(_) => Shape::Node(4, Seq::empty()),
            Type::Ref(r) => Shape::Node(5, seq![r.shape()]),
            Type::Slice(s) => Shape::Node(6, seq![s.shape()]),
            Type::Mapping(m) => Shape::Node(7, seq![m.shape()]),
            Type::Struct(s) => Shape::Node(8, seq![s.shape()]),
            Type::This(_) => Shape::Node(9, Seq::empty()),
            Type::Tuple(t) => Shape::Node(10, seq![t.shape()]),
            Type::Trait(t) => Shape::Node(11, seq![t.shape()]),
            Type::Mut(m) => Shape::Node(12, seq![m.shape()]),
            Type::Mod(m) => Shape::Node(13, seq![m.shape()]),
            Type::Void => Shape::Node(14, Seq::empty()),
        }
    }
}

/// The shape of a type, one level down (`Type::shape` is opaque).
pub proof fn lemma_type_shape(t: &Type)
    ensures
        t.shape() == match t {
            Type::Any => Shape::Node(0, Seq::empty()),
            Type::Bool(_) => Shape::Node(1, Seq::empty()),
            Type::Enum(e) => Shape::Node(2, seq![e.shape()]),
            Type::Number(n) => Shape::Node(3, seq![Shape::Num(n.code())]),
            Type::Str(_) => Shape::Node(4, Seq::empty()),
            Type::Ref(r) => Shape::Node(5, seq![r.shape()]),
            Type::Slice(s) => Shape::Node(6, seq![s.shape()]),
            Type::Mapping(m) => Shape::Node(7, seq![m.shape()]),
            Type::Struct(s) => Shape::Node(8, seq![s.shape()]),
            Type::This(_) => Shape::Node(9, Seq::empty()),
            Type::Tuple(u) => Shape::Node(10, seq![u.shape()]),
            Type::Trait(u) => Shape::Node(11, seq![u.shape()]),
            Type::Mut(m) => Shape::Node(12, seq![m.shape()]),
            Type::Mod(m) => Shape::Node(13, seq![m.shape()]),
            Type::Void => Shape::Node(14, Seq::empty()),
        },
{
    reveal(Type::shape);
}

impl RefType {
    pub open spec fn shape(&self) -> Shape
        decreases self,
    {
        Shape::Node(0, seq![self.0.shape()])
    }
}

impl MutType {
    pub open spec fn shape(&self) -> Shape
        decreases self,
    {
        Shape::Node(0, seq![self.0.shape()])
    }
}

impl SliceType {
    pub open spec fn shape(&self) -> Shape
        decreases self,
    {
        Shape::Node(0, seq![self.ty.shape(), opt_num_shape(self.capacity)])
    }
}

impl MapType {
    pub open spec fn shape(&self) -> Shape
        decreases self,
    {
        Shape::Node(0, seq![self.ty.shape(), self.key.shape(), self.value.shape()])
    }
}

impl TupleType {
    pub open spec fn shape(&self) -> Shape
        decreases self,
    {
        Shape::Node(0, seq![Shape::Node(0, type_shapes(self.items@))])
    }
}

impl EnumType {
    pub open spec fn shape(&self) -> Shape
        decreases self,
    {
        Shape::Node(0, seq![self.path.shape(), self.meta.shape(), Shape::Num(self.vis.code()),
            Shape::Text(self.name@), self.generics.shape(), Shape::Node(0, variant_shapes(self.variants@))])
    }
}

impl Variant {
    pub open spec fn shape(&self) -> Shape
        decreases self,
    {
        Shape::Node(0, seq![Shape::Text(self.name@), self.fields.shape()])
    }
}

impl StructType {
    pub open spec fn shape(&self) -> Shape
        decreases self,
    {
        Shape::Node(0, seq![self.path.shape(), self.meta.shape(), Shape::Num(self.vis.code()),
            Shape::Text(self.name@), self.generics.shape(), self.fields.shape()])
    }
}

impl Fields {
    pub open spec fn shape(&self) -> Shape
        decreases self,
    {
        Shape::Node(0, seq![Shape::Num(self.layout.code()), Shape::Node(0, field_shapes(self.fields@))])
    }
}

impl Field {
    pub open spec fn shape(&self) -> Shape
        decreases self,
    {
        Shape::Node(0, seq![Shape::Num(self.vis.code()), self.name.shape(), self.ty.shape()])
    }
}

impl Generics {
    pub open spec fn shape(&self) -> Shape
        decreases self,
    {
        Shape::Node(0, seq![Shape::Node(0, generic_shapes(self.0@))])
    }
}

impl Generic {
    pub open spec fn shape(&self) -> Shape
        decreases self,
    {
        match self {
            Generic::Const(c) => Shape::Node(0, seq![c.shape()]),
            Generic::Lifetime(l) => Shape::Node(1, seq![l.shape()]),
            Generic::Type(t) => Shape::Node(2, seq![t.shape()]),
        }
    }
}

impl ConstParam {
    pub open spec fn shape(&self) -> Shape
        decreases self,
    {
        Shape::Node(0, seq![Shape::Text(self.name@), self.ty.shape()])
    }
}

impl LifetimeParam {
    pub open spec fn shape(&self) -> Shape {
        Shape::Node(0, seq![Shape::Text(self.name@), Shape::Node(0, lifetime_shapes(self.bounds@))])
    }
}

/// The shape of an optional default type.
pub open spec fn opt_type_shape(t: Option<Type>) -> Shape
    decreases t,
{
    match t {
        None => Shape::Node(0, Seq::empty()),
        Some(ty) => Shape::Node(1, seq![ty.shape()]),
    }
}

/// The shape of an optional path.
pub open spec fn opt_path_shape(p: Option<Path>) -> Shape {
    match p {
        None => Shape::Node(0, Seq::empty()),
        Some(path) => Shape::Node(1, seq![path.shape()]),
    }
}

impl TypeParam {
    pub open spec fn shape(&self) -> Shape
        decreases self,
    {
        Shape::Node(0, seq![Shape::Text(self.name@), opt_type_shape(self.default),
            Shape::Node(0, bound_shapes(self.bounds@))])
    }
}

impl TraitType {
    pub open spec fn shape(&self) -> Shape
        decreases self,
    {
        Shape::Node(0, seq![self.path.shape(), self.meta.shape(), Shape::Num(self.vis.code()),
            Shape::Text(self.name@), self.generics.shape(), Shape::Node(0, method_shapes(self.methods@))])
    }
}

impl Method {
    pub open spec fn shape(&self) -> Shape
        decreases self,
    {
        Shape::Node(0, seq![self.meta.shape(), Shape::Num(bit(self.is_async)), Shape::Num(self.vis.code()),
            Shape::Text(self.name@), self.generics.shape(), Shape::Node(0, param_shapes(self.params@)),
            self.return_type.shape()])
    }
}

impl Param {
    pub open spec fn shape(&self) -> Shape
        decreases self,
    {
        Shape::Node(0, seq![Shape::Text(self.name@), self.ty.shape()])
    }
}

impl ModType {
    pub open spec fn shape(&self) -> Shape
        decreases self,
    {
        Shape::Node(0, seq![self.path.shape(), self.meta.shape(), Shape::Num(self.vis.code()),
            Shape::Node(0, item_shapes(self.items@))])
    }
}

impl Item {
    pub open spec fn shape(&self) -> Shape
        decreases self,
    {
        match self {
            Item::Type(t) => Shape::Node(0, seq![t.shape()]),
            Item::Impl(i) => Shape::Node(1, seq![i.shape()]),
        }
    }
}

impl Impl {
    pub open spec fn shape(&self) -> Shape
        decreases self,
    {
        Shape::Node(0, seq![self.path.shape(), self.meta.shape(), opt_path_shape(self.of_trait),
            self.self_ty.shape(), self.generics.shape(), Shape::Node(0, method_shapes(self.methods@))])
    }
}

pub open spec fn type_shapes(s: Seq<Type>) -> Seq<Shape>
    decreases s,
{
    if s.len() == 0 {
        Seq::empty()
    } else {
        type_shapes(s.drop_last()).push(s.last().shape())
    }
}

#[verifier::spinoff_prover]
pub proof fn lemma_type_shapes(s: Seq<Type>)
    ensures
        type_shapes(s).len() == s.len(),
        forall|i: int| 0 <= i < s.len() ==> #[trigger] type_shapes(s)[i] == s[i].shape(),
    decreases s.len(),
{
    if s.len() > 0 {
        let d = s.drop_last();
        lemma_type_shapes(d);
        assert forall|i: int| 0 <= i < s.len() implies #[trigger] type_shapes(s)[i] == s[i].shape() by {
            if i < s.len() - 1 {
                assert(d[i] == s[i]);
                assert(type_shapes(d)[i] == d[i].shape());
            } else {
                assert(s.last() == s[i]);
            }
        }
    }
}

pub fn same_types(a: &Vec<Type>, b: &Vec<Type>) -> (r: bool)
    ensures
        r == (type_shapes(a@) == type_shapes(b@)),
    decreases a@,
{
    proof {
        lemma_type_shapes(a@);
        lemma_type_shapes(b@);
    }
    if a.len() != b.len() {
        return false;
    }
    let mut i: usize = 0;
    while i < a.len()
        invariant
            i <= a.len(),
            a.len() == b.len(),
            forall|j: int| 0 <= j < i ==> a@[j].shape() == b@[j].shape(),
        decreases a.len() - i,
    {
        if !a[i].same(&b[i]) {
            proof {
                lemma_type_shapes(a@);
                lemma_type_shapes(b@);
                assert(type_shapes(a@)[i as int] != type_shapes(b@)[i as int]);
            }
            return false;
        }
        i = i + 1;
    }
    proof {
        lemma_type_shapes(a@);
        lemma_type_shapes(b@);
        assert(type_shapes(a@) =~= type_shapes(b@));
    }
    true
}

pub fn dup_types(a: &Vec<Type>) -> (r: Vec<Type>)
    ensures
        type_shapes(r@) == type_shapes(a@),
{
    let mut r: Vec<Type> = Vec::new();
    let mut i: usize = 0;
    while i < a.len()
        invariant
            i <= a.len(),
            r.len() == i,
            forall|j: int| 0 <= j < i ==> r@[j].shape() == a@[j].shape(),
        decreases a.len() - i,
    {
        let x = a[i].duplicate();
        r.push(x);
        i = i + 1;
    }
    proof {
        lemma_type_shapes(a@);
        lemma_type_shapes(r@);
        assert(type_shapes(r@) =~= type_shapes(a@));
    }
    r
}

pub open spec fn variant_shapes(s: Seq<Variant>) -> Seq<Shape>
    decreases s,
{
    if s.len() == 0 {
        Seq::empty()
    } else {
        variant_shapes(s.drop_last()).push(s.last().shape())
    }
}

#[verifier::spinoff_prover]
pub proof fn lemma_variant_shapes(s: Seq<Variant>)
    ensures
        variant_shapes(s).len() == s.len(),
        forall|i: int| 0 <= i < s.len() ==> #[trigger] variant_shapes(s)[i] == s[i].shape(),
    decreases s.len(),
{
    if s.len() > 0 {
        let d = s.drop_last();
        lemma_variant_shapes(d);
        assert forall|i: int| 0 <= i < s.len() implies #[trigger] variant_shapes(s)[i] == s[i].shape() by {
            if i < s.len() - 1 {
                assert(d[i] == s[i]);
                assert(variant_shapes(d)[i] == d[i].shape());
            } else {
                assert(s.last() == s[i]);
            }
        }
    }
}

pub fn same_variants(a: &Vec<Variant>, b: &Vec<Variant>) -> (r: bool)
    ensures
        r == (variant_shapes(a@) == variant_shapes(b@)),
    decreases a@,
{
    proof {
        lemma_variant_shapes(a@);
        lemma_variant_shapes(b@);
    }
    if a.len() != b.len() {
        return false;
    }
    let mut i: usize = 0;
    while i < a.len()
        invariant
            i <= a.len(),
            a.len() == b.len(),
            forall|j: int| 0 <= j < i ==> a@[j].shape() == b@[j].shape(),
        decreases a.len() - i,
    {
        if !a[i].same(&b[i]) {
            proof {
                lemma_variant_shapes(a@);
                lemma_variant_shapes(b@);
                assert(variant_shapes(a@)[i as int] != variant_shapes(b@)[i as int]);
            }
            return false;
        }
        i = i + 1;
    }
    proof {
        lemma_variant_shapes(a@);
        lemma_variant_shapes(b@);
        assert(variant_shapes(a@) =~= variant_shapes(b@));
    }
    true
}

pub fn dup_variants(a: &Vec<Variant>) -> (r: Vec<Variant>)
    ensures
        variant_shapes(r@) == variant_shapes(a@),
{
    let mut r: Vec<Variant> = Vec::new();
    let mut i: usize = 0;
    while i < a.len()
        invariant
            i <= a.len(),
            r.len() == i,
            forall|j: int| 0 <= j < i ==> r@[j].shape() == a@[j].shape(),
        decreases a.len() - i,
    {
        let x = a[i].duplicate();
        r.push(x);
        i = i + 1;
    }
    proof {
        lemma_variant_shapes(a@);
        lemma_variant_shapes(r@);
        assert(variant_shapes(r@) =~= variant_shapes(a@));
    }
    r
}

pub open spec fn field_shapes(s: Seq<Field>) -> Seq<Shape>
    decreases s,
{
    if s.len() == 0 {
        Seq::empty()
    } else {
        field_shapes(s.drop_last()).push(s.last().shape())
    }
}

#[verifier::spinoff_prover]
pub proof fn lemma_field_shapes(s: Seq<Field>)
    ensures
        field_shapes(s).len() == s.len(),
        forall|i: int| 0 <= i < s.len() ==> #[trigger] field_shapes(s)[i] == s[i].shape(),
    decreases s.len(),
{
    if s.len() > 0 {
        let d = s.drop_last();
        lemma_field_shapes(d);
        assert forall|i: int| 0 <= i < s.len() implies #[trigger] field_shapes(s)[i] == s[i].shape() by {
            if i < s.len() - 1 {
                assert(d[i] == s[i]);
                assert(field_shapes(d)[i] == d[i].shape());
            } else {
                assert(s.last() == s[i]);
            }
        }
    }
}

pub fn same_fields(a: &Vec<Field>, b: &Vec<Field>) -> (r: bool)
    ensures
        r == (field_shapes(a@) == field_shapes(b@)),
    decreases a@,
{
    proof {
        lemma_field_shapes(a@);
        lemma_field_shapes(b@);
    }
    if a.len() != b.len() {
        return false;
    }
    let mut i: usize = 0;
    while i < a.len()
        invariant
            i <= a.len(),
            a.len() == b.len(),
            forall|j: int| 0 <= j < i ==> a@[j].shape() == b@[j].shape(),
        decreases a.len() - i,
    {
        if !a[i].same(&b[i]) {
            proof {
                lemma_field_shapes(a@);
                lemma_field_shapes(b@);
                assert(field_shapes(a@)[i as int] != field_shapes(b@)[i as int]);
            }
            return false;
        }
        i = i + 1;
    }
    proof {
        lemma_field_shapes(a@);
        lemma_field_shapes(b@);
        assert(field_shapes(a@) =~= field_shapes(b@));
    }
    true
}

pub fn dup_fields(a: &Vec<Field>) -> (r: Vec<Field>)
    ensures
        field_shapes(r@) == field_shapes(a@),
{
    let mut r: Vec<Field> = Vec::new();
    let mut i: usize = 0;
    while i < a.len()
        invariant
            i <= a.len(),
            r.len() == i,
            forall|j: int| 0 <= j < i ==> r@[j].shape() == a@[j].shape(),
        decreases a.len() - i,
    {
        let x = a[i].duplicate();
        r.push(x);
        i = i + 1;
    }
    proof {
        lemma_field_shapes(a@);
        lemma_field_shapes(r@);
        assert(field_shapes(r@) =~= field_shapes(a@));
    }
    r
}

pub open spec fn generic_shapes(s: Seq<Generic>) -> Seq<Shape>
    decreases s,
{
    if s.len() == 0 {
        Seq::empty()
    } else {
        generic_shapes(s.drop_last()).push(s.last().shape())
    }
}

#[verifier::spinoff_prover]
pub proof fn lemma_generic_shapes(s: Seq<Generic>)
    ensures
        generic_shapes(s).len() == s.len(),
        forall|i: int| 0 <= i < s.len() ==> #[trigger] generic_shapes(s)[i] == s[i].shape(),
    decreases s.len(),
{
    if s.len() > 0 {
        let d = s.drop_last();
        lemma_generic_shapes(d);
        assert forall|i: int| 0 <= i < s.len() implies #[trigger] generic_shapes(s)[i] == s[i].shape() by {
            if i < s.len() - 1 {
                assert(d[i] == s[i]);
                assert(generic_shapes(d)[i] == d[i].shape());
            } else {
                assert(s.last() == s[i]);
            }
        }
    }
}

pub fn same_generics(a: &Vec<Generic>, b: &Vec<Generic>) -> (r: bool)
    ensures
        r == (generic_shapes(a@) == generic_shapes(b@)),
    decreases a@,
{
    proof {
        lemma_generic_shapes(a@);
        lemma_generic_shapes(b@);
    }
    if a.len() != b.len() {
        return false;
    }
    let mut i: usize = 0;
    while i < a.len()
        invariant
            i <= a.len(),
            a.len() == b.len(),
            forall|j: int| 0 <= j < i ==> a@[j].shape() == b@[j].shape(),
        decreases a.len() - i,
    {
        if !a[i].same(&b[i]) {
            proof {
                lemma_generic_shapes(a@);
                lemma_generic_shapes(b@);
                assert(generic_shapes(a@)[i as int] != generic_shapes(b@)[i as int]);
            }
            return false;
        }
        i = i + 1;
    }
    proof {
        lemma_generic_shapes(a@);
        lemma_generic_shapes(b@);
        assert(generic_shapes(a@) =~= generic_shapes(b@));
    }
    true
}

pub fn dup_generics(a: &Vec<Generic>) -> (r: Vec<Generic>)
    ensures
        generic_shapes(r@) == generic_shapes(a@),
{
    let mut r: Vec<Generic> = Vec::new();
    let mut i: usize = 0;
    while i < a.len()
        invariant
            i <= a.len(),
            r.len() == i,
            forall|j: int| 0 <= j < i ==> r@[j].shape() == a@[j].shape(),
        decreases a.len() - i,
    {
        let x = a[i].duplicate();
        r.push(x);
        i = i + 1;
    }
    proof {
        lemma_generic_shapes(a@);
        lemma_generic_shapes(r@);
        assert(generic_shapes(r@) =~= generic_shapes(a@));
    }
    r
}

pub open spec fn method_shapes(s: Seq<Method>) -> Seq<Shape>
    decreases s,
{
    if s.len() == 0 {
        Seq::empty()
    } else {
        method_shapes(s.drop_last()).push(s.last().shape())
    }
}

#[verifier::spinoff_prover]
pub proof fn lemma_method_shapes(s: Seq<Method>)
    ensures
        method_shapes(s).len() == s.len(),
        forall|i: int| 0 <= i < s.len() ==> #[trigger] method_shapes(s)[i] == s[i].shape(),
    decreases s.len(),
{
    if s.len() > 0 {
        let d = s.drop_last();
        lemma_method_shapes(d);
        assert forall|i: int| 0 <= i < s.len() implies #[trigger] method_shapes(s)[i] == s[i].shape() by {
            if i < s.len() - 1 {
                assert(d[i] == s[i]);
                assert(method_shapes(d)[i] == d[i].shape());
            } else {
                assert(s.last() == s[i]);
            }
        }
    }
}

pub fn same_methods(a: &Vec<Method>, b: &Vec<Method>) -> (r: bool)
    ensures
        r == (method_shapes(a@) == method_shapes(b@)),
    decreases a@,
{
    proof {
        lemma_method_shapes(a@);
        lemma_method_shapes(b@);
    }
    if a.len() != b.len() {
        return false;
    }
    let mut i: usize = 0;
    while i < a.len()
        invariant
            i <= a.len(),
            a.len() == b.len(),
            forall|j: int| 0 <= j < i ==> a@[j].shape() == b@[j].shape(),
        decreases a.len() - i,
    {
        if !a[i].same(&b[i]) {
            proof {
                lemma_method_shapes(a@);
                lemma_method_shapes(b@);
                assert(method_shapes(a@)[i as int] != method_shapes(b@)[i as int]);
            }
            return false;
        }
        i = i + 1;
    }
    proof {
        lemma_method_shapes(a@);
        lemma_method_shapes(b@);
        assert(method_shapes(a@) =~= method_shapes(b@));
    }
    true
}

pub fn dup_methods(a: &Vec<Method>) -> (r: Vec<Method>)
    ensures
        method_shapes(r@) == method_shapes(a@),
{
    let mut r: Vec<Method> = Vec::new();
    let mut i: usize = 0;
    while i < a.len()
        invariant
            i <= a.len(),
            r.len() == i,
            forall|j: int| 0 <= j < i ==> r@[j].shape() == a@[j].shape(),
        decreases a.len() - i,
    {
        let x = a[i].duplicate();
        r.push(x);
        i = i + 1;
    }
    proof {
        lemma_method_shapes(a@);
        lemma_method_shapes(r@);
        assert(method_shapes(r@) =~= method_shapes(a@));
    }
    r
}

pub open spec fn param_shapes(s: Seq<Param>) -> Seq<Shape>
    decreases s,
{
    if s.len() == 0 {
        Seq::empty()
    } else {
        param_shapes(s.drop_last()).push(s.last().shape())
    }
}

#[verifier::spinoff_prover]
pub proof fn lemma_param_shapes(s: Seq<Param>)
    ensures
        param_shapes(s).len() == s.len(),
        forall|i: int| 0 <= i < s.len() ==> #[trigger] param_shapes(s)[i] == s[i].shape(),
    decreases s.len(),
{
    if s.len() > 0 {
        let d = s.drop_last();
        lemma_param_shapes(d);
        assert forall|i: int| 0 <= i < s.len() implies #[trigger] param_shapes(s)[i] == s[i].shape() by {
            if i < s.len() - 1 {
                assert(d[i] == s[i]);
                assert(param_shapes(d)[i] == d[i].shape());
            } else {
                assert(s.last() == s[i]);
            }
        }
    }
}

pub fn same_params(a: &Vec<Param>, b: &Vec<Param>) -> (r: bool)
    ensures
        r == (param_shapes(a@) == param_shapes(b@)),
    decreases a@,
{
    proof {
        lemma_param_shapes(a@);
        lemma_param_shapes(b@);
    }
    if a.len() != b.len() {
        return false;
    }
    let mut i: usize = 0;
    while i < a.len()
        invariant
            i <= a.len(),
            a.len() == b.len(),
            forall|j: int| 0 <= j < i ==> a@[j].shape() == b@[j].shape(),
        decreases a.len() - i,
    {
        if !a[i].same(&b[i]) {
            proof {
                lemma_param_shapes(a@);
                lemma_param_shapes(b@);
                assert(param_shapes(a@)[i as int] != param_shapes(b@)[i as int]);
            }
            return false;
        }
        i = i + 1;
    }
    proof {
        lemma_param_shapes(a@);
        lemma_param_shapes(b@);
        assert(param_shapes(a@) =~= param_shapes(b@));
    }
    true
}

pub fn dup_params(a: &Vec<Param>) -> (r: Vec<Param>)
    ensures
        param_shapes(r@) == param_shapes(a@),
{
    let mut r: Vec<Param> = Vec::new();
    let mut i: usize = 0;
    while i < a.len()
        invariant
            i <= a.len(),
            r.len() == i,
            forall|j: int| 0 <= j < i ==> r@[j].shape() == a@[j].shape(),
        decreases a.len() - i,
    {
        let x = a[i].duplicate();
        r.push(x);
        i = i + 1;
    }
    proof {
        lemma_param_shapes(a@);
        lemma_param_shapes(r@);
        assert(param_shapes(r@) =~= param_shapes(a@));
    }
    r
}

pub open spec fn item_shapes(s: Seq<Item>) -> Seq<Shape>
    decreases s,
{
    if s.len() == 0 {
        Seq::empty()
    } else {
        item_shapes(s.drop_last()).push(s.last().shape())
    }
}

#[verifier::spinoff_prover]
pub proof fn lemma_item_shapes(s: Seq<Item>)
    ensures
        item_shapes(s).len() == s.len(),
        forall|i: int| 0 <= i < s.len() ==> #[trigger] item_shapes(s)[i] == s[i].shape(),
    decreases s.len(),
{
    if s.len() > 0 {
        let d = s.drop_last();
        lemma_item_shapes(d);
        assert forall|i: int| 0 <= i < s.len() implies #[trigger] item_shapes(s)[i] == s[i].shape() by {
            if i < s.len() - 1 {
                assert(d[i] == s[i]);
                assert(item_shapes(d)[i] == d[i].shape());
            } else {
                assert(s.last() == s[i]);
            }
        }
    }
}

pub fn same_items(a: &Vec<Item>, b: &Vec<Item>) -> (r: bool)
    ensures
        r == (item_shapes(a@) == item_shapes(b@)),
    decreases a@,
{
    proof {
        lemma_item_shapes(a@);
        lemma_item_shapes(b@);
    }
    if a.len() != b.len() {
        return false;
    }
    let mut i: usize = 0;
    while i < a.len()
        invariant
            i <= a.len(),
            a.len() == b.len(),
            forall|j: int| 0 <= j < i ==> a@[j].shape() == b@[j].shape(),
        decreases a.len() - i,
    {
        if !a[i].same(&b[i]) {
            proof {
                lemma_item_shapes(a@);
                lemma_item_shapes(b@);
                assert(item_shapes(a@)[i as int] != item_shapes(b@)[i as int]);
            }
            return false;
        }
        i = i + 1;
    }
    proof {
        lemma_item_shapes(a@);
        lemma_item_shapes(b@);
        assert(item_shapes(a@) =~= item_shapes(b@));
    }
    true
}

pub fn dup_items(a: &Vec<Item>) -> (r: Vec<Item>)
    ensures
        item_shapes(r@) == item_shapes(a@),
{
    let mut r: Vec<Item> = Vec::new();
    let mut i: usize = 0;
    while i < a.len()
        invariant
            i <= a.len(),
            r.len() == i,
            forall|j: int| 0 <= j < i ==> r@[j].shape() == a@[j].shape(),
        decreases a.len() - i,
    {
        let x = a[i].duplicate();
        r.push(x);
        i = i + 1;
    }
    proof {
        lemma_item_shapes(a@);
        lemma_item_shapes(r@);
        assert(item_shapes(r@) =~= item_shapes(a@));
    }
    r
}

pub open spec fn bound_shapes(s: Seq<Bound>) -> Seq<Shape>
    decreases s,
{
    if s.len() == 0 {
        Seq::empty()
    } else {
        bound_shapes(s.drop_last()).push(s.last().shape())
    }
}

#[verifier::spinoff_prover]
pub proof fn lemma_bound_shapes(s: Seq<Bound>)
    ensures
        bound_shapes(s).len() == s.len(),
        forall|i: int| 0 <= i < s.len() ==> #[trigger] bound_shapes(s)[i] == s[i].shape(),
    decreases s.len(),
{
    if s.len() > 0 {
        let d = s.drop_last();
        lemma_bound_shapes(d);
        assert forall|i: int| 0 <= i < s.len() implies #[trigger] bound_shapes(s)[i] == s[i].shape() by {
            if i < s.len() - 1 {
                assert(d[i] == s[i]);
                assert(bound_shapes(d)[i] == d[i].shape());
            } else {
                assert(s.last() == s[i]);
            }
        }
    }
}

pub fn same_bounds(a: &Vec<Bound>, b: &Vec<Bound>) -> (r: bool)
    ensures
        r == (bound_shapes(a@) == bound_shapes(b@)),
    decreases a@,
{
    proof {
        lemma_bound_shapes(a@);
        lemma_bound_shapes(b@);
    }
    if a.len() != b.len() {
        return false;
    }
    let mut i: usize = 0;
    while i < a.len()
        invariant
            i <= a.len(),
            a.len() == b.len(),
            forall|j: int| 0 <= j < i ==> a@[j].shape() == b@[j].shape(),
        decreases a.len() - i,
    {
        if !a[i].same(&b[i]) {
            proof {
                lemma_bound_shapes(a@);
                lemma_bound_shapes(b@);
                assert(bound_shapes(a@)[i as int] != bound_shapes(b@)[i as int]);
            }
            return false;
        }
        i = i + 1;
    }
    proof {
        lemma_bound_shapes(a@);
        lemma_bound_shapes(b@);
        assert(bound_shapes(a@) =~= bound_shapes(b@));
    }
    true
}

pub fn dup_bounds(a: &Vec<Bound>) -> (r: Vec<Bound>)
    ensures
        bound_shapes(r@) == bound_shapes(a@),
{
    let mut r: Vec<Bound> = Vec::new();
    let mut i: usize = 0;
    while i < a.len()
        invariant
            i <= a.len(),
            r.len() == i,
            forall|j: int| 0 <= j < i ==> r@[j].shape() == a@[j].shape(),
        decreases a.len() - i,
    {
        let x = a[i].duplicate();
        r.push(x);
        i = i + 1;
    }
    proof {
        lemma_bound_shapes(a@);
        lemma_bound_shapes(r@);
        assert(bound_shapes(r@) =~= bound_shapes(a@));
    }
    r
}

pub open spec fn lifetime_shapes(s: Seq<LifetimeBound>) -> Seq<Shape>
    decreases s,
{
    if s.len() == 0 {
        Seq::empty()
    } else {
        lifetime_shapes(s.drop_last()).push(s.last().shape())
    }
}

#[verifier::spinoff_prover]
pub proof fn lemma_lifetime_shapes(s: Seq<LifetimeBound>)
    ensures
        lifetime_shapes(s).len() == s.len(),
        forall|i: int| 0 <= i < s.len() ==> #[trigger] lifetime_shapes(s)[i] == s[i].shape(),
    decreases s.len(),
{
    if s.len() > 0 {
        let d = s.drop_last();
        lemma_lifetime_shapes(d);
        assert forall|i: int| 0 <= i < s.len() implies #[trigger] lifetime_shapes(s)[i] == s[i].shape() by {
            if i < s.len() - 1 {
                assert(d[i] == s[i]);
                assert(lifetime_shapes(d)[i] == d[i].shape());
            } else {
                assert(s.last() == s[i]);
            }
        }
    }
}

pub fn same_lifetimes(a: &Vec<LifetimeBound>, b: &Vec<LifetimeBound>) -> (r: bool)
    ensures
        r == (lifetime_shapes(a@) == lifetime_shapes(b@)),
    decreases a@,
{
    proof {
        lemma_lifetime_shapes(a@);
        lemma_lifetime_shapes(b@);
    }
    if a.len() != b.len() {
        return false;
    }
    let mut i: usize = 0;
    while i < a.len()
        invariant
            i <= a.len(),
            a.len() == b.len(),
            forall|j: int| 0 <= j < i ==> a@[j].shape() == b@[j].shape(),
        decreases a.len() - i,
    {
        if !a[i].same(&b[i]) {
            proof {
                lemma_lifetime_shapes(a@);
                lemma_lifetime_shapes(b@);
                assert(lifetime_shapes(a@)[i as int] != lifetime_shapes(b@)[i as int]);
            }
            return false;
        }
        i = i + 1;
    }
    proof {
        lemma_lifetime_shapes(a@);
        lemma_lifetime_shapes(b@);
        assert(lifetime_shapes(a@) =~= lifetime_shapes(b@));
    }
    true
}

pub fn dup_lifetimes(a: &Vec<LifetimeBound>) -> (r: Vec<LifetimeBound>)
    ensures
        lifetime_shapes(r@) == lifetime_shapes(a@),
{
    let mut r: Vec<LifetimeBound> = Vec::new();
    let mut i: usize = 0;
    while i < a.len()
        invariant
            i <= a.len(),
            r.len() == i,
            forall|j: int| 0 <= j < i ==> r@[j].shape() == a@[j].shape(),
        decreases a.len() - i,
    {
        let x = a[i].duplicate();
        r.push(x);
        i = i + 1;
    }
    proof {
        lemma_lifetime_shapes(a@);
        lemma_lifetime_shapes(r@);
        assert(lifetime_shapes(r@) =~= lifetime_shapes(a@));
    }
    r
}

pub proof fn lemma_opt_num_shape(a: Option<usize>, b: Option<usize>)
    ensures
        (opt_num_shape(a) == opt_num_shape(b)) <==> (a == b),
{
    if opt_num_shape(a) == opt_num_shape(b) {
        if a is Some && b is Some {
            assert(opt_num_shape(a)->Node_1[0] == opt_num_shape(b)->Node_1[0]);
        }
    }
}

pub proof fn lemma_vis_code(a: Visibility, b: Visibility)
    ensures
        (a.code() == b.code()) <==> (a == b),
{
}

pub proof fn lemma_layout_code(a: Layout, b: Layout)
    ensures
        (a.code() == b.code()) <==> (a == b),
{
}

pub proof fn lemma_number_code(a: NumberType, b: NumberType)
    ensures
        (a.code() == b.code()) <==> (a == b),
{
}

impl Type {
    /// Whether `other` has the same structure as `self` (what `==` compares).
    pub fn same(&self, other: &Self) -> (r: bool)
        ensures
            r == (self.shape() == other.shape()),
        decreases self,
    {
        let r = match (self, other) {
            (Type::Any, Type::Any) => true,
            (Type::Bool(_), Type::Bool(_)) => true,
            (Type::Enum(a), Type::Enum(b)) => a.same(b),
            (Type::Number(a), Type::Number(b)) => {
                proof { lemma_number_code(*a, *b); }
                *a == *b
            },
            (Type::Str(_), Type::Str(_)) => true,
            (Type::Ref(a), Type::Ref(b)) => a.same(b),
            (Type::Slice(a), Type::Slice(b)) => a.same(b),
            (Type::Mapping(a), Type::Mapping(b)) => a.same(b),
            (Type::Struct(a), Type::Struct(b)) => a.same(b),
            (Type::This(_), Type::This(_)) => true,
            (Type::Tuple(a), Type::Tuple(b)) => a.same(b),
            (Type::Trait(a), Type::Trait(b)) => a.same(b),
            (Type::Mut(a), Type::Mut(b)) => a.same(b),
            (Type::Mod(a), Type::Mod(b)) => a.same(b),
            (Type::Void, Type::Void) => true,
            _ => false,
        };
        proof {
            reveal(Type::shape);
            if self.shape() == other.shape() {
                assert(self.shape()->Node_0 == other.shape()->Node_0);
                if self.shape()->Node_1.len() > 0 {
                    assert(self.shape()->Node_1[0] == other.shape()->Node_1[0]);
                }
            }
            if r {
                assert(self.shape()->Node_1 =~= other.shape()->Node_1);
            }
        }
        r
    }

    /// A copy of this descriptor; nested descriptors are shared, not copied.
    pub fn duplicate(&self) -> (r: Self)
        ensures
            r == *self,
    {
        match self {
            Type::Any => Type::Any,
            Type::Bool(b) => Type::Bool(*b),
            Type::Enum(e) => Type::Enum(share(e)),
            Type::Number(n) => Type::Number(*n),
            Type::Str(s) => Type::Str(*s),
            Type::Ref(r) => Type::Ref(RefType(share(&r.0))),
            Type::Slice(s) => Type::Slice(SliceType { ty: share(&s.ty), capacity: s.capacity }),
            Type::Mapping(m) => Type::Mapping(share(m)),
            Type::Struct(s) => Type::Struct(share(s)),
            Type::This(t) => Type::This(*t),
            Type::Tuple(t) => Type::Tuple(share(t)),
            Type::Trait(t) => Type::Trait(share(t)),
            Type::Mut(m) => Type::Mut(MutType(share(&m.0))),
            Type::Mod(m) => Type::Mod(share(m)),
            Type::Void => Type::Void,
        }
    }
}

impl Clone for Type {
    fn clone(&self) -> (r: Self)
        ensures
            r == *self,
    {
        self.duplicate()
    }
}

impl PartialEq for Type {
    fn eq(&self, other: &Self) -> (r: bool) {
        self.same(other)
    }
}

impl vstd::std_specs::cmp::PartialEqSpecImpl for Type {
    open spec fn obeys_eq_spec() -> bool {
        true
    }

    open spec fn eq_spec(&self, other: &Self) -> bool {
        self.shape() == other.shape()
    }
}

impl RefType {
    /// Whether `other` has the same structure as `self` (what `==` compares).
    #[verifier::spinoff_prover]
    pub fn same(&self, other: &Self) -> (r: bool)
        ensures
            r == (self.shape() == other.shape()),
        decreases self,
    {
        let c0 = self.0.same(&other.0);
        proof {
            if self.shape() == other.shape() {
                assert(self.shape()->Node_1[0] == other.shape()->Node_1[0]);
            }
            if c0 {
                assert(self.shape()->Node_1 =~= other.shape()->Node_1);
            }
        }
        c0
    }

    pub fn duplicate(&self) -> (r: Self)
        ensures
            r == *self,
    {
        RefType(share(&self.0))
    }
}

impl MutType {
    /// Whether `other` has the same structure as `self` (what `==` compares).
    #[verifier::spinoff_prover]
    pub fn same(&self, other: &Self) -> (r: bool)
        ensures
            r == (self.shape() == other.shape()),
        decreases self,
    {
        let c0 = self.0.same(&other.0);
        proof {
            if self.shape() == other.shape() {
                assert(self.shape()->Node_1[0] == other.shape()->Node_1[0]);
            }
            if c0 {
                assert(self.shape()->Node_1 =~= other.shape()->Node_1);
            }
        }
        c0
    }

    pub fn duplicate(&self) -> (r: Self)
        ensures
            r == *self,
    {
        MutType(share(&self.0))
    }
}

impl SliceType {
    /// Whether `other` has the same structure as `self` (what `==` compares).
    #[verifier::spinoff_prover]
    pub fn same(&self, other: &Self) -> (r: bool)
        ensures
            r == (self.shape() == other.shape()),
        decreases self,
    {
        let c0 = self.ty.same(&other.ty);
        let c1 = self.capacity == other.capacity;
        proof {
            lemma_opt_num_shape(self.capacity, other.capacity);
            if self.shape() == other.shape() {
                assert(self.shape()->Node_1[0] == other.shape()->Node_1[0]);
                assert(self.shape()->Node_1[1] == other.shape()->Node_1[1]);
            }
            if c0 && c1 {
                assert(self.shape()->Node_1 =~= other.shape()->Node_1);
            }
        }
        c0 && c1
    }

    pub fn duplicate(&self) -> (r: Self)
        ensures
            r == *self,
    {
        SliceType { ty: share(&self.ty), capacity: self.capacity }
    }
}

impl MapType {
    /// Whether `other` has the same structure as `self` (what `==` compares).
    #[verifier::spinoff_prover]
    pub fn same(&self, other: &Self) -> (r: bool)
        ensures
            r == (self.shape() == other.shape()),
        decreases self,
    {
        let c0 = self.ty.same(&other.ty);
        let c1 = self.key.same(&other.key);
        let c2 = self.value.same(&other.value);
        proof {
            if self.shape() == other.shape() {
                assert(self.shape()->Node_1[0] == other.shape()->Node_1[0]);
                assert(self.shape()->Node_1[1] == other.shape()->Node_1[1]);
                assert(self.shape()->Node_1[2] == other.shape()->Node_1[2]);
            }
            if c0 && c1 && c2 {
                assert(self.shape()->Node_1 =~= other.shape()->Node_1);
            }
        }
        c0 && c1 && c2
    }

    pub fn duplicate(&self) -> (r: Self)
        ensures
            r == *self,
    {
        MapType { ty: share(&self.ty), key: share(&self.key), value: share(&self.value) }
    }
}

impl TupleType {
    /// Whether `other` has the same structure as `self` (what `==` compares).
    #[verifier::spinoff_prover]
    pub fn same(&self, other: &Self) -> (r: bool)
        ensures
            r == (self.shape() == other.shape()),
        decreases self,
    {
        let c0 = same_types(&self.items, &other.items);
        proof {
            if self.shape() == other.shape() {
                assert(self.shape()->Node_1[0] == other.shape()->Node_1[0]);
            }
            if c0 {
                assert(self.shape()->Node_1 =~= other.shape()->Node_1);
            }
        }
        c0
    }
    /// A copy with the same structure.
    pub fn duplicate(&self) -> (r: Self)
        ensures
            r.shape() == self.shape(),
    {
        let r = TupleType {
            items: dup_types(&self.items),
        };
        proof {
            assert(r.shape()->Node_1 =~= self.shape()->Node_1);
        }
        r
    }
}

impl EnumType {
    /// Whether `other` has the same structure as `self` (what `==` compares).
    #[verifier::spinoff_prover]
    pub fn same(&self, other: &Self) -> (r: bool)
        ensures
            r == (self.shape() == other.shape()),
        decreases self,
    {
        let c0 = self.path.same(&other.path);
        let c1 = self.meta.same(&other.meta);
        let c2 = self.vis == other.vis;
        let c3 = self.name == other.name;
        let c4 = self.generics.same(&other.generics);
        let c5 = same_variants(&self.variants, &other.variants);
        proof {
            lemma_path_shape(&self.path, &other.path);
            lemma_vis_code(self.vis, other.vis);
            if self.shape() == other.shape() {
                assert(self.shape()->Node_1[0] == other.shape()->Node_1[0]);
                assert(self.shape()->Node_1[1] == other.shape()->Node_1[1]);
                assert(self.shape()->Node_1[2] == other.shape()->Node_1[2]);
                assert(self.shape()->Node_1[3] == other.shape()->Node_1[3]);
                assert(self.shape()->Node_1[4] == other.shape()->Node_1[4]);
                assert(self.shape()->Node_1[5] == other.shape()->Node_1[5]);
            }
            if c0 && c1 && c2 && c3 && c4 && c5 {
                assert(self.shape()->Node_1 =~= other.shape()->Node_1);
            }
        }
        c0 && c1 && c2 && c3 && c4 && c5
    }
    /// A copy with the same structure.
    pub fn duplicate(&self) -> (r: Self)
        ensures
            r.shape() == self.shape(),
    {
        let r = EnumType {
            path: self.path.duplicate(),
            meta: self.meta.duplicate(),
            vis: self.vis,
            name: self.name.clone(),
            generics: self.generics.duplicate(),
            variants: dup_variants(&self.variants),
        };
        proof {
            lemma_path_shape(&r.path, &self.path);
            lemma_meta_shape(&r.meta, &self.meta);
            assert(r.shape()->Node_1 =~= self.shape()->Node_1);
        }
        r
    }
}

impl Variant {
    /// Whether `other` has the same structure as `self` (what `==` compares).
    #[verifier::spinoff_prover]
    pub fn same(&self, other: &Self) -> (r: bool)
        ensures
            r == (self.shape() == other.shape()),
        decreases self,
    {
        let c0 = self.name == other.name;
        let c1 = self.fields.same(&other.fields);
        proof {
            if self.shape() == other.shape() {
                assert(self.shape()->Node_1[0] == other.shape()->Node_1[0]);
                assert(self.shape()->Node_1[1] == other.shape()->Node_1[1]);
            }
            if c0 && c1 {
                assert(self.shape()->Node_1 =~= other.shape()->Node_1);
            }
        }
        c0 && c1
    }
    /// A copy with the same structure.
    pub fn duplicate(&self) -> (r: Self)
        ensures
            r.shape() == self.shape(),
    {
        let r = Variant {
            name: self.name.clone(),
            fields: self.fields.duplicate(),
        };
        proof {
            assert(r.shape()->Node_1 =~= self.shape()->Node_1);
        }
        r
    }
}

impl StructType {
    /// Whether `other` has the same structure as `self` (what `==` compares).
    #[verifier::spinoff_prover]
    pub fn same(&self, other: &Self) -> (r: bool)
        ensures
            r == (self.shape() == other.shape()),
        decreases self,
    {
        let c0 = self.path.same(&other.path);
        let c1 = self.meta.same(&other.meta);
        let c2 = self.vis == other.vis;
        let c3 = self.name == other.name;
        let c4 = self.generics.same(&other.generics);
        let c5 = self.fields.same(&other.fields);
        proof {
            lemma_path_shape(&self.path, &other.path);
            lemma_vis_code(self.vis, other.vis);
            if self.shape() == other.shape() {
                assert(self.shape()->Node_1[0] == other.shape()->Node_1[0]);
                assert(self.shape()->Node_1[1] == other.shape()->Node_1[1]);
                assert(self.shape()->Node_1[2] == other.shape()->Node_1[2]);
                assert(self.shape()->Node_1[3] == other.shape()->Node_1[3]);
                assert(self.shape()->Node_1[4] == other.shape()->Node_1[4]);
                assert(self.shape()->Node_1[5] == other.shape()->Node_1[5]);
            }
            if c0 && c1 && c2 && c3 && c4 && c5 {
                assert(self.shape()->Node_1 =~= other.shape()->Node_1);
            }
        }
        c0 && c1 && c2 && c3 && c4 && c5
    }
    /// A copy with the same structure.
    pub fn duplicate(&self) -> (r: Self)
        ensures
            r.shape() == self.shape(),
    {
        let r = StructType {
            path: self.path.duplicate(),
            meta: self.meta.duplicate(),
            vis: self.vis,
            name: self.name.clone(),
            generics: self.generics.duplicate(),
            fields: self.fields.duplicate(),
        };
        proof {
            lemma_path_shape(&r.path, &self.path);
            lemma_meta_shape(&r.meta, &self.meta);
            assert(r.shape()->Node_1 =~= self.shape()->Node_1);
        }
        r
    }
}

impl Fields {
    /// Whether `other` has the same structure as `self` (what `==` compares).
    #[verifier::spinoff_prover]
    pub fn same(&self, other: &Self) -> (r: bool)
        ensures
            r == (self.shape() == other.shape()),
        decreases self,
    {
        let c0 = self.layout == other.layout;
        let c1 = same_fields(&self.fields, &other.fields);
        proof {
            lemma_layout_code(self.layout, other.layout);
            if self.shape() == other.shape() {
                assert(self.shape()->Node_1[0] == other.shape()->Node_1[0]);
                assert(self.shape()->Node_1[1] == other.shape()->Node_1[1]);
            }
            if c0 && c1 {
                assert(self.shape()->Node_1 =~= other.shape()->Node_1);
            }
        }
        c0 && c1
    }
    /// A copy with the same structure.
    pub fn duplicate(&self) -> (r: Self)
        ensures
            r.shape() == self.shape(),
    {
        let r = Fields {
            layout: self.layout,
            fields: dup_fields(&self.fields),
        };
        proof {
            assert(r.shape()->Node_1 =~= self.shape()->Node_1);
        }
        r
    }
}

impl Field {
    /// Whether `other` has the same structure as `self` (what `==` compares).
    #[verifier::spinoff_prover]
    pub fn same(&self, other: &Self) -> (r: bool)
        ensures
            r == (self.shape() == other.shape()),
        decreases self,
    {
        let c0 = self.vis == other.vis;
        let c1 = self.name.same(&other.name);
        let c2 = self.ty.same(&other.ty);
        proof {
            lemma_vis_code(self.vis, other.vis);
            if self.shape() == other.shape() {
                assert(self.shape()->Node_1[0] == other.shape()->Node_1[0]);
                assert(self.shape()->Node_1[1] == other.shape()->Node_1[1]);
                assert(self.shape()->Node_1[2] == other.shape()->Node_1[2]);
            }
            if c0 && c1 && c2 {
                assert(self.shape()->Node_1 =~= other.shape()->Node_1);
            }
        }
        c0 && c1 && c2
    }
    /// A copy with the same structure.
    pub fn duplicate(&self) -> (r: Self)
        ensures
            r.shape() == self.shape(),
    {
        let r = Field {
            vis: self.vis,
            name: self.name.duplicate(),
            ty: share(&self.ty),
        };
        proof {
            assert(r.shape()->Node_1 =~= self.shape()->Node_1);
        }
        r
    }
}

impl Generics {
    /// Whether `other` has the same structure as `self` (what `==` compares).
    #[verifier::spinoff_prover]
    pub fn same(&self, other: &Self) -> (r: bool)
        ensures
            r == (self.shape() == other.shape()),
        decreases self,
    {
        let c0 = same_generics(&self.0, &other.0);
        proof {
            if self.shape() == other.shape() {
                assert(self.shape()->Node_1[0] == other.shape()->Node_1[0]);
            }
            if c0 {
                assert(self.shape()->Node_1 =~= other.shape()->Node_1);
            }
        }
        c0
    }
    /// A copy with the same structure.
    pub fn duplicate(&self) -> (r: Self)
        ensures
            r.shape() == self.shape(),
    {
        let r = Generics(dup_generics(&self.0));
        assert(r.shape()->Node_1 =~= self.shape()->Node_1);
        r
    }
}

impl ConstParam {
    /// Whether `other` has the same structure as `self` (what `==` compares).
    #[verifier::spinoff_prover]
    pub fn same(&self, other: &Self) -> (r: bool)
        ensures
            r == (self.shape() == other.shape()),
        decreases self,
    {
        let c0 = self.name == other.name;
        let c1 = self.ty.same(&other.ty);
        proof {
            if self.shape() == other.shape() {
                assert(self.shape()->Node_1[0] == other.shape()->Node_1[0]);
                assert(self.shape()->Node_1[1] == other.shape()->Node_1[1]);
            }
            if c0 && c1 {
                assert(self.shape()->Node_1 =~= other.shape()->Node_1);
            }
        }
        c0 && c1
    }
    /// A copy with the same structure.
    pub fn duplicate(&self) -> (r: Self)
        ensures
            r.shape() == self.shape(),
    {
        let r = ConstParam {
            name: self.name.clone(),
            ty: share(&self.ty),
        };
        proof {
            assert(r.shape()->Node_1 =~= self.shape()->Node_1);
        }
        r
    }
}

impl LifetimeParam {
    /// Whether `other` has the same structure as `self` (what `==` compares).
    #[verifier::spinoff_prover]
    pub fn same(&self, other: &Self) -> (r: bool)
        ensures
            r == (self.shape() == other.shape()),
    {
        let c0 = self.name == other.name;
        let c1 = same_lifetimes(&self.bounds, &other.bounds);
        proof {
            if self.shape() == other.shape() {
                assert(self.shape()->Node_1[0] == other.shape()->Node_1[0]);
                assert(self.shape()->Node_1[1] == other.shape()->Node_1[1]);
            }
            if c0 && c1 {
                assert(self.shape()->Node_1 =~= other.shape()->Node_1);
            }
        }
        c0 && c1
    }
    /// A copy with the same structure.
    pub fn duplicate(&self) -> (r: Self)
        ensures
            r.shape() == self.shape(),
    {
        let r = LifetimeParam {
            name: self.name.clone(),
            bounds: dup_lifetimes(&self.bounds),
        };
        proof {
            assert(r.shape()->Node_1 =~= self.shape()->Node_1);
        }
        r
    }
}

impl TypeParam {
    /// Whether `other` has the same structure as `self` (what `==` compares).
    #[verifier::spinoff_prover]
    pub fn same(&self, other: &Self) -> (r: bool)
        ensures
            r == (self.shape() == other.shape()),
        decreases self,
    {
        let c0 = self.name == other.name;
        let c1 = same_default(&self.default, &other.default);
        let c2 = same_bounds(&self.bounds, &other.bounds);
        proof {
            if self.shape() == other.shape() {
                assert(self.shape()->Node_1[0] == other.shape()->Node_1[0]);
                assert(self.shape()->Node_1[1] == other.shape()->Node_1[1]);
                assert(self.shape()->Node_1[2] == other.shape()->Node_1[2]);
            }
            if c0 && c1 && c2 {
                assert(self.shape()->Node_1 =~= other.shape()->Node_1);
            }
        }
        c0 && c1 && c2
    }
    /// A copy with the same structure.
    pub fn duplicate(&self) -> (r: Self)
        ensures
            r.shape() == self.shape(),
    {
        let r = TypeParam {
            name: self.name.clone(),
            default: dup_default(&self.default),
            bounds: dup_bounds(&self.bounds),
        };
        proof {
            assert(r.shape()->Node_1 =~= self.shape()->Node_1);
        }
        r
    }
}

impl TraitType {
    /// Whether `other` has the same structure as `self` (what `==` compares).
    #[verifier::spinoff_prover]
    pub fn same(&self, other: &Self) -> (r: bool)
        ensures
            r == (self.shape() == other.shape()),
        decreases self,
    {
        let c0 = self.path.same(&other.path);
        let c1 = self.meta.same(&other.meta);
        let c2 = self.vis == other.vis;
        let c3 = self.name == other.name;
        let c4 = self.generics.same(&other.generics);
        let c5 = same_methods(&self.methods, &other.methods);
        proof {
            lemma_path_shape(&self.path, &other.path);
            lemma_vis_code(self.vis, other.vis);
            if self.shape() == other.shape() {
                assert(self.shape()->Node_1[0] == other.shape()->Node_1[0]);
                assert(self.shape()->Node_1[1] == other.shape()->Node_1[1]);
                assert(self.shape()->Node_1[2] == other.shape()->Node_1[2]);
                assert(self.shape()->Node_1[3] == other.shape()->Node_1[3]);
                assert(self.shape()->Node_1[4] == other.shape()->Node_1[4]);
                assert(self.shape()->Node_1[5] == other.shape()->Node_1[5]);
            }
            if c0 && c1 && c2 && c3 && c4 && c5 {
                assert(self.shape()->Node_1 =~= other.shape()->Node_1);
            }
        }
        c0 && c1 && c2 && c3 && c4 && c5
    }
    /// A copy with the same structure.
    pub fn duplicate(&self) -> (r: Self)
        ensures
            r.shape() == self.shape(),
    {
        let r = TraitType {
            path: self.path.duplicate(),
            meta: self.meta.duplicate(),
            vis: self.vis,
            name: self.name.clone(),
            generics: self.generics.duplicate(),
            methods: dup_methods(&self.methods),
        };
        proof {
            lemma_path_shape(&r.path, &self.path);
            lemma_meta_shape(&r.meta, &self.meta);
            assert(r.shape()->Node_1 =~= self.shape()->Node_1);
        }
        r
    }
}

impl Method {
    /// Whether `other` has the same structure as `self` (what `==` compares).
    #[verifier::spinoff_prover]
    pub fn same(&self, other: &Self) -> (r: bool)
        ensures
            r == (self.shape() == other.shape()),
        decreases self,
    {
        let c0 = self.meta.same(&other.meta);
        let c1 = self.is_async == other.is_async;
        let c2 = self.vis == other.vis;
        let c3 = self.name == other.name;
        let c4 = self.generics.same(&other.generics);
        let c5 = same_params(&self.params, &other.params);
        let c6 = self.return_type.same(&other.return_type);
        proof {
            lemma_vis_code(self.vis, other.vis);
            if self.shape() == other.shape() {
                assert(self.shape()->Node_1[0] == other.shape()->Node_1[0]);
                assert(self.shape()->Node_1[1] == other.shape()->Node_1[1]);
                assert(self.shape()->Node_1[2] == other.shape()->Node_1[2]);
                assert(self.shape()->Node_1[3] == other.shape()->Node_1[3]);
                assert(self.shape()->Node_1[4] == other.shape()->Node_1[4]);
                assert(self.shape()->Node_1[5] == other.shape()->Node_1[5]);
                assert(self.shape()->Node_1[6] == other.shape()->Node_1[6]);
            }
            if c0 && c1 && c2 && c3 && c4 && c5 && c6 {
                assert(self.shape()->Node_1 =~= other.shape()->Node_1);
            }
        }
        c0 && c1 && c2 && c3 && c4 && c5 && c6
    }
    /// A copy with the same structure.
    pub fn duplicate(&self) -> (r: Self)
        ensures
            r.shape() == self.shape(),
    {
        let r = Method {
            meta: self.meta.duplicate(),
            is_async: self.is_async,
            vis: self.vis,
            name: self.name.clone(),
            generics: self.generics.duplicate(),
            params: dup_params(&self.params),
            return_type: share(&self.return_type),
        };
        proof {
            lemma_meta_shape(&r.meta, &self.meta);
            assert(r.shape()->Node_1 =~= self.shape()->Node_1);
        }
        r
    }
}

impl Param {
    /// Whether `other` has the same structure as `self` (what `==` compares).
    #[verifier::spinoff_prover]
    pub fn same(&self, other: &Self) -> (r: bool)
        ensures
            r == (self.shape() == other.shape()),
        decreases self,
    {
        let c0 = self.name == other.name;
        let c1 = self.ty.same(&other.ty);
        proof {
            if self.shape() == other.shape() {
                assert(self.shape()->Node_1[0] == other.shape()->Node_1[0]);
                assert(self.shape()->Node_1[1] == other.shape()->Node_1[1]);
            }
            if c0 && c1 {
                assert(self.shape()->Node_1 =~= other.shape()->Node_1);
            }
        }
        c0 && c1
    }
    /// A copy with the same structure.
    pub fn duplicate(&self) -> (r: Self)
        ensures
            r.shape() == self.shape(),
    {
        let r = Param {
            name: self.name.clone(),
            ty: share(&self.ty),
        };
        proof {
            assert(r.shape()->Node_1 =~= self.shape()->Node_1);
        }
        r
    }
}

impl ModType {
    /// Whether `other` has the same structure as `self` (what `==` compares).
    #[verifier::spinoff_prover]
    pub fn same(&self, other: &Self) -> (r: bool)
        ensures
            r == (self.shape() == other.shape()),
        decreases self,
    {
        let c0 = self.path.same(&other.path);
        let c1 = self.meta.same(&other.meta);
        let c2 = self.vis == other.vis;
        let c3 = same_items(&self.items, &other.items);
        proof {
            lemma_path_shape(&self.path, &other.path);
            lemma_vis_code(self.vis, other.vis);
            if self.shape() == other.shape() {
                assert(self.shape()->Node_1[0] == other.shape()->Node_1[0]);
                assert(self.shape()->Node_1[1] == other.shape()->Node_1[1]);
                assert(self.shape()->Node_1[2] == other.shape()->Node_1[2]);
                assert(self.shape()->Node_1[3] == other.shape()->Node_1[3]);
            }
            if c0 && c1 && c2 && c3 {
                assert(self.shape()->Node_1 =~= other.shape()->Node_1);
            }
        }
        c0 && c1 && c2 && c3
    }
    /// A copy with the same structure.
    pub fn duplicate(&self) -> (r: Self)
        ensures
            r.shape() == self.shape(),
    {
        let r = ModType {
            path: self.path.duplicate(),
            meta: self.meta.duplicate(),
            vis: self.vis,
            items: dup_items(&self.items),
        };
        proof {
            lemma_path_shape(&r.path, &self.path);
            lemma_meta_shape(&r.meta, &self.meta);
            assert(r.shape()->Node_1 =~= self.shape()->Node_1);
        }
        r
    }
}

impl Impl {
    /// Whether `other` has the same structure as `self` (what `==` compares).
    #[verifier::spinoff_prover]
    pub fn same(&self, other: &Self) -> (r: bool)
        ensures
            r == (self.shape() == other.shape()),
        decreases self,
    {
        let c0 = self.path.same(&other.path);
        let c1 = self.meta.same(&other.meta);
        let c2 = same_trait_path(&self.of_trait, &other.of_trait);
        let c3 = self.self_ty.same(&other.self_ty);
        let c4 = self.generics.same(&other.generics);
        let c5 = same_methods(&self.methods, &other.methods);
        proof {
            lemma_path_shape(&self.path, &other.path);
            if self.shape() == other.shape() {
                assert(self.shape()->Node_1[0] == other.shape()->Node_1[0]);
                assert(self.shape()->Node_1[1] == other.shape()->Node_1[1]);
                assert(self.shape()->Node_1[2] == other.shape()->Node_1[2]);
                assert(self.shape()->Node_1[3] == other.shape()->Node_1[3]);
                assert(self.shape()->Node_1[4] == other.shape()->Node_1[4]);
                assert(self.shape()->Node_1[5] == other.shape()->Node_1[5]);
            }
            if c0 && c1 && c2 && c3 && c4 && c5 {
                assert(self.shape()->Node_1 =~= other.shape()->Node_1);
            }
        }
        c0 && c1 && c2 && c3 && c4 && c5
    }
    /// A copy with the same structure.
    pub fn duplicate(&self) -> (r: Self)
        ensures
            r.shape() == self.shape(),
    {
        let r = Impl {
            path: self.path.duplicate(),
            meta: self.meta.duplicate(),
            of_trait: dup_trait_path(&self.of_trait),
            self_ty: self.self_ty.duplicate(),
            generics: self.generics.duplicate(),
            methods: dup_methods(&self.methods),
        };
        proof {
            lemma_path_shape(&r.path, &self.path);
            lemma_meta_shape(&r.meta, &self.meta);
            assert(r.shape()->Node_1 =~= self.shape()->Node_1);
        }
        r
    }
}

impl Generic {
    /// Whether `other` has the same structure as `self` (what `==` compares).
    pub fn same(&self, other: &Self) -> (r: bool)
        ensures
            r == (self.shape() == other.shape()),
        decreases self,
    {
        let r = match (self, other) {
            (Generic::Const(a), Generic::Const(b)) => a.same(b),
            (Generic::Lifetime(a), Generic::Lifetime(b)) => a.same(b),
            (Generic::Type(a), Generic::Type(b)) => a.same(b),
            _ => false,
        };
        proof {
            if self.shape() == other.shape() {
                assert(self.shape()->Node_1[0] == other.shape()->Node_1[0]);
            }
            if r {
                assert(self.shape()->Node_1 =~= other.shape()->Node_1);
            }
        }
        r
    }

    /// A copy with the same structure.
    pub fn duplicate(&self) -> (r: Self)
        ensures
            r.shape() == self.shape(),
    {
        let r = match self {
            Generic::Const(c) => Generic::Const(c.duplicate()),
            Generic::Lifetime(l) => Generic::Lifetime(l.duplicate()),
            Generic::Type(t) => Generic::Type(t.duplicate()),
        };
        assert(r.shape()->Node_1 =~= self.shape()->Node_1);
        r
    }
}

impl Item {
    /// Whether `other` has the same structure as `self` (what `==` compares).
    #[verifier::spinoff_prover]
    #[verifier::rlimit(40)]
    pub fn same(&self, other: &Self) -> (r: bool)
        ensures
            r == (self.shape() == other.shape()),
        decreases self,
    {
        let r = match (self, other) {
            (Item::Type(a), Item::Type(b)) => a.same(b),
            (Item::Impl(a), Item::Impl(b)) => a.same(b),
            _ => false,
        };
        proof {
            if self.shape() == other.shape() {
                assert(self.shape()->Node_1[0] == other.shape()->Node_1[0]);
            }
            if r {
                assert(self.shape()->Node_1 =~= other.shape()->Node_1);
            }
        }
        r
    }

    /// A copy with the same structure.
    pub fn duplicate(&self) -> (r: Self)
        ensures
            r.shape() == self.shape(),
    {
        let r = match self {
            Item::Type(t) => Item::Type(t.duplicate()),
            Item::Impl(i) => Item::Impl(i.duplicate()),
        };
        assert(r.shape()->Node_1 =~= self.shape()->Node_1);
        r
    }
}

#[verifier::spinoff_prover]
#[verifier::rlimit(40)]
fn same_default(a: &Option<Type>, b: &Option<Type>) -> (r: bool)
    ensures
        r == (opt_type_shape(*a) == opt_type_shape(*b)),
    decreases a,
{
    match (a, b) {
        (None, None) => true,
        (Some(x), Some(y)) => {
            let r = x.same(y);
            proof {
                if opt_type_shape(*a) == opt_type_shape(*b) {
                    assert(opt_type_shape(*a)->Node_1[0] == opt_type_shape(*b)->Node_1[0]);
                }
                if r {
                    assert(opt_type_shape(*a)->Node_1 =~= opt_type_shape(*b)->Node_1);
                }
            }
            r
        },
        _ => false,
    }
}

fn dup_default(a: &Option<Type>) -> (r: Option<Type>)
    ensures
        r == *a,
{
    match a {
        None => None,
        Some(t) => Some(t.duplicate()),
    }
}

fn same_trait_path(a: &Option<Path>, b: &Option<Path>) -> (r: bool)
    ensures
        r == (opt_path_shape(*a) == opt_path_shape(*b)),
{
    match (a, b) {
        (None, None) => true,
        (Some(x), Some(y)) => {
            let r = x.same(y);
            proof {
                lemma_path_shape(x, y);
                if opt_path_shape(*a) == opt_path_shape(*b) {
                    assert(opt_path_shape(*a)->Node_1[0] == opt_path_shape(*b)->Node_1[0]);
                }
                if r {
                    assert(opt_path_shape(*a)->Node_1 =~= opt_path_shape(*b)->Node_1);
                }
            }
            r
        },
        _ => false,
    }
}

fn dup_trait_path(a: &Option<Path>) -> (r: Option<Path>)
    ensures
        opt_path_shape(r) == opt_path_shape(*a),
{
    match a {
        None => None,
        Some(p) => {
            let q = p.duplicate();
            proof { lemma_path_shape(&q, p); }
            let r = Some(q);
            assert(opt_path_shape(r)->Node_1 =~= opt_path_shape(*a)->Node_1);
            r
        },
    }
}

} // verus!
