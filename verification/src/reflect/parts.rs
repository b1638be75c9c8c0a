//! Fields, generic parameters, methods, parameters and impl blocks:
//! constructors, builders, getters and lookups by name.

use vstd::prelude::*;
use std::rc::Rc;
use crate::text::{first_index, lemma_first_index, lemma_first_index_at, lemma_first_index_push};
use crate::reflect::shape::share;
use crate::reflect::path::Path;
use crate::reflect::leaf::{
    Layout, Visibility, MetaData, Bound, LifetimeBound, FieldName, NumberType, BoolType, StrType, ThisType,
};
use crate::reflect::model::{
    Type, RefType, MutType, SliceType, MapType, TupleType, EnumType, Variant, StructType, Fields, Field,
    Generics, Generic, ConstParam, LifetimeParam, TypeParam, TraitType, Method, Param, ModType, Item, Impl,
    dup_types,
};
use crate::reflect::render::qualified;
use crate::reflect::type_id::TypeId;
use crate::reflect::decls::{field_names, method_names, param_names};

verus! {

impl Fields {
    pub fn new() -> (b: FieldsBuilder)
        ensures
            b.0.layout == Layout::Unit,
            b.0.fields@ == Seq::<Field>::empty(),
    {
        FieldsBuilder::new()
    }

    pub fn layout(&self) -> (l: &Layout)
        ensures
            *l == self.layout,
    {
        &self.layout
    }

    pub fn len(&self) -> (n: usize)
        ensures
            n == self.fields@.len(),
    {
        self.fields.len()
    }

    pub fn is_empty(&self) -> (r: bool)
        ensures
            r == (self.fields@.len() == 0),
    {
        self.fields.len() == 0
    }

    /// The fields, in order.
    pub fn iter(&self) -> (s: &[Field])
        ensures
            s@ == self.fields@,
    {
        self.fields.as_slice()
    }

    fn position(&self, name: &FieldName) -> (r: Option<usize>)
        ensures
            r matches Some(i) ==> first_index(field_names(self.fields@), name.shape()) == Some(i as int),
            r is None ==> first_index(field_names(self.fields@), name.shape()) is None,
    {
        let mut i: usize = 0;
        while i < self.fields.len()
            invariant
                i <= self.fields.len(),
                forall|j: int| 0 <= j < i ==> field_names(self.fields@)[j] != name.shape(),
            decreases self.fields.len() - i,
        {
            if self.fields[i].name.same(name) {
                proof {
                    lemma_first_index_at(field_names(self.fields@), name.shape(), i as int);
                }
                return Some(i);
            }
            i = i + 1;
        }
        proof {
            lemma_first_index(field_names(self.fields@), name.shape());
        }
        None
    }

    /// Whether some field is called `name`.
    pub fn has(&self, name: &FieldName) -> (r: bool)
        ensures
            r == (first_index(field_names(self.fields@), name.shape()) is Some),
    {
        self.position(name).is_some()
    }

    /// The first field called `name`.
    pub fn get(&self, name: &FieldName) -> (r: Option<&Field>)
        ensures
            first_index(field_names(self.fields@), name.shape()) matches Some(i) ==> r == Some(&self.fields@[i]),
            first_index(field_names(self.fields@), name.shape()) is None ==> r is None,
    {
        proof { lemma_first_index(field_names(self.fields@), name.shape()); }
        match self.position(name) {
            Some(i) => Some(&self.fields[i]),
            None => None,
        }
    }

    /// The first field called `name`, to change in place.
    pub fn get_mut(&mut self, name: &FieldName) -> (r: &mut Field)
        requires
            first_index(field_names(old(self).fields@), name.shape()) is Some,
        ensures
            *r == old(self).fields@[first_index(field_names(old(self).fields@), name.shape()).unwrap()],
            final(self).layout == old(self).layout,
            final(self).fields@ == old(self).fields@.update(
                first_index(field_names(old(self).fields@), name.shape()).unwrap(),
                *final(r),
            ),
    {
        proof { lemma_first_index(field_names(self.fields@), name.shape()); }
        let i = match self.position(name) {
            Some(i) => i,
            None => vstd::pervasive::unreached(),
        };
        &mut self.fields[i]
    }
}

/// Builds a `Fields` one part at a time.
#[derive(Debug)]
pub struct FieldsBuilder(pub Fields);

/// Adding a field keeps every lookup by name as it was, except that the new
/// field is found under its own name when no earlier field has that name.
pub proof fn law_fields_get_after_push(fields: &Fields, f: Field, name: &FieldName)
    ensures
        first_index(field_names(fields.fields@.push(f)), name.shape()) == match first_index(
            field_names(fields.fields@),
            name.shape(),
        ) {
            Some(i) => Some(i),
            None => if f.name.shape() == name.shape() {
                Some(fields.fields@.len() as int)
            } else {
                None
            },
        },
{
    assert(field_names(fields.fields@.push(f)) =~= field_names(fields.fields@).push(f.name.shape()));
    lemma_first_index_push(field_names(fields.fields@), f.name.shape(), name.shape());
}

impl FieldsBuilder {
    pub fn new() -> (b: Self)
        ensures
            b.0.layout == Layout::Unit,
            b.0.fields@ == Seq::<Field>::empty(),
    {
        FieldsBuilder(Fields {
            layout: Layout::Unit,
            fields: Vec::new(),
        })
    }

    pub fn layout(self, layout: Layout) -> (b: Self)
        ensures
            b.0 == (Fields { layout, ..self.0 }),
    {
        let mut t = self.0;
        t.layout = layout;
        FieldsBuilder(t)
    }

    pub fn fields(self, fields: Vec<Field>) -> (b: Self)
        ensures
            b.0.fields@ == self.0.fields@ + fields@ && b.0 == (Fields { fields: b.0.fields, ..self.0 }),
    {
        let mut t = self.0;
        let mut more = fields; t.fields.append(&mut more);
        FieldsBuilder(t)
    }

    pub fn field(self, field: Field) -> (b: Self)
        ensures
            b.0.fields@ == self.0.fields@.push(field) && b.0 == (Fields { fields: b.0.fields, ..self.0 }),
    {
        let mut t = self.0;
        t.fields.push(field);
        FieldsBuilder(t)
    }

    pub fn build(self) -> (t: Fields)
        ensures
            t == self.0,
    {
        self.0
    }
}

impl Default for FieldsBuilder {
    fn default() -> (b: Self)
        ensures
            b.0.layout == Layout::Unit,
            b.0.fields@ == Seq::<Field>::empty(),
    {
        FieldsBuilder::new()
    }
}

impl Field {
    pub fn new(vis: Visibility, name: FieldName, ty: Type) -> (f: Self)
        ensures
            f.vis == vis,
            f.name == name,
            *f.ty == ty,
    {
        Field { vis, name, ty: Rc::new(ty) }
    }

    pub fn vis(&self) -> (v: &Visibility)
        ensures
            *v == self.vis,
    {
        &self.vis
    }

    pub fn name(&self) -> (n: &FieldName)
        ensures
            *n == self.name,
    {
        &self.name
    }

    pub fn ty(&self) -> (t: &Type)
        ensures
            *t == *self.ty,
    {
        &*self.ty
    }
}

impl Variant {
    pub fn new(name: &str, fields: Fields) -> (v: Self)
        ensures
            v.name@ == name@,
            v.fields == fields,
    {
        Variant { name: String::from_str(name), fields }
    }

    pub fn name(&self) -> (s: &str)
        ensures
            s@ == self.name@,
    {
        self.name.as_str()
    }

    pub fn fields(&self) -> (f: &Fields)
        ensures
            *f == self.fields,
    {
        &self.fields
    }
}

impl Generics {
    pub fn new() -> (g: Self)
        ensures
            g.0@ == Seq::<Generic>::empty(),
    {
        Generics(Vec::new())
    }

    pub fn from_params(params: Vec<Generic>) -> (g: Self)
        ensures
            g.0 == params,
    {
        Generics(params)
    }

    pub fn len(&self) -> (n: usize)
        ensures
            n == self.0@.len(),
    {
        self.0.len()
    }

    pub fn is_empty(&self) -> (r: bool)
        ensures
            r == (self.0@.len() == 0),
    {
        self.0.len() == 0
    }

    /// The parameters, in order.
    pub fn iter(&self) -> (s: &[Generic])
        ensures
            s@ == self.0@,
    {
        self.0.as_slice()
    }

    /// The parameter at `index`.
    pub fn index(&self, index: usize) -> (g: &Generic)
        requires
            index < self.0@.len(),
        ensures
            *g == self.0@[index as int],
    {
        &self.0[index]
    }

    /// Appends a copy of `param`.
    pub fn add(&mut self, param: &Generic)
        ensures
            final(self).0@.len() == old(self).0@.len() + 1,
            final(self).0@.drop_last() == old(self).0@,
            final(self).0@.last().shape() == param.shape(),
    {
        let c = param.duplicate();
        self.0.push(c);
        assert(self.0@.drop_last() =~= old(self).0@);
    }
}

impl Default for Generics {
    fn default() -> (g: Self)
        ensures
            g.0@ == Seq::<Generic>::empty(),
    {
        Generics::new()
    }
}

impl Generic {
    /// The kind of parameter: `const`, `lifetime` or `type`.
    pub open spec fn spec_name(&self) -> Seq<char> {
        match self {
            Generic::Const(_) => "const"@,
            Generic::Lifetime(_) => "lifetime"@,
            Generic::Type(_) => "type"@,
        }
    }

    pub fn name(&self) -> (s: &str)
        ensures
            s@ == self.spec_name(),
    {
        match self {
            Generic::Const(_) => "const",
            Generic::Lifetime(_) => "lifetime",
            Generic::Type(_) => "type",
        }
    }

    pub fn is_const(&self) -> (r: bool)
        ensures
            r == (*self is Const),
    {
        matches!(self, Generic::Const(_))
    }

    pub fn is_lifetime(&self) -> (r: bool)
        ensures
            r == (*self is Lifetime),
    {
        matches!(self, Generic::Lifetime(_))
    }

    pub fn is_type(&self) -> (r: bool)
        ensures
            r == (*self is Type),
    {
        matches!(self, Generic::Type(_))
    }

    pub fn to_const(&self) -> (c: ConstParam)
        requires
            *self is Const,
        ensures
            c.shape() == self->Const_0.shape(),
    {
        match self {
            Generic::Const(v) => v.duplicate(),
            _ => vstd::pervasive::unreached(),
        }
    }

    pub fn to_lifetime(&self) -> (l: LifetimeParam)
        requires
            *self is Lifetime,
        ensures
            l.shape() == self->Lifetime_0.shape(),
    {
        match self {
            Generic::Lifetime(v) => v.duplicate(),
            _ => vstd::pervasive::unreached(),
        }
    }

    pub fn to_type(&self) -> (t: TypeParam)
        requires
            *self is Type,
        ensures
            t.shape() == self->Type_0.shape(),
    {
        match self {
            Generic::Type(v) => v.duplicate(),
            _ => vstd::pervasive::unreached(),
        }
    }
}

impl ConstParam {
    pub fn new(name: &str, ty: Type) -> (c: Self)
        ensures
            c.name@ == name@,
            *c.ty == ty,
    {
        ConstParam { name: String::from_str(name), ty: Rc::new(ty) }
    }

    pub fn to_generic(&self) -> (g: Generic)
        ensures
            g is Const,
            g->Const_0.shape() == self.shape(),
    {
        Generic::Const(self.duplicate())
    }

    pub fn name(&self) -> (s: &str)
        ensures
            s@ == self.name@,
    {
        self.name.as_str()
    }

    pub fn ty(&self) -> (t: &Type)
        ensures
            *t == *self.ty,
    {
        &*self.ty
    }
}

impl LifetimeParam {
    pub fn new(name: &str, bounds: &[LifetimeBound]) -> (p: Self)
        ensures
            p.name@ == name@,
            p.bounds@.len() == bounds@.len(),
            forall|i: int| 0 <= i < bounds@.len() ==> #[trigger] p.bounds@[i].name@ == bounds@[i].name@,
    {
        let mut v: Vec<LifetimeBound> = Vec::new();
        let mut i: usize = 0;
        while i < bounds.len()
            invariant
                i <= bounds@.len(),
                v@.len() == i,
                forall|j: int| 0 <= j < i ==> #[trigger] v@[j].name@ == bounds@[j].name@,
            decreases bounds@.len() - i,
        {
            v.push(bounds[i].duplicate());
            i = i + 1;
        }
        LifetimeParam { name: String::from_str(name), bounds: v }
    }

    pub fn to_generic(&self) -> (g: Generic)
        ensures
            g is Lifetime,
            g->Lifetime_0.shape() == self.shape(),
    {
        Generic::Lifetime(self.duplicate())
    }

    pub fn name(&self) -> (s: &str)
        ensures
            s@ == self.name@,
    {
        self.name.as_str()
    }

    pub fn bounds(&self) -> (s: &[LifetimeBound])
        ensures
            s@ == self.bounds@,
    {
        self.bounds.as_slice()
    }
}

impl TypeParam {
    pub fn new() -> (b: TypeParamBuilder)
        ensures
            b.0.name@ == Seq::<char>::empty(),
            b.0.default is None,
            b.0.bounds@ == Seq::<Bound>::empty(),
    {
        TypeParamBuilder::new()
    }

    pub fn to_generic(&self) -> (g: Generic)
        ensures
            g is Type,
            g->Type_0.shape() == self.shape(),
    {
        Generic::Type(self.duplicate())
    }

    pub fn name(&self) -> (s: &str)
        ensures
            s@ == self.name@,
    {
        self.name.as_str()
    }

    pub fn bounds(&self) -> (s: &[Bound])
        ensures
            s@ == self.bounds@,
    {
        self.bounds.as_slice()
    }

    pub fn default(&self) -> (d: Option<&Type>)
        ensures
            self.default matches Some(t) ==> d == Some(&t),
            self.default is None ==> d is None,
    {
        match &self.default {
            None => None,
            Some(v) => Some(v),
        }
    }
}

/// Builds a `TypeParam` one part at a time.
#[derive(Debug)]
pub struct TypeParamBuilder(pub TypeParam);

impl TypeParamBuilder {
    pub fn new() -> (b: Self)
        ensures
            b.0.name@ == Seq::<char>::empty(),
            b.0.default is None,
            b.0.bounds@ == Seq::<Bound>::empty(),
    {
        TypeParamBuilder(TypeParam {
            name: String::new(),
            default: None,
            bounds: Vec::new(),
        })
    }

    pub fn name(self, name: &str) -> (b: Self)
        ensures
            b.0.name@ == name@ && b.0 == (TypeParam { name: b.0.name, ..self.0 }),
    {
        let mut t = self.0;
        t.name = String::from_str(name);
        TypeParamBuilder(t)
    }

    pub fn default(self, default: Type) -> (b: Self)
        ensures
            b.0 == (TypeParam { default: Some(default), ..self.0 }),
    {
        let mut t = self.0;
        t.default = Some(default);
        TypeParamBuilder(t)
    }

    pub fn bounds(self, bounds: Vec<Bound>) -> (b: Self)
        ensures
            b.0.bounds@ == self.0.bounds@ + bounds@ && b.0 == (TypeParam { bounds: b.0.bounds, ..self.0 }),
    {
        let mut t = self.0;
        let mut more = bounds; t.bounds.append(&mut more);
        TypeParamBuilder(t)
    }

    pub fn bound(self, bound: Bound) -> (b: Self)
        ensures
            b.0.bounds@ == self.0.bounds@.push(bound) && b.0 == (TypeParam { bounds: b.0.bounds, ..self.0 }),
    {
        let mut t = self.0;
        t.bounds.push(bound);
        TypeParamBuilder(t)
    }

    pub fn build(self) -> (t: TypeParam)
        ensures
            t == self.0,
    {
        self.0
    }
}


impl Method {
    pub fn new() -> (b: MethodBuilder)
        ensures
            b.0.meta@ == Seq::<(Seq<char>, Seq<char>)>::empty(),
            !b.0.is_async,
            b.0.vis == Visibility::Private,
            b.0.name@ == Seq::<char>::empty(),
            b.0.generics.0@ == Seq::<Generic>::empty(),
            b.0.params@ == Seq::<Param>::empty(),
            *b.0.return_type is Void,
    {
        MethodBuilder::new()
    }

    pub fn meta(&self) -> (m: &MetaData)
        ensures
            m == &self.meta,
    {
        &self.meta
    }

    pub fn is_async(&self) -> (r: bool)
        ensures
            r == self.is_async,
    {
        self.is_async
    }

    pub fn vis(&self) -> (v: Visibility)
        ensures
            v == self.vis,
    {
        self.vis
    }

    pub fn name(&self) -> (s: &str)
        ensures
            s@ == self.name@,
    {
        self.name.as_str()
    }

    pub fn generics(&self) -> (g: &Generics)
        ensures
            g == &self.generics,
    {
        &self.generics
    }

    pub fn params(&self) -> (s: &[Param])
        ensures
            s@ == self.params@,
    {
        self.params.as_slice()
    }

    pub fn return_type(&self) -> (t: &Type)
        ensures
            *t == *self.return_type,
    {
        &*self.return_type
    }

    fn position(&self, name: &str) -> (r: Option<usize>)
        ensures
            r matches Some(i) ==> first_index(param_names(self.params@), name@) == Some(i as int),
            r is None ==> first_index(param_names(self.params@), name@) is None,
    {
        let n = String::from_str(name);
        let mut i: usize = 0;
        while i < self.params.len()
            invariant
                i <= self.params.len(),
                n@ == name@,
                forall|j: int| 0 <= j < i ==> param_names(self.params@)[j] != name@,
            decreases self.params.len() - i,
        {
            if self.params[i].name == n {
                proof {
                    lemma_first_index_at(param_names(self.params@), name@, i as int);
                }
                return Some(i);
            }
            i = i + 1;
        }
        proof {
            lemma_first_index(param_names(self.params@), name@);
        }
        None
    }

    pub fn has_param(&self, name: &str) -> (r: bool)
        ensures
            r == (first_index(param_names(self.params@), name@) is Some),
    {
        self.position(name).is_some()
    }

    pub fn param(&self, name: &str) -> (r: &Param)
        requires
            first_index(param_names(self.params@), name@) is Some,
        ensures
            *r == self.params@[first_index(param_names(self.params@), name@).unwrap()],
    {
        proof { lemma_first_index(param_names(self.params@), name@); }
        match self.position(name) {
            Some(i) => &self.params[i],
            None => {
                vstd::pervasive::unreached()
            },
        }
    }

    pub fn param_mut(&mut self, name: &str) -> (r: &mut Param)
        requires
            first_index(param_names(old(self).params@), name@) is Some,
        ensures
            *r == old(self).params@[first_index(param_names(old(self).params@), name@).unwrap()],
            final(self).params@ == old(self).params@.update(first_index(param_names(old(self).params@), name@).unwrap(), *final(r)),
    {
        proof { lemma_first_index(param_names(self.params@), name@); }
        let i = match self.position(name) {
            Some(i) => i,
            None => {
                vstd::pervasive::unreached()
            },
        };
        &mut self.params[i]
    }
}

/// Builds a `Method` one part at a time.
#[derive(Debug)]
pub struct MethodBuilder(pub Method);

impl MethodBuilder {
    pub fn new() -> (b: Self)
        ensures
            b.0.meta@ == Seq::<(Seq<char>, Seq<char>)>::empty(),
            b.0.is_async == false,
            b.0.vis == Visibility::Private,
            b.0.name@ == Seq::<char>::empty(),
            b.0.generics.0@ == Seq::<Generic>::empty(),
            b.0.params@ == Seq::<Param>::empty(),
            b.0.return_type == Type::Void,
    {
        MethodBuilder(Method {
            meta: MetaData::new(),
            is_async: false,
            vis: Visibility::Private,
            name: String::new(),
            generics: Generics(Vec::new()),
            params: Vec::new(),
            return_type: Rc::new(Type::Void),
        })
    }

    pub fn name(self, name: &str) -> (b: Self)
        ensures
            b.0.name@ == name@ && b.0 == (Method { name: b.0.name, ..self.0 }),
    {
        let mut t = self.0;
        t.name = String::from_str(name);
        MethodBuilder(t)
    }

    pub fn meta(self, meta: MetaData) -> (b: Self)
        ensures
            b.0 == (Method { meta, ..self.0 }),
    {
        let mut t = self.0;
        t.meta = meta;
        MethodBuilder(t)
    }

    pub fn is_async(self, is_async: bool) -> (b: Self)
        ensures
            b.0 == (Method { is_async, ..self.0 }),
    {
        let mut t = self.0;
        t.is_async = is_async;
        MethodBuilder(t)
    }

    pub fn visibility(self, vis: Visibility) -> (b: Self)
        ensures
            b.0 == (Method { vis, ..self.0 }),
    {
        let mut t = self.0;
        t.vis = vis;
        MethodBuilder(t)
    }

    pub fn generics(self, generics: Generics) -> (b: Self)
        ensures
            b.0 == (Method { generics, ..self.0 }),
    {
        let mut t = self.0;
        t.generics = generics;
        MethodBuilder(t)
    }

    pub fn params(self, params: Vec<Param>) -> (b: Self)
        ensures
            b.0.params@ == self.0.params@ + params@ && b.0 == (Method { params: b.0.params, ..self.0 }),
    {
        let mut t = self.0;
        let mut more = params; t.params.append(&mut more);
        MethodBuilder(t)
    }

    pub fn param(self, param: Param) -> (b: Self)
        ensures
            b.0.params@ == self.0.params@.push(param) && b.0 == (Method { params: b.0.params, ..self.0 }),
    {
        let mut t = self.0;
        t.params.push(param);
        MethodBuilder(t)
    }

    pub fn return_type(self, ty: Type) -> (b: Self)
        ensures
            *b.0.return_type == ty && b.0 == (Method { return_type: b.0.return_type, ..self.0 }),
    {
        let mut t = self.0;
        t.return_type = Rc::new(ty);
        MethodBuilder(t)
    }

    pub fn build(self) -> (t: Method)
        ensures
            t == self.0,
    {
        self.0
    }
}

impl Default for MethodBuilder {
    fn default() -> (b: Self)
        ensures
            b.0.meta@ == Seq::<(Seq<char>, Seq<char>)>::empty(),
            b.0.is_async == false,
            b.0.vis == Visibility::Private,
            b.0.name@ == Seq::<char>::empty(),
            b.0.generics.0@ == Seq::<Generic>::empty(),
            b.0.params@ == Seq::<Param>::empty(),
            b.0.return_type == Type::Void,
    {
        MethodBuilder::new()
    }
}

impl Param {
    pub fn new(name: &str, ty: Type) -> (p: Self)
        ensures
            p.name@ == name@,
            *p.ty == ty,
    {
        Param { name: String::from_str(name), ty: Rc::new(ty) }
    }

    pub fn name(&self) -> (s: &str)
        ensures
            s@ == self.name@,
    {
        self.name.as_str()
    }

    pub fn ty(&self) -> (t: &Type)
        ensures
            *t == *self.ty,
    {
        &*self.ty
    }
}

impl Item {
    pub fn is_type(&self) -> (r: bool)
        ensures
            r == (*self is Type),
    {
        matches!(self, Item::Type(_))
    }

    pub fn is_impl(&self) -> (r: bool)
        ensures
            r == (*self is Impl),
    {
        matches!(self, Item::Impl(_))
    }
}

/// The path that identifies an impl: its own path, then the path of the
/// type it is for, then the path of the trait it implements.
pub open spec fn impl_id_parts(i: &Impl) -> Seq<Seq<char>> {
    i.path@ + i.self_ty.spec_path()@ + match i.of_trait {
        None => Seq::empty(),
        Some(p) => p@,
    }
}

impl Impl {
    pub fn new() -> (b: ImplBuilder)
        ensures
            b.0.path@ == Seq::<Seq<char>>::empty(),
            b.0.meta@ == Seq::<(Seq<char>, Seq<char>)>::empty(),
            b.0.of_trait is None,
            b.0.self_ty == Type::Any,
            b.0.generics.0@ == Seq::<Generic>::empty(),
            b.0.methods@ == Seq::<Method>::empty(),
    {
        ImplBuilder::new()
    }

    pub fn to_item(&self) -> (i: Item)
        ensures
            i is Impl,
            i->Impl_0.shape() == self.shape(),
    {
        Item::Impl(self.duplicate())
    }

    /// The parts of `impl_id_parts` joined with `::`.
    pub fn id(&self) -> (id: TypeId)
        requires
            self.self_ty.has_path(),
        ensures
            id@ == crate::text::join(impl_id_parts(self), crate::reflect::path::sep()),
    {
        let mut path = self.path.duplicate().add(self.self_ty.path());
        match &self.of_trait {
            Some(of) => {
                path = path.add(of);
            },
            None => {},
        }
        assert(path@ =~= impl_id_parts(self));
        TypeId(path.to_string())
    }

    pub fn len(&self) -> (n: usize)
        ensures
            n == self.methods@.len(),
    {
        self.methods.len()
    }

    pub fn is_empty(&self) -> (r: bool)
        ensures
            r == (self.methods@.len() == 0),
    {
        self.methods.len() == 0
    }

    pub fn meta(&self) -> (m: &MetaData)
        ensures
            m == &self.meta,
    {
        &self.meta
    }

    pub fn of_trait(&self) -> (p: Option<&Path>)
        ensures
            self.of_trait matches Some(t) ==> p == Some(&t),
            self.of_trait is None ==> p is None,
    {
        match &self.of_trait {
            None => None,
            Some(v) => Some(v),
        }
    }

    pub fn self_ty(&self) -> (t: &Type)
        ensures
            *t == self.self_ty,
    {
        &self.self_ty
    }

    pub fn generics(&self) -> (g: &Generics)
        ensures
            g == &self.generics,
    {
        &self.generics
    }

    pub fn methods(&self) -> (s: &[Method])
        ensures
            s@ == self.methods@,
    {
        self.methods.as_slice()
    }

    fn position(&self, name: &str) -> (r: Option<usize>)
        ensures
            r matches Some(i) ==> first_index(method_names(self.methods@), name@) == Some(i as int),
            r is None ==> first_index(method_names(self.methods@), name@) is None,
    {
        let n = String::from_str(name);
        let mut i: usize = 0;
        while i < self.methods.len()
            invariant
                i <= self.methods.len(),
                n@ == name@,
                forall|j: int| 0 <= j < i ==> method_names(self.methods@)[j] != name@,
            decreases self.methods.len() - i,
        {
            if self.methods[i].name == n {
                proof {
                    lemma_first_index_at(method_names(self.methods@), name@, i as int);
                }
                return Some(i);
            }
            i = i + 1;
        }
        proof {
            lemma_first_index(method_names(self.methods@), name@);
        }
        None
    }

    pub fn has_method(&self, name: &str) -> (r: bool)
        ensures
            r == (first_index(method_names(self.methods@), name@) is Some),
    {
        self.position(name).is_some()
    }

    pub fn method(&self, name: &str) -> (r: &Method)
        requires
            first_index(method_names(self.methods@), name@) is Some,
        ensures
            *r == self.methods@[first_index(method_names(self.methods@), name@).unwrap()],
    {
        proof { lemma_first_index(method_names(self.methods@), name@); }
        match self.position(name) {
            Some(i) => &self.methods[i],
            None => {
                vstd::pervasive::unreached()
            },
        }
    }

    pub fn method_mut(&mut self, name: &str) -> (r: &mut Method)
        requires
            first_index(method_names(old(self).methods@), name@) is Some,
        ensures
            *r == old(self).methods@[first_index(method_names(old(self).methods@), name@).unwrap()],
            final(self).methods@ == old(self).methods@.update(first_index(method_names(old(self).methods@), name@).unwrap(), *final(r)),
    {
        proof { lemma_first_index(method_names(self.methods@), name@); }
        let i = match self.position(name) {
            Some(i) => i,
            None => {
                vstd::pervasive::unreached()
            },
        };
        &mut self.methods[i]
    }
}

/// Builds a `Impl` one part at a time.
#[derive(Debug)]
pub struct ImplBuilder(pub Impl);

impl ImplBuilder {
    pub fn new() -> (b: Self)
        ensures
            b.0.path@ == Seq::<Seq<char>>::empty(),
            b.0.meta@ == Seq::<(Seq<char>, Seq<char>)>::empty(),
            b.0.of_trait is None,
            b.0.self_ty == Type::Any,
            b.0.generics.0@ == Seq::<Generic>::empty(),
            b.0.methods@ == Seq::<Method>::empty(),
    {
        ImplBuilder(Impl {
            path: Path::new(),
            meta: MetaData::new(),
            of_trait: None,
            self_ty: Type::Any,
            generics: Generics(Vec::new()),
            methods: Vec::new(),
        })
    }

    pub fn path(self, path: Path) -> (b: Self)
        ensures
            b.0 == (Impl { path, ..self.0 }),
    {
        let mut t = self.0;
        t.path = path;
        ImplBuilder(t)
    }

    pub fn ty(self, ty: Type) -> (b: Self)
        ensures
            b.0 == (Impl { self_ty: ty, ..self.0 }),
    {
        let mut t = self.0;
        t.self_ty = ty;
        ImplBuilder(t)
    }

    pub fn meta(self, meta: MetaData) -> (b: Self)
        ensures
            b.0 == (Impl { meta, ..self.0 }),
    {
        let mut t = self.0;
        t.meta = meta;
        ImplBuilder(t)
    }

    pub fn of(self, of_trait: Path) -> (b: Self)
        ensures
            b.0 == (Impl { of_trait: Some(of_trait), ..self.0 }),
    {
        let mut t = self.0;
        t.of_trait = Some(of_trait);
        ImplBuilder(t)
    }

    pub fn generics(self, generics: Generics) -> (b: Self)
        ensures
            b.0 == (Impl { generics, ..self.0 }),
    {
        let mut t = self.0;
        t.generics = generics;
        ImplBuilder(t)
    }

    pub fn methods(self, methods: Vec<Method>) -> (b: Self)
        ensures
            b.0.methods@ == self.0.methods@ + methods@ && b.0 == (Impl { methods: b.0.methods, ..self.0 }),
    {
        let mut t = self.0;
        let mut more = methods; t.methods.append(&mut more);
        ImplBuilder(t)
    }

    pub fn method(self, method: Method) -> (b: Self)
        ensures
            b.0.methods@ == self.0.methods@.push(method) && b.0 == (Impl { methods: b.0.methods, ..self.0 }),
    {
        let mut t = self.0;
        t.methods.push(method);
        ImplBuilder(t)
    }

    pub fn build(self) -> (t: Impl)
        ensures
            t == self.0,
    {
        self.0
    }
}

impl Default for ImplBuilder {
    fn default() -> (b: Self)
        ensures
            b.0.path@ == Seq::<Seq<char>>::empty(),
            b.0.meta@ == Seq::<(Seq<char>, Seq<char>)>::empty(),
            b.0.of_trait is None,
            b.0.self_ty == Type::Any,
            b.0.generics.0@ == Seq::<Generic>::empty(),
            b.0.methods@ == Seq::<Method>::empty(),
    {
        ImplBuilder::new()
    }
}

} // verus!
