//! The descriptor types' own operations: constructors, builders, getters,
//! lookups by name, ids and the conversions to `Type`.

use vstd::prelude::*;
use std::rc::Rc;
use crate::text::{first_index, lemma_first_index, lemma_first_index_at};
use crate::reflect::shape::share;
use crate::reflect::path::Path;
use crate::reflect::leaf::{
    Layout, Visibility, MetaData, Bound, LifetimeBound, FieldName, NumberType, BoolType, StrType, ThisType,
};
use crate::reflect::model::{
    Type, RefType, MutType, SliceType, MapType, TupleType, EnumType, Variant, StructType, Fields, Field,
    Generics, Generic, ConstParam, LifetimeParam, TypeParam, TraitType, Method, Param, ModType, Item, Impl,
    dup_types,
};
use crate::reflect::render::qualified;
use crate::reflect::type_id::TypeId;

verus! {

/// The names of the variants, in order.
pub open spec fn variant_names(s: Seq<Variant>) -> Seq<Seq<char>> {
    s.map_values(|v: Variant| v.name@)
}

/// The names of the fields, in order.
pub open spec fn field_names(s: Seq<Field>) -> Seq<crate::reflect::shape::Shape> {
    s.map_values(|f: Field| f.name.shape())
}

/// The names of the methods, in order.
pub open spec fn method_names(s: Seq<Method>) -> Seq<Seq<char>> {
    s.map_values(|m: Method| m.name@)
}

/// The names of the parameters, in order.
pub open spec fn param_names(s: Seq<Param>) -> Seq<Seq<char>> {
    s.map_values(|p: Param| p.name@)
}

/// A lookup by name finds the first variant of that name in declaration
/// order, and finds none exactly when no variant has that name.
pub proof fn law_variant_lookup(e: &EnumType, name: Seq<char>)
    ensures
        first_index(variant_names(e.variants@), name) matches Some(i) ==> 0 <= i < e.variants@.len()
            && e.variants@[i].name@ == name
            && forall|j: int| 0 <= j < i ==> (#[trigger] e.variants@[j]).name@ != name,
        first_index(variant_names(e.variants@), name) is None ==> forall|j: int|
            0 <= j < e.variants@.len() ==> (#[trigger] e.variants@[j]).name@ != name,
{
    let names = variant_names(e.variants@);
    lemma_first_index(names, name);
    assert(names.len() == e.variants@.len());
    assert forall|j: int| 0 <= j < e.variants@.len() implies names[j] == (#[trigger] e.variants@[j]).name@ by {}
    if let Some(i) = first_index(names, name) {
        assert(names[i] == e.variants@[i].name@);
        assert forall|j: int| 0 <= j < i implies (#[trigger] e.variants@[j]).name@ != name by {
            assert(names[j] != name);
        }
    } else {
        assert forall|j: int| 0 <= j < e.variants@.len() implies (#[trigger] e.variants@[j]).name@ != name by {
            assert(names[j] != name);
        }
    }
}

impl EnumType {
    pub fn new() -> (b: EnumTypeBuilder)
        ensures
            b.0.path@ == Seq::<Seq<char>>::empty(),
            b.0.meta@ == Seq::<(Seq<char>, Seq<char>)>::empty(),
            b.0.vis == Visibility::Private,
            b.0.name@ == Seq::<char>::empty(),
            b.0.generics.0@ == Seq::<Generic>::empty(),
            b.0.variants@ == Seq::<Variant>::empty(),
    {
        EnumTypeBuilder::new()
    }

    pub fn to_type(&self) -> (t: Type)
        ensures
            t is Enum,
            t->Enum_0.shape() == self.shape(),
    {
        Type::Enum(Rc::new(self.duplicate()))
    }

    pub fn path(&self) -> (p: &Path)
        ensures
            p == &self.path,
    {
        &self.path
    }

    pub fn meta(&self) -> (m: &MetaData)
        ensures
            m == &self.meta,
    {
        &self.meta
    }

    pub fn vis(&self) -> (v: &Visibility)
        ensures
            v == &self.vis,
    {
        &self.vis
    }

    pub fn assignable_to(&self, ty: Type) -> (r: bool)
        requires
            ty.id_ok(),
        ensures
            r == (self.spec_id() == ty.spec_id()),
    {
        let a = self.id();
        let b = ty.id();
        a == b
    }

    pub fn convertable_to(&self, ty: Type) -> (r: bool)
        ensures
            r == (ty is Enum),
    {
        ty.is_enum()
    }

    pub fn id(&self) -> (id: TypeId)
        ensures
            id@ == self.spec_id(),
            id@ == crate::text::join(self.path@, "::"@) + "::"@ + self.name@,
    {
        let mut s = String::new();
        crate::reflect::render::write_qualified(&self.path, &self.name, &mut s);
        assert(s@ =~= self.spec_id());
        proof {
            reveal_strlit("::");
            assert(crate::reflect::path::sep() =~= "::"@);
        }
        TypeId(s)
    }

    pub fn name(&self) -> (s: &str)
        ensures
            s@ == self.name@,
    {
        self.name.as_str()
    }

    pub fn generics(&self) -> (g: &Generics)
        ensures
            g == &self.generics,
    {
        &self.generics
    }

    pub fn len(&self) -> (n: usize)
        ensures
            n == self.variants@.len(),
    {
        self.variants.len()
    }

    pub fn is_empty(&self) -> (r: bool)
        ensures
            r == (self.variants@.len() == 0),
    {
        self.variants.len() == 0
    }

    /// The variants, in order.
    pub fn iter(&self) -> (s: &[Variant])
        ensures
            s@ == self.variants@,
    {
        self.variants.as_slice()
    }

    fn position(&self, name: &str) -> (r: Option<usize>)
        ensures
            r matches Some(i) ==> first_index(variant_names(self.variants@), name@) == Some(i as int),
            r is None ==> first_index(variant_names(self.variants@), name@) is None,
    {
        let n = String::from_str(name);
        let mut i: usize = 0;
        while i < self.variants.len()
            invariant
                i <= self.variants.len(),
                n@ == name@,
                forall|j: int| 0 <= j < i ==> variant_names(self.variants@)[j] != name@,
            decreases self.variants.len() - i,
        {
            if self.variants[i].name == n {
                proof {
                    lemma_first_index_at(variant_names(self.variants@), name@, i as int);
                }
                return Some(i);
            }
            i = i + 1;
        }
        proof {
            lemma_first_index(variant_names(self.variants@), name@);
        }
        None
    }

    pub fn has_variant(&self, name: &str) -> (r: bool)
        ensures
            r == (first_index(variant_names(self.variants@), name@) is Some),
    {
        self.position(name).is_some()
    }

    pub fn variant(&self, name: &str) -> (r: &Variant)
        requires
            first_index(variant_names(self.variants@), name@) is Some,
        ensures
            *r == self.variants@[first_index(variant_names(self.variants@), name@).unwrap()],
    {
        proof { lemma_first_index(variant_names(self.variants@), name@); }
        match self.position(name) {
            Some(i) => &self.variants[i],
            None => {
                vstd::pervasive::unreached()
            },
        }
    }

    pub fn variant_mut(&mut self, name: &str) -> (r: &mut Variant)
        requires
            first_index(variant_names(old(self).variants@), name@) is Some,
        ensures
            *r == old(self).variants@[first_index(variant_names(old(self).variants@), name@).unwrap()],
            final(self).variants@ == old(self).variants@.update(first_index(variant_names(old(self).variants@), name@).unwrap(), *final(r)),
    {
        proof { lemma_first_index(variant_names(self.variants@), name@); }
        let i = match self.position(name) {
            Some(i) => i,
            None => {
                vstd::pervasive::unreached()
            },
        };
        &mut self.variants[i]
    }
}

/// Builds a `EnumType` one part at a time.
#[derive(Debug)]
pub struct EnumTypeBuilder(pub EnumType);

impl EnumTypeBuilder {
    pub fn new() -> (b: Self)
        ensures
            b.0.path@ == Seq::<Seq<char>>::empty(),
            b.0.meta@ == Seq::<(Seq<char>, Seq<char>)>::empty(),
            b.0.vis == Visibility::Private,
            b.0.name@ == Seq::<char>::empty(),
            b.0.generics.0@ == Seq::<Generic>::empty(),
            b.0.variants@ == Seq::<Variant>::empty(),
    {
        EnumTypeBuilder(EnumType {
            path: Path::new(),
            meta: MetaData::new(),
            vis: Visibility::Private,
            name: String::new(),
            generics: Generics(Vec::new()),
            variants: Vec::new(),
        })
    }

    pub fn path(self, path: Path) -> (b: Self)
        ensures
            b.0 == (EnumType { path, ..self.0 }),
    {
        let mut t = self.0;
        t.path = path;
        EnumTypeBuilder(t)
    }

    pub fn name(self, name: &str) -> (b: Self)
        ensures
            b.0.name@ == name@ && b.0 == (EnumType { name: b.0.name, ..self.0 }),
    {
        let mut t = self.0;
        t.name = String::from_str(name);
        EnumTypeBuilder(t)
    }

    pub fn meta(self, meta: MetaData) -> (b: Self)
        ensures
            b.0 == (EnumType { meta, ..self.0 }),
    {
        let mut t = self.0;
        t.meta = meta;
        EnumTypeBuilder(t)
    }

    pub fn visibility(self, vis: Visibility) -> (b: Self)
        ensures
            b.0 == (EnumType { vis, ..self.0 }),
    {
        let mut t = self.0;
        t.vis = vis;
        EnumTypeBuilder(t)
    }

    pub fn generics(self, generics: Generics) -> (b: Self)
        ensures
            b.0 == (EnumType { generics, ..self.0 }),
    {
        let mut t = self.0;
        t.generics = generics;
        EnumTypeBuilder(t)
    }

    pub fn variants(self, variants: Vec<Variant>) -> (b: Self)
        ensures
            b.0.variants@ == self.0.variants@ + variants@ && b.0 == (EnumType { variants: b.0.variants, ..self.0 }),
    {
        let mut t = self.0;
        let mut more = variants; t.variants.append(&mut more);
        EnumTypeBuilder(t)
    }

    pub fn variant(self, variant: Variant) -> (b: Self)
        ensures
            b.0.variants@ == self.0.variants@.push(variant) && b.0 == (EnumType { variants: b.0.variants, ..self.0 }),
    {
        let mut t = self.0;
        t.variants.push(variant);
        EnumTypeBuilder(t)
    }

    pub fn build(self) -> (t: EnumType)
        ensures
            t == self.0,
    {
        self.0
    }
}

impl Default for EnumTypeBuilder {
    fn default() -> (b: Self)
        ensures
            b.0.path@ == Seq::<Seq<char>>::empty(),
            b.0.meta@ == Seq::<(Seq<char>, Seq<char>)>::empty(),
            b.0.vis == Visibility::Private,
            b.0.name@ == Seq::<char>::empty(),
            b.0.generics.0@ == Seq::<Generic>::empty(),
            b.0.variants@ == Seq::<Variant>::empty(),
    {
        EnumTypeBuilder::new()
    }
}

impl StructType {
    pub fn new() -> (b: StructTypeBuilder)
        ensures
            b.0.path@ == Seq::<Seq<char>>::empty(),
            b.0.meta@ == Seq::<(Seq<char>, Seq<char>)>::empty(),
            b.0.vis == Visibility::Private,
            b.0.name@ == Seq::<char>::empty(),
            b.0.generics.0@ == Seq::<Generic>::empty(),
            b.0.fields.layout == Layout::Unit && b.0.fields.fields@ == Seq::<Field>::empty(),
    {
        StructTypeBuilder::new()
    }

    pub fn to_type(&self) -> (t: Type)
        ensures
            t is Struct,
            t->Struct_0.shape() == self.shape(),
    {
        Type::Struct(Rc::new(self.duplicate()))
    }

    pub fn path(&self) -> (p: &Path)
        ensures
            p == &self.path,
    {
        &self.path
    }

    pub fn meta(&self) -> (m: &MetaData)
        ensures
            m == &self.meta,
    {
        &self.meta
    }

    pub fn vis(&self) -> (v: &Visibility)
        ensures
            v == &self.vis,
    {
        &self.vis
    }

    pub fn assignable_to(&self, ty: Type) -> (r: bool)
        requires
            ty.id_ok(),
        ensures
            r == (self.spec_id() == ty.spec_id()),
    {
        let a = self.id();
        let b = ty.id();
        a == b
    }

    pub fn convertable_to(&self, ty: Type) -> (r: bool)
        ensures
            r == (ty is Struct),
    {
        ty.is_struct()
    }

    pub fn id(&self) -> (id: TypeId)
        ensures
            id@ == self.spec_id(),
            id@ == crate::text::join(self.path@, "::"@) + "::"@ + self.name@,
    {
        let mut s = String::new();
        crate::reflect::render::write_qualified(&self.path, &self.name, &mut s);
        assert(s@ =~= self.spec_id());
        proof {
            reveal_strlit("::");
            assert(crate::reflect::path::sep() =~= "::"@);
        }
        TypeId(s)
    }

    pub fn name(&self) -> (s: &str)
        ensures
            s@ == self.name@,
    {
        self.name.as_str()
    }

    pub fn generics(&self) -> (g: &Generics)
        ensures
            g == &self.generics,
    {
        &self.generics
    }

    pub fn len(&self) -> (n: usize)
        ensures
            n == self.fields.fields@.len(),
    {
        self.fields.fields.len()
    }

    pub fn is_empty(&self) -> (r: bool)
        ensures
            r == (self.fields.fields@.len() == 0),
    {
        self.fields.fields.len() == 0
    }

    pub fn fields(&self) -> (f: &Fields)
        ensures
            f == &self.fields,
    {
        &self.fields
    }
}

/// Builds a `StructType` one part at a time.
#[derive(Debug)]
pub struct StructTypeBuilder(pub StructType);

impl StructTypeBuilder {
    pub fn new() -> (b: Self)
        ensures
            b.0.path@ == Seq::<Seq<char>>::empty(),
            b.0.meta@ == Seq::<(Seq<char>, Seq<char>)>::empty(),
            b.0.vis == Visibility::Private,
            b.0.name@ == Seq::<char>::empty(),
            b.0.generics.0@ == Seq::<Generic>::empty(),
            b.0.fields.layout == Layout::Unit && b.0.fields.fields@ == Seq::<Field>::empty(),
    {
        StructTypeBuilder(StructType {
            path: Path::new(),
            meta: MetaData::new(),
            vis: Visibility::Private,
            name: String::new(),
            generics: Generics(Vec::new()),
            fields: Fields { layout: Layout::Unit, fields: Vec::new() },
        })
    }

    pub fn path(self, path: Path) -> (b: Self)
        ensures
            b.0 == (StructType { path, ..self.0 }),
    {
        let mut t = self.0;
        t.path = path;
        StructTypeBuilder(t)
    }

    pub fn name(self, name: &str) -> (b: Self)
        ensures
            b.0.name@ == name@ && b.0 == (StructType { name: b.0.name, ..self.0 }),
    {
        let mut t = self.0;
        t.name = String::from_str(name);
        StructTypeBuilder(t)
    }

    pub fn meta(self, meta: MetaData) -> (b: Self)
        ensures
            b.0 == (StructType { meta, ..self.0 }),
    {
        let mut t = self.0;
        t.meta = meta;
        StructTypeBuilder(t)
    }

    pub fn visibility(self, vis: Visibility) -> (b: Self)
        ensures
            b.0 == (StructType { vis, ..self.0 }),
    {
        let mut t = self.0;
        t.vis = vis;
        StructTypeBuilder(t)
    }

    pub fn generics(self, generics: Generics) -> (b: Self)
        ensures
            b.0 == (StructType { generics, ..self.0 }),
    {
        let mut t = self.0;
        t.generics = generics;
        StructTypeBuilder(t)
    }

    pub fn fields(self, fields: Fields) -> (b: Self)
        ensures
            b.0 == (StructType { fields, ..self.0 }),
    {
        let mut t = self.0;
        t.fields = fields;
        StructTypeBuilder(t)
    }

    pub fn build(self) -> (t: StructType)
        ensures
            t == self.0,
    {
        self.0
    }
}

impl Default for StructTypeBuilder {
    fn default() -> (b: Self)
        ensures
            b.0.path@ == Seq::<Seq<char>>::empty(),
            b.0.meta@ == Seq::<(Seq<char>, Seq<char>)>::empty(),
            b.0.vis == Visibility::Private,
            b.0.name@ == Seq::<char>::empty(),
            b.0.generics.0@ == Seq::<Generic>::empty(),
            b.0.fields.layout == Layout::Unit && b.0.fields.fields@ == Seq::<Field>::empty(),
    {
        StructTypeBuilder::new()
    }
}

impl TraitType {
    pub fn new() -> (b: TraitTypeBuilder)
        ensures
            b.0.path@ == Seq::<Seq<char>>::empty(),
            b.0.meta@ == Seq::<(Seq<char>, Seq<char>)>::empty(),
            b.0.vis == Visibility::Private,
            b.0.name@ == Seq::<char>::empty(),
            b.0.generics.0@ == Seq::<Generic>::empty(),
            b.0.methods@ == Seq::<Method>::empty(),
    {
        TraitTypeBuilder::new()
    }

    pub fn to_type(&self) -> (t: Type)
        ensures
            t is Trait,
            t->Trait_0.shape() == self.shape(),
    {
        Type::Trait(Rc::new(self.duplicate()))
    }

    pub fn path(&self) -> (p: &Path)
        ensures
            p == &self.path,
    {
        &self.path
    }

    pub fn meta(&self) -> (m: &MetaData)
        ensures
            m == &self.meta,
    {
        &self.meta
    }

    pub fn vis(&self) -> (v: &Visibility)
        ensures
            v == &self.vis,
    {
        &self.vis
    }

    pub fn assignable_to(&self, ty: Type) -> (r: bool)
        requires
            ty.id_ok(),
        ensures
            r == (self.spec_id() == ty.spec_id()),
    {
        let a = self.id();
        let b = ty.id();
        a == b
    }

    pub fn convertable_to(&self, ty: Type) -> (r: bool)
        ensures
            r == (ty is Trait),
    {
        ty.is_trait()
    }

    pub fn id(&self) -> (id: TypeId)
        ensures
            id@ == self.spec_id(),
            id@ == crate::text::join(self.path@, "::"@) + "::"@ + self.name@,
    {
        let mut s = String::new();
        crate::reflect::render::write_qualified(&self.path, &self.name, &mut s);
        assert(s@ =~= self.spec_id());
        proof {
            reveal_strlit("::");
            assert(crate::reflect::path::sep() =~= "::"@);
        }
        TypeId(s)
    }

    pub fn name(&self) -> (s: &str)
        ensures
            s@ == self.name@,
    {
        self.name.as_str()
    }

    pub fn generics(&self) -> (g: &Generics)
        ensures
            g == &self.generics,
    {
        &self.generics
    }

    pub fn methods(&self) -> (s: &[Method])
        ensures
            s@ == self.methods@,
    {
        self.methods.as_slice()
    }

    /// The methods, in order.
    pub fn iter(&self) -> (s: &[Method])
        ensures
            s@ == self.methods@,
    {
        self.methods.as_slice()
    }

    pub fn len(&self) -> (n: usize)
        ensures
            n == self.methods@.len(),
    {
        self.methods.len()
    }

    pub fn is_empty(&self) -> (r: bool)
        ensures
            r == (self.methods@.len() == 0),
    {
        self.methods.len() == 0
    }

    fn position(&self, name: &str) -> (r: Option<usize>)
        ensures
            r matches Some(i) ==> first_index(method_names(self.methods@), name@) == Some(i as int),
            r is None ==> first_index(method_names(self.methods@), name@) is None,
    {
        let n = String::from_str(name);
        let mut i: usize = 0;
        while i < self.methods.len()
            invariant
                i <= self.methods.len(),
                n@ == name@,
                forall|j: int| 0 <= j < i ==> method_names(self.methods@)[j] != name@,
            decreases self.methods.len() - i,
        {
            if self.methods[i].name == n {
                proof {
                    lemma_first_index_at(method_names(self.methods@), name@, i as int);
                }
                return Some(i);
            }
            i = i + 1;
        }
        proof {
            lemma_first_index(method_names(self.methods@), name@);
        }
        None
    }

    pub fn has(&self, name: &str) -> (r: bool)
        ensures
            r == (first_index(method_names(self.methods@), name@) is Some),
    {
        self.position(name).is_some()
    }

    pub fn get(&self, name: &str) -> (r: Option<&Method>)
        ensures
            first_index(method_names(self.methods@), name@) matches Some(i) ==> r == Some(&self.methods@[i]),
            first_index(method_names(self.methods@), name@) is None ==> r is None,
    {
        proof { lemma_first_index(method_names(self.methods@), name@); }
        match self.position(name) {
            Some(i) => Some(&self.methods[i]),
            None => None,
        }
    }

    pub fn get_mut(&mut self, name: &str) -> (r: &mut Method)
        requires
            first_index(method_names(old(self).methods@), name@) is Some,
        ensures
            *r == old(self).methods@[first_index(method_names(old(self).methods@), name@).unwrap()],
            final(self).methods@ == old(self).methods@.update(first_index(method_names(old(self).methods@), name@).unwrap(), *final(r)),
    {
        proof { lemma_first_index(method_names(self.methods@), name@); }
        let i = match self.position(name) {
            Some(i) => i,
            None => {
                vstd::pervasive::unreached()
            },
        };
        &mut self.methods[i]
    }
}

/// Builds a `TraitType` one part at a time.
#[derive(Debug)]
pub struct TraitTypeBuilder(pub TraitType);

impl TraitTypeBuilder {
    pub fn new() -> (b: Self)
        ensures
            b.0.path@ == Seq::<Seq<char>>::empty(),
            b.0.meta@ == Seq::<(Seq<char>, Seq<char>)>::empty(),
            b.0.vis == Visibility::Private,
            b.0.name@ == Seq::<char>::empty(),
            b.0.generics.0@ == Seq::<Generic>::empty(),
            b.0.methods@ == Seq::<Method>::empty(),
    {
        TraitTypeBuilder(TraitType {
            path: Path::new(),
            meta: MetaData::new(),
            vis: Visibility::Private,
            name: String::new(),
            generics: Generics(Vec::new()),
            methods: Vec::new(),
        })
    }

    pub fn path(self, path: Path) -> (b: Self)
        ensures
            b.0 == (TraitType { path, ..self.0 }),
    {
        let mut t = self.0;
        t.path = path;
        TraitTypeBuilder(t)
    }

    pub fn name(self, name: &str) -> (b: Self)
        ensures
            b.0.name@ == name@ && b.0 == (TraitType { name: b.0.name, ..self.0 }),
    {
        let mut t = self.0;
        t.name = String::from_str(name);
        TraitTypeBuilder(t)
    }

    pub fn meta(self, meta: MetaData) -> (b: Self)
        ensures
            b.0 == (TraitType { meta, ..self.0 }),
    {
        let mut t = self.0;
        t.meta = meta;
        TraitTypeBuilder(t)
    }

    pub fn visibility(self, vis: Visibility) -> (b: Self)
        ensures
            b.0 == (TraitType { vis, ..self.0 }),
    {
        let mut t = self.0;
        t.vis = vis;
        TraitTypeBuilder(t)
    }

    pub fn generics(self, generics: Generics) -> (b: Self)
        ensures
            b.0 == (TraitType { generics, ..self.0 }),
    {
        let mut t = self.0;
        t.generics = generics;
        TraitTypeBuilder(t)
    }

    pub fn methods(self, methods: Vec<Method>) -> (b: Self)
        ensures
            b.0.methods@ == self.0.methods@ + methods@ && b.0 == (TraitType { methods: b.0.methods, ..self.0 }),
    {
        let mut t = self.0;
        let mut more = methods; t.methods.append(&mut more);
        TraitTypeBuilder(t)
    }

    pub fn method(self, method: Method) -> (b: Self)
        ensures
            b.0.methods@ == self.0.methods@.push(method) && b.0 == (TraitType { methods: b.0.methods, ..self.0 }),
    {
        let mut t = self.0;
        t.methods.push(method);
        TraitTypeBuilder(t)
    }

    pub fn build(self) -> (t: TraitType)
        ensures
            t == self.0,
    {
        self.0
    }
}

impl Default for TraitTypeBuilder {
    fn default() -> (b: Self)
        ensures
            b.0.path@ == Seq::<Seq<char>>::empty(),
            b.0.meta@ == Seq::<(Seq<char>, Seq<char>)>::empty(),
            b.0.vis == Visibility::Private,
            b.0.name@ == Seq::<char>::empty(),
            b.0.generics.0@ == Seq::<Generic>::empty(),
            b.0.methods@ == Seq::<Method>::empty(),
    {
        TraitTypeBuilder::new()
    }
}

impl ModType {
    pub fn new() -> (b: ModTypeBuilder)
        ensures
            b.0.path@ == Seq::<Seq<char>>::empty(),
            b.0.meta@ == Seq::<(Seq<char>, Seq<char>)>::empty(),
            b.0.vis == Visibility::Private,
            b.0.items@ == Seq::<Item>::empty(),
    {
        ModTypeBuilder::new()
    }

    pub fn to_type(&self) -> (t: Type)
        ensures
            t is Mod,
            t->Mod_0.shape() == self.shape(),
    {
        Type::Mod(Rc::new(self.duplicate()))
    }

    /// The module's path joined with `::`.
    pub fn id(&self) -> (id: TypeId)
        ensures
            id@ == crate::text::join(self.path@, crate::reflect::path::sep()),
    {
        TypeId(self.path.to_string())
    }

    pub fn len(&self) -> (n: usize)
        ensures
            n == self.items@.len(),
    {
        self.items.len()
    }

    pub fn is_empty(&self) -> (r: bool)
        ensures
            r == (self.items@.len() == 0),
    {
        self.items.len() == 0
    }

    pub fn path(&self) -> (p: &Path)
        ensures
            p == &self.path,
    {
        &self.path
    }

    pub fn meta(&self) -> (m: &MetaData)
        ensures
            m == &self.meta,
    {
        &self.meta
    }

    pub fn vis(&self) -> (v: &Visibility)
        ensures
            v == &self.vis,
    {
        &self.vis
    }

    pub fn items(&self) -> (s: &[Item])
        ensures
            s@ == self.items@,
    {
        self.items.as_slice()
    }

    /// The item at `index`.
    pub fn item(&self, index: usize) -> (i: &Item)
        requires
            index < self.items@.len(),
        ensures
            *i == self.items@[index as int],
    {
        &self.items[index]
    }

    pub fn assignable_to(&self, ty: Type) -> (r: bool)
        requires
            ty.id_ok(),
        ensures
            r == (crate::text::join(self.path@, crate::reflect::path::sep()) == ty.spec_id()),
    {
        let a = self.id();
        let b = ty.id();
        a == b
    }

    pub fn convertable_to(&self, ty: Type) -> (r: bool)
        ensures
            r == (ty is Mod),
    {
        ty.is_mod()
    }
}

/// Builds a `ModType` one part at a time.
#[derive(Debug)]
pub struct ModTypeBuilder(pub ModType);

impl ModTypeBuilder {
    pub fn new() -> (b: Self)
        ensures
            b.0.path@ == Seq::<Seq<char>>::empty(),
            b.0.meta@ == Seq::<(Seq<char>, Seq<char>)>::empty(),
            b.0.vis == Visibility::Private,
            b.0.items@ == Seq::<Item>::empty(),
    {
        ModTypeBuilder(ModType {
            path: Path::new(),
            meta: MetaData::new(),
            vis: Visibility::Private,
            items: Vec::new(),
        })
    }

    pub fn path(self, path: Path) -> (b: Self)
        ensures
            b.0 == (ModType { path, ..self.0 }),
    {
        let mut t = self.0;
        t.path = path;
        ModTypeBuilder(t)
    }

    pub fn meta(self, meta: MetaData) -> (b: Self)
        ensures
            b.0 == (ModType { meta, ..self.0 }),
    {
        let mut t = self.0;
        t.meta = meta;
        ModTypeBuilder(t)
    }

    pub fn visibility(self, vis: Visibility) -> (b: Self)
        ensures
            b.0 == (ModType { vis, ..self.0 }),
    {
        let mut t = self.0;
        t.vis = vis;
        ModTypeBuilder(t)
    }

    pub fn items(self, items: Vec<Item>) -> (b: Self)
        ensures
            b.0.items@ == self.0.items@ + items@ && b.0 == (ModType { items: b.0.items, ..self.0 }),
    {
        let mut t = self.0;
        let mut more = items; t.items.append(&mut more);
        ModTypeBuilder(t)
    }

    pub fn build(self) -> (t: ModType)
        ensures
            t == self.0,
    {
        self.0
    }
}

impl Default for ModTypeBuilder {
    fn default() -> (b: Self)
        ensures
            b.0.path@ == Seq::<Seq<char>>::empty(),
            b.0.meta@ == Seq::<(Seq<char>, Seq<char>)>::empty(),
            b.0.vis == Visibility::Private,
            b.0.items@ == Seq::<Item>::empty(),
    {
        ModTypeBuilder::new()
    }
}

} // verus!
