//! How descriptors are written out: the text of each descriptor and of
//! each type's id, as specifications and as the code that produces them.

use vstd::prelude::*;
use crate::text::{join, lines, decimal, push_str, push_decimal, lemma_join_push, lemma_lines_push};
use crate::reflect::path::{Path, sep};
use crate::reflect::leaf::{Bound, LifetimeBound, FieldName, Visibility};
use crate::reflect::model::{
    Type, RefType, MutType, SliceType, MapType, TupleType, EnumType, Variant, StructType, Fields,
    Field, Generics, Generic, ConstParam, LifetimeParam, TypeParam, TraitType, Method, Param, ModType,
    Item, Impl,
};
use crate::reflect::type_id::TypeId;

verus! {

/// `"\n"` when `nonempty`, else nothing.
pub open spec fn newline_if(nonempty: bool) -> Seq<char> {
    if nonempty { "\n"@ } else { Seq::empty() }
}

impl Type {
    /// Whether writing this type out succeeds (every module in it has a
    /// non-empty path, every trait named by an impl has a non-empty path).
    pub open spec fn printable(&self) -> bool
        decreases self,
    {
        match self {
            Type::Enum(e) => e.printable(),
            Type::Ref(r) => r.0.printable(),
            Type::Slice(s) => s.ty.id_ok(),
            Type::Mapping(m) => m.ty.printable(),
            Type::Struct(s) => s.printable(),
            Type::Tuple(t) => all_types_printable(t.items@),
            Type::Trait(t) => t.printable(),
            Type::Mut(m) => m.0.printable(),
            Type::Mod(m) => m.printable(),
            _ => true,
        }
    }

    /// Whether computing this type's id succeeds.
    pub open spec fn id_ok(&self) -> bool
        decreases self,
    {
        match self {
            Type::Ref(r) => r.0.id_ok(),
            Type::Slice(s) => s.ty.id_ok(),
            Type::Mapping(m) => m.ty.id_ok(),
            Type::Tuple(t) => all_types_printable(t.items@),
            Type::Mut(m) => m.0.id_ok(),
            _ => true,
        }
    }

    /// The type as written out.
    pub open spec fn render(&self) -> Seq<char>
        decreases self,
    {
        match self {
            Type::Any => "any"@,
            Type::Bool(_) => "bool"@,
            Type::Enum(e) => e.render(),
            Type::Number(n) => n.rendered(),
            Type::Str(_) => "string"@,
            Type::Ref(r) => "&"@ + r.0.render(),
            Type::Slice(s) => s.spec_id(),
            Type::Mapping(m) => m.ty.render(),
            Type::Struct(s) => s.render(),
            Type::This(_) => "Self"@,
            Type::Tuple(t) => t.spec_id(),
            Type::Trait(t) => t.render(),
            Type::Mut(m) => "mut "@ + m.0.render(),
            Type::Mod(m) => m.render(),
            Type::Void => "void"@,
        }
    }

    /// The type's id.
    pub open spec fn spec_id(&self) -> Seq<char>
        decreases self,
    {
        match self {
            Type::Any => "any"@,
            Type::Bool(_) => "bool"@,
            Type::Enum(e) => e.spec_id(),
            Type::Number(n) => n.rendered(),
            Type::Str(_) => "string"@,
            Type::Ref(r) => "&"@ + r.0.spec_id(),
            Type::Slice(s) => s.spec_id(),
            Type::Mapping(m) => m.ty.spec_id(),
            Type::Struct(s) => s.spec_id(),
            Type::This(_) => "Self"@,
            Type::Tuple(t) => t.spec_id(),
            Type::Trait(t) => t.spec_id(),
            Type::Mut(m) => "mut "@ + m.0.spec_id(),
            Type::Mod(m) => join(m.path@, sep()),
            Type::Void => "void"@,
        }
    }

    /// `self`, `mut self`, `&self` or `&mut self` as a parameter type.
    pub open spec fn self_like(&self) -> bool {
        ||| *self is This
        ||| (*self matches Type::Mut(m) && *m.0 is This)
        ||| (*self matches Type::Ref(r) && *r.0 is This)
        ||| (*self matches Type::Ref(r) && (*r.0 matches Type::Mut(m) && *m.0 is This))
    }
}

impl SliceType {
    pub open spec fn spec_id(&self) -> Seq<char>
        decreases self,
    {
        match self.capacity {
            None => "["@ + self.ty.spec_id() + "]"@,
            Some(n) => "["@ + self.ty.spec_id() + "; "@ + decimal(n as nat) + "]"@,
        }
    }
}

impl TupleType {
    pub open spec fn spec_id(&self) -> Seq<char>
        decreases self,
    {
        "("@ + join(type_renders(self.items@), ", "@) + ")"@
    }
}

/// `path::name`.
pub open spec fn qualified(path: &Path, name: Seq<char>) -> Seq<char> {
    join(path@, sep()) + "::"@ + name
}

impl EnumType {
    pub open spec fn printable(&self) -> bool
        decreases self,
    {
        self.generics.printable() && all_variants_printable(self.variants@)
    }

    pub open spec fn spec_id(&self) -> Seq<char> {
        qualified(&self.path, self.name@)
    }

    pub open spec fn render(&self) -> Seq<char>
        decreases self,
    {
        self.vis.prefix() + "enum "@ + self.name@ + self.generics.render() + " {"@
            + lines(variant_renders(self.variants@), "\n\t"@, ","@) + newline_if(self.variants@.len() > 0)
            + "}"@
    }
}

impl Variant {
    pub open spec fn printable(&self) -> bool
        decreases self,
    {
        self.fields.printable()
    }

    pub open spec fn render(&self) -> Seq<char>
        decreases self,
    {
        self.name@ + self.fields.render()
    }
}

impl StructType {
    pub open spec fn printable(&self) -> bool
        decreases self,
    {
        self.generics.printable() && self.fields.printable()
    }

    pub open spec fn spec_id(&self) -> Seq<char> {
        qualified(&self.path, self.name@)
    }

    pub open spec fn render(&self) -> Seq<char>
        decreases self,
    {
        self.vis.prefix() + "struct "@ + self.name@ + self.generics.render() + self.fields.render()
    }
}

impl Fields {
    pub open spec fn printable(&self) -> bool
        decreases self,
    {
        all_fields_printable(self.fields@)
    }

    pub open spec fn render(&self) -> Seq<char>
        decreases self,
    {
        match self.layout {
            crate::reflect::leaf::Layout::Key => " {"@ + lines(field_renders(self.fields@), "\n\t"@, ","@)
                + newline_if(self.fields@.len() > 0) + "}"@,
            crate::reflect::leaf::Layout::Index => "("@ + join(field_index_renders(self.fields@), ", "@) + ")"@,
            crate::reflect::leaf::Layout::Unit => Seq::empty(),
        }
    }
}

impl Field {
    pub open spec fn printable(&self) -> bool
        decreases self,
    {
        self.ty.printable()
    }

    /// `name: ty` (with the visibility in front), or just the type for a positional field.
    pub open spec fn render(&self) -> Seq<char>
        decreases self,
    {
        match self.name {
            FieldName::Key(k) => self.vis.prefix() + k@ + ": "@ + self.ty.render(),
            FieldName::Index(_) => self.vis.prefix() + self.ty.render(),
        }
    }

    /// The field as written inside a tuple struct.
    pub open spec fn index_render(&self) -> Seq<char>
        decreases self,
    {
        self.vis.prefix() + self.ty.render()
    }
}

impl Generics {
    pub open spec fn printable(&self) -> bool
        decreases self,
    {
        all_generics_printable(self.0@)
    }

    pub open spec fn render(&self) -> Seq<char>
        decreases self,
    {
        if self.0@.len() == 0 {
            Seq::empty()
        } else {
            "<"@ + join(generic_renders(self.0@), ", "@) + ">"@
        }
    }
}

impl Generic {
    pub open spec fn printable(&self) -> bool
        decreases self,
    {
        match self {
            Generic::Const(c) => c.ty.printable(),
            Generic::Lifetime(_) => true,
            Generic::Type(t) => t.printable(),
        }
    }

    pub open spec fn render(&self) -> Seq<char>
        decreases self,
    {
        match self {
            Generic::Const(c) => c.render(),
            Generic::Lifetime(l) => l.render(),
            Generic::Type(t) => t.render(),
        }
    }
}

impl ConstParam {
    pub open spec fn render(&self) -> Seq<char>
        decreases self,
    {
        "const "@ + self.name@ + ": "@ + self.ty.render()
    }
}

/// The lifetime bounds as written, each on its own.
pub open spec fn lifetime_renders(s: Seq<LifetimeBound>) -> Seq<Seq<char>> {
    s.map_values(|b: LifetimeBound| b.rendered())
}

/// The bounds as written, each on its own.
pub open spec fn bound_renders(s: Seq<Bound>) -> Seq<Seq<char>> {
    s.map_values(|b: Bound| b.rendered())
}

impl LifetimeParam {
    pub open spec fn render(&self) -> Seq<char> {
        "'"@ + self.name@ + if self.bounds@.len() == 0 {
            Seq::empty()
        } else {
            ": "@ + join(lifetime_renders(self.bounds@), " + "@)
        }
    }
}

impl TypeParam {
    pub open spec fn printable(&self) -> bool
        decreases self,
    {
        match self.default {
            None => true,
            Some(d) => d.printable(),
        }
    }

    pub open spec fn render(&self) -> Seq<char>
        decreases self,
    {
        self.name@ + (if self.bounds@.len() == 0 { Seq::empty() } else { ": "@ }) + join(bound_renders(self.bounds@), " + "@)
            + match self.default {
            None => Seq::empty(),
            Some(d) => " = "@ + d.render(),
        }
    }
}

impl TraitType {
    pub open spec fn printable(&self) -> bool
        decreases self,
    {
        self.generics.printable() && all_methods_printable(self.methods@)
    }

    pub open spec fn spec_id(&self) -> Seq<char> {
        qualified(&self.path, self.name@)
    }

    pub open spec fn render(&self) -> Seq<char>
        decreases self,
    {
        self.vis.prefix() + "trait "@ + self.name@ + self.generics.render() + " {"@
            + lines(method_renders(self.methods@), "\n\t"@, ""@) + newline_if(self.methods@.len() > 0)
            + "}"@
    }
}

impl Method {
    pub open spec fn printable(&self) -> bool
        decreases self,
    {
        self.generics.printable() && all_params_printable(self.params@) && self.return_type.printable()
    }

    pub open spec fn render(&self) -> Seq<char>
        decreases self,
    {
        self.vis.prefix() + (if self.is_async { "async "@ } else { Seq::empty() }) + "fn "@ + self.name@
            + self.generics.render() + "("@ + join(param_renders(self.params@), ", "@) + ")"@
            + (if *self.return_type is Void { Seq::empty() } else { " -> "@ + self.return_type.render() })
            + ";"@
    }
}

/// How a receiver of type `Self`, `mut Self`, `&Self` or `&mut Self` is
/// written.
pub open spec fn receiver_render(ty: Type) -> Seq<char> {
    if ty is This {
        "self"@
    } else if ty is Mut {
        "mut self"@
    } else if ty matches Type::Ref(r) && *r.0 is Mut {
        "&mut self"@
    } else {
        "&self"@
    }
}

impl Param {
    pub open spec fn printable(&self) -> bool
        decreases self,
    {
        self.ty.printable()
    }

    /// Named `self` and typed `Self`, `mut Self`, `&Self` or `&mut Self`.
    pub open spec fn spec_is_selfish(&self) -> bool {
        self.name@ == "self"@ && self.ty.self_like()
    }

    /// A receiver is written `self`, `mut self`, `&self` or `&mut self`
    /// after its type; any other parameter as `name: type`.
    pub open spec fn render(&self) -> Seq<char>
        decreases self,
    {
        if self.spec_is_selfish() {
            receiver_render(*self.ty)
        } else {
            self.name@ + ": "@ + self.ty.render()
        }
    }
}

impl ModType {
    pub open spec fn printable(&self) -> bool
        decreases self,
    {
        self.path@.len() > 0 && all_items_printable(self.items@)
    }

    pub open spec fn render(&self) -> Seq<char>
        decreases self,
    {
        self.vis.prefix() + self.path@.last() + " {"@ + lines(item_renders(self.items@), "\n\t"@, ""@)
            + newline_if(self.items@.len() > 0) + "}"@
    }
}

impl Item {
    pub open spec fn printable(&self) -> bool
        decreases self,
    {
        match self {
            Item::Type(t) => t.printable(),
            Item::Impl(i) => i.printable(),
        }
    }

    pub open spec fn render(&self) -> Seq<char>
        decreases self,
    {
        match self {
            Item::Type(t) => t.render(),
            Item::Impl(i) => i.render(),
        }
    }
}

impl Impl {
    pub open spec fn printable(&self) -> bool
        decreases self,
    {
        &&& self.generics.printable()
        &&& (self.of_trait matches Some(p) ==> p@.len() > 0)
        &&& self.self_ty.printable()
        &&& all_methods_printable(self.methods@)
    }

    pub open spec fn render(&self) -> Seq<char>
        decreases self,
    {
        "impl"@ + self.generics.render() + match self.of_trait {
            None => Seq::empty(),
            Some(p) => " "@ + p@.last() + " for "@,
        } + " "@ + self.self_ty.render() + " {"@ + lines(method_renders(self.methods@), "\n\t"@, ""@)
            + newline_if(self.methods@.len() > 0) + "}"@
    }
}

pub open spec fn all_types_printable(s: Seq<Type>) -> bool
    decreases s,
{
    s.len() == 0 || (all_types_printable(s.drop_last()) && s.last().printable())
}

#[verifier::spinoff_prover]
pub proof fn lemma_all_types_printable(s: Seq<Type>)
    requires
        all_types_printable(s),
    ensures
        forall|i: int| 0 <= i < s.len() ==> #[trigger] s[i].printable(),
    decreases s.len(),
{
    if s.len() > 0 {
        let d = s.drop_last();
        lemma_all_types_printable(d);
        assert forall|i: int| 0 <= i < s.len() implies #[trigger] s[i].printable() by {
            if i < s.len() - 1 {
                assert(d[i] == s[i]);
            }
        }
    }
}

pub open spec fn all_variants_printable(s: Seq<Variant>) -> bool
    decreases s,
{
    s.len() == 0 || (all_variants_printable(s.drop_last()) && s.last().printable())
}

#[verifier::spinoff_prover]
pub proof fn lemma_all_variants_printable(s: Seq<Variant>)
    requires
        all_variants_printable(s),
    ensures
        forall|i: int| 0 <= i < s.len() ==> #[trigger] s[i].printable(),
    decreases s.len(),
{
    if s.len() > 0 {
        let d = s.drop_last();
        lemma_all_variants_printable(d);
        assert forall|i: int| 0 <= i < s.len() implies #[trigger] s[i].printable() by {
            if i < s.len() - 1 {
                assert(d[i] == s[i]);
            }
        }
    }
}

pub open spec fn all_fields_printable(s: Seq<Field>) -> bool
    decreases s,
{
    s.len() == 0 || (all_fields_printable(s.drop_last()) && s.last().printable())
}

#[verifier::spinoff_prover]
pub proof fn lemma_all_fields_printable(s: Seq<Field>)
    requires
        all_fields_printable(s),
    ensures
        forall|i: int| 0 <= i < s.len() ==> #[trigger] s[i].printable(),
    decreases s.len(),
{
    if s.len() > 0 {
        let d = s.drop_last();
        lemma_all_fields_printable(d);
        assert forall|i: int| 0 <= i < s.len() implies #[trigger] s[i].printable() by {
            if i < s.len() - 1 {
                assert(d[i] == s[i]);
            }
        }
    }
}

pub open spec fn all_generics_printable(s: Seq<Generic>) -> bool
    decreases s,
{
    s.len() == 0 || (all_generics_printable(s.drop_last()) && s.last().printable())
}

#[verifier::spinoff_prover]
pub proof fn lemma_all_generics_printable(s: Seq<Generic>)
    requires
        all_generics_printable(s),
    ensures
        forall|i: int| 0 <= i < s.len() ==> #[trigger] s[i].printable(),
    decreases s.len(),
{
    if s.len() > 0 {
        let d = s.drop_last();
        lemma_all_generics_printable(d);
        assert forall|i: int| 0 <= i < s.len() implies #[trigger] s[i].printable() by {
            if i < s.len() - 1 {
                assert(d[i] == s[i]);
            }
        }
    }
}

pub open spec fn all_methods_printable(s: Seq<Method>) -> bool
    decreases s,
{
    s.len() == 0 || (all_methods_printable(s.drop_last()) && s.last().printable())
}

#[verifier::spinoff_prover]
pub proof fn lemma_all_methods_printable(s: Seq<Method>)
    requires
        all_methods_printable(s),
    ensures
        forall|i: int| 0 <= i < s.len() ==> #[trigger] s[i].printable(),
    decreases s.len(),
{
    if s.len() > 0 {
        let d = s.drop_last();
        lemma_all_methods_printable(d);
        assert forall|i: int| 0 <= i < s.len() implies #[trigger] s[i].printable() by {
            if i < s.len() - 1 {
                assert(d[i] == s[i]);
            }
        }
    }
}

pub open spec fn all_params_printable(s: Seq<Param>) -> bool
    decreases s,
{
    s.len() == 0 || (all_params_printable(s.drop_last()) && s.last().printable())
}

#[verifier::spinoff_prover]
pub proof fn lemma_all_params_printable(s: Seq<Param>)
    requires
        all_params_printable(s),
    ensures
        forall|i: int| 0 <= i < s.len() ==> #[trigger] s[i].printable(),
    decreases s.len(),
{
    if s.len() > 0 {
        let d = s.drop_last();
        lemma_all_params_printable(d);
        assert forall|i: int| 0 <= i < s.len() implies #[trigger] s[i].printable() by {
            if i < s.len() - 1 {
                assert(d[i] == s[i]);
            }
        }
    }
}

pub open spec fn all_items_printable(s: Seq<Item>) -> bool
    decreases s,
{
    s.len() == 0 || (all_items_printable(s.drop_last()) && s.last().printable())
}

#[verifier::spinoff_prover]
pub proof fn lemma_all_items_printable(s: Seq<Item>)
    requires
        all_items_printable(s),
    ensures
        forall|i: int| 0 <= i < s.len() ==> #[trigger] s[i].printable(),
    decreases s.len(),
{
    if s.len() > 0 {
        let d = s.drop_last();
        lemma_all_items_printable(d);
        assert forall|i: int| 0 <= i < s.len() implies #[trigger] s[i].printable() by {
            if i < s.len() - 1 {
                assert(d[i] == s[i]);
            }
        }
    }
}

pub open spec fn type_renders(s: Seq<Type>) -> Seq<Seq<char>>
    decreases s,
{
    if s.len() == 0 {
        Seq::empty()
    } else {
        type_renders(s.drop_last()).push(s.last().render())
    }
}

/// Writes the elements of `v`, `sep` between each two.
pub fn write_types_joined(v: &Vec<Type>, sep: &str, out: &mut String)
    requires
        all_types_printable(v@),
    ensures
        final(out)@ == old(out)@ + join(type_renders(v@), sep@),
    decreases v@,
{
    proof {
        lemma_all_types_printable(v@);
    }
    let mut i: usize = 0;
    while i < v.len()
        invariant
            i <= v.len(),
            forall|j: int| 0 <= j < v@.len() ==> #[trigger] v@[j].printable(),
            out@ == old(out)@ + join(type_renders(v@.take(i as int)), sep@),
        decreases v.len() - i,
    {
        let ghost before = out@;
        proof {
            let t = v@.take(i + 1);
            assert(t.drop_last() =~= v@.take(i as int));
            assert(t.last() == v@[i as int]);
            lemma_join_push(type_renders(v@.take(i as int)), sep@, v@[i as int].render());
        }
        if i > 0 {
            push_str(out, sep);
        }
        v[i].write(out);
        assert(out@ =~= old(out)@ + join(type_renders(v@.take(i + 1)), sep@));
        i = i + 1;
    }
    assert(v@.take(v.len() as int) =~= v@);
}

pub open spec fn variant_renders(s: Seq<Variant>) -> Seq<Seq<char>>
    decreases s,
{
    if s.len() == 0 {
        Seq::empty()
    } else {
        variant_renders(s.drop_last()).push(s.last().render())
    }
}

/// Writes the elements of `v`, each between `pre` and `post`.
pub fn write_variants_framed(v: &Vec<Variant>, pre: &str, post: &str, out: &mut String)
    requires
        all_variants_printable(v@),
    ensures
        final(out)@ == old(out)@ + lines(variant_renders(v@), pre@, post@),
    decreases v@,
{
    proof {
        lemma_all_variants_printable(v@);
    }
    let mut i: usize = 0;
    while i < v.len()
        invariant
            i <= v.len(),
            forall|j: int| 0 <= j < v@.len() ==> #[trigger] v@[j].printable(),
            out@ == old(out)@ + lines(variant_renders(v@.take(i as int)), pre@, post@),
        decreases v.len() - i,
    {
        proof {
            let t = v@.take(i + 1);
            assert(t.drop_last() =~= v@.take(i as int));
            assert(t.last() == v@[i as int]);
            lemma_lines_push(variant_renders(v@.take(i as int)), pre@, post@, v@[i as int].render());
        }
        push_str(out, pre);
        v[i].write(out);
        push_str(out, post);
        assert(out@ =~= old(out)@ + lines(variant_renders(v@.take(i + 1)), pre@, post@));
        i = i + 1;
    }
    assert(v@.take(v.len() as int) =~= v@);
}

pub open spec fn field_renders(s: Seq<Field>) -> Seq<Seq<char>>
    decreases s,
{
    if s.len() == 0 {
        Seq::empty()
    } else {
        field_renders(s.drop_last()).push(s.last().render())
    }
}

/// Writes the elements of `v`, each between `pre` and `post`.
pub fn write_fields_framed(v: &Vec<Field>, pre: &str, post: &str, out: &mut String)
    requires
        all_fields_printable(v@),
    ensures
        final(out)@ == old(out)@ + lines(field_renders(v@), pre@, post@),
    decreases v@,
{
    proof {
        lemma_all_fields_printable(v@);
    }
    let mut i: usize = 0;
    while i < v.len()
        invariant
            i <= v.len(),
            forall|j: int| 0 <= j < v@.len() ==> #[trigger] v@[j].printable(),
            out@ == old(out)@ + lines(field_renders(v@.take(i as int)), pre@, post@),
        decreases v.len() - i,
    {
        proof {
            let t = v@.take(i + 1);
            assert(t.drop_last() =~= v@.take(i as int));
            assert(t.last() == v@[i as int]);
            lemma_lines_push(field_renders(v@.take(i as int)), pre@, post@, v@[i as int].render());
        }
        push_str(out, pre);
        v[i].write(out);
        push_str(out, post);
        assert(out@ =~= old(out)@ + lines(field_renders(v@.take(i + 1)), pre@, post@));
        i = i + 1;
    }
    assert(v@.take(v.len() as int) =~= v@);
}

pub open spec fn field_index_renders(s: Seq<Field>) -> Seq<Seq<char>>
    decreases s,
{
    if s.len() == 0 {
        Seq::empty()
    } else {
        field_index_renders(s.drop_last()).push(s.last().index_render())
    }
}

/// Writes the elements of `v`, `sep` between each two.
pub fn write_field_indices_joined(v: &Vec<Field>, sep: &str, out: &mut String)
    requires
        all_fields_printable(v@),
    ensures
        final(out)@ == old(out)@ + join(field_index_renders(v@), sep@),
    decreases v@,
{
    proof {
        lemma_all_fields_printable(v@);
    }
    let mut i: usize = 0;
    while i < v.len()
        invariant
            i <= v.len(),
            forall|j: int| 0 <= j < v@.len() ==> #[trigger] v@[j].printable(),
            out@ == old(out)@ + join(field_index_renders(v@.take(i as int)), sep@),
        decreases v.len() - i,
    {
        let ghost before = out@;
        proof {
            let t = v@.take(i + 1);
            assert(t.drop_last() =~= v@.take(i as int));
            assert(t.last() == v@[i as int]);
            lemma_join_push(field_index_renders(v@.take(i as int)), sep@, v@[i as int].index_render());
        }
        if i > 0 {
            push_str(out, sep);
        }
        v[i].write_index(out);
        assert(out@ =~= old(out)@ + join(field_index_renders(v@.take(i + 1)), sep@));
        i = i + 1;
    }
    assert(v@.take(v.len() as int) =~= v@);
}

pub open spec fn generic_renders(s: Seq<Generic>) -> Seq<Seq<char>>
    decreases s,
{
    if s.len() == 0 {
        Seq::empty()
    } else {
        generic_renders(s.drop_last()).push(s.last().render())
    }
}

/// Writes the elements of `v`, `sep` between each two.
pub fn write_generics_joined(v: &Vec<Generic>, sep: &str, out: &mut String)
    requires
        all_generics_printable(v@),
    ensures
        final(out)@ == old(out)@ + join(generic_renders(v@), sep@),
    decreases v@,
{
    proof {
        lemma_all_generics_printable(v@);
    }
    let mut i: usize = 0;
    while i < v.len()
        invariant
            i <= v.len(),
            forall|j: int| 0 <= j < v@.len() ==> #[trigger] v@[j].printable(),
            out@ == old(out)@ + join(generic_renders(v@.take(i as int)), sep@),
        decreases v.len() - i,
    {
        let ghost before = out@;
        proof {
            let t = v@.take(i + 1);
            assert(t.drop_last() =~= v@.take(i as int));
            assert(t.last() == v@[i as int]);
            lemma_join_push(generic_renders(v@.take(i as int)), sep@, v@[i as int].render());
        }
        if i > 0 {
            push_str(out, sep);
        }
        v[i].write(out);
        assert(out@ =~= old(out)@ + join(generic_renders(v@.take(i + 1)), sep@));
        i = i + 1;
    }
    assert(v@.take(v.len() as int) =~= v@);
}

pub open spec fn method_renders(s: Seq<Method>) -> Seq<Seq<char>>
    decreases s,
{
    if s.len() == 0 {
        Seq::empty()
    } else {
        method_renders(s.drop_last()).push(s.last().render())
    }
}

/// Writes the elements of `v`, each between `pre` and `post`.
pub fn write_methods_framed(v: &Vec<Method>, pre: &str, post: &str, out: &mut String)
    requires
        all_methods_printable(v@),
    ensures
        final(out)@ == old(out)@ + lines(method_renders(v@), pre@, post@),
    decreases v@,
{
    proof {
        lemma_all_methods_printable(v@);
    }
    let mut i: usize = 0;
    while i < v.len()
        invariant
            i <= v.len(),
            forall|j: int| 0 <= j < v@.len() ==> #[trigger] v@[j].printable(),
            out@ == old(out)@ + lines(method_renders(v@.take(i as int)), pre@, post@),
        decreases v.len() - i,
    {
        proof {
            let t = v@.take(i + 1);
            assert(t.drop_last() =~= v@.take(i as int));
            assert(t.last() == v@[i as int]);
            lemma_lines_push(method_renders(v@.take(i as int)), pre@, post@, v@[i as int].render());
        }
        push_str(out, pre);
        v[i].write(out);
        push_str(out, post);
        assert(out@ =~= old(out)@ + lines(method_renders(v@.take(i + 1)), pre@, post@));
        i = i + 1;
    }
    assert(v@.take(v.len() as int) =~= v@);
}

pub open spec fn param_renders(s: Seq<Param>) -> Seq<Seq<char>>
    decreases s,
{
    if s.len() == 0 {
        Seq::empty()
    } else {
        param_renders(s.drop_last()).push(s.last().render())
    }
}

/// Writes the elements of `v`, `sep` between each two.
pub fn write_params_joined(v: &Vec<Param>, sep: &str, out: &mut String)
    requires
        all_params_printable(v@),
    ensures
        final(out)@ == old(out)@ + join(param_renders(v@), sep@),
    decreases v@,
{
    proof {
        lemma_all_params_printable(v@);
    }
    let mut i: usize = 0;
    while i < v.len()
        invariant
            i <= v.len(),
            forall|j: int| 0 <= j < v@.len() ==> #[trigger] v@[j].printable(),
            out@ == old(out)@ + join(param_renders(v@.take(i as int)), sep@),
        decreases v.len() - i,
    {
        let ghost before = out@;
        proof {
            let t = v@.take(i + 1);
            assert(t.drop_last() =~= v@.take(i as int));
            assert(t.last() == v@[i as int]);
            lemma_join_push(param_renders(v@.take(i as int)), sep@, v@[i as int].render());
        }
        if i > 0 {
            push_str(out, sep);
        }
        v[i].write(out);
        assert(out@ =~= old(out)@ + join(param_renders(v@.take(i + 1)), sep@));
        i = i + 1;
    }
    assert(v@.take(v.len() as int) =~= v@);
}

pub open spec fn item_renders(s: Seq<Item>) -> Seq<Seq<char>>
    decreases s,
{
    if s.len() == 0 {
        Seq::empty()
    } else {
        item_renders(s.drop_last()).push(s.last().render())
    }
}

/// Writes the elements of `v`, each between `pre` and `post`.
pub fn write_items_framed(v: &Vec<Item>, pre: &str, post: &str, out: &mut String)
    requires
        all_items_printable(v@),
    ensures
        final(out)@ == old(out)@ + lines(item_renders(v@), pre@, post@),
    decreases v@,
{
    proof {
        lemma_all_items_printable(v@);
    }
    let mut i: usize = 0;
    while i < v.len()
        invariant
            i <= v.len(),
            forall|j: int| 0 <= j < v@.len() ==> #[trigger] v@[j].printable(),
            out@ == old(out)@ + lines(item_renders(v@.take(i as int)), pre@, post@),
        decreases v.len() - i,
    {
        proof {
            let t = v@.take(i + 1);
            assert(t.drop_last() =~= v@.take(i as int));
            assert(t.last() == v@[i as int]);
            lemma_lines_push(item_renders(v@.take(i as int)), pre@, post@, v@[i as int].render());
        }
        push_str(out, pre);
        v[i].write(out);
        push_str(out, post);
        assert(out@ =~= old(out)@ + lines(item_renders(v@.take(i + 1)), pre@, post@));
        i = i + 1;
    }
    assert(v@.take(v.len() as int) =~= v@);
}

/// Writes `path::name`.
pub fn write_qualified(path: &Path, name: &String, out: &mut String)
    ensures
        final(out)@ == old(out)@ + qualified(path, name@),
{
    let p = path.to_string();
    push_str(out, p.as_str());
    push_str(out, "::");
    push_str(out, name.as_str());
    assert(out@ =~= old(out)@ + qualified(path, name@));
}

/// Writes the lifetime bounds, ` + ` between each two.
fn write_lifetimes(v: &Vec<LifetimeBound>, out: &mut String)
    ensures
        final(out)@ == old(out)@ + join(lifetime_renders(v@), " + "@),
{
    let mut i: usize = 0;
    while i < v.len()
        invariant
            i <= v.len(),
            out@ == old(out)@ + join(lifetime_renders(v@.take(i as int)), " + "@),
        decreases v.len() - i,
    {
        proof {
            assert(lifetime_renders(v@.take(i + 1)) =~= lifetime_renders(v@.take(i as int)).push(v@[i as int].rendered()));
            lemma_join_push(lifetime_renders(v@.take(i as int)), " + "@, v@[i as int].rendered());
        }
        if i > 0 {
            push_str(out, " + ");
        }
        let t = v[i].to_string();
        push_str(out, t.as_str());
        assert(out@ =~= old(out)@ + join(lifetime_renders(v@.take(i + 1)), " + "@));
        i = i + 1;
    }
    assert(v@.take(v.len() as int) =~= v@);
}

/// Writes the bounds, ` + ` between each two.
fn write_bounds(v: &Vec<Bound>, out: &mut String)
    ensures
        final(out)@ == old(out)@ + join(bound_renders(v@), " + "@),
{
    let mut i: usize = 0;
    while i < v.len()
        invariant
            i <= v.len(),
            out@ == old(out)@ + join(bound_renders(v@.take(i as int)), " + "@),
        decreases v.len() - i,
    {
        proof {
            assert(bound_renders(v@.take(i + 1)) =~= bound_renders(v@.take(i as int)).push(v@[i as int].rendered()));
            lemma_join_push(bound_renders(v@.take(i as int)), " + "@, v@[i as int].rendered());
        }
        if i > 0 {
            push_str(out, " + ");
        }
        let t = v[i].to_string();
        push_str(out, t.as_str());
        assert(out@ =~= old(out)@ + join(bound_renders(v@.take(i + 1)), " + "@));
        i = i + 1;
    }
    assert(v@.take(v.len() as int) =~= v@);
}

/// Appends `"\n"` when `nonempty`.
fn write_newline_if(nonempty: bool, out: &mut String)
    ensures
        final(out)@ == old(out)@ + newline_if(nonempty),
{
    if nonempty {
        push_str(out, "\n");
    } else {
        assert(out@ =~= old(out)@ + newline_if(nonempty));
    }
}

impl Type {
    /// Appends the type as written out.
    pub fn write(&self, out: &mut String)
        requires
            self.printable(),
        ensures
            final(out)@ == old(out)@ + self.render(),
        decreases self,
    {
        match self {
            Type::Any => push_str(out, "any"),
            Type::Bool(_) => push_str(out, "bool"),
            Type::Enum(e) => e.write(out),
            Type::Number(n) => {
                let t = n.to_string();
                push_str(out, t.as_str());
            },
            Type::Str(_) => push_str(out, "string"),
            Type::Ref(r) => {
                push_str(out, "&");
                r.0.write(out);
            },
            Type::Slice(s) => s.write_id(out),
            Type::Mapping(m) => m.ty.write(out),
            Type::Struct(s) => s.write(out),
            Type::This(_) => push_str(out, "Self"),
            Type::Tuple(t) => t.write_id(out),
            Type::Trait(t) => t.write(out),
            Type::Mut(m) => {
                push_str(out, "mut ");
                m.0.write(out);
            },
            Type::Mod(m) => m.write(out),
            Type::Void => push_str(out, "void"),
        }
        assert(out@ =~= old(out)@ + self.render());
    }

    /// Appends the type's id.
    pub fn write_id(&self, out: &mut String)
        requires
            self.id_ok(),
        ensures
            final(out)@ == old(out)@ + self.spec_id(),
        decreases self,
    {
        match self {
            Type::Any => push_str(out, "any"),
            Type::Bool(_) => push_str(out, "bool"),
            Type::Enum(e) => write_qualified(&e.path, &e.name, out),
            Type::Number(n) => {
                let t = n.to_string();
                push_str(out, t.as_str());
            },
            Type::Str(_) => push_str(out, "string"),
            Type::Ref(r) => {
                push_str(out, "&");
                r.0.write_id(out);
            },
            Type::Slice(s) => s.write_id(out),
            Type::Mapping(m) => m.ty.write_id(out),
            Type::Struct(s) => write_qualified(&s.path, &s.name, out),
            Type::This(_) => push_str(out, "Self"),
            Type::Tuple(t) => t.write_id(out),
            Type::Trait(t) => write_qualified(&t.path, &t.name, out),
            Type::Mut(m) => {
                push_str(out, "mut ");
                m.0.write_id(out);
            },
            Type::Mod(m) => {
                let p = m.path.to_string();
                push_str(out, p.as_str());
            },
            Type::Void => push_str(out, "void"),
        }
        assert(out@ =~= old(out)@ + self.spec_id());
    }

    /// The type as written out.
    pub fn to_string(&self) -> (s: String)
        requires
            self.printable(),
        ensures
            s@ == self.render(),
    {
        let mut s = String::new();
        self.write(&mut s);
        assert(s@ =~= self.render());
        s
    }

    /// The type's id.
    pub fn id(&self) -> (id: TypeId)
        requires
            self.id_ok(),
        ensures
            id@ == self.spec_id(),
            *self matches Type::Struct(t) ==> id@ == join(t.path@, "::"@) + "::"@ + t.name@,
            *self matches Type::Enum(t) ==> id@ == join(t.path@, "::"@) + "::"@ + t.name@,
            *self matches Type::Trait(t) ==> id@ == join(t.path@, "::"@) + "::"@ + t.name@,
    {
        let mut s = String::new();
        self.write_id(&mut s);
        assert(s@ =~= self.spec_id());
        proof {
            crate::reflect::laws::law_type_ids(*self);
        }
        TypeId(s)
    }
}

impl SliceType {
    /// Appends `[elem]` or `[elem; capacity]`.
    pub fn write_id(&self, out: &mut String)
        requires
            self.ty.id_ok(),
        ensures
            final(out)@ == old(out)@ + self.spec_id(),
        decreases self,
    {
        push_str(out, "[");
        self.ty.write_id(out);
        match self.capacity {
            None => {},
            Some(n) => {
                push_str(out, "; ");
                push_decimal(out, n as u64);
            },
        }
        push_str(out, "]");
        assert(out@ =~= old(out)@ + self.spec_id());
    }
}

impl TupleType {
    /// Appends `(a, b, ...)`.
    pub fn write_id(&self, out: &mut String)
        requires
            all_types_printable(self.items@),
        ensures
            final(out)@ == old(out)@ + self.spec_id(),
        decreases self,
    {
        push_str(out, "(");
        write_types_joined(&self.items, ", ", out);
        push_str(out, ")");
        assert(out@ =~= old(out)@ + self.spec_id());
    }
}

impl EnumType {
    pub fn write(&self, out: &mut String)
        requires
            self.printable(),
        ensures
            final(out)@ == old(out)@ + self.render(),
        decreases self,
    {
        self.vis.write_prefix(out);
        push_str(out, "enum ");
        push_str(out, self.name.as_str());
        self.generics.write(out);
        push_str(out, " {");
        write_variants_framed(&self.variants, "\n\t", ",", out);
        write_newline_if(self.variants.len() > 0, out);
        push_str(out, "}");
        assert(out@ =~= old(out)@ + self.render());
    }
}

impl Variant {
    pub fn write(&self, out: &mut String)
        requires
            self.printable(),
        ensures
            final(out)@ == old(out)@ + self.render(),
        decreases self,
    {
        push_str(out, self.name.as_str());
        self.fields.write(out);
        assert(out@ =~= old(out)@ + self.render());
    }
}

impl StructType {
    pub fn write(&self, out: &mut String)
        requires
            self.printable(),
        ensures
            final(out)@ == old(out)@ + self.render(),
        decreases self,
    {
        self.vis.write_prefix(out);
        push_str(out, "struct ");
        push_str(out, self.name.as_str());
        self.generics.write(out);
        self.fields.write(out);
        assert(out@ =~= old(out)@ + self.render());
    }
}

impl Fields {
    pub fn write(&self, out: &mut String)
        requires
            self.printable(),
        ensures
            final(out)@ == old(out)@ + self.render(),
        decreases self,
    {
        match self.layout {
            crate::reflect::leaf::Layout::Key => {
                push_str(out, " {");
                write_fields_framed(&self.fields, "\n\t", ",", out);
                write_newline_if(self.fields.len() > 0, out);
                push_str(out, "}");
            },
            crate::reflect::leaf::Layout::Index => {
                push_str(out, "(");
                write_field_indices_joined(&self.fields, ", ", out);
                push_str(out, ")");
            },
            crate::reflect::leaf::Layout::Unit => {},
        }
        assert(out@ =~= old(out)@ + self.render());
    }
}

impl Field {
    pub fn write(&self, out: &mut String)
        requires
            self.printable(),
        ensures
            final(out)@ == old(out)@ + self.render(),
        decreases self,
    {
        self.vis.write_prefix(out);
        match &self.name {
            FieldName::Key(k) => {
                push_str(out, k.as_str());
                push_str(out, ": ");
            },
            FieldName::Index(_) => {},
        }
        self.ty.write(out);
        assert(out@ =~= old(out)@ + self.render());
    }

    pub fn write_index(&self, out: &mut String)
        requires
            self.printable(),
        ensures
            final(out)@ == old(out)@ + self.index_render(),
        decreases self,
    {
        self.vis.write_prefix(out);
        self.ty.write(out);
        assert(out@ =~= old(out)@ + self.index_render());
    }
}

impl Generics {
    pub fn write(&self, out: &mut String)
        requires
            self.printable(),
        ensures
            final(out)@ == old(out)@ + self.render(),
        decreases self,
    {
        if self.0.len() > 0 {
            push_str(out, "<");
            write_generics_joined(&self.0, ", ", out);
            push_str(out, ">");
        }
        assert(out@ =~= old(out)@ + self.render());
    }
}

impl Generic {
    pub fn write(&self, out: &mut String)
        requires
            self.printable(),
        ensures
            final(out)@ == old(out)@ + self.render(),
        decreases self,
    {
        match self {
            Generic::Const(c) => c.write(out),
            Generic::Lifetime(l) => l.write(out),
            Generic::Type(t) => t.write(out),
        }
    }
}

impl ConstParam {
    pub fn write(&self, out: &mut String)
        requires
            self.ty.printable(),
        ensures
            final(out)@ == old(out)@ + self.render(),
        decreases self,
    {
        push_str(out, "const ");
        push_str(out, self.name.as_str());
        push_str(out, ": ");
        self.ty.write(out);
        assert(out@ =~= old(out)@ + self.render());
    }
}

impl LifetimeParam {
    pub fn write(&self, out: &mut String)
        ensures
            final(out)@ == old(out)@ + self.render(),
    {
        push_str(out, "'");
        push_str(out, self.name.as_str());
        if self.bounds.len() > 0 {
            push_str(out, ": ");
            write_lifetimes(&self.bounds, out);
        }
        assert(out@ =~= old(out)@ + self.render());
    }
}

impl TypeParam {
    pub fn write(&self, out: &mut String)
        requires
            self.printable(),
        ensures
            final(out)@ == old(out)@ + self.render(),
        decreases self,
    {
        push_str(out, self.name.as_str());
        if self.bounds.len() > 0 {
            push_str(out, ": ");
        }
        write_bounds(&self.bounds, out);
        match &self.default {
            None => {},
            Some(d) => {
                push_str(out, " = ");
                d.write(out);
            },
        }
        assert(out@ =~= old(out)@ + self.render());
    }
}

impl TraitType {
    pub fn write(&self, out: &mut String)
        requires
            self.printable(),
        ensures
            final(out)@ == old(out)@ + self.render(),
        decreases self,
    {
        self.vis.write_prefix(out);
        push_str(out, "trait ");
        push_str(out, self.name.as_str());
        self.generics.write(out);
        push_str(out, " {");
        write_methods_framed(&self.methods, "\n\t", "", out);
        write_newline_if(self.methods.len() > 0, out);
        push_str(out, "}");
        assert(out@ =~= old(out)@ + self.render());
    }
}

impl Method {
    #[verifier::spinoff_prover]
    #[verifier::rlimit(50)]
    pub fn write(&self, out: &mut String)
        requires
            self.printable(),
        ensures
            final(out)@ == old(out)@ + self.render(),
        decreases self,
    {
        self.vis.write_prefix(out);
        if self.is_async {
            push_str(out, "async ");
        }
        push_str(out, "fn ");
        push_str(out, self.name.as_str());
        self.generics.write(out);
        push_str(out, "(");
        write_params_joined(&self.params, ", ", out);
        push_str(out, ")");
        if !matches!(*self.return_type, Type::Void) {
            push_str(out, " -> ");
            self.return_type.write(out);
        }
        push_str(out, ";");
        assert(out@ =~= old(out)@ + self.render());
    }
}

impl Param {
    /// Whether this is the receiver of a method.
    pub fn is_selfish(&self) -> (r: bool)
        ensures
            r == self.spec_is_selfish(),
    {
        proof {
            reveal_strlit("self");
        }
        let name_is_self = self.name.as_str().unicode_len() == 4 && self.name.as_str().get_char(0) == 's'
            && self.name.as_str().get_char(1) == 'e' && self.name.as_str().get_char(2) == 'l'
            && self.name.as_str().get_char(3) == 'f';
        proof {
            if name_is_self {
                assert(self.name@ =~= "self"@);
            }
            if self.name@ == "self"@ {
                assert(self.name@[0] == 's' && self.name@[1] == 'e' && self.name@[2] == 'l' && self.name@[3] == 'f');
            }
        }
        let like = match &*self.ty {
            Type::This(_) => true,
            Type::Mut(m) => matches!(*m.0, Type::This(_)),
            Type::Ref(r) => match &*r.0 {
                Type::This(_) => true,
                Type::Mut(m) => matches!(*m.0, Type::This(_)),
                _ => false,
            },
            _ => false,
        };
        name_is_self && like
    }

    pub fn write(&self, out: &mut String)
        requires
            self.printable(),
        ensures
            final(out)@ == old(out)@ + self.render(),
        decreases self,
    {
        if self.is_selfish() {
            match &*self.ty {
                Type::This(_) => push_str(out, "self"),
                Type::Mut(_) => push_str(out, "mut self"),
                Type::Ref(r) => {
                    if r.0.is_mut() {
                        push_str(out, "&mut self");
                    } else {
                        push_str(out, "&self");
                    }
                },
                _ => {},
            }
        } else {
            push_str(out, self.name.as_str());
            push_str(out, ": ");
            self.ty.write(out);
        }
        assert(out@ =~= old(out)@ + self.render());
    }
}

impl ModType {
    pub fn write(&self, out: &mut String)
        requires
            self.printable(),
        ensures
            final(out)@ == old(out)@ + self.render(),
        decreases self,
    {
        self.vis.write_prefix(out);
        push_str(out, self.path.name());
        push_str(out, " {");
        write_items_framed(&self.items, "\n\t", "", out);
        write_newline_if(self.items.len() > 0, out);
        push_str(out, "}");
        assert(out@ =~= old(out)@ + self.render());
    }
}

impl Item {
    pub fn write(&self, out: &mut String)
        requires
            self.printable(),
        ensures
            final(out)@ == old(out)@ + self.render(),
        decreases self,
    {
        match self {
            Item::Type(t) => t.write(out),
            Item::Impl(i) => i.write(out),
        }
    }
}

impl Impl {
    pub fn write(&self, out: &mut String)
        requires
            self.printable(),
        ensures
            final(out)@ == old(out)@ + self.render(),
        decreases self,
    {
        push_str(out, "impl");
        self.generics.write(out);
        match &self.of_trait {
            None => {},
            Some(p) => {
                push_str(out, " ");
                push_str(out, p.name());
                push_str(out, " for ");
            },
        }
        push_str(out, " ");
        self.self_ty.write(out);
        push_str(out, " {");
        write_methods_framed(&self.methods, "\n\t", "", out);
        write_newline_if(self.methods.len() > 0, out);
        push_str(out, "}");
        assert(out@ =~= old(out)@ + self.render());
    }
}

} // verus!
