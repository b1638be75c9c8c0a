//! Laws of descriptors: how declarations are written out, what each type's
//! id is, and which types a type is assignable to.

use vstd::prelude::*;
use crate::text::{join, lines};
use crate::reflect::path::sep;
use crate::reflect::model::{Type, RefType, Fields, Method, Param, Impl, ModType, TypeParam, LifetimeParam, ConstParam};
use crate::reflect::render::{
    type_renders, generic_renders, variant_renders, method_renders, field_renders, field_index_renders,
    param_renders, item_renders, bound_renders, lifetime_renders,
};

verus! {

/// A struct is written as its visibility, `struct `, its name, then its
/// generic parameters (nothing when there are none, else `<`, the parameters
/// with `, ` between each two, and `>`), then its fields.  An enum is written
/// the same way with `enum `, then ` {`, each variant on a new tab-indented
/// line followed by `,`, a line break when there is a variant, and `}`.  A
/// trait likewise with `trait ` and its methods, each on a new tab-indented
/// line.
pub proof fn law_declaration_text(t: Type)
    ensures
        t matches Type::Struct(s) ==> t.render() == s.vis.prefix() + "struct "@ + s.name@ + (if s.generics.0@.len()
            == 0 {
            Seq::empty()
        } else {
            "<"@ + join(generic_renders(s.generics.0@), ", "@) + ">"@
        }) + s.fields.render(),
        t matches Type::Enum(e) ==> t.render() == e.vis.prefix() + "enum "@ + e.name@ + (if e.generics.0@.len()
            == 0 {
            Seq::empty()
        } else {
            "<"@ + join(generic_renders(e.generics.0@), ", "@) + ">"@
        }) + " {"@ + lines(variant_renders(e.variants@), "\n\t"@, ","@) + (if e.variants@.len() > 0 {
            "\n"@
        } else {
            Seq::empty()
        }) + "}"@,
        t matches Type::Trait(r) ==> t.render() == r.vis.prefix() + "trait "@ + r.name@ + (if r.generics.0@.len()
            == 0 {
            Seq::empty()
        } else {
            "<"@ + join(generic_renders(r.generics.0@), ", "@) + ">"@
        }) + " {"@ + lines(method_renders(r.methods@), "\n\t"@, ""@) + (if r.methods@.len() > 0 {
            "\n"@
        } else {
            Seq::empty()
        }) + "}"@,
{
    match t {
        Type::Struct(s) => {
            assert(t.render() == s.render());
            assert(s.render() =~= s.vis.prefix() + "struct "@ + s.name@ + s.generics.render() + s.fields.render());
        },
        Type::Enum(e) => {
            assert(t.render() == e.render());
            assert(e.render() =~= e.vis.prefix() + "enum "@ + e.name@ + e.generics.render() + " {"@ + lines(
                variant_renders(e.variants@),
                "\n\t"@,
                ","@,
            ) + crate::reflect::render::newline_if(e.variants@.len() > 0) + "}"@);
        },
        Type::Trait(r) => {
            assert(t.render() == r.render());
            assert(r.render() =~= r.vis.prefix() + "trait "@ + r.name@ + r.generics.render() + " {"@ + lines(
                method_renders(r.methods@),
                "\n\t"@,
                ""@,
            ) + crate::reflect::render::newline_if(r.methods@.len() > 0) + "}"@);
        },
        _ => {},
    }
}

/// Named fields are written ` {`, each field on a new tab-indented line
/// followed by `,`, a line break when there is a field, and `}`; positional
/// fields inside round brackets with `, ` between each two; a unit struct
/// has no fields written at all.
pub proof fn law_fields_text(f: Fields)
    ensures
        f.layout is Key ==> f.render() == " {"@ + lines(field_renders(f.fields@), "\n\t"@, ","@) + (if f.fields@.len()
            > 0 {
            "\n"@
        } else {
            Seq::empty()
        }) + "}"@,
        f.layout is Index ==> f.render() == "("@ + join(field_index_renders(f.fields@), ", "@) + ")"@,
        f.layout is Unit ==> f.render() == Seq::<char>::empty(),
{
}

/// A method is written as its visibility, `async ` when it is async, `fn `,
/// its name, its generic parameters (nothing when there are none, else
/// `<`, the parameters with `, ` between each two, and `>`), its parameters
/// within round brackets with `, ` between each two, ` -> ` and the return
/// type unless that is `void`, and `;`.
pub proof fn law_method_text(m: Method)
    ensures
        m.render() == m.vis.prefix() + (if m.is_async {
            "async "@
        } else {
            Seq::empty()
        }) + "fn "@ + m.name@ + (if m.generics.0@.len() == 0 {
            Seq::empty()
        } else {
            "<"@ + join(generic_renders(m.generics.0@), ", "@) + ">"@
        }) + "("@ + join(param_renders(m.params@), ", "@) + ")"@ + (if *m.return_type is Void {
            Seq::empty()
        } else {
            " -> "@ + m.return_type.render()
        }) + ";"@,
{
    assert(m.render() =~= m.vis.prefix() + (if m.is_async {
        "async "@
    } else {
        Seq::empty()
    }) + "fn "@ + m.name@ + m.generics.render() + "("@ + join(param_renders(m.params@), ", "@) + ")"@ + (
    if *m.return_type is Void {
        Seq::empty()
    } else {
        " -> "@ + m.return_type.render()
    }) + ";"@);
}

/// A parameter named `self` of type `Self`, `mut Self`, `&Self` or
/// `&mut Self` is written `self`, `mut self`, `&self` or `&mut self`; any
/// other parameter as its name, `: ` and its type.
pub proof fn law_param_text(p: Param)
    ensures
        p.name@ == "self"@ && *p.ty is This ==> p.render() == "self"@,
        p.name@ == "self"@ && (*p.ty matches Type::Mut(m) && *m.0 is This) ==> p.render() == "mut self"@,
        p.name@ == "self"@ && (*p.ty matches Type::Ref(r) && *r.0 is This) ==> p.render() == "&self"@,
        p.name@ == "self"@ && (*p.ty matches Type::Ref(r) && (*r.0 matches Type::Mut(m) && *m.0 is This))
            ==> p.render() == "&mut self"@,
        p.name@ != "self"@ ==> p.render() == p.name@ + ": "@ + p.ty.render(),
{
}

/// An impl is written `impl`, its generic parameters, ` `, the trait's name,
/// ` for ` when it implements a trait, ` `, the implementing type, ` {`, each
/// method on a new tab-indented line, a line break when there is a method,
/// and `}`.  A module is written as its visibility, its name, then its items
/// framed the same way.
pub proof fn law_impl_and_module_text(i: Impl, m: ModType)
    ensures
        i.render() == "impl"@ + (if i.generics.0@.len() == 0 {
            Seq::empty()
        } else {
            "<"@ + join(generic_renders(i.generics.0@), ", "@) + ">"@
        }) + (match i.of_trait {
            None => Seq::empty(),
            Some(p) => " "@ + p@.last() + " for "@,
        }) + " "@ + i.self_ty.render() + " {"@ + lines(method_renders(i.methods@), "\n\t"@, ""@) + (
        if i.methods@.len() > 0 {
            "\n"@
        } else {
            Seq::empty()
        }) + "}"@,
        m.render() == m.vis.prefix() + m.path@.last() + " {"@ + lines(item_renders(m.items@), "\n\t"@, ""@) + (
        if m.items@.len() > 0 {
            "\n"@
        } else {
            Seq::empty()
        }) + "}"@,
{
    assert(i.render() =~= "impl"@ + i.generics.render() + (match i.of_trait {
        None => Seq::empty(),
        Some(p) => " "@ + p@.last() + " for "@,
    }) + " "@ + i.self_ty.render() + " {"@ + lines(method_renders(i.methods@), "\n\t"@, ""@)
        + crate::reflect::render::newline_if(i.methods@.len() > 0) + "}"@);
    assert(m.render() =~= m.vis.prefix() + m.path@.last() + " {"@ + lines(item_renders(m.items@), "\n\t"@, ""@)
        + crate::reflect::render::newline_if(m.items@.len() > 0) + "}"@);
}

/// A type parameter is written as its name, `: ` and its bounds with ` + `
/// between each two when it has any, and ` = ` and its default when it has
/// one; a lifetime parameter as `'`, its name, and `: ` and its bounds with
/// ` + ` between each two when it has any; a const parameter as `const `,
/// its name, `: ` and its type.
pub proof fn law_generic_param_text(t: TypeParam, l: LifetimeParam, c: ConstParam)
    ensures
        t.render() == t.name@ + (if t.bounds@.len() == 0 {
            Seq::empty()
        } else {
            ": "@ + join(bound_renders(t.bounds@), " + "@)
        }) + (match t.default {
            None => Seq::empty(),
            Some(d) => " = "@ + d.render(),
        }),
        l.render() == "'"@ + l.name@ + (if l.bounds@.len() == 0 {
            Seq::empty()
        } else {
            ": "@ + join(lifetime_renders(l.bounds@), " + "@)
        }),
        c.render() == "const "@ + c.name@ + ": "@ + c.ty.render(),
{
    if t.bounds@.len() == 0 {
        assert(bound_renders(t.bounds@) =~= Seq::<Seq<char>>::empty());
    }
    assert(t.render() =~= t.name@ + (if t.bounds@.len() == 0 {
        Seq::empty()
    } else {
        ": "@ + join(bound_renders(t.bounds@), " + "@)
    }) + (match t.default {
        None => Seq::empty(),
        Some(d) => " = "@ + d.render(),
    }));
}

/// The id of a struct, an enum or a trait is its module path with `::`
/// between each two segments, then `::`, then its name; that of a module
/// is its path so joined.  A reference's id is `&` before the id of what it
/// refers to, a `mut` type's id is `mut ` before the inner id, a map type
/// has the id of its collection type, and a tuple's id is its element
/// types within round brackets, `, ` between each two.
pub proof fn law_type_ids(t: Type)
    ensures
        t matches Type::Struct(s) ==> t.spec_id() == join(s.path@, "::"@) + "::"@ + s.name@,
        t matches Type::Enum(e) ==> t.spec_id() == join(e.path@, "::"@) + "::"@ + e.name@,
        t matches Type::Trait(r) ==> t.spec_id() == join(r.path@, "::"@) + "::"@ + r.name@,
        t matches Type::Mod(m) ==> t.spec_id() == join(m.path@, "::"@),
        t matches Type::Ref(r) ==> t.spec_id() == "&"@ + r.0.spec_id(),
        t matches Type::Mut(m) ==> t.spec_id() == "mut "@ + m.0.spec_id(),
        t matches Type::Mapping(m) ==> t.spec_id() == m.ty.spec_id(),
        t matches Type::Tuple(u) ==> t.spec_id() == "("@ + join(type_renders(u.items@), ", "@) + ")"@,
        t is Any ==> t.spec_id() == "any"@,
        t is Bool ==> t.spec_id() == "bool"@,
        t is Str ==> t.spec_id() == "string"@,
        t is This ==> t.spec_id() == "Self"@,
        t is Void ==> t.spec_id() == "void"@,
{
    reveal_strlit("::");
    assert(sep() =~= "::"@);
    if let Type::Tuple(u) = t {
        assert(t.spec_id() == u.spec_id());
        assert(u.spec_id() =~= "("@ + join(type_renders(u.items@), ", "@) + ")"@);
    }
}

/// A type other than `any`, `void` and a map type is assignable to exactly
/// the types that have its id.
pub proof fn law_assignable_iff_same_id(t: Type, u: Type)
    requires
        !(t is Any),
        !(t is Void),
        !(t is Mapping),
    ensures
        t.spec_assignable_to(u) <==> t.spec_id() == u.spec_id(),
{
}

/// A reference is not assignable to the type it refers to: its id has `&`
/// in front.
pub proof fn law_ref_not_assignable_to_target(r: RefType)
    ensures
        !Type::Ref(r).spec_assignable_to(*r.0),
{
    reveal_strlit("&");
    let t = Type::Ref(r);
    assert(t.spec_id().len() == r.0.spec_id().len() + 1);
}

} // verus!
