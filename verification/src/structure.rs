//! Composite definitions held by the registry: structs, untagged unions,
//! and tagged unions (a tag field followed by a union payload).

use vstd::prelude::*;

use crate::crepr::RepresentationContext;
use crate::crepr::ctx_view;
use crate::crepr::indent_text_v;
use crate::crepr::RepCtxV;
use crate::definition::CVarDef;
use crate::definition::VarDefV;
use crate::definition::vardef_text;
use crate::definition::vardef_view;
use crate::definition::vardef_views;
use crate::definition::lemma_vardef_views_index;
use crate::ty::CType;

verus! {

/// An ordered-field definition used for both structs and untagged unions.
pub struct CStructDef {
    pub name: String,
    pub fields: Vec<CVarDef>,
}

/// The view of a struct or union definition.
pub struct StructDefV {
    pub name: Seq<char>,
    pub fields: Seq<VarDefV>,
}

/// The view of a struct or union definition.
pub open spec fn structdef_view(s: CStructDef) -> StructDefV {
    StructDefV { name: s.name@, fields: vardef_views(s.fields@) }
}

impl CStructDef {
    /// The field at `idx` as a copy.
    pub fn get_field(&self, idx: usize) -> (r: CVarDef)
        requires
            idx < self.fields@.len(),
        ensures
            vardef_view(r) == structdef_view(*self).fields[idx as int],
    {
        proof {
            lemma_vardef_views_index(self.fields@);
        }
        self.fields[idx].clone_def()
    }

    pub fn get_name(&self) -> (r: String)
        ensures
            r@ == self.name@,
    {
        self.name.clone()
    }

    /// A copy with the same view.
    pub fn clone_def(&self) -> (r: CStructDef)
        ensures
            structdef_view(r) == structdef_view(*self),
    {
        let ghost vs = vardef_views(self.fields@);
        proof {
            lemma_vardef_views_index(self.fields@);
        }
        let mut fields: Vec<CVarDef> = Vec::new();
        let mut i: usize = 0;
        proof {
            assert(vardef_views(fields@) =~= vs.subrange(0, 0));
        }
        while i < self.fields.len()
            invariant
                i <= self.fields.len(),
                fields@.len() == i,
                vs == vardef_views(self.fields@),
                vs.len() == self.fields@.len(),
                forall|k: int|
                    0 <= k < self.fields@.len() ==> vs[k] == vardef_view(
                        #[trigger] self.fields@[k],
                    ),
                vardef_views(fields@) == vs.subrange(0, i as int),
            decreases self.fields.len() - i,
        {
            let ghost pre = fields@;
            fields.push(self.fields[i].clone_def());
            i = i + 1;
            proof {
                assert(fields@.drop_last() =~= pre);
                assert(vardef_views(fields@) =~= vs.subrange(0, i as int));
            }
        }
        proof {
            assert(vs.subrange(0, vs.len() as int) =~= vs);
        }
        CStructDef { name: self.name.clone(), fields }
    }
}

/// A tagged-union definition: its name, the tag field, and the union
/// payload field; the tag always precedes the payload.
pub struct CTaggedUnionDef {
    pub name: String,
    pub tag: CVarDef,
    pub union_var: CVarDef,
}

/// The view of a tagged-union definition.
pub struct TaggedUnionDefV {
    pub name: Seq<char>,
    pub tag: VarDefV,
    pub union_var: VarDefV,
}

/// The view of a tagged-union definition.
pub open spec fn taggedunion_view(t: CTaggedUnionDef) -> TaggedUnionDefV {
    TaggedUnionDefV {
        name: t.name@,
        tag: vardef_view(t.tag),
        union_var: vardef_view(t.union_var),
    }
}

/// The name of every tagged union's tag field.
pub fn tag_field_name() -> (r: &'static str)
    ensures
        r@ == tag_field_name_text(),
{
    "tag"
}

pub open spec fn tag_field_name_text() -> Seq<char> {
    "tag"@
}

/// The name of every tagged union's payload field.
pub fn union_field_name() -> (r: &'static str)
    ensures
        r@ == union_field_name_text(),
{
    "union_type"
}

pub open spec fn union_field_name_text() -> Seq<char> {
    "union_type"@
}

impl CTaggedUnionDef {
    /// A tagged union whose tag field is slot 0 and whose payload field
    /// is slot 1.
    pub fn new(name: String, tag_type: CType, union_type: CType) -> (r: Self)
        ensures
            taggedunion_view(r) == (TaggedUnionDefV {
                name: name@,
                tag: VarDefV {
                    local_id: 0,
                    name: tag_field_name_text(),
                    ty: crate::ty::ctype_view(tag_type),
                },
                union_var: VarDefV {
                    local_id: 1,
                    name: union_field_name_text(),
                    ty: crate::ty::ctype_view(union_type),
                },
            }),
    {
        Self {
            name,
            tag: CVarDef::new(0, String::from_str(tag_field_name()), tag_type),
            union_var: CVarDef::new(1, String::from_str(union_field_name()), union_type),
        }
    }

    /// A copy with the same view.
    pub fn clone_def(&self) -> (r: CTaggedUnionDef)
        ensures
            taggedunion_view(r) == taggedunion_view(*self),
    {
        CTaggedUnionDef {
            name: self.name.clone(),
            tag: self.tag.clone_def(),
            union_var: self.union_var.clone_def(),
        }
    }
}

/// A registered composite.
pub enum CComposite {
    Struct(CStructDef),
    Union(CStructDef),
    TaggedUnion(CTaggedUnionDef),
}

/// The view of a registered composite.
pub enum CompositeV {
    Struct(StructDefV),
    Union(StructDefV),
    TaggedUnion(TaggedUnionDefV),
}

/// The view of a registered composite.
pub open spec fn composite_view(c: CComposite) -> CompositeV {
    match c {
        CComposite::Struct(s) => CompositeV::Struct(structdef_view(s)),
        CComposite::Union(s) => CompositeV::Union(structdef_view(s)),
        CComposite::TaggedUnion(t) => CompositeV::TaggedUnion(taggedunion_view(t)),
    }
}

/// The name a composite view declares.
pub open spec fn composite_name(c: CompositeV) -> Seq<char> {
    match c {
        CompositeV::Struct(s) => s.name,
        CompositeV::Union(s) => s.name,
        CompositeV::TaggedUnion(t) => t.name,
    }
}

impl CComposite {
    /// The declared name.
    pub fn get_name(&self) -> (r: String)
        ensures
            r@ == composite_name(composite_view(*self)),
    {
        match self {
            CComposite::Struct(s) => s.get_name(),
            CComposite::Union(s) => s.get_name(),
            CComposite::TaggedUnion(t) => t.name.clone(),
        }
    }

    /// The struct or union definition of a non-tagged composite.
    pub fn as_struct_def(&self) -> (r: CStructDef)
        requires
            self is Struct || self is Union,
        ensures
            self is Struct ==> structdef_view(r) == composite_view(*self)->Struct_0,
            self is Union ==> structdef_view(r) == composite_view(*self)->Union_0,
    {
        match self {
            CComposite::Struct(s) => s.clone_def(),
            CComposite::Union(s) => s.clone_def(),
            CComposite::TaggedUnion(t) => {
                proof {
                    assert(false);
                }
                CStructDef { name: String::new(), fields: Vec::new() }
            },
        }
    }

    /// The definition of a tagged-union composite.
    pub fn as_tagged_union_def(&self) -> (r: CTaggedUnionDef)
        requires
            self is TaggedUnion,
        ensures
            taggedunion_view(r) == composite_view(*self)->TaggedUnion_0,
    {
        match self {
            CComposite::TaggedUnion(t) => t.clone_def(),
            _ => {
                proof {
                    assert(false);
                }
                CTaggedUnionDef {
                    name: String::new(),
                    tag: CVarDef::new(0, String::new(), CType::Void),
                    union_var: CVarDef::new(1, String::new(), CType::Void),
                }
            },
        }
    }

    /// A copy with the same view.
    pub fn clone_composite(&self) -> (r: CComposite)
        ensures
            composite_view(r) == composite_view(*self),
    {
        match self {
            CComposite::Struct(s) => CComposite::Struct(s.clone_def()),
            CComposite::Union(s) => CComposite::Union(s.clone_def()),
            CComposite::TaggedUnion(t) => CComposite::TaggedUnion(t.clone_def()),
        }
    }
}

/// The text a composite's typedef renders to.
pub open spec fn composite_text(c: CompositeV, ctx: RepCtxV) -> Seq<char> {
    match c {
        CompositeV::Struct(s) => "typedef "@ + "struct "@ + " {\n"@ + struct_fields_text(
            s.fields,
            ctx,
        ) + "} "@ + s.name + ";"@,
        CompositeV::Union(s) => "typedef "@ + "union "@ + " {\n"@ + struct_fields_text(
            s.fields,
            ctx,
        ) + "} "@ + s.name + ";"@,
        CompositeV::TaggedUnion(t) => "typedef struct  {\n"@ + indent_text_v(ctx) + vardef_text(
            t.tag,
        ) + ";\n"@ + indent_text_v(ctx) + vardef_text(t.union_var) + ";\n"@ + "} "@ + t.name
            + ";"@,
    }
}

/// Each field on its own indented line, ended by a semicolon.
pub open spec fn struct_fields_text(fields: Seq<VarDefV>, ctx: RepCtxV) -> Seq<char>
    decreases fields,
{
    if fields.len() == 0 {
        Seq::<char>::empty()
    } else {
        struct_fields_text(fields.drop_last(), ctx) + indent_text_v(ctx) + vardef_text(
            fields.last(),
        ) + ";\n"@
    }
}

impl CComposite {
    /// Renders the composite's typedef.
    pub fn repr(&self, out: &mut String, ctx: &RepresentationContext)
        ensures
            final(out)@ == old(out)@ + composite_text(composite_view(*self), ctx_view(*ctx)),
    {
        match self {
            CComposite::Struct(s) | CComposite::Union(s) => {
                out.append("typedef ");
                match self {
                    CComposite::Struct(_) => out.append("struct "),
                    _ => out.append("union "),
                }
                out.append(" {\n");
                let ghost base = out@;
                let ghost vs = vardef_views(s.fields@);
                proof {
                    lemma_vardef_views_index(s.fields@);
                    assert(vs.subrange(0, 0) =~= Seq::<VarDefV>::empty());
                }
                let mut i: usize = 0;
                while i < s.fields.len()
                    invariant
                        i <= s.fields.len(),
                        vs == vardef_views(s.fields@),
                        vs.len() == s.fields@.len(),
                        forall|k: int|
                            0 <= k < s.fields@.len() ==> vs[k] == vardef_view(
                                #[trigger] s.fields@[k],
                            ),
                        out@ == base + struct_fields_text(
                            vs.subrange(0, i as int),
                            ctx_view(*ctx),
                        ),
                    decreases s.fields.len() - i,
                {
                    crate::crepr::indent(out, ctx);
                    s.fields[i].repr(out, ctx);
                    out.append(";\n");
                    i = i + 1;
                    proof {
                        let pre = vs.subrange(0, i as int);
                        assert(pre.drop_last() =~= vs.subrange(0, i - 1));
                        assert(pre.last() == vs[i - 1]);
                        assert(out@ =~= base + struct_fields_text(pre, ctx_view(*ctx)));
                    }
                }
                out.append("} ");
                out.append(crate::crepr::self_str(&s.name));
                out.append(";");
                proof {
                    assert(vs.subrange(0, vs.len() as int) =~= vs);
                    assert(out@ =~= old(out)@ + composite_text(
                        composite_view(*self),
                        ctx_view(*ctx),
                    ));
                }
            },
            CComposite::TaggedUnion(t) => {
                out.append("typedef struct  {\n");
                crate::crepr::indent(out, ctx);
                t.tag.repr(out, ctx);
                out.append(";\n");
                crate::crepr::indent(out, ctx);
                t.union_var.repr(out, ctx);
                out.append(";\n");
                out.append("} ");
                out.append(crate::crepr::self_str(&t.name));
                out.append(";");
                proof {
                    assert(out@ =~= old(out)@ + composite_text(
                        composite_view(*self),
                        ctx_view(*ctx),
                    ));
                }
            },
        }
    }

    /// The typedef text rendered on its own.
    pub fn default_repr_str(&self) -> (r: String)
        ensures
            r@ == composite_text(composite_view(*self), crate::crepr::standard_ctx_v()),
    {
        let ctx = RepresentationContext::standard();
        let mut s = String::new();
        self.repr(&mut s, &ctx);
        s
    }
}

} // verus!
