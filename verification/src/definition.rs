//! Variable definitions (slot id, name, type) and local declarations
//! (a definition with an optional initializer).

use vstd::prelude::*;

use crate::crepr::RepresentationContext;
use crate::expression::Expression;
use crate::expression::ExprV;
use crate::expression::expr_view;
use crate::ty::CType;
use crate::ty::CTypeV;
use crate::ty::ctype_text;
use crate::ty::ctype_view;
use crate::ty::push_ctype;

verus! {

/// A variable definition: its local slot id, declared name and type.
pub struct CVarDef {
    pub local_id: usize,
    pub name: String,
    pub ty: CType,
}

/// The view of a variable definition.
pub struct VarDefV {
    pub local_id: usize,
    pub name: Seq<char>,
    pub ty: CTypeV,
}

/// The view of a variable definition.
pub open spec fn vardef_view(v: CVarDef) -> VarDefV {
    VarDefV { local_id: v.local_id, name: v.name@, ty: ctype_view(v.ty) }
}

/// The views of a sequence of variable definitions.
pub open spec fn vardef_views(s: Seq<CVarDef>) -> Seq<VarDefV>
    decreases s,
{
    if s.len() == 0 {
        Seq::<VarDefV>::empty()
    } else {
        vardef_views(s.drop_last()).push(vardef_view(s.last()))
    }
}

/// Views of a definition sequence are taken element by element.
pub proof fn lemma_vardef_views_index(s: Seq<CVarDef>)
    ensures
        vardef_views(s).len() == s.len(),
        forall|i: int| 0 <= i < s.len() ==> vardef_views(s)[i] == vardef_view(#[trigger] s[i]),
    decreases s.len(),
{
    if s.len() > 0 {
        lemma_vardef_views_index(s.drop_last());
        assert forall|i: int| 0 <= i < s.len() implies vardef_views(s)[i] == vardef_view(
            #[trigger] s[i],
        ) by {
            if i < s.len() - 1 {
                assert(s.drop_last()[i] == s[i]);
            }
        }
    }
}

/// The text a definition renders to: its type with the name pending.
pub open spec fn vardef_text(v: VarDefV) -> Seq<char> {
    ctype_text(v.ty, 0, Option::Some(v.name))
}

impl CVarDef {
    pub fn new(local_id: usize, name: String, ty: CType) -> (r: Self)
        ensures
            vardef_view(r) == (VarDefV { local_id, name: name@, ty: ctype_view(ty) }),
    {
        Self { local_id, name, ty }
    }

    pub fn get_id(&self) -> (r: usize)
        ensures
            r == self.local_id,
    {
        self.local_id
    }

    pub fn get_name(&self) -> (r: String)
        ensures
            r@ == self.name@,
    {
        self.name.clone()
    }

    pub fn get_type(&self) -> (r: &CType)
        ensures
            r == &self.ty,
    {
        &self.ty
    }

    /// A copy with the same view.
    pub fn clone_def(&self) -> (r: CVarDef)
        ensures
            vardef_view(r) == vardef_view(*self),
    {
        CVarDef {
            local_id: self.local_id,
            name: self.name.clone(),
            ty: crate::ty::clone_ctype(&self.ty),
        }
    }

    /// Renders the definition: its type with the declared name.
    pub fn repr(&self, out: &mut String, _ctx: &RepresentationContext)
        ensures
            final(out)@ == old(out)@ + vardef_text(vardef_view(*self)),
    {
        let name = Some(self.name.clone());
        push_ctype(out, &self.ty, 0, &name);
    }
}

/// A local declaration: a definition with an optional initializer.
pub struct CVarDecl {
    pub var: CVarDef,
    pub value: Option<Box<Expression>>,
}

/// The view of a local declaration.
pub struct VarDeclV {
    pub var: VarDefV,
    pub value: Option<ExprV>,
}

/// The view of a local declaration.
pub open spec fn vardecl_view(d: CVarDecl) -> VarDeclV {
    VarDeclV {
        var: vardef_view(d.var),
        value: match d.value {
            Option::Some(e) => Option::Some(expr_view(*e)),
            Option::None => Option::None,
        },
    }
}

/// The views of a sequence of declarations.
pub open spec fn vardecl_views(s: Seq<CVarDecl>) -> Seq<VarDeclV>
    decreases s,
{
    if s.len() == 0 {
        Seq::<VarDeclV>::empty()
    } else {
        vardecl_views(s.drop_last()).push(vardecl_view(s.last()))
    }
}

/// Views of a declaration sequence are taken element by element.
pub proof fn lemma_vardecl_views_index(s: Seq<CVarDecl>)
    ensures
        vardecl_views(s).len() == s.len(),
        forall|i: int| 0 <= i < s.len() ==> vardecl_views(s)[i] == vardecl_view(#[trigger] s[i]),
    decreases s.len(),
{
    if s.len() > 0 {
        lemma_vardecl_views_index(s.drop_last());
        assert forall|i: int| 0 <= i < s.len() implies vardecl_views(s)[i] == vardecl_view(
            #[trigger] s[i],
        ) by {
            if i < s.len() - 1 {
                assert(s.drop_last()[i] == s[i]);
            }
        }
    }
}

impl CVarDecl {
    pub fn new(var: CVarDef, value: Option<Box<Expression>>) -> (r: Self)
        ensures
            vardecl_view(r) == vardecl_view(CVarDecl { var, value }),
    {
        Self { var, value }
    }

    pub fn get_var(&self) -> (r: &CVarDef)
        ensures
            r == &self.var,
    {
        &self.var
    }

    pub fn get_var_type(&self) -> (r: &CType)
        ensures
            r == &self.var.ty,
    {
        &self.var.ty
    }

    pub fn get_name(&self) -> (r: String)
        ensures
            r@ == self.var.name@,
    {
        self.var.get_name()
    }

    pub fn get_id(&self) -> (r: usize)
        ensures
            r == self.var.local_id,
    {
        self.var.local_id
    }
}

} // verus!
