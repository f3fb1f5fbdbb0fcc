//! Functions under construction: name, signature, local declarations,
//! basic blocks, the entry-point flag, and the return type; with the
//! slot-id lookup that resolves a bare local to its declared name.

use vstd::prelude::*;

use crate::bb::BasicBlock;
use crate::bb::BasicBlockV;
use crate::bb::bb_views;
use crate::definition::CVarDef;
use crate::definition::CVarDecl;
use crate::definition::VarDefV;
use crate::definition::VarDeclV;
use crate::definition::vardef_view;
use crate::definition::vardef_views;
use crate::definition::vardecl_views;
use crate::definition::lemma_vardef_views_index;
use crate::definition::lemma_vardecl_views_index;
use crate::crepr::RepresentationContext;
use crate::crepr::RepCtxV;
use crate::crepr::ctx_view;
use crate::expression::expr_text;
use crate::expression::expr_wf;
use crate::stmt::stmts_wf;
use crate::ty::CType;
use crate::ty::CTypeV;
use crate::ty::ctype_text;
use crate::ty::ctype_view;
use crate::definition::vardef_text;

verus! {

/// A function under construction.
pub struct CFunction {
    pub name: String,
    pub signature: Vec<CVarDef>,
    pub local_decl: Vec<CVarDecl>,
    pub basic_blocks: Vec<BasicBlock>,
    pub is_main: bool,
    pub return_ty: CType,
}

/// The view of a function.
pub struct CFunctionV {
    pub name: Seq<char>,
    pub signature: Seq<VarDefV>,
    pub local_decl: Seq<VarDeclV>,
    pub basic_blocks: Seq<BasicBlockV>,
    pub is_main: bool,
    pub return_ty: CTypeV,
}

/// The view of a function.
pub open spec fn fn_view(f: CFunction) -> CFunctionV {
    CFunctionV {
        name: f.name@,
        signature: vardef_views(f.signature@),
        local_decl: vardecl_views(f.local_decl@),
        basic_blocks: bb_views(f.basic_blocks@),
        is_main: f.is_main,
        return_ty: ctype_view(f.return_ty),
    }
}

/// The first declaration with slot id `idx`, scanning from position `i`.
pub open spec fn find_decl_from(decls: Seq<VarDeclV>, idx: usize, i: int) -> Option<VarDefV>
    decreases decls.len() - i,
{
    if i < 0 || i >= decls.len() {
        Option::None
    } else if decls[i].var.local_id == idx {
        Option::Some(decls[i].var)
    } else {
        find_decl_from(decls, idx, i + 1)
    }
}

/// The first signature entry with slot id `idx`, scanning from `i`.
pub open spec fn find_sig_from(sig: Seq<VarDefV>, idx: usize, i: int) -> Option<VarDefV>
    decreases sig.len() - i,
{
    if i < 0 || i >= sig.len() {
        Option::None
    } else if sig[i].local_id == idx {
        Option::Some(sig[i])
    } else {
        find_sig_from(sig, idx, i + 1)
    }
}

/// Whether the function declares a local with slot id `idx`, in its
/// declarations or its signature.
pub open spec fn has_local(f: CFunctionV, idx: usize) -> bool {
    find_decl_from(f.local_decl, idx, 0) is Some || find_sig_from(f.signature, idx, 0) is Some
}

/// The definition a slot id resolves to: declarations are searched
/// before the signature.
pub open spec fn local_var_of(f: CFunctionV, idx: usize) -> VarDefV {
    match find_decl_from(f.local_decl, idx, 0) {
        Option::Some(v) => v,
        Option::None => match find_sig_from(f.signature, idx, 0) {
            Option::Some(v) => v,
            Option::None => arbitrary(),
        },
    }
}

/// The declared name a slot id renders as; a slot no local declares
/// renders as nothing.
pub open spec fn local_name_of(f: CFunctionV, idx: usize) -> Seq<char> {
    if has_local(f, idx) {
        local_var_of(f, idx).name
    } else {
        Seq::<char>::empty()
    }
}

impl CFunction {
    /// An empty function with a name and a return type.
    pub fn new(name: String, return_ty: CType) -> (r: Self)
        ensures
            fn_view(r) == (CFunctionV {
                name: name@,
                signature: Seq::<VarDefV>::empty(),
                local_decl: Seq::<VarDeclV>::empty(),
                basic_blocks: Seq::<BasicBlockV>::empty(),
                is_main: false,
                return_ty: ctype_view(return_ty),
            }),
    {
        let r = Self {
            name,
            signature: Vec::new(),
            local_decl: Vec::new(),
            basic_blocks: Vec::new(),
            is_main: false,
            return_ty,
        };
        proof {
            assert(vardef_views(r.signature@) =~= Seq::<VarDefV>::empty());
            assert(vardecl_views(r.local_decl@) =~= Seq::<VarDeclV>::empty());
            assert(bb_views(r.basic_blocks@) =~= Seq::<BasicBlockV>::empty());
        }
        r
    }

    /// Whether this function is the designated entry function.
    pub fn is_main(&self) -> (r: bool)
        ensures
            r == fn_view(*self).is_main,
    {
        self.is_main
    }

    /// The function's name.
    pub fn get_name(&self) -> (r: &str)
        ensures
            r@ == fn_view(*self).name,
    {
        crate::crepr::self_str(&self.name)
    }

    /// Appends a basic block.
    pub fn push_bb(&mut self, bb: BasicBlock)
        ensures
            fn_view(*final(self)) == (CFunctionV {
                basic_blocks: fn_view(*old(self)).basic_blocks.push(crate::bb::bb_view(bb)),
                ..fn_view(*old(self))
            }),
    {
        let ghost pre = self.basic_blocks@;
        self.basic_blocks.push(bb);
        proof {
            assert(self.basic_blocks@.drop_last() =~= pre);
        }
    }

    /// Removes every basic block.
    pub fn clear_bb(&mut self)
        ensures
            fn_view(*final(self)) == (CFunctionV {
                basic_blocks: Seq::<BasicBlockV>::empty(),
                ..fn_view(*old(self))
            }),
    {
        self.basic_blocks.clear();
        proof {
            assert(bb_views(self.basic_blocks@) =~= Seq::<BasicBlockV>::empty());
        }
    }

    /// Appends a parameter to the signature.
    pub fn add_signature_var(&mut self, var: CVarDef)
        ensures
            fn_view(*final(self)) == (CFunctionV {
                signature: fn_view(*old(self)).signature.push(vardef_view(var)),
                ..fn_view(*old(self))
            }),
    {
        let ghost pre = self.signature@;
        self.signature.push(var);
        proof {
            assert(self.signature@.drop_last() =~= pre);
        }
    }

    /// Appends a local declaration.
    pub fn add_var_decl(&mut self, var: CVarDecl)
        ensures
            fn_view(*final(self)) == (CFunctionV {
                local_decl: fn_view(*old(self)).local_decl.push(
                    crate::definition::vardecl_view(var),
                ),
                ..fn_view(*old(self))
            }),
    {
        let ghost pre = self.local_decl@;
        self.local_decl.push(var);
        proof {
            assert(self.local_decl@.drop_last() =~= pre);
        }
    }

    /// The definition of the local with slot id `idx`; declarations are
    /// searched before the signature.
    pub fn get_local_var(&self, idx: usize) -> (r: &CVarDef)
        requires
            has_local(fn_view(*self), idx),
        ensures
            vardef_view(*r) == local_var_of(fn_view(*self), idx),
    {
        let ghost fv = fn_view(*self);
        proof {
            lemma_vardecl_views_index(self.local_decl@);
            lemma_vardef_views_index(self.signature@);
        }
        let mut i: usize = 0;
        while i < self.local_decl.len()
            invariant
                i <= self.local_decl@.len(),
                fv == fn_view(*self),
                fv.local_decl == vardecl_views(self.local_decl@),
                fv.local_decl.len() == self.local_decl@.len(),
                forall|k: int|
                    0 <= k < self.local_decl@.len() ==> fv.local_decl[k]
                        == crate::definition::vardecl_view(#[trigger] self.local_decl@[k]),
                find_decl_from(fv.local_decl, idx, 0) == find_decl_from(
                    fv.local_decl,
                    idx,
                    i as int,
                ),
            decreases self.local_decl@.len() - i,
        {
            if self.local_decl[i].var.local_id == idx {
                proof {
                    assert(find_decl_from(fv.local_decl, idx, i as int) == Option::Some(
                        fv.local_decl[i as int].var,
                    ));
                }
                return &self.local_decl[i].var;
            }
            i = i + 1;
        }
        proof {
            assert(find_decl_from(fv.local_decl, idx, 0) is None);
        }
        let mut j: usize = 0;
        while j < self.signature.len()
            invariant
                j <= self.signature@.len(),
                fv == fn_view(*self),
                fv.signature == vardef_views(self.signature@),
                fv.signature.len() == self.signature@.len(),
                forall|k: int|
                    0 <= k < self.signature@.len() ==> fv.signature[k] == vardef_view(
                        #[trigger] self.signature@[k],
                    ),
                find_decl_from(fv.local_decl, idx, 0) is None,
                find_sig_from(fv.signature, idx, 0) == find_sig_from(fv.signature, idx, j as int),
            decreases self.signature@.len() - j,
        {
            if self.signature[j].local_id == idx {
                proof {
                    assert(find_sig_from(fv.signature, idx, j as int) == Option::Some(
                        fv.signature[j as int],
                    ));
                }
                return &self.signature[j];
            }
            j = j + 1;
        }
        proof {
            assert(find_sig_from(fv.signature, idx, 0) is None);
            assert(false);
        }
        &self.signature[0]
    }

    /// The declared name of the local with slot id `idx`.
    pub fn get_local_var_name(&self, idx: usize) -> (r: String)
        requires
            has_local(fn_view(*self), idx),
        ensures
            r@ == local_name_of(fn_view(*self), idx),
    {
        self.get_local_var(idx).get_name()
    }
}

/// Whether every initializer and every block statement of `f` is well
/// formed against `f` itself.
pub open spec fn fn_wf(f: CFunctionV) -> bool {
    (forall|i: int|
        0 <= i < f.local_decl.len() ==> match (#[trigger] f.local_decl[i]).value {
            Option::Some(e) => expr_wf(e, f),
            Option::None => true,
        }) && (forall|i: int|
        0 <= i < f.basic_blocks.len() ==> stmts_wf((#[trigger] f.basic_blocks[i]).statements, f))
}

/// The text of a local declaration: the definition, an optional
/// initializer, and a semicolon.
pub open spec fn vardecl_text(d: VarDeclV, f: CFunctionV, ctx: RepCtxV) -> Seq<char> {
    match d.value {
        Option::Some(e) => vardef_text(d.var) + " = "@ + expr_text(e, f, ctx) + ";"@,
        Option::None => vardef_text(d.var) + ";"@,
    }
}

/// Signature entries joined by commas.
pub open spec fn sig_join_text(s: Seq<VarDefV>) -> Seq<char>
    decreases s,
{
    if s.len() == 0 {
        Seq::<char>::empty()
    } else if s.len() == 1 {
        vardef_text(s[0])
    } else {
        sig_join_text(s.drop_last()) + ", "@ + vardef_text(s.last())
    }
}

/// Local declarations, one per indented line.
pub open spec fn decls_text(s: Seq<VarDeclV>, f: CFunctionV, ctx: RepCtxV) -> Seq<char>
    decreases s,
{
    if s.len() == 0 {
        Seq::<char>::empty()
    } else {
        decls_text(s.drop_last(), f, ctx) + crate::crepr::indent_text_v(ctx) + vardecl_text(
            s.last(),
            f,
            ctx,
        ) + "\n"@
    }
}

/// The blocks of a function, in order.
pub open spec fn bbs_text(s: Seq<BasicBlockV>, f: CFunctionV, ctx: RepCtxV) -> Seq<char>
    decreases s,
{
    if s.len() == 0 {
        Seq::<char>::empty()
    } else {
        bbs_text(s.drop_last(), f, ctx) + crate::bb::bb_text(s.last(), f, ctx)
    }
}

/// The text a whole function renders to.
pub open spec fn fn_text(f: CFunctionV, ctx: RepCtxV) -> Seq<char> {
    ctype_text(f.return_ty, 0, Option::None) + " "@ + f.name + "("@ + sig_join_text(f.signature)
        + ") "@ + "{\n"@ + decls_text(f.local_decl, f, ctx) + bbs_text(f.basic_blocks, f, ctx)
        + "}"@
}

/// The one-line prototype of a function.
pub open spec fn prototype_text(f: CFunctionV) -> Seq<char> {
    ctype_text(f.return_ty, 0, Option::None) + " "@ + f.name + "("@ + sig_join_text(f.signature)
        + ");"@
}

impl CFunction {
    /// Renders the whole function.
    pub fn repr(&self, out: &mut String, ctx: &RepresentationContext)
        requires
            fn_wf(fn_view(*self)),
        ensures
            final(out)@ == old(out)@ + fn_text(fn_view(*self), ctx_view(*ctx)),
    {
        let ghost fv = fn_view(*self);
        let ghost cv = ctx_view(*ctx);
        crate::ty::push_ctype(out, &self.return_ty, 0, &None);
        out.append(" ");
        out.append(crate::crepr::self_str(&self.name));
        out.append("(");
        let ghost vsig = vardef_views(self.signature@);
        proof {
            lemma_vardef_views_index(self.signature@);
            assert(vsig.subrange(0, 0) =~= Seq::<VarDefV>::empty());
        }
        let ghost base1 = out@;
        let mut i: usize = 0;
        while i < self.signature.len()
            invariant
                i <= self.signature.len(),
                fv == fn_view(*self),
                vsig == vardef_views(self.signature@),
                vsig.len() == self.signature@.len(),
                forall|k: int|
                    0 <= k < self.signature@.len() ==> vsig[k] == vardef_view(
                        #[trigger] self.signature@[k],
                    ),
                out@ == base1 + sig_join_text(vsig.subrange(0, i as int)),
            decreases self.signature.len() - i,
        {
            if i > 0 {
                out.append(", ");
            }
            self.signature[i].repr(out, ctx);
            i = i + 1;
            proof {
                let pre = vsig.subrange(0, i as int);
                assert(pre.drop_last() =~= vsig.subrange(0, i - 1));
                assert(pre.last() == vsig[i - 1]);
                assert(out@ =~= base1 + sig_join_text(pre));
            }
        }
        proof {
            assert(vsig.subrange(0, vsig.len() as int) =~= vsig);
        }
        out.append(") ");
        out.append("{\n");
        let ghost vdecls = vardecl_views(self.local_decl@);
        proof {
            lemma_vardecl_views_index(self.local_decl@);
            assert(vdecls.subrange(0, 0) =~= Seq::<VarDeclV>::empty());
        }
        let ghost base2 = out@;
        let mut j: usize = 0;
        while j < self.local_decl.len()
            invariant
                j <= self.local_decl.len(),
                fv == fn_view(*self),
                cv == ctx_view(*ctx),
                fn_wf(fv),
                vdecls == vardecl_views(self.local_decl@),
                vdecls == fv.local_decl,
                vdecls.len() == self.local_decl@.len(),
                forall|k: int|
                    0 <= k < self.local_decl@.len() ==> vdecls[k]
                        == crate::definition::vardecl_view(#[trigger] self.local_decl@[k]),
                out@ == base2 + decls_text(vdecls.subrange(0, j as int), fv, cv),
            decreases self.local_decl.len() - j,
        {
            crate::crepr::indent(out, ctx);
            let d = &self.local_decl[j];
            d.var.repr(out, ctx);
            match &d.value {
                Some(e) => {
                    out.append(" = ");
                    proof {
                        assert(vdecls[j as int].value == Option::Some(
                            crate::expression::expr_view(*(d.value->0)),
                        ));
                    }
                    crate::expression::push_expr(out, e, self, ctx);
                    out.append(";");
                },
                None => {
                    out.append(";");
                },
            }
            out.append("\n");
            j = j + 1;
            proof {
                let pre = vdecls.subrange(0, j as int);
                assert(pre.drop_last() =~= vdecls.subrange(0, j - 1));
                assert(pre.last() == vdecls[j - 1]);
                assert(out@ =~= base2 + decls_text(pre, fv, cv));
            }
        }
        proof {
            assert(vdecls.subrange(0, vdecls.len() as int) =~= vdecls);
        }
        let ghost vbbs = bb_views(self.basic_blocks@);
        proof {
            crate::bb::lemma_bb_views_index(self.basic_blocks@);
            assert(vbbs.subrange(0, 0) =~= Seq::<BasicBlockV>::empty());
        }
        let ghost base3 = out@;
        let mut k: usize = 0;
        while k < self.basic_blocks.len()
            invariant
                k <= self.basic_blocks.len(),
                fv == fn_view(*self),
                cv == ctx_view(*ctx),
                fn_wf(fv),
                vbbs == bb_views(self.basic_blocks@),
                vbbs == fv.basic_blocks,
                vbbs.len() == self.basic_blocks@.len(),
                forall|m: int|
                    0 <= m < self.basic_blocks@.len() ==> vbbs[m] == crate::bb::bb_view(
                        #[trigger] self.basic_blocks@[m],
                    ),
                out@ == base3 + bbs_text(vbbs.subrange(0, k as int), fv, cv),
            decreases self.basic_blocks.len() - k,
        {
            self.basic_blocks[k].repr(out, self, ctx);
            k = k + 1;
            proof {
                let pre = vbbs.subrange(0, k as int);
                assert(pre.drop_last() =~= vbbs.subrange(0, k - 1));
                assert(pre.last() == vbbs[k - 1]);
                assert(out@ =~= base3 + bbs_text(pre, fv, cv));
            }
        }
        proof {
            assert(vbbs.subrange(0, vbbs.len() as int) =~= vbbs);
        }
        out.append("}");
        proof {
            assert(out@ =~= old(out)@ + fn_text(fv, cv));
        }
    }

    /// The one-line prototype.
    pub fn as_prototype(&self) -> (r: String)
        ensures
            r@ == prototype_text(fn_view(*self)),
    {
        let ghost fv = fn_view(*self);
        let mut out = String::new();
        crate::ty::push_ctype(&mut out, &self.return_ty, 0, &None);
        out.append(" ");
        out.append(crate::crepr::self_str(&self.name));
        out.append("(");
        let ghost vsig = vardef_views(self.signature@);
        proof {
            lemma_vardef_views_index(self.signature@);
            assert(vsig.subrange(0, 0) =~= Seq::<VarDefV>::empty());
        }
        let ghost base1 = out@;
        let mut i: usize = 0;
        let ctx = RepresentationContext::standard();
        while i < self.signature.len()
            invariant
                i <= self.signature.len(),
                vsig == vardef_views(self.signature@),
                vsig.len() == self.signature@.len(),
                forall|k: int|
                    0 <= k < self.signature@.len() ==> vsig[k] == vardef_view(
                        #[trigger] self.signature@[k],
                    ),
                out@ == base1 + sig_join_text(vsig.subrange(0, i as int)),
            decreases self.signature.len() - i,
        {
            if i > 0 {
                out.append(", ");
            }
            self.signature[i].repr(&mut out, &ctx);
            i = i + 1;
            proof {
                let pre = vsig.subrange(0, i as int);
                assert(pre.drop_last() =~= vsig.subrange(0, i - 1));
                assert(pre.last() == vsig[i - 1]);
                assert(out@ =~= base1 + sig_join_text(pre));
            }
        }
        proof {
            assert(vsig.subrange(0, vsig.len() as int) =~= vsig);
        }
        out.append(");");
        proof {
            assert(out@ =~= prototype_text(fv));
        }
        out
    }
}

/// The per-function lowering context: the interned type table, the body
/// being lowered, the shared registry, and the two memo tables (source
/// type to target type, and allocation to expression).
pub struct CodegenFunctionCx {
    pub table: crate::ir::TypeTable,
    pub mir: crate::ir::MirBody,
    pub ongoing_codegen: crate::base::OngoingCodegen,
    pub ty_to_c: Vec<Option<CType>>,
    pub alloc_to_c: Vec<Option<crate::expression::Expression>>,
    pub allocs: Vec<crate::ir::AllocData>,
    pub crate_num: usize,
}

/// The views of the type memo table.
pub open spec fn opt_ctype_views(s: Seq<Option<CType>>) -> Seq<Option<CTypeV>>
    decreases s,
{
    if s.len() == 0 {
        Seq::<Option<CTypeV>>::empty()
    } else {
        opt_ctype_views(s.drop_last()).push(
            match s.last() {
                Option::Some(c) => Option::Some(ctype_view(c)),
                Option::None => Option::None,
            },
        )
    }
}

pub proof fn lemma_opt_ctype_views_index(s: Seq<Option<CType>>)
    ensures
        opt_ctype_views(s).len() == s.len(),
        forall|i: int|
            0 <= i < s.len() ==> opt_ctype_views(s)[i] == (match #[trigger] s[i] {
                Option::Some(c) => Option::Some(ctype_view(c)),
                Option::None => Option::<CTypeV>::None,
            }),
    decreases s.len(),
{
    if s.len() > 0 {
        lemma_opt_ctype_views_index(s.drop_last());
        assert forall|i: int| 0 <= i < s.len() implies opt_ctype_views(s)[i] == (
        match #[trigger] s[i] {
            Option::Some(c) => Option::Some(ctype_view(c)),
            Option::None => Option::<CTypeV>::None,
        }) by {
            if i < s.len() - 1 {
                assert(s.drop_last()[i] == s[i]);
            }
        }
    }
}

/// The mapper's view of the context: the memo, the composite list, and
/// the diagnostics.
pub open spec fn map_st_of(cx: CodegenFunctionCx) -> crate::ty::MapSt {
    crate::ty::MapSt {
        memo: opt_ctype_views(cx.ty_to_c@),
        structs: crate::base::ctx_reg_view(cx.ongoing_codegen.context).structs,
        diags: crate::base::ctx_reg_view(cx.ongoing_codegen.context).diagnostics,
    }
}

/// What the mapper never touches: everything but the memo, the composite
/// list and the diagnostics.
pub open spec fn cx_frame(a: CodegenFunctionCx, b: CodegenFunctionCx) -> bool {
    &&& b.table == a.table
    &&& b.mir == a.mir
    &&& b.alloc_to_c == a.alloc_to_c
    &&& b.allocs == a.allocs
    &&& b.crate_num == a.crate_num
    &&& crate::base::ctx_reg_view(b.ongoing_codegen.context) == (crate::base::ContextV {
        structs: crate::base::ctx_reg_view(b.ongoing_codegen.context).structs,
        diagnostics: crate::base::ctx_reg_view(b.ongoing_codegen.context).diagnostics,
        ..crate::base::ctx_reg_view(a.ongoing_codegen.context)
    })
}

/// The mapper's precondition: a well-formed interned table and a memo of
/// matching length.
pub open spec fn cx_map_wf(cx: CodegenFunctionCx) -> bool {
    &&& crate::ir::table_wf(crate::ir::table_view(cx.table))
    &&& cx.ty_to_c@.len() == crate::ir::table_view(cx.table).len()
}

impl CodegenFunctionCx {
    /// The interned type of a body local.
    pub fn ty_for_local(&self, local: usize) -> (r: usize)
        requires
            local < self.mir.local_tys@.len(),
        ensures
            r == self.mir.local_tys@[local as int],
    {
        self.mir.local_tys[local]
    }

    /// The target type a source type already mapped to, if any.
    pub fn ctype_from_cache(&self, t: usize) -> (r: Option<CType>)
        requires
            t < self.ty_to_c@.len(),
        ensures
            match r {
                Option::Some(c) => opt_ctype_views(self.ty_to_c@)[t as int] == Option::Some(
                    ctype_view(c),
                ),
                Option::None => opt_ctype_views(self.ty_to_c@)[t as int] is None,
            },
    {
        proof {
            lemma_opt_ctype_views_index(self.ty_to_c@);
        }
        match &self.ty_to_c[t] {
            Some(c) => Some(crate::ty::clone_ctype(c)),
            None => None,
        }
    }
}

/// The views of the allocation memo table.
pub open spec fn opt_expr_views(s: Seq<Option<crate::expression::Expression>>) -> Seq<
    Option<crate::expression::ExprV>,
>
    decreases s,
{
    if s.len() == 0 {
        Seq::<Option<crate::expression::ExprV>>::empty()
    } else {
        opt_expr_views(s.drop_last()).push(
            match s.last() {
                Option::Some(e) => Option::Some(crate::expression::expr_view(e)),
                Option::None => Option::None,
            },
        )
    }
}

pub proof fn lemma_opt_expr_views_index(s: Seq<Option<crate::expression::Expression>>)
    ensures
        opt_expr_views(s).len() == s.len(),
        forall|i: int|
            0 <= i < s.len() ==> opt_expr_views(s)[i] == (match #[trigger] s[i] {
                Option::Some(e) => Option::Some(crate::expression::expr_view(e)),
                Option::None => Option::<crate::expression::ExprV>::None,
            }),
    decreases s.len(),
{
    if s.len() > 0 {
        lemma_opt_expr_views_index(s.drop_last());
        assert forall|i: int| 0 <= i < s.len() implies opt_expr_views(s)[i] == (
        match #[trigger] s[i] {
            Option::Some(e) => Option::Some(crate::expression::expr_view(e)),
            Option::None => Option::<crate::expression::ExprV>::None,
        }) by {
            if i < s.len() - 1 {
                assert(s.drop_last()[i] == s[i]);
            }
        }
    }
}

/// The relocation expressions of a constant allocation: a resolved
/// target becomes the formatted function symbol, an unresolved one the
/// synthetic `ptr_{offset}` placeholder.
pub open spec fn reloc_exprs(relocs: Seq<(usize, Option<String>)>) -> Seq<
    (usize, crate::expression::ExprV),
>
    decreases relocs,
{
    if relocs.len() == 0 {
        Seq::<(usize, crate::expression::ExprV)>::empty()
    } else {
        reloc_exprs(relocs.drop_last()).push(
            (
                relocs.last().0,
                match relocs.last().1 {
                    Option::Some(sym) => crate::expression::ExprV::Constant(
                        crate::bb::fmt_fn_name_text(sym@),
                    ),
                    Option::None => crate::expression::ExprV::Constant(
                        "ptr_"@ + crate::utils::dec_text(relocs.last().0 as nat),
                    ),
                },
            ),
        )
    }
}

/// The deterministic name of a constant allocation.
pub open spec fn alloc_name_text(alloc_id: usize, crate_num: usize) -> Seq<char> {
    "ALLOC_"@ + crate::utils::dec_text(alloc_id as nat) + "_CRATE_"@ + crate::utils::dec_text(
        crate_num as nat,
    )
}

/// What encoding a constant allocation yields: the expression referring
/// to it, the allocation memo afterwards, and the static list afterwards.
/// A hit in the memo changes nothing; a miss registers the encoded
/// static and records the reference.
pub open spec fn global_decl_spec(
    allocs: Seq<crate::ir::AllocData>,
    crate_num: usize,
    amemo: Seq<Option<crate::expression::ExprV>>,
    statics: Seq<crate::static_alloc::AllocV>,
    id: usize,
) -> Option<(crate::expression::ExprV, Seq<Option<crate::expression::ExprV>>, Seq<
    crate::static_alloc::AllocV,
>)> {
    if (id as int) < amemo.len() && (id as int) < allocs.len() {
        match amemo[id as int] {
            Option::Some(e) => Option::Some((e, amemo, statics)),
            Option::None => {
                let name = alloc_name_text(id, crate_num);
                let av = crate::static_alloc::AllocV {
                    bytes: allocs[id as int].bytes@,
                    ptrs: reloc_exprs(allocs[id as int].relocs@),
                    name,
                };
                let e = crate::expression::ExprV::Constant("&"@ + name);
                Option::Some(
                    (e, amemo.update(id as int, Option::Some(e)), statics.push(av)),
                )
            },
        }
    } else {
        Option::None
    }
}

impl CodegenFunctionCx {
    /// Encodes a constant allocation once: the first use builds the
    /// static blob with its relocations and registers it; later uses
    /// return the recorded reference.
    #[verifier::rlimit(100)]
    pub fn handle_global_decl(&mut self, alloc_id: usize) -> (r: crate::expression::Expression)
        requires
            global_decl_spec(
                old(self).allocs@,
                old(self).crate_num,
                opt_expr_views(old(self).alloc_to_c@),
                crate::base::ctx_reg_view(old(self).ongoing_codegen.context).statics,
                alloc_id,
            ) is Some,
        ensures
            ({
                let (e, am, sts) = global_decl_spec(
                    old(self).allocs@,
                    old(self).crate_num,
                    opt_expr_views(old(self).alloc_to_c@),
                    crate::base::ctx_reg_view(old(self).ongoing_codegen.context).statics,
                    alloc_id,
                )->Some_0;
                &&& crate::expression::expr_view(r) == e
                &&& opt_expr_views(final(self).alloc_to_c@) == am
                &&& final(self).alloc_to_c@.len() == old(self).alloc_to_c@.len()
                &&& crate::base::ctx_reg_view(final(self).ongoing_codegen.context)
                    == (crate::base::ContextV {
                    statics: sts,
                    ..crate::base::ctx_reg_view(old(self).ongoing_codegen.context)
                })
                &&& final(self).table == old(self).table
                &&& final(self).mir == old(self).mir
                &&& final(self).allocs == old(self).allocs
                &&& final(self).crate_num == old(self).crate_num
                &&& final(self).ty_to_c == old(self).ty_to_c
            }),
    {
        proof {
            lemma_opt_expr_views_index(self.alloc_to_c@);
        }
        let hit = match &self.alloc_to_c[alloc_id] {
            Some(e) => Some(crate::expression::clone_expr(e)),
            None => None,
        };
        match hit {
            Some(e) => e,
            None => {
                let data = &self.allocs[alloc_id];
                let ghost rv = reloc_exprs(data.relocs@);
                proof {
                    lemma_reloc_exprs_index(data.relocs@);
                }
                let mut ptrs: Vec<(usize, crate::expression::Expression)> = Vec::new();
                let mut i: usize = 0;
                proof {
                    assert(crate::static_alloc::ptr_views(ptrs@) =~= rv.subrange(0, 0));
                }
                while i < data.relocs.len()
                    invariant
                        i <= data.relocs@.len(),
                        rv == reloc_exprs(data.relocs@),
                        rv.len() == data.relocs@.len(),
                        forall|k: int|
                            0 <= k < data.relocs@.len() ==> rv[k] == (
                                (#[trigger] data.relocs@[k]).0,
                                match data.relocs@[k].1 {
                                    Option::Some(sym) => crate::expression::ExprV::Constant(
                                        crate::bb::fmt_fn_name_text(sym@),
                                    ),
                                    Option::None => crate::expression::ExprV::Constant(
                                        "ptr_"@ + crate::utils::dec_text(
                                            data.relocs@[k].0 as nat,
                                        ),
                                    ),
                                },
                            ),
                        crate::static_alloc::ptr_views(ptrs@) == rv.subrange(0, i as int),
                    decreases data.relocs@.len() - i,
                {
                    let off = data.relocs[i].0;
                    let target = match &data.relocs[i].1 {
                        Some(sym) => crate::bb::format_fn_name(crate::crepr::self_str(sym)),
                        None => {
                            let mut p = String::from_str("ptr_");
                            crate::utils::push_dec_usize(&mut p, off);
                            proof {
                                assert(p@ =~= "ptr_"@ + crate::utils::dec_text(off as nat));
                            }
                            p
                        },
                    };
                    let ghost pre = ptrs@;
                    ptrs.push((off, crate::expression::Expression::Constant { value: target }));
                    i = i + 1;
                    proof {
                        assert(ptrs@.drop_last() =~= pre);
                        assert(crate::static_alloc::ptr_views(ptrs@) =~= rv.subrange(0, i as int));
                    }
                }
                proof {
                    assert(rv.subrange(0, rv.len() as int) =~= rv);
                }
                let mut name = String::from_str("ALLOC_");
                crate::utils::push_dec_usize(&mut name, alloc_id);
                name.append("_CRATE_");
                crate::utils::push_dec_usize(&mut name, self.crate_num);
                proof {
                    assert(name@ =~= alloc_name_text(alloc_id, self.crate_num));
                }
                let mut bytes: Vec<u8> = Vec::new();
                let mut b: usize = 0;
                while b < data.bytes.len()
                    invariant
                        b <= data.bytes@.len(),
                        bytes@ =~= data.bytes@.subrange(0, b as int),
                    decreases data.bytes@.len() - b,
                {
                    bytes.push(data.bytes[b]);
                    b = b + 1;
                }
                proof {
                    assert(bytes@ =~= data.bytes@);
                }
                let static_alloc = crate::static_alloc::StaticAllocation::new(
                    name.clone(),
                    bytes,
                    ptrs,
                );
                self.ongoing_codegen.context.add_static(static_alloc);
                let mut rtxt = String::from_str("&");
                rtxt.append(crate::crepr::self_str(&name));
                let e = crate::expression::Expression::Constant { value: rtxt };
                let ghost pre_memo = self.alloc_to_c@;
                let e2 = crate::expression::clone_expr(&e);
                self.alloc_to_c.set(alloc_id, Some(e2));
                proof {
                    lemma_opt_expr_views_index(self.alloc_to_c@);
                    lemma_opt_expr_views_index(pre_memo);
                    let newv = opt_expr_views(self.alloc_to_c@);
                    let oldv = opt_expr_views(pre_memo);
                    assert forall|k: int| 0 <= k < newv.len() implies newv[k] == oldv.update(
                        alloc_id as int,
                        Some(crate::expression::expr_view(e)),
                    )[k] by {
                        if k != alloc_id {
                            assert(self.alloc_to_c@[k] == pre_memo[k]);
                        }
                    }
                    assert(newv =~= oldv.update(
                        alloc_id as int,
                        Some(crate::expression::expr_view(e)),
                    ));
                    assert(crate::expression::expr_view(e)->Constant_0 =~= "&"@ + alloc_name_text(
                        alloc_id,
                        self.crate_num,
                    ));
                }
                e
            },
        }
    }
}

pub proof fn lemma_reloc_exprs_index(s: Seq<(usize, Option<String>)>)
    ensures
        reloc_exprs(s).len() == s.len(),
        forall|k: int|
            0 <= k < s.len() ==> reloc_exprs(s)[k] == (
                (#[trigger] s[k]).0,
                match s[k].1 {
                    Option::Some(sym) => crate::expression::ExprV::Constant(
                        crate::bb::fmt_fn_name_text(sym@),
                    ),
                    Option::None => crate::expression::ExprV::Constant(
                        "ptr_"@ + crate::utils::dec_text(s[k].0 as nat),
                    ),
                },
            ),
    decreases s.len(),
{
    if s.len() > 0 {
        lemma_reloc_exprs_index(s.drop_last());
        assert forall|k: int| 0 <= k < s.len() implies reloc_exprs(s)[k] == (
            (#[trigger] s[k]).0,
            match s[k].1 {
                Option::Some(sym) => crate::expression::ExprV::Constant(
                    crate::bb::fmt_fn_name_text(sym@),
                ),
                Option::None => crate::expression::ExprV::Constant(
                    "ptr_"@ + crate::utils::dec_text(s[k].0 as nat),
                ),
            },
        ) by {
            if k < s.len() - 1 {
                assert(s.drop_last()[k] == s[k]);
            }
        }
    }
}

/// The memo views have the memo's length.
pub broadcast proof fn lemma_opt_ctype_views_len(s: Seq<Option<CType>>)
    ensures
        (#[trigger] opt_ctype_views(s)).len() == s.len(),
{
    lemma_opt_ctype_views_index(s);
}

/// The allocation memo views have the memo's length.
pub broadcast proof fn lemma_opt_expr_views_len(s: Seq<Option<crate::expression::Expression>>)
    ensures
        (#[trigger] opt_expr_views(s)).len() == s.len(),
{
    lemma_opt_expr_views_index(s);
}

} // verus!
