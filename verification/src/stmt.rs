//! Statements: an optional expression and an optional comment, each
//! rendered on its own indented line.

use vstd::prelude::*;

use crate::crepr::RepresentationContext;
use crate::crepr::RepCtxV;
use crate::crepr::ctx_view;
use crate::crepr::indent_text_v;
use crate::crepr::newline_text_v;
use crate::expression::Expression;
use crate::expression::ExprV;
use crate::expression::expr_text;
use crate::expression::expr_view;
use crate::expression::expr_wf;
use crate::expression::clone_expr;
use crate::function::CFunction;
use crate::function::CFunctionV;
use crate::function::CodegenFunctionCx;
use crate::function::cx_frame;
use crate::function::fn_view;
use crate::function::map_st_of;
use crate::expression::AccessV;
use crate::expression::VariableAccess;
use crate::expression::access_views;
use crate::ir::PlaceV;
use crate::ir::ProjElem;
use crate::ir::SrcTypeV;
use crate::structure::CompositeV;
use crate::ty::CTypeV;
use crate::ty::MapSt;
use crate::utils::dec_text;

verus! {

broadcast use crate::function::lemma_opt_ctype_views_len, crate::function::lemma_opt_expr_views_len;

/// One statement of a basic block.
pub struct Statement {
    pub expression: Option<Expression>,
    pub comment: Option<String>,
}

/// The view of a statement.
pub struct StatementV {
    pub expression: Option<ExprV>,
    pub comment: Option<Seq<char>>,
}

/// The view of a statement.
pub open spec fn stmt_view(s: Statement) -> StatementV {
    StatementV {
        expression: match s.expression {
            Option::Some(e) => Option::Some(expr_view(e)),
            Option::None => Option::None,
        },
        comment: match s.comment {
            Option::Some(c) => Option::Some(c@),
            Option::None => Option::None,
        },
    }
}

/// The views of a sequence of statements.
pub open spec fn stmt_views(s: Seq<Statement>) -> Seq<StatementV>
    decreases s,
{
    if s.len() == 0 {
        Seq::<StatementV>::empty()
    } else {
        stmt_views(s.drop_last()).push(stmt_view(s.last()))
    }
}

/// Views of a statement sequence are taken element by element.
pub proof fn lemma_stmt_views_index(s: Seq<Statement>)
    ensures
        stmt_views(s).len() == s.len(),
        forall|i: int| 0 <= i < s.len() ==> stmt_views(s)[i] == stmt_view(#[trigger] s[i]),
    decreases s.len(),
{
    if s.len() > 0 {
        lemma_stmt_views_index(s.drop_last());
        assert forall|i: int| 0 <= i < s.len() implies stmt_views(s)[i] == stmt_view(
            #[trigger] s[i],
        ) by {
            if i < s.len() - 1 {
                assert(s.drop_last()[i] == s[i]);
            }
        }
    }
}

impl Statement {
    /// A statement carrying both an expression and a comment.
    pub fn new(expression: Expression, comment: String) -> (r: Self)
        ensures
            stmt_view(r) == (StatementV {
                expression: Option::Some(expr_view(expression)),
                comment: Option::Some(comment@),
            }),
    {
        Self { expression: Some(expression), comment: Some(comment) }
    }

    /// A statement carrying an expression only.
    pub fn from_expression(expression: Expression) -> (r: Self)
        ensures
            stmt_view(r) == (StatementV {
                expression: Option::Some(expr_view(expression)),
                comment: Option::None,
            }),
    {
        Self { expression: Some(expression), comment: None }
    }

    /// A comment-only statement.
    pub fn from_comment(comment: String) -> (r: Self)
        ensures
            stmt_view(r) == (StatementV {
                expression: Option::None,
                comment: Option::Some(comment@),
            }),
    {
        Self { expression: None, comment: Some(comment) }
    }

    /// A copy with the same view.
    pub fn clone_stmt(&self) -> (r: Statement)
        ensures
            stmt_view(r) == stmt_view(*self),
    {
        Statement {
            expression: match &self.expression {
                Some(e) => Some(clone_expr(e)),
                None => None,
            },
            comment: match &self.comment {
                Some(c) => Some(c.clone()),
                None => None,
            },
        }
    }
}

/// Whether the statement's expression, if any, is well formed in `f`.
pub open spec fn stmt_wf(s: StatementV, f: CFunctionV) -> bool {
    match s.expression {
        Option::Some(e) => expr_wf(e, f),
        Option::None => true,
    }
}

/// Whether every statement of the sequence is well formed in `f`.
pub open spec fn stmts_wf(s: Seq<StatementV>, f: CFunctionV) -> bool {
    forall|i: int| 0 <= i < s.len() ==> stmt_wf(#[trigger] s[i], f)
}

/// The text a statement renders to: the comment on its own line where
/// comments are included, then the expression line; an expression that is
/// a placeholder gets no semicolon.
pub open spec fn stmt_text(s: StatementV, f: CFunctionV, ctx: RepCtxV) -> Seq<char> {
    (match s.comment {
        Option::Some(c) => if ctx.include_comments {
            indent_text_v(ctx) + "/* "@ + c + " */\n"@
        } else {
            Seq::<char>::empty()
        },
        Option::None => Seq::<char>::empty(),
    }) + (match s.expression {
        Option::Some(e) => indent_text_v(ctx) + expr_text(e, f, ctx) + (if e is NoOp {
            Seq::<char>::empty()
        } else {
            ";"@
        }) + newline_text_v(ctx),
        Option::None => Seq::<char>::empty(),
    })
}

impl Statement {
    /// Renders the statement at the context's indentation.
    #[verifier::rlimit(50)]
    pub fn repr(&self, out: &mut String, f: &CFunction, ctx: &RepresentationContext)
        requires
            stmt_wf(stmt_view(*self), fn_view(*f)),
        ensures
            final(out)@ == old(out)@ + stmt_text(stmt_view(*self), fn_view(*f), ctx_view(*ctx)),
    {
        if ctx.include_comments {
            match &self.comment {
                Some(c) => {
                    crate::crepr::indent(out, ctx);
                    out.append("/* ");
                    out.append(crate::crepr::self_str(c));
                    out.append(" */\n");
                },
                None => {},
            }
        }
        match &self.expression {
            Some(e) => {
                crate::crepr::indent(out, ctx);
                crate::expression::push_expr(out, e, f, ctx);
                let semi = match e {
                    Expression::NoOp => false,
                    _ => true,
                };
                if semi {
                    out.append(";");
                }
                crate::crepr::push_newline(out, ctx);
            },
            None => {},
        }
        proof {
            assert(out@ =~= old(out)@ + stmt_text(stmt_view(*self), fn_view(*f), ctx_view(*ctx)));
        }
    }
}

/// Whether the memo already records a mapping for `t`; place and operand
/// resolution run after every local type has been mapped, so resolution
/// reads the memo and registers nothing.
pub open spec fn premapped(st: MapSt, t: usize) -> bool {
    0 <= t < st.memo.len() && st.memo[t as int] is Some
}

/// The recorded mapping of `t`.
pub open spec fn mapped_ty(st: MapSt, t: usize) -> CTypeV {
    st.memo[t as int]->0
}

/// Nothing observable of the context changed.
pub open spec fn cx_preserved(a: CodegenFunctionCx, b: CodegenFunctionCx) -> bool {
    cx_frame(a, b) && map_st_of(b) == map_st_of(a)
}

/// Nothing observable of the context changed, except that the given
/// diagnostics were recorded.
pub open spec fn cx_preserved_but_diags(
    a: CodegenFunctionCx,
    b: CodegenFunctionCx,
    dd: Seq<Seq<char>>,
) -> bool {
    cx_frame(a, b) && map_st_of(b) == (MapSt {
        diags: map_st_of(a).diags + dd,
        ..map_st_of(a)
    })
}

/// The declared name of a composite's field, where the reference and
/// position resolve.
pub open spec fn field_name_at(structs: Seq<CompositeV>, idx: int, fidx: int) -> Option<Seq<char>> {
    if 0 <= idx < structs.len() {
        match structs[idx] {
            CompositeV::Struct(s) => if 0 <= fidx < s.fields.len() {
                Option::Some(s.fields[fidx].name)
            } else {
                Option::None
            },
            CompositeV::Union(s) => if 0 <= fidx < s.fields.len() {
                Option::Some(s.fields[fidx].name)
            } else {
                Option::None
            },
            CompositeV::TaggedUnion(_) => Option::None,
        }
    } else {
        Option::None
    }
}

/// The source type the base local's type dereferences to.
pub open spec fn deref_src(tv: Seq<SrcTypeV>, t: usize) -> Option<usize> {
    if 0 <= t < tv.len() {
        match tv[t as int] {
            SrcTypeV::Ref { inner, .. } => Option::Some(inner),
            SrcTypeV::RawPtr { inner } => Option::Some(inner),
            _ => Option::None,
        }
    } else {
        Option::None
    }
}

/// One step of place resolution: the access steps a projection adds and
/// the target type tracked afterwards; nothing where a hard invariant
/// fails.
#[verifier::opaque]
pub open spec fn resolve_step(
    tv: Seq<SrcTypeV>,
    st: MapSt,
    base_src_ty: usize,
    cur: CTypeV,
    p: ProjElem,
) -> Option<(Seq<AccessV>, CTypeV)> {
    match p {
        ProjElem::Field { idx, ty } => match cur {
            CTypeV::Struct(info) => {
                if premapped(st, ty) {
                    match field_name_at(st.structs, info.ctx_idx, idx as int) {
                        Option::Some(n) => Option::Some(
                            (seq![AccessV::Field(n)], mapped_ty(st, ty)),
                        ),
                        Option::None => Option::None,
                    }
                } else {
                    Option::None
                }
            },
            CTypeV::Union(info) => {
                if premapped(st, ty) {
                    match field_name_at(st.structs, info.ctx_idx, idx as int) {
                        Option::Some(n) => Option::Some(
                            (seq![AccessV::Field(n)], mapped_ty(st, ty)),
                        ),
                        Option::None => Option::None,
                    }
                } else {
                    Option::None
                }
            },
            _ => Option::Some((Seq::<AccessV>::empty(), cur)),
        },
        ProjElem::Index { local } => {
            let idx_step = AccessV::Index(
                Box::new(ExprV::Variable { local, access: Seq::<AccessV>::empty() }),
            );
            if cur is Struct {
                Option::Some((seq![AccessV::Unwrap, idx_step], cur))
            } else {
                Option::Some((seq![idx_step], cur))
            }
        },
        ProjElem::ConstantIndex { offset } => {
            let idx_step = AccessV::Index(Box::new(ExprV::Constant(dec_text(offset as nat))));
            if cur is Struct {
                Option::Some((seq![AccessV::Unwrap, idx_step], cur))
            } else {
                Option::Some((seq![idx_step], cur))
            }
        },
        ProjElem::Downcast { variant } => match cur {
            CTypeV::TaggedUnion(info) => {
                if 0 <= info.ctx_idx < st.structs.len() && st.structs[info.ctx_idx] is TaggedUnion {
                    let tdef = st.structs[info.ctx_idx]->TaggedUnion_0;
                    match tdef.union_var.ty {
                        CTypeV::Union(uinfo) => {
                            if 0 <= uinfo.ctx_idx < st.structs.len() && (
                            st.structs[uinfo.ctx_idx] is Struct
                                || st.structs[uinfo.ctx_idx] is Union) {
                                let udef = match st.structs[uinfo.ctx_idx] {
                                    CompositeV::Struct(s) => s,
                                    CompositeV::Union(s) => s,
                                    CompositeV::TaggedUnion(_) => arbitrary(),
                                };
                                if (variant as int) < udef.fields.len() {
                                    Option::Some(
                                        (
                                            seq![
                                                AccessV::Field(
                                                    crate::structure::union_field_name_text(),
                                                ),
                                                AccessV::Field(udef.fields[variant as int].name),
                                            ],
                                            udef.fields[variant as int].ty,
                                        ),
                                    )
                                } else {
                                    Option::None
                                }
                            } else {
                                Option::None
                            }
                        },
                        _ => Option::None,
                    }
                } else {
                    Option::None
                }
            },
            _ => Option::None,
        },
        ProjElem::Deref => match deref_src(tv, base_src_ty) {
            Option::Some(inner) => {
                if premapped(st, inner) {
                    let next = mapped_ty(st, inner);
                    if cur is FatPointer {
                        Option::Some((seq![AccessV::FatPtrDereference(next)], next))
                    } else {
                        Option::Some((seq![AccessV::Dereference], next))
                    }
                } else {
                    Option::None
                }
            },
            Option::None => Option::None,
        },
        ProjElem::OpaqueCast => Option::Some((Seq::<AccessV>::empty(), cur)),
    }
}

/// Resolves the projections of a place from position `i` on, tracking
/// the current target type.
pub open spec fn resolve_projs(
    tv: Seq<SrcTypeV>,
    st: MapSt,
    base_src_ty: usize,
    projs: Seq<ProjElem>,
    i: int,
    cur: CTypeV,
    acc: Seq<AccessV>,
) -> Option<(Seq<AccessV>, CTypeV)>
    decreases projs.len() - i,
{
    if i < 0 || i >= projs.len() {
        Option::Some((acc, cur))
    } else {
        match resolve_step(tv, st, base_src_ty, cur, projs[i]) {
            Option::Some(step) => resolve_projs(
                tv,
                st,
                base_src_ty,
                projs,
                i + 1,
                step.1,
                acc + step.0,
            ),
            Option::None => Option::None,
        }
    }
}

/// The resolution of a whole place: its access chain and the target
/// type it ends at.
pub open spec fn resolve_place(
    tv: Seq<SrcTypeV>,
    st: MapSt,
    local_tys: Seq<usize>,
    p: PlaceV,
) -> Option<(Seq<AccessV>, CTypeV)> {
    if (p.local as int) < local_tys.len() && premapped(st, local_tys[p.local as int]) {
        resolve_projs(
            tv,
            st,
            local_tys[p.local as int],
            p.projection,
            0,
            mapped_ty(st, local_tys[p.local as int]),
            Seq::<AccessV>::empty(),
        )
    } else {
        Option::None
    }
}

/// Turns a place into an access-chain expression on its base local,
/// tracking the current target type as each projection applies.
#[verifier::rlimit(100)]
pub fn handle_place(fn_cx: &mut CodegenFunctionCx, place: &crate::ir::Place) -> (r: Expression)
    requires
        crate::function::cx_map_wf(*old(fn_cx)),
        resolve_place(
            crate::ir::table_view(old(fn_cx).table),
            map_st_of(*old(fn_cx)),
            old(fn_cx).mir.local_tys@,
            crate::ir::place_view(*place),
        ) is Some,
    ensures
        crate::function::cx_map_wf(*final(fn_cx)),
        cx_preserved(*old(fn_cx), *final(fn_cx)),
        expr_view(r) == (ExprV::Variable {
            local: place.local,
            access: resolve_place(
                crate::ir::table_view(old(fn_cx).table),
                map_st_of(*old(fn_cx)),
                old(fn_cx).mir.local_tys@,
                crate::ir::place_view(*place),
            )->Some_0.0,
        }),
{
    reveal(resolve_step);
    let ghost tv = crate::ir::table_view(old(fn_cx).table);
    let ghost st = map_st_of(*old(fn_cx));
    let ghost pv = crate::ir::place_view(*place);
    proof {
        crate::function::lemma_opt_ctype_views_index(fn_cx.ty_to_c@);
        assert(st.memo.len() == tv.len());
        assert((pv.local as int) < old(fn_cx).mir.local_tys@.len() && premapped(
            st,
            old(fn_cx).mir.local_tys@[pv.local as int],
        ));
    }
    let base_src_ty = fn_cx.ty_for_local(place.local);
    let mut ctype = fn_cx.rust_to_c_type(base_src_ty);
    proof {
        assert(ctype_view_of(ctype) == mapped_ty(st, base_src_ty));
    }
    let mut access: Vec<VariableAccess> = Vec::new();
    let mut i: usize = 0;
    proof {
        assert(access_views(access@) =~= Seq::<AccessV>::empty());
    }
    while i < place.projection.len()
        invariant
            crate::function::cx_map_wf(*fn_cx),
            cx_preserved(*old(fn_cx), *fn_cx),
            tv == crate::ir::table_view(fn_cx.table),
            st == map_st_of(*fn_cx),
            st.memo.len() == tv.len(),
            pv == crate::ir::place_view(*place),
            i <= pv.projection.len(),
            base_src_ty == old(fn_cx).mir.local_tys@[pv.local as int],
            resolve_place(tv, st, old(fn_cx).mir.local_tys@, pv) is Some,
            resolve_projs(
                tv,
                st,
                base_src_ty,
                pv.projection,
                i as int,
                ctype_view_of(ctype),
                access_views(access@),
            ) == resolve_place(tv, st, old(fn_cx).mir.local_tys@, pv),
        decreases pv.projection.len() - i,
    {
        reveal(resolve_step);
        let ghost cur0 = ctype_view_of(ctype);
        let ghost acc0 = access_views(access@);
        proof {
            assert(resolve_step(tv, st, base_src_ty, cur0, pv.projection[i as int]) is Some);
        }
        match &place.projection[i] {
            ProjElem::Field { idx, ty } => {
                match &ctype {
                    crate::ty::CType::Struct(info) | crate::ty::CType::Union(info) => {
                        proof {
                            assert(premapped(st, *ty));
                            assert(field_name_at(st.structs, info@.ctx_idx, *idx as int) is Some);
                        }
                        let nm = fn_cx.ongoing_codegen.context.get_field_name_for_struct(
                            info,
                            *idx,
                        );
                        match nm {
                            Some(n) => {
                                let ghost pre = access@;
                                access.push(VariableAccess::Field { name: n });
                                proof {
                                    assert(access@.drop_last() =~= pre);
                                }
                            },
                            None => {
                                proof {
                                    assert(false);
                                }
                            },
                        }
                        ctype = fn_cx.rust_to_c_type(*ty);
                    },
                    _ => {
                    },
                }
            },
            ProjElem::Index { local } => {
                let is_struct = match &ctype {
                    crate::ty::CType::Struct(_) => true,
                    _ => false,
                };
                if is_struct {
                    let ghost pre = access@;
                    access.push(VariableAccess::Unwrap);
                    proof {
                        assert(access@.drop_last() =~= pre);
                    }
                }
                let ghost pre = access@;
                access.push(
                    VariableAccess::Index { expression: Expression::unbvari(*local) },
                );
                proof {
                    assert(access@.drop_last() =~= pre);
                }
            },
            ProjElem::ConstantIndex { offset } => {
                let is_struct = match &ctype {
                    crate::ty::CType::Struct(_) => true,
                    _ => false,
                };
                if is_struct {
                    let ghost pre = access@;
                    access.push(VariableAccess::Unwrap);
                    proof {
                        assert(access@.drop_last() =~= pre);
                    }
                }
                let mut txt = String::new();
                crate::utils::push_dec_u128(&mut txt, *offset as u128);
                let ghost pre = access@;
                access.push(
                    VariableAccess::Index { expression: Expression::Constant { value: txt } },
                );
                proof {
                    assert(access@.drop_last() =~= pre);
                }
            },
            ProjElem::Downcast { variant } => {
                match &ctype {
                    crate::ty::CType::TaggedUnion(info) => {
                        proof {
                            assert(0 <= info@.ctx_idx < st.structs.len()
                                && st.structs[info@.ctx_idx] is TaggedUnion);
                            let tdef = st.structs[info@.ctx_idx]->TaggedUnion_0;
                            assert(tdef.union_var.ty is Union);
                            let uinfo = tdef.union_var.ty->Union_0;
                            assert(0 <= uinfo.ctx_idx < st.structs.len() && (
                            st.structs[uinfo.ctx_idx] is Struct
                                || st.structs[uinfo.ctx_idx] is Union));
                        }
                        let ghost pre = access@;
                        access.push(
                            VariableAccess::Field {
                                name: String::from_str(crate::structure::union_field_name()),
                            },
                        );
                        proof {
                            assert(access@.drop_last() =~= pre);
                        }
                        let info2 = crate::ty::CCompositeInfo {
                            name: info.name.clone(),
                            ctx_idx: info.ctx_idx,
                        };
                        let ghost tdefg = st.structs[info@.ctx_idx]->TaggedUnion_0;
                        let ghost uinfog = tdefg.union_var.ty->Union_0;
                        let t_union = fn_cx.ongoing_codegen.context.get_composite(
                            &info2,
                        ).as_tagged_union_def();
                        proof {
                            assert(crate::structure::taggedunion_view(t_union) == tdefg);
                        }
                        let uinfo = t_union.union_var.get_type().as_composite_info();
                        proof {
                            assert(crate::ty::ctype_view(t_union.union_var.ty)
                                == tdefg.union_var.ty);
                            assert(uinfo@ == uinfog);
                        }
                        let union_def = fn_cx.ongoing_codegen.context.get_composite(
                            &uinfo,
                        ).as_struct_def();
                        let ghost udefg = match st.structs[uinfog.ctx_idx] {
                            CompositeV::Struct(sd) => sd,
                            CompositeV::Union(sd) => sd,
                            CompositeV::TaggedUnion(_) => arbitrary(),
                        };
                        proof {
                            assert(crate::structure::structdef_view(union_def) == udefg);
                            assert((*variant as int) < udefg.fields.len());
                            crate::definition::lemma_vardef_views_index(union_def.fields@);
                        }
                        let vfield = union_def.get_field(*variant);
                        proof {
                            assert(crate::definition::vardef_view(vfield)
                                == udefg.fields[*variant as int]);
                        }
                        let ghost pre2 = access@;
                        access.push(VariableAccess::Field { name: vfield.get_name() });
                        proof {
                            assert(access@.drop_last() =~= pre2);
                        }
                        ctype = crate::ty::clone_ctype(vfield.get_type());
                    },
                    _ => {
                        proof {
                            assert(false);
                        }
                    },
                }
            },
            ProjElem::Deref => {
                proof {
                    crate::ir::lemma_src_types_view_index(fn_cx.table.kinds@);
                    assert(deref_src(tv, base_src_ty) is Some);
                }
                let inner: usize;
                match &fn_cx.table.kinds[base_src_ty] {
                    crate::ir::SrcType::Ref { inner: inr, .. } => {
                        inner = *inr;
                    },
                    crate::ir::SrcType::RawPtr { inner: inr } => {
                        inner = *inr;
                    },
                    _ => {
                        proof {
                            crate::ir::lemma_src_types_view_index(fn_cx.table.kinds@);
                            assert(false);
                        }
                        inner = 0;
                    },
                }
                proof {
                    assert(inner == deref_src(tv, base_src_ty)->Some_0);
                    assert(premapped(st, inner));
                }
                let next_ctype = fn_cx.rust_to_c_type(inner);
                let is_fat = match &ctype {
                    crate::ty::CType::FatPointer => true,
                    _ => false,
                };
                if is_fat {
                    let ghost pre = access@;
                    access.push(
                        VariableAccess::FatPtrDereference {
                            ty: crate::ty::clone_ctype(&next_ctype),
                        },
                    );
                    proof {
                        assert(access@.drop_last() =~= pre);
                    }
                } else {
                    let ghost pre = access@;
                    access.push(VariableAccess::Dereference);
                    proof {
                        assert(access@.drop_last() =~= pre);
                    }
                }
                ctype = next_ctype;
            },
            ProjElem::OpaqueCast => {
            },
        }
        i = i + 1;
        proof {
            reveal_with_fuel(crate::expression::expr_view, 3);
            reveal_with_fuel(crate::expression::access_views, 4);
            let step = resolve_step(tv, st, base_src_ty, cur0, pv.projection[i - 1])->Some_0;
            assert(access_views(access@) =~= acc0 + step.0);
            assert(ctype_view_of(ctype) == step.1);
        }
    }
    let r = Expression::Variable { local: place.local, access };
    proof {
        assert(expr_view(r) == (ExprV::Variable {
            local: place.local,
            access: access_views(r->Variable_access@),
        }));
    }
    r
}

/// The view of a target type, under its place-resolution name.
pub open spec fn ctype_view_of(t: crate::ty::CType) -> CTypeV {
    crate::ty::ctype_view(t)
}

/// The escaped hex text of a byte buffer, as string literals embed it.
pub open spec fn bytes_hex_text(bytes: Seq<u8>) -> Seq<char>
    decreases bytes,
{
    if bytes.len() == 0 {
        Seq::<char>::empty()
    } else {
        bytes_hex_text(bytes.drop_last()) + "\\x"@ + crate::utils::byte_hex_text_lower(
            bytes.last() as nat,
        )
    }
}

/// The expression a typed, evaluated constant lowers to; nothing where a
/// hard invariant fails.
#[verifier::opaque]
pub open spec fn const_value_expr(
    tv: Seq<SrcTypeV>,
    allocs: Seq<crate::ir::AllocData>,
    val: crate::ir::ConstValV,
    ty: usize,
) -> Option<ExprV> {
    match val {
        crate::ir::ConstValV::Scalar(x) => {
            if (ty as int) < tv.len() {
                match tv[ty as int] {
                    SrcTypeV::Int { .. } => Option::Some(
                        ExprV::Constant(dec_text(x as nat)),
                    ),
                    SrcTypeV::Uint { .. } => Option::Some(
                        ExprV::Constant(dec_text(x as nat) + "u"@),
                    ),
                    SrcTypeV::Bool => if x == 0 {
                        Option::Some(ExprV::Constant("false"@))
                    } else if x == 1 {
                        Option::Some(ExprV::Constant("true"@))
                    } else {
                        Option::None
                    },
                    _ => Option::Some(ExprV::Constant(dec_text(x as nat))),
                }
            } else {
                Option::None
            }
        },
        crate::ir::ConstValV::CharVal(c) => Option::Some(
            ExprV::Constant("'"@ + Seq::<char>::empty().push(c) + "'"@),
        ),
        crate::ir::ConstValV::StrVal(txt) => Option::Some(
            ExprV::Constant("\""@ + txt + "\""@),
        ),
        crate::ir::ConstValV::FloatText(txt) => Option::Some(ExprV::Constant(txt)),
        crate::ir::ConstValV::Ptr { alloc_id } => {
            if (alloc_id as int) < allocs.len() {
                Option::Some(
                    ExprV::Constant(
                        "\""@ + bytes_hex_text(allocs[alloc_id as int].bytes@) + "\""@,
                    ),
                )
            } else {
                Option::None
            }
        },
        crate::ir::ConstValV::ZeroSized { ty_name } => Option::Some(ExprV::Constant(ty_name)),
        crate::ir::ConstValV::Slice { bytes, meta } => Option::Some(
            ExprV::Struct {
                name: Box::new(ExprV::Constant(crate::ty::fat_ptr_name_text())),
                fields: seq![
                    ExprV::Constant("\""@ + bytes_hex_text(bytes) + "\""@),
                    ExprV::Cast(
                        CTypeV::Pointer(Box::new(CTypeV::Void)),
                        Box::new(ExprV::Constant(dec_text(meta as nat))),
                    ),
                ],
            },
        ),
        crate::ir::ConstValV::Other { .. } => Option::Some(ExprV::NoOp),
    }
}

/// Appends the escaped hex text of a byte buffer.
fn push_bytes_hex(out: &mut String, bytes: &Vec<u8>)
    ensures
        final(out)@ == old(out)@ + bytes_hex_text(bytes@),
{
    let ghost bs = bytes@;
    let ghost base = out@;
    let mut i: usize = 0;
    proof {
        assert(bytes_hex_text(bs.subrange(0, 0)) =~= Seq::<char>::empty());
    }
    while i < bytes.len()
        invariant
            i <= bs.len(),
            bs == bytes@,
            out@ == base + bytes_hex_text(bs.subrange(0, i as int)),
        decreases bs.len() - i,
    {
        out.append("\\x");
        crate::utils::push_byte_hex_lower(out, bytes[i]);
        i = i + 1;
        proof {
            let pre = bs.subrange(0, i as int);
            assert(pre.drop_last() =~= bs.subrange(0, i - 1));
            assert(pre.last() == bs[i - 1]);
            assert(out@ =~= base + bytes_hex_text(pre));
        }
    }
    proof {
        assert(bs.subrange(0, bs.len() as int) =~= bs);
    }
}

/// Lowers an evaluated constant to an expression.
#[verifier::rlimit(100)]
pub fn handle_constant(fn_cx: &CodegenFunctionCx, const_op: &crate::ir::ConstOperand) -> (r:
    Expression)
    requires
        const_value_expr(
            crate::ir::table_view(fn_cx.table),
            fn_cx.allocs@,
            crate::ir::const_val_view(const_op.val),
            const_op.ty,
        ) is Some,
    ensures
        expr_view(r) == const_value_expr(
            crate::ir::table_view(fn_cx.table),
            fn_cx.allocs@,
            crate::ir::const_val_view(const_op.val),
            const_op.ty,
        )->Some_0,
{
    reveal(const_value_expr);
    let ghost tv = crate::ir::table_view(fn_cx.table);
    proof {
        crate::ir::lemma_src_types_view_index(fn_cx.table.kinds@);
        reveal_with_fuel(crate::expression::expr_view, 3);
    }
    match &const_op.val {
        crate::ir::ConstVal::Scalar(x) => {
            let mut txt = String::new();
            crate::utils::push_dec_u128(&mut txt, *x);
            match &fn_cx.table.kinds[const_op.ty] {
                crate::ir::SrcType::Uint { .. } => {
                    txt.append("u");
                    let r = Expression::Constant { value: txt };
                    proof {
                        assert(r->Constant_value@ =~= dec_text(*x as nat) + "u"@);
                    }
                    r
                },
                crate::ir::SrcType::Bool => {
                    if *x == 0 {
                        Expression::constant_str("false")
                    } else {
                        proof {
                            assert(*x == 1);
                        }
                        Expression::constant_str("true")
                    }
                },
                _ => Expression::Constant { value: txt },
            }
        },
        crate::ir::ConstVal::CharVal(c) => {
            let mut txt = String::from_str("'");
            crate::utils::push_char(&mut txt, *c);
            txt.append("'");
            let r = Expression::Constant { value: txt };
            proof {
                assert(r->Constant_value@ =~= "'"@ + Seq::<char>::empty().push(*c) + "'"@);
            }
            r
        },
        crate::ir::ConstVal::StrVal(t) => {
            let mut txt = String::from_str("\"");
            txt.append(crate::crepr::self_str(t));
            txt.append("\"");
            let r = Expression::Constant { value: txt };
            proof {
                assert(r->Constant_value@ =~= "\""@ + t@ + "\""@);
            }
            r
        },
        crate::ir::ConstVal::FloatText(t) => Expression::Constant { value: t.clone() },
        crate::ir::ConstVal::Ptr { alloc_id } => {
            let mut txt = String::from_str("\"");
            push_bytes_hex(&mut txt, &fn_cx.allocs[*alloc_id].bytes);
            txt.append("\"");
            let r = Expression::Constant { value: txt };
            proof {
                assert(r->Constant_value@ =~= "\""@ + bytes_hex_text(
                    fn_cx.allocs@[*alloc_id as int].bytes@,
                ) + "\""@);
            }
            r
        },
        crate::ir::ConstVal::ZeroSized { ty_name } => Expression::Constant {
            value: ty_name.clone(),
        },
        crate::ir::ConstVal::Slice { bytes, meta } => {
            let mut txt = String::from_str("\"");
            push_bytes_hex(&mut txt, bytes);
            txt.append("\"");
            let ghost datav = "\""@ + bytes_hex_text(bytes@) + "\""@;
            proof {
                assert(txt@ =~= datav);
            }
            let mut mtxt = String::new();
            crate::utils::push_dec_u128(&mut mtxt, *meta as u128);
            let r = Expression::fatptr(
                Expression::Constant { value: txt },
                Expression::Cast {
                    ty: crate::ty::CType::Pointer(Box::new(crate::ty::CType::Void)),
                    value: Box::new(Expression::Constant { value: mtxt }),
                },
            );
            proof {
                reveal_with_fuel(crate::ty::ctype_view, 3);
            }
            r
        },
        crate::ir::ConstVal::Other { .. } => Expression::NoOp,
    }
}

/// The expression an operand lowers to.
pub open spec fn operand_expr(
    tv: Seq<SrcTypeV>,
    st: MapSt,
    local_tys: Seq<usize>,
    allocs: Seq<crate::ir::AllocData>,
    op: crate::ir::Operand,
) -> Option<ExprV> {
    match op {
        crate::ir::Operand::Copy(p) => match resolve_place(tv, st, local_tys, crate::ir::place_view(p)) {
            Option::Some(rp) => Option::Some(
                ExprV::Variable { local: p.local, access: rp.0 },
            ),
            Option::None => Option::None,
        },
        crate::ir::Operand::Move(p) => match resolve_place(tv, st, local_tys, crate::ir::place_view(p)) {
            Option::Some(rp) => Option::Some(
                ExprV::Variable { local: p.local, access: rp.0 },
            ),
            Option::None => Option::None,
        },
        crate::ir::Operand::Constant(c) => const_value_expr(
            tv,
            allocs,
            crate::ir::const_val_view(c.val),
            c.ty,
        ),
    }
}

/// Lowers an operand: a projected read copies and moves alike, a
/// constant lowers by value.
pub fn handle_operand(fn_cx: &mut CodegenFunctionCx, operand: &crate::ir::Operand) -> (r:
    Expression)
    requires
        crate::function::cx_map_wf(*old(fn_cx)),
        operand_expr(
            crate::ir::table_view(old(fn_cx).table),
            map_st_of(*old(fn_cx)),
            old(fn_cx).mir.local_tys@,
            old(fn_cx).allocs@,
            *operand,
        ) is Some,
    ensures
        crate::function::cx_map_wf(*final(fn_cx)),
        cx_preserved(*old(fn_cx), *final(fn_cx)),
        expr_view(r) == operand_expr(
            crate::ir::table_view(old(fn_cx).table),
            map_st_of(*old(fn_cx)),
            old(fn_cx).mir.local_tys@,
            old(fn_cx).allocs@,
            *operand,
        )->Some_0,
{
    match operand {
        crate::ir::Operand::Copy(place) => handle_place(fn_cx, place),
        crate::ir::Operand::Move(place) => handle_place(fn_cx, place),
        crate::ir::Operand::Constant(c) => handle_constant(fn_cx, c),
    }
}

/// The operand expression with further access steps appended; the
/// operand must have lowered to a projected local.
pub open spec fn operand_with_access_expr(base: ExprV, extra: Seq<AccessV>) -> Option<ExprV> {
    match base {
        ExprV::Variable { local, access } => Option::Some(
            ExprV::Variable { local, access: access + extra },
        ),
        _ => Option::None,
    }
}

/// Lowers an operand and appends further access steps to it.
pub fn handle_operand_with_access(
    fn_cx: &mut CodegenFunctionCx,
    operand: &crate::ir::Operand,
    access: Vec<VariableAccess>,
) -> (r: Expression)
    requires
        crate::function::cx_map_wf(*old(fn_cx)),
        operand_expr(
            crate::ir::table_view(old(fn_cx).table),
            map_st_of(*old(fn_cx)),
            old(fn_cx).mir.local_tys@,
            old(fn_cx).allocs@,
            *operand,
        ) is Some,
        operand_with_access_expr(
            operand_expr(
                crate::ir::table_view(old(fn_cx).table),
                map_st_of(*old(fn_cx)),
                old(fn_cx).mir.local_tys@,
                old(fn_cx).allocs@,
                *operand,
            )->Some_0,
            access_views(access@),
        ) is Some,
    ensures
        crate::function::cx_map_wf(*final(fn_cx)),
        cx_preserved(*old(fn_cx), *final(fn_cx)),
        expr_view(r) == operand_with_access_expr(
            operand_expr(
                crate::ir::table_view(old(fn_cx).table),
                map_st_of(*old(fn_cx)),
                old(fn_cx).mir.local_tys@,
                old(fn_cx).allocs@,
                *operand,
            )->Some_0,
            access_views(access@),
        )->Some_0,
{
    let ghost extra = access_views(access@);
    let e = handle_operand(fn_cx, operand);
    match e {
        Expression::Variable { local, access: old_access } => {
            let ghost base_acc = access_views(old_access@);
            let mut new_access = old_access;
            let mut rest = access;
            let ghost rest0 = rest@;
            new_access.append(&mut rest);
            proof {
                crate::expression::lemma_access_views_index(new_access@);
                crate::expression::lemma_access_views_index(old_access@);
                crate::expression::lemma_access_views_index(rest0);
                assert(new_access@ =~= old_access@ + rest0);
                assert forall|k: int| 0 <= k < new_access@.len() implies access_views(
                    new_access@,
                )[k] == (base_acc + extra)[k] by {
                    if k < old_access@.len() {
                        assert(new_access@[k] == old_access@[k]);
                    } else {
                        assert(new_access@[k] == rest0[k - old_access@.len()]);
                    }
                }
                assert(access_views(new_access@) =~= base_acc + extra);
            }
            Expression::Variable { local, access: new_access }
        },
        _ => {
            proof {
                assert(false);
            }
            Expression::NoOp
        },
    }
}

/// The source type a place's projections lead to, walked over the
/// interned table.
pub open spec fn proj_src_ty(
    tv: Seq<SrcTypeV>,
    cur: usize,
    projs: Seq<ProjElem>,
    i: int,
) -> Option<usize>
    decreases projs.len() - i,
{
    if i < 0 || i >= projs.len() {
        Option::Some(cur)
    } else {
        match projs[i] {
            ProjElem::Field { ty, .. } => proj_src_ty(tv, ty, projs, i + 1),
            ProjElem::Index { .. } => match elem_src_ty(tv, cur) {
                Option::Some(e) => proj_src_ty(tv, e, projs, i + 1),
                Option::None => Option::None,
            },
            ProjElem::ConstantIndex { .. } => match elem_src_ty(tv, cur) {
                Option::Some(e) => proj_src_ty(tv, e, projs, i + 1),
                Option::None => Option::None,
            },
            ProjElem::Downcast { .. } => proj_src_ty(tv, cur, projs, i + 1),
            ProjElem::Deref => match deref_src(tv, cur) {
                Option::Some(e) => proj_src_ty(tv, e, projs, i + 1),
                Option::None => Option::None,
            },
            ProjElem::OpaqueCast => proj_src_ty(tv, cur, projs, i + 1),
        }
    }
}

/// The element type of an indexable source type.
pub open spec fn elem_src_ty(tv: Seq<SrcTypeV>, t: usize) -> Option<usize> {
    if 0 <= t < tv.len() {
        match tv[t as int] {
            SrcTypeV::Array { elem, .. } => Option::Some(elem),
            SrcTypeV::Slice { elem } => Option::Some(elem),
            _ => Option::None,
        }
    } else {
        Option::None
    }
}

/// The source type of a place, where every step of the walk resolves.
pub open spec fn place_src_ty(
    tv: Seq<SrcTypeV>,
    local_tys: Seq<usize>,
    p: PlaceV,
) -> Option<usize> {
    if (p.local as int) < local_tys.len() {
        proj_src_ty(tv, local_tys[p.local as int], p.projection, 0)
    } else {
        Option::None
    }
}

/// The source type of an operand: its place's projected type, or the
/// constant's declared type.
pub open spec fn operand_src_ty(
    tv: Seq<SrcTypeV>,
    local_tys: Seq<usize>,
    op: crate::ir::Operand,
) -> Option<usize> {
    match op {
        crate::ir::Operand::Copy(p) => place_src_ty(tv, local_tys, crate::ir::place_view(p)),
        crate::ir::Operand::Move(p) => place_src_ty(tv, local_tys, crate::ir::place_view(p)),
        crate::ir::Operand::Constant(c) => Option::Some(c.ty),
    }
}

/// Walks the projected source type of a place.
pub fn compute_place_src_ty(fn_cx: &CodegenFunctionCx, place: &crate::ir::Place) -> (r: usize)
    requires
        place_src_ty(
            crate::ir::table_view(fn_cx.table),
            fn_cx.mir.local_tys@,
            crate::ir::place_view(*place),
        ) is Some,
    ensures
        r == place_src_ty(
            crate::ir::table_view(fn_cx.table),
            fn_cx.mir.local_tys@,
            crate::ir::place_view(*place),
        )->Some_0,
{
    let ghost tv = crate::ir::table_view(fn_cx.table);
    let ghost pv = crate::ir::place_view(*place);
    proof {
        crate::ir::lemma_src_types_view_index(fn_cx.table.kinds@);
    }
    let mut cur = fn_cx.mir.local_tys[place.local];
    let mut i: usize = 0;
    while i < place.projection.len()
        invariant
            i <= pv.projection.len(),
            tv == crate::ir::table_view(fn_cx.table),
            pv == crate::ir::place_view(*place),
            crate::ir::src_types_view(fn_cx.table.kinds@) == tv,
            fn_cx.table.kinds@.len() == tv.len(),
            forall|k: int|
                0 <= k < fn_cx.table.kinds@.len() ==> tv[k] == crate::ir::src_type_view(
                    #[trigger] fn_cx.table.kinds@[k],
                ),
            proj_src_ty(tv, cur, pv.projection, i as int) == place_src_ty(tv, fn_cx.mir.local_tys@, pv),
            place_src_ty(tv, fn_cx.mir.local_tys@, pv) is Some,
        decreases pv.projection.len() - i,
    {
        match &place.projection[i] {
            ProjElem::Field { ty, .. } => {
                cur = *ty;
            },
            ProjElem::Index { .. } | ProjElem::ConstantIndex { .. } => {
                proof {
                    assert(elem_src_ty(tv, cur) is Some);
                }
                match &fn_cx.table.kinds[cur] {
                    crate::ir::SrcType::Array { elem, .. } => {
                        cur = *elem;
                    },
                    crate::ir::SrcType::Slice { elem } => {
                        cur = *elem;
                    },
                    _ => {
                        proof {
                            assert(false);
                        }
                    },
                }
            },
            ProjElem::Deref => {
                proof {
                    assert(deref_src(tv, cur) is Some);
                }
                match &fn_cx.table.kinds[cur] {
                    crate::ir::SrcType::Ref { inner, .. } => {
                        cur = *inner;
                    },
                    crate::ir::SrcType::RawPtr { inner } => {
                        cur = *inner;
                    },
                    _ => {
                        proof {
                            assert(false);
                        }
                    },
                }
            },
            ProjElem::Downcast { .. } => {},
            ProjElem::OpaqueCast => {},
        }
        i = i + 1;
    }
    cur
}

/// The source type of an operand.
pub fn compute_operand_src_ty(fn_cx: &CodegenFunctionCx, op: &crate::ir::Operand) -> (r: usize)
    requires
        operand_src_ty(crate::ir::table_view(fn_cx.table), fn_cx.mir.local_tys@, *op) is Some,
    ensures
        r == operand_src_ty(
            crate::ir::table_view(fn_cx.table),
            fn_cx.mir.local_tys@,
            *op,
        )->Some_0,
{
    match op {
        crate::ir::Operand::Copy(p) => compute_place_src_ty(fn_cx, p),
        crate::ir::Operand::Move(p) => compute_place_src_ty(fn_cx, p),
        crate::ir::Operand::Constant(c) => c.ty,
    }
}

/// What a cast lowers to: scalar casts wrap the operand in a cast step;
/// an unsizing coercion to a dynamic-dispatch handle pairs the operand
/// with its resolved vtable reference in a fat pointer; an unsizing of an
/// array reference pairs it with the known length; a transmute
/// reinterprets through a reference cast unless the target is already a
/// fat pointer. The result carries the allocation memo and static list
/// afterwards, which only the vtable path extends.
#[verifier::opaque]
pub open spec fn cast_view(
    tv: Seq<SrcTypeV>,
    ls: LowSt,
    local_tys: Seq<usize>,
    allocs: Seq<crate::ir::AllocData>,
    crate_num: usize,
    kind: crate::ir::CastK,
    op: crate::ir::Operand,
    target_ty: usize,
) -> Option<(ExprV, Seq<Option<ExprV>>, Seq<crate::static_alloc::AllocV>, Seq<Seq<char>>)> {
    let st = ls.map;
    let pure_memo = ls.amemo;
    let statics = ls.statics;
    match kind {
        crate::ir::CastK::Unsize { vtable_alloc } => match deref_src(tv, target_ty) {
            Option::Some(dt) => {
                if (dt as int) < tv.len() && tv[dt as int] is Dynamic {
                    match vtable_alloc {
                        Option::Some(id) => match (
                            crate::function::global_decl_spec(allocs, crate_num, ls.amemo, ls.statics, id),
                            operand_expr(tv, st, local_tys, allocs, op),
                        ) {
                            (Option::Some(g), Option::Some(e)) => Option::Some(
                                (
                                    ExprV::Struct {
                                        name: Box::new(
                                            ExprV::Constant(crate::ty::fat_ptr_name_text()),
                                        ),
                                        fields: seq![e, g.0],
                                    },
                                    g.1,
                                    g.2,
                                    Seq::<Seq<char>>::empty(),
                                ),
                            ),
                            _ => Option::None,
                        },
                        Option::None => Option::None,
                    }
                } else {
                    match operand_src_ty(tv, local_tys, op) {
                        Option::Some(sty) => match deref_src(tv, sty) {
                            Option::Some(ds) => {
                                if (ds as int) < tv.len() && tv[ds as int] is Array {
                                    match operand_expr(tv, st, local_tys, allocs, op) {
                                        Option::Some(e) => Option::Some(
                                            (
                                                ExprV::Struct {
                                                    name: Box::new(
                                                        ExprV::Constant(
                                                            crate::ty::fat_ptr_name_text(),
                                                        ),
                                                    ),
                                                    fields: seq![
                                                        e,
                                                        ExprV::Constant(
                                                            dec_text(
                                                                tv[ds as int]->Array_len as nat,
                                                            ),
                                                        ),
                                                    ],
                                                },
                                                pure_memo,
                                                statics,
                                                Seq::<Seq<char>>::empty(),
                                            ),
                                        ),
                                        Option::None => Option::None,
                                    }
                                } else {
                                    Option::Some(
                                        (
                                            ExprV::NoOp,
                                            pure_memo,
                                            statics,
                                            seq!["unhandled unsize coercion"@],
                                        ),
                                    )
                                }
                            },
                            Option::None => Option::None,
                        },
                        Option::None => Option::None,
                    }
                }
            },
            Option::None => Option::None,
        },
        crate::ir::CastK::Transmute => {
            if premapped(st, target_ty) {
                let tgt = mapped_ty(st, target_ty);
                if tgt is FatPointer {
                    match operand_expr(tv, st, local_tys, allocs, op) {
                        Option::Some(e) => Option::Some(
                            (e, pure_memo, statics, Seq::<Seq<char>>::empty()),
                        ),
                        Option::None => Option::None,
                    }
                } else {
                    match operand_expr(tv, st, local_tys, allocs, op) {
                        Option::Some(e) => match operand_with_access_expr(
                            e,
                            seq![
                                AccessV::Reference,
                                AccessV::Cast(CTypeV::Pointer(Box::new(tgt))),
                            ],
                        ) {
                            Option::Some(e2) => Option::Some(
                                (e2, pure_memo, statics, Seq::<Seq<char>>::empty()),
                            ),
                            Option::None => Option::None,
                        },
                        Option::None => Option::None,
                    }
                }
            } else {
                Option::None
            }
        },
        _ => {
            if premapped(st, target_ty) {
                match operand_expr(tv, st, local_tys, allocs, op) {
                    Option::Some(e) => match operand_with_access_expr(
                        e,
                        seq![AccessV::Cast(mapped_ty(st, target_ty))],
                    ) {
                        Option::Some(e2) => Option::Some(
                            (e2, pure_memo, statics, Seq::<Seq<char>>::empty()),
                        ),
                        Option::None => Option::None,
                    },
                    Option::None => Option::None,
                }
            } else {
                Option::None
            }
        },
    }
}

/// The binary operator a source operation lowers to; the with-overflow
/// forms become the checked operators.
pub open spec fn binop_of_mir(op: crate::ir::MirBinOp) -> crate::expression::BinOpType {
    match op {
        crate::ir::MirBinOp::Add => crate::expression::BinOpType::Add,
        crate::ir::MirBinOp::AddUnchecked => crate::expression::BinOpType::Add,
        crate::ir::MirBinOp::AddWithOverflow => crate::expression::BinOpType::CheckedAdd,
        crate::ir::MirBinOp::Sub => crate::expression::BinOpType::Sub,
        crate::ir::MirBinOp::SubUnchecked => crate::expression::BinOpType::Sub,
        crate::ir::MirBinOp::SubWithOverflow => crate::expression::BinOpType::CheckedSub,
        crate::ir::MirBinOp::Mul => crate::expression::BinOpType::Mul,
        crate::ir::MirBinOp::MulUnchecked => crate::expression::BinOpType::Mul,
        crate::ir::MirBinOp::MulWithOverflow => crate::expression::BinOpType::CheckedMul,
        crate::ir::MirBinOp::Div => crate::expression::BinOpType::Div,
        crate::ir::MirBinOp::Rem => crate::expression::BinOpType::Mod,
        crate::ir::MirBinOp::BitXor => crate::expression::BinOpType::Xor,
        crate::ir::MirBinOp::BitAnd => crate::expression::BinOpType::And,
        crate::ir::MirBinOp::BitOr => crate::expression::BinOpType::Or,
        crate::ir::MirBinOp::Shl => crate::expression::BinOpType::Shl,
        crate::ir::MirBinOp::ShlUnchecked => crate::expression::BinOpType::Shl,
        crate::ir::MirBinOp::Shr => crate::expression::BinOpType::Shr,
        crate::ir::MirBinOp::ShrUnchecked => crate::expression::BinOpType::Shr,
        crate::ir::MirBinOp::Eq => crate::expression::BinOpType::Eq,
        crate::ir::MirBinOp::Lt => crate::expression::BinOpType::Lt,
        crate::ir::MirBinOp::Le => crate::expression::BinOpType::Le,
        crate::ir::MirBinOp::Ne => crate::expression::BinOpType::Ne,
        crate::ir::MirBinOp::Ge => crate::expression::BinOpType::Ge,
        crate::ir::MirBinOp::Gt => crate::expression::BinOpType::Gt,
        crate::ir::MirBinOp::Cmp => crate::expression::BinOpType::Eq,
        crate::ir::MirBinOp::Offset => crate::expression::BinOpType::Add,
    }
}

/// Lowers a source binary operator.
pub fn binop_from_mir(op: &crate::ir::MirBinOp) -> (r: crate::expression::BinOpType)
    ensures
        r == binop_of_mir(*op),
{
    match op {
        crate::ir::MirBinOp::Add => crate::expression::BinOpType::Add,
        crate::ir::MirBinOp::AddUnchecked => crate::expression::BinOpType::Add,
        crate::ir::MirBinOp::AddWithOverflow => crate::expression::BinOpType::CheckedAdd,
        crate::ir::MirBinOp::Sub => crate::expression::BinOpType::Sub,
        crate::ir::MirBinOp::SubUnchecked => crate::expression::BinOpType::Sub,
        crate::ir::MirBinOp::SubWithOverflow => crate::expression::BinOpType::CheckedSub,
        crate::ir::MirBinOp::Mul => crate::expression::BinOpType::Mul,
        crate::ir::MirBinOp::MulUnchecked => crate::expression::BinOpType::Mul,
        crate::ir::MirBinOp::MulWithOverflow => crate::expression::BinOpType::CheckedMul,
        crate::ir::MirBinOp::Div => crate::expression::BinOpType::Div,
        crate::ir::MirBinOp::Rem => crate::expression::BinOpType::Mod,
        crate::ir::MirBinOp::BitXor => crate::expression::BinOpType::Xor,
        crate::ir::MirBinOp::BitAnd => crate::expression::BinOpType::And,
        crate::ir::MirBinOp::BitOr => crate::expression::BinOpType::Or,
        crate::ir::MirBinOp::Shl => crate::expression::BinOpType::Shl,
        crate::ir::MirBinOp::ShlUnchecked => crate::expression::BinOpType::Shl,
        crate::ir::MirBinOp::Shr => crate::expression::BinOpType::Shr,
        crate::ir::MirBinOp::ShrUnchecked => crate::expression::BinOpType::Shr,
        crate::ir::MirBinOp::Eq => crate::expression::BinOpType::Eq,
        crate::ir::MirBinOp::Lt => crate::expression::BinOpType::Lt,
        crate::ir::MirBinOp::Le => crate::expression::BinOpType::Le,
        crate::ir::MirBinOp::Ne => crate::expression::BinOpType::Ne,
        crate::ir::MirBinOp::Ge => crate::expression::BinOpType::Ge,
        crate::ir::MirBinOp::Gt => crate::expression::BinOpType::Gt,
        crate::ir::MirBinOp::Cmp => crate::expression::BinOpType::Eq,
        crate::ir::MirBinOp::Offset => crate::expression::BinOpType::Add,
    }
}

/// Everything statement lowering may change: the mapper state, the
/// defines, the synthesized header functions, the statics, and the
/// allocation memo.
pub struct LowSt {
    pub map: MapSt,
    pub defines: Seq<crate::header::DefineV>,
    pub header_fns: Seq<CFunctionV>,
    pub statics: Seq<crate::static_alloc::AllocV>,
    pub amemo: Seq<Option<ExprV>>,
}

/// The statement-lowering view of the context.
pub open spec fn low_st_of(cx: CodegenFunctionCx) -> LowSt {
    LowSt {
        map: map_st_of(cx),
        defines: crate::base::ctx_reg_view(cx.ongoing_codegen.context).defines,
        header_fns: crate::base::ctx_reg_view(cx.ongoing_codegen.context).header_functions,
        statics: crate::base::ctx_reg_view(cx.ongoing_codegen.context).statics,
        amemo: crate::function::opt_expr_views(cx.alloc_to_c@),
    }
}

/// What statement lowering never touches.
pub open spec fn cx_low_frame(a: CodegenFunctionCx, b: CodegenFunctionCx) -> bool {
    &&& b.table == a.table
    &&& b.mir == a.mir
    &&& b.allocs == a.allocs
    &&& b.crate_num == a.crate_num
    &&& b.alloc_to_c@.len() == a.alloc_to_c@.len()
    &&& b.ty_to_c@.len() == a.ty_to_c@.len()
    &&& crate::base::ctx_reg_view(b.ongoing_codegen.context).includes == crate::base::ctx_reg_view(
        a.ongoing_codegen.context,
    ).includes
    &&& crate::base::ctx_reg_view(b.ongoing_codegen.context).header_includes
        == crate::base::ctx_reg_view(a.ongoing_codegen.context).header_includes
    &&& crate::base::ctx_reg_view(b.ongoing_codegen.context).functions == crate::base::ctx_reg_view(
        a.ongoing_codegen.context,
    ).functions
}

/// What requesting a checked helper does to the state, and the call it
/// yields.
#[verifier::opaque]
pub open spec fn checked_step(
    tv: Seq<SrcTypeV>,
    ls: LowSt,
    op2: crate::expression::BinOpType,
    ty: usize,
    place_ty: usize,
    le: ExprV,
    re: ExprV,
) -> Option<(ExprV, LowSt)> {
    if crate::header::checked_op_wf(tv, op2, ty, place_ty, ls.map) {
        let (retc, st1) = crate::ty::map_ty(tv, place_ty as int, ls.map);
        let fname = crate::header::checked_fn_name(op2, tv[ty as int]);
        let sdef = crate::header::checked_struct_of(st1, retc);
        let signed = tv[ty as int] is Int;
        let hit = crate::base::fn_named_in(ls.header_fns, fname);
        let helper = crate::header::checked_helper_view(
            op2,
            signed,
            fname,
            sdef.name,
            sdef.fields[0].ty,
            retc,
            crate::header::extremum_names(sdef.fields[0].ty).0,
            crate::header::extremum_names(sdef.fields[0].ty).1,
        );
        Option::Some(
            (
                ExprV::FnCall {
                    function: Box::new(ExprV::Constant(fname)),
                    args: seq![le, re],
                },
                LowSt {
                    map: st1,
                    defines: if !hit && signed {
                        crate::header::extremum_defines(sdef.fields[0].ty, ls.defines)
                    } else {
                        ls.defines
                    },
                    header_fns: if hit {
                        ls.header_fns
                    } else {
                        ls.header_fns.push(helper)
                    },
                    ..ls
                },
            ),
        )
    } else {
        Option::None
    }
}

/// The expression an assignment's right-hand side lowers to, with the
/// state afterwards. Most shapes wrap into an assignment to the resolved
/// destination; an aggregate builds its own statement shape, and a repeat
/// expands into per-slot assignments of the boxed array's field.
#[verifier::opaque]
pub open spec fn assign_step(
    tv: Seq<SrcTypeV>,
    local_tys: Seq<usize>,
    allocs: Seq<crate::ir::AllocData>,
    crate_num: usize,
    ls: LowSt,
    place: crate::ir::Place,
    rvalue: crate::ir::Rvalue,
) -> Option<(ExprV, LowSt)> {
    let st = ls.map;
    match rvalue {
        crate::ir::Rvalue::Use(op) => match (
            operand_expr(tv, st, local_tys, allocs, op),
            crate::aggregate::dest_expr(tv, st, local_tys, place),
        ) {
            (Option::Some(e), Option::Some(dst)) => Option::Some(
                (ExprV::Assignment(Box::new(dst), Box::new(e)), ls),
            ),
            _ => Option::None,
        },
        crate::ir::Rvalue::BinaryOp { op, lhs, rhs } => {
            let op2 = binop_of_mir(op);
            match (
                operand_expr(tv, st, local_tys, allocs, lhs),
                operand_expr(tv, st, local_tys, allocs, rhs),
            ) {
                (Option::Some(le), Option::Some(re)) => {
                    if op2 is CheckedAdd || op2 is CheckedSub || op2 is CheckedMul {
                        match operand_src_ty(tv, local_tys, lhs) {
                            Option::Some(ty) => {
                                if (place.local as int) < local_tys.len() {
                                    match checked_step(
                                        tv,
                                        ls,
                                        op2,
                                        ty,
                                        local_tys[place.local as int],
                                        le,
                                        re,
                                    ) {
                                        Option::Some(cr) => match crate::aggregate::dest_expr(
                                            tv,
                                            cr.1.map,
                                            local_tys,
                                            place,
                                        ) {
                                            Option::Some(dst) => Option::Some(
                                                (
                                                    ExprV::Assignment(
                                                        Box::new(dst),
                                                        Box::new(cr.0),
                                                    ),
                                                    cr.1,
                                                ),
                                            ),
                                            Option::None => Option::None,
                                        },
                                        Option::None => Option::None,
                                    }
                                } else {
                                    Option::None
                                }
                            },
                            Option::None => Option::None,
                        }
                    } else {
                        match crate::aggregate::dest_expr(tv, st, local_tys, place) {
                            Option::Some(dst) => Option::Some(
                                (
                                    ExprV::Assignment(
                                        Box::new(dst),
                                        Box::new(
                                            ExprV::BinaryOp(op2, Box::new(le), Box::new(re)),
                                        ),
                                    ),
                                    ls,
                                ),
                            ),
                            Option::None => Option::None,
                        }
                    }
                },
                _ => Option::None,
            }
        },
        crate::ir::Rvalue::UnaryOp { op, operand } => match operand_expr(
            tv,
            st,
            local_tys,
            allocs,
            operand,
        ) {
            Option::Some(e) => {
                let inner: Option<ExprV> = match op {
                    crate::ir::MirUnOp::Not => match operand_src_ty(tv, local_tys, operand) {
                        Option::Some(oty) => {
                            if (oty as int) < tv.len() && tv[oty as int] is Bool {
                                Option::Some(
                                    ExprV::UnaryOp(
                                        crate::expression::UnaryOpType::Not,
                                        Box::new(e),
                                    ),
                                )
                            } else if (oty as int) < tv.len() {
                                Option::Some(
                                    ExprV::UnaryOp(
                                        crate::expression::UnaryOpType::BitNot,
                                        Box::new(e),
                                    ),
                                )
                            } else {
                                Option::None
                            }
                        },
                        Option::None => Option::None,
                    },
                    crate::ir::MirUnOp::Neg => Option::Some(
                        ExprV::UnaryOp(crate::expression::UnaryOpType::Neg, Box::new(e)),
                    ),
                    crate::ir::MirUnOp::Other => Option::Some(ExprV::NoOp),
                };
                match (inner, crate::aggregate::dest_expr(tv, st, local_tys, place)) {
                    (Option::Some(ie), Option::Some(dst)) => Option::Some(
                        (
                            ExprV::Assignment(Box::new(dst), Box::new(ie)),
                            LowSt {
                                map: MapSt { diags: st.diags + unop_diags(op), ..st },
                                ..ls
                            },
                        ),
                    ),
                    _ => Option::None,
                }
            },
            Option::None => Option::None,
        },
        crate::ir::Rvalue::Aggregate { kind, fields } => {
            match crate::aggregate::aggregate_expr(tv, st, local_tys, allocs, kind, fields@, place) {
                Option::Some(e) => Option::Some(
                    (
                        e,
                        LowSt {
                            map: MapSt {
                                diags: st.diags + crate::aggregate::aggregate_diags(
                                    st,
                                    local_tys,
                                    kind,
                                    place,
                                ),
                                ..st
                            },
                            ..ls
                        },
                    ),
                ),
                Option::None => Option::None,
            }
        },
        crate::ir::Rvalue::RefOf { place: rp } => {
            match (
                resolve_place(tv, st, local_tys, crate::ir::place_view(rp)),
                crate::aggregate::dest_expr(tv, st, local_tys, place),
            ) {
                (Option::Some(r), Option::Some(dst)) => Option::Some(
                    (
                        ExprV::Assignment(
                            Box::new(dst),
                            Box::new(
                                ExprV::Variable {
                                    local: rp.local,
                                    access: r.0.push(AccessV::Reference),
                                },
                            ),
                        ),
                        ls,
                    ),
                ),
                _ => Option::None,
            }
        },
        crate::ir::Rvalue::Cast { kind, op, target_ty } => {
            // The cast reads the memo as exec values; reuse its view form.
            match cast_expr_at(tv, ls, local_tys, allocs, crate_num, kind, op, target_ty) {
                Option::Some(ce) => match crate::aggregate::dest_expr(tv, st, local_tys, place) {
                    Option::Some(dst) => Option::Some(
                        (
                            ExprV::Assignment(Box::new(dst), Box::new(ce.0)),
                            ce.1,
                        ),
                    ),
                    Option::None => Option::None,
                },
                Option::None => Option::None,
            }
        },
        crate::ir::Rvalue::CopyForDeref(p) => {
            match (
                resolve_place(tv, st, local_tys, crate::ir::place_view(p)),
                crate::aggregate::dest_expr(tv, st, local_tys, place),
            ) {
                (Option::Some(r), Option::Some(dst)) => Option::Some(
                    (
                        ExprV::Assignment(
                            Box::new(dst),
                            Box::new(ExprV::Variable { local: p.local, access: r.0 }),
                        ),
                        ls,
                    ),
                ),
                _ => Option::None,
            }
        },
        crate::ir::Rvalue::Discriminant(p) => {
            match (
                resolve_place(tv, st, local_tys, crate::ir::place_view(p)),
                crate::aggregate::dest_expr(tv, st, local_tys, place),
            ) {
                (Option::Some(r), Option::Some(dst)) => Option::Some(
                    (
                        ExprV::Assignment(
                            Box::new(dst),
                            Box::new(
                                ExprV::Variable {
                                    local: p.local,
                                    access: r.0.push(
                                        AccessV::Field(
                                            crate::structure::tag_field_name_text(),
                                        ),
                                    ),
                                },
                            ),
                        ),
                        ls,
                    ),
                ),
                _ => Option::None,
            }
        },
        crate::ir::Rvalue::Len(p) => {
            match place_src_ty(tv, local_tys, crate::ir::place_view(p)) {
                Option::Some(pty) => {
                    if (pty as int) < tv.len() && tv[pty as int] is Slice {
                        match (
                            resolve_place(tv, st, local_tys, crate::ir::place_view(p)),
                            crate::aggregate::dest_expr(tv, st, local_tys, place),
                        ) {
                            (Option::Some(r), Option::Some(dst)) => {
                                let trimmed: Seq<AccessV> = if r.0.len() > 0 {
                                    r.0.drop_last()
                                } else {
                                    r.0
                                };
                                Option::Some(
                                    (
                                        ExprV::Assignment(
                                            Box::new(dst),
                                            Box::new(
                                                ExprV::Variable {
                                                    local: p.local,
                                                    access: trimmed + seq![
                                                        AccessV::Field(
                                                            crate::fatptr::fat_ptr_meta_field_text(),
                                                        ),
                                                        AccessV::Cast(
                                                            CTypeV::UInt(
                                                                crate::ty::CUIntTy::UInt64,
                                                            ),
                                                        ),
                                                    ],
                                                },
                                            ),
                                        ),
                                        ls,
                                    ),
                                )
                            },
                            _ => Option::None,
                        }
                    } else {
                        Option::None
                    }
                },
                Option::None => Option::None,
            }
        },
        crate::ir::Rvalue::Repeat { op, count } => match operand_expr(
            tv,
            st,
            local_tys,
            allocs,
            op,
        ) {
            Option::Some(e) => Option::Some(
                (
                    ExprV::Repeat {
                        lhs: Box::new(
                            ExprV::Variable {
                                local: place.local,
                                access: seq![AccessV::Unwrap],
                            },
                        ),
                        value: Box::new(e),
                        count,
                    },
                    ls,
                ),
            ),
            Option::None => Option::None,
        },
        crate::ir::Rvalue::Other { what } => match crate::aggregate::dest_expr(
            tv,
            st,
            local_tys,
            place,
        ) {
            Option::Some(dst) => Option::Some(
                (
                    ExprV::Assignment(Box::new(dst), Box::new(ExprV::NoOp)),
                    LowSt {
                        map: MapSt {
                            diags: st.diags.push("unhandled rvalue: "@ + what@),
                            ..st
                        },
                        ..ls
                    },
                ),
            ),
            Option::None => Option::None,
        },
    }
}

/// The diagnostic an unrecognized unary operation records.
pub open spec fn unop_diags(op: crate::ir::MirUnOp) -> Seq<Seq<char>> {
    match op {
        crate::ir::MirUnOp::Other => seq!["unhandled unary op"@],
        _ => Seq::<Seq<char>>::empty(),
    }
}

/// The cast outcome over the compound state.
#[verifier::opaque]
pub open spec fn cast_expr_at(
    tv: Seq<SrcTypeV>,
    ls: LowSt,
    local_tys: Seq<usize>,
    allocs: Seq<crate::ir::AllocData>,
    crate_num: usize,
    kind: crate::ir::CastK,
    op: crate::ir::Operand,
    target_ty: usize,
) -> Option<(ExprV, LowSt)> {
    match cast_view(tv, ls, local_tys, allocs, crate_num, kind, op, target_ty) {
        Option::Some(c) => Option::Some(
            (
                c.0,
                LowSt {
                    map: MapSt { diags: ls.map.diags + c.3, ..ls.map },
                    statics: c.2,
                    amemo: c.1,
                    ..ls
                },
            ),
        ),
        Option::None => Option::None,
    }
}

/// The statement a source statement lowers to, with the state afterwards:
/// an assignment whose right-hand side collapsed to a placeholder becomes
/// a placeholder statement; every statement carries its provenance
/// comment.
#[verifier::opaque]
pub open spec fn stmt_step(
    tv: Seq<SrcTypeV>,
    local_tys: Seq<usize>,
    allocs: Seq<crate::ir::AllocData>,
    crate_num: usize,
    ls: LowSt,
    s: crate::ir::MirStatement,
) -> Option<(StatementV, LowSt)> {
    match s {
        crate::ir::MirStatement::Assign { place, rvalue } => {
            match assign_step(tv, local_tys, allocs, crate_num, ls, place, rvalue) {
                Option::Some(ar) => {
                    let collapsed = match ar.0 {
                        ExprV::Assignment(_, r) => if *r is NoOp {
                            ExprV::NoOp
                        } else {
                            ar.0
                        },
                        _ => ar.0,
                    };
                    Option::Some(
                        (
                            StatementV {
                                expression: Option::Some(collapsed),
                                comment: Option::Some("source statement"@),
                            },
                            ar.1,
                        ),
                    )
                },
                Option::None => Option::None,
            }
        },
        crate::ir::MirStatement::Other => Option::Some(
            (
                StatementV {
                    expression: Option::Some(ExprV::NoOp),
                    comment: Option::Some("source statement"@),
                },
                ls,
            ),
        ),
    }
}

/// Lowers one cast.
#[verifier::rlimit(100)]
fn handle_cast(
    fn_cx: &mut CodegenFunctionCx,
    kind: &crate::ir::CastK,
    op: &crate::ir::Operand,
    target_ty: usize,
) -> (r: Expression)
    requires
        crate::function::cx_map_wf(*old(fn_cx)),
        cast_expr_at(
            crate::ir::table_view(old(fn_cx).table),
            low_st_of(*old(fn_cx)),
            old(fn_cx).mir.local_tys@,
            old(fn_cx).allocs@,
            old(fn_cx).crate_num,
            *kind,
            *op,
            target_ty,
        ) is Some,
    ensures
        crate::function::cx_map_wf(*final(fn_cx)),
        cx_low_frame(*old(fn_cx), *final(fn_cx)),
        ({
            let (e, ls) = cast_expr_at(
                crate::ir::table_view(old(fn_cx).table),
                low_st_of(*old(fn_cx)),
                old(fn_cx).mir.local_tys@,
                old(fn_cx).allocs@,
                old(fn_cx).crate_num,
                *kind,
                *op,
                target_ty,
            )->Some_0;
            expr_view(r) == e && low_st_of(*final(fn_cx)) == ls
        }),
{
    let ghost tv = crate::ir::table_view(old(fn_cx).table);
    let ghost ls0 = low_st_of(*old(fn_cx));
    let ghost st = ls0.map;
    reveal(cast_view);
    reveal(cast_expr_at);
    reveal_with_fuel(crate::expression::expr_view, 3);
    proof {
        crate::ir::lemma_src_types_view_index(fn_cx.table.kinds@);
        crate::function::lemma_opt_ctype_views_index(fn_cx.ty_to_c@);
        crate::function::lemma_opt_expr_views_index(fn_cx.alloc_to_c@);
    }
    match kind {
        crate::ir::CastK::Unsize { vtable_alloc } => {
            proof {
                assert(deref_src(tv, target_ty) is Some);
            }
            let dt: usize = match &fn_cx.table.kinds[target_ty] {
                crate::ir::SrcType::Ref { inner, .. } => *inner,
                crate::ir::SrcType::RawPtr { inner } => *inner,
                _ => {
                    proof {
                        assert(false);
                    }
                    0
                },
            };
            let is_dyn = match &fn_cx.table.kinds[dt] {
                crate::ir::SrcType::Dynamic => true,
                _ => false,
            };
            if is_dyn {
                let id: usize = match vtable_alloc {
                    Some(i) => *i,
                    None => {
                        proof {
                            assert(false);
                        }
                        0
                    },
                };
                let vt = fn_cx.handle_global_decl(id);
                let e = handle_operand(fn_cx, op);
                let r = Expression::fatptr(e, vt);
                proof {
                    assert(low_st_of(*fn_cx).map.diags =~= st.diags + Seq::<Seq<char>>::empty());
                }
                r
            } else {
                let sty = compute_operand_src_ty(fn_cx, op);
                proof {
                    assert(deref_src(tv, sty) is Some);
                }
                let ds: usize = match &fn_cx.table.kinds[sty] {
                    crate::ir::SrcType::Ref { inner, .. } => *inner,
                    crate::ir::SrcType::RawPtr { inner } => *inner,
                    _ => {
                        proof {
                            assert(false);
                        }
                        0
                    },
                };
                let arr_len: Option<usize> = match &fn_cx.table.kinds[ds] {
                    crate::ir::SrcType::Array { len, .. } => Some(*len),
                    _ => None,
                };
                match arr_len {
                    Some(len) => {
                        let e = handle_operand(fn_cx, op);
                        let mut ltxt = String::new();
                        crate::utils::push_dec_usize(&mut ltxt, len);
                        proof {
                            assert(ltxt@ =~= dec_text(len as nat));
                        }
                        let r = Expression::fatptr(
                            e,
                            Expression::Constant { value: ltxt },
                        );
                        proof {
                            assert(low_st_of(*fn_cx).map.diags =~= st.diags
                                + Seq::<Seq<char>>::empty());
                        }
                        r
                    },
                    None => {
                        fn_cx.ongoing_codegen.context.push_diagnostic(
                            String::from_str("unhandled unsize coercion"),
                        );
                        proof {
                            assert(low_st_of(*fn_cx).map.diags =~= st.diags + seq![
                                "unhandled unsize coercion"@,
                            ]);
                        }
                        Expression::NoOp
                    },
                }
            }
        },
        crate::ir::CastK::Transmute => {
            let tgt = fn_cx.rust_to_c_type(target_ty);
            let is_fat = match &tgt {
                crate::ty::CType::FatPointer => true,
                _ => false,
            };
            let r = if is_fat {
                handle_operand(fn_cx, op)
            } else {
                let mut steps: Vec<crate::expression::VariableAccess> = Vec::new();
                steps.push(crate::expression::VariableAccess::Reference);
                steps.push(
                    crate::expression::VariableAccess::Cast {
                        ty: crate::ty::CType::Pointer(Box::new(tgt)),
                    },
                );
                proof {
                    reveal_with_fuel(crate::expression::access_views, 4);
                    reveal_with_fuel(crate::ty::ctype_view, 3);
                    assert(crate::expression::access_views(steps@) =~= seq![
                        AccessV::Reference,
                        AccessV::Cast(CTypeV::Pointer(Box::new(mapped_ty(st, target_ty)))),
                    ]);
                }
                handle_operand_with_access(fn_cx, op, steps)
            };
            proof {
                assert(low_st_of(*fn_cx).map.diags =~= st.diags + Seq::<Seq<char>>::empty());
            }
            r
        },
        _ => {
            let tgt = fn_cx.rust_to_c_type(target_ty);
            let mut steps: Vec<crate::expression::VariableAccess> = Vec::new();
            steps.push(crate::expression::VariableAccess::Cast { ty: tgt });
            proof {
                reveal_with_fuel(crate::expression::access_views, 3);
                assert(crate::expression::access_views(steps@) =~= seq![
                    AccessV::Cast(mapped_ty(st, target_ty)),
                ]);
            }
            let r = handle_operand_with_access(fn_cx, op, steps);
            proof {
                assert(low_st_of(*fn_cx).map.diags =~= st.diags + Seq::<Seq<char>>::empty());
            }
            r
        },
    }
}


/// Resolves a place and appends one more access step to it.
#[verifier::rlimit(100)]
fn place_with_step(
    fn_cx: &mut CodegenFunctionCx,
    p: &crate::ir::Place,
    step: crate::expression::VariableAccess,
) -> (r: Expression)
    requires
        crate::function::cx_map_wf(*old(fn_cx)),
        resolve_place(
            crate::ir::table_view(old(fn_cx).table),
            map_st_of(*old(fn_cx)),
            old(fn_cx).mir.local_tys@,
            crate::ir::place_view(*p),
        ) is Some,
    ensures
        crate::function::cx_map_wf(*final(fn_cx)),
        cx_preserved(*old(fn_cx), *final(fn_cx)),
        expr_view(r) == (ExprV::Variable {
            local: p.local,
            access: resolve_place(
                crate::ir::table_view(old(fn_cx).table),
                map_st_of(*old(fn_cx)),
                old(fn_cx).mir.local_tys@,
                crate::ir::place_view(*p),
            )->Some_0.0.push(crate::expression::access_view(step)),
        }),
{
    let ghost chain = resolve_place(
        crate::ir::table_view(old(fn_cx).table),
        map_st_of(*old(fn_cx)),
        old(fn_cx).mir.local_tys@,
        crate::ir::place_view(*p),
    )->Some_0.0;
    let e = handle_place(fn_cx, p);
    match e {
        Expression::Variable { local, access } => {
            let ghost pre = access@;
            proof {
                assert(crate::expression::access_views(pre) == chain);
            }
            let mut a = access;
            a.push(step);
            proof {
                assert(a@.drop_last() =~= pre);
                assert(crate::expression::access_views(a@) =~= chain.push(
                    crate::expression::access_view(step),
                ));
            }
            Expression::Variable { local, access: a }
        },
        _ => {
            proof {
                assert(false);
            }
            Expression::NoOp
        },
    }
}

/// Resolves a slice place for a length read: the trailing fat-pointer
/// dereference is dropped, then the metadata field is read as a 64-bit
/// count.
#[verifier::rlimit(100)]
fn place_len_expr(fn_cx: &mut CodegenFunctionCx, p: &crate::ir::Place) -> (r: Expression)
    requires
        crate::function::cx_map_wf(*old(fn_cx)),
        resolve_place(
            crate::ir::table_view(old(fn_cx).table),
            map_st_of(*old(fn_cx)),
            old(fn_cx).mir.local_tys@,
            crate::ir::place_view(*p),
        ) is Some,
    ensures
        crate::function::cx_map_wf(*final(fn_cx)),
        cx_preserved(*old(fn_cx), *final(fn_cx)),
        ({
            let chain = resolve_place(
                crate::ir::table_view(old(fn_cx).table),
                map_st_of(*old(fn_cx)),
                old(fn_cx).mir.local_tys@,
                crate::ir::place_view(*p),
            )->Some_0.0;
            let trimmed: Seq<AccessV> = if chain.len() > 0 {
                chain.drop_last()
            } else {
                chain
            };
            expr_view(r) == (ExprV::Variable {
                local: p.local,
                access: trimmed + seq![
                    AccessV::Field(crate::fatptr::fat_ptr_meta_field_text()),
                    AccessV::Cast(CTypeV::UInt(crate::ty::CUIntTy::UInt64)),
                ],
            })
        }),
{
    let ghost chain = resolve_place(
        crate::ir::table_view(old(fn_cx).table),
        map_st_of(*old(fn_cx)),
        old(fn_cx).mir.local_tys@,
        crate::ir::place_view(*p),
    )->Some_0.0;
    let e = handle_place(fn_cx, p);
    match e {
        Expression::Variable { local, access } => {
            let ghost pre = access@;
            proof {
                assert(crate::expression::access_views(pre) == chain);
            }
            let mut a = access;
            if a.len() > 0 {
                let _dropped = a.pop();
            }
            let ghost trimmed = a@;
            proof {
                if pre.len() > 0 {
                    assert(a@ =~= pre.drop_last());
                }
                crate::expression::lemma_access_views_index(pre);
                crate::expression::lemma_access_views_index(trimmed);
                if pre.len() > 0 {
                    assert forall|k: int| 0 <= k < trimmed.len() implies
                        crate::expression::access_views(trimmed)[k]
                        == crate::expression::access_views(pre).drop_last()[k] by {
                        assert(trimmed[k] == pre[k]);
                    }
                    assert(crate::expression::access_views(trimmed)
                        =~= crate::expression::access_views(pre).drop_last());
                }
            }
            a.push(
                crate::expression::VariableAccess::Field {
                    name: String::from_str(crate::fatptr::fat_ptr_meta_field()),
                },
            );
            a.push(
                crate::expression::VariableAccess::Cast {
                    ty: crate::ty::CType::UInt(crate::ty::CUIntTy::UInt64),
                },
            );
            proof {
                reveal_with_fuel(crate::ty::ctype_view, 2);
                reveal_with_fuel(crate::expression::access_views, 3);
                assert(a@.drop_last().drop_last() =~= trimmed);
                assert(crate::expression::access_views(a@)
                    =~= crate::expression::access_views(trimmed) + seq![
                    AccessV::Field(crate::fatptr::fat_ptr_meta_field_text()),
                    AccessV::Cast(CTypeV::UInt(crate::ty::CUIntTy::UInt64)),
                ]);
            }
            Expression::Variable { local, access: a }
        },
        _ => {
            proof {
                assert(false);
            }
            Expression::NoOp
        },
    }
}



/// Lowers one checked binary operation: the helper call assigned into
/// the destination.
#[verifier::rlimit(100)]
fn assign_checked(
    fn_cx: &mut CodegenFunctionCx,
    place: &crate::ir::Place,
    op2: crate::expression::BinOpType,
    le: Expression,
    re: Expression,
    ty: usize,
) -> (r: Expression)
    requires
        crate::function::cx_map_wf(*old(fn_cx)),
        (place.local as int) < old(fn_cx).mir.local_tys@.len(),
        checked_step(
            crate::ir::table_view(old(fn_cx).table),
            low_st_of(*old(fn_cx)),
            op2,
            ty,
            old(fn_cx).mir.local_tys@[place.local as int],
            expr_view(le),
            expr_view(re),
        ) is Some,
        ({
            let cr = checked_step(
                crate::ir::table_view(old(fn_cx).table),
                low_st_of(*old(fn_cx)),
                op2,
                ty,
                old(fn_cx).mir.local_tys@[place.local as int],
                expr_view(le),
                expr_view(re),
            )->Some_0;
            crate::aggregate::dest_expr(
                crate::ir::table_view(old(fn_cx).table),
                cr.1.map,
                old(fn_cx).mir.local_tys@,
                *place,
            ) is Some
        }),
    ensures
        crate::function::cx_map_wf(*final(fn_cx)),
        cx_low_frame(*old(fn_cx), *final(fn_cx)),
        ({
            let cr = checked_step(
                crate::ir::table_view(old(fn_cx).table),
                low_st_of(*old(fn_cx)),
                op2,
                ty,
                old(fn_cx).mir.local_tys@[place.local as int],
                expr_view(le),
                expr_view(re),
            )->Some_0;
            expr_view(r) == (ExprV::Assignment(
                Box::new(
                    crate::aggregate::dest_expr(
                        crate::ir::table_view(old(fn_cx).table),
                        cr.1.map,
                        old(fn_cx).mir.local_tys@,
                        *place,
                    )->Some_0,
                ),
                Box::new(cr.0),
            )) && low_st_of(*final(fn_cx)) == cr.1
        }),
{
    reveal(checked_step);
    let place_ty = fn_cx.ty_for_local(place.local);
    let call = crate::header::handle_checked_op(fn_cx, op2, le, re, ty, place_ty);
    let dst = handle_place(fn_cx, place);
    proof {
        reveal_with_fuel(crate::expression::expr_view, 2);
    }
    Expression::Assignment { lhs: Box::new(dst), rhs: Box::new(call) }
}

/// Lowers a binary operation into the destination; the three checked
/// operators dispatch to the helper synthesizer.
#[verifier::rlimit(100)]
fn assign_binary(
    fn_cx: &mut CodegenFunctionCx,
    place: &crate::ir::Place,
    op: &crate::ir::MirBinOp,
    lhs: &crate::ir::Operand,
    rhs: &crate::ir::Operand,
    whole: Ghost<crate::ir::Rvalue>,
) -> (r: Expression)
    requires
        crate::function::cx_map_wf(*old(fn_cx)),
        whole@ == (crate::ir::Rvalue::BinaryOp { op: *op, lhs: *lhs, rhs: *rhs }),
        assign_step(
            crate::ir::table_view(old(fn_cx).table),
            old(fn_cx).mir.local_tys@,
            old(fn_cx).allocs@,
            old(fn_cx).crate_num,
            low_st_of(*old(fn_cx)),
            *place,
            whole@,
        ) is Some,
    ensures
        crate::function::cx_map_wf(*final(fn_cx)),
        cx_low_frame(*old(fn_cx), *final(fn_cx)),
        ({
            let (e, ls) = assign_step(
                crate::ir::table_view(old(fn_cx).table),
                old(fn_cx).mir.local_tys@,
                old(fn_cx).allocs@,
                old(fn_cx).crate_num,
                low_st_of(*old(fn_cx)),
                *place,
                whole@,
            )->Some_0;
            expr_view(r) == e && low_st_of(*final(fn_cx)) == ls
        }),
{
    reveal(assign_step);
    reveal(checked_step);
    reveal_with_fuel(crate::expression::expr_view, 3);
    let op2 = binop_from_mir(op);
    let le = handle_operand(fn_cx, lhs);
    let re = handle_operand(fn_cx, rhs);
    let checked = match op2 {
        crate::expression::BinOpType::CheckedAdd => true,
        crate::expression::BinOpType::CheckedSub => true,
        crate::expression::BinOpType::CheckedMul => true,
        _ => false,
    };
    if checked {
        let ty = compute_operand_src_ty(fn_cx, lhs);
        assign_checked(fn_cx, place, op2, le, re, ty)
    } else {
        let dst = handle_place(fn_cx, place);
        Expression::Assignment {
            lhs: Box::new(dst),
            rhs: Box::new(
                Expression::BinaryOp { op: op2, lhs: Box::new(le), rhs: Box::new(re) },
            ),
        }
    }
}


} // verus!
