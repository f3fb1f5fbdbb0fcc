//! Aggregate lowering: struct, union, array, tagged-union and closure
//! construction literals built from component operands, with the target
//! type of the destination local driving the shape.

use vstd::prelude::*;

use crate::expression::AccessV;
use crate::expression::Expression;
use crate::expression::ExprV;
use crate::expression::expr_view;
use crate::function::CodegenFunctionCx;
use crate::function::map_st_of;
use crate::ir::AggKind;
use crate::ir::AllocData;
use crate::ir::Operand;
use crate::ir::Place;
use crate::ir::SrcTypeV;
use crate::stmt::cx_preserved_but_diags;
use crate::stmt::mapped_ty;
use crate::stmt::operand_expr;
use crate::stmt::premapped;
use crate::stmt::resolve_place;
use crate::structure::CompositeV;
use crate::ty::CTypeV;
use crate::ty::MapSt;
use crate::utils::dec_text;
use crate::utils::pow256;

verus! {

/// The target type of the destination's base local, where it is mapped.
pub open spec fn dest_local_ctype(st: MapSt, local_tys: Seq<usize>, p: Place) -> Option<CTypeV> {
    if (p.local as int) < local_tys.len() && premapped(st, local_tys[p.local as int]) {
        Option::Some(mapped_ty(st, local_tys[p.local as int]))
    } else {
        Option::None
    }
}

/// The destination place as an access-chain expression.
pub open spec fn dest_expr(
    tv: Seq<SrcTypeV>,
    st: MapSt,
    local_tys: Seq<usize>,
    p: Place,
) -> Option<ExprV> {
    match resolve_place(tv, st, local_tys, crate::ir::place_view(p)) {
        Option::Some(rp) => Option::Some(ExprV::Variable { local: p.local, access: rp.0 }),
        Option::None => Option::None,
    }
}

/// The struct or union definition a composite reference resolves to.
pub open spec fn struct_def_at(st: MapSt, idx: int) -> Option<crate::structure::StructDefV> {
    if 0 <= idx < st.structs.len() {
        match st.structs[idx] {
            CompositeV::Struct(s) => Option::Some(s),
            CompositeV::Union(s) => Option::Some(s),
            CompositeV::TaggedUnion(_) => Option::None,
        }
    } else {
        Option::None
    }
}

/// The width-truncated discriminant constant of variant `k`.
pub open spec fn truncated_discr(val: u128, size: usize) -> nat {
    if size >= 16 {
        val as nat
    } else {
        (val as nat) % pow256(size as nat)
    }
}

/// One positional construction literal.
pub open spec fn positional_literal(name: Seq<char>, es: Seq<ExprV>) -> ExprV {
    ExprV::Struct { name: Box::new(ExprV::Constant(name)), fields: es }
}

/// The per-slot assignments a fixed-size array aggregate lowers to, for
/// the first `i` components.
pub open spec fn arr_assigns(
    tv: Seq<SrcTypeV>,
    st: MapSt,
    local_tys: Seq<usize>,
    allocs: Seq<AllocData>,
    fields: Seq<Operand>,
    local: usize,
) -> Option<Seq<ExprV>>
    decreases fields,
{
    if fields.len() == 0 {
        Option::Some(Seq::<ExprV>::empty())
    } else {
        match arr_assigns(tv, st, local_tys, allocs, fields.drop_last(), local) {
            Option::Some(rest) => match operand_expr(tv, st, local_tys, allocs, fields.last()) {
                Option::Some(e) => Option::Some(
                    rest.push(
                        ExprV::Assignment(
                            Box::new(
                                ExprV::Variable {
                                    local,
                                    access: seq![
                                        AccessV::Index(
                                            Box::new(
                                                ExprV::Constant(
                                                    dec_text((fields.len() - 1) as nat),
                                                ),
                                            ),
                                        ),
                                    ],
                                },
                            ),
                            Box::new(e),
                        ),
                    ),
                ),
                Option::None => Option::None,
            },
            Option::None => Option::None,
        }
    }
}

/// The expression an aggregate assignment lowers to: product types with
/// two or more fields become one positional literal; the single-field
/// unwrap case assigns the component directly, matching the tuple rule;
/// arrays become one per-slot assignment list; untagged unions take
/// exactly one supplied field as a named literal; a tagged union wraps
/// variant `k`'s positional literal in its named union member behind the
/// width-truncated discriminant, tag first; closures fill their
/// registered environment struct positionally; any other shape is an
/// inert placeholder.
#[verifier::opaque]
pub open spec fn aggregate_expr(
    tv: Seq<SrcTypeV>,
    st: MapSt,
    local_tys: Seq<usize>,
    allocs: Seq<AllocData>,
    kind: AggKind,
    fields: Seq<Operand>,
    place: Place,
) -> Option<ExprV> {
    match dest_local_ctype(st, local_tys, place) {
        Option::Some(var_type) => match kind {
            AggKind::Tuple => match var_type {
                CTypeV::Struct(info) => match (
                    crate::bb::operands_exprs(tv, st, local_tys, allocs, fields),
                    dest_expr(tv, st, local_tys, place),
                ) {
                    (Option::Some(es), Option::Some(dst)) => Option::Some(
                        ExprV::Assignment(
                            Box::new(dst),
                            Box::new(positional_literal(info.name, es)),
                        ),
                    ),
                    _ => Option::None,
                },
                _ => {
                    if fields.len() == 1 {
                        match (
                            operand_expr(tv, st, local_tys, allocs, fields[0]),
                            dest_expr(tv, st, local_tys, place),
                        ) {
                            (Option::Some(e), Option::Some(dst)) => Option::Some(
                                ExprV::Assignment(Box::new(dst), Box::new(e)),
                            ),
                            _ => Option::None,
                        }
                    } else {
                        Option::None
                    }
                },
            },
            AggKind::Array => match arr_assigns(tv, st, local_tys, allocs, fields, place.local) {
                Option::Some(items) => Option::Some(ExprV::Array(items)),
                Option::None => Option::None,
            },
            AggKind::Adt { variant, active_field } => match var_type {
                CTypeV::Struct(info) => match (
                    crate::bb::operands_exprs(tv, st, local_tys, allocs, fields),
                    dest_expr(tv, st, local_tys, place),
                ) {
                    (Option::Some(es), Option::Some(dst)) => Option::Some(
                        ExprV::Assignment(
                            Box::new(dst),
                            Box::new(positional_literal(info.name, es)),
                        ),
                    ),
                    _ => Option::None,
                },
                CTypeV::Union(info) => match struct_def_at(st, info.ctx_idx) {
                    Option::Some(udef) => match active_field {
                        Option::Some(af) => {
                            if (af as int) < udef.fields.len() && fields.len() <= 1 {
                                let named: Seq<(Seq<char>, ExprV)> = if fields.len() == 0 {
                                    Seq::<(Seq<char>, ExprV)>::empty()
                                } else {
                                    match operand_expr(tv, st, local_tys, allocs, fields[0]) {
                                        Option::Some(e) => seq![
                                            (udef.fields[af as int].name, e),
                                        ],
                                        Option::None => Seq::<(Seq<char>, ExprV)>::empty(),
                                    }
                                };
                                if fields.len() == 1 && operand_expr(
                                    tv,
                                    st,
                                    local_tys,
                                    allocs,
                                    fields[0],
                                ) is None {
                                    Option::None
                                } else {
                                    match dest_expr(tv, st, local_tys, place) {
                                        Option::Some(dst) => Option::Some(
                                            ExprV::Assignment(
                                                Box::new(dst),
                                                Box::new(
                                                    ExprV::NamedStruct {
                                                        name: Box::new(
                                                            ExprV::Constant(udef.name),
                                                        ),
                                                        fields: named,
                                                    },
                                                ),
                                            ),
                                        ),
                                        Option::None => Option::None,
                                    }
                                }
                            } else {
                                Option::None
                            }
                        },
                        Option::None => Option::None,
                    },
                    Option::None => Option::None,
                },
                CTypeV::TaggedUnion(info) => tagged_union_literal(
                    tv,
                    st,
                    local_tys,
                    allocs,
                    fields,
                    place,
                    info,
                    variant,
                ),
                _ => Option::Some(ExprV::NoOp),
            },
            AggKind::Closure { upvars } => {
                if premapped(st, upvars) {
                    match mapped_ty(st, upvars) {
                        CTypeV::Struct(info) => match (
                            crate::bb::operands_exprs(tv, st, local_tys, allocs, fields),
                            dest_expr(tv, st, local_tys, place),
                        ) {
                            (Option::Some(es), Option::Some(dst)) => Option::Some(
                                ExprV::Assignment(
                                    Box::new(dst),
                                    Box::new(positional_literal(info.name, es)),
                                ),
                            ),
                            _ => Option::None,
                        },
                        _ => Option::None,
                    }
                } else {
                    Option::None
                }
            },
            AggKind::Other { .. } => Option::Some(ExprV::NoOp),
        },
        Option::None => Option::None,
    }
}

/// The tagged-union construction: the truncated discriminant first, then
/// variant `k`'s union member named around its positional literal.
#[verifier::opaque]
pub open spec fn tagged_union_literal(
    tv: Seq<SrcTypeV>,
    st: MapSt,
    local_tys: Seq<usize>,
    allocs: Seq<AllocData>,
    fields: Seq<Operand>,
    place: Place,
    info: crate::ty::CCompositeInfoV,
    variant: usize,
) -> Option<ExprV> {
    if 0 <= info.ctx_idx < st.structs.len() && st.structs[info.ctx_idx] is TaggedUnion {
        let tdef = st.structs[info.ctx_idx]->TaggedUnion_0;
        match tdef.union_var.ty {
            CTypeV::Union(uinfo) => match struct_def_at(st, uinfo.ctx_idx) {
                Option::Some(udef) => {
                    if (variant as int) < udef.fields.len() {
                        let vfield = udef.fields[variant as int];
                        match vfield.ty {
                            CTypeV::Struct(vinfo) => match struct_def_at(st, vinfo.ctx_idx) {
                                Option::Some(vdef) => {
                                    if (place.local as int) < local_tys.len() && tv[local_tys[place.local as int] as int] is EnumAdt
                                        && (local_tys[place.local as int] as int) < tv.len() {
                                        let src = tv[local_tys[place.local as int] as int];
                                        let dvals = src->EnumAdt_discr_vals;
                                        let dsize = src->EnumAdt_discr_size;
                                        if (variant as int) < dvals.len() {
                                            match (
                                                crate::bb::operands_exprs(
                                                    tv,
                                                    st,
                                                    local_tys,
                                                    allocs,
                                                    fields,
                                                ),
                                                dest_expr(tv, st, local_tys, place),
                                            ) {
                                                (
                                                    Option::Some(es),
                                                    Option::Some(dst),
                                                ) => Option::Some(
                                                    ExprV::Assignment(
                                                        Box::new(dst),
                                                        Box::new(
                                                            positional_literal(
                                                                tdef.name,
                                                                seq![
                                                                    ExprV::Constant(
                                                                        dec_text(
                                                                            truncated_discr(
                                                                                dvals[variant as int],
                                                                                dsize,
                                                                            ),
                                                                        ),
                                                                    ),
                                                                    ExprV::NamedStruct {
                                                                        name: Box::new(
                                                                            ExprV::Constant(
                                                                                uinfo.name,
                                                                            ),
                                                                        ),
                                                                        fields: seq![
                                                                            (
                                                                                vfield.name,
                                                                                positional_literal(
                                                                                    vdef.name,
                                                                                    es,
                                                                                ),
                                                                            ),
                                                                        ],
                                                                    },
                                                                ],
                                                            ),
                                                        ),
                                                    ),
                                                ),
                                                _ => Option::None,
                                            }
                                        } else {
                                            Option::None
                                        }
                                    } else {
                                        Option::None
                                    }
                                },
                                Option::None => Option::None,
                            },
                            _ => Option::None,
                        }
                    } else {
                        Option::None
                    }
                },
                Option::None => Option::None,
            },
            _ => Option::None,
        }
    } else {
        Option::None
    }
}

/// The diagnostics an aggregate records: a recognized-but-unimplemented
/// shape is logged and replaced with an inert placeholder.
pub open spec fn aggregate_diags(
    st: MapSt,
    local_tys: Seq<usize>,
    kind: AggKind,
    place: Place,
) -> Seq<Seq<char>> {
    match kind {
        AggKind::Adt { .. } => match dest_local_ctype(st, local_tys, place) {
            Option::Some(var_type) => if var_type is Struct || var_type is Union || var_type is TaggedUnion {
                Seq::<Seq<char>>::empty()
            } else {
                seq!["unhandled aggregate kind"@]
            },
            Option::None => Seq::<Seq<char>>::empty(),
        },
        AggKind::Other { what } => seq!["unhandled aggregate kind: "@ + what@],
        _ => Seq::<Seq<char>>::empty(),
    }
}

/// Lowers the shared positional-literal shape: the components in order,
/// assigned into the resolved destination.
#[verifier::rlimit(100)]
fn lower_positional(
    fn_cx: &mut CodegenFunctionCx,
    name: String,
    fields: &Vec<Operand>,
    place: &Place,
) -> (r: Expression)
    requires
        crate::function::cx_map_wf(*old(fn_cx)),
        crate::bb::operands_exprs(
            crate::ir::table_view(old(fn_cx).table),
            map_st_of(*old(fn_cx)),
            old(fn_cx).mir.local_tys@,
            old(fn_cx).allocs@,
            fields@,
        ) is Some,
        dest_expr(
            crate::ir::table_view(old(fn_cx).table),
            map_st_of(*old(fn_cx)),
            old(fn_cx).mir.local_tys@,
            *place,
        ) is Some,
    ensures
        crate::function::cx_map_wf(*final(fn_cx)),
        crate::stmt::cx_preserved(*old(fn_cx), *final(fn_cx)),
        expr_view(r) == (ExprV::Assignment(
            Box::new(
                dest_expr(
                    crate::ir::table_view(old(fn_cx).table),
                    map_st_of(*old(fn_cx)),
                    old(fn_cx).mir.local_tys@,
                    *place,
                )->Some_0,
            ),
            Box::new(
                positional_literal(
                    name@,
                    crate::bb::operands_exprs(
                        crate::ir::table_view(old(fn_cx).table),
                        map_st_of(*old(fn_cx)),
                        old(fn_cx).mir.local_tys@,
                        old(fn_cx).allocs@,
                        fields@,
                    )->Some_0,
                ),
            ),
        )),
{
    let es = crate::bb::lower_operands(fn_cx, fields, false);
    let dst = crate::stmt::handle_place(fn_cx, place);
    let r = Expression::Assignment {
        lhs: Box::new(dst),
        rhs: Box::new(
            Expression::Struct {
                name: Box::new(Expression::Constant { value: name }),
                fields: es,
            },
        ),
    };
    proof {
        reveal_with_fuel(crate::expression::expr_view, 3);
    }
    r
}

/// Lowers a fixed-size array aggregate: one assignment per slot.
#[verifier::rlimit(100)]
fn lower_array(fn_cx: &mut CodegenFunctionCx, fields: &Vec<Operand>, local: usize) -> (r:
    Expression)
    requires
        crate::function::cx_map_wf(*old(fn_cx)),
        arr_assigns(
            crate::ir::table_view(old(fn_cx).table),
            map_st_of(*old(fn_cx)),
            old(fn_cx).mir.local_tys@,
            old(fn_cx).allocs@,
            fields@,
            local,
        ) is Some,
    ensures
        crate::function::cx_map_wf(*final(fn_cx)),
        crate::stmt::cx_preserved(*old(fn_cx), *final(fn_cx)),
        expr_view(r) == ExprV::Array(
            arr_assigns(
                crate::ir::table_view(old(fn_cx).table),
                map_st_of(*old(fn_cx)),
                old(fn_cx).mir.local_tys@,
                old(fn_cx).allocs@,
                fields@,
                local,
            )->Some_0,
        ),
{
    let ghost tv = crate::ir::table_view(old(fn_cx).table);
    let ghost st = map_st_of(*old(fn_cx));
    let ghost lts = old(fn_cx).mir.local_tys@;
    let ghost als = old(fn_cx).allocs@;
    let mut assigns: Vec<Expression> = Vec::new();
    let mut i: usize = 0;
    proof {
        assert(fields@.subrange(0, 0) =~= Seq::<Operand>::empty());
        assert(crate::expression::expr_views(assigns@) =~= arr_assigns(
            tv,
            st,
            lts,
            als,
            fields@.subrange(0, 0),
            local,
        )->Some_0);
    }
    while i < fields.len()
        invariant
            crate::function::cx_map_wf(*fn_cx),
            crate::stmt::cx_preserved(*old(fn_cx), *fn_cx),
            tv == crate::ir::table_view(fn_cx.table),
            st == map_st_of(*fn_cx),
            lts == fn_cx.mir.local_tys@,
            als == fn_cx.allocs@,
            i <= fields@.len(),
            arr_assigns(tv, st, lts, als, fields@, local) is Some,
            arr_assigns(tv, st, lts, als, fields@.subrange(0, i as int), local) is Some,
            crate::expression::expr_views(assigns@) == arr_assigns(
                tv,
                st,
                lts,
                als,
                fields@.subrange(0, i as int),
                local,
            )->Some_0,
        decreases fields@.len() - i,
    {
        proof {
            lemma_arr_prefix(tv, st, lts, als, fields@, local, i + 1);
        }
        let lhs = Expression::arr_vari(local, i);
        let rhs = crate::stmt::handle_operand(fn_cx, &fields[i]);
        let ghost pre = assigns@;
        assigns.push(Expression::Assignment { lhs, rhs: Box::new(rhs) });
        i = i + 1;
        proof {
            reveal_with_fuel(crate::expression::expr_view, 3);
            reveal_with_fuel(crate::expression::expr_views, 2);
            assert(assigns@.drop_last() =~= pre);
            let pref = fields@.subrange(0, i as int);
            assert(pref.drop_last() =~= fields@.subrange(0, i - 1));
            assert(pref.last() == fields@[i - 1]);
            assert(pref.len() - 1 == i - 1);
            let lastv = crate::expression::expr_view(assigns@.last());
            assert(lastv->Assignment_0 == Box::new(
                ExprV::Variable {
                    local,
                    access: seq![
                        AccessV::Index(
                            Box::new(ExprV::Constant(dec_text((i - 1) as nat))),
                        ),
                    ],
                },
            ));
            assert(crate::expression::expr_views(assigns@) =~= arr_assigns(
                tv,
                st,
                lts,
                als,
                pref,
                local,
            )->Some_0);
        }
    }
    proof {
        assert(fields@.subrange(0, fields@.len() as int) =~= fields@);
    }
    Expression::Array { fields: assigns }
}

/// Lowers an untagged-union aggregate: a named literal with the one
/// supplied field, or none.
#[verifier::rlimit(100)]
fn lower_union(
    fn_cx: &mut CodegenFunctionCx,
    info: crate::ty::CCompositeInfo,
    af: usize,
    fields: &Vec<Operand>,
    place: &Place,
) -> (r: Expression)
    requires
        crate::function::cx_map_wf(*old(fn_cx)),
        struct_def_at(map_st_of(*old(fn_cx)), info@.ctx_idx) is Some,
        (af as int) < struct_def_at(map_st_of(*old(fn_cx)), info@.ctx_idx)->Some_0.fields.len(),
        fields@.len() <= 1,
        fields@.len() == 1 ==> operand_expr(
            crate::ir::table_view(old(fn_cx).table),
            map_st_of(*old(fn_cx)),
            old(fn_cx).mir.local_tys@,
            old(fn_cx).allocs@,
            fields@[0],
        ) is Some,
        dest_expr(
            crate::ir::table_view(old(fn_cx).table),
            map_st_of(*old(fn_cx)),
            old(fn_cx).mir.local_tys@,
            *place,
        ) is Some,
    ensures
        crate::function::cx_map_wf(*final(fn_cx)),
        crate::stmt::cx_preserved(*old(fn_cx), *final(fn_cx)),
        expr_view(r) == (ExprV::Assignment(
            Box::new(
                dest_expr(
                    crate::ir::table_view(old(fn_cx).table),
                    map_st_of(*old(fn_cx)),
                    old(fn_cx).mir.local_tys@,
                    *place,
                )->Some_0,
            ),
            Box::new(
                ExprV::NamedStruct {
                    name: Box::new(
                        ExprV::Constant(
                            struct_def_at(map_st_of(*old(fn_cx)), info@.ctx_idx)->Some_0.name,
                        ),
                    ),
                    fields: if fields@.len() == 0 {
                        Seq::<(Seq<char>, ExprV)>::empty()
                    } else {
                        seq![
                            (
                                struct_def_at(
                                    map_st_of(*old(fn_cx)),
                                    info@.ctx_idx,
                                )->Some_0.fields[af as int].name,
                                operand_expr(
                                    crate::ir::table_view(old(fn_cx).table),
                                    map_st_of(*old(fn_cx)),
                                    old(fn_cx).mir.local_tys@,
                                    old(fn_cx).allocs@,
                                    fields@[0],
                                )->Some_0,
                            ),
                        ]
                    },
                },
            ),
        )),
{
    let ghost tv = crate::ir::table_view(old(fn_cx).table);
    let ghost st = map_st_of(*old(fn_cx));
    let ghost lts = old(fn_cx).mir.local_tys@;
    let ghost als = old(fn_cx).allocs@;
    let ghost udefg = struct_def_at(st, info@.ctx_idx)->Some_0;
    let union_def = fn_cx.ongoing_codegen.context.get_composite(&info).as_struct_def();
    proof {
        assert(crate::structure::structdef_view(union_def) == udefg);
        crate::definition::lemma_vardef_views_index(union_def.fields@);
    }
    let active = union_def.get_field(af);
    let mut named: Vec<(String, Expression)> = Vec::new();
    if fields.len() == 1 {
        let e = crate::stmt::handle_operand(fn_cx, &fields[0]);
        let ghost ev = expr_view(e);
        named.push((active.get_name(), e));
        proof {
            reveal_with_fuel(crate::expression::named_views, 2);
            assert(named@.drop_last() =~= Seq::<(String, Expression)>::empty());
            assert(crate::expression::named_views(named@) =~= seq![
                (udefg.fields[af as int].name, ev),
            ]);
        }
    } else {
        proof {
            reveal_with_fuel(crate::expression::named_views, 1);
            assert(crate::expression::named_views(named@)
                =~= Seq::<(Seq<char>, ExprV)>::empty());
        }
    }
    let ghost namedv = crate::expression::named_views(named@);
    let dst = crate::stmt::handle_place(fn_cx, place);
    let ghost dstv = expr_view(dst);
    let r = Expression::Assignment {
        lhs: Box::new(dst),
        rhs: Box::new(
            Expression::NamedStruct {
                name: Box::new(Expression::Constant { value: union_def.get_name() }),
                fields: named,
            },
        ),
    };
    proof {
        reveal_with_fuel(crate::expression::expr_view, 3);
        assert(expr_view(r) == ExprV::Assignment(
            Box::new(dstv),
            Box::new(
                ExprV::NamedStruct { name: Box::new(ExprV::Constant(udefg.name)), fields: namedv },
            ),
        ));
    }
    r
}

/// Lowers a tagged-union aggregate: the truncated discriminant, then the
/// named union member around variant `k`'s positional literal, tag first.
#[verifier::rlimit(100)]
fn lower_tagged(
    fn_cx: &mut CodegenFunctionCx,
    info: crate::ty::CCompositeInfo,
    variant: usize,
    base_src_ty: usize,
    fields: &Vec<Operand>,
    place: &Place,
) -> (r: Expression)
    requires
        crate::function::cx_map_wf(*old(fn_cx)),
        (place.local as int) < old(fn_cx).mir.local_tys@.len(),
        base_src_ty == old(fn_cx).mir.local_tys@[place.local as int],
        tagged_union_literal(
            crate::ir::table_view(old(fn_cx).table),
            map_st_of(*old(fn_cx)),
            old(fn_cx).mir.local_tys@,
            old(fn_cx).allocs@,
            fields@,
            *place,
            info@,
            variant,
        ) is Some,
    ensures
        crate::function::cx_map_wf(*final(fn_cx)),
        crate::stmt::cx_preserved(*old(fn_cx), *final(fn_cx)),
        expr_view(r) == tagged_union_literal(
            crate::ir::table_view(old(fn_cx).table),
            map_st_of(*old(fn_cx)),
            old(fn_cx).mir.local_tys@,
            old(fn_cx).allocs@,
            fields@,
            *place,
            info@,
            variant,
        )->Some_0,
{
    let ghost tv = crate::ir::table_view(old(fn_cx).table);
    let ghost st = map_st_of(*old(fn_cx));
    reveal(tagged_union_literal);
    let ghost tdefg = st.structs[info@.ctx_idx]->TaggedUnion_0;
    let ghost uinfog = tdefg.union_var.ty->Union_0;
    let t_union = fn_cx.ongoing_codegen.context.get_composite(&info).as_tagged_union_def();
    proof {
        assert(crate::structure::taggedunion_view(t_union) == tdefg);
    }
    let uinfo = t_union.union_var.get_type().as_composite_info();
    proof {
        assert(crate::ty::ctype_view(t_union.union_var.ty) == tdefg.union_var.ty);
        assert(uinfo@ == uinfog);
    }
    let ghost udefg = struct_def_at(st, uinfog.ctx_idx)->Some_0;
    let union_def = fn_cx.ongoing_codegen.context.get_composite(&uinfo).as_struct_def();
    proof {
        assert(crate::structure::structdef_view(union_def) == udefg);
        crate::definition::lemma_vardef_views_index(union_def.fields@);
    }
    let vfield = union_def.get_field(variant);
    let ghost vinfog = udefg.fields[variant as int].ty->Struct_0;
    let vinfo = vfield.get_type().as_composite_info();
    proof {
        assert(crate::definition::vardef_view(vfield) == udefg.fields[variant as int]);
        assert(vinfo@ == vinfog);
    }
    let ghost vdefg = struct_def_at(st, vinfog.ctx_idx)->Some_0;
    let variant_struct = fn_cx.ongoing_codegen.context.get_composite(&vinfo).as_struct_def();
    proof {
        assert(crate::structure::structdef_view(variant_struct) == vdefg);
        crate::ir::lemma_src_types_view_index(fn_cx.table.kinds@);
    }
    let dval: u128;
    let dsize: usize;
    match &fn_cx.table.kinds[base_src_ty] {
        crate::ir::SrcType::EnumAdt { discr_vals, discr_size, .. } => {
            dval = discr_vals[variant];
            dsize = *discr_size;
        },
        _ => {
            proof {
                assert(false);
            }
            dval = 0;
            dsize = 0;
        },
    }
    let truncated = crate::utils::truncate_to_size(dval, dsize);
    let mut dtxt = String::new();
    crate::utils::push_dec_u128(&mut dtxt, truncated);
    proof {
        assert(dtxt@ =~= dec_text(truncated as nat));
        reveal_with_fuel(pow256, 17);
        if dsize < 16 {
            assert(pow256(dsize as nat) < 0x1_0000_0000_0000_0000_0000_0000_0000_0000);
        }
        assert(truncated as nat == truncated_discr(dval, dsize));
    }
    let es = crate::bb::lower_operands(fn_cx, fields, false);
    let inner = Expression::Struct {
        name: Box::new(Expression::Constant { value: variant_struct.get_name() }),
        fields: es,
    };
    let mut named: Vec<(String, Expression)> = Vec::new();
    named.push((vfield.get_name(), inner));
    let ghost innerv = crate::expression::expr_view(named@[0].1);
    proof {
        reveal_with_fuel(crate::expression::named_views, 2);
        reveal_with_fuel(crate::expression::expr_view, 2);
        assert(crate::expression::named_views(named@) =~= seq![
            (udefg.fields[variant as int].name, innerv),
        ]);
    }
    let mut outer: Vec<Expression> = Vec::new();
    outer.push(Expression::Constant { value: dtxt });
    outer.push(
        Expression::NamedStruct {
            name: Box::new(Expression::Constant { value: uinfo.name }),
            fields: named,
        },
    );
    let ghost o0 = crate::expression::expr_view(outer@[0]);
    let ghost o1 = crate::expression::expr_view(outer@[1]);
    proof {
        reveal_with_fuel(crate::expression::expr_views, 3);
        assert(crate::expression::expr_views(outer@) =~= seq![o0, o1]);
    }
    let dst = crate::stmt::handle_place(fn_cx, place);
    let r = Expression::Assignment {
        lhs: Box::new(dst),
        rhs: Box::new(
            Expression::Struct {
                name: Box::new(Expression::Constant { value: t_union.name.clone() }),
                fields: outer,
            },
        ),
    };
    proof {
        reveal_with_fuel(crate::expression::expr_view, 3);
        assert(expr_view(r) == tagged_union_literal(
            tv,
            st,
            old(fn_cx).mir.local_tys@,
            old(fn_cx).allocs@,
            fields@,
            *place,
            info@,
            variant,
        )->Some_0);
    }
    r
}

/// Lowers an aggregate assignment into the destination place. The
/// destination local's target type drives the shape; a recognized but
/// unimplemented shape is logged and replaced with an inert placeholder.
#[verifier::rlimit(100)]
pub fn handle_aggregate(
    fn_cx: &mut CodegenFunctionCx,
    kind: &AggKind,
    fields: &Vec<Operand>,
    place: &Place,
) -> (r: Expression)
    requires
        crate::function::cx_map_wf(*old(fn_cx)),
        aggregate_expr(
            crate::ir::table_view(old(fn_cx).table),
            map_st_of(*old(fn_cx)),
            old(fn_cx).mir.local_tys@,
            old(fn_cx).allocs@,
            *kind,
            fields@,
            *place,
        ) is Some,
    ensures
        crate::function::cx_map_wf(*final(fn_cx)),
        cx_preserved_but_diags(
            *old(fn_cx),
            *final(fn_cx),
            aggregate_diags(map_st_of(*old(fn_cx)), old(fn_cx).mir.local_tys@, *kind, *place),
        ),
        expr_view(r) == aggregate_expr(
            crate::ir::table_view(old(fn_cx).table),
            map_st_of(*old(fn_cx)),
            old(fn_cx).mir.local_tys@,
            old(fn_cx).allocs@,
            *kind,
            fields@,
            *place,
        )->Some_0,
{
    let ghost tv = crate::ir::table_view(old(fn_cx).table);
    let ghost st = map_st_of(*old(fn_cx));
    let ghost lts = old(fn_cx).mir.local_tys@;
    let ghost dd = aggregate_diags(st, lts, *kind, *place);
    reveal(aggregate_expr);
    reveal(tagged_union_literal);
    proof {
        crate::function::lemma_opt_ctype_views_index(fn_cx.ty_to_c@);
    }
    let base_src_ty = fn_cx.ty_for_local(place.local);
    let var_type = fn_cx.rust_to_c_type(base_src_ty);
    proof {
        assert(crate::ty::ctype_view(var_type) == dest_local_ctype(st, lts, *place)->Some_0);
    }
    let r = match kind {
        AggKind::Tuple => {
            match &var_type {
                crate::ty::CType::Struct(info) => lower_positional(
                    fn_cx,
                    info.name.clone(),
                    fields,
                    place,
                ),
                _ => {
                    let e = crate::stmt::handle_operand(fn_cx, &fields[0]);
                    let dst = crate::stmt::handle_place(fn_cx, place);
                    Expression::Assignment { lhs: Box::new(dst), rhs: Box::new(e) }
                },
            }
        },
        AggKind::Array => lower_array(fn_cx, fields, place.local),
        AggKind::Adt { variant, active_field } => {
            match &var_type {
                crate::ty::CType::Struct(info) => lower_positional(
                    fn_cx,
                    info.name.clone(),
                    fields,
                    place,
                ),
                crate::ty::CType::Union(info) => {
                    let af: usize = match active_field {
                        Some(a) => *a,
                        None => {
                            proof {
                                assert(false);
                            }
                            0
                        },
                    };
                    let info2 = crate::ty::CCompositeInfo {
                        name: info.name.clone(),
                        ctx_idx: info.ctx_idx,
                    };
                    lower_union(fn_cx, info2, af, fields, place)
                },
                crate::ty::CType::TaggedUnion(info) => {
                    let info2 = crate::ty::CCompositeInfo {
                        name: info.name.clone(),
                        ctx_idx: info.ctx_idx,
                    };
                    lower_tagged(fn_cx, info2, *variant, base_src_ty, fields, place)
                },
                _ => {
                    fn_cx.ongoing_codegen.context.push_diagnostic(
                        String::from_str("unhandled aggregate kind"),
                    );
                    Expression::NoOp
                },
            }
        },
        AggKind::Closure { upvars } => {
            let closure_arg_struct = fn_cx.rust_to_c_type(*upvars);
            match &closure_arg_struct {
                crate::ty::CType::Struct(info) => lower_positional(
                    fn_cx,
                    info.name.clone(),
                    fields,
                    place,
                ),
                _ => {
                    proof {
                        assert(false);
                    }
                    Expression::NoOp
                },
            }
        },
        AggKind::Other { what } => {
            let mut d = String::from_str("unhandled aggregate kind: ");
            d.append(crate::crepr::self_str(what));
            fn_cx.ongoing_codegen.context.push_diagnostic(d);
            Expression::NoOp
        },
    };
    proof {
        assert(map_st_of(*fn_cx).diags =~= st.diags + dd);
    }
    r
}

/// A prefix of a lowerable array aggregate is lowerable, and its last
/// component resolves.
pub proof fn lemma_arr_prefix(
    tv: Seq<SrcTypeV>,
    st: MapSt,
    local_tys: Seq<usize>,
    allocs: Seq<AllocData>,
    fields: Seq<Operand>,
    local: usize,
    n: int,
)
    requires
        arr_assigns(tv, st, local_tys, allocs, fields, local) is Some,
        0 <= n <= fields.len(),
    ensures
        arr_assigns(tv, st, local_tys, allocs, fields.subrange(0, n), local) is Some,
        n > 0 ==> operand_expr(tv, st, local_tys, allocs, fields[n - 1]) is Some,
    decreases fields.len() - n,
{
    if n < fields.len() {
        assert(fields.drop_last() =~= fields.subrange(0, fields.len() - 1));
        lemma_arr_prefix(tv, st, local_tys, allocs, fields.subrange(0, fields.len() - 1), local, n);
        assert(fields.subrange(0, fields.len() - 1).subrange(0, n) =~= fields.subrange(0, n));
        if n > 0 {
            assert(fields.subrange(0, fields.len() - 1)[n - 1] == fields[n - 1]);
        }
    } else {
        if n > 0 {
            assert(fields.subrange(0, n) =~= fields);
            assert(fields.last() == fields[n - 1]);
        } else {
            assert(fields.subrange(0, 0) =~= fields);
        }
    }
}

} // verus!
