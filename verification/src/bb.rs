//! Basic blocks: an identifier rendered as a jump label and an ordered
//! statement list ending in the statements a terminator lowered to.

use vstd::prelude::*;

use crate::crepr::RepresentationContext;
use crate::crepr::RepCtxV;
use crate::crepr::bump_indent;
use crate::crepr::ctx_view;
use crate::crepr::indent_text_v;
use crate::crepr::newline_text_v;
use crate::function::CFunction;
use crate::function::CFunctionV;
use crate::function::fn_view;
use crate::stmt::Statement;
use crate::stmt::StatementV;
use crate::stmt::stmt_text;
use crate::stmt::stmt_views;
use crate::stmt::stmts_wf;
use crate::utils::dec_text;
use crate::expression::AccessV;
use crate::expression::Expression;
use crate::expression::ExprV;
use crate::expression::VariableAccess;
use crate::expression::expr_view;
use crate::function::CodegenFunctionCx;
use crate::function::map_st_of;
use crate::ir::Operand;
use crate::ir::Terminator;
use crate::ir::SrcTypeV;
use crate::stmt::cx_preserved;
use crate::stmt::operand_expr;
use crate::stmt::operand_with_access_expr;
use crate::stmt::premapped;
use crate::ty::CTypeV;
use crate::ty::MapSt;

verus! {

/// The identifier of a basic block, rendered as its label.
pub struct BasicBlockIdentifier(pub usize);

/// The label text of a block id.
pub open spec fn bbid_text(id: usize) -> Seq<char> {
    "bb"@ + dec_text(id as nat)
}

impl BasicBlockIdentifier {
    /// Appends the label of this block.
    pub fn repr(&self, out: &mut String)
        ensures
            final(out)@ == old(out)@ + bbid_text(self.0),
    {
        out.append("bb");
        crate::utils::push_dec_usize(out, self.0);
        proof {
            assert(final(out)@ =~= old(out)@ + bbid_text(self.0));
        }
    }
}

/// A basic block.
pub struct BasicBlock {
    pub bb_id: BasicBlockIdentifier,
    pub statements: Vec<Statement>,
}

/// The view of a basic block.
pub struct BasicBlockV {
    pub bb_id: usize,
    pub statements: Seq<StatementV>,
}

/// The view of a basic block.
pub open spec fn bb_view(b: BasicBlock) -> BasicBlockV {
    BasicBlockV { bb_id: b.bb_id.0, statements: stmt_views(b.statements@) }
}

/// The views of a sequence of basic blocks.
pub open spec fn bb_views(s: Seq<BasicBlock>) -> Seq<BasicBlockV>
    decreases s,
{
    if s.len() == 0 {
        Seq::<BasicBlockV>::empty()
    } else {
        bb_views(s.drop_last()).push(bb_view(s.last()))
    }
}

/// Views of a block sequence are taken element by element.
pub proof fn lemma_bb_views_index(s: Seq<BasicBlock>)
    ensures
        bb_views(s).len() == s.len(),
        forall|i: int| 0 <= i < s.len() ==> bb_views(s)[i] == bb_view(#[trigger] s[i]),
    decreases s.len(),
{
    if s.len() > 0 {
        lemma_bb_views_index(s.drop_last());
        assert forall|i: int| 0 <= i < s.len() implies bb_views(s)[i] == bb_view(
            #[trigger] s[i],
        ) by {
            if i < s.len() - 1 {
                assert(s.drop_last()[i] == s[i]);
            }
        }
    }
}

impl BasicBlock {
    /// An empty block with the given id.
    pub fn new(bb_id: BasicBlockIdentifier) -> (r: Self)
        ensures
            bb_view(r) == (BasicBlockV { bb_id: bb_id.0, statements: Seq::<StatementV>::empty() }),
    {
        let r = Self { bb_id, statements: Vec::new() };
        proof {
            assert(stmt_views(r.statements@) =~= Seq::<StatementV>::empty());
        }
        r
    }

    /// Whether the block holds no statement.
    pub fn is_empty(&self) -> (r: bool)
        ensures
            r == (bb_view(*self).statements.len() == 0),
    {
        proof {
            crate::stmt::lemma_stmt_views_index(self.statements@);
        }
        self.statements.len() == 0
    }

    /// Appends one statement.
    pub fn push(&mut self, stmt: Statement)
        ensures
            bb_view(*final(self)) == (BasicBlockV {
                bb_id: old(self).bb_id.0,
                statements: bb_view(*old(self)).statements.push(crate::stmt::stmt_view(stmt)),
            }),
    {
        let ghost pre = self.statements@;
        self.statements.push(stmt);
        proof {
            assert(self.statements@.drop_last() =~= pre);
        }
    }

    /// Removes every statement.
    pub fn clear(&mut self)
        ensures
            bb_view(*final(self)) == (BasicBlockV {
                bb_id: old(self).bb_id.0,
                statements: Seq::<StatementV>::empty(),
            }),
    {
        self.statements.clear();
        proof {
            assert(stmt_views(self.statements@) =~= Seq::<StatementV>::empty());
        }
    }
}

/// The statements of a block, each rendered one indentation level deeper.
pub open spec fn bb_stmts_text(s: Seq<StatementV>, f: CFunctionV, ctx: RepCtxV) -> Seq<char>
    decreases s,
{
    if s.len() == 0 {
        Seq::<char>::empty()
    } else {
        bb_stmts_text(s.drop_last(), f, ctx) + stmt_text(s.last(), f, bump_indent(ctx))
    }
}

/// The text a basic block renders to: its label, then its statements one
/// level deeper, in braces.
pub open spec fn bb_text(b: BasicBlockV, f: CFunctionV, ctx: RepCtxV) -> Seq<char> {
    indent_text_v(ctx) + bbid_text(b.bb_id) + ": {"@ + newline_text_v(ctx) + bb_stmts_text(
        b.statements,
        f,
        ctx,
    ) + indent_text_v(ctx) + "}"@ + newline_text_v(ctx)
}

impl BasicBlock {
    /// Renders the block.
    pub fn repr(&self, out: &mut String, f: &CFunction, ctx: &RepresentationContext)
        requires
            stmts_wf(bb_view(*self).statements, fn_view(*f)),
        ensures
            final(out)@ == old(out)@ + bb_text(bb_view(*self), fn_view(*f), ctx_view(*ctx)),
    {
        let ghost fv = fn_view(*f);
        let ghost cv = ctx_view(*ctx);
        crate::crepr::indent(out, ctx);
        self.bb_id.repr(out);
        out.append(": {");
        crate::crepr::push_newline(out, ctx);
        let inner = crate::crepr::child_context(ctx);
        let ghost vstmts = stmt_views(self.statements@);
        proof {
            crate::stmt::lemma_stmt_views_index(self.statements@);
            assert(vstmts.subrange(0, 0) =~= Seq::<StatementV>::empty());
        }
        let ghost base = out@;
        let mut i: usize = 0;
        while i < self.statements.len()
            invariant
                i <= self.statements.len(),
                fv == fn_view(*f),
                cv == ctx_view(*ctx),
                ctx_view(inner) == bump_indent(cv),
                vstmts == stmt_views(self.statements@),
                vstmts.len() == self.statements@.len(),
                forall|k: int|
                    0 <= k < self.statements@.len() ==> vstmts[k] == crate::stmt::stmt_view(
                        #[trigger] self.statements@[k],
                    ),
                stmts_wf(vstmts, fv),
                out@ == base + bb_stmts_text(vstmts.subrange(0, i as int), fv, cv),
            decreases self.statements.len() - i,
        {
            self.statements[i].repr(out, f, &inner);
            i = i + 1;
            proof {
                let pre = vstmts.subrange(0, i as int);
                assert(pre.drop_last() =~= vstmts.subrange(0, i - 1));
                assert(pre.last() == vstmts[i - 1]);
                assert(out@ =~= base + bb_stmts_text(pre, fv, cv));
            }
        }
        proof {
            assert(vstmts.subrange(0, vstmts.len() as int) =~= vstmts);
        }
        crate::crepr::indent(out, ctx);
        out.append("}");
        crate::crepr::push_newline(out, ctx);
        proof {
            assert(out@ =~= old(out)@ + bb_text(bb_view(*self), fv, cv));
        }
    }
}

/// A function symbol made into a C identifier: dots and dollars become
/// underscores.
pub open spec fn fmt_fn_name_text(s: Seq<char>) -> Seq<char>
    decreases s.len(),
{
    if s.len() == 0 {
        Seq::<char>::empty()
    } else {
        (if s[0] == '.' || s[0] == '$' {
            "_"@
        } else {
            Seq::<char>::empty().push(s[0])
        }) + fmt_fn_name_text(s.skip(1))
    }
}

/// Formats a mangled function symbol as a C identifier.
pub fn format_fn_name(name: &str) -> (r: String)
    ensures
        r@ == fmt_fn_name_text(name@),
{
    let n = name.unicode_len();
    let mut out = String::new();
    let mut i: usize = 0;
    proof {
        assert(name@.skip(0) =~= name@);
    }
    while i < n
        invariant
            i <= n,
            n == name@.len(),
            fmt_fn_name_text(name@) == out@ + fmt_fn_name_text(name@.skip(i as int)),
        decreases n - i,
    {
        let c = name.get_char(i);
        let ghost rest = name@.skip(i as int);
        proof {
            assert(rest[0] == name@[i as int]);
            assert(rest.skip(1) =~= name@.skip(i + 1));
        }
        if c == '.' || c == '$' {
            out.append("_");
        } else {
            crate::utils::push_char(&mut out, c);
        }
        i = i + 1;
        proof {
            assert(fmt_fn_name_text(name@) =~= out@ + fmt_fn_name_text(name@.skip(i as int)));
        }
    }
    proof {
        assert(name@.skip(n as int) =~= Seq::<char>::empty());
        assert(out@ =~= fmt_fn_name_text(name@));
    }
    out
}

/// The lowered operand list of a call, in order.
pub open spec fn operands_exprs(
    tv: Seq<SrcTypeV>,
    st: MapSt,
    local_tys: Seq<usize>,
    allocs: Seq<crate::ir::AllocData>,
    args: Seq<Operand>,
) -> Option<Seq<ExprV>>
    decreases args,
{
    if args.len() == 0 {
        Option::Some(Seq::<ExprV>::empty())
    } else {
        match operands_exprs(tv, st, local_tys, allocs, args.drop_last()) {
            Option::Some(rest) => match operand_expr(tv, st, local_tys, allocs, args.last()) {
                Option::Some(e) => Option::Some(rest.push(e)),
                Option::None => Option::None,
            },
            Option::None => Option::None,
        }
    }
}

/// The access steps a dynamic dispatch pushes onto the handle to reach
/// the vtable slot: metadata field, pointer-array reinterpretation,
/// fixed declaration-order slot, exact function-pointer cast.
pub open spec fn vtable_access_steps(fn_ctype: CTypeV, fn_offset: usize) -> Seq<AccessV> {
    seq![
        AccessV::Field(crate::fatptr::fat_ptr_meta_field_text()),
        AccessV::Cast(CTypeV::Pointer(Box::new(CTypeV::Pointer(Box::new(CTypeV::Void))))),
        AccessV::Index(Box::new(ExprV::Constant(dec_text(fn_offset as nat)))),
        AccessV::Cast(fn_ctype),
    ]
}

/// The dynamic-dispatch call: the vtable slot is read from the fat
/// pointer's metadata, and `self` is rebound to its data field. Slot
/// order is declaration order; the target format carries no type-level
/// guarantee of it.
pub open spec fn dyn_call_expr(
    tv: Seq<SrcTypeV>,
    st: MapSt,
    local_tys: Seq<usize>,
    allocs: Seq<crate::ir::AllocData>,
    args: Seq<Operand>,
    fn_ctype: CTypeV,
    fn_offset: usize,
) -> Option<ExprV> {
    if args.len() == 0 {
        Option::None
    } else {
        match operand_expr(tv, st, local_tys, allocs, args[0]) {
            Option::Some(a0) => match operand_with_access_expr(
                a0,
                vtable_access_steps(fn_ctype, fn_offset),
            ) {
                Option::Some(vt) => match operand_with_access_expr(
                    a0,
                    seq![AccessV::Field(crate::fatptr::fat_ptr_data_field_text())],
                ) {
                    Option::Some(selfe) => match operands_exprs(
                        tv,
                        st,
                        local_tys,
                        allocs,
                        args.skip(1),
                    ) {
                        Option::Some(rest) => Option::Some(
                            ExprV::FnCall {
                                function: Box::new(vt),
                                args: seq![selfe] + rest,
                            },
                        ),
                        Option::None => Option::None,
                    },
                    Option::None => Option::None,
                },
                Option::None => Option::None,
            },
            Option::None => Option::None,
        }
    }
}

/// Lowers the argument operands of a call.
pub fn lower_operands(fn_cx: &mut CodegenFunctionCx, args: &Vec<Operand>, skip_first: bool) -> (r: Vec<
    Expression,
>)
    requires
        crate::function::cx_map_wf(*old(fn_cx)),
        operands_exprs(
            crate::ir::table_view(old(fn_cx).table),
            map_st_of(*old(fn_cx)),
            old(fn_cx).mir.local_tys@,
            old(fn_cx).allocs@,
            if skip_first {
                args@.skip(1)
            } else {
                args@
            },
        ) is Some,
        skip_first ==> args@.len() >= 1,
    ensures
        crate::function::cx_map_wf(*final(fn_cx)),
        cx_preserved(*old(fn_cx), *final(fn_cx)),
        crate::expression::expr_views(r@) == operands_exprs(
            crate::ir::table_view(old(fn_cx).table),
            map_st_of(*old(fn_cx)),
            old(fn_cx).mir.local_tys@,
            old(fn_cx).allocs@,
            if skip_first {
                args@.skip(1)
            } else {
                args@
            },
        )->Some_0,
{
    let ghost tv = crate::ir::table_view(old(fn_cx).table);
    let ghost st = map_st_of(*old(fn_cx));
    let ghost lts = old(fn_cx).mir.local_tys@;
    let ghost als = old(fn_cx).allocs@;
    let ghost whole: Seq<Operand> = if skip_first {
        args@.skip(1)
    } else {
        args@
    };
    let mut r: Vec<Expression> = Vec::new();
    let mut i: usize = if skip_first {
        1
    } else {
        0
    };
    let ghost off: int = if skip_first {
        1
    } else {
        0
    };
    proof {
        assert(whole.subrange(0, 0) =~= Seq::<Operand>::empty());
        assert(crate::expression::expr_views(r@) =~= Seq::<ExprV>::empty());
    }
    while i < args.len()
        invariant
            crate::function::cx_map_wf(*fn_cx),
            cx_preserved(*old(fn_cx), *fn_cx),
            tv == crate::ir::table_view(fn_cx.table),
            st == map_st_of(*fn_cx),
            lts == fn_cx.mir.local_tys@,
            als == fn_cx.allocs@,
            off <= i <= args@.len(),
            whole == if off == 1 {
                args@.skip(1)
            } else {
                args@
            },
            whole.len() == args@.len() - off,
            operands_exprs(tv, st, lts, als, whole) is Some,
            crate::expression::expr_views(r@) == operands_exprs(
                tv,
                st,
                lts,
                als,
                whole.subrange(0, i - off),
            )->Some_0,
            operands_exprs(tv, st, lts, als, whole.subrange(0, i - off)) is Some,
        decreases args@.len() - i,
    {
        proof {
            lemma_operands_prefix(tv, st, lts, als, whole, i - off + 1);
            assert(whole[i - off] == args@[i as int]);
        }
        let e = crate::stmt::handle_operand(fn_cx, &args[i]);
        let ghost pre = r@;
        r.push(e);
        i = i + 1;
        proof {
            assert(r@.drop_last() =~= pre);
            let prefv = whole.subrange(0, i - off);
            assert(prefv.drop_last() =~= whole.subrange(0, i - 1 - off));
            assert(prefv.last() == whole[i - 1 - off]);
            assert(crate::expression::expr_views(r@) =~= operands_exprs(
                tv,
                st,
                lts,
                als,
                prefv,
            )->Some_0);
        }
    }
    proof {
        assert(whole.subrange(0, whole.len() as int) =~= whole);
    }
    r
}

/// A prefix of a lowerable operand list is lowerable, and each operand
/// of it resolves.
pub proof fn lemma_operands_prefix(
    tv: Seq<SrcTypeV>,
    st: MapSt,
    local_tys: Seq<usize>,
    allocs: Seq<crate::ir::AllocData>,
    args: Seq<Operand>,
    n: int,
)
    requires
        operands_exprs(tv, st, local_tys, allocs, args) is Some,
        0 <= n <= args.len(),
    ensures
        operands_exprs(tv, st, local_tys, allocs, args.subrange(0, n)) is Some,
        n > 0 ==> operand_expr(tv, st, local_tys, allocs, args[n - 1]) is Some,
    decreases args.len() - n,
{
    if n < args.len() {
        assert(args.drop_last() =~= args.subrange(0, args.len() - 1));
        lemma_operands_prefix(tv, st, local_tys, allocs, args.subrange(0, args.len() - 1), n);
        assert(args.subrange(0, args.len() - 1).subrange(0, n) =~= args.subrange(0, n));
        if n > 0 {
            assert(args.subrange(0, args.len() - 1)[n - 1] == args[n - 1]);
        }
    } else {
        if n > 0 {
            assert(args.subrange(0, n) =~= args);
            assert(args.last() == args[n - 1]);
        } else {
            assert(args.subrange(0, 0) =~= args);
        }
    }
}

/// Every id of the list is already mapped.
pub open spec fn all_premapped(st: MapSt, ids: Seq<usize>) -> bool {
    forall|k: int| 0 <= k < ids.len() ==> premapped(st, #[trigger] ids[k])
}

/// Mapping a list of already-mapped ids changes nothing.
pub proof fn lemma_map_ids_pure(
    tv: Seq<SrcTypeV>,
    ids: Seq<usize>,
    i: int,
    st: MapSt,
    bound: int,
)
    requires
        crate::ir::table_wf(tv),
        0 <= bound <= tv.len(),
        crate::ir::ids_below(ids, bound),
        0 <= i,
        all_premapped(st, ids),
        st.memo.len() == tv.len(),
    ensures
        crate::ty::map_ids(tv, ids, i, st, bound).1 == st,
    decreases ids.len() - i,
{
    if i < ids.len() {
        assert(premapped(st, ids[i]));
        assert(crate::ty::map_ty(tv, ids[i] as int, st).1 == st);
        lemma_map_ids_pure(tv, ids, i + 1, st, bound);
    }
}

/// The erased function-pointer type of an already-mapped signature.
pub open spec fn sig_fn_ctype(tv: Seq<SrcTypeV>, st: MapSt, arg_tys: Seq<usize>, ret: usize) -> CTypeV {
    crate::ty::map_fn_sig(tv, arg_tys, ret, true, st).0
}

/// The call assignment a call terminator lowers to.
pub open spec fn call_stmt_expr(
    tv: Seq<SrcTypeV>,
    st: MapSt,
    local_tys: Seq<usize>,
    allocs: Seq<crate::ir::AllocData>,
    target_fn: crate::ir::CallTarget,
    args: Seq<Operand>,
    dest: crate::ir::Place,
) -> Option<ExprV> {
    match crate::stmt::resolve_place(tv, st, local_tys, crate::ir::place_view(dest)) {
        Option::Some(rp) => {
            let destv = ExprV::Variable { local: dest.local, access: rp.0 };
            match target_fn {
                crate::ir::CallTarget::Direct { symbol } => match operands_exprs(
                    tv,
                    st,
                    local_tys,
                    allocs,
                    args,
                ) {
                    Option::Some(es) => Option::Some(
                        ExprV::Assignment(
                            Box::new(destv),
                            Box::new(
                                ExprV::FnCall {
                                    function: Box::new(
                                        ExprV::Constant(fmt_fn_name_text(symbol@)),
                                    ),
                                    args: es,
                                },
                            ),
                        ),
                    ),
                    Option::None => Option::None,
                },
                crate::ir::CallTarget::Virtual { fn_offset, arg_tys, ret_ty } => {
                    if all_premapped(st, arg_tys@) && premapped(st, ret_ty)
                        && crate::ir::ids_below(arg_tys@, tv.len() as int) && (ret_ty as int)
                        < tv.len() {
                        match dyn_call_expr(
                            tv,
                            st,
                            local_tys,
                            allocs,
                            args,
                            sig_fn_ctype(tv, st, arg_tys@, ret_ty),
                            fn_offset,
                        ) {
                            Option::Some(c) => Option::Some(
                                ExprV::Assignment(Box::new(destv), Box::new(c)),
                            ),
                            Option::None => Option::None,
                        }
                    } else {
                        Option::None
                    }
                },
            }
        },
        Option::None => Option::None,
    }
}

/// Builds the vtable access steps.
fn build_vtable_steps(fn_type: crate::ty::CType, fn_offset: usize) -> (r: Vec<VariableAccess>)
    ensures
        crate::expression::access_views(r@) == vtable_access_steps(
            crate::ty::ctype_view(fn_type),
            fn_offset,
        ),
{
    let mut steps: Vec<VariableAccess> = Vec::new();
    steps.push(
        VariableAccess::Field { name: String::from_str(crate::fatptr::fat_ptr_meta_field()) },
    );
    steps.push(
        VariableAccess::Cast {
            ty: crate::ty::CType::Pointer(
                Box::new(crate::ty::CType::Pointer(Box::new(crate::ty::CType::Void))),
            ),
        },
    );
    steps.push(VariableAccess::Index { expression: Expression::const_int(fn_offset) });
    steps.push(VariableAccess::Cast { ty: fn_type });
    proof {
        reveal_with_fuel(crate::expression::access_views, 6);
        reveal_with_fuel(crate::expression::expr_view, 3);
        reveal_with_fuel(crate::ty::ctype_view, 4);
        assert(crate::expression::access_views(steps@) =~= vtable_access_steps(
            crate::ty::ctype_view(fn_type),
            fn_offset,
        ));
    }
    steps
}

/// Builds the data-field rebinding step.
fn build_data_step() -> (r: Vec<VariableAccess>)
    ensures
        crate::expression::access_views(r@) == seq![
            AccessV::Field(crate::fatptr::fat_ptr_data_field_text()),
        ],
{
    let mut dsteps: Vec<VariableAccess> = Vec::new();
    dsteps.push(
        VariableAccess::Field { name: String::from_str(crate::fatptr::fat_ptr_data_field()) },
    );
    proof {
        reveal_with_fuel(crate::expression::access_views, 3);
        assert(crate::expression::access_views(dsteps@) =~= seq![
            AccessV::Field(crate::fatptr::fat_ptr_data_field_text()),
        ]);
    }
    dsteps
}

/// Lowers a dynamic-dispatch call.
#[verifier::rlimit(100)]
pub fn handle_dynamic_dispatch(
    fn_cx: &mut CodegenFunctionCx,
    args: &Vec<Operand>,
    fn_type: crate::ty::CType,
    fn_offset: usize,
) -> (r: Expression)
    requires
        crate::function::cx_map_wf(*old(fn_cx)),
        dyn_call_expr(
            crate::ir::table_view(old(fn_cx).table),
            map_st_of(*old(fn_cx)),
            old(fn_cx).mir.local_tys@,
            old(fn_cx).allocs@,
            args@,
            crate::ty::ctype_view(fn_type),
            fn_offset,
        ) is Some,
    ensures
        crate::function::cx_map_wf(*final(fn_cx)),
        cx_preserved(*old(fn_cx), *final(fn_cx)),
        expr_view(r) == dyn_call_expr(
            crate::ir::table_view(old(fn_cx).table),
            map_st_of(*old(fn_cx)),
            old(fn_cx).mir.local_tys@,
            old(fn_cx).allocs@,
            args@,
            crate::ty::ctype_view(fn_type),
            fn_offset,
        )->Some_0,
{
    let ghost tv = crate::ir::table_view(old(fn_cx).table);
    let ghost st = map_st_of(*old(fn_cx));
    let steps = build_vtable_steps(fn_type, fn_offset);
    let vtable_access = crate::stmt::handle_operand_with_access(fn_cx, &args[0], steps);
    let dsteps = build_data_step();
    let self_access = crate::stmt::handle_operand_with_access(fn_cx, &args[0], dsteps);
    let ghost selfv = expr_view(self_access);
    let rest = lower_operands(fn_cx, args, true);
    let ghost restv = crate::expression::expr_views(rest@);
    let mut fn_args: Vec<Expression> = Vec::new();
    let ghost sa0 = self_access;
    fn_args.push(self_access);
    let mut rest_m = rest;
    let ghost rest0 = rest_m@;
    fn_args.append(&mut rest_m);
    proof {
        crate::expression::lemma_expr_views_index(fn_args@);
        crate::expression::lemma_expr_views_index(rest0);
        assert(fn_args@ =~= seq![sa0] + rest0);
        assert forall|k: int| 0 <= k < fn_args@.len() implies crate::expression::expr_views(
            fn_args@,
        )[k] == (seq![selfv] + restv)[k] by {
            if k > 0 {
                assert(fn_args@[k] == rest0[k - 1]);
                assert(crate::expression::expr_views(rest0)[k - 1] == crate::expression::expr_view(
                    rest0[k - 1],
                ));
            } else {
                assert(fn_args@[0] == sa0);
            }
        }
        assert(crate::expression::expr_views(fn_args@) =~= seq![selfv] + restv);
    }
    Expression::FnCall { function: Box::new(vtable_access), args: fn_args }
}

/// Lowers a call terminator into its assignment statement.
#[verifier::rlimit(100)]
pub fn handle_function_call(
    fn_cx: &mut CodegenFunctionCx,
    target_fn: &crate::ir::CallTarget,
    args: &Vec<Operand>,
    destination: &crate::ir::Place,
) -> (r: Statement)
    requires
        crate::function::cx_map_wf(*old(fn_cx)),
        call_stmt_expr(
            crate::ir::table_view(old(fn_cx).table),
            map_st_of(*old(fn_cx)),
            old(fn_cx).mir.local_tys@,
            old(fn_cx).allocs@,
            *target_fn,
            args@,
            *destination,
        ) is Some,
    ensures
        crate::function::cx_map_wf(*final(fn_cx)),
        cx_preserved(*old(fn_cx), *final(fn_cx)),
        crate::stmt::stmt_view(r) == (StatementV {
            expression: Option::Some(
                call_stmt_expr(
                    crate::ir::table_view(old(fn_cx).table),
                    map_st_of(*old(fn_cx)),
                    old(fn_cx).mir.local_tys@,
                    old(fn_cx).allocs@,
                    *target_fn,
                    args@,
                    *destination,
                )->Some_0,
            ),
            comment: Option::None,
        }),
{
    let ghost tv = crate::ir::table_view(old(fn_cx).table);
    let ghost st = map_st_of(*old(fn_cx));
    let dest = crate::stmt::handle_place(fn_cx, destination);
    let fn_call = match target_fn {
        crate::ir::CallTarget::Direct { symbol } => {
            let es = lower_operands(fn_cx, args, false);
            Expression::FnCall {
                function: Box::new(
                    Expression::Constant { value: format_fn_name(crate::crepr::self_str(symbol)) },
                ),
                args: es,
            }
        },
        crate::ir::CallTarget::Virtual { fn_offset, arg_tys, ret_ty } => {
            proof {
                crate::function::lemma_opt_ctype_views_index(fn_cx.ty_to_c@);
                lemma_map_ids_pure(tv, arg_tys@, 0, st, tv.len() as int);
            }
            let fn_ctype = fn_cx.erased_fn_pointer_type(arg_tys, *ret_ty);
            handle_dynamic_dispatch(fn_cx, args, fn_ctype, *fn_offset)
        },
    };
    let r = Statement::from_expression(
        Expression::Assignment { lhs: Box::new(dest), rhs: Box::new(fn_call) },
    );
    proof {
        reveal_with_fuel(crate::expression::expr_view, 3);
    }
    r
}

/// A comment-only statement in view form.
pub open spec fn cmt(c: Seq<char>) -> StatementV {
    StatementV { expression: Option::None, comment: Option::Some(c) }
}

/// An expression-only statement in view form.
pub open spec fn sve(e: ExprV) -> StatementV {
    StatementV { expression: Option::Some(e), comment: Option::None }
}

/// Whether an inline fragment is blank and therefore dropped.
pub open spec fn is_blank(s: Seq<char>) -> bool {
    forall|i: int|
        0 <= i < s.len() ==> (#[trigger] s[i]) == ' ' || s[i] == '\t' || s[i] == '\n' || s[i]
            == '\r'
}

/// The re-emitted fragments of an inline instruction block.
pub open spec fn asm_stmts(pieces: Seq<Seq<char>>) -> Seq<StatementV>
    decreases pieces,
{
    if pieces.len() == 0 {
        Seq::<StatementV>::empty()
    } else {
        asm_stmts(pieces.drop_last()) + (if is_blank(pieces.last()) {
            Seq::<StatementV>::empty()
        } else {
            seq![sve(ExprV::InlineAsm(pieces.last()))]
        })
    }
}

/// The switch cases of a multi-way branch, one per target.
pub open spec fn switch_cases(targets: Seq<(u128, usize)>) -> Seq<(ExprV, usize)>
    decreases targets,
{
    if targets.len() == 0 {
        Seq::<(ExprV, usize)>::empty()
    } else {
        switch_cases(targets.drop_last()).push(
            (ExprV::Constant(dec_text(targets.last().0 as nat)), targets.last().1),
        )
    }
}

/// The statements a terminator lowers to. A direct call is followed by
/// an explicit goto to its continuation; return always reads slot 0;
/// bookkeeping edges collapse to a single goto; unreachable lowers to a
/// comment only; an assertion becomes a runtime check call, negated
/// where failure is expected, then a goto.
pub open spec fn term_stmts(
    tv: Seq<SrcTypeV>,
    st: MapSt,
    local_tys: Seq<usize>,
    allocs: Seq<crate::ir::AllocData>,
    t: Terminator,
) -> Option<Seq<StatementV>> {
    match t {
        Terminator::Call { target_fn, args, destination, target } => {
            match call_stmt_expr(tv, st, local_tys, allocs, target_fn, args@, destination) {
                Option::Some(c) => match target {
                    Option::Some(tgt) => Option::Some(
                        seq![sve(c), sve(ExprV::Goto(tgt))],
                    ),
                    Option::None => Option::Some(seq![sve(c)]),
                },
                Option::None => Option::None,
            }
        },
        Terminator::Return => Option::Some(
            seq![
                sve(
                    ExprV::Return(
                        Box::new(
                            ExprV::Variable { local: 0, access: Seq::<AccessV>::empty() },
                        ),
                    ),
                ),
            ],
        ),
        Terminator::SwitchInt { discr, targets, otherwise } => {
            match operand_expr(tv, st, local_tys, allocs, discr) {
                Option::Some(d) => Option::Some(
                    seq![
                        sve(
                            ExprV::SwitchJump {
                                value: Box::new(d),
                                cases: switch_cases(targets@),
                                default: otherwise,
                            },
                        ),
                    ],
                ),
                Option::None => Option::None,
            }
        },
        Terminator::Unreachable => Option::Some(seq![cmt("Unreachable"@)]),
        Terminator::FalseEdge { real_target } => Option::Some(
            seq![sve(ExprV::Goto(real_target))],
        ),
        Terminator::FalseUnwind { real_target } => Option::Some(
            seq![sve(ExprV::Goto(real_target))],
        ),
        Terminator::Assert { cond, expected, target } => {
            match operand_expr(tv, st, local_tys, allocs, cond) {
                Option::Some(c) => {
                    let checked = if expected {
                        c
                    } else {
                        ExprV::UnaryOp(crate::expression::UnaryOpType::Not, Box::new(c))
                    };
                    Option::Some(
                        seq![
                            sve(
                                ExprV::FnCall {
                                    function: Box::new(ExprV::Constant("assert"@)),
                                    args: seq![checked],
                                },
                            ),
                            StatementV {
                                expression: Option::Some(ExprV::Goto(target)),
                                comment: Option::Some("Assert"@),
                            },
                        ],
                    )
                },
                Option::None => Option::None,
            }
        },
        Terminator::Goto { target } => Option::Some(seq![sve(ExprV::Goto(target))]),
        Terminator::InlineAsm { pieces } => Option::Some(
            asm_stmts(crate::ir::strings_view(pieces@)),
        ),
        Terminator::Other { what } => Option::Some(
            seq![cmt("Unimplemented terminator: "@ + what@)],
        ),
    }
}

/// Builds the case list of a multi-way branch.
fn build_switch_cases(targets: &Vec<(u128, usize)>) -> (r: Vec<(Expression, usize)>)
    ensures
        crate::expression::case_views(r@) == switch_cases(targets@),
{
    let ghost tgs = targets@;
    let mut cases: Vec<(Expression, usize)> = Vec::new();
    let mut i: usize = 0;
    proof {
        assert(crate::expression::case_views(cases@) =~= switch_cases(tgs.subrange(0, 0)));
    }
    while i < targets.len()
        invariant
            i <= tgs.len(),
            tgs == targets@,
            crate::expression::case_views(cases@) == switch_cases(tgs.subrange(0, i as int)),
        decreases tgs.len() - i,
    {
        let mut txt = String::new();
        crate::utils::push_dec_u128(&mut txt, targets[i].0);
        proof {
            assert(txt@ =~= dec_text(targets@[i as int].0 as nat));
        }
        let ghost pre = cases@;
        cases.push((Expression::Constant { value: txt }, targets[i].1));
        i = i + 1;
        proof {
            reveal_with_fuel(crate::expression::expr_view, 2);
            assert(cases@.drop_last() =~= pre);
            let pref = tgs.subrange(0, i as int);
            assert(pref.drop_last() =~= tgs.subrange(0, i - 1));
            assert(pref.last() == tgs[i - 1]);
            let tup = cases@.last();
            assert(crate::expression::expr_view(tup.0) == ExprV::Constant(
                dec_text(tgs[i - 1].0 as nat),
            ));
            assert(tup.1 == tgs[i - 1].1);
            assert(crate::expression::case_views(cases@) == crate::expression::case_views(
                cases@.drop_last(),
            ).push((crate::expression::expr_view(tup.0), tup.1)));
            assert(crate::expression::case_views(cases@) =~= switch_cases(pref));
        }
    }
    proof {
        assert(tgs.subrange(0, tgs.len() as int) =~= tgs);
    }
    cases
}

/// Re-emits the non-blank fragments of an inline instruction block.
fn lower_asm(pieces: &Vec<String>) -> (r: Vec<Statement>)
    ensures
        stmt_views(r@) == asm_stmts(crate::ir::strings_view(pieces@)),
{
    let ghost pcs = crate::ir::strings_view(pieces@);
    let mut out: Vec<Statement> = Vec::new();
    proof {
        crate::ir::lemma_strings_view_index(pieces@);
        assert(stmt_views(out@) =~= asm_stmts(pcs.subrange(0, 0)));
    }
    let mut i: usize = 0;
    while i < pieces.len()
        invariant
            i <= pieces@.len(),
            pcs == crate::ir::strings_view(pieces@),
            pcs.len() == pieces@.len(),
            forall|k: int| 0 <= k < pieces@.len() ==> pcs[k] == (#[trigger] pieces@[k])@,
            stmt_views(out@) == asm_stmts(pcs.subrange(0, i as int)),
        decreases pieces@.len() - i,
    {
        let ghost pre = out@;
        if !piece_is_blank(&pieces[i]) {
            out.push(
                Statement::from_expression(Expression::InlineAsm { text: pieces[i].clone() }),
            );
            proof {
                assert(out@.drop_last() =~= pre);
            }
        }
        i = i + 1;
        proof {
            reveal_with_fuel(crate::expression::expr_view, 2);
            let pref = pcs.subrange(0, i as int);
            assert(pref.drop_last() =~= pcs.subrange(0, i - 1));
            assert(pref.last() == pcs[i - 1]);
            assert(stmt_views(out@) =~= asm_stmts(pref));
        }
    }
    proof {
        assert(pcs.subrange(0, pcs.len() as int) =~= pcs);
    }
    out
}

/// Whether a fragment is blank.
fn piece_is_blank(s: &String) -> (r: bool)
    ensures
        r == is_blank(s@),
{
    let n = crate::crepr::self_str(s).unicode_len();
    let mut i: usize = 0;
    while i < n
        invariant
            i <= n,
            n == s@.len(),
            forall|k: int|
                0 <= k < i ==> (#[trigger] s@[k]) == ' ' || s@[k] == '\t' || s@[k] == '\n'
                    || s@[k] == '\r',
        decreases n - i,
    {
        let c = crate::crepr::self_str(s).get_char(i);
        if !(c == ' ' || c == '\t' || c == '\n' || c == '\r') {
            return false;
        }
        i = i + 1;
    }
    true
}

/// Lowers one terminator into its statement sequence.
#[verifier::rlimit(100)]
pub fn handle_terminator(fn_cx: &mut CodegenFunctionCx, terminator: &Terminator) -> (r: Vec<
    Statement,
>)
    requires
        crate::function::cx_map_wf(*old(fn_cx)),
        term_stmts(
            crate::ir::table_view(old(fn_cx).table),
            map_st_of(*old(fn_cx)),
            old(fn_cx).mir.local_tys@,
            old(fn_cx).allocs@,
            *terminator,
        ) is Some,
    ensures
        crate::function::cx_map_wf(*final(fn_cx)),
        cx_preserved(*old(fn_cx), *final(fn_cx)),
        stmt_views(r@) == term_stmts(
            crate::ir::table_view(old(fn_cx).table),
            map_st_of(*old(fn_cx)),
            old(fn_cx).mir.local_tys@,
            old(fn_cx).allocs@,
            *terminator,
        )->Some_0,
{
    let ghost tv = crate::ir::table_view(old(fn_cx).table);
    let ghost st = map_st_of(*old(fn_cx));
    let ghost lts = old(fn_cx).mir.local_tys@;
    let ghost als = old(fn_cx).allocs@;
    let ghost expect = term_stmts(tv, st, lts, als, *terminator)->Some_0;
    let mut out: Vec<Statement> = Vec::new();
    match terminator {
        Terminator::Call { target_fn, args, destination, target } => {
            let call_stmt = handle_function_call(fn_cx, target_fn, args, destination);
            out.push(call_stmt);
            match target {
                Some(tgt) => {
                    out.push(Statement::from_expression(Expression::Goto { target: *tgt }));
                },
                None => {},
            }
            proof {
                reveal_with_fuel(stmt_views, 3);
                assert(stmt_views(out@) =~= expect);
            }
        },
        Terminator::Return => {
            out.push(
                Statement::from_expression(Expression::Return { value: Expression::vari(0) }),
            );
            proof {
                reveal_with_fuel(stmt_views, 2);
                reveal_with_fuel(crate::expression::expr_view, 2);
                assert(stmt_views(out@) =~= expect);
            }
        },
        Terminator::SwitchInt { discr, targets, otherwise } => {
            let d = crate::stmt::handle_operand(fn_cx, discr);
            let cases = build_switch_cases(targets);
            out.push(
                Statement::from_expression(
                    Expression::SwitchJump { value: Box::new(d), cases, default: *otherwise },
                ),
            );
            proof {
                reveal_with_fuel(stmt_views, 2);
                assert(stmt_views(out@) =~= expect);
            }
        },
        Terminator::Unreachable => {
            out.push(Statement::from_comment(String::from_str("Unreachable")));
            proof {
                reveal_with_fuel(stmt_views, 2);
                assert(stmt_views(out@) =~= expect);
            }
        },
        Terminator::FalseEdge { real_target } => {
            out.push(Statement::from_expression(Expression::Goto { target: *real_target }));
            proof {
                reveal_with_fuel(stmt_views, 2);
                assert(stmt_views(out@) =~= expect);
            }
        },
        Terminator::FalseUnwind { real_target } => {
            out.push(Statement::from_expression(Expression::Goto { target: *real_target }));
            proof {
                reveal_with_fuel(stmt_views, 2);
                assert(stmt_views(out@) =~= expect);
            }
        },
        Terminator::Assert { cond, expected, target } => {
            let c = crate::stmt::handle_operand(fn_cx, cond);
            let checked = if *expected {
                c
            } else {
                Expression::UnaryOp {
                    op: crate::expression::UnaryOpType::Not,
                    val: Box::new(c),
                }
            };
            let ghost cv = expr_view(checked);
            let mut args1: Vec<Expression> = Vec::new();
            args1.push(checked);
            proof {
                reveal_with_fuel(crate::expression::expr_views, 3);
                assert(crate::expression::expr_views(args1@) =~= seq![cv]);
            }
            out.push(
                Statement::from_expression(
                    Expression::FnCall {
                        function: Box::new(Expression::constant_str("assert")),
                        args: args1,
                    },
                ),
            );
            out.push(
                Statement::new(
                    Expression::Goto { target: *target },
                    String::from_str("Assert"),
                ),
            );
            proof {
                reveal_with_fuel(stmt_views, 3);
                assert(stmt_views(out@) =~= expect);
            }
        },
        Terminator::Goto { target } => {
            out.push(Statement::from_expression(Expression::Goto { target: *target }));
            proof {
                reveal_with_fuel(stmt_views, 2);
                assert(stmt_views(out@) =~= expect);
            }
        },
        Terminator::InlineAsm { pieces } => {
            let mut stmts = lower_asm(pieces);
            let ghost s0 = stmts@;
            out.append(&mut stmts);
            proof {
                assert(out@ =~= s0);
                assert(stmt_views(out@) =~= expect);
            }
        },
        Terminator::Other { what } => {
            let mut txt = String::from_str("Unimplemented terminator: ");
            txt.append(crate::crepr::self_str(what));
            out.push(Statement::from_comment(txt));
            proof {
                reveal_with_fuel(stmt_views, 2);
                assert(stmt_views(out@) =~= expect);
            }
        },
    }
    out
}

} // verus!
