//! Preprocessor-style defines and the checked-arithmetic synthesizer:
//! overflow-checked add, sub and mul helpers, created once per
//! (operation, type) pair and satisfied from the registry afterwards.

use vstd::prelude::*;

use crate::bb::BasicBlock;
use crate::bb::BasicBlockIdentifier;
use crate::bb::BasicBlockV;
use crate::definition::CVarDecl;
use crate::definition::CVarDef;
use crate::definition::VarDeclV;
use crate::definition::VarDefV;
use crate::expression::BinOpType;
use crate::expression::Expression;
use crate::expression::ExprV;
use crate::expression::binop_name_text;
use crate::expression::expr_view;
use crate::function::CFunction;
use crate::function::CFunctionV;
use crate::function::fn_view;
use crate::stmt::Statement;
use crate::stmt::StatementV;
use crate::ty::CType;
use crate::ty::CTypeV;
use crate::ty::ctype_view;
use crate::utils::dec_text;

verus! {

/// A bare local in view form.
pub open spec fn vref(i: usize) -> ExprV {
    ExprV::Variable { local: i, access: Seq::<crate::expression::AccessV>::empty() }
}

/// A binary operation in view form.
pub open spec fn bop(op: BinOpType, l: ExprV, r: ExprV) -> ExprV {
    ExprV::BinaryOp(op, Box::new(l), Box::new(r))
}

/// A constant in view form.
pub open spec fn cst(s: Seq<char>) -> ExprV {
    ExprV::Constant(s)
}

/// An expression-only statement in view form.
pub open spec fn sv(e: ExprV) -> StatementV {
    StatementV { expression: Option::Some(e), comment: Option::None }
}

/// One define line of the generated header.
pub struct CDefine {
    pub name: String,
    pub value: String,
}

/// The view of a define.
pub struct DefineV {
    pub name: Seq<char>,
    pub value: Seq<char>,
}

/// The view of a define.
pub open spec fn define_view(d: CDefine) -> DefineV {
    DefineV { name: d.name@, value: d.value@ }
}

/// The views of a define list.
pub open spec fn define_views(s: Seq<CDefine>) -> Seq<DefineV>
    decreases s,
{
    if s.len() == 0 {
        Seq::<DefineV>::empty()
    } else {
        define_views(s.drop_last()).push(define_view(s.last()))
    }
}

/// Views of a define list are taken element by element.
pub proof fn lemma_define_views_index(s: Seq<CDefine>)
    ensures
        define_views(s).len() == s.len(),
        forall|i: int| 0 <= i < s.len() ==> define_views(s)[i] == define_view(#[trigger] s[i]),
    decreases s.len(),
{
    if s.len() > 0 {
        lemma_define_views_index(s.drop_last());
        assert forall|i: int| 0 <= i < s.len() implies define_views(s)[i] == define_view(
            #[trigger] s[i],
        ) by {
            if i < s.len() - 1 {
                assert(s.drop_last()[i] == s[i]);
            }
        }
    }
}

/// The text a define renders to.
pub open spec fn define_text(d: DefineV) -> Seq<char> {
    "#define "@ + d.name + " "@ + d.value
}

impl CDefine {
    pub fn new(name: String, value: String) -> (r: Self)
        ensures
            define_view(r) == (DefineV { name: name@, value: value@ }),
    {
        Self { name, value }
    }

    pub fn get_name(&self) -> (r: String)
        ensures
            r@ == self.name@,
    {
        self.name.clone()
    }

    /// Renders the define line.
    pub fn repr(&self, out: &mut String)
        ensures
            final(out)@ == old(out)@ + define_text(define_view(*self)),
    {
        out.append("#define ");
        out.append(crate::crepr::self_str(&self.name));
        out.append(" ");
        out.append(crate::crepr::self_str(&self.value));
        proof {
            assert(out@ =~= old(out)@ + define_text(define_view(*self)));
        }
    }
}

/// The synthesized signed-add overflow predicate holds exactly when the
/// mathematical sum leaves the representable range.
pub proof fn lemma_signed_add_overflow(a: int, b: int, min: int, max: int)
    requires
        min == -max - 1,
        min <= a <= max,
        min <= b <= max,
    ensures
        ((b > 0 && a > max - b) || (b < 0 && a < min - b)) <==> !(min <= a + b <= max),
{
}

/// The synthesized signed-sub overflow predicate holds exactly when the
/// mathematical difference leaves the representable range.
pub proof fn lemma_signed_sub_overflow(a: int, b: int, min: int, max: int)
    requires
        min == -max - 1,
        min <= a <= max,
        min <= b <= max,
    ensures
        ((b > 0 && a < min + b) || (b < 0 && a > max + b)) <==> !(min <= a - b <= max),
{
}

/// The synthesized unsigned-add check (the wrapped sum comes out below
/// the first operand) holds exactly when the mathematical sum wraps.
pub proof fn lemma_unsigned_add_overflow(a: int, b: int, m: int)
    requires
        m > 0,
        0 <= a < m,
        0 <= b < m,
    ensures
        ((a + b) % m < a) <==> (a + b >= m),
{
    if a + b < m {
        vstd::arithmetic::div_mod::lemma_small_mod((a + b) as nat, m as nat);
    } else {
        vstd::arithmetic::div_mod::lemma_mod_sub_multiples_vanish(a + b, m);
        vstd::arithmetic::div_mod::lemma_small_mod((a + b - m) as nat, m as nat);
    }
}

/// The synthesized unsigned-sub check (first operand below second) holds
/// exactly when the mathematical difference would be negative.
pub proof fn lemma_unsigned_sub_underflow(a: int, b: int)
    ensures
        (a < b) <==> (a - b < 0),
{
}

/// The view of a bare-local declaration without initializer.
pub open spec fn dv(i: usize, name: Seq<char>, ty: CTypeV) -> VarDeclV {
    VarDeclV { var: VarDefV { local_id: i, name, ty }, value: Option::None }
}

/// The view of a declaration with initializer.
pub open spec fn dvi(i: usize, name: Seq<char>, ty: CTypeV, e: ExprV) -> VarDeclV {
    VarDeclV { var: VarDefV { local_id: i, name, ty }, value: Option::Some(e) }
}

/// The closing block shared by every helper: store the {result, flag}
/// literal into slot 0 and return it.
pub open spec fn helper_out_block(
    bb_id: usize,
    struct_name: Seq<char>,
    result_slot: usize,
    flag_slot: usize,
) -> BasicBlockV {
    BasicBlockV {
        bb_id,
        statements: seq![
            sv(
                ExprV::Assignment(
                    Box::new(vref(0)),
                    Box::new(
                        ExprV::Struct {
                            name: Box::new(cst(struct_name)),
                            fields: seq![vref(result_slot), vref(flag_slot)],
                        },
                    ),
                ),
            ),
            sv(ExprV::Return(Box::new(vref(0)))),
        ],
    }
}

/// The overflow-checked signed-add helper: `{sum, (b>0 && a>MAX-b) ||
/// (b<0 && a<MIN-b)}`.
#[verifier::opaque]
pub open spec fn signed_add_view(
    fn_name: Seq<char>,
    struct_name: Seq<char>,
    val_ty: CTypeV,
    ret: CTypeV,
    maxn: Seq<char>,
    minn: Seq<char>,
) -> CFunctionV {
    CFunctionV {
        name: fn_name,
        signature: seq![
            VarDefV { local_id: 1, name: "first"@, ty: val_ty },
            VarDefV { local_id: 2, name: "second"@, ty: val_ty },
        ],
        local_decl: seq![
            dv(0, "var0"@, ret),
            dvi(3, "sum"@, val_ty, bop(BinOpType::Add, vref(1), vref(2))),
            dvi(
                4,
                "overflow_a"@,
                CTypeV::Bool,
                bop(
                    BinOpType::And,
                    bop(BinOpType::Gt, vref(2), cst("0"@)),
                    bop(BinOpType::Gt, vref(1), bop(BinOpType::Sub, cst(maxn), vref(2))),
                ),
            ),
            dvi(
                5,
                "overflow_b"@,
                CTypeV::Bool,
                bop(
                    BinOpType::And,
                    bop(BinOpType::Lt, vref(2), cst("0"@)),
                    bop(BinOpType::Lt, vref(1), bop(BinOpType::Sub, cst(minn), vref(2))),
                ),
            ),
            dvi(6, "overflow"@, CTypeV::Bool, bop(BinOpType::Or, vref(4), vref(5))),
        ],
        basic_blocks: seq![helper_out_block(0, struct_name, 3, 6)],
        is_main: false,
        return_ty: ret,
    }
}

/// Builds the signed-add helper.
#[verifier::rlimit(100)]
pub fn signed_add(
    ctx: &mut crate::base::Context,
    fn_name: &String,
    c_struct: &crate::structure::CStructDef,
    return_type: CType,
) -> (r: CFunction)
    requires
        c_struct.fields@.len() >= 1,
        crate::structure::structdef_view(*c_struct).fields[0].ty is Int
            || crate::structure::structdef_view(*c_struct).fields[0].ty is UInt,
    ensures
        fn_view(r) == signed_add_view(
            fn_name@,
            crate::structure::structdef_view(*c_struct).name,
            crate::structure::structdef_view(*c_struct).fields[0].ty,
            ctype_view(return_type),
            extremum_names(crate::structure::structdef_view(*c_struct).fields[0].ty).0,
            extremum_names(crate::structure::structdef_view(*c_struct).fields[0].ty).1,
        ),
        crate::base::ctx_reg_view(*final(ctx)) == (crate::base::ContextV {
            defines: extremum_defines(
                crate::structure::structdef_view(*c_struct).fields[0].ty,
                crate::base::ctx_reg_view(*old(ctx)).defines,
            ),
            ..crate::base::ctx_reg_view(*old(ctx))
        }),
{
    reveal(signed_add_view);
    let field = c_struct.get_field(0);
    let sum_type = field.get_type();
    let mut c_fn = CFunction::new(fn_name.clone(), crate::ty::clone_ctype(&return_type));
    let exts = ctx.extremum_val_of_type(sum_type);
    let max_int_str = exts.0;
    let min_int_str = exts.1;
    c_fn.add_signature_var(CVarDef::new(1, String::from_str("first"), crate::ty::clone_ctype(sum_type)));
    c_fn.add_signature_var(CVarDef::new(2, String::from_str("second"), crate::ty::clone_ctype(sum_type)));
    c_fn.add_var_decl(CVarDecl::new(CVarDef::new(0, String::from_str("var0"), return_type), None));
    c_fn.add_var_decl(
        CVarDecl::new(
            CVarDef::new(3, String::from_str("sum"), crate::ty::clone_ctype(sum_type)),
            Some(Expression::binary(BinOpType::Add, Expression::vari(1), Expression::vari(2))),
        ),
    );
    let zero = String::from_str("0");
    c_fn.add_var_decl(
        CVarDecl::new(
            CVarDef::new(4, String::from_str("overflow_a"), CType::Bool),
            Some(
                Expression::binary(
                    BinOpType::And,
                    Expression::vari(2).gt(Expression::constant(&zero)),
                    Expression::vari(1).gt(
                        Expression::binary(
                            BinOpType::Sub,
                            Expression::constant(&max_int_str),
                            Expression::vari(2),
                        ),
                    ),
                ),
            ),
        ),
    );
    c_fn.add_var_decl(
        CVarDecl::new(
            CVarDef::new(5, String::from_str("overflow_b"), CType::Bool),
            Some(
                Expression::binary(
                    BinOpType::And,
                    Expression::vari(2).lt(Expression::constant(&zero)),
                    Expression::vari(1).lt(
                        Expression::binary(
                            BinOpType::Sub,
                            Expression::constant(&min_int_str),
                            Expression::vari(2),
                        ),
                    ),
                ),
            ),
        ),
    );
    c_fn.add_var_decl(
        CVarDecl::new(
            CVarDef::new(6, String::from_str("overflow"), CType::Bool),
            Some(Expression::binary(BinOpType::Or, Expression::vari(4), Expression::vari(5))),
        ),
    );
    let bb = helper_out_bb(0, c_struct, 3, 6);
    c_fn.push_bb(bb);
    proof {
        let spec_fn = signed_add_view(
            fn_name@,
            crate::structure::structdef_view(*c_struct).name,
            crate::structure::structdef_view(*c_struct).fields[0].ty,
            ctype_view(return_type),
            extremum_names(crate::structure::structdef_view(*c_struct).fields[0].ty).0,
            extremum_names(crate::structure::structdef_view(*c_struct).fields[0].ty).1,
        );
        assert(fn_view(c_fn).signature =~= spec_fn.signature);
        assert(fn_view(c_fn).local_decl =~= spec_fn.local_decl);
        assert(fn_view(c_fn).basic_blocks =~= spec_fn.basic_blocks);
    }
    c_fn
}

/// Builds the shared closing block: store the result literal, return it.
fn helper_out_bb(
    bb_id: usize,
    c_struct: &crate::structure::CStructDef,
    result_slot: usize,
    flag_slot: usize,
) -> (r: BasicBlock)
    ensures
        crate::bb::bb_view(r) == helper_out_block(
            bb_id,
            crate::structure::structdef_view(*c_struct).name,
            result_slot,
            flag_slot,
        ),
{
    let mut bb = BasicBlock::new(BasicBlockIdentifier(bb_id));
    let mut fields: Vec<Expression> = Vec::new();
    fields.push(Expression::unbvari(result_slot));
    fields.push(Expression::unbvari(flag_slot));
    proof {
        reveal_with_fuel(crate::expression::expr_views, 3);
        assert(crate::expression::expr_views(fields@) =~= seq![vref(result_slot), vref(flag_slot)]);
    }
    let name = c_struct.get_name();
    bb.push(
        Statement::from_expression(
            Expression::unbvari(0).assign(
                Expression::strct(Expression::constant(&name), fields),
            ),
        ),
    );
    bb.push(Statement::from_expression(Expression::Return { value: Expression::vari(0) }));
    proof {
        assert(crate::bb::bb_view(bb).statements =~= helper_out_block(
            bb_id,
            crate::structure::structdef_view(*c_struct).name,
            result_slot,
            flag_slot,
        ).statements);
    }
    bb
}

/// The names of the extremum constants of an integer type.
pub open spec fn extremum_names(ty: CTypeV) -> (Seq<char>, Seq<char>) {
    match ty {
        CTypeV::Int(w) => (
            "INT"@ + dec_text(crate::ty::int_bit_width(w) as nat) + "_MAX"@,
            "INT"@ + dec_text(crate::ty::int_bit_width(w) as nat) + "_MIN"@,
        ),
        CTypeV::UInt(w) => (
            "UINT"@ + dec_text(crate::ty::uint_bit_width(w) as nat) + "_MAX"@,
            "0"@,
        ),
        _ => (Seq::<char>::empty(), Seq::<char>::empty()),
    }
}

/// The defines the extremum lookup synthesizes: the three derived
/// 128-bit constants, each only where its name is not yet defined.
pub open spec fn extremum_defines(ty: CTypeV, defines: Seq<DefineV>) -> Seq<DefineV> {
    match ty {
        CTypeV::Int(w) => {
            if crate::ty::int_bit_width(w) == 128 {
                let d1 = if !crate::base::define_named_in(defines, "UINT128_MAX"@) {
                    defines.push(DefineV { name: "UINT128_MAX"@, value: "(__uint128_t)(-1)"@ })
                } else {
                    defines
                };
                if !crate::base::define_named_in(d1, "INT128_MAX"@) {
                    d1.push(
                        DefineV { name: "INT128_MAX"@, value: "(__int128_t)(UINT128_MAX >> 1)"@ },
                    ).push(DefineV { name: "INT128_MIN"@, value: "(__int128_t)(-INT128_MAX - 1)"@ })
                } else {
                    d1
                }
            } else {
                defines
            }
        },
        CTypeV::UInt(w) => {
            if crate::ty::uint_bit_width(w) == 128 {
                if !crate::base::define_named_in(defines, "UINT128_MAX"@) {
                    defines.push(DefineV { name: "UINT128_MAX"@, value: "(__uint128_t)(-1)"@ })
                } else {
                    defines
                }
            } else {
                defines
            }
        },
        _ => defines,
    }
}

impl crate::base::Context {
    /// The extremum constant names of an integer type, synthesizing the
    /// derived 128-bit defines on first use.
    pub fn extremum_val_of_type(&mut self, ty: &CType) -> (r: (String, String))
        requires
            ty is Int || ty is UInt,
        ensures
            r.0@ == extremum_names(ctype_view(*ty)).0,
            r.1@ == extremum_names(ctype_view(*ty)).1,
            crate::base::ctx_reg_view(*final(self)) == (crate::base::ContextV {
                defines: extremum_defines(
                    ctype_view(*ty),
                    crate::base::ctx_reg_view(*old(self)).defines,
                ),
                ..crate::base::ctx_reg_view(*old(self))
            }),
    {
        match ty {
            CType::Int(w) => {
                let bits = w.bit_width();
                let mut max_uint = String::from_str("UINT");
                crate::utils::push_dec_u128(&mut max_uint, bits as u128);
                max_uint.append("_MAX");
                let mut max_int = String::from_str("INT");
                crate::utils::push_dec_u128(&mut max_int, bits as u128);
                max_int.append("_MAX");
                let mut min_int = String::from_str("INT");
                crate::utils::push_dec_u128(&mut min_int, bits as u128);
                min_int.append("_MIN");
                if bits == 128 {
                    if !self.has_define_with_name(&max_uint) {
                        self.push_define(
                            CDefine::new(max_uint.clone(), String::from_str("(__uint128_t)(-1)")),
                        );
                    }
                    if !self.has_define_with_name(&max_int) {
                        self.push_define(
                            CDefine::new(
                                max_int.clone(),
                                String::from_str("(__int128_t)(UINT128_MAX >> 1)"),
                            ),
                        );
                        self.push_define(
                            CDefine::new(
                                min_int.clone(),
                                String::from_str("(__int128_t)(-INT128_MAX - 1)"),
                            ),
                        );
                    }
                }
                proof {
                    if bits == 128 {
                        reveal_strlit("UINT");
                        reveal_strlit("INT");
                        reveal_strlit("_MAX");
                        reveal_strlit("_MIN");
                        reveal_strlit("UINT128_MAX");
                        reveal_strlit("INT128_MAX");
                        reveal_strlit("INT128_MIN");
                        reveal_strlit("1");
                        reveal_strlit("2");
                        reveal_strlit("8");
                        reveal_with_fuel(crate::utils::dec_text, 4);
                        assert(max_uint@ =~= "UINT128_MAX"@);
                        assert(max_int@ =~= "INT128_MAX"@);
                        assert(min_int@ =~= "INT128_MIN"@);
                    }
                    assert(crate::base::ctx_reg_view(*self).defines =~= extremum_defines(
                        ctype_view(*ty),
                        crate::base::ctx_reg_view(*old(self)).defines,
                    ));
                }
                (max_int, min_int)
            },
            CType::UInt(w) => {
                let bits = w.bit_width();
                let mut max_uint = String::from_str("UINT");
                crate::utils::push_dec_u128(&mut max_uint, bits as u128);
                max_uint.append("_MAX");
                if bits == 128 {
                    if !self.has_define_with_name(&max_uint) {
                        self.push_define(
                            CDefine::new(max_uint.clone(), String::from_str("(__uint128_t)(-1)")),
                        );
                    }
                }
                proof {
                    if bits == 128 {
                        reveal_strlit("UINT");
                        reveal_strlit("_MAX");
                        reveal_strlit("UINT128_MAX");
                        reveal_strlit("1");
                        reveal_strlit("2");
                        reveal_strlit("8");
                        reveal_with_fuel(crate::utils::dec_text, 4);
                        assert(max_uint@ =~= "UINT128_MAX"@);
                    }
                    assert(crate::base::ctx_reg_view(*self).defines =~= extremum_defines(
                        ctype_view(*ty),
                        crate::base::ctx_reg_view(*old(self)).defines,
                    ));
                }
                (max_uint, String::from_str("0"))
            },
            _ => {
                proof {
                    assert(false);
                }
                (String::new(), String::new())
            },
        }
    }
}

/// The overflow-checked unsigned-add helper: `{sum, sum < a}`.
#[verifier::opaque]
pub open spec fn unsigned_add_view(
    fn_name: Seq<char>,
    struct_name: Seq<char>,
    val_ty: CTypeV,
    ret: CTypeV,
) -> CFunctionV {
    CFunctionV {
        name: fn_name,
        signature: seq![
            VarDefV { local_id: 1, name: "first"@, ty: val_ty },
            VarDefV { local_id: 2, name: "second"@, ty: val_ty },
        ],
        local_decl: seq![
            dv(0, "var0"@, ret),
            dvi(3, "sum"@, val_ty, bop(BinOpType::Add, vref(1), vref(2))),
            dvi(4, "overflow"@, CTypeV::Bool, bop(BinOpType::Lt, vref(3), vref(1))),
        ],
        basic_blocks: seq![helper_out_block(0, struct_name, 3, 4)],
        is_main: false,
        return_ty: ret,
    }
}

/// Builds the unsigned-add helper.
#[verifier::rlimit(100)]
pub fn unsigned_add(
    fn_name: &String,
    c_struct: &crate::structure::CStructDef,
    return_type: CType,
) -> (r: CFunction)
    requires
        c_struct.fields@.len() >= 1,
    ensures
        fn_view(r) == unsigned_add_view(
            fn_name@,
            crate::structure::structdef_view(*c_struct).name,
            crate::structure::structdef_view(*c_struct).fields[0].ty,
            ctype_view(return_type),
        ),
{
    reveal(unsigned_add_view);
    let field = c_struct.get_field(0);
    let sum_type = field.get_type();
    let mut c_fn = CFunction::new(fn_name.clone(), crate::ty::clone_ctype(&return_type));
    c_fn.add_signature_var(CVarDef::new(1, String::from_str("first"), crate::ty::clone_ctype(sum_type)));
    c_fn.add_signature_var(CVarDef::new(2, String::from_str("second"), crate::ty::clone_ctype(sum_type)));
    c_fn.add_var_decl(CVarDecl::new(CVarDef::new(0, String::from_str("var0"), return_type), None));
    c_fn.add_var_decl(
        CVarDecl::new(
            CVarDef::new(3, String::from_str("sum"), crate::ty::clone_ctype(sum_type)),
            Some(Expression::binary(BinOpType::Add, Expression::vari(1), Expression::vari(2))),
        ),
    );
    c_fn.add_var_decl(
        CVarDecl::new(
            CVarDef::new(4, String::from_str("overflow"), CType::Bool),
            Some(Expression::vari(3).lt(Expression::vari(1))),
        ),
    );
    let bb = helper_out_bb(0, c_struct, 3, 4);
    c_fn.push_bb(bb);
    proof {
        let spec_fn = unsigned_add_view(
            fn_name@,
            crate::structure::structdef_view(*c_struct).name,
            crate::structure::structdef_view(*c_struct).fields[0].ty,
            ctype_view(return_type),
        );
        assert(fn_view(c_fn).signature =~= spec_fn.signature);
        assert(fn_view(c_fn).local_decl =~= spec_fn.local_decl);
        assert(fn_view(c_fn).basic_blocks =~= spec_fn.basic_blocks);
    }
    c_fn
}

/// The overflow-checked signed-sub helper: `{difference, (b>0 && a<MIN+b)
/// || (b<0 && a>MAX+b)}`.
#[verifier::opaque]
pub open spec fn signed_sub_view(
    fn_name: Seq<char>,
    struct_name: Seq<char>,
    val_ty: CTypeV,
    ret: CTypeV,
    maxn: Seq<char>,
    minn: Seq<char>,
) -> CFunctionV {
    CFunctionV {
        name: fn_name,
        signature: seq![
            VarDefV { local_id: 1, name: "first"@, ty: val_ty },
            VarDefV { local_id: 2, name: "second"@, ty: val_ty },
        ],
        local_decl: seq![
            dv(0, "var0"@, ret),
            dvi(3, "difference"@, val_ty, bop(BinOpType::Sub, vref(1), vref(2))),
            dvi(
                4,
                "overflow_a"@,
                CTypeV::Bool,
                bop(
                    BinOpType::And,
                    bop(BinOpType::Gt, vref(2), cst("0"@)),
                    bop(BinOpType::Lt, vref(1), bop(BinOpType::Add, cst(minn), vref(2))),
                ),
            ),
            dvi(
                5,
                "overflow_b"@,
                CTypeV::Bool,
                bop(
                    BinOpType::And,
                    bop(BinOpType::Lt, vref(2), cst("0"@)),
                    bop(BinOpType::Gt, vref(1), bop(BinOpType::Add, cst(maxn), vref(2))),
                ),
            ),
            dvi(6, "overflow"@, CTypeV::Bool, bop(BinOpType::Or, vref(4), vref(5))),
        ],
        basic_blocks: seq![helper_out_block(0, struct_name, 3, 6)],
        is_main: false,
        return_ty: ret,
    }
}

/// Builds the signed-sub helper.
#[verifier::rlimit(100)]
pub fn signed_sub(
    ctx: &mut crate::base::Context,
    fn_name: &String,
    c_struct: &crate::structure::CStructDef,
    return_type: CType,
) -> (r: CFunction)
    requires
        c_struct.fields@.len() >= 1,
        crate::structure::structdef_view(*c_struct).fields[0].ty is Int
            || crate::structure::structdef_view(*c_struct).fields[0].ty is UInt,
    ensures
        fn_view(r) == signed_sub_view(
            fn_name@,
            crate::structure::structdef_view(*c_struct).name,
            crate::structure::structdef_view(*c_struct).fields[0].ty,
            ctype_view(return_type),
            extremum_names(crate::structure::structdef_view(*c_struct).fields[0].ty).0,
            extremum_names(crate::structure::structdef_view(*c_struct).fields[0].ty).1,
        ),
        crate::base::ctx_reg_view(*final(ctx)) == (crate::base::ContextV {
            defines: extremum_defines(
                crate::structure::structdef_view(*c_struct).fields[0].ty,
                crate::base::ctx_reg_view(*old(ctx)).defines,
            ),
            ..crate::base::ctx_reg_view(*old(ctx))
        }),
{
    reveal(signed_sub_view);
    let field = c_struct.get_field(0);
    let diff_type = field.get_type();
    let exts = ctx.extremum_val_of_type(diff_type);
    let max_int_str = exts.0;
    let min_int_str = exts.1;
    let mut c_fn = CFunction::new(fn_name.clone(), crate::ty::clone_ctype(&return_type));
    c_fn.add_signature_var(CVarDef::new(1, String::from_str("first"), crate::ty::clone_ctype(diff_type)));
    c_fn.add_signature_var(CVarDef::new(2, String::from_str("second"), crate::ty::clone_ctype(diff_type)));
    c_fn.add_var_decl(CVarDecl::new(CVarDef::new(0, String::from_str("var0"), return_type), None));
    c_fn.add_var_decl(
        CVarDecl::new(
            CVarDef::new(3, String::from_str("difference"), crate::ty::clone_ctype(diff_type)),
            Some(Expression::binary(BinOpType::Sub, Expression::vari(1), Expression::vari(2))),
        ),
    );
    let zero = String::from_str("0");
    c_fn.add_var_decl(
        CVarDecl::new(
            CVarDef::new(4, String::from_str("overflow_a"), CType::Bool),
            Some(
                Expression::binary(
                    BinOpType::And,
                    Expression::vari(2).gt(Expression::constant(&zero)),
                    Expression::vari(1).lt(
                        Expression::binary(
                            BinOpType::Add,
                            Expression::constant(&min_int_str),
                            Expression::vari(2),
                        ),
                    ),
                ),
            ),
        ),
    );
    c_fn.add_var_decl(
        CVarDecl::new(
            CVarDef::new(5, String::from_str("overflow_b"), CType::Bool),
            Some(
                Expression::binary(
                    BinOpType::And,
                    Expression::vari(2).lt(Expression::constant(&zero)),
                    Expression::vari(1).gt(
                        Expression::binary(
                            BinOpType::Add,
                            Expression::constant(&max_int_str),
                            Expression::vari(2),
                        ),
                    ),
                ),
            ),
        ),
    );
    c_fn.add_var_decl(
        CVarDecl::new(
            CVarDef::new(6, String::from_str("overflow"), CType::Bool),
            Some(Expression::binary(BinOpType::Or, Expression::vari(4), Expression::vari(5))),
        ),
    );
    let bb = helper_out_bb(0, c_struct, 3, 6);
    c_fn.push_bb(bb);
    proof {
        let spec_fn = signed_sub_view(
            fn_name@,
            crate::structure::structdef_view(*c_struct).name,
            crate::structure::structdef_view(*c_struct).fields[0].ty,
            ctype_view(return_type),
            extremum_names(crate::structure::structdef_view(*c_struct).fields[0].ty).0,
            extremum_names(crate::structure::structdef_view(*c_struct).fields[0].ty).1,
        );
        assert(fn_view(c_fn).signature =~= spec_fn.signature);
        assert(fn_view(c_fn).local_decl =~= spec_fn.local_decl);
        assert(fn_view(c_fn).basic_blocks =~= spec_fn.basic_blocks);
    }
    c_fn
}

/// The underflow-checked unsigned-sub helper: `{difference, a < b}`; its
/// one block carries block id 1.
#[verifier::opaque]
pub open spec fn unsigned_sub_view(
    fn_name: Seq<char>,
    struct_name: Seq<char>,
    val_ty: CTypeV,
    ret: CTypeV,
) -> CFunctionV {
    CFunctionV {
        name: fn_name,
        signature: seq![
            VarDefV { local_id: 1, name: "first"@, ty: val_ty },
            VarDefV { local_id: 2, name: "second"@, ty: val_ty },
        ],
        local_decl: seq![
            dv(0, "var0"@, ret),
            dvi(3, "difference"@, val_ty, bop(BinOpType::Sub, vref(1), vref(2))),
            dvi(4, "underflow"@, CTypeV::Bool, bop(BinOpType::Lt, vref(1), vref(2))),
        ],
        basic_blocks: seq![helper_out_block(1, struct_name, 3, 4)],
        is_main: false,
        return_ty: ret,
    }
}

/// Builds the unsigned-sub helper.
#[verifier::rlimit(100)]
pub fn unsigned_sub(
    fn_name: &String,
    c_struct: &crate::structure::CStructDef,
    return_type: CType,
) -> (r: CFunction)
    requires
        c_struct.fields@.len() >= 1,
    ensures
        fn_view(r) == unsigned_sub_view(
            fn_name@,
            crate::structure::structdef_view(*c_struct).name,
            crate::structure::structdef_view(*c_struct).fields[0].ty,
            ctype_view(return_type),
        ),
{
    reveal(unsigned_sub_view);
    let field = c_struct.get_field(0);
    let diff_type = field.get_type();
    let mut c_fn = CFunction::new(fn_name.clone(), crate::ty::clone_ctype(&return_type));
    c_fn.add_signature_var(CVarDef::new(1, String::from_str("first"), crate::ty::clone_ctype(diff_type)));
    c_fn.add_signature_var(CVarDef::new(2, String::from_str("second"), crate::ty::clone_ctype(diff_type)));
    c_fn.add_var_decl(CVarDecl::new(CVarDef::new(0, String::from_str("var0"), return_type), None));
    c_fn.add_var_decl(
        CVarDecl::new(
            CVarDef::new(3, String::from_str("difference"), crate::ty::clone_ctype(diff_type)),
            Some(Expression::binary(BinOpType::Sub, Expression::vari(1), Expression::vari(2))),
        ),
    );
    c_fn.add_var_decl(
        CVarDecl::new(
            CVarDef::new(4, String::from_str("underflow"), CType::Bool),
            Some(Expression::vari(1).lt(Expression::vari(2))),
        ),
    );
    let bb = helper_out_bb(1, c_struct, 3, 4);
    c_fn.push_bb(bb);
    proof {
        let spec_fn = unsigned_sub_view(
            fn_name@,
            crate::structure::structdef_view(*c_struct).name,
            crate::structure::structdef_view(*c_struct).fields[0].ty,
            ctype_view(return_type),
        );
        assert(fn_view(c_fn).signature =~= spec_fn.signature);
        assert(fn_view(c_fn).local_decl =~= spec_fn.local_decl);
        assert(fn_view(c_fn).basic_blocks =~= spec_fn.basic_blocks);
    }
    c_fn
}

/// The guard block shared by the two mul helpers: skip the overflow
/// computation when an operand shows zero.
pub open spec fn mul_guard_block(zero_slot: usize) -> BasicBlockV {
    BasicBlockV {
        bb_id: 0,
        statements: seq![
            sv(
                ExprV::SwitchJump {
                    value: Box::new(vref(zero_slot)),
                    cases: seq![(cst(crate::utils::dec_text(0)), 1usize)],
                    default: 2,
                },
            ),
        ],
    }
}

/// The overflow-checked signed-mul helper, with the six case predicates
/// computed in a guarded block.
#[verifier::opaque]
pub open spec fn signed_mul_view(
    fn_name: Seq<char>,
    struct_name: Seq<char>,
    val_ty: CTypeV,
    ret: CTypeV,
    maxn: Seq<char>,
    minn: Seq<char>,
) -> CFunctionV {
    CFunctionV {
        name: fn_name,
        signature: seq![
            VarDefV { local_id: 1, name: "first"@, ty: val_ty },
            VarDefV { local_id: 2, name: "second"@, ty: val_ty },
        ],
        local_decl: seq![
            dv(0, "var0"@, ret),
            dvi(3, "product"@, val_ty, bop(BinOpType::Mul, vref(1), vref(2))),
            dvi(
                4,
                "is_zero"@,
                CTypeV::Bool,
                bop(
                    BinOpType::Or,
                    bop(BinOpType::Eq, vref(1), cst("0"@)),
                    bop(BinOpType::Eq, vref(2), cst("0"@)),
                ),
            ),
            dv(5, "overflow_a"@, CTypeV::Bool),
            dv(6, "overflow_b"@, CTypeV::Bool),
            dv(7, "overflow_c"@, CTypeV::Bool),
            dv(8, "overflow_d"@, CTypeV::Bool),
            dv(9, "overflow_e"@, CTypeV::Bool),
            dv(10, "overflow_f"@, CTypeV::Bool),
            dvi(11, "overflow"@, CTypeV::Bool, cst(crate::utils::dec_text(0))),
        ],
        basic_blocks: seq![
            mul_guard_block(4),
            BasicBlockV {
                bb_id: 1,
                statements: seq![
                    sv(
                        ExprV::Assignment(
                            Box::new(vref(5)),
                            Box::new(
                                bop(
                                    BinOpType::And,
                                    bop(BinOpType::Eq, vref(1), cst("-1"@)),
                                    bop(BinOpType::Eq, vref(2), cst(minn)),
                                ),
                            ),
                        ),
                    ),
                    sv(
                        ExprV::Assignment(
                            Box::new(vref(6)),
                            Box::new(
                                bop(
                                    BinOpType::And,
                                    bop(BinOpType::Eq, vref(2), cst("-1"@)),
                                    bop(BinOpType::Eq, vref(1), cst(minn)),
                                ),
                            ),
                        ),
                    ),
                    sv(
                        ExprV::Assignment(
                            Box::new(vref(7)),
                            Box::new(
                                bop(
                                    BinOpType::And,
                                    bop(
                                        BinOpType::And,
                                        bop(BinOpType::Gt, vref(1), cst("0"@)),
                                        bop(BinOpType::Gt, vref(2), cst("0"@)),
                                    ),
                                    bop(
                                        BinOpType::Gt,
                                        vref(1),
                                        bop(BinOpType::Div, cst(maxn), vref(2)),
                                    ),
                                ),
                            ),
                        ),
                    ),
                    sv(
                        ExprV::Assignment(
                            Box::new(vref(8)),
                            Box::new(
                                bop(
                                    BinOpType::And,
                                    bop(
                                        BinOpType::And,
                                        bop(BinOpType::Gt, vref(1), cst("0"@)),
                                        bop(BinOpType::Lt, vref(2), cst("0"@)),
                                    ),
                                    bop(
                                        BinOpType::Lt,
                                        vref(2),
                                        bop(BinOpType::Div, cst(minn), vref(1)),
                                    ),
                                ),
                            ),
                        ),
                    ),
                    sv(
                        ExprV::Assignment(
                            Box::new(vref(9)),
                            Box::new(
                                bop(
                                    BinOpType::And,
                                    bop(
                                        BinOpType::And,
                                        bop(BinOpType::Lt, vref(1), cst("0"@)),
                                        bop(BinOpType::Gt, vref(2), cst("0"@)),
                                    ),
                                    bop(
                                        BinOpType::Lt,
                                        vref(1),
                                        bop(BinOpType::Div, cst(minn), vref(2)),
                                    ),
                                ),
                            ),
                        ),
                    ),
                    sv(
                        ExprV::Assignment(
                            Box::new(vref(10)),
                            Box::new(
                                bop(
                                    BinOpType::And,
                                    bop(
                                        BinOpType::And,
                                        bop(BinOpType::Lt, vref(1), cst("0"@)),
                                        bop(BinOpType::Lt, vref(2), cst("0"@)),
                                    ),
                                    bop(
                                        BinOpType::Lt,
                                        vref(1),
                                        bop(BinOpType::Div, cst(maxn), vref(2)),
                                    ),
                                ),
                            ),
                        ),
                    ),
                    sv(
                        ExprV::Assignment(
                            Box::new(vref(11)),
                            Box::new(
                                bop(
                                    BinOpType::Or,
                                    bop(
                                        BinOpType::Or,
                                        bop(
                                            BinOpType::Or,
                                            bop(
                                                BinOpType::Or,
                                                bop(BinOpType::Or, vref(5), vref(6)),
                                                vref(7),
                                            ),
                                            vref(8),
                                        ),
                                        vref(9),
                                    ),
                                    vref(10),
                                ),
                            ),
                        ),
                    ),
                ],
            },
            helper_out_block(2, struct_name, 3, 11),
        ],
        is_main: false,
        return_ty: ret,
    }
}

/// Builds the signed-mul helper.
#[verifier::rlimit(100)]
pub fn signed_mul(
    ctx: &mut crate::base::Context,
    fn_name: &String,
    c_struct: &crate::structure::CStructDef,
    return_type: CType,
) -> (r: CFunction)
    requires
        c_struct.fields@.len() >= 1,
        crate::structure::structdef_view(*c_struct).fields[0].ty is Int
            || crate::structure::structdef_view(*c_struct).fields[0].ty is UInt,
    ensures
        fn_view(r) == signed_mul_view(
            fn_name@,
            crate::structure::structdef_view(*c_struct).name,
            crate::structure::structdef_view(*c_struct).fields[0].ty,
            ctype_view(return_type),
            extremum_names(crate::structure::structdef_view(*c_struct).fields[0].ty).0,
            extremum_names(crate::structure::structdef_view(*c_struct).fields[0].ty).1,
        ),
        crate::base::ctx_reg_view(*final(ctx)) == (crate::base::ContextV {
            defines: extremum_defines(
                crate::structure::structdef_view(*c_struct).fields[0].ty,
                crate::base::ctx_reg_view(*old(ctx)).defines,
            ),
            ..crate::base::ctx_reg_view(*old(ctx))
        }),
{
    reveal(signed_mul_view);
    let field = c_struct.get_field(0);
    let product_type = field.get_type();
    let mut c_fn = CFunction::new(fn_name.clone(), crate::ty::clone_ctype(&return_type));
    let exts = ctx.extremum_val_of_type(product_type);
    let max_int_str = exts.0;
    let min_int_str = exts.1;
    c_fn.add_signature_var(CVarDef::new(1, String::from_str("first"), crate::ty::clone_ctype(product_type)));
    c_fn.add_signature_var(CVarDef::new(2, String::from_str("second"), crate::ty::clone_ctype(product_type)));
    c_fn.add_var_decl(CVarDecl::new(CVarDef::new(0, String::from_str("var0"), return_type), None));
    c_fn.add_var_decl(
        CVarDecl::new(
            CVarDef::new(3, String::from_str("product"), crate::ty::clone_ctype(product_type)),
            Some(Expression::binary(BinOpType::Mul, Expression::vari(1), Expression::vari(2))),
        ),
    );
    let zero = String::from_str("0");
    let neg_one = String::from_str("-1");
    c_fn.add_var_decl(
        CVarDecl::new(
            CVarDef::new(4, String::from_str("is_zero"), CType::Bool),
            Some(
                Expression::binary(
                    BinOpType::Or,
                    Expression::vari(1).equ(Expression::constant(&zero)),
                    Expression::vari(2).equ(Expression::constant(&zero)),
                ),
            ),
        ),
    );
    c_fn.add_var_decl(CVarDecl::new(CVarDef::new(5, String::from_str("overflow_a"), CType::Bool), None));
    c_fn.add_var_decl(CVarDecl::new(CVarDef::new(6, String::from_str("overflow_b"), CType::Bool), None));
    c_fn.add_var_decl(CVarDecl::new(CVarDef::new(7, String::from_str("overflow_c"), CType::Bool), None));
    c_fn.add_var_decl(CVarDecl::new(CVarDef::new(8, String::from_str("overflow_d"), CType::Bool), None));
    c_fn.add_var_decl(CVarDecl::new(CVarDef::new(9, String::from_str("overflow_e"), CType::Bool), None));
    c_fn.add_var_decl(CVarDecl::new(CVarDef::new(10, String::from_str("overflow_f"), CType::Bool), None));
    c_fn.add_var_decl(
        CVarDecl::new(
            CVarDef::new(11, String::from_str("overflow"), CType::Bool),
            Some(Box::new(Expression::const_int(0))),
        ),
    );
    let bb0 = mul_guard_bb();
    let mut bb1 = crate::bb::BasicBlock::new(BasicBlockIdentifier(1));
    bb1.push(
        Statement::from_expression(
            Expression::unbvari(5).assign(
                Expression::binary(
                    BinOpType::And,
                    Expression::vari(1).equ(Expression::constant(&neg_one)),
                    Expression::vari(2).equ(Expression::constant(&min_int_str)),
                ),
            ),
        ),
    );
    bb1.push(
        Statement::from_expression(
            Expression::unbvari(6).assign(
                Expression::binary(
                    BinOpType::And,
                    Expression::vari(2).equ(Expression::constant(&neg_one)),
                    Expression::vari(1).equ(Expression::constant(&min_int_str)),
                ),
            ),
        ),
    );
    bb1.push(
        Statement::from_expression(
            Expression::unbvari(7).assign(
                Expression::binary(
                    BinOpType::And,
                    Expression::binary(
                        BinOpType::And,
                        Expression::vari(1).gt(Expression::constant(&zero)),
                        Expression::vari(2).gt(Expression::constant(&zero)),
                    ),
                    Expression::vari(1).gt(
                        Expression::binary(
                            BinOpType::Div,
                            Expression::constant(&max_int_str),
                            Expression::vari(2),
                        ),
                    ),
                ),
            ),
        ),
    );
    bb1.push(
        Statement::from_expression(
            Expression::unbvari(8).assign(
                Expression::binary(
                    BinOpType::And,
                    Expression::binary(
                        BinOpType::And,
                        Expression::vari(1).gt(Expression::constant(&zero)),
                        Expression::vari(2).lt(Expression::constant(&zero)),
                    ),
                    Expression::vari(2).lt(
                        Expression::binary(
                            BinOpType::Div,
                            Expression::constant(&min_int_str),
                            Expression::vari(1),
                        ),
                    ),
                ),
            ),
        ),
    );
    bb1.push(
        Statement::from_expression(
            Expression::unbvari(9).assign(
                Expression::binary(
                    BinOpType::And,
                    Expression::binary(
                        BinOpType::And,
                        Expression::vari(1).lt(Expression::constant(&zero)),
                        Expression::vari(2).gt(Expression::constant(&zero)),
                    ),
                    Expression::vari(1).lt(
                        Expression::binary(
                            BinOpType::Div,
                            Expression::constant(&min_int_str),
                            Expression::vari(2),
                        ),
                    ),
                ),
            ),
        ),
    );
    bb1.push(
        Statement::from_expression(
            Expression::unbvari(10).assign(
                Expression::binary(
                    BinOpType::And,
                    Expression::binary(
                        BinOpType::And,
                        Expression::vari(1).lt(Expression::constant(&zero)),
                        Expression::vari(2).lt(Expression::constant(&zero)),
                    ),
                    Expression::vari(1).lt(
                        Expression::binary(
                            BinOpType::Div,
                            Expression::constant(&max_int_str),
                            Expression::vari(2),
                        ),
                    ),
                ),
            ),
        ),
    );
    bb1.push(
        Statement::from_expression(
            Expression::unbvari(11).assign(
                Expression::binary(
                    BinOpType::Or,
                    Expression::binary(
                        BinOpType::Or,
                        Expression::binary(
                            BinOpType::Or,
                            Expression::binary(
                                BinOpType::Or,
                                Expression::binary(
                                    BinOpType::Or,
                                    Expression::vari(5),
                                    Expression::vari(6),
                                ),
                                Expression::vari(7),
                            ),
                            Expression::vari(8),
                        ),
                        Expression::vari(9),
                    ),
                    Expression::vari(10),
                ),
            ),
        ),
    );
    let bb2 = helper_out_bb(2, c_struct, 3, 11);
    c_fn.push_bb(bb0);
    c_fn.push_bb(bb1);
    c_fn.push_bb(bb2);
    proof {
        let spec_fn = signed_mul_view(
            fn_name@,
            crate::structure::structdef_view(*c_struct).name,
            crate::structure::structdef_view(*c_struct).fields[0].ty,
            ctype_view(return_type),
            extremum_names(crate::structure::structdef_view(*c_struct).fields[0].ty).0,
            extremum_names(crate::structure::structdef_view(*c_struct).fields[0].ty).1,
        );
        assert(fn_view(c_fn).signature =~= spec_fn.signature);
        assert(fn_view(c_fn).local_decl =~= spec_fn.local_decl);
        assert(fn_view(c_fn).basic_blocks[1].statements =~= spec_fn.basic_blocks[1].statements);
        assert(fn_view(c_fn).basic_blocks =~= spec_fn.basic_blocks);
    }
    c_fn
}

/// Builds the zero-operand guard block.
fn mul_guard_bb() -> (r: crate::bb::BasicBlock)
    ensures
        crate::bb::bb_view(r) == mul_guard_block(4),
{
    let mut bb = crate::bb::BasicBlock::new(BasicBlockIdentifier(0));
    let mut cases: Vec<(Expression, usize)> = Vec::new();
    cases.push((Expression::const_int(0), 1));
    proof {
        reveal_with_fuel(crate::expression::case_views, 3);
        assert(crate::expression::case_views(cases@) =~= seq![
            (cst(crate::utils::dec_text(0)), 1usize),
        ]);
    }
    bb.push(
        Statement::from_expression(
            Expression::SwitchJump { value: Expression::vari(4), cases, default: 2 },
        ),
    );
    proof {
        assert(crate::bb::bb_view(bb).statements =~= mul_guard_block(4).statements);
    }
    bb
}

/// The overflow-checked unsigned-mul helper, with the division check
/// computed in a guarded block.
#[verifier::opaque]
pub open spec fn unsigned_mul_view(
    fn_name: Seq<char>,
    struct_name: Seq<char>,
    val_ty: CTypeV,
    ret: CTypeV,
) -> CFunctionV {
    CFunctionV {
        name: fn_name,
        signature: seq![
            VarDefV { local_id: 1, name: "first"@, ty: val_ty },
            VarDefV { local_id: 2, name: "second"@, ty: val_ty },
        ],
        local_decl: seq![
            dv(0, "var0"@, ret),
            dvi(3, "product"@, val_ty, bop(BinOpType::Mul, vref(1), vref(2))),
            dvi(4, "is_zero"@, CTypeV::Bool, bop(BinOpType::Eq, vref(1), cst("0"@))),
            dvi(5, "overflow"@, CTypeV::Bool, cst("false"@)),
        ],
        basic_blocks: seq![
            mul_guard_block(4),
            BasicBlockV {
                bb_id: 1,
                statements: seq![
                    sv(
                        ExprV::Assignment(
                            Box::new(vref(5)),
                            Box::new(
                                bop(
                                    BinOpType::Ne,
                                    bop(BinOpType::Div, vref(3), vref(1)),
                                    vref(2),
                                ),
                            ),
                        ),
                    ),
                ],
            },
            helper_out_block(2, struct_name, 3, 5),
        ],
        is_main: false,
        return_ty: ret,
    }
}

/// Builds the unsigned-mul helper.
#[verifier::rlimit(100)]
pub fn unsigned_mul(
    fn_name: &String,
    c_struct: &crate::structure::CStructDef,
    return_type: CType,
) -> (r: CFunction)
    requires
        c_struct.fields@.len() >= 1,
    ensures
        fn_view(r) == unsigned_mul_view(
            fn_name@,
            crate::structure::structdef_view(*c_struct).name,
            crate::structure::structdef_view(*c_struct).fields[0].ty,
            ctype_view(return_type),
        ),
{
    reveal(unsigned_mul_view);
    let field = c_struct.get_field(0);
    let product_type = field.get_type();
    let mut c_fn = CFunction::new(fn_name.clone(), crate::ty::clone_ctype(&return_type));
    c_fn.add_signature_var(CVarDef::new(1, String::from_str("first"), crate::ty::clone_ctype(product_type)));
    c_fn.add_signature_var(CVarDef::new(2, String::from_str("second"), crate::ty::clone_ctype(product_type)));
    c_fn.add_var_decl(CVarDecl::new(CVarDef::new(0, String::from_str("var0"), return_type), None));
    c_fn.add_var_decl(
        CVarDecl::new(
            CVarDef::new(3, String::from_str("product"), crate::ty::clone_ctype(product_type)),
            Some(Expression::binary(BinOpType::Mul, Expression::vari(1), Expression::vari(2))),
        ),
    );
    let zero = String::from_str("0");
    c_fn.add_var_decl(
        CVarDecl::new(
            CVarDef::new(4, String::from_str("is_zero"), CType::Bool),
            Some(Expression::vari(1).equ(Expression::constant(&zero))),
        ),
    );
    let fls = String::from_str("false");
    c_fn.add_var_decl(
        CVarDecl::new(
            CVarDef::new(5, String::from_str("overflow"), CType::Bool),
            Some(Expression::constant(&fls)),
        ),
    );
    let bb0 = mul_guard_bb();
    let mut bb1 = crate::bb::BasicBlock::new(BasicBlockIdentifier(1));
    bb1.push(
        Statement::from_expression(
            Expression::unbvari(5).assign(
                Expression::binary(
                    BinOpType::Ne,
                    Expression::binary(BinOpType::Div, Expression::vari(3), Expression::vari(1)),
                    Expression::vari(2),
                ),
            ),
        ),
    );
    let bb2 = helper_out_bb(2, c_struct, 3, 5);
    c_fn.push_bb(bb0);
    c_fn.push_bb(bb1);
    c_fn.push_bb(bb2);
    proof {
        let spec_fn = unsigned_mul_view(
            fn_name@,
            crate::structure::structdef_view(*c_struct).name,
            crate::structure::structdef_view(*c_struct).fields[0].ty,
            ctype_view(return_type),
        );
        assert(fn_view(c_fn).signature =~= spec_fn.signature);
        assert(fn_view(c_fn).local_decl =~= spec_fn.local_decl);
        assert(fn_view(c_fn).basic_blocks[1].statements =~= spec_fn.basic_blocks[1].statements);
        assert(fn_view(c_fn).basic_blocks =~= spec_fn.basic_blocks);
    }
    c_fn
}

/// The short label of a scalar source type, as helper names use it.
pub open spec fn src_ty_label(t: crate::ir::SrcTypeV) -> Seq<char> {
    match t {
        crate::ir::SrcTypeV::Int { bits } => "i"@ + dec_text(bits as nat),
        crate::ir::SrcTypeV::Uint { bits } => "u"@ + dec_text(bits as nat),
        _ => Seq::<char>::empty(),
    }
}

/// The deterministic name of a checked helper: the operation word and
/// the operand type label.
pub open spec fn checked_fn_name(op: BinOpType, t: crate::ir::SrcTypeV) -> Seq<char> {
    binop_name_text(op) + "_"@ + src_ty_label(t)
}

/// The helper a (operation, signedness) pair synthesizes.
#[verifier::opaque]
pub open spec fn checked_helper_view(
    op: BinOpType,
    signed: bool,
    fname: Seq<char>,
    sname: Seq<char>,
    val_ty: CTypeV,
    ret: CTypeV,
    maxn: Seq<char>,
    minn: Seq<char>,
) -> CFunctionV {
    if signed {
        match op {
            BinOpType::CheckedAdd => signed_add_view(fname, sname, val_ty, ret, maxn, minn),
            BinOpType::CheckedSub => signed_sub_view(fname, sname, val_ty, ret, maxn, minn),
            _ => signed_mul_view(fname, sname, val_ty, ret, maxn, minn),
        }
    } else {
        match op {
            BinOpType::CheckedAdd => unsigned_add_view(fname, sname, val_ty, ret),
            BinOpType::CheckedSub => unsigned_sub_view(fname, sname, val_ty, ret),
            _ => unsigned_mul_view(fname, sname, val_ty, ret),
        }
    }
}

/// The struct definition a checked helper builds into, under the mapped
/// return type.
pub open spec fn checked_struct_of(st1: crate::ty::MapSt, retc: CTypeV) -> crate::structure::StructDefV {
    match st1.structs[retc->Struct_0.ctx_idx] {
        crate::structure::CompositeV::Struct(s) => s,
        crate::structure::CompositeV::Union(s) => s,
        crate::structure::CompositeV::TaggedUnion(_) => arbitrary(),
    }
}

/// Whether a checked-helper request is serviceable: the operation is a
/// checked one, the operand type is a scalar integer, and the mapped
/// result type names a registered two-field helper struct.
pub open spec fn checked_op_wf(
    tv: Seq<crate::ir::SrcTypeV>,
    op: BinOpType,
    ty: usize,
    place_ty: usize,
    st0: crate::ty::MapSt,
) -> bool {
    let (retc, st1) = crate::ty::map_ty(tv, place_ty as int, st0);
    &&& (op is CheckedAdd || op is CheckedSub || op is CheckedMul)
    &&& (ty as int) < tv.len()
    &&& (place_ty as int) < tv.len()
    &&& (tv[ty as int] is Int || tv[ty as int] is Uint)
    &&& retc is Struct
    &&& 0 <= retc->Struct_0.ctx_idx < st1.structs.len()
    &&& (st1.structs[retc->Struct_0.ctx_idx] is Struct || st1.structs[retc->Struct_0.ctx_idx] is Union)
    &&& checked_struct_of(st1, retc).fields.len() >= 1
    &&& (checked_struct_of(st1, retc).fields[0].ty is Int || checked_struct_of(
        st1,
        retc,
    ).fields[0].ty is UInt)
}

/// Lowers a checked binary operation: on first use of the (operation,
/// type) pair the helper is synthesized and registered under its
/// deterministic name; later uses find it by name and register nothing.
/// The result is always a call of that helper on the two operands.
#[verifier::rlimit(100)]
pub fn handle_checked_op(
    fn_cx: &mut crate::function::CodegenFunctionCx,
    op: BinOpType,
    lhs: Expression,
    rhs: Expression,
    ty: usize,
    place_ty: usize,
) -> (r: Expression)
    requires
        crate::function::cx_map_wf(*old(fn_cx)),
        checked_op_wf(
            crate::ir::table_view(old(fn_cx).table),
            op,
            ty,
            place_ty,
            crate::function::map_st_of(*old(fn_cx)),
        ),
    ensures
        crate::function::cx_map_wf(*final(fn_cx)),
        ({
            let tv = crate::ir::table_view(old(fn_cx).table);
            let st0 = crate::function::map_st_of(*old(fn_cx));
            let (retc, st1) = crate::ty::map_ty(tv, place_ty as int, st0);
            let fname = checked_fn_name(op, tv[ty as int]);
            let sdef = checked_struct_of(st1, retc);
            let signed = tv[ty as int] is Int;
            let ctx0 = crate::base::ctx_reg_view(old(fn_cx).ongoing_codegen.context);
            let ctx1 = crate::base::ctx_reg_view(final(fn_cx).ongoing_codegen.context);
            let hit = crate::base::fn_named_in(ctx0.header_functions, fname);
            let helper = checked_helper_view(
                op,
                signed,
                fname,
                sdef.name,
                sdef.fields[0].ty,
                retc,
                extremum_names(sdef.fields[0].ty).0,
                extremum_names(sdef.fields[0].ty).1,
            );
            &&& crate::expression::expr_view(r) == (ExprV::FnCall {
                function: Box::new(cst(fname)),
                args: seq![expr_view(lhs), expr_view(rhs)],
            })
            &&& crate::function::map_st_of(*final(fn_cx)) == st1
            &&& final(fn_cx).table == old(fn_cx).table
            &&& final(fn_cx).mir == old(fn_cx).mir
            &&& final(fn_cx).alloc_to_c == old(fn_cx).alloc_to_c
            &&& final(fn_cx).allocs == old(fn_cx).allocs
            &&& final(fn_cx).crate_num == old(fn_cx).crate_num
            &&& ctx1.includes == ctx0.includes
            &&& ctx1.header_includes == ctx0.header_includes
            &&& ctx1.functions == ctx0.functions
            &&& ctx1.statics == ctx0.statics
            &&& (hit ==> ctx1.header_functions == ctx0.header_functions && ctx1.defines
                == ctx0.defines)
            &&& (!hit ==> ctx1.header_functions == ctx0.header_functions.push(helper))
            &&& (!hit && signed && op is CheckedAdd ==> ctx1.defines == extremum_defines(
                sdef.fields[0].ty,
                ctx0.defines,
            ))
            &&& (!hit && signed && op is CheckedSub ==> ctx1.defines == extremum_defines(
                sdef.fields[0].ty,
                ctx0.defines,
            ))
            &&& (!hit && signed && op is CheckedMul ==> ctx1.defines == extremum_defines(
                sdef.fields[0].ty,
                ctx0.defines,
            ))
            &&& (!hit && !signed ==> ctx1.defines == ctx0.defines)
        }),
{
    reveal(checked_helper_view);
    let ghost tv = crate::ir::table_view(old(fn_cx).table);
    let ghost st0 = crate::function::map_st_of(*old(fn_cx));
    let mut fn_name = String::from_str(op.name_str());
    fn_name.append("_");
    proof {
        crate::ir::lemma_src_types_view_index(fn_cx.table.kinds@);
    }
    let signed: bool;
    match &fn_cx.table.kinds[ty] {
        crate::ir::SrcType::Int { bits } => {
            fn_name.append("i");
            crate::utils::push_dec_u128(&mut fn_name, *bits as u128);
            signed = true;
        },
        crate::ir::SrcType::Uint { bits } => {
            fn_name.append("u");
            crate::utils::push_dec_u128(&mut fn_name, *bits as u128);
            signed = false;
        },
        _ => {
            proof {
                assert(false);
            }
            signed = false;
        },
    }
    proof {
        assert(fn_name@ =~= checked_fn_name(op, tv[ty as int]));
    }
    let return_ty = fn_cx.rust_to_c_type(place_ty);
    let info = return_ty.as_composite_info();
    let sd = fn_cx.ongoing_codegen.context.get_struct_def(&info);
    let c_struct = match sd {
        Some(sdef) => sdef,
        None => {
            proof {
                assert(false);
            }
            crate::structure::CStructDef { name: String::new(), fields: Vec::new() }
        },
    };
    if !fn_cx.ongoing_codegen.context.exists_header_fn_with_name(crate::crepr::self_str(&fn_name)) {
        let helper = match op {
            BinOpType::CheckedAdd => {
                if signed {
                    signed_add(&mut fn_cx.ongoing_codegen.context, &fn_name, &c_struct, return_ty)
                } else {
                    unsigned_add(&fn_name, &c_struct, return_ty)
                }
            },
            BinOpType::CheckedSub => {
                if signed {
                    signed_sub(&mut fn_cx.ongoing_codegen.context, &fn_name, &c_struct, return_ty)
                } else {
                    unsigned_sub(&fn_name, &c_struct, return_ty)
                }
            },
            BinOpType::CheckedMul => {
                if signed {
                    signed_mul(&mut fn_cx.ongoing_codegen.context, &fn_name, &c_struct, return_ty)
                } else {
                    unsigned_mul(&fn_name, &c_struct, return_ty)
                }
            },
            _ => {
                proof {
                    assert(false);
                }
                CFunction::new(String::new(), CType::Void)
            },
        };
        fn_cx.ongoing_codegen.context.push_header_function(helper);
    }
    let ghost lv = expr_view(lhs);
    let ghost rv = expr_view(rhs);
    let mut args: Vec<Expression> = Vec::new();
    args.push(lhs);
    args.push(rhs);
    let r = Expression::FnCall {
        function: Box::new(Expression::Constant { value: fn_name }),
        args,
    };
    proof {
        reveal_with_fuel(crate::expression::expr_view, 3);
        reveal_with_fuel(crate::expression::expr_views, 3);
        assert(crate::expression::expr_views(r->FnCall_args@) =~= seq![lv, rv]);
    }
    r
}

} // verus!
