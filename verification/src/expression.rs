//! The renderable expression model: constants, access chains on locals,
//! operators, construction literals, control expressions, and an opaque
//! passthrough for inline instruction text.

use vstd::prelude::*;

use crate::crepr::RepresentationContext;
use crate::crepr::RepCtxV;
use crate::crepr::ctx_view;
use crate::crepr::indent_text_v;
use crate::crepr::newline_text_v;
use crate::ty::CType;
use crate::ty::CTypeV;
use crate::ty::ctype_text;
use crate::ty::ctype_view;
use crate::ty::push_ctype;
use crate::bb::bbid_text;
use crate::function::CFunction;
use crate::function::CFunctionV;
use crate::function::fn_view;
use crate::function::has_local;
use crate::function::local_name_of;

verus! {

/// Binary operators, including the three checked forms that lower to
/// helper calls.
#[derive(Clone, Copy)]
pub enum BinOpType {
    Add,
    Sub,
    Mul,
    CheckedAdd,
    CheckedSub,
    CheckedMul,
    Div,
    Mod,
    And,
    Or,
    Xor,
    Shl,
    Shr,
    Eq,
    Ne,
    Lt,
    Le,
    Gt,
    Ge,
}

/// Unary operators.
#[derive(Clone, Copy)]
pub enum UnaryOpType {
    Neg,
    Not,
    BitNot,
}

/// One projection step applied to a base variable, left to right.
pub enum VariableAccess {
    Reference,
    Dereference,
    Field { name: String },
    Index { expression: Expression },
    Cast { ty: CType },
    FatPtrDereference { ty: CType },
    Unwrap,
}

/// A renderable expression. A `Variable` holds a bare local slot id whose
/// declared name resolves against the enclosing function at render time.
pub enum Expression {
    Constant { value: String },
    Variable { local: usize, access: Vec<VariableAccess> },
    Assignment { lhs: Box<Expression>, rhs: Box<Expression> },
    BinaryOp { op: BinOpType, lhs: Box<Expression>, rhs: Box<Expression> },
    UnaryOp { op: UnaryOpType, val: Box<Expression> },
    Struct { name: Box<Expression>, fields: Vec<Expression> },
    NamedStruct { name: Box<Expression>, fields: Vec<(String, Expression)> },
    Array { fields: Vec<Expression> },
    Goto { target: usize },
    Return { value: Box<Expression> },
    SwitchJump { value: Box<Expression>, cases: Vec<(Expression, usize)>, default: usize },
    NoOp,
    FnCall { function: Box<Expression>, args: Vec<Expression> },
    InlineAsm { text: String },
    Cast { ty: CType, value: Box<Expression> },
    Repeat { lhs: Box<Expression>, value: Box<Expression>, count: usize },
}

/// The view of one projection step.
pub enum AccessV {
    Reference,
    Dereference,
    Field(Seq<char>),
    Index(Box<ExprV>),
    Cast(CTypeV),
    FatPtrDereference(CTypeV),
    Unwrap,
}

/// The mathematical view of an expression.
pub enum ExprV {
    Constant(Seq<char>),
    Variable { local: usize, access: Seq<AccessV> },
    Assignment(Box<ExprV>, Box<ExprV>),
    BinaryOp(BinOpType, Box<ExprV>, Box<ExprV>),
    UnaryOp(UnaryOpType, Box<ExprV>),
    Struct { name: Box<ExprV>, fields: Seq<ExprV> },
    NamedStruct { name: Box<ExprV>, fields: Seq<(Seq<char>, ExprV)> },
    Array(Seq<ExprV>),
    Goto(usize),
    Return(Box<ExprV>),
    SwitchJump { value: Box<ExprV>, cases: Seq<(ExprV, usize)>, default: usize },
    NoOp,
    FnCall { function: Box<ExprV>, args: Seq<ExprV> },
    InlineAsm(Seq<char>),
    Cast(CTypeV, Box<ExprV>),
    Repeat { lhs: Box<ExprV>, value: Box<ExprV>, count: usize },
}

/// The view of an expression.
pub open spec fn expr_view(e: Expression) -> ExprV
    decreases e,
{
    match e {
        Expression::Constant { value } => ExprV::Constant(value@),
        Expression::Variable { local, access } => ExprV::Variable {
            local,
            access: access_views(access@),
        },
        Expression::Assignment { lhs, rhs } => ExprV::Assignment(
            Box::new(expr_view(*lhs)),
            Box::new(expr_view(*rhs)),
        ),
        Expression::BinaryOp { op, lhs, rhs } => ExprV::BinaryOp(
            op,
            Box::new(expr_view(*lhs)),
            Box::new(expr_view(*rhs)),
        ),
        Expression::UnaryOp { op, val } => ExprV::UnaryOp(op, Box::new(expr_view(*val))),
        Expression::Struct { name, fields } => ExprV::Struct {
            name: Box::new(expr_view(*name)),
            fields: expr_views(fields@),
        },
        Expression::NamedStruct { name, fields } => ExprV::NamedStruct {
            name: Box::new(expr_view(*name)),
            fields: named_views(fields@),
        },
        Expression::Array { fields } => ExprV::Array(expr_views(fields@)),
        Expression::Goto { target } => ExprV::Goto(target),
        Expression::Return { value } => ExprV::Return(Box::new(expr_view(*value))),
        Expression::SwitchJump { value, cases, default } => ExprV::SwitchJump {
            value: Box::new(expr_view(*value)),
            cases: case_views(cases@),
            default,
        },
        Expression::NoOp => ExprV::NoOp,
        Expression::FnCall { function, args } => ExprV::FnCall {
            function: Box::new(expr_view(*function)),
            args: expr_views(args@),
        },
        Expression::InlineAsm { text } => ExprV::InlineAsm(text@),
        Expression::Cast { ty, value } => ExprV::Cast(ctype_view(ty), Box::new(expr_view(*value))),
        Expression::Repeat { lhs, value, count } => ExprV::Repeat {
            lhs: Box::new(expr_view(*lhs)),
            value: Box::new(expr_view(*value)),
            count,
        },
    }
}

/// The views of a sequence of expressions.
pub open spec fn expr_views(s: Seq<Expression>) -> Seq<ExprV>
    decreases s,
{
    if s.len() == 0 {
        Seq::<ExprV>::empty()
    } else {
        expr_views(s.drop_last()).push(expr_view(s.last()))
    }
}

/// The views of named construction fields.
pub open spec fn named_views(s: Seq<(String, Expression)>) -> Seq<(Seq<char>, ExprV)>
    decreases s,
{
    if s.len() == 0 {
        Seq::<(Seq<char>, ExprV)>::empty()
    } else {
        named_views(s.drop_last()).push((s.last().0@, expr_view(s.last().1)))
    }
}

/// The views of switch cases.
pub open spec fn case_views(s: Seq<(Expression, usize)>) -> Seq<(ExprV, usize)>
    decreases s,
{
    if s.len() == 0 {
        Seq::<(ExprV, usize)>::empty()
    } else {
        case_views(s.drop_last()).push((expr_view(s.last().0), s.last().1))
    }
}

/// The views of an access chain.
pub open spec fn access_views(s: Seq<VariableAccess>) -> Seq<AccessV>
    decreases s,
{
    if s.len() == 0 {
        Seq::<AccessV>::empty()
    } else {
        access_views(s.drop_last()).push(access_view(s.last()))
    }
}

/// The view of one projection step.
pub open spec fn access_view(a: VariableAccess) -> AccessV
    decreases a,
{
    match a {
        VariableAccess::Reference => AccessV::Reference,
        VariableAccess::Dereference => AccessV::Dereference,
        VariableAccess::Field { name } => AccessV::Field(name@),
        VariableAccess::Index { expression } => AccessV::Index(Box::new(expr_view(expression))),
        VariableAccess::Cast { ty } => AccessV::Cast(ctype_view(ty)),
        VariableAccess::FatPtrDereference { ty } => AccessV::FatPtrDereference(ctype_view(ty)),
        VariableAccess::Unwrap => AccessV::Unwrap,
    }
}

/// Views of an expression sequence are taken element by element.
pub proof fn lemma_expr_views_index(s: Seq<Expression>)
    ensures
        expr_views(s).len() == s.len(),
        forall|i: int| 0 <= i < s.len() ==> expr_views(s)[i] == expr_view(#[trigger] s[i]),
    decreases s.len(),
{
    if s.len() > 0 {
        lemma_expr_views_index(s.drop_last());
        assert forall|i: int| 0 <= i < s.len() implies expr_views(s)[i] == expr_view(
            #[trigger] s[i],
        ) by {
            if i < s.len() - 1 {
                assert(s.drop_last()[i] == s[i]);
            }
        }
    }
}

/// Views of an access chain are taken element by element.
pub proof fn lemma_access_views_index(s: Seq<VariableAccess>)
    ensures
        access_views(s).len() == s.len(),
        forall|i: int| 0 <= i < s.len() ==> access_views(s)[i] == access_view(#[trigger] s[i]),
    decreases s.len(),
{
    if s.len() > 0 {
        lemma_access_views_index(s.drop_last());
        assert forall|i: int| 0 <= i < s.len() implies access_views(s)[i] == access_view(
            #[trigger] s[i],
        ) by {
            if i < s.len() - 1 {
                assert(s.drop_last()[i] == s[i]);
            }
        }
    }
}

/// Views of named fields are taken element by element.
pub proof fn lemma_named_views_index(s: Seq<(String, Expression)>)
    ensures
        named_views(s).len() == s.len(),
        forall|i: int|
            0 <= i < s.len() ==> named_views(s)[i] == ((#[trigger] s[i]).0@, expr_view(s[i].1)),
    decreases s.len(),
{
    if s.len() > 0 {
        lemma_named_views_index(s.drop_last());
        assert forall|i: int| 0 <= i < s.len() implies named_views(s)[i] == (
            (#[trigger] s[i]).0@,
            expr_view(s[i].1),
        ) by {
            if i < s.len() - 1 {
                assert(s.drop_last()[i] == s[i]);
            }
        }
    }
}

/// Views of switch cases are taken element by element.
pub proof fn lemma_case_views_index(s: Seq<(Expression, usize)>)
    ensures
        case_views(s).len() == s.len(),
        forall|i: int|
            0 <= i < s.len() ==> case_views(s)[i] == (expr_view((#[trigger] s[i]).0), s[i].1),
    decreases s.len(),
{
    if s.len() > 0 {
        lemma_case_views_index(s.drop_last());
        assert forall|i: int| 0 <= i < s.len() implies case_views(s)[i] == (
            expr_view((#[trigger] s[i]).0),
            s[i].1,
        ) by {
            if i < s.len() - 1 {
                assert(s.drop_last()[i] == s[i]);
            }
        }
    }
}

impl Expression {
    /// An assignment of `rhs` into a copy of this expression.
    pub fn assign(&self, rhs: Box<Expression>) -> (r: Expression)
        ensures
            expr_view(r) == ExprV::Assignment(
                Box::new(expr_view(*self)),
                Box::new(expr_view(*rhs)),
            ),
    {
        Expression::Assignment { lhs: Box::new(clone_expr(self)), rhs }
    }

    /// A strict greater-than comparison.
    pub fn gt(&self, rhs: Box<Expression>) -> (r: Box<Expression>)
        ensures
            expr_view(*r) == ExprV::BinaryOp(
                BinOpType::Gt,
                Box::new(expr_view(*self)),
                Box::new(expr_view(*rhs)),
            ),
    {
        Box::new(Expression::BinaryOp { op: BinOpType::Gt, lhs: Box::new(clone_expr(self)), rhs })
    }

    /// A strict less-than comparison.
    pub fn lt(&self, rhs: Box<Expression>) -> (r: Box<Expression>)
        ensures
            expr_view(*r) == ExprV::BinaryOp(
                BinOpType::Lt,
                Box::new(expr_view(*self)),
                Box::new(expr_view(*rhs)),
            ),
    {
        Box::new(Expression::BinaryOp { op: BinOpType::Lt, lhs: Box::new(clone_expr(self)), rhs })
    }

    /// An inequality comparison.
    pub fn neq(&self, rhs: Box<Expression>) -> (r: Box<Expression>)
        ensures
            expr_view(*r) == ExprV::BinaryOp(
                BinOpType::Ne,
                Box::new(expr_view(*self)),
                Box::new(expr_view(*rhs)),
            ),
    {
        Box::new(Expression::BinaryOp { op: BinOpType::Ne, lhs: Box::new(clone_expr(self)), rhs })
    }

    /// An equality comparison.
    pub fn equ(&self, rhs: Box<Expression>) -> (r: Box<Expression>)
        ensures
            expr_view(*r) == ExprV::BinaryOp(
                BinOpType::Eq,
                Box::new(expr_view(*self)),
                Box::new(expr_view(*rhs)),
            ),
    {
        Box::new(Expression::BinaryOp { op: BinOpType::Eq, lhs: Box::new(clone_expr(self)), rhs })
    }

    /// A binary operation on two boxed operands.
    pub fn binary(op: BinOpType, lhs: Box<Expression>, rhs: Box<Expression>) -> (r: Box<
        Expression,
    >)
        ensures
            expr_view(*r) == ExprV::BinaryOp(
                op,
                Box::new(expr_view(*lhs)),
                Box::new(expr_view(*rhs)),
            ),
    {
        Box::new(Expression::BinaryOp { op, lhs, rhs })
    }

    /// A constant expression holding a copy of `value`.
    pub fn constant(value: &String) -> (r: Box<Expression>)
        ensures
            expr_view(*r) == ExprV::Constant(value@),
    {
        Box::new(Expression::Constant { value: value.clone() })
    }

    /// A constant expression from literal text.
    pub fn constant_str(value: &str) -> (r: Expression)
        ensures
            expr_view(r) == ExprV::Constant(value@),
    {
        Expression::Constant { value: String::from_str(value) }
    }

    /// The local `local` indexed by the constant `idx`.
    pub fn arr_vari(local: usize, idx: usize) -> (r: Box<Expression>)
        ensures
            expr_view(*r) == (ExprV::Variable {
                local,
                access: seq![
                    AccessV::Index(
                        Box::new(ExprV::Constant(crate::utils::dec_text(idx as nat))),
                    ),
                ],
            }),
    {
        let mut access: Vec<VariableAccess> = Vec::new();
        access.push(
            VariableAccess::Index { expression: Expression::const_int(idx) },
        );
        let r = Box::new(Expression::Variable { local, access });
        proof {
            reveal_with_fuel(expr_view, 3);
            reveal_with_fuel(access_views, 3);
            assert(access_views(r->Variable_access@) =~= seq![
                AccessV::Index(Box::new(ExprV::Constant(crate::utils::dec_text(idx as nat)))),
            ]);
        }
        r
    }

    /// A boxed bare local.
    pub fn vari(local: usize) -> (r: Box<Expression>)
        ensures
            expr_view(*r) == (ExprV::Variable { local, access: Seq::<AccessV>::empty() }),
    {
        Box::new(Expression::unbvari(local))
    }

    /// A bare local with no projections.
    pub fn unbvari(local: usize) -> (r: Expression)
        ensures
            expr_view(r) == (ExprV::Variable { local, access: Seq::<AccessV>::empty() }),
    {
        let r = Expression::Variable { local, access: Vec::new() };
        proof {
            assert(access_views(r->Variable_access@) =~= Seq::<AccessV>::empty());
        }
        r
    }

    /// A positional construction literal.
    pub fn strct(name: Box<Expression>, fields: Vec<Expression>) -> (r: Box<Expression>)
        ensures
            expr_view(*r) == (ExprV::Struct {
                name: Box::new(expr_view(*name)),
                fields: expr_views(fields@),
            }),
    {
        Box::new(Expression::Struct { name, fields })
    }

    /// A constant holding the decimal text of `value`.
    pub fn const_int(value: usize) -> (r: Expression)
        ensures
            expr_view(r) == ExprV::Constant(crate::utils::dec_text(value as nat)),
    {
        let mut s = String::new();
        crate::utils::push_dec_usize(&mut s, value);
        proof {
            assert(s@ =~= crate::utils::dec_text(value as nat));
        }
        Expression::Constant { value: s }
    }

    /// A constant holding the decimal text of a wide value.
    pub fn const_u128(value: u128) -> (r: Expression)
        ensures
            expr_view(r) == ExprV::Constant(crate::utils::dec_text(value as nat)),
    {
        let mut s = String::new();
        crate::utils::push_dec_u128(&mut s, value);
        proof {
            assert(s@ =~= crate::utils::dec_text(value as nat));
        }
        Expression::Constant { value: s }
    }

    /// A fat-pointer construction literal: the shared fat-pointer struct
    /// built from a data and a metadata expression.
    pub fn fatptr(data: Expression, meta: Expression) -> (r: Expression)
        ensures
            expr_view(r) == (ExprV::Struct {
                name: Box::new(ExprV::Constant(crate::ty::fat_ptr_name_text())),
                fields: seq![expr_view(data), expr_view(meta)],
            }),
    {
        let ghost d0 = data;
        let ghost m0 = meta;
        let ghost dv = expr_view(data);
        let ghost mv = expr_view(meta);
        let mut fields: Vec<Expression> = Vec::new();
        fields.push(data);
        fields.push(meta);
        let r = Expression::Struct {
            name: Box::new(Expression::Constant { value: String::from_str(crate::ty::fat_ptr_name()) }),
            fields,
        };
        proof {
            reveal_with_fuel(expr_view, 3);
            reveal_with_fuel(expr_views, 3);
            let s = r->Struct_fields@;
            assert(s =~= seq![d0, m0]);
            assert(s.drop_last() =~= seq![d0]);
            assert(s.drop_last().drop_last() =~= Seq::<Expression>::empty());
            assert(expr_views(r->Struct_fields@) =~= seq![dv, mv]);
        }
        r
    }
}

/// A deep copy of an expression with the same view.
pub fn clone_expr(e: &Expression) -> (r: Expression)
    ensures
        expr_view(r) == expr_view(*e),
    decreases *e, 2int,
{
    match e {
        Expression::Constant { value } => Expression::Constant { value: value.clone() },
        Expression::Variable { local, access } => {
            let ghost vaccs = access_views(access@);
            proof {
                lemma_access_views_index(access@);
                assert forall|k: int| 0 <= k < access@.len() implies expr_height_lt_acc(
                    #[trigger] access@[k],
                    *e,
                ) by {
                    assert(decreases_to!(*e => e->Variable_access));
                    assert(decreases_to!(e->Variable_access => e->Variable_access@));
                    assert(decreases_to!(e->Variable_access@ => e->Variable_access@[k]));
                }
            }
            let mut acc: Vec<VariableAccess> = Vec::new();
            let mut i: usize = 0;
            proof {
                assert(access_views(acc@) =~= vaccs.subrange(0, 0));
            }
            while i < access.len()
                invariant
                    i <= access.len(),
                    acc@.len() == i,
                    vaccs == access_views(access@),
                    vaccs.len() == access@.len(),
                    forall|k: int|
                        0 <= k < access@.len() ==> vaccs[k] == access_view(#[trigger] access@[k]),
                    access_views(acc@) == vaccs.subrange(0, i as int),
                    forall|k: int|
                        0 <= k < access@.len() ==> expr_height_lt_acc(#[trigger] access@[k], *e),
                decreases access.len() - i,
            {
                let ghost pre = acc@;
                acc.push(clone_access_smaller(&access[i], Ghost(*e)));
                i = i + 1;
                proof {
                    assert(acc@.drop_last() =~= pre);
                    assert(access_views(acc@) =~= vaccs.subrange(0, i as int));
                }
            }
            proof {
                assert(vaccs.subrange(0, vaccs.len() as int) =~= vaccs);
            }
            Expression::Variable { local: *local, access: acc }
        },
        Expression::Assignment { lhs, rhs } => Expression::Assignment {
            lhs: Box::new(clone_expr(lhs)),
            rhs: Box::new(clone_expr(rhs)),
        },
        Expression::BinaryOp { op, lhs, rhs } => Expression::BinaryOp {
            op: *op,
            lhs: Box::new(clone_expr(lhs)),
            rhs: Box::new(clone_expr(rhs)),
        },
        Expression::UnaryOp { op, val } => Expression::UnaryOp {
            op: *op,
            val: Box::new(clone_expr(val)),
        },
        Expression::Struct { name, fields } => Expression::Struct {
            name: Box::new(clone_expr(name)),
            fields: clone_expr_vec_for(fields, Ghost(*e), Ghost(ExprChildren::StructFields)),
        },
        Expression::NamedStruct { name, fields } => {
            let ghost vfields = named_views(fields@);
            proof {
                lemma_named_views_index(fields@);
                assert forall|k: int| 0 <= k < fields@.len() implies expr_height_lt_expr(
                    (#[trigger] fields@[k]).1,
                    *e,
                ) by {
                    assert(decreases_to!(*e => e->NamedStruct_fields));
                    assert(decreases_to!(e->NamedStruct_fields => e->NamedStruct_fields@));
                    assert(decreases_to!(e->NamedStruct_fields@ => e->NamedStruct_fields@[k]));
                    assert(decreases_to!(e->NamedStruct_fields@[k] => e->NamedStruct_fields@[k].1));
                }
            }
            let mut fs: Vec<(String, Expression)> = Vec::new();
            let mut i: usize = 0;
            proof {
                assert(named_views(fs@) =~= vfields.subrange(0, 0));
            }
            while i < fields.len()
                invariant
                    i <= fields.len(),
                    fs@.len() == i,
                    vfields == named_views(fields@),
                    vfields.len() == fields@.len(),
                    forall|k: int|
                        0 <= k < fields@.len() ==> vfields[k] == (
                            (#[trigger] fields@[k]).0@,
                            expr_view(fields@[k].1),
                        ),
                    named_views(fs@) == vfields.subrange(0, i as int),
                    forall|k: int|
                        0 <= k < fields@.len() ==> expr_height_lt_expr(
                            (#[trigger] fields@[k]).1,
                            *e,
                        ),
                decreases fields.len() - i,
            {
                let ghost pre = fs@;
                let nm = fields[i].0.clone();
                let fe = clone_expr_smaller(&fields[i].1, Ghost(*e));
                fs.push((nm, fe));
                i = i + 1;
                proof {
                    assert(fs@.drop_last() =~= pre);
                    assert(named_views(fs@) =~= vfields.subrange(0, i as int));
                }
            }
            proof {
                assert(vfields.subrange(0, vfields.len() as int) =~= vfields);
            }
            Expression::NamedStruct { name: Box::new(clone_expr(name)), fields: fs }
        },
        Expression::Array { fields } => Expression::Array {
            fields: clone_expr_vec_for(fields, Ghost(*e), Ghost(ExprChildren::ArrayFields)),
        },
        Expression::Goto { target } => Expression::Goto { target: *target },
        Expression::Return { value } => Expression::Return { value: Box::new(clone_expr(value)) },
        Expression::SwitchJump { value, cases, default } => {
            let ghost vcases = case_views(cases@);
            proof {
                lemma_case_views_index(cases@);
                assert forall|k: int| 0 <= k < cases@.len() implies expr_height_lt_expr(
                    (#[trigger] cases@[k]).0,
                    *e,
                ) by {
                    assert(decreases_to!(*e => e->SwitchJump_cases));
                    assert(decreases_to!(e->SwitchJump_cases => e->SwitchJump_cases@));
                    assert(decreases_to!(e->SwitchJump_cases@ => e->SwitchJump_cases@[k]));
                    assert(decreases_to!(e->SwitchJump_cases@[k] => e->SwitchJump_cases@[k].0));
                }
            }
            let mut cs: Vec<(Expression, usize)> = Vec::new();
            let mut i: usize = 0;
            proof {
                assert(case_views(cs@) =~= vcases.subrange(0, 0));
            }
            while i < cases.len()
                invariant
                    i <= cases.len(),
                    cs@.len() == i,
                    vcases == case_views(cases@),
                    vcases.len() == cases@.len(),
                    forall|k: int|
                        0 <= k < cases@.len() ==> vcases[k] == (
                            expr_view((#[trigger] cases@[k]).0),
                            cases@[k].1,
                        ),
                    case_views(cs@) == vcases.subrange(0, i as int),
                    forall|k: int|
                        0 <= k < cases@.len() ==> expr_height_lt_expr(
                            (#[trigger] cases@[k]).0,
                            *e,
                        ),
                decreases cases.len() - i,
            {
                let ghost pre = cs@;
                let ce = clone_expr_smaller(&cases[i].0, Ghost(*e));
                let tgt = cases[i].1;
                cs.push((ce, tgt));
                i = i + 1;
                proof {
                    assert(cs@.drop_last() =~= pre);
                    assert(case_views(cs@) =~= vcases.subrange(0, i as int));
                }
            }
            proof {
                assert(vcases.subrange(0, vcases.len() as int) =~= vcases);
            }
            Expression::SwitchJump {
                value: Box::new(clone_expr(value)),
                cases: cs,
                default: *default,
            }
        },
        Expression::NoOp => Expression::NoOp,
        Expression::FnCall { function, args } => Expression::FnCall {
            function: Box::new(clone_expr(function)),
            args: clone_expr_vec_for(args, Ghost(*e), Ghost(ExprChildren::FnCallArgs)),
        },
        Expression::InlineAsm { text } => Expression::InlineAsm { text: text.clone() },
        Expression::Cast { ty, value } => Expression::Cast {
            ty: crate::ty::clone_ctype(ty),
            value: Box::new(clone_expr(value)),
        },
        Expression::Repeat { lhs, value, count } => Expression::Repeat {
            lhs: Box::new(clone_expr(lhs)),
            value: Box::new(clone_expr(value)),
            count: *count,
        },
    }
}

/// Which child list of an expression a clone walks; ghost bookkeeping for
/// the termination argument.
pub enum ExprChildren {
    StructFields,
    ArrayFields,
    FnCallArgs,
}

/// The named child list of `e`.
pub open spec fn expr_child_list(e: Expression, which: ExprChildren) -> Seq<Expression> {
    match which {
        ExprChildren::StructFields => e->Struct_fields@,
        ExprChildren::ArrayFields => e->Array_fields@,
        ExprChildren::FnCallArgs => e->FnCall_args@,
    }
}

pub open spec fn expr_height_lt_expr(a: Expression, b: Expression) -> bool {
    decreases_to!(b => a)
}

pub open spec fn expr_height_lt_acc(a: VariableAccess, b: Expression) -> bool {
    decreases_to!(b => a)
}

fn clone_expr_smaller(e: &Expression, parent: Ghost<Expression>) -> (r: Expression)
    requires
        expr_height_lt_expr(*e, parent@),
    ensures
        expr_view(r) == expr_view(*e),
    decreases parent@, 0int,
{
    clone_expr(e)
}

fn clone_access_smaller(a: &VariableAccess, parent: Ghost<Expression>) -> (r: VariableAccess)
    requires
        expr_height_lt_acc(*a, parent@),
    ensures
        access_view(r) == access_view(*a),
    decreases parent@, 0int,
{
    match a {
        VariableAccess::Reference => VariableAccess::Reference,
        VariableAccess::Dereference => VariableAccess::Dereference,
        VariableAccess::Field { name } => VariableAccess::Field { name: name.clone() },
        VariableAccess::Index { expression } => {
            proof {
                assert(decreases_to!(*a => a->Index_expression));
            }
            VariableAccess::Index { expression: clone_expr(expression) }
        },
        VariableAccess::Cast { ty } => VariableAccess::Cast { ty: crate::ty::clone_ctype(ty) },
        VariableAccess::FatPtrDereference { ty } => VariableAccess::FatPtrDereference {
            ty: crate::ty::clone_ctype(ty),
        },
        VariableAccess::Unwrap => VariableAccess::Unwrap,
    }
}

/// Clones a child list of `parent`, preserving views.
fn clone_expr_vec_for(v: &Vec<Expression>, parent: Ghost<Expression>, which: Ghost<ExprChildren>) -> (r:
    Vec<Expression>)
    requires
        v@ == expr_child_list(parent@, which@),
        decreases_to!(parent@ => expr_child_list(parent@, which@)),
    ensures
        expr_views(r@) == expr_views(v@),
    decreases parent@, 1int,
{
    let ghost vviews = expr_views(v@);
    proof {
        lemma_expr_views_index(v@);
        assert forall|k: int| 0 <= k < v@.len() implies expr_height_lt_expr(
            #[trigger] v@[k],
            parent@,
        ) by {
            assert(decreases_to!(expr_child_list(parent@, which@) => expr_child_list(
                parent@,
                which@,
            )[k]));
        }
    }
    let mut r: Vec<Expression> = Vec::new();
    let mut i: usize = 0;
    proof {
        assert(expr_views(r@) =~= vviews.subrange(0, 0));
    }
    while i < v.len()
        invariant
            i <= v.len(),
            r@.len() == i,
            vviews == expr_views(v@),
            vviews.len() == v@.len(),
            forall|k: int| 0 <= k < v@.len() ==> vviews[k] == expr_view(#[trigger] v@[k]),
            expr_views(r@) == vviews.subrange(0, i as int),
            forall|k: int| 0 <= k < v@.len() ==> expr_height_lt_expr(#[trigger] v@[k], parent@),
        decreases v.len() - i,
    {
        let ghost pre = r@;
        r.push(clone_expr_smaller(&v[i], parent));
        i = i + 1;
        proof {
            assert(r@.drop_last() =~= pre);
            assert(expr_views(r@) =~= vviews.subrange(0, i as int));
        }
    }
    proof {
        assert(vviews.subrange(0, vviews.len() as int) =~= vviews);
    }
    r
}

/// The C spelling of a binary operator.
pub open spec fn binop_text(op: BinOpType) -> Seq<char> {
    match op {
        BinOpType::Add => "+"@,
        BinOpType::Sub => "-"@,
        BinOpType::Mul => "*"@,
        BinOpType::CheckedAdd => "+"@,
        BinOpType::CheckedSub => "-"@,
        BinOpType::CheckedMul => "*"@,
        BinOpType::Div => "/"@,
        BinOpType::Mod => "%"@,
        BinOpType::And => "&"@,
        BinOpType::Or => "|"@,
        BinOpType::Xor => "^"@,
        BinOpType::Shl => "<<"@,
        BinOpType::Shr => ">>"@,
        BinOpType::Eq => "=="@,
        BinOpType::Ne => "!="@,
        BinOpType::Lt => "<"@,
        BinOpType::Le => "<="@,
        BinOpType::Gt => ">"@,
        BinOpType::Ge => ">="@,
    }
}

/// The word naming an operator, used to derive helper function names.
pub open spec fn binop_name_text(op: BinOpType) -> Seq<char> {
    match op {
        BinOpType::Add => "add"@,
        BinOpType::Sub => "sub"@,
        BinOpType::Mul => "mul"@,
        BinOpType::CheckedAdd => "checked_add"@,
        BinOpType::CheckedSub => "checked_sub"@,
        BinOpType::CheckedMul => "checked_mul"@,
        BinOpType::Div => "div"@,
        BinOpType::Mod => "mod"@,
        BinOpType::And => "and"@,
        BinOpType::Or => "or"@,
        BinOpType::Xor => "xor"@,
        BinOpType::Shl => "shl"@,
        BinOpType::Shr => "shr"@,
        BinOpType::Eq => "eq"@,
        BinOpType::Ne => "ne"@,
        BinOpType::Lt => "lt"@,
        BinOpType::Le => "le"@,
        BinOpType::Gt => "gt"@,
        BinOpType::Ge => "ge"@,
    }
}

/// The C spelling of a unary operator.
pub open spec fn unop_text(op: UnaryOpType) -> Seq<char> {
    match op {
        UnaryOpType::Neg => "-"@,
        UnaryOpType::Not => "!"@,
        UnaryOpType::BitNot => "~"@,
    }
}

impl BinOpType {
    /// The C spelling of the operator.
    pub fn repr_str(&self) -> (r: &'static str)
        ensures
            r@ == binop_text(*self),
    {
        match *self {
            BinOpType::Add => "+",
            BinOpType::Sub => "-",
            BinOpType::Mul => "*",
            BinOpType::CheckedAdd => "+",
            BinOpType::CheckedSub => "-",
            BinOpType::CheckedMul => "*",
            BinOpType::Div => "/",
            BinOpType::Mod => "%",
            BinOpType::And => "&",
            BinOpType::Or => "|",
            BinOpType::Xor => "^",
            BinOpType::Shl => "<<",
            BinOpType::Shr => ">>",
            BinOpType::Eq => "==",
            BinOpType::Ne => "!=",
            BinOpType::Lt => "<",
            BinOpType::Le => "<=",
            BinOpType::Gt => ">",
            BinOpType::Ge => ">=",
        }
    }

    /// The word naming the operator.
    pub fn name_str(&self) -> (r: &'static str)
        ensures
            r@ == binop_name_text(*self),
    {
        match *self {
            BinOpType::Add => "add",
            BinOpType::Sub => "sub",
            BinOpType::Mul => "mul",
            BinOpType::CheckedAdd => "checked_add",
            BinOpType::CheckedSub => "checked_sub",
            BinOpType::CheckedMul => "checked_mul",
            BinOpType::Div => "div",
            BinOpType::Mod => "mod",
            BinOpType::And => "and",
            BinOpType::Or => "or",
            BinOpType::Xor => "xor",
            BinOpType::Shl => "shl",
            BinOpType::Shr => "shr",
            BinOpType::Eq => "eq",
            BinOpType::Ne => "ne",
            BinOpType::Lt => "lt",
            BinOpType::Le => "le",
            BinOpType::Gt => "gt",
            BinOpType::Ge => "ge",
        }
    }
}

impl UnaryOpType {
    /// The C spelling of the operator.
    pub fn repr_str(&self) -> (r: &'static str)
        ensures
            r@ == unop_text(*self),
    {
        match *self {
            UnaryOpType::Neg => "-",
            UnaryOpType::Not => "!",
            UnaryOpType::BitNot => "~",
        }
    }
}

/// The exact text an expression renders to. A bare local resolves to its
/// declared name in the enclosing function `f`.
pub open spec fn expr_text(e: ExprV, f: CFunctionV, ctx: RepCtxV) -> Seq<char>
    decreases e,
{
    match e {
        ExprV::Constant(v) => v,
        ExprV::Variable { local, access } => chain_text(local_name_of(f, local), access, f, ctx),
        ExprV::Assignment(l, r) => expr_text(*l, f, ctx) + " = "@ + expr_text(*r, f, ctx),
        ExprV::BinaryOp(op, l, r) => expr_text(*l, f, ctx) + " "@ + binop_text(op) + " "@
            + expr_text(*r, f, ctx),
        ExprV::UnaryOp(op, v) => unop_text(op) + expr_text(*v, f, ctx),
        ExprV::Struct { name, fields } => "("@ + expr_text(*name, f, ctx) + "){ "@
            + exprs_join_text(fields, f, ctx) + " }"@,
        ExprV::NamedStruct { name, fields } => "("@ + expr_text(*name, f, ctx) + "){ "@
            + named_fields_text(fields, f, ctx) + " }"@,
        ExprV::Array(fields) => exprs_join_text(fields, f, ctx),
        ExprV::NoOp => if ctx.include_comments {
            "/* NoOp */"@
        } else {
            Seq::<char>::empty()
        },
        ExprV::Return(v) => "return "@ + expr_text(*v, f, ctx),
        ExprV::Goto(t) => "goto "@ + bbid_text(t),
        ExprV::SwitchJump { value, cases, default } => "switch ("@ + expr_text(*value, f, ctx)
            + ")"@ + " {\n"@ + cases_text(cases, f, ctx) + indent_text_v(ctx) + "default: goto "@
            + bbid_text(default) + ";"@ + newline_text_v(ctx) + indent_text_v(ctx) + "}"@,
        ExprV::FnCall { function, args } => expr_text(*function, f, ctx) + "("@ + exprs_join_text(
            args,
            f,
            ctx,
        ) + ")"@,
        ExprV::InlineAsm(s) => "asm(\""@ + s + "\")"@,
        ExprV::Cast(ty, v) => "("@ + ctype_text(ty, 0, Option::None) + ")"@ + expr_text(
            *v,
            f,
            ctx,
        ),
        ExprV::Repeat { lhs, value, count } => repeat_items_text(
            expr_text(*lhs, f, ctx),
            expr_text(*value, f, ctx),
            count as nat,
        ),
    }
}

/// An access chain applied left to right to the text rendered so far.
pub open spec fn chain_text(cur: Seq<char>, acc: Seq<AccessV>, f: CFunctionV, ctx: RepCtxV) -> Seq<
    char,
>
    decreases acc,
{
    if acc.len() == 0 {
        cur
    } else {
        chain_text(access_step_text(cur, acc[0], f, ctx), acc.drop_first(), f, ctx)
    }
}

/// One access step wrapped around the text rendered so far.
pub open spec fn access_step_text(cur: Seq<char>, a: AccessV, f: CFunctionV, ctx: RepCtxV) -> Seq<
    char,
>
    decreases a,
{
    match a {
        AccessV::Reference => "&"@ + cur,
        AccessV::Dereference => "(*"@ + cur + ")"@,
        AccessV::Field(n) => cur + "."@ + n,
        AccessV::Index(e) => cur + "["@ + expr_text(*e, f, ctx) + "]"@,
        AccessV::Cast(ty) => "(("@ + ctype_text(ty, 0, Option::None) + ")"@ + cur + ")"@,
        AccessV::FatPtrDereference(ty) => "(("@ + ctype_text(
            ty,
            0,
            Option::Some(Seq::<char>::empty()),
        ) + ") ("@ + cur + "."@ + crate::fatptr::fat_ptr_data_field_text() + "))"@,
        AccessV::Unwrap => cur + "."@ + crate::ty::wrapper_field_name_text(),
    }
}

/// Expressions joined by commas.
pub open spec fn exprs_join_text(s: Seq<ExprV>, f: CFunctionV, ctx: RepCtxV) -> Seq<char>
    decreases s,
{
    if s.len() == 0 {
        Seq::<char>::empty()
    } else if s.len() == 1 {
        expr_text(s[0], f, ctx)
    } else {
        exprs_join_text(s.drop_last(), f, ctx) + ", "@ + expr_text(s.last(), f, ctx)
    }
}

/// Named construction fields joined by commas.
pub open spec fn named_fields_text(s: Seq<(Seq<char>, ExprV)>, f: CFunctionV, ctx: RepCtxV) -> Seq<
    char,
>
    decreases s,
{
    if s.len() == 0 {
        Seq::<char>::empty()
    } else if s.len() == 1 {
        "."@ + s[0].0 + " = "@ + expr_text(s[0].1, f, ctx)
    } else {
        named_fields_text(s.drop_last(), f, ctx) + ", "@ + "."@ + s.last().0 + " = "@ + expr_text(
            s.last().1,
            f,
            ctx,
        )
    }
}

/// Switch cases, each on its own indented line.
pub open spec fn cases_text(s: Seq<(ExprV, usize)>, f: CFunctionV, ctx: RepCtxV) -> Seq<char>
    decreases s,
{
    if s.len() == 0 {
        Seq::<char>::empty()
    } else {
        cases_text(s.drop_last(), f, ctx) + indent_text_v(ctx) + "case "@ + expr_text(
            s.last().0,
            f,
            ctx,
        ) + ": goto "@ + bbid_text(s.last().1) + ";"@ + newline_text_v(ctx)
    }
}

/// `count` per-slot assignments of the same value, joined by commas.
pub open spec fn repeat_items_text(l: Seq<char>, v: Seq<char>, n: nat) -> Seq<char>
    decreases n,
{
    if n == 0 {
        Seq::<char>::empty()
    } else if n == 1 {
        l + "["@ + crate::utils::dec_text(0) + "] = "@ + v
    } else {
        repeat_items_text(l, v, (n - 1) as nat) + ", "@ + l + "["@ + crate::utils::dec_text(
            (n - 1) as nat,
        ) + "] = "@ + v
    }
}

/// Whether every bare local mentioned by `e` is declared in `f`.
pub open spec fn expr_wf(e: ExprV, f: CFunctionV) -> bool
    decreases e,
{
    match e {
        ExprV::Constant(_) => true,
        ExprV::Variable { local, access } => has_local(f, local) && accs_wf(access, f),
        ExprV::Assignment(l, r) => expr_wf(*l, f) && expr_wf(*r, f),
        ExprV::BinaryOp(_, l, r) => expr_wf(*l, f) && expr_wf(*r, f),
        ExprV::UnaryOp(_, v) => expr_wf(*v, f),
        ExprV::Struct { name, fields } => expr_wf(*name, f) && exprs_wf(fields, f),
        ExprV::NamedStruct { name, fields } => expr_wf(*name, f) && named_wf(fields, f),
        ExprV::Array(fields) => exprs_wf(fields, f),
        ExprV::NoOp => true,
        ExprV::Return(v) => expr_wf(*v, f),
        ExprV::Goto(_) => true,
        ExprV::SwitchJump { value, cases, .. } => expr_wf(*value, f) && cases_wf(cases, f),
        ExprV::FnCall { function, args } => expr_wf(*function, f) && exprs_wf(args, f),
        ExprV::InlineAsm(_) => true,
        ExprV::Cast(_, v) => expr_wf(*v, f),
        ExprV::Repeat { lhs, value, .. } => expr_wf(*lhs, f) && expr_wf(*value, f),
    }
}

pub open spec fn accs_wf(s: Seq<AccessV>, f: CFunctionV) -> bool
    decreases s,
{
    if s.len() == 0 {
        true
    } else {
        acc_wf(s[0], f) && accs_wf(s.drop_first(), f)
    }
}

pub open spec fn acc_wf(a: AccessV, f: CFunctionV) -> bool
    decreases a,
{
    match a {
        AccessV::Index(e) => expr_wf(*e, f),
        _ => true,
    }
}

pub open spec fn exprs_wf(s: Seq<ExprV>, f: CFunctionV) -> bool
    decreases s,
{
    if s.len() == 0 {
        true
    } else {
        exprs_wf(s.drop_last(), f) && expr_wf(s.last(), f)
    }
}

pub open spec fn named_wf(s: Seq<(Seq<char>, ExprV)>, f: CFunctionV) -> bool
    decreases s,
{
    if s.len() == 0 {
        true
    } else {
        named_wf(s.drop_last(), f) && expr_wf(s.last().1, f)
    }
}

pub open spec fn cases_wf(s: Seq<(ExprV, usize)>, f: CFunctionV) -> bool
    decreases s,
{
    if s.len() == 0 {
        true
    } else {
        cases_wf(s.drop_last(), f) && expr_wf(s.last().0, f)
    }
}

/// Elements of a well-formed expression list are well formed.
pub proof fn lemma_exprs_wf_index(s: Seq<ExprV>, f: CFunctionV)
    requires
        exprs_wf(s, f),
    ensures
        forall|i: int| 0 <= i < s.len() ==> expr_wf(#[trigger] s[i], f),
    decreases s.len(),
{
    if s.len() > 0 {
        lemma_exprs_wf_index(s.drop_last(), f);
        assert forall|i: int| 0 <= i < s.len() implies expr_wf(#[trigger] s[i], f) by {
            if i < s.len() - 1 {
                assert(s.drop_last()[i] == s[i]);
            }
        }
    }
}

/// Elements of a well-formed named-field list are well formed.
pub proof fn lemma_named_wf_index(s: Seq<(Seq<char>, ExprV)>, f: CFunctionV)
    requires
        named_wf(s, f),
    ensures
        forall|i: int| 0 <= i < s.len() ==> expr_wf((#[trigger] s[i]).1, f),
    decreases s.len(),
{
    if s.len() > 0 {
        lemma_named_wf_index(s.drop_last(), f);
        assert forall|i: int| 0 <= i < s.len() implies expr_wf((#[trigger] s[i]).1, f) by {
            if i < s.len() - 1 {
                assert(s.drop_last()[i] == s[i]);
            }
        }
    }
}

/// Elements of a well-formed case list are well formed.
pub proof fn lemma_cases_wf_index(s: Seq<(ExprV, usize)>, f: CFunctionV)
    requires
        cases_wf(s, f),
    ensures
        forall|i: int| 0 <= i < s.len() ==> expr_wf((#[trigger] s[i]).0, f),
    decreases s.len(),
{
    if s.len() > 0 {
        lemma_cases_wf_index(s.drop_last(), f);
        assert forall|i: int| 0 <= i < s.len() implies expr_wf((#[trigger] s[i]).0, f) by {
            if i < s.len() - 1 {
                assert(s.drop_last()[i] == s[i]);
            }
        }
    }
}

/// Elements of a well-formed access chain are well formed.
pub proof fn lemma_accs_wf_index(s: Seq<AccessV>, f: CFunctionV)
    requires
        accs_wf(s, f),
    ensures
        forall|i: int| 0 <= i < s.len() ==> acc_wf(#[trigger] s[i], f),
    decreases s.len(),
{
    if s.len() > 0 {
        lemma_accs_wf_index(s.drop_first(), f);
        assert forall|i: int| 0 <= i < s.len() implies acc_wf(#[trigger] s[i], f) by {
            if i > 0 {
                assert(s.drop_first()[i - 1] == s[i]);
            }
        }
    }
}

/// Appends the text of `e`, resolving bare locals in `f`.
#[verifier::rlimit(100)]
pub fn push_expr(out: &mut String, e: &Expression, f: &CFunction, ctx: &RepresentationContext)
    requires
        expr_wf(expr_view(*e), fn_view(*f)),
    ensures
        final(out)@ == old(out)@ + expr_text(expr_view(*e), fn_view(*f), ctx_view(*ctx)),
    decreases *e, 2int,
{
    let ghost fv = fn_view(*f);
    let ghost cv = ctx_view(*ctx);
    match e {
        Expression::Constant { value } => {
            out.append(crate::crepr::self_str(value));
        },
        Expression::Variable { local, access } => {
            let ghost vaccs = access_views(access@);
            proof {
                lemma_access_views_index(access@);
                lemma_accs_wf_index(vaccs, fv);
                assert forall|k: int| 0 <= k < access@.len() implies expr_height_lt_acc(
                    #[trigger] access@[k],
                    *e,
                ) by {
                    assert(decreases_to!(*e => e->Variable_access));
                    assert(decreases_to!(e->Variable_access => e->Variable_access@));
                    assert(decreases_to!(e->Variable_access@ => e->Variable_access@[k]));
                }
            }
            let mut cur: String = f.get_local_var(*local).get_name();
            let ghost name0 = cur@;
            let mut i: usize = 0;
            proof {
                assert(vaccs.skip(0) =~= vaccs);
            }
            while i < access.len()
                invariant
                    i <= access.len(),
                    fv == fn_view(*f),
                    cv == ctx_view(*ctx),
                    vaccs == access_views(access@),
                    vaccs.len() == access@.len(),
                    forall|k: int|
                        0 <= k < access@.len() ==> vaccs[k] == access_view(
                            #[trigger] access@[k],
                        ),
                    forall|k: int| 0 <= k < vaccs.len() ==> acc_wf(#[trigger] vaccs[k], fv),
                    chain_text(name0, vaccs, fv, cv) == chain_text(
                        cur@,
                        vaccs.skip(i as int),
                        fv,
                        cv,
                    ),
                    forall|k: int|
                        0 <= k < access@.len() ==> expr_height_lt_acc(
                            #[trigger] access@[k],
                            *e,
                        ),
                decreases access.len() - i,
            {
                let ghost pre = cur@;
                cur = push_access_step(cur, &access[i], f, ctx, Ghost(*e));
                i = i + 1;
                proof {
                    let rest = vaccs.skip(i - 1);
                    assert(rest[0] == vaccs[i - 1]);
                    assert(rest.drop_first() =~= vaccs.skip(i as int));
                }
            }
            proof {
                assert(vaccs.skip(vaccs.len() as int) =~= Seq::<AccessV>::empty());
            }
            out.append(crate::crepr::self_str(&cur));
            proof {
                assert(out@ =~= old(out)@ + expr_text(expr_view(*e), fv, cv));
            }
        },
        Expression::Assignment { lhs, rhs } => {
            push_expr(out, lhs, f, ctx);
            out.append(" = ");
            push_expr(out, rhs, f, ctx);
            proof {
                assert(out@ =~= old(out)@ + expr_text(expr_view(*e), fv, cv));
            }
        },
        Expression::BinaryOp { op, lhs, rhs } => {
            push_expr(out, lhs, f, ctx);
            out.append(" ");
            out.append(op.repr_str());
            out.append(" ");
            push_expr(out, rhs, f, ctx);
            proof {
                assert(out@ =~= old(out)@ + expr_text(expr_view(*e), fv, cv));
            }
        },
        Expression::UnaryOp { op, val } => {
            out.append(op.repr_str());
            push_expr(out, val, f, ctx);
            proof {
                assert(out@ =~= old(out)@ + expr_text(expr_view(*e), fv, cv));
            }
        },
        Expression::Struct { name, fields } => {
            out.append("(");
            push_expr(out, name, f, ctx);
            out.append("){ ");
            push_expr_join(out, fields, f, ctx, Ghost(*e), Ghost(ExprChildren::StructFields));
            out.append(" }");
            proof {
                assert(out@ =~= old(out)@ + expr_text(expr_view(*e), fv, cv));
            }
        },
        Expression::NamedStruct { name, fields } => {
            out.append("(");
            push_expr(out, name, f, ctx);
            out.append("){ ");
            let ghost vfields = named_views(fields@);
            proof {
                lemma_named_views_index(fields@);
                lemma_named_wf_index(vfields, fv);
                assert forall|k: int| 0 <= k < fields@.len() implies expr_height_lt_expr(
                    (#[trigger] fields@[k]).1,
                    *e,
                ) by {
                    assert(decreases_to!(*e => e->NamedStruct_fields));
                    assert(decreases_to!(e->NamedStruct_fields => e->NamedStruct_fields@));
                    assert(decreases_to!(e->NamedStruct_fields@ => e->NamedStruct_fields@[k]));
                    assert(decreases_to!(e->NamedStruct_fields@[k] => e->NamedStruct_fields@[k].1));
                }
            }
            let ghost base = out@;
            let mut i: usize = 0;
            proof {
                assert(vfields.subrange(0, 0) =~= Seq::<(Seq<char>, ExprV)>::empty());
            }
            while i < fields.len()
                invariant
                    i <= fields.len(),
                    fv == fn_view(*f),
                    cv == ctx_view(*ctx),
                    vfields == named_views(fields@),
                    vfields.len() == fields@.len(),
                    forall|k: int|
                        0 <= k < fields@.len() ==> vfields[k] == (
                            (#[trigger] fields@[k]).0@,
                            expr_view(fields@[k].1),
                        ),
                    forall|k: int|
                        0 <= k < vfields.len() ==> expr_wf((#[trigger] vfields[k]).1, fv),
                    out@ == base + named_fields_text(vfields.subrange(0, i as int), fv, cv),
                    forall|k: int|
                        0 <= k < fields@.len() ==> expr_height_lt_expr(
                            (#[trigger] fields@[k]).1,
                            *e,
                        ),
                decreases fields.len() - i,
            {
                if i > 0 {
                    out.append(", ");
                }
                out.append(".");
                out.append(crate::crepr::self_str(&fields[i].0));
                out.append(" = ");
                push_expr_smaller(out, &fields[i].1, f, ctx, Ghost(*e));
                i = i + 1;
                proof {
                    let pre = vfields.subrange(0, i as int);
                    assert(pre.drop_last() =~= vfields.subrange(0, i - 1));
                    assert(pre.last() == vfields[i - 1]);
                    assert(out@ =~= base + named_fields_text(pre, fv, cv));
                }
            }
            proof {
                assert(vfields.subrange(0, vfields.len() as int) =~= vfields);
            }
            out.append(" }");
            proof {
                assert(out@ =~= old(out)@ + expr_text(expr_view(*e), fv, cv));
            }
        },
        Expression::Array { fields } => {
            push_expr_join(out, fields, f, ctx, Ghost(*e), Ghost(ExprChildren::ArrayFields));
            proof {
                assert(out@ =~= old(out)@ + expr_text(expr_view(*e), fv, cv));
            }
        },
        Expression::Goto { target } => {
            out.append("goto ");
            crate::bb::BasicBlockIdentifier(*target).repr(out);
            proof {
                assert(out@ =~= old(out)@ + expr_text(expr_view(*e), fv, cv));
            }
        },
        Expression::Return { value } => {
            out.append("return ");
            push_expr(out, value, f, ctx);
            proof {
                assert(out@ =~= old(out)@ + expr_text(expr_view(*e), fv, cv));
            }
        },
        Expression::SwitchJump { value, cases, default } => {
            out.append("switch (");
            push_expr(out, value, f, ctx);
            out.append(")");
            out.append(" {\n");
            let ghost vcases = case_views(cases@);
            proof {
                lemma_case_views_index(cases@);
                lemma_cases_wf_index(vcases, fv);
                assert forall|k: int| 0 <= k < cases@.len() implies expr_height_lt_expr(
                    (#[trigger] cases@[k]).0,
                    *e,
                ) by {
                    assert(decreases_to!(*e => e->SwitchJump_cases));
                    assert(decreases_to!(e->SwitchJump_cases => e->SwitchJump_cases@));
                    assert(decreases_to!(e->SwitchJump_cases@ => e->SwitchJump_cases@[k]));
                    assert(decreases_to!(e->SwitchJump_cases@[k] => e->SwitchJump_cases@[k].0));
                }
            }
            let ghost base = out@;
            let mut i: usize = 0;
            proof {
                assert(vcases.subrange(0, 0) =~= Seq::<(ExprV, usize)>::empty());
            }
            while i < cases.len()
                invariant
                    i <= cases.len(),
                    fv == fn_view(*f),
                    cv == ctx_view(*ctx),
                    vcases == case_views(cases@),
                    vcases.len() == cases@.len(),
                    forall|k: int|
                        0 <= k < cases@.len() ==> vcases[k] == (
                            expr_view((#[trigger] cases@[k]).0),
                            cases@[k].1,
                        ),
                    forall|k: int|
                        0 <= k < vcases.len() ==> expr_wf((#[trigger] vcases[k]).0, fv),
                    out@ == base + cases_text(vcases.subrange(0, i as int), fv, cv),
                    forall|k: int|
                        0 <= k < cases@.len() ==> expr_height_lt_expr(
                            (#[trigger] cases@[k]).0,
                            *e,
                        ),
                decreases cases.len() - i,
            {
                crate::crepr::indent(out, ctx);
                out.append("case ");
                push_expr_smaller(out, &cases[i].0, f, ctx, Ghost(*e));
                out.append(": goto ");
                crate::bb::BasicBlockIdentifier(cases[i].1).repr(out);
                out.append(";");
                crate::crepr::push_newline(out, ctx);
                i = i + 1;
                proof {
                    let pre = vcases.subrange(0, i as int);
                    assert(pre.drop_last() =~= vcases.subrange(0, i - 1));
                    assert(pre.last() == vcases[i - 1]);
                    assert(out@ =~= base + cases_text(pre, fv, cv));
                }
            }
            proof {
                assert(vcases.subrange(0, vcases.len() as int) =~= vcases);
            }
            crate::crepr::indent(out, ctx);
            out.append("default: goto ");
            crate::bb::BasicBlockIdentifier(*default).repr(out);
            out.append(";");
            crate::crepr::push_newline(out, ctx);
            crate::crepr::indent(out, ctx);
            out.append("}");
            proof {
                assert(out@ =~= old(out)@ + expr_text(expr_view(*e), fv, cv));
            }
        },
        Expression::NoOp => {
            if ctx.include_comments {
                out.append("/* NoOp */");
            }
            proof {
                assert(out@ =~= old(out)@ + expr_text(expr_view(*e), fv, cv));
            }
        },
        Expression::FnCall { function, args } => {
            push_expr(out, function, f, ctx);
            out.append("(");
            push_expr_join(out, args, f, ctx, Ghost(*e), Ghost(ExprChildren::FnCallArgs));
            out.append(")");
            proof {
                assert(out@ =~= old(out)@ + expr_text(expr_view(*e), fv, cv));
            }
        },
        Expression::InlineAsm { text } => {
            out.append("asm(\"");
            out.append(crate::crepr::self_str(text));
            out.append("\")");
            proof {
                assert(out@ =~= old(out)@ + expr_text(expr_view(*e), fv, cv));
            }
        },
        Expression::Cast { ty, value } => {
            out.append("(");
            push_ctype(out, ty, 0, &None);
            out.append(")");
            push_expr(out, value, f, ctx);
            proof {
                assert(out@ =~= old(out)@ + expr_text(expr_view(*e), fv, cv));
            }
        },
        Expression::Repeat { lhs, value, count } => {
            let mut ltxt = String::new();
            push_expr(&mut ltxt, lhs, f, ctx);
            let mut vtxt = String::new();
            push_expr(&mut vtxt, value, f, ctx);
            proof {
                assert(ltxt@ =~= expr_text(expr_view(**lhs), fv, cv));
                assert(vtxt@ =~= expr_text(expr_view(**value), fv, cv));
            }
            let ghost base = out@;
            let mut i: usize = 0;
            while i < *count
                invariant
                    i <= *count,
                    ltxt@ == expr_text(expr_view(**lhs), fv, cv),
                    vtxt@ == expr_text(expr_view(**value), fv, cv),
                    out@ == base + repeat_items_text(ltxt@, vtxt@, i as nat),
                decreases *count - i,
            {
                if i > 0 {
                    out.append(", ");
                }
                out.append(crate::crepr::self_str(&ltxt));
                out.append("[");
                crate::utils::push_dec_usize(out, i);
                out.append("] = ");
                out.append(crate::crepr::self_str(&vtxt));
                i = i + 1;
                proof {
                    assert(out@ =~= base + repeat_items_text(ltxt@, vtxt@, i as nat));
                }
            }
            proof {
                assert(out@ =~= old(out)@ + expr_text(expr_view(*e), fv, cv));
            }
        },
    }
}

/// One access step applied to the text rendered so far.
fn push_access_step(
    cur: String,
    a: &VariableAccess,
    f: &CFunction,
    ctx: &RepresentationContext,
    parent: Ghost<Expression>,
) -> (r: String)
    requires
        expr_height_lt_acc(*a, parent@),
        acc_wf(access_view(*a), fn_view(*f)),
    ensures
        r@ == access_step_text(cur@, access_view(*a), fn_view(*f), ctx_view(*ctx)),
    decreases parent@, 1int,
{
    let ghost fv = fn_view(*f);
    let ghost cv = ctx_view(*ctx);
    let ghost cur0 = cur@;
    match a {
        VariableAccess::Reference => {
            let mut s = String::from_str("&");
            s.append(crate::crepr::self_str(&cur));
            proof {
                assert(s@ =~= access_step_text(cur0, access_view(*a), fv, cv));
            }
            s
        },
        VariableAccess::Dereference => {
            let mut s = String::from_str("(*");
            s.append(crate::crepr::self_str(&cur));
            s.append(")");
            proof {
                assert(s@ =~= access_step_text(cur0, access_view(*a), fv, cv));
            }
            s
        },
        VariableAccess::Field { name } => {
            let mut s = cur;
            s.append(".");
            s.append(crate::crepr::self_str(name));
            proof {
                assert(s@ =~= access_step_text(cur0, access_view(*a), fv, cv));
            }
            s
        },
        VariableAccess::Index { expression } => {
            proof {
                assert(decreases_to!(*a => a->Index_expression));
            }
            let mut s = cur;
            s.append("[");
            push_expr(&mut s, expression, f, ctx);
            s.append("]");
            proof {
                assert(s@ =~= access_step_text(cur0, access_view(*a), fv, cv));
            }
            s
        },
        VariableAccess::Cast { ty } => {
            let mut s = String::from_str("((");
            push_ctype(&mut s, ty, 0, &None);
            s.append(")");
            s.append(crate::crepr::self_str(&cur));
            s.append(")");
            proof {
                assert(s@ =~= access_step_text(cur0, access_view(*a), fv, cv));
            }
            s
        },
        VariableAccess::FatPtrDereference { ty } => {
            let mut s = String::from_str("((");
            let empty_name = Some(String::new());
            push_ctype(&mut s, ty, 0, &empty_name);
            s.append(") (");
            s.append(crate::crepr::self_str(&cur));
            s.append(".");
            s.append(crate::fatptr::fat_ptr_data_field());
            s.append("))");
            proof {
                assert(s@ =~= access_step_text(cur0, access_view(*a), fv, cv));
            }
            s
        },
        VariableAccess::Unwrap => {
            let mut s = cur;
            s.append(".");
            s.append(crate::ty::wrapper_field_name());
            proof {
                assert(s@ =~= access_step_text(cur0, access_view(*a), fv, cv));
            }
            s
        },
    }
}

/// Renders a child expression of `parent`.
fn push_expr_smaller(
    out: &mut String,
    e: &Expression,
    f: &CFunction,
    ctx: &RepresentationContext,
    parent: Ghost<Expression>,
)
    requires
        expr_height_lt_expr(*e, parent@),
        expr_wf(expr_view(*e), fn_view(*f)),
    ensures
        final(out)@ == old(out)@ + expr_text(expr_view(*e), fn_view(*f), ctx_view(*ctx)),
    decreases parent@, 0int,
{
    push_expr(out, e, f, ctx);
}

/// Renders a child list of `parent` joined by commas.
fn push_expr_join(
    out: &mut String,
    v: &Vec<Expression>,
    f: &CFunction,
    ctx: &RepresentationContext,
    parent: Ghost<Expression>,
    which: Ghost<ExprChildren>,
)
    requires
        v@ == expr_child_list(parent@, which@),
        decreases_to!(parent@ => expr_child_list(parent@, which@)),
        exprs_wf(expr_views(v@), fn_view(*f)),
    ensures
        final(out)@ == old(out)@ + exprs_join_text(expr_views(v@), fn_view(*f), ctx_view(*ctx)),
    decreases parent@, 1int,
{
    let ghost fv = fn_view(*f);
    let ghost cv = ctx_view(*ctx);
    let ghost vviews = expr_views(v@);
    proof {
        lemma_expr_views_index(v@);
        lemma_exprs_wf_index(vviews, fv);
        assert forall|k: int| 0 <= k < v@.len() implies expr_height_lt_expr(
            #[trigger] v@[k],
            parent@,
        ) by {
            assert(decreases_to!(expr_child_list(parent@, which@) => expr_child_list(
                parent@,
                which@,
            )[k]));
        }
    }
    let ghost base = out@;
    let mut i: usize = 0;
    proof {
        assert(vviews.subrange(0, 0) =~= Seq::<ExprV>::empty());
    }
    while i < v.len()
        invariant
            i <= v.len(),
            fv == fn_view(*f),
            cv == ctx_view(*ctx),
            vviews == expr_views(v@),
            vviews.len() == v@.len(),
            forall|k: int| 0 <= k < v@.len() ==> vviews[k] == expr_view(#[trigger] v@[k]),
            forall|k: int| 0 <= k < vviews.len() ==> expr_wf(#[trigger] vviews[k], fv),
            out@ == base + exprs_join_text(vviews.subrange(0, i as int), fv, cv),
            forall|k: int| 0 <= k < v@.len() ==> expr_height_lt_expr(#[trigger] v@[k], parent@),
        decreases v.len() - i,
    {
        if i > 0 {
            out.append(", ");
        }
        push_expr_smaller(out, &v[i], f, ctx, parent);
        i = i + 1;
        proof {
            let pre = vviews.subrange(0, i as int);
            assert(pre.drop_last() =~= vviews.subrange(0, i - 1));
            assert(pre.last() == vviews[i - 1]);
            assert(out@ =~= base + exprs_join_text(pre, fv, cv));
        }
    }
    proof {
        assert(vviews.subrange(0, vviews.len() as int) =~= vviews);
    }
}

impl Expression {
    /// Renders this expression, resolving bare locals in `f`.
    pub fn repr(&self, out: &mut String, f: &CFunction, ctx: &RepresentationContext)
        requires
            expr_wf(expr_view(*self), fn_view(*f)),
        ensures
            final(out)@ == old(out)@ + expr_text(expr_view(*self), fn_view(*f), ctx_view(*ctx)),
    {
        push_expr(out, self, f, ctx);
    }

    /// The rendered text as a fresh string.
    pub fn repr_str(&self, f: &CFunction, ctx: &RepresentationContext) -> (r: String)
        requires
            expr_wf(expr_view(*self), fn_view(*f)),
        ensures
            r@ == expr_text(expr_view(*self), fn_view(*f), ctx_view(*ctx)),
    {
        let mut s = String::new();
        push_expr(&mut s, self, f, ctx);
        proof {
            assert(s@ =~= expr_text(expr_view(*self), fn_view(*f), ctx_view(*ctx)));
        }
        s
    }
}

} // verus!
