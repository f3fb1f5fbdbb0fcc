use codegen_c::base::{Context, OngoingCodegen};
use codegen_c::crepr::RepresentationContext;
use codegen_c::definition::{CVarDecl, CVarDef};
use codegen_c::expression::{BinOpType, Expression, VariableAccess};
use codegen_c::function::{CFunction, CodegenFunctionCx};
use codegen_c::ir::{MirBody, SrcType, Terminator, TypeTable};
use codegen_c::static_alloc::StaticAllocation;
use codegen_c::ty::CType;

fn cx_with(kinds: Vec<SrcType>) -> CodegenFunctionCx {
    let mut table = TypeTable::new();
    let mut memo: Vec<Option<CType>> = Vec::new();
    for k in kinds {
        table.push(k);
        memo.push(None);
    }
    CodegenFunctionCx {
        table,
        mir: MirBody { local_tys: Vec::new(), arg_count: 0, blocks: Vec::new() },
        ongoing_codegen: OngoingCodegen { context: Context::new() },
        ty_to_c: memo,
        alloc_to_c: Vec::new(),
        allocs: Vec::new(),
        crate_num: 0,
    }
}

#[test]
fn mapping_is_memoized() {
    let mut cx = cx_with(vec![
        SrcType::Int { bits: 32 },
        SrcType::Tuple { fields: vec![0, 0] },
    ]);
    let c1 = cx.rust_to_c_type(1);
    let n = cx.ongoing_codegen.context.get_structs().len();
    let c2 = cx.rust_to_c_type(1);
    assert_eq!(cx.ongoing_codegen.context.get_structs().len(), n);
    match (c1, c2) {
        (CType::Struct(a), CType::Struct(b)) => {
            assert_eq!(a.ctx_idx, b.ctx_idx);
            assert_eq!(a.name, b.name);
        }
        _ => panic!("expected a registered struct"),
    }
}

#[test]
fn tuple_arity_rules() {
    let mut cx = cx_with(vec![
        SrcType::Int { bits: 32 },
        SrcType::Tuple { fields: vec![] },
        SrcType::Tuple { fields: vec![0] },
        SrcType::Tuple { fields: vec![0, 0] },
    ]);
    assert!(matches!(cx.rust_to_c_type(1), CType::Unit));
    let before = cx.ongoing_codegen.context.get_structs().len();
    assert!(matches!(cx.rust_to_c_type(2), CType::Int(_)));
    assert_eq!(cx.ongoing_codegen.context.get_structs().len(), before);
    let c = cx.rust_to_c_type(3);
    assert_eq!(cx.ongoing_codegen.context.get_structs().len(), before + 1);
    match c {
        CType::Struct(info) => {
            assert_eq!(info.name, "t_int32_tint32_t");
            let def = cx.ongoing_codegen.context.get_structs()[info.ctx_idx].as_struct_def();
            assert_eq!(def.fields.len(), 2);
            assert_eq!(def.fields[0].name, "field_0");
        }
        _ => panic!("expected a struct"),
    }
}

#[test]
fn adt_names_are_sanitized() {
    let mut cx = cx_with(vec![
        SrcType::Int { bits: 64 },
        SrcType::StructAdt {
            name: String::from("demo::Pair<i64, i64>"),
            field_names: vec![String::from("a"), String::from("b")],
            field_tys: vec![0, 0],
        },
    ]);
    match cx.rust_to_c_type(1) {
        CType::Struct(info) => assert_eq!(info.name, "demo__Pair_i64__i64"),
        _ => panic!("expected a struct"),
    }
}

#[test]
fn checked_helper_registered_once() {
    let mut cx = cx_with(vec![
        SrcType::Int { bits: 32 },
        SrcType::Bool,
        SrcType::Tuple { fields: vec![0, 1] },
    ]);
    let e1 = codegen_c::header::handle_checked_op(
        &mut cx,
        BinOpType::CheckedAdd,
        Expression::unbvari(1),
        Expression::unbvari(2),
        0,
        2,
    );
    let n = cx.ongoing_codegen.context.get_header_functions().len();
    assert_eq!(n, 1);
    let _e2 = codegen_c::header::handle_checked_op(
        &mut cx,
        BinOpType::CheckedAdd,
        Expression::unbvari(1),
        Expression::unbvari(2),
        0,
        2,
    );
    assert_eq!(cx.ongoing_codegen.context.get_header_functions().len(), 1);
    match e1 {
        Expression::FnCall { function, .. } => match *function {
            Expression::Constant { value } => assert_eq!(value, "checked_add_i32"),
            _ => panic!("expected the helper name"),
        },
        _ => panic!("expected a helper call"),
    }
    let ctx = RepresentationContext::standard();
    let mut text = String::new();
    cx.ongoing_codegen.context.get_header_functions()[0].repr(&mut text, &ctx);
    assert!(text.contains("first > INT32_MAX - second"));
    assert!(text.contains("first < INT32_MIN - second"));
}

#[test]
fn overflow_cases_concrete() {
    // The signed 32-bit add predicate on (2147483647, 1).
    let a: i64 = 2147483647;
    let b: i64 = 1;
    let max: i64 = 2147483647;
    let min: i64 = -2147483648;
    assert!((b > 0 && a > max - b) || (b < 0 && a < min - b));
    // The unsigned 32-bit sub predicate on (3, 5).
    let a: u32 = 3;
    let b: u32 = 5;
    assert!(a < b);
}

#[test]
fn access_chain_renders() {
    let mut f = CFunction::new(String::from("demo"), CType::Void);
    f.add_var_decl(CVarDecl::new(
        CVarDef::new(0, String::from("x"), CType::Int(codegen_c::ty::CIntTy::Int32)),
        None,
    ));
    f.add_var_decl(CVarDecl::new(
        CVarDef::new(1, String::from("i"), CType::Int(codegen_c::ty::CIntTy::Int32)),
        None,
    ));
    let mut access = Vec::new();
    access.push(VariableAccess::Field { name: String::from("y") });
    access.push(VariableAccess::Index { expression: Expression::unbvari(1) });
    let e = Expression::Variable { local: 0, access };
    let ctx = RepresentationContext::standard();
    let s = e.repr_str(&f, &ctx);
    assert_eq!(s, "x.y[i]");
}

#[test]
fn record_literal_assignment_renders() {
    let mut f = CFunction::new(String::from("demo"), CType::Void);
    f.add_var_decl(CVarDecl::new(
        CVarDef::new(0, String::from("p"), CType::Void),
        None,
    ));
    let mut fields = Vec::new();
    fields.push(Expression::const_int(1));
    fields.push(Expression::const_int(2));
    let name = String::from("StructName");
    let e = Expression::unbvari(0).assign(Expression::strct(Expression::constant(&name), fields));
    let ctx = RepresentationContext::standard();
    assert_eq!(e.repr_str(&f, &ctx), "p = (StructName){ 1, 2 }");
}

#[test]
fn return_reads_slot_zero() {
    let mut cx = cx_with(vec![SrcType::Int { bits: 32 }]);
    let stmts = codegen_c::bb::handle_terminator(&mut cx, &Terminator::Return);
    assert_eq!(stmts.len(), 1);
    let mut f = CFunction::new(String::from("demo"), CType::Void);
    f.add_var_decl(CVarDecl::new(
        CVarDef::new(0, String::from("var0"), CType::Int(codegen_c::ty::CIntTy::Int32)),
        None,
    ));
    let ctx = RepresentationContext::standard();
    let mut s = String::new();
    stmts[0].repr(&mut s, &f, &ctx);
    assert_eq!(s, "\treturn var0;\n");
}

#[test]
fn static_allocation_tiles() {
    let mut bytes = Vec::new();
    for i in 0..12u8 {
        bytes.push(i);
    }
    let mut ptrs = Vec::new();
    ptrs.push((4usize, Expression::constant_str("fn_target")));
    let alloc = StaticAllocation::new(String::from("ALLOC_0_CRATE_0"), bytes, ptrs);
    let ctx = RepresentationContext::standard();
    let mut s = String::new();
    alloc.repr(&mut s, &ctx);
    assert!(s.contains("int8_t bytes_0[4];"));
    assert!(s.contains("void* ptr_0; /* offset 4 */"));
    assert!(s.contains("{0x00, 0x01, 0x02, 0x03}"));
    assert!(s.contains("fn_target"));
    // Byte runs (4 + 0) plus one pointer width tile the 12-byte buffer.
    assert_eq!(4 + 8, 12);
}

#[test]
fn truncation_keeps_low_bytes() {
    assert_eq!(codegen_c::utils::truncate_to_size(0x1_02, 1), 0x02);
    assert_eq!(codegen_c::utils::truncate_to_size(0xff_ff_ff, 2), 0xff_ff);
    assert_eq!(codegen_c::utils::truncate_to_size(7, 16), 7);
}

#[test]
fn goto_and_switch_render() {
    let mut cx = cx_with(vec![SrcType::Int { bits: 32 }]);
    let stmts = codegen_c::bb::handle_terminator(&mut cx, &Terminator::Goto { target: 3 });
    let f = CFunction::new(String::from("demo"), CType::Void);
    let ctx = RepresentationContext::standard();
    let mut s = String::new();
    stmts[0].repr(&mut s, &f, &ctx);
    assert_eq!(s, "\tgoto bb3;\n");
}
