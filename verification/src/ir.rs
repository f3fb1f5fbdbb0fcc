//! The source intermediate representation the engine consumes: an
//! interned type table, and functions as basic blocks of statements and
//! terminators over places, operands and evaluated constants. The front
//! end that produces this form is an external collaborator; everything
//! here is plain data.

use vstd::prelude::*;

verus! {

/// One interned source type. Children are referred to by their index in
/// the table; a well-formed table orders children before parents.
pub enum SrcType {
    Bool,
    Char,
    Str,
    Never,
    Int { bits: u64 },
    Uint { bits: u64 },
    Float { bits: u64 },
    Tuple { fields: Vec<usize> },
    StructAdt { name: String, field_names: Vec<String>, field_tys: Vec<usize> },
    UnionAdt { name: String, field_names: Vec<String>, field_tys: Vec<usize> },
    EnumAdt {
        name: String,
        variant_names: Vec<String>,
        variant_fields: Vec<Vec<usize>>,
        discr_ty: usize,
        discr_vals: Vec<u128>,
        discr_size: usize,
    },
    Closure { upvars: usize },
    Dynamic,
    Slice { elem: usize },
    Ref { inner: usize, sized: bool },
    Array { elem: usize, len: usize },
    FnPtr { args: Vec<usize>, ret: usize },
    RawPtr { inner: usize },
    Other { name: String },
}

/// The view of one interned source type.
pub enum SrcTypeV {
    Bool,
    Char,
    Str,
    Never,
    Int { bits: u64 },
    Uint { bits: u64 },
    Float { bits: u64 },
    Tuple { fields: Seq<usize> },
    StructAdt { name: Seq<char>, field_names: Seq<Seq<char>>, field_tys: Seq<usize> },
    UnionAdt { name: Seq<char>, field_names: Seq<Seq<char>>, field_tys: Seq<usize> },
    EnumAdt {
        name: Seq<char>,
        variant_names: Seq<Seq<char>>,
        variant_fields: Seq<Seq<usize>>,
        discr_ty: usize,
        discr_vals: Seq<u128>,
        discr_size: usize,
    },
    Closure { upvars: usize },
    Dynamic,
    Slice { elem: usize },
    Ref { inner: usize, sized: bool },
    Array { elem: usize, len: usize },
    FnPtr { args: Seq<usize>, ret: usize },
    RawPtr { inner: usize },
    Other { name: Seq<char> },
}

/// The views of a string list.
pub open spec fn strings_view(s: Seq<String>) -> Seq<Seq<char>>
    decreases s,
{
    if s.len() == 0 {
        Seq::<Seq<char>>::empty()
    } else {
        strings_view(s.drop_last()).push(s.last()@)
    }
}

pub proof fn lemma_strings_view_index(s: Seq<String>)
    ensures
        strings_view(s).len() == s.len(),
        forall|i: int| 0 <= i < s.len() ==> strings_view(s)[i] == (#[trigger] s[i])@,
    decreases s.len(),
{
    if s.len() > 0 {
        lemma_strings_view_index(s.drop_last());
        assert forall|i: int| 0 <= i < s.len() implies strings_view(s)[i] == (#[trigger] s[i])@ by {
            if i < s.len() - 1 {
                assert(s.drop_last()[i] == s[i]);
            }
        }
    }
}

/// The views of a list of id lists.
pub open spec fn id_lists_view(s: Seq<Vec<usize>>) -> Seq<Seq<usize>>
    decreases s,
{
    if s.len() == 0 {
        Seq::<Seq<usize>>::empty()
    } else {
        id_lists_view(s.drop_last()).push(s.last()@)
    }
}

pub proof fn lemma_id_lists_view_index(s: Seq<Vec<usize>>)
    ensures
        id_lists_view(s).len() == s.len(),
        forall|i: int| 0 <= i < s.len() ==> id_lists_view(s)[i] == (#[trigger] s[i])@,
    decreases s.len(),
{
    if s.len() > 0 {
        lemma_id_lists_view_index(s.drop_last());
        assert forall|i: int| 0 <= i < s.len() implies id_lists_view(s)[i] == (
        #[trigger] s[i])@ by {
            if i < s.len() - 1 {
                assert(s.drop_last()[i] == s[i]);
            }
        }
    }
}

/// The view of one interned source type.
pub open spec fn src_type_view(t: SrcType) -> SrcTypeV {
    match t {
        SrcType::Bool => SrcTypeV::Bool,
        SrcType::Char => SrcTypeV::Char,
        SrcType::Str => SrcTypeV::Str,
        SrcType::Never => SrcTypeV::Never,
        SrcType::Int { bits } => SrcTypeV::Int { bits },
        SrcType::Uint { bits } => SrcTypeV::Uint { bits },
        SrcType::Float { bits } => SrcTypeV::Float { bits },
        SrcType::Tuple { fields } => SrcTypeV::Tuple { fields: fields@ },
        SrcType::StructAdt { name, field_names, field_tys } => SrcTypeV::StructAdt {
            name: name@,
            field_names: strings_view(field_names@),
            field_tys: field_tys@,
        },
        SrcType::UnionAdt { name, field_names, field_tys } => SrcTypeV::UnionAdt {
            name: name@,
            field_names: strings_view(field_names@),
            field_tys: field_tys@,
        },
        SrcType::EnumAdt { name, variant_names, variant_fields, discr_ty, discr_vals, discr_size } => SrcTypeV::EnumAdt {
            name: name@,
            variant_names: strings_view(variant_names@),
            variant_fields: id_lists_view(variant_fields@),
            discr_ty,
            discr_vals: discr_vals@,
            discr_size,
        },
        SrcType::Closure { upvars } => SrcTypeV::Closure { upvars },
        SrcType::Dynamic => SrcTypeV::Dynamic,
        SrcType::Slice { elem } => SrcTypeV::Slice { elem },
        SrcType::Ref { inner, sized } => SrcTypeV::Ref { inner, sized },
        SrcType::Array { elem, len } => SrcTypeV::Array { elem, len },
        SrcType::FnPtr { args, ret } => SrcTypeV::FnPtr { args: args@, ret },
        SrcType::RawPtr { inner } => SrcTypeV::RawPtr { inner },
        SrcType::Other { name } => SrcTypeV::Other { name: name@ },
    }
}

/// The views of the type table.
pub open spec fn src_types_view(s: Seq<SrcType>) -> Seq<SrcTypeV>
    decreases s,
{
    if s.len() == 0 {
        Seq::<SrcTypeV>::empty()
    } else {
        src_types_view(s.drop_last()).push(src_type_view(s.last()))
    }
}

pub proof fn lemma_src_types_view_index(s: Seq<SrcType>)
    ensures
        src_types_view(s).len() == s.len(),
        forall|i: int| 0 <= i < s.len() ==> src_types_view(s)[i] == src_type_view(#[trigger] s[i]),
    decreases s.len(),
{
    if s.len() > 0 {
        lemma_src_types_view_index(s.drop_last());
        assert forall|i: int| 0 <= i < s.len() implies src_types_view(s)[i] == src_type_view(
            #[trigger] s[i],
        ) by {
            if i < s.len() - 1 {
                assert(s.drop_last()[i] == s[i]);
            }
        }
    }
}

/// A valid integer width.
pub open spec fn int_bits_ok(bits: u64) -> bool {
    bits == 8 || bits == 16 || bits == 32 || bits == 64 || bits == 128
}

/// A valid floating-point width.
pub open spec fn float_bits_ok(bits: u64) -> bool {
    bits == 16 || bits == 32 || bits == 64 || bits == 128
}

/// Whether every id of the list points below `i`.
pub open spec fn ids_below(ids: Seq<usize>, i: int) -> bool {
    forall|k: int| 0 <= k < ids.len() ==> (#[trigger] ids[k]) < i
}

/// Whether the entry at position `i` refers only to earlier entries and
/// carries valid widths and matching list lengths.
pub open spec fn src_type_entry_wf(t: SrcTypeV, i: int) -> bool {
    match t {
        SrcTypeV::Int { bits } => int_bits_ok(bits),
        SrcTypeV::Uint { bits } => int_bits_ok(bits),
        SrcTypeV::Float { bits } => float_bits_ok(bits),
        SrcTypeV::Tuple { fields } => ids_below(fields, i),
        SrcTypeV::StructAdt { field_names, field_tys, .. } => ids_below(field_tys, i)
            && field_names.len() == field_tys.len(),
        SrcTypeV::UnionAdt { field_names, field_tys, .. } => ids_below(field_tys, i)
            && field_names.len() == field_tys.len(),
        SrcTypeV::EnumAdt { variant_names, variant_fields, discr_ty, discr_vals, .. } => {
            &&& variant_names.len() == variant_fields.len()
            &&& discr_vals.len() == variant_fields.len()
            &&& discr_ty < i
            &&& forall|k: int|
                0 <= k < variant_fields.len() ==> ids_below(#[trigger] variant_fields[k], i)
        },
        SrcTypeV::Closure { upvars } => upvars < i,
        SrcTypeV::Slice { elem } => elem < i,
        SrcTypeV::Ref { inner, .. } => inner < i,
        SrcTypeV::Array { elem, .. } => elem < i,
        SrcTypeV::FnPtr { args, ret } => ids_below(args, i) && ret < i,
        SrcTypeV::RawPtr { inner } => inner < i,
        _ => true,
    }
}

/// A well-formed interned table: children precede parents, so every walk
/// down the table terminates.
pub open spec fn table_wf(table: Seq<SrcTypeV>) -> bool {
    forall|i: int| 0 <= i < table.len() ==> src_type_entry_wf(#[trigger] table[i], i)
}

/// The interned source type table.
pub struct TypeTable {
    pub kinds: Vec<SrcType>,
}

/// The view of the table.
pub open spec fn table_view(t: TypeTable) -> Seq<SrcTypeV> {
    src_types_view(t.kinds@)
}

impl TypeTable {
    /// An empty table.
    pub fn new() -> (r: Self)
        ensures
            table_view(r) == Seq::<SrcTypeV>::empty(),
    {
        let r = Self { kinds: Vec::new() };
        proof {
            assert(src_types_view(r.kinds@) =~= Seq::<SrcTypeV>::empty());
        }
        r
    }

    /// The number of interned types.
    pub fn len(&self) -> (r: usize)
        ensures
            r == table_view(*self).len(),
    {
        proof {
            lemma_src_types_view_index(self.kinds@);
        }
        self.kinds.len()
    }

    /// Interns one more type, which may refer only to earlier entries.
    pub fn push(&mut self, t: SrcType) -> (r: usize)
        ensures
            table_view(*final(self)) == table_view(*old(self)).push(src_type_view(t)),
            r == table_view(*old(self)).len(),
    {
        proof {
            lemma_src_types_view_index(self.kinds@);
        }
        let ghost pre = self.kinds@;
        let idx = self.kinds.len();
        self.kinds.push(t);
        proof {
            assert(self.kinds@.drop_last() =~= pre);
        }
        idx
    }
}

/// A projected memory location: a base local plus ordered projections.
pub struct Place {
    pub local: usize,
    pub projection: Vec<ProjElem>,
}

/// One projection step of a place.
pub enum ProjElem {
    Field { idx: usize, ty: usize },
    Index { local: usize },
    ConstantIndex { offset: u64 },
    Downcast { variant: usize },
    Deref,
    OpaqueCast,
}

/// The view of a place.
pub struct PlaceV {
    pub local: usize,
    pub projection: Seq<ProjElem>,
}

pub open spec fn place_view(p: Place) -> PlaceV {
    PlaceV { local: p.local, projection: p.projection@ }
}

/// An evaluated constant value, as the front end hands it over.
pub enum ConstVal {
    Scalar(u128),
    CharVal(char),
    StrVal(String),
    FloatText(String),
    Ptr { alloc_id: usize },
    ZeroSized { ty_name: String },
    Slice { bytes: Vec<u8>, meta: usize },
    Other { what: String },
}

/// The view of a constant value.
pub enum ConstValV {
    Scalar(u128),
    CharVal(char),
    StrVal(Seq<char>),
    FloatText(Seq<char>),
    Ptr { alloc_id: usize },
    ZeroSized { ty_name: Seq<char> },
    Slice { bytes: Seq<u8>, meta: usize },
    Other { what: Seq<char> },
}

pub open spec fn const_val_view(v: ConstVal) -> ConstValV {
    match v {
        ConstVal::Scalar(x) => ConstValV::Scalar(x),
        ConstVal::CharVal(c) => ConstValV::CharVal(c),
        ConstVal::StrVal(s) => ConstValV::StrVal(s@),
        ConstVal::FloatText(s) => ConstValV::FloatText(s@),
        ConstVal::Ptr { alloc_id } => ConstValV::Ptr { alloc_id },
        ConstVal::ZeroSized { ty_name } => ConstValV::ZeroSized { ty_name: ty_name@ },
        ConstVal::Slice { bytes, meta } => ConstValV::Slice { bytes: bytes@, meta },
        ConstVal::Other { what } => ConstValV::Other { what: what@ },
    }
}

/// A typed, evaluated constant operand.
pub struct ConstOperand {
    pub ty: usize,
    pub val: ConstVal,
}

/// An operand: a projected read, or a constant.
pub enum Operand {
    Copy(Place),
    Move(Place),
    Constant(ConstOperand),
}

/// Binary operations of the source form.
pub enum MirBinOp {
    Add,
    AddUnchecked,
    AddWithOverflow,
    Sub,
    SubUnchecked,
    SubWithOverflow,
    Mul,
    MulUnchecked,
    MulWithOverflow,
    Div,
    Rem,
    BitXor,
    BitAnd,
    BitOr,
    Shl,
    ShlUnchecked,
    Shr,
    ShrUnchecked,
    Eq,
    Lt,
    Le,
    Ne,
    Ge,
    Gt,
    Cmp,
    Offset,
}

/// Unary operations of the source form.
pub enum MirUnOp {
    Not,
    Neg,
    Other,
}

/// What an aggregate builds.
pub enum AggKind {
    Tuple,
    Array,
    Adt { variant: usize, active_field: Option<usize> },
    Closure { upvars: usize },
    Other { what: String },
}

/// A cast kind; an unsizing coercion to a dynamic-dispatch handle
/// carries the vtable allocation the front end resolved for it.
pub enum CastK {
    IntToInt,
    FloatToInt,
    FloatToFloat,
    IntToFloat,
    Unsize { vtable_alloc: Option<usize> },
    Transmute,
}

/// A right-hand side of an assignment.
pub enum Rvalue {
    Use(Operand),
    BinaryOp { op: MirBinOp, lhs: Operand, rhs: Operand },
    UnaryOp { op: MirUnOp, operand: Operand },
    Aggregate { kind: AggKind, fields: Vec<Operand> },
    RefOf { place: Place },
    Cast { kind: CastK, op: Operand, target_ty: usize },
    CopyForDeref(Place),
    Discriminant(Place),
    Len(Place),
    Repeat { op: Operand, count: usize },
    Other { what: String },
}

/// One source statement.
pub enum MirStatement {
    Assign { place: Place, rvalue: Rvalue },
    Other,
}

/// Where a call goes: a direct symbol, or a dynamic-dispatch slot with
/// the signature the resolver reported.
pub enum CallTarget {
    Direct { symbol: String },
    Virtual { fn_offset: usize, arg_tys: Vec<usize>, ret_ty: usize },
}

/// A block terminator.
pub enum Terminator {
    Call { target_fn: CallTarget, args: Vec<Operand>, destination: Place, target: Option<usize> },
    Return,
    SwitchInt { discr: Operand, targets: Vec<(u128, usize)>, otherwise: usize },
    Unreachable,
    FalseEdge { real_target: usize },
    FalseUnwind { real_target: usize },
    Assert { cond: Operand, expected: bool, target: usize },
    Goto { target: usize },
    InlineAsm { pieces: Vec<String> },
    Other { what: String },
}

/// One source basic block.
pub struct BlockData {
    pub stmts: Vec<MirStatement>,
    pub terminator: Terminator,
}

/// One constant allocation: its bytes and its relocations, each a target
/// function symbol or nothing where the target stayed unresolved.
pub struct AllocData {
    pub bytes: Vec<u8>,
    pub relocs: Vec<(usize, Option<String>)>,
}

/// A monomorphized source function body.
pub struct MirBody {
    pub local_tys: Vec<usize>,
    pub arg_count: usize,
    pub blocks: Vec<BlockData>,
}

} // verus!
