//! The target type language: fixed-width scalars, pointers, arrays,
//! function pointers, fat pointers, and references to registered
//! composites, together with the exact text each type renders to.

use vstd::prelude::*;

use crate::crepr::RepresentationContext;
use crate::crepr::opt_name_view;
use crate::utils::dec_text;
use crate::utils::push_dec_usize;
use crate::utils::push_repeat;
use crate::utils::repeat_text;

verus! {

/// Signed integer widths.
pub enum CIntTy {
    Int8,
    Int16,
    Int32,
    Int64,
    Int128,
}

/// Unsigned integer widths.
pub enum CUIntTy {
    UInt8,
    UInt16,
    UInt32,
    UInt64,
    UInt128,
}

/// Floating-point widths; the engine renders their type names only and
/// never holds a floating-point value.
pub enum CFloatTy {
    Float16,
    Float32,
    Float64,
    Float128,
}

/// The signature of a function pointer type.
pub struct CFuncPtrInfo {
    pub args: Vec<CType>,
    pub ret: Box<CType>,
}

/// A reference to a composite registered in the context: its name and its
/// index in the registry's composite list.
pub struct CCompositeInfo {
    pub name: String,
    pub ctx_idx: usize,
}

impl CCompositeInfo {
    pub fn new(name: &String, ctx_idx: usize) -> (r: Self)
        ensures
            r.name@ == name@,
            r.ctx_idx == ctx_idx,
    {
        Self { name: name.clone(), ctx_idx }
    }
}

/// A target type. Composite variants hold a reference into the registry,
/// never an embedded definition, so self-referential composites resolve
/// through their index.
pub enum CType {
    Unit,
    Void,
    Bool,
    Char,
    Int(CIntTy),
    UInt(CUIntTy),
    Float(CFloatTy),
    Struct(CCompositeInfo),
    TaggedUnion(CCompositeInfo),
    FatPointer,
    Union(CCompositeInfo),
    Enum,
    Pointer(Box<CType>),
    Array(Box<CType>, usize),
    FunctionPtr(Box<CFuncPtrInfo>),
}

/// The mathematical view of a composite reference.
pub struct CCompositeInfoV {
    pub name: Seq<char>,
    pub ctx_idx: int,
}

/// The mathematical view of a target type; argument lists become
/// sequences, so equality of views is structural.
pub enum CTypeV {
    Unit,
    Void,
    Bool,
    Char,
    Int(CIntTy),
    UInt(CUIntTy),
    Float(CFloatTy),
    Struct(CCompositeInfoV),
    TaggedUnion(CCompositeInfoV),
    FatPointer,
    Union(CCompositeInfoV),
    Enum,
    Pointer(Box<CTypeV>),
    Array(Box<CTypeV>, usize),
    FunctionPtr(Seq<CTypeV>, Box<CTypeV>),
}

impl View for CCompositeInfo {
    type V = CCompositeInfoV;

    open spec fn view(&self) -> CCompositeInfoV {
        CCompositeInfoV { name: self.name@, ctx_idx: self.ctx_idx as int }
    }
}

/// The view of a target type.
pub open spec fn ctype_view(t: CType) -> CTypeV
    decreases t,
{
    match t {
        CType::Unit => CTypeV::Unit,
        CType::Void => CTypeV::Void,
        CType::Bool => CTypeV::Bool,
        CType::Char => CTypeV::Char,
        CType::Int(i) => CTypeV::Int(i),
        CType::UInt(u) => CTypeV::UInt(u),
        CType::Float(x) => CTypeV::Float(x),
        CType::Struct(info) => CTypeV::Struct(info@),
        CType::TaggedUnion(info) => CTypeV::TaggedUnion(info@),
        CType::FatPointer => CTypeV::FatPointer,
        CType::Union(info) => CTypeV::Union(info@),
        CType::Enum => CTypeV::Enum,
        CType::Pointer(inner) => CTypeV::Pointer(Box::new(ctype_view(*inner))),
        CType::Array(inner, size) => CTypeV::Array(Box::new(ctype_view(*inner)), size),
        CType::FunctionPtr(info) => CTypeV::FunctionPtr(
            ctype_views(info.args@),
            Box::new(ctype_view(*info.ret)),
        ),
    }
}

/// The views of a sequence of target types.
pub open spec fn ctype_views(s: Seq<CType>) -> Seq<CTypeV>
    decreases s,
{
    if s.len() == 0 {
        Seq::<CTypeV>::empty()
    } else {
        ctype_views(s.drop_last()).push(ctype_view(s.last()))
    }
}

/// Views of a type sequence are taken element by element.
pub proof fn lemma_ctype_views_index(s: Seq<CType>)
    ensures
        ctype_views(s).len() == s.len(),
        forall|i: int| 0 <= i < s.len() ==> ctype_views(s)[i] == ctype_view(#[trigger] s[i]),
    decreases s.len(),
{
    if s.len() > 0 {
        lemma_ctype_views_index(s.drop_last());
        assert forall|i: int| 0 <= i < s.len() implies ctype_views(s)[i] == ctype_view(
            #[trigger] s[i],
        ) by {
            if i < s.len() - 1 {
                assert(s.drop_last()[i] == s[i]);
            }
        }
    }
}

impl CIntTy {
    /// The C spelling of the type.
    pub fn name_str(&self) -> (r: &'static str)
        ensures
            r@ == int_name_text(*self),
    {
        match *self {
            CIntTy::Int8 => "int8_t",
            CIntTy::Int16 => "int16_t",
            CIntTy::Int32 => "int32_t",
            CIntTy::Int64 => "int64_t",
            CIntTy::Int128 => "__int128_t",
        }
    }

    /// The width in bits.
    pub fn bit_width(&self) -> (r: u64)
        ensures
            r == int_bit_width(*self),
    {
        match *self {
            CIntTy::Int8 => 8,
            CIntTy::Int16 => 16,
            CIntTy::Int32 => 32,
            CIntTy::Int64 => 64,
            CIntTy::Int128 => 128,
        }
    }

    /// The width a signed source integer of `bits` bits maps to; pointer
    /// sized integers arrive as the platform default of 64 bits.
    pub fn from_bits(bits: u64) -> (r: CIntTy)
        requires
            bits == 8 || bits == 16 || bits == 32 || bits == 64 || bits == 128,
        ensures
            int_bit_width(r) == bits,
            r == cint_of_bits(bits),
    {
        if bits == 8 {
            CIntTy::Int8
        } else if bits == 16 {
            CIntTy::Int16
        } else if bits == 32 {
            CIntTy::Int32
        } else if bits == 64 {
            CIntTy::Int64
        } else {
            CIntTy::Int128
        }
    }
}

pub open spec fn int_name_text(t: CIntTy) -> Seq<char> {
    match t {
        CIntTy::Int8 => "int8_t"@,
        CIntTy::Int16 => "int16_t"@,
        CIntTy::Int32 => "int32_t"@,
        CIntTy::Int64 => "int64_t"@,
        CIntTy::Int128 => "__int128_t"@,
    }
}

pub open spec fn int_bit_width(t: CIntTy) -> u64 {
    match t {
        CIntTy::Int8 => 8,
        CIntTy::Int16 => 16,
        CIntTy::Int32 => 32,
        CIntTy::Int64 => 64,
        CIntTy::Int128 => 128,
    }
}

impl CUIntTy {
    /// The C spelling of the type.
    pub fn name_str(&self) -> (r: &'static str)
        ensures
            r@ == uint_name_text(*self),
    {
        match *self {
            CUIntTy::UInt8 => "uint8_t",
            CUIntTy::UInt16 => "uint16_t",
            CUIntTy::UInt32 => "uint32_t",
            CUIntTy::UInt64 => "uint64_t",
            CUIntTy::UInt128 => "__uint128_t",
        }
    }

    /// The width in bits.
    pub fn bit_width(&self) -> (r: u64)
        ensures
            r == uint_bit_width(*self),
    {
        match *self {
            CUIntTy::UInt8 => 8,
            CUIntTy::UInt16 => 16,
            CUIntTy::UInt32 => 32,
            CUIntTy::UInt64 => 64,
            CUIntTy::UInt128 => 128,
        }
    }

    /// The width an unsigned source integer of `bits` bits maps to.
    pub fn from_bits(bits: u64) -> (r: CUIntTy)
        requires
            bits == 8 || bits == 16 || bits == 32 || bits == 64 || bits == 128,
        ensures
            uint_bit_width(r) == bits,
            r == cuint_of_bits(bits),
    {
        if bits == 8 {
            CUIntTy::UInt8
        } else if bits == 16 {
            CUIntTy::UInt16
        } else if bits == 32 {
            CUIntTy::UInt32
        } else if bits == 64 {
            CUIntTy::UInt64
        } else {
            CUIntTy::UInt128
        }
    }
}

pub open spec fn uint_name_text(t: CUIntTy) -> Seq<char> {
    match t {
        CUIntTy::UInt8 => "uint8_t"@,
        CUIntTy::UInt16 => "uint16_t"@,
        CUIntTy::UInt32 => "uint32_t"@,
        CUIntTy::UInt64 => "uint64_t"@,
        CUIntTy::UInt128 => "__uint128_t"@,
    }
}

pub open spec fn uint_bit_width(t: CUIntTy) -> u64 {
    match t {
        CUIntTy::UInt8 => 8,
        CUIntTy::UInt16 => 16,
        CUIntTy::UInt32 => 32,
        CUIntTy::UInt64 => 64,
        CUIntTy::UInt128 => 128,
    }
}

impl CFloatTy {
    /// The C spelling of the type; half precision has no portable C
    /// spelling and shares `float`.
    pub fn name_str(&self) -> (r: &'static str)
        ensures
            r@ == float_name_text(*self),
    {
        match *self {
            CFloatTy::Float16 => "float",
            CFloatTy::Float32 => "float",
            CFloatTy::Float64 => "double",
            CFloatTy::Float128 => "__float128",
        }
    }

    /// The width in bits.
    pub fn bit_width(&self) -> (r: u64)
        ensures
            r == float_bit_width(*self),
    {
        match *self {
            CFloatTy::Float16 => 16,
            CFloatTy::Float32 => 32,
            CFloatTy::Float64 => 64,
            CFloatTy::Float128 => 128,
        }
    }

    /// The width a source float of `bits` bits maps to.
    pub fn from_bits(bits: u64) -> (r: CFloatTy)
        requires
            bits == 16 || bits == 32 || bits == 64 || bits == 128,
        ensures
            float_bit_width(r) == bits,
            r == cfloat_of_bits(bits),
    {
        if bits == 16 {
            CFloatTy::Float16
        } else if bits == 32 {
            CFloatTy::Float32
        } else if bits == 64 {
            CFloatTy::Float64
        } else {
            CFloatTy::Float128
        }
    }
}

pub open spec fn float_name_text(t: CFloatTy) -> Seq<char> {
    match t {
        CFloatTy::Float16 => "float"@,
        CFloatTy::Float32 => "float"@,
        CFloatTy::Float64 => "double"@,
        CFloatTy::Float128 => "__float128"@,
    }
}

pub open spec fn float_bit_width(t: CFloatTy) -> u64 {
    match t {
        CFloatTy::Float16 => 16,
        CFloatTy::Float32 => 32,
        CFloatTy::Float64 => 64,
        CFloatTy::Float128 => 128,
    }
}

impl CType {
    /// The registry reference of a composite type.
    pub fn as_composite_info(&self) -> (r: CCompositeInfo)
        requires
            self is Struct || self is Union || self is TaggedUnion,
        ensures
            r == composite_info_of(*self),
    {
        match self {
            CType::Struct(info) | CType::Union(info) | CType::TaggedUnion(info) => {
                CCompositeInfo { name: info.name.clone(), ctx_idx: info.ctx_idx }
            },
            _ => {
                proof {
                    assert(false);
                }
                CCompositeInfo { name: String::new(), ctx_idx: 0 }
            },
        }
    }
}

/// The registry reference held by a composite type.
pub open spec fn composite_info_of(t: CType) -> CCompositeInfo {
    match t {
        CType::Struct(info) => info,
        CType::Union(info) => info,
        CType::TaggedUnion(info) => info,
        _ => arbitrary(),
    }
}

/// A deep copy with the same view.
pub fn clone_ctype(t: &CType) -> (r: CType)
    ensures
        ctype_view(r) == ctype_view(*t),
    decreases *t, 1int,
{
    match t {
        CType::Unit => CType::Unit,
        CType::Void => CType::Void,
        CType::Bool => CType::Bool,
        CType::Char => CType::Char,
        CType::Int(i) => CType::Int(
            match i {
                CIntTy::Int8 => CIntTy::Int8,
                CIntTy::Int16 => CIntTy::Int16,
                CIntTy::Int32 => CIntTy::Int32,
                CIntTy::Int64 => CIntTy::Int64,
                CIntTy::Int128 => CIntTy::Int128,
            },
        ),
        CType::UInt(u) => CType::UInt(
            match u {
                CUIntTy::UInt8 => CUIntTy::UInt8,
                CUIntTy::UInt16 => CUIntTy::UInt16,
                CUIntTy::UInt32 => CUIntTy::UInt32,
                CUIntTy::UInt64 => CUIntTy::UInt64,
                CUIntTy::UInt128 => CUIntTy::UInt128,
            },
        ),
        CType::Float(x) => CType::Float(
            match x {
                CFloatTy::Float16 => CFloatTy::Float16,
                CFloatTy::Float32 => CFloatTy::Float32,
                CFloatTy::Float64 => CFloatTy::Float64,
                CFloatTy::Float128 => CFloatTy::Float128,
            },
        ),
        CType::Struct(info) => CType::Struct(
            CCompositeInfo { name: info.name.clone(), ctx_idx: info.ctx_idx },
        ),
        CType::TaggedUnion(info) => CType::TaggedUnion(
            CCompositeInfo { name: info.name.clone(), ctx_idx: info.ctx_idx },
        ),
        CType::Union(info) => CType::Union(
            CCompositeInfo { name: info.name.clone(), ctx_idx: info.ctx_idx },
        ),
        CType::FatPointer => CType::FatPointer,
        CType::Enum => CType::Enum,
        CType::Pointer(inner) => CType::Pointer(Box::new(clone_ctype(inner))),
        CType::Array(inner, size) => CType::Array(Box::new(clone_ctype(inner)), *size),
        CType::FunctionPtr(info) => {
            proof {
                assert(decreases_to!(*t => t->FunctionPtr_0));
                assert(decreases_to!(t->FunctionPtr_0 => t->FunctionPtr_0.ret));
                assert forall|k: int| 0 <= k < info.args@.len() implies height_lt_ctype(
                    #[trigger] info.args@[k],
                    *t,
                ) by {
                    assert(decreases_to!(t->FunctionPtr_0 => t->FunctionPtr_0.args));
                    assert(decreases_to!(t->FunctionPtr_0.args => t->FunctionPtr_0.args@));
                    assert(decreases_to!(t->FunctionPtr_0.args@ => t->FunctionPtr_0.args@[k]));
                }
            }
            let ghost vargs = ctype_views(info.args@);
            proof {
                lemma_ctype_views_index(info.args@);
            }
            let mut args: Vec<CType> = Vec::new();
            let mut i: usize = 0;
            proof {
                assert(ctype_views(args@) =~= vargs.subrange(0, 0));
            }
            while i < info.args.len()
                invariant
                    i <= info.args.len(),
                    args@.len() == i,
                    vargs == ctype_views(info.args@),
                    vargs.len() == info.args@.len(),
                    forall|k: int|
                        0 <= k < info.args@.len() ==> vargs[k] == ctype_view(
                            #[trigger] info.args@[k],
                        ),
                    ctype_views(args@) == vargs.subrange(0, i as int),
                    forall|k: int|
                        0 <= k < info.args@.len() ==> height_lt_ctype(
                            #[trigger] info.args@[k],
                            *t,
                        ),
                decreases info.args.len() - i,
            {
                let ghost pre = args@;
                args.push(clone_ctype_smaller(&info.args[i], Ghost(*t)));
                i = i + 1;
                proof {
                    assert(args@.drop_last() =~= pre);
                    assert(ctype_views(args@) =~= vargs.subrange(0, i as int));
                }
            }
            let ghost built = args@;
            proof {
                assert(vargs.subrange(0, vargs.len() as int) =~= vargs);
                assert(ctype_views(built) == vargs);
            }
            let r = CType::FunctionPtr(
                Box::new(CFuncPtrInfo { args, ret: Box::new(clone_ctype(&info.ret)) }),
            );
            proof {
                assert(r->FunctionPtr_0.args@ == built);
            }
            r
        },
    }
}

fn clone_ctype_smaller(t: &CType, parent: Ghost<CType>) -> (r: CType)
    requires
        height_lt_ctype(*t, parent@),
    ensures
        ctype_view(r) == ctype_view(*t),
    decreases parent@, 0int,
{
    clone_ctype(t)
}

/// The name of the single field of a boxed-array wrapper struct.
pub fn wrapper_field_name() -> (r: &'static str)
    ensures
        r@ == wrapper_field_name_text(),
{
    "wrapee"
}

pub open spec fn wrapper_field_name_text() -> Seq<char> {
    "wrapee"@
}

/// The name of the one shared fat-pointer struct.
pub fn fat_ptr_name() -> (r: &'static str)
    ensures
        r@ == fat_ptr_name_text(),
{
    "codegenc_fat_ptr"
}

pub open spec fn fat_ptr_name_text() -> Seq<char> {
    "codegenc_fat_ptr"@
}

/// `n` pointer stars.
pub open spec fn stars_text(n: nat) -> Seq<char> {
    repeat_text("*"@, n)
}

/// A base type text, followed by the declared name where one is pending.
pub open spec fn with_name(c: Seq<char>, name: Option<Seq<char>>) -> Seq<char> {
    match name {
        Option::Some(n) => c + " "@ + n,
        Option::None => c,
    }
}

/// The pending name, or nothing.
pub open spec fn name_or_empty(name: Option<Seq<char>>) -> Seq<char> {
    match name {
        Option::Some(n) => n,
        Option::None => Seq::<char>::empty(),
    }
}

/// The exact text a target type renders to, given `ptrs` pending pointer
/// levels and an optional pending variable name. Arrays place the name
/// between the element type and the brackets; function pointers wrap it
/// in `(*name)`.
pub open spec fn ctype_text(t: CTypeV, ptrs: nat, name: Option<Seq<char>>) -> Seq<char>
    decreases t,
{
    match t {
        CTypeV::Unit => with_name("__Unit"@ + stars_text(ptrs), name),
        CTypeV::Void => with_name("void"@ + stars_text(ptrs), name),
        CTypeV::Bool => with_name("bool"@ + stars_text(ptrs), name),
        CTypeV::Char => with_name("char32_t"@ + stars_text(ptrs), name),
        CTypeV::Int(i) => with_name(int_name_text(i) + stars_text(ptrs), name),
        CTypeV::UInt(u) => with_name(uint_name_text(u) + stars_text(ptrs), name),
        CTypeV::Float(x) => with_name(float_name_text(x) + stars_text(ptrs), name),
        CTypeV::Struct(info) => with_name(info.name + stars_text(ptrs), name),
        CTypeV::TaggedUnion(info) => with_name(info.name + stars_text(ptrs), name),
        CTypeV::Union(info) => with_name(info.name + stars_text(ptrs), name),
        CTypeV::Enum => match name {
            Option::Some(n) => "enum "@ + n,
            Option::None => "enum"@,
        },
        CTypeV::Pointer(inner) => ctype_text(
            *inner,
            if ptrs < usize::MAX { ptrs + 1 } else { ptrs },
            name,
        ),
        CTypeV::FatPointer => with_name(
            fat_ptr_name_text() + stars_text(if ptrs > 0 { (ptrs - 1) as nat } else { 0 }),
            name,
        ),
        CTypeV::Array(inner, size) => {
            if ptrs > 0 {
                ctype_text(*inner, 0, Option::None) + stars_text(ptrs) + " "@ + name_or_empty(name)
            } else {
                ctype_text(*inner, 0, name) + "["@ + array_size_text(size) + "]"@
            }
        },
        CTypeV::FunctionPtr(args, ret) => ctype_text(*ret, ptrs, Option::None) + " (*"@
            + name_or_empty(name) + ")("@ + (if args.len() == 0 {
            "void"@
        } else {
            fn_args_text(args)
        }) + ")"@,
    }
}

/// The size an array declares: empty for a zero size, the decimal size
/// otherwise.
pub open spec fn array_size_text(size: usize) -> Seq<char> {
    if size == 0 {
        Seq::<char>::empty()
    } else {
        dec_text(size as nat)
    }
}

/// Function-pointer argument types, joined by commas.
pub open spec fn fn_args_text(args: Seq<CTypeV>) -> Seq<char>
    decreases args,
{
    if args.len() == 0 {
        Seq::<char>::empty()
    } else if args.len() == 1 {
        ctype_text(args[0], 0, Option::None)
    } else {
        fn_args_text(args.drop_last()) + ", "@ + ctype_text(args.last(), 0, Option::None)
    }
}

/// Appends the text of `t` with `ptrs` pending pointer levels and an
/// optional pending declared name.
#[verifier::rlimit(60)]
pub fn push_ctype(out: &mut String, t: &CType, ptrs: usize, name: &Option<String>)
    ensures
        final(out)@ == old(out)@ + ctype_text(ctype_view(*t), ptrs as nat, opt_name_view(*name)),
    decreases *t, 1int,
{
    match t {
        CType::Unit => {
            push_base_with(out, "__Unit", ptrs, name);
        },
        CType::Void => {
            push_base_with(out, "void", ptrs, name);
        },
        CType::Bool => {
            push_base_with(out, "bool", ptrs, name);
        },
        CType::Char => {
            push_base_with(out, "char32_t", ptrs, name);
        },
        CType::Int(i) => {
            push_base_with(out, i.name_str(), ptrs, name);
        },
        CType::UInt(u) => {
            push_base_with(out, u.name_str(), ptrs, name);
        },
        CType::Float(x) => {
            push_base_with(out, x.name_str(), ptrs, name);
        },
        CType::Struct(info) => {
            push_base_with(out, crate::crepr::self_str(&info.name), ptrs, name);
        },
        CType::TaggedUnion(info) => {
            push_base_with(out, crate::crepr::self_str(&info.name), ptrs, name);
        },
        CType::Union(info) => {
            push_base_with(out, crate::crepr::self_str(&info.name), ptrs, name);
        },
        CType::Enum => {
            match name {
                Some(n) => {
                    out.append("enum ");
                    out.append(crate::crepr::self_str(n));
                },
                None => {
                    out.append("enum");
                },
            }
            proof {
                assert(out@ =~= old(out)@ + ctype_text(
                    ctype_view(*t),
                    ptrs as nat,
                    opt_name_view(*name),
                ));
            }
        },
        CType::Pointer(inner) => {
            // The pointer level count saturates at the machine limit; no
            // real type comes near it.
            if ptrs < usize::MAX {
                push_ctype(out, inner, ptrs + 1, name);
            } else {
                push_ctype(out, inner, ptrs, name);
            }
        },
        CType::FatPointer => {
            let eff: usize = if ptrs > 0 {
                ptrs - 1
            } else {
                0
            };
            push_base_with(out, fat_ptr_name(), eff, name);
        },
        CType::Array(inner, size) => {
            if ptrs > 0 {
                push_ctype(out, inner, 0, &None);
                push_repeat(out, "*", ptrs);
                out.append(" ");
                match name {
                    Some(n) => {
                        out.append(crate::crepr::self_str(n));
                    },
                    None => {},
                }
            } else {
                push_ctype(out, inner, 0, name);
                out.append("[");
                if *size != 0 {
                    push_dec_usize(out, *size);
                }
                out.append("]");
            }
            proof {
                assert(out@ =~= old(out)@ + ctype_text(
                    ctype_view(*t),
                    ptrs as nat,
                    opt_name_view(*name),
                ));
            }
        },
        CType::FunctionPtr(info) => {
            proof {
                assert(decreases_to!(*t => t->FunctionPtr_0));
                assert(decreases_to!(t->FunctionPtr_0 => t->FunctionPtr_0.ret));
                assert(decreases_to!(t->FunctionPtr_0 => t->FunctionPtr_0.args));
                assert(decreases_to!(t->FunctionPtr_0.args => t->FunctionPtr_0.args@));
            }
            push_ctype(out, &info.ret, ptrs, &None);
            out.append(" (*");
            match name {
                Some(n) => {
                    out.append(crate::crepr::self_str(n));
                },
                None => {},
            }
            out.append(")(");
            if info.args.len() == 0 {
                out.append("void");
            } else {
                proof {
                    assert forall|k: int| 0 <= k < info.args@.len() implies height_lt_ctype(
                        #[trigger] info.args@[k],
                        *t,
                    ) by {
                        assert(decreases_to!(t->FunctionPtr_0.args@ => t->FunctionPtr_0.args@[k]));
                    }
                }
                let ghost base = out@;
                let ghost vargs = ctype_views(info.args@);
                let mut i: usize = 0;
                proof {
                    lemma_ctype_views_index(info.args@);
                    assert(vargs.subrange(0, 0) =~= Seq::<CTypeV>::empty());
                }
                while i < info.args.len()
                    invariant
                        i <= info.args.len(),
                        info.args.len() > 0,
                        vargs == ctype_views(info.args@),
                        vargs.len() == info.args@.len(),
                        forall|k: int|
                            0 <= k < info.args@.len() ==> vargs[k] == ctype_view(
                                #[trigger] info.args@[k],
                            ),
                        out@ == base + fn_args_text(vargs.subrange(0, i as int)),
                        forall|k: int|
                            0 <= k < info.args@.len() ==> height_lt_ctype(
                                #[trigger] info.args@[k],
                                *t,
                            ),
                    decreases info.args.len() - i,
                {
                    if i > 0 {
                        out.append(", ");
                    }
                    push_ctype_smaller(out, &info.args[i], 0, &None, Ghost(*t));
                    i = i + 1;
                    proof {
                        let pre = vargs.subrange(0, i as int);
                        assert(pre.drop_last() =~= vargs.subrange(0, i - 1));
                        assert(pre.last() == vargs[i - 1]);
                        assert(out@ =~= base + fn_args_text(pre));
                    }
                }
                proof {
                    assert(vargs.subrange(0, vargs.len() as int) =~= vargs);
                }
            }
            out.append(")");
            proof {
                let vs = ctype_views(info.args@);
                lemma_ctype_views_index(info.args@);
                assert(ctype_view(*t) == CTypeV::FunctionPtr(
                    vs,
                    Box::new(ctype_view(*info.ret)),
                ));
                if vs.len() > 0 {
                    assert(vs.subrange(0, vs.len() as int) =~= vs);
                }
                assert(out@ =~= old(out)@ + ctype_text(
                    ctype_view(*t),
                    ptrs as nat,
                    opt_name_view(*name),
                ));
            }
        },
    }
}

/// Spec-level height comparison used to carry a decreases bound through
/// the argument loop.
pub open spec fn height_lt_ctype(a: CType, b: CType) -> bool {
    decreases_to!(b => a)
}

fn push_ctype_smaller(
    out: &mut String,
    t: &CType,
    ptrs: usize,
    name: &Option<String>,
    parent: Ghost<CType>,
)
    requires
        height_lt_ctype(*t, parent@),
    ensures
        final(out)@ == old(out)@ + ctype_text(ctype_view(*t), ptrs as nat, opt_name_view(*name)),
    decreases parent@, 0int,
{
    push_ctype(out, t, ptrs, name);
}

fn push_base_with(out: &mut String, base: &str, ptrs: usize, name: &Option<String>)
    ensures
        final(out)@ == old(out)@ + with_name(base@ + stars_text(ptrs as nat), opt_name_view(*name)),
{
    out.append(base);
    push_repeat(out, "*", ptrs);
    match name {
        Some(n) => {
            out.append(" ");
            out.append(crate::crepr::self_str(n));
        },
        None => {},
    }
    proof {
        assert(final(out)@ =~= old(out)@ + with_name(
            base@ + stars_text(ptrs as nat),
            opt_name_view(*name),
        ));
    }
}

impl CType {
    /// Renders this type into `out`, consuming the context's pending
    /// pointer count and variable name.
    pub fn repr(&self, out: &mut String, ctx: &mut RepresentationContext)
        ensures
            final(out)@ == old(out)@ + ctype_text(
                ctype_view(*self),
                old(ctx).n_ptr as nat,
                opt_name_view(old(ctx).var_name),
            ),
            final(ctx).n_ptr == 0,
            final(ctx).var_name is None,
            final(ctx).indent == old(ctx).indent,
            final(ctx).indent_string == old(ctx).indent_string,
            final(ctx).include_newline == old(ctx).include_newline,
            final(ctx).include_comments == old(ctx).include_comments,
    {
        let ptrs = ctx.get_ptr_count();
        let name = ctx.get_variable_name_option();
        push_ctype(out, self, ptrs as usize, &name);
    }

    /// The text of this type rendered on its own.
    pub fn default_repr_str(&self) -> (r: String)
        ensures
            r@ == ctype_text(ctype_view(*self), 0, Option::None),
    {
        let mut s = String::new();
        push_ctype(&mut s, self, 0, &None);
        s
    }
}

/// The replacement a path character maps to: path separators and
/// generic-argument punctuation become underscores, closing brackets
/// vanish, anything else stays.
pub open spec fn path_char_repl(c: char) -> Seq<char> {
    if c == '<' {
        "_"@
    } else if c == '>' {
        Seq::<char>::empty()
    } else if c == ',' {
        "_"@
    } else if c == ' ' {
        "_"@
    } else if c == '&' {
        "_"@
    } else if c == '!' {
        "_"@
    } else {
        Seq::<char>::empty().push(c)
    }
}

/// A fully-qualified, generic-argument-annotated source path made into a
/// C identifier: `::` becomes `__`, punctuation is flattened.
pub open spec fn sanitize_text(s: Seq<char>) -> Seq<char>
    decreases s.len(),
{
    if s.len() == 0 {
        Seq::<char>::empty()
    } else if s.len() >= 2 && s[0] == ':' && s[1] == ':' {
        "__"@ + sanitize_text(s.skip(2))
    } else {
        path_char_repl(s[0]) + sanitize_text(s.skip(1))
    }
}

/// Sanitizes a source path into a composite name.
pub fn sanitize_path(s: &str) -> (r: String)
    ensures
        r@ == sanitize_text(s@),
{
    let n = s.unicode_len();
    let mut out = String::new();
    let mut i: usize = 0;
    proof {
        assert(s@.skip(0) =~= s@);
    }
    while i < n
        invariant
            i <= n,
            n == s@.len(),
            sanitize_text(s@) == out@ + sanitize_text(s@.skip(i as int)),
        decreases n - i,
    {
        let c = s.get_char(i);
        let ghost pre = out@;
        let ghost rest = s@.skip(i as int);
        proof {
            assert(rest[0] == s@[i as int]);
            if i + 1 < n {
                assert(rest[1] == s@[i + 1]);
            }
            assert(rest.skip(1) =~= s@.skip(i + 1));
            if rest.len() >= 2 {
                assert(rest.skip(2) =~= s@.skip(i + 2));
            }
        }
        if c == ':' && i + 1 < n {
            let c2 = s.get_char(i + 1);
            if c2 == ':' {
                out.append("__");
                i = i + 2;
            } else {
                push_path_char(&mut out, c);
                i = i + 1;
            }
        } else {
            push_path_char(&mut out, c);
            i = i + 1;
        }
        proof {
            assert(sanitize_text(s@) =~= out@ + sanitize_text(s@.skip(i as int)));
        }
    }
    proof {
        assert(s@.skip(n as int) =~= Seq::<char>::empty());
        assert(out@ =~= sanitize_text(s@));
    }
    out
}

fn push_path_char(out: &mut String, c: char)
    ensures
        final(out)@ == old(out)@ + path_char_repl(c),
{
    if c == '<' {
        out.append("_");
    } else if c == '>' {
    } else if c == ',' {
        out.append("_");
    } else if c == ' ' {
        out.append("_");
    } else if c == '&' {
        out.append("_");
    } else if c == '!' {
        out.append("_");
    } else {
        crate::utils::push_char(out, c);
        proof {
            assert(out@ =~= old(out)@ + path_char_repl(c));
        }
    }
    proof {
        assert(out@ =~= old(out)@ + path_char_repl(c));
    }
}

/// Pointer stars made name-safe for tuple struct names.
pub open spec fn ptr_repl_text(s: Seq<char>) -> Seq<char>
    decreases s.len(),
{
    if s.len() == 0 {
        Seq::<char>::empty()
    } else if s[0] == '*' {
        "__PTR__"@ + ptr_repl_text(s.skip(1))
    } else {
        Seq::<char>::empty().push(s[0]) + ptr_repl_text(s.skip(1))
    }
}

/// The characters a rendered type text maps through in a wrapper name:
/// spaces, stars and brackets become underscores.
pub open spec fn wrapper_map_text(s: Seq<char>) -> Seq<char>
    decreases s.len(),
{
    if s.len() == 0 {
        Seq::<char>::empty()
    } else {
        (if s[0] == ' ' || s[0] == '*' || s[0] == '[' || s[0] == ']' {
            "_"@
        } else {
            Seq::<char>::empty().push(s[0])
        }) + wrapper_map_text(s.skip(1))
    }
}

/// The concatenated texts of a type list, as tuple names use them.
pub open spec fn concat_ctype_texts(cs: Seq<CTypeV>) -> Seq<char>
    decreases cs,
{
    if cs.len() == 0 {
        Seq::<char>::empty()
    } else {
        concat_ctype_texts(cs.drop_last()) + ctype_text(cs.last(), 0, Option::None)
    }
}

/// The deterministic name of a positional tuple struct: derived from the
/// concatenation of its field type texts.
pub open spec fn tuple_name_text(cs: Seq<CTypeV>) -> Seq<char> {
    if cs.len() == 0 {
        "__Unit"@
    } else {
        ptr_repl_text("t_"@ + concat_ctype_texts(cs))
    }
}

/// The deterministic name of a boxed-array wrapper struct.
pub open spec fn wrapper_name_text(t: CTypeV) -> Seq<char> {
    "__WRAPPER_"@ + wrapper_map_text(ctype_text(t, 0, Option::None))
}

/// The deterministic name of a sum type's payload union.
pub open spec fn wrapper_union_name_text(name: Seq<char>) -> Seq<char> {
    "__WRAPPER_UNION_"@ + sanitize_text(name)
}

/// Applies the tuple-name star replacement to a built name.
pub fn ptr_repl(s: &str) -> (r: String)
    ensures
        r@ == ptr_repl_text(s@),
{
    let n = s.unicode_len();
    let mut out = String::new();
    let mut i: usize = 0;
    proof {
        assert(s@.skip(0) =~= s@);
    }
    while i < n
        invariant
            i <= n,
            n == s@.len(),
            ptr_repl_text(s@) == out@ + ptr_repl_text(s@.skip(i as int)),
        decreases n - i,
    {
        let c = s.get_char(i);
        let ghost rest = s@.skip(i as int);
        proof {
            assert(rest[0] == s@[i as int]);
            assert(rest.skip(1) =~= s@.skip(i + 1));
        }
        if c == '*' {
            out.append("__PTR__");
        } else {
            crate::utils::push_char(&mut out, c);
        }
        i = i + 1;
        proof {
            assert(ptr_repl_text(s@) =~= out@ + ptr_repl_text(s@.skip(i as int)));
        }
    }
    proof {
        assert(s@.skip(n as int) =~= Seq::<char>::empty());
        assert(out@ =~= ptr_repl_text(s@));
    }
    out
}

/// Applies the wrapper-name character map to a rendered type text.
pub fn wrapper_map(s: &str) -> (r: String)
    ensures
        r@ == wrapper_map_text(s@),
{
    let n = s.unicode_len();
    let mut out = String::new();
    let mut i: usize = 0;
    proof {
        assert(s@.skip(0) =~= s@);
    }
    while i < n
        invariant
            i <= n,
            n == s@.len(),
            wrapper_map_text(s@) == out@ + wrapper_map_text(s@.skip(i as int)),
        decreases n - i,
    {
        let c = s.get_char(i);
        let ghost rest = s@.skip(i as int);
        proof {
            assert(rest[0] == s@[i as int]);
            assert(rest.skip(1) =~= s@.skip(i + 1));
        }
        if c == ' ' || c == '*' || c == '[' || c == ']' {
            out.append("_");
        } else {
            crate::utils::push_char(&mut out, c);
        }
        i = i + 1;
        proof {
            assert(wrapper_map_text(s@) =~= out@ + wrapper_map_text(s@.skip(i as int)));
        }
    }
    proof {
        assert(s@.skip(n as int) =~= Seq::<char>::empty());
        assert(out@ =~= wrapper_map_text(s@));
    }
    out
}

/// The signed width of a valid bit count.
pub open spec fn cint_of_bits(bits: u64) -> CIntTy {
    if bits == 8 {
        CIntTy::Int8
    } else if bits == 16 {
        CIntTy::Int16
    } else if bits == 32 {
        CIntTy::Int32
    } else if bits == 64 {
        CIntTy::Int64
    } else {
        CIntTy::Int128
    }
}

/// The unsigned width of a valid bit count.
pub open spec fn cuint_of_bits(bits: u64) -> CUIntTy {
    if bits == 8 {
        CUIntTy::UInt8
    } else if bits == 16 {
        CUIntTy::UInt16
    } else if bits == 32 {
        CUIntTy::UInt32
    } else if bits == 64 {
        CUIntTy::UInt64
    } else {
        CUIntTy::UInt128
    }
}

/// The floating width of a valid bit count.
pub open spec fn cfloat_of_bits(bits: u64) -> CFloatTy {
    if bits == 16 {
        CFloatTy::Float16
    } else if bits == 32 {
        CFloatTy::Float32
    } else if bits == 64 {
        CFloatTy::Float64
    } else {
        CFloatTy::Float128
    }
}

/// The mapper's mutable state: the memo table, the registered composite
/// list, and the diagnostics.
pub struct MapSt {
    pub memo: Seq<Option<CTypeV>>,
    pub structs: Seq<crate::structure::CompositeV>,
    pub diags: Seq<Seq<char>>,
}

/// Registers a composite, yielding its stable reference.
pub open spec fn reg_composite(st: MapSt, c: crate::structure::CompositeV) -> (
    CCompositeInfoV,
    MapSt,
) {
    (
        CCompositeInfoV {
            name: crate::structure::composite_name(c),
            ctx_idx: st.structs.len() as int,
        },
        MapSt { structs: st.structs.push(c), ..st },
    )
}

/// The positional fields of a tuple or variant struct.
pub open spec fn positional_fields(cs: Seq<CTypeV>) -> Seq<crate::definition::VarDefV>
    decreases cs,
{
    if cs.len() == 0 {
        Seq::<crate::definition::VarDefV>::empty()
    } else {
        positional_fields(cs.drop_last()).push(
            crate::definition::VarDefV {
                local_id: (cs.len() - 1) as usize,
                name: "field_"@ + crate::utils::dec_text((cs.len() - 1) as nat),
                ty: cs.last(),
            },
        )
    }
}

/// Fields named from the source, with a fixed prefix.
pub open spec fn prefixed_fields(
    prefix: Seq<char>,
    names: Seq<Seq<char>>,
    cs: Seq<CTypeV>,
) -> Seq<crate::definition::VarDefV>
    decreases cs,
{
    if cs.len() == 0 {
        Seq::<crate::definition::VarDefV>::empty()
    } else {
        prefixed_fields(prefix, names, cs.drop_last()).push(
            crate::definition::VarDefV {
                local_id: (cs.len() - 1) as usize,
                name: prefix + names[cs.len() - 1],
                ty: cs.last(),
            },
        )
    }
}

/// The diagnostic recorded for a source type the engine does not know.
pub open spec fn unknown_type_diag(name: Seq<char>) -> Seq<char> {
    "unsupported type: "@ + name
}

/// The mapper: the target type of the interned source type `t`, with the
/// state after any memoization and registration. A hit in the memo
/// returns the recorded type and leaves the state unchanged; a miss maps
/// the type and records it.
pub open spec fn map_ty(table: Seq<crate::ir::SrcTypeV>, t: int, st: MapSt) -> (CTypeV, MapSt)
    decreases t, 3int, 0int, 0int
        when crate::ir::table_wf(table) && 0 <= t < table.len()
{
    match st.memo[t] {
        Option::Some(c) => (c, st),
        Option::None => {
            let (c, st1) = map_ty_internal(table, t, st);
            (c, MapSt { memo: st1.memo.update(t, Option::Some(c)), ..st1 })
        },
    }
}

/// One mapping step, by source type kind.
pub open spec fn map_ty_internal(table: Seq<crate::ir::SrcTypeV>, t: int, st: MapSt) -> (
    CTypeV,
    MapSt,
)
    decreases t, 2int, 0int, 0int
        when crate::ir::table_wf(table) && 0 <= t < table.len()
{
    match table[t] {
        crate::ir::SrcTypeV::Bool => (CTypeV::Bool, st),
        crate::ir::SrcTypeV::Char => (CTypeV::Char, st),
        crate::ir::SrcTypeV::Str => (CTypeV::Array(Box::new(CTypeV::Char), 0), st),
        crate::ir::SrcTypeV::Never => (CTypeV::Unit, st),
        crate::ir::SrcTypeV::Int { bits } => (CTypeV::Int(cint_of_bits(bits)), st),
        crate::ir::SrcTypeV::Uint { bits } => (CTypeV::UInt(cuint_of_bits(bits)), st),
        crate::ir::SrcTypeV::Float { bits } => (CTypeV::Float(cfloat_of_bits(bits)), st),
        crate::ir::SrcTypeV::Tuple { fields } => {
            let (cs, st1) = map_ids(table, fields, 0, st, t);
            if fields.len() == 0 {
                (CTypeV::Unit, st1)
            } else if fields.len() == 1 {
                (cs[0], st1)
            } else {
                let def = crate::structure::CompositeV::Struct(
                    crate::structure::StructDefV {
                        name: tuple_name_text(cs),
                        fields: positional_fields(cs),
                    },
                );
                let (info, st2) = reg_composite(st1, def);
                (CTypeV::Struct(info), st2)
            }
        },
        crate::ir::SrcTypeV::StructAdt { name, field_names, field_tys } => {
            let (cs, st1) = map_ids(table, field_tys, 0, st, t);
            let def = crate::structure::CompositeV::Struct(
                crate::structure::StructDefV {
                    name: sanitize_text(name),
                    fields: prefixed_fields("field_"@, field_names, cs),
                },
            );
            let (info, st2) = reg_composite(st1, def);
            (CTypeV::Struct(info), st2)
        },
        crate::ir::SrcTypeV::UnionAdt { name, field_names, field_tys } => {
            let (cs, st1) = map_ids(table, field_tys, 0, st, t);
            let def = crate::structure::CompositeV::Union(
                crate::structure::StructDefV {
                    name: sanitize_text(name),
                    fields: prefixed_fields(Seq::<char>::empty(), field_names, cs),
                },
            );
            let (info, st2) = reg_composite(st1, def);
            (CTypeV::Union(info), st2)
        },
        crate::ir::SrcTypeV::EnumAdt { name, variant_names, variant_fields, discr_ty, .. } => {
            let (ufields, st1) = map_variants(table, variant_names, variant_fields, 0, st, t);
            let union_def = crate::structure::CompositeV::Union(
                crate::structure::StructDefV {
                    name: wrapper_union_name_text(name),
                    fields: ufields,
                },
            );
            let (uinfo, st2) = reg_composite(st1, union_def);
            let (dc, st3) = map_ty(table, discr_ty as int, st2);
            let tu = crate::structure::CompositeV::TaggedUnion(
                crate::structure::TaggedUnionDefV {
                    name: sanitize_text(name),
                    tag: crate::definition::VarDefV {
                        local_id: 0,
                        name: crate::structure::tag_field_name_text(),
                        ty: dc,
                    },
                    union_var: crate::definition::VarDefV {
                        local_id: 1,
                        name: crate::structure::union_field_name_text(),
                        ty: CTypeV::Union(uinfo),
                    },
                },
            );
            let (tinfo, st4) = reg_composite(st3, tu);
            (CTypeV::TaggedUnion(tinfo), st4)
        },
        crate::ir::SrcTypeV::Closure { upvars } => map_ty(table, upvars as int, st),
        crate::ir::SrcTypeV::Dynamic => (CTypeV::FatPointer, st),
        crate::ir::SrcTypeV::Slice { .. } => (CTypeV::FatPointer, st),
        crate::ir::SrcTypeV::Ref { inner, sized } => {
            if sized {
                let (c, st1) = map_ty(table, inner as int, st);
                (CTypeV::Pointer(Box::new(c)), st1)
            } else {
                (CTypeV::FatPointer, st)
            }
        },
        crate::ir::SrcTypeV::Array { elem, len } => {
            let (c, st1) = map_ty(table, elem as int, st);
            let arr = CTypeV::Array(Box::new(c), len);
            let def = crate::structure::CompositeV::Struct(
                crate::structure::StructDefV {
                    name: wrapper_name_text(arr),
                    fields: seq![
                        crate::definition::VarDefV {
                            local_id: 0,
                            name: wrapper_field_name_text(),
                            ty: arr,
                        },
                    ],
                },
            );
            let (info, st2) = reg_composite(st1, def);
            (CTypeV::Struct(info), st2)
        },
        crate::ir::SrcTypeV::FnPtr { args, ret } => {
            let (cs, st1) = map_ids(table, args, 0, st, t);
            let (rc, st2) = map_ty(table, ret as int, st1);
            (CTypeV::FunctionPtr(cs, Box::new(rc)), st2)
        },
        crate::ir::SrcTypeV::RawPtr { inner } => {
            let (c, st1) = map_ty(table, inner as int, st);
            (CTypeV::Pointer(Box::new(c)), st1)
        },
        crate::ir::SrcTypeV::Other { name } => (
            CTypeV::Void,
            MapSt { diags: st.diags.push(unknown_type_diag(name)), ..st },
        ),
    }
}

/// Maps a list of interned types from position `i` on, threading the
/// state left to right.
pub open spec fn map_ids(
    table: Seq<crate::ir::SrcTypeV>,
    ids: Seq<usize>,
    i: int,
    st: MapSt,
    bound: int,
) -> (Seq<CTypeV>, MapSt)
    decreases bound, 1int, 0int, ids.len() - i
        when crate::ir::table_wf(table) && 0 <= bound <= table.len() && crate::ir::ids_below(
            ids,
            bound,
        ) && 0 <= i
{
    if i >= ids.len() {
        (Seq::<CTypeV>::empty(), st)
    } else {
        let (c, st1) = map_ty(table, ids[i] as int, st);
        let (rest, st2) = map_ids(table, ids, i + 1, st1, bound);
        (seq![c] + rest, st2)
    }
}

/// Maps and registers one variant struct per variant from position `i`
/// on, returning the union's member fields.
pub open spec fn map_variants(
    table: Seq<crate::ir::SrcTypeV>,
    names: Seq<Seq<char>>,
    fieldss: Seq<Seq<usize>>,
    i: int,
    st: MapSt,
    bound: int,
) -> (Seq<crate::definition::VarDefV>, MapSt)
    decreases bound, 1int, 1int, fieldss.len() - i
        when crate::ir::table_wf(table) && 0 <= bound <= table.len() && (forall|k: int|
            0 <= k < fieldss.len() ==> crate::ir::ids_below(#[trigger] fieldss[k], bound)) && 0
            <= i
{
    if i >= fieldss.len() {
        (Seq::<crate::definition::VarDefV>::empty(), st)
    } else {
        let (cs, st1) = map_ids(table, fieldss[i], 0, st, bound);
        let def = crate::structure::CompositeV::Struct(
            crate::structure::StructDefV {
                name: sanitize_text(names[i]),
                fields: positional_fields(cs),
            },
        );
        let (info, st2) = reg_composite(st1, def);
        let vf = crate::definition::VarDefV {
            local_id: i as usize,
            name: "variant_"@ + crate::utils::dec_text(i as nat),
            ty: CTypeV::Struct(info),
        };
        let (rest, st3) = map_variants(table, names, fieldss, i + 1, st2, bound);
        (seq![vf] + rest, st3)
    }
}

/// Copies an id list.
pub fn copy_usize_vec(v: &Vec<usize>) -> (r: Vec<usize>)
    ensures
        r@ == v@,
{
    let mut r: Vec<usize> = Vec::new();
    let mut i: usize = 0;
    while i < v.len()
        invariant
            i <= v@.len(),
            r@ =~= v@.subrange(0, i as int),
        decreases v@.len() - i,
    {
        r.push(v[i]);
        i = i + 1;
    }
    proof {
        assert(r@ =~= v@);
    }
    r
}

/// Copies a string list, preserving views.
pub fn copy_string_vec(v: &Vec<String>) -> (r: Vec<String>)
    ensures
        crate::ir::strings_view(r@) == crate::ir::strings_view(v@),
{
    let ghost sv = crate::ir::strings_view(v@);
    proof {
        crate::ir::lemma_strings_view_index(v@);
    }
    let mut r: Vec<String> = Vec::new();
    let mut i: usize = 0;
    proof {
        assert(crate::ir::strings_view(r@) =~= sv.subrange(0, 0));
    }
    while i < v.len()
        invariant
            i <= v@.len(),
            sv == crate::ir::strings_view(v@),
            sv.len() == v@.len(),
            forall|k: int| 0 <= k < v@.len() ==> sv[k] == (#[trigger] v@[k])@,
            crate::ir::strings_view(r@) == sv.subrange(0, i as int),
        decreases v@.len() - i,
    {
        let ghost pre = r@;
        r.push(v[i].clone());
        i = i + 1;
        proof {
            assert(r@.drop_last() =~= pre);
            assert(crate::ir::strings_view(r@) =~= sv.subrange(0, i as int));
        }
    }
    proof {
        assert(sv.subrange(0, sv.len() as int) =~= sv);
    }
    r
}

/// Copies a list of id lists, preserving views.
pub fn copy_id_lists(v: &Vec<Vec<usize>>) -> (r: Vec<Vec<usize>>)
    ensures
        crate::ir::id_lists_view(r@) == crate::ir::id_lists_view(v@),
{
    let ghost sv = crate::ir::id_lists_view(v@);
    proof {
        crate::ir::lemma_id_lists_view_index(v@);
    }
    let mut r: Vec<Vec<usize>> = Vec::new();
    let mut i: usize = 0;
    proof {
        assert(crate::ir::id_lists_view(r@) =~= sv.subrange(0, 0));
    }
    while i < v.len()
        invariant
            i <= v@.len(),
            sv == crate::ir::id_lists_view(v@),
            sv.len() == v@.len(),
            forall|k: int| 0 <= k < v@.len() ==> sv[k] == (#[trigger] v@[k])@,
            crate::ir::id_lists_view(r@) == sv.subrange(0, i as int),
        decreases v@.len() - i,
    {
        let ghost pre = r@;
        r.push(copy_usize_vec(&v[i]));
        i = i + 1;
        proof {
            assert(r@.drop_last() =~= pre);
            assert(crate::ir::id_lists_view(r@) =~= sv.subrange(0, i as int));
        }
    }
    proof {
        assert(sv.subrange(0, sv.len() as int) =~= sv);
    }
    r
}

/// A deep copy of an interned source type with the same view.
pub fn clone_src_type(t: &crate::ir::SrcType) -> (r: crate::ir::SrcType)
    ensures
        crate::ir::src_type_view(r) == crate::ir::src_type_view(*t),
{
    match t {
        crate::ir::SrcType::Bool => crate::ir::SrcType::Bool,
        crate::ir::SrcType::Char => crate::ir::SrcType::Char,
        crate::ir::SrcType::Str => crate::ir::SrcType::Str,
        crate::ir::SrcType::Never => crate::ir::SrcType::Never,
        crate::ir::SrcType::Int { bits } => crate::ir::SrcType::Int { bits: *bits },
        crate::ir::SrcType::Uint { bits } => crate::ir::SrcType::Uint { bits: *bits },
        crate::ir::SrcType::Float { bits } => crate::ir::SrcType::Float { bits: *bits },
        crate::ir::SrcType::Tuple { fields } => crate::ir::SrcType::Tuple {
            fields: copy_usize_vec(fields),
        },
        crate::ir::SrcType::StructAdt { name, field_names, field_tys } => {
            crate::ir::SrcType::StructAdt {
                name: name.clone(),
                field_names: copy_string_vec(field_names),
                field_tys: copy_usize_vec(field_tys),
            }
        },
        crate::ir::SrcType::UnionAdt { name, field_names, field_tys } => {
            crate::ir::SrcType::UnionAdt {
                name: name.clone(),
                field_names: copy_string_vec(field_names),
                field_tys: copy_usize_vec(field_tys),
            }
        },
        crate::ir::SrcType::EnumAdt {
            name,
            variant_names,
            variant_fields,
            discr_ty,
            discr_vals,
            discr_size,
        } => {
            let mut dv: Vec<u128> = Vec::new();
            let mut i: usize = 0;
            while i < discr_vals.len()
                invariant
                    i <= discr_vals@.len(),
                    dv@ =~= discr_vals@.subrange(0, i as int),
                decreases discr_vals@.len() - i,
            {
                dv.push(discr_vals[i]);
                i = i + 1;
            }
            proof {
                assert(dv@ =~= discr_vals@);
            }
            crate::ir::SrcType::EnumAdt {
                name: name.clone(),
                variant_names: copy_string_vec(variant_names),
                variant_fields: copy_id_lists(variant_fields),
                discr_ty: *discr_ty,
                discr_vals: dv,
                discr_size: *discr_size,
            }
        },
        crate::ir::SrcType::Closure { upvars } => crate::ir::SrcType::Closure { upvars: *upvars },
        crate::ir::SrcType::Dynamic => crate::ir::SrcType::Dynamic,
        crate::ir::SrcType::Slice { elem } => crate::ir::SrcType::Slice { elem: *elem },
        crate::ir::SrcType::Ref { inner, sized } => crate::ir::SrcType::Ref {
            inner: *inner,
            sized: *sized,
        },
        crate::ir::SrcType::Array { elem, len } => crate::ir::SrcType::Array {
            elem: *elem,
            len: *len,
        },
        crate::ir::SrcType::FnPtr { args, ret } => crate::ir::SrcType::FnPtr {
            args: copy_usize_vec(args),
            ret: *ret,
        },
        crate::ir::SrcType::RawPtr { inner } => crate::ir::SrcType::RawPtr { inner: *inner },
        crate::ir::SrcType::Other { name } => crate::ir::SrcType::Other { name: name.clone() },
    }
}

/// Builds the positional field definitions of a tuple or variant struct.
pub fn build_positional_fields(cs: &Vec<CType>) -> (r: Vec<crate::definition::CVarDef>)
    ensures
        crate::definition::vardef_views(r@) == positional_fields(ctype_views(cs@)),
{
    let ghost csv = ctype_views(cs@);
    proof {
        lemma_ctype_views_index(cs@);
    }
    let mut r: Vec<crate::definition::CVarDef> = Vec::new();
    let mut i: usize = 0;
    proof {
        assert(crate::definition::vardef_views(r@) =~= positional_fields(csv.subrange(0, 0)));
    }
    while i < cs.len()
        invariant
            i <= cs@.len(),
            csv == ctype_views(cs@),
            csv.len() == cs@.len(),
            forall|k: int| 0 <= k < cs@.len() ==> csv[k] == ctype_view(#[trigger] cs@[k]),
            crate::definition::vardef_views(r@) == positional_fields(csv.subrange(0, i as int)),
        decreases cs@.len() - i,
    {
        let ghost pre = r@;
        let mut nm = String::from_str("field_");
        crate::utils::push_dec_usize(&mut nm, i);
        r.push(crate::definition::CVarDef::new(i, nm, clone_ctype(&cs[i])));
        i = i + 1;
        proof {
            assert(r@.drop_last() =~= pre);
            let pref = csv.subrange(0, i as int);
            assert(pref.drop_last() =~= csv.subrange(0, i - 1));
            assert(pref.last() == csv[i - 1]);
            assert(crate::definition::vardef_views(r@) =~= positional_fields(pref));
        }
    }
    proof {
        assert(csv.subrange(0, csv.len() as int) =~= csv);
    }
    r
}

/// Builds field definitions named from the source, with a fixed prefix.
pub fn build_prefixed_fields(prefix: &str, names: &Vec<String>, cs: &Vec<CType>) -> (r: Vec<
    crate::definition::CVarDef,
>)
    requires
        names@.len() == cs@.len(),
    ensures
        crate::definition::vardef_views(r@) == prefixed_fields(
            prefix@,
            crate::ir::strings_view(names@),
            ctype_views(cs@),
        ),
{
    let ghost csv = ctype_views(cs@);
    let ghost nsv = crate::ir::strings_view(names@);
    proof {
        lemma_ctype_views_index(cs@);
        crate::ir::lemma_strings_view_index(names@);
    }
    let mut r: Vec<crate::definition::CVarDef> = Vec::new();
    let mut i: usize = 0;
    proof {
        assert(crate::definition::vardef_views(r@) =~= prefixed_fields(
            prefix@,
            nsv,
            csv.subrange(0, 0),
        ));
    }
    while i < cs.len()
        invariant
            i <= cs@.len(),
            names@.len() == cs@.len(),
            csv == ctype_views(cs@),
            nsv == crate::ir::strings_view(names@),
            csv.len() == cs@.len(),
            nsv.len() == names@.len(),
            forall|k: int| 0 <= k < cs@.len() ==> csv[k] == ctype_view(#[trigger] cs@[k]),
            forall|k: int| 0 <= k < names@.len() ==> nsv[k] == (#[trigger] names@[k])@,
            crate::definition::vardef_views(r@) == prefixed_fields(
                prefix@,
                nsv,
                csv.subrange(0, i as int),
            ),
        decreases cs@.len() - i,
    {
        let ghost pre = r@;
        let mut nm = String::from_str(prefix);
        nm.append(crate::crepr::self_str(&names[i]));
        r.push(crate::definition::CVarDef::new(i, nm, clone_ctype(&cs[i])));
        i = i + 1;
        proof {
            assert(r@.drop_last() =~= pre);
            let pref = csv.subrange(0, i as int);
            assert(pref.drop_last() =~= csv.subrange(0, i - 1));
            assert(pref.last() == csv[i - 1]);
            assert(crate::definition::vardef_views(r@) =~= prefixed_fields(prefix@, nsv, pref));
        }
    }
    proof {
        assert(csv.subrange(0, csv.len() as int) =~= csv);
    }
    r
}

impl crate::function::CodegenFunctionCx {
    /// Maps an interned source type to a target type, registering any
    /// composite encountered; repeated calls for the same entry return
    /// the recorded type without registering anything again.
    #[verifier::rlimit(100)]
    pub fn rust_to_c_type(&mut self, t: usize) -> (r: CType)
        requires
            crate::function::cx_map_wf(*old(self)),
            (t as int) < crate::ir::table_view(old(self).table).len(),
        ensures
            crate::function::cx_map_wf(*final(self)),
            crate::function::cx_frame(*old(self), *final(self)),
            ctype_view(r) == map_ty(
                crate::ir::table_view(old(self).table),
                t as int,
                crate::function::map_st_of(*old(self)),
            ).0,
            crate::function::map_st_of(*final(self)) == map_ty(
                crate::ir::table_view(old(self).table),
                t as int,
                crate::function::map_st_of(*old(self)),
            ).1,
        decreases t as int, 3int, 0int, 0int,
    {
        proof {
            crate::function::lemma_opt_ctype_views_index(self.ty_to_c@);
        }
        let hit = self.ctype_from_cache(t);
        match hit {
            Some(c) => c,
            None => {
                let c = self.rust_to_c_type_internal(t);
                let ghost pre_memo = self.ty_to_c@;
                let c2 = clone_ctype(&c);
                self.ty_to_c.set(t, Some(c2));
                proof {
                    crate::function::lemma_opt_ctype_views_index(self.ty_to_c@);
                    crate::function::lemma_opt_ctype_views_index(pre_memo);
                    let newv = crate::function::opt_ctype_views(self.ty_to_c@);
                    let oldv = crate::function::opt_ctype_views(pre_memo);
                    assert forall|k: int| 0 <= k < newv.len() implies newv[k] == oldv.update(
                        t as int,
                        Some(ctype_view(c)),
                    )[k] by {
                        if k != t {
                            assert(self.ty_to_c@[k] == pre_memo[k]);
                        }
                    }
                    assert(newv =~= oldv.update(t as int, Some(ctype_view(c))));
                }
                c
            },
        }
    }

    /// One mapping step, by source type kind.
    #[verifier::rlimit(100)]
    fn rust_to_c_type_internal(&mut self, t: usize) -> (r: CType)
        requires
            crate::function::cx_map_wf(*old(self)),
            (t as int) < crate::ir::table_view(old(self).table).len(),
        ensures
            crate::function::cx_map_wf(*final(self)),
            crate::function::cx_frame(*old(self), *final(self)),
            ctype_view(r) == map_ty_internal(
                crate::ir::table_view(old(self).table),
                t as int,
                crate::function::map_st_of(*old(self)),
            ).0,
            crate::function::map_st_of(*final(self)) == map_ty_internal(
                crate::ir::table_view(old(self).table),
                t as int,
                crate::function::map_st_of(*old(self)),
            ).1,
        decreases t as int, 2int, 0int, 0int,
    {
        let ghost tv = crate::ir::table_view(old(self).table);
        proof {
            reveal_with_fuel(ctype_view, 3);
            crate::ir::lemma_src_types_view_index(self.table.kinds@);
            assert(tv[t as int] == crate::ir::src_type_view(self.table.kinds@[t as int]));
            assert(crate::ir::src_type_entry_wf(tv[t as int], t as int));
        }
        let ghost st0 = crate::function::map_st_of(*old(self));
        let kind = clone_src_type(&self.table.kinds[t]);
        proof {
            assert(crate::ir::src_type_view(kind) == tv[t as int]);
        }
        match &kind {
            crate::ir::SrcType::Bool => CType::Bool,
            crate::ir::SrcType::Char => CType::Char,
            crate::ir::SrcType::Str => CType::Array(Box::new(CType::Char), 0),
            crate::ir::SrcType::Never => CType::Unit,
            crate::ir::SrcType::Int { bits } => CType::Int(CIntTy::from_bits(*bits)),
            crate::ir::SrcType::Uint { bits } => CType::UInt(CUIntTy::from_bits(*bits)),
            crate::ir::SrcType::Float { bits } => CType::Float(CFloatTy::from_bits(*bits)),
            crate::ir::SrcType::Tuple { fields } => {
                let mut cs = self.map_tys_from(fields, 0, Ghost(t as int));
                proof {
                    lemma_map_ids_len(
                        tv,
                        fields@,
                        0,
                        crate::function::map_st_of(*old(self)),
                        t as int,
                    );
                    lemma_ctype_views_index(cs@);
                }
                if cs.len() == 0 {
                    CType::Unit
                } else if cs.len() == 1 {
                    let first = cs.remove(0);
                    proof {
                        lemma_ctype_views_index(cs@);
                    }
                    first
                } else {
                    let nm = self.tuple_name(&cs);
                    let fdefs = build_positional_fields(&cs);
                    let info = self.ongoing_codegen.context.add_composite(
                        crate::structure::CComposite::Struct(
                            crate::structure::CStructDef { name: nm, fields: fdefs },
                        ),
                    );
                    proof {
                        assert(crate::function::map_st_of(*self) == map_ty_internal(
                            tv,
                            t as int,
                            st0,
                        ).1);
                    }
                    CType::Struct(info)
                }
            },
            crate::ir::SrcType::StructAdt { name, field_names, field_tys } => {
                let cs = self.map_tys_from(field_tys, 0, Ghost(t as int));
                proof {
                    lemma_map_ids_len(
                        tv,
                        field_tys@,
                        0,
                        crate::function::map_st_of(*old(self)),
                        t as int,
                    );
                    lemma_ctype_views_index(cs@);
                    crate::ir::lemma_strings_view_index(field_names@);
                }
                let fdefs = build_prefixed_fields("field_", field_names, &cs);
                let info = self.ongoing_codegen.context.add_composite(
                    crate::structure::CComposite::Struct(
                        crate::structure::CStructDef {
                            name: sanitize_path(crate::crepr::self_str(name)),
                            fields: fdefs,
                        },
                    ),
                );
                proof {
                    assert(crate::function::map_st_of(*self) == map_ty_internal(
                        tv,
                        t as int,
                        st0,
                    ).1);
                }
                CType::Struct(info)
            },
            crate::ir::SrcType::UnionAdt { name, field_names, field_tys } => {
                let cs = self.map_tys_from(field_tys, 0, Ghost(t as int));
                proof {
                    lemma_map_ids_len(
                        tv,
                        field_tys@,
                        0,
                        crate::function::map_st_of(*old(self)),
                        t as int,
                    );
                    lemma_ctype_views_index(cs@);
                    crate::ir::lemma_strings_view_index(field_names@);
                    reveal_strlit("");
                    assert(""@ =~= Seq::<char>::empty());
                }
                let fdefs = build_prefixed_fields("", field_names, &cs);
                let info = self.ongoing_codegen.context.add_composite(
                    crate::structure::CComposite::Union(
                        crate::structure::CStructDef {
                            name: sanitize_path(crate::crepr::self_str(name)),
                            fields: fdefs,
                        },
                    ),
                );
                proof {
                    assert(crate::function::map_st_of(*self) == map_ty_internal(
                        tv,
                        t as int,
                        st0,
                    ).1);
                }
                CType::Union(info)
            },
            crate::ir::SrcType::EnumAdt { name, variant_names, variant_fields, discr_ty, .. } => {
                proof {
                    crate::ir::lemma_id_lists_view_index(variant_fields@);
                    crate::ir::lemma_strings_view_index(variant_names@);
                }
                let ufields = self.map_variants_from(variant_names, variant_fields, 0, Ghost(t as int));
                let mut unm = String::from_str("__WRAPPER_UNION_");
                unm.append(crate::crepr::self_str(&sanitize_path(crate::crepr::self_str(name))));
                let uinfo = self.ongoing_codegen.context.add_composite(
                    crate::structure::CComposite::Union(
                        crate::structure::CStructDef { name: unm, fields: ufields },
                    ),
                );
                let dc = self.rust_to_c_type(*discr_ty);
                let tu = crate::structure::CTaggedUnionDef::new(
                    sanitize_path(crate::crepr::self_str(name)),
                    dc,
                    CType::Union(uinfo),
                );
                let tinfo = self.ongoing_codegen.context.add_composite(
                    crate::structure::CComposite::TaggedUnion(tu),
                );
                proof {
                    assert(crate::function::map_st_of(*self) == map_ty_internal(
                        tv,
                        t as int,
                        st0,
                    ).1);
                }
                CType::TaggedUnion(tinfo)
            },
            crate::ir::SrcType::Closure { upvars } => self.rust_to_c_type(*upvars),
            crate::ir::SrcType::Dynamic => CType::FatPointer,
            crate::ir::SrcType::Slice { .. } => CType::FatPointer,
            crate::ir::SrcType::Ref { inner, sized } => {
                if *sized {
                    let c = self.rust_to_c_type(*inner);
                    CType::Pointer(Box::new(c))
                } else {
                    CType::FatPointer
                }
            },
            crate::ir::SrcType::Array { elem, len } => {
                let c = self.rust_to_c_type(*elem);
                let arr = CType::Array(Box::new(c), *len);
                let nm = self.wrapper_name(&arr);
                let mut fdefs: Vec<crate::definition::CVarDef> = Vec::new();
                fdefs.push(
                    crate::definition::CVarDef::new(
                        0,
                        String::from_str(wrapper_field_name()),
                        arr,
                    ),
                );
                proof {
                    reveal_with_fuel(crate::definition::vardef_views, 3);
                    assert(fdefs@.drop_last() =~= Seq::<crate::definition::CVarDef>::empty());
                }
                let info = self.ongoing_codegen.context.add_composite(
                    crate::structure::CComposite::Struct(
                        crate::structure::CStructDef { name: nm, fields: fdefs },
                    ),
                );
                proof {
                    assert(crate::function::map_st_of(*self) == map_ty_internal(
                        tv,
                        t as int,
                        st0,
                    ).1);
                }
                CType::Struct(info)
            },
            crate::ir::SrcType::FnPtr { args, ret } => {
                let cs = self.map_tys_from(args, 0, Ghost(t as int));
                let rc = self.rust_to_c_type(*ret);
                CType::FunctionPtr(Box::new(CFuncPtrInfo { args: cs, ret: Box::new(rc) }))
            },
            crate::ir::SrcType::RawPtr { inner } => {
                let c = self.rust_to_c_type(*inner);
                CType::Pointer(Box::new(c))
            },
            crate::ir::SrcType::Other { name } => {
                let mut d = String::from_str("unsupported type: ");
                d.append(crate::crepr::self_str(name));
                self.ongoing_codegen.context.push_diagnostic(d);
                proof {
                    assert(crate::function::map_st_of(*self) == map_ty_internal(
                        tv,
                        t as int,
                        st0,
                    ).1);
                }
                CType::Void
            },
        }
    }

    /// Maps a copied id list from position `i` on.
    fn map_tys_from(&mut self, ids: &Vec<usize>, i: usize, bound: Ghost<int>) -> (r: Vec<CType>)
        requires
            crate::function::cx_map_wf(*old(self)),
            0 <= bound@ <= crate::ir::table_view(old(self).table).len(),
            crate::ir::ids_below(ids@, bound@),
            i <= ids@.len(),
        ensures
            crate::function::cx_map_wf(*final(self)),
            crate::function::cx_frame(*old(self), *final(self)),
            ctype_views(r@) == map_ids(
                crate::ir::table_view(old(self).table),
                ids@,
                i as int,
                crate::function::map_st_of(*old(self)),
                bound@,
            ).0,
            crate::function::map_st_of(*final(self)) == map_ids(
                crate::ir::table_view(old(self).table),
                ids@,
                i as int,
                crate::function::map_st_of(*old(self)),
                bound@,
            ).1,
        decreases bound@, 1int, 0int, ids@.len() - i,
    {
        if i >= ids.len() {
            let r: Vec<CType> = Vec::new();
            proof {
                assert(ctype_views(r@) =~= Seq::<CTypeV>::empty());
            }
            r
        } else {
            proof {
                assert(ids@[i as int] < bound@);
            }
            let c = self.rust_to_c_type(ids[i]);
            let ghost cv0 = ctype_view(c);
            let mut rest = self.map_tys_from(ids, i + 1, bound);
            let ghost rest0 = rest@;
            let ghost restv = ctype_views(rest@);
            let mut r: Vec<CType> = Vec::new();
            r.push(c);
            r.append(&mut rest);
            proof {
                assert(r@.skip(1) =~= rest0);
                lemma_ctype_views_prepend(r@, restv);
                assert(ctype_views(r@) =~= seq![cv0] + restv);
            }
            r
        }
    }

    /// Maps and registers one variant struct per variant from `i` on,
    /// returning the union member fields.
    #[verifier::rlimit(100)]
    fn map_variants_from(
        &mut self,
        names: &Vec<String>,
        fieldss: &Vec<Vec<usize>>,
        i: usize,
        bound: Ghost<int>,
    ) -> (r: Vec<crate::definition::CVarDef>)
        requires
            crate::function::cx_map_wf(*old(self)),
            0 <= bound@ <= crate::ir::table_view(old(self).table).len(),
            forall|k: int|
                0 <= k < crate::ir::id_lists_view(fieldss@).len() ==> crate::ir::ids_below(
                    #[trigger] crate::ir::id_lists_view(fieldss@)[k],
                    bound@,
                ),
            names@.len() == fieldss@.len(),
            i <= fieldss@.len(),
        ensures
            crate::function::cx_map_wf(*final(self)),
            crate::function::cx_frame(*old(self), *final(self)),
            crate::definition::vardef_views(r@) == map_variants(
                crate::ir::table_view(old(self).table),
                crate::ir::strings_view(names@),
                crate::ir::id_lists_view(fieldss@),
                i as int,
                crate::function::map_st_of(*old(self)),
                bound@,
            ).0,
            crate::function::map_st_of(*final(self)) == map_variants(
                crate::ir::table_view(old(self).table),
                crate::ir::strings_view(names@),
                crate::ir::id_lists_view(fieldss@),
                i as int,
                crate::function::map_st_of(*old(self)),
                bound@,
            ).1,
        decreases bound@, 1int, 1int, fieldss@.len() - i,
    {
        proof {
            crate::ir::lemma_id_lists_view_index(fieldss@);
            crate::ir::lemma_strings_view_index(names@);
        }
        if i >= fieldss.len() {
            let r: Vec<crate::definition::CVarDef> = Vec::new();
            proof {
                assert(crate::definition::vardef_views(r@)
                    =~= Seq::<crate::definition::VarDefV>::empty());
            }
            r
        } else {
            let cs = self.map_tys_from(&fieldss[i], 0, bound);
            let fdefs = build_positional_fields(&cs);
            let info = self.ongoing_codegen.context.add_composite(
                crate::structure::CComposite::Struct(
                    crate::structure::CStructDef {
                        name: sanitize_path(crate::crepr::self_str(&names[i])),
                        fields: fdefs,
                    },
                ),
            );
            let mut vnm = String::from_str("variant_");
            crate::utils::push_dec_usize(&mut vnm, i);
            let vf = crate::definition::CVarDef::new(i, vnm, CType::Struct(info));
            let ghost vf0 = crate::definition::vardef_view(vf);
            let mut rest = self.map_variants_from(names, fieldss, i + 1, bound);
            let ghost rest0 = rest@;
            let ghost restv = crate::definition::vardef_views(rest@);
            let mut r: Vec<crate::definition::CVarDef> = Vec::new();
            r.push(vf);
            r.append(&mut rest);
            proof {
                assert(r@.skip(1) =~= rest0);
                lemma_vardef_views_prepend(r@, restv);
                assert(crate::definition::vardef_views(r@) =~= seq![vf0] + restv);
            }
            r
        }
    }

    /// The deterministic positional-struct name of a tuple: derived from
    /// the concatenated field type texts.
    fn tuple_name(&self, fields: &Vec<CType>) -> (r: String)
        ensures
            r@ == tuple_name_text(ctype_views(fields@)),
    {
        proof {
            lemma_ctype_views_index(fields@);
        }
        if fields.len() == 0 {
            String::from_str("__Unit")
        } else {
            let ghost csv = ctype_views(fields@);
            let mut base = String::from_str("t_");
            let mut i: usize = 0;
            proof {
                assert(concat_ctype_texts(csv.subrange(0, 0)) =~= Seq::<char>::empty());
                assert(base@ =~= "t_"@ + concat_ctype_texts(csv.subrange(0, 0)));
            }
            while i < fields.len()
                invariant
                    i <= fields@.len(),
                    csv == ctype_views(fields@),
                    csv.len() == fields@.len(),
                    forall|k: int|
                        0 <= k < fields@.len() ==> csv[k] == ctype_view(#[trigger] fields@[k]),
                    base@ == "t_"@ + concat_ctype_texts(csv.subrange(0, i as int)),
                decreases fields@.len() - i,
            {
                push_ctype(&mut base, &fields[i], 0, &None);
                i = i + 1;
                proof {
                    let pre = csv.subrange(0, i as int);
                    assert(pre.drop_last() =~= csv.subrange(0, i - 1));
                    assert(pre.last() == csv[i - 1]);
                    assert(base@ =~= "t_"@ + concat_ctype_texts(pre));
                }
            }
            proof {
                assert(csv.subrange(0, csv.len() as int) =~= csv);
            }
            ptr_repl(crate::crepr::self_str(&base))
        }
    }

    /// The deterministic name of a boxed-array wrapper struct.
    fn wrapper_name(&self, ty: &CType) -> (r: String)
        ensures
            r@ == wrapper_name_text(ctype_view(*ty)),
    {
        let text = ty.default_repr_str();
        let mapped = wrapper_map(crate::crepr::self_str(&text));
        let mut r = String::from_str("__WRAPPER_");
        r.append(crate::crepr::self_str(&mapped));
        proof {
            assert(r@ =~= wrapper_name_text(ctype_view(*ty)));
        }
        r
    }

    /// The target type of a function signature.
    pub fn fn_pointer_type(&mut self, arg_tys: &Vec<usize>, ret_ty: usize) -> (r: CType)
        requires
            crate::function::cx_map_wf(*old(self)),
            crate::ir::ids_below(arg_tys@, crate::ir::table_view(old(self).table).len() as int),
            (ret_ty as int) < crate::ir::table_view(old(self).table).len(),
        ensures
            crate::function::cx_map_wf(*final(self)),
            crate::function::cx_frame(*old(self), *final(self)),
            ctype_view(r) == map_fn_sig(
                crate::ir::table_view(old(self).table),
                arg_tys@,
                ret_ty,
                false,
                crate::function::map_st_of(*old(self)),
            ).0,
            crate::function::map_st_of(*final(self)) == map_fn_sig(
                crate::ir::table_view(old(self).table),
                arg_tys@,
                ret_ty,
                false,
                crate::function::map_st_of(*old(self)),
            ).1,
    {
        let n = self.table.len();
        let cs = self.map_tys_from(arg_tys, 0, Ghost(n as int));
        let rc = self.rust_to_c_type(ret_ty);
        CType::FunctionPtr(Box::new(CFuncPtrInfo { args: cs, ret: Box::new(rc) }))
    }

    /// The target type of a dynamic-dispatch signature: pointer and fat
    /// pointer arguments erased to void pointers.
    pub fn erased_fn_pointer_type(&mut self, arg_tys: &Vec<usize>, ret_ty: usize) -> (r: CType)
        requires
            crate::function::cx_map_wf(*old(self)),
            crate::ir::ids_below(arg_tys@, crate::ir::table_view(old(self).table).len() as int),
            (ret_ty as int) < crate::ir::table_view(old(self).table).len(),
        ensures
            crate::function::cx_map_wf(*final(self)),
            crate::function::cx_frame(*old(self), *final(self)),
            ctype_view(r) == map_fn_sig(
                crate::ir::table_view(old(self).table),
                arg_tys@,
                ret_ty,
                true,
                crate::function::map_st_of(*old(self)),
            ).0,
            crate::function::map_st_of(*final(self)) == map_fn_sig(
                crate::ir::table_view(old(self).table),
                arg_tys@,
                ret_ty,
                true,
                crate::function::map_st_of(*old(self)),
            ).1,
    {
        let n = self.table.len();
        let cs = self.map_tys_from(arg_tys, 0, Ghost(n as int));
        let ghost csv = ctype_views(cs@);
        let mut erased: Vec<CType> = Vec::new();
        let mut i: usize = 0;
        proof {
            lemma_ctype_views_index(cs@);
            assert(ctype_views(erased@) =~= erased_list(csv.subrange(0, 0)));
        }
        while i < cs.len()
            invariant
                i <= cs@.len(),
                csv == ctype_views(cs@),
                csv.len() == cs@.len(),
                forall|k: int| 0 <= k < cs@.len() ==> csv[k] == ctype_view(#[trigger] cs@[k]),
                ctype_views(erased@) == erased_list(csv.subrange(0, i as int)),
            decreases cs@.len() - i,
        {
            let ghost pre = erased@;
            let e = match &cs[i] {
                CType::Pointer(_) => CType::Pointer(Box::new(CType::Void)),
                CType::FatPointer => CType::Pointer(Box::new(CType::Void)),
                other => clone_ctype(other),
            };
            proof {
                reveal_with_fuel(ctype_view, 3);
                assert(ctype_view(e) == erased_ctype(csv[i as int]));
            }
            erased.push(e);
            i = i + 1;
            proof {
                reveal_with_fuel(ctype_view, 3);
                assert(erased@.drop_last() =~= pre);
                let pref = csv.subrange(0, i as int);
                assert(pref.drop_last() =~= csv.subrange(0, i - 1));
                assert(pref.last() == csv[i - 1]);
                assert(ctype_views(erased@) =~= erased_list(pref));
            }
        }
        proof {
            assert(csv.subrange(0, csv.len() as int) =~= csv);
        }
        let rc = self.rust_to_c_type(ret_ty);
        CType::FunctionPtr(Box::new(CFuncPtrInfo { args: erased, ret: Box::new(rc) }))
    }
}

/// A pointer-or-fat-pointer argument erased to a void pointer.
pub open spec fn erased_ctype(c: CTypeV) -> CTypeV {
    match c {
        CTypeV::Pointer(_) => CTypeV::Pointer(Box::new(CTypeV::Void)),
        CTypeV::FatPointer => CTypeV::Pointer(Box::new(CTypeV::Void)),
        _ => c,
    }
}

/// An argument list erased elementwise.
pub open spec fn erased_list(cs: Seq<CTypeV>) -> Seq<CTypeV>
    decreases cs,
{
    if cs.len() == 0 {
        Seq::<CTypeV>::empty()
    } else {
        erased_list(cs.drop_last()).push(erased_ctype(cs.last()))
    }
}

/// The mapped type of a function signature, argument pointers optionally
/// erased for dynamic dispatch.
pub open spec fn map_fn_sig(
    table: Seq<crate::ir::SrcTypeV>,
    args: Seq<usize>,
    ret: usize,
    erase: bool,
    st: MapSt,
) -> (CTypeV, MapSt) {
    let (cs, st1) = map_ids(table, args, 0, st, table.len() as int);
    let (rc, st2) = map_ty(table, ret as int, st1);
    (
        CTypeV::FunctionPtr(
            if erase {
                erased_list(cs)
            } else {
                cs
            },
            Box::new(rc),
        ),
        st2,
    )
}

/// The mapper yields one target type per id.
pub proof fn lemma_map_ids_len(
    table: Seq<crate::ir::SrcTypeV>,
    ids: Seq<usize>,
    i: int,
    st: MapSt,
    bound: int,
)
    requires
        crate::ir::table_wf(table),
        0 <= bound <= table.len(),
        crate::ir::ids_below(ids, bound),
        0 <= i,
    ensures
        map_ids(table, ids, i, st, bound).0.len() == if i <= ids.len() {
            ids.len() - i
        } else {
            0
        },
    decreases ids.len() - i,
{
    if i < ids.len() {
        let (c, st1) = map_ty(table, ids[i] as int, st);
        lemma_map_ids_len(table, ids, i + 1, st1, bound);
    }
}

/// Prepending preserves type views.
pub proof fn lemma_ctype_views_prepend(s: Seq<CType>, restv: Seq<CTypeV>)
    requires
        s.len() >= 1,
        ctype_views(s.skip(1)) == restv,
    ensures
        ctype_views(s) == seq![ctype_view(s[0])] + restv,
{
    lemma_ctype_views_index(s);
    lemma_ctype_views_index(s.skip(1));
    assert forall|k: int| 0 <= k < restv.len() implies restv[k] == ctype_view(s[k + 1]) by {
        assert(s.skip(1)[k] == s[k + 1]);
    }
    assert(ctype_views(s) =~= seq![ctype_view(s[0])] + restv);
}

/// Prepending preserves definition views.
pub proof fn lemma_vardef_views_prepend(
    s: Seq<crate::definition::CVarDef>,
    restv: Seq<crate::definition::VarDefV>,
)
    requires
        s.len() >= 1,
        crate::definition::vardef_views(s.skip(1)) == restv,
    ensures
        crate::definition::vardef_views(s) == seq![crate::definition::vardef_view(s[0])] + restv,
{
    crate::definition::lemma_vardef_views_index(s);
    crate::definition::lemma_vardef_views_index(s.skip(1));
    assert forall|k: int| 0 <= k < restv.len() implies restv[k] == crate::definition::vardef_view(
        s[k + 1],
    ) by {
        assert(s.skip(1)[k] == s[k + 1]);
    }
    assert(crate::definition::vardef_views(s) =~= seq![crate::definition::vardef_view(s[0])]
        + restv);
}

/// Memoization: mapping an equal source type twice returns the identical
/// target type, composite reference included, and the second mapping
/// leaves the memo, the registry and the diagnostics exactly as they
/// were.
pub proof fn lemma_mapping_twice(table: Seq<crate::ir::SrcTypeV>, t: int, st: MapSt)
    requires
        crate::ir::table_wf(table),
        0 <= t < table.len(),
        st.memo.len() == table.len(),
    ensures
        ({
            let (c, st1) = map_ty(table, t, st);
            map_ty(table, t, st1) == (c, st1)
        }),
{
    let (c, st1) = map_ty(table, t, st);
    if st.memo[t] is Some {
    } else {
        lemma_map_internal_memo_len(table, t, st);
        assert(st1.memo == map_ty_internal(table, t, st).1.memo.update(t, Option::Some(c)));
        assert(st1.memo[t] == Option::Some(c));
    }
}

/// The mapper never changes the length of the memo table.
proof fn lemma_map_memo_len(table: Seq<crate::ir::SrcTypeV>, t: int, st: MapSt)
    requires
        crate::ir::table_wf(table),
        0 <= t < table.len(),
        st.memo.len() == table.len(),
    ensures
        map_ty(table, t, st).1.memo.len() == st.memo.len(),
    decreases t, 3int, 0int, 0int,
{
    if st.memo[t] is Some {
    } else {
        lemma_map_internal_memo_len(table, t, st);
    }
}

proof fn lemma_map_internal_memo_len(table: Seq<crate::ir::SrcTypeV>, t: int, st: MapSt)
    requires
        crate::ir::table_wf(table),
        0 <= t < table.len(),
        st.memo.len() == table.len(),
    ensures
        map_ty_internal(table, t, st).1.memo.len() == st.memo.len(),
    decreases t, 2int, 0int, 0int,
{
    assert(crate::ir::src_type_entry_wf(table[t], t));
    match table[t] {
        crate::ir::SrcTypeV::Tuple { fields } => {
            lemma_map_ids_memo_len(table, fields, 0, st, t);
        },
        crate::ir::SrcTypeV::StructAdt { field_tys, .. } => {
            lemma_map_ids_memo_len(table, field_tys, 0, st, t);
        },
        crate::ir::SrcTypeV::UnionAdt { field_tys, .. } => {
            lemma_map_ids_memo_len(table, field_tys, 0, st, t);
        },
        crate::ir::SrcTypeV::EnumAdt { variant_names, variant_fields, discr_ty, .. } => {
            lemma_map_variants_memo_len(table, variant_names, variant_fields, 0, st, t);
            let (ufields, st1) = map_variants(table, variant_names, variant_fields, 0, st, t);
            let (uinfo, st2) = reg_composite(
                st1,
                crate::structure::CompositeV::Union(
                    crate::structure::StructDefV {
                        name: wrapper_union_name_text(
                            table[t]->EnumAdt_name,
                        ),
                        fields: ufields,
                    },
                ),
            );
            lemma_map_memo_len(table, discr_ty as int, st2);
        },
        crate::ir::SrcTypeV::Closure { upvars } => {
            lemma_map_memo_len(table, upvars as int, st);
        },
        crate::ir::SrcTypeV::Ref { inner, sized } => {
            if sized {
                lemma_map_memo_len(table, inner as int, st);
            }
        },
        crate::ir::SrcTypeV::Array { elem, .. } => {
            lemma_map_memo_len(table, elem as int, st);
        },
        crate::ir::SrcTypeV::FnPtr { args, ret } => {
            lemma_map_ids_memo_len(table, args, 0, st, t);
            let (cs, st1) = map_ids(table, args, 0, st, t);
            lemma_map_memo_len(table, ret as int, st1);
        },
        crate::ir::SrcTypeV::RawPtr { inner } => {
            lemma_map_memo_len(table, inner as int, st);
        },
        _ => {},
    }
}

proof fn lemma_map_ids_memo_len(
    table: Seq<crate::ir::SrcTypeV>,
    ids: Seq<usize>,
    i: int,
    st: MapSt,
    bound: int,
)
    requires
        crate::ir::table_wf(table),
        0 <= bound <= table.len(),
        crate::ir::ids_below(ids, bound),
        0 <= i,
        st.memo.len() == table.len(),
    ensures
        map_ids(table, ids, i, st, bound).1.memo.len() == st.memo.len(),
    decreases bound, 1int, 0int, ids.len() - i,
{
    if i < ids.len() {
        lemma_map_memo_len(table, ids[i] as int, st);
        let (c, st1) = map_ty(table, ids[i] as int, st);
        lemma_map_ids_memo_len(table, ids, i + 1, st1, bound);
    }
}

proof fn lemma_map_variants_memo_len(
    table: Seq<crate::ir::SrcTypeV>,
    names: Seq<Seq<char>>,
    fieldss: Seq<Seq<usize>>,
    i: int,
    st: MapSt,
    bound: int,
)
    requires
        crate::ir::table_wf(table),
        0 <= bound <= table.len(),
        forall|k: int| 0 <= k < fieldss.len() ==> crate::ir::ids_below(#[trigger] fieldss[k], bound),
        0 <= i,
        st.memo.len() == table.len(),
    ensures
        map_variants(table, names, fieldss, i, st, bound).1.memo.len() == st.memo.len(),
    decreases bound, 1int, 1int, fieldss.len() - i,
{
    if i < fieldss.len() {
        lemma_map_ids_memo_len(table, fieldss[i], 0, st, bound);
        let (cs, st1) = map_ids(table, fieldss[i], 0, st, bound);
        let (info, st2) = reg_composite(
            st1,
            crate::structure::CompositeV::Struct(
                crate::structure::StructDefV {
                    name: sanitize_text(names[i]),
                    fields: positional_fields(cs),
                },
            ),
        );
        lemma_map_variants_memo_len(table, names, fieldss, i + 1, st2, bound);
    }
}


} // verus!
