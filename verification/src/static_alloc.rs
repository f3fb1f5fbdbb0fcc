//! Static allocations: a constant byte buffer with embedded pointer
//! relocations, rendered as one anonymous struct whose fields alternate
//! raw byte runs and pointer slots that exactly tile the buffer.

use vstd::prelude::*;

use crate::crepr::RepresentationContext;
use crate::crepr::RepCtxV;
use crate::crepr::ctx_view;
use crate::crepr::indent_text_v;
use crate::crepr::newline_text_v;
use crate::expression::Expression;
use crate::expression::ExprV;
use crate::expression::expr_text;
use crate::expression::expr_view;
use crate::expression::expr_wf;
use crate::function::CFunctionV;
use crate::utils::byte_hex_text;
use crate::utils::dec_text;

verus! {

/// A static allocation under construction.
pub struct StaticAllocation {
    pub bytes: Vec<u8>,
    pub ptrs: Vec<(usize, Expression)>,
    pub name: String,
}

/// The view of a static allocation.
pub struct AllocV {
    pub bytes: Seq<u8>,
    pub ptrs: Seq<(usize, ExprV)>,
    pub name: Seq<char>,
}

/// The views of the relocation list.
pub open spec fn ptr_views(s: Seq<(usize, Expression)>) -> Seq<(usize, ExprV)>
    decreases s,
{
    if s.len() == 0 {
        Seq::<(usize, ExprV)>::empty()
    } else {
        ptr_views(s.drop_last()).push((s.last().0, expr_view(s.last().1)))
    }
}

/// Views of the relocation list are taken element by element.
pub proof fn lemma_ptr_views_index(s: Seq<(usize, Expression)>)
    ensures
        ptr_views(s).len() == s.len(),
        forall|i: int|
            0 <= i < s.len() ==> ptr_views(s)[i] == ((#[trigger] s[i]).0, expr_view(s[i].1)),
    decreases s.len(),
{
    if s.len() > 0 {
        lemma_ptr_views_index(s.drop_last());
        assert forall|i: int| 0 <= i < s.len() implies ptr_views(s)[i] == (
            (#[trigger] s[i]).0,
            expr_view(s[i].1),
        ) by {
            if i < s.len() - 1 {
                assert(s.drop_last()[i] == s[i]);
            }
        }
    }
}

/// The view of a static allocation.
pub open spec fn alloc_view(a: StaticAllocation) -> AllocV {
    AllocV { bytes: a.bytes@, ptrs: ptr_views(a.ptrs@), name: a.name@ }
}

/// A function view with nothing declared; relocation expressions mention
/// no locals, so they render against it.
pub open spec fn no_fn() -> CFunctionV {
    CFunctionV {
        name: Seq::<char>::empty(),
        signature: Seq::<crate::definition::VarDefV>::empty(),
        local_decl: Seq::<crate::definition::VarDeclV>::empty(),
        basic_blocks: Seq::<crate::bb::BasicBlockV>::empty(),
        is_main: false,
        return_ty: crate::ty::CTypeV::Void,
    }
}

/// The well-formedness of an allocation: relocation offsets strictly
/// increase with at least one pointer width between them, every
/// relocation lies inside the buffer, and each target expression needs
/// no enclosing function.
pub open spec fn alloc_wf(a: AllocV) -> bool {
    &&& forall|k: int| 0 <= k < a.ptrs.len() ==> (#[trigger] a.ptrs[k]).0 + 8 <= a.bytes.len()
    &&& forall|k: int|
        0 <= k < a.ptrs.len() - 1 ==> (#[trigger] a.ptrs[k]).0 + 8 <= a.ptrs[k + 1].0
    &&& forall|k: int| 0 <= k < a.ptrs.len() ==> expr_wf((#[trigger] a.ptrs[k]).1, no_fn())
}

impl StaticAllocation {
    /// An allocation from its name, buffer, and ordered relocations.
    pub fn new(name: String, bytes: Vec<u8>, ptrs: Vec<(usize, Expression)>) -> (r: Self)
        ensures
            alloc_view(r) == (AllocV {
                bytes: bytes@,
                ptrs: ptr_views(ptrs@),
                name: name@,
            }),
    {
        Self { bytes, ptrs, name }
    }

    /// The fixed pointer width of the target platform, in bytes.
    pub fn ptr_size() -> (r: usize)
        ensures
            r == 8,
    {
        8
    }
}

/// The offset where the next relocation starts, or the buffer end when
/// none is left.
pub open spec fn next_ptr_offset_of(a: AllocV, ptr_idx: int) -> int {
    if 0 <= ptr_idx < a.ptrs.len() {
        a.ptrs[ptr_idx].0 as int
    } else {
        a.bytes.len() as int
    }
}

/// One byte-run field line.
pub open spec fn byte_field_text(byte_idx: int, run: int, ctx: RepCtxV) -> Seq<char> {
    indent_text_v(ctx) + "int8_t bytes_"@ + dec_text(byte_idx as nat) + "["@ + dec_text(
        run as nat,
    ) + "];"@ + newline_text_v(ctx)
}

/// One pointer-slot field line.
pub open spec fn ptr_field_text(ptr_idx: int, offset: int, ctx: RepCtxV) -> Seq<char> {
    indent_text_v(ctx) + "void* ptr_"@ + dec_text(ptr_idx as nat) + "; /* offset "@ + dec_text(
        offset as nat,
    ) + " */"@ + newline_text_v(ctx)
}

/// The field lines of the anonymous struct, walked from byte `cur` with
/// `byte_idx` byte runs and `ptr_idx` relocations already emitted.
#[verifier::opaque]
pub open spec fn alloc_fields_text(
    a: AllocV,
    cur: int,
    byte_idx: int,
    ptr_idx: int,
    ctx: RepCtxV,
) -> Seq<char>
    decreases a.bytes.len() + 8 - cur when 0 <= cur <= a.bytes.len() + 8 && alloc_wf(a)
{
    if cur >= a.bytes.len() {
        Seq::<char>::empty()
    } else {
        let next = next_ptr_offset_of(a, ptr_idx);
        if cur < next {
            byte_field_text(byte_idx, next - cur, ctx) + alloc_fields_text(
                a,
                next,
                byte_idx + 1,
                ptr_idx,
                ctx,
            )
        } else {
            ptr_field_text(ptr_idx, next_ptr_offset_of(a, ptr_idx), ctx) + alloc_fields_text(
                a,
                cur + 8,
                byte_idx,
                ptr_idx + 1,
                ctx,
            )
        }
    }
}

/// The comma-separated byte literals of one run.
pub open spec fn byte_list_text(bytes: Seq<u8>, from: int, to: int) -> Seq<char>
    decreases to - from,
{
    if from >= to {
        Seq::<char>::empty()
    } else if to == from + 1 {
        "0x"@ + byte_hex_text(bytes[from] as nat)
    } else {
        byte_list_text(bytes, from, to - 1) + ", "@ + "0x"@ + byte_hex_text(bytes[to - 1] as nat)
    }
}

/// One byte-run initializer entry.
pub open spec fn byte_value_text(bytes: Seq<u8>, from: int, to: int, ctx: RepCtxV) -> Seq<char> {
    indent_text_v(ctx) + "{"@ + byte_list_text(bytes, from, to) + "}"@
}

/// One relocation initializer entry.
pub open spec fn ptr_value_text(e: ExprV, ctx: RepCtxV) -> Seq<char> {
    indent_text_v(ctx) + expr_text(e, no_fn(), ctx)
}

/// The initializer entries, walked as the fields are.
#[verifier::opaque]
pub open spec fn alloc_values_text(a: AllocV, cur: int, ptr_idx: int, ctx: RepCtxV) -> Seq<char>
    decreases a.bytes.len() + 8 - cur when 0 <= cur <= a.bytes.len() + 8 && alloc_wf(a)
{
    if cur >= a.bytes.len() {
        Seq::<char>::empty()
    } else {
        let sep: Seq<char> = if cur > 0 {
            ","@ + newline_text_v(ctx)
        } else {
            Seq::<char>::empty()
        };
        let next = next_ptr_offset_of(a, ptr_idx);
        if cur < next {
            sep + byte_value_text(a.bytes, cur, next, ctx) + alloc_values_text(
                a,
                next,
                ptr_idx,
                ctx,
            )
        } else {
            sep + ptr_value_text(a.ptrs[ptr_idx].1, ctx) + alloc_values_text(
                a,
                cur + 8,
                ptr_idx + 1,
                ctx,
            )
        }
    }
}

/// The whole declaration: the anonymous struct, its name, and its
/// initializer.
pub open spec fn alloc_text(a: AllocV, ctx: RepCtxV) -> Seq<char> {
    "struct {"@ + newline_text_v(ctx) + alloc_fields_text(a, 0, 0, 0, ctx) + "} "@ + a.name
        + " = {"@ + newline_text_v(ctx) + alloc_values_text(a, 0, 0, ctx) + newline_text_v(ctx)
        + "};"@
}

/// Unfolding of the field walk at a byte run.
proof fn lemma_fields_step_byte(a: AllocV, cur: int, byte_idx: int, ptr_idx: int, ctx: RepCtxV)
    requires
        alloc_wf(a),
        0 <= cur < a.bytes.len(),
        cur < next_ptr_offset_of(a, ptr_idx),
    ensures
        alloc_fields_text(a, cur, byte_idx, ptr_idx, ctx) == byte_field_text(
            byte_idx,
            next_ptr_offset_of(a, ptr_idx) - cur,
            ctx,
        ) + alloc_fields_text(a, next_ptr_offset_of(a, ptr_idx), byte_idx + 1, ptr_idx, ctx),
{
    reveal(alloc_fields_text);
}

/// Unfolding of the field walk at a pointer slot.
proof fn lemma_fields_step_ptr(a: AllocV, cur: int, byte_idx: int, ptr_idx: int, ctx: RepCtxV)
    requires
        alloc_wf(a),
        0 <= cur < a.bytes.len(),
        cur >= next_ptr_offset_of(a, ptr_idx),
    ensures
        alloc_fields_text(a, cur, byte_idx, ptr_idx, ctx) == ptr_field_text(
            ptr_idx,
            next_ptr_offset_of(a, ptr_idx),
            ctx,
        ) + alloc_fields_text(a, cur + 8, byte_idx, ptr_idx + 1, ctx),
{
    reveal(alloc_fields_text);
}

/// Unfolding of the value walk at a byte run.
proof fn lemma_values_step_byte(a: AllocV, cur: int, ptr_idx: int, ctx: RepCtxV)
    requires
        alloc_wf(a),
        0 <= cur < a.bytes.len(),
        cur < next_ptr_offset_of(a, ptr_idx),
    ensures
        alloc_values_text(a, cur, ptr_idx, ctx) == (if cur > 0 {
            ","@ + newline_text_v(ctx)
        } else {
            Seq::<char>::empty()
        }) + byte_value_text(a.bytes, cur, next_ptr_offset_of(a, ptr_idx), ctx)
            + alloc_values_text(a, next_ptr_offset_of(a, ptr_idx), ptr_idx, ctx),
{
    reveal(alloc_values_text);
}

/// Unfolding of the value walk at a pointer slot.
proof fn lemma_values_step_ptr(a: AllocV, cur: int, ptr_idx: int, ctx: RepCtxV)
    requires
        alloc_wf(a),
        0 <= cur < a.bytes.len(),
        cur >= next_ptr_offset_of(a, ptr_idx),
    ensures
        0 <= ptr_idx < a.ptrs.len(),
        alloc_values_text(a, cur, ptr_idx, ctx) == (if cur > 0 {
            ","@ + newline_text_v(ctx)
        } else {
            Seq::<char>::empty()
        }) + ptr_value_text(a.ptrs[ptr_idx].1, ctx) + alloc_values_text(a, cur + 8, ptr_idx + 1, ctx),
{
    reveal(alloc_values_text);
}

/// The lengths of the byte runs from `cur` on, summed.
pub open spec fn byte_run_total(a: AllocV, cur: int, ptr_idx: int) -> int
    decreases a.bytes.len() + 8 - cur when 0 <= cur <= a.bytes.len() + 8 && alloc_wf(a)
{
    if cur >= a.bytes.len() {
        0
    } else {
        let next = next_ptr_offset_of(a, ptr_idx);
        if cur < next {
            (next - cur) + byte_run_total(a, next, ptr_idx)
        } else {
            byte_run_total(a, cur + 8, ptr_idx + 1)
        }
    }
}

/// Walking from `cur` with `ptr_idx` relocations already behind, the
/// remaining byte runs and pointer slots exactly tile the rest of the
/// buffer.
proof fn lemma_tiling_from(a: AllocV, cur: int, ptr_idx: int)
    requires
        alloc_wf(a),
        0 <= cur <= a.bytes.len(),
        0 <= ptr_idx <= a.ptrs.len(),
        ptr_idx < a.ptrs.len() ==> cur <= a.ptrs[ptr_idx].0,
        ptr_idx == a.ptrs.len() || cur < a.bytes.len() || ptr_idx == a.ptrs.len(),
        forall|k: int| ptr_idx <= k < a.ptrs.len() ==> cur <= (#[trigger] a.ptrs[k]).0,
    ensures
        byte_run_total(a, cur, ptr_idx) + 8 * (a.ptrs.len() - ptr_idx) == a.bytes.len() - cur,
    decreases a.bytes.len() - cur,
{
    if cur >= a.bytes.len() {
        assert(ptr_idx == a.ptrs.len());
    } else {
        let next = next_ptr_offset_of(a, ptr_idx);
        if cur < next {
            assert forall|k: int| ptr_idx <= k < a.ptrs.len() implies next <= (
            #[trigger] a.ptrs[k]).0 by {
                if k > ptr_idx {
                    lemma_offsets_sorted(a, ptr_idx, k);
                }
            }
            lemma_tiling_from(a, next, ptr_idx);
        } else {
            assert(ptr_idx < a.ptrs.len());
            assert forall|k: int| ptr_idx + 1 <= k < a.ptrs.len() implies cur + 8 <= (
            #[trigger] a.ptrs[k]).0 by {
                if k > ptr_idx + 1 {
                    lemma_offsets_sorted(a, ptr_idx + 1, k);
                } else {
                }
            }
            lemma_tiling_from(a, cur + 8, ptr_idx + 1);
        }
    }
}

/// Offsets are sorted across any distance.
proof fn lemma_offsets_sorted(a: AllocV, i: int, j: int)
    requires
        alloc_wf(a),
        0 <= i <= j < a.ptrs.len(),
    ensures
        a.ptrs[i].0 + 8 * (j - i) <= a.ptrs[j].0,
    decreases j - i,
{
    if i < j {
        lemma_offsets_sorted(a, i, j - 1);
    }
}

/// Tiling: for any well-formed static allocation, the byte-run lengths
/// plus one pointer width for each relocation exactly cover the buffer.
pub proof fn lemma_static_alloc_tiling(a: AllocV)
    requires
        alloc_wf(a),
    ensures
        byte_run_total(a, 0, 0) + 8 * a.ptrs.len() == a.bytes.len(),
{
    if a.ptrs.len() > 0 {
        assert forall|k: int| 0 <= k < a.ptrs.len() implies 0 <= (#[trigger] a.ptrs[k]).0 by {
            lemma_offsets_sorted(a, 0, k);
        }
    }
    lemma_tiling_from(a, 0, 0);
}

impl StaticAllocation {
    /// Renders one byte-run field line.
    fn build_bytes_definition(
        &self,
        out: &mut String,
        ctx: &RepresentationContext,
        bytes_num: usize,
        from: usize,
        to: usize,
    )
        requires
            from <= to,
        ensures
            final(out)@ == old(out)@ + byte_field_text(bytes_num as int, to - from, ctx_view(*ctx)),
    {
        crate::crepr::indent(out, ctx);
        out.append("int8_t bytes_");
        crate::utils::push_dec_usize(out, bytes_num);
        out.append("[");
        crate::utils::push_dec_usize(out, to - from);
        out.append("];");
        crate::crepr::push_newline(out, ctx);
        proof {
            assert(out@ =~= old(out)@ + byte_field_text(
                bytes_num as int,
                to - from,
                ctx_view(*ctx),
            ));
        }
    }

    /// Renders one pointer-slot field line.
    fn build_ptr_definition(
        &self,
        out: &mut String,
        ctx: &RepresentationContext,
        ptr_idx: usize,
        offset: usize,
    )
        ensures
            final(out)@ == old(out)@ + ptr_field_text(ptr_idx as int, offset as int, ctx_view(*ctx)),
    {
        crate::crepr::indent(out, ctx);
        out.append("void* ptr_");
        crate::utils::push_dec_usize(out, ptr_idx);
        out.append("; /* offset ");
        crate::utils::push_dec_usize(out, offset);
        out.append(" */");
        crate::crepr::push_newline(out, ctx);
        proof {
            assert(out@ =~= old(out)@ + ptr_field_text(
                ptr_idx as int,
                offset as int,
                ctx_view(*ctx),
            ));
        }
    }

    /// Renders one byte-run initializer entry.
    fn build_bytes_declaration(
        &self,
        out: &mut String,
        ctx: &RepresentationContext,
        from: usize,
        to: usize,
    )
        requires
            from <= to <= self.bytes@.len(),
        ensures
            final(out)@ == old(out)@ + byte_value_text(
                self.bytes@,
                from as int,
                to as int,
                ctx_view(*ctx),
            ),
    {
        crate::crepr::indent(out, ctx);
        out.append("{");
        let ghost basebl = out@;
        let mut b: usize = from;
        proof {
            assert(byte_list_text(self.bytes@, from as int, b as int) =~= Seq::<char>::empty());
        }
        while b < to
            invariant
                from <= b <= to,
                to <= self.bytes@.len(),
                out@ == basebl + byte_list_text(self.bytes@, from as int, b as int),
            decreases to - b,
        {
            if b > from {
                out.append(", ");
            }
            out.append("0x");
            crate::utils::push_byte_hex(out, self.bytes[b]);
            b = b + 1;
            proof {
                assert(out@ =~= basebl + byte_list_text(self.bytes@, from as int, b as int));
            }
        }
        out.append("}");
        proof {
            assert(out@ =~= old(out)@ + byte_value_text(
                self.bytes@,
                from as int,
                to as int,
                ctx_view(*ctx),
            ));
        }
    }

    /// Renders the field lines of the anonymous struct.
    #[verifier::rlimit(100)]
    fn push_fields(&self, out: &mut String, ctx: &RepresentationContext)
        requires
            alloc_wf(alloc_view(*self)),
        ensures
            final(out)@ == old(out)@ + alloc_fields_text(alloc_view(*self), 0, 0, 0, ctx_view(*ctx)),
    {
        proof {
            lemma_ptr_views_index(self.ptrs@);
            if alloc_view(*self).ptrs.len() > 0 {
                assert forall|k: int| 0 <= k < alloc_view(*self).ptrs.len() implies 0 <= (
                #[trigger] alloc_view(*self).ptrs[k]).0 by {}
            }
        }
        self.push_fields_from(out, ctx, 0, 0, 0);
    }

    /// Renders the field lines from byte `cur` on.
    #[verifier::rlimit(100)]
    fn push_fields_from(
        &self,
        out: &mut String,
        ctx: &RepresentationContext,
        cur: usize,
        byte_idx: usize,
        ptr_idx: usize,
    )
        requires
            alloc_wf(alloc_view(*self)),
            cur <= self.bytes@.len(),
            byte_idx <= cur,
            ptr_idx <= alloc_view(*self).ptrs.len(),
            forall|k: int|
                ptr_idx <= k < alloc_view(*self).ptrs.len() ==> cur <= (#[trigger] alloc_view(
                    *self,
                ).ptrs[k]).0,
        ensures
            final(out)@ == old(out)@ + alloc_fields_text(
                alloc_view(*self),
                cur as int,
                byte_idx as int,
                ptr_idx as int,
                ctx_view(*ctx),
            ),
        decreases self.bytes@.len() - cur,
    {
        let ghost av = alloc_view(*self);
        let ghost cv = ctx_view(*ctx);
        proof {
            lemma_ptr_views_index(self.ptrs@);
        }
        if cur >= self.bytes.len() {
            proof {
                reveal(alloc_fields_text);
                assert(out@ =~= old(out)@ + alloc_fields_text(
                    av,
                    cur as int,
                    byte_idx as int,
                    ptr_idx as int,
                    cv,
                ));
            }
        } else {
            let next: usize = if ptr_idx < self.ptrs.len() {
                self.ptrs[ptr_idx].0
            } else {
                self.bytes.len()
            };
            proof {
                assert(next as int == next_ptr_offset_of(av, ptr_idx as int));
            }
            if cur < next {
                self.build_bytes_definition(out, ctx, byte_idx, cur, next);
                proof {
                    lemma_fields_step_byte(av, cur as int, byte_idx as int, ptr_idx as int, cv);
                    assert forall|k: int| ptr_idx <= k < av.ptrs.len() implies next <= (
                    #[trigger] av.ptrs[k]).0 by {
                        if k > ptr_idx {
                            lemma_alloc_sorted_pub(av, ptr_idx as int, k);
                        }
                    }
                }
                self.push_fields_from(out, ctx, next, byte_idx + 1, ptr_idx);
                proof {
                    assert(final(out)@ =~= old(out)@ + alloc_fields_text(
                        av,
                        cur as int,
                        byte_idx as int,
                        ptr_idx as int,
                        cv,
                    ));
                }
            } else {
                self.build_ptr_definition(out, ctx, ptr_idx, self.ptrs[ptr_idx].0);
                proof {
                    lemma_fields_step_ptr(av, cur as int, byte_idx as int, ptr_idx as int, cv);
                    assert(av.ptrs[ptr_idx as int].0 + 8 <= av.bytes.len());
                    assert forall|k: int| ptr_idx + 1 <= k < av.ptrs.len() implies cur + 8 <= (
                    #[trigger] av.ptrs[k]).0 by {
                        if k > ptr_idx + 1 {
                            lemma_alloc_sorted_pub(av, ptr_idx as int + 1, k);
                        }
                    }
                }
                self.push_fields_from(out, ctx, cur + 8, byte_idx, ptr_idx + 1);
                proof {
                    assert(final(out)@ =~= old(out)@ + alloc_fields_text(
                        av,
                        cur as int,
                        byte_idx as int,
                        ptr_idx as int,
                        cv,
                    ));
                }
            }
        }
    }

    /// Renders the initializer entries.
    #[verifier::rlimit(100)]
    fn push_values(&self, out: &mut String, ctx: &RepresentationContext)
        requires
            alloc_wf(alloc_view(*self)),
        ensures
            final(out)@ == old(out)@ + alloc_values_text(alloc_view(*self), 0, 0, ctx_view(*ctx)),
    {
        proof {
            lemma_ptr_views_index(self.ptrs@);
        }
        self.push_values_from(out, ctx, 0, 0);
    }

    /// Renders the initializer entries from byte `cur` on.
    #[verifier::rlimit(100)]
    fn push_values_from(
        &self,
        out: &mut String,
        ctx: &RepresentationContext,
        cur: usize,
        ptr_idx: usize,
    )
        requires
            alloc_wf(alloc_view(*self)),
            cur <= self.bytes@.len(),
            ptr_idx <= alloc_view(*self).ptrs.len(),
            forall|k: int|
                ptr_idx <= k < alloc_view(*self).ptrs.len() ==> cur <= (#[trigger] alloc_view(
                    *self,
                ).ptrs[k]).0,
        ensures
            final(out)@ == old(out)@ + alloc_values_text(
                alloc_view(*self),
                cur as int,
                ptr_idx as int,
                ctx_view(*ctx),
            ),
        decreases self.bytes@.len() - cur,
    {
        let ghost av = alloc_view(*self);
        let ghost cv = ctx_view(*ctx);
        proof {
            lemma_ptr_views_index(self.ptrs@);
        }
        if cur >= self.bytes.len() {
            proof {
                reveal(alloc_values_text);
                assert(out@ =~= old(out)@ + alloc_values_text(av, cur as int, ptr_idx as int, cv));
            }
        } else {
            let next: usize = if ptr_idx < self.ptrs.len() {
                self.ptrs[ptr_idx].0
            } else {
                self.bytes.len()
            };
            proof {
                assert(next as int == next_ptr_offset_of(av, ptr_idx as int));
            }
            if cur > 0 {
                out.append(",");
                crate::crepr::push_newline(out, ctx);
            }
            if cur < next {
                self.build_bytes_declaration(out, ctx, cur, next);
                proof {
                    lemma_values_step_byte(av, cur as int, ptr_idx as int, cv);
                    assert forall|k: int| ptr_idx <= k < av.ptrs.len() implies next <= (
                    #[trigger] av.ptrs[k]).0 by {
                        if k > ptr_idx {
                            lemma_alloc_sorted_pub(av, ptr_idx as int, k);
                        }
                    }
                }
                self.push_values_from(out, ctx, next, ptr_idx);
                proof {
                    assert(final(out)@ =~= old(out)@ + alloc_values_text(
                        av,
                        cur as int,
                        ptr_idx as int,
                        cv,
                    ));
                }
            } else {
                crate::crepr::indent(out, ctx);
                let nofn = empty_fn();
                proof {
                    lemma_values_step_ptr(av, cur as int, ptr_idx as int, cv);
                    assert(av.ptrs[ptr_idx as int].1 == expr_view(self.ptrs@[ptr_idx as int].1));
                    assert(expr_wf(av.ptrs[ptr_idx as int].1, no_fn()));
                    assert(crate::function::fn_view(nofn) == no_fn());
                    assert(av.ptrs[ptr_idx as int].0 + 8 <= av.bytes.len());
                    assert forall|k: int| ptr_idx + 1 <= k < av.ptrs.len() implies cur + 8 <= (
                    #[trigger] av.ptrs[k]).0 by {
                        if k > ptr_idx + 1 {
                            lemma_alloc_sorted_pub(av, ptr_idx as int + 1, k);
                        }
                    }
                }
                crate::expression::push_expr(out, &self.ptrs[ptr_idx].1, &nofn, ctx);
                self.push_values_from(out, ctx, cur + 8, ptr_idx + 1);
                proof {
                    assert(final(out)@ =~= old(out)@ + alloc_values_text(
                        av,
                        cur as int,
                        ptr_idx as int,
                        cv,
                    ));
                }
            }
        }
    }

    /// Renders the whole declaration.
    pub fn repr(&self, out: &mut String, ctx: &RepresentationContext)
        requires
            alloc_wf(alloc_view(*self)),
        ensures
            final(out)@ == old(out)@ + alloc_text(alloc_view(*self), ctx_view(*ctx)),
    {
        let ghost av = alloc_view(*self);
        let ghost cv = ctx_view(*ctx);
        out.append("struct {");
        crate::crepr::push_newline(out, ctx);
        self.push_fields(out, ctx);
        out.append("} ");
        out.append(crate::crepr::self_str(&self.name));
        out.append(" = {");
        crate::crepr::push_newline(out, ctx);
        self.push_values(out, ctx);
        crate::crepr::push_newline(out, ctx);
        out.append("};");
        proof {
            assert(out@ =~= old(out)@ + alloc_text(av, cv));
        }
    }
}

/// Relocation offsets grow by at least a pointer width per step.
pub proof fn lemma_alloc_sorted_pub(a: AllocV, i: int, j: int)
    requires
        alloc_wf(a),
        0 <= i <= j < a.ptrs.len(),
    ensures
        a.ptrs[i].0 + 8 * (j - i) <= a.ptrs[j].0,
    decreases j - i,
{
    if i < j {
        lemma_alloc_sorted_pub(a, i, j - 1);
    }
}

/// An empty function for rendering expressions that mention no locals.
pub fn empty_fn() -> (r: crate::function::CFunction)
    ensures
        crate::function::fn_view(r) == no_fn(),
{
    crate::function::CFunction::new(String::new(), crate::ty::CType::Void)
}

} // verus!
