//! The rendering context threaded through every `repr` method: indentation,
//! newline and comment flags, a pending variable name for declaration sites,
//! and a pending pointer count consumed by the type renderer.

use vstd::prelude::*;

use crate::utils::repeat_text;

verus! {

pub struct RepresentationContext {
    pub indent: usize,
    pub indent_string: String,
    pub include_newline: bool,
    pub include_comments: bool,
    pub var_name: Option<String>,
    pub n_ptr: u8,
}

/// The view of a rendering context: the parts renderers read.
pub struct RepCtxV {
    pub indent: usize,
    pub indent_string: Seq<char>,
    pub include_newline: bool,
    pub include_comments: bool,
}

/// The view of a rendering context.
pub open spec fn ctx_view(ctx: RepresentationContext) -> RepCtxV {
    RepCtxV {
        indent: ctx.indent,
        indent_string: ctx.indent_string@,
        include_newline: ctx.include_newline,
        include_comments: ctx.include_comments,
    }
}

/// The indentation text of a context view.
pub open spec fn indent_text_v(ctx: RepCtxV) -> Seq<char> {
    repeat_text(ctx.indent_string, ctx.indent as nat)
}

/// A newline where the context view asks for one.
pub open spec fn newline_text_v(ctx: RepCtxV) -> Seq<char> {
    if ctx.include_newline {
        "\n"@
    } else {
        Seq::<char>::empty()
    }
}

/// The same context one indentation level deeper; the depth saturates at
/// the machine limit.
pub open spec fn bump_indent(ctx: RepCtxV) -> RepCtxV {
    RepCtxV {
        indent: if ctx.indent < usize::MAX {
            (ctx.indent + 1) as usize
        } else {
            ctx.indent
        },
        ..ctx
    }
}

/// A copy of the context one indentation level deeper, with no pending
/// name or pointer count.
pub fn child_context(ctx: &RepresentationContext) -> (r: RepresentationContext)
    ensures
        ctx_view(r) == bump_indent(ctx_view(*ctx)),
        r.var_name is None,
        r.n_ptr == 0,
{
    RepresentationContext {
        indent: if ctx.indent < usize::MAX {
            ctx.indent + 1
        } else {
            ctx.indent
        },
        indent_string: ctx.indent_string.clone(),
        include_newline: ctx.include_newline,
        include_comments: ctx.include_comments,
        var_name: None,
        n_ptr: 0,
    }
}

/// The view of an optional pending name.
pub open spec fn opt_name_view(n: Option<String>) -> Option<Seq<char>> {
    match n {
        Option::Some(s) => Option::Some(s@),
        Option::None => Option::None,
    }
}

/// The view of the context used when a node is rendered on its own.
pub open spec fn standard_ctx_v() -> RepCtxV {
    RepCtxV { indent: 1, indent_string: "\t"@, include_newline: true, include_comments: true }
}

impl RepresentationContext {
    /// The context used when a node is rendered on its own: one tab of
    /// indentation, newlines and comments included.
    pub fn standard() -> (r: RepresentationContext)
        ensures
            ctx_view(r) == standard_ctx_v(),
            r.var_name is None,
            r.n_ptr == 0,
    {
        RepresentationContext {
            indent: 1,
            indent_string: String::from_str("\t"),
            include_newline: true,
            include_comments: true,
            var_name: None,
            n_ptr: 0,
        }
    }

    /// Takes the pending variable name, leaving none behind.
    pub fn get_variable_name_option(&mut self) -> (r: Option<String>)
        ensures
            r == old(self).var_name,
            final(self).var_name is None,
            final(self).indent == old(self).indent,
            final(self).indent_string == old(self).indent_string,
            final(self).include_newline == old(self).include_newline,
            final(self).include_comments == old(self).include_comments,
            final(self).n_ptr == old(self).n_ptr,
    {
        let r = self.var_name.take();
        r
    }

    /// Takes the pending pointer count, resetting it to zero.
    pub fn get_ptr_count(&mut self) -> (r: u8)
        ensures
            r == old(self).n_ptr,
            final(self).n_ptr == 0,
            final(self).indent == old(self).indent,
            final(self).indent_string == old(self).indent_string,
            final(self).include_newline == old(self).include_newline,
            final(self).include_comments == old(self).include_comments,
            final(self).var_name == old(self).var_name,
    {
        let r = self.n_ptr;
        self.n_ptr = 0;
        r
    }

    /// Records one more pending pointer level.
    pub fn increment_ptr_count(&mut self)
        requires
            old(self).n_ptr < 255,
        ensures
            final(self).n_ptr == old(self).n_ptr + 1,
            final(self).indent == old(self).indent,
            final(self).indent_string == old(self).indent_string,
            final(self).include_newline == old(self).include_newline,
            final(self).include_comments == old(self).include_comments,
            final(self).var_name == old(self).var_name,
    {
        self.n_ptr = self.n_ptr + 1;
    }

    /// Sets the pending variable name for the next type rendered.
    pub fn set_variable_name(&mut self, name: String)
        ensures
            final(self).var_name == Option::Some(name),
            final(self).indent == old(self).indent,
            final(self).indent_string == old(self).indent_string,
            final(self).include_newline == old(self).include_newline,
            final(self).include_comments == old(self).include_comments,
            final(self).n_ptr == old(self).n_ptr,
    {
        self.var_name = Some(name);
    }
}

/// The indentation text at depth `ind`.
pub open spec fn indent_text_at(ctx: RepresentationContext, ind: nat) -> Seq<char> {
    repeat_text(ctx.indent_string@, ind)
}

/// The indentation text of the context's own depth.
pub open spec fn indent_text(ctx: RepresentationContext) -> Seq<char> {
    indent_text_at(ctx, ctx.indent as nat)
}

/// A newline where the context asks for one, nothing otherwise.
pub open spec fn newline_text(ctx: RepresentationContext) -> Seq<char> {
    if ctx.include_newline {
        "\n"@
    } else {
        Seq::<char>::empty()
    }
}

/// Appends the indentation string of the context, repeated `ind` times.
pub fn push_indent_at(out: &mut String, ctx: &RepresentationContext, ind: usize)
    ensures
        final(out)@ == old(out)@ + indent_text_at(*ctx, ind as nat),
{
    crate::utils::push_repeat(out, self_str(&ctx.indent_string), ind);
}

/// Appends the context's own indentation.
pub fn indent(out: &mut String, ctx: &RepresentationContext)
    ensures
        final(out)@ == old(out)@ + indent_text(*ctx),
{
    push_indent_at(out, ctx, ctx.indent);
}

/// Appends a newline where the context asks for one.
pub fn push_newline(out: &mut String, ctx: &RepresentationContext)
    ensures
        final(out)@ == old(out)@ + newline_text(*ctx),
{
    if ctx.include_newline {
        out.append("\n");
    } else {
        proof {
            assert(out@ =~= old(out)@ + newline_text(*ctx));
        }
    }
}

/// Borrows a `String` as a `&str` with the same view.
pub fn self_str(s: &String) -> (r: &str)
    ensures
        r@ == s@,
{
    s.as_str()
}

} // verus!
