//! The registry: append-only lists of header references, defines,
//! functions, synthesized header functions, composites, static blobs and
//! diagnostics, threaded through every lowering call.

use vstd::prelude::*;

use crate::cinclude::Include;
use crate::cinclude::IncludeV;
use crate::cinclude::include_view;
use crate::function::CFunction;
use crate::function::CFunctionV;
use crate::function::fn_view;
use crate::header::CDefine;
use crate::header::DefineV;
use crate::header::define_view;
use crate::static_alloc::AllocV;
use crate::static_alloc::StaticAllocation;
use crate::static_alloc::alloc_view;
use crate::structure::CComposite;
use crate::structure::CompositeV;
use crate::structure::CStructDef;
use crate::structure::composite_name;
use crate::structure::composite_view;
use crate::structure::structdef_view;
use crate::ty::CCompositeInfo;

verus! {

/// The one mutable registry of a compilation unit.
pub struct Context {
    pub includes: Vec<Include>,
    pub header_includes: Vec<Include>,
    pub defines: Vec<CDefine>,
    pub functions: Vec<CFunction>,
    pub header_functions: Vec<CFunction>,
    pub structs: Vec<CComposite>,
    pub statics: Vec<StaticAllocation>,
    pub diagnostics: Vec<String>,
}

/// The view of the registry.
pub struct ContextV {
    pub includes: Seq<IncludeV>,
    pub header_includes: Seq<IncludeV>,
    pub defines: Seq<DefineV>,
    pub functions: Seq<CFunctionV>,
    pub header_functions: Seq<CFunctionV>,
    pub structs: Seq<CompositeV>,
    pub statics: Seq<AllocV>,
    pub diagnostics: Seq<Seq<char>>,
}

pub open spec fn include_views(s: Seq<Include>) -> Seq<IncludeV>
    decreases s,
{
    if s.len() == 0 {
        Seq::<IncludeV>::empty()
    } else {
        include_views(s.drop_last()).push(include_view(s.last()))
    }
}

pub open spec fn fn_views(s: Seq<CFunction>) -> Seq<CFunctionV>
    decreases s,
{
    if s.len() == 0 {
        Seq::<CFunctionV>::empty()
    } else {
        fn_views(s.drop_last()).push(fn_view(s.last()))
    }
}

pub open spec fn composite_views(s: Seq<CComposite>) -> Seq<CompositeV>
    decreases s,
{
    if s.len() == 0 {
        Seq::<CompositeV>::empty()
    } else {
        composite_views(s.drop_last()).push(composite_view(s.last()))
    }
}

pub open spec fn alloc_views(s: Seq<StaticAllocation>) -> Seq<AllocV>
    decreases s,
{
    if s.len() == 0 {
        Seq::<AllocV>::empty()
    } else {
        alloc_views(s.drop_last()).push(alloc_view(s.last()))
    }
}

pub open spec fn string_views(s: Seq<String>) -> Seq<Seq<char>>
    decreases s,
{
    if s.len() == 0 {
        Seq::<Seq<char>>::empty()
    } else {
        string_views(s.drop_last()).push(s.last()@)
    }
}

pub proof fn lemma_fn_views_index(s: Seq<CFunction>)
    ensures
        fn_views(s).len() == s.len(),
        forall|i: int| 0 <= i < s.len() ==> fn_views(s)[i] == fn_view(#[trigger] s[i]),
    decreases s.len(),
{
    if s.len() > 0 {
        lemma_fn_views_index(s.drop_last());
        assert forall|i: int| 0 <= i < s.len() implies fn_views(s)[i] == fn_view(
            #[trigger] s[i],
        ) by {
            if i < s.len() - 1 {
                assert(s.drop_last()[i] == s[i]);
            }
        }
    }
}

pub proof fn lemma_composite_views_index(s: Seq<CComposite>)
    ensures
        composite_views(s).len() == s.len(),
        forall|i: int|
            0 <= i < s.len() ==> composite_views(s)[i] == composite_view(#[trigger] s[i]),
    decreases s.len(),
{
    if s.len() > 0 {
        lemma_composite_views_index(s.drop_last());
        assert forall|i: int| 0 <= i < s.len() implies composite_views(s)[i] == composite_view(
            #[trigger] s[i],
        ) by {
            if i < s.len() - 1 {
                assert(s.drop_last()[i] == s[i]);
            }
        }
    }
}

pub proof fn lemma_include_views_index(s: Seq<Include>)
    ensures
        include_views(s).len() == s.len(),
        forall|i: int| 0 <= i < s.len() ==> include_views(s)[i] == include_view(#[trigger] s[i]),
    decreases s.len(),
{
    if s.len() > 0 {
        lemma_include_views_index(s.drop_last());
        assert forall|i: int| 0 <= i < s.len() implies include_views(s)[i] == include_view(
            #[trigger] s[i],
        ) by {
            if i < s.len() - 1 {
                assert(s.drop_last()[i] == s[i]);
            }
        }
    }
}

pub proof fn lemma_define_list_views_index(s: Seq<CDefine>)
    ensures
        define_views_of(s).len() == s.len(),
        forall|i: int| 0 <= i < s.len() ==> define_views_of(s)[i] == define_view(#[trigger] s[i]),
    decreases s.len(),
{
    if s.len() > 0 {
        lemma_define_list_views_index(s.drop_last());
        assert forall|i: int| 0 <= i < s.len() implies define_views_of(s)[i] == define_view(
            #[trigger] s[i],
        ) by {
            if i < s.len() - 1 {
                assert(s.drop_last()[i] == s[i]);
            }
        }
    }
}

pub open spec fn define_views_of(s: Seq<CDefine>) -> Seq<DefineV> {
    crate::header::define_views(s)
}

pub proof fn lemma_alloc_views_index(s: Seq<StaticAllocation>)
    ensures
        alloc_views(s).len() == s.len(),
        forall|i: int| 0 <= i < s.len() ==> alloc_views(s)[i] == alloc_view(#[trigger] s[i]),
    decreases s.len(),
{
    if s.len() > 0 {
        lemma_alloc_views_index(s.drop_last());
        assert forall|i: int| 0 <= i < s.len() implies alloc_views(s)[i] == alloc_view(
            #[trigger] s[i],
        ) by {
            if i < s.len() - 1 {
                assert(s.drop_last()[i] == s[i]);
            }
        }
    }
}

/// The view of the registry.
pub open spec fn ctx_reg_view(c: Context) -> ContextV {
    ContextV {
        includes: include_views(c.includes@),
        header_includes: include_views(c.header_includes@),
        defines: crate::header::define_views(c.defines@),
        functions: fn_views(c.functions@),
        header_functions: fn_views(c.header_functions@),
        structs: composite_views(c.structs@),
        statics: alloc_views(c.statics@),
        diagnostics: string_views(c.diagnostics@),
    }
}

/// Whether some function of the list has the given name.
pub open spec fn fn_named_in(s: Seq<CFunctionV>, name: Seq<char>) -> bool {
    exists|i: int| 0 <= i < s.len() && (#[trigger] s[i]).name == name
}

/// Whether some define of the list has the given name.
pub open spec fn define_named_in(s: Seq<DefineV>, name: Seq<char>) -> bool {
    exists|i: int| 0 <= i < s.len() && (#[trigger] s[i]).name == name
}

impl Context {
    /// An empty registry.
    pub fn new() -> (r: Self)
        ensures
            ctx_reg_view(r) == (ContextV {
                includes: Seq::<IncludeV>::empty(),
                header_includes: Seq::<IncludeV>::empty(),
                defines: Seq::<DefineV>::empty(),
                functions: Seq::<CFunctionV>::empty(),
                header_functions: Seq::<CFunctionV>::empty(),
                structs: Seq::<CompositeV>::empty(),
                statics: Seq::<AllocV>::empty(),
                diagnostics: Seq::<Seq<char>>::empty(),
            }),
    {
        let r = Self {
            includes: Vec::new(),
            header_includes: Vec::new(),
            defines: Vec::new(),
            functions: Vec::new(),
            header_functions: Vec::new(),
            structs: Vec::new(),
            statics: Vec::new(),
            diagnostics: Vec::new(),
        };
        proof {
            assert(include_views(r.includes@) =~= Seq::<IncludeV>::empty());
            assert(include_views(r.header_includes@) =~= Seq::<IncludeV>::empty());
            assert(crate::header::define_views(r.defines@) =~= Seq::<DefineV>::empty());
            assert(fn_views(r.functions@) =~= Seq::<CFunctionV>::empty());
            assert(fn_views(r.header_functions@) =~= Seq::<CFunctionV>::empty());
            assert(composite_views(r.structs@) =~= Seq::<CompositeV>::empty());
            assert(alloc_views(r.statics@) =~= Seq::<AllocV>::empty());
            assert(string_views(r.diagnostics@) =~= Seq::<Seq<char>>::empty());
        }
        r
    }

    pub fn get_c_includes(&self) -> (r: &Vec<Include>)
        ensures
            r == &self.includes,
    {
        &self.includes
    }

    pub fn get_h_includes(&self) -> (r: &Vec<Include>)
        ensures
            r == &self.header_includes,
    {
        &self.header_includes
    }

    pub fn get_defines(&self) -> (r: &Vec<CDefine>)
        ensures
            r == &self.defines,
    {
        &self.defines
    }

    pub fn get_functions(&self) -> (r: &Vec<CFunction>)
        ensures
            r == &self.functions,
    {
        &self.functions
    }

    pub fn get_header_functions(&self) -> (r: &Vec<CFunction>)
        ensures
            r == &self.header_functions,
    {
        &self.header_functions
    }

    pub fn get_structs(&self) -> (r: &Vec<CComposite>)
        ensures
            r == &self.structs,
    {
        &self.structs
    }

    pub fn get_statics(&self) -> (r: &Vec<StaticAllocation>)
        ensures
            r == &self.statics,
    {
        &self.statics
    }

    pub fn get_diagnostics(&self) -> (r: &Vec<String>)
        ensures
            r == &self.diagnostics,
    {
        &self.diagnostics
    }

    /// Appends a header reference for the generated C file.
    pub fn push_c_include(&mut self, i: Include)
        ensures
            ctx_reg_view(*final(self)) == (ContextV {
                includes: ctx_reg_view(*old(self)).includes.push(include_view(i)),
                ..ctx_reg_view(*old(self))
            }),
    {
        let ghost pre = self.includes@;
        self.includes.push(i);
        proof {
            assert(self.includes@.drop_last() =~= pre);
        }
    }

    /// Appends a header reference for the generated header file.
    pub fn push_h_include(&mut self, i: Include)
        ensures
            ctx_reg_view(*final(self)) == (ContextV {
                header_includes: ctx_reg_view(*old(self)).header_includes.push(include_view(i)),
                ..ctx_reg_view(*old(self))
            }),
    {
        let ghost pre = self.header_includes@;
        self.header_includes.push(i);
        proof {
            assert(self.header_includes@.drop_last() =~= pre);
        }
    }

    /// Appends a define.
    pub fn push_define(&mut self, d: CDefine)
        ensures
            ctx_reg_view(*final(self)) == (ContextV {
                defines: ctx_reg_view(*old(self)).defines.push(define_view(d)),
                ..ctx_reg_view(*old(self))
            }),
    {
        let ghost pre = self.defines@;
        self.defines.push(d);
        proof {
            assert(self.defines@.drop_last() =~= pre);
        }
    }

    /// Appends a lowered function.
    pub fn push_function(&mut self, f: CFunction)
        ensures
            ctx_reg_view(*final(self)) == (ContextV {
                functions: ctx_reg_view(*old(self)).functions.push(fn_view(f)),
                ..ctx_reg_view(*old(self))
            }),
    {
        let ghost pre = self.functions@;
        self.functions.push(f);
        proof {
            assert(self.functions@.drop_last() =~= pre);
        }
    }

    /// Appends a synthesized header function.
    pub fn push_header_function(&mut self, f: CFunction)
        ensures
            ctx_reg_view(*final(self)) == (ContextV {
                header_functions: ctx_reg_view(*old(self)).header_functions.push(fn_view(f)),
                ..ctx_reg_view(*old(self))
            }),
    {
        let ghost pre = self.header_functions@;
        self.header_functions.push(f);
        proof {
            assert(self.header_functions@.drop_last() =~= pre);
        }
    }

    /// Appends a static allocation.
    pub fn add_static(&mut self, a: StaticAllocation)
        ensures
            ctx_reg_view(*final(self)) == (ContextV {
                statics: ctx_reg_view(*old(self)).statics.push(alloc_view(a)),
                ..ctx_reg_view(*old(self))
            }),
    {
        let ghost pre = self.statics@;
        self.statics.push(a);
        proof {
            assert(self.statics@.drop_last() =~= pre);
        }
    }

    /// Records one unsupported-construct diagnostic.
    pub fn push_diagnostic(&mut self, d: String)
        ensures
            ctx_reg_view(*final(self)) == (ContextV {
                diagnostics: ctx_reg_view(*old(self)).diagnostics.push(d@),
                ..ctx_reg_view(*old(self))
            }),
    {
        let ghost pre = self.diagnostics@;
        self.diagnostics.push(d);
        proof {
            assert(self.diagnostics@.drop_last() =~= pre);
        }
    }

    /// Whether a synthesized header function with the name exists.
    pub fn exists_header_fn_with_name(&self, name: &str) -> (r: bool)
        ensures
            r == fn_named_in(ctx_reg_view(*self).header_functions, name@),
    {
        let ghost hv = fn_views(self.header_functions@);
        proof {
            lemma_fn_views_index(self.header_functions@);
        }
        let mut i: usize = 0;
        while i < self.header_functions.len()
            invariant
                i <= self.header_functions@.len(),
                hv == fn_views(self.header_functions@),
                hv.len() == self.header_functions@.len(),
                forall|k: int|
                    0 <= k < self.header_functions@.len() ==> hv[k] == fn_view(
                        #[trigger] self.header_functions@[k],
                    ),
                forall|k: int| 0 <= k < i ==> (#[trigger] hv[k]).name != name@,
            decreases self.header_functions@.len() - i,
        {
            if crate::utils::str_eq(self.header_functions[i].get_name(), name) {
                proof {
                    assert(hv[i as int].name == name@);
                }
                return true;
            }
            i = i + 1;
        }
        false
    }

    /// Whether a define with the name exists.
    pub fn has_define_with_name(&self, name: &String) -> (r: bool)
        ensures
            r == define_named_in(ctx_reg_view(*self).defines, name@),
    {
        let ghost dv = crate::header::define_views(self.defines@);
        proof {
            crate::header::lemma_define_views_index(self.defines@);
        }
        let mut i: usize = 0;
        while i < self.defines.len()
            invariant
                i <= self.defines@.len(),
                dv == crate::header::define_views(self.defines@),
                dv.len() == self.defines@.len(),
                forall|k: int|
                    0 <= k < self.defines@.len() ==> dv[k] == define_view(
                        #[trigger] self.defines@[k],
                    ),
                forall|k: int| 0 <= k < i ==> (#[trigger] dv[k]).name != name@,
            decreases self.defines@.len() - i,
        {
            if crate::utils::str_eq(crate::crepr::self_str(&self.defines[i].name), crate::crepr::self_str(name)) {
                proof {
                    assert(dv[i as int].name == name@);
                }
                return true;
            }
            i = i + 1;
        }
        false
    }

    /// Registers a composite, returning its stable reference: its name
    /// and its index in the append-only list.
    pub fn add_composite(&mut self, composite: CComposite) -> (r: CCompositeInfo)
        ensures
            ctx_reg_view(*final(self)) == (ContextV {
                structs: ctx_reg_view(*old(self)).structs.push(composite_view(composite)),
                ..ctx_reg_view(*old(self))
            }),
            r@.name == composite_name(composite_view(composite)),
            r@.ctx_idx == ctx_reg_view(*old(self)).structs.len(),
    {
        proof {
            lemma_composite_views_index(self.structs@);
        }
        let name = composite.get_name();
        let ghost pre = self.structs@;
        self.structs.push(composite);
        let idx = self.structs.len() - 1;
        proof {
            assert(self.structs@.drop_last() =~= pre);
        }
        CCompositeInfo { name, ctx_idx: idx }
    }

    /// The composite a reference resolves to, as a copy. A reference,
    /// once issued, always resolves: an index out of range is a defect.
    pub fn get_composite(&self, info: &CCompositeInfo) -> (r: CComposite)
        requires
            info.ctx_idx < ctx_reg_view(*self).structs.len(),
        ensures
            composite_view(r) == ctx_reg_view(*self).structs[info.ctx_idx as int],
    {
        proof {
            lemma_composite_views_index(self.structs@);
        }
        self.structs[info.ctx_idx].clone_composite()
    }

    /// The struct or union definition a reference resolves to, where it
    /// names one.
    pub fn get_struct_def(&self, info: &CCompositeInfo) -> (r: Option<CStructDef>)
        requires
            info.ctx_idx < ctx_reg_view(*self).structs.len(),
        ensures
            match r {
                Option::Some(s) => {
                    ||| ctx_reg_view(*self).structs[info.ctx_idx as int] == CompositeV::Struct(
                        structdef_view(s),
                    )
                    ||| ctx_reg_view(*self).structs[info.ctx_idx as int] == CompositeV::Union(
                        structdef_view(s),
                    )
                },
                Option::None => ctx_reg_view(*self).structs[info.ctx_idx as int] is TaggedUnion,
            },
    {
        let c = self.get_composite(info);
        match &c {
            CComposite::Struct(_) | CComposite::Union(_) => Some(c.as_struct_def()),
            CComposite::TaggedUnion(_) => None,
        }
    }

    /// The declared name of a struct or union field, by position; a
    /// reference out of range or a tagged union yields nothing.
    pub fn get_field_name_for_struct(&self, info: &CCompositeInfo, idx: usize) -> (r: Option<
        String,
    >)
        requires
            info.ctx_idx < ctx_reg_view(*self).structs.len() ==> match ctx_reg_view(
                *self,
            ).structs[info.ctx_idx as int] {
                CompositeV::Struct(s) => idx < s.fields.len(),
                CompositeV::Union(s) => idx < s.fields.len(),
                CompositeV::TaggedUnion(_) => true,
            },
        ensures
            match r {
                Option::Some(n) => info.ctx_idx < ctx_reg_view(*self).structs.len()
                    && match ctx_reg_view(*self).structs[info.ctx_idx as int] {
                    CompositeV::Struct(s) => n@ == s.fields[idx as int].name,
                    CompositeV::Union(s) => n@ == s.fields[idx as int].name,
                    CompositeV::TaggedUnion(_) => false,
                },
                Option::None => info.ctx_idx >= ctx_reg_view(*self).structs.len() || ctx_reg_view(
                    *self,
                ).structs[info.ctx_idx as int] is TaggedUnion,
            },
    {
        proof {
            lemma_composite_views_index(self.structs@);
        }
        if self.structs.len() <= info.ctx_idx {
            return None;
        }
        match &self.structs[info.ctx_idx] {
            CComposite::Struct(s) | CComposite::Union(s) => {
                proof {
                    crate::definition::lemma_vardef_views_index(s.fields@);
                }
                Some(s.fields[idx].get_name())
            },
            CComposite::TaggedUnion(_) => None,
        }
    }
}

/// The in-memory result of one compilation unit, handed to the writer.
pub struct OngoingCodegen {
    pub context: Context,
}

} // verus!
