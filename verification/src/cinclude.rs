//! Header references emitted at the top of the generated files.

use vstd::prelude::*;

verus! {

/// One header reference: system headers render in angle brackets,
/// local ones in quotes.
pub struct Include {
    pub name: String,
    pub is_system: bool,
}

/// The view of a header reference.
pub struct IncludeV {
    pub name: Seq<char>,
    pub is_system: bool,
}

/// The view of a header reference.
pub open spec fn include_view(i: Include) -> IncludeV {
    IncludeV { name: i.name@, is_system: i.is_system }
}

/// The text a header reference renders to.
pub open spec fn include_text(i: IncludeV) -> Seq<char> {
    if i.is_system {
        "#include <"@ + i.name + ">"@
    } else {
        "#include \""@ + i.name + "\""@
    }
}

impl Include {
    pub fn new(name: String, is_system: bool) -> (r: Self)
        ensures
            include_view(r) == (IncludeV { name: name@, is_system }),
    {
        Self { name, is_system }
    }

    /// Renders the reference.
    pub fn repr(&self, out: &mut String)
        ensures
            final(out)@ == old(out)@ + include_text(include_view(*self)),
    {
        if self.is_system {
            out.append("#include <");
            out.append(crate::crepr::self_str(&self.name));
            out.append(">");
        } else {
            out.append("#include \"");
            out.append(crate::crepr::self_str(&self.name));
            out.append("\"");
        }
        proof {
            assert(out@ =~= old(out)@ + include_text(include_view(*self)));
        }
    }
}

} // verus!
