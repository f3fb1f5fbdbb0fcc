//! The one shared fat-pointer struct: a data pointer and a metadata
//! pointer, used for slices and dynamic-dispatch handles.

use vstd::prelude::*;

use crate::definition::CVarDef;
use crate::definition::VarDefV;
use crate::structure::CComposite;
use crate::structure::CompositeV;
use crate::structure::StructDefV;
use crate::structure::composite_view;
use crate::ty::CType;
use crate::ty::CTypeV;

verus! {

/// The name of the fat pointer's data field.
pub fn fat_ptr_data_field() -> (r: &'static str)
    ensures
        r@ == fat_ptr_data_field_text(),
{
    "data"
}

pub open spec fn fat_ptr_data_field_text() -> Seq<char> {
    "data"@
}

/// The name of the fat pointer's metadata field.
pub fn fat_ptr_meta_field() -> (r: &'static str)
    ensures
        r@ == fat_ptr_meta_field_text(),
{
    "meta"
}

pub open spec fn fat_ptr_meta_field_text() -> Seq<char> {
    "meta"@
}

/// The view of the shared fat-pointer struct definition.
pub open spec fn fat_ptr_def_view() -> CompositeV {
    CompositeV::Struct(
        StructDefV {
            name: crate::ty::fat_ptr_name_text(),
            fields: seq![
                VarDefV {
                    local_id: 0,
                    name: fat_ptr_data_field_text(),
                    ty: CTypeV::Pointer(Box::new(CTypeV::Void)),
                },
                VarDefV {
                    local_id: 1,
                    name: fat_ptr_meta_field_text(),
                    ty: CTypeV::Pointer(Box::new(CTypeV::Void)),
                },
            ],
        },
    )
}

/// The struct definition registered once for every fat pointer: a void
/// data pointer and a void metadata pointer.
pub fn new_fat_ptr() -> (r: CComposite)
    ensures
        composite_view(r) == fat_ptr_def_view(),
{
    let mut fields: Vec<CVarDef> = Vec::new();
    fields.push(
        CVarDef::new(
            0,
            String::from_str(fat_ptr_data_field()),
            CType::Pointer(Box::new(CType::Void)),
        ),
    );
    fields.push(
        CVarDef::new(
            1,
            String::from_str(fat_ptr_meta_field()),
            CType::Pointer(Box::new(CType::Void)),
        ),
    );
    let r = CComposite::Struct(
        crate::structure::CStructDef { name: String::from_str(crate::ty::fat_ptr_name()), fields },
    );
    proof {
        reveal_with_fuel(crate::definition::vardef_views, 3);
        reveal_with_fuel(crate::ty::ctype_view, 3);
        let s = r->Struct_0.fields@;
        assert(s.drop_last() =~= seq![s[0]]);
        assert(s.drop_last().drop_last() =~= Seq::<CVarDef>::empty());
        assert(crate::definition::vardef_views(s) =~= fat_ptr_def_view()->Struct_0.fields);
    }
    r
}

} // verus!
