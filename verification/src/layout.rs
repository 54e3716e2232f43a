//! The layout calculator of `wit_parser`, once it has been filled from a
//! graph: the size and the alignment that it holds for each type definition.

use vstd::prelude::*;
use id_arena::{ArenaBehavior, DefaultArenaBehavior};
use wit_parser::SizeAlign;

verus! {

/// `wit_parser::SizeAlign`, carried as it is: nothing inside it is read
/// here but through the two calls below.
#[verifier::external_type_specification]
#[verifier::external_body]
pub struct ExSizeAlign(wit_parser::SizeAlign);

/// What a calculator holds: for each index of the type table it was filled
/// from, the size and the alignment of that definition, in this order.
pub uninterp spec fn layout_table(sizes: SizeAlign) -> Seq<(usize, usize)>;

/// Calls `SizeAlign::size` on a reference to the definition with the given
/// index, which returns the first number of the pair held for that index. Of
/// the identifier that is made for the call the calculator reads the index
/// alone. It must hold a pair for the index: without one the call panics.
#[verifier::external_body]
pub(crate) fn size_of_type(sizes: &SizeAlign, index: usize) -> (size: usize)
    requires
        index < layout_table(*sizes).len(),
    ensures
        size == layout_table(*sizes)[index as int].0,
{
    sizes.size(&wit_parser::Type::Id(DefaultArenaBehavior::<wit_parser::TypeDef>::new_id(0, index)))
}

/// Calls `SizeAlign::align` on a reference to the definition with the given
/// index, which returns the second number of the pair held for that index.
/// Of the identifier that is made for the call the calculator reads the
/// index alone. It must hold a pair for the index: without one the call
/// panics.
#[verifier::external_body]
pub(crate) fn align_of_type(sizes: &SizeAlign, index: usize) -> (align: usize)
    requires
        index < layout_table(*sizes).len(),
    ensures
        align == layout_table(*sizes)[index as int].1,
{
    sizes.align(&wit_parser::Type::Id(DefaultArenaBehavior::<wit_parser::TypeDef>::new_id(0, index)))
}

} // verus!
