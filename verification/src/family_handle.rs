//! The handles of the fonts of one family.

use crate::handle::Handle;
use vstd::prelude::*;

verus! {

/// The handles of the fonts of one family, in the order in which they were
/// added.
#[derive(Debug)]
pub struct FamilyHandle {
    pub fonts: Vec<Handle>,
}

impl View for FamilyHandle {
    type V = Seq<Handle>;

    open spec fn view(&self) -> Seq<Handle> {
        self.fonts@
    }
}

impl FamilyHandle {
    /// An empty family.
    pub fn new() -> (family: FamilyHandle)
        ensures
            family@ == Seq::<Handle>::empty(),
    {
        FamilyHandle { fonts: Vec::new() }
    }

    /// The family of the given handles, in their order.
    pub fn from_font_handles(fonts: Vec<Handle>) -> (family: FamilyHandle)
        ensures
            family@ == fonts@,
    {
        FamilyHandle { fonts }
    }

    /// Adds a handle at the end of the family.
    pub fn push(&mut self, font: Handle)
        ensures
            final(self)@ == old(self)@.push(font),
    {
        self.fonts.push(font)
    }

    /// Whether the family has no font in it.
    pub fn is_empty(&self) -> (empty: bool)
        ensures
            empty == (self@.len() == 0),
    {
        self.fonts.len() == 0
    }

    /// All the handles of the family, in the order in which they were added.
    pub fn fonts(&self) -> (fonts: &[Handle])
        ensures
            fonts@ == self@,
    {
        self.fonts.as_slice()
    }
}

} // verus!
