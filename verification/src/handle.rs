//! Descriptors that say where a font is, without opening it.

use crate::shared::share;
use std::sync::Arc;
use vstd::prelude::*;
use vstd::std_specs::cmp::PartialEqSpecImpl;

verus! {

/// Where a font is: in a file, or in a buffer in memory. The font index
/// selects a face of a collection; for a file with a single font it is 0.
#[derive(Debug)]
pub enum Handle {
    /// A font in a file.
    Path {
        /// The path of the file.
        path: String,
        /// The index of the font within the file.
        font_index: u32,
    },
    /// A font held in memory.
    Memory {
        /// The whole contents of the font file.
        bytes: Arc<Vec<u8>>,
        /// The index of the font within the file.
        font_index: u32,
    },
}

/// What a `Handle` stands for: the path or the bytes it holds, and the font
/// index.
pub enum HandleView {
    /// A font in the file at `path`.
    Path { path: Seq<char>, font_index: u32 },
    /// A font in the file contents `bytes`.
    Memory { bytes: Seq<u8>, font_index: u32 },
}

impl View for Handle {
    type V = HandleView;

    open spec fn view(&self) -> HandleView {
        match self {
            Handle::Path { path, font_index } => HandleView::Path {
                path: path@,
                font_index: *font_index,
            },
            Handle::Memory { bytes, font_index } => HandleView::Memory {
                bytes: bytes@,
                font_index: *font_index,
            },
        }
    }
}

/// Whether two buffers hold the same bytes.
pub fn same_bytes(a: &Vec<u8>, b: &Vec<u8>) -> (same: bool)
    ensures
        same == (a@ == b@),
{
    if a.len() != b.len() {
        return false;
    }
    let mut i: usize = 0;
    while i < a.len()
        invariant
            i <= a.len(),
            a.len() == b.len(),
            forall|j: int| 0 <= j < i ==> a@[j] == b@[j],
        decreases a.len() - i,
    {
        if a[i] != b[i] {
            return false;
        }
        i += 1;
    }
    assert(a@ =~= b@);
    true
}

impl Handle {
    /// A handle to the font at `font_index` in the file at `path`.
    pub fn from_path(path: String, font_index: u32) -> (handle: Handle)
        ensures
            handle == (Handle::Path { path, font_index }),
    {
        Handle::Path { path, font_index }
    }

    /// A handle to the font at `font_index` in the file contents `bytes`.
    pub fn from_memory(bytes: Arc<Vec<u8>>, font_index: u32) -> (handle: Handle)
        ensures
            handle == (Handle::Memory { bytes, font_index }),
    {
        Handle::Memory { bytes, font_index }
    }

    /// The index of the font within its file.
    pub open spec fn spec_font_index(&self) -> u32 {
        match self {
            Handle::Path { font_index, .. } => *font_index,
            Handle::Memory { font_index, .. } => *font_index,
        }
    }

    /// The index of the font within its file.
    #[verifier::when_used_as_spec(spec_font_index)]
    pub fn font_index(&self) -> (font_index: u32)
        ensures
            font_index == self.spec_font_index(),
    {
        match self {
            Handle::Path { font_index, .. } => *font_index,
            Handle::Memory { font_index, .. } => *font_index,
        }
    }
}

impl Clone for Handle {
    /// A handle to the same font. The bytes of a font in memory are shared,
    /// not copied.
    fn clone(&self) -> (handle: Handle)
        ensures
            handle == *self,
    {
        match self {
            Handle::Path { path, font_index } => Handle::Path {
                path: path.clone(),
                font_index: *font_index,
            },
            Handle::Memory { bytes, font_index } => Handle::Memory {
                bytes: share(bytes),
                font_index: *font_index,
            },
        }
    }
}

impl PartialEq for Handle {
    /// Two handles are equal when they are of the same kind and name the same
    /// path, or hold the same bytes, with the same font index.
    fn eq(&self, other: &Handle) -> (equal: bool) {
        match (self, other) {
            (
                Handle::Path { path: path1, font_index: index1 },
                Handle::Path { path: path2, font_index: index2 },
            ) => *path1 == *path2 && *index1 == *index2,
            (
                Handle::Memory { bytes: bytes1, font_index: index1 },
                Handle::Memory { bytes: bytes2, font_index: index2 },
            ) => *index1 == *index2 && same_bytes(bytes1, bytes2),
            _ => false,
        }
    }
}

impl PartialEqSpecImpl for Handle {
    open spec fn obeys_eq_spec() -> bool {
        true
    }

    open spec fn eq_spec(&self, other: &Handle) -> bool {
        self@ == other@
    }
}

} // verus!
