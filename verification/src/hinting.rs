//! How glyph outlines are fitted to the pixel grid.

use vstd::prelude::*;

verus! {

/// The grid fitting to apply to a glyph. Sizes are point sizes in 26.6 fixed
/// point, that is in 64ths of a point.
#[derive(Clone, Copy, Debug, PartialEq, Eq, Structural)]
pub enum HintingOptions {
    /// No grid fitting: outlines are exactly as the font has them.
    Unhinted,
    /// Fitting along the vertical axis only, at the given size.
    Vertical(u32),
    /// Fitting along the vertical axis only, for subpixel rendering, at the
    /// given size.
    VerticalSubpixel(u32),
    /// Fitting along both axes, at the given size.
    Full(u32),
}

impl HintingOptions {
    /// The size at which the grid fitting is done, if any is done.
    pub open spec fn spec_grid_fitting_size(&self) -> Option<u32> {
        match self {
            HintingOptions::Unhinted => None,
            HintingOptions::Vertical(size) => Some(*size),
            HintingOptions::VerticalSubpixel(size) => Some(*size),
            HintingOptions::Full(size) => Some(*size),
        }
    }

    /// The size at which the grid fitting is done, if any is done.
    #[verifier::when_used_as_spec(spec_grid_fitting_size)]
    pub fn grid_fitting_size(&self) -> (size: Option<u32>)
        ensures
            size == self.spec_grid_fitting_size(),
    {
        match self {
            HintingOptions::Unhinted => None,
            HintingOptions::Vertical(size) => Some(*size),
            HintingOptions::VerticalSubpixel(size) => Some(*size),
            HintingOptions::Full(size) => Some(*size),
        }
    }
}

} // verus!
