//! Measures that apply to a whole font.

use vstd::prelude::*;

verus! {

/// Measures that apply to a whole font. All but `units_per_em` are in font
/// design units.
#[derive(Clone, Copy, Debug, PartialEq, Eq, Structural)]
pub struct Metrics {
    /// The number of font units per em.
    pub units_per_em: u32,
    /// How far the font rises above the baseline.
    pub ascent: i32,
    /// How far the font descends below the baseline. Negative in most
    /// fonts: the baseline is at zero and the axis points up.
    pub descent: i32,
    /// The distance between the descent of one line and the ascent of the
    /// next.
    pub line_gap: i32,
    /// The place of the middle of the underline.
    pub underline_position: i32,
    /// The thickness of the underline.
    pub underline_thickness: i32,
    /// About how far uppercase letters rise above the baseline.
    pub cap_height: i32,
    /// About how far lowercase letters without ascenders rise above the
    /// baseline.
    pub x_height: i32,
}

impl Metrics {
    /// Metrics that are all zero: what a font without any measures has.
    pub open spec fn spec_zeroed() -> Metrics {
        Metrics {
            units_per_em: 0,
            ascent: 0,
            descent: 0,
            line_gap: 0,
            underline_position: 0,
            underline_thickness: 0,
            cap_height: 0,
            x_height: 0,
        }
    }

    /// Metrics that are all zero.
    #[verifier::when_used_as_spec(spec_zeroed)]
    pub fn zeroed() -> (metrics: Metrics)
        ensures
            metrics == Metrics::spec_zeroed(),
    {
        Metrics {
            units_per_em: 0,
            ascent: 0,
            descent: 0,
            line_gap: 0,
            underline_position: 0,
            underline_thickness: 0,
            cap_height: 0,
            x_height: 0,
        }
    }
}

impl Default for Metrics {
    fn default() -> (metrics: Metrics)
        ensures
            metrics == Metrics::spec_zeroed(),
    {
        Metrics::zeroed()
    }
}

} // verus!
