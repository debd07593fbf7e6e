use vstd::prelude::*;

verus! {

/// Anti-aliasing level requested for a canvas.
#[derive(PartialEq, Eq, Structural, Clone, Copy, Debug)]
pub enum Multisample {
    /// One sample per pixel: no anti-aliasing.
    X1,
    /// Four samples per pixel (MSAA 4x), where the adapter supports it.
    X4,
}

impl Default for Multisample {
    fn default() -> (m: Self)
        ensures
            m == Multisample::X1,
    {
        Multisample::X1
    }
}

/// The number of samples per pixel a canvas renders with: four when four
/// were requested and the surface format supports them, one otherwise.
pub open spec fn spec_sample_count(requested: Multisample, x4_supported: bool) -> u32 {
    if requested == Multisample::X4 && x4_supported {
        4
    } else {
        1
    }
}

/// Chooses the sample count from the requested level and whether the
/// target format supports four samples per pixel.
pub fn sample_count_for(requested: Multisample, x4_supported: bool) -> (count: u32)
    ensures
        count == spec_sample_count(requested, x4_supported),
{
    if requested == Multisample::X4 && x4_supported {
        4
    } else {
        1
    }
}

/// A canvas renders with one or four samples per pixel, with four exactly
/// when four were requested and the format supports them; asking for one
/// sample always gives one.
pub proof fn lemma_sample_count(requested: Multisample, x4_supported: bool)
    ensures
        spec_sample_count(requested, x4_supported) == 1 || spec_sample_count(
            requested,
            x4_supported,
        ) == 4,
        spec_sample_count(requested, x4_supported) == 4 <==> (requested == Multisample::X4
            && x4_supported),
        requested == Multisample::X1 ==> spec_sample_count(requested, x4_supported) == 1,
{
}

} // verus!
