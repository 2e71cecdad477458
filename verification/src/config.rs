use vstd::prelude::*;

verus! {

/// Policy parameters governing one ingest call: the width budgets of the two
/// derived slots and the lossy quality factor applied when encoding each.
pub struct ImageConfig {
    /// Maximum width for the display version (height auto-scaled)
    pub display_max_width: u32,
    /// Maximum width for the thumbnail (height auto-scaled)
    pub thumbnail_max_width: u32,
    /// JPEG quality for the display version (1-100)
    pub display_quality: u8,
    /// JPEG quality for the thumbnail (1-100)
    pub thumbnail_quality: u8,
}

impl ImageConfig {
    /// A usable configuration: quality factors lie in the 1..=100 range the
    /// encoder accepts, and each width budget is at least one pixel.
    pub open spec fn well_formed(self) -> bool {
        &&& 1 <= self.display_quality <= 100
        &&& 1 <= self.thumbnail_quality <= 100
        &&& self.display_max_width >= 1
        &&& self.thumbnail_max_width >= 1
    }
}

impl Default for ImageConfig {
    fn default() -> (r: Self)
        ensures
            r.display_max_width == 1200,
            r.thumbnail_max_width == 300,
            r.display_quality == 85,
            r.thumbnail_quality == 75,
            r.well_formed(),
    {
        ImageConfig {
            display_max_width: 1200,
            thumbnail_max_width: 300,
            display_quality: 85,
            thumbnail_quality: 75,
        }
    }
}

} // verus!
