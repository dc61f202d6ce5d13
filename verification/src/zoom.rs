use vstd::prelude::*;

verus! {

/// The zoom percentage `p` clamped to the permitted range.
pub open spec fn zoom_clamped(p: int) -> int {
    if p < 50 {
        50
    } else if p > 300 {
        300
    } else {
        p
    }
}

/// The window zoom level, held as an integer percentage so the host can keep
/// it in whatever atomic cell it likes. 100 is actual size; the level is
/// clamped to 50..=300, the half-to-triple range the menu commands permit.
pub struct ZoomLevel {
    pub percent: u64,
}

impl ZoomLevel {
    /// The level stays inside the clamp range.
    pub open spec fn well_formed(self) -> bool {
        50 <= self.percent <= 300
    }

    /// Starts at actual size.
    pub fn new() -> (r: ZoomLevel)
        ensures
            r.well_formed(),
            r.percent == 100,
    {
        ZoomLevel { percent: 100 }
    }

    /// Sets the level to `requested`, clamped.
    pub fn set(&mut self, requested: u64)
        ensures
            final(self).percent == zoom_clamped(requested as int),
            final(self).well_formed(),
    {
        self.percent = if requested < 50 {
            50
        } else if requested > 300 {
            300
        } else {
            requested
        };
    }

    /// One menu step in: a tenth of actual size more, clamped.
    pub fn zoom_in(&mut self)
        requires
            old(self).well_formed(),
        ensures
            final(self).percent == zoom_clamped(old(self).percent + 10),
            final(self).well_formed(),
    {
        let raised = self.percent + 10;
        self.percent = if raised > 300 {
            300
        } else {
            raised
        };
    }

    /// One menu step out: a tenth of actual size less, clamped.
    pub fn zoom_out(&mut self)
        requires
            old(self).well_formed(),
        ensures
            final(self).percent == zoom_clamped(old(self).percent - 10),
            final(self).well_formed(),
    {
        let lowered = self.percent - 10;
        self.percent = if lowered < 50 {
            50
        } else {
            lowered
        };
    }

    /// Back to actual size.
    pub fn reset(&mut self)
        ensures
            final(self).percent == 100,
            final(self).well_formed(),
    {
        self.percent = 100;
    }

    /// The current percentage, for the host to turn into a scale factor.
    pub fn percent(&self) -> (r: u64)
        ensures
            r == self.percent,
    {
        self.percent
    }
}

} // verus!
