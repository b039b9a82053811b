//! Display rotation settings.

use vstd::prelude::*;

verus! {

/// Rotation of the panel contents, in steps of 90 degrees.
#[derive(Clone, Copy, PartialEq, Eq, Structural, Debug)]
pub enum DisplayRotation {
    /// No rotation.
    Rotate0,
    /// Rotated by 90 degrees clockwise.
    Rotate90,
    /// Rotated by 180 degrees.
    Rotate180,
    /// Rotated by 270 degrees clockwise.
    Rotate270,
}

impl DisplayRotation {
    /// Whether the rotation maps segments (columns) right to left.
    pub open spec fn segment_remap(self) -> bool {
        match self {
            DisplayRotation::Rotate0 => true,
            DisplayRotation::Rotate90 => false,
            DisplayRotation::Rotate180 => false,
            DisplayRotation::Rotate270 => true,
        }
    }

    /// Whether the rotation scans the common (row) lines in reverse.
    pub open spec fn reverse_com_dir(self) -> bool {
        match self {
            DisplayRotation::Rotate0 => true,
            DisplayRotation::Rotate90 => true,
            DisplayRotation::Rotate180 => false,
            DisplayRotation::Rotate270 => false,
        }
    }
}

} // verus!
