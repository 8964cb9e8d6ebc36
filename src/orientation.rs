use vstd::prelude::*;

verus! {

/// The rotation and mirroring of the panel's logical coordinate system.
#[derive(Clone, Copy, Debug, PartialEq, Eq, Structural)]
pub enum Orientation {
    Landscape,
    LandscapeFlipped,
    Portrait,
    PortraitFlipped,
}

/// The value of the controller's memory access control register for `o`.
pub open spec fn madctr_of(o: Orientation) -> u8 {
    match o {
        Orientation::Portrait => 0x00,
        Orientation::PortraitFlipped => 0xC0,
        Orientation::Landscape => 0x60,
        Orientation::LandscapeFlipped => 0xA0,
    }
}

/// Whether `o` lays the long side of the panel horizontally.
pub open spec fn is_landscape(o: Orientation) -> bool {
    o == Orientation::Landscape || o == Orientation::LandscapeFlipped
}

/// The logical (width, height) of the panel in orientation `o`.
pub open spec fn size_of(o: Orientation) -> (u32, u32) {
    if is_landscape(o) { (536, 240) } else { (240, 536) }
}

/// The (width, height) that a memory access control value implies: bit 5 of the
/// register exchanges rows and columns, which lays the panel in landscape.
pub open spec fn size_from_madctr(r: u8) -> (u32, u32) {
    if (r / 32) % 2 == 1 { (536, 240) } else { (240, 536) }
}

impl Orientation {
    /// The byte written to the memory access control register for this orientation.
    pub fn to_madctr(&self) -> (r: u8)
        ensures
            r == madctr_of(*self),
    {
        match self {
            Orientation::Portrait => 0x00,
            Orientation::PortraitFlipped => 0b11000000,
            Orientation::Landscape => 0b01100000,
            Orientation::LandscapeFlipped => 0b10100000,
        }
    }

    /// The logical (width, height) of the panel in this orientation.
    pub fn logical_size(&self) -> (r: (u32, u32))
        ensures
            r == size_of(*self),
    {
        match self {
            Orientation::Landscape | Orientation::LandscapeFlipped => (536, 240),
            _ => (240, 536),
        }
    }
}

} // verus!
