//! Location emoji: a flat table from location to glyph.

use vstd::prelude::*;

verus! {

/// Emojis that can be used to represent a location.
#[derive(Debug, Clone, Copy, PartialEq, Eq, Hash, Structural)]
pub enum Location {
    /// A sailboat, e.g. "⛵".
    BoatSail,

    /// A classic building, e.g. "🏛".
    BuildingClassic,

    /// A campsite, e.g. "🏕".
    Campsite,

    /// A canoe, e.g. "🛶".
    Canoe,

    /// A castle, e.g. "🏰".
    Castle,

    /// A Japanese-style castle, e.g. "🏯".
    CastleJapanese,

    /// A cave, e.g. "🕳".
    Cave,

    /// A desert, e.g. "🏜".
    Desert,

    /// A hut, e.g. "🛖".
    Hut,

    /// A mountain, e.g. "⛰".
    Mountain,

    /// A mountain in the snow, e.g. "🏔".
    MountainSnow,

    /// An oasis, e.g. "🏜".
    Oasis,

    /// A palace, e.g. "🏯".
    Palace,

    /// A tent, e.g. "⛺".
    Tent,

    /// A deciduous tree, e.g. "🌳".
    TreeDeciduous,

    /// An evergreen tree, e.g. "🌲".
    TreeEvergreen,

    /// A palm tree, e.g. "🌴".
    TreePalm,

    /// A volcano, e.g. "🌋".
    Volcano,
}

impl Location {
    /// The glyph of this location.
    pub open spec fn glyph(self) -> Seq<char> {
        match self {
            Location::BoatSail => "⛵"@,
            Location::BuildingClassic => "🏛"@,
            Location::Campsite => "🏕"@,
            Location::Canoe => "🛶"@,
            Location::Castle => "🏰"@,
            Location::CastleJapanese => "🏯"@,
            Location::Cave => "🕳"@,
            Location::Desert => "🏜"@,
            Location::Hut => "🛖"@,
            Location::Mountain => "⛰"@,
            Location::MountainSnow => "🏔"@,
            Location::Oasis => "🏜"@,
            Location::Palace => "🏯"@,
            Location::Tent => "⛺"@,
            Location::TreeDeciduous => "🌳"@,
            Location::TreeEvergreen => "🌲"@,
            Location::TreePalm => "🌴"@,
            Location::Volcano => "🌋"@,
        }
    }

    /// Returns the glyph of this location, e.g. "🏰" for
    /// [`Location::Castle`].
    pub fn render(&self) -> (r: String)
        ensures
            r@ == self.glyph(),
    {
        match self {
            Location::BoatSail => String::from_str("⛵"),
            Location::BuildingClassic => String::from_str("🏛"),
            Location::Campsite => String::from_str("🏕"),
            Location::Canoe => String::from_str("🛶"),
            Location::Castle => String::from_str("🏰"),
            Location::CastleJapanese => String::from_str("🏯"),
            Location::Cave => String::from_str("🕳"),
            Location::Desert => String::from_str("🏜"),
            Location::Hut => String::from_str("🛖"),
            Location::Mountain => String::from_str("⛰"),
            Location::MountainSnow => String::from_str("🏔"),
            Location::Oasis => String::from_str("🏜"),
            Location::Palace => String::from_str("🏯"),
            Location::Tent => String::from_str("⛺"),
            Location::TreeDeciduous => String::from_str("🌳"),
            Location::TreeEvergreen => String::from_str("🌲"),
            Location::TreePalm => String::from_str("🌴"),
            Location::Volcano => String::from_str("🌋"),
        }
    }
}

} // verus!
