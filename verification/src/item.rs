//! Item emoji: a flat table from item to glyph.

use vstd::prelude::*;

verus! {

/// Emojis that can be used to represent an item.
#[derive(Debug, Clone, Copy, PartialEq, Eq, Hash, Structural)]
pub enum Item {
    /// An amulet, e.g. "🧿".
    Amulet,

    /// An axe, e.g. "🪓".
    Axe,

    /// A bag, e.g. "🎒".
    Bag,

    /// A bandage, e.g. "🩹".
    Bandage,

    /// A bed, e.g. "🛏".
    Bed,

    /// A beer, e.g. "🍺".
    Beer,

    /// A drop of blood, e.g. "🩸".
    BloodDrop,

    /// A bomb, e.g. "💣".
    Bomb,

    /// A closed book, e.g. "📕".
    BookClosed,

    /// An open book, e.g. "📖".
    BookOpen,

    /// A boomerang, e.g. "🪃".
    Boomerang,

    /// A bow and arrow, e.g. "🏹".
    BowAndArrow,

    /// A brick, e.g. "🧱".
    Brick,

    /// A candle, e.g. "🕯".
    Candle,

    /// A coat, e.g. "🧥".
    Coat,

    /// A coffin, e.g. "⚰️".
    Coffin,

    /// A coin, e.g. "🪙".
    Coin,

    /// A crown, e.g. "👑".
    Crown,

    /// A crystal ball, e.g. "🔮".
    CrystalBall,

    /// A dagger, e.g. "🗡".
    Dagger,

    /// A dart, e.g. "🎯".
    Dart,

    /// A door, e.g. "🚪".
    Door,

    /// A black flag, e.g. "🏴".
    FlagBlack,

    /// A triangular flag, e.g. "🚩".
    FlagTriangle,

    /// A firecracker, e.g. "🧨".
    Firecracker,

    /// A gemstone, e.g. "💎".
    GemStone,

    /// A grave, e.g. "🪦".
    Grave,

    /// A hammer, e.g. "🔨".
    Hammer,

    /// A hammer and pick, e.g. "⚒️".
    HammerAndPick,

    /// A red heart, e.g. "❤️".
    HeartRed,

    /// A hourglass that is done, e.g. "⌛".
    HourglassDone,

    /// A hourglass that is not done, e.g. "⏳".
    HourglassNotDone,

    /// A jar, e.g. "🏺".
    Jar,

    /// A key, e.g. "🗝️".
    Key,

    /// A leaf, e.g. "🍃".
    Leaf,

    /// A fallen leaf, e.g. "🍂".
    LeafFallen,

    /// A maple leaf, e.g. "🍁".
    LeafMaple,

    /// A map, e.g. "🗺".
    WorldMap,

    /// A meat on a bone, e.g. "🍖".
    MeatOnBone,

    /// A cut of meat, e.g. "🥩".
    MeatCut,

    /// A pickaxe, e.g. "⛏".
    Pick,

    /// A poultry leg, e.g. "🍗".
    PoultryLeg,

    /// Prayer beads, e.g. "📿".
    PrayerBeads,

    /// A red envelope, e.g. "🧧".
    RedEnvelope,

    /// A red lantern, e.g. "🏮".
    RedLantern,

    /// A rock, e.g. "🪨".
    Rock,

    /// A scroll, e.g. "📜".
    Scroll,

    /// A shield, e.g. "🛡".
    Shield,

    /// Swords crossed, e.g. "⚔️".
    SwordsCrossed,

    /// A trident, e.g. "🔱".
    Trident,

    /// An urn, e.g. "⚱️".
    Urn,

    /// A wand, e.g. "🪄".
    Wand,

    /// A water drop, e.g. "💧".
    WaterDrop,
}

impl Item {
    /// The glyph of this item.
    pub open spec fn glyph(self) -> Seq<char> {
        match self {
            Item::Amulet => "🧿"@,
            Item::Axe => "🪓"@,
            Item::Bag => "🎒"@,
            Item::Bandage => "🩹"@,
            Item::Bed => "🛏"@,
            Item::Beer => "🍺"@,
            Item::BloodDrop => "🩸"@,
            Item::Bomb => "💣"@,
            Item::BookClosed => "📕"@,
            Item::BookOpen => "📖"@,
            Item::Boomerang => "🪃"@,
            Item::BowAndArrow => "🏹"@,
            Item::Brick => "🧱"@,
            Item::Candle => "🕯"@,
            Item::Coat => "🧥"@,
            Item::Coffin => "⚰️"@,
            Item::Coin => "🪙"@,
            Item::Crown => "👑"@,
            Item::CrystalBall => "🔮"@,
            Item::Dagger => "🗡"@,
            Item::Dart => "🎯"@,
            Item::Door => "🚪"@,
            Item::FlagBlack => "🏴"@,
            Item::FlagTriangle => "🚩"@,
            Item::Firecracker => "🧨"@,
            Item::GemStone => "💎"@,
            Item::Grave => "🪦"@,
            Item::Hammer => "🔨"@,
            Item::HammerAndPick => "⚒️"@,
            Item::HeartRed => "❤️"@,
            Item::HourglassDone => "⌛"@,
            Item::HourglassNotDone => "⏳"@,
            Item::Jar => "🏺"@,
            Item::Key => "🗝️"@,
            Item::Leaf => "🍃"@,
            Item::LeafFallen => "🍂"@,
            Item::LeafMaple => "🍁"@,
            Item::WorldMap => "🗺"@,
            Item::MeatOnBone => "🍖"@,
            Item::MeatCut => "🥩"@,
            Item::Pick => "⛏"@,
            Item::PoultryLeg => "🍗"@,
            Item::PrayerBeads => "📿"@,
            Item::RedEnvelope => "🧧"@,
            Item::RedLantern => "🏮"@,
            Item::Rock => "🪨"@,
            Item::Scroll => "📜"@,
            Item::Shield => "🛡"@,
            Item::SwordsCrossed => "⚔️"@,
            Item::Trident => "🔱"@,
            Item::Urn => "⚱️"@,
            Item::Wand => "🪄"@,
            Item::WaterDrop => "💧"@,
        }
    }

    /// Returns the glyph of this item, e.g. "🧿" for
    /// [`Item::Amulet`].
    pub fn render(&self) -> (r: String)
        ensures
            r@ == self.glyph(),
    {
        match self {
            Item::Amulet => String::from_str("🧿"),
            Item::Axe => String::from_str("🪓"),
            Item::Bag => String::from_str("🎒"),
            Item::Bandage => String::from_str("🩹"),
            Item::Bed => String::from_str("🛏"),
            Item::Beer => String::from_str("🍺"),
            Item::BloodDrop => String::from_str("🩸"),
            Item::Bomb => String::from_str("💣"),
            Item::BookClosed => String::from_str("📕"),
            Item::BookOpen => String::from_str("📖"),
            Item::Boomerang => String::from_str("🪃"),
            Item::BowAndArrow => String::from_str("🏹"),
            Item::Brick => String::from_str("🧱"),
            Item::Candle => String::from_str("🕯"),
            Item::Coat => String::from_str("🧥"),
            Item::Coffin => String::from_str("⚰️"),
            Item::Coin => String::from_str("🪙"),
            Item::Crown => String::from_str("👑"),
            Item::CrystalBall => String::from_str("🔮"),
            Item::Dagger => String::from_str("🗡"),
            Item::Dart => String::from_str("🎯"),
            Item::Door => String::from_str("🚪"),
            Item::FlagBlack => String::from_str("🏴"),
            Item::FlagTriangle => String::from_str("🚩"),
            Item::Firecracker => String::from_str("🧨"),
            Item::GemStone => String::from_str("💎"),
            Item::Grave => String::from_str("🪦"),
            Item::Hammer => String::from_str("🔨"),
            Item::HammerAndPick => String::from_str("⚒️"),
            Item::HeartRed => String::from_str("❤️"),
            Item::HourglassDone => String::from_str("⌛"),
            Item::HourglassNotDone => String::from_str("⏳"),
            Item::Jar => String::from_str("🏺"),
            Item::Key => String::from_str("🗝️"),
            Item::Leaf => String::from_str("🍃"),
            Item::LeafFallen => String::from_str("🍂"),
            Item::LeafMaple => String::from_str("🍁"),
            Item::WorldMap => String::from_str("🗺"),
            Item::MeatOnBone => String::from_str("🍖"),
            Item::MeatCut => String::from_str("🥩"),
            Item::Pick => String::from_str("⛏"),
            Item::PoultryLeg => String::from_str("🍗"),
            Item::PrayerBeads => String::from_str("📿"),
            Item::RedEnvelope => String::from_str("🧧"),
            Item::RedLantern => String::from_str("🏮"),
            Item::Rock => String::from_str("🪨"),
            Item::Scroll => String::from_str("📜"),
            Item::Shield => String::from_str("🛡"),
            Item::SwordsCrossed => String::from_str("⚔️"),
            Item::Trident => String::from_str("🔱"),
            Item::Urn => String::from_str("⚱️"),
            Item::Wand => String::from_str("🪄"),
            Item::WaterDrop => String::from_str("💧"),
        }
    }
}

} // verus!
