//! Creature emoji: a flat table from creature to glyph.

use vstd::prelude::*;

verus! {

/// Emojis that can be used to represent a creature.
///
/// All glyphs are meant to show the side view, not the face, of the
/// creature, where one is available.
#[derive(Debug, Clone, Copy, PartialEq, Eq, Hash, Structural)]
pub enum Creature {
    /// An ant, e.g. "🐜".
    Ant,

    /// A bat, e.g. "🦇".
    Bat,

    /// A beetle, e.g. "🐞".
    Beetle,

    /// A bison, e.g. "🦬".
    Bison,

    /// A boar, e.g. "🐗".
    Boar,

    /// A bug, e.g. "🐛".
    Bug,

    /// A butterfly, e.g. "🦋".
    Butterfly,

    /// A camel, e.g. "🐫".
    Camel,

    /// A cat, e.g. "🐈".
    Cat,

    /// A cockroach, e.g. "🪳".
    Cockroach,

    /// A cow, e.g. "🐄".
    Cow,

    /// A crab, e.g. "🦀".
    Crab,

    /// A crocodile, e.g. "🐊".
    Crocodile,

    /// A deer, e.g. "🦌".
    Deer,

    /// A dog, e.g. "🐕".
    Dog,

    /// A dragon, e.g. "🐉".
    Dragon,

    /// An eagle, e.g. "🦅".
    Eagle,

    /// An elephant, e.g. "🐘".
    Elephant,

    /// A fish, e.g. "🐟".
    Fish,

    /// A ghost, e.g. "👻".
    Phantom,

    /// A goat, e.g. "🐐".
    Goat,

    /// A goblin, e.g. "👺".
    Goblin,

    /// A honeybee, e.g. "🐝".
    Honeybee,

    /// A horse, e.g. "🐎".
    Horse,

    /// A leopard, e.g. "🐆".
    Leopard,

    /// A llama, e.g. "🦙".
    Llama,

    /// A mammoth, e.g. "🦣".
    Mammoth,

    /// A mouse, e.g. "🐁".
    Mouse,

    /// An ogre, e.g. "👹".
    Ogre,

    /// A pig, e.g. "🐖".
    Pig,

    /// A rabbit, e.g. "🐇".
    Rabbit,

    /// A ram, e.g. "🐏".
    Ram,

    /// A rat, e.g. "🐀".
    Rat,

    /// A rhinoceros, e.g. "🦏".
    Rhinoceros,

    /// A scorpion, e.g. "🦂".
    Scorpion,

    /// A shark, e.g. "🦈".
    Shark,

    /// A snake, e.g. "🐍".
    Snake,

    /// A spider, e.g. "🕷".
    Spider,

    /// A tiger, e.g. "🐅".
    Tiger,

    /// A tropical fish, e.g. "🐠".
    TropicalFish,

    /// A water buffalo, e.g. "🐃".
    WaterBuffalo,

    /// A wolf, e.g. "🐺".
    Wolf,
}

impl Creature {
    /// The glyph of this creature.
    pub open spec fn glyph(self) -> Seq<char> {
        match self {
            Creature::Ant => "🐜"@,
            Creature::Bat => "🦇"@,
            Creature::Beetle => "🐞"@,
            Creature::Bison => "🦬"@,
            Creature::Boar => "🐗"@,
            Creature::Bug => "🐛"@,
            Creature::Butterfly => "🦋"@,
            Creature::Camel => "🐫"@,
            Creature::Cat => "🐈"@,
            Creature::Cockroach => "🪳"@,
            Creature::Cow => "🐄"@,
            Creature::Crab => "🦀"@,
            Creature::Crocodile => "🐊"@,
            Creature::Deer => "🦌"@,
            Creature::Dog => "🐕"@,
            Creature::Dragon => "🐉"@,
            Creature::Eagle => "🦅"@,
            Creature::Elephant => "🐘"@,
            Creature::Fish => "🐟"@,
            Creature::Phantom => "👻"@,
            Creature::Goat => "🐐"@,
            Creature::Goblin => "👺"@,
            Creature::Honeybee => "🐝"@,
            Creature::Horse => "🐎"@,
            Creature::Leopard => "🐆"@,
            Creature::Llama => "🦙"@,
            Creature::Mammoth => "🦣"@,
            Creature::Mouse => "🐁"@,
            Creature::Ogre => "👹"@,
            Creature::Pig => "🐖"@,
            Creature::Rabbit => "🐇"@,
            Creature::Ram => "🐏"@,
            Creature::Rat => "🐀"@,
            Creature::Rhinoceros => "🦏"@,
            Creature::Scorpion => "🦂"@,
            Creature::Shark => "🦈"@,
            Creature::Snake => "🐍"@,
            Creature::Spider => "🕷"@,
            Creature::Tiger => "🐅"@,
            Creature::TropicalFish => "🐠"@,
            Creature::WaterBuffalo => "🐃"@,
            Creature::Wolf => "🐺"@,
        }
    }

    /// Returns the glyph of this creature, e.g. "🐉" for
    /// [`Creature::Dragon`].
    pub fn render(&self) -> (r: String)
        ensures
            r@ == self.glyph(),
    {
        match self {
            Creature::Ant => String::from_str("🐜"),
            Creature::Bat => String::from_str("🦇"),
            Creature::Beetle => String::from_str("🐞"),
            Creature::Bison => String::from_str("🦬"),
            Creature::Boar => String::from_str("🐗"),
            Creature::Bug => String::from_str("🐛"),
            Creature::Butterfly => String::from_str("🦋"),
            Creature::Camel => String::from_str("🐫"),
            Creature::Cat => String::from_str("🐈"),
            Creature::Cockroach => String::from_str("🪳"),
            Creature::Cow => String::from_str("🐄"),
            Creature::Crab => String::from_str("🦀"),
            Creature::Crocodile => String::from_str("🐊"),
            Creature::Deer => String::from_str("🦌"),
            Creature::Dog => String::from_str("🐕"),
            Creature::Dragon => String::from_str("🐉"),
            Creature::Eagle => String::from_str("🦅"),
            Creature::Elephant => String::from_str("🐘"),
            Creature::Fish => String::from_str("🐟"),
            Creature::Phantom => String::from_str("👻"),
            Creature::Goat => String::from_str("🐐"),
            Creature::Goblin => String::from_str("👺"),
            Creature::Honeybee => String::from_str("🐝"),
            Creature::Horse => String::from_str("🐎"),
            Creature::Leopard => String::from_str("🐆"),
            Creature::Llama => String::from_str("🦙"),
            Creature::Mammoth => String::from_str("🦣"),
            Creature::Mouse => String::from_str("🐁"),
            Creature::Ogre => String::from_str("👹"),
            Creature::Pig => String::from_str("🐖"),
            Creature::Rabbit => String::from_str("🐇"),
            Creature::Ram => String::from_str("🐏"),
            Creature::Rat => String::from_str("🐀"),
            Creature::Rhinoceros => String::from_str("🦏"),
            Creature::Scorpion => String::from_str("🦂"),
            Creature::Shark => String::from_str("🦈"),
            Creature::Snake => String::from_str("🐍"),
            Creature::Spider => String::from_str("🕷"),
            Creature::Tiger => String::from_str("🐅"),
            Creature::TropicalFish => String::from_str("🐠"),
            Creature::WaterBuffalo => String::from_str("🐃"),
            Creature::Wolf => String::from_str("🐺"),
        }
    }
}

impl Default for Creature {
    /// The default creature is [`Creature::Ant`].
    fn default() -> (r: Self)
        ensures
            r == Creature::Ant,
    {
        Creature::Ant
    }
}

} // verus!
