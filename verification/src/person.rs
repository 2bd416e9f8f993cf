//! Person emoji: the base glyphs that gender and skin-tone modifiers
//! can specialize.

use vstd::prelude::*;

verus! {

/// Emojis that can be used with different genders and skin tones.
#[derive(Debug, Clone, Copy, PartialEq, Eq, Hash, Structural)]
pub enum Person {
    /// An artist, e.g. "🧑‍🎨".
    Artist,

    /// A baby, e.g. "👶".
    Baby,

    /// A bald person, e.g. "🧑‍🦲".
    BaldPerson,

    /// A person with a beard, e.g. "🧔".
    BeardedPerson,

    /// A child, e.g. "🧒".
    Child,

    /// A fairy, e.g. "🧚".
    Fairy,

    /// An elf, e.g. "🧝".
    Elf,

    /// A genie, e.g. "🧞".
    Genie,

    /// A person with a head scarf, e.g. "🧕".
    HeardScarfPerson,

    /// A mage, e.g. "🧙".
    Mage,

    /// A mer-person, e.g. "🧜".
    MerPerson,

    /// An old person, e.g. "🧓".
    OldPerson,

    /// A person, e.g. "🧑".
    Person,

    /// A person of royalty, e.g. "🤴".
    Royalty,

    /// A person with a skull cap, e.g. "👲".
    SkullCapPerson,

    /// A person with a turban, e.g. "👳".
    TurbanPerson,

    /// A vampire, e.g. "🧛".
    Vampire,

    /// A zombie, e.g. "🧟".
    Zombie,
}

impl Person {
    /// The base glyph of this person, before any modifier is applied.
    pub open spec fn glyph(self) -> Seq<char> {
        match self {
            Person::Artist => "🧑‍🎨"@,
            Person::Baby => "👶"@,
            Person::BaldPerson => "🧑‍🦲"@,
            Person::BeardedPerson => "🧔"@,
            Person::Child => "🧒"@,
            Person::Elf => "🧝"@,
            Person::Fairy => "🧚"@,
            Person::Genie => "🧞"@,
            Person::HeardScarfPerson => "🧕"@,
            Person::Mage => "🧙"@,
            Person::MerPerson => "🧜"@,
            Person::OldPerson => "🧓"@,
            Person::Person => "🧑"@,
            Person::Royalty => "🤴"@,
            Person::SkullCapPerson => "👲"@,
            Person::TurbanPerson => "👳"@,
            Person::Vampire => "🧛"@,
            Person::Zombie => "🧟"@,
        }
    }

    /// Returns the bare base glyph of this person, with no modifier
    /// applied, e.g. "🧙" for [`Person::Mage`].
    pub fn render(&self) -> (r: String)
        ensures
            r@ == self.glyph(),
    {
        match self {
            Person::Artist => String::from_str("🧑‍🎨"),
            Person::Baby => String::from_str("👶"),
            Person::BaldPerson => String::from_str("🧑‍🦲"),
            Person::BeardedPerson => String::from_str("🧔"),
            Person::Child => String::from_str("🧒"),
            Person::Elf => String::from_str("🧝"),
            Person::Fairy => String::from_str("🧚"),
            Person::Genie => String::from_str("🧞"),
            Person::HeardScarfPerson => String::from_str("🧕"),
            Person::Mage => String::from_str("🧙"),
            Person::MerPerson => String::from_str("🧜"),
            Person::OldPerson => String::from_str("🧓"),
            Person::Person => String::from_str("🧑"),
            Person::Royalty => String::from_str("🤴"),
            Person::SkullCapPerson => String::from_str("👲"),
            Person::TurbanPerson => String::from_str("👳"),
            Person::Vampire => String::from_str("🧛"),
            Person::Zombie => String::from_str("🧟"),
        }
    }
}

impl Default for Person {
    /// The default person base is the plain [`Person::Person`].
    fn default() -> (r: Self)
        ensures
            r == Person::Person,
    {
        Person::Person
    }
}

} // verus!
