//! The top-level emoji union and the compound person renderer.
//!
//! A person glyph can be specialized by a gender and a skin-tone
//! modifier. The composition rule is fixed: the gender modifier comes
//! first, each modifier is preceded by a zero-width joiner, and a
//! variation selector closes the sequence exactly when at least one
//! modifier was appended.

use vstd::prelude::*;

use crate::creature::Creature;
use crate::gender::Gender;
use crate::item::Item;
use crate::location::Location;
use crate::person::Person;
use crate::skin_tone::SkinTone;

verus! {

/// The zero-width joiner, U+200D: fuses adjacent glyphs into one
/// compound visual sequence.
pub const ZERO_WIDTH_JOINER: char = '\u{200d}';

/// Variation selector 16, U+FE0F: asks the rendering engine for
/// emoji-style presentation of the preceding sequence.
pub const VARIATION_SELECTOR_16: char = '\u{fe0f}';

/// The glyph of a person specialized by a skin tone and a gender:
///
/// 1. the base glyph of the person;
/// 2. if the gender is not neutral, a zero-width joiner and the gender
///    glyph;
/// 3. if the skin tone is not neutral, a zero-width joiner and the
///    skin-tone glyph;
/// 4. if any modifier was appended, a closing variation selector.
pub open spec fn composed_glyph(person: Person, skin: SkinTone, gender: Gender) -> Seq<char> {
    let with_gender = if gender is Neutral {
        person.glyph()
    } else {
        person.glyph() + seq![ZERO_WIDTH_JOINER] + gender.glyph()
    };
    let with_skin = if skin is Neutral {
        with_gender
    } else {
        with_gender + seq![ZERO_WIDTH_JOINER] + skin.glyph()
    };
    if gender is Neutral && skin is Neutral {
        with_skin
    } else {
        with_skin + seq![VARIATION_SELECTOR_16]
    }
}

/// Composes the display string for a person with the given skin tone
/// and gender, following the rule of [`composed_glyph`].
pub fn render_person(person: Person, skin: SkinTone, gender: Gender) -> (r: String)
    ensures
        r@ == composed_glyph(person, skin, gender),
{
    let mut buffer = person.render();
    if gender != Gender::Neutral {
        buffer.append("\u{200d}");
        let modifier = gender.render();
        buffer.append(modifier.as_str());
    }
    if skin != SkinTone::Neutral {
        buffer.append("\u{200d}");
        let modifier = skin.render();
        buffer.append(modifier.as_str());
    }
    if gender != Gender::Neutral || skin != SkinTone::Neutral {
        buffer.append("\u{fe0f}");
    }
    proof {
        reveal_strlit("\u{200d}");
        reveal_strlit("\u{fe0f}");
        assert("\u{200d}"@ =~= seq![ZERO_WIDTH_JOINER]);
        assert("\u{fe0f}"@ =~= seq![VARIATION_SELECTOR_16]);
        assert(buffer@ =~= composed_glyph(person, skin, gender));
    }
    buffer
}

/// A collection of all emojis that might be used in a fantasy
/// text-based game.
#[derive(Debug, Clone, Copy, PartialEq, Eq, Hash, Structural)]
pub enum Emoji {
    /// All person emojis, together with a skin tone and a gender.
    Person(Person, SkinTone, Gender),

    /// All other living emojis that do not fit in [`Person`].
    Creature(Creature),

    /// All location emojis.
    Location(Location),

    /// All item emojis.
    Item(Item),
}

impl Emoji {
    /// The glyph of this emoji: the composed person glyph for the
    /// person variant, and the plain table glyph for every other one.
    pub open spec fn glyph(self) -> Seq<char> {
        match self {
            Emoji::Person(person, skin, gender) => composed_glyph(person, skin, gender),
            Emoji::Creature(creature) => creature.glyph(),
            Emoji::Location(location) => location.glyph(),
            Emoji::Item(item) => item.glyph(),
        }
    }

    /// Returns the display string of this emoji.
    pub fn render(&self) -> (r: String)
        ensures
            r@ == self.glyph(),
    {
        match self {
            Emoji::Person(person, skin, gender) => render_person(*person, *skin, *gender),
            Emoji::Creature(creature) => creature.render(),
            Emoji::Location(location) => location.render(),
            Emoji::Item(item) => item.render(),
        }
    }
}

impl Default for Emoji {
    /// The default emoji is the neutral, unmodified plain person.
    fn default() -> (r: Self)
        ensures
            r == Emoji::Person(Person::Person, SkinTone::Neutral, Gender::Neutral),
    {
        Emoji::Person(Default::default(), Default::default(), Default::default())
    }
}

/// A person with both modifiers neutral renders as its bare base glyph:
/// no joiner and no variation selector is appended.
pub proof fn lemma_neutral_renders_base(person: Person)
    ensures
        composed_glyph(person, SkinTone::Neutral, Gender::Neutral) == person.glyph(),
{
}

/// With a non-neutral gender and a neutral skin tone, the composed
/// glyph is exactly base, joiner, gender glyph, variation selector.
pub proof fn lemma_gender_only(person: Person, gender: Gender)
    requires
        gender !is Neutral,
    ensures
        composed_glyph(person, SkinTone::Neutral, gender) == person.glyph()
            + seq![ZERO_WIDTH_JOINER] + gender.glyph() + seq![VARIATION_SELECTOR_16],
{
}

/// With a non-neutral skin tone and a neutral gender, the composed
/// glyph is exactly base, joiner, skin-tone glyph, variation selector.
pub proof fn lemma_skin_only(person: Person, skin: SkinTone)
    requires
        skin !is Neutral,
    ensures
        composed_glyph(person, skin, Gender::Neutral) == person.glyph()
            + seq![ZERO_WIDTH_JOINER] + skin.glyph() + seq![VARIATION_SELECTOR_16],
{
}

/// With both modifiers non-neutral, the composed glyph is exactly base,
/// joiner, gender glyph, joiner, skin-tone glyph, variation selector:
/// the gender modifier comes strictly before the skin-tone modifier.
pub proof fn lemma_both_modifiers(person: Person, skin: SkinTone, gender: Gender)
    requires
        gender !is Neutral,
        skin !is Neutral,
    ensures
        composed_glyph(person, skin, gender) == person.glyph()
            + seq![ZERO_WIDTH_JOINER] + gender.glyph()
            + seq![ZERO_WIDTH_JOINER] + skin.glyph() + seq![VARIATION_SELECTOR_16],
{
}

/// Rendering is pure: any two strings that [`Emoji::render`] may return
/// for the same emoji have the same characters.
pub proof fn lemma_render_deterministic(emoji: Emoji, first: Seq<char>, second: Seq<char>)
    requires
        first == emoji.glyph(),
        second == emoji.glyph(),
    ensures
        first == second,
{
}

} // verus!
