//! Gender modifiers for person emoji.

use vstd::prelude::*;

verus! {

/// The male sign, U+2642.
pub const MALE_SIGN: char = '\u{2642}';

/// The female sign, U+2640.
pub const FEMALE_SIGN: char = '\u{2640}';

/// Genders that can be used with certain emojis.
#[derive(Debug, Clone, Copy, PartialEq, Eq, Hash, Structural)]
pub enum Gender {
    /// Leaves a gendered emoji unspecialized; contributes no glyph.
    Neutral,

    /// Makes a gendered emoji appear male.
    Male,

    /// Makes a gendered emoji appear female.
    Female,
}

impl Gender {
    /// The modifier glyph of this gender: a single sign codepoint, or
    /// nothing at all for [`Gender::Neutral`].
    pub open spec fn glyph(self) -> Seq<char> {
        match self {
            Gender::Neutral => Seq::<char>::empty(),
            Gender::Male => seq![MALE_SIGN],
            Gender::Female => seq![FEMALE_SIGN],
        }
    }

    /// Returns the modifier glyph of this gender, e.g. "♂" for
    /// [`Gender::Male`] and the empty string for [`Gender::Neutral`].
    pub fn render(&self) -> (r: String)
        ensures
            r@ == self.glyph(),
    {
        match self {
            Gender::Neutral => String::new(),
            Gender::Male => {
                let r = String::from_str("\u{2642}");
                proof {
                    reveal_strlit("\u{2642}");
                    assert(r@ =~= seq![MALE_SIGN]);
                }
                r
            },
            Gender::Female => {
                let r = String::from_str("\u{2640}");
                proof {
                    reveal_strlit("\u{2640}");
                    assert(r@ =~= seq![FEMALE_SIGN]);
                }
                r
            },
        }
    }
}

impl Default for Gender {
    /// The default gender is [`Gender::Neutral`].
    fn default() -> (r: Self)
        ensures
            r == Gender::Neutral,
    {
        Gender::Neutral
    }
}

} // verus!
