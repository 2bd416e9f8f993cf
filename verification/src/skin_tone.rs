//! Skin-tone modifiers for person emoji.

use vstd::prelude::*;

verus! {

/// The light skin tone modifier, U+1F3FB.
pub const LIGHT_MODIFIER: char = '\u{1f3fb}';

/// The medium-light skin tone modifier, U+1F3FC.
pub const MEDIUM_LIGHT_MODIFIER: char = '\u{1f3fc}';

/// The medium skin tone modifier, U+1F3FD.
pub const MEDIUM_MODIFIER: char = '\u{1f3fd}';

/// The medium-dark skin tone modifier, U+1F3FE.
pub const MEDIUM_DARK_MODIFIER: char = '\u{1f3fe}';

/// The dark skin tone modifier, U+1F3FF.
pub const DARK_MODIFIER: char = '\u{1f3ff}';

/// Skin tones that can be used with certain emojis, ordered from
/// neutral to dark.
#[derive(Debug, Clone, Copy, PartialEq, Eq, Hash, PartialOrd, Ord, Structural)]
pub enum SkinTone {
    /// Makes a skin toned emoji appear with a neutral skin tone;
    /// contributes no glyph.
    Neutral,

    /// Makes a skin toned emoji appear with a light skin tone.
    Light,

    /// Makes a skin toned emoji appear with a medium light skin tone.
    MediumLight,

    /// Makes a skin toned emoji appear with a medium skin tone.
    Medium,

    /// Makes a skin toned emoji appear with a medium dark skin tone.
    MediumDark,

    /// Makes a skin toned emoji appear with a dark skin tone.
    Dark,
}

impl SkinTone {
    /// The modifier glyph of this skin tone: a single modifier codepoint,
    /// or nothing at all for [`SkinTone::Neutral`].
    pub open spec fn glyph(self) -> Seq<char> {
        match self {
            SkinTone::Neutral => Seq::<char>::empty(),
            SkinTone::Light => seq![LIGHT_MODIFIER],
            SkinTone::MediumLight => seq![MEDIUM_LIGHT_MODIFIER],
            SkinTone::Medium => seq![MEDIUM_MODIFIER],
            SkinTone::MediumDark => seq![MEDIUM_DARK_MODIFIER],
            SkinTone::Dark => seq![DARK_MODIFIER],
        }
    }

    /// Returns the modifier glyph of this skin tone, e.g. "🏿" for
    /// [`SkinTone::Dark`] and the empty string for [`SkinTone::Neutral`].
    pub fn render(&self) -> (r: String)
        ensures
            r@ == self.glyph(),
    {
        match self {
            SkinTone::Neutral => String::new(),
            SkinTone::Light => {
                let r = String::from_str("\u{1f3fb}");
                proof {
                    reveal_strlit("\u{1f3fb}");
                    assert(r@ =~= seq![LIGHT_MODIFIER]);
                }
                r
            },
            SkinTone::MediumLight => {
                let r = String::from_str("\u{1f3fc}");
                proof {
                    reveal_strlit("\u{1f3fc}");
                    assert(r@ =~= seq![MEDIUM_LIGHT_MODIFIER]);
                }
                r
            },
            SkinTone::Medium => {
                let r = String::from_str("\u{1f3fd}");
                proof {
                    reveal_strlit("\u{1f3fd}");
                    assert(r@ =~= seq![MEDIUM_MODIFIER]);
                }
                r
            },
            SkinTone::MediumDark => {
                let r = String::from_str("\u{1f3fe}");
                proof {
                    reveal_strlit("\u{1f3fe}");
                    assert(r@ =~= seq![MEDIUM_DARK_MODIFIER]);
                }
                r
            },
            SkinTone::Dark => {
                let r = String::from_str("\u{1f3ff}");
                proof {
                    reveal_strlit("\u{1f3ff}");
                    assert(r@ =~= seq![DARK_MODIFIER]);
                }
                r
            },
        }
    }
}

impl Default for SkinTone {
    /// The default skin tone is [`SkinTone::Neutral`].
    fn default() -> (r: Self)
        ensures
            r == SkinTone::Neutral,
    {
        SkinTone::Neutral
    }
}

} // verus!
