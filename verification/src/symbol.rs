//! Symbol emoji: a flat table from symbol to glyph.

use vstd::prelude::*;

verus! {

/// Emojis that can be used to represent a symbol.
#[derive(Debug, Clone, Copy, PartialEq, Eq, Hash, Structural)]
pub enum Symbol {
    /// A symbol of anger, e.g. "💢".
    Anger,

    /// A symbol of a comet, e.g. "☄️".
    Comet,

    /// A symbol of a cyclone, e.g. "🌀".
    Cyclone,

    /// A symbol of fire, e.g. "🔥".
    Fire,

    /// A symbol of electricity, e.g. "⚡".
    Electricity,

    /// A symbol of two exclamations, e.g. "‼️".
    ExclamationDouble,

    /// A symbol of an exclamation and a question mark, e.g. "⁉️".
    ExclamationWithQuestion,

    /// A symbol of a red exclamation, e.g. "❗".
    ExclamationRed,

    /// A symbol of a white exclamation, e.g. "❕".
    ExclamationWhite,

    /// A symbol of a female, e.g. "♀️".
    GenderFemale,

    /// A symbol of a male, e.g. "♂️".
    GenderMale,

    /// A symbol of a red question, e.g. "❓".
    QuestionRed,

    /// A symbol of a white question, e.g. "❔".
    QuestionWhite,

    /// A symbol of sparkles, e.g. "✨".
    Sparkles,

    /// A speech bubble, e.g. "💬".
    SpeechBubble,

    /// A speech bubble with an angry face, e.g. "🗯️".
    SpeechBubbleAngry,

    /// A snowflake, e.g. "❄️".
    Snowflake,

    /// A "zzz" symbol, e.g. "💤".
    Zzz,
}

impl Symbol {
    /// The glyph of this symbol.
    pub open spec fn glyph(self) -> Seq<char> {
        match self {
            Symbol::Anger => "💢"@,
            Symbol::Comet => "☄️"@,
            Symbol::Cyclone => "🌀"@,
            Symbol::Fire => "🔥"@,
            Symbol::Electricity => "⚡"@,
            Symbol::ExclamationDouble => "‼️"@,
            Symbol::ExclamationWithQuestion => "⁉️"@,
            Symbol::ExclamationRed => "❗"@,
            Symbol::ExclamationWhite => "❕"@,
            Symbol::GenderFemale => "♀️"@,
            Symbol::GenderMale => "♂️"@,
            Symbol::QuestionRed => "❓"@,
            Symbol::QuestionWhite => "❔"@,
            Symbol::Sparkles => "✨"@,
            Symbol::SpeechBubble => "💬"@,
            Symbol::SpeechBubbleAngry => "🗯️"@,
            Symbol::Snowflake => "❄️"@,
            Symbol::Zzz => "💤"@,
        }
    }

    /// Returns the glyph of this symbol, e.g. "🔥" for
    /// [`Symbol::Fire`].
    pub fn render(&self) -> (r: String)
        ensures
            r@ == self.glyph(),
    {
        match self {
            Symbol::Anger => String::from_str("💢"),
            Symbol::Comet => String::from_str("☄️"),
            Symbol::Cyclone => String::from_str("🌀"),
            Symbol::Fire => String::from_str("🔥"),
            Symbol::Electricity => String::from_str("⚡"),
            Symbol::ExclamationDouble => String::from_str("‼️"),
            Symbol::ExclamationWithQuestion => String::from_str("⁉️"),
            Symbol::ExclamationRed => String::from_str("❗"),
            Symbol::ExclamationWhite => String::from_str("❕"),
            Symbol::GenderFemale => String::from_str("♀️"),
            Symbol::GenderMale => String::from_str("♂️"),
            Symbol::QuestionRed => String::from_str("❓"),
            Symbol::QuestionWhite => String::from_str("❔"),
            Symbol::Sparkles => String::from_str("✨"),
            Symbol::SpeechBubble => String::from_str("💬"),
            Symbol::SpeechBubbleAngry => String::from_str("🗯️"),
            Symbol::Snowflake => String::from_str("❄️"),
            Symbol::Zzz => String::from_str("💤"),
        }
    }
}

} // verus!
