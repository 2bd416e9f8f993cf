//! Emoji for a fantasy text-based game.
//!
//! Every category of the library is a closed enumeration with a total,
//! pure mapping to its display glyph: people, creatures, locations, items
//! and symbols. A person glyph can further be combined with a gender and a
//! skin-tone modifier; the composition rule lives in [`emoji`] and is the
//! only piece of real logic. Each `render` method carries a contract that
//! pins the returned string down to the exact codepoint sequence.

pub mod creature;
pub mod emoji;
pub mod gender;
pub mod item;
pub mod location;
pub mod person;
pub mod skin_tone;
pub mod symbol;

pub use creature::Creature;
pub use emoji::render_person;
pub use emoji::Emoji;
pub use gender::Gender;
pub use item::Item;
pub use location::Location;
pub use person::Person;
pub use skin_tone::SkinTone;
pub use symbol::Symbol;
