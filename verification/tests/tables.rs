//! One assertion per member of every category: each glyph table
//! entry renders as its exact expected literal.

use mythoji::{Creature, Item, Location, Person, Symbol};

#[test]
fn test_item() {
    assert_eq!(Item::Amulet.render(), "🧿");
    assert_eq!(Item::Axe.render(), "🪓");
    assert_eq!(Item::Bag.render(), "🎒");
    assert_eq!(Item::Bandage.render(), "🩹");
    assert_eq!(Item::Bed.render(), "🛏");
    assert_eq!(Item::Beer.render(), "🍺");
    assert_eq!(Item::BloodDrop.render(), "🩸");
    assert_eq!(Item::Bomb.render(), "💣");
    assert_eq!(Item::BookClosed.render(), "📕");
    assert_eq!(Item::BookOpen.render(), "📖");
    assert_eq!(Item::Boomerang.render(), "🪃");
    assert_eq!(Item::BowAndArrow.render(), "🏹");
    assert_eq!(Item::Brick.render(), "🧱");
    assert_eq!(Item::Candle.render(), "🕯");
    assert_eq!(Item::Coat.render(), "🧥");
    assert_eq!(Item::Coffin.render(), "⚰️");
    assert_eq!(Item::Coin.render(), "🪙");
    assert_eq!(Item::Crown.render(), "👑");
    assert_eq!(Item::CrystalBall.render(), "🔮");
    assert_eq!(Item::Dagger.render(), "🗡");
    assert_eq!(Item::Dart.render(), "🎯");
    assert_eq!(Item::Door.render(), "🚪");
    assert_eq!(Item::FlagBlack.render(), "🏴");
    assert_eq!(Item::FlagTriangle.render(), "🚩");
    assert_eq!(Item::Firecracker.render(), "🧨");
    assert_eq!(Item::GemStone.render(), "💎");
    assert_eq!(Item::Grave.render(), "🪦");
    assert_eq!(Item::Hammer.render(), "🔨");
    assert_eq!(Item::HammerAndPick.render(), "⚒️");
    assert_eq!(Item::HeartRed.render(), "❤️");
    assert_eq!(Item::HourglassDone.render(), "⌛");
    assert_eq!(Item::HourglassNotDone.render(), "⏳");
    assert_eq!(Item::Jar.render(), "🏺");
    assert_eq!(Item::Key.render(), "🗝️");
    assert_eq!(Item::Leaf.render(), "🍃");
    assert_eq!(Item::LeafFallen.render(), "🍂");
    assert_eq!(Item::LeafMaple.render(), "🍁");
    assert_eq!(Item::WorldMap.render(), "🗺");
    assert_eq!(Item::MeatOnBone.render(), "🍖");
    assert_eq!(Item::MeatCut.render(), "🥩");
    assert_eq!(Item::Pick.render(), "⛏");
    assert_eq!(Item::PoultryLeg.render(), "🍗");
    assert_eq!(Item::PrayerBeads.render(), "📿");
    assert_eq!(Item::RedEnvelope.render(), "🧧");
    assert_eq!(Item::RedLantern.render(), "🏮");
    assert_eq!(Item::Rock.render(), "🪨");
    assert_eq!(Item::Scroll.render(), "📜");
    assert_eq!(Item::Shield.render(), "🛡");
    assert_eq!(Item::SwordsCrossed.render(), "⚔️");
    assert_eq!(Item::Trident.render(), "🔱");
    assert_eq!(Item::Urn.render(), "⚱️");
    assert_eq!(Item::Wand.render(), "🪄");
    assert_eq!(Item::WaterDrop.render(), "💧");
}

#[test]
fn test_symbol() {
    assert_eq!(Symbol::Anger.render(), "💢");
    assert_eq!(Symbol::Comet.render(), "☄️");
    assert_eq!(Symbol::Cyclone.render(), "🌀");
    assert_eq!(Symbol::Fire.render(), "🔥");
    assert_eq!(Symbol::Electricity.render(), "⚡");
    assert_eq!(Symbol::ExclamationDouble.render(), "‼️");
    assert_eq!(Symbol::ExclamationWithQuestion.render(), "⁉️");
    assert_eq!(Symbol::ExclamationRed.render(), "❗");
    assert_eq!(Symbol::ExclamationWhite.render(), "❕");
    assert_eq!(Symbol::GenderFemale.render(), "♀️");
    assert_eq!(Symbol::GenderMale.render(), "♂️");
    assert_eq!(Symbol::QuestionRed.render(), "❓");
    assert_eq!(Symbol::QuestionWhite.render(), "❔");
    assert_eq!(Symbol::Sparkles.render(), "✨");
    assert_eq!(Symbol::SpeechBubble.render(), "💬");
    assert_eq!(Symbol::SpeechBubbleAngry.render(), "🗯️");
    assert_eq!(Symbol::Snowflake.render(), "❄️");
    assert_eq!(Symbol::Zzz.render(), "💤");
}

#[test]
fn test_location() {
    assert_eq!(Location::BoatSail.render(), "⛵");
    assert_eq!(Location::BuildingClassic.render(), "🏛");
    assert_eq!(Location::Campsite.render(), "🏕");
    assert_eq!(Location::Canoe.render(), "🛶");
    assert_eq!(Location::Castle.render(), "🏰");
    assert_eq!(Location::CastleJapanese.render(), "🏯");
    assert_eq!(Location::Cave.render(), "🕳");
    assert_eq!(Location::Desert.render(), "🏜");
    assert_eq!(Location::Hut.render(), "🛖");
    assert_eq!(Location::Mountain.render(), "⛰");
    assert_eq!(Location::MountainSnow.render(), "🏔");
    assert_eq!(Location::Oasis.render(), "🏜");
    assert_eq!(Location::Palace.render(), "🏯");
    assert_eq!(Location::Tent.render(), "⛺");
    assert_eq!(Location::TreeDeciduous.render(), "🌳");
    assert_eq!(Location::TreeEvergreen.render(), "🌲");
    assert_eq!(Location::TreePalm.render(), "🌴");
    assert_eq!(Location::Volcano.render(), "🌋");
}

#[test]
fn test_person() {
    assert_eq!(Person::Artist.render(), "🧑‍🎨");
    assert_eq!(Person::Baby.render(), "👶");
    assert_eq!(Person::BaldPerson.render(), "🧑‍🦲");
    assert_eq!(Person::BeardedPerson.render(), "🧔");
    assert_eq!(Person::Child.render(), "🧒");
    assert_eq!(Person::Elf.render(), "🧝");
    assert_eq!(Person::Fairy.render(), "🧚");
    assert_eq!(Person::Genie.render(), "🧞");
    assert_eq!(Person::HeardScarfPerson.render(), "🧕");
    assert_eq!(Person::Mage.render(), "🧙");
    assert_eq!(Person::MerPerson.render(), "🧜");
    assert_eq!(Person::OldPerson.render(), "🧓");
    assert_eq!(Person::Person.render(), "🧑");
    assert_eq!(Person::Royalty.render(), "🤴");
    assert_eq!(Person::SkullCapPerson.render(), "👲");
    assert_eq!(Person::TurbanPerson.render(), "👳");
    assert_eq!(Person::Vampire.render(), "🧛");
    assert_eq!(Person::Zombie.render(), "🧟");
}

#[test]
fn test_creature() {
    assert_eq!(Creature::Ant.render(), "🐜");
    assert_eq!(Creature::Bat.render(), "🦇");
    assert_eq!(Creature::Beetle.render(), "🐞");
    assert_eq!(Creature::Bison.render(), "🦬");
    assert_eq!(Creature::Boar.render(), "🐗");
    assert_eq!(Creature::Bug.render(), "🐛");
    assert_eq!(Creature::Butterfly.render(), "🦋");
    assert_eq!(Creature::Camel.render(), "🐫");
    assert_eq!(Creature::Cat.render(), "🐈");
    assert_eq!(Creature::Cockroach.render(), "🪳");
    assert_eq!(Creature::Cow.render(), "🐄");
    assert_eq!(Creature::Crab.render(), "🦀");
    assert_eq!(Creature::Crocodile.render(), "🐊");
    assert_eq!(Creature::Deer.render(), "🦌");
    assert_eq!(Creature::Dog.render(), "🐕");
    assert_eq!(Creature::Dragon.render(), "🐉");
    assert_eq!(Creature::Eagle.render(), "🦅");
    assert_eq!(Creature::Elephant.render(), "🐘");
    assert_eq!(Creature::Fish.render(), "🐟");
    assert_eq!(Creature::Phantom.render(), "👻");
    assert_eq!(Creature::Goat.render(), "🐐");
    assert_eq!(Creature::Goblin.render(), "👺");
    assert_eq!(Creature::Honeybee.render(), "🐝");
    assert_eq!(Creature::Horse.render(), "🐎");
    assert_eq!(Creature::Leopard.render(), "🐆");
    assert_eq!(Creature::Llama.render(), "🦙");
    assert_eq!(Creature::Mammoth.render(), "🦣");
    assert_eq!(Creature::Mouse.render(), "🐁");
    assert_eq!(Creature::Ogre.render(), "👹");
    assert_eq!(Creature::Pig.render(), "🐖");
    assert_eq!(Creature::Rabbit.render(), "🐇");
    assert_eq!(Creature::Ram.render(), "🐏");
    assert_eq!(Creature::Rat.render(), "🐀");
    assert_eq!(Creature::Rhinoceros.render(), "🦏");
    assert_eq!(Creature::Scorpion.render(), "🦂");
    assert_eq!(Creature::Shark.render(), "🦈");
    assert_eq!(Creature::Snake.render(), "🐍");
    assert_eq!(Creature::Spider.render(), "🕷");
    assert_eq!(Creature::Tiger.render(), "🐅");
    assert_eq!(Creature::TropicalFish.render(), "🐠");
    assert_eq!(Creature::WaterBuffalo.render(), "🐃");
    assert_eq!(Creature::Wolf.render(), "🐺");
}
