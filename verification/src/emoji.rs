//! The emoji the bot writes.

use vstd::prelude::*;

verus! {

/// The server's coin emoji.
pub const POKE_COIN: &'static str = "<:poke_coin:1120237132200546304>";

/// A filled stat dot.
pub const DOT_FILLED: char = '⬤';

/// An empty stat dot.
pub const DOT_EMPTY: char = '⭘';

/// A dot for a point above the species' maximum.
pub const DOT_OVERCHARGED: char = '⦿';

/// The battle point emoji.
pub const BATTLE_POINT: &'static str = "🏅";

/// The backpack emoji.
pub const BACKPACK: &'static str = "🎒";

/// The trophy emoji of completed quests.
pub const TROPHY: &'static str = "🏆";

/// The fencer emoji of sparring sessions.
pub const FENCING: &'static str = "🤺";

/// The ticket emoji of given tours.
pub const TICKET: &'static str = "🎫";

/// The crossed swords emoji of given combat tutorials.
pub const CROSSED_SWORDS: &'static str = "⚔️";

/// The party popper of a level-up message.
pub const PARTY_POPPER: &'static str = "🎉";

/// The partying face of a level-up message.
pub const PARTYING_FACE: &'static str = "🥳";

} // verus!
