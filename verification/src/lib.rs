//! Game-system logic of a Pokerole Discord bot: dice rolls, character sheets,
//! encounters, treasure boxes and the text the bot answers with.

pub mod autocompletion;
pub mod cache;
pub mod character_stats;
pub mod characters;
pub mod commands;
pub mod edits;
pub mod efficiency;
pub mod encounter;
pub mod emoji;
pub mod emoji_registry;
pub mod errors;
pub mod game;
pub mod hp_modifier;
pub mod initialization;
pub mod list_characters;
pub mod metronome;
pub mod open_box;
pub mod player_info;
pub mod pokedex;
pub mod poll;
pub mod purchases;
pub mod quests;
pub mod random;
pub mod rewards;
pub mod role_reactions;
pub mod roll;
pub mod roster;
pub mod scale;
pub mod season;
pub mod sheet;
pub mod sprites;
pub mod text;
pub mod trades;
pub mod wallets;
