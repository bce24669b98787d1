//! The bot's cached view of characters and wallets.

use crate::text::{copy_string, push_str};
use vstd::prelude::*;

verus! {

/// A character as the autocompletion and the name lookup see it.
#[derive(Debug)]
pub struct CharacterCacheItem {
    pub id: i64,
    pub name: String,
    pub is_retired: bool,
    pub guild_id: u64,
    pub user_id: u64,
    pub autocomplete_name: String,
}

/// The name offered by autocompletion: `name (@nickname)`.
pub open spec fn autocomplete_name_spec(name: Seq<char>, nickname: Seq<char>) -> Seq<char> {
    name + " (@"@ + nickname + ")"@
}

impl CharacterCacheItem {
    pub fn new(
        id: i64,
        name: String,
        user_id: u64,
        guild_id: u64,
        is_retired: bool,
        user_nickname: String,
    ) -> (item: Self)
        ensures
            item.id == id,
            item.name == name,
            item.user_id == user_id,
            item.guild_id == guild_id,
            item.is_retired == is_retired,
            item.autocomplete_name() == autocomplete_name_spec(name@, user_nickname@),
    {
        CharacterCacheItem {
            autocomplete_name: CharacterCacheItem::build_autocomplete_name(name.as_str(), user_nickname.as_str()),
            id,
            user_id,
            guild_id,
            is_retired,
            name,
        }
    }

    /// The text of the autocomplete name.
    pub open spec fn autocomplete_name(&self) -> Seq<char> {
        self.autocomplete_name@
    }

    pub fn get_autocomplete_name(&self) -> (r: &String)
        ensures
            r@ == self.autocomplete_name(),
    {
        &self.autocomplete_name
    }

    fn build_autocomplete_name(name: &str, nickname: &str) -> (r: String)
        ensures
            r@ == autocomplete_name_spec(name@, nickname@),
    {
        let mut r = String::new();
        push_str(&mut r, name);
        push_str(&mut r, " (@");
        push_str(&mut r, nickname);
        push_str(&mut r, ")");
        r
    }

    /// A copy of the item, field by field.
    pub fn duplicate(&self) -> (r: Self)
        ensures
            r.id == self.id,
            r.name@ == self.name@,
            r.is_retired == self.is_retired,
            r.guild_id == self.guild_id,
            r.user_id == self.user_id,
            r.autocomplete_name() == self.autocomplete_name(),
    {
        CharacterCacheItem {
            id: self.id,
            name: copy_string(&self.name),
            is_retired: self.is_retired,
            guild_id: self.guild_id,
            user_id: self.user_id,
            autocomplete_name: copy_string(&self.autocomplete_name),
        }
    }
}

/// A wallet as the name lookup sees it.
#[derive(Debug)]
pub struct WalletCacheItem {
    pub id: i64,
    pub name: String,
    pub guild_id: u64,
}

/// A stored character with its owner's nickname in the guild, if known.
pub struct CharacterRow {
    pub id: i64,
    pub character_name: String,
    pub user_id: i64,
    pub guild_id: i64,
    pub is_retired: bool,
    pub user_name: Option<String>,
}

/// The cached characters: what autocompletion and name lookups read.
pub struct Cache {
    pub characters: Vec<CharacterCacheItem>,
}

/// The cache item of a stored character: an unknown nickname counts as empty.
pub open spec fn item_matches_row(c: CharacterCacheItem, r: CharacterRow) -> bool {
    &&& c.id == r.id
    &&& c.name@ == r.character_name@
    &&& c.user_id == r.user_id as u64
    &&& c.guild_id == r.guild_id as u64
    &&& c.is_retired == r.is_retired
    &&& c.autocomplete_name() == autocomplete_name_spec(r.character_name@, match r.user_name {
        Some(n) => n@,
        None => Seq::empty(),
    })
}

impl Cache {
    /// An empty cache.
    pub fn new() -> (c: Cache)
        ensures
            c.characters.len() == 0,
    {
        Cache { characters: Vec::new() }
    }

    /// Replaces the cached characters with the stored ones, in their order.
    pub fn update_character_names(&mut self, rows: &Vec<CharacterRow>)
        ensures
            final(self).characters.len() == rows.len(),
            forall|k: int| 0 <= k < rows.len() ==> item_matches_row(#[trigger] final(self).characters@[k], rows@[k]),
    {
        let mut items: Vec<CharacterCacheItem> = Vec::new();
        let mut i: usize = 0;
        while i < rows.len()
            invariant
                i <= rows.len(),
                items.len() == i,
                forall|k: int| 0 <= k < i ==> item_matches_row(#[trigger] items@[k], rows@[k]),
            decreases rows.len() - i,
        {
            let row = &rows[i];
            let nickname = match &row.user_name {
                Some(n) => copy_string(n),
                None => String::new(),
            };
            items.push(CharacterCacheItem::new(
                row.id,
                copy_string(&row.character_name),
                row.user_id as u64,
                row.guild_id as u64,
                row.is_retired,
                nickname,
            ));
            i = i + 1;
        }
        self.characters = items;
    }

    /// The first cached character with the id.
    pub fn get_character(&self, id: i64) -> (r: Option<CharacterCacheItem>)
        ensures
            match r {
                Some(c) => exists|k: int| 0 <= k < self.characters.len() && self.characters@[k].id == id
                    && (forall|j: int| 0 <= j < k ==> self.characters@[j].id != id)
                    && c.id == id && c.name@ == self.characters@[k].name@
                    && c.autocomplete_name() == self.characters@[k].autocomplete_name()
                    && c.user_id == self.characters@[k].user_id
                    && c.guild_id == self.characters@[k].guild_id
                    && c.is_retired == self.characters@[k].is_retired,
                None => forall|k: int| 0 <= k < self.characters.len() ==> self.characters@[k].id != id,
            },
    {
        let mut i: usize = 0;
        while i < self.characters.len()
            invariant
                i <= self.characters.len(),
                forall|j: int| 0 <= j < i ==> self.characters@[j].id != id,
            decreases self.characters.len() - i,
        {
            if self.characters[i].id == id {
                return Some(self.characters[i].duplicate());
            }
            i = i + 1;
        }
        None
    }

    /// Copies of the cached characters.
    pub fn get_characters(&self) -> (r: Vec<CharacterCacheItem>)
        ensures
            r.len() == self.characters.len(),
            forall|k: int| 0 <= k < r.len() ==> (#[trigger] r@[k]).id == self.characters@[k].id
                && r@[k].name@ == self.characters@[k].name@ && r@[k].autocomplete_name()
                == self.characters@[k].autocomplete_name() && r@[k].user_id == self.characters@[k].user_id
                && r@[k].guild_id == self.characters@[k].guild_id && r@[k].is_retired
                == self.characters@[k].is_retired,
    {
        let mut r: Vec<CharacterCacheItem> = Vec::new();
        let mut i: usize = 0;
        while i < self.characters.len()
            invariant
                i <= self.characters.len(),
                r.len() == i,
                forall|k: int| 0 <= k < i ==> (#[trigger] r@[k]).id == self.characters@[k].id
                    && r@[k].name@ == self.characters@[k].name@ && r@[k].autocomplete_name()
                    == self.characters@[k].autocomplete_name() && r@[k].user_id == self.characters@[k].user_id
                    && r@[k].guild_id == self.characters@[k].guild_id && r@[k].is_retired
                    == self.characters@[k].is_retired,
            decreases self.characters.len() - i,
        {
            r.push(self.characters[i].duplicate());
            i = i + 1;
        }
        r
    }
}

} // verus!
