//! Wallets: finding one by name, and who may take money from it.

use vstd::prelude::*;

use crate::cache::WalletCacheItem;
use crate::errors::{ParseError, ValidationError};
use crate::text::{lowercase, push_str, str_eq, to_lowercase};

verus! {

/// A wallet as stored: its id and name.
pub struct WalletRow {
    pub id: i64,
    pub name: String,
}

/// The positions of the wallets whose name matches the text, case ignored.
pub open spec fn wallet_matches(rows: Seq<WalletRow>, text: Seq<char>) -> Seq<int>
    decreases rows.len(),
{
    if rows.len() == 0 {
        Seq::empty()
    } else {
        wallet_matches(rows.drop_last(), text) + if lowercase(rows.last().name@) == lowercase(text) {
            seq![rows.len() - 1]
        } else {
            Seq::empty()
        }
    }
}

proof fn lemma_wallet_matches_bounds(rows: Seq<WalletRow>, text: Seq<char>)
    ensures
        forall|k: int| 0 <= k < wallet_matches(rows, text).len() ==> 0 <= #[trigger] wallet_matches(rows, text)[k] < rows.len(),
    decreases rows.len(),
{
    if rows.len() > 0 {
        let prev = wallet_matches(rows.drop_last(), text);
        lemma_wallet_matches_bounds(rows.drop_last(), text);
        assert forall|k: int| 0 <= k < wallet_matches(rows, text).len() implies 0 <= #[trigger] wallet_matches(rows, text)[k] < rows.len() by {
            if k < prev.len() {
                assert(wallet_matches(rows, text)[k] == prev[k]);
            }
        }
    }
}

/// The wallet of a guild that a user means: the one whose name matches, case ignored,
/// where exactly one does.
pub fn parse_user_input_to_wallet(rows: &Vec<WalletRow>, guild_id: i64, text: &str) -> (r: Option<WalletCacheItem>)
    ensures
        r is Some <==> wallet_matches(rows@, text@).len() == 1,
        r matches Some(w) ==> {
            let k = wallet_matches(rows@, text@)[0];
            &&& w.id == rows@[k].id
            &&& w.name@ == rows@[k].name@
            &&& w.guild_id == guild_id as u64
        },
{
    let lowercase_input = to_lowercase(text);
    let mut found: Option<usize> = None;
    let mut count: usize = 0;
    let mut i: usize = 0;
    while i < rows.len()
        invariant
            i <= rows.len(),
            lowercase_input@ == lowercase(text@),
            count == wallet_matches(rows@.subrange(0, i as int), text@).len(),
            count <= i,
            count == 0 <==> found is None,
            found matches Some(k) ==> k < i && wallet_matches(rows@.subrange(0, i as int), text@)[0] == k,
        decreases rows.len() - i,
    {
        let name_lower = to_lowercase(rows[i].name.as_str());
        let ghost prev = wallet_matches(rows@.subrange(0, i as int), text@);
        assert(rows@.subrange(0, i + 1).drop_last() =~= rows@.subrange(0, i as int));
        if str_eq(name_lower.as_str(), lowercase_input.as_str()) {
            if found.is_none() {
                found = Some(i);
            }
            count = count + 1;
        }
        i = i + 1;
    }
    assert(rows@.subrange(0, i as int) =~= rows@);
    proof {
        lemma_wallet_matches_bounds(rows@, text@);
    }
    if count != 1 {
        return None;
    }
    match found {
        Some(k) => {
            let mut name = String::new();
            push_str(&mut name, rows[k].name.as_str());
            Some(WalletCacheItem { id: rows[k].id, name, guild_id: guild_id as u64 })
        },
        None => None,
    }
}

/// The error when no single wallet matches.
pub fn wallet_not_found(wallet_name: &str) -> (e: ParseError)
    ensures
        e.message@ == "Unable to find a wallet named "@ + wallet_name@,
{
    let mut m = String::new();
    push_str(&mut m, "Unable to find a wallet named ");
    push_str(&mut m, wallet_name);
    ParseError { message: m }
}

/// The error when no single character matches.
pub fn character_not_found(character_name: &str) -> (e: ParseError)
    ensures
        e.message@ == "Unable to find a character named "@ + character_name@,
{
    let mut m = String::new();
    push_str(&mut m, "Unable to find a character named ");
    push_str(&mut m, character_name);
    ParseError { message: m }
}

/// The wallet of a guild that a user means, or the error that names the text.
pub fn find_wallet(rows: &Vec<WalletRow>, guild_id: i64, text: &str) -> (r: Result<WalletCacheItem, ParseError>)
    ensures
        r is Ok <==> wallet_matches(rows@, text@).len() == 1,
        r matches Ok(w) ==> {
            let k = wallet_matches(rows@, text@)[0];
            &&& w.id == rows@[k].id
            &&& w.name@ == rows@[k].name@
            &&& w.guild_id == guild_id as u64
        },
        r matches Err(e) ==> e.message@ == "Unable to find a wallet named "@ + text@,
{
    match parse_user_input_to_wallet(rows, guild_id, text) {
        Some(w) => Ok(w),
        None => Err(wallet_not_found(text)),
    }
}

/// The refusal for users who own no character among the wallet's owners.
pub const NOT_WALLET_OWNER: &'static str = "Only wallet owners, GMs and Admins can withdraw money from wallet wallets.";

/// The refusal when the owners could not be looked up.
pub const WALLET_OWNERS_UNKNOWN: &'static str = "Was unable to validate whether you are allowed to access this wallet. Please try again.";

/// Whether a user may take money from a wallet: staff may; others where the lookup of
/// their characters among the wallet's owners found any.
pub fn wallet_access(is_staff: bool, owned_characters: Result<u64, sqlx::Error>) -> (r: Result<(), ValidationError>)
    ensures
        r is Ok <==> (is_staff || (owned_characters matches Ok(n) && n > 0)),
        r matches Err(e) ==> e.message@ == if owned_characters is Ok {
            NOT_WALLET_OWNER@
        } else {
            WALLET_OWNERS_UNKNOWN@
        },
{
    if is_staff {
        return Ok(());
    }
    match owned_characters {
        Ok(n) => if n == 0 {
            Err(ValidationError::new(NOT_WALLET_OWNER))
        } else {
            Ok(())
        },
        Err(_) => Err(ValidationError::new(WALLET_OWNERS_UNKNOWN)),
    }
}

} // verus!
