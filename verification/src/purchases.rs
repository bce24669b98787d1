//! Purchases that a player confirms with a button: a bigger backpack and the hidden
//! ability. The library decides prices, offers, what each button press leads to and
//! the messages; the bot shows them and stores the result.

use vstd::prelude::*;

use crate::character_stats::fits_i64;
use crate::characters::DEFAULT_BACKPACK_SLOTS;
use crate::emoji::POKE_COIN;
use crate::errors::ValidationError;
use crate::text::{int_text, push_i64, push_str, str_eq};

verus! {

/// The id of the button that confirms a backpack upgrade.
pub const BACKPACK_CONFIRM: &'static str = "upgrade_backpack_proceed";
/// The id of the button that declines a backpack upgrade.
pub const BACKPACK_ABORT: &'static str = "upgrade_backpack_abort";
/// The price of the first backpack upgrade.
pub const BACKPACK_BASE_PRICE: i64 = 500;
/// How much more each further backpack upgrade costs.
pub const BACKPACK_MONEY_PER_LEVEL: i64 = 500;

/// The id of the button that confirms unlocking the hidden ability.
pub const HIDDEN_ABILITY_CONFIRM: &'static str = "unlock_hidden_ability_proceed";
/// The id of the button that declines unlocking the hidden ability.
pub const HIDDEN_ABILITY_ABORT: &'static str = "unlock_hidden_ability_abort";
/// The price of unlocking the hidden ability.
pub const HIDDEN_ABILITY_PRICE: i64 = 2000;

/// The price of the next backpack upgrade after `count` upgrades.
pub open spec fn backpack_price(count: int) -> int {
    BACKPACK_BASE_PRICE + BACKPACK_MONEY_PER_LEVEL * count
}

/// The backpack slots after the next upgrade.
pub open spec fn backpack_target_slots(count: int) -> int {
    DEFAULT_BACKPACK_SLOTS + count + 1
}

/// An offer that the player can confirm: its message, and the stored values after it.
pub struct PurchaseOffer {
    pub message: String,
    pub price: i64,
    pub updated_money: i64,
}

/// The message of a backpack offer.
pub open spec fn backpack_offer_text(name: Seq<char>, count: int) -> Seq<char> {
    "**Upgrading "@ + name + "'s backpack to "@ + int_text(backpack_target_slots(count)) + " slots will require "@
        + int_text(backpack_price(count)) + seq![' '] + POKE_COIN@ + ".**"@
}

/// The refusal when the character cannot pay for the backpack.
pub open spec fn backpack_refusal_text(name: Seq<char>, money: int, count: int) -> Seq<char> {
    "**Unable to upgrade "@ + name + "'s backpack.**\n*Upgrading to "@ + int_text(backpack_target_slots(count))
        + " slots would require "@ + int_text(backpack_price(count)) + seq![' '] + POKE_COIN@ + ". Right now, "@
        + name + " only owns "@ + int_text(money) + seq![' '] + POKE_COIN@ + ".*"@
}

/// The price, slots and money after the purchase can be computed without overflow.
pub open spec fn backpack_computable(money: int, count: int) -> bool {
    &&& fits_i64(BACKPACK_MONEY_PER_LEVEL * count)
    &&& fits_i64(backpack_price(count))
    &&& fits_i64(DEFAULT_BACKPACK_SLOTS + count)
    &&& fits_i64(backpack_target_slots(count))
    &&& fits_i64(money - backpack_price(count))
    &&& fits_i64(count + 1)
}

/// The offer to upgrade a character's backpack: refused where the character owns less
/// than the price, else the price and the money left after paying.
pub fn backpack_offer(name: &str, money: i64, upgrade_count: i64) -> (r: Result<PurchaseOffer, String>)
    requires
        backpack_computable(money as int, upgrade_count as int),
    ensures
        money < backpack_price(upgrade_count as int) <==> r is Err,
        r matches Err(e) ==> e@ == backpack_refusal_text(name@, money as int, upgrade_count as int),
        r matches Ok(o) ==> {
            &&& o.message@ == backpack_offer_text(name@, upgrade_count as int)
            &&& o.price == backpack_price(upgrade_count as int)
            &&& o.updated_money == money - backpack_price(upgrade_count as int)
            &&& o.updated_money >= 0
        },
{
    let required_money = BACKPACK_BASE_PRICE + BACKPACK_MONEY_PER_LEVEL * upgrade_count;
    let target_slots = DEFAULT_BACKPACK_SLOTS + upgrade_count + 1;
    proof {
        reveal_strlit(" ");
    }
    if money < required_money {
        let mut m = String::new();
        push_str(&mut m, "**Unable to upgrade ");
        push_str(&mut m, name);
        push_str(&mut m, "'s backpack.**\n*Upgrading to ");
        push_i64(&mut m, target_slots);
        push_str(&mut m, " slots would require ");
        push_i64(&mut m, required_money);
        push_str(&mut m, " ");
        push_str(&mut m, POKE_COIN);
        push_str(&mut m, ". Right now, ");
        push_str(&mut m, name);
        push_str(&mut m, " only owns ");
        push_i64(&mut m, money);
        push_str(&mut m, " ");
        push_str(&mut m, POKE_COIN);
        push_str(&mut m, ".*");
        assert(m@ =~= backpack_refusal_text(name@, money as int, upgrade_count as int));
        return Err(m);
    }
    let mut m = String::new();
    push_str(&mut m, "**Upgrading ");
    push_str(&mut m, name);
    push_str(&mut m, "'s backpack to ");
    push_i64(&mut m, target_slots);
    push_str(&mut m, " slots will require ");
    push_i64(&mut m, required_money);
    push_str(&mut m, " ");
    push_str(&mut m, POKE_COIN);
    push_str(&mut m, ".**");
    assert(m@ =~= backpack_offer_text(name@, upgrade_count as int));
    Ok(PurchaseOffer { message: m, price: required_money, updated_money: money - required_money })
}

/// The message of the hidden ability offer.
pub open spec fn hidden_ability_offer_text(name: Seq<char>) -> Seq<char> {
    "**Unlocking "@ + name + "'s hidden ability will require "@ + int_text(HIDDEN_ABILITY_PRICE as int)
        + seq![' '] + POKE_COIN@ + ".**"@
}

/// The refusal when the character cannot pay for the hidden ability.
pub open spec fn hidden_ability_refusal_text(name: Seq<char>, money: int) -> Seq<char> {
    "**Unable to unlock "@ + name + "'s hidden ability.**\n*That would require "@ + int_text(
        HIDDEN_ABILITY_PRICE as int,
    ) + seq![' '] + POKE_COIN@ + ". Right now, "@ + name + " only owns "@ + int_text(money) + seq![' ']
        + POKE_COIN@ + ".*"@
}

/// The refusal when the hidden ability is unlocked already.
pub const ALREADY_UNLOCKED: &'static str = "Seems like this character already has their hidden ability unlocked!";

/// The offer to unlock a character's hidden ability: refused where it is unlocked
/// already, else where the character owns less than the price.
pub fn hidden_ability_offer(name: &str, money: i64, is_unlocked: bool) -> (r: Result<PurchaseOffer, ValidationError>)
    ensures
        (is_unlocked || money < HIDDEN_ABILITY_PRICE) <==> r is Err,
        r matches Err(e) ==> e.message@ == if is_unlocked {
            ALREADY_UNLOCKED@
        } else {
            hidden_ability_refusal_text(name@, money as int)
        },
        r matches Ok(o) ==> {
            &&& o.message@ == hidden_ability_offer_text(name@)
            &&& o.price == HIDDEN_ABILITY_PRICE
            &&& o.updated_money == money - HIDDEN_ABILITY_PRICE
            &&& o.updated_money >= 0
        },
{
    proof {
        reveal_strlit(" ");
    }
    if is_unlocked {
        return Err(ValidationError::new(ALREADY_UNLOCKED));
    }
    if money < HIDDEN_ABILITY_PRICE {
        let mut m = String::new();
        push_str(&mut m, "**Unable to unlock ");
        push_str(&mut m, name);
        push_str(&mut m, "'s hidden ability.**\n*That would require ");
        push_i64(&mut m, HIDDEN_ABILITY_PRICE);
        push_str(&mut m, " ");
        push_str(&mut m, POKE_COIN);
        push_str(&mut m, ". Right now, ");
        push_str(&mut m, name);
        push_str(&mut m, " only owns ");
        push_i64(&mut m, money);
        push_str(&mut m, " ");
        push_str(&mut m, POKE_COIN);
        push_str(&mut m, ".*");
        assert(m@ =~= hidden_ability_refusal_text(name@, money as int));
        return Err(ValidationError::from_string(m));
    }
    let mut m = String::new();
    push_str(&mut m, "**Unlocking ");
    push_str(&mut m, name);
    push_str(&mut m, "'s hidden ability will require ");
    push_i64(&mut m, HIDDEN_ABILITY_PRICE);
    push_str(&mut m, " ");
    push_str(&mut m, POKE_COIN);
    push_str(&mut m, ".**");
    assert(m@ =~= hidden_ability_offer_text(name@));
    Ok(PurchaseOffer { message: m, price: HIDDEN_ABILITY_PRICE, updated_money: money - HIDDEN_ABILITY_PRICE })
}

/// What happened after an offer was shown.
#[derive(Clone, Copy, Debug, PartialEq, Eq, Structural)]
pub enum PurchaseOutcome {
    /// The player confirmed and the purchase was stored.
    Success,
    /// The player pressed the other button.
    Cancelled,
    /// The player confirmed, but the record had changed meanwhile.
    Unexpected,
    /// Nobody pressed a button in time.
    TimedOut,
}

/// What the bot does next after the player's answer to an offer.
#[derive(Clone, Copy, Debug, PartialEq, Eq, Structural)]
pub enum PurchaseStep {
    /// Store the purchase, then report with `outcome_after_store`.
    Store,
    /// Report the outcome; nothing is stored.
    Finish(PurchaseOutcome),
}

/// The next step after a button press (`Some` with the pressed button's id) or a
/// timeout (`None`): the confirm button stores, any other button cancels.
pub fn step_after_answer(pressed: Option<&str>, confirm_id: &str) -> (r: PurchaseStep)
    ensures
        r == match pressed {
            Some(id) => if id@ == confirm_id@ {
                PurchaseStep::Store
            } else {
                PurchaseStep::Finish(PurchaseOutcome::Cancelled)
            },
            None => PurchaseStep::Finish(PurchaseOutcome::TimedOut),
        },
{
    match pressed {
        Some(id) => if str_eq(id, confirm_id) {
            PurchaseStep::Store
        } else {
            PurchaseStep::Finish(PurchaseOutcome::Cancelled)
        },
        None => PurchaseStep::Finish(PurchaseOutcome::TimedOut),
    }
}

/// The outcome after storing: success where exactly one record was updated (the one
/// still holding the values the offer was made on), else something went wrong.
pub fn outcome_after_store(stored: bool, rows_affected: u64) -> (r: PurchaseOutcome)
    ensures
        r == if stored && rows_affected == 1 { PurchaseOutcome::Success } else { PurchaseOutcome::Unexpected },
{
    if stored && rows_affected == 1 {
        PurchaseOutcome::Success
    } else {
        PurchaseOutcome::Unexpected
    }
}

/// What is added to the offer's message once the outcome is known.
pub open spec fn outcome_suffix(outcome: PurchaseOutcome, success: Seq<char>) -> Seq<char> {
    match outcome {
        PurchaseOutcome::Success => "\n\n**"@ + success + "**"@,
        PurchaseOutcome::Cancelled => "\n\n**Request was cancelled.**"@,
        PurchaseOutcome::Unexpected => "\n\n**Something went wrong.**\n*This should only happen if you're actively trying to game the system... and if that's the case, thanks for trying, but... please stop? xD*"@,
        PurchaseOutcome::TimedOut => "\n\n**Request timed out. Use the command again if needed.**"@,
    }
}

/// The offer's message with the outcome added; `success` is the command's own word for it.
pub fn outcome_message(offer_text: &str, outcome: PurchaseOutcome, success: &str) -> (s: String)
    ensures
        s@ == offer_text@ + outcome_suffix(outcome, success@),
{
    let mut m = String::new();
    push_str(&mut m, offer_text);
    match outcome {
        PurchaseOutcome::Success => {
            push_str(&mut m, "\n\n**");
            push_str(&mut m, success);
            push_str(&mut m, "**");
        },
        PurchaseOutcome::Cancelled => push_str(&mut m, "\n\n**Request was cancelled.**"),
        PurchaseOutcome::Unexpected => push_str(&mut m, "\n\n**Something went wrong.**\n*This should only happen if you're actively trying to game the system... and if that's the case, thanks for trying, but... please stop? xD*"),
        PurchaseOutcome::TimedOut => push_str(&mut m, "\n\n**Request timed out. Use the command again if needed.**"),
    }
    assert(m@ =~= offer_text@ + outcome_suffix(outcome, success@));
    m
}

/// The action-log message of a payment: `Removed {price} <coin> from {name}`.
pub open spec fn payment_log_text(price: int, name: Seq<char>) -> Seq<char> {
    "Removed "@ + int_text(price) + seq![' '] + POKE_COIN@ + " from "@ + name
}

/// The action-log message of a payment.
pub fn payment_log_message(price: i64, name: &str) -> (s: String)
    ensures
        s@ == payment_log_text(price as int, name@),
{
    let mut m = String::new();
    push_str(&mut m, "Removed ");
    push_i64(&mut m, price);
    push_str(&mut m, " ");
    push_str(&mut m, POKE_COIN);
    push_str(&mut m, " from ");
    push_str(&mut m, name);
    proof {
        reveal_strlit(" ");
    }
    assert(m@ =~= payment_log_text(price as int, name@));
    m
}

/// The action-log message of a backpack upgrade.
pub fn backpack_log_message(name: &str) -> (s: String)
    ensures
        s@ == "Increased "@ + name@ + "'s backpack size by 1"@,
{
    let mut m = String::new();
    push_str(&mut m, "Increased ");
    push_str(&mut m, name);
    push_str(&mut m, "'s backpack size by 1");
    m
}

/// The action-log message of a hidden ability unlock.
pub fn hidden_ability_log_message(name: &str) -> (s: String)
    ensures
        s@ == "Unlocked "@ + name@ + "'s hidden ability!"@,
{
    let mut m = String::new();
    push_str(&mut m, "Unlocked ");
    push_str(&mut m, name);
    push_str(&mut m, "'s hidden ability!");
    m
}

} // verus!
