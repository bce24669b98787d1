//! Terastallization charges and money transfers between characters: the checks, the
//! steps, and the messages.

use vstd::prelude::*;

use crate::cache::CharacterCacheItem;
use crate::character_stats::fits_i64;
use crate::commands::{ensure_user_owns_character, not_owner_text};
use crate::emoji::POKE_COIN;
use crate::errors::ValidationError;
use crate::game::{column_suffix, type_label, with_shadow, PokemonTypeWithoutShadow};
use crate::text::{int_text, push_i64, push_str};

verus! {

/// The column of a type's unlocked charges, which rewarding a charge raises.
pub fn tera_unlocked_column(t: PokemonTypeWithoutShadow) -> (s: String)
    ensures
        s@ == "tera_unlocked_"@ + column_suffix(t),
{
    let mut s = String::new();
    push_str(&mut s, "tera_unlocked_");
    push_str(&mut s, t.column_suffix());
    s
}

/// The column of a type's used charges.
pub fn tera_used_column(t: PokemonTypeWithoutShadow) -> (s: String)
    ensures
        s@ == "tera_used_"@ + column_suffix(t),
{
    let mut s = String::new();
    push_str(&mut s, "tera_used_");
    push_str(&mut s, t.column_suffix());
    s
}

/// The refusal when no charge of the type is left.
pub open spec fn no_charges_text(name: Seq<char>, t: PokemonTypeWithoutShadow) -> Seq<char> {
    name + " doesn't seem to have any "@ + type_label(with_shadow(t)) + " Terastallization charges left!"@
}

/// The message of a used charge.
pub open spec fn charge_used_text(name: Seq<char>, t: PokemonTypeWithoutShadow) -> Seq<char> {
    name + " used a "@ + type_label(with_shadow(t)) + " Terastallization!"@
}

/// Uses one charge of a type: refused where all unlocked charges are used; else the new
/// count of used charges and the message.
pub fn use_tera_charge(name: &str, t: PokemonTypeWithoutShadow, unlocked: i64, used: i64) -> (r: Result<(i64, String), ValidationError>)
    ensures
        r is Err <==> used >= unlocked,
        r matches Err(e) ==> e.message@ == no_charges_text(name@, t),
        r matches Ok(p) ==> p.0 == used + 1 && p.0 <= unlocked && p.1@ == charge_used_text(name@, t),
{
    if used >= unlocked {
        let mut m = String::new();
        push_str(&mut m, name);
        push_str(&mut m, " doesn't seem to have any ");
        push_str(&mut m, t.name());
        push_str(&mut m, " Terastallization charges left!");
        return Err(ValidationError::from_string(m));
    }
    let mut m = String::new();
    push_str(&mut m, name);
    push_str(&mut m, " used a ");
    push_str(&mut m, t.name());
    push_str(&mut m, " Terastallization!");
    Ok((used + 1, m))
}

/// The message of rewarded charges.
pub fn tera_reward_message(t: PokemonTypeWithoutShadow, character_list: &str) -> (s: String)
    ensures
        s@ == "Unlocked a "@ + type_label(with_shadow(t)) + " Terastallization Charge for "@ + character_list@ + "!"@,
{
    let mut s = String::new();
    push_str(&mut s, "Unlocked a ");
    push_str(&mut s, t.name());
    push_str(&mut s, " Terastallization Charge for ");
    push_str(&mut s, character_list);
    push_str(&mut s, "!");
    s
}

/// The refusal to give money to the same character.
pub open spec fn same_hand_text(amount: int) -> Seq<char> {
    "*You successfully transferred "@ + int_text(amount) + seq![' '] + POKE_COIN@
        + " from your left to your right hand. Ha. Ha.*"@
}

/// Checks a transfer before any money moves: the author must own the giver, and giver
/// and receiver must differ.
pub fn validate_transfer(author_id: u64, giver: &CharacterCacheItem, receiver: &CharacterCacheItem, amount: i64) -> (r: Result<(), ValidationError>)
    ensures
        r is Ok <==> giver.user_id == author_id && giver.id != receiver.id,
        r matches Err(e) ==> e.message@ == if giver.user_id != author_id {
            not_owner_text(giver.name@)
        } else {
            same_hand_text(amount as int)
        },
{
    match ensure_user_owns_character(author_id, giver) {
        Err(e) => {
            return Err(e);
        },
        Ok(()) => {},
    }
    if giver.id == receiver.id {
        let mut m = String::new();
        push_str(&mut m, "*You successfully transferred ");
        push_i64(&mut m, amount);
        push_str(&mut m, " ");
        push_str(&mut m, POKE_COIN);
        push_str(&mut m, " from your left to your right hand. Ha. Ha.*");
        proof {
            reveal_strlit(" ");
        }
        assert(m@ =~= same_hand_text(amount as int));
        return Err(ValidationError::from_string(m));
    }
    Ok(())
}

/// Where a transfer stands.
#[derive(Clone, Copy, Debug, PartialEq, Eq, Structural)]
pub enum TransferStage {
    /// Nothing moved yet: take the money from the giver.
    Start,
    /// The giver paid: give the money to the receiver.
    Debited,
    /// The receiver got the money.
    Completed,
    /// The giver paid but the receiver could not be paid: give the money back.
    Refunding,
    /// The money went back to the giver.
    Refunded,
    /// Nothing could be taken from the giver.
    Abandoned,
    /// The money could not be given back.
    RefundFailed,
}

/// A transfer: its stage and how much each side's money has changed so far.
#[derive(Clone, Copy, Debug, PartialEq, Eq, Structural)]
pub struct Transfer {
    pub stage: TransferStage,
    pub amount: i64,
    pub giver_delta: i64,
    pub receiver_delta: i64,
}

/// The change of money that the next step asks for: the character (true for the giver)
/// and the amount to add, or nothing when the transfer is over.
pub open spec fn pending_change(t: Transfer) -> Option<(bool, int)> {
    match t.stage {
        TransferStage::Start => Some((true, -t.amount)),
        TransferStage::Debited => Some((false, t.amount as int)),
        TransferStage::Refunding => Some((true, t.amount as int)),
        _ => None,
    }
}

/// Whether a transfer is over.
pub open spec fn is_finished(t: Transfer) -> bool {
    pending_change(t) is None
}

/// A new transfer of a positive amount.
pub fn start_transfer(amount: i64) -> (t: Transfer)
    requires
        amount > 0,
    ensures
        t == (Transfer { stage: TransferStage::Start, amount, giver_delta: 0, receiver_delta: 0 }),
{
    Transfer { stage: TransferStage::Start, amount, giver_delta: 0, receiver_delta: 0 }
}

/// The change of money the next step asks for: which side (true for the giver) and how
/// much to add; `None` once the transfer is over.
pub fn next_change(t: &Transfer) -> (r: Option<(bool, i64)>)
    requires
        t.amount > 0,
    ensures
        match r {
            Some((giver, amount)) => pending_change(*t) == Some((giver, amount as int)),
            None => pending_change(*t) is None,
        },
{
    match t.stage {
        TransferStage::Start => Some((true, -t.amount)),
        TransferStage::Debited => Some((false, t.amount)),
        TransferStage::Refunding => Some((true, t.amount)),
        _ => None,
    }
}

/// The money moved at each stage: nothing before the giver paid, after nothing could be
/// taken, or after a refund; the amount taken from the giver while the receiver waits or a
/// refund is due; and the whole amount across once completed.
pub open spec fn consistent(t: Transfer) -> bool {
    &&& t.amount > 0
    &&& match t.stage {
        TransferStage::Start | TransferStage::Abandoned | TransferStage::Refunded => t.giver_delta == 0
            && t.receiver_delta == 0,
        TransferStage::Debited | TransferStage::Refunding | TransferStage::RefundFailed => t.giver_delta
            == -t.amount && t.receiver_delta == 0,
        TransferStage::Completed => t.giver_delta == -t.amount && t.receiver_delta == t.amount,
    }
}

/// The transfer after the pending change was applied (`applied`) or failed: money moves
/// only where a change was applied, and a failed payment to the receiver is refunded.
pub fn after_change(t: &Transfer, applied: bool) -> (r: Transfer)
    requires
        consistent(*t),
    ensures
        r == step_spec(*t, applied),
        consistent(r),
{
    match t.stage {
        TransferStage::Start => if applied {
            Transfer { stage: TransferStage::Debited, giver_delta: -t.amount, ..*t }
        } else {
            Transfer { stage: TransferStage::Abandoned, ..*t }
        },
        TransferStage::Debited => if applied {
            Transfer { stage: TransferStage::Completed, receiver_delta: t.amount, ..*t }
        } else {
            Transfer { stage: TransferStage::Refunding, ..*t }
        },
        TransferStage::Refunding => if applied {
            Transfer { stage: TransferStage::Refunded, giver_delta: t.giver_delta + t.amount, ..*t }
        } else {
            Transfer { stage: TransferStage::RefundFailed, ..*t }
        },
        _ => *t,
    }
}

/// The transfer after each outcome in turn, from a start with nothing moved.
pub open spec fn transfer_after(amount: i64, outcomes: Seq<bool>) -> Transfer
    decreases outcomes.len(),
{
    if outcomes.len() == 0 {
        Transfer { stage: TransferStage::Start, amount, giver_delta: 0, receiver_delta: 0 }
    } else {
        step_spec(transfer_after(amount, outcomes.drop_last()), outcomes.last())
    }
}

/// One step of a transfer, as `after_change` takes it.
pub open spec fn step_spec(t: Transfer, applied: bool) -> Transfer {
    match t.stage {
        TransferStage::Start => if applied {
            Transfer { stage: TransferStage::Debited, giver_delta: (-t.amount) as i64, ..t }
        } else {
            Transfer { stage: TransferStage::Abandoned, ..t }
        },
        TransferStage::Debited => if applied {
            Transfer { stage: TransferStage::Completed, receiver_delta: t.amount, ..t }
        } else {
            Transfer { stage: TransferStage::Refunding, ..t }
        },
        TransferStage::Refunding => if applied {
            Transfer { stage: TransferStage::Refunded, giver_delta: (t.giver_delta + t.amount) as i64, ..t }
        } else {
            Transfer { stage: TransferStage::RefundFailed, ..t }
        },
        _ => t,
    }
}

/// No money is created or lost by a transfer, whatever succeeds or fails along the way:
/// a finished transfer moved the whole amount from giver to receiver or moved nothing,
/// unless giving the money back failed; while it runs, only the giver has paid.
pub proof fn law_transfer_conserves_money(amount: i64, outcomes: Seq<bool>)
    requires
        amount > 0,
    ensures
        consistent(transfer_after(amount, outcomes)),
        transfer_after(amount, outcomes).amount == amount,
        is_finished(transfer_after(amount, outcomes)) && transfer_after(amount, outcomes).stage
            != TransferStage::RefundFailed ==> transfer_after(amount, outcomes).giver_delta
            + transfer_after(amount, outcomes).receiver_delta == 0,
    decreases outcomes.len(),
{
    if outcomes.len() > 0 {
        law_transfer_conserves_money(amount, outcomes.drop_last());
    }
}

/// The message of a completed transfer.
pub open spec fn transfer_done_text(giver: Seq<char>, amount: int, receiver: Seq<char>) -> Seq<char> {
    "***"@ + giver + "** gave "@ + int_text(amount) + seq![' '] + POKE_COIN@ + " to **"@ + receiver + "***!"@
}

/// The message of a completed transfer.
pub fn transfer_done_message(giver: &str, amount: i64, receiver: &str) -> (s: String)
    ensures
        s@ == transfer_done_text(giver@, amount as int, receiver@),
{
    let mut s = String::new();
    push_str(&mut s, "***");
    push_str(&mut s, giver);
    push_str(&mut s, "** gave ");
    push_i64(&mut s, amount);
    push_str(&mut s, " ");
    push_str(&mut s, POKE_COIN);
    push_str(&mut s, " to **");
    push_str(&mut s, receiver);
    push_str(&mut s, "***!");
    proof {
        reveal_strlit(" ");
    }
    assert(s@ =~= transfer_done_text(giver@, amount as int, receiver@));
    s
}

} // verus!
