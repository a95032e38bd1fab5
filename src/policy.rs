//! Recipient allow/deny lists and execution conditions.

use vstd::prelude::*;
use crate::storage::{flagged, is_blacklisted, is_whitelisted, Storage};
use crate::types::{Address, Condition, ConditionLogic, ListMode, VaultError};

verus! {

/// Whether the list mode admits `recipient`.
pub open spec fn recipient_allowed(
    mode: ListMode,
    whitelist: Map<Address, bool>,
    blacklist: Map<Address, bool>,
    recipient: Address,
) -> bool {
    match mode {
        ListMode::Disabled => true,
        ListMode::Whitelist => flagged(whitelist, recipient),
        ListMode::Blacklist => !flagged(blacklist, recipient),
    }
}

/// Refuses a recipient that is blacklisted, or not whitelisted in whitelist mode.
pub fn check_recipient(store: &Storage, recipient: Address) -> (r: Result<(), VaultError>)
    ensures
        recipient_allowed(store.list_mode, store.whitelist@, store.blacklist@, recipient) ==> r
            is Ok,
        !recipient_allowed(store.list_mode, store.whitelist@, store.blacklist@, recipient) ==> r
            == Err::<(), VaultError>(VaultError::RecipientBlocked),
{
    let allowed = match store.list_mode {
        ListMode::Disabled => true,
        ListMode::Whitelist => is_whitelisted(store, recipient),
        ListMode::Blacklist => !is_blacklisted(store, recipient),
    };
    if allowed {
        Ok(())
    } else {
        Err(VaultError::RecipientBlocked)
    }
}

/// Whether one condition holds at `balance` and ledger `sequence`.
pub open spec fn condition_holds(c: Condition, balance: int, sequence: int) -> bool {
    match c {
        Condition::BalanceAbove(x) => balance > x,
        Condition::DateAfter(x) => sequence > x,
        Condition::DateBefore(x) => sequence < x,
    }
}

/// Whether the conditions hold under `logic`: all of them for `And`, at least
/// one for `Or`; an empty list always holds.
pub open spec fn conditions_met(
    conds: Seq<Condition>,
    logic: ConditionLogic,
    balance: int,
    sequence: int,
) -> bool {
    if conds.len() == 0 {
        true
    } else {
        match logic {
            ConditionLogic::And => forall|i: int|
                0 <= i < conds.len() ==> condition_holds(#[trigger] conds[i], balance, sequence),
            ConditionLogic::Or => exists|i: int|
                0 <= i < conds.len() && condition_holds(#[trigger] conds[i], balance, sequence),
        }
    }
}

pub fn evaluate_condition(c: &Condition, balance: i128, sequence: u64) -> (r: bool)
    ensures
        r == condition_holds(*c, balance as int, sequence as int),
{
    match c {
        Condition::BalanceAbove(x) => balance > *x,
        Condition::DateAfter(x) => sequence > *x,
        Condition::DateBefore(x) => sequence < *x,
    }
}

/// Evaluates the conditions of a proposal against the vault's current
/// `balance` and ledger `sequence`.
pub fn evaluate_conditions(
    conds: &Vec<Condition>,
    logic: ConditionLogic,
    balance: i128,
    sequence: u64,
) -> (r: bool)
    ensures
        r == conditions_met(conds@, logic, balance as int, sequence as int),
{
    if conds.len() == 0 {
        return true;
    }
    let mut i: usize = 0;
    match logic {
        ConditionLogic::And => {
            while i < conds.len()
                invariant
                    i <= conds@.len(),
                    conds@.len() > 0,
                    logic == ConditionLogic::And,
                    forall|j: int|
                        0 <= j < i ==> condition_holds(
                            #[trigger] conds@[j],
                            balance as int,
                            sequence as int,
                        ),
                decreases conds@.len() - i,
            {
                if !evaluate_condition(&conds[i], balance, sequence) {
                    assert(!condition_holds(conds@[i as int], balance as int, sequence as int));
                    return false;
                }
                i = i + 1;
            }
            true
        },
        ConditionLogic::Or => {
            while i < conds.len()
                invariant
                    i <= conds@.len(),
                    conds@.len() > 0,
                    logic == ConditionLogic::Or,
                    forall|j: int|
                        0 <= j < i ==> !condition_holds(
                            #[trigger] conds@[j],
                            balance as int,
                            sequence as int,
                        ),
                decreases conds@.len() - i,
            {
                if evaluate_condition(&conds[i], balance, sequence) {
                    assert(condition_holds(conds@[i as int], balance as int, sequence as int));
                    return true;
                }
                i = i + 1;
            }
            false
        },
    }
}

} // verus!
