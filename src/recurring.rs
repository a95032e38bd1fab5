//! Recurring payment scheduling.

use vstd::prelude::*;
use crate::reputation::{bump, bump_counter};
use crate::types::RecurringPayment;

verus! {

impl RecurringPayment {
    /// The interval is at least one ledger.
    pub open spec fn wf(&self) -> bool {
        self.interval >= 1
    }
}

/// Whether `payment` is due at ledger `now_sequence`.
pub open spec fn is_due(payment: RecurringPayment, now_sequence: u64) -> bool {
    payment.is_active && now_sequence >= payment.next_payment_ledger
}

/// Matures `payment` once if it is active and due: the next payment ledger
/// advances by exactly one interval (saturating) and the count by one. A
/// caller that missed several intervals calls again for each. Returns whether
/// a payment fell due.
pub fn maybe_mature(payment: &mut RecurringPayment, now_sequence: u64) -> (r: bool)
    requires
        old(payment).wf(),
    ensures
        r == is_due(*old(payment), now_sequence),
        r ==> *final(payment) == (RecurringPayment {
            next_payment_ledger: if old(payment).next_payment_ledger + old(payment).interval
                > u64::MAX {
                u64::MAX
            } else {
                (old(payment).next_payment_ledger + old(payment).interval) as u64
            },
            payment_count: bump(old(payment).payment_count),
            ..*old(payment)
        }),
        !r ==> *final(payment) == *old(payment),
        final(payment).wf(),
        final(payment).next_payment_ledger >= old(payment).next_payment_ledger,
{
    if !payment.is_active || now_sequence < payment.next_payment_ledger {
        return false;
    }
    payment.next_payment_ledger = if payment.next_payment_ledger > u64::MAX - payment.interval {
        u64::MAX
    } else {
        payment.next_payment_ledger + payment.interval
    };
    payment.payment_count = bump_counter(payment.payment_count);
    true
}

} // verus!
