use vault::insurance::{required_stake, slash};
use vault::recurring::maybe_mature;
use vault::reputation::{apply_reputation_decay, record_execution, record_rejection, DECAY_INTERVAL};
use vault::spending::{check_spending, prune_history};
use vault::storage::{
    add_to_priority_queue, check_and_update_velocity, get_bridge_config, get_config,
    get_day_number, get_insurance_config, get_priority_queue, get_role, get_week_number,
    remove_from_priority_queue, Storage,
};
use vault::threshold::{required_approvals, select_tier};
use vault::types::{
    AmountTier, ChainId, InsuranceConfig, NotificationPreferences, RecurringPayment, Reputation,
    Role, ThresholdStrategy, TimeBasedThreshold, VaultError, VelocityConfig,
};

fn tiers() -> Vec<AmountTier> {
    vec![
        AmountTier { amount: 100, approvals: 2 },
        AmountTier { amount: 1000, approvals: 3 },
        AmountTier { amount: 10_000, approvals: 5 },
    ]
}

#[test]
fn amount_tiers_pick_greatest_qualifying() {
    let s = ThresholdStrategy::AmountBased(tiers());
    assert_eq!(required_approvals(&s, 1, 4, 50, 0), 1);
    assert_eq!(required_approvals(&s, 1, 4, 100, 0), 2);
    assert_eq!(required_approvals(&s, 1, 4, 999, 0), 2);
    assert_eq!(required_approvals(&s, 1, 4, 5000, 0), 3);
    assert_eq!(required_approvals(&s, 1, 4, 20_000, 0), 4);
    assert_eq!(select_tier(&tiers(), 5000), Some(AmountTier { amount: 1000, approvals: 3 }));
}

#[test]
fn removing_lower_tiers_keeps_requirement() {
    let full = ThresholdStrategy::AmountBased(tiers());
    let fewer = ThresholdStrategy::AmountBased(vec![AmountTier { amount: 1000, approvals: 3 }]);
    for amount in [1000i128, 5000, 9999] {
        let a = required_approvals(&full, 1, 5, amount, 0);
        let b = required_approvals(&fewer, 1, 5, amount, 0);
        assert!(b <= a);
        assert_eq!(a, b);
        assert!(1 <= b && b <= 5);
    }
}

#[test]
fn percentage_rounds_up_and_clamps() {
    assert_eq!(required_approvals(&ThresholdStrategy::Percentage(50), 1, 5, 1, 0), 3);
    assert_eq!(required_approvals(&ThresholdStrategy::Percentage(0), 1, 5, 1, 0), 1);
    assert_eq!(required_approvals(&ThresholdStrategy::Percentage(300), 1, 5, 1, 0), 5);
    assert_eq!(required_approvals(&ThresholdStrategy::Fixed, 9, 3, 1, 0), 3);
}

#[test]
fn time_based_threshold_values() {
    let tb = ThresholdStrategy::TimeBased(TimeBasedThreshold {
        initial_threshold: 3,
        reduced_threshold: 2,
        reduction_delay: 100,
    });
    assert_eq!(required_approvals(&tb, 1, 3, 1, 0), 3);
    assert_eq!(required_approvals(&tb, 1, 3, 1, 99), 3);
    assert_eq!(required_approvals(&tb, 1, 3, 1, 100), 2);
    assert_eq!(required_approvals(&tb, 1, 3, 1, 5000), 2);
}

#[test]
fn spending_caps() {
    assert!(check_spending(600, 0, 0, 1000, 1000, 5000));
    assert!(!check_spending(600, 600, 600, 1000, 1000, 5000));
    assert!(check_spending(400, 600, 600, 1000, 1000, 5000));
    assert!(!check_spending(1001, 0, 0, 1000, 5000, 5000));
    assert!(!check_spending(100, 0, 4950, 1000, 5000, 5000));
    assert!(!check_spending(1, i128::MAX, 0, 1000, i128::MAX, i128::MAX));
    assert_eq!(get_day_number(86_399), 0);
    assert_eq!(get_day_number(86_400), 1);
    assert_eq!(get_week_number(604_800 * 3 + 5), 3);
}

#[test]
fn velocity_prunes_old_entries() {
    assert_eq!(prune_history(&vec![1, 5, 10, 20], 5), vec![10, 20]);
    let mut s = Storage::new();
    let cfg = VelocityConfig { limit: 2, window: 10 };
    assert!(check_and_update_velocity(&mut s, 7, &cfg, 100));
    assert!(check_and_update_velocity(&mut s, 7, &cfg, 105));
    assert!(!check_and_update_velocity(&mut s, 7, &cfg, 109));
    assert!(check_and_update_velocity(&mut s, 8, &cfg, 109));
    assert!(check_and_update_velocity(&mut s, 7, &cfg, 110));
    assert_eq!(s.velocity_history.get(&7), Some(&vec![105, 110]));
}

#[test]
fn velocity_counts_entries_at_time_zero() {
    let mut s = Storage::new();
    let cfg = VelocityConfig { limit: 1, window: 10 };
    assert!(check_and_update_velocity(&mut s, 7, &cfg, 0));
    assert!(!check_and_update_velocity(&mut s, 7, &cfg, 0));
    assert!(!check_and_update_velocity(&mut s, 7, &cfg, 9));
    assert!(check_and_update_velocity(&mut s, 7, &cfg, 10));
    assert_eq!(s.velocity_history.get(&7), Some(&vec![10]));
}

#[test]
fn decay_moves_toward_neutral() {
    let mut rep = Reputation::default();
    rep.score = 1000;
    apply_reputation_decay(&mut rep, 10);
    assert_eq!(rep.score, 1000);
    assert_eq!(rep.last_decay_ledger, 10);
    apply_reputation_decay(&mut rep, 10 + DECAY_INTERVAL - 1);
    assert_eq!(rep.score, 1000);
    apply_reputation_decay(&mut rep, 10 + DECAY_INTERVAL);
    assert_eq!(rep.score, 974);
    apply_reputation_decay(&mut rep, 10 + DECAY_INTERVAL + 5);
    assert_eq!(rep.score, 974);
    let mut low = Reputation::default();
    low.score = 0;
    low.last_decay_ledger = 1;
    apply_reputation_decay(&mut low, 1 + 2 * DECAY_INTERVAL);
    assert_eq!(low.score, 50);
    let mut near = Reputation::default();
    near.score = 501;
    near.last_decay_ledger = 1;
    apply_reputation_decay(&mut near, 1 + 1000 * DECAY_INTERVAL);
    assert_eq!(near.score, 500);
}

#[test]
fn reputation_bonus_and_penalty_saturate() {
    let mut rep = Reputation::default();
    rep.score = 995;
    record_execution(&mut rep);
    assert_eq!(rep.score, 1000);
    assert_eq!(rep.proposals_executed, 1);
    rep.score = 5;
    record_rejection(&mut rep);
    assert_eq!(rep.score, 0);
    assert_eq!(rep.proposals_rejected, 1);
}

#[test]
fn insurance_stake_and_slash() {
    let cfg = InsuranceConfig { enabled: true, min_amount: 100, min_insurance_bps: 150, slash_percentage: 33 };
    assert_eq!(required_stake(99, &cfg), 0);
    assert_eq!(required_stake(1000, &cfg), 15);
    assert_eq!(required_stake(1001, &cfg), 16);
    let off = InsuranceConfig { enabled: false, ..cfg };
    assert_eq!(required_stake(1_000_000, &off), 0);
    assert_eq!(slash(1001, &cfg), (330, 671));
    let (s, r) = slash(i128::MAX, &cfg);
    assert_eq!(s + r, i128::MAX);
    let all = InsuranceConfig { slash_percentage: 100, ..cfg };
    assert_eq!(slash(77, &all), (77, 0));
    let none = InsuranceConfig { slash_percentage: 0, ..cfg };
    assert_eq!(slash(77, &none), (0, 77));
}

#[test]
fn recurring_matures_one_interval_per_call() {
    let mut p = RecurringPayment {
        id: 1,
        proposer: 1,
        recipient: 2,
        token: 3,
        amount: 10,
        memo: String::from("rent"),
        interval: 100,
        next_payment_ledger: 200,
        payment_count: 0,
        is_active: true,
    };
    assert!(!maybe_mature(&mut p, 199));
    assert!(maybe_mature(&mut p, 450));
    assert_eq!(p.next_payment_ledger, 300);
    assert!(maybe_mature(&mut p, 450));
    assert!(maybe_mature(&mut p, 450));
    assert_eq!(p.next_payment_ledger, 500);
    assert!(!maybe_mature(&mut p, 450));
    assert_eq!(p.payment_count, 3);
    p.is_active = false;
    assert!(!maybe_mature(&mut p, 10_000));
}

#[test]
fn priority_queue_fifo_and_removal() {
    let mut s = Storage::new();
    add_to_priority_queue(&mut s, 1, 5);
    add_to_priority_queue(&mut s, 1, 6);
    add_to_priority_queue(&mut s, 1, 7);
    add_to_priority_queue(&mut s, 3, 8);
    assert_eq!(get_priority_queue(&s, 1), vec![5, 6, 7]);
    remove_from_priority_queue(&mut s, 1, 6);
    assert_eq!(get_priority_queue(&s, 1), vec![5, 7]);
    assert_eq!(get_priority_queue(&s, 3), vec![8]);
    assert!(get_priority_queue(&s, 9).is_empty());
}

#[test]
fn defaults_and_missing_records() {
    let s = Storage::new();
    assert!(matches!(get_config(&s), Err(VaultError::NotInitialized)));
    assert!(matches!(get_bridge_config(&s), Err(VaultError::BridgeNotConfigured)));
    assert_eq!(get_role(&s, 4), Role::Member);
    let ins = get_insurance_config(&s);
    assert!(!ins.enabled);
    assert_eq!(ins.min_insurance_bps, 100);
    assert_eq!(ins.slash_percentage, 50);
    let prefs = NotificationPreferences::default();
    assert!(prefs.notify_on_proposal && prefs.notify_on_execution && !prefs.notify_on_expiry);
    assert_eq!(Reputation::default().score, 500);
    assert_eq!(ChainId::Polygon.code(), 137);
    assert_eq!(ChainId::BSC.code(), 56);
}
