use vault::storage::{
    get_daily_spent, get_priority_queue, get_proposal, get_reputation, set_insurance_config,
    add_to_blacklist, add_to_whitelist, set_list_mode, set_role, Storage,
};
use vault::types::{
    Condition, ConditionLogic, InitConfig, InsuranceConfig, LedgerInfo, ListMode, Priority,
    ProposalStatus, Role, ThresholdStrategy, TimeBasedThreshold, VaultError, VelocityConfig,
};
use vault::vault::{
    abstain_proposal, add_signer, approve_proposal, remove_signer, create_proposal, execute_proposal, expire_proposal,
    initialize, reject_proposal,
};

const A: u64 = 1;
const B: u64 = 2;
const C: u64 = 3;
const OUTSIDER: u64 = 9;
const RECIPIENT: u64 = 100;
const TOKEN: u64 = 200;

fn config(threshold: u32, daily: i128, strategy: ThresholdStrategy) -> InitConfig {
    InitConfig {
        signers: vec![A, B, C],
        threshold,
        spending_limit: 10_000,
        daily_limit: daily,
        weekly_limit: 50_000,
        timelock_threshold: 1_000_000,
        timelock_delay: 100,
        velocity_limit: VelocityConfig { limit: 100, window: 3600 },
        threshold_strategy: strategy,
    }
}

fn at(sequence: u64, timestamp: u64) -> LedgerInfo {
    LedgerInfo { sequence, timestamp }
}

fn setup(threshold: u32, daily: i128) -> Storage {
    let mut s = Storage::new();
    initialize(&mut s, A, config(threshold, daily, ThresholdStrategy::Fixed)).unwrap();
    s
}

fn propose(s: &mut Storage, amount: i128, ledger: LedgerInfo) -> Result<u64, VaultError> {
    create_proposal(
        s,
        A,
        RECIPIENT,
        TOKEN,
        amount,
        String::from("pay"),
        Priority::Normal,
        Vec::new(),
        ConditionLogic::And,
        0,
        ledger,
    )
}

#[test]
fn two_of_three_proposal_executes() {
    let mut s = setup(2, 1000);
    let id = propose(&mut s, 100, at(10, 1000)).unwrap();
    assert_eq!(get_proposal(&s, id).unwrap().status, ProposalStatus::Pending);
    assert_eq!(get_proposal(&s, id).unwrap().approvals, vec![A]);
    assert_eq!(approve_proposal(&mut s, A, id, at(11, 1001)), Err(VaultError::InvalidState));
    approve_proposal(&mut s, B, id, at(12, 1002)).unwrap();
    assert_eq!(get_proposal(&s, id).unwrap().approvals, vec![A, B]);
    assert_eq!(get_proposal(&s, id).unwrap().status, ProposalStatus::Approved);
    assert_eq!(get_proposal(&s, id).unwrap().unlock_ledger, 0);
    assert_eq!(execute_proposal(&mut s, id, at(13, 1003), 0), Ok(0));
    assert_eq!(get_proposal(&s, id).unwrap().status, ProposalStatus::Executed);
    assert_eq!(get_daily_spent(&s, 1003 / 86400), 100);
}

#[test]
fn second_proposal_over_daily_limit_fails() {
    let mut s = setup(1, 1000);
    let first = propose(&mut s, 600, at(10, 1000)).unwrap();
    let second = propose(&mut s, 600, at(10, 1000)).unwrap();
    assert_eq!(get_proposal(&s, first).unwrap().status, ProposalStatus::Approved);
    assert_eq!(get_proposal(&s, second).unwrap().status, ProposalStatus::Approved);
    assert_eq!(execute_proposal(&mut s, first, at(12, 2000), 0), Ok(0));
    assert_eq!(execute_proposal(&mut s, second, at(12, 3000), 0), Err(VaultError::LimitExceeded));
    assert_eq!(get_proposal(&s, first).unwrap().status, ProposalStatus::Executed);
    assert_eq!(get_proposal(&s, second).unwrap().status, ProposalStatus::Approved);
    assert_eq!(get_daily_spent(&s, 0), 600);
}

#[test]
fn fourth_proposal_in_window_hits_velocity_limit() {
    let mut s = Storage::new();
    let mut c = config(1, 1_000_000, ThresholdStrategy::Fixed);
    c.velocity_limit = VelocityConfig { limit: 3, window: 3600 };
    initialize(&mut s, A, c).unwrap();
    assert!(propose(&mut s, 1, at(1, 10_000)).is_ok());
    assert!(propose(&mut s, 50, at(2, 10_100)).is_ok());
    assert!(propose(&mut s, 5000, at(3, 11_000)).is_ok());
    assert_eq!(propose(&mut s, 1, at(4, 12_000)), Err(VaultError::LimitExceeded));
    assert_eq!(propose(&mut s, 9999, at(4, 12_000)), Err(VaultError::LimitExceeded));
    // Once the first slot leaves the window, a new proposal fits again.
    assert!(propose(&mut s, 1, at(5, 13_601)).is_ok());
}

#[test]
fn time_based_threshold_drops_after_delay() {
    let mut s = Storage::new();
    let tb = TimeBasedThreshold { initial_threshold: 3, reduced_threshold: 2, reduction_delay: 100 };
    initialize(&mut s, A, config(1, 1_000_000, ThresholdStrategy::TimeBased(tb))).unwrap();
    let early = propose(&mut s, 10, at(0, 0)).unwrap();
    let late = propose(&mut s, 10, at(0, 0)).unwrap();
    approve_proposal(&mut s, B, early, at(99, 99)).unwrap();
    assert_eq!(get_proposal(&s, early).unwrap().status, ProposalStatus::Pending);
    approve_proposal(&mut s, C, early, at(99, 99)).unwrap();
    assert_eq!(get_proposal(&s, early).unwrap().status, ProposalStatus::Approved);
    assert_eq!(get_proposal(&s, late).unwrap().status, ProposalStatus::Pending);
    approve_proposal(&mut s, B, late, at(100, 100)).unwrap();
    assert_eq!(get_proposal(&s, late).unwrap().status, ProposalStatus::Approved);
}

#[test]
fn terminal_proposal_refuses_every_transition() {
    let mut s = setup(1, 1000);
    let id = propose(&mut s, 100, at(10, 1000)).unwrap();
    assert_eq!(get_proposal(&s, id).unwrap().status, ProposalStatus::Approved);
    execute_proposal(&mut s, id, at(12, 1002), 0).unwrap();
    assert_eq!(execute_proposal(&mut s, id, at(13, 1003), 0), Err(VaultError::InvalidState));
    assert_eq!(approve_proposal(&mut s, C, id, at(13, 1003)), Err(VaultError::InvalidState));
    assert_eq!(abstain_proposal(&mut s, C, id, at(13, 1003)), Err(VaultError::InvalidState));
    assert_eq!(reject_proposal(&mut s, A, id, at(13, 1003)), Err(VaultError::InvalidState));
    assert_eq!(expire_proposal(&mut s, id, at(1_000_000, 1003)), Err(VaultError::InvalidState));
    let p = get_proposal(&s, id).unwrap();
    assert_eq!(p.status, ProposalStatus::Executed);
    assert_eq!(p.approvals, vec![A]);
    assert!(p.abstentions.is_empty());
}

#[test]
fn reject_slashes_stake_and_penalizes() {
    let mut s = setup(2, 1000);
    set_insurance_config(
        &mut s,
        InsuranceConfig { enabled: true, min_amount: 50, min_insurance_bps: 1000, slash_percentage: 50 },
    )
    .unwrap();
    let short = create_proposal(
        &mut s, A, RECIPIENT, TOKEN, 100, String::from("x"), Priority::High, Vec::new(),
        ConditionLogic::And, 9, at(1, 1),
    );
    assert_eq!(short, Err(VaultError::InsufficientInsurance));
    let id = create_proposal(
        &mut s, A, RECIPIENT, TOKEN, 100, String::from("x"), Priority::High, Vec::new(),
        ConditionLogic::And, 11, at(1, 1),
    )
    .unwrap();
    assert_eq!(get_proposal(&s, id).unwrap().insurance_amount, 11);
    assert_eq!(get_priority_queue(&s, 2), vec![id]);
    assert_eq!(reject_proposal(&mut s, B, id, at(2, 2)), Err(VaultError::Unauthorized));
    assert_eq!(reject_proposal(&mut s, A, id, at(2, 2)), Ok((5, 6)));
    assert_eq!(get_proposal(&s, id).unwrap().status, ProposalStatus::Rejected);
    assert!(get_priority_queue(&s, 2).is_empty());
    let rep = get_reputation(&s, A);
    assert_eq!(rep.score, 480);
    assert_eq!(rep.proposals_rejected, 1);
    assert_eq!(rep.proposals_created, 1);
}

#[test]
fn expired_proposal_refunds_whole_stake() {
    let mut s = setup(2, 1000);
    set_insurance_config(
        &mut s,
        InsuranceConfig { enabled: true, min_amount: 0, min_insurance_bps: 100, slash_percentage: 100 },
    )
    .unwrap();
    let id = create_proposal(
        &mut s, A, RECIPIENT, TOKEN, 1000, String::from("x"), Priority::Low, Vec::new(),
        ConditionLogic::And, 10, at(5, 5),
    )
    .unwrap();
    let expires = get_proposal(&s, id).unwrap().expires_at;
    assert_eq!(expires, 5 + 17_280 * 7);
    assert_eq!(expire_proposal(&mut s, id, at(expires, 6)), Err(VaultError::InvalidState));
    assert_eq!(approve_proposal(&mut s, B, id, at(expires + 1, 6)), Err(VaultError::InvalidState));
    assert_eq!(expire_proposal(&mut s, id, at(expires + 1, 6)), Ok(10));
    assert_eq!(get_proposal(&s, id).unwrap().status, ProposalStatus::Expired);
    assert_eq!(get_reputation(&s, A).score, 500);
}

#[test]
fn timelock_and_conditions_gate_execution() {
    let mut s = Storage::new();
    let mut c = config(1, 10_000_000, ThresholdStrategy::Fixed);
    c.timelock_threshold = 500;
    c.spending_limit = 10_000_000;
    c.weekly_limit = 10_000_000;
    initialize(&mut s, A, c).unwrap();
    let id = create_proposal(
        &mut s, A, RECIPIENT, TOKEN, 500, String::from("x"), Priority::Critical,
        vec![Condition::BalanceAbove(1000), Condition::DateAfter(150)], ConditionLogic::And, 0,
        at(10, 10),
    )
    .unwrap();
    assert_eq!(get_proposal(&s, id).unwrap().unlock_ledger, 110);
    assert_eq!(get_proposal(&s, id).unwrap().status, ProposalStatus::Approved);
    assert_eq!(execute_proposal(&mut s, id, at(109, 12), 5000), Err(VaultError::TimelockNotElapsed));
    assert_eq!(execute_proposal(&mut s, id, at(120, 12), 5000), Err(VaultError::ConditionsNotMet));
    assert_eq!(execute_proposal(&mut s, id, at(151, 12), 1000), Err(VaultError::ConditionsNotMet));
    assert_eq!(execute_proposal(&mut s, id, at(151, 12), 1001), Ok(0));
    let rep = get_reputation(&s, A);
    assert_eq!(rep.score, 510);
    assert_eq!(rep.proposals_executed, 1);
}

#[test]
fn or_conditions_need_one() {
    let mut s = setup(1, 1000);
    let id = create_proposal(
        &mut s, A, RECIPIENT, TOKEN, 10, String::from("x"), Priority::Normal,
        vec![Condition::BalanceAbove(1000), Condition::DateBefore(50)], ConditionLogic::Or, 0,
        at(10, 10),
    )
    .unwrap();
    assert_eq!(execute_proposal(&mut s, id, at(60, 12), 10), Err(VaultError::ConditionsNotMet));
    assert_eq!(execute_proposal(&mut s, id, at(40, 12), 10), Ok(0));
}

#[test]
fn errors_for_each_refusal() {
    let mut s = Storage::new();
    assert_eq!(propose(&mut s, 10, at(1, 1)), Err(VaultError::NotInitialized));
    assert_eq!(
        initialize(&mut s, A, config(4, 1000, ThresholdStrategy::Fixed)),
        Err(VaultError::InvalidThreshold)
    );
    let mut dup = config(1, 1000, ThresholdStrategy::Fixed);
    dup.signers = vec![A, A];
    assert_eq!(initialize(&mut s, A, dup), Err(VaultError::InvalidThreshold));
    assert_eq!(
        initialize(&mut s, A, config(1, -1, ThresholdStrategy::Fixed)),
        Err(VaultError::InvalidAmount)
    );
    initialize(&mut s, A, config(2, 1000, ThresholdStrategy::Fixed)).unwrap();
    assert_eq!(
        initialize(&mut s, A, config(2, 1000, ThresholdStrategy::Fixed)),
        Err(VaultError::AlreadyInitialized)
    );
    assert_eq!(propose(&mut s, 0, at(1, 1)), Err(VaultError::InvalidAmount));
    let by_member = create_proposal(
        &mut s, B, RECIPIENT, TOKEN, 10, String::from("x"), Priority::Low, Vec::new(),
        ConditionLogic::And, 0, at(1, 1),
    );
    assert_eq!(by_member, Err(VaultError::Unauthorized));
    set_role(&mut s, B, Role::Treasurer);
    let by_treasurer = create_proposal(
        &mut s, B, RECIPIENT, TOKEN, 10, String::from("x"), Priority::Low, Vec::new(),
        ConditionLogic::And, 0, at(1, 1),
    );
    assert!(by_treasurer.is_ok());
    assert_eq!(approve_proposal(&mut s, B, 77, at(1, 1)), Err(VaultError::ProposalNotFound));
    let id = propose(&mut s, 10, at(1, 1)).unwrap();
    assert_eq!(approve_proposal(&mut s, OUTSIDER, id, at(1, 1)), Err(VaultError::Unauthorized));
    abstain_proposal(&mut s, C, id, at(1, 1)).unwrap();
    assert_eq!(approve_proposal(&mut s, C, id, at(1, 1)), Err(VaultError::InvalidState));
    assert_eq!(execute_proposal(&mut s, id, at(1, 1), 0), Err(VaultError::InvalidState));
    set_list_mode(&mut s, ListMode::Blacklist);
    add_to_blacklist(&mut s, RECIPIENT);
    assert_eq!(propose(&mut s, 10, at(1, 1)), Err(VaultError::RecipientBlocked));
    set_list_mode(&mut s, ListMode::Whitelist);
    assert_eq!(propose(&mut s, 10, at(1, 1)), Err(VaultError::RecipientBlocked));
    add_to_whitelist(&mut s, RECIPIENT);
    assert!(propose(&mut s, 10, at(1, 1)).is_ok());
}

#[test]
fn threshold_revalidated_at_execution() {
    let mut s = Storage::new();
    initialize(&mut s, A, config(1, 1000, ThresholdStrategy::Percentage(50))).unwrap();
    let id = propose(&mut s, 10, at(1, 1)).unwrap();
    assert_eq!(get_proposal(&s, id).unwrap().status, ProposalStatus::Pending);
    approve_proposal(&mut s, B, id, at(2, 2)).unwrap();
    assert_eq!(get_proposal(&s, id).unwrap().status, ProposalStatus::Approved);
    // Two more signers: ceil(5 * 50 / 100) = 3 approvals are now required.
    add_signer(&mut s, A, 4).unwrap();
    add_signer(&mut s, A, 5).unwrap();
    assert_eq!(execute_proposal(&mut s, id, at(3, 3), 0), Err(VaultError::InvalidState));
    remove_signer(&mut s, A, 5).unwrap();
    assert_eq!(execute_proposal(&mut s, id, at(3, 3), 0), Ok(0));
}

#[test]
fn signer_set_changes_are_guarded() {
    let mut s = setup(2, 1000);
    assert_eq!(add_signer(&mut s, B, 4), Err(VaultError::Unauthorized));
    assert_eq!(add_signer(&mut s, A, C), Err(VaultError::InvalidState));
    assert_eq!(remove_signer(&mut s, A, OUTSIDER), Err(VaultError::InvalidState));
    remove_signer(&mut s, A, C).unwrap();
    assert_eq!(s.config.as_ref().unwrap().signers, vec![A, B]);
    assert_eq!(remove_signer(&mut s, A, B), Err(VaultError::InvalidThreshold));
}

#[test]
fn non_signer_proposer_is_no_approver() {
    let mut s = setup(1, 1000);
    set_role(&mut s, OUTSIDER, Role::Treasurer);
    let id = create_proposal(
        &mut s, OUTSIDER, RECIPIENT, TOKEN, 10, String::from("x"), Priority::Low, Vec::new(),
        ConditionLogic::And, 0, at(1, 1),
    )
    .unwrap();
    let p = get_proposal(&s, id).unwrap();
    assert!(p.approvals.is_empty());
    assert_eq!(p.status, ProposalStatus::Pending);
    approve_proposal(&mut s, C, id, at(2, 2)).unwrap();
    assert_eq!(get_proposal(&s, id).unwrap().status, ProposalStatus::Approved);
}
