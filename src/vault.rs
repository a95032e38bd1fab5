//! Proposal lifecycle: create, approve, abstain, execute, reject, expire.
//!
//! Every operation checks everything before it changes anything: a call that
//! returns an error leaves the store as it was.

use vstd::prelude::*;
use crate::insurance::{required_stake, required_stake_spec, slash, slashed_spec, stake_in_range};
use crate::policy::{check_recipient, conditions_met, evaluate_conditions, recipient_allowed};
use crate::reputation::{
    apply_reputation_decay, bonus_spec, bump, bump_counter, decayed, penalty_spec,
    record_execution, record_rejection,
};
use crate::spending::{check_and_reserve, history_of, spending_allowed, velocity_step};
use crate::storage::{
    add_to_priority_queue, bucket, check_and_update_velocity, get_insurance_config, get_reputation,
    get_role, remove_from_priority_queue, reputation_of, role_of, set_proposal, set_reputation,
    set_role, restore_proposal, take_proposal, without_id, Storage, PROPOSAL_TTL, SECONDS_PER_DAY, SECONDS_PER_WEEK,
};
use crate::threshold::{required_approvals, required_spec};
use crate::types::{
    Address, Condition, ConditionLogic, Config, InitConfig, LedgerInfo, Priority, Proposal,
    ProposalStatus, Reputation, Role, Symbol, VaultError,
};

verus! {

broadcast use vstd::std_specs::hash::group_hash_axioms;

/// `a + b`, saturating at `u64::MAX`.
pub open spec fn sat_add(a: u64, b: u64) -> u64 {
    if a + b > u64::MAX {
        u64::MAX
    } else {
        (a + b) as u64
    }
}

fn saturating_add(a: u64, b: u64) -> (r: u64)
    ensures
        r == sat_add(a, b),
{
    if a > u64::MAX - b {
        u64::MAX
    } else {
        a + b
    }
}

/// Whether `v` holds `a`.
pub fn contains_address(v: &Vec<Address>, a: Address) -> (r: bool)
    ensures
        r == v@.contains(a),
{
    let mut i: usize = 0;
    while i < v.len()
        invariant
            i <= v@.len(),
            forall|j: int| 0 <= j < i ==> v@[j] != a,
        decreases v@.len() - i,
    {
        if v[i] == a {
            assert(v@[i as int] == a);
            return true;
        }
        i = i + 1;
    }
    false
}

/// Whether no address occurs twice in `v`.
pub fn all_distinct(v: &Vec<Address>) -> (r: bool)
    ensures
        r == v@.no_duplicates(),
{
    let mut i: usize = 0;
    while i < v.len()
        invariant
            i <= v@.len(),
            forall|a: int, b: int| 0 <= a < b < i ==> v@[a] != v@[b],
        decreases v@.len() - i,
    {
        let mut j: usize = 0;
        while j < i
            invariant
                i < v@.len(),
                j <= i,
                forall|a: int| 0 <= a < j ==> v@[a] != v@[i as int],
            decreases i - j,
        {
            if v[j] == v[i] {
                return false;
            }
            j = j + 1;
        }
        i = i + 1;
    }
    true
}

// ----------------------------------------------------------------------------
// Initialization
// ----------------------------------------------------------------------------

/// The error `initialize` returns, if any.
pub open spec fn init_error(store: Storage, config: InitConfig) -> Option<VaultError> {
    if store.initialized {
        Some(VaultError::AlreadyInitialized)
    } else if config.signers@.len() > u32::MAX || !config.signers@.no_duplicates()
        || config.threshold < 1 || config.threshold > config.signers@.len() {
        Some(VaultError::InvalidThreshold)
    } else if config.spending_limit < 0 || config.daily_limit < 0 || config.weekly_limit < 0 {
        Some(VaultError::InvalidAmount)
    } else {
        None
    }
}

/// Sets up the vault with `config` and makes `admin` its administrator.
/// Refused when already set up, when the signers are not distinct or the
/// threshold is not within [1, signer count], or when a cap is negative.
pub fn initialize(store: &mut Storage, admin: Address, config: InitConfig) -> (r: Result<
    (),
    VaultError,
>)
    requires
        old(store).wf(),
    ensures
        final(store).wf(),
        init_error(*old(store), config) matches Some(e) ==> r == Err::<(), VaultError>(e)
            && *final(store) == *old(store),
        init_error(*old(store), config) is None ==> r is Ok && final(store).initialized
            && final(store).roles@ == old(store).roles@.insert(admin, Role::Admin) && (
        final(store).config matches Some(c) && c.signers@ == config.signers@ && c.threshold
            == config.threshold && c.spending_limit == config.spending_limit && c.daily_limit
            == config.daily_limit && c.weekly_limit == config.weekly_limit
            && c.timelock_threshold == config.timelock_threshold && c.timelock_delay
            == config.timelock_delay && c.velocity_limit == config.velocity_limit
            && c.threshold_strategy == config.threshold_strategy) && *final(store) == (Storage {
            initialized: true,
            config: final(store).config,
            roles: final(store).roles,
            ..*old(store)
        }),
{
    if store.initialized {
        return Err(VaultError::AlreadyInitialized);
    }
    if config.signers.len() > u32::MAX as usize || !all_distinct(&config.signers)
        || config.threshold < 1 || config.threshold as usize > config.signers.len() {
        return Err(VaultError::InvalidThreshold);
    }
    if config.spending_limit < 0 || config.daily_limit < 0 || config.weekly_limit < 0 {
        return Err(VaultError::InvalidAmount);
    }
    let c = Config {
        signers: config.signers,
        threshold: config.threshold,
        spending_limit: config.spending_limit,
        daily_limit: config.daily_limit,
        weekly_limit: config.weekly_limit,
        timelock_threshold: config.timelock_threshold,
        timelock_delay: config.timelock_delay,
        velocity_limit: config.velocity_limit,
        threshold_strategy: config.threshold_strategy,
    };
    store.config = Some(c);
    store.initialized = true;
    set_role(store, admin, Role::Admin);
    Ok(())
}

// ----------------------------------------------------------------------------
// Shared helpers
// ----------------------------------------------------------------------------

/// Proposals whose status is terminal keep their status, approvers and
/// abstainers from `before` to `after`.
pub open spec fn terminal_frozen(before: Storage, after: Storage) -> bool {
    forall|k: u64| #[trigger]
        before.proposals@.contains_key(k) && before.proposals@[k].status.is_terminal()
            ==> after.proposals@.contains_key(k) && after.proposals@[k].status
            == before.proposals@[k].status && after.proposals@[k].approvals@
            == before.proposals@[k].approvals@ && after.proposals@[k].abstentions@
            == before.proposals@[k].abstentions@
}

/// Proposal records other than `id` are untouched.
pub open spec fn others_unchanged(before: Storage, after: Storage, id: u64) -> bool {
    after.proposals@.remove(id) == before.proposals@.remove(id)
}

proof fn lemma_push_distinct(s: Seq<Address>, a: Address)
    requires
        s.no_duplicates(),
        !s.contains(a),
    ensures
        s.push(a).no_duplicates(),
{
    assert forall|i: int, j: int| 0 <= i < j < s.len() + 1 implies s.push(a)[i] != s.push(a)[j] by {
        if j == s.len() {
            assert(s.contains(s[i]));
        }
    }
}

/// Whether `role` may create proposals.
pub open spec fn can_propose(role: Role) -> bool {
    role == Role::Treasurer || role == Role::Admin
}

/// Ledgers elapsed from `created` to `now` (0 if `now` is earlier).
pub open spec fn elapsed_since(created: u64, now: u64) -> int {
    if now >= created {
        now - created
    } else {
        0
    }
}

/// Approvals currently required for `p` under `c` at ledger `now`.
pub open spec fn required_now(c: Config, p: Proposal, now: u64) -> int {
    required_spec(
        c.threshold_strategy,
        c.threshold as int,
        c.signers@.len() as int,
        p.amount as int,
        elapsed_since(p.created_at, now),
    )
}

fn current_requirement(c: &Config, p: &Proposal, now: u64) -> (r: u32)
    requires
        c.wf(),
    ensures
        r == required_now(*c, *p, now),
        1 <= r <= c.signers@.len(),
{
    let elapsed: u64 = if now >= p.created_at {
        now - p.created_at
    } else {
        0
    };
    required_approvals(
        &c.threshold_strategy,
        c.threshold,
        c.signers.len() as u32,
        p.amount,
        elapsed,
    )
}

/// The record of `addr` with decay applied at `sequence`, not yet stored.
fn touched_reputation(store: &Storage, addr: Address, sequence: u64) -> (r: Reputation)
    requires
        store.wf(),
    ensures
        r == decayed(reputation_of(store.reputation@, addr), sequence),
        r.wf(),
{
    let mut rep = get_reputation(store, addr);
    apply_reputation_decay(&mut rep, sequence);
    rep
}

// ----------------------------------------------------------------------------
// Create
// ----------------------------------------------------------------------------

/// The error `create_proposal` returns, if any.
pub open spec fn create_error(
    store: Storage,
    proposer: Address,
    recipient: Address,
    amount: i128,
    insurance_amount: i128,
    ledger: LedgerInfo,
) -> Option<VaultError> {
    let ins = store.insurance_spec();
    if !store.initialized {
        Some(VaultError::NotInitialized)
    } else if !can_propose(role_of(store.roles@, proposer)) {
        Some(VaultError::Unauthorized)
    } else if amount <= 0 || insurance_amount < 0 || !stake_in_range(amount as int, ins) {
        Some(VaultError::InvalidAmount)
    } else if !recipient_allowed(store.list_mode, store.whitelist@, store.blacklist@, recipient) {
        Some(VaultError::RecipientBlocked)
    } else if insurance_amount < required_stake_spec(amount as int, ins) {
        Some(VaultError::InsufficientInsurance)
    } else if store.next_proposal_id == u64::MAX || velocity_step(
        history_of(store.velocity_history@, proposer),
        ledger.timestamp,
        store.config->0.velocity_limit,
    ) is None {
        Some(VaultError::LimitExceeded)
    } else {
        None
    }
}

/// Stake escrowed on a new proposal: what was supplied when a stake is
/// required, none otherwise.
pub open spec fn escrowed_stake(store: Storage, amount: i128, insurance_amount: i128) -> i128 {
    if required_stake_spec(amount as int, store.insurance_spec()) > 0 {
        insurance_amount
    } else {
        0
    }
}

/// Unlock ledger of a new proposal: creation plus the timelock delay when the
/// amount reaches the timelock threshold, 0 otherwise.
pub open spec fn unlock_for(c: Config, amount: i128, sequence: u64) -> u64 {
    if amount >= c.timelock_threshold {
        sat_add(sequence, c.timelock_delay)
    } else {
        0
    }
}

/// Creates a transfer proposal of `amount` from the vault to `recipient` and
/// returns its id. The proposer must be a treasurer or admin, the amount
/// positive, the recipient admitted by the list policy, the supplied stake at
/// least the required one, and the proposer within the velocity limit, whose
/// slot is taken here. A proposer who is a current signer counts as its
/// first approver; when that one approval already meets the requirement the
/// proposal starts `Approved`.
pub fn create_proposal(
    store: &mut Storage,
    proposer: Address,
    recipient: Address,
    token: Address,
    amount: i128,
    memo: Symbol,
    priority: Priority,
    conditions: Vec<Condition>,
    condition_logic: ConditionLogic,
    insurance_amount: i128,
    ledger: LedgerInfo,
) -> (r: Result<u64, VaultError>)
    requires
        old(store).wf(),
    ensures
        final(store).wf(),
        terminal_frozen(*old(store), *final(store)),
        create_error(*old(store), proposer, recipient, amount, insurance_amount, ledger) matches Some(
            e,
        ) ==> r == Err::<u64, VaultError>(e) && *final(store) == *old(store),
        create_error(*old(store), proposer, recipient, amount, insurance_amount, ledger) is None
            ==> ({
            let id = old(store).next_proposal_id;
            let c = old(store).config->0;
            let p = final(store).proposals@[id];
            &&& r == Ok::<u64, VaultError>(id)
            &&& final(store).next_proposal_id == id + 1
            &&& !old(store).proposals@.contains_key(id)
            &&& final(store).proposals@ == old(store).proposals@.insert(id, p)
            &&& p.id == id && p.proposer == proposer && p.recipient == recipient && p.token
                == token && p.amount == amount && p.memo == memo && p.priority == priority
            &&& p.conditions@ == conditions@ && p.condition_logic == condition_logic
            &&& p.approvals@ == (if c.signers@.contains(proposer) {
                seq![proposer]
            } else {
                Seq::<Address>::empty()
            })
            &&& p.abstentions@.len() == 0 && p.attachments@.len() == 0
            &&& p.status == (if c.signers@.contains(proposer) && required_now(
                c,
                p,
                ledger.sequence,
            ) <= 1 {
                ProposalStatus::Approved
            } else {
                ProposalStatus::Pending
            })
            &&& p.created_at == ledger.sequence
            &&& p.expires_at == sat_add(ledger.sequence, PROPOSAL_TTL as u64)
            &&& p.unlock_ledger == unlock_for(c, amount, ledger.sequence)
            &&& p.insurance_amount == escrowed_stake(*old(store), amount, insurance_amount)
            &&& final(store).priority_queues@ == old(store).priority_queues@.update(
                priority.rank() as int,
                final(store).priority_queues@[priority.rank() as int],
            )
            &&& final(store).priority_queues@[priority.rank() as int]@ == old(
                store,
            ).priority_queues@[priority.rank() as int]@.push(id)
            &&& final(store).velocity_history@ == old(store).velocity_history@.insert(
                proposer,
                final(store).velocity_history@[proposer],
            )
            &&& final(store).velocity_history@[proposer]@ == velocity_step(
                history_of(old(store).velocity_history@, proposer),
                ledger.timestamp,
                c.velocity_limit,
            )->0
            &&& final(store).reputation@ == old(store).reputation@.insert(
                proposer,
                Reputation {
                    proposals_created: bump(
                        decayed(
                            reputation_of(old(store).reputation@, proposer),
                            ledger.sequence,
                        ).proposals_created,
                    ),
                    ..decayed(reputation_of(old(store).reputation@, proposer), ledger.sequence)
                },
            )
            &&& *final(store) == (Storage {
                proposals: final(store).proposals,
                next_proposal_id: final(store).next_proposal_id,
                priority_queues: final(store).priority_queues,
                velocity_history: final(store).velocity_history,
                reputation: final(store).reputation,
                ..*old(store)
            })
        }),
{
    if !store.initialized {
        return Err(VaultError::NotInitialized);
    }
    let role = get_role(store, proposer);
    if role != Role::Treasurer && role != Role::Admin {
        return Err(VaultError::Unauthorized);
    }
    let ins = get_insurance_config(store);
    if amount <= 0 || insurance_amount < 0 {
        return Err(VaultError::InvalidAmount);
    }
    let bps: i128 = ins.min_insurance_bps as i128;
    match amount.checked_mul(bps) {
        Some(prod) => {
            if prod > i128::MAX - 9999 {
                return Err(VaultError::InvalidAmount);
            }
        },
        None => {
            return Err(VaultError::InvalidAmount);
        },
    }
    match check_recipient(store, recipient) {
        Ok(()) => {},
        Err(e) => {
            return Err(e);
        },
    }
    let required = required_stake(amount, &ins);
    if insurance_amount < required {
        return Err(VaultError::InsufficientInsurance);
    }
    if store.next_proposal_id == u64::MAX {
        return Err(VaultError::LimitExceeded);
    }
    let (velocity, timelock_threshold, timelock_delay, is_signer, required_approvals_now) = match &store.config {
        Some(c) => (
            c.velocity_limit,
            c.timelock_threshold,
            c.timelock_delay,
            contains_address(&c.signers, proposer),
            required_approvals(
                &c.threshold_strategy,
                c.threshold,
                c.signers.len() as u32,
                amount,
                0,
            ),
        ),
        None => {
            return Err(VaultError::NotInitialized);
        },
    };
    if !check_and_update_velocity(store, proposer, &velocity, ledger.timestamp) {
        return Err(VaultError::LimitExceeded);
    }
    let id = store.next_proposal_id;
    store.next_proposal_id = id + 1;
    let unlock_ledger = if amount >= timelock_threshold {
        saturating_add(ledger.sequence, timelock_delay)
    } else {
        0
    };
    let mut approvals: Vec<Address> = Vec::new();
    if is_signer {
        approvals.push(proposer);
    }
    let status = if is_signer && required_approvals_now <= 1 {
        ProposalStatus::Approved
    } else {
        ProposalStatus::Pending
    };
    let proposal = Proposal {
        id,
        proposer,
        recipient,
        token,
        amount,
        memo,
        approvals,
        abstentions: Vec::new(),
        attachments: Vec::new(),
        status,
        priority,
        conditions,
        condition_logic,
        created_at: ledger.sequence,
        expires_at: saturating_add(ledger.sequence, PROPOSAL_TTL as u64),
        unlock_ledger,
        insurance_amount: if required > 0 {
            insurance_amount
        } else {
            0
        },
    };
    set_proposal(store, proposal);
    add_to_priority_queue(store, priority.level(), id);
    let mut rep = touched_reputation(store, proposer, ledger.sequence);
    rep.proposals_created = bump_counter(rep.proposals_created);
    set_reputation(store, proposer, rep);
    Ok(id)
}

} // verus!

verus! {

// ----------------------------------------------------------------------------
// Approve and abstain
// ----------------------------------------------------------------------------

/// The error `approve_proposal` and `abstain_proposal` return, if any.
pub open spec fn vote_error(store: Storage, signer: Address, id: u64, ledger: LedgerInfo) -> Option<
    VaultError,
> {
    if !store.initialized {
        Some(VaultError::NotInitialized)
    } else if !store.proposals@.contains_key(id) {
        Some(VaultError::ProposalNotFound)
    } else if !store.config->0.signers@.contains(signer) {
        Some(VaultError::Unauthorized)
    } else if store.proposals@[id].status != ProposalStatus::Pending || ledger.sequence
        > store.proposals@[id].expires_at || store.proposals@[id].approvals@.contains(signer)
        || store.proposals@[id].abstentions@.contains(signer) {
        Some(VaultError::InvalidState)
    } else {
        None
    }
}

/// The voter's record after a vote: decayed, one more approval given.
pub open spec fn after_vote(store: Storage, signer: Address, sequence: u64) -> Reputation {
    let d = decayed(reputation_of(store.reputation@, signer), sequence);
    Reputation { approvals_given: bump(d.approvals_given), ..d }
}

/// Records `signer`'s approval of proposal `id`. The signer must be a current
/// signer that has neither approved nor abstained, and the proposal pending
/// and not past its expiry. Once the approvals reach the requirement
/// recomputed now, the proposal becomes `Approved`. An open proposal past its
/// expiry is refused with `InvalidState` and left as it is, since a failed
/// call changes nothing; `expire_proposal` records the expiry.
pub fn approve_proposal(store: &mut Storage, signer: Address, id: u64, ledger: LedgerInfo) -> (r:
    Result<(), VaultError>)
    requires
        old(store).wf(),
    ensures
        final(store).wf(),
        terminal_frozen(*old(store), *final(store)),
        vote_error(*old(store), signer, id, ledger) matches Some(e) ==> r == Err::<(), VaultError>(
            e,
        ) && *final(store) == *old(store),
        vote_error(*old(store), signer, id, ledger) is None ==> ({
            let old_p = old(store).proposals@[id];
            let p = final(store).proposals@[id];
            let c = old(store).config->0;
            &&& r is Ok
            &&& final(store).proposals@ == old(store).proposals@.insert(id, p)
            &&& p.approvals@ == old_p.approvals@.push(signer)
            &&& p.status == (if p.approvals@.len() >= required_now(c, old_p, ledger.sequence) {
                ProposalStatus::Approved
            } else {
                ProposalStatus::Pending
            })
            &&& p == (Proposal { approvals: p.approvals, status: p.status, ..old_p })
            &&& final(store).reputation@ == old(store).reputation@.insert(
                signer,
                after_vote(*old(store), signer, ledger.sequence),
            )
            &&& *final(store) == (Storage {
                proposals: final(store).proposals,
                reputation: final(store).reputation,
                ..*old(store)
            })
        }),
{
    let required = match &store.config {
        None => {
            return Err(VaultError::NotInitialized);
        },
        Some(c) => {
            let p = match store.proposals.get(&id) {
                None => {
                    return Err(VaultError::ProposalNotFound);
                },
                Some(p) => p,
            };
            if !contains_address(&c.signers, signer) {
                return Err(VaultError::Unauthorized);
            }
            if p.status != ProposalStatus::Pending || ledger.sequence > p.expires_at
                || contains_address(&p.approvals, signer) || contains_address(
                &p.abstentions,
                signer,
            ) {
                return Err(VaultError::InvalidState);
            }
            current_requirement(c, p, ledger.sequence)
        },
    };
    let mut p = take_proposal(store, id);
    let ghost prev = p;
    proof {
        lemma_push_distinct(p.approvals@, signer);
    }
    p.approvals.push(signer);
    proof {
        assert forall|a: Address| #[trigger] p.approvals@.contains(a) implies !p.abstentions@.contains(
            a,
        ) by {
            let q = old(store).proposals@[id];
            assert(q.wf());
            if a != signer {
                let k = choose|k: int| 0 <= k < p.approvals@.len() && p.approvals@[k] == a;
                assert(k < q.approvals@.len());
                assert(q.approvals@[k] == a);
                assert(q.approvals@.contains(a));
            }
        }
    }
    if p.approvals.len() >= required as usize {
        p.status = ProposalStatus::Approved;
    }
    restore_proposal(store, Ghost(prev), p);
    let mut rep = touched_reputation(store, signer, ledger.sequence);
    rep.approvals_given = bump_counter(rep.approvals_given);
    set_reputation(store, signer, rep);
    proof {
        assert(store.proposals@ =~= old(store).proposals@.insert(id, store.proposals@[id]));
    }
    Ok(())
}

/// Records `signer`'s abstention on proposal `id`, under the same conditions
/// as an approval. An abstention never counts toward the threshold.
pub fn abstain_proposal(store: &mut Storage, signer: Address, id: u64, ledger: LedgerInfo) -> (r:
    Result<(), VaultError>)
    requires
        old(store).wf(),
    ensures
        final(store).wf(),
        terminal_frozen(*old(store), *final(store)),
        vote_error(*old(store), signer, id, ledger) matches Some(e) ==> r == Err::<(), VaultError>(
            e,
        ) && *final(store) == *old(store),
        vote_error(*old(store), signer, id, ledger) is None ==> ({
            let old_p = old(store).proposals@[id];
            let p = final(store).proposals@[id];
            &&& r is Ok
            &&& final(store).proposals@ == old(store).proposals@.insert(id, p)
            &&& p.abstentions@ == old_p.abstentions@.push(signer)
            &&& p == (Proposal { abstentions: p.abstentions, ..old_p })
            &&& *final(store) == (Storage { proposals: final(store).proposals, ..*old(store) })
        }),
{
    match &store.config {
        None => {
            return Err(VaultError::NotInitialized);
        },
        Some(c) => {
            let p = match store.proposals.get(&id) {
                None => {
                    return Err(VaultError::ProposalNotFound);
                },
                Some(p) => p,
            };
            if !contains_address(&c.signers, signer) {
                return Err(VaultError::Unauthorized);
            }
            if p.status != ProposalStatus::Pending || ledger.sequence > p.expires_at
                || contains_address(&p.approvals, signer) || contains_address(
                &p.abstentions,
                signer,
            ) {
                return Err(VaultError::InvalidState);
            }
        },
    }
    let mut p = take_proposal(store, id);
    let ghost prev = p;
    proof {
        lemma_push_distinct(p.abstentions@, signer);
    }
    p.abstentions.push(signer);
    proof {
        assert forall|a: Address| #[trigger] p.approvals@.contains(a) implies !p.abstentions@.contains(
            a,
        ) by {
            if p.abstentions@.contains(a) && a != signer {
                let k = choose|k: int| 0 <= k < p.abstentions@.len() && p.abstentions@[k] == a;
                assert(old(store).proposals@[id].abstentions@[k] == a);
            }
        }
    }
    restore_proposal(store, Ghost(prev), p);
    proof {
        assert(store.proposals@ =~= old(store).proposals@.insert(id, store.proposals@[id]));
    }
    Ok(())
}

} // verus!

verus! {

// ----------------------------------------------------------------------------
// Execute
// ----------------------------------------------------------------------------

/// Whether `status` is still open (neither executed, rejected nor expired).
pub open spec fn is_open(status: ProposalStatus) -> bool {
    status == ProposalStatus::Pending || status == ProposalStatus::Approved
}

/// The error `execute_proposal` returns, if any.
pub open spec fn execute_error(store: Storage, id: u64, ledger: LedgerInfo, balance: i128) -> Option<
    VaultError,
> {
    let c = store.config->0;
    let p = store.proposals@[id];
    if !store.initialized {
        Some(VaultError::NotInitialized)
    } else if !store.proposals@.contains_key(id) {
        Some(VaultError::ProposalNotFound)
    } else if p.status != ProposalStatus::Approved || ledger.sequence > p.expires_at
        || p.approvals@.len() < required_now(c, p, ledger.sequence) {
        Some(VaultError::InvalidState)
    } else if ledger.sequence < p.unlock_ledger {
        Some(VaultError::TimelockNotElapsed)
    } else if !conditions_met(
        p.conditions@,
        p.condition_logic,
        balance as int,
        ledger.sequence as int,
    ) {
        Some(VaultError::ConditionsNotMet)
    } else if !spending_allowed(
        p.amount as int,
        bucket(store.daily_spent@, (ledger.timestamp / SECONDS_PER_DAY) as u64),
        bucket(store.weekly_spent@, (ledger.timestamp / SECONDS_PER_WEEK) as u64),
        c.spending_limit as int,
        c.daily_limit as int,
        c.weekly_limit as int,
    ) {
        Some(VaultError::LimitExceeded)
    } else {
        None
    }
}

/// The record of `addr` after decay at `sequence` and `change`.
pub open spec fn after_outcome(store: Storage, addr: Address, sequence: u64, executed: bool) -> Reputation {
    let d = decayed(reputation_of(store.reputation@, addr), sequence);
    if executed {
        Reputation {
            score: bonus_spec(d.score as int) as u32,
            proposals_executed: bump(d.proposals_executed),
            ..d
        }
    } else {
        Reputation {
            score: penalty_spec(d.score as int) as u32,
            proposals_rejected: bump(d.proposals_rejected),
            ..d
        }
    }
}

/// The queues after `id` leaves the queue of its priority.
pub open spec fn dequeued(before: Storage, after: Storage, p: Proposal) -> bool {
    &&& after.priority_queues@ == before.priority_queues@.update(
        p.priority.rank() as int,
        after.priority_queues@[p.priority.rank() as int],
    )
    &&& after.priority_queues@[p.priority.rank() as int]@ == without_id(
        before.priority_queues@[p.priority.rank() as int]@,
        p.id,
    )
}

/// Executes approved proposal `id` at `ledger`, with the vault holding
/// `balance` of the token. The approvals are re-validated against the
/// requirement computed now; the timelock must have elapsed, the conditions
/// hold, and the amount fit the per-proposal, daily and weekly caps, which it
/// is then charged to. Returns the insurance stake released to the proposer.
/// A proposal past its expiry is refused with `InvalidState` and left open;
/// `expire_proposal` records the expiry.
pub fn execute_proposal(store: &mut Storage, id: u64, ledger: LedgerInfo, balance: i128) -> (r:
    Result<i128, VaultError>)
    requires
        old(store).wf(),
    ensures
        final(store).wf(),
        terminal_frozen(*old(store), *final(store)),
        execute_error(*old(store), id, ledger, balance) matches Some(e) ==> r == Err::<
            i128,
            VaultError,
        >(e) && *final(store) == *old(store),
        execute_error(*old(store), id, ledger, balance) is None ==> ({
            let old_p = old(store).proposals@[id];
            let day = (ledger.timestamp / SECONDS_PER_DAY) as u64;
            let week = (ledger.timestamp / SECONDS_PER_WEEK) as u64;
            &&& r == Ok::<i128, VaultError>(old_p.insurance_amount)
            &&& final(store).proposals@ == old(store).proposals@.insert(
                id,
                final(store).proposals@[id],
            )
            &&& final(store).proposals@[id] == (Proposal {
                status: ProposalStatus::Executed,
                insurance_amount: 0,
                ..old_p
            })
            &&& final(store).daily_spent@ == old(store).daily_spent@.insert(
                day,
                (bucket(old(store).daily_spent@, day) + old_p.amount) as i128,
            )
            &&& final(store).weekly_spent@ == old(store).weekly_spent@.insert(
                week,
                (bucket(old(store).weekly_spent@, week) + old_p.amount) as i128,
            )
            &&& dequeued(*old(store), *final(store), old_p)
            &&& final(store).reputation@ == old(store).reputation@.insert(
                old_p.proposer,
                after_outcome(*old(store), old_p.proposer, ledger.sequence, true),
            )
            &&& *final(store) == (Storage {
                proposals: final(store).proposals,
                daily_spent: final(store).daily_spent,
                weekly_spent: final(store).weekly_spent,
                priority_queues: final(store).priority_queues,
                reputation: final(store).reputation,
                ..*old(store)
            })
        }),
{
    if !store.initialized {
        return Err(VaultError::NotInitialized);
    }
    let (amount, priority, proposer) = match store.proposals.get(&id) {
        None => {
            return Err(VaultError::ProposalNotFound);
        },
        Some(p) => {
            let required = match &store.config {
                Some(c) => current_requirement(c, p, ledger.sequence),
                None => {
                    return Err(VaultError::NotInitialized);
                },
            };
            if p.status != ProposalStatus::Approved || ledger.sequence > p.expires_at
                || p.approvals.len() < required as usize {
                return Err(VaultError::InvalidState);
            }
            if ledger.sequence < p.unlock_ledger {
                return Err(VaultError::TimelockNotElapsed);
            }
            if !evaluate_conditions(&p.conditions, p.condition_logic, balance, ledger.sequence) {
                return Err(VaultError::ConditionsNotMet);
            }
            (p.amount, p.priority, p.proposer)
        },
    };
    let reserved = match &store.config {
        Some(c) => {
            let (spending_limit, daily_limit, weekly_limit) = (
                c.spending_limit,
                c.daily_limit,
                c.weekly_limit,
            );
            check_and_reserve(store, spending_limit, daily_limit, weekly_limit, amount, ledger.timestamp)
        },
        None => Err(VaultError::NotInitialized),
    };
    match reserved {
        Ok(()) => {},
        Err(e) => {
            return Err(e);
        },
    }
    let mut p = take_proposal(store, id);
    let ghost prev = p;
    let stake = p.insurance_amount;
    p.status = ProposalStatus::Executed;
    p.insurance_amount = 0;
    restore_proposal(store, Ghost(prev), p);
    remove_from_priority_queue(store, priority.level(), id);
    let mut rep = touched_reputation(store, proposer, ledger.sequence);
    record_execution(&mut rep);
    set_reputation(store, proposer, rep);
    proof {
        assert(store.proposals@ =~= old(store).proposals@.insert(id, store.proposals@[id]));
    }
    Ok(stake)
}

} // verus!

verus! {

// ----------------------------------------------------------------------------
// Reject and expire
// ----------------------------------------------------------------------------

/// The error `reject_proposal` returns, if any.
pub open spec fn reject_error(store: Storage, caller: Address, id: u64, ledger: LedgerInfo) -> Option<
    VaultError,
> {
    let p = store.proposals@[id];
    if !store.initialized {
        Some(VaultError::NotInitialized)
    } else if !store.proposals@.contains_key(id) {
        Some(VaultError::ProposalNotFound)
    } else if caller != p.proposer && role_of(store.roles@, caller) != Role::Admin {
        Some(VaultError::Unauthorized)
    } else if !is_open(p.status) || ledger.sequence > p.expires_at {
        Some(VaultError::InvalidState)
    } else {
        None
    }
}

/// Rejects proposal `id`; only an admin or the proposer may. The stake is
/// slashed by the configured percentage: returns `(slashed, refunded)`.
/// A proposal past its expiry is refused with `InvalidState` and left open;
/// `expire_proposal` records the expiry.
pub fn reject_proposal(store: &mut Storage, caller: Address, id: u64, ledger: LedgerInfo) -> (r:
    Result<(i128, i128), VaultError>)
    requires
        old(store).wf(),
    ensures
        final(store).wf(),
        terminal_frozen(*old(store), *final(store)),
        reject_error(*old(store), caller, id, ledger) matches Some(e) ==> r == Err::<
            (i128, i128),
            VaultError,
        >(e) && *final(store) == *old(store),
        reject_error(*old(store), caller, id, ledger) is None ==> ({
            let old_p = old(store).proposals@[id];
            let slashed = slashed_spec(
                old_p.insurance_amount as int,
                old(store).insurance_spec().slash_percentage as int,
            );
            &&& r == Ok::<(i128, i128), VaultError>(
                (slashed as i128, (old_p.insurance_amount - slashed) as i128),
            )
            &&& final(store).proposals@ == old(store).proposals@.insert(
                id,
                final(store).proposals@[id],
            )
            &&& final(store).proposals@[id] == (Proposal {
                status: ProposalStatus::Rejected,
                insurance_amount: 0,
                ..old_p
            })
            &&& dequeued(*old(store), *final(store), old_p)
            &&& final(store).reputation@ == old(store).reputation@.insert(
                old_p.proposer,
                after_outcome(*old(store), old_p.proposer, ledger.sequence, false),
            )
            &&& *final(store) == (Storage {
                proposals: final(store).proposals,
                priority_queues: final(store).priority_queues,
                reputation: final(store).reputation,
                ..*old(store)
            })
        }),
{
    if !store.initialized {
        return Err(VaultError::NotInitialized);
    }
    match store.proposals.get(&id) {
        None => {
            return Err(VaultError::ProposalNotFound);
        },
        Some(p) => {
            if caller != p.proposer && get_role(store, caller) != Role::Admin {
                return Err(VaultError::Unauthorized);
            }
            if (p.status != ProposalStatus::Pending && p.status != ProposalStatus::Approved)
                || ledger.sequence > p.expires_at {
                return Err(VaultError::InvalidState);
            }
        },
    }
    let ins = get_insurance_config(store);
    let mut p = take_proposal(store, id);
    let ghost prev = p;
    let (priority, proposer) = (p.priority, p.proposer);
    let split = slash(p.insurance_amount, &ins);
    p.status = ProposalStatus::Rejected;
    p.insurance_amount = 0;
    restore_proposal(store, Ghost(prev), p);
    remove_from_priority_queue(store, priority.level(), id);
    let mut rep = touched_reputation(store, proposer, ledger.sequence);
    record_rejection(&mut rep);
    set_reputation(store, proposer, rep);
    proof {
        assert(store.proposals@ =~= old(store).proposals@.insert(id, store.proposals@[id]));
    }
    Ok(split)
}

/// The error `expire_proposal` returns, if any.
pub open spec fn expire_error(store: Storage, id: u64, ledger: LedgerInfo) -> Option<VaultError> {
    let p = store.proposals@[id];
    if !store.proposals@.contains_key(id) {
        Some(VaultError::ProposalNotFound)
    } else if !is_open(p.status) || ledger.sequence <= p.expires_at {
        Some(VaultError::InvalidState)
    } else {
        None
    }
}

/// Marks an open proposal whose expiry has passed as `Expired`. Expiry is no
/// fault: the whole stake is returned, and reputation is not penalized.
pub fn expire_proposal(store: &mut Storage, id: u64, ledger: LedgerInfo) -> (r: Result<
    i128,
    VaultError,
>)
    requires
        old(store).wf(),
    ensures
        final(store).wf(),
        terminal_frozen(*old(store), *final(store)),
        expire_error(*old(store), id, ledger) matches Some(e) ==> r == Err::<i128, VaultError>(e)
            && *final(store) == *old(store),
        expire_error(*old(store), id, ledger) is None ==> ({
            let old_p = old(store).proposals@[id];
            &&& r == Ok::<i128, VaultError>(old_p.insurance_amount)
            &&& final(store).proposals@ == old(store).proposals@.insert(
                id,
                final(store).proposals@[id],
            )
            &&& final(store).proposals@[id] == (Proposal {
                status: ProposalStatus::Expired,
                insurance_amount: 0,
                ..old_p
            })
            &&& dequeued(*old(store), *final(store), old_p)
            &&& *final(store) == (Storage {
                proposals: final(store).proposals,
                priority_queues: final(store).priority_queues,
                ..*old(store)
            })
        }),
{
    match store.proposals.get(&id) {
        None => {
            return Err(VaultError::ProposalNotFound);
        },
        Some(p) => {
            if (p.status != ProposalStatus::Pending && p.status != ProposalStatus::Approved)
                || ledger.sequence <= p.expires_at {
                return Err(VaultError::InvalidState);
            }
        },
    }
    let mut p = take_proposal(store, id);
    let ghost prev = p;
    let priority = p.priority;
    let stake = p.insurance_amount;
    p.status = ProposalStatus::Expired;
    p.insurance_amount = 0;
    restore_proposal(store, Ghost(prev), p);
    remove_from_priority_queue(store, priority.level(), id);
    proof {
        assert(store.proposals@ =~= old(store).proposals@.insert(id, store.proposals@[id]));
    }
    Ok(stake)
}

} // verus!

verus! {

// ----------------------------------------------------------------------------
// Terminal states
// ----------------------------------------------------------------------------

/// Once a proposal is executed, rejected or expired, every operation on it is
/// refused (and, by each operation's contract, changes nothing), while
/// operations on other proposals leave it as it is (`terminal_frozen`).
pub proof fn lemma_terminal_refuses_all(
    store: Storage,
    id: u64,
    actor: Address,
    ledger: LedgerInfo,
    balance: i128,
)
    requires
        store.wf(),
        store.proposals@.contains_key(id),
        store.proposals@[id].status.is_terminal(),
    ensures
        vote_error(store, actor, id, ledger) is Some,
        execute_error(store, id, ledger, balance) is Some,
        reject_error(store, actor, id, ledger) is Some,
        expire_error(store, id, ledger) is Some,
{
}

/// Frozen terminal records stay frozen over any sequence of operations.
pub proof fn lemma_terminal_frozen_chain(a: Storage, b: Storage, c: Storage)
    requires
        terminal_frozen(a, b),
        terminal_frozen(b, c),
    ensures
        terminal_frozen(a, c),
{
    assert forall|k: u64| #[trigger]
        a.proposals@.contains_key(k) && a.proposals@[k].status.is_terminal() implies c.proposals@.contains_key(k)
            && c.proposals@[k].status == a.proposals@[k].status && c.proposals@[k].approvals@
            == a.proposals@[k].approvals@ && c.proposals@[k].abstentions@
            == a.proposals@[k].abstentions@ by {
        assert(b.proposals@.contains_key(k) && b.proposals@[k].status.is_terminal());
    }
}

} // verus!

verus! {

// ----------------------------------------------------------------------------
// Signer management
// ----------------------------------------------------------------------------

/// Position of `a` in `v`, if present.
fn position_of(v: &Vec<Address>, a: Address) -> (r: Option<usize>)
    ensures
        r matches Some(i) ==> i < v@.len() && v@[i as int] == a,
        r is None ==> !v@.contains(a),
{
    let mut i: usize = 0;
    while i < v.len()
        invariant
            i <= v@.len(),
            forall|j: int| 0 <= j < i ==> v@[j] != a,
        decreases v@.len() - i,
    {
        if v[i] == a {
            return Some(i);
        }
        i = i + 1;
    }
    None
}

/// The error `add_signer` returns, if any.
pub open spec fn add_signer_error(store: Storage, admin: Address, signer: Address) -> Option<
    VaultError,
> {
    if !store.initialized {
        Some(VaultError::NotInitialized)
    } else if role_of(store.roles@, admin) != Role::Admin {
        Some(VaultError::Unauthorized)
    } else if store.config->0.signers@.contains(signer) || store.config->0.signers@.len()
        >= u32::MAX {
        Some(VaultError::InvalidState)
    } else {
        None
    }
}

/// Adds `signer` to the signer set; only an admin may.
pub fn add_signer(store: &mut Storage, admin: Address, signer: Address) -> (r: Result<
    (),
    VaultError,
>)
    requires
        old(store).wf(),
    ensures
        final(store).wf(),
        terminal_frozen(*old(store), *final(store)),
        add_signer_error(*old(store), admin, signer) matches Some(e) ==> r == Err::<(), VaultError>(
            e,
        ) && *final(store) == *old(store),
        add_signer_error(*old(store), admin, signer) is None ==> r is Ok && (final(store).config matches Some(c) && c.signers@ == old(store).config->0.signers@.push(signer)
            && c == (Config { signers: c.signers, ..old(store).config->0 })) && *final(store) == (
        Storage { config: final(store).config, ..*old(store) }),
{
    if !store.initialized {
        return Err(VaultError::NotInitialized);
    }
    if get_role(store, admin) != Role::Admin {
        return Err(VaultError::Unauthorized);
    }
    match store.config.take() {
        None => Err(VaultError::NotInitialized),
        Some(mut c) => {
            if contains_address(&c.signers, signer) || c.signers.len() >= u32::MAX as usize {
                store.config = Some(c);
                return Err(VaultError::InvalidState);
            }
            proof {
                lemma_push_distinct(c.signers@, signer);
            }
            c.signers.push(signer);
            store.config = Some(c);
            Ok(())
        },
    }
}

/// The error `remove_signer` returns, if any.
pub open spec fn remove_signer_error(store: Storage, admin: Address, signer: Address) -> Option<
    VaultError,
> {
    if !store.initialized {
        Some(VaultError::NotInitialized)
    } else if role_of(store.roles@, admin) != Role::Admin {
        Some(VaultError::Unauthorized)
    } else if !store.config->0.signers@.contains(signer) {
        Some(VaultError::InvalidState)
    } else if store.config->0.signers@.len() - 1 < store.config->0.threshold {
        Some(VaultError::InvalidThreshold)
    } else {
        None
    }
}

/// Removes `signer` from the signer set; only an admin may, and never below
/// the fixed threshold. Approvals already recorded stay; the requirement is
/// recomputed against the remaining signers whenever it is next evaluated.
pub fn remove_signer(store: &mut Storage, admin: Address, signer: Address) -> (r: Result<
    (),
    VaultError,
>)
    requires
        old(store).wf(),
    ensures
        final(store).wf(),
        terminal_frozen(*old(store), *final(store)),
        remove_signer_error(*old(store), admin, signer) matches Some(e) ==> r == Err::<
            (),
            VaultError,
        >(e) && *final(store) == *old(store),
        remove_signer_error(*old(store), admin, signer) is None ==> r is Ok && (final(store).config matches Some(c) && c.signers@.len() == old(store).config->0.signers@.len() - 1
            && c.signers@.to_set() == old(store).config->0.signers@.to_set().remove(signer)
            && c == (Config { signers: c.signers, ..old(store).config->0 })) && *final(store) == (
        Storage { config: final(store).config, ..*old(store) }),
{
    if !store.initialized {
        return Err(VaultError::NotInitialized);
    }
    if get_role(store, admin) != Role::Admin {
        return Err(VaultError::Unauthorized);
    }
    match store.config.take() {
        None => Err(VaultError::NotInitialized),
        Some(mut c) => {
            let pos = match position_of(&c.signers, signer) {
                None => {
                    store.config = Some(c);
                    return Err(VaultError::InvalidState);
                },
                Some(i) => i,
            };
            if c.signers.len() - 1 < c.threshold as usize {
                store.config = Some(c);
                return Err(VaultError::InvalidThreshold);
            }
            let ghost before = c.signers@;
            c.signers.remove(pos);
            proof {
                let after = c.signers@;
                assert(after == before.remove(pos as int));
                assert forall|a: int, b: int| 0 <= a < b < after.len() implies after[a]
                    != after[b] by {
                    let a2 = if a < pos {
                        a
                    } else {
                        a + 1
                    };
                    let b2 = if b < pos {
                        b
                    } else {
                        b + 1
                    };
                    assert(after[a] == before[a2] && after[b] == before[b2]);
                }
                assert forall|x: Address| #[trigger] after.to_set().contains(x) == before.to_set().remove(
                    signer,
                ).contains(x) by {
                    if after.contains(x) {
                        let k = choose|k: int| 0 <= k < after.len() && after[k] == x;
                        let k2 = if k < pos {
                            k
                        } else {
                            k + 1
                        };
                        assert(before[k2] == x);
                        assert(k2 != pos);
                    }
                    if before.contains(x) && x != signer {
                        let k = choose|k: int| 0 <= k < before.len() && before[k] == x;
                        assert(k != pos);
                        let k3 = if k < pos {
                            k
                        } else {
                            k - 1
                        };
                        assert(after[k3] == x);
                    }
                }
                assert(after.to_set() =~= before.to_set().remove(signer));
            }
            store.config = Some(c);
            Ok(())
        },
    }
}

} // verus!
