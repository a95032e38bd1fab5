//! The engine's persistent state and its accessors.
//!
//! The host store is a tagged key/value namespace; here each tag is a field of
//! [`Storage`], keyed by id or address where the tag is parameterized.

use vstd::prelude::*;
use std::collections::HashMap;
use crate::spending::{history_of, lemma_pruned_before_all, prune_history, velocity_step};
use crate::types::{
    Address, BridgeConfig, Comment, Config, CrossChainAsset, CrossChainProposal, InsuranceConfig,
    ListMode, NotificationPreferences, Proposal, ProposalStatus, RecurringPayment, Reputation, Role, VaultError,
    VelocityConfig,
};

verus! {

broadcast use vstd::std_specs::hash::group_hash_axioms;

/// Ledgers in about one day.
pub const DAY_IN_LEDGERS: u32 = 17_280;

/// Lifetime of a proposal in ledgers (7 days).
pub const PROPOSAL_TTL: u32 = DAY_IN_LEDGERS * 7;

/// Retention of long-lived records in ledgers (30 days).
pub const INSTANCE_TTL: u32 = DAY_IN_LEDGERS * 30;

/// Remaining lifetime below which long-lived records are refreshed (7 days).
pub const INSTANCE_TTL_THRESHOLD: u32 = DAY_IN_LEDGERS * 7;

/// Seconds in a day.
pub const SECONDS_PER_DAY: u64 = 86_400;

/// Seconds in a week.
pub const SECONDS_PER_WEEK: u64 = 604_800;

/// Number of priority tiers.
pub const PRIORITY_LEVELS: usize = 4;

/// The key namespace of the persistent store: one tag per entity kind.
#[derive(Clone, Copy, Debug, PartialEq, Eq, Structural)]
pub enum DataKey {
    Initialized,
    Config,
    Role(Address),
    Proposal(u64),
    NextProposalId,
    PriorityQueue(u32),
    DailySpent(u64),
    WeeklySpent(u64),
    Recurring(u64),
    NextRecurringId,
    VelocityHistory(Address),
    ListMode,
    Whitelist(Address),
    Blacklist(Address),
    Comment(u64),
    NextCommentId,
    ProposalComments(u64),
    Attachments(u64),
    Reputation(Address),
    InsuranceConfig,
    NotificationPrefs(Address),
    CrossChainProposal(u64),
    NextCrossChainId,
    CrossChainAsset(u64),
    NextAssetId,
    BridgeConfig,
}

/// The whole persistent state of one vault.
///
/// The fields are public so that a host can load and persist them. Writing
/// them directly bypasses every check: the guarantees of this crate (the
/// invariant `wf`, the state machine, the caps) hold for state changed only
/// through the functions of this crate.
pub struct Storage {
    pub initialized: bool,
    pub config: Option<Config>,
    pub roles: HashMap<Address, Role>,
    pub proposals: HashMap<u64, Proposal>,
    pub next_proposal_id: u64,
    /// One id queue per priority tier, Low to Critical
    pub priority_queues: Vec<Vec<u64>>,
    pub daily_spent: HashMap<u64, i128>,
    pub weekly_spent: HashMap<u64, i128>,
    pub recurring: HashMap<u64, RecurringPayment>,
    pub next_recurring_id: u64,
    pub velocity_history: HashMap<Address, Vec<u64>>,
    pub list_mode: ListMode,
    pub whitelist: HashMap<Address, bool>,
    pub blacklist: HashMap<Address, bool>,
    pub comments: HashMap<u64, Comment>,
    pub next_comment_id: u64,
    pub proposal_comments: HashMap<u64, Vec<u64>>,
    pub attachments: HashMap<u64, Vec<String>>,
    pub reputation: HashMap<Address, Reputation>,
    pub insurance_config: Option<InsuranceConfig>,
    pub notification_prefs: HashMap<Address, NotificationPreferences>,
    pub crosschain_proposals: HashMap<u64, CrossChainProposal>,
    pub next_crosschain_id: u64,
    pub crosschain_assets: HashMap<u64, CrossChainAsset>,
    pub next_asset_id: u64,
    pub bridge_config: Option<BridgeConfig>,
}

/// Insurance settings in force when none were stored: off, 1% stake, 50% slash.
pub open spec fn default_insurance() -> InsuranceConfig {
    InsuranceConfig { enabled: false, min_amount: 0, min_insurance_bps: 100, slash_percentage: 50 }
}

/// `spent` for `key` in a bucket map, 0 when absent.
pub open spec fn bucket(m: Map<u64, i128>, key: u64) -> int {
    if m.contains_key(key) {
        m[key] as int
    } else {
        0
    }
}

/// Reputation record of `addr`, a fresh one when absent.
pub open spec fn reputation_of(m: Map<Address, Reputation>, addr: Address) -> Reputation {
    if m.contains_key(addr) {
        m[addr]
    } else {
        Reputation {
            score: 500,
            proposals_executed: 0,
            proposals_rejected: 0,
            proposals_created: 0,
            approvals_given: 0,
            last_decay_ledger: 0,
        }
    }
}

impl Storage {
    /// The state's invariant.
    pub open spec fn wf(&self) -> bool {
        &&& self.initialized <==> self.config is Some
        &&& self.config matches Some(c) ==> c.wf()
        &&& self.priority_queues@.len() == PRIORITY_LEVELS
        &&& self.next_proposal_id >= 1
        &&& forall|k: u64| #[trigger]
            self.proposals@.contains_key(k) ==> self.proposals@[k].id == k && 1 <= k
                < self.next_proposal_id && self.proposals@[k].wf()
        &&& forall|a: Address| #[trigger]
            self.reputation@.contains_key(a) ==> self.reputation@[a].wf()
        &&& self.insurance_config matches Some(ic) ==> ic.slash_percentage <= 100
    }

    /// Insurance settings in force.
    pub open spec fn insurance_spec(&self) -> InsuranceConfig {
        match self.insurance_config {
            Some(c) => c,
            None => default_insurance(),
        }
    }

    /// An empty, uninitialized vault.
    pub fn new() -> (r: Storage)
        ensures
            r.wf(),
            !r.initialized,
            r.proposals@ == Map::<u64, Proposal>::empty(),
            r.next_proposal_id == 1,
            r.list_mode == ListMode::Disabled,
            r.insurance_config is None,
            r.daily_spent@ == Map::<u64, i128>::empty(),
            r.weekly_spent@ == Map::<u64, i128>::empty(),
            r.velocity_history@ == Map::<Address, Vec<u64>>::empty(),
            r.reputation@ == Map::<Address, Reputation>::empty(),
            r.roles@ == Map::<Address, Role>::empty(),
            forall|i: int| 0 <= i < PRIORITY_LEVELS ==> (#[trigger] r.priority_queues@[i])@.len()
                == 0,
    {
        let mut queues: Vec<Vec<u64>> = Vec::new();
        let mut i: usize = 0;
        while i < PRIORITY_LEVELS
            invariant
                i <= PRIORITY_LEVELS,
                queues@.len() == i,
                forall|j: int| 0 <= j < i ==> (#[trigger] queues@[j])@.len() == 0,
            decreases PRIORITY_LEVELS - i,
        {
            queues.push(Vec::new());
            i = i + 1;
        }
        Storage {
            initialized: false,
            config: None,
            roles: HashMap::new(),
            proposals: HashMap::new(),
            next_proposal_id: 1,
            priority_queues: queues,
            daily_spent: HashMap::new(),
            weekly_spent: HashMap::new(),
            recurring: HashMap::new(),
            next_recurring_id: 1,
            velocity_history: HashMap::new(),
            list_mode: ListMode::Disabled,
            whitelist: HashMap::new(),
            blacklist: HashMap::new(),
            comments: HashMap::new(),
            next_comment_id: 1,
            proposal_comments: HashMap::new(),
            attachments: HashMap::new(),
            reputation: HashMap::new(),
            insurance_config: None,
            notification_prefs: HashMap::new(),
            crosschain_proposals: HashMap::new(),
            next_crosschain_id: 1,
            crosschain_assets: HashMap::new(),
            next_asset_id: 1,
            bridge_config: None,
        }
    }
}

// ----------------------------------------------------------------------------
// Initialization and configuration
// ----------------------------------------------------------------------------

pub fn is_initialized(store: &Storage) -> (r: bool)
    ensures
        r == store.initialized,
{
    store.initialized
}

pub fn get_config(store: &Storage) -> (r: Result<&Config, VaultError>)
    ensures
        match store.config {
            Some(c) => r == Ok::<&Config, VaultError>(&c),
            None => r == Err::<&Config, VaultError>(VaultError::NotInitialized),
        },
{
    match &store.config {
        Some(c) => Ok(c),
        None => Err(VaultError::NotInitialized),
    }
}

/// Replaces the configuration of an initialized vault.
pub fn set_config(store: &mut Storage, config: Config) -> (r: Result<(), VaultError>)
    requires
        old(store).wf(),
        config.wf(),
    ensures
        final(store).wf(),
        old(store).initialized ==> r is Ok && *final(store) == (Storage {
            config: Some(config),
            ..*old(store)
        }),
        !old(store).initialized ==> r == Err::<(), VaultError>(VaultError::NotInitialized)
            && *final(store) == *old(store),
{
    if !store.initialized {
        return Err(VaultError::NotInitialized);
    }
    store.config = Some(config);
    Ok(())
}

// ----------------------------------------------------------------------------
// Roles
// ----------------------------------------------------------------------------

/// Role of `addr`: the stored one, `Member` when none is stored.
pub open spec fn role_of(m: Map<Address, Role>, addr: Address) -> Role {
    if m.contains_key(addr) {
        m[addr]
    } else {
        Role::Member
    }
}

pub fn get_role(store: &Storage, addr: Address) -> (r: Role)
    ensures
        r == role_of(store.roles@, addr),
{
    match store.roles.get(&addr) {
        Some(r) => *r,
        None => Role::Member,
    }
}

pub fn set_role(store: &mut Storage, addr: Address, role: Role)
    requires
        old(store).wf(),
    ensures
        final(store).wf(),
        *final(store) == (Storage { roles: final(store).roles, ..*old(store) }),
        final(store).roles@ == old(store).roles@.insert(addr, role),
{
    store.roles.insert(addr, role);
}

// ----------------------------------------------------------------------------
// Proposals
// ----------------------------------------------------------------------------

pub fn get_proposal(store: &Storage, id: u64) -> (r: Result<&Proposal, VaultError>)
    ensures
        store.proposals@.contains_key(id) ==> r == Ok::<&Proposal, VaultError>(
            &store.proposals@[id],
        ),
        !store.proposals@.contains_key(id) ==> r == Err::<&Proposal, VaultError>(
            VaultError::ProposalNotFound,
        ),
{
    match store.proposals.get(&id) {
        Some(p) => Ok(p),
        None => Err(VaultError::ProposalNotFound),
    }
}

pub fn get_next_proposal_id(store: &Storage) -> (r: u64)
    ensures
        r == store.next_proposal_id,
{
    store.next_proposal_id
}

/// Hands out the next proposal id and advances the counter.
pub fn increment_proposal_id(store: &mut Storage) -> (r: u64)
    requires
        old(store).wf(),
        old(store).next_proposal_id < u64::MAX,
    ensures
        final(store).wf(),
        r == old(store).next_proposal_id,
        *final(store) == (Storage { next_proposal_id: (r + 1) as u64, ..*old(store) }),
{
    let id = store.next_proposal_id;
    store.next_proposal_id = id + 1;
    id
}

// ----------------------------------------------------------------------------
// Priority queues
// ----------------------------------------------------------------------------

/// `q` without the entries equal to `id`, order kept.
pub open spec fn without_id(q: Seq<u64>, id: u64) -> Seq<u64> {
    q.filter(|x: u64| x != id)
}

/// Ids queued under `priority` (none for an unknown level).
pub fn get_priority_queue(store: &Storage, priority: u32) -> (r: Vec<u64>)
    requires
        store.wf(),
    ensures
        priority < PRIORITY_LEVELS ==> r@ == store.priority_queues@[priority as int]@,
        priority >= PRIORITY_LEVELS ==> r@.len() == 0,
{
    if priority as usize >= PRIORITY_LEVELS {
        return Vec::new();
    }
    let q = &store.priority_queues[priority as usize];
    let mut out: Vec<u64> = Vec::new();
    let mut i: usize = 0;
    while i < q.len()
        invariant
            i <= q@.len(),
            out@ == q@.take(i as int),
        decreases q@.len() - i,
    {
        out.push(q[i]);
        assert(q@.take(i as int + 1) == q@.take(i as int).push(q@[i as int]));
        i = i + 1;
    }
    assert(q@.take(q@.len() as int) == q@);
    out
}

/// Appends `proposal_id` to the queue of `priority`.
pub fn add_to_priority_queue(store: &mut Storage, priority: u32, proposal_id: u64)
    requires
        old(store).wf(),
        priority < PRIORITY_LEVELS,
    ensures
        final(store).wf(),
        *final(store) == (Storage { priority_queues: final(store).priority_queues, ..*old(store) }),
        final(store).priority_queues@ == old(store).priority_queues@.update(
            priority as int,
            final(store).priority_queues@[priority as int],
        ),
        final(store).priority_queues@[priority as int]@
            == old(store).priority_queues@[priority as int]@.push(proposal_id),
{
    store.priority_queues[priority as usize].push(proposal_id);
}

/// Removes every entry equal to `proposal_id` from the queue of `priority`.
pub fn remove_from_priority_queue(store: &mut Storage, priority: u32, proposal_id: u64)
    requires
        old(store).wf(),
        priority < PRIORITY_LEVELS,
    ensures
        final(store).wf(),
        *final(store) == (Storage { priority_queues: final(store).priority_queues, ..*old(store) }),
        final(store).priority_queues@ == old(store).priority_queues@.update(
            priority as int,
            final(store).priority_queues@[priority as int],
        ),
        final(store).priority_queues@[priority as int]@ == without_id(
            old(store).priority_queues@[priority as int]@,
            proposal_id,
        ),
{
    let p = priority as usize;
    let mut kept: Vec<u64> = Vec::new();
    let mut i: usize = 0;
    let n = store.priority_queues[p].len();
    while i < n
        invariant
            store == old(store),
            p < store.priority_queues@.len(),
            n == store.priority_queues@[p as int]@.len(),
            i <= n,
            kept@ == without_id(store.priority_queues@[p as int]@.take(i as int), proposal_id),
        decreases n - i,
    {
        let id = store.priority_queues[p][i];
        proof {
            let q = store.priority_queues@[p as int]@;
            reveal(Seq::filter);
            assert(q.take(i as int + 1).drop_last() == q.take(i as int));
        }
        if id != proposal_id {
            kept.push(id);
        }
        i = i + 1;
    }
    assert(store.priority_queues@[p as int]@.take(n as int) == store.priority_queues@[p as int]@);
    store.priority_queues.set(p, kept);
}

// ----------------------------------------------------------------------------
// Spending buckets
// ----------------------------------------------------------------------------

/// Day number of a timestamp.
pub fn get_day_number(timestamp: u64) -> (r: u64)
    ensures
        r == timestamp / SECONDS_PER_DAY,
{
    timestamp / SECONDS_PER_DAY
}

/// Week number of a timestamp.
pub fn get_week_number(timestamp: u64) -> (r: u64)
    ensures
        r == timestamp / SECONDS_PER_WEEK,
{
    timestamp / SECONDS_PER_WEEK
}

pub fn get_daily_spent(store: &Storage, day: u64) -> (r: i128)
    ensures
        r == bucket(store.daily_spent@, day),
{
    match store.daily_spent.get(&day) {
        Some(v) => *v,
        None => 0,
    }
}

pub fn get_weekly_spent(store: &Storage, week: u64) -> (r: i128)
    ensures
        r == bucket(store.weekly_spent@, week),
{
    match store.weekly_spent.get(&week) {
        Some(v) => *v,
        None => 0,
    }
}

pub fn add_daily_spent(store: &mut Storage, day: u64, amount: i128)
    requires
        old(store).wf(),
        i128::MIN <= bucket(old(store).daily_spent@, day) + amount <= i128::MAX,
    ensures
        final(store).wf(),
        *final(store) == (Storage { daily_spent: final(store).daily_spent, ..*old(store) }),
        final(store).daily_spent@ == old(store).daily_spent@.insert(
            day,
            (bucket(old(store).daily_spent@, day) + amount) as i128,
        ),
{
    let current = get_daily_spent(store, day);
    store.daily_spent.insert(day, current + amount);
}

pub fn add_weekly_spent(store: &mut Storage, week: u64, amount: i128)
    requires
        old(store).wf(),
        i128::MIN <= bucket(old(store).weekly_spent@, week) + amount <= i128::MAX,
    ensures
        final(store).wf(),
        *final(store) == (Storage { weekly_spent: final(store).weekly_spent, ..*old(store) }),
        final(store).weekly_spent@ == old(store).weekly_spent@.insert(
            week,
            (bucket(old(store).weekly_spent@, week) + amount) as i128,
        ),
{
    let current = get_weekly_spent(store, week);
    store.weekly_spent.insert(week, current + amount);
}

} // verus!

verus! {

// ----------------------------------------------------------------------------
// Velocity (sliding window)
// ----------------------------------------------------------------------------

/// Sliding-window check for `addr` at timestamp `now`: prunes the entries at
/// or before `now - window`, refuses when `limit` entries remain, else records
/// `now` and accepts. A refusal changes nothing.
pub fn check_and_update_velocity(
    store: &mut Storage,
    addr: Address,
    config: &VelocityConfig,
    now: u64,
) -> (r: bool)
    requires
        old(store).wf(),
    ensures
        final(store).wf(),
        r == velocity_step(history_of(old(store).velocity_history@, addr), now, *config) is Some,
        r ==> final(store).velocity_history@.contains_key(addr)
            && final(store).velocity_history@[addr]@ == velocity_step(
            history_of(old(store).velocity_history@, addr),
            now,
            *config,
        )->0,
        r ==> final(store).velocity_history@ == old(store).velocity_history@.insert(
            addr,
            final(store).velocity_history@[addr],
        ),
        r ==> *final(store) == (Storage {
            velocity_history: final(store).velocity_history,
            ..*old(store)
        }),
        !r ==> *final(store) == *old(store),
{
    let mut updated = match store.velocity_history.get(&addr) {
        Some(h) => {
            if now >= config.window {
                prune_history(h, now - config.window)
            } else {
                proof {
                    lemma_pruned_before_all(h@, now - config.window);
                }
                copy_ids(h)
            }
        },
        None => {
            proof {
                reveal(Seq::filter);
            }
            Vec::new()
        },
    };
    if updated.len() as u64 >= config.limit as u64 {
        return false;
    }
    updated.push(now);
    store.velocity_history.insert(addr, updated);
    true
}

} // verus!

verus! {

// ----------------------------------------------------------------------------
// Recurring payments
// ----------------------------------------------------------------------------

pub fn get_next_recurring_id(store: &Storage) -> (r: u64)
    ensures
        r == store.next_recurring_id,
{
    store.next_recurring_id
}

/// Hands out the next recurring-payment id and advances the counter.
pub fn increment_recurring_id(store: &mut Storage) -> (r: u64)
    requires
        old(store).wf(),
        old(store).next_recurring_id < u64::MAX,
    ensures
        final(store).wf(),
        r == old(store).next_recurring_id,
        *final(store) == (Storage { next_recurring_id: (r + 1) as u64, ..*old(store) }),
{
    let id = store.next_recurring_id;
    store.next_recurring_id = id + 1;
    id
}

/// Stores `payment` under its id.
pub fn set_recurring_payment(store: &mut Storage, payment: RecurringPayment)
    requires
        old(store).wf(),
    ensures
        final(store).wf(),
        final(store).recurring@ == old(store).recurring@.insert(payment.id, payment),
        *final(store) == (Storage { recurring: final(store).recurring, ..*old(store) }),
{
    store.recurring.insert(payment.id, payment);
}

pub fn get_recurring_payment(store: &Storage, id: u64) -> (r: Result<&RecurringPayment, VaultError>)
    ensures
        store.recurring@.contains_key(id) ==> r == Ok::<&RecurringPayment, VaultError>(
            &store.recurring@[id],
        ),
        !store.recurring@.contains_key(id) ==> r == Err::<&RecurringPayment, VaultError>(
            VaultError::ProposalNotFound,
        ),
{
    match store.recurring.get(&id) {
        Some(p) => Ok(p),
        None => Err(VaultError::ProposalNotFound),
    }
}

// ----------------------------------------------------------------------------
// Recipient lists
// ----------------------------------------------------------------------------

/// Whether `addr` carries a set flag in `m`.
pub open spec fn flagged(m: Map<Address, bool>, addr: Address) -> bool {
    m.contains_key(addr) && m[addr]
}

pub fn get_list_mode(store: &Storage) -> (r: ListMode)
    ensures
        r == store.list_mode,
{
    store.list_mode
}

pub fn set_list_mode(store: &mut Storage, mode: ListMode)
    requires
        old(store).wf(),
    ensures
        final(store).wf(),
        *final(store) == (Storage { list_mode: mode, ..*old(store) }),
{
    store.list_mode = mode;
}

pub fn is_whitelisted(store: &Storage, addr: Address) -> (r: bool)
    ensures
        r == flagged(store.whitelist@, addr),
{
    match store.whitelist.get(&addr) {
        Some(b) => *b,
        None => false,
    }
}

pub fn add_to_whitelist(store: &mut Storage, addr: Address)
    requires
        old(store).wf(),
    ensures
        final(store).wf(),
        final(store).whitelist@ == old(store).whitelist@.insert(addr, true),
        *final(store) == (Storage { whitelist: final(store).whitelist, ..*old(store) }),
{
    store.whitelist.insert(addr, true);
}

pub fn remove_from_whitelist(store: &mut Storage, addr: Address)
    requires
        old(store).wf(),
    ensures
        final(store).wf(),
        final(store).whitelist@ == old(store).whitelist@.remove(addr),
        *final(store) == (Storage { whitelist: final(store).whitelist, ..*old(store) }),
{
    store.whitelist.remove(&addr);
}

pub fn is_blacklisted(store: &Storage, addr: Address) -> (r: bool)
    ensures
        r == flagged(store.blacklist@, addr),
{
    match store.blacklist.get(&addr) {
        Some(b) => *b,
        None => false,
    }
}

pub fn add_to_blacklist(store: &mut Storage, addr: Address)
    requires
        old(store).wf(),
    ensures
        final(store).wf(),
        final(store).blacklist@ == old(store).blacklist@.insert(addr, true),
        *final(store) == (Storage { blacklist: final(store).blacklist, ..*old(store) }),
{
    store.blacklist.insert(addr, true);
}

pub fn remove_from_blacklist(store: &mut Storage, addr: Address)
    requires
        old(store).wf(),
    ensures
        final(store).wf(),
        final(store).blacklist@ == old(store).blacklist@.remove(addr),
        *final(store) == (Storage { blacklist: final(store).blacklist, ..*old(store) }),
{
    store.blacklist.remove(&addr);
}

// ----------------------------------------------------------------------------
// Reputation
// ----------------------------------------------------------------------------

/// Reputation of `addr`; a fresh neutral record when none is stored.
pub fn get_reputation(store: &Storage, addr: Address) -> (r: Reputation)
    requires
        store.wf(),
    ensures
        r == reputation_of(store.reputation@, addr),
        r.wf(),
{
    match store.reputation.get(&addr) {
        Some(rep) => *rep,
        None => Reputation::default(),
    }
}

pub fn set_reputation(store: &mut Storage, addr: Address, rep: Reputation)
    requires
        old(store).wf(),
        rep.wf(),
    ensures
        final(store).wf(),
        final(store).reputation@ == old(store).reputation@.insert(addr, rep),
        *final(store) == (Storage { reputation: final(store).reputation, ..*old(store) }),
{
    store.reputation.insert(addr, rep);
}

// ----------------------------------------------------------------------------
// Insurance configuration
// ----------------------------------------------------------------------------

/// Insurance settings in force (the defaults when none were stored).
pub fn get_insurance_config(store: &Storage) -> (r: InsuranceConfig)
    requires
        store.wf(),
    ensures
        r == store.insurance_spec(),
        r.slash_percentage <= 100,
{
    match store.insurance_config {
        Some(c) => c,
        None => InsuranceConfig {
            enabled: false,
            min_amount: 0,
            min_insurance_bps: 100,
            slash_percentage: 50,
        },
    }
}

/// Stores the insurance settings; a slash percentage above 100 is refused.
pub fn set_insurance_config(store: &mut Storage, config: InsuranceConfig) -> (r: Result<
    (),
    VaultError,
>)
    requires
        old(store).wf(),
    ensures
        final(store).wf(),
        config.slash_percentage <= 100 ==> r is Ok && *final(store) == (Storage {
            insurance_config: Some(config),
            ..*old(store)
        }),
        config.slash_percentage > 100 ==> r == Err::<(), VaultError>(VaultError::InvalidAmount)
            && *final(store) == *old(store),
{
    if config.slash_percentage > 100 {
        return Err(VaultError::InvalidAmount);
    }
    store.insurance_config = Some(config);
    Ok(())
}

// ----------------------------------------------------------------------------
// Notification preferences
// ----------------------------------------------------------------------------

pub fn get_notification_prefs(store: &Storage, addr: Address) -> (r: NotificationPreferences)
    ensures
        store.notification_prefs@.contains_key(addr) ==> r == store.notification_prefs@[addr],
        !store.notification_prefs@.contains_key(addr) ==> r == (NotificationPreferences {
            notify_on_proposal: true,
            notify_on_approval: true,
            notify_on_execution: true,
            notify_on_rejection: true,
            notify_on_expiry: false,
        }),
{
    match store.notification_prefs.get(&addr) {
        Some(p) => *p,
        None => NotificationPreferences::default(),
    }
}

pub fn set_notification_prefs(store: &mut Storage, addr: Address, prefs: NotificationPreferences)
    requires
        old(store).wf(),
    ensures
        final(store).wf(),
        final(store).notification_prefs@ == old(store).notification_prefs@.insert(addr, prefs),
        *final(store) == (Storage {
            notification_prefs: final(store).notification_prefs,
            ..*old(store)
        }),
{
    store.notification_prefs.insert(addr, prefs);
}

} // verus!

verus! {

/// Whether the state machine has an edge from `from` to `to`: Pending to
/// Approved, Rejected or Expired; Approved to Executed, Rejected or Expired.
pub open spec fn status_step(from: ProposalStatus, to: ProposalStatus) -> bool {
    match from {
        ProposalStatus::Pending => to == ProposalStatus::Approved || to == ProposalStatus::Rejected
            || to == ProposalStatus::Expired,
        ProposalStatus::Approved => to == ProposalStatus::Executed || to
            == ProposalStatus::Rejected || to == ProposalStatus::Expired,
        _ => false,
    }
}

/// Whether `next` may replace the stored record `prev`: a terminal record
/// keeps its status, approvers and abstainers; an open one keeps its status
/// or moves along one edge of the state machine.
pub open spec fn legal_update(prev: Proposal, next: Proposal) -> bool {
    if prev.status.is_terminal() {
        &&& next.status == prev.status
        &&& next.approvals@ == prev.approvals@
        &&& next.abstentions@ == prev.abstentions@
    } else {
        next.status == prev.status || status_step(prev.status, next.status)
    }
}

/// Over any chain of legal updates a terminal record keeps its status,
/// approvers and abstainers, and a record never returns to `Pending` once it
/// has left it.
pub proof fn lemma_legal_updates_chain(a: Proposal, b: Proposal, c: Proposal)
    requires
        legal_update(a, b),
        legal_update(b, c),
    ensures
        a.status.is_terminal() ==> c.status == a.status && c.approvals@ == a.approvals@
            && c.abstentions@ == a.abstentions@,
        a.status != ProposalStatus::Pending ==> c.status != ProposalStatus::Pending,
        legal_update(a, c) || (a.status == ProposalStatus::Pending && b.status
            == ProposalStatus::Approved && c.status.is_terminal()),
{
}

/// Stores `proposal` under its id. Over a stored record it may only make a
/// legal update.
pub fn set_proposal(store: &mut Storage, proposal: Proposal)
    requires
        old(store).wf(),
        proposal.wf(),
        1 <= proposal.id < old(store).next_proposal_id,
        old(store).proposals@.contains_key(proposal.id) ==> legal_update(
            old(store).proposals@[proposal.id],
            proposal,
        ),
    ensures
        final(store).wf(),
        final(store).proposals@ == old(store).proposals@.insert(proposal.id, proposal),
        *final(store) == (Storage { proposals: final(store).proposals, ..*old(store) }),
{
    store.proposals.insert(proposal.id, proposal);
}

/// Puts back a record taken out by `take_proposal`, updated legally from
/// what was taken (`prev`).
pub(crate) fn restore_proposal(store: &mut Storage, prev: Ghost<Proposal>, proposal: Proposal)
    requires
        old(store).wf(),
        proposal.wf(),
        1 <= proposal.id < old(store).next_proposal_id,
        !old(store).proposals@.contains_key(proposal.id),
        prev@.id == proposal.id,
        legal_update(prev@, proposal),
    ensures
        final(store).wf(),
        final(store).proposals@ == old(store).proposals@.insert(proposal.id, proposal),
        *final(store) == (Storage { proposals: final(store).proposals, ..*old(store) }),
{
    store.proposals.insert(proposal.id, proposal);
}

/// Takes the proposal `id` out of the store, to be put back by
/// `restore_proposal`.
pub(crate) fn take_proposal(store: &mut Storage, id: u64) -> (r: Proposal)
    requires
        old(store).wf(),
        old(store).proposals@.contains_key(id),
    ensures
        final(store).wf(),
        r == old(store).proposals@[id],
        final(store).proposals@ == old(store).proposals@.remove(id),
        *final(store) == (Storage { proposals: final(store).proposals, ..*old(store) }),
{
    store.proposals.remove(&id).unwrap()
}

} // verus!

verus! {

// ----------------------------------------------------------------------------
// Comments and attachments
// ----------------------------------------------------------------------------

pub fn get_next_comment_id(store: &Storage) -> (r: u64)
    ensures
        r == store.next_comment_id,
{
    store.next_comment_id
}

/// Hands out the next comment id and advances the counter.
pub fn increment_comment_id(store: &mut Storage) -> (r: u64)
    requires
        old(store).wf(),
        old(store).next_comment_id < u64::MAX,
    ensures
        final(store).wf(),
        r == old(store).next_comment_id,
        *final(store) == (Storage { next_comment_id: (r + 1) as u64, ..*old(store) }),
{
    let id = store.next_comment_id;
    store.next_comment_id = id + 1;
    id
}

pub fn set_comment(store: &mut Storage, comment: Comment)
    requires
        old(store).wf(),
    ensures
        final(store).wf(),
        final(store).comments@ == old(store).comments@.insert(comment.id, comment),
        *final(store) == (Storage { comments: final(store).comments, ..*old(store) }),
{
    store.comments.insert(comment.id, comment);
}

pub fn get_comment(store: &Storage, id: u64) -> (r: Result<&Comment, VaultError>)
    ensures
        store.comments@.contains_key(id) ==> r == Ok::<&Comment, VaultError>(
            &store.comments@[id],
        ),
        !store.comments@.contains_key(id) ==> r == Err::<&Comment, VaultError>(
            VaultError::ProposalNotFound,
        ),
{
    match store.comments.get(&id) {
        Some(c) => Ok(c),
        None => Err(VaultError::ProposalNotFound),
    }
}

/// Ids stored for `key` in an id-list map, none when absent.
pub open spec fn ids_of(m: Map<u64, Vec<u64>>, key: u64) -> Seq<u64> {
    if m.contains_key(key) {
        m[key]@
    } else {
        Seq::empty()
    }
}

fn copy_ids(v: &Vec<u64>) -> (r: Vec<u64>)
    ensures
        r@ == v@,
{
    let mut out: Vec<u64> = Vec::new();
    let mut i: usize = 0;
    while i < v.len()
        invariant
            i <= v@.len(),
            out@ == v@.take(i as int),
        decreases v@.len() - i,
    {
        out.push(v[i]);
        assert(v@.take(i as int + 1) == v@.take(i as int).push(v@[i as int]));
        i = i + 1;
    }
    assert(v@.take(v@.len() as int) == v@);
    out
}

/// Comment ids of proposal `proposal_id`, in the order they were added.
pub fn get_proposal_comments(store: &Storage, proposal_id: u64) -> (r: Vec<u64>)
    ensures
        r@ == ids_of(store.proposal_comments@, proposal_id),
{
    match store.proposal_comments.get(&proposal_id) {
        Some(v) => copy_ids(v),
        None => Vec::new(),
    }
}

pub fn add_comment_to_proposal(store: &mut Storage, proposal_id: u64, comment_id: u64)
    requires
        old(store).wf(),
    ensures
        final(store).wf(),
        final(store).proposal_comments@.contains_key(proposal_id),
        final(store).proposal_comments@[proposal_id]@ == ids_of(
            old(store).proposal_comments@,
            proposal_id,
        ).push(comment_id),
        final(store).proposal_comments@ == old(store).proposal_comments@.insert(
            proposal_id,
            final(store).proposal_comments@[proposal_id],
        ),
        *final(store) == (Storage {
            proposal_comments: final(store).proposal_comments,
            ..*old(store)
        }),
{
    let mut comments = get_proposal_comments(store, proposal_id);
    comments.push(comment_id);
    store.proposal_comments.insert(proposal_id, comments);
}

/// Attachment hashes of proposal `proposal_id`, empty when none are stored.
pub fn get_attachments(store: &Storage, proposal_id: u64) -> (r: &[String])
    ensures
        store.attachments@.contains_key(proposal_id) ==> r@ == store.attachments@[proposal_id]@,
        !store.attachments@.contains_key(proposal_id) ==> r@.len() == 0,
{
    match store.attachments.get(&proposal_id) {
        Some(v) => v.as_slice(),
        None => &[],
    }
}

pub fn set_attachments(store: &mut Storage, proposal_id: u64, attachments: Vec<String>)
    requires
        old(store).wf(),
    ensures
        final(store).wf(),
        final(store).attachments@ == old(store).attachments@.insert(proposal_id, attachments),
        *final(store) == (Storage { attachments: final(store).attachments, ..*old(store) }),
{
    store.attachments.insert(proposal_id, attachments);
}

// ----------------------------------------------------------------------------
// Cross-chain records
// ----------------------------------------------------------------------------

pub fn get_next_crosschain_id(store: &Storage) -> (r: u64)
    ensures
        r == store.next_crosschain_id,
{
    store.next_crosschain_id
}

/// Hands out the next cross-chain proposal id and advances the counter.
pub fn increment_crosschain_id(store: &mut Storage) -> (r: u64)
    requires
        old(store).wf(),
        old(store).next_crosschain_id < u64::MAX,
    ensures
        final(store).wf(),
        r == old(store).next_crosschain_id,
        *final(store) == (Storage { next_crosschain_id: (r + 1) as u64, ..*old(store) }),
{
    let id = store.next_crosschain_id;
    store.next_crosschain_id = id + 1;
    id
}

pub fn set_crosschain_proposal(store: &mut Storage, proposal: CrossChainProposal)
    requires
        old(store).wf(),
    ensures
        final(store).wf(),
        final(store).crosschain_proposals@ == old(store).crosschain_proposals@.insert(
            proposal.id,
            proposal,
        ),
        *final(store) == (Storage {
            crosschain_proposals: final(store).crosschain_proposals,
            ..*old(store)
        }),
{
    store.crosschain_proposals.insert(proposal.id, proposal);
}

pub fn get_crosschain_proposal(store: &Storage, id: u64) -> (r: Result<
    &CrossChainProposal,
    VaultError,
>)
    ensures
        store.crosschain_proposals@.contains_key(id) ==> r == Ok::<&CrossChainProposal, VaultError>(
            &store.crosschain_proposals@[id],
        ),
        !store.crosschain_proposals@.contains_key(id) ==> r == Err::<
            &CrossChainProposal,
            VaultError,
        >(VaultError::ProposalNotFound),
{
    match store.crosschain_proposals.get(&id) {
        Some(p) => Ok(p),
        None => Err(VaultError::ProposalNotFound),
    }
}

pub fn get_next_asset_id(store: &Storage) -> (r: u64)
    ensures
        r == store.next_asset_id,
{
    store.next_asset_id
}

/// Hands out the next asset id and advances the counter.
pub fn increment_asset_id(store: &mut Storage) -> (r: u64)
    requires
        old(store).wf(),
        old(store).next_asset_id < u64::MAX,
    ensures
        final(store).wf(),
        r == old(store).next_asset_id,
        *final(store) == (Storage { next_asset_id: (r + 1) as u64, ..*old(store) }),
{
    let id = store.next_asset_id;
    store.next_asset_id = id + 1;
    id
}

pub fn set_crosschain_asset(store: &mut Storage, asset: CrossChainAsset)
    requires
        old(store).wf(),
    ensures
        final(store).wf(),
        final(store).crosschain_assets@ == old(store).crosschain_assets@.insert(asset.id, asset),
        *final(store) == (Storage { crosschain_assets: final(store).crosschain_assets, ..*old(store) }),
{
    store.crosschain_assets.insert(asset.id, asset);
}

pub fn get_crosschain_asset(store: &Storage, id: u64) -> (r: Result<&CrossChainAsset, VaultError>)
    ensures
        store.crosschain_assets@.contains_key(id) ==> r == Ok::<&CrossChainAsset, VaultError>(
            &store.crosschain_assets@[id],
        ),
        !store.crosschain_assets@.contains_key(id) ==> r == Err::<&CrossChainAsset, VaultError>(
            VaultError::ProposalNotFound,
        ),
{
    match store.crosschain_assets.get(&id) {
        Some(a) => Ok(a),
        None => Err(VaultError::ProposalNotFound),
    }
}

pub fn set_bridge_config(store: &mut Storage, config: BridgeConfig)
    requires
        old(store).wf(),
    ensures
        final(store).wf(),
        *final(store) == (Storage { bridge_config: Some(config), ..*old(store) }),
{
    store.bridge_config = Some(config);
}

pub fn get_bridge_config(store: &Storage) -> (r: Result<&BridgeConfig, VaultError>)
    ensures
        match store.bridge_config {
            Some(c) => r == Ok::<&BridgeConfig, VaultError>(&c),
            None => r == Err::<&BridgeConfig, VaultError>(VaultError::BridgeNotConfigured),
        },
{
    match &store.bridge_config {
        Some(c) => Ok(c),
        None => Err(VaultError::BridgeNotConfigured),
    }
}

} // verus!
