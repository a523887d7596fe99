//! The governance state machine: membership configuration, proposal
//! lifecycle, timelock gating, and record migration.
//!
//! Every operation is atomic: it either fully applies its transition or, on
//! any precondition failure, returns an error and leaves all records exactly
//! as they were. The lifecycle is
//! `Proposed -> Approved -> TimelockActive -> Executed`, with `Cancelled`
//! reachable from every non-`Executed` status; `Executed` and `Cancelled`
//! are terminal.

use vstd::prelude::*;
use vstd::seq_lib::*;
use vstd::set_lib::lemma_len_subset;
use vstd::utf8::encode_utf8;

verus! {

/// An authenticated principal identity, carried explicitly into every
/// operation. The governance logic only ever compares principals for
/// equality, so a plain integer identity models them fully.
#[derive(Clone, Copy, Debug, PartialEq, Eq, Structural)]
pub struct Pubkey(pub u64);

impl Default for Pubkey {
    /// The null principal, used as the initial (absent) buffer reference.
    fn default() -> (r: Self)
        ensures
            r == Pubkey(0),
    {
        Pubkey(0)
    }
}

/// Largest allowed member set of a multisig configuration.
pub const MAX_MEMBERS: usize = 8;

/// Largest allowed approval set of a proposal.
pub const MAX_APPROVALS: usize = 16;

/// Largest allowed proposal description, in encoded bytes.
pub const MAX_DESC: usize = 256;

/// Minimum timelock between quorum and execution: 48 hours, in seconds.
pub const MIN_TIMELOCK_SECS: i64 = 48 * 60 * 60;

/// Lifecycle status of an upgrade proposal.
#[derive(Clone, Copy, Debug, PartialEq, Eq, Structural)]
pub enum UpgradeStatus {
    Proposed,
    Approved,
    TimelockActive,
    Executed,
    Cancelled,
}

/// Every way a governance operation can be refused. Each operation's
/// contract states exactly which inputs yield which variant.
#[derive(Clone, Copy, Debug, PartialEq, Eq, Structural)]
pub enum UpgradeError {
    /// Malformed or oversized input (bad threshold, oversized description).
    Validation,
    /// Caller is not a member of the multisig configuration.
    NotMultisigMember,
    /// The approver is already in the proposal's approval set.
    AlreadyApproved,
    /// The proposal's status does not admit the requested transition.
    InvalidStatus,
    /// Execution was attempted before the timelock deadline.
    TimelockNotElapsed,
    /// The approval count is below the proposal's snapshotted threshold.
    InsufficientApprovals,
    /// The proposal was already executed and is immutable.
    AlreadyExecuted,
    /// The record's migration flag was already set.
    AlreadyMigrated,
}

/// The fixed set of member principals, the live approval threshold, and the
/// upgrade-authority principal.
#[derive(Clone, Debug)]
pub struct MultisigConfig {
    pub members: Vec<Pubkey>,
    pub threshold: u8,
    pub upgrade_authority: Pubkey,
}

impl MultisigConfig {
    /// Validity: at least one member, at most [`MAX_MEMBERS`], and a
    /// threshold between one and the member count.
    pub open spec fn wf(self) -> bool {
        &&& 1 <= self.threshold as int <= self.members@.len()
        &&& self.members@.len() <= MAX_MEMBERS as int
    }
}

/// Immutable audit record written by a successful execution: the new code
/// hash, the execution and proposal times, and the exact approver set
/// credited.
#[derive(Clone, Debug)]
pub struct PendingUpgrade {
    pub new_program_hash: [u8; 32],
    pub scheduled_time: i64,
    pub proposal_time: i64,
    pub approved_by: Vec<Pubkey>,
}

/// Singleton governed state of one artifact: its authority, the buffer
/// currently pending, the timelock duration, and at most one
/// [`PendingUpgrade`] snapshot.
#[derive(Clone, Debug)]
pub struct ProgramUpgradeState {
    pub authority: Pubkey,
    pub upgrade_buffer: Pubkey,
    pub timelock_duration: i64,
    pub pending_upgrade: Option<PendingUpgrade>,
}

impl ProgramUpgradeState {
    /// Validity: the timelock duration never sits below the 48-hour floor.
    pub open spec fn wf(self) -> bool {
        self.timelock_duration >= MIN_TIMELOCK_SECS
    }
}

/// One submitted change, tracked through its whole lifecycle.
#[derive(Clone, Debug)]
pub struct UpgradeProposal {
    pub id: u64,
    pub proposer: Pubkey,
    pub program: Pubkey,
    pub new_buffer: Pubkey,
    pub description: String,
    pub proposed_at: i64,
    pub timelock_until: i64,
    pub approvals: Vec<Pubkey>,
    pub approval_threshold: u8,
    pub status: UpgradeStatus,
    pub executed_at: Option<i64>,
}

/// Quorum: the approval count has reached the threshold snapshotted into the
/// proposal at creation time. The live configuration plays no part.
pub open spec fn quorum_reached(p: UpgradeProposal) -> bool {
    p.approvals@.len() >= p.approval_threshold as int
}

/// An approval by `approver` is admissible: the approver is a current
/// member, has not approved yet, and the proposal is still open.
pub open spec fn can_approve(cfg: MultisigConfig, p: UpgradeProposal, approver: Pubkey) -> bool {
    &&& cfg.members@.contains(approver)
    &&& !p.approvals@.contains(approver)
    &&& (p.status == UpgradeStatus::Proposed || p.status == UpgradeStatus::Approved)
}

/// Execution is admissible: the timelock is running, its deadline has
/// passed, and the approval count still covers the snapshotted threshold.
pub open spec fn can_execute(p: UpgradeProposal, now: i64) -> bool {
    &&& p.status == UpgradeStatus::TimelockActive
    &&& now >= p.timelock_until
    &&& quorum_reached(p)
}

/// Cancellation is admissible: the canceller is a current member and the
/// proposal was not executed. Repeating a cancel is a no-op success.
pub open spec fn can_cancel(cfg: MultisigConfig, p: UpgradeProposal, canceller: Pubkey) -> bool {
    &&& cfg.members@.contains(canceller)
    &&& p.status != UpgradeStatus::Executed
}

impl UpgradeProposal {
    /// Validity of a proposal record: distinct approvers, a positive
    /// snapshotted threshold, a bounded description, quorum wherever the
    /// status claims it, and an execution time exactly on executed
    /// proposals.
    pub open spec fn wf(self) -> bool {
        &&& self.approvals@.no_duplicates()
        &&& 1 <= self.approval_threshold as int
        &&& encode_utf8(self.description@).len() <= MAX_DESC as int
        &&& ((self.status == UpgradeStatus::TimelockActive || self.status == UpgradeStatus::Executed)
            ==> quorum_reached(self))
        &&& (self.status == UpgradeStatus::Executed <==> self.executed_at is Some)
    }

    /// Every credited approver is drawn from `members`.
    pub open spec fn approvers_within(self, members: Seq<Pubkey>) -> bool {
        forall|i: int|
            0 <= i < self.approvals@.len() ==> members.contains(#[trigger] self.approvals@[i])
    }
}

/// Whether `key` occurs in `list`.
pub fn is_member(list: &Vec<Pubkey>, key: Pubkey) -> (r: bool)
    ensures
        r == list@.contains(key),
{
    let mut i: usize = 0;
    while i < list.len()
        invariant
            0 <= i <= list@.len(),
            forall|j: int| 0 <= j < i ==> list@[j] != key,
        decreases list@.len() - i,
    {
        if list[i] == key {
            assert(list@.contains(key)) by {
                assert(list@[i as int] == key);
            }
            return true;
        }
        i = i + 1;
    }
    false
}

/// An exact copy of a principal list.
fn copy_keys(list: &Vec<Pubkey>) -> (r: Vec<Pubkey>)
    ensures
        r@ == list@,
{
    let mut out: Vec<Pubkey> = Vec::new();
    let mut i: usize = 0;
    while i < list.len()
        invariant
            0 <= i <= list@.len(),
            out@ == list@.subrange(0, i as int),
        decreases list@.len() - i,
    {
        out.push(list[i]);
        assert(out@ == list@.subrange(0, i as int + 1));
        i = i + 1;
    }
    assert(list@.subrange(0, list@.len() as int) == list@);
    out
}

/// Creates the membership configuration and the singleton governed state.
///
/// Fails `Validation` exactly when the threshold is zero, the threshold
/// exceeds the member count, or the member count exceeds [`MAX_MEMBERS`].
/// The timelock duration is clamped up to [`MIN_TIMELOCK_SECS`]; no pending
/// upgrade and no buffer are set.
pub fn init_config(
    members: Vec<Pubkey>,
    threshold: u8,
    timelock_duration: i64,
    authority: Pubkey,
) -> (r: Result<(MultisigConfig, ProgramUpgradeState), UpgradeError>)
    ensures
        r is Ok <==> (1 <= threshold as int <= members@.len() <= MAX_MEMBERS as int),
        r matches Ok((cfg, st)) ==> {
            &&& cfg.members@ == members@
            &&& cfg.threshold == threshold
            &&& cfg.upgrade_authority == authority
            &&& cfg.wf()
            &&& st.authority == authority
            &&& st.upgrade_buffer == Pubkey(0)
            &&& st.timelock_duration == (if timelock_duration >= MIN_TIMELOCK_SECS {
                timelock_duration
            } else {
                MIN_TIMELOCK_SECS
            })
            &&& st.pending_upgrade is None
            &&& st.wf()
        },
        r is Err ==> r == Err::<(MultisigConfig, ProgramUpgradeState), UpgradeError>(
            UpgradeError::Validation,
        ),
{
    if threshold == 0 || threshold as usize > members.len() || members.len() > MAX_MEMBERS {
        return Err(UpgradeError::Validation);
    }
    let cfg = MultisigConfig { members, threshold, upgrade_authority: authority };
    let st = ProgramUpgradeState {
        authority,
        upgrade_buffer: Pubkey::default(),
        timelock_duration: if timelock_duration >= MIN_TIMELOCK_SECS {
            timelock_duration
        } else {
            MIN_TIMELOCK_SECS
        },
        pending_upgrade: None,
    };
    Ok((cfg, st))
}

/// Announcement of a freshly created proposal.
#[derive(Clone, Copy, Debug, PartialEq, Eq, Structural)]
pub struct ProposalEvent {
    pub proposal: u64,
    pub program: Pubkey,
    pub buffer: Pubkey,
}

/// Announcement of an executed proposal.
#[derive(Clone, Copy, Debug, PartialEq, Eq, Structural)]
pub struct UpgradeExecutedEvent {
    pub proposal: u64,
    pub program: Pubkey,
}

/// Creates a proposal in status `Proposed` with an empty approval set and
/// the threshold snapshotted from the *current* configuration; later
/// threshold edits never move the bar for this proposal.
///
/// Fails `Validation` exactly when the description exceeds [`MAX_DESC`]
/// bytes; nothing is created then.
pub fn propose_upgrade(
    cfg: &MultisigConfig,
    id: u64,
    proposer: Pubkey,
    target_program: Pubkey,
    new_program_buffer: Pubkey,
    description: String,
    now: i64,
) -> (r: Result<(UpgradeProposal, ProposalEvent), UpgradeError>)
    requires
        cfg.wf(),
    ensures
        r is Ok <==> encode_utf8(description@).len() <= MAX_DESC as int,
        r matches Ok((p, ev)) ==> {
            &&& p.id == id
            &&& p.proposer == proposer
            &&& p.program == target_program
            &&& p.new_buffer == new_program_buffer
            &&& p.description@ == description@
            &&& p.proposed_at == now
            &&& p.timelock_until == 0
            &&& p.approvals@ == Seq::<Pubkey>::empty()
            &&& p.approval_threshold == cfg.threshold
            &&& p.status == UpgradeStatus::Proposed
            &&& p.executed_at is None
            &&& p.wf()
            &&& p.approvers_within(cfg.members@)
            &&& ev == (ProposalEvent { proposal: id, program: target_program, buffer: new_program_buffer })
        },
        r is Err ==> r == Err::<(UpgradeProposal, ProposalEvent), UpgradeError>(
            UpgradeError::Validation,
        ),
{
    if description.as_str().as_bytes().len() > MAX_DESC {
        return Err(UpgradeError::Validation);
    }
    let proposal = UpgradeProposal {
        id,
        proposer,
        program: target_program,
        new_buffer: new_program_buffer,
        description,
        proposed_at: now,
        timelock_until: 0,
        approvals: Vec::new(),
        approval_threshold: cfg.threshold,
        status: UpgradeStatus::Proposed,
        executed_at: None,
    };
    let event = ProposalEvent {
        proposal: id,
        program: target_program,
        buffer: new_program_buffer,
    };
    Ok((proposal, event))
}

/// Adds one member approval to an open proposal. On reaching the
/// snapshotted threshold the proposal enters `TimelockActive` and its
/// deadline is set to `now` plus the governed state's timelock duration;
/// below the threshold it (re-)enters `Approved`.
///
/// Fails, leaving the proposal untouched: `NotMultisigMember` when the
/// approver is not a current member; else `AlreadyApproved` when the
/// approver already approved; else `InvalidStatus` unless the status is
/// `Proposed` or `Approved`.
pub fn approve_upgrade(
    cfg: &MultisigConfig,
    st: &ProgramUpgradeState,
    proposal: &mut UpgradeProposal,
    approver: Pubkey,
    now: i64,
) -> (r: Result<(), UpgradeError>)
    requires
        i64::MIN <= now + st.timelock_duration <= i64::MAX,
    ensures
        r is Ok <==> can_approve(*cfg, *old(proposal), approver),
        !cfg.members@.contains(approver) ==> r == Err::<(), UpgradeError>(
            UpgradeError::NotMultisigMember,
        ),
        cfg.members@.contains(approver) && old(proposal).approvals@.contains(approver) ==> r
            == Err::<(), UpgradeError>(UpgradeError::AlreadyApproved),
        cfg.members@.contains(approver) && !old(proposal).approvals@.contains(approver) && !(old(proposal).status == UpgradeStatus::Proposed || old(proposal).status == UpgradeStatus::Approved)
            ==> r == Err::<(), UpgradeError>(UpgradeError::InvalidStatus),
        r is Err ==> *final(proposal) == *old(proposal),
        r is Ok ==> {
            &&& final(proposal).approvals@ == old(proposal).approvals@.push(approver)
            &&& (quorum_reached(*final(proposal)) ==> final(proposal).status
                == UpgradeStatus::TimelockActive && final(proposal).timelock_until == now
                + st.timelock_duration)
            &&& (!quorum_reached(*final(proposal)) ==> final(proposal).status
                == UpgradeStatus::Approved && final(proposal).timelock_until == old(proposal).timelock_until)
            &&& final(proposal).id == old(proposal).id
            &&& final(proposal).proposer == old(proposal).proposer
            &&& final(proposal).program == old(proposal).program
            &&& final(proposal).new_buffer == old(proposal).new_buffer
            &&& final(proposal).description == old(proposal).description
            &&& final(proposal).proposed_at == old(proposal).proposed_at
            &&& final(proposal).approval_threshold == old(proposal).approval_threshold
            &&& final(proposal).executed_at == old(proposal).executed_at
        },
        old(proposal).wf() ==> final(proposal).wf(),
        old(proposal).wf() && old(proposal).approvers_within(cfg.members@) ==> final(proposal).approvers_within(cfg.members@),
{
    if !is_member(&cfg.members, approver) {
        return Err(UpgradeError::NotMultisigMember);
    }
    if is_member(&proposal.approvals, approver) {
        return Err(UpgradeError::AlreadyApproved);
    }
    if !(proposal.status == UpgradeStatus::Proposed || proposal.status == UpgradeStatus::Approved) {
        return Err(UpgradeError::InvalidStatus);
    }
    proposal.approvals.push(approver);
    if proposal.approvals.len() >= proposal.approval_threshold as usize {
        proposal.status = UpgradeStatus::TimelockActive;
        proposal.timelock_until = now + st.timelock_duration;
    } else {
        proposal.status = UpgradeStatus::Approved;
    }
    Ok(())
}

/// Executes a proposal whose timelock has elapsed: writes the
/// [`PendingUpgrade`] audit snapshot (hash, times, exact approver set) into
/// the governed state, sets status `Executed` and the execution time, and
/// announces the execution. Terminal.
///
/// Fails, leaving proposal and state untouched: `InvalidStatus` unless the
/// status is `TimelockActive`; else `TimelockNotElapsed` while `now` sits
/// before the deadline; else `InsufficientApprovals` if the approval count
/// dropped below the snapshotted threshold (a defensive re-check).
pub fn execute_upgrade(
    st: &mut ProgramUpgradeState,
    proposal: &mut UpgradeProposal,
    new_program_hash: [u8; 32],
    now: i64,
) -> (r: Result<UpgradeExecutedEvent, UpgradeError>)
    ensures
        r is Ok <==> can_execute(*old(proposal), now),
        old(proposal).status != UpgradeStatus::TimelockActive ==> r == Err::<
            UpgradeExecutedEvent,
            UpgradeError,
        >(UpgradeError::InvalidStatus),
        old(proposal).status == UpgradeStatus::TimelockActive && now < old(proposal).timelock_until
            ==> r == Err::<UpgradeExecutedEvent, UpgradeError>(UpgradeError::TimelockNotElapsed),
        old(proposal).status == UpgradeStatus::TimelockActive && now >= old(proposal).timelock_until && !quorum_reached(*old(proposal)) ==> r == Err::<
            UpgradeExecutedEvent,
            UpgradeError,
        >(UpgradeError::InsufficientApprovals),
        r is Err ==> *final(proposal) == *old(proposal) && *final(st) == *old(st),
        r matches Ok(ev) ==> {
            &&& final(proposal).status == UpgradeStatus::Executed
            &&& final(proposal).executed_at == Some(now)
            &&& final(proposal).id == old(proposal).id
            &&& final(proposal).proposer == old(proposal).proposer
            &&& final(proposal).program == old(proposal).program
            &&& final(proposal).new_buffer == old(proposal).new_buffer
            &&& final(proposal).description == old(proposal).description
            &&& final(proposal).proposed_at == old(proposal).proposed_at
            &&& final(proposal).timelock_until == old(proposal).timelock_until
            &&& final(proposal).approvals == old(proposal).approvals
            &&& final(proposal).approval_threshold == old(proposal).approval_threshold
            &&& (final(st).pending_upgrade matches Some(pu) && pu.new_program_hash
                == new_program_hash && pu.scheduled_time == now && pu.proposal_time == old(proposal).proposed_at && pu.approved_by@ == old(proposal).approvals@)
            &&& final(st).authority == old(st).authority
            &&& final(st).upgrade_buffer == old(st).upgrade_buffer
            &&& final(st).timelock_duration == old(st).timelock_duration
            &&& ev == (UpgradeExecutedEvent { proposal: old(proposal).id, program: old(proposal).program })
        },
        old(proposal).wf() ==> final(proposal).wf(),
        old(st).wf() ==> final(st).wf(),
{
    if proposal.status != UpgradeStatus::TimelockActive {
        return Err(UpgradeError::InvalidStatus);
    }
    if now < proposal.timelock_until {
        return Err(UpgradeError::TimelockNotElapsed);
    }
    if proposal.approvals.len() < proposal.approval_threshold as usize {
        return Err(UpgradeError::InsufficientApprovals);
    }
    st.pending_upgrade = Some(
        PendingUpgrade {
            new_program_hash,
            scheduled_time: now,
            proposal_time: proposal.proposed_at,
            approved_by: copy_keys(&proposal.approvals),
        },
    );
    proposal.status = UpgradeStatus::Executed;
    proposal.executed_at = Some(now);
    Ok(UpgradeExecutedEvent { proposal: proposal.id, program: proposal.program })
}

/// Cancels a proposal from any status but `Executed`; cancelling an already
/// cancelled proposal is a no-op success. Terminal.
///
/// Fails, leaving the proposal untouched: `NotMultisigMember` when the
/// canceller is not a current member; else `AlreadyExecuted` when the
/// proposal was executed.
pub fn cancel_upgrade(
    cfg: &MultisigConfig,
    proposal: &mut UpgradeProposal,
    canceller: Pubkey,
) -> (r: Result<(), UpgradeError>)
    ensures
        r is Ok <==> can_cancel(*cfg, *old(proposal), canceller),
        !cfg.members@.contains(canceller) ==> r == Err::<(), UpgradeError>(
            UpgradeError::NotMultisigMember,
        ),
        cfg.members@.contains(canceller) && old(proposal).status == UpgradeStatus::Executed ==> r
            == Err::<(), UpgradeError>(UpgradeError::AlreadyExecuted),
        r is Err ==> *final(proposal) == *old(proposal),
        r is Ok ==> {
            &&& final(proposal).status == UpgradeStatus::Cancelled
            &&& final(proposal).id == old(proposal).id
            &&& final(proposal).proposer == old(proposal).proposer
            &&& final(proposal).program == old(proposal).program
            &&& final(proposal).new_buffer == old(proposal).new_buffer
            &&& final(proposal).description == old(proposal).description
            &&& final(proposal).proposed_at == old(proposal).proposed_at
            &&& final(proposal).timelock_until == old(proposal).timelock_until
            &&& final(proposal).approvals == old(proposal).approvals
            &&& final(proposal).approval_threshold == old(proposal).approval_threshold
            &&& final(proposal).executed_at == old(proposal).executed_at
        },
        old(proposal).wf() ==> final(proposal).wf(),
{
    if !is_member(&cfg.members, canceller) {
        return Err(UpgradeError::NotMultisigMember);
    }
    if proposal.status == UpgradeStatus::Executed {
        return Err(UpgradeError::AlreadyExecuted);
    }
    proposal.status = UpgradeStatus::Cancelled;
    Ok(())
}

/// Per-record version marker with a one-way migration flag.
#[derive(Clone, Copy, Debug, PartialEq, Eq, Structural)]
pub struct AccountVersion {
    pub version: u32,
    pub migrated: bool,
    pub migrated_at: Option<i64>,
}

/// Flips a record's migration flag exactly once and records the time.
///
/// Fails `AlreadyMigrated`, leaving the record unchanged, exactly when the
/// flag is already set: idempotency is enforced, not assumed.
pub fn migrate_account(ver: &mut AccountVersion, now: i64) -> (r: Result<(), UpgradeError>)
    ensures
        r is Ok <==> !old(ver).migrated,
        old(ver).migrated ==> r == Err::<(), UpgradeError>(UpgradeError::AlreadyMigrated) && *final(ver) == *old(ver),
        r is Ok ==> {
            &&& final(ver).migrated
            &&& final(ver).migrated_at == Some(now)
            &&& final(ver).version == old(ver).version
        },
{
    if ver.migrated {
        return Err(UpgradeError::AlreadyMigrated);
    }
    ver.migrated = true;
    ver.migrated_at = Some(now);
    Ok(())
}

/// Law: a proposal whose approvers are all drawn from the configuration's
/// member list, with no duplicates, never has more approvals than the
/// configuration has members.
pub proof fn lemma_approvals_bounded(p: UpgradeProposal, cfg: MultisigConfig)
    requires
        p.approvals@.no_duplicates(),
        p.approvers_within(cfg.members@),
    ensures
        p.approvals@.len() <= cfg.members@.len(),
{
    broadcast use vstd::seq_lib::seq_to_set_is_finite;

    p.approvals@.unique_seq_to_set();
    cfg.members@.lemma_cardinality_of_set();
    assert(p.approvals@.to_set().subset_of(cfg.members@.to_set())) by {
        assert forall|x: Pubkey| p.approvals@.to_set().contains(x) implies cfg.members@.to_set()
            .contains(x) by {
            assert(p.approvals@.contains(x));
            let i = choose|i: int| 0 <= i < p.approvals@.len() && p.approvals@[i] == x;
            assert(cfg.members@.contains(p.approvals@[i]));
        }
    }
    lemma_len_subset(p.approvals@.to_set(), cfg.members@.to_set());
}

/// Law: the quorum bar of an open proposal is its own snapshotted
/// threshold. Whether an approval or a cancellation is admissible depends
/// only on the member list and the proposal, never on the configuration's
/// live threshold; quorum ([`quorum_reached`]) and execution
/// ([`can_execute`]) take no configuration at all.
pub proof fn lemma_threshold_snapshot(
    cfg1: MultisigConfig,
    cfg2: MultisigConfig,
    p: UpgradeProposal,
    who: Pubkey,
)
    requires
        cfg1.members@ == cfg2.members@,
    ensures
        can_approve(cfg1, p, who) == can_approve(cfg2, p, who),
        can_cancel(cfg1, p, who) == can_cancel(cfg2, p, who),
{
}

} // verus!
