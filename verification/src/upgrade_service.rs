//! The upgrade coordinator: drives a proposal end-to-end over three injected
//! collaborators — a multisig backend, a notification channel and a program
//! client — and preserves its partial-failure policy.
//!
//! The policy, stated in every method's contract: steps run in a strict
//! order; a failed step aborts before the next one starts; a notification
//! failure is surfaced but never rolls back a committed step; the
//! open-proposal counter moves only on full success.

use vstd::prelude::*;
use crate::upgrade_manager::{Pubkey, MIN_TIMELOCK_SECS};

verus! {

/// A collaborator failure, tagged with the stage that failed, or a rejected
/// input. The payload is the collaborator's own message.
#[derive(Clone, Debug)]
pub enum UpgradeError {
    /// The multisig backend refused or failed the call.
    Multisig(String),
    /// The program client refused or failed the call.
    Program(String),
    /// The notification channel failed to deliver.
    Notification(String),
    /// Malformed input.
    Validation(String),
}

/// What a community notification announces.
#[derive(Clone, Copy, Debug, PartialEq, Eq, Structural)]
pub enum NotificationType {
    ProgramUpgrade,
    ProgramUpgradeExecuted,
    ProgramUpgradeCancelled,
}

/// A human-readable event for interested parties, stamped with whole-second
/// Unix time.
#[derive(Clone, Debug)]
pub struct Notification {
    pub notification_type: NotificationType,
    pub proposal_id: String,
    pub message: String,
    pub created_at: i64,
}

/// What the coordinator submits to the multisig backend.
#[derive(Clone, Debug)]
pub struct ProposalParams {
    pub instruction: Vec<u8>,
    pub description: String,
    pub timelock_secs: i64,
}

/// The multisig backend that owns proposal records. Implementations decide
/// every outcome; a failure is reported as a plain message.
pub trait MultisigManager {
    fn propose_transaction(&mut self, params: ProposalParams) -> Result<String, String>;

    fn approve(&mut self, proposal_id: &str) -> Result<(), String>;

    fn cancel(&mut self, proposal_id: &str) -> Result<(), String>;
}

/// The channel that delivers community notifications. A delivery failure is
/// a distinct, surfaced outcome, never silently dropped.
pub trait NotificationService {
    fn notify_community(&mut self, n: Notification) -> Result<(), String>;
}

/// The client of the governed program: builds the opaque change payload and
/// records post-execution metadata.
pub trait ProgramClient {
    fn build_upgrade_ix(&mut self, new_program_buffer: &Pubkey) -> Result<Vec<u8>, String>;

    fn record_upgrade_metadata(
        &mut self,
        proposal_id: &str,
        new_buffer: &Pubkey,
        hash: &[u8; 32],
    ) -> Result<(), String>;
}

/// Relies on chrono's `Utc::now` and `DateTime::timestamp`: the current
/// wall-clock instant as whole seconds since the Unix epoch. The value
/// depends on the system clock, so nothing is promised of it.
#[verifier::external_body]
fn unix_now() -> i64 {
    chrono::Utc::now().timestamp()
}

/// Relies on uuid's `Uuid::new_v4` and its `Display` form: a fresh random
/// identifier rendered hyphenated, which is always 36 characters. The value
/// is random, so only its length is stated.
#[verifier::external_body]
fn fresh_proposal_id() -> (r: String)
    ensures
        r@.len() == 36,
{
    uuid::Uuid::new_v4().to_string()
}

/// Relies on std's `format!`: `{}` on a `&str` appends exactly that string,
/// so the result is the fixed prefix followed by the label.
#[verifier::external_body]
fn upgrade_description(version_label: &str) -> (r: String)
    ensures
        r@ == "Upgrade to "@ + version_label@,
{
    format!("Upgrade to {}", version_label)
}

/// The coordinator. Holds the three collaborators and a non-authoritative
/// counter of open proposals, a cache for operational visibility only.
pub struct ProgramUpgrade<M, N, P> {
    pub multisig: M,
    pub notification_service: N,
    pub program_client: P,
    pub open_proposals: usize,
}

impl<M: MultisigManager, N: NotificationService, P: ProgramClient> ProgramUpgrade<M, N, P> {
    /// A coordinator over the given collaborators, with no open proposal
    /// counted yet.
    pub fn new(multisig: M, notification_service: N, program_client: P) -> (r: Self)
        ensures
            r.multisig == multisig,
            r.notification_service == notification_service,
            r.program_client == program_client,
            r.open_proposals == 0,
    {
        ProgramUpgrade { multisig, notification_service, program_client, open_proposals: 0 }
    }

    /// How many proposals this coordinator has opened and not yet seen
    /// executed.
    pub fn open_proposal_count(&self) -> (n: usize)
        ensures
            n == self.open_proposals,
    {
        self.open_proposals
    }

    /// Proposes an upgrade: builds the payload, submits the proposal, then
    /// notifies the community, in that order.
    ///
    /// The contract is the partial-failure policy. A `Program` error means
    /// the payload build failed: the multisig backend was never reached (no
    /// proposal exists) and nothing was notified. A `Multisig` error means
    /// the submission failed: nothing was notified. A `Notification` error
    /// is surfaced, but the submitted proposal stands — delivery failure
    /// never rolls back a committed proposal. The counter moves, by one,
    /// only on full success.
    pub fn propose_upgrade(&mut self, new_program_buffer: &Pubkey, version_label: &str) -> (r:
        Result<String, UpgradeError>)
        requires
            old(self).open_proposals < usize::MAX,
        ensures
            match r {
                Ok(_) => final(self).open_proposals == old(self).open_proposals + 1,
                Err(e) => {
                    &&& final(self).open_proposals == old(self).open_proposals
                    &&& match e {
                        UpgradeError::Program(_) => final(self).multisig == old(self).multisig
                            && final(self).notification_service == old(self).notification_service,
                        UpgradeError::Multisig(_) => final(self).notification_service == old(
                            self,
                        ).notification_service,
                        UpgradeError::Notification(_) => true,
                        UpgradeError::Validation(_) => false,
                    }
                },
            },
    {
        let ix = match self.program_client.build_upgrade_ix(new_program_buffer) {
            Ok(ix) => ix,
            Err(e) => {
                return Err(UpgradeError::Program(e));
            },
        };
        let description = upgrade_description(version_label);
        let message = description.clone();
        let proposal_id = match self.multisig.propose_transaction(
            ProposalParams { instruction: ix, description, timelock_secs: MIN_TIMELOCK_SECS },
        ) {
            Ok(id) => id,
            Err(e) => {
                return Err(UpgradeError::Multisig(e));
            },
        };
        let note = Notification {
            notification_type: NotificationType::ProgramUpgrade,
            proposal_id: proposal_id.clone(),
            message,
            created_at: unix_now(),
        };
        match self.notification_service.notify_community(note) {
            Ok(_) => {},
            Err(e) => {
                return Err(UpgradeError::Notification(e));
            },
        }
        self.open_proposals = self.open_proposals + 1;
        Ok(proposal_id)
    }

    /// Approves a proposal: pure delegation to the multisig backend, with no
    /// coordinator-side state — the counter and the other collaborators are
    /// untouched, and the only possible error is a `Multisig` one.
    pub fn approve_upgrade(&mut self, proposal_id: &str) -> (r: Result<(), UpgradeError>)
        ensures
            final(self).open_proposals == old(self).open_proposals,
            final(self).notification_service == old(self).notification_service,
            final(self).program_client == old(self).program_client,
            r matches Err(e) ==> e matches UpgradeError::Multisig(_),
    {
        match self.multisig.approve(proposal_id) {
            Ok(_) => Ok(()),
            Err(e) => Err(UpgradeError::Multisig(e)),
        }
    }

    /// Cancels a proposal at the multisig backend, then notifies the
    /// community.
    ///
    /// A `Multisig` error means the cancel failed: nothing was notified. A
    /// `Notification` error is surfaced, but the cancel stands. The counter
    /// and the program client are untouched either way.
    pub fn cancel_upgrade(&mut self, proposal_id: &str) -> (r: Result<(), UpgradeError>)
        ensures
            final(self).open_proposals == old(self).open_proposals,
            final(self).program_client == old(self).program_client,
            r matches Err(e) ==> match e {
                UpgradeError::Multisig(_) => final(self).notification_service == old(
                    self,
                ).notification_service,
                UpgradeError::Notification(_) => true,
                UpgradeError::Program(_) => false,
                UpgradeError::Validation(_) => false,
            },
    {
        match self.multisig.cancel(proposal_id) {
            Ok(_) => {},
            Err(e) => {
                return Err(UpgradeError::Multisig(e));
            },
        }
        let note = Notification {
            notification_type: NotificationType::ProgramUpgradeCancelled,
            proposal_id: proposal_id.to_owned(),
            message: "Upgrade proposal cancelled".to_owned(),
            created_at: unix_now(),
        };
        match self.notification_service.notify_community(note) {
            Ok(_) => Ok(()),
            Err(e) => Err(UpgradeError::Notification(e)),
        }
    }

    /// Records an executed upgrade's metadata through the program client,
    /// then notifies the community, then counts the proposal closed.
    ///
    /// A `Program` error aborts first: nothing was notified and the counter
    /// is untouched (fail-fast, ordered pipeline). A `Notification` error is
    /// surfaced and also leaves the counter untouched. On full success the
    /// counter drops by one, floored at zero. The multisig backend plays no
    /// part.
    pub fn record_execution(
        &mut self,
        proposal_id: &str,
        new_program_buffer: &Pubkey,
        new_program_hash: [u8; 32],
    ) -> (r: Result<(), UpgradeError>)
        ensures
            final(self).multisig == old(self).multisig,
            match r {
                Ok(_) => final(self).open_proposals == (if old(self).open_proposals > 0 {
                    (old(self).open_proposals - 1) as usize
                } else {
                    0usize
                }),
                Err(e) => {
                    &&& final(self).open_proposals == old(self).open_proposals
                    &&& match e {
                        UpgradeError::Program(_) => final(self).notification_service == old(
                            self,
                        ).notification_service,
                        UpgradeError::Notification(_) => true,
                        UpgradeError::Multisig(_) => false,
                        UpgradeError::Validation(_) => false,
                    }
                },
            },
    {
        match self.program_client.record_upgrade_metadata(
            proposal_id,
            new_program_buffer,
            &new_program_hash,
        ) {
            Ok(_) => {},
            Err(e) => {
                return Err(UpgradeError::Program(e));
            },
        }
        let note = Notification {
            notification_type: NotificationType::ProgramUpgradeExecuted,
            proposal_id: proposal_id.to_owned(),
            message: "Upgrade executed".to_owned(),
            created_at: unix_now(),
        };
        match self.notification_service.notify_community(note) {
            Ok(_) => {},
            Err(e) => {
                return Err(UpgradeError::Notification(e));
            },
        }
        if self.open_proposals > 0 {
            self.open_proposals = self.open_proposals - 1;
        }
        Ok(())
    }
}

/// A multisig backend for local development: accepts every call and mints a
/// fresh random identifier for each proposal.
pub struct InMemoryMultisig;

impl MultisigManager for InMemoryMultisig {
    fn propose_transaction(&mut self, _params: ProposalParams) -> Result<String, String> {
        Ok(fresh_proposal_id())
    }

    fn approve(&mut self, _proposal_id: &str) -> Result<(), String> {
        Ok(())
    }

    fn cancel(&mut self, _proposal_id: &str) -> Result<(), String> {
        Ok(())
    }
}

/// A notification channel for local development that accepts every event
/// without delivering it anywhere.
pub struct LogNotifier;

impl NotificationService for LogNotifier {
    fn notify_community(&mut self, _n: Notification) -> Result<(), String> {
        Ok(())
    }
}

/// A program client for local development: an empty payload, and metadata
/// recording that always succeeds.
pub struct NoopProgramClient;

impl ProgramClient for NoopProgramClient {
    fn build_upgrade_ix(&mut self, _new_program_buffer: &Pubkey) -> Result<Vec<u8>, String> {
        Ok(Vec::new())
    }

    fn record_upgrade_metadata(
        &mut self,
        _proposal_id: &str,
        _new_buffer: &Pubkey,
        _hash: &[u8; 32],
    ) -> Result<(), String> {
        Ok(())
    }
}

} // verus!
