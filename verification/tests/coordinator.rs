use upgrade_governance::upgrade_manager::Pubkey;
use upgrade_governance::upgrade_service::{
    InMemoryMultisig, LogNotifier, MultisigManager, NoopProgramClient, Notification,
    NotificationService, NotificationType, ProgramClient, ProgramUpgrade, ProposalParams,
    UpgradeError,
};

/// A multisig double that records every submission and can be told to fail.
struct RecordingMultisig {
    proposed: Vec<ProposalParams>,
    fail: bool,
}

impl RecordingMultisig {
    fn new(fail: bool) -> Self {
        RecordingMultisig { proposed: Vec::new(), fail }
    }
}

impl MultisigManager for RecordingMultisig {
    fn propose_transaction(&mut self, params: ProposalParams) -> Result<String, String> {
        if self.fail {
            return Err(String::from("multisig down"));
        }
        self.proposed.push(params);
        Ok(format!("proposal-{}", self.proposed.len()))
    }

    fn approve(&mut self, _proposal_id: &str) -> Result<(), String> {
        if self.fail {
            return Err(String::from("multisig down"));
        }
        Ok(())
    }

    fn cancel(&mut self, _proposal_id: &str) -> Result<(), String> {
        if self.fail {
            return Err(String::from("multisig down"));
        }
        Ok(())
    }
}

/// A notification double that records every event and can be told to fail.
struct RecordingNotifier {
    notes: Vec<Notification>,
    fail: bool,
}

impl RecordingNotifier {
    fn new(fail: bool) -> Self {
        RecordingNotifier { notes: Vec::new(), fail }
    }
}

impl NotificationService for RecordingNotifier {
    fn notify_community(&mut self, n: Notification) -> Result<(), String> {
        if self.fail {
            return Err(String::from("channel down"));
        }
        self.notes.push(n);
        Ok(())
    }
}

/// A program-client double that records metadata calls and can be told to
/// fail either call.
struct RecordingClient {
    recorded: Vec<(String, Pubkey, [u8; 32])>,
    fail_build: bool,
    fail_record: bool,
}

impl RecordingClient {
    fn new(fail_build: bool, fail_record: bool) -> Self {
        RecordingClient { recorded: Vec::new(), fail_build, fail_record }
    }
}

impl ProgramClient for RecordingClient {
    fn build_upgrade_ix(&mut self, new_program_buffer: &Pubkey) -> Result<Vec<u8>, String> {
        if self.fail_build {
            return Err(String::from("cannot build payload"));
        }
        Ok(vec![new_program_buffer.0 as u8])
    }

    fn record_upgrade_metadata(
        &mut self,
        proposal_id: &str,
        new_buffer: &Pubkey,
        hash: &[u8; 32],
    ) -> Result<(), String> {
        if self.fail_record {
            return Err(String::from("cannot record metadata"));
        }
        self.recorded.push((proposal_id.to_owned(), *new_buffer, *hash));
        Ok(())
    }
}

fn coordinator(
    multisig_fails: bool,
    notifier_fails: bool,
    build_fails: bool,
    record_fails: bool,
) -> ProgramUpgrade<RecordingMultisig, RecordingNotifier, RecordingClient> {
    ProgramUpgrade::new(
        RecordingMultisig::new(multisig_fails),
        RecordingNotifier::new(notifier_fails),
        RecordingClient::new(build_fails, record_fails),
    )
}

#[test]
fn propose_runs_build_submit_notify_in_order() {
    let mut c = coordinator(false, false, false, false);
    let id = c.propose_upgrade(&Pubkey(60), "v2.0").unwrap();
    assert_eq!(id, "proposal-1");
    assert_eq!(c.open_proposal_count(), 1);

    assert_eq!(c.multisig.proposed.len(), 1);
    assert_eq!(c.multisig.proposed[0].description, "Upgrade to v2.0");
    assert_eq!(c.multisig.proposed[0].timelock_secs, 48 * 60 * 60);
    assert_eq!(c.multisig.proposed[0].instruction, vec![60u8]);

    assert_eq!(c.notification_service.notes.len(), 1);
    let note = &c.notification_service.notes[0];
    assert_eq!(note.notification_type, NotificationType::ProgramUpgrade);
    assert_eq!(note.proposal_id, "proposal-1");
    assert_eq!(note.message, "Upgrade to v2.0");
}

#[test]
fn propose_aborts_before_the_ledger_when_build_fails() {
    let mut c = coordinator(false, false, true, false);
    let r = c.propose_upgrade(&Pubkey(60), "v2.0");
    assert!(matches!(r, Err(UpgradeError::Program(_))));
    // no proposal exists and nothing was notified
    assert!(c.multisig.proposed.is_empty());
    assert!(c.notification_service.notes.is_empty());
    assert_eq!(c.open_proposal_count(), 0);
}

#[test]
fn propose_sends_no_notification_when_submission_fails() {
    let mut c = coordinator(true, false, false, false);
    let r = c.propose_upgrade(&Pubkey(60), "v2.0");
    assert!(matches!(r, Err(UpgradeError::Multisig(_))));
    assert!(c.notification_service.notes.is_empty());
    assert_eq!(c.open_proposal_count(), 0);
}

#[test]
fn propose_keeps_the_proposal_when_notification_fails() {
    let mut c = coordinator(false, true, false, false);
    let r = c.propose_upgrade(&Pubkey(60), "v2.0");
    assert!(matches!(r, Err(UpgradeError::Notification(_))));
    // the committed proposal stands; only the counter stays untouched
    assert_eq!(c.multisig.proposed.len(), 1);
    assert_eq!(c.open_proposal_count(), 0);
}

#[test]
fn approve_delegates_to_the_multisig() {
    let mut c = coordinator(false, false, false, false);
    assert!(c.approve_upgrade("proposal-1").is_ok());
    assert_eq!(c.open_proposal_count(), 0);

    let mut failing = coordinator(true, false, false, false);
    let r = failing.approve_upgrade("proposal-1");
    assert!(matches!(r, Err(UpgradeError::Multisig(_))));
    assert!(failing.notification_service.notes.is_empty());
}

#[test]
fn cancel_notifies_after_the_multisig_accepts() {
    let mut c = coordinator(false, false, false, false);
    c.cancel_upgrade("proposal-1").unwrap();
    assert_eq!(c.notification_service.notes.len(), 1);
    let note = &c.notification_service.notes[0];
    assert_eq!(note.notification_type, NotificationType::ProgramUpgradeCancelled);
    assert_eq!(note.proposal_id, "proposal-1");
    assert_eq!(note.message, "Upgrade proposal cancelled");
}

#[test]
fn cancel_sends_no_notification_when_the_multisig_refuses() {
    let mut c = coordinator(true, false, false, false);
    let r = c.cancel_upgrade("proposal-1");
    assert!(matches!(r, Err(UpgradeError::Multisig(_))));
    assert!(c.notification_service.notes.is_empty());
}

#[test]
fn cancel_stands_when_notification_fails() {
    let mut c = coordinator(false, true, false, false);
    let r = c.cancel_upgrade("proposal-1");
    assert!(matches!(r, Err(UpgradeError::Notification(_))));
}

#[test]
fn record_execution_notifies_then_closes_the_proposal() {
    let mut c = coordinator(false, false, false, false);
    c.propose_upgrade(&Pubkey(60), "v2.0").unwrap();
    assert_eq!(c.open_proposal_count(), 1);

    c.record_execution("proposal-1", &Pubkey(60), [5u8; 32]).unwrap();
    assert_eq!(c.open_proposal_count(), 0);
    assert_eq!(c.program_client.recorded.len(), 1);
    assert_eq!(
        c.program_client.recorded[0],
        (String::from("proposal-1"), Pubkey(60), [5u8; 32])
    );
    assert_eq!(c.notification_service.notes.len(), 2);
    let note = &c.notification_service.notes[1];
    assert_eq!(note.notification_type, NotificationType::ProgramUpgradeExecuted);
    assert_eq!(note.message, "Upgrade executed");
}

#[test]
fn record_execution_floors_the_counter_at_zero() {
    let mut c = coordinator(false, false, false, false);
    c.record_execution("proposal-1", &Pubkey(60), [5u8; 32]).unwrap();
    assert_eq!(c.open_proposal_count(), 0);
}

#[test]
fn record_execution_aborts_before_notifying_when_recording_fails() {
    let mut c = coordinator(false, false, false, true);
    c.propose_upgrade(&Pubkey(60), "v2.0").unwrap();
    let r = c.record_execution("proposal-1", &Pubkey(60), [5u8; 32]);
    assert!(matches!(r, Err(UpgradeError::Program(_))));
    assert_eq!(c.notification_service.notes.len(), 1); // only the propose note
    assert_eq!(c.open_proposal_count(), 1);
}

#[test]
fn record_execution_keeps_the_counter_when_notification_fails() {
    let mut c = coordinator(false, false, false, false);
    c.propose_upgrade(&Pubkey(60), "v2.0").unwrap();
    c.notification_service.fail = true;
    let r = c.record_execution("proposal-1", &Pubkey(60), [5u8; 32]);
    assert!(matches!(r, Err(UpgradeError::Notification(_))));
    assert_eq!(c.program_client.recorded.len(), 1);
    assert_eq!(c.open_proposal_count(), 1);
}

#[test]
fn development_stubs_accept_a_full_round() {
    let mut c = ProgramUpgrade::new(InMemoryMultisig, LogNotifier, NoopProgramClient);
    let id = c.propose_upgrade(&Pubkey(60), "v1.1").unwrap();
    // the in-memory multisig mints hyphenated 36-character identifiers
    assert_eq!(id.len(), 36);
    assert_eq!(c.open_proposal_count(), 1);
    assert!(c.approve_upgrade(&id).is_ok());
    assert!(c.cancel_upgrade(&id).is_ok());
    c.record_execution(&id, &Pubkey(60), [0u8; 32]).unwrap();
    assert_eq!(c.open_proposal_count(), 0);
}
