use superapp_openmls::identity::{IdentityAction, IdentityEvent, IdentityFlow};

fn step(flow: IdentityFlow, event: IdentityEvent) -> (IdentityFlow, IdentityAction) {
    assert!(flow.accepts(&event));
    flow.advance(event)
}

fn finish_outcome(action: IdentityAction) -> Result<(), String> {
    match action {
        IdentityAction::Finish(outcome) => outcome,
        _ => panic!("expected the flow to finish"),
    }
}

#[test]
fn identity_flow_starts_by_checking_the_record() {
    let (flow, action) = IdentityFlow::start("alice");
    assert!(matches!(action, IdentityAction::CheckRecord));
    assert_eq!(flow.device(), "alice");
}

#[test]
fn existing_record_leads_to_signer_lookup() {
    let (flow, _) = IdentityFlow::start("alice");
    let (flow, action) = step(flow, IdentityEvent::RecordPresent(true));
    assert!(matches!(action, IdentityAction::ReadRecord));
    let (flow, action) = step(flow, IdentityEvent::Record { public_key_base64: "AQID".to_string() });
    match action {
        IdentityAction::ReadSigner { public_key } => assert_eq!(public_key, vec![1u8, 2, 3]),
        _ => panic!("expected a signer lookup"),
    }
    let (_, action) = step(flow, IdentityEvent::SignerFound(true));
    assert_eq!(finish_outcome(action), Ok(()));
}

#[test]
fn missing_signer_is_reported_with_the_device() {
    let (flow, _) = IdentityFlow::start("alice");
    let (flow, _) = step(flow, IdentityEvent::RecordPresent(true));
    let (flow, _) = step(flow, IdentityEvent::Record { public_key_base64: "AQID".to_string() });
    let (flow, action) = step(flow, IdentityEvent::SignerFound(false));
    assert_eq!(finish_outcome(action), Err("persisted signer missing for device alice".to_string()));
    assert!(!flow.accepts(&IdentityEvent::Done));
}

#[test]
fn malformed_record_key_is_refused_with_the_decoder_message() {
    let (flow, _) = IdentityFlow::start("alice");
    let (flow, _) = step(flow, IdentityEvent::RecordPresent(true));
    let (_, action) = step(flow, IdentityEvent::Record { public_key_base64: "not base64!".to_string() });
    let message = finish_outcome(action).unwrap_err();
    assert!(message.starts_with("Invalid"), "{message}");
}

#[test]
fn unreadable_record_error_is_passed_on() {
    let (flow, _) = IdentityFlow::start("alice");
    let (flow, _) = step(flow, IdentityEvent::RecordPresent(true));
    let (_, action) = step(flow, IdentityEvent::Failed("expected value at line 1 column 1".to_string()));
    assert_eq!(finish_outcome(action), Err("expected value at line 1 column 1".to_string()));
}

#[test]
fn new_identity_is_generated_stored_and_recorded() {
    let (flow, _) = IdentityFlow::start("bob");
    let (flow, action) = step(flow, IdentityEvent::RecordPresent(false));
    assert!(matches!(action, IdentityAction::PrepareDirectory));
    let (flow, action) = step(flow, IdentityEvent::Done);
    assert!(matches!(action, IdentityAction::GenerateSigner));
    let (flow, action) = step(flow, IdentityEvent::SignerGenerated { public_key: vec![0xab, 0xcd] });
    assert!(matches!(action, IdentityAction::StoreSigner));
    let (flow, action) = step(flow, IdentityEvent::Done);
    match action {
        IdentityAction::WriteRecord { public_key_base64 } => assert_eq!(public_key_base64, "q80="),
        _ => panic!("expected the record to be written"),
    }
    let (_, action) = step(flow, IdentityEvent::Done);
    assert_eq!(finish_outcome(action), Ok(()));
}

#[test]
fn signer_generation_failure_is_prefixed() {
    let (flow, _) = IdentityFlow::start("bob");
    let (flow, _) = step(flow, IdentityEvent::RecordPresent(false));
    let (flow, _) = step(flow, IdentityEvent::Done);
    let (_, action) = step(flow, IdentityEvent::Failed("UnsupportedSignatureScheme".to_string()));
    assert_eq!(finish_outcome(action), Err("new signer: UnsupportedSignatureScheme".to_string()));
}

#[test]
fn signer_storage_failure_is_prefixed() {
    let (flow, _) = IdentityFlow::start("bob");
    let (flow, _) = step(flow, IdentityEvent::RecordPresent(false));
    let (flow, _) = step(flow, IdentityEvent::Done);
    let (flow, _) = step(flow, IdentityEvent::SignerGenerated { public_key: vec![1] });
    let (_, action) = step(flow, IdentityEvent::Failed("disk full".to_string()));
    assert_eq!(finish_outcome(action), Err("store signer: disk full".to_string()));
}

#[test]
fn directory_failure_is_passed_on() {
    let (flow, _) = IdentityFlow::start("bob");
    let (flow, _) = step(flow, IdentityEvent::RecordPresent(false));
    let (_, action) = step(flow, IdentityEvent::Failed("permission denied".to_string()));
    assert_eq!(finish_outcome(action), Err("permission denied".to_string()));
}

#[test]
fn identity_flow_refuses_unasked_events() {
    let (flow, _) = IdentityFlow::start("bob");
    assert!(!flow.accepts(&IdentityEvent::Done));
    assert!(!flow.accepts(&IdentityEvent::SignerFound(true)));
    assert!(flow.accepts(&IdentityEvent::RecordPresent(true)));
}

#[test]
fn record_key_decisions_follow_the_decoding() {
    let (flow, _) = IdentityFlow::start("alice");
    let (flow, _) = step(flow, IdentityEvent::RecordPresent(true));
    let (_, action) = flow.record_read(Err("Invalid padding".to_string()));
    assert_eq!(finish_outcome(action), Err("Invalid padding".to_string()));
    let (flow, _) = IdentityFlow::start("alice");
    let (flow, _) = step(flow, IdentityEvent::RecordPresent(true));
    let (flow, action) = flow.record_read(Ok(vec![9, 8]));
    match action {
        IdentityAction::ReadSigner { public_key } => assert_eq!(public_key, vec![9u8, 8]),
        _ => panic!("expected a signer lookup"),
    }
    let (_, action) = step(flow, IdentityEvent::SignerFound(false));
    assert_eq!(finish_outcome(action), Err("persisted signer missing for device alice".to_string()));
}

#[test]
fn written_identity_record_is_read_back_to_the_same_key() {
    let key: Vec<u8> = (0u8..32).map(|i| i.wrapping_mul(37)).collect();
    let (flow, _) = IdentityFlow::start("carol");
    let (flow, _) = step(flow, IdentityEvent::RecordPresent(false));
    let (flow, _) = step(flow, IdentityEvent::Done);
    let (flow, _) = step(flow, IdentityEvent::SignerGenerated { public_key: key.clone() });
    let (_, action) = step(flow, IdentityEvent::Done);
    let written = match action {
        IdentityAction::WriteRecord { public_key_base64 } => public_key_base64,
        _ => panic!("expected the record to be written"),
    };
    let (flow, _) = IdentityFlow::start("carol");
    let (flow, _) = step(flow, IdentityEvent::RecordPresent(true));
    let (_, action) = step(flow, IdentityEvent::Record { public_key_base64: written });
    match action {
        IdentityAction::ReadSigner { public_key } => assert_eq!(public_key, key),
        _ => panic!("expected a signer lookup"),
    }
}
