use charm::error::{settle, Capability, ErrorCode};

#[test]
fn settle_passes_success_on() {
    assert_eq!(settle(Capability::Transfer, Ok(())), Ok(()));
    assert_eq!(settle(Capability::Puff, Ok(())), Ok(()));
}

#[test]
fn settle_carries_the_call_and_the_number() {
    assert_eq!(
        settle(Capability::MintNewEdition, Err(17)),
        Err(ErrorCode::CapabilityFailure { call: Capability::MintNewEdition, code: Some(17) })
    );
    assert_eq!(
        settle(Capability::SetAuthority, Err(0)),
        Err(ErrorCode::CapabilityFailure { call: Capability::SetAuthority, code: Some(0) })
    );
}

#[test]
fn settle_forgives_a_failed_puff() {
    assert_eq!(settle(Capability::Puff, Err(17)), Ok(()));
}

#[test]
fn message_names_the_refusal() {
    assert_eq!(ErrorCode::InsufficientBalance.message(), "Insufficient Balance");
    assert_eq!(ErrorCode::UnauthorizedSigner.message(), "Unauthorized Signer");
    assert_eq!(ErrorCode::InputTooShort.message(), "Input Too Short");
    assert_eq!(ErrorCode::InvalidField.message(), "Invalid Field");
    assert_eq!(ErrorCode::AlreadyMaster.message(), "Already Master");
    assert_eq!(ErrorCode::MetadataMissing.message(), "Metadata Missing");
    assert_eq!(ErrorCode::SupplyExhausted.message(), "Supply Exhausted");
    assert_eq!(ErrorCode::InsufficientProof.message(), "Insufficient Proof");
    let failure = ErrorCode::CapabilityFailure { call: Capability::Puff, code: Some(1) };
    assert_eq!(failure.message(), "Capability Failure");
}
