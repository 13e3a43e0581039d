use legaldid::address::Address;
use legaldid::attestation::{propagate, AttestationConfig, InitializeArgs, ATTESTATION_CONFIG_SIZE};
use legaldid::error::ErrorCode;
use legaldid::fee::Transfer;

fn key(n: u8) -> Address {
    Address::new([n; 32])
}

const SERVICE: u8 = 90;

fn domain() -> AttestationConfig {
    let args = InitializeArgs { attestation_fee: 25, fee_recipient: key(8) };
    let mut config = AttestationConfig::initialize(key(1), args, 251);
    assert_eq!(config.add_operator(&key(1), key(2)), Ok(()));
    config
}

#[test]
fn a_new_attestation_domain() {
    let args = InitializeArgs { attestation_fee: 25, fee_recipient: key(8) };
    let config = AttestationConfig::initialize(key(1), args, 251);
    assert_eq!(config.authority, key(1));
    assert!(config.operators.is_empty());
    assert_eq!(config.schema_count, 0);
    assert_eq!(config.attestation_fee, 25);
    assert_eq!(config.fee_recipient, key(8));
    assert_eq!(config.bump, 251);
    assert_eq!(ATTESTATION_CONFIG_SIZE, 8 + 32 + 4 + 32 * 5 + 8 + 8 + 32 + 1);
}

#[test]
fn attestation_capabilities() {
    let config = domain();
    assert!(config.is_admin(&key(1)));
    assert!(!config.is_admin(&key(2)));
    assert!(!config.is_operator(&key(1)));
    assert!(config.is_operator(&key(2)));
    assert!(!config.is_operator(&key(3)));
    assert!(config.is_admin_or_operator(&key(1)));
    assert!(config.is_admin_or_operator(&key(2)));
    assert!(!config.is_admin_or_operator(&key(3)));
}

#[test]
fn attestation_operators_are_a_bounded_set() {
    let mut config = domain();
    for n in 10..14 {
        assert_eq!(config.add_operator(&key(1), key(n)), Ok(()));
    }
    let full = config.clone();
    assert_eq!(config.add_operator(&key(1), key(20)), Err(ErrorCode::MaxOperatorsReached));
    assert_eq!(config, full);
    assert_eq!(config.remove_operator(&key(1), &key(20)), Err(ErrorCode::OperatorNotFound));
    assert_eq!(config, full);
    assert_eq!(config.remove_operator(&key(1), &key(2)), Ok(()));
    assert_eq!(config.operators, vec![key(10), key(11), key(12), key(13)]);
    assert_eq!(config.add_operator(&key(1), key(10)), Err(ErrorCode::OperatorAlreadyExists));
    assert_eq!(config.add_operator(&key(2), key(30)), Err(ErrorCode::Unauthorized));
    assert_eq!(config.remove_operator(&key(2), &key(10)), Err(ErrorCode::Unauthorized));
}

#[test]
fn attestation_setters_are_for_the_admin() {
    let mut config = domain();
    let before = config.clone();
    assert_eq!(config.set_attestation_fee(&key(2), 1), Err(ErrorCode::Unauthorized));
    assert_eq!(config.set_fee_recipient(&key(2), key(2)), Err(ErrorCode::Unauthorized));
    assert_eq!(config, before);
    assert_eq!(config.set_attestation_fee(&key(1), 1), Ok(()));
    assert_eq!(config.set_fee_recipient(&key(1), key(7)), Ok(()));
    assert_eq!(config.attestation_fee, 1);
    assert_eq!(config.fee_recipient, key(7));
    assert_eq!(config.operators, before.operators);
}

#[test]
fn a_request_pays_the_attestation_fee() {
    let mut config = domain();
    assert_eq!(
        config.request_attestation(&key(5), 100, &key(8)),
        Ok(Some(Transfer { from: key(5), to: key(8), amount: 25 }))
    );
    assert_eq!(config.request_attestation(&key(5), 100, &key(1)), Err(ErrorCode::InvalidFeeRecipient));
    assert_eq!(config.request_attestation(&key(5), 24, &key(8)), Err(ErrorCode::InsufficientBalance));
    assert_eq!(config.set_attestation_fee(&key(1), 0), Ok(()));
    assert_eq!(config.request_attestation(&key(5), 0, &key(8)), Ok(None));
}

#[test]
fn a_credential_container_needs_the_admin_the_service_and_a_name() {
    let config = domain();
    assert_eq!(config.create_credential(&key(1), &key(SERVICE), &key(SERVICE), "kyc"), Ok(()));
    assert_eq!(
        config.create_credential(&key(2), &key(SERVICE), &key(SERVICE), "kyc"),
        Err(ErrorCode::Unauthorized)
    );
    assert_eq!(
        config.create_credential(&key(1), &key(3), &key(SERVICE), "kyc"),
        Err(ErrorCode::InvalidSasProgram)
    );
    assert_eq!(
        config.create_credential(&key(1), &key(SERVICE), &key(SERVICE), ""),
        Err(ErrorCode::EmptySchemaName)
    );
    assert_eq!(
        config.create_credential(&key(2), &key(3), &key(SERVICE), ""),
        Err(ErrorCode::Unauthorized)
    );
    assert_eq!(
        config.create_credential(&key(1), &key(3), &key(SERVICE), ""),
        Err(ErrorCode::InvalidSasProgram)
    );
}

#[test]
fn a_schema_is_counted_when_it_may_be_created() {
    let mut config = domain();
    assert_eq!(config.create_schema(&key(1), &key(SERVICE), &key(SERVICE), "age"), Ok(()));
    assert_eq!(config.schema_count, 1);
    assert_eq!(config.create_schema(&key(1), &key(SERVICE), &key(SERVICE), "name"), Ok(()));
    assert_eq!(config.schema_count, 2);
    let before = config.clone();
    assert_eq!(
        config.create_schema(&key(2), &key(SERVICE), &key(SERVICE), "age"),
        Err(ErrorCode::Unauthorized)
    );
    assert_eq!(
        config.create_schema(&key(1), &key(4), &key(SERVICE), "age"),
        Err(ErrorCode::InvalidSasProgram)
    );
    assert_eq!(
        config.create_schema(&key(1), &key(SERVICE), &key(SERVICE), ""),
        Err(ErrorCode::EmptySchemaName)
    );
    assert_eq!(config, before);
}

#[test]
fn an_attestation_must_expire_in_the_future() {
    let config = domain();
    let service = key(SERVICE);
    assert_eq!(config.create_attestation(&key(2), &service, &service, None, 1_000), Ok(()));
    assert_eq!(config.create_attestation(&key(1), &service, &service, Some(1_001), 1_000), Ok(()));
    assert_eq!(
        config.create_attestation(&key(1), &service, &service, Some(1_000), 1_000),
        Err(ErrorCode::ExpirationInPast)
    );
    assert_eq!(
        config.create_attestation(&key(1), &service, &service, Some(-5), 1_000),
        Err(ErrorCode::ExpirationInPast)
    );
    assert_eq!(
        config.create_attestation(&key(3), &service, &service, Some(1), 1_000),
        Err(ErrorCode::Unauthorized)
    );
    assert_eq!(
        config.create_attestation(&key(1), &key(4), &service, Some(1), 1_000),
        Err(ErrorCode::InvalidSasProgram)
    );
    assert_eq!(
        config.create_attestation(&key(1), &service, &service, Some(i64::MIN), i64::MIN),
        Err(ErrorCode::ExpirationInPast)
    );
}

#[test]
fn an_attestation_is_revoked_by_admin_or_operator() {
    let config = domain();
    let service = key(SERVICE);
    assert_eq!(config.revoke_attestation(&key(1), &service, &service), Ok(()));
    assert_eq!(config.revoke_attestation(&key(2), &service, &service), Ok(()));
    assert_eq!(config.revoke_attestation(&key(3), &service, &service), Err(ErrorCode::Unauthorized));
    assert_eq!(config.revoke_attestation(&key(1), &key(4), &service), Err(ErrorCode::InvalidSasProgram));
}

#[test]
fn a_failed_call_of_a_collaborator_is_one_opaque_error() {
    assert_eq!(propagate(true), Ok(()));
    assert_eq!(propagate(false), Err(ErrorCode::ExternalCallFailed));
}
