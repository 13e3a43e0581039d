use legaldid::address::{
    derive_address, Address, NON_TRANSFERABLE_PROJECT_MINT_PREFIX, NON_TRANSFERABLE_PROJECT_PREFIX,
};
use legaldid::domain::{initialize, initialize_with, DomainRequest};
use legaldid::error::ErrorCode;
use legaldid::initializer::InitStep;
use legaldid::layout::{ExtensionKind, RentSchedule};
use legaldid::state::InitializeArgs;

fn key(n: u8) -> Address {
    Address::new([n; 32])
}

fn request() -> DomainRequest {
    let program = key(40);
    DomainRequest {
        program,
        authority: key(1),
        config_address: derive_address(&program, NON_TRANSFERABLE_PROJECT_PREFIX, &[]).unwrap().0,
        collection: derive_address(&program, NON_TRANSFERABLE_PROJECT_MINT_PREFIX, &[]).unwrap().0,
        mint_price: 100,
        args: InitializeArgs {
            name: "LDID".to_string(),
            symbol: "LD".to_string(),
            base_uri: "https://example.org/".to_string(),
        },
    }
}

#[test]
fn a_domain_is_created_with_its_collection_token() {
    let asked = request();
    let plan = initialize(&asked, &RentSchedule::new(6960)).unwrap();
    let config_bump = derive_address(&asked.program, NON_TRANSFERABLE_PROJECT_PREFIX, &[]).unwrap().1;
    let mint_bump = derive_address(&asked.program, NON_TRANSFERABLE_PROJECT_MINT_PREFIX, &[]).unwrap().1;
    assert_eq!(plan.config.authority, key(1));
    assert_eq!(plan.config.destination, key(1));
    assert_eq!(plan.config.mint_price, 100);
    assert_eq!(plan.config.bump, config_bump);
    assert_eq!(plan.config.mint_bump, mint_bump);
    assert_eq!(plan.config.last_token_id, 0);
    assert_eq!(plan.config.name, "LDID");
    assert_eq!(plan.config.symbol, "LD");
    assert_eq!(plan.config.base_uri, "https://example.org/");
    assert!(plan.config.operators.is_empty());
    assert_eq!(plan.fields.name, "LDID");
    assert_eq!(plan.fields.symbol, "LD");
    assert_eq!(plan.fields.uri, "https://example.org/");
    assert_eq!(plan.layout.initial_size, 342);
    assert_eq!(plan.layout.metadata_size, 118);
    assert_eq!(plan.layout.total_size, 544);
    let declare = |kind: ExtensionKind| InitStep::ApplyExtension {
        kind,
        authority: asked.config_address,
        target: asked.collection,
    };
    assert_eq!(
        plan.steps,
        vec![
            InitStep::Allocate {
                payer: key(1),
                token: asked.collection,
                lamports: (128 + 544) * 6960,
                space: 342,
            },
            declare(ExtensionKind::NonTransferable),
            declare(ExtensionKind::PermanentDelegate),
            declare(ExtensionKind::GroupPointer),
            declare(ExtensionKind::MetadataPointer),
            InitStep::FinalizeBase {
                authority: asked.config_address,
                freeze_authority: None,
                decimals: 0,
            },
            InitStep::WriteMetadata { authority: asked.config_address },
            InitStep::WriteGroupData {
                kind: ExtensionKind::TokenGroup,
                authority: asked.config_address,
                max_members: Some(u64::MAX),
            },
        ]
    );
    assert_eq!(plan.layout.required_prepaid_fee, (128 + 544) * 6960);
}

#[test]
fn the_creation_of_the_collection_token_prepays_the_finished_size() {
    let mut asked = request();
    asked.args.base_uri = String::new();
    let rent = RentSchedule { lamports_per_byte: 10, overhead_bytes: 0 };
    let config = Some((asked.config_address, 255));
    let collection = Some((asked.collection, 254));
    let plan = initialize_with(&asked, &rent, config, collection, Some(342), Some(87)).unwrap();
    assert_eq!(plan.layout.initial_size, 342);
    assert_eq!(plan.layout.total_size, 513);
    assert_eq!(plan.layout.required_prepaid_fee, 5130);
    assert_eq!(
        plan.steps[0],
        InitStep::Allocate { payer: key(1), token: asked.collection, lamports: 5130, space: 342 }
    );
    assert!(plan.steps.iter().all(|step| !matches!(step, InitStep::TopUp { .. })));
    assert_eq!(plan.steps.len(), 8);
}

#[test]
fn a_domain_at_addresses_that_are_not_derived_is_refused() {
    let rent = RentSchedule::new(6960);
    let mut wrong_config = request();
    wrong_config.config_address = key(9);
    assert_eq!(initialize(&wrong_config, &rent), Err(ErrorCode::InvalidAddress));
    let mut wrong_collection = request();
    wrong_collection.collection = wrong_collection.config_address;
    assert_eq!(initialize(&wrong_collection, &rent), Err(ErrorCode::InvalidAddress));
    let mut elsewhere = request();
    elsewhere.program = key(41);
    assert_eq!(initialize(&elsewhere, &rent), Err(ErrorCode::InvalidAddress));
}

#[test]
fn a_domain_is_refused_when_its_token_has_no_layout() {
    let asked = request();
    let rent = RentSchedule::new(6960);
    let config = Some((asked.config_address, 255));
    let collection = Some((asked.collection, 254));
    assert_eq!(
        initialize_with(&asked, &rent, config, collection, Some(341), Some(118)),
        Err(ErrorCode::LayoutMismatch)
    );
    assert_eq!(
        initialize_with(&asked, &rent, config, collection, None, Some(118)),
        Err(ErrorCode::InvalidAccountData)
    );
    assert_eq!(
        initialize_with(&asked, &rent, config, collection, Some(342), None),
        Err(ErrorCode::InvalidAccountData)
    );
    assert_eq!(
        initialize_with(&asked, &rent, None, collection, Some(342), Some(118)),
        Err(ErrorCode::InvalidAddress)
    );
    assert_eq!(
        initialize_with(&asked, &rent, config, None, Some(342), Some(118)),
        Err(ErrorCode::InvalidAddress)
    );
    let plan = initialize_with(&asked, &rent, config, collection, Some(342), Some(118)).unwrap();
    assert_eq!(plan.config.bump, 255);
    assert_eq!(plan.config.mint_bump, 254);
}
