use legaldid::address::Address;
use legaldid::initializer::{
    plan_initialization, Funding, InitRequest, InitStep, MAX_GROUP_MEMBERS, TOKEN_DECIMALS,
    UNITS_PER_TOKEN,
};
use legaldid::layout::{plan_layout_with, Capabilities, ExtensionKind, RentSchedule};

fn key(n: u8) -> Address {
    Address::new([n; 32])
}

fn request(holder: Option<Address>) -> InitRequest {
    InitRequest { payer: key(1), token: key(2), authority: key(3), holder }
}

fn declare(kind: ExtensionKind) -> InitStep {
    InitStep::ApplyExtension { kind, authority: key(3), target: key(2) }
}

fn finalize() -> InitStep {
    InitStep::FinalizeBase { authority: key(3), freeze_authority: None, decimals: 0 }
}

fn mint(holder: Address) -> InitStep {
    InitStep::MintTo { holder, authority: key(3), amount: 1 }
}

#[test]
fn a_token_is_one_unit_without_subdivision() {
    assert_eq!(UNITS_PER_TOKEN, 1);
    assert_eq!(TOKEN_DECIMALS, 0);
    assert_eq!(MAX_GROUP_MEMBERS, u64::MAX);
}

#[test]
fn a_credential_token_is_created_in_the_fixed_order() {
    let rent = RentSchedule::new(10);
    let layout = plan_layout_with(&Capabilities::credential(), &rent, Some(378), Some(100)).unwrap();
    let steps = plan_initialization(&layout, &request(Some(key(4))), Funding::Full, false);
    assert_eq!(
        steps,
        vec![
            InitStep::Allocate { payer: key(1), token: key(2), lamports: (128 + 546) * 10, space: 378 },
            declare(ExtensionKind::NonTransferable),
            declare(ExtensionKind::PermanentDelegate),
            declare(ExtensionKind::MetadataPointer),
            declare(ExtensionKind::MintCloseAuthority),
            declare(ExtensionKind::GroupMemberPointer),
            finalize(),
            InitStep::WriteMetadata { authority: key(3) },
            InitStep::WriteGroupData {
                kind: ExtensionKind::TokenGroupMember,
                authority: key(3),
                max_members: None,
            },
            InitStep::CreateHolderCell { payer: key(1), holder: key(4) },
            mint(key(4)),
        ]
    );
}

#[test]
fn the_domain_record_is_delegate_close_authority_and_minter() {
    let rent = RentSchedule::new(10);
    let layout = plan_layout_with(&Capabilities::credential(), &rent, Some(378), Some(100)).unwrap();
    let asked = InitRequest { payer: key(11), token: key(12), authority: key(13), holder: Some(key(14)) };
    let steps = plan_initialization(&layout, &asked, Funding::Full, true);
    assert_eq!(
        steps[2],
        InitStep::ApplyExtension {
            kind: ExtensionKind::PermanentDelegate,
            authority: key(13),
            target: key(12),
        }
    );
    assert_eq!(
        steps[4],
        InitStep::ApplyExtension {
            kind: ExtensionKind::MintCloseAuthority,
            authority: key(13),
            target: key(12),
        }
    );
    assert_eq!(
        steps[6],
        InitStep::FinalizeBase { authority: key(13), freeze_authority: None, decimals: 0 }
    );
    assert_eq!(steps[9], InitStep::MintTo { holder: key(14), authority: key(13), amount: 1 });
}

#[test]
fn an_existing_holder_cell_is_not_created_again() {
    let rent = RentSchedule::new(10);
    let layout = plan_layout_with(&Capabilities::credential(), &rent, Some(378), Some(100)).unwrap();
    let steps = plan_initialization(&layout, &request(Some(key(4))), Funding::Full, true);
    assert_eq!(steps.len(), 10);
    assert_eq!(
        steps[8],
        InitStep::WriteGroupData {
            kind: ExtensionKind::TokenGroupMember,
            authority: key(3),
            max_members: None,
        }
    );
    assert_eq!(steps[9], mint(key(4)));
    assert!(!steps.contains(&InitStep::CreateHolderCell { payer: key(1), holder: key(4) }));
}

#[test]
fn a_collection_token_is_prepaid_in_full_and_handed_to_nobody() {
    let rent = RentSchedule::new(10);
    let layout = plan_layout_with(&Capabilities::collection(), &rent, Some(342), Some(118)).unwrap();
    let steps = plan_initialization(&layout, &request(None), Funding::Full, false);
    assert_eq!(
        steps,
        vec![
            InitStep::Allocate { payer: key(1), token: key(2), lamports: (128 + 544) * 10, space: 342 },
            declare(ExtensionKind::NonTransferable),
            declare(ExtensionKind::PermanentDelegate),
            declare(ExtensionKind::GroupPointer),
            declare(ExtensionKind::MetadataPointer),
            finalize(),
            InitStep::WriteMetadata { authority: key(3) },
            InitStep::WriteGroupData {
                kind: ExtensionKind::TokenGroup,
                authority: key(3),
                max_members: Some(u64::MAX),
            },
        ]
    );
}

#[test]
fn two_phase_funding_pays_the_rest_before_the_record_grows() {
    let rent = RentSchedule::new(10);
    let layout = plan_layout_with(&Capabilities::collection(), &rent, Some(342), Some(118)).unwrap();
    let steps = plan_initialization(&layout, &request(None), Funding::TwoPhase, false);
    assert_eq!(steps.len(), 9);
    assert_eq!(
        steps[0],
        InitStep::Allocate { payer: key(1), token: key(2), lamports: (128 + 342) * 10, space: 342 }
    );
    assert_eq!(steps[5], finalize());
    assert_eq!(
        steps[6],
        InitStep::TopUp { payer: key(1), token: key(2), lamports: (84 + 118) * 10 }
    );
    assert_eq!(steps[7], InitStep::WriteMetadata { authority: key(3) });
}

#[test]
fn both_ways_of_paying_prepay_the_fee_of_the_finished_record() {
    let rent = RentSchedule::new(7);
    let layout = plan_layout_with(&Capabilities::credential(), &rent, Some(378), Some(55)).unwrap();
    for funding in [Funding::Full, Funding::TwoPhase] {
        let steps = plan_initialization(&layout, &request(Some(key(4))), funding, true);
        let paid: u64 = steps
            .iter()
            .map(|step| match step {
                InitStep::Allocate { lamports, .. } => *lamports,
                InitStep::TopUp { lamports, .. } => *lamports,
                _ => 0,
            })
            .sum();
        assert_eq!(paid, layout.required_prepaid_fee);
        assert_eq!(paid, (128 + 378 + 68 + 55) * 7);
    }
}

#[test]
fn full_funding_never_tops_up() {
    let rent = RentSchedule::new(7);
    let layout = plan_layout_with(&Capabilities::credential(), &rent, Some(378), Some(55)).unwrap();
    let steps = plan_initialization(&layout, &request(Some(key(4))), Funding::Full, false);
    assert_eq!(
        steps[0],
        InitStep::Allocate {
            payer: key(1),
            token: key(2),
            lamports: layout.required_prepaid_fee,
            space: 378,
        }
    );
    assert!(steps.iter().all(|step| !matches!(step, InitStep::TopUp { .. })));
}

#[test]
fn nothing_is_topped_up_where_storage_is_free() {
    let rent = RentSchedule::new(0);
    let layout = plan_layout_with(&Capabilities::collection(), &rent, Some(342), Some(118)).unwrap();
    let steps = plan_initialization(&layout, &request(None), Funding::TwoPhase, false);
    assert_eq!(steps.len(), 8);
    assert_eq!(steps[0], InitStep::Allocate { payer: key(1), token: key(2), lamports: 0, space: 342 });
    assert_eq!(steps[5], finalize());
    assert_eq!(steps[6], InitStep::WriteMetadata { authority: key(3) });
}

#[test]
fn a_token_without_blocks_is_created_finalized_and_described() {
    let rent = RentSchedule::new(1);
    let layout = plan_layout_with(&Capabilities::none(), &rent, Some(82), Some(92)).unwrap();
    let steps = plan_initialization(&layout, &request(None), Funding::Full, false);
    assert_eq!(
        steps,
        vec![
            InitStep::Allocate { payer: key(1), token: key(2), lamports: 128 + 82 + 92, space: 82 },
            finalize(),
            InitStep::WriteMetadata { authority: key(3) },
        ]
    );
}
