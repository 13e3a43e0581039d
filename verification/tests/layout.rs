use legaldid::error::ErrorCode;
use legaldid::layout::{
    checked_storage_fee, plan_layout, plan_layout_with, Capabilities, ExtensionKind,
    MetadataFields, RentSchedule, ACCOUNT_STORAGE_OVERHEAD, BARE_TOKEN_SIZE, EXTENSIBLE_BASE_SIZE,
};
use spl_token_2022::extension::ExtensionType;
use spl_token_2022::state::Mint;
use spl_token_metadata_interface::state::TokenMetadata;

fn fields(name: &str, symbol: &str, uri: &str) -> MetadataFields {
    MetadataFields { name: name.to_string(), symbol: symbol.to_string(), uri: uri.to_string() }
}

fn ledger_rent() -> RentSchedule {
    RentSchedule::new(6960)
}

#[test]
fn type_ids_run_from_one_to_eight() {
    let kinds = [
        ExtensionKind::NonTransferable,
        ExtensionKind::PermanentDelegate,
        ExtensionKind::GroupPointer,
        ExtensionKind::MetadataPointer,
        ExtensionKind::MintCloseAuthority,
        ExtensionKind::GroupMemberPointer,
        ExtensionKind::TokenGroup,
        ExtensionKind::TokenGroupMember,
    ];
    for (i, kind) in kinds.iter().enumerate() {
        assert_eq!(kind.type_id(), i as u16 + 1);
        assert_eq!(ExtensionKind::from_type_id(i as u16 + 1), Some(*kind));
        assert_eq!(kind.declared_upfront(), i < 6);
    }
    assert_eq!(ExtensionKind::from_type_id(0), None);
    assert_eq!(ExtensionKind::from_type_id(9), None);
}

#[test]
fn block_sizes_are_the_golden_ones() {
    assert_eq!(ExtensionKind::NonTransferable.block_size(), 4);
    assert_eq!(ExtensionKind::PermanentDelegate.block_size(), 36);
    assert_eq!(ExtensionKind::GroupPointer.block_size(), 68);
    assert_eq!(ExtensionKind::MetadataPointer.block_size(), 68);
    assert_eq!(ExtensionKind::MintCloseAuthority.block_size(), 36);
    assert_eq!(ExtensionKind::GroupMemberPointer.block_size(), 68);
    assert_eq!(ExtensionKind::TokenGroup.block_size(), 84);
    assert_eq!(ExtensionKind::TokenGroupMember.block_size(), 68);
}

#[test]
fn upfront_block_sizes_are_those_of_the_token_program() {
    let pairs = [
        (ExtensionKind::NonTransferable, ExtensionType::NonTransferable),
        (ExtensionKind::PermanentDelegate, ExtensionType::PermanentDelegate),
        (ExtensionKind::GroupPointer, ExtensionType::GroupPointer),
        (ExtensionKind::MetadataPointer, ExtensionType::MetadataPointer),
        (ExtensionKind::MintCloseAuthority, ExtensionType::MintCloseAuthority),
        (ExtensionKind::GroupMemberPointer, ExtensionType::GroupMemberPointer),
    ];
    for (kind, extension) in pairs {
        let len = ExtensionType::try_calculate_account_len::<Mint>(&[extension]).unwrap();
        assert_eq!(len, EXTENSIBLE_BASE_SIZE + kind.block_size());
    }
    assert_eq!(ExtensionType::try_calculate_account_len::<Mint>(&[]).unwrap(), BARE_TOKEN_SIZE);
}

#[test]
fn sets_ignore_order_and_repetition() {
    let one = Capabilities::from_kinds(&vec![
        ExtensionKind::MetadataPointer,
        ExtensionKind::NonTransferable,
        ExtensionKind::MetadataPointer,
    ]);
    let two = Capabilities::from_kinds(&vec![
        ExtensionKind::NonTransferable,
        ExtensionKind::MetadataPointer,
    ]);
    assert_eq!(one, two);
    assert!(one.contains(ExtensionKind::NonTransferable));
    assert!(!one.contains(ExtensionKind::PermanentDelegate));
    assert_eq!(
        one.ordered(),
        vec![ExtensionKind::NonTransferable, ExtensionKind::MetadataPointer]
    );
    assert_eq!(Capabilities::from_kinds(&vec![]), Capabilities::none());
    assert_eq!(Capabilities::none().with(ExtensionKind::TokenGroup).ordered(), vec![ExtensionKind::TokenGroup]);
}

#[test]
fn credential_set_in_order_of_initialisation() {
    assert_eq!(
        Capabilities::credential().ordered(),
        vec![
            ExtensionKind::NonTransferable,
            ExtensionKind::PermanentDelegate,
            ExtensionKind::MetadataPointer,
            ExtensionKind::MintCloseAuthority,
            ExtensionKind::GroupMemberPointer,
            ExtensionKind::TokenGroupMember,
        ]
    );
    assert_eq!(
        Capabilities::credential().upfront(),
        vec![
            ExtensionKind::NonTransferable,
            ExtensionKind::PermanentDelegate,
            ExtensionKind::MetadataPointer,
            ExtensionKind::MintCloseAuthority,
            ExtensionKind::GroupMemberPointer,
        ]
    );
}

#[test]
fn collection_set_in_order_of_initialisation() {
    assert_eq!(
        Capabilities::collection().ordered(),
        vec![
            ExtensionKind::NonTransferable,
            ExtensionKind::PermanentDelegate,
            ExtensionKind::GroupPointer,
            ExtensionKind::MetadataPointer,
            ExtensionKind::TokenGroup,
        ]
    );
}

#[test]
fn plan_of_a_credential_token_has_the_golden_sizes() {
    let metadata = fields("LDID #abc", "LD", "https://example.org/h.json");
    let plan = plan_layout(&Capabilities::credential(), &metadata, &ledger_rent()).unwrap();
    assert_eq!(plan.base_size, 166);
    assert_eq!(plan.extension_sizes, vec![4, 36, 68, 36, 68, 68]);
    assert_eq!(plan.initial_size, 378);
    assert_eq!(plan.metadata_size, 92 + 9 + 2 + 26);
    assert_eq!(plan.total_size, 166 + 280 + 129);
    assert_eq!(plan.total_size, plan.base_size + plan.extension_sizes.iter().sum::<usize>() + plan.metadata_size);
    assert_eq!(plan.initial_fee, (128 + 378) * 6960);
    assert_eq!(plan.required_prepaid_fee, (128 + 575) * 6960);
    assert_eq!(plan.extensions, Capabilities::credential().ordered());
}

#[test]
fn plan_of_a_collection_token_has_the_golden_sizes() {
    let metadata = fields("LDID", "LD", "https://example.org/");
    let plan = plan_layout(&Capabilities::collection(), &metadata, &ledger_rent()).unwrap();
    assert_eq!(plan.base_size, 166);
    assert_eq!(plan.extension_sizes, vec![4, 36, 68, 68, 84]);
    assert_eq!(plan.initial_size, 342);
    assert_eq!(plan.metadata_size, 92 + 4 + 2 + 20);
    assert_eq!(plan.total_size, 166 + 260 + 118);
    assert_eq!(plan.required_prepaid_fee, (128 + 544) * 6960);
}

#[test]
fn plan_of_three_blocks_reserves_274_bytes() {
    let caps = Capabilities::from_kinds(&vec![
        ExtensionKind::NonTransferable,
        ExtensionKind::PermanentDelegate,
        ExtensionKind::MetadataPointer,
    ]);
    let plan = plan_layout(&caps, &fields("", "", ""), &ledger_rent()).unwrap();
    assert_eq!(plan.initial_size, 274);
    assert_eq!(plan.metadata_size, 92);
    assert_eq!(plan.total_size, 366);
}

#[test]
fn plan_without_a_block_has_the_bare_base() {
    let plan = plan_layout(&Capabilities::none(), &fields("n", "s", "u"), &ledger_rent()).unwrap();
    assert_eq!(plan.base_size, 82);
    assert_eq!(plan.initial_size, 82);
    assert!(plan.extensions.is_empty());
    assert!(plan.extension_sizes.is_empty());
    assert_eq!(plan.total_size, 82 + 95);
}

#[test]
fn plan_agrees_with_the_token_program() {
    let metadata = fields("LDID #7", "LD", "ipfs://x.json");
    let plan = plan_layout(&Capabilities::credential(), &metadata, &ledger_rent()).unwrap();
    let expected = ExtensionType::try_calculate_account_len::<Mint>(&[
        ExtensionType::NonTransferable,
        ExtensionType::PermanentDelegate,
        ExtensionType::MetadataPointer,
        ExtensionType::MintCloseAuthority,
        ExtensionType::GroupMemberPointer,
    ])
    .unwrap();
    assert_eq!(plan.initial_size, expected);
    let token_metadata = TokenMetadata {
        name: "LDID #7".to_string(),
        symbol: "LD".to_string(),
        uri: "ipfs://x.json".to_string(),
        ..Default::default()
    };
    assert_eq!(plan.metadata_size, token_metadata.tlv_size_of().unwrap());
}

#[test]
fn metadata_size_counts_bytes_not_characters() {
    let plan = plan_layout(&Capabilities::none(), &fields("é", "", ""), &ledger_rent()).unwrap();
    assert_eq!(plan.metadata_size, 92 + 2);
}

#[test]
fn plan_is_refused_when_the_token_program_expects_another_size() {
    let caps = Capabilities::credential();
    assert_eq!(
        plan_layout_with(&caps, &ledger_rent(), Some(377), Some(100)),
        Err(ErrorCode::LayoutMismatch)
    );
    assert_eq!(
        plan_layout_with(&caps, &ledger_rent(), Some(379), Some(100)),
        Err(ErrorCode::LayoutMismatch)
    );
    let plan = plan_layout_with(&caps, &ledger_rent(), Some(378), Some(100)).unwrap();
    assert_eq!(plan.total_size, 378 + 68 + 100);
}

#[test]
fn plan_is_refused_when_the_token_program_has_no_size() {
    let caps = Capabilities::credential();
    assert_eq!(
        plan_layout_with(&caps, &ledger_rent(), None, Some(100)),
        Err(ErrorCode::InvalidAccountData)
    );
    assert_eq!(
        plan_layout_with(&caps, &ledger_rent(), Some(378), None),
        Err(ErrorCode::InvalidAccountData)
    );
    assert_eq!(
        plan_layout_with(&caps, &ledger_rent(), Some(1), None),
        Err(ErrorCode::InvalidAccountData)
    );
}

#[test]
fn plan_is_refused_when_the_total_passes_the_machine() {
    let caps = Capabilities::credential();
    assert_eq!(
        plan_layout_with(&caps, &ledger_rent(), Some(378), Some(usize::MAX - 400)),
        Err(ErrorCode::InvalidAccountData)
    );
}

#[test]
fn plan_is_refused_when_the_fee_passes_the_machine() {
    let caps = Capabilities::credential();
    let dear = RentSchedule { lamports_per_byte: u64::MAX, overhead_bytes: 128 };
    assert_eq!(
        plan_layout_with(&caps, &dear, Some(378), Some(100)),
        Err(ErrorCode::InvalidAccountData)
    );
    let heavy = RentSchedule { lamports_per_byte: 1, overhead_bytes: u64::MAX };
    assert_eq!(
        plan_layout_with(&caps, &heavy, Some(378), Some(100)),
        Err(ErrorCode::InvalidAccountData)
    );
}

#[test]
fn free_storage_has_no_fee_whatever_the_overhead() {
    let free = RentSchedule { lamports_per_byte: 0, overhead_bytes: u64::MAX };
    assert_eq!(checked_storage_fee(&free, 1000), Some(0));
    let plan = plan_layout_with(&Capabilities::credential(), &free, Some(378), Some(100)).unwrap();
    assert_eq!(plan.required_prepaid_fee, 0);
    assert_eq!(plan.initial_fee, 0);
}

#[test]
fn storage_fee_is_the_price_of_data_and_overhead() {
    let rent = ledger_rent();
    assert_eq!(rent.overhead_bytes, ACCOUNT_STORAGE_OVERHEAD);
    assert_eq!(checked_storage_fee(&rent, 0), Some(128 * 6960));
    assert_eq!(checked_storage_fee(&rent, 82), Some(1_461_600));
    assert_eq!(checked_storage_fee(&RentSchedule { lamports_per_byte: 3, overhead_bytes: 10 }, 5), Some(45));
    assert_eq!(checked_storage_fee(&RentSchedule { lamports_per_byte: 2, overhead_bytes: u64::MAX }, 5), None);
    assert_eq!(checked_storage_fee(&RentSchedule { lamports_per_byte: u64::MAX, overhead_bytes: 1 }, 1), None);
}

#[test]
fn storage_fee_does_not_fall_as_the_record_grows() {
    let rent = ledger_rent();
    let mut last = 0u64;
    for size in [0usize, 1, 82, 166, 378, 575, 10_000] {
        let fee = checked_storage_fee(&rent, size).unwrap();
        assert!(fee >= last);
        last = fee;
    }
    let small = plan_layout(&Capabilities::credential(), &fields("a", "b", "c"), &rent).unwrap();
    let large = plan_layout(&Capabilities::credential(), &fields("aaaa", "bb", "cccccc"), &rent).unwrap();
    assert!(small.total_size < large.total_size);
    assert!(small.required_prepaid_fee <= large.required_prepaid_fee);
    assert!(small.initial_fee <= small.required_prepaid_fee);
}
