use vstd::prelude::*;
use vstd::string::StringSliceAdditionalSpecFns;
use vstd::utf8::encode_utf8;

use crate::address::{
    address_seeds, derive_address, hash_seed, hex_to_bytes32, hex_to_bytes32_spec,
    program_address, sha256_digest, Address, NON_TRANSFERABLE_NFT_MINT_PREFIX,
    NON_TRANSFERABLE_PROJECT_PREFIX,
};
use crate::error::ErrorCode;
use crate::fee::{fee_gate, gate_outcome, Transfer};
use crate::initializer::{
    init_steps, plan_initialization, Funding, InitRequest, InitStep, UNITS_PER_TOKEN,
};
use crate::layout::{
    metadata_tlv_len, mint_account_len, plan_failure, plan_layout_with, token_metadata_len,
    token_program_account_len, Capabilities, LayoutPlan, MetadataFields,
    RentSchedule,
};
use crate::state::ProjectAccount;

verus! {

/// Where a credential stands.
#[derive(Clone, Copy, Debug, PartialEq, Eq, Structural)]
pub enum Status {
    /// Nothing has been asked for.
    Unauthorized,
    /// The fee is paid and the holder bound; no token exists yet.
    Authorized,
    /// The token exists and the holder holds it.
    Minted,
    /// The token has been taken back or given up.
    Revoked,
}

/// The record a domain keeps for one subject and one credential id.
#[derive(Clone, Copy, Debug, PartialEq, Eq)]
pub struct CredentialRecord {
    /// Who the credential belongs to.
    pub holder: Address,
    /// The token issued for it, once there is one.
    pub token: Address,
    /// The commitment to the credential's content.
    pub content_hash: [u8; 32],
    pub status: Status,
    /// Bump seed of the record's address.
    pub bump: u8,
}

impl CredentialRecord {
    /// The record of a credential that nothing has been asked for.
    pub fn new() -> (record: CredentialRecord)
        ensures
            record.status == Status::Unauthorized,
            record.holder.bytes@ == Seq::new(32, |i: int| 0u8),
            record.token.bytes@ == Seq::new(32, |i: int| 0u8),
            record.content_hash@ == Seq::new(32, |i: int| 0u8),
            record.bump == 0,
    {
        let zero: [u8; 32] = [0u8; 32];
        assert(zero@ =~= Seq::new(32, |i: int| 0u8));
        CredentialRecord {
            holder: Address { bytes: zero },
            token: Address { bytes: zero },
            content_hash: zero,
            status: Status::Unauthorized,
            bump: 0,
        }
    }
}

/// What authorizing comes to: a record that is past `Unauthorized` is refused
/// with `AlreadyAuthorized` before any fee is looked at; then the fee gate
/// decides; where it lets the request pass, the record is bound to `subject`
/// and stands `Authorized`.
pub open spec fn authorize_outcome(
    config: ProjectAccount,
    record: CredentialRecord,
    payer: Address,
    payer_balance: u64,
    destination: Address,
    subject: Address,
    bump: u8,
) -> Result<(CredentialRecord, Option<Transfer>), ErrorCode> {
    if record.status != Status::Unauthorized {
        Err(ErrorCode::AlreadyAuthorized)
    } else {
        match gate_outcome(config.destination, config.mint_price, payer, payer_balance, destination)
        {
            Err(e) => Err(e),
            Ok(charge) => Ok(
                (
                    CredentialRecord {
                        holder: subject,
                        status: Status::Authorized,
                        bump,
                        ..record
                    },
                    charge,
                ),
            ),
        }
    }
}

/// Takes the request of `payer` for a credential of `subject`: charges the
/// domain's fee and marks the record `Authorized`. Gives the transfer to
/// make, which is none at a price of zero. A refused request leaves the
/// record as it was and moves nothing.
pub fn authorize(
    config: &ProjectAccount,
    record: &mut CredentialRecord,
    payer: &Address,
    payer_balance: u64,
    destination: &Address,
    subject: &Address,
    bump: u8,
) -> (r: Result<Option<Transfer>, ErrorCode>)
    ensures
        match authorize_outcome(
            *config,
            *old(record),
            *payer,
            payer_balance,
            *destination,
            *subject,
            bump,
        ) {
            Ok((next, charge)) => r == Ok::<Option<Transfer>, ErrorCode>(charge) && *final(record)
                == next,
            Err(e) => r == Err::<Option<Transfer>, ErrorCode>(e) && *final(record) == *old(record),
        },
{
    if record.status != Status::Unauthorized {
        return Err(ErrorCode::AlreadyAuthorized);
    }
    let charge = fee_gate(
        &config.destination,
        config.mint_price,
        payer,
        payer_balance,
        destination,
    )?;
    record.holder = *subject;
    record.status = Status::Authorized;
    record.bump = bump;
    Ok(charge)
}

/// What is asked for when a credential is issued.
#[derive(Clone, Debug, PartialEq, Eq)]
pub struct IssueRequest {
    /// The namespace in which the domain's addresses are derived.
    pub program: Address,
    /// The address of the domain's configuration record.
    pub config_address: Address,
    /// Who asks; the caller also pays for the token's storage.
    pub caller: Address,
    /// Who the credential is for.
    pub subject: Address,
    /// The address offered for the token.
    pub token: Address,
    /// The credential id.
    pub order_id: String,
    /// The commitment to the credential's content, as text.
    pub merkle_root: String,
    /// Whether the token's address holds data already.
    pub token_populated: bool,
    /// Whether the subject has a cell for the token already.
    pub holder_cell_exists: bool,
}

/// What the engine hands back for an issuance: the layout of the token, its
/// metadata, and the writes that create it.
#[derive(Clone, Debug, PartialEq, Eq)]
pub struct IssuePlan {
    pub layout: LayoutPlan,
    pub fields: MetadataFields,
    pub steps: Vec<InitStep>,
    /// Bump seed of the token's address.
    pub token_bump: u8,
}

/// The metadata of the credential token with the given id and commitment.
pub open spec fn is_credential_metadata(
    fields: MetadataFields,
    config: ProjectAccount,
    order_id: Seq<char>,
    merkle_root: Seq<char>,
) -> bool {
    &&& fields.name@ == "LDID #"@ + order_id
    &&& fields.symbol@ == config.symbol@
    &&& fields.uri@ == config.base_uri@ + merkle_root + ".json"@
}

/// Names the credential token: `LDID #` and the credential id; the domain's
/// symbol; and as content address the domain's base address, the commitment
/// and `.json`.
pub fn credential_metadata(config: &ProjectAccount, order_id: &str, merkle_root: &str) -> (fields:
    MetadataFields)
    ensures
        is_credential_metadata(fields, *config, order_id@, merkle_root@),
{
    let name = String::from_str("LDID #").concat(order_id);
    let symbol = config.symbol.clone();
    let uri = config.base_uri.clone().concat(merkle_root).concat(".json");
    MetadataFields { name, symbol, uri }
}

/// The seeds of the address of the token for a credential id.
pub open spec fn token_seeds(order_id: Seq<char>) -> Seq<Seq<u8>> {
    address_seeds(
        NON_TRANSFERABLE_NFT_MINT_PREFIX.spec_bytes(),
        sha256_digest(encode_utf8(order_id)),
    )
}

/// Who takes part in the creation of the token that `request` asks for.
pub open spec fn issue_init_request(request: IssueRequest) -> InitRequest {
    InitRequest {
        payer: request.caller,
        token: request.token,
        authority: request.config_address,
        holder: Some(request.subject),
    }
}

/// Whether a derivation found the address `offered`.
pub open spec fn found(derived: Option<(Address, u8)>, offered: Address) -> bool {
    derived matches Some((address, _)) && address == offered
}

/// Why an issuance is refused, or `None` where the token is owed; the guards
/// in the order in which they are held against the request.
/// `addresses_derived` says whether the addresses offered for the
/// configuration record and for the token are the derived ones.
pub open spec fn issue_failure(
    config: ProjectAccount,
    record: CredentialRecord,
    request: IssueRequest,
    rent: RentSchedule,
    addresses_derived: bool,
    expected_initial: Option<usize>,
    metadata_len: Option<usize>,
) -> Option<ErrorCode> {
    if !config.spec_is_admin_or_operator(request.caller) {
        Some(ErrorCode::Unauthorized)
    } else if record.status == Status::Minted {
        Some(ErrorCode::AlreadyMinted)
    } else if !addresses_derived {
        Some(ErrorCode::InvalidAddress)
    } else if request.token_populated {
        Some(ErrorCode::AlreadyMinted)
    } else {
        plan_failure(Capabilities::spec_credential(), rent, expected_initial, metadata_len)
    }
}

/// The record is that of the credential issued on `request`: bound to the
/// subject and the token, with the commitment read from the request, `Minted`.
pub open spec fn is_issued_record(
    next: CredentialRecord,
    record: CredentialRecord,
    request: IssueRequest,
) -> bool {
    &&& next.holder == request.subject
    &&& next.token == request.token
    &&& next.content_hash@ == hex_to_bytes32_spec(encode_utf8(request.merkle_root@))
    &&& next.status == Status::Minted
    &&& next.bump == record.bump
}

/// Issues the credential that `request` asks for, given what the address
/// derivation found for the configuration record (`derived_config`) and for
/// the credential id (`derived`), the size the token program expects for the
/// upfront blocks (`expected_initial`) and for the metadata block
/// (`metadata_len`).
///
/// The caller must be admin or operator; a record that is `Minted`, or a token
/// address that holds data, is `AlreadyMinted`; an offered address other than
/// the derived one is `InvalidAddress`; then the layout is planned. A refused
/// request leaves the record as it was and plans no write.
pub fn issue_with(
    config: &ProjectAccount,
    record: &mut CredentialRecord,
    request: &IssueRequest,
    rent: &RentSchedule,
    fields: MetadataFields,
    derived_config: Option<(Address, u8)>,
    derived: Option<(Address, u8)>,
    expected_initial: Option<usize>,
    metadata_len: Option<usize>,
) -> (r: Result<IssuePlan, ErrorCode>)
    ensures
        match r {
            Ok(plan) => issue_failure(
                *config,
                *old(record),
                *request,
                *rent,
                found(derived_config, request.config_address) && found(derived, request.token),
                expected_initial,
                metadata_len,
            ) is None && plan.layout.describes(
                Capabilities::spec_credential(),
                *rent,
                metadata_len.unwrap(),
            ) && plan.layout.wf() && plan.fields == fields && plan.steps@ == init_steps(
                plan.layout,
                issue_init_request(*request),
                Funding::Full,
                request.holder_cell_exists,
            ) && plan.token_bump == derived.unwrap().1 && is_issued_record(
                *final(record),
                *old(record),
                *request,
            ),
            Err(e) => issue_failure(
                *config,
                *old(record),
                *request,
                *rent,
                found(derived_config, request.config_address) && found(derived, request.token),
                expected_initial,
                metadata_len,
            ) == Some(e) && *final(record) == *old(record),
        },
{
    if !config.is_admin_or_operator(&request.caller) {
        return Err(ErrorCode::Unauthorized);
    }
    if record.status == Status::Minted {
        return Err(ErrorCode::AlreadyMinted);
    }
    match derived_config {
        Some((address, _)) => {
            if address != request.config_address {
                return Err(ErrorCode::InvalidAddress);
            }
        },
        None => { return Err(ErrorCode::InvalidAddress); },
    }
    let token_bump: u8 = match derived {
        Some((address, bump)) => {
            if address != request.token {
                return Err(ErrorCode::InvalidAddress);
            }
            bump
        },
        None => { return Err(ErrorCode::InvalidAddress); },
    };
    if request.token_populated {
        return Err(ErrorCode::AlreadyMinted);
    }
    let caps = Capabilities::credential();
    let layout = plan_layout_with(&caps, rent, expected_initial, metadata_len)?;
    let init = InitRequest {
        payer: request.caller,
        token: request.token,
        authority: request.config_address,
        holder: Some(request.subject),
    };
    let steps = plan_initialization(&layout, &init, Funding::Full, request.holder_cell_exists);
    record.holder = request.subject;
    record.token = request.token;
    record.content_hash = hex_to_bytes32(request.merkle_root.as_str());
    record.status = Status::Minted;
    Ok(IssuePlan { layout, fields, steps, token_bump })
}

/// The size the token program computes for the metadata block of the
/// credential token with the given id and commitment.
pub open spec fn credential_metadata_len(
    config: ProjectAccount,
    order_id: Seq<char>,
    merkle_root: Seq<char>,
) -> Option<usize> {
    metadata_tlv_len("LDID #"@ + order_id, config.symbol@, config.base_uri@ + merkle_root + ".json"@)
}

/// The seeds of the address of the configuration record.
pub open spec fn config_seeds() -> Seq<Seq<u8>> {
    address_seeds(NON_TRANSFERABLE_PROJECT_PREFIX.spec_bytes(), Seq::empty())
}

/// Whether the addresses offered for the configuration record and for the
/// token are the ones derived in the domain's namespace, the token's from
/// the credential id.
pub open spec fn issue_is_derived(request: IssueRequest) -> bool {
    &&& program_address(config_seeds(), request.program@) matches Some((address, _)) && address
        == request.config_address@
    &&& program_address(token_seeds(request.order_id@), request.program@) matches Some(
        (address, _),
    ) && address == request.token@
}

/// Why `issue` refuses a request, or `None` where the token is owed.
pub open spec fn issue_guard(
    config: ProjectAccount,
    record: CredentialRecord,
    request: IssueRequest,
    rent: RentSchedule,
) -> Option<ErrorCode> {
    issue_failure(
        config,
        record,
        request,
        rent,
        issue_is_derived(request),
        mint_account_len(Capabilities::spec_credential().spec_upfront()),
        credential_metadata_len(config, request.order_id@, request.merkle_root@),
    )
}

/// Issues the credential that `request` asks for: derives the token's address
/// from the credential id and holds the offered one against it, names the
/// token, plans its layout against the token program's own sizes, and lays
/// out the writes that create it and hand it to the subject. The guards are
/// those of `issue_with`. A refused request leaves the record as it was and
/// plans no write.
pub fn issue(
    config: &ProjectAccount,
    record: &mut CredentialRecord,
    request: &IssueRequest,
    rent: &RentSchedule,
) -> (r: Result<IssuePlan, ErrorCode>)
    ensures
        match r {
            Ok(plan) => {
                &&& issue_guard(*config, *old(record), *request, *rent) is None
                &&& is_credential_metadata(
                    plan.fields,
                    *config,
                    request.order_id@,
                    request.merkle_root@,
                )
                &&& program_address(token_seeds(request.order_id@), request.program@) == Some(
                    (request.token@, plan.token_bump),
                )
                &&& plan.layout.describes(
                    Capabilities::spec_credential(),
                    *rent,
                    credential_metadata_len(
                        *config,
                        request.order_id@,
                        request.merkle_root@,
                    ).unwrap(),
                )
                &&& plan.layout.wf()
                &&& plan.steps@ == init_steps(
                    plan.layout,
                    issue_init_request(*request),
                    Funding::Full,
                    request.holder_cell_exists,
                )
                &&& is_issued_record(*final(record), *old(record), *request)
            },
            Err(e) => issue_guard(*config, *old(record), *request, *rent) == Some(e) && *final(record) == *old(record),
        },
{
    let no_subject: [u8; 0] = [];
    let derived_config = derive_address(
        &request.program,
        NON_TRANSFERABLE_PROJECT_PREFIX,
        no_subject.as_slice(),
    );
    let subject_key = hash_seed(request.order_id.as_str());
    let derived = derive_address(
        &request.program,
        NON_TRANSFERABLE_NFT_MINT_PREFIX,
        subject_key.as_slice(),
    );
    let fields = credential_metadata(config, request.order_id.as_str(), request.merkle_root.as_str());
    let metadata_len = token_metadata_len(
        fields.name.as_str(),
        fields.symbol.as_str(),
        fields.uri.as_str(),
    );
    let caps = Capabilities::credential();
    let upfront = caps.upfront();
    let expected_initial = token_program_account_len(&upfront);
    proof {
        assert(no_subject@ =~= Seq::<u8>::empty());
        if let Some((address, _)) = derived_config {
            Address::lemma_view_injective(address, request.config_address);
        }
        if let Some((address, _)) = derived {
            Address::lemma_view_injective(address, request.token);
        }
    }
    issue_with(
        config,
        record,
        request,
        rent,
        fields,
        derived_config,
        derived,
        expected_initial,
        metadata_len,
    )
}

/// One write in the taking down of a token. The writes of one operation are
/// committed together or not at all.
#[derive(Clone, Copy, Debug, PartialEq, Eq)]
pub enum TeardownStep {
    /// Lift the freeze on the holder's cell, on the word of `authority`.
    Thaw { token: Address, holder: Address, authority: Address },
    /// Burn `amount` units out of the holder's cell on the word of
    /// `delegate`, the permanent delegate of the token, without the holder.
    BurnByDelegate { token: Address, holder: Address, delegate: Address, amount: u64 },
    /// Burn `amount` units out of the holder's cell on the holder's word.
    BurnByHolder { token: Address, holder: Address, amount: u64 },
    /// Close the holder's cell on the holder's word and pay its storage fee
    /// to `refund_to`.
    CloseHolderCell { token: Address, holder: Address, refund_to: Address },
    /// Close the token's record on the word of `authority`, its close
    /// authority, and pay its storage fee to `refund_to`.
    CloseToken { token: Address, refund_to: Address, authority: Address },
    /// Close the credential record and pay its storage fee to `refund_to`.
    CloseRecord { refund_to: Address },
}

/// What stands in the way of taking a token back or giving it up, or `None`
/// where the record is `Minted`.
pub open spec fn not_minted(status: Status) -> Option<ErrorCode> {
    match status {
        Status::Minted => None,
        Status::Revoked => Some(ErrorCode::AlreadyRevoked),
        _ => Some(ErrorCode::RecordNotFound),
    }
}

/// What revoking comes to: the caller must be admin or operator and the
/// record `Minted`; then the domain record at `domain`, as permanent delegate,
/// burns the holder's one unit, and as close authority closes the token's
/// record in favour of the admin; and the record stands `Revoked`.
pub open spec fn revoke_outcome(
    config: ProjectAccount,
    domain: Address,
    record: CredentialRecord,
    caller: Address,
) -> Result<(CredentialRecord, Seq<TeardownStep>), ErrorCode> {
    if !config.spec_is_admin_or_operator(caller) {
        Err(ErrorCode::Unauthorized)
    } else if not_minted(record.status) is Some {
        Err(not_minted(record.status).unwrap())
    } else {
        Ok(
            (
                CredentialRecord { status: Status::Revoked, ..record },
                seq![
                    TeardownStep::BurnByDelegate {
                        token: record.token,
                        holder: record.holder,
                        delegate: domain,
                        amount: UNITS_PER_TOKEN,
                    },
                    TeardownStep::CloseToken {
                        token: record.token,
                        refund_to: config.authority,
                        authority: domain,
                    },
                ],
            ),
        )
    }
}

/// Takes an issued credential back without its holder. `domain` is the
/// address of the domain's configuration record. Gives the writes to make. A
/// refused call leaves the record as it was.
pub fn revoke(
    config: &ProjectAccount,
    domain: &Address,
    record: &mut CredentialRecord,
    caller: &Address,
) -> (r: Result<Vec<TeardownStep>, ErrorCode>)
    ensures
        match revoke_outcome(*config, *domain, *old(record), *caller) {
            Ok((next, steps)) => r matches Ok(planned) && planned@ == steps && *final(record)
                == next,
            Err(e) => r matches Err(refusal) && refusal == e && *final(record) == *old(record),
        },
{
    if !config.is_admin_or_operator(caller) {
        return Err(ErrorCode::Unauthorized);
    }
    match record.status {
        Status::Minted => {},
        Status::Revoked => { return Err(ErrorCode::AlreadyRevoked); },
        _ => { return Err(ErrorCode::RecordNotFound); },
    }
    let mut steps: Vec<TeardownStep> = Vec::new();
    steps.push(
        TeardownStep::BurnByDelegate {
            token: record.token,
            holder: record.holder,
            delegate: *domain,
            amount: UNITS_PER_TOKEN,
        },
    );
    steps.push(
        TeardownStep::CloseToken {
            token: record.token,
            refund_to: config.authority,
            authority: *domain,
        },
    );
    record.status = Status::Revoked;
    assert(steps@ =~= revoke_outcome(*config, *domain, *old(record), *caller).unwrap().1);
    Ok(steps)
}

/// The writes that empty and close the holder's cell: nothing where there is
/// no cell; else a burn of the one unit where the cell holds anything, and
/// the closing, which pays the cell's storage fee to the holder.
pub open spec fn holder_cell_steps(record: CredentialRecord, holder_cell: Option<u64>) -> Seq<
    TeardownStep,
> {
    match holder_cell {
        None => Seq::empty(),
        Some(balance) => {
            let close = seq![
                TeardownStep::CloseHolderCell {
                    token: record.token,
                    holder: record.holder,
                    refund_to: record.holder,
                },
            ];
            if balance > 0 {
                seq![
                    TeardownStep::BurnByHolder {
                        token: record.token,
                        holder: record.holder,
                        amount: UNITS_PER_TOKEN,
                    },
                ] + close
            } else {
                close
            }
        },
    }
}

/// What burning comes to: the caller must be the holder the record is bound
/// to and the record `Minted`; then the holder's cell is emptied and closed,
/// the domain record at `domain`, as close authority, closes the token's
/// record in favour of the admin, and the record stands `Revoked`.
/// `holder_cell` is the balance of the holder's cell, or `None` where the
/// cell is gone.
pub open spec fn burn_outcome(
    config: ProjectAccount,
    domain: Address,
    record: CredentialRecord,
    caller: Address,
    holder_cell: Option<u64>,
) -> Result<(CredentialRecord, Seq<TeardownStep>), ErrorCode> {
    if caller != record.holder {
        Err(ErrorCode::Unauthorized)
    } else if not_minted(record.status) is Some {
        Err(not_minted(record.status).unwrap())
    } else {
        Ok(
            (
                CredentialRecord { status: Status::Revoked, ..record },
                holder_cell_steps(record, holder_cell) + seq![
                    TeardownStep::CloseToken {
                        token: record.token,
                        refund_to: config.authority,
                        authority: domain,
                    },
                ],
            ),
        )
    }
}

fn push_holder_cell_steps(
    steps: &mut Vec<TeardownStep>,
    record: &CredentialRecord,
    holder_cell: Option<u64>,
)
    ensures
        final(steps)@ == old(steps)@ + holder_cell_steps(*record, holder_cell),
{
    match holder_cell {
        None => {},
        Some(balance) => {
            if balance > 0 {
                steps.push(
                    TeardownStep::BurnByHolder {
                        token: record.token,
                        holder: record.holder,
                        amount: UNITS_PER_TOKEN,
                    },
                );
            }
            steps.push(
                TeardownStep::CloseHolderCell {
                    token: record.token,
                    holder: record.holder,
                    refund_to: record.holder,
                },
            );
        },
    }
    assert(steps@ =~= old(steps)@ + holder_cell_steps(*record, holder_cell));
}

/// Gives an issued credential up on its holder's word. `domain` is the
/// address of the domain's configuration record. Gives the writes to make. A
/// refused call leaves the record as it was.
pub fn burn(
    config: &ProjectAccount,
    domain: &Address,
    record: &mut CredentialRecord,
    caller: &Address,
    holder_cell: Option<u64>,
) -> (r: Result<Vec<TeardownStep>, ErrorCode>)
    ensures
        match burn_outcome(*config, *domain, *old(record), *caller, holder_cell) {
            Ok((next, steps)) => r matches Ok(planned) && planned@ == steps && *final(record)
                == next,
            Err(e) => r matches Err(refusal) && refusal == e && *final(record) == *old(record),
        },
{
    if *caller != record.holder {
        return Err(ErrorCode::Unauthorized);
    }
    match record.status {
        Status::Minted => {},
        Status::Revoked => { return Err(ErrorCode::AlreadyRevoked); },
        _ => { return Err(ErrorCode::RecordNotFound); },
    }
    let mut steps: Vec<TeardownStep> = Vec::new();
    push_holder_cell_steps(&mut steps, record, holder_cell);
    steps.push(
        TeardownStep::CloseToken {
            token: record.token,
            refund_to: config.authority,
            authority: *domain,
        },
    );
    record.status = Status::Revoked;
    assert(steps@ =~= burn_outcome(
        *config,
        *domain,
        *old(record),
        *caller,
        holder_cell,
    ).unwrap().1);
    Ok(steps)
}

/// What cleaning up comes to: the caller must be the holder the record is
/// bound to, and the record `Revoked`; anything else is `Unauthorized`. Then a
/// frozen cell is thawed on the word of the domain record at `domain`, the
/// cell emptied and closed in favour of the holder, and the record itself
/// closed in favour of the admin.
pub open spec fn cleanup_outcome(
    config: ProjectAccount,
    domain: Address,
    record: CredentialRecord,
    caller: Address,
    holder_cell: Option<u64>,
    frozen: bool,
) -> Result<Seq<TeardownStep>, ErrorCode> {
    if caller != record.holder || record.status != Status::Revoked {
        Err(ErrorCode::Unauthorized)
    } else {
        let thaw = if holder_cell is Some && frozen {
            seq![
                TeardownStep::Thaw {
                    token: record.token,
                    holder: record.holder,
                    authority: domain,
                },
            ]
        } else {
            Seq::empty()
        };
        Ok(
            thaw + holder_cell_steps(record, holder_cell) + seq![
                TeardownStep::CloseRecord { refund_to: config.authority },
            ],
        )
    }
}

/// Reclaims what a revoked credential has left behind: the holder's cell, if
/// there is one, and the record. `domain` is the address of the domain's
/// configuration record. Gives the writes to make; the last of them closes
/// the record, which is of no use after it.
pub fn cleanup(
    config: &ProjectAccount,
    domain: &Address,
    record: &CredentialRecord,
    caller: &Address,
    holder_cell: Option<u64>,
    frozen: bool,
) -> (r: Result<Vec<TeardownStep>, ErrorCode>)
    ensures
        match cleanup_outcome(*config, *domain, *record, *caller, holder_cell, frozen) {
            Ok(steps) => r matches Ok(planned) && planned@ == steps,
            Err(e) => r matches Err(refusal) && refusal == e,
        },
{
    if *caller != record.holder {
        return Err(ErrorCode::Unauthorized);
    }
    if record.status != Status::Revoked {
        return Err(ErrorCode::Unauthorized);
    }
    let mut steps: Vec<TeardownStep> = Vec::new();
    if holder_cell.is_some() && frozen {
        steps.push(
            TeardownStep::Thaw { token: record.token, holder: record.holder, authority: *domain },
        );
    }
    push_holder_cell_steps(&mut steps, record, holder_cell);
    steps.push(TeardownStep::CloseRecord { refund_to: config.authority });
    assert(steps@ =~= cleanup_outcome(
        *config,
        *domain,
        *record,
        *caller,
        holder_cell,
        frozen,
    ).unwrap());
    Ok(steps)
}

/// The number that eight bytes stand for, least significant byte first.
pub open spec fn le_u64(bytes: Seq<u8>) -> int {
    bytes[0] + bytes[1] * 0x100 + bytes[2] * 0x1_0000 + bytes[3] * 0x100_0000 + bytes[4]
        * 0x1_0000_0000 + bytes[5] * 0x100_0000_0000 + bytes[6] * 0x1_0000_0000_0000 + bytes[7]
        * 0x100_0000_0000_0000
}

/// The balance that the data of a holder's cell records: the eight bytes from
/// the 64th on, least significant first; data too short to hold them records
/// none.
pub open spec fn spec_holder_balance(data: Seq<u8>) -> int {
    if data.len() >= 72 {
        le_u64(data.subrange(64, 72))
    } else {
        0
    }
}

/// Reads the balance out of the data of a holder's cell.
pub fn holder_balance(data: &[u8]) -> (balance: u64)
    ensures
        balance == spec_holder_balance(data@),
{
    if data.len() >= 72 {
        let b0: u64 = data[64] as u64;
        let b1: u64 = data[65] as u64;
        let b2: u64 = data[66] as u64;
        let b3: u64 = data[67] as u64;
        let b4: u64 = data[68] as u64;
        let b5: u64 = data[69] as u64;
        let b6: u64 = data[70] as u64;
        let b7: u64 = data[71] as u64;
        b0 + b1 * 0x100 + b2 * 0x1_0000 + b3 * 0x100_0000 + b4 * 0x1_0000_0000 + b5
            * 0x100_0000_0000 + b6 * 0x1_0000_0000_0000 + b7 * 0x100_0000_0000_0000
    } else {
        0
    }
}

/// Whether the data of a holder's cell mark the cell as frozen: the byte at
/// the 108th place is 2.
pub open spec fn spec_holder_frozen(data: Seq<u8>) -> bool {
    data.len() > 108 && data[108] == 2
}

/// Reads out of the data of a holder's cell whether the cell is frozen.
pub fn holder_frozen(data: &[u8]) -> (frozen: bool)
    ensures
        frozen == spec_holder_frozen(data@),
{
    data.len() > 108 && data[108] == 2
}

/// The place of a status in the life of a credential.
pub open spec fn rank(status: Status) -> int {
    match status {
        Status::Unauthorized => 0,
        Status::Authorized => 1,
        Status::Minted => 2,
        Status::Revoked => 3,
    }
}

/// A second authorization of the same record is refused with
/// `AlreadyAuthorized`, whoever asks and whatever they offer: the fee is
/// charged once, and the record stays `Authorized`.
pub proof fn lemma_authorize_once(
    config: ProjectAccount,
    record: CredentialRecord,
    payer: Address,
    payer_balance: u64,
    destination: Address,
    subject: Address,
    bump: u8,
    again_config: ProjectAccount,
    again_payer: Address,
    again_balance: u64,
    again_destination: Address,
    again_subject: Address,
    again_bump: u8,
)
    requires
        authorize_outcome(config, record, payer, payer_balance, destination, subject, bump) is Ok,
    ensures
        ({
            let first = authorize_outcome(
                config,
                record,
                payer,
                payer_balance,
                destination,
                subject,
                bump,
            ).unwrap();
            &&& first.0.status == Status::Authorized
            &&& first.1 == if config.mint_price == 0 {
                None
            } else {
                Some(Transfer { from: payer, to: config.destination, amount: config.mint_price })
            }
            &&& authorize_outcome(
                again_config,
                first.0,
                again_payer,
                again_balance,
                again_destination,
                again_subject,
                again_bump,
            ) == Err::<(CredentialRecord, Option<Transfer>), ErrorCode>(
                ErrorCode::AlreadyAuthorized,
            )
        }),
{
}

/// Issuing on a record that is `Minted` is refused with `AlreadyMinted`,
/// whatever else the request holds, so long as the caller may issue at all.
pub proof fn lemma_issue_on_minted(
    config: ProjectAccount,
    record: CredentialRecord,
    request: IssueRequest,
    rent: RentSchedule,
    addresses_derived: bool,
    expected_initial: Option<usize>,
    metadata_len: Option<usize>,
)
    requires
        record.status == Status::Minted,
        config.spec_is_admin_or_operator(request.caller),
    ensures
        issue_failure(
            config,
            record,
            request,
            rent,
            addresses_derived,
            expected_initial,
            metadata_len,
        ) == Some(ErrorCode::AlreadyMinted),
        issue_guard(config, record, request, rent) == Some(ErrorCode::AlreadyMinted),
{
}

/// Every transition that succeeds moves the record forward: authorizing from
/// `Unauthorized` to `Authorized`, revoking and burning from `Minted` to
/// `Revoked`. Issuing leads to `Minted` from any other status, `Revoked`
/// among them. None of them can be made twice in a row.
pub proof fn lemma_transitions(
    config: ProjectAccount,
    domain: Address,
    record: CredentialRecord,
    caller: Address,
    holder_cell: Option<u64>,
    payer: Address,
    payer_balance: u64,
    destination: Address,
    subject: Address,
    bump: u8,
    request: IssueRequest,
    rent: RentSchedule,
    addresses_derived: bool,
    expected_initial: Option<usize>,
    metadata_len: Option<usize>,
)
    ensures
        authorize_outcome(config, record, payer, payer_balance, destination, subject, bump)
            matches Ok((next, _)) ==> rank(record.status) == 0 && rank(next.status) == 1
            && authorize_outcome(
            config,
            next,
            payer,
            payer_balance,
            destination,
            subject,
            bump,
        ) is Err,
        issue_failure(
            config,
            record,
            request,
            rent,
            addresses_derived,
            expected_initial,
            metadata_len,
        ) is None ==> rank(record.status) != 2 && forall|next: CredentialRecord|
            is_issued_record(next, record, request) ==> rank(next.status) == 2 && issue_failure(
                config,
                next,
                request,
                rent,
                addresses_derived,
                expected_initial,
                metadata_len,
            ) == Some(ErrorCode::AlreadyMinted),
        revoke_outcome(config, domain, record, caller) matches Ok((next, _)) ==> rank(record.status) == 2
            && rank(next.status) == 3 && revoke_outcome(config, domain, next, caller) is Err
            && burn_outcome(config, domain, next, caller, holder_cell) is Err,
        burn_outcome(config, domain, record, caller, holder_cell) matches Ok((next, _)) ==> rank(
            record.status,
        ) == 2 && rank(next.status) == 3 && burn_outcome(config, domain, next, caller, holder_cell) is Err
            && revoke_outcome(config, domain, next, caller) is Err,
{
}

} // verus!
