use vstd::prelude::*;
use vstd::string::StringSliceAdditionalSpecFns;

use crate::address::{
    address_seeds, derive_address, program_address, Address, NON_TRANSFERABLE_PROJECT_MINT_PREFIX,
    NON_TRANSFERABLE_PROJECT_PREFIX,
};
use crate::error::ErrorCode;
use crate::initializer::{init_steps, plan_initialization, Funding, InitRequest, InitStep};
use crate::lifecycle::{config_seeds, found};
use crate::layout::{
    metadata_tlv_len, mint_account_len, plan_failure, plan_layout_with, token_metadata_len,
    token_program_account_len, Capabilities, LayoutPlan, MetadataFields,
    RentSchedule,
};
use crate::state::{InitializeArgs, ProjectAccount};

verus! {

/// What is asked for when a domain is created.
#[derive(Clone, Debug, PartialEq, Eq)]
pub struct DomainRequest {
    /// The namespace in which the domain's addresses are derived.
    pub program: Address,
    /// Who creates the domain, rules it and pays for its storage.
    pub authority: Address,
    /// The address offered for the configuration record.
    pub config_address: Address,
    /// The address offered for the collection token.
    pub collection: Address,
    /// The fee for one request.
    pub mint_price: u64,
    pub args: InitializeArgs,
}

/// What the engine hands back for a new domain: its configuration, and the
/// layout and the writes of its collection token.
#[derive(Clone, Debug, PartialEq, Eq)]
pub struct DomainPlan {
    pub config: ProjectAccount,
    pub layout: LayoutPlan,
    pub fields: MetadataFields,
    pub steps: Vec<InitStep>,
}

/// The seeds of the address of the collection token.
pub open spec fn collection_seeds() -> Seq<Seq<u8>> {
    address_seeds(NON_TRANSFERABLE_PROJECT_MINT_PREFIX.spec_bytes(), Seq::empty())
}

/// Who takes part in the creation of the collection token.
pub open spec fn collection_init_request(request: DomainRequest) -> InitRequest {
    InitRequest {
        payer: request.authority,
        token: request.collection,
        authority: request.config_address,
        holder: None,
    }
}

/// Why a domain cannot be created, or `None` where it is: both offered
/// addresses must be the derived ones, and the collection token must have a
/// layout.
pub open spec fn initialize_failure(
    request: DomainRequest,
    rent: RentSchedule,
    addresses_derived: bool,
    expected_initial: Option<usize>,
    metadata_len: Option<usize>,
) -> Option<ErrorCode> {
    if !addresses_derived {
        Some(ErrorCode::InvalidAddress)
    } else {
        plan_failure(Capabilities::spec_collection(), rent, expected_initial, metadata_len)
    }
}

/// The configuration is that of the domain created on `request`, with the
/// two bump seeds given.
pub open spec fn is_new_config(config: ProjectAccount, request: DomainRequest, bump: u8, mint_bump: u8)
    -> bool {
    &&& config.authority == request.authority
    &&& config.destination == request.authority
    &&& config.mint_price == request.mint_price
    &&& config.bump == bump
    &&& config.mint_bump == mint_bump
    &&& config.last_token_id == 0
    &&& config.name@ == request.args.name@
    &&& config.symbol@ == request.args.symbol@
    &&& config.base_uri@ == request.args.base_uri@
    &&& config.operators@ == Seq::<Address>::empty()
    &&& config.wf()
}

/// Creates the domain that `request` asks for, given what the address
/// derivation found for the configuration record (`derived_config`) and for
/// the collection token (`derived_collection`), and the sizes the token
/// program expects for the token's upfront blocks and its metadata block.
///
/// The collection token is named as the domain is, with the base address as
/// content address. The storage fee of the finished token is prepaid in full
/// when its record is created, though only the initial size is reserved
/// then.
pub fn initialize_with(
    request: &DomainRequest,
    rent: &RentSchedule,
    derived_config: Option<(Address, u8)>,
    derived_collection: Option<(Address, u8)>,
    expected_initial: Option<usize>,
    metadata_len: Option<usize>,
) -> (r: Result<DomainPlan, ErrorCode>)
    ensures
        match r {
            Ok(plan) => initialize_failure(
                *request,
                *rent,
                found(derived_config, request.config_address) && found(
                    derived_collection,
                    request.collection,
                ),
                expected_initial,
                metadata_len,
            ) is None && is_new_config(
                plan.config,
                *request,
                derived_config.unwrap().1,
                derived_collection.unwrap().1,
            ) && plan.layout.describes(
                Capabilities::spec_collection(),
                *rent,
                metadata_len.unwrap(),
            ) && plan.layout.wf() && plan.fields.name@ == request.args.name@
                && plan.fields.symbol@ == request.args.symbol@ && plan.fields.uri@
                == request.args.base_uri@ && plan.steps@ == init_steps(
                plan.layout,
                collection_init_request(*request),
                Funding::Full,
                false,
            ),
            Err(e) => initialize_failure(
                *request,
                *rent,
                found(derived_config, request.config_address) && found(
                    derived_collection,
                    request.collection,
                ),
                expected_initial,
                metadata_len,
            ) == Some(e),
        },
{
    let bump: u8 = match derived_config {
        Some((address, bump)) => {
            if address != request.config_address {
                return Err(ErrorCode::InvalidAddress);
            }
            bump
        },
        None => { return Err(ErrorCode::InvalidAddress); },
    };
    let mint_bump: u8 = match derived_collection {
        Some((address, bump)) => {
            if address != request.collection {
                return Err(ErrorCode::InvalidAddress);
            }
            bump
        },
        None => { return Err(ErrorCode::InvalidAddress); },
    };
    let caps = Capabilities::collection();
    let layout = plan_layout_with(&caps, rent, expected_initial, metadata_len)?;
    let init = InitRequest {
        payer: request.authority,
        token: request.collection,
        authority: request.config_address,
        holder: None,
    };
    let steps = plan_initialization(&layout, &init, Funding::Full, false);
    let fields = MetadataFields {
        name: request.args.name.clone(),
        symbol: request.args.symbol.clone(),
        uri: request.args.base_uri.clone(),
    };
    let args = InitializeArgs {
        name: request.args.name.clone(),
        symbol: request.args.symbol.clone(),
        base_uri: request.args.base_uri.clone(),
    };
    let config = ProjectAccount::initialize(
        request.authority,
        args,
        request.mint_price,
        bump,
        mint_bump,
    );
    Ok(DomainPlan { config, layout, fields, steps })
}

/// Whether both addresses offered for a new domain are the derived ones.
pub open spec fn domain_is_derived(request: DomainRequest) -> bool {
    &&& program_address(config_seeds(), request.program@) matches Some((address, _)) && address
        == request.config_address@
    &&& program_address(collection_seeds(), request.program@) matches Some((address, _))
        && address == request.collection@
}

/// Why `initialize` refuses a request, or `None` where the domain is created.
pub open spec fn initialize_guard(request: DomainRequest, rent: RentSchedule) -> Option<ErrorCode> {
    initialize_failure(
        request,
        rent,
        domain_is_derived(request),
        mint_account_len(Capabilities::spec_collection().spec_upfront()),
        metadata_tlv_len(request.args.name@, request.args.symbol@, request.args.base_uri@),
    )
}

/// Creates the domain that `request` asks for: derives the addresses of the
/// configuration record and of the collection token and holds the offered
/// ones against them, plans the token's layout against the token program's
/// own sizes, and lays out the writes that create it. The first of them
/// prepays the storage fee of the finished token in full.
pub fn initialize(request: &DomainRequest, rent: &RentSchedule) -> (r: Result<
    DomainPlan,
    ErrorCode,
>)
    ensures
        match r {
            Ok(plan) => {
                &&& initialize_guard(*request, *rent) is None
                &&& program_address(config_seeds(), request.program@) == Some(
                    (request.config_address@, plan.config.bump),
                )
                &&& program_address(collection_seeds(), request.program@) == Some(
                    (request.collection@, plan.config.mint_bump),
                )
                &&& is_new_config(plan.config, *request, plan.config.bump, plan.config.mint_bump)
                &&& plan.layout.describes(
                    Capabilities::spec_collection(),
                    *rent,
                    metadata_tlv_len(
                        request.args.name@,
                        request.args.symbol@,
                        request.args.base_uri@,
                    ).unwrap(),
                )
                &&& plan.layout.wf()
                &&& plan.fields.name@ == request.args.name@
                &&& plan.fields.symbol@ == request.args.symbol@
                &&& plan.fields.uri@ == request.args.base_uri@
                &&& plan.steps@ == init_steps(
                    plan.layout,
                    collection_init_request(*request),
                    Funding::Full,
                    false,
                )
            },
            Err(e) => initialize_guard(*request, *rent) == Some(e),
        },
{
    let no_subject: [u8; 0] = [];
    let derived_config = derive_address(
        &request.program,
        NON_TRANSFERABLE_PROJECT_PREFIX,
        no_subject.as_slice(),
    );
    let derived_collection = derive_address(
        &request.program,
        NON_TRANSFERABLE_PROJECT_MINT_PREFIX,
        no_subject.as_slice(),
    );
    let metadata_len = token_metadata_len(
        request.args.name.as_str(),
        request.args.symbol.as_str(),
        request.args.base_uri.as_str(),
    );
    let caps = Capabilities::collection();
    let upfront = caps.upfront();
    let expected_initial = token_program_account_len(&upfront);
    proof {
        assert(no_subject@ =~= Seq::<u8>::empty());
        if let Some((address, _)) = derived_config {
            Address::lemma_view_injective(address, request.config_address);
        }
        if let Some((address, _)) = derived_collection {
            Address::lemma_view_injective(address, request.collection);
        }
    }
    initialize_with(
        request,
        rent,
        derived_config,
        derived_collection,
        expected_initial,
        metadata_len,
    )
}

} // verus!
