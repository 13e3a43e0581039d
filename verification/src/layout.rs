use spl_token_2022::extension::ExtensionType;
use spl_token_2022::state::Mint;
use spl_token_metadata_interface::state::TokenMetadata;
use vstd::prelude::*;

use crate::error::ErrorCode;

verus! {

/// Size of a token record that carries no extension block.
pub const BARE_TOKEN_SIZE: usize = 82;

/// Size of the fixed part of a token record that carries extension blocks.
pub const EXTENSIBLE_BASE_SIZE: usize = 166;

/// Bytes that the ledger charges for on top of the data of any record.
pub const ACCOUNT_STORAGE_OVERHEAD: u64 = 128;

/// The number of extension kinds; their type ids run from 1 to this.
pub const EXTENSION_KINDS: u16 = 8;

/// The kinds with a type id up to this are declared before the base fields
/// of a token are set.
pub const UPFRONT_KINDS: u16 = 6;

/// A capability that a token can be created with. Each kind is one block of
/// the token's layout.
#[derive(Clone, Copy, Debug, PartialEq, Eq, Structural)]
pub enum ExtensionKind {
    /// The token can never change hands.
    NonTransferable,
    /// The domain may burn the token without the holder.
    PermanentDelegate,
    /// The token points at the group it heads.
    GroupPointer,
    /// The token points at its metadata.
    MetadataPointer,
    /// The token's record can be closed and its storage fee reclaimed.
    MintCloseAuthority,
    /// The token points at its membership of a group.
    GroupMemberPointer,
    /// The data of the group the token heads.
    TokenGroup,
    /// The data of the token's membership of a group.
    TokenGroupMember,
}

impl ExtensionKind {
    /// The place of the kind in the order of initialisation. This is the
    /// engine's own numbering, lowest first.
    pub open spec fn spec_type_id(self) -> u16 {
        match self {
            ExtensionKind::NonTransferable => 1,
            ExtensionKind::PermanentDelegate => 2,
            ExtensionKind::GroupPointer => 3,
            ExtensionKind::MetadataPointer => 4,
            ExtensionKind::MintCloseAuthority => 5,
            ExtensionKind::GroupMemberPointer => 6,
            ExtensionKind::TokenGroup => 7,
            ExtensionKind::TokenGroupMember => 8,
        }
    }

    #[verifier::when_used_as_spec(spec_type_id)]
    pub fn type_id(self) -> (id: u16)
        ensures
            id == self.spec_type_id(),
            1 <= id <= EXTENSION_KINDS,
    {
        match self {
            ExtensionKind::NonTransferable => 1,
            ExtensionKind::PermanentDelegate => 2,
            ExtensionKind::GroupPointer => 3,
            ExtensionKind::MetadataPointer => 4,
            ExtensionKind::MintCloseAuthority => 5,
            ExtensionKind::GroupMemberPointer => 6,
            ExtensionKind::TokenGroup => 7,
            ExtensionKind::TokenGroupMember => 8,
        }
    }

    /// The kind with the given type id; an id outside 1..=8 stands for the
    /// first kind.
    pub open spec fn spec_from_type_id(id: u16) -> ExtensionKind {
        if id == 2 {
            ExtensionKind::PermanentDelegate
        } else if id == 3 {
            ExtensionKind::GroupPointer
        } else if id == 4 {
            ExtensionKind::MetadataPointer
        } else if id == 5 {
            ExtensionKind::MintCloseAuthority
        } else if id == 6 {
            ExtensionKind::GroupMemberPointer
        } else if id == 7 {
            ExtensionKind::TokenGroup
        } else if id == 8 {
            ExtensionKind::TokenGroupMember
        } else {
            ExtensionKind::NonTransferable
        }
    }

    /// The kind with the given type id, if the id is one.
    pub fn from_type_id(id: u16) -> (kind: Option<ExtensionKind>)
        ensures
            kind == if 1 <= id <= EXTENSION_KINDS {
                Some(Self::spec_from_type_id(id))
            } else {
                None
            },
            kind matches Some(k) ==> k.spec_type_id() == id,
    {
        if id == 1 {
            Some(ExtensionKind::NonTransferable)
        } else if id == 2 {
            Some(ExtensionKind::PermanentDelegate)
        } else if id == 3 {
            Some(ExtensionKind::GroupPointer)
        } else if id == 4 {
            Some(ExtensionKind::MetadataPointer)
        } else if id == 5 {
            Some(ExtensionKind::MintCloseAuthority)
        } else if id == 6 {
            Some(ExtensionKind::GroupMemberPointer)
        } else if id == 7 {
            Some(ExtensionKind::TokenGroup)
        } else if id == 8 {
            Some(ExtensionKind::TokenGroupMember)
        } else {
            None
        }
    }

    /// Bytes the block of this kind takes in a record, its type and length
    /// header included.
    pub open spec fn spec_block_size(self) -> usize {
        match self {
            ExtensionKind::NonTransferable => 4,
            ExtensionKind::PermanentDelegate => 36,
            ExtensionKind::GroupPointer => 68,
            ExtensionKind::MetadataPointer => 68,
            ExtensionKind::MintCloseAuthority => 36,
            ExtensionKind::GroupMemberPointer => 68,
            ExtensionKind::TokenGroup => 84,
            ExtensionKind::TokenGroupMember => 68,
        }
    }

    #[verifier::when_used_as_spec(spec_block_size)]
    pub fn block_size(self) -> (size: usize)
        ensures
            size == self.spec_block_size(),
            size <= 84,
    {
        match self {
            ExtensionKind::NonTransferable => 4,
            ExtensionKind::PermanentDelegate => 36,
            ExtensionKind::GroupPointer => 68,
            ExtensionKind::MetadataPointer => 68,
            ExtensionKind::MintCloseAuthority => 36,
            ExtensionKind::GroupMemberPointer => 68,
            ExtensionKind::TokenGroup => 84,
            ExtensionKind::TokenGroupMember => 68,
        }
    }

    /// Whether the block is declared before the token's base fields are set.
    /// The others are written once the record has been grown.
    pub open spec fn spec_declared_upfront(self) -> bool {
        self.spec_type_id() <= UPFRONT_KINDS
    }

    #[verifier::when_used_as_spec(spec_declared_upfront)]
    pub fn declared_upfront(self) -> (r: bool)
        ensures
            r == self.spec_declared_upfront(),
    {
        self.type_id() <= UPFRONT_KINDS
    }
}

/// A set of capabilities: the extension kinds a token is asked to carry.
#[derive(Clone, Copy, Debug, PartialEq, Eq, Structural)]
pub struct Capabilities {
    pub non_transferable: bool,
    pub permanent_delegate: bool,
    pub group_pointer: bool,
    pub metadata_pointer: bool,
    pub mint_close_authority: bool,
    pub group_member_pointer: bool,
    pub token_group: bool,
    pub token_group_member: bool,
}

impl View for Capabilities {
    type V = Set<ExtensionKind>;

    open spec fn view(&self) -> Set<ExtensionKind> {
        Set::new(|kind: ExtensionKind| self.has(kind))
    }
}

impl Capabilities {
    pub open spec fn has(self, kind: ExtensionKind) -> bool {
        match kind {
            ExtensionKind::NonTransferable => self.non_transferable,
            ExtensionKind::PermanentDelegate => self.permanent_delegate,
            ExtensionKind::GroupPointer => self.group_pointer,
            ExtensionKind::MetadataPointer => self.metadata_pointer,
            ExtensionKind::MintCloseAuthority => self.mint_close_authority,
            ExtensionKind::GroupMemberPointer => self.group_member_pointer,
            ExtensionKind::TokenGroup => self.token_group,
            ExtensionKind::TokenGroupMember => self.token_group_member,
        }
    }

    /// The set without a member.
    pub fn none() -> (caps: Capabilities)
        ensures
            forall|kind: ExtensionKind| !caps.has(kind),
    {
        Capabilities {
            non_transferable: false,
            permanent_delegate: false,
            group_pointer: false,
            metadata_pointer: false,
            mint_close_authority: false,
            group_member_pointer: false,
            token_group: false,
            token_group_member: false,
        }
    }

    /// What every credential token carries: it cannot be transferred, the
    /// domain may burn it, it holds its own metadata, it can be closed, and
    /// it is a member of the domain's collection.
    pub open spec fn spec_credential() -> Capabilities {
        Capabilities {
            non_transferable: true,
            permanent_delegate: true,
            group_pointer: false,
            metadata_pointer: true,
            mint_close_authority: true,
            group_member_pointer: true,
            token_group: false,
            token_group_member: true,
        }
    }

    /// What the collection token of a domain carries: it cannot be
    /// transferred, the domain may burn it, it holds its own metadata, and it
    /// heads the group of the domain's credentials.
    pub open spec fn spec_collection() -> Capabilities {
        Capabilities {
            non_transferable: true,
            permanent_delegate: true,
            group_pointer: true,
            metadata_pointer: true,
            mint_close_authority: false,
            group_member_pointer: false,
            token_group: true,
            token_group_member: false,
        }
    }

    /// The capabilities of a credential token.
    #[verifier::when_used_as_spec(spec_credential)]
    pub fn credential() -> (caps: Capabilities)
        ensures
            caps == Self::spec_credential(),
    {
        Capabilities {
            non_transferable: true,
            permanent_delegate: true,
            group_pointer: false,
            metadata_pointer: true,
            mint_close_authority: true,
            group_member_pointer: true,
            token_group: false,
            token_group_member: true,
        }
    }

    /// The capabilities of the collection token of a domain.
    #[verifier::when_used_as_spec(spec_collection)]
    pub fn collection() -> (caps: Capabilities)
        ensures
            caps == Self::spec_collection(),
    {
        Capabilities {
            non_transferable: true,
            permanent_delegate: true,
            group_pointer: true,
            metadata_pointer: true,
            mint_close_authority: false,
            group_member_pointer: false,
            token_group: true,
            token_group_member: false,
        }
    }

    pub fn contains(&self, kind: ExtensionKind) -> (r: bool)
        ensures
            r == self.has(kind),
    {
        match kind {
            ExtensionKind::NonTransferable => self.non_transferable,
            ExtensionKind::PermanentDelegate => self.permanent_delegate,
            ExtensionKind::GroupPointer => self.group_pointer,
            ExtensionKind::MetadataPointer => self.metadata_pointer,
            ExtensionKind::MintCloseAuthority => self.mint_close_authority,
            ExtensionKind::GroupMemberPointer => self.group_member_pointer,
            ExtensionKind::TokenGroup => self.token_group,
            ExtensionKind::TokenGroupMember => self.token_group_member,
        }
    }

    /// The set with `kind` added.
    pub fn with(self, kind: ExtensionKind) -> (caps: Capabilities)
        ensures
            forall|k: ExtensionKind| caps.has(k) <==> (self.has(k) || k == kind),
    {
        let mut caps = self;
        match kind {
            ExtensionKind::NonTransferable => caps.non_transferable = true,
            ExtensionKind::PermanentDelegate => caps.permanent_delegate = true,
            ExtensionKind::GroupPointer => caps.group_pointer = true,
            ExtensionKind::MetadataPointer => caps.metadata_pointer = true,
            ExtensionKind::MintCloseAuthority => caps.mint_close_authority = true,
            ExtensionKind::GroupMemberPointer => caps.group_member_pointer = true,
            ExtensionKind::TokenGroup => caps.token_group = true,
            ExtensionKind::TokenGroupMember => caps.token_group_member = true,
        }
        caps
    }

    /// The set of the kinds listed; order and repetition do not count.
    pub fn from_kinds(kinds: &Vec<ExtensionKind>) -> (caps: Capabilities)
        ensures
            forall|kind: ExtensionKind| caps.has(kind) <==> kinds@.contains(kind),
            caps@ == kinds@.to_set(),
    {
        let mut caps = Capabilities::none();
        let mut i: usize = 0;
        while i < kinds.len()
            invariant
                i <= kinds.len(),
                forall|kind: ExtensionKind|
                    caps.has(kind) <==> kinds@.subrange(0, i as int).contains(kind),
            decreases kinds.len() - i,
        {
            let ghost before = kinds@.subrange(0, i as int);
            caps = caps.with(kinds[i]);
            i += 1;
            proof {
                let after = kinds@.subrange(0, i as int);
                assert(after =~= before.push(kinds@[i - 1]));
                assert forall|kind: ExtensionKind| caps.has(kind) <==> after.contains(kind) by {
                    if before.contains(kind) {
                        let j = choose|j: int| 0 <= j < before.len() && before[j] == kind;
                        assert(after[j] == kind);
                    }
                    if kind == kinds@[i - 1] {
                        assert(after[i - 1] == kind);
                    }
                }
            }
        }
        assert(kinds@.subrange(0, kinds.len() as int) =~= kinds@);
        assert(caps@ =~= kinds@.to_set());
        caps
    }

    /// The members of the set whose type id is at most `upto`, lowest id
    /// first.
    pub open spec fn ordered_upto(self, upto: nat) -> Seq<ExtensionKind>
        decreases upto,
    {
        if upto == 0 {
            Seq::empty()
        } else {
            let lower = self.ordered_upto((upto - 1) as nat);
            let kind = ExtensionKind::spec_from_type_id(upto as u16);
            if self.has(kind) {
                lower.push(kind)
            } else {
                lower
            }
        }
    }

    /// The members of the set in the order in which they are initialised.
    pub open spec fn spec_ordered(self) -> Seq<ExtensionKind> {
        self.ordered_upto(EXTENSION_KINDS as nat)
    }

    /// The members that are declared before the base fields are set, in order.
    pub open spec fn spec_upfront(self) -> Seq<ExtensionKind> {
        self.ordered_upto(UPFRONT_KINDS as nat)
    }

    /// Every entry of `ordered_upto` is a member with an id in range, and the
    /// ids rise strictly along it.
    pub proof fn lemma_ordered_upto(self, upto: nat)
        requires
            upto <= EXTENSION_KINDS,
        ensures
            self.ordered_upto(upto).len() <= upto,
            forall|i: int|
                0 <= i < self.ordered_upto(upto).len() ==> {
                    let kind = #[trigger] self.ordered_upto(upto)[i];
                    self.has(kind) && 1 <= kind.spec_type_id() <= upto
                },
            forall|i: int, j: int|
                0 <= i < j < self.ordered_upto(upto).len() ==> (#[trigger] self.ordered_upto(
                    upto,
                )[i]).spec_type_id() < (#[trigger] self.ordered_upto(upto)[j]).spec_type_id(),
            forall|kind: ExtensionKind|
                self.has(kind) && kind.spec_type_id() <= upto ==> self.ordered_upto(
                    upto,
                ).contains(kind),
        decreases upto,
    {
        if upto > 0 {
            let lower = self.ordered_upto((upto - 1) as nat);
            let top = ExtensionKind::spec_from_type_id(upto as u16);
            self.lemma_ordered_upto((upto - 1) as nat);
            let all = self.ordered_upto(upto);
            assert(top.spec_type_id() == upto);
            assert forall|kind: ExtensionKind|
                self.has(kind) && kind.spec_type_id() <= upto implies all.contains(kind) by {
                if kind.spec_type_id() == upto {
                    assert(kind == top);
                    assert(all[all.len() - 1] == kind);
                } else {
                    assert(lower.contains(kind));
                    let j = choose|j: int| 0 <= j < lower.len() && lower[j] == kind;
                    assert(all[j] == kind);
                }
            }
        }
    }

    fn members_upto(&self, upto: u16) -> (kinds: Vec<ExtensionKind>)
        requires
            upto <= EXTENSION_KINDS,
        ensures
            kinds@ == self.ordered_upto(upto as nat),
    {
        let mut kinds: Vec<ExtensionKind> = Vec::new();
        let mut id: u16 = 0;
        while id < upto
            invariant
                id <= upto <= EXTENSION_KINDS,
                kinds@ == self.ordered_upto(id as nat),
            decreases upto - id,
        {
            id += 1;
            match ExtensionKind::from_type_id(id) {
                Some(kind) => {
                    if self.contains(kind) {
                        kinds.push(kind);
                    }
                },
                None => {},
            }
        }
        kinds
    }

    /// The members in the order of initialisation.
    pub fn ordered(&self) -> (kinds: Vec<ExtensionKind>)
        ensures
            kinds@ == self.spec_ordered(),
    {
        self.members_upto(EXTENSION_KINDS)
    }

    /// The members that are declared before the base fields are set, in
    /// order.
    pub fn upfront(&self) -> (kinds: Vec<ExtensionKind>)
        ensures
            kinds@ == self.spec_upfront(),
    {
        self.members_upto(UPFRONT_KINDS)
    }
}

/// The name, symbol and content address a token is created with.
#[derive(Clone, Debug, PartialEq, Eq)]
pub struct MetadataFields {
    pub name: String,
    pub symbol: String,
    pub uri: String,
}

/// What the ledger charges to keep a record: a price for each byte, of the
/// data and of a fixed overhead. The price is a whole number; where the
/// ledger's own price is not, whoever hands it in rounds up, so that a fee
/// planned here is never below what the ledger asks.
#[derive(Clone, Copy, Debug, PartialEq, Eq, Structural)]
pub struct RentSchedule {
    pub lamports_per_byte: u64,
    pub overhead_bytes: u64,
}

impl RentSchedule {
    /// The schedule of a ledger that asks `lamports_per_byte` for each byte
    /// and counts `ACCOUNT_STORAGE_OVERHEAD` bytes on top of every record.
    pub fn new(lamports_per_byte: u64) -> (rent: RentSchedule)
        ensures
            rent.lamports_per_byte == lamports_per_byte,
            rent.overhead_bytes == ACCOUNT_STORAGE_OVERHEAD,
    {
        RentSchedule { lamports_per_byte, overhead_bytes: ACCOUNT_STORAGE_OVERHEAD }
    }
}

/// The fee that keeps a record of `size` bytes, before any machine limit.
pub open spec fn storage_fee(rent: RentSchedule, size: nat) -> nat {
    ((rent.overhead_bytes + size) * rent.lamports_per_byte) as nat
}

/// The sum of a list of sizes.
pub open spec fn total_of(sizes: Seq<usize>) -> nat
    decreases sizes.len(),
{
    if sizes.len() == 0 {
        0
    } else {
        (total_of(sizes.drop_last()) + sizes.last()) as nat
    }
}

/// The block sizes of a list of kinds, in the same order.
pub open spec fn sizes_of(kinds: Seq<ExtensionKind>) -> Seq<usize> {
    kinds.map_values(|kind: ExtensionKind| kind.spec_block_size())
}

/// Size of the fixed part of a record with the given upfront blocks.
pub open spec fn base_size_for(upfront: Seq<ExtensionKind>) -> usize {
    if upfront.len() == 0 {
        BARE_TOKEN_SIZE
    } else {
        EXTENSIBLE_BASE_SIZE
    }
}

/// The sizes of one token record, fixed before a byte of it is written.
#[derive(Clone, Debug, PartialEq, Eq)]
pub struct LayoutPlan {
    /// Size of the fixed part.
    pub base_size: usize,
    /// The extension blocks in the order of initialisation.
    pub extensions: Vec<ExtensionKind>,
    /// The size of each block of `extensions`.
    pub extension_sizes: Vec<usize>,
    /// Bytes reserved when the record is created: the fixed part and the
    /// blocks declared upfront.
    pub initial_size: usize,
    /// Size of the trailing metadata block.
    pub metadata_size: usize,
    /// Size of the finished record.
    pub total_size: usize,
    /// The storage fee of a record of the initial size.
    pub initial_fee: u64,
    /// The storage fee of the finished record, due at creation.
    pub required_prepaid_fee: u64,
}

impl LayoutPlan {
    /// The plan adds up: the total is the fixed part, the blocks and the
    /// metadata; the blocks stand in rising order of type id, each with its
    /// own size; the record is created no larger than it ends.
    pub open spec fn wf(self) -> bool {
        &&& self.extension_sizes@ == sizes_of(self.extensions@)
        &&& forall|i: int, j: int|
            0 <= i < j < self.extensions@.len() ==> (#[trigger] self.extensions@[i]).spec_type_id()
                < (#[trigger] self.extensions@[j]).spec_type_id()
        &&& self.total_size == self.base_size + total_of(self.extension_sizes@)
            + self.metadata_size
        &&& self.base_size <= self.initial_size <= self.total_size
        &&& self.initial_fee <= self.required_prepaid_fee
    }

    /// The plan is the one for `caps` under `rent` with a metadata block of
    /// `metadata_len` bytes.
    pub open spec fn describes(self, caps: Capabilities, rent: RentSchedule, metadata_len: usize)
        -> bool {
        &&& self.extensions@ == caps.spec_ordered()
        &&& self.extension_sizes@ == sizes_of(caps.spec_ordered())
        &&& self.base_size == base_size_for(caps.spec_upfront())
        &&& self.initial_size == self.base_size + total_of(sizes_of(caps.spec_upfront()))
        &&& self.metadata_size == metadata_len
        &&& self.total_size == self.base_size + total_of(self.extension_sizes@) + metadata_len
        &&& self.initial_fee == storage_fee(rent, self.initial_size as nat)
        &&& self.required_prepaid_fee == storage_fee(rent, self.total_size as nat)
    }
}

/// Why no plan can be made, or `None` where one is owed. `expected_initial`
/// is the size the token program computes for the upfront blocks, and
/// `metadata_len` the size it computes for the metadata block; either is
/// `None` where the token program could not compute it.
pub open spec fn plan_failure(
    caps: Capabilities,
    rent: RentSchedule,
    expected_initial: Option<usize>,
    metadata_len: Option<usize>,
) -> Option<ErrorCode> {
    let base = base_size_for(caps.spec_upfront());
    let initial = base + total_of(sizes_of(caps.spec_upfront()));
    if metadata_len is None || expected_initial is None {
        Some(ErrorCode::InvalidAccountData)
    } else if expected_initial != Some(initial as usize) {
        Some(ErrorCode::LayoutMismatch)
    } else {
        let total = base + total_of(sizes_of(caps.spec_ordered())) + metadata_len.unwrap();
        if total > usize::MAX || storage_fee(rent, total as nat) > u64::MAX {
            Some(ErrorCode::InvalidAccountData)
        } else {
            None
        }
    }
}

proof fn lemma_total_of_push(sizes: Seq<usize>, size: usize)
    ensures
        total_of(sizes.push(size)) == total_of(sizes) + size,
{
    assert(sizes.push(size).drop_last() =~= sizes);
}

proof fn lemma_sizes_of_push(kinds: Seq<ExtensionKind>, kind: ExtensionKind)
    ensures
        sizes_of(kinds.push(kind)) == sizes_of(kinds).push(kind.spec_block_size()),
{
    assert(sizes_of(kinds.push(kind)) =~= sizes_of(kinds).push(kind.spec_block_size()));
}

/// The members up to a lower id are the first entries of those up to a
/// higher one.
proof fn lemma_prefix(caps: Capabilities, low: nat, high: nat)
    requires
        low <= high,
    ensures
        caps.ordered_upto(low).len() <= caps.ordered_upto(high).len(),
        caps.ordered_upto(low) == caps.ordered_upto(high).subrange(
            0,
            caps.ordered_upto(low).len() as int,
        ),
    decreases high - low,
{
    if low == high {
        assert(caps.ordered_upto(low) =~= caps.ordered_upto(high).subrange(
            0,
            caps.ordered_upto(low).len() as int,
        ));
    } else {
        lemma_prefix(caps, low, (high - 1) as nat);
        let below = caps.ordered_upto((high - 1) as nat);
        assert(caps.ordered_upto(low) =~= caps.ordered_upto(high).subrange(
            0,
            caps.ordered_upto(low).len() as int,
        ));
    }
}

/// The blocks at the head of a list take no more room than the whole list.
proof fn lemma_total_of_prefix(kinds: Seq<ExtensionKind>, upto: int)
    requires
        0 <= upto <= kinds.len(),
    ensures
        total_of(sizes_of(kinds.subrange(0, upto))) <= total_of(sizes_of(kinds)),
    decreases kinds.len() - upto,
{
    if upto == kinds.len() {
        assert(kinds.subrange(0, upto) =~= kinds);
    } else {
        lemma_total_of_prefix(kinds, upto + 1);
        let head = kinds.subrange(0, upto);
        assert(kinds.subrange(0, upto + 1) =~= head.push(kinds[upto]));
        lemma_sizes_of_push(head, kinds[upto]);
        lemma_total_of_push(sizes_of(head), kinds[upto].spec_block_size());
    }
}

/// A dearer record never costs less: the storage fee does not fall as the
/// size grows.
pub proof fn lemma_storage_fee_monotonic(rent: RentSchedule, smaller: nat, larger: nat)
    requires
        smaller <= larger,
    ensures
        storage_fee(rent, smaller) <= storage_fee(rent, larger),
{
    assert((rent.overhead_bytes + smaller) * rent.lamports_per_byte <= (rent.overhead_bytes
        + larger) * rent.lamports_per_byte) by (nonlinear_arith)
        requires
            smaller <= larger,
            rent.lamports_per_byte >= 0,
            rent.overhead_bytes >= 0,
    ;
}

/// Of two plans made under one schedule, the one for the larger record asks
/// for at least as large a prepaid fee; and each plan's total is the sum of
/// its parts.
pub proof fn lemma_plan_fee_monotonic(
    first: LayoutPlan,
    second: LayoutPlan,
    first_caps: Capabilities,
    second_caps: Capabilities,
    rent: RentSchedule,
    first_metadata: usize,
    second_metadata: usize,
)
    requires
        first.describes(first_caps, rent, first_metadata),
        second.describes(second_caps, rent, second_metadata),
        first.total_size <= second.total_size,
    ensures
        first.required_prepaid_fee <= second.required_prepaid_fee,
        first.total_size == first.base_size + total_of(first.extension_sizes@)
            + first.metadata_size,
        second.total_size == second.base_size + total_of(second.extension_sizes@)
            + second.metadata_size,
{
    lemma_storage_fee_monotonic(rent, first.total_size as nat, second.total_size as nat);
}

/// The fee of a record of `size` bytes, or `None` where it passes `u64`.
pub fn checked_storage_fee(rent: &RentSchedule, size: usize) -> (fee: Option<u64>)
    ensures
        match fee {
            Some(amount) => amount == storage_fee(*rent, size as nat),
            None => storage_fee(*rent, size as nat) > u64::MAX,
        },
{
    if rent.lamports_per_byte == 0 {
        assert((rent.overhead_bytes + size) * 0 == 0);
        return Some(0);
    }
    match rent.overhead_bytes.checked_add(size as u64) {
        Some(bytes) => {
            let fee = bytes.checked_mul(rent.lamports_per_byte);
            assert(bytes * rent.lamports_per_byte == (rent.overhead_bytes + size)
                * rent.lamports_per_byte);
            fee
        },
        None => {
            assert((rent.overhead_bytes + size) * rent.lamports_per_byte > u64::MAX)
                by (nonlinear_arith)
                requires
                    rent.overhead_bytes + size > u64::MAX,
                    rent.lamports_per_byte >= 1,
            ;
            None
        },
    }
}

/// Plans the record of a token with the capabilities `caps` and a metadata
/// block of `metadata_len` bytes, and holds the plan against the size that
/// the token program expects for the upfront part.
///
/// A size the token program could not compute is `InvalidAccountData`; an
/// expected size other than the planned one is `LayoutMismatch`; a total or a
/// fee past the machine's limits is `InvalidAccountData`.
pub fn plan_layout_with(
    caps: &Capabilities,
    rent: &RentSchedule,
    expected_initial: Option<usize>,
    metadata_len: Option<usize>,
) -> (r: Result<LayoutPlan, ErrorCode>)
    ensures
        match r {
            Ok(plan) => plan_failure(*caps, *rent, expected_initial, metadata_len) is None
                && plan.describes(*caps, *rent, metadata_len.unwrap()) && plan.wf(),
            Err(e) => plan_failure(*caps, *rent, expected_initial, metadata_len) == Some(e),
        },
{
    let metadata_size: usize = match metadata_len {
        Some(len) => len,
        None => { return Err(ErrorCode::InvalidAccountData); },
    };
    let expected: usize = match expected_initial {
        Some(len) => len,
        None => { return Err(ErrorCode::InvalidAccountData); },
    };
    let extensions = caps.ordered();
    let mut extension_sizes: Vec<usize> = Vec::new();
    let mut upfront_count: usize = 0;
    let mut upfront_sum: usize = 0;
    let mut sum: usize = 0;
    let mut i: usize = 0;
    proof {
        caps.lemma_ordered_upto(EXTENSION_KINDS as nat);
        caps.lemma_ordered_upto(UPFRONT_KINDS as nat);
        lemma_prefix(*caps, UPFRONT_KINDS as nat, EXTENSION_KINDS as nat);
        assert(sizes_of(extensions@.subrange(0, 0)) =~= extension_sizes@);
    }
    let ghost upfront = caps.spec_upfront();
    while i < extensions.len()
        invariant
            i <= extensions.len() <= 8,
            extensions@ == caps.spec_ordered(),
            upfront == caps.spec_upfront(),
            upfront.len() <= extensions@.len(),
            upfront == extensions@.subrange(0, upfront.len() as int),
            forall|k: int|
                0 <= k < upfront.len() ==> (#[trigger] upfront[k]).spec_type_id() <= 6,
            forall|k: int|
                0 <= k < extensions@.len() ==> caps.has(#[trigger] extensions@[k]) && 1
                    <= extensions@[k].spec_type_id() <= 8,
            forall|k: int, l: int|
                0 <= k < l < extensions@.len() ==> (#[trigger] extensions@[k]).spec_type_id() < (
                #[trigger] extensions@[l]).spec_type_id(),
            forall|kind: ExtensionKind|
                caps.has(kind) && kind.spec_type_id() <= 6 ==> upfront.contains(kind),
            extension_sizes@ == sizes_of(extensions@.subrange(0, i as int)),
            sum == total_of(extension_sizes@),
            sum <= 84 * i,
            upfront_count == if i <= upfront.len() {
                i as int
            } else {
                upfront.len() as int
            },
            upfront_sum == total_of(sizes_of(upfront.subrange(0, upfront_count as int))),
            upfront_sum <= sum,
        decreases extensions.len() - i,
    {
        let kind = extensions[i];
        let size = kind.block_size();
        proof {
            let done = extensions@.subrange(0, i as int);
            assert(extensions@.subrange(0, i + 1) =~= done.push(kind));
            lemma_sizes_of_push(done, kind);
            lemma_total_of_push(extension_sizes@, size);
            if kind.spec_declared_upfront() {
                // an upfront kind of the set stands among the upfront entries,
                // and by the rising ids it stands at this very place
                assert(upfront.contains(kind));
                let at = choose|at: int| 0 <= at < upfront.len() && upfront[at] == kind;
                assert(extensions@[at] == kind);
                assert(at == i);
                let before = upfront.subrange(0, i as int);
                assert(upfront.subrange(0, i + 1) =~= before.push(kind));
                lemma_sizes_of_push(before, kind);
                lemma_total_of_push(sizes_of(before), size);
            } else {
                if i < upfront.len() {
                    assert(upfront[i as int] == extensions@[i as int]);
                }
            }
        }
        if kind.declared_upfront() {
            upfront_count += 1;
            upfront_sum += size;
        }
        extension_sizes.push(size);
        sum += size;
        i += 1;
    }
    proof {
        assert(extensions@.subrange(0, extensions@.len() as int) =~= extensions@);
        assert(upfront.subrange(0, upfront.len() as int) =~= upfront);
    }
    let base_size: usize = if upfront_count == 0 {
        BARE_TOKEN_SIZE
    } else {
        EXTENSIBLE_BASE_SIZE
    };
    let initial_size: usize = base_size + upfront_sum;
    if expected != initial_size {
        return Err(ErrorCode::LayoutMismatch);
    }
    let total_size: usize = match (base_size + sum).checked_add(metadata_size) {
        Some(total) => total,
        None => { return Err(ErrorCode::InvalidAccountData); },
    };
    let required_prepaid_fee: u64 = match checked_storage_fee(rent, total_size) {
        Some(fee) => fee,
        None => { return Err(ErrorCode::InvalidAccountData); },
    };
    proof {
        lemma_total_of_prefix(extensions@, upfront.len() as int);
        lemma_storage_fee_monotonic(*rent, initial_size as nat, total_size as nat);
    }
    let initial_fee: u64 = match checked_storage_fee(rent, initial_size) {
        Some(fee) => fee,
        None => { return Err(ErrorCode::InvalidAccountData); },
    };
    Ok(
        LayoutPlan {
            base_size,
            extensions,
            extension_sizes,
            initial_size,
            metadata_size,
            total_size,
            initial_fee,
            required_prepaid_fee,
        },
    )
}

/// The size that `ExtensionType::try_calculate_account_len` gives for a token
/// record with the listed blocks, or `None` where it gives an error.
pub uninterp spec fn mint_account_len(kinds: Seq<ExtensionKind>) -> Option<usize>;

/// The size that `TokenMetadata::tlv_size_of` gives for the block that holds
/// the three fields, or `None` where it gives an error.
pub uninterp spec fn metadata_tlv_len(name: Seq<char>, symbol: Seq<char>, uri: Seq<char>) -> Option<
    usize,
>;

/// Calls `ExtensionType::try_calculate_account_len::<Mint>` of `spl-token-2022`
/// on the extension types that the kinds stand for. The result depends on the
/// list alone.
#[verifier::external_body]
pub(crate) fn token_program_account_len(kinds: &Vec<ExtensionKind>) -> (r: Option<usize>)
    ensures
        r == mint_account_len(kinds@),
{
    let types: Vec<ExtensionType> = kinds.iter().map(|kind| match kind {
        ExtensionKind::NonTransferable => ExtensionType::NonTransferable,
        ExtensionKind::PermanentDelegate => ExtensionType::PermanentDelegate,
        ExtensionKind::GroupPointer => ExtensionType::GroupPointer,
        ExtensionKind::MetadataPointer => ExtensionType::MetadataPointer,
        ExtensionKind::MintCloseAuthority => ExtensionType::MintCloseAuthority,
        ExtensionKind::GroupMemberPointer => ExtensionType::GroupMemberPointer,
        ExtensionKind::TokenGroup => ExtensionType::TokenGroup,
        ExtensionKind::TokenGroupMember => ExtensionType::TokenGroupMember,
    }).collect();
    ExtensionType::try_calculate_account_len::<Mint>(&types).ok()
}

/// Calls `TokenMetadata::tlv_size_of` of `spl-token-metadata-interface` on a
/// metadata block with the three fields and no further entries. The result
/// depends on the fields alone.
#[verifier::external_body]
pub(crate) fn token_metadata_len(name: &str, symbol: &str, uri: &str) -> (r: Option<usize>)
    ensures
        r == metadata_tlv_len(name@, symbol@, uri@),
{
    let metadata = TokenMetadata {
        name: name.to_string(),
        symbol: symbol.to_string(),
        uri: uri.to_string(),
        ..Default::default()
    };
    metadata.tlv_size_of().ok()
}

/// Plans the record of a token with the capabilities `caps` and the metadata
/// `fields`: the size of each part, the total, and the storage fee to prepay
/// under `rent`. The token program's own size computations are consulted and
/// the plan is held against them, as `plan_layout_with` describes.
pub fn plan_layout(caps: &Capabilities, fields: &MetadataFields, rent: &RentSchedule) -> (r: Result<
    LayoutPlan,
    ErrorCode,
>)
    ensures
        match r {
            Ok(plan) => plan_failure(
                *caps,
                *rent,
                mint_account_len(caps.spec_upfront()),
                metadata_tlv_len(fields.name@, fields.symbol@, fields.uri@),
            ) is None && plan.describes(
                *caps,
                *rent,
                metadata_tlv_len(fields.name@, fields.symbol@, fields.uri@).unwrap(),
            ) && plan.wf(),
            Err(e) => plan_failure(
                *caps,
                *rent,
                mint_account_len(caps.spec_upfront()),
                metadata_tlv_len(fields.name@, fields.symbol@, fields.uri@),
            ) == Some(e),
        },
{
    let metadata_len = token_metadata_len(
        fields.name.as_str(),
        fields.symbol.as_str(),
        fields.uri.as_str(),
    );
    let upfront = caps.upfront();
    let expected_initial = token_program_account_len(&upfront);
    plan_layout_with(caps, rent, expected_initial, metadata_len)
}

} // verus!
