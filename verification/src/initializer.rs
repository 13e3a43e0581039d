use vstd::prelude::*;

use crate::address::Address;
use crate::layout::{ExtensionKind, LayoutPlan};

verus! {

/// How the storage fee of a new record is paid.
#[derive(Clone, Copy, Debug, PartialEq, Eq, Structural)]
pub enum Funding {
    /// The fee of the finished record is paid when the record is created.
    Full,
    /// The fee of the initial size is paid at creation, and the rest before
    /// the record is grown.
    TwoPhase,
}

/// Who takes part in the creation of one token.
#[derive(Clone, Copy, Debug, PartialEq, Eq)]
pub struct InitRequest {
    /// Who pays the storage fee.
    pub payer: Address,
    /// The address of the token.
    pub token: Address,
    /// The domain record, which rules the token.
    pub authority: Address,
    /// Who is to hold the one unit, if the token is issued to anyone.
    pub holder: Option<Address>,
}

/// The units that exist of one token: a credential is one and whole.
pub const UNITS_PER_TOKEN: u64 = 1;

/// The decimals of a token: it has no subdivision.
pub const TOKEN_DECIMALS: u8 = 0;

/// The most members the group of a collection token may take.
pub const MAX_GROUP_MEMBERS: u64 = u64::MAX;

/// One write in the creation of a token. The writes of one creation are
/// committed together or not at all.
#[derive(Clone, Copy, Debug, PartialEq, Eq)]
pub enum InitStep {
    /// Create the record with `space` bytes reserved and `lamports` prepaid.
    Allocate { payer: Address, token: Address, lamports: u64, space: usize },
    /// Declare one extension block. `authority` is whom the block names: the
    /// permanent delegate, the close authority, or who rules a pointer;
    /// `target` is where a pointer points.
    ApplyExtension { kind: ExtensionKind, authority: Address, target: Address },
    /// Set the base fields: `authority` may mint, `freeze_authority` may
    /// freeze the holders' cells, and a unit has `decimals` decimals.
    FinalizeBase { authority: Address, freeze_authority: Option<Address>, decimals: u8 },
    /// Pay what the grown record costs beyond what was prepaid.
    TopUp { payer: Address, token: Address, lamports: u64 },
    /// Grow the record and write name, symbol and content address, which
    /// `authority` may change later.
    WriteMetadata { authority: Address },
    /// Grow the record and write the data of one group block, which
    /// `authority` rules. `max_members` bounds a group and is none for a
    /// membership.
    WriteGroupData { kind: ExtensionKind, authority: Address, max_members: Option<u64> },
    /// Create the cell in which `holder` keeps the token.
    CreateHolderCell { payer: Address, holder: Address },
    /// Put `amount` units into the holder's cell, on the word of `authority`.
    MintTo { holder: Address, authority: Address, amount: u64 },
}

/// The declaration of the block `kind` of the token that `request` asks for:
/// the domain record is delegate, close authority and ruler of every
/// pointer, and every pointer points at the token itself.
pub open spec fn declaration(kind: ExtensionKind, request: InitRequest) -> InitStep {
    InitStep::ApplyExtension { kind, authority: request.authority, target: request.token }
}

/// The bound on the members of the block `kind`: that of a group for the
/// group's data, none for any other block.
pub open spec fn spec_max_members(kind: ExtensionKind) -> Option<u64> {
    if kind == ExtensionKind::TokenGroup {
        Some(MAX_GROUP_MEMBERS)
    } else {
        None
    }
}

/// The write of the group block `kind` of the token that `request` asks for:
/// the domain record rules it.
pub open spec fn group_write(kind: ExtensionKind, request: InitRequest) -> InitStep {
    InitStep::WriteGroupData {
        kind,
        authority: request.authority,
        max_members: spec_max_members(kind),
    }
}

/// The setting of the base fields of the token that `request` asks for: the
/// domain record may mint, nobody may freeze, and a unit has no subdivision.
pub open spec fn finalization(request: InitRequest) -> InitStep {
    InitStep::FinalizeBase {
        authority: request.authority,
        freeze_authority: None,
        decimals: TOKEN_DECIMALS,
    }
}

/// The declarations of the upfront blocks among `kinds`, in the order of
/// `kinds`.
pub open spec fn declare_steps(kinds: Seq<ExtensionKind>, request: InitRequest) -> Seq<InitStep>
    decreases kinds.len(),
{
    if kinds.len() == 0 {
        Seq::empty()
    } else {
        let earlier = declare_steps(kinds.drop_last(), request);
        if kinds.last().spec_declared_upfront() {
            earlier.push(declaration(kinds.last(), request))
        } else {
            earlier
        }
    }
}

/// The writes of the blocks among `kinds` that are not declared upfront, in
/// the order of `kinds`.
pub open spec fn grow_steps(kinds: Seq<ExtensionKind>, request: InitRequest) -> Seq<InitStep>
    decreases kinds.len(),
{
    if kinds.len() == 0 {
        Seq::empty()
    } else {
        let earlier = grow_steps(kinds.drop_last(), request);
        if kinds.last().spec_declared_upfront() {
            earlier
        } else {
            earlier.push(group_write(kinds.last(), request))
        }
    }
}

/// What is paid when the record is created.
pub open spec fn paid_at_creation(layout: LayoutPlan, funding: Funding) -> u64 {
    match funding {
        Funding::Full => layout.required_prepaid_fee,
        Funding::TwoPhase => layout.initial_fee,
    }
}

/// The payment that brings the prepaid fee up to that of the finished record,
/// where one is due.
pub open spec fn top_up_steps(layout: LayoutPlan, request: InitRequest, funding: Funding) -> Seq<
    InitStep,
> {
    let due = layout.required_prepaid_fee - paid_at_creation(layout, funding);
    if due > 0 {
        seq![
            InitStep::TopUp { payer: request.payer, token: request.token, lamports: due as u64 },
        ]
    } else {
        Seq::empty()
    }
}

/// The steps that hand the token to its holder: the holder's cell is created
/// where there is none, and the one unit put into it on the word of the
/// domain record.
pub open spec fn bind_steps(request: InitRequest, holder_cell_exists: bool) -> Seq<InitStep> {
    match request.holder {
        Some(holder) => {
            let mint = seq![
                InitStep::MintTo {
                    holder,
                    authority: request.authority,
                    amount: UNITS_PER_TOKEN,
                },
            ];
            if holder_cell_exists {
                mint
            } else {
                seq![InitStep::CreateHolderCell { payer: request.payer, holder }] + mint
            }
        },
        None => Seq::empty(),
    }
}

/// The writes that create the token, in the order in which they are made:
/// create the record, declare the upfront blocks by rising type id, set the
/// base fields, top up, write the metadata, write the group blocks, hand the
/// token over.
pub open spec fn init_steps(
    layout: LayoutPlan,
    request: InitRequest,
    funding: Funding,
    holder_cell_exists: bool,
) -> Seq<InitStep> {
    seq![
        InitStep::Allocate {
            payer: request.payer,
            token: request.token,
            lamports: paid_at_creation(layout, funding),
            space: layout.initial_size,
        },
    ] + declare_steps(layout.extensions@, request) + seq![finalization(request)] + top_up_steps(
        layout,
        request,
        funding,
    ) + seq![InitStep::WriteMetadata { authority: request.authority }] + grow_steps(
        layout.extensions@,
        request,
    ) + bind_steps(request, holder_cell_exists)
}

/// The sum of what the steps pay into the record.
pub open spec fn prepaid_by(steps: Seq<InitStep>) -> nat
    decreases steps.len(),
{
    if steps.len() == 0 {
        0
    } else {
        prepaid_by(steps.drop_last()) + match steps.last() {
            InitStep::Allocate { lamports, .. } => lamports as nat,
            InitStep::TopUp { lamports, .. } => lamports as nat,
            _ => 0,
        }
    }
}

proof fn lemma_declare_steps_push(
    kinds: Seq<ExtensionKind>,
    kind: ExtensionKind,
    request: InitRequest,
)
    ensures
        declare_steps(kinds.push(kind), request) == if kind.spec_declared_upfront() {
            declare_steps(kinds, request).push(declaration(kind, request))
        } else {
            declare_steps(kinds, request)
        },
        grow_steps(kinds.push(kind), request) == if kind.spec_declared_upfront() {
            grow_steps(kinds, request)
        } else {
            grow_steps(kinds, request).push(group_write(kind, request))
        },
{
    assert(kinds.push(kind).drop_last() =~= kinds);
}

/// The declarations are made of declarations alone, one for each upfront
/// kind, and the type ids rise along them as they rise along the kinds.
pub proof fn lemma_declare_steps_ordered(kinds: Seq<ExtensionKind>, request: InitRequest)
    requires
        forall|i: int, j: int|
            0 <= i < j < kinds.len() ==> (#[trigger] kinds[i]).spec_type_id() < (
            #[trigger] kinds[j]).spec_type_id(),
    ensures
        forall|i: int|
            0 <= i < declare_steps(kinds, request).len() ==> (#[trigger] declare_steps(kinds, request)[i]
                matches InitStep::ApplyExtension { kind, authority, target } && authority == request.authority
                && target == request.token && kind.spec_declared_upfront()
                && kinds.contains(kind)),
        forall|i: int, j: int|
            0 <= i < j < declare_steps(kinds, request).len() ==> (#[trigger] declare_steps(kinds, request)[i])
                ->ApplyExtension_kind.spec_type_id() < (#[trigger] declare_steps(kinds, request)[j])
                ->ApplyExtension_kind.spec_type_id(),
        forall|kind: ExtensionKind|
            kinds.contains(kind) && kind.spec_declared_upfront() ==> declare_steps(kinds, request).contains(declaration(kind, request)),
    decreases kinds.len(),
{
    if kinds.len() > 0 {
        let earlier_kinds = kinds.drop_last();
        let last = kinds.last();
        lemma_declare_steps_ordered(earlier_kinds, request);
        let earlier = declare_steps(earlier_kinds, request);
        let all = declare_steps(kinds, request);
        assert forall|i: int| 0 <= i < all.len() implies (#[trigger] all[i]
            matches InitStep::ApplyExtension { kind, authority, target } && authority == request.authority
                && target == request.token && kind.spec_declared_upfront()
            && kinds.contains(kind)) by {
            if i < earlier.len() {
                let kind = earlier[i]->ApplyExtension_kind;
                assert(earlier_kinds.contains(kind));
                let at = choose|at: int| 0 <= at < earlier_kinds.len() && earlier_kinds[at] == kind;
                assert(kinds[at] == kind);
            } else {
                assert(kinds[kinds.len() - 1] == last);
            }
        }
        assert forall|i: int, j: int| 0 <= i < j < all.len() implies (#[trigger] all[i])
            ->ApplyExtension_kind.spec_type_id() < (#[trigger] all[j])
            ->ApplyExtension_kind.spec_type_id() by {
            if j == earlier.len() {
                let kind = earlier[i]->ApplyExtension_kind;
                assert(earlier_kinds.contains(kind));
                let at = choose|at: int| 0 <= at < earlier_kinds.len() && earlier_kinds[at] == kind;
                assert(kinds[at] == kind);
                assert(kinds[kinds.len() - 1] == last);
            }
        }
        assert forall|kind: ExtensionKind|
            kinds.contains(kind) && kind.spec_declared_upfront() implies all.contains(
            declaration(kind, request),
        ) by {
            let at = choose|at: int| 0 <= at < kinds.len() && kinds[at] == kind;
            if at < earlier_kinds.len() {
                assert(earlier_kinds[at] == kind);
                assert(earlier_kinds.contains(kind));
                let step = declaration(kind, request);
                let s = choose|s: int| 0 <= s < earlier.len() && earlier[s] == step;
                assert(all[s] == step);
            } else {
                assert(all[all.len() - 1] == declaration(kind, request));
            }
        }
    }
}

/// The writes of the group blocks are such writes alone.
proof fn lemma_grow_steps_shape(kinds: Seq<ExtensionKind>, request: InitRequest)
    ensures
        forall|i: int|
            0 <= i < grow_steps(kinds, request).len() ==> #[trigger] grow_steps(kinds, request)[i]
                is WriteGroupData,
    decreases kinds.len(),
{
    if kinds.len() > 0 {
        lemma_grow_steps_shape(kinds.drop_last(), request);
    }
}

proof fn lemma_prepaid_by_concat(first: Seq<InitStep>, second: Seq<InitStep>)
    ensures
        prepaid_by(first + second) == prepaid_by(first) + prepaid_by(second),
    decreases second.len(),
{
    if second.len() == 0 {
        assert(first + second =~= first);
    } else {
        lemma_prepaid_by_concat(first, second.drop_last());
        assert((first + second).drop_last() =~= first + second.drop_last());
    }
}

/// Steps that are neither the creation nor a top-up pay nothing.
proof fn lemma_prepaid_by_none(steps: Seq<InitStep>)
    requires
        forall|i: int|
            0 <= i < steps.len() ==> !(#[trigger] steps[i] is Allocate) && !(steps[i] is TopUp),
    ensures
        prepaid_by(steps) == 0,
    decreases steps.len(),
{
    if steps.len() > 0 {
        lemma_prepaid_by_none(steps.drop_last());
    }
}

/// Whichever way the fee is paid, the steps pay the storage fee of the
/// finished record: no more and no less.
pub proof fn lemma_init_steps_prepay(
    layout: LayoutPlan,
    request: InitRequest,
    funding: Funding,
    holder_cell_exists: bool,
)
    requires
        layout.wf(),
    ensures
        prepaid_by(init_steps(layout, request, funding, holder_cell_exists))
            == layout.required_prepaid_fee,
{
    let create = seq![
        InitStep::Allocate {
            payer: request.payer,
            token: request.token,
            lamports: paid_at_creation(layout, funding),
            space: layout.initial_size,
        },
    ];
    let declare = declare_steps(layout.extensions@, request);
    let finalize = seq![finalization(request)];
    let top_up = top_up_steps(layout, request, funding);
    let write = seq![InitStep::WriteMetadata { authority: request.authority }];
    let grow = grow_steps(layout.extensions@, request);
    let bind = bind_steps(request, holder_cell_exists);
    lemma_declare_steps_ordered(layout.extensions@, request);
    lemma_grow_steps_shape(layout.extensions@, request);
    lemma_prepaid_by_none(declare);
    lemma_prepaid_by_none(finalize);
    lemma_prepaid_by_none(write);
    lemma_prepaid_by_none(grow);
    lemma_prepaid_by_none(bind);
    assert(prepaid_by(create) == paid_at_creation(layout, funding)) by {
        reveal_with_fuel(prepaid_by, 2);
        assert(create.drop_last() =~= Seq::<InitStep>::empty());
    }
    assert(prepaid_by(top_up) == layout.required_prepaid_fee - paid_at_creation(
        layout,
        funding,
    )) by {
        reveal_with_fuel(prepaid_by, 2);
        if top_up.len() > 0 {
            assert(top_up.drop_last() =~= Seq::<InitStep>::empty());
        }
    }
    lemma_prepaid_by_concat(create, declare);
    lemma_prepaid_by_concat(create + declare, finalize);
    lemma_prepaid_by_concat(create + declare + finalize, top_up);
    lemma_prepaid_by_concat(create + declare + finalize + top_up, write);
    lemma_prepaid_by_concat(create + declare + finalize + top_up + write, grow);
    lemma_prepaid_by_concat(create + declare + finalize + top_up + write + grow, bind);
}

/// The order of a creation: the record is created first; the upfront blocks
/// are declared next, by rising type id, and nowhere else; the base fields
/// are set right after the last declaration, with the domain record as
/// authority, nobody to freeze and no subdivision; the metadata is written
/// after that; and a token that is issued to a holder ends with one unit in
/// the holder's hands.
pub proof fn lemma_init_steps_order(
    layout: LayoutPlan,
    request: InitRequest,
    funding: Funding,
    holder_cell_exists: bool,
)
    requires
        layout.wf(),
    ensures
        ({
            let steps = init_steps(layout, request, funding, holder_cell_exists);
            let declared = declare_steps(layout.extensions@, request).len() as int;
            &&& steps.len() >= declared + 3
            &&& steps[0] is Allocate
            &&& forall|i: int|
                0 <= i < steps.len() ==> (#[trigger] steps[i] is ApplyExtension <==> 1 <= i
                    <= declared)
            &&& forall|i: int, j: int|
                1 <= i < j <= declared ==> (#[trigger] steps[i])->ApplyExtension_kind.spec_type_id()
                    < (#[trigger] steps[j])->ApplyExtension_kind.spec_type_id()
            &&& forall|kind: ExtensionKind|
                layout.extensions@.contains(kind) && kind.spec_declared_upfront()
                    ==> steps.contains(declaration(kind, request))
            &&& steps[declared + 1] == finalization(request)
            &&& exists|m: int| declared + 1 < m < steps.len() && steps[m] is WriteMetadata
            &&& request.holder matches Some(holder) ==> steps.last() == (InitStep::MintTo {
                holder,
                authority: request.authority,
                amount: UNITS_PER_TOKEN,
            })
        }),
{
    let create = seq![
        InitStep::Allocate {
            payer: request.payer,
            token: request.token,
            lamports: paid_at_creation(layout, funding),
            space: layout.initial_size,
        },
    ];
    let declare = declare_steps(layout.extensions@, request);
    let finalize = seq![finalization(request)];
    let top_up = top_up_steps(layout, request, funding);
    let write = seq![InitStep::WriteMetadata { authority: request.authority }];
    let grow = grow_steps(layout.extensions@, request);
    let bind = bind_steps(request, holder_cell_exists);
    let steps = init_steps(layout, request, funding, holder_cell_exists);
    let declared = declare.len() as int;
    lemma_declare_steps_ordered(layout.extensions@, request);
    lemma_grow_steps_shape(layout.extensions@, request);
    assert(steps =~= create + declare + finalize + top_up + write + grow + bind);
    let meta = declared + 2 + top_up.len();
    assert(steps[meta] is WriteMetadata);
    assert forall|i: int| 0 <= i < steps.len() implies (#[trigger] steps[i] is ApplyExtension
        <==> 1 <= i <= declared) by {
        if 1 <= i <= declared {
            assert(steps[i] == declare[i - 1]);
        } else if i > meta && i <= meta + grow.len() {
            assert(steps[i] == grow[i - meta - 1]);
        } else if i > meta + grow.len() {
            assert(steps[i] == bind[i - meta - 1 - grow.len()]);
        }
    }
    assert forall|i: int, j: int| 1 <= i < j <= declared implies (#[trigger] steps[i])
        ->ApplyExtension_kind.spec_type_id() < (#[trigger] steps[j])
        ->ApplyExtension_kind.spec_type_id() by {
        assert(steps[i] == declare[i - 1]);
        assert(steps[j] == declare[j - 1]);
    }
    assert forall|kind: ExtensionKind|
        layout.extensions@.contains(kind) && kind.spec_declared_upfront() implies steps.contains(
        declaration(kind, request),
    ) by {
        let step = declaration(kind, request);
        let at = choose|at: int| 0 <= at < declare.len() && declare[at] == step;
        assert(steps[at + 1] == step);
    }
    if request.holder is Some {
        assert(bind.len() > 0);
        assert(steps.last() == bind.last());
    }
}

/// With the fee paid in full, the creation of the record carries the storage
/// fee of the finished record, though it reserves the initial size only, and
/// nothing is topped up afterwards.
pub proof fn lemma_full_prepayment(
    layout: LayoutPlan,
    request: InitRequest,
    holder_cell_exists: bool,
)
    requires
        layout.wf(),
    ensures
        ({
            let steps = init_steps(layout, request, Funding::Full, holder_cell_exists);
            &&& steps[0] == (InitStep::Allocate {
                payer: request.payer,
                token: request.token,
                lamports: layout.required_prepaid_fee,
                space: layout.initial_size,
            })
            &&& forall|i: int| 0 <= i < steps.len() ==> !(#[trigger] steps[i] is TopUp)
        }),
{
    let declare = declare_steps(layout.extensions@, request);
    let grow = grow_steps(layout.extensions@, request);
    let bind = bind_steps(request, holder_cell_exists);
    let steps = init_steps(layout, request, Funding::Full, holder_cell_exists);
    let declared = declare.len() as int;
    lemma_declare_steps_ordered(layout.extensions@, request);
    lemma_grow_steps_shape(layout.extensions@, request);
    assert(top_up_steps(layout, request, Funding::Full) =~= Seq::<InitStep>::empty());
    assert forall|i: int| 0 <= i < steps.len() implies !(#[trigger] steps[i] is TopUp) by {
        if 1 <= i <= declared {
            assert(steps[i] == declare[i - 1]);
        } else if declared + 2 < i <= declared + 2 + grow.len() {
            assert(steps[i] == grow[i - declared - 3]);
        } else if i > declared + 2 + grow.len() {
            assert(steps[i] == bind[i - declared - 3 - grow.len()]);
        }
    }
}

/// The writes that create the token laid out by `layout`, in order. The
/// domain record of `request` is named wherever the token names an
/// authority; the token has no freeze authority and no subdivision, and a
/// holder is handed one unit.
pub fn plan_initialization(
    layout: &LayoutPlan,
    request: &InitRequest,
    funding: Funding,
    holder_cell_exists: bool,
) -> (steps: Vec<InitStep>)
    requires
        layout.wf(),
    ensures
        steps@ == init_steps(*layout, *request, funding, holder_cell_exists),
{
    let at_creation: u64 = match funding {
        Funding::Full => layout.required_prepaid_fee,
        Funding::TwoPhase => layout.initial_fee,
    };
    let mut steps: Vec<InitStep> = Vec::new();
    steps.push(
        InitStep::Allocate {
            payer: request.payer,
            token: request.token,
            lamports: at_creation,
            space: layout.initial_size,
        },
    );
    let ghost head = steps@;
    let mut i: usize = 0;
    assert(layout.extensions@.subrange(0, 0) =~= Seq::<ExtensionKind>::empty());
    assert(steps@ =~= head + declare_steps(layout.extensions@.subrange(0, 0), *request));
    while i < layout.extensions.len()
        invariant
            i <= layout.extensions.len(),
            steps@ == head + declare_steps(layout.extensions@.subrange(0, i as int), *request),
        decreases layout.extensions.len() - i,
    {
        let kind = layout.extensions[i];
        proof {
            let done = layout.extensions@.subrange(0, i as int);
            assert(layout.extensions@.subrange(0, i + 1) =~= done.push(kind));
            lemma_declare_steps_push(done, kind, *request);
        }
        if kind.declared_upfront() {
            steps.push(
                InitStep::ApplyExtension {
                    kind,
                    authority: request.authority,
                    target: request.token,
                },
            );
            assert(steps@ =~= head + declare_steps(
                layout.extensions@.subrange(0, i + 1),
                *request,
            ));
        }
        i += 1;
    }
    assert(layout.extensions@.subrange(0, layout.extensions@.len() as int)
        =~= layout.extensions@);
    steps.push(
        InitStep::FinalizeBase {
            authority: request.authority,
            freeze_authority: None,
            decimals: TOKEN_DECIMALS,
        },
    );
    let due: u64 = layout.required_prepaid_fee - at_creation;
    if due > 0 {
        steps.push(InitStep::TopUp { payer: request.payer, token: request.token, lamports: due });
    }
    steps.push(InitStep::WriteMetadata { authority: request.authority });
    let ghost written = steps@;
    assert(written =~= head + declare_steps(layout.extensions@, *request) + seq![
        finalization(*request),
    ] + top_up_steps(*layout, *request, funding) + seq![
        InitStep::WriteMetadata { authority: request.authority },
    ]);
    let mut j: usize = 0;
    assert(steps@ =~= written + grow_steps(layout.extensions@.subrange(0, 0), *request));
    while j < layout.extensions.len()
        invariant
            j <= layout.extensions.len(),
            steps@ == written + grow_steps(layout.extensions@.subrange(0, j as int), *request),
        decreases layout.extensions.len() - j,
    {
        let kind = layout.extensions[j];
        proof {
            let done = layout.extensions@.subrange(0, j as int);
            assert(layout.extensions@.subrange(0, j + 1) =~= done.push(kind));
            lemma_declare_steps_push(done, kind, *request);
        }
        if !kind.declared_upfront() {
            let max_members: Option<u64> = if kind == ExtensionKind::TokenGroup {
                Some(MAX_GROUP_MEMBERS)
            } else {
                None
            };
            steps.push(
                InitStep::WriteGroupData { kind, authority: request.authority, max_members },
            );
            assert(steps@ =~= written + grow_steps(
                layout.extensions@.subrange(0, j + 1),
                *request,
            ));
        }
        j += 1;
    }
    let ghost grown = steps@;
    match request.holder {
        Some(holder) => {
            if !holder_cell_exists {
                steps.push(InitStep::CreateHolderCell { payer: request.payer, holder });
            }
            steps.push(
                InitStep::MintTo {
                    holder,
                    authority: request.authority,
                    amount: UNITS_PER_TOKEN,
                },
            );
        },
        None => {},
    }
    assert(steps@ =~= grown + bind_steps(*request, holder_cell_exists));
    steps
}

} // verus!
