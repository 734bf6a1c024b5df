//! The sequencing of the two delegated calls.
//!
//! Creating a tree is one unit of work: the balance is checked, the account
//! is allocated, and only then is the tree engine asked to initialise the
//! tree. The sequencing is a state machine. Whoever holds the live accounts
//! performs each call that the machine asks for and reports how it ended;
//! the machine decides what comes next.

use crate::allocation::{allocation_call, build_allocation_call};
use crate::call::{CallModel, EncodedCall};
use crate::config::TreeConfig;
use crate::failure::{validate_balance, TreeInitializationFailure};
use crate::request::{build_tree_init_call, tree_init_call, CreateTree};
use anchor_lang::solana_program::program_error::ProgramError;
use vstd::prelude::*;

verus! {

/// How far the creation of a tree has come.
#[derive(Debug, PartialEq, Eq)]
pub enum DispatchState {
    /// Nothing has been checked yet.
    Start,
    /// The balance suffices; the allocation call is under way.
    Validated,
    /// The account is allocated; the call to the tree engine is under way.
    Allocated,
    /// The tree engine has initialised the tree. The operation succeeded.
    TreeInitialized,
    /// The operation failed, for the reason given.
    Failed(TreeInitializationFailure),
}

/// What happened since the machine last decided.
#[derive(Debug, PartialEq, Eq)]
pub enum DispatchEvent {
    /// A tree was requested by a party whose spendable balance is `balance`.
    Requested { balance: u64 },
    /// The call that the machine asked for succeeded.
    CallSucceeded,
    /// The call that the machine asked for failed with the error given.
    CallFailed(ProgramError),
}

/// What the machine asks for next.
#[derive(Debug, PartialEq, Eq)]
pub enum DispatchAction {
    /// Send this call to the ledger's allocation service.
    Allocate(EncodedCall),
    /// Send this call to the tree engine.
    InitializeTree(EncodedCall),
    /// Send nothing.
    Halt,
}

/// A [`DispatchAction`], with the call it holds as mathematical sequences.
pub ghost enum ActionModel {
    Allocate(CallModel),
    InitializeTree(CallModel),
    Halt,
}

impl View for DispatchAction {
    type V = ActionModel;

    open spec fn view(&self) -> ActionModel {
        match self {
            DispatchAction::Allocate(call) => ActionModel::Allocate(call@),
            DispatchAction::InitializeTree(call) => ActionModel::InitializeTree(call@),
            DispatchAction::Halt => ActionModel::Halt,
        }
    }
}

/// The state that follows `state` when `event` arrives. An event that the
/// state does not wait for leaves the state as it is.
pub open spec fn next_state(
    config: TreeConfig,
    state: DispatchState,
    event: DispatchEvent,
) -> DispatchState {
    match (state, event) {
        (DispatchState::Start, DispatchEvent::Requested { balance }) => {
            if balance >= config.minimum_lamports {
                DispatchState::Validated
            } else {
                DispatchState::Failed(TreeInitializationFailure::InsufficientFunds)
            }
        },
        (DispatchState::Validated, DispatchEvent::CallSucceeded) => DispatchState::Allocated,
        (DispatchState::Validated, DispatchEvent::CallFailed(error)) => DispatchState::Failed(
            TreeInitializationFailure::AllocationFailed(error),
        ),
        (DispatchState::Allocated, DispatchEvent::CallSucceeded) => DispatchState::TreeInitialized,
        (DispatchState::Allocated, DispatchEvent::CallFailed(error)) => DispatchState::Failed(
            TreeInitializationFailure::DelegatedCallFailed(error),
        ),
        (state, _) => state,
    }
}

/// The call that the machine asks for when `event` arrives in `state`: the
/// allocation on entering `Validated`, the tree initialisation on entering
/// `Allocated`, and nothing otherwise.
pub open spec fn next_action(
    request: CreateTree,
    config: TreeConfig,
    state: DispatchState,
    event: DispatchEvent,
) -> ActionModel {
    match (state, next_state(config, state, event)) {
        (DispatchState::Start, DispatchState::Validated) => ActionModel::Allocate(
            allocation_call(request, config),
        ),
        (DispatchState::Validated, DispatchState::Allocated) => ActionModel::InitializeTree(
            tree_init_call(request, config),
        ),
        _ => ActionModel::Halt,
    }
}

/// The result of the operation, once it has one.
pub open spec fn outcome_of(state: DispatchState) -> Option<Result<(), TreeInitializationFailure>> {
    match state {
        DispatchState::TreeInitialized => Some(Ok(())),
        DispatchState::Failed(failure) => Some(Err(failure)),
        _ => None,
    }
}

/// The state reached from `state` when `events` arrive one after another.
pub open spec fn state_after(
    config: TreeConfig,
    state: DispatchState,
    events: Seq<DispatchEvent>,
) -> DispatchState
    decreases events.len(),
{
    if events.len() == 0 {
        state
    } else {
        state_after(config, next_state(config, state, events[0]), events.skip(1))
    }
}

/// What the machine asks for, event by event, when `events` arrive one after
/// another in `state`.
pub open spec fn actions_during(
    request: CreateTree,
    config: TreeConfig,
    state: DispatchState,
    events: Seq<DispatchEvent>,
) -> Seq<ActionModel>
    decreases events.len(),
{
    if events.len() == 0 {
        Seq::empty()
    } else {
        seq![next_action(request, config, state, events[0])] + actions_during(
            request,
            config,
            next_state(config, state, events[0]),
            events.skip(1),
        )
    }
}

impl DispatchState {
    /// The result of the operation: `None` while it is under way, the
    /// failure that ended it, unchanged, or success.
    pub fn outcome(self) -> (outcome: Option<Result<(), TreeInitializationFailure>>)
        ensures
            outcome == outcome_of(self),
    {
        match self {
            DispatchState::TreeInitialized => Some(Ok(())),
            DispatchState::Failed(failure) => Some(Err(failure)),
            _ => None,
        }
    }
}

/// Advances the creation of a tree by one event: gives the state that
/// follows and the call to perform next. Nothing is sent from here.
///
/// On `Requested` the balance is checked against the configured minimum;
/// the allocation is asked for only if it suffices. The tree engine is asked
/// only once the allocation has succeeded. The failure of either call ends
/// the operation with the error of that call, unchanged.
pub fn create_tree(
    request: &CreateTree,
    config: &TreeConfig,
    state: DispatchState,
    event: DispatchEvent,
) -> (next: (DispatchState, DispatchAction))
    ensures
        next.0 == next_state(*config, state, event),
        next.1@ == next_action(*request, *config, state, event),
{
    match state {
        DispatchState::Start => match event {
            DispatchEvent::Requested { balance } => match validate_balance(
                balance,
                config.minimum_lamports,
            ) {
                Ok(()) => (
                    DispatchState::Validated,
                    DispatchAction::Allocate(build_allocation_call(request, config)),
                ),
                Err(failure) => (DispatchState::Failed(failure), DispatchAction::Halt),
            },
            _ => (DispatchState::Start, DispatchAction::Halt),
        },
        DispatchState::Validated => match event {
            DispatchEvent::CallSucceeded => (
                DispatchState::Allocated,
                DispatchAction::InitializeTree(build_tree_init_call(request, config)),
            ),
            DispatchEvent::CallFailed(error) => (
                DispatchState::Failed(TreeInitializationFailure::AllocationFailed(error)),
                DispatchAction::Halt,
            ),
            _ => (DispatchState::Validated, DispatchAction::Halt),
        },
        DispatchState::Allocated => match event {
            DispatchEvent::CallSucceeded => (DispatchState::TreeInitialized, DispatchAction::Halt),
            DispatchEvent::CallFailed(error) => (
                DispatchState::Failed(TreeInitializationFailure::DelegatedCallFailed(error)),
                DispatchAction::Halt,
            ),
            _ => (DispatchState::Allocated, DispatchAction::Halt),
        },
        DispatchState::TreeInitialized => (DispatchState::TreeInitialized, DispatchAction::Halt),
        DispatchState::Failed(failure) => (DispatchState::Failed(failure), DispatchAction::Halt),
    }
}

/// Whether the operation has ended in `state`.
pub open spec fn is_terminal(state: DispatchState) -> bool {
    state is TreeInitialized || state is Failed
}

/// Whether `state` lies behind a successful allocation, or is a failure that
/// the allocation did not cause.
pub open spec fn past_allocation(state: DispatchState) -> bool {
    match state {
        DispatchState::Start | DispatchState::Validated => false,
        DispatchState::Failed(TreeInitializationFailure::AllocationFailed(_)) => false,
        _ => true,
    }
}

/// Once the operation has ended, no event changes its state and nothing
/// more is asked for.
pub proof fn lemma_terminal_state_is_final(
    request: CreateTree,
    config: TreeConfig,
    state: DispatchState,
    events: Seq<DispatchEvent>,
)
    requires
        is_terminal(state),
    ensures
        state_after(config, state, events) == state,
        actions_during(request, config, state, events).len() == events.len(),
        forall|i: int|
            0 <= i < events.len() ==> actions_during(request, config, state, events)[i]
                is Halt,
    decreases events.len(),
{
    if events.len() > 0 {
        lemma_terminal_state_is_final(request, config, state, events.skip(1));
    }
}

/// A requesting party whose balance is below the minimum is turned away
/// with `InsufficientFunds`, and no call is ever asked for, whatever is
/// reported afterwards.
pub proof fn lemma_insufficient_balance_issues_no_call(
    request: CreateTree,
    config: TreeConfig,
    balance: u64,
    later: Seq<DispatchEvent>,
)
    requires
        balance < config.minimum_lamports,
    ensures
        ({
            let events = seq![DispatchEvent::Requested { balance }] + later;
            let actions = actions_during(request, config, DispatchState::Start, events);
            &&& state_after(config, DispatchState::Start, events) == DispatchState::Failed(
                TreeInitializationFailure::InsufficientFunds,
            )
            &&& actions.len() == events.len()
            &&& forall|i: int| 0 <= i < actions.len() ==> actions[i] is Halt
        }),
{
    let events = seq![DispatchEvent::Requested { balance }] + later;
    let failed = DispatchState::Failed(TreeInitializationFailure::InsufficientFunds);
    assert(events.skip(1) =~= later);
    lemma_terminal_state_is_final(request, config, failed, later);
}

/// A requesting party whose balance reaches the minimum is let through, and
/// the first call asked for is the allocation.
pub proof fn lemma_sufficient_balance_asks_for_allocation(
    request: CreateTree,
    config: TreeConfig,
    balance: u64,
)
    requires
        balance >= config.minimum_lamports,
    ensures
        next_state(config, DispatchState::Start, DispatchEvent::Requested { balance })
            == DispatchState::Validated,
        next_action(request, config, DispatchState::Start, DispatchEvent::Requested { balance })
            == ActionModel::Allocate(allocation_call(request, config)),
{
}

/// From a state that lies behind a successful allocation, no run comes to a
/// failed allocation, and the tree engine is not asked again.
pub proof fn lemma_past_allocation_is_kept(
    request: CreateTree,
    config: TreeConfig,
    state: DispatchState,
    events: Seq<DispatchEvent>,
)
    requires
        past_allocation(state),
    ensures
        past_allocation(state_after(config, state, events)),
        actions_during(request, config, state, events).len() == events.len(),
        forall|i: int|
            0 <= i < events.len() ==> actions_during(request, config, state, events)[i]
                is Halt,
    decreases events.len(),
{
    if events.len() > 0 {
        lemma_past_allocation_is_kept(
            request,
            config,
            next_state(config, state, events[0]),
            events.skip(1),
        );
    }
}

/// If the allocation fails, the tree engine is never asked to initialise the
/// tree: in a run that ends in `AllocationFailed`, no action is
/// `InitializeTree`.
pub proof fn lemma_allocation_failure_prevents_tree_init(
    request: CreateTree,
    config: TreeConfig,
    state: DispatchState,
    events: Seq<DispatchEvent>,
)
    requires
        state_after(config, state, events) matches DispatchState::Failed(
            TreeInitializationFailure::AllocationFailed(_),
        ),
    ensures
        actions_during(request, config, state, events).len() == events.len(),
        forall|i: int|
            0 <= i < events.len() ==> !(actions_during(request, config, state, events)[i]
                is InitializeTree),
    decreases events.len(),
{
    if events.len() > 0 {
        let next = next_state(config, state, events[0]);
        if past_allocation(next) {
            lemma_past_allocation_is_kept(request, config, next, events.skip(1));
        } else {
            lemma_allocation_failure_prevents_tree_init(request, config, next, events.skip(1));
        }
    }
}

/// If the allocation succeeds and the call to the tree engine fails, the
/// operation ends with the error of that call, unchanged, and stays so: its
/// result is that failure and never a success.
pub proof fn lemma_tree_init_failure_is_reported(
    config: TreeConfig,
    balance: u64,
    error: ProgramError,
    later: Seq<DispatchEvent>,
)
    requires
        balance >= config.minimum_lamports,
    ensures
        ({
            let events = seq![
                DispatchEvent::Requested { balance },
                DispatchEvent::CallSucceeded,
                DispatchEvent::CallFailed(error),
            ] + later;
            let failure = TreeInitializationFailure::DelegatedCallFailed(error);
            &&& state_after(config, DispatchState::Start, events) == DispatchState::Failed(failure)
            &&& outcome_of(state_after(config, DispatchState::Start, events)) == Some(
                Err::<(), _>(failure),
            )
        }),
{
    let events = seq![
        DispatchEvent::Requested { balance },
        DispatchEvent::CallSucceeded,
        DispatchEvent::CallFailed(error),
    ] + later;
    let failed = DispatchState::Failed(TreeInitializationFailure::DelegatedCallFailed(error));
    let request = arbitrary::<CreateTree>();
    lemma_terminal_state_is_final(request, config, failed, later);
    assert(events.skip(1).skip(1).skip(1) =~= later);
    reveal_with_fuel(state_after, 4);
}

/// When the balance suffices and both calls succeed, the operation ends in
/// success, having asked for the allocation first and for the tree
/// initialisation second, and for nothing else.
pub proof fn lemma_calls_are_sequenced(request: CreateTree, config: TreeConfig, balance: u64)
    requires
        balance >= config.minimum_lamports,
    ensures
        ({
            let events = seq![
                DispatchEvent::Requested { balance },
                DispatchEvent::CallSucceeded,
                DispatchEvent::CallSucceeded,
            ];
            &&& state_after(config, DispatchState::Start, events) == DispatchState::TreeInitialized
            &&& actions_during(request, config, DispatchState::Start, events) == seq![
                ActionModel::Allocate(allocation_call(request, config)),
                ActionModel::InitializeTree(tree_init_call(request, config)),
                ActionModel::Halt,
            ]
        }),
{
    let events = seq![
        DispatchEvent::Requested { balance },
        DispatchEvent::CallSucceeded,
        DispatchEvent::CallSucceeded,
    ];
    reveal_with_fuel(state_after, 4);
    reveal_with_fuel(actions_during, 4);
    assert(actions_during(request, config, DispatchState::Start, events) =~= seq![
        ActionModel::Allocate(allocation_call(request, config)),
        ActionModel::InitializeTree(tree_init_call(request, config)),
        ActionModel::Halt,
    ]);
}

} // verus!
