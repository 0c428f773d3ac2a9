//! When a store that was opened through the C interface may be used and closed.
//!
//! A store is open, closing or closed. Calls are counted while they run. The first
//! close waits until no call runs and destroys the store; every other close waits for
//! that one and gives its result back.

use std::collections::HashMap;

use vstd::prelude::*;

use crate::abi::{error_code, AbiError, AbiErrorView, ES_OK};

verus! {

broadcast use vstd::std_specs::hash::group_hash_axioms;

/// How far a store is.
#[derive(Clone, Copy, Debug, Eq, PartialEq)]
pub enum StoreState {
    Open { active_calls: usize },
    Closing { active_calls: usize },
    /// Closed, with how it ended.
    Closed(Result<(), AbiError>),
}

/// What a close has to do.
#[derive(Clone, Copy, Debug, Eq, PartialEq, Structural)]
pub enum CloseRole {
    /// Wait until no call runs, then destroy the store.
    Destroy,
    /// Wait until the store is closed.
    Join,
}

/// What is to be done after a call ended.
#[derive(Clone, Copy, Debug, Eq, PartialEq, Structural)]
pub struct Released {
    /// Whether those who wait for the store are to look at it again.
    pub wakes: bool,
    /// Whether the store is not to be used any more: its calls were miscounted.
    pub poisons: bool,
}

/// The state once a close was asked for, and what that close has to do.
pub open spec fn close_begun(state: StoreState) -> (StoreState, CloseRole) {
    match state {
        StoreState::Open { active_calls } => (
            StoreState::Closing { active_calls },
            CloseRole::Destroy,
        ),
        _ => (state, CloseRole::Join),
    }
}

/// The state once a call began, or why it may not.
pub open spec fn call_begun(state: StoreState, inhabited: bool) -> Result<StoreState, Seq<char>> {
    match state {
        StoreState::Open { active_calls } => if !inhabited {
            Err("store is closed"@)
        } else if active_calls == usize::MAX {
            Err("active call count overflow"@)
        } else {
            Ok(StoreState::Open { active_calls: (active_calls + 1) as usize })
        },
        _ => Err("store is closing"@),
    }
}

/// The state once a call ended, and what is to be done then.
pub open spec fn call_ended(state: StoreState) -> (StoreState, Released) {
    match state {
        StoreState::Open { active_calls } => if active_calls == 0 {
            (state, Released { wakes: true, poisons: true })
        } else {
            (
                StoreState::Open { active_calls: (active_calls - 1) as usize },
                Released { wakes: active_calls == 1, poisons: false },
            )
        },
        StoreState::Closing { active_calls } => if active_calls == 0 {
            (state, Released { wakes: true, poisons: true })
        } else {
            (
                StoreState::Closing { active_calls: (active_calls - 1) as usize },
                Released { wakes: active_calls == 1, poisons: false },
            )
        },
        StoreState::Closed(_) => (state, Released { wakes: true, poisons: true }),
    }
}

/// Whether the close that destroys the store has to wait.
pub open spec fn busy(state: StoreState) -> bool {
    state matches StoreState::Closing { active_calls } && active_calls != 0
}

/// How many calls run.
pub open spec fn calls_of(state: StoreState) -> nat {
    match state {
        StoreState::Open { active_calls } => active_calls as nat,
        StoreState::Closing { active_calls } => active_calls as nat,
        StoreState::Closed(_) => 0,
    }
}

impl StoreState {
    /// A store that was just opened.
    pub fn opened() -> (state: Self)
        ensures
            state == (StoreState::Open { active_calls: 0 }),
    {
        StoreState::Open { active_calls: 0 }
    }

    /// Asks for a close.
    pub fn begin_close(&mut self) -> (role: CloseRole)
        ensures
            (*final(self), role) == close_begun(*old(self)),
    {
        match *self {
            StoreState::Open { active_calls } => {
                *self = StoreState::Closing { active_calls };
                CloseRole::Destroy
            },
            _ => CloseRole::Join,
        }
    }

    /// Begins a call. `inhabited` says whether the store is still there.
    pub fn acquire(&mut self, inhabited: bool) -> (result: Result<(), AbiError>)
        ensures
            match call_begun(*old(self), inhabited) {
                Ok(after) => result is Ok && *final(self) == after,
                Err(reason) => result matches Err(error) && error@ == AbiErrorView::State(reason)
                    && *final(self) == *old(self),
            },
    {
        match *self {
            StoreState::Open { active_calls } => {
                if !inhabited {
                    return Err(AbiError::State("store is closed"));
                }
                match active_calls.checked_add(1) {
                    Some(more) => {
                        *self = StoreState::Open { active_calls: more };
                        Ok(())
                    },
                    None => Err(AbiError::State("active call count overflow")),
                }
            },
            _ => Err(AbiError::State("store is closing")),
        }
    }

    /// Ends a call.
    pub fn release(&mut self) -> (released: Released)
        ensures
            (*final(self), released) == call_ended(*old(self)),
    {
        match *self {
            StoreState::Open { active_calls } => {
                if active_calls == 0 {
                    return Released { wakes: true, poisons: true };
                }
                *self = StoreState::Open { active_calls: active_calls - 1 };
                Released { wakes: active_calls == 1, poisons: false }
            },
            StoreState::Closing { active_calls } => {
                if active_calls == 0 {
                    return Released { wakes: true, poisons: true };
                }
                *self = StoreState::Closing { active_calls: active_calls - 1 };
                Released { wakes: active_calls == 1, poisons: false }
            },
            StoreState::Closed(_) => Released { wakes: true, poisons: true },
        }
    }

    /// Whether the close that destroys the store has to wait: calls still run.
    pub fn is_busy(&self) -> (busy: bool)
        ensures
            busy == self::busy(*self),
    {
        match self {
            StoreState::Closing { active_calls } => *active_calls != 0,
            _ => false,
        }
    }

    /// How the store was closed, once it is.
    pub fn closed(&self) -> (result: Option<Result<(), AbiError>>)
        ensures
            result == match *self {
                StoreState::Closed(result) => Some(result),
                _ => None,
            },
    {
        match self {
            StoreState::Closed(result) => Some(*result),
            _ => None,
        }
    }

    /// Ends the close that destroyed the store, which waited until no call ran.
    pub fn finish_close(&mut self, result: Result<(), AbiError>)
        requires
            *old(self) == (StoreState::Closing { active_calls: 0 }),
        ensures
            *final(self) == StoreState::Closed(result),
    {
        *self = StoreState::Closed(result);
    }
}

/// The stores that are open, by the address of the cell that owns them. A store is
/// known by its handle.
pub struct StoreRegistry {
    handles: HashMap<usize, usize>,
}

impl View for StoreRegistry {
    type V = Map<usize, usize>;

    closed spec fn view(&self) -> Map<usize, usize> {
        self.handles@
    }
}

/// The store to close: none where the owner has none any more, or why there is none that
/// may be closed. `held` is the handle in the owner's cell, none where it was cleared.
pub open spec fn store_to_close(
    stores: Map<usize, usize>,
    owner: usize,
    held: Option<usize>,
) -> Result<Option<usize>, Seq<char>> {
    if !stores.contains_key(owner) {
        Ok(None)
    } else if held is Some && held != Some(stores[owner]) {
        Err("store owner does not match its handle"@)
    } else {
        Ok(Some(stores[owner]))
    }
}

/// How a close call begins: the store to close, none where there is nothing to do, or why
/// it is refused; and what the owner's cell holds from then on. `owner` is none for a cell
/// that was not handed over.
pub open spec fn close_started(
    stores: Map<usize, usize>,
    owner: Option<usize>,
    held: Option<usize>,
) -> (Result<Option<usize>, Seq<char>>, Option<usize>) {
    match owner {
        None => (Ok(None), held),
        Some(owner) => match store_to_close(stores, owner, held) {
            Ok(store) => (Ok(store), None),
            Err(reason) => (Err(reason), held),
        },
    }
}

/// The code that a close call gives back.
pub open spec fn close_answer(result: Result<(), AbiError>) -> i32 {
    match result {
        Ok(()) => ES_OK,
        Err(error) => error_code(error@),
    }
}

/// The code that a close call gives back.
pub fn close_code(result: Result<(), AbiError>) -> (code: i32)
    ensures
        code == close_answer(result),
{
    match result {
        Ok(()) => ES_OK,
        Err(error) => error.code(),
    }
}

/// How a close call begins.
#[derive(Debug)]
pub struct CloseStart {
    /// The store to close; none where there is nothing to do.
    pub store: Result<Option<usize>, AbiError>,
    /// What the owner's cell holds from then on.
    pub held: Option<usize>,
}

/// The store to call, or why there is none. `owner` is none for a cell that was not handed
/// over, `held` the handle in it, none where the cell was cleared.
pub open spec fn store_to_acquire(
    stores: Map<usize, usize>,
    owner: Option<usize>,
    held: Option<usize>,
) -> Result<usize, Seq<char>> {
    match owner {
        None => Err("store owner is null"@),
        Some(owner) => if stores.contains_key(owner) && held == Some(stores[owner]) {
            Ok(stores[owner])
        } else {
            Err("store is closed"@)
        },
    }
}

/// The stores once one was registered under its owner, or why it was not: an owner has one
/// store.
pub open spec fn store_published(stores: Map<usize, usize>, owner: usize, handle: usize) -> (
    Map<usize, usize>,
    Result<(), Seq<char>>,
) {
    if stores.contains_key(owner) {
        (stores, Err("store owner is already open"@))
    } else {
        (stores.insert(owner, handle), Ok(()))
    }
}

/// The stores once one was forgotten, unless its owner has another one by now.
pub open spec fn store_retired(stores: Map<usize, usize>, owner: usize, handle: usize) -> Map<
    usize,
    usize,
> {
    if stores.contains_key(owner) && stores[owner] == handle {
        stores.remove(owner)
    } else {
        stores
    }
}

impl StoreRegistry {
    pub fn new() -> (registry: Self)
        ensures
            registry@ == Map::<usize, usize>::empty(),
    {
        Self { handles: HashMap::new() }
    }

    /// Registers a store under its owner; an owner has one store.
    pub fn publish(&mut self, owner: usize, handle: usize) -> (result: Result<(), AbiError>)
        ensures
            final(self)@ == store_published(old(self)@, owner, handle).0,
            match store_published(old(self)@, owner, handle).1 {
                Ok(()) => result is Ok,
                Err(reason) => result matches Err(error) && error@ == AbiErrorView::State(reason),
            },
    {
        if self.handles.contains_key(&owner) {
            return Err(AbiError::State("store owner is already open"));
        }
        self.handles.insert(owner, handle);
        Ok(())
    }

    /// The store to close.
    pub fn to_close(&self, owner: usize, held: Option<usize>) -> (result: Result<
        Option<usize>,
        AbiError,
    >)
        ensures
            match store_to_close(self@, owner, held) {
                Ok(store) => result == Ok::<_, AbiError>(store),
                Err(reason) => result matches Err(error) && error@ == AbiErrorView::State(reason),
            },
    {
        let Some(handle) = self.handles.get(&owner) else {
            return Ok(None);
        };
        match held {
            Some(held) => if held != *handle {
                Err(AbiError::State("store owner does not match its handle"))
            } else {
                Ok(Some(*handle))
            },
            None => Ok(Some(*handle)),
        }
    }

    /// Begins a close call.
    pub fn start_close(&self, owner: Option<usize>, held: Option<usize>) -> (start: CloseStart)
        ensures
            start.held == close_started(self@, owner, held).1,
            match close_started(self@, owner, held).0 {
                Ok(store) => start.store == Ok::<_, AbiError>(store),
                Err(reason) => start.store matches Err(error) && error@ == AbiErrorView::State(
                    reason,
                ),
            },
    {
        let Some(owner) = owner else {
            return CloseStart { store: Ok(None), held };
        };
        match self.to_close(owner, held) {
            Ok(store) => CloseStart { store: Ok(store), held: None },
            Err(error) => CloseStart { store: Err(error), held },
        }
    }

    /// The store to call.
    pub fn to_acquire(&self, owner: Option<usize>, held: Option<usize>) -> (result: Result<
        usize,
        AbiError,
    >)
        ensures
            match store_to_acquire(self@, owner, held) {
                Ok(store) => result == Ok::<_, AbiError>(store),
                Err(reason) => result matches Err(error) && error@ == AbiErrorView::State(reason),
            },
    {
        let Some(owner) = owner else {
            return Err(AbiError::State("store owner is null"));
        };
        let Some(handle) = self.handles.get(&owner) else {
            return Err(AbiError::State("store is closed"));
        };
        match held {
            Some(held) => if held == *handle {
                Ok(held)
            } else {
                Err(AbiError::State("store is closed"))
            },
            None => Err(AbiError::State("store is closed")),
        }
    }

    /// Forgets the store, unless the owner has another one by now.
    pub fn retire(&mut self, owner: usize, handle: usize) -> (retired: bool)
        ensures
            retired <==> old(self)@.contains_key(owner) && old(self)@[owner] == handle,
            final(self)@ == store_retired(old(self)@, owner, handle),
    {
        let known = match self.handles.get(&owner) {
            Some(found) => *found == handle,
            None => false,
        };
        if known {
            self.handles.remove(&owner);
        }
        known
    }
}

/// How a call went.
#[derive(Debug)]
pub enum CallOutcome {
    Returned(Result<(), AbiError>),
    Panicked,
}

/// Whether a call may run: not on a store that a panic left behind.
pub fn may_call(poisoned: bool) -> (result: Result<(), AbiError>)
    ensures
        if poisoned {
            result matches Err(error) && error@ == AbiErrorView::State("store is poisoned"@)
        } else {
            result is Ok
        },
{
    if poisoned {
        Err(AbiError::State("store is poisoned"))
    } else {
        Ok(())
    }
}

/// What a call gives back, and whether it poisons its store.
pub fn after_call(outcome: CallOutcome) -> (ended: (Result<(), AbiError>, bool))
    ensures
        ended == match outcome {
            CallOutcome::Returned(result) => (result, false),
            CallOutcome::Panicked => (Err(AbiError::Panic), true),
        },
{
    match outcome {
        CallOutcome::Returned(result) => (result, false),
        CallOutcome::Panicked => (Err(AbiError::Panic), true),
    }
}

/// One operation on the state of a store.
pub enum StoreOperation {
    Close,
    Begin { inhabited: bool },
    End,
    Finish(Result<(), AbiError>),
}

/// The state after an operation; a call that may not begin changes nothing.
pub open spec fn operated(state: StoreState, operation: StoreOperation) -> StoreState {
    match operation {
        StoreOperation::Close => close_begun(state).0,
        StoreOperation::Begin { inhabited } => match call_begun(state, inhabited) {
            Ok(after) => after,
            Err(_) => state,
        },
        StoreOperation::End => call_ended(state).0,
        StoreOperation::Finish(result) => StoreState::Closed(result),
    }
}

/// The state after operations, one after the other.
pub open spec fn operated_all(state: StoreState, operations: Seq<StoreOperation>) -> StoreState
    decreases operations.len(),
{
    if operations.len() == 0 {
        state
    } else {
        operated(operated_all(state, operations.drop_last()), operations.last())
    }
}

/// A store is destroyed once: whatever happens after the first close was asked for, no
/// other close is told to destroy it, and no call begins on it any more.
pub proof fn law_one_close_destroys(
    state: StoreState,
    operations: Seq<StoreOperation>,
    inhabited: bool,
)
    ensures
        ({
            let after = operated_all(close_begun(state).0, operations);
            &&& close_begun(after).1 is Join
            &&& call_begun(after, inhabited) is Err
        }),
    decreases operations.len(),
{
    if operations.len() > 0 {
        law_one_close_destroys(state, operations.drop_last(), inhabited);
    }
}

/// A close that was asked for only ever sees the calls end: they never get more.
pub proof fn law_closing_stores_drain(state: StoreState, operation: StoreOperation)
    requires
        !(state is Open),
    ensures
        calls_of(operated(state, operation)) <= calls_of(state),
        !(operated(state, operation) is Open),
{
}

/// A call that began and ended leaves the store as it was, and no store is poisoned by
/// a call that began.
pub proof fn law_calls_are_counted_back(state: StoreState, inhabited: bool)
    requires
        call_begun(state, inhabited) is Ok,
    ensures
        call_ended(call_begun(state, inhabited)->Ok_0).0 == state,
        !call_ended(call_begun(state, inhabited)->Ok_0).1.poisons,
        !call_ended(close_begun(call_begun(state, inhabited)->Ok_0).0).1.poisons,
{
}

/// Whether the operation may follow on the state: a call ends only while one runs, and
/// the store is destroyed only once a close was asked for and no call runs.
pub open spec fn may_follow(state: StoreState, operation: StoreOperation) -> bool {
    match operation {
        StoreOperation::Close => true,
        StoreOperation::Begin { .. } => true,
        StoreOperation::End => calls_of(state) > 0,
        StoreOperation::Finish(_) => state == (StoreState::Closing { active_calls: 0 }),
    }
}

/// Whether each operation may follow on those before it.
pub open spec fn may_follow_all(state: StoreState, operations: Seq<StoreOperation>) -> bool
    decreases operations.len(),
{
    operations.len() > 0 ==> {
        &&& may_follow_all(state, operations.drop_last())
        &&& may_follow(operated_all(state, operations.drop_last()), operations.last())
    }
}

/// How many calls began among the operations, less those that ended.
pub open spec fn calls_begun(state: StoreState, operations: Seq<StoreOperation>) -> int
    decreases operations.len(),
{
    if operations.len() == 0 {
        0
    } else {
        let before = operations.drop_last();
        calls_begun(state, before) + match operations.last() {
            StoreOperation::Begin { inhabited } => if call_begun(
                operated_all(state, before),
                inhabited,
            ) is Ok {
                1int
            } else {
                0
            },
            StoreOperation::End => -1,
            _ => 0,
        }
    }
}

/// The count of a store is that of the calls that began and did not end. So the store is
/// destroyed only once every call on it ended, and none runs on a store that is closed.
pub proof fn law_stores_are_destroyed_idle(
    operations: Seq<StoreOperation>,
    result: Result<(), AbiError>,
)
    requires
        may_follow_all(StoreState::Open { active_calls: 0 }, operations),
    ensures
        ({
            let opened = StoreState::Open { active_calls: 0 };
            let after = operated_all(opened, operations);
            &&& calls_begun(opened, operations) == calls_of(after)
            &&& may_follow(after, StoreOperation::Finish(result)) ==> calls_begun(
                opened,
                operations,
            ) == 0
            &&& after is Closed ==> calls_begun(opened, operations) == 0
        }),
    decreases operations.len(),
{
    if operations.len() > 0 {
        law_stores_are_destroyed_idle(operations.drop_last(), result);
    }
}

/// The close that destroys a store may end as soon as it sees that the store is not busy,
/// whatever the calls and the other closes did meanwhile.
pub proof fn law_idle_closes_may_end(
    state: StoreState,
    operations: Seq<StoreOperation>,
    result: Result<(), AbiError>,
)
    requires
        close_begun(state).1 is Destroy,
        forall|i: int| 0 <= i < operations.len() ==> !(#[trigger] operations[i] is Finish),
    ensures
        ({
            let after = operated_all(close_begun(state).0, operations);
            &&& after is Closing
            &&& !busy(after) ==> may_follow(after, StoreOperation::Finish(result))
        }),
    decreases operations.len(),
{
    if operations.len() > 0 {
        law_idle_closes_may_end(state, operations.drop_last(), result);
    }
}

/// A store that was destroyed stays closed with the result of that one close, which every
/// other close gives back, and is not destroyed again.
pub proof fn law_closes_share_one_result(
    result: Result<(), AbiError>,
    operations: Seq<StoreOperation>,
)
    requires
        may_follow_all(StoreState::Closed(result), operations),
    ensures
        operated_all(StoreState::Closed(result), operations) == StoreState::Closed(result),
        close_begun(operated_all(StoreState::Closed(result), operations)) == (
            StoreState::Closed(result),
            CloseRole::Join,
        ),
        forall|i: int| 0 <= i < operations.len() ==> !(#[trigger] operations[i] is Finish),
    decreases operations.len(),
{
    if operations.len() > 0 {
        let before = operations.drop_last();
        law_closes_share_one_result(result, before);
        assert forall|i: int| 0 <= i < operations.len() implies !(
        #[trigger] operations[i] is Finish) by {
            if i < before.len() {
                assert(before[i] == operations[i]);
            }
        }
    }
}

/// Every close by an owner finds its store until that is forgotten, whether the cell still
/// holds the handle or an earlier close cleared it; from then on there is nothing to close,
/// however often the store is forgotten. On a cell that was cleared no call begins.
pub proof fn law_owners_may_close_again(
    stores: Map<usize, usize>,
    owner: usize,
    held: Option<usize>,
)
    requires
        stores.contains_key(owner),
        held is None || held == Some(stores[owner]),
    ensures
        store_to_close(stores, owner, held) == Ok::<_, Seq<char>>(Some(stores[owner])),
        store_to_close(store_retired(stores, owner, stores[owner]), owner, held) == Ok::<
            _,
            Seq<char>,
        >(None::<usize>),
        store_retired(store_retired(stores, owner, stores[owner]), owner, stores[owner])
            == store_retired(stores, owner, stores[owner]),
        store_to_acquire(stores, Some(owner), None) is Err,
        store_to_acquire(store_retired(stores, owner, stores[owner]), Some(owner), held) is Err,
{
}

/// An owner's cell with what it holds, its store, and the stores that are open.
pub struct OwnedStore {
    pub stores: Map<usize, usize>,
    pub held: Option<usize>,
    pub state: StoreState,
}

/// One step in the life of an owner's store.
pub enum OwnerStep {
    /// A close call begins.
    Close,
    /// A call begins or ends, or the close that destroys the store ends.
    Operate(StoreOperation),
    /// A close call forgets the store.
    Retire,
}

/// The store that was just opened for its owner.
pub open spec fn owner_opened(stores: Map<usize, usize>, owner: usize) -> OwnedStore {
    OwnedStore {
        stores,
        held: Some(stores[owner]),
        state: StoreState::Open { active_calls: 0 },
    }
}

/// The owner's store after a step. `handle` is the handle that it was opened with.
pub open spec fn owner_stepped(
    owned: OwnedStore,
    owner: usize,
    handle: usize,
    step: OwnerStep,
) -> OwnedStore {
    match step {
        OwnerStep::Close => {
            let start = close_started(owned.stores, Some(owner), owned.held);
            OwnedStore {
                held: start.1,
                state: if start.0 == Ok::<_, Seq<char>>(Some(handle)) {
                    close_begun(owned.state).0
                } else {
                    owned.state
                },
                ..owned
            }
        },
        OwnerStep::Operate(operation) => OwnedStore {
            state: operated(owned.state, operation),
            ..owned
        },
        OwnerStep::Retire => OwnedStore {
            stores: store_retired(owned.stores, owner, handle),
            ..owned
        },
    }
}

/// Whether the step may follow: calls and the destroying close as they may, with `result`
/// as how destroying ends, and a store is forgotten only once it is closed.
pub open spec fn owner_may_step(
    owned: OwnedStore,
    result: Result<(), AbiError>,
    step: OwnerStep,
) -> bool {
    match step {
        OwnerStep::Close => true,
        OwnerStep::Operate(operation) => {
            &&& !(operation is Close)
            &&& may_follow(owned.state, operation)
            &&& operation matches StoreOperation::Finish(ended) ==> ended == result
        },
        OwnerStep::Retire => owned.state is Closed,
    }
}

/// The owner's store after steps, one after the other.
pub open spec fn owner_stepped_all(
    stores: Map<usize, usize>,
    owner: usize,
    steps: Seq<OwnerStep>,
) -> OwnedStore
    decreases steps.len(),
{
    if steps.len() == 0 {
        owner_opened(stores, owner)
    } else {
        owner_stepped(
            owner_stepped_all(stores, owner, steps.drop_last()),
            owner,
            stores[owner],
            steps.last(),
        )
    }
}

/// Whether each step may follow on those before it.
pub open spec fn owner_may_step_all(
    stores: Map<usize, usize>,
    owner: usize,
    result: Result<(), AbiError>,
    steps: Seq<OwnerStep>,
) -> bool
    decreases steps.len(),
{
    steps.len() > 0 ==> {
        &&& owner_may_step_all(stores, owner, result, steps.drop_last())
        &&& owner_may_step(
            owner_stepped_all(stores, owner, steps.drop_last()),
            result,
            steps.last(),
        )
    }
}

/// How many of the steps are the close that destroys the store.
pub open spec fn times_destroyed(steps: Seq<OwnerStep>) -> nat
    decreases steps.len(),
{
    if steps.len() == 0 {
        0
    } else {
        times_destroyed(steps.drop_last()) + if steps.last() matches OwnerStep::Operate(
            StoreOperation::Finish(_),
        ) {
            1nat
        } else {
            0
        }
    }
}

/// However often an owner closes its store, at once or later, and whatever its calls do
/// meanwhile: no close is refused, and each leaves the cell cleared. The first one destroys
/// the store; the others join it and give the same result, or find nothing to do once the
/// store is destroyed and forgotten. The store is destroyed at most once, after a close was
/// asked for, with no call running. A cell that was not handed over is closed already.
pub proof fn law_repeated_closes_give_one_answer(
    stores: Map<usize, usize>,
    owner: usize,
    result: Result<(), AbiError>,
    steps: Seq<OwnerStep>,
)
    requires
        stores.contains_key(owner),
        owner_may_step_all(stores, owner, result, steps),
    ensures
        ({
            let handle = stores[owner];
            let owned = owner_stepped_all(stores, owner, steps);
            let start = close_started(owned.stores, Some(owner), owned.held);
            let next = owner_stepped(owned, owner, handle, OwnerStep::Close);
            &&& start.0 == Ok::<_, Seq<char>>(Some(handle)) || (start.0 == Ok::<_, Seq<char>>(
                None::<usize>,
            ) && owned.state == StoreState::Closed(result))
            &&& next.held is None
            &&& !(next.state is Open)
            &&& close_begun(owned.state).1 is Destroy <==> owned.held is Some
            &&& owned.state matches StoreState::Closed(ended) ==> ended == result
            &&& result is Ok ==> close_answer(result) == ES_OK
            &&& times_destroyed(steps) == if owned.state is Closed {
                1nat
            } else {
                0
            }
            &&& owner_may_step(
                owned,
                result,
                OwnerStep::Operate(StoreOperation::Finish(result)),
            ) ==> owned.held is None && calls_of(owned.state) == 0
            &&& close_started(owned.stores, None, owned.held).0 == Ok::<_, Seq<char>>(None::<usize>)
        }),
{
    lemma_owned_stores_are_consistent(stores, owner, result, steps);
}

/// What every step keeps: the owner has its own store or none any more, the cell holds the
/// handle exactly as long as no close was asked for, and a store that is forgotten is closed.
proof fn lemma_owned_stores_are_consistent(
    stores: Map<usize, usize>,
    owner: usize,
    result: Result<(), AbiError>,
    steps: Seq<OwnerStep>,
)
    requires
        stores.contains_key(owner),
        owner_may_step_all(stores, owner, result, steps),
    ensures
        ({
            let handle = stores[owner];
            let owned = owner_stepped_all(stores, owner, steps);
            &&& owned.stores.contains_key(owner) ==> owned.stores[owner] == handle
            &&& owned.held is None || owned.held == Some(handle)
            &&& owned.state is Open <==> owned.held is Some
            &&& owned.state matches StoreState::Closed(ended) ==> ended == result
            &&& !owned.stores.contains_key(owner) ==> owned.state is Closed
            &&& times_destroyed(steps) == if owned.state is Closed {
                1nat
            } else {
                0
            }
        }),
    decreases steps.len(),
{
    if steps.len() > 0 {
        lemma_owned_stores_are_consistent(stores, owner, result, steps.drop_last());
    }
}

/// A call begins exactly on a store that is open and still there, and is counted; the
/// count of the others stays.
pub proof fn law_calls_begin_on_open_stores(state: StoreState, inhabited: bool)
    ensures
        match (state, call_begun(state, inhabited)) {
            (StoreState::Open { active_calls }, Ok(StoreState::Open { active_calls: counted })) => {
                inhabited && counted == active_calls + 1
            },
            (StoreState::Open { active_calls }, Err(_)) => !inhabited || active_calls
                == usize::MAX,
            (_, Err(_)) => true,
            _ => false,
        },
{
}

/// A call that ends is counted back, whether a close waits or not; whoever waits is woken
/// by the last one. A call that ends where none ran shows a miscount, which poisons the
/// store and wakes everybody.
pub proof fn law_calls_end_where_they_began(state: StoreState)
    ensures
        ({
            let (after, released) = call_ended(state);
            match (state, after) {
                (
                    StoreState::Open { active_calls },
                    StoreState::Open { active_calls: counted },
                ) => {
                    &&& active_calls > 0 ==> counted == active_calls - 1 && !released.poisons && (
                    released.wakes <==> counted == 0)
                    &&& active_calls == 0 ==> counted == 0 && released.poisons && released.wakes
                },
                (
                    StoreState::Closing { active_calls },
                    StoreState::Closing { active_calls: counted },
                ) => {
                    &&& active_calls > 0 ==> counted == active_calls - 1 && !released.poisons && (
                    released.wakes <==> counted == 0)
                    &&& active_calls == 0 ==> counted == 0 && released.poisons && released.wakes
                },
                (StoreState::Closed(result), StoreState::Closed(kept)) => kept == result
                    && released.poisons && released.wakes,
                _ => false,
            }
        }),
{
}

/// The first close of an open store is the one that destroys it, and keeps the count of the
/// calls that it has to wait for; a close of any other store joins, and changes nothing.
pub proof fn law_the_first_close_destroys(state: StoreState, waits: bool)
    requires
        call_ensures(StoreState::is_busy, (&close_begun(state).0,), waits),
    ensures
        match (state, close_begun(state)) {
            (
                StoreState::Open { active_calls },
                (StoreState::Closing { active_calls: counted }, role),
            ) => counted == active_calls && role is Destroy && (waits <==> active_calls > 0),
            (StoreState::Open { .. }, _) => false,
            (_, (after, role)) => after == state && role is Join,
        },
{
}

/// A store tells how it was closed once it is, and not before.
pub proof fn law_closed_stores_tell_how(state: StoreState, told: Option<Result<(), AbiError>>)
    requires
        call_ensures(StoreState::closed, (&state,), told),
    ensures
        match told {
            Some(result) => state == StoreState::Closed(result),
            None => state is Open || state is Closing,
        },
{
}

/// A store that was registered can be called and closed by its owner, through its handle,
/// until it is forgotten; nobody else gets at it, an owner has one store at a time, and
/// the stores of the others are left alone.
pub proof fn law_stores_belong_to_their_owner(
    stores: Map<usize, usize>,
    owner: usize,
    handle: usize,
    other: usize,
    wrong: usize,
)
    requires
        other != owner,
        wrong != handle,
    ensures
        ({
            let (published, result) = store_published(stores, owner, handle);
            &&& result is Ok <==> !stores.contains_key(owner)
            &&& result is Err ==> published == stores
            &&& result is Ok ==> {
                &&& store_to_acquire(published, Some(owner), Some(handle)) == Ok::<_, Seq<char>>(
                    handle,
                )
                &&& store_to_acquire(published, Some(owner), Some(wrong)) is Err
                &&& store_to_acquire(published, Some(owner), None) is Err
                &&& store_to_acquire(published, None, Some(handle)) is Err
                &&& store_to_close(published, owner, Some(handle)) == Ok::<_, Seq<char>>(
                    Some(handle),
                )
                &&& store_to_close(published, owner, Some(wrong)) is Err
                &&& store_published(published, owner, wrong).1 is Err
                &&& store_retired(published, owner, wrong) == published
                &&& store_retired(published, owner, handle) =~= stores
            }
            &&& published.contains_key(other) == stores.contains_key(other)
            &&& stores.contains_key(other) ==> published[other] == stores[other] && store_retired(
                stores,
                owner,
                handle,
            ).contains_key(other) && store_retired(stores, owner, handle)[other] == stores[other]
        }),
{
}

/// A close call begins with the store of its owner and clears the owner's cell; where it is
/// refused, or no cell was handed over, the cell keeps what it holds.
pub proof fn law_closes_clear_the_cell(
    registry: StoreRegistry,
    owner: Option<usize>,
    held: Option<usize>,
    start: CloseStart,
)
    requires
        call_ensures(StoreRegistry::start_close, (&registry, owner, held), start),
    ensures
        match start.store {
            Ok(Some(store)) => owner is Some && registry@.contains_key(owner->0) && store
                == registry@[owner->0] && start.held is None && (held is None || held == Some(
                store,
            )),
            Ok(None) => match owner {
                None => start.held == held,
                Some(owner) => !registry@.contains_key(owner) && start.held is None,
            },
            Err(_) => start.held == held && owner is Some && registry@.contains_key(owner->0)
                && held is Some && held->0 != registry@[owner->0],
        },
{
}

/// A panic is reported and poisons its store, on which no call runs any more; a call that
/// returned is reported as it returned and poisons nothing.
pub proof fn law_panics_poison_their_store(
    outcome: CallOutcome,
    ended: (Result<(), AbiError>, bool),
    next: Result<(), AbiError>,
)
    requires
        call_ensures(after_call, (outcome,), ended),
        call_ensures(may_call, (ended.1,), next),
    ensures
        match outcome {
            CallOutcome::Returned(result) => ended.0 == result && next is Ok,
            CallOutcome::Panicked => ended.0 == Err::<(), _>(AbiError::Panic) && next is Err,
        },
{
}

/// A close gives zero back exactly where it succeeded, and else the code of its error.
pub proof fn law_closes_answer_with_their_code(
    result: Result<(), AbiError>,
    code: i32,
    error_code: i32,
)
    requires
        call_ensures(close_code, (result,), code),
        result matches Err(error) ==> call_ensures(AbiError::code, (&error,), error_code),
    ensures
        result is Ok <==> code == 0,
        result is Err ==> code == error_code,
{
}

/// What becomes of a store: calls are counted while it is open and there, the first close
/// stops them and destroys it, and a close that ends leaves its result.
pub proof fn law_stores_count_their_calls(inhabited: bool, result: Result<(), AbiError>)
    ensures
        forall|state: &mut StoreState, begun: Result<(), AbiError>|
            #[trigger] call_ensures(StoreState::acquire, (state, inhabited), begun) ==> match (
                *state,
                begun,
            ) {
                (StoreState::Open { active_calls }, Ok(())) => inhabited && *final(state)
                    == (StoreState::Open { active_calls: (active_calls + 1) as usize }),
                (StoreState::Open { active_calls }, Err(error)) => error is State && *final(state)
                    == *state && (!inhabited || active_calls == usize::MAX),
                (_, Err(error)) => error is State && *final(state) == *state,
                _ => false,
            },
        forall|state: &mut StoreState, released: Released|
            #[trigger] call_ensures(StoreState::release, (state,), released) ==> {
                &&& calls_of(*state) > 0 ==> calls_of(*final(state)) == calls_of(*state) - 1
                    && !released.poisons && (released.wakes <==> calls_of(*state) == 1)
                &&& calls_of(*state) == 0 ==> *final(state) == *state && released.poisons
                    && released.wakes
                &&& *state is Open <==> *final(state) is Open
                &&& *state is Closing <==> *final(state) is Closing
            },
        forall|state: &mut StoreState, role: CloseRole|
            #[trigger] call_ensures(StoreState::begin_close, (state,), role) ==> match *state {
                StoreState::Open { active_calls } => role is Destroy && *final(state)
                    == (StoreState::Closing { active_calls }),
                _ => role is Join && *final(state) == *state,
            },
        forall|state: &mut StoreState|
            #[trigger] call_ensures(StoreState::finish_close, (state, result), ()) ==> *final(state)
                == StoreState::Closed(result),
{
}

/// What becomes of the stores that are open: an owner without a store gets the one that is
/// registered, a store is forgotten by its own handle alone, and nothing else changes.
pub proof fn law_registries_keep_one_store_for_each_owner(owner: usize, handle: usize)
    ensures
        forall|registry: &mut StoreRegistry, result: Result<(), AbiError>|
            #[trigger] call_ensures(
                StoreRegistry::publish,
                (registry, owner, handle),
                result,
            ) ==> {
                &&& result is Ok <==> !registry@.contains_key(owner)
                &&& result is Ok ==> final(registry)@ == registry@.insert(owner, handle)
                &&& result matches Err(error) ==> error is State && final(registry)@ == registry@
            },
        forall|registry: &mut StoreRegistry, retired: bool|
            #[trigger] call_ensures(StoreRegistry::retire, (registry, owner, handle), retired) ==> {
                &&& retired <==> registry@.contains_key(owner) && registry@[owner] == handle
                &&& retired ==> final(registry)@ == registry@.remove(owner)
                &&& !retired ==> final(registry)@ == registry@
            },
{
}

/// A store is called through the handle that its owner holds and that it was registered
/// under, and closed by its owner, whose cell may be cleared already.
pub proof fn law_stores_are_found_by_their_handle(
    registry: StoreRegistry,
    owner: usize,
    held: Option<usize>,
    called: Result<usize, AbiError>,
    nobody: Result<usize, AbiError>,
    closed: Result<Option<usize>, AbiError>,
)
    requires
        call_ensures(StoreRegistry::to_acquire, (&registry, Some(owner), held), called),
        call_ensures(StoreRegistry::to_acquire, (&registry, None, held), nobody),
        call_ensures(StoreRegistry::to_close, (&registry, owner, held), closed),
    ensures
        match called {
            Ok(store) => registry@.contains_key(owner) && registry@[owner] == store && held
                == Some(store),
            Err(error) => error is State && (!registry@.contains_key(owner) || held != Some(
                registry@[owner],
            )),
        },
        nobody is Err,
        match closed {
            Ok(None) => !registry@.contains_key(owner),
            Ok(Some(store)) => registry@.contains_key(owner) && registry@[owner] == store && (
            held is None || held == Some(store)),
            Err(error) => error is State && registry@.contains_key(owner) && held is Some && held
                != Some(registry@[owner]),
        },
{
}

} // verus!
