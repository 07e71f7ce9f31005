//! The state that the compilers pass on, and how a result is held against
//! what it should be.

use vstd::prelude::*;
use crate::compiler::error::{ErrorView, X86Error};
use crate::context::{AsmView, ContextView};
use crate::instruction::InstructionView;
use crate::location::{Location, LocationView};
use crate::store::{StoreView, MAX_FRAME_SIZE};

verus! {

/// The store of the function being compiled together with the context of
/// the whole compilation.
pub struct State {
    pub store: StoreView,
    pub context: ContextView,
}

impl State {
    /// The state made of a store and a context.
    pub open spec fn of(store: StoreView, context: ContextView) -> State {
        State { store, context }
    }

    /// The state after one instruction is emitted.
    pub open spec fn instruction(self, instruction: InstructionView) -> State {
        State { context: self.context.instruction(instruction), ..self }
    }

    /// The state after a comment is emitted.
    pub open spec fn comment(self, text: Seq<char>) -> State {
        State { context: self.context.comment(text), ..self }
    }

    /// The state after a fresh branch label is handed out and emitted.
    pub open spec fn fresh_branch(self) -> State {
        State { context: self.context.fresh_branch(), ..self }
    }

    /// The state after the item at `position` is replaced by `instruction`.
    pub open spec fn patched(self, position: int, instruction: InstructionView) -> State {
        State {
            context: ContextView {
                instructions: self.context.instructions.update(
                    position,
                    AsmView::Instruction(instruction),
                ),
                ..self.context
            },
            ..self
        }
    }

    /// The compilation that stops in this state with the given error.
    pub open spec fn fails(self, error: ErrorView) -> Failure {
        Failure { error, state: self }
    }

    /// There is room for `weight` more stack slots of 8 bytes and for
    /// `weight` more branch labels.
    pub open spec fn fits(self, weight: nat) -> bool {
        &&& self.store.last_position + 8 * weight <= MAX_FRAME_SIZE
        &&& self.context.branch_counter + weight <= usize::MAX
    }
}

/// A compilation that stopped: why, and the state in which it stopped.
/// Nothing is taken back when a compilation stops: what was emitted and
/// bound before stands as it stood.
pub struct Failure {
    pub error: ErrorView,
    pub state: State,
}

/// From `before` to `after` items were emitted and nothing else happened to
/// what had been emitted: the items of `before` stand where they stood, and
/// no jump among the new ones is without its target. Branch labels were
/// handed out, never taken back.
pub open spec fn appends(before: ContextView, after: ContextView) -> bool {
    &&& after.os == before.os
    &&& before.branch_counter <= after.branch_counter
    &&& before.instructions.len() <= after.instructions.len()
    &&& forall|i: int|
        0 <= i < before.instructions.len() ==> #[trigger] after.instructions[i]
            == before.instructions[i]
    &&& forall|i: int|
        before.instructions.len() <= i < after.instructions.len() ==> !(
        #[trigger] after.instructions[i]).is_open_jump()
}

/// From `before` to `after` nothing that was emitted was taken back or
/// changed: the items of `before` stand where they stood.
pub open spec fn keeps(before: ContextView, after: ContextView) -> bool {
    &&& after.os == before.os
    &&& before.branch_counter <= after.branch_counter
    &&& before.instructions.len() <= after.instructions.len()
    &&& forall|i: int|
        0 <= i < before.instructions.len() ==> #[trigger] after.instructions[i]
            == before.instructions[i]
}

/// From `before` to `after` nothing was taken back: what had been emitted
/// stands where it stood, and the variables that had been bound are where
/// they were. This holds of every compilation, also of one that stops with
/// an error.
pub open spec fn stands(before: State, after: State) -> bool {
    &&& keeps(before.context, after.context)
    &&& before.store.variables.len() <= after.store.variables.len()
    &&& forall|i: int|
        0 <= i < before.store.variables.len() ==> #[trigger] after.store.variables[i]
            == before.store.variables[i]
}

/// No item emitted from `before` to `after` is a jump.
pub open spec fn calm(before: ContextView, after: ContextView) -> bool {
    forall|i: int|
        before.instructions.len() <= i < after.instructions.len() ==> !(
        #[trigger] after.instructions[i]).is_jump()
}

/// No item emitted from `before` to `after` takes room from the stack.
pub open spec fn quiet(before: ContextView, after: ContextView) -> bool {
    forall|i: int|
        before.instructions.len() <= i < after.instructions.len() ==> !(
        #[trigger] after.instructions[i]).reserves()
}

/// The item at `jump` names the label that stands at `label`.
pub open spec fn lands_at(items: Seq<AsmView>, jump: int, label: int) -> bool {
    items[jump] matches AsmView::Instruction(instruction) && instruction.label matches Some(name)
        && items[label] == AsmView::Branch(name)
}

/// Every jump among the items from `from` on goes to a label that stands
/// among them.
pub open spec fn lands(items: Seq<AsmView>, from: int) -> bool {
    forall|i: int|
        from <= i < items.len() && (#[trigger] items[i]).is_jump() ==> exists|j: int|
            from <= j < items.len() && #[trigger] lands_at(items, i, j)
}

/// From `before` to `after` a statement of the given weight was compiled:
/// items were emitted, the frame is well formed and grew by no more than
/// the weight allows, the variables of `before` are where they were, and
/// the pool of scratch registers is as it was.
#[verifier::opaque]
pub open spec fn advances(before: State, after: State, weight: nat) -> bool {
    &&& appends(before.context, after.context)
    &&& after.context.branch_counter <= before.context.branch_counter + weight
    &&& after.store.wf()
    &&& after.store.last_position <= before.store.last_position + 8 * weight
    &&& after.store.registers == before.store.registers
    &&& before.store.variables.len() <= after.store.variables.len()
    &&& forall|i: int|
        0 <= i < before.store.variables.len() ==> #[trigger] after.store.variables[i]
            == before.store.variables[i]
}

/// A compilation that produces an operand ended as `expected` says: with
/// that operand and in that state, or with that error in the state in
/// which it stopped.
pub open spec fn located(
    expected: Result<(LocationView, State), Failure>,
    result: Result<Location, X86Error>,
    store: StoreView,
    context: ContextView,
) -> bool {
    match expected {
        Ok((location, state)) => {
            &&& result matches Ok(produced)
            &&& produced@ == location
            &&& store == state.store
            &&& context == state.context
        },
        Err(failure) => {
            &&& result matches Err(raised)
            &&& raised@ == failure.error
            &&& store == failure.state.store
            &&& context == failure.state.context
        },
    }
}

/// A compilation that produces no value ended as `expected` says: in that
/// state, or with that error in the state in which it stopped.
pub open spec fn completed(
    expected: Result<State, Failure>,
    result: Result<(), X86Error>,
    store: StoreView,
    context: ContextView,
) -> bool {
    match expected {
        Ok(state) => result is Ok && store == state.store && context == state.context,
        Err(failure) => {
            &&& result matches Err(raised)
            &&& raised@ == failure.error
            &&& store == failure.state.store
            &&& context == failure.state.context
        },
    }
}

/// What was emitted in two steps was emitted.
pub proof fn lemma_appends_chain(
    first: crate::context::ContextView,
    second: crate::context::ContextView,
    third: crate::context::ContextView,
)
    requires
        appends(first, second),
        appends(second, third),
    ensures
        appends(first, third),
{
    assert forall|i: int| 0 <= i < first.instructions.len() implies #[trigger] third.instructions[i]
        == first.instructions[i] by {
        assert(third.instructions[i] == second.instructions[i]);
    }
    assert forall|i: int| first.instructions.len() <= i < third.instructions.len() implies !(
    #[trigger] third.instructions[i]).is_open_jump() by {
        if i < second.instructions.len() {
            assert(third.instructions[i] == second.instructions[i]);
        }
    }
}

/// A state advances to itself by nothing.
pub proof fn lemma_advances_nowhere(state: State)
    requires
        state.store.wf(),
    ensures
        advances(state, state, 0),
{
    reveal(advances);
}

/// Two statements compiled one after the other advance by their weights together.
pub proof fn lemma_advances_chain(first: State, second: State, third: State, weight: nat, more: nat)
    requires
        advances(first, second, weight),
        advances(second, third, more),
    ensures
        advances(first, third, weight + more),
{
    reveal(advances);
    lemma_appends_chain(first.context, second.context, third.context);
    assert forall|i: int| 0 <= i < first.store.variables.len() implies #[trigger] third.store.variables[i]
        == first.store.variables[i] by {
        assert(third.store.variables[i] == second.store.variables[i]);
    }
}

/// What follows of numbers from an advance: the frame and the branch
/// labels stay within the weight, and nothing emitted is taken back.
pub proof fn lemma_advances_bounds(before: State, after: State, weight: nat)
    requires
        advances(before, after, weight),
    ensures
        after.store.wf(),
        after.store.last_position <= before.store.last_position + 8 * weight,
        before.context.branch_counter <= after.context.branch_counter <= before.context.branch_counter
            + weight,
        before.context.instructions.len() <= after.context.instructions.len(),
        after.context.os == before.context.os,
        after.store.registers == before.store.registers,
{
    reveal(advances);
}

/// What is kept over one step and over the next is kept over both.
pub proof fn lemma_keeps_chain(first: ContextView, second: ContextView, third: ContextView)
    requires
        keeps(first, second),
        keeps(second, third),
    ensures
        keeps(first, third),
{
    assert forall|i: int| 0 <= i < first.instructions.len() implies #[trigger] third.instructions[i]
        == first.instructions[i] by {
        assert(third.instructions[i] == second.instructions[i]);
    }
}

/// What stands after one step and after the next stands after both.
pub proof fn lemma_stands_chain(first: State, second: State, third: State)
    requires
        stands(first, second),
        stands(second, third),
    ensures
        stands(first, third),
{
    lemma_keeps_chain(first.context, second.context, third.context);
    assert forall|i: int| 0 <= i < first.store.variables.len() implies #[trigger] third.store.variables[i]
        == first.store.variables[i] by {
        assert(third.store.variables[i] == second.store.variables[i]);
    }
}

/// What a statement advanced from stands.
pub proof fn lemma_advances_stands(before: State, after: State, weight: nat)
    requires
        advances(before, after, weight),
    ensures
        stands(before, after),
{
    reveal(advances);
}

/// Where no jump was emitted in one step nor in the next, none was in both.
pub proof fn lemma_calm_chain(first: ContextView, second: ContextView, third: ContextView)
    requires
        first.instructions.len() <= second.instructions.len(),
        keeps(second, third),
        calm(first, second),
        calm(second, third),
    ensures
        calm(first, third),
{
    assert forall|i: int| first.instructions.len() <= i < third.instructions.len() implies !(
    #[trigger] third.instructions[i]).is_jump() by {
        if i < second.instructions.len() {
            assert(third.instructions[i] == second.instructions[i]);
        }
    }
}

/// Where no item emitted in one step nor in the next takes room from the
/// stack, none does in both.
pub proof fn lemma_quiet_chain(first: ContextView, second: ContextView, third: ContextView)
    requires
        first.instructions.len() <= second.instructions.len(),
        keeps(second, third),
        quiet(first, second),
        quiet(second, third),
    ensures
        quiet(first, third),
{
    assert forall|i: int| first.instructions.len() <= i < third.instructions.len() implies !(
    #[trigger] third.instructions[i]).reserves() by {
        if i < second.instructions.len() {
            assert(third.instructions[i] == second.instructions[i]);
        }
    }
}

/// Where the jumps of the items up to `middle` go to labels among them, and
/// the jumps of the items behind go to labels behind, every jump goes to a
/// label.
pub proof fn lemma_lands_chain(first: Seq<AsmView>, second: Seq<AsmView>, from: int)
    requires
        0 <= from <= first.len() <= second.len(),
        forall|i: int| 0 <= i < first.len() ==> #[trigger] second[i] == first[i],
        lands(first, from),
        lands(second, first.len() as int),
    ensures
        lands(second, from),
{
    assert forall|i: int| from <= i < second.len() && (#[trigger] second[i]).is_jump() implies exists|
        j: int,
    |
        from <= j < second.len() && #[trigger] lands_at(second, i, j) by {
        if i < first.len() {
            assert(second[i] == first[i]);
            assert(first[i].is_jump());
            let j = choose|j: int| from <= j < first.len() && #[trigger] lands_at(first, i, j);
            assert(second[j] == first[j]);
            assert(lands_at(second, i, j));
        } else {
            let j = choose|j: int| first.len() <= j < second.len() && #[trigger] lands_at(second, i, j);
            assert(lands_at(second, i, j));
        }
    }
}

} // verus!
