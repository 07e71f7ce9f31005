//! Blocks: statements in their order.

use vstd::prelude::*;
use crate::compiler::error::X86Error;
use crate::compiler::state::{
    advances,
    completed,
    lemma_advances_bounds,
    lemma_advances_chain,
    lemma_advances_nowhere,
    Failure,
    State,
};
use crate::compiler::statement::{block_code, statement_code, statements_code, X86StatementCompiler};
use crate::compiler::weight::{
    block_weight,
    lemma_statements_weight_grows,
    statement_weight,
    statements_weight,
};
use crate::context::ApplicationContext;
use crate::store::Store;
use crate::types::{lemma_statements_view, Block, StatementView};

verus! {

/// Once a statement of a block fails, the block fails with its error.
pub proof fn lemma_statements_code_fails(
    items: Seq<StatementView>,
    failed: int,
    count: int,
    state: State,
)
    requires
        0 <= failed <= count <= items.len(),
        statements_code(items, failed, state) is Err,
    ensures
        statements_code(items, count, state) == statements_code(items, failed, state),
    decreases count - failed,
{
    if failed < count {
        lemma_statements_code_fails(items, failed, count - 1, state);
    }
}

/// The code of a block is the code of all its statements but the last,
/// then that of the last.
pub proof fn lemma_statements_code_step(items: Seq<StatementView>, count: int, state: State)
    requires
        0 < count <= items.len(),
    ensures
        statements_code(items, count, state) == match statements_code(items, count - 1, state) {
            Err(error) => Err(error),
            Ok(after) => statement_code(items[count - 1], after),
        },
{
    reveal(statement_code);
}

/// Compiles blocks.
pub struct X86BlockCompiler;

impl X86BlockCompiler {
    /// Emits the code of the statements of the block, in their order.
    pub fn compile(block: Block, scope: &mut Store, context: &mut ApplicationContext) -> (result: Result<
        (),
        X86Error,
    >)
        requires
            old(scope)@.wf(),
            State::of(old(scope)@, old(context)@).fits(block_weight(block@)),
        ensures
            completed(
                block_code(block@, State::of(old(scope)@, old(context)@)),
                result,
                final(scope)@,
                final(context)@,
            ),
            result is Ok ==> advances(
                State::of(old(scope)@, old(context)@),
                State::of(final(scope)@, final(context)@),
                block_weight(block@),
            ),
    {
        Self::compile_block(&block, scope, context)
    }

    /// `compile` on a borrowed block.
    pub fn compile_block(block: &Block, scope: &mut Store, context: &mut ApplicationContext) -> (result:
        Result<(), X86Error>)
        requires
            old(scope)@.wf(),
            State::of(old(scope)@, old(context)@).fits(block_weight(block@)),
        ensures
            completed(
                block_code(block@, State::of(old(scope)@, old(context)@)),
                result,
                final(scope)@,
                final(context)@,
            ),
            result is Ok ==> advances(
                State::of(old(scope)@, old(context)@),
                State::of(final(scope)@, final(context)@),
                block_weight(block@),
            ),
        decreases block,
    {
        let ghost initial = State::of(scope@, context@);
        let ghost items = block@;
        let mut index: usize = 0;
        proof {
            lemma_advances_nowhere(initial);
            lemma_statements_view(block.items@, block.items@.len() as int);
        }
        while index < block.items.len()
            invariant
                index <= block.items.len(),
                items == block@,
                items.len() == block.items@.len(),
                forall|i: int| 0 <= i < items.len() ==> #[trigger] items[i] == block.items@[i]@,
                initial == State::of(old(scope)@, old(context)@),
                initial.store.wf(),
                initial.fits(block_weight(block@)),
                statements_code(items, index as int, initial) == Ok::<State, Failure>(
                    State::of(scope@, context@),
                ),
                advances(
                    initial,
                    State::of(scope@, context@),
                    statements_weight(items, index as int),
                ),
            decreases block.items.len() - index,
        {
            let ghost before = State::of(scope@, context@);
            proof {
                lemma_advances_bounds(initial, before, statements_weight(items, index as int));
                lemma_statements_weight_grows(items, index + 1, items.len() as int);
                lemma_statements_code_step(items, index + 1, initial);
            }
            match X86StatementCompiler::compile_statement(&block.items[index], scope, context) {
                Ok(()) => {},
                Err(error) => {
                    proof {
                        lemma_statements_code_fails(items, index + 1, items.len() as int, initial);
                    }
                    return Err(error);
                },
            }
            proof {
                lemma_advances_chain(
                    initial,
                    before,
                    State::of(scope@, context@),
                    statements_weight(items, index as int),
                    statement_weight(items[index as int]),
                );
            }
            index += 1;
        }
        Ok(())
    }
}

} // verus!
