//! How much of the frame and how many branch labels a piece of a program
//! can take at most.

use vstd::prelude::*;
use crate::types::{lemma_statements_view, Block, Statement, StatementView};

verus! {

/// An upper bound on what compiling `statement` takes from the frame, in
/// stack slots of 8 bytes, and on the branch labels it takes.
pub open spec fn statement_weight(statement: StatementView) -> nat
    decreases statement, 0int,
{
    match statement {
        StatementView::Assign { .. } => 1,
        StatementView::If { true_block, false_block, .. } => 2 + statements_weight(
            true_block,
            true_block.len() as int,
        ) + match false_block {
            Some(false_block) => statements_weight(false_block, false_block.len() as int),
            None => 0,
        },
        StatementView::Print { arguments, .. } => arguments.len() + 2,
        StatementView::Call { arguments, .. } => arguments.len() + 1,
        StatementView::Return(_) => 0,
    }
}

/// The weights of the first `count` of `items`, summed.
pub open spec fn statements_weight(items: Seq<StatementView>, count: int) -> nat
    decreases items, count,
{
    if count <= 0 || count > items.len() {
        0
    } else {
        statements_weight(items, count - 1) + statement_weight(items[count - 1])
    }
}

/// The weight of a block: that of all its statements.
pub open spec fn block_weight(block: Seq<StatementView>) -> nat {
    statements_weight(block, block.len() as int)
}

/// The weight of more statements is no less.
pub proof fn lemma_statements_weight_grows(items: Seq<StatementView>, fewer: int, more: int)
    requires
        0 <= fewer <= more <= items.len(),
    ensures
        statements_weight(items, fewer) <= statements_weight(items, more),
    decreases more - fewer,
{
    if fewer < more {
        lemma_statements_weight_grows(items, fewer, more - 1);
    }
}

/// A weight that the machine holds, or none where the weight is beyond it.
pub open spec fn weighs(weight: Option<usize>, exact: nat) -> bool {
    match weight {
        Some(weight) => weight == exact,
        None => exact > usize::MAX,
    }
}

/// The sum of two weights, where the machine can hold it.
pub fn add_weights(first: Option<usize>, second: Option<usize>) -> (sum: Option<usize>)
    ensures
        match sum {
            Some(sum) => first matches Some(a) && second matches Some(b) && sum == a + b,
            None => first is None || second is None || first->0 + second->0 > usize::MAX,
        },
{
    match (first, second) {
        (Some(first), Some(second)) => if first > usize::MAX - second {
            None
        } else {
            Some(first + second)
        },
        _ => None,
    }
}

/// The weight of a statement, where the machine can hold it.
pub fn weigh_statement(statement: &Statement) -> (weight: Option<usize>)
    ensures
        weighs(weight, statement_weight(statement@)),
    decreases statement,
{
    match statement {
        Statement::Assign { .. } => Some(1),
        Statement::If { condition: _, true_block, false_block } => {
            let first = weigh_block(true_block);
            let second = match false_block {
                Some(false_block) => weigh_block(false_block),
                None => Some(0),
            };
            add_weights(Some(2), add_weights(first, second))
        },
        Statement::Print { format: _, arguments } => add_weights(Some(arguments.len()), Some(2)),
        Statement::Call { name: _, arguments, assign: _, is_variadic: _ } => add_weights(
            Some(arguments.len()),
            Some(1),
        ),
        Statement::Return(_) => Some(0),
    }
}

/// The weight of a block, where the machine can hold it.
pub fn weigh_block(block: &Block) -> (weight: Option<usize>)
    ensures
        weighs(weight, block_weight(block@)),
    decreases block,
{
    let mut total: usize = 0;
    let mut index: usize = 0;
    proof {
        lemma_statements_view(block.items@, block.items@.len() as int);
    }
    while index < block.items.len()
        invariant
            index <= block.items.len(),
            block@.len() == block.items@.len(),
            forall|i: int| 0 <= i < block@.len() ==> #[trigger] block@[i] == block.items@[i]@,
            total == statements_weight(block@, index as int),
        decreases block.items.len() - index,
    {
        proof {
            lemma_statements_weight_grows(block@, index + 1, block@.len() as int);
        }
        match add_weights(Some(total), weigh_statement(&block.items[index])) {
            Some(sum) => {
                total = sum;
            },
            None => {
                return None;
            },
        }
        index += 1;
    }
    Some(total)
}

} // verus!
