//! The builder of a conditional.

use vstd::prelude::*;
use crate::builder::block::BlockType;
use crate::builder::condition::ConditionType;
use crate::builder::generate::BuilderGenerate;
use crate::types::Statement;

verus! {

/// A conditional with the parts given so far.
#[derive(Debug)]
pub struct IfBlockType {
    pub condition: ConditionType,
    pub true_block: BlockType,
    pub false_block: Option<BlockType>,
}

impl Default for IfBlockType {
    fn default() -> (builder: Self)
        ensures
            !builder.ready(),
            builder.false_block is None,
    {
        Self {
            condition: ConditionType::default(),
            true_block: BlockType::default(),
            false_block: None,
        }
    }
}

impl IfBlockType {
    pub fn set_condition(&mut self, condition: ConditionType)
        ensures
            *final(self) == (IfBlockType { condition, ..*old(self) }),
    {
        self.condition = condition;
    }

    pub fn set_true_block(&mut self, true_block: BlockType)
        ensures
            *final(self) == (IfBlockType { true_block, ..*old(self) }),
    {
        self.true_block = true_block;
    }

    pub fn set_false_block(&mut self, false_block: BlockType)
        ensures
            *final(self) == (IfBlockType { false_block: Some(false_block), ..*old(self) }),
    {
        self.false_block = Some(false_block);
    }
}

impl BuilderGenerate for IfBlockType {
    type Output = Statement;

    open spec fn ready(&self) -> bool {
        self.condition.ready()
    }

    open spec fn converted(self) -> Statement {
        Statement::If {
            condition: self.condition.converted(),
            true_block: self.true_block.converted(),
            false_block: match self.false_block {
                Some(block) => Some(block.converted()),
                None => None,
            },
        }
    }

    fn convert(self) -> (output: Statement) {
        let Self { condition, true_block, false_block } = self;
        Statement::If {
            condition: condition.convert(),
            true_block: true_block.convert(),
            false_block: match false_block {
                Some(block) => Some(block.convert()),
                None => None,
            },
        }
    }
}

} // verus!
