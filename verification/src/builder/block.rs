//! The builder of a block.

use vstd::prelude::*;
use crate::builder::expression::ExpressionType;
use crate::builder::generate::BuilderGenerate;
use crate::builder::if_block::IfBlockType;
use crate::types::{Block, Number, Statement, StatementView, Value, ValueView};

verus! {

/// The statements given so far, in their order.
#[derive(Debug)]
pub struct BlockType {
    items: Vec<Statement>,
}

impl Default for BlockType {
    fn default() -> (builder: Self)
        ensures
            builder.statements() == Seq::<Statement>::empty(),
    {
        Self { items: Vec::new() }
    }
}

impl BlockType {
    /// The statements given so far.
    pub closed spec fn statements(&self) -> Seq<Statement> {
        self.items@
    }

    /// `self` ends in one more statement than `before`, which is `last`.
    pub open spec fn follows(&self, before: &BlockType, last: Statement) -> bool {
        self.statements() == before.statements().push(last)
    }

    pub fn add_assign(&mut self, name: &str, expression: ExpressionType)
        requires
            expression.ready(),
        ensures
            final(self).statements().len() == old(self).statements().len() + 1,
            final(self).statements().drop_last() == old(self).statements(),
            final(self).statements().last()@ == (StatementView::Assign {
                name: name@,
                assigne: expression.converted()@,
            }),
    {
        self.items.push(Statement::Assign { name: name.to_owned(), assigne: expression.convert() });
        assert(self.items@.drop_last() =~= old(self).items@);
    }

    pub fn add_if(&mut self, if_block: IfBlockType)
        requires
            if_block.ready(),
        ensures
            final(self).follows(old(self), if_block.converted()),
    {
        self.items.push(if_block.convert());
    }

    pub fn add_print(&mut self, format: String, arguments: Vec<Value>)
        ensures
            final(self).follows(old(self), Statement::Print { format, arguments }),
    {
        self.items.push(Statement::Print { format, arguments })
    }

    pub fn add_call(&mut self, name: String, arguments: Vec<Value>)
        ensures
            final(self).follows(
                old(self),
                Statement::Call { name, arguments, assign: None, is_variadic: false },
            ),
    {
        self.items.push(Statement::Call { name, arguments, assign: None, is_variadic: false })
    }

    pub fn add_call_and_assign(&mut self, name: String, arguments: Vec<Value>, variable_name: String)
        ensures
            final(self).follows(
                old(self),
                Statement::Call {
                    name,
                    arguments,
                    assign: Some(variable_name),
                    is_variadic: false,
                },
            ),
    {
        self.items.push(
            Statement::Call { name, arguments, assign: Some(variable_name), is_variadic: false },
        )
    }

    pub fn add_return(&mut self)
        ensures
            final(self).follows(old(self), Statement::Return(None)),
    {
        self.items.push(Statement::Return(None))
    }

    pub fn add_return_number(&mut self, value: Number)
        ensures
            final(self).follows(old(self), Statement::Return(Some(Value::Number(value)))),
    {
        self.items.push(Statement::Return(Some(Value::Number(value))))
    }

    pub fn add_return_variable(&mut self, name: &str)
        ensures
            final(self).statements().len() == old(self).statements().len() + 1,
            final(self).statements().drop_last() == old(self).statements(),
            final(self).statements().last()@ == StatementView::Return(
                Some(ValueView::Variable(name@)),
            ),
    {
        self.items.push(Statement::Return(Some(Value::Variable(name.to_owned()))));
        assert(self.items@.drop_last() =~= old(self).items@);
    }
}

impl BuilderGenerate for BlockType {
    type Output = Block;

    open spec fn ready(&self) -> bool {
        true
    }

    closed spec fn converted(self) -> Block {
        Block { items: self.items }
    }

    fn convert(self) -> (output: Block) {
        let Self { items } = self;
        Block { items }
    }
}

/// The block that a builder turns into holds the statements given to it.
pub proof fn lemma_block_statements(builder: BlockType)
    ensures
        builder.converted().items@ == builder.statements(),
{
}

} // verus!
