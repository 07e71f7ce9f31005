//! Builders that put the intermediate representation together step by step.

pub mod application;
pub mod block;
pub mod call;
pub mod condition;
pub mod expression;
pub mod function;
pub mod generate;
pub mod if_block;

pub use application::ApplicationType;
pub use block::BlockType;
pub use call::CallType;
pub use condition::ConditionType;
pub use expression::ExpressionType;
pub use function::FunctionType;
pub use generate::BuilderGenerate;
pub use if_block::IfBlockType;
