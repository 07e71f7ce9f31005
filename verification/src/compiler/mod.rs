pub mod error;
pub mod state;
pub mod weight;
pub mod value;
pub mod expression;
pub mod condition;
pub mod statement;
pub mod block;
pub mod progress;
pub mod reservation;
pub mod definition;

pub use block::X86BlockCompiler;
pub use condition::X86ConditionCompiler;
pub use definition::X86DefinitionCompiler;
pub use error::X86Error;
pub use expression::X86ExpressionCompiler;
pub use statement::X86StatementCompiler;
pub use value::X86ValueCompiler;
