//! The builder of an expression.

use vstd::prelude::*;
use crate::builder::generate::BuilderGenerate;
use crate::types::{Expression, ExpressionDiscriminant, Value};

verus! {

/// An operation with the operands given so far.
#[derive(Debug)]
pub struct ExpressionType {
    expression_type: ExpressionDiscriminant,
    target: Option<Box<Value>>,
    source: Option<Box<Value>>,
}

/// Whether an operation of this kind has two operands.
pub open spec fn has_two_operands(kind: ExpressionDiscriminant) -> bool {
    !(kind is BitwiseNot || kind is BitwiseNeg || kind is Inc || kind is Dec || kind is Value)
}

impl ExpressionType {
    pub fn add(source: Value, target: Value) -> (builder: Self)
        ensures
            builder.ready(),
            builder.converted() == (Expression::Add { source, target }),
    {
        Self {
            expression_type: ExpressionDiscriminant::Add,
            source: Some(Box::new(source)),
            target: Some(Box::new(target)),
        }
    }

    pub fn sub(source: Value, target: Value) -> (builder: Self)
        ensures
            builder.ready(),
            builder.converted() == (Expression::Sub { source, target }),
    {
        Self {
            expression_type: ExpressionDiscriminant::Sub,
            source: Some(Box::new(source)),
            target: Some(Box::new(target)),
        }
    }

    /// The quotient of the second operand by the first: `div(2, 10)` is 5.
    pub fn div(divided: Value, divider: Value) -> (builder: Self)
        ensures
            builder.ready(),
            builder.converted() == (Expression::Div { divider: divided, divided: divider }),
    {
        Self {
            expression_type: ExpressionDiscriminant::Div,
            source: Some(Box::new(divided)),
            target: Some(Box::new(divider)),
        }
    }

    pub fn mul(source: Value, target: Value) -> (builder: Self)
        ensures
            builder.ready(),
            builder.converted() == (Expression::Mul { source, target }),
    {
        Self {
            expression_type: ExpressionDiscriminant::Mul,
            source: Some(Box::new(source)),
            target: Some(Box::new(target)),
        }
    }

    /// The remainder of the second operand by the first: `modulo(3, 10)` is 1.
    pub fn modulo(divided: Value, divider: Value) -> (builder: Self)
        ensures
            builder.ready(),
            builder.converted() == (Expression::Modulo { divider: divided, divided: divider }),
    {
        Self {
            expression_type: ExpressionDiscriminant::Modulo,
            source: Some(Box::new(divided)),
            target: Some(Box::new(divider)),
        }
    }

    pub fn dec(source: String) -> (builder: Self)
        ensures
            builder.ready(),
            builder.converted() == (Expression::Dec { source: Value::Variable(source) }),
    {
        Self {
            expression_type: ExpressionDiscriminant::Dec,
            source: Some(Box::new(Value::Variable(source))),
            target: None,
        }
    }

    pub fn inc(source: String) -> (builder: Self)
        ensures
            builder.ready(),
            builder.converted() == (Expression::Inc { source: Value::Variable(source) }),
    {
        Self {
            expression_type: ExpressionDiscriminant::Inc,
            source: Some(Box::new(Value::Variable(source))),
            target: None,
        }
    }

    pub fn bitwise_not(source: Value) -> (builder: Self)
        ensures
            builder.ready(),
            builder.converted() == (Expression::BitwiseNot { source }),
    {
        Self {
            expression_type: ExpressionDiscriminant::BitwiseNot,
            source: Some(Box::new(source)),
            target: None,
        }
    }

    pub fn bitwise_and(source: Value, target: Value) -> (builder: Self)
        ensures
            builder.ready(),
            builder.converted() == (Expression::BitwiseAnd { source, target }),
    {
        Self {
            expression_type: ExpressionDiscriminant::BitwiseAnd,
            source: Some(Box::new(source)),
            target: Some(Box::new(target)),
        }
    }

    pub fn bitwise_or(source: Value, target: Value) -> (builder: Self)
        ensures
            builder.ready(),
            builder.converted() == (Expression::BitwiseOr { source, target }),
    {
        Self {
            expression_type: ExpressionDiscriminant::BitwiseOr,
            source: Some(Box::new(source)),
            target: Some(Box::new(target)),
        }
    }

    pub fn bitwise_xor(source: Value, target: Value) -> (builder: Self)
        ensures
            builder.ready(),
            builder.converted() == (Expression::BitwiseXor { source, target }),
    {
        Self {
            expression_type: ExpressionDiscriminant::BitwiseXor,
            source: Some(Box::new(source)),
            target: Some(Box::new(target)),
        }
    }

    pub fn bitwise_neg(source: Value) -> (builder: Self)
        ensures
            builder.ready(),
            builder.converted() == (Expression::BitwiseNeg { source }),
    {
        Self {
            expression_type: ExpressionDiscriminant::BitwiseNeg,
            source: Some(Box::new(source)),
            target: None,
        }
    }

    pub fn shift_left(source: Value, target: Value) -> (builder: Self)
        ensures
            builder.ready(),
            builder.converted() == (Expression::ShiftLeft { source, target }),
    {
        Self {
            expression_type: ExpressionDiscriminant::ShiftLeft,
            source: Some(Box::new(source)),
            target: Some(Box::new(target)),
        }
    }

    pub fn shift_right(source: Value, target: Value) -> (builder: Self)
        ensures
            builder.ready(),
            builder.converted() == (Expression::ShiftRight { source, target }),
    {
        Self {
            expression_type: ExpressionDiscriminant::ShiftRight,
            source: Some(Box::new(source)),
            target: Some(Box::new(target)),
        }
    }

    pub fn value(source: Value) -> (builder: Self)
        ensures
            builder.ready(),
            builder.converted() == Expression::Value(source),
    {
        Self {
            expression_type: ExpressionDiscriminant::Value,
            source: Some(Box::new(source)),
            target: None,
        }
    }
}

impl Default for ExpressionType {
    fn default() -> (builder: Self)
        ensures
            !builder.ready(),
    {
        Self { expression_type: ExpressionDiscriminant::Add, target: None, source: None }
    }
}

impl BuilderGenerate for ExpressionType {
    type Output = Expression;

    closed spec fn ready(&self) -> bool {
        self.source is Some && (has_two_operands(self.expression_type) ==> self.target is Some)
    }

    closed spec fn converted(self) -> Expression {
        match self.expression_type {
            ExpressionDiscriminant::Add => Expression::Add {
                source: *self.source->0,
                target: *self.target->0,
            },
            ExpressionDiscriminant::Sub => Expression::Sub {
                source: *self.source->0,
                target: *self.target->0,
            },
            ExpressionDiscriminant::Div => Expression::Div {
                divider: *self.source->0,
                divided: *self.target->0,
            },
            ExpressionDiscriminant::Mul => Expression::Mul {
                source: *self.source->0,
                target: *self.target->0,
            },
            ExpressionDiscriminant::Modulo => Expression::Modulo {
                divider: *self.source->0,
                divided: *self.target->0,
            },
            ExpressionDiscriminant::ShiftLeft => Expression::ShiftLeft {
                source: *self.source->0,
                target: *self.target->0,
            },
            ExpressionDiscriminant::ShiftRight => Expression::ShiftRight {
                source: *self.source->0,
                target: *self.target->0,
            },
            ExpressionDiscriminant::BitwiseNot => Expression::BitwiseNot {
                source: *self.source->0,
            },
            ExpressionDiscriminant::BitwiseAnd => Expression::BitwiseAnd {
                source: *self.source->0,
                target: *self.target->0,
            },
            ExpressionDiscriminant::BitwiseOr => Expression::BitwiseOr {
                source: *self.source->0,
                target: *self.target->0,
            },
            ExpressionDiscriminant::BitwiseXor => Expression::BitwiseXor {
                source: *self.source->0,
                target: *self.target->0,
            },
            ExpressionDiscriminant::BitwiseNeg => Expression::BitwiseNeg {
                source: *self.source->0,
            },
            ExpressionDiscriminant::Inc => Expression::Inc { source: *self.source->0 },
            ExpressionDiscriminant::Dec => Expression::Dec { source: *self.source->0 },
            ExpressionDiscriminant::Value => Expression::Value(*self.source->0),
        }
    }

    fn convert(self) -> (output: Expression) {
        let Self { expression_type, target, source } = self;
        let source = source.unwrap();
        match expression_type {
            ExpressionDiscriminant::BitwiseNot => Expression::BitwiseNot { source: *source },
            ExpressionDiscriminant::BitwiseNeg => Expression::BitwiseNeg { source: *source },
            ExpressionDiscriminant::Inc => Expression::Inc { source: *source },
            ExpressionDiscriminant::Dec => Expression::Dec { source: *source },
            ExpressionDiscriminant::Value => Expression::Value(*source),
            _ => {
                let target = target.unwrap();
                match expression_type {
                    ExpressionDiscriminant::Add => Expression::Add {
                        source: *source,
                        target: *target,
                    },
                    ExpressionDiscriminant::Sub => Expression::Sub {
                        source: *source,
                        target: *target,
                    },
                    ExpressionDiscriminant::Div => Expression::Div {
                        divider: *source,
                        divided: *target,
                    },
                    ExpressionDiscriminant::Mul => Expression::Mul {
                        source: *source,
                        target: *target,
                    },
                    ExpressionDiscriminant::Modulo => Expression::Modulo {
                        divider: *source,
                        divided: *target,
                    },
                    ExpressionDiscriminant::ShiftLeft => Expression::ShiftLeft {
                        source: *source,
                        target: *target,
                    },
                    ExpressionDiscriminant::ShiftRight => Expression::ShiftRight {
                        source: *source,
                        target: *target,
                    },
                    ExpressionDiscriminant::BitwiseAnd => Expression::BitwiseAnd {
                        source: *source,
                        target: *target,
                    },
                    ExpressionDiscriminant::BitwiseOr => Expression::BitwiseOr {
                        source: *source,
                        target: *target,
                    },
                    ExpressionDiscriminant::BitwiseXor => Expression::BitwiseXor {
                        source: *source,
                        target: *target,
                    },
                    _ => Expression::Add { source: *source, target: *target },
                }
            },
        }
    }
}

} // verus!
