//! The builder of a condition.

use vstd::prelude::*;
use crate::builder::generate::BuilderGenerate;
use crate::types::{Condition, ConditionDiscriminant, Value};

verus! {

/// A comparison with the operands given so far.
#[derive(Debug)]
pub struct ConditionType {
    pub condition_type: ConditionDiscriminant,
    pub left: Option<Box<Value>>,
    pub right: Option<Box<Value>>,
}

impl ConditionType {
    pub fn eq(left: Value, right: Value) -> (builder: Self)
        ensures
            builder.ready(),
            builder.converted() == (Condition::Eq { left, right }),
    {
        Self {
            condition_type: ConditionDiscriminant::Eq,
            right: Some(Box::new(right)),
            left: Some(Box::new(left)),
        }
    }

    pub fn ne(left: Value, right: Value) -> (builder: Self)
        ensures
            builder.ready(),
            builder.converted() == (Condition::Ne { left, right }),
    {
        Self {
            condition_type: ConditionDiscriminant::Ne,
            right: Some(Box::new(right)),
            left: Some(Box::new(left)),
        }
    }

    pub fn gr(left: Value, right: Value) -> (builder: Self)
        ensures
            builder.ready(),
            builder.converted() == (Condition::Gr { left, right }),
    {
        Self {
            condition_type: ConditionDiscriminant::Gr,
            right: Some(Box::new(right)),
            left: Some(Box::new(left)),
        }
    }

    pub fn ge(left: Value, right: Value) -> (builder: Self)
        ensures
            builder.ready(),
            builder.converted() == (Condition::Ge { left, right }),
    {
        Self {
            condition_type: ConditionDiscriminant::Ge,
            right: Some(Box::new(right)),
            left: Some(Box::new(left)),
        }
    }

    pub fn ls(left: Value, right: Value) -> (builder: Self)
        ensures
            builder.ready(),
            builder.converted() == (Condition::Ls { left, right }),
    {
        Self {
            condition_type: ConditionDiscriminant::Ls,
            right: Some(Box::new(right)),
            left: Some(Box::new(left)),
        }
    }

    pub fn le(left: Value, right: Value) -> (builder: Self)
        ensures
            builder.ready(),
            builder.converted() == (Condition::Le { left, right }),
    {
        Self {
            condition_type: ConditionDiscriminant::Le,
            right: Some(Box::new(right)),
            left: Some(Box::new(left)),
        }
    }
}

impl Default for ConditionType {
    fn default() -> (builder: Self)
        ensures
            !builder.ready(),
    {
        Self { condition_type: ConditionDiscriminant::Eq, left: None, right: None }
    }
}

impl BuilderGenerate for ConditionType {
    type Output = Condition;

    open spec fn ready(&self) -> bool {
        self.left is Some && self.right is Some
    }

    open spec fn converted(self) -> Condition {
        match self.condition_type {
            ConditionDiscriminant::Eq => Condition::Eq {
                left: *self.left->0,
                right: *self.right->0,
            },
            ConditionDiscriminant::Ne => Condition::Ne {
                left: *self.left->0,
                right: *self.right->0,
            },
            ConditionDiscriminant::Gr => Condition::Gr {
                left: *self.left->0,
                right: *self.right->0,
            },
            ConditionDiscriminant::Ge => Condition::Ge {
                left: *self.left->0,
                right: *self.right->0,
            },
            ConditionDiscriminant::Ls => Condition::Ls {
                left: *self.left->0,
                right: *self.right->0,
            },
            ConditionDiscriminant::Le => Condition::Le {
                left: *self.left->0,
                right: *self.right->0,
            },
        }
    }

    fn convert(self) -> (output: Condition) {
        let Self { condition_type, left, right } = self;
        let left = left.unwrap();
        let right = right.unwrap();
        match condition_type {
            ConditionDiscriminant::Eq => Condition::Eq { left: *left, right: *right },
            ConditionDiscriminant::Ne => Condition::Ne { left: *left, right: *right },
            ConditionDiscriminant::Gr => Condition::Gr { left: *left, right: *right },
            ConditionDiscriminant::Ge => Condition::Ge { left: *left, right: *right },
            ConditionDiscriminant::Ls => Condition::Ls { left: *left, right: *right },
            ConditionDiscriminant::Le => Condition::Le { left: *left, right: *right },
        }
    }
}

} // verus!
