//! The builder of a call.

use vstd::prelude::*;
use crate::builder::generate::BuilderGenerate;
use crate::types::{Statement, Value};

verus! {

/// A call with the parts given so far.
#[derive(Debug)]
pub struct CallType {
    pub name: String,
    pub arguments: Vec<Value>,
    pub assign: Option<String>,
    pub is_variadic: bool,
}

impl Default for CallType {
    fn default() -> (builder: Self)
        ensures
            builder.name@ == Seq::<char>::empty(),
            builder.arguments@ == Seq::<Value>::empty(),
            builder.assign is None,
            !builder.is_variadic,
    {
        Self { name: String::new(), arguments: Vec::new(), assign: None, is_variadic: false }
    }
}

impl CallType {
    pub fn set_name(&mut self, name: String)
        ensures
            *final(self) == (CallType { name, ..*old(self) }),
    {
        self.name = name;
    }

    pub fn add_argument(&mut self, arg: Value)
        ensures
            final(self).arguments@ == old(self).arguments@.push(arg),
            final(self).name == old(self).name,
            final(self).assign == old(self).assign,
            final(self).is_variadic == old(self).is_variadic,
    {
        self.arguments.push(arg);
    }

    pub fn assign_to(&mut self, variable_name: String)
        ensures
            *final(self) == (CallType { assign: Some(variable_name), ..*old(self) }),
    {
        self.assign = Some(variable_name);
    }

    pub fn set_variadic(&mut self)
        ensures
            *final(self) == (CallType { is_variadic: true, ..*old(self) }),
    {
        self.is_variadic = true;
    }
}

impl BuilderGenerate for CallType {
    type Output = Statement;

    open spec fn ready(&self) -> bool {
        true
    }

    open spec fn converted(self) -> Statement {
        Statement::Call {
            name: self.name,
            arguments: self.arguments,
            assign: self.assign,
            is_variadic: self.is_variadic,
        }
    }

    fn convert(self) -> (output: Statement) {
        let Self { name, arguments, assign, is_variadic } = self;
        Statement::Call { name, arguments, assign, is_variadic }
    }
}

} // verus!
