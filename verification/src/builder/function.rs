//! The builder of a function.

use vstd::prelude::*;
use crate::builder::block::BlockType;
use crate::builder::generate::BuilderGenerate;
use crate::tool::defs::{os_defs, OsSpecificDefs, TargetOs};
use crate::types::{Definition, NumberType, Parameter, ParameterView};

verus! {

/// A function with the parts given so far.
#[derive(Debug)]
pub struct FunctionType {
    name: String,
    parameters: Vec<Parameter>,
    block: BlockType,
}

impl Default for FunctionType {
    fn default() -> (builder: Self)
        ensures
            builder.name() == Seq::<char>::empty(),
            builder.parameters() == Seq::<Parameter>::empty(),
            builder.body().statements() == Seq::<crate::types::Statement>::empty(),
    {
        Self { name: String::new(), parameters: Vec::new(), block: BlockType::default() }
    }
}

impl FunctionType {
    /// The name given so far.
    pub closed spec fn name(&self) -> Seq<char> {
        self.name@
    }

    /// The parameters given so far.
    pub closed spec fn parameters(&self) -> Seq<Parameter> {
        self.parameters@
    }

    /// The body given so far.
    pub closed spec fn body(&self) -> BlockType {
        self.block
    }

    /// The function at which a program starts on the system this process
    /// runs on, without parameters and with an empty body; `None` where the
    /// backend does not compile for this system.
    pub fn main() -> (builder: Option<Self>)
        ensures
            builder matches Some(function) ==> function.starts_somewhere(),
    {
        match os_defs() {
            Some(os) => {
                let function = Self::main_for(os);
                assert(function.starts_on(os));
                Some(function)
            },
            None => None,
        }
    }

    /// The function at which a program starts on the given system, without
    /// parameters and with an empty body.
    pub fn main_for(os: TargetOs) -> (builder: Self)
        ensures
            builder.starts_on(os),
    {
        Self {
            name: os.main_function_name().to_owned(),
            parameters: Vec::new(),
            block: BlockType::default(),
        }
    }

    /// This is the function at which a program starts on the given system,
    /// as it is before anything is added: it has the name of the entry, no
    /// parameter and an empty body.
    pub open spec fn starts_on(&self, os: TargetOs) -> bool {
        &&& self.name() == os.spec_main_function_name()
        &&& self.parameters() == Seq::<Parameter>::empty()
        &&& self.body().statements() == Seq::<crate::types::Statement>::empty()
    }

    /// This is the function at which a program starts on one of the systems
    /// that the backend compiles for, as it is before anything is added.
    pub open spec fn starts_somewhere(&self) -> bool {
        exists|os: TargetOs| #[trigger] self.starts_on(os)
    }

    pub fn set_name(&mut self, name: &str)
        ensures
            final(self).name() == name@,
            final(self).parameters() == old(self).parameters(),
            final(self).body() == old(self).body(),
    {
        self.name = name.to_owned();
    }

    pub fn get_name(&mut self) -> (name: &str)
        ensures
            name@ == old(self).name(),
            *final(self) == *old(self),
    {
        self.name.as_str()
    }

    pub fn add_parameter(&mut self, name: &str, param_type: NumberType)
        ensures
            final(self).name() == old(self).name(),
            final(self).body() == old(self).body(),
            final(self).parameters().len() == old(self).parameters().len() + 1,
            final(self).parameters().drop_last() == old(self).parameters(),
            final(self).parameters().last()@ == (ParameterView { name: name@, param_type }),
    {
        self.parameters.push(Parameter { name: name.to_owned(), param_type });
        assert(self.parameters@.drop_last() =~= old(self).parameters@);
    }

    pub fn set_body(&mut self, block: BlockType)
        ensures
            final(self).name() == old(self).name(),
            final(self).parameters() == old(self).parameters(),
            final(self).body() == block,
    {
        self.block = block;
    }
}

impl BuilderGenerate for FunctionType {
    type Output = Definition;

    open spec fn ready(&self) -> bool {
        true
    }

    closed spec fn converted(self) -> Definition {
        Definition::Function {
            name: self.name,
            parameters: self.parameters,
            block: self.block.converted(),
        }
    }

    fn convert(self) -> (output: Definition) {
        let Self { name, parameters, block } = self;
        Definition::Function { name, parameters, block: block.convert() }
    }
}

/// The function that a builder turns into has what was given to it.
pub proof fn lemma_function_parts(builder: FunctionType)
    ensures
        builder.converted() matches Definition::Function { name, parameters, block } && name@
            == builder.name() && parameters@ == builder.parameters() && block
            == builder.body().converted(),
{
}

} // verus!
