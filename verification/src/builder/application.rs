//! The builder of a whole program.

use vstd::prelude::*;
use crate::builder::function::FunctionType;
use crate::builder::generate::BuilderGenerate;
use crate::compiler::error::X86Error;
use crate::context::{with_data, DataItemCollection, DataItemView, DataView};
use crate::generator::{assembly, generated, program_fits, GeneratorError, X86AssemblyGenerator};
use crate::tool::defs::TargetOs;
use crate::types::{definitions_view, Definition};

verus! {

/// The functions and the data given so far.
#[derive(Debug)]
pub struct ApplicationType {
    definitions: Vec<Definition>,
    datas: DataItemCollection,
}

impl Default for ApplicationType {
    fn default() -> (builder: Self)
        ensures
            builder.definitions() == Seq::<Definition>::empty(),
            builder.datas() == Seq::<DataItemView>::empty(),
    {
        Self { definitions: Vec::new(), datas: DataItemCollection::default() }
    }
}

impl ApplicationType {
    /// The functions given so far, in their order.
    pub closed spec fn definitions(&self) -> Seq<Definition> {
        self.definitions@
    }

    /// The data given so far.
    pub closed spec fn datas(&self) -> Seq<DataItemView> {
        self.datas@
    }

    pub fn add_function(&mut self, func: FunctionType)
        ensures
            final(self).definitions() == old(self).definitions().push(func.converted()),
            final(self).datas() == old(self).datas(),
    {
        self.definitions.push(func.convert());
    }

    pub fn add_string_data(&mut self, label: &str, data: &str)
        ensures
            final(self).definitions() == old(self).definitions(),
            final(self).datas() == with_data(old(self).datas(), label@, DataView::String(data@)),
    {
        self.datas.add_string_data(label, data)
    }

    pub fn add_byte_data(&mut self, label: &str, data: u8)
        ensures
            final(self).definitions() == old(self).definitions(),
            final(self).datas() == with_data(old(self).datas(), label@, DataView::Byte(data)),
    {
        self.datas.add_byte_data(label, data)
    }

    /// The assembly text of the program for the system this process runs on.
    pub fn build(self) -> (result: Result<String, GeneratorError>)
        requires
            program_fits(definitions_view(self.definitions())),
        ensures
            generated(definitions_view(self.definitions()), self.datas(), result),
    {
        let Self { definitions, datas } = self;
        X86AssemblyGenerator.generate(definitions, datas)
    }

    /// The assembly text of the program for the given system.
    pub fn build_for(self, os: TargetOs) -> (result: Result<String, X86Error>)
        requires
            program_fits(definitions_view(self.definitions())),
        ensures
            match assembly(os, definitions_view(self.definitions()), self.datas()) {
                Ok(text) => result matches Ok(generated) && generated@ == text,
                Err(error) => result matches Err(raised) && raised@ == error,
            },
    {
        let Self { definitions, datas } = self;
        X86AssemblyGenerator.generate_for(os, definitions, datas)
    }

    /// The functions and the data given, for a caller that compiles them itself.
    pub fn into_parts(self) -> (parts: (Vec<Definition>, DataItemCollection))
        ensures
            parts.0@ == self.definitions(),
            parts.1@ == self.datas(),
    {
        let Self { definitions, datas } = self;
        (definitions, datas)
    }
}

} // verus!
